# bing_terrain

A terrain viewer for StereoKit that drapes Bing aerial imagery over Bing
elevation data for a few well-known places.

- `src/` is the verified library: the URLs of the imagery and elevation
  requests, the checks made on the services' responses, the response cache
  and request plan of the background fetch loop, the choice of the location
  to show, the rules of dragging the terrain, the layout of the terrain
  chunks, and the hand, finger and joint numbering.
- `app/` is the program around it: the StereoKit scene, the HTTP requests,
  JSON decoding, and all floating-point geometry.
- `tests/` runs the library on concrete values.
