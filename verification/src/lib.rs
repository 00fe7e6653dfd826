//! Verified core of a Bing-maps terrain viewer: request and response rules
//! for the Bing REST services, the response cache of the fetch loop, the
//! choice of which location to load, the rules of dragging the terrain, and
//! the layout of the terrain chunks.
pub mod bing;
pub mod bing_api;
pub mod drag;
pub mod fetch;
pub mod hand;
pub mod location;
pub mod terrain;
pub mod text;
