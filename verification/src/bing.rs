//! Imagery kinds and request kinds of the Bing imagery service.
use vstd::prelude::*;
use crate::text::{decimal, push_decimal_u8};

verus! {

/// The imagery sets that the Bing imagery service can render.
#[derive(Clone, Copy, Debug, Hash, PartialEq, Eq, Structural)]
pub enum ImageryType {
    Aerial,
    AerialWithLabels,
    AerialWithLabelsOnDemand,
    Streetside,
    BirdsEye,
    BirdsEyeWithLabels,
    Road,
    CanvasDark,
    CanvasLight,
    CanvasGray,
}

/// The name under which the imagery service knows an imagery set.
pub open spec fn imagery_name(t: ImageryType) -> Seq<char> {
    match t {
        ImageryType::Aerial => "Aerial"@,
        ImageryType::AerialWithLabels => "AerialWithLabels"@,
        ImageryType::AerialWithLabelsOnDemand => "AerialWithLabelsOnDemand"@,
        ImageryType::Streetside => "Streetside"@,
        ImageryType::BirdsEye => "BirdsEye"@,
        ImageryType::BirdsEyeWithLabels => "BirdsEyeWithLabels"@,
        ImageryType::Road => "Road"@,
        ImageryType::CanvasDark => "CanvasDark"@,
        ImageryType::CanvasLight => "CanvasLight"@,
        ImageryType::CanvasGray => "CanvasGray"@,
    }
}

impl ImageryType {
    /// The imagery set's name, as it stands in a request URL.
    pub fn to_string(&self) -> (s: String)
        ensures
            s@ == imagery_name(*self),
    {
        let name: &str = match self {
            ImageryType::Aerial => "Aerial",
            ImageryType::AerialWithLabels => "AerialWithLabels",
            ImageryType::AerialWithLabelsOnDemand => "AerialWithLabelsOnDemand",
            ImageryType::Streetside => "Streetside",
            ImageryType::BirdsEye => "BirdsEye",
            ImageryType::BirdsEyeWithLabels => "BirdsEyeWithLabels",
            ImageryType::Road => "Road",
            ImageryType::CanvasDark => "CanvasDark",
            ImageryType::CanvasLight => "CanvasLight",
            ImageryType::CanvasGray => "CanvasGray",
        };
        String::from_str(name)
    }
}

/// What an imagery request asks for: the image itself, or its metadata.
pub enum RequestType {
    ImageData,
    Metadata,
}

/// The number that the imagery service expects in its `mapMetadata` parameter.
pub open spec fn request_type_id(t: RequestType) -> u8 {
    match t {
        RequestType::ImageData => 0,
        RequestType::Metadata => 1,
    }
}

impl RequestType {
    /// The `mapMetadata` value of this request kind: 0 for the image, 1 for its metadata.
    pub fn to_id(&self) -> (id: u8)
        ensures
            id == request_type_id(*self),
    {
        match self {
            RequestType::ImageData => 0,
            RequestType::Metadata => 1,
        }
    }
}


/// The URL of an imagery request: the imagery set, the map area (the text of
/// a bounding box), the request kind and the API key, in that order.
pub open spec fn image_url_text(
    imagery: ImageryType,
    map_area: Seq<char>,
    request_type: RequestType,
    key: Seq<char>,
) -> Seq<char> {
    "https://dev.virtualearth.net/REST/v1/Imagery/Map/"@ + imagery_name(imagery)
        + "?&format=png&mapArea="@ + map_area + "&mapMetadata="@
        + decimal(request_type_id(request_type) as nat) + "&key="@ + key
}

/// The URL of an elevation request over a bounding box (given as text), on a
/// grid of 32 rows and 32 columns.
pub open spec fn elevation_url_text(bounds: Seq<char>, key: Seq<char>) -> Seq<char> {
    "http://dev.virtualearth.net/REST/v1/Elevation/Bounds?bounds="@ + bounds
        + "&rows=32&cols=32&key="@ + key
}

/// Builds the URL that asks the imagery service for an image, or for its
/// metadata, over `map_area`.
pub fn image_request_url(
    imagery: &ImageryType,
    map_area: &str,
    request_type: &RequestType,
    key: &str,
) -> (url: String)
    ensures
        url@ == image_url_text(*imagery, map_area@, *request_type, key@),
{
    let mut url = String::from_str("https://dev.virtualearth.net/REST/v1/Imagery/Map/");
    let name = imagery.to_string();
    url.append(name.as_str());
    url.append("?&format=png&mapArea=");
    url.append(map_area);
    url.append("&mapMetadata=");
    push_decimal_u8(&mut url, request_type.to_id());
    url.append("&key=");
    url.append(key);
    url
}

/// Builds the URL that asks the elevation service for a 32 by 32 grid of
/// heights over `bounds`.
pub fn elevation_request_url(bounds: &str, key: &str) -> (url: String)
    ensures
        url@ == elevation_url_text(bounds@, key@),
{
    let mut url = String::from_str("http://dev.virtualearth.net/REST/v1/Elevation/Bounds?bounds=");
    url.append(bounds);
    url.append("&rows=32&cols=32&key=");
    url.append(key);
    url
}

/// The bytes of the content type `image/png`, the only image type the viewer reads.
pub open spec fn png_content_type() -> Seq<u8> {
    seq![105u8, 109u8, 97u8, 103u8, 101u8, 47u8, 112u8, 110u8, 103u8]
}

/// An image response that the viewer does not read.
#[derive(Clone, Copy, Debug, PartialEq, Eq, Structural)]
pub enum ImageResponseError {
    /// The response declares a content type other than `image/png`.
    UnsupportedImageType,
}

/// Whether `value` is exactly the content type `image/png`.
pub fn is_png_content_type(value: &[u8]) -> (b: bool)
    ensures
        b == (value@ == png_content_type()),
{
    let expected: Vec<u8> = vec![105u8, 109u8, 97u8, 103u8, 101u8, 47u8, 112u8, 110u8, 103u8];
    assert(expected@ == png_content_type());
    if value.len() != expected.len() {
        return false;
    }
    let n = value.len();
    let mut i: usize = 0;
    while i < n
        invariant
            n == value@.len(),
            n == expected@.len(),
            expected@ == png_content_type(),
            i <= n,
            forall|j: int| 0 <= j < i ==> value@[j] == expected@[j],
        decreases n - i,
    {
        if value[i] != expected[i] {
            assert(value@[i as int] != png_content_type()[i as int]);
            return false;
        }
        i = i + 1;
    }
    assert(value@ =~= expected@);
    true
}

/// Checks the content type that an image response declares, if it declares
/// one: a response without one is accepted, one with any type but
/// `image/png` is refused.
pub fn check_image_content_type(content_type: Option<&[u8]>) -> (r: Result<(), ImageResponseError>)
    ensures
        r is Ok <==> match content_type {
            Some(v) => v@ == png_content_type(),
            None => true,
        },
        r matches Err(e) ==> e == ImageResponseError::UnsupportedImageType,
{
    match content_type {
        Some(v) => {
            if is_png_content_type(v) {
                Ok(())
            } else {
                Err(ImageResponseError::UnsupportedImageType)
            }
        },
        None => Ok(()),
    }
}

/// Each imagery set is known to the service by its own variant name, and no
/// two sets share a name.
pub proof fn law_imagery_names()
    ensures
        imagery_name(ImageryType::Aerial) == "Aerial"@,
        imagery_name(ImageryType::AerialWithLabels) == "AerialWithLabels"@,
        imagery_name(ImageryType::AerialWithLabelsOnDemand) == "AerialWithLabelsOnDemand"@,
        imagery_name(ImageryType::Streetside) == "Streetside"@,
        imagery_name(ImageryType::BirdsEye) == "BirdsEye"@,
        imagery_name(ImageryType::BirdsEyeWithLabels) == "BirdsEyeWithLabels"@,
        imagery_name(ImageryType::Road) == "Road"@,
        imagery_name(ImageryType::CanvasDark) == "CanvasDark"@,
        imagery_name(ImageryType::CanvasLight) == "CanvasLight"@,
        imagery_name(ImageryType::CanvasGray) == "CanvasGray"@,
        forall|a: ImageryType, b: ImageryType| imagery_name(a) == imagery_name(b) ==> a == b,
{
        reveal_strlit("Aerial");
        reveal_strlit("AerialWithLabels");
        reveal_strlit("AerialWithLabelsOnDemand");
        reveal_strlit("Streetside");
        reveal_strlit("BirdsEye");
        reveal_strlit("BirdsEyeWithLabels");
        reveal_strlit("Road");
        reveal_strlit("CanvasDark");
        reveal_strlit("CanvasLight");
        reveal_strlit("CanvasGray");
    assert forall|a: ImageryType, b: ImageryType| imagery_name(a) == imagery_name(b) implies a == b by {
        if a != b {
            let x = imagery_name(a);
            let y = imagery_name(b);
            if x.len() == y.len() {
                assert(exists|i: int| 0 <= i < x.len() && x[i] != y[i]) by {
                    if x.len() == 6 {
                        assert(x[0] != y[0]);
                    } else if x.len() == 10 {
                        assert(x[0] != y[0] || x[6] != y[6]);
                    } else if x.len() == 11 {
                        assert(x[6] != y[6]);
                    }
                }
            }
        }
    }
}

/// An imagery request asks for the image with `mapMetadata=0` and for its
/// metadata with `mapMetadata=1`.
pub proof fn law_request_type_ids()
    ensures
        request_type_id(RequestType::ImageData) == 0,
        request_type_id(RequestType::Metadata) == 1,
        decimal(request_type_id(RequestType::ImageData) as nat) == seq!['0'],
        decimal(request_type_id(RequestType::Metadata) as nat) == seq!['1'],
{
}

/// Both kinds of imagery request name the requested imagery set right after
/// `/Imagery/Map/`, then the map area, and end in the key; the image request
/// and the metadata request for the same set, area and key differ only in the
/// `mapMetadata` digit.
pub proof fn law_image_url_names_requested_set(imagery: ImageryType, map_area: Seq<char>, key: Seq<char>)
    ensures
        image_url_text(imagery, map_area, RequestType::ImageData, key)
            == "https://dev.virtualearth.net/REST/v1/Imagery/Map/"@ + imagery_name(imagery)
            + "?&format=png&mapArea="@ + map_area + "&mapMetadata="@ + seq!['0'] + "&key="@ + key,
        image_url_text(imagery, map_area, RequestType::Metadata, key)
            == "https://dev.virtualearth.net/REST/v1/Imagery/Map/"@ + imagery_name(imagery)
            + "?&format=png&mapArea="@ + map_area + "&mapMetadata="@ + seq!['1'] + "&key="@ + key,
{
    law_request_type_ids();
}

/// The elevation request names the region, asks for a grid of 32 rows and 32
/// columns, and ends in the key.
pub proof fn law_elevation_url(bounds: Seq<char>, key: Seq<char>)
    ensures
        elevation_url_text(bounds, key) == "http://dev.virtualearth.net/REST/v1/Elevation/Bounds?bounds="@ + bounds
            + "&rows=32&cols=32&key="@ + key,
{
}

/// The only image type read is `image/png`, in its ASCII bytes.
pub proof fn law_png_content_type()
    ensures
        png_content_type() == seq![
            'i' as u8, 'm' as u8, 'a' as u8, 'g' as u8, 'e' as u8, '/' as u8, 'p' as u8, 'n' as u8, 'g' as u8,
        ],
{
}

} // verus!
