//! The shapes of the Bing REST services' responses, and the checks that the
//! viewer makes on them before it reads them.
use vstd::prelude::*;

verus! {

/// One set of resources in a response.
pub struct ResourceSet<R> {
    pub estimated_total: i64,
    pub resources: Vec<R>,
}

/// The envelope that every response of the REST services shares; `R` is the
/// kind of resource that the service returns.
pub struct ApiResponse<R> {
    pub authentication_result_code: String,
    pub brand_logo_uri: String,
    pub copyright: String,
    pub resource_sets: Vec<ResourceSet<R>>,
    pub status_code: i64,
    pub status_description: String,
    pub trace_id: String,
}

/// The resource of an elevation response: the heights, in metres, of the
/// points of the requested grid, row by row.
pub struct ElevationResource {
    pub resource_type: String,
    pub elevations: Vec<i64>,
    pub zoom_level: i64,
}

/// A response whose shape the viewer does not accept: it reads exactly one
/// resource set holding exactly one resource. Each variant carries the count
/// that was found.
#[derive(Clone, Copy, Debug, PartialEq, Eq, Structural)]
pub enum ResponseShapeError {
    ResourceSetCount(usize),
    ResourceCount(usize),
}

/// The resource that a response holds, or why it holds none that the viewer reads.
pub open spec fn single_resource_of<R>(sets: Seq<ResourceSet<R>>) -> Result<R, ResponseShapeError> {
    if sets.len() != 1 {
        Err(ResponseShapeError::ResourceSetCount(sets.len() as usize))
    } else if sets[0].resources@.len() != 1 {
        Err(ResponseShapeError::ResourceCount(sets[0].resources@.len() as usize))
    } else {
        Ok(sets[0].resources@[0])
    }
}

impl<R> ApiResponse<R> {
    /// The one resource of the one resource set of this response. Any other
    /// number of resource sets, or of resources in the set, is an error that
    /// carries the number found, sets first.
    pub fn single_resource(&self) -> (r: Result<&R, ResponseShapeError>)
        ensures
            match r {
                Ok(res) => single_resource_of(self.resource_sets@) == Ok::<R, ResponseShapeError>(*res),
                Err(e) => single_resource_of(self.resource_sets@) == Err::<R, ResponseShapeError>(e),
            },
    {
        if self.resource_sets.len() != 1 {
            return Err(ResponseShapeError::ResourceSetCount(self.resource_sets.len()));
        }
        let set = &self.resource_sets[0];
        if set.resources.len() != 1 {
            return Err(ResponseShapeError::ResourceCount(set.resources.len()));
        }
        Ok(&set.resources[0])
    }
}

/// A region between two latitudes and two longitudes.
pub struct BoundingBox<T> {
    pub east_longitude: T,
    pub west_longitude: T,
    pub north_latitude: T,
    pub south_latitude: T,
}

/// A list of values that does not describe a bounding box.
#[derive(Clone, Copy, Debug, PartialEq, Eq, Structural)]
pub enum BoundsError {
    /// A bounding box is given by exactly four values.
    InvalidElementCount,
}

impl<T: Copy> BoundingBox<T> {
    /// Reads a bounding box from the four values south latitude, west
    /// longitude, north latitude and east longitude, in that order; a list of
    /// any other length is refused.
    pub fn from_values(values: &Vec<T>) -> (r: Result<BoundingBox<T>, BoundsError>)
        ensures
            r is Ok <==> values@.len() == 4,
            r matches Err(e) ==> e == BoundsError::InvalidElementCount,
            r matches Ok(b) ==> {
                &&& b.south_latitude == values@[0]
                &&& b.west_longitude == values@[1]
                &&& b.north_latitude == values@[2]
                &&& b.east_longitude == values@[3]
            },
    {
        if values.len() != 4 {
            return Err(BoundsError::InvalidElementCount);
        }
        Ok(BoundingBox {
            south_latitude: values[0],
            west_longitude: values[1],
            north_latitude: values[2],
            east_longitude: values[3],
        })
    }
}

/// The text of a bounding box whose values are given as text: south
/// latitude, west longitude, north latitude and east longitude, separated by
/// commas. This is the form that the services take in their `mapArea` and
/// `bounds` parameters, and the order in which they list a box's values.
pub open spec fn bounds_text_of(b: BoundingBox<Seq<char>>) -> Seq<char> {
    b.south_latitude + ","@ + b.west_longitude + ","@ + b.north_latitude + ","@ + b.east_longitude
}

/// The view of a bounding box whose values are text.
pub open spec fn text_box_view(b: BoundingBox<String>) -> BoundingBox<Seq<char>> {
    BoundingBox {
        east_longitude: b.east_longitude@,
        west_longitude: b.west_longitude@,
        north_latitude: b.north_latitude@,
        south_latitude: b.south_latitude@,
    }
}

/// Joins the texts of a bounding box's values into the text that the services
/// take for a region.
pub fn bounds_text(b: &BoundingBox<String>) -> (t: String)
    ensures
        t@ == bounds_text_of(text_box_view(*b)),
{
    let mut t = b.south_latitude.clone();
    t.append(",");
    t.append(b.west_longitude.as_str());
    t.append(",");
    t.append(b.north_latitude.as_str());
    t.append(",");
    t.append(b.east_longitude.as_str());
    t
}

/// A bounding box read from a list of values is written back as text in the
/// order of that list: the box that the metadata service returns and the
/// region that a request names list their values alike.
pub proof fn law_text_keeps_value_order(values: Seq<Seq<char>>, b: BoundingBox<Seq<char>>)
    requires
        values.len() == 4,
        b.south_latitude == values[0],
        b.west_longitude == values[1],
        b.north_latitude == values[2],
        b.east_longitude == values[3],
    ensures
        bounds_text_of(b) == values[0] + ","@ + values[1] + ","@ + values[2] + ","@ + values[3],
{
}

/// A response is read exactly when it holds one resource set with one
/// resource, and then that resource is what is read; with any other number of
/// sets the error carries that number; with one set of any other number of
/// resources the error carries the number of resources.
pub proof fn law_single_resource<R>(sets: Seq<ResourceSet<R>>)
    ensures
        single_resource_of(sets) is Ok <==> sets.len() == 1 && sets[0].resources@.len() == 1,
        sets.len() == 1 && sets[0].resources@.len() == 1 ==> single_resource_of(sets) == Ok::<R, ResponseShapeError>(
            sets[0].resources@[0],
        ),
        sets.len() != 1 ==> single_resource_of(sets) == Err::<R, ResponseShapeError>(
            ResponseShapeError::ResourceSetCount(sets.len() as usize),
        ),
        sets.len() == 1 && sets[0].resources@.len() != 1 ==> single_resource_of(sets) == Err::<R, ResponseShapeError>(
            ResponseShapeError::ResourceCount(sets[0].resources@.len() as usize),
        ),
{
}

} // verus!
