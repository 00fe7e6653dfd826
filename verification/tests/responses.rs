use bing_terrain::bing_api::{
    ApiResponse, BoundingBox, BoundsError, ElevationResource, ResourceSet, ResponseShapeError,
};

fn response<R>(sets: Vec<Vec<R>>) -> ApiResponse<R> {
    ApiResponse {
        authentication_result_code: "ValidCredentials".to_string(),
        brand_logo_uri: "http://dev.virtualearth.net/Branding/logo_powered_by.png".to_string(),
        copyright: "Copyright".to_string(),
        resource_sets: sets
            .into_iter()
            .map(|resources| ResourceSet { estimated_total: resources.len() as i64, resources })
            .collect(),
        status_code: 200,
        status_description: "OK".to_string(),
        trace_id: "trace".to_string(),
    }
}

fn elevation(heights: Vec<i64>) -> ElevationResource {
    ElevationResource {
        resource_type: "ElevationData:http://schemas.microsoft.com/search/local/ws/rest/v1".to_string(),
        elevations: heights,
        zoom_level: 12,
    }
}

#[test]
fn single_resource_is_read() {
    let r = response(vec![vec![elevation(vec![10, 20, 30])]]);
    let res = r.single_resource().unwrap();
    assert_eq!(res.elevations, vec![10, 20, 30]);
    assert_eq!(res.zoom_level, 12);
}

#[test]
fn no_resource_set_is_refused() {
    let r: ApiResponse<ElevationResource> = response(vec![]);
    assert_eq!(r.single_resource().err(), Some(ResponseShapeError::ResourceSetCount(0)));
}

#[test]
fn two_resource_sets_are_refused() {
    let r = response(vec![vec![elevation(vec![1])], vec![elevation(vec![2])]]);
    assert_eq!(r.single_resource().err(), Some(ResponseShapeError::ResourceSetCount(2)));
}

#[test]
fn empty_resource_set_is_refused() {
    let r: ApiResponse<ElevationResource> = response(vec![vec![]]);
    assert_eq!(r.single_resource().err(), Some(ResponseShapeError::ResourceCount(0)));
}

#[test]
fn three_resources_are_refused() {
    let r = response(vec![vec![1u8, 2, 3]]);
    assert_eq!(r.single_resource().err(), Some(ResponseShapeError::ResourceCount(3)));
}

#[test]
fn set_count_is_checked_before_resource_count() {
    let r: ApiResponse<u8> = response(vec![vec![], vec![1, 2]]);
    assert_eq!(r.single_resource().err(), Some(ResponseShapeError::ResourceSetCount(2)));
}

#[test]
fn bounding_box_from_four_values() {
    let b = BoundingBox::from_values(&vec![21.8f64, -159.7, 22.2, -159.3]).unwrap();
    assert_eq!(b.south_latitude, 21.8);
    assert_eq!(b.west_longitude, -159.7);
    assert_eq!(b.north_latitude, 22.2);
    assert_eq!(b.east_longitude, -159.3);
}

#[test]
fn bounding_box_from_integers() {
    let b = BoundingBox::from_values(&vec![1i64, 2, 3, 4]).unwrap();
    assert_eq!(
        (b.south_latitude, b.west_longitude, b.north_latitude, b.east_longitude),
        (1, 2, 3, 4)
    );
}

#[test]
fn bounding_box_needs_four_values() {
    assert_eq!(
        BoundingBox::<f64>::from_values(&vec![1.0, 2.0, 3.0]).err(),
        Some(BoundsError::InvalidElementCount)
    );
    assert_eq!(
        BoundingBox::<f64>::from_values(&vec![1.0, 2.0, 3.0, 4.0, 5.0]).err(),
        Some(BoundsError::InvalidElementCount)
    );
    assert_eq!(
        BoundingBox::<f64>::from_values(&vec![]).err(),
        Some(BoundsError::InvalidElementCount)
    );
}

use bing_terrain::bing_api::bounds_text;

#[test]
fn bounds_text_lists_south_west_north_east() {
    let b = BoundingBox {
        east_longitude: "-159.3".to_string(),
        west_longitude: "-159.7".to_string(),
        north_latitude: "22.2".to_string(),
        south_latitude: "21.8".to_string(),
    };
    assert_eq!(bounds_text(&b), "21.8,-159.7,22.2,-159.3");
}

#[test]
fn bounds_text_keeps_read_order() {
    let values = vec![1u8, 2, 3, 4];
    let b = BoundingBox::from_values(&values).unwrap();
    let t = BoundingBox {
        east_longitude: b.east_longitude.to_string(),
        west_longitude: b.west_longitude.to_string(),
        north_latitude: b.north_latitude.to_string(),
        south_latitude: b.south_latitude.to_string(),
    };
    assert_eq!(bounds_text(&t), "1,2,3,4");
}
