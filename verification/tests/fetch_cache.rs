use bing_terrain::bing::ImageryType;
use bing_terrain::fetch::{BingRequest, FetchPlan, ResponseCache};

#[test]
fn empty_cache_fetches_known_locations() {
    let cache: ResponseCache<String> = ResponseCache::new();
    assert_eq!(
        cache.plan(&BingRequest::Location(ImageryType::Aerial, 2), 4),
        FetchPlan::FetchLocation(ImageryType::Aerial, 2)
    );
}

#[test]
fn unknown_location_is_refused() {
    let cache: ResponseCache<String> = ResponseCache::new();
    assert_eq!(
        cache.plan(&BingRequest::Location(ImageryType::Aerial, 4), 4),
        FetchPlan::LocationNotFound(4)
    );
    assert_eq!(
        cache.plan(&BingRequest::Location(ImageryType::Road, 0), 0),
        FetchPlan::LocationNotFound(0)
    );
}

#[test]
fn quakes_are_served() {
    let cache: ResponseCache<String> = ResponseCache::new();
    assert_eq!(cache.plan(&BingRequest::Quakes, 4), FetchPlan::ServeQuakes);
}

#[test]
fn fetched_location_is_served_from_cache() {
    let mut cache: ResponseCache<String> = ResponseCache::new();
    let req = BingRequest::Location(ImageryType::Aerial, 1);
    assert_eq!(cache.plan(&req, 4), FetchPlan::FetchLocation(ImageryType::Aerial, 1));
    cache.insert(ImageryType::Aerial, 1, "grand canyon".to_string());
    assert_eq!(cache.plan(&req, 4), FetchPlan::ServeCached(ImageryType::Aerial, 1));
    assert_eq!(cache.get(ImageryType::Aerial, 1), Some(&"grand canyon".to_string()));
}

#[test]
fn cache_keys_are_imagery_and_location() {
    let mut cache: ResponseCache<u32> = ResponseCache::new();
    cache.insert(ImageryType::Aerial, 0, 10);
    cache.insert(ImageryType::Road, 0, 20);
    cache.insert(ImageryType::Aerial, 3, 30);
    assert_eq!(cache.get(ImageryType::Aerial, 0), Some(&10));
    assert_eq!(cache.get(ImageryType::Road, 0), Some(&20));
    assert_eq!(cache.get(ImageryType::Aerial, 3), Some(&30));
    assert_eq!(cache.get(ImageryType::Road, 3), None);
    assert_eq!(
        cache.plan(&BingRequest::Location(ImageryType::Road, 3), 4),
        FetchPlan::FetchLocation(ImageryType::Road, 3)
    );
}

#[test]
fn insert_replaces_and_keeps_others() {
    let mut cache: ResponseCache<u32> = ResponseCache::new();
    cache.insert(ImageryType::Aerial, 0, 1);
    cache.insert(ImageryType::Aerial, 1, 2);
    cache.insert(ImageryType::Aerial, 0, 3);
    assert_eq!(cache.get(ImageryType::Aerial, 0), Some(&3));
    assert_eq!(cache.get(ImageryType::Aerial, 1), Some(&2));
}

#[test]
fn a_run_of_requests_fetches_each_location_once() {
    let mut cache: ResponseCache<usize> = ResponseCache::new();
    let requests = [
        BingRequest::Location(ImageryType::Aerial, 0),
        BingRequest::Location(ImageryType::Aerial, 1),
        BingRequest::Quakes,
        BingRequest::Location(ImageryType::Aerial, 0),
        BingRequest::Location(ImageryType::Aerial, 9),
        BingRequest::Location(ImageryType::Aerial, 1),
    ];
    let mut plans = Vec::new();
    for (i, r) in requests.iter().enumerate() {
        let p = cache.plan(r, 4);
        if let FetchPlan::FetchLocation(t, l) = p {
            cache.insert(t, l, i);
        }
        plans.push(p);
    }
    assert_eq!(
        plans,
        vec![
            FetchPlan::FetchLocation(ImageryType::Aerial, 0),
            FetchPlan::FetchLocation(ImageryType::Aerial, 1),
            FetchPlan::ServeQuakes,
            FetchPlan::ServeCached(ImageryType::Aerial, 0),
            FetchPlan::LocationNotFound(9),
            FetchPlan::ServeCached(ImageryType::Aerial, 1),
        ]
    );
    assert_eq!(cache.get(ImageryType::Aerial, 0), Some(&0));
    assert_eq!(cache.get(ImageryType::Aerial, 1), Some(&1));
}

#[test]
fn repeated_requests_get_the_first_response() {
    let mut cache: ResponseCache<usize> = ResponseCache::new();
    let requests = [
        BingRequest::Location(ImageryType::Road, 2),
        BingRequest::Location(ImageryType::Aerial, 2),
        BingRequest::Location(ImageryType::Road, 2),
        BingRequest::Location(ImageryType::Road, 2),
    ];
    let mut answers = Vec::new();
    for (i, r) in requests.iter().enumerate() {
        let answer = match cache.plan(r, 4) {
            FetchPlan::ServeCached(t, l) => Some(*cache.get(t, l).unwrap()),
            FetchPlan::FetchLocation(t, l) => {
                let fetched = 100 + i;
                cache.insert(t, l, fetched);
                Some(fetched)
            }
            _ => None,
        };
        answers.push(answer);
    }
    assert_eq!(answers, vec![Some(100), Some(101), Some(100), Some(100)]);
}
