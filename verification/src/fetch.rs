//! The decisions of the fetch loop: which requests are answered from the
//! response cache, which need the REST services, and which name a location
//! that does not exist.
use std::collections::HashMap;
use vstd::prelude::*;
use crate::bing::ImageryType;

verus! {

broadcast use vstd::std_specs::hash::group_hash_axioms;

/// A request that the viewer sends to its fetch loop.
#[derive(Clone, Copy, Debug, PartialEq, Eq, Structural)]
pub enum BingRequest {
    /// The imagery and the heights of the location with the given index.
    Location(ImageryType, usize),
    /// The list of recent earthquakes.
    Quakes,
}

/// What the fetch loop does with a request.
#[derive(Clone, Copy, Debug, PartialEq, Eq, Structural)]
pub enum FetchPlan {
    /// Answer with the cached response of this imagery set and location.
    ServeCached(ImageryType, usize),
    /// Fetch this imagery set and location, cache the response and answer with it.
    FetchLocation(ImageryType, usize),
    /// The location index is outside the table of locations and nothing is
    /// cached for it: there is nothing to answer with, and the fetch loop
    /// stops on it with the panic "Location not found".
    LocationNotFound(usize),
    /// Answer with the earthquake list.
    ServeQuakes,
}

/// The key under which a location response is cached.
pub type CacheKey = (ImageryType, usize);

/// The number of imagery sets.
pub const IMAGERY_TYPE_COUNT: usize = 10;

/// The slot of an imagery set in the per-location table of the cache.
pub open spec fn imagery_slot(t: ImageryType) -> int {
    match t {
        ImageryType::Aerial => 0,
        ImageryType::AerialWithLabels => 1,
        ImageryType::AerialWithLabelsOnDemand => 2,
        ImageryType::Streetside => 3,
        ImageryType::BirdsEye => 4,
        ImageryType::BirdsEyeWithLabels => 5,
        ImageryType::Road => 6,
        ImageryType::CanvasDark => 7,
        ImageryType::CanvasLight => 8,
        ImageryType::CanvasGray => 9,
    }
}

fn slot_of(t: &ImageryType) -> (i: usize)
    ensures
        i == imagery_slot(*t),
        i < IMAGERY_TYPE_COUNT,
{
    match t {
        ImageryType::Aerial => 0,
        ImageryType::AerialWithLabels => 1,
        ImageryType::AerialWithLabelsOnDemand => 2,
        ImageryType::Streetside => 3,
        ImageryType::BirdsEye => 4,
        ImageryType::BirdsEyeWithLabels => 5,
        ImageryType::Road => 6,
        ImageryType::CanvasDark => 7,
        ImageryType::CanvasLight => 8,
        ImageryType::CanvasGray => 9,
    }
}

/// The cached responses that a table of per-location slots stands for.
spec fn slots_map<V>(m: Map<usize, Vec<Option<V>>>) -> Map<CacheKey, V> {
    Map::new(
        |k: CacheKey| m.contains_key(k.1) && m[k.1]@[imagery_slot(k.0)] is Some,
        |k: CacheKey| m[k.1]@[imagery_slot(k.0)].unwrap(),
    )
}

/// The responses that the fetch loop has received, by imagery set and
/// location.
pub struct ResponseCache<V> {
    by_location: HashMap<usize, Vec<Option<V>>>,
}

impl<V> View for ResponseCache<V> {
    type V = Map<CacheKey, V>;

    closed spec fn view(&self) -> Map<CacheKey, V> {
        slots_map(self.by_location@)
    }
}

/// The response cached under an imagery set and location, if any.
pub open spec fn cached_response<V>(cache: Map<CacheKey, V>, imagery: ImageryType, location: usize) -> Option<V> {
    if cache.contains_key((imagery, location)) {
        Some(cache[(imagery, location)])
    } else {
        None
    }
}

fn empty_slots<V>() -> (s: Vec<Option<V>>)
    ensures
        s@.len() == IMAGERY_TYPE_COUNT,
        forall|i: int| 0 <= i < s@.len() ==> #[trigger] s@[i] is None,
{
    let mut s: Vec<Option<V>> = Vec::new();
    let mut i: usize = 0;
    while i < IMAGERY_TYPE_COUNT
        invariant
            i <= IMAGERY_TYPE_COUNT,
            s@.len() == i,
            forall|j: int| 0 <= j < s@.len() ==> #[trigger] s@[j] is None,
        decreases IMAGERY_TYPE_COUNT - i,
    {
        s.push(None);
        i = i + 1;
    }
    s
}

impl<V> ResponseCache<V> {
    #[verifier::type_invariant]
    spec fn slot_tables_complete(self) -> bool {
        forall|l: usize| #[trigger] self.by_location@.contains_key(l)
            ==> self.by_location@[l]@.len() == IMAGERY_TYPE_COUNT
    }

    /// An empty cache.
    pub fn new() -> (c: Self)
        ensures
            c@ == Map::<CacheKey, V>::empty(),
    {
        let c = ResponseCache { by_location: HashMap::new() };
        assert(c@ =~= Map::<CacheKey, V>::empty());
        c
    }

    /// The cached response of an imagery set and location, if there is one.
    pub fn get(&self, imagery: ImageryType, location: usize) -> (r: Option<&V>)
        ensures
            match r {
                Some(v) => cached_response(self@, imagery, location) == Some(*v),
                None => cached_response(self@, imagery, location) is None,
            },
    {
        proof {
            use_type_invariant(self);
        }
        match self.by_location.get(&location) {
            Some(slots) => {
                let i = slot_of(&imagery);
                match &slots[i] {
                    Some(v) => Some(v),
                    None => None,
                }
            },
            None => None,
        }
    }

    /// Caches `response` under an imagery set and location, in place of any
    /// response cached there before.
    pub fn insert(&mut self, imagery: ImageryType, location: usize, response: V)
        ensures
            final(self)@ == old(self)@.insert((imagery, location), response),
    {
        proof {
            use_type_invariant(&*self);
        }
        let ghost old_map = self.by_location@;
        let mut map: HashMap<usize, Vec<Option<V>>> = HashMap::new();
        std::mem::swap(&mut map, &mut self.by_location);
        assert(map@ == old_map);
        let mut slots = match map.remove(&location) {
            Some(s) => s,
            None => empty_slots(),
        };
        let ghost old_slots = slots@;
        let i = slot_of(&imagery);
        slots.set(i, Some(response));
        map.insert(location, slots);
        proof {
            let key = (imagery, location);
            let expected = slots_map(old_map).insert(key, response);
            assert forall|k: CacheKey| #[trigger] slots_map(map@).contains_key(k) <==> expected.contains_key(k) by {
                if k.1 == location {
                    if k.0 != imagery {
                        assert(imagery_slot(k.0) != imagery_slot(imagery));
                        if old_map.contains_key(location) {
                            assert(old_slots == old_map[location]@);
                        }
                    }
                }
            }
            assert forall|k: CacheKey| #[trigger] slots_map(map@).contains_key(k) implies slots_map(map@)[k] == expected[k] by {
                if k.1 == location && k.0 != imagery {
                    assert(imagery_slot(k.0) != imagery_slot(imagery));
                    assert(old_map.contains_key(location));
                    assert(old_slots == old_map[location]@);
                }
            }
            assert(slots_map(map@) =~= expected);
        }
        self.by_location = map;
    }

    /// What the fetch loop does with `request`, given the number of known
    /// locations.
    pub fn plan(&self, request: &BingRequest, location_count: usize) -> (p: FetchPlan)
        ensures
            p == plan_for(self@, *request, location_count as nat),
    {
        match request {
            BingRequest::Location(imagery, location) => {
                if self.get(*imagery, *location).is_some() {
                    FetchPlan::ServeCached(*imagery, *location)
                } else if *location < location_count {
                    FetchPlan::FetchLocation(*imagery, *location)
                } else {
                    FetchPlan::LocationNotFound(*location)
                }
            },
            BingRequest::Quakes => FetchPlan::ServeQuakes,
        }
    }
}

/// The plan of the fetch loop for a request: a location whose response is
/// cached is answered from the cache; another one is fetched if its index is
/// in the table of `location_count` locations, and refused otherwise.
pub open spec fn plan_for<V>(cache: Map<CacheKey, V>, request: BingRequest, location_count: nat) -> FetchPlan {
    match request {
        BingRequest::Location(imagery, location) => {
            if cache.contains_key((imagery, location)) {
                FetchPlan::ServeCached(imagery, location)
            } else if location < location_count {
                FetchPlan::FetchLocation(imagery, location)
            } else {
                FetchPlan::LocationNotFound(location)
            }
        },
        BingRequest::Quakes => FetchPlan::ServeQuakes,
    }
}

/// The cache after the fetch loop has handled `request`: the response of a
/// location that it had to fetch is cached, nothing else changes.
pub open spec fn cache_after<V>(cache: Map<CacheKey, V>, request: BingRequest, response: V, location_count: nat) -> Map<CacheKey, V> {
    match plan_for(cache, request, location_count) {
        FetchPlan::FetchLocation(imagery, location) => cache.insert((imagery, location), response),
        _ => cache,
    }
}

/// The plans of the fetch loop for a run of requests, where `responses[i]` is
/// what the services answer if request `i` has to be fetched.
pub open spec fn plans_for_run<V>(
    cache: Map<CacheKey, V>,
    requests: Seq<BingRequest>,
    responses: Seq<V>,
    location_count: nat,
) -> Seq<FetchPlan>
    decreases requests.len(),
{
    if requests.len() == 0 || responses.len() == 0 {
        Seq::empty()
    } else {
        seq![plan_for(cache, requests[0], location_count)] + plans_for_run(
            cache_after(cache, requests[0], responses[0], location_count),
            requests.drop_first(),
            responses.drop_first(),
            location_count,
        )
    }
}

/// A location whose response is cached is answered from the cache.
pub proof fn law_cached_location_is_served<V>(
    cache: Map<CacheKey, V>,
    imagery: ImageryType,
    location: usize,
    location_count: nat,
)
    requires
        cache.contains_key((imagery, location)),
    ensures
        plan_for(cache, BingRequest::Location(imagery, location), location_count)
            == FetchPlan::ServeCached(imagery, location),
{
}

/// A lookup after caching a response under an imagery set and location
/// gives that response back, and a lookup of any other imagery set or
/// location gives what it gave before.
pub proof fn law_get_after_insert<V>(
    cache: Map<CacheKey, V>,
    imagery: ImageryType,
    location: usize,
    response: V,
    other_imagery: ImageryType,
    other_location: usize,
)
    ensures
        cached_response(cache.insert((imagery, location), response), imagery, location) == Some(response),
        (other_imagery, other_location) != (imagery, location) ==> cached_response(
            cache.insert((imagery, location), response),
            other_imagery,
            other_location,
        ) == cached_response(cache, other_imagery, other_location),
{
}

proof fn lemma_cached_never_fetched<V>(
    cache: Map<CacheKey, V>,
    requests: Seq<BingRequest>,
    responses: Seq<V>,
    location_count: nat,
    imagery: ImageryType,
    location: usize,
)
    requires
        cache.contains_key((imagery, location)),
    ensures
        forall|j: int|
            0 <= j < plans_for_run(cache, requests, responses, location_count).len() ==> #[trigger] plans_for_run(
                cache,
                requests,
                responses,
                location_count,
            )[j] != FetchPlan::FetchLocation(imagery, location),
    decreases requests.len(),
{
    if requests.len() > 0 && responses.len() > 0 {
        let next = cache_after(cache, requests[0], responses[0], location_count);
        assert(next.contains_key((imagery, location)));
        lemma_cached_never_fetched(
            next,
            requests.drop_first(),
            responses.drop_first(),
            location_count,
            imagery,
            location,
        );
        let rest = plans_for_run(next, requests.drop_first(), responses.drop_first(), location_count);
        let all = plans_for_run(cache, requests, responses, location_count);
        assert forall|j: int| 0 <= j < all.len() implies #[trigger] all[j] != FetchPlan::FetchLocation(
            imagery,
            location,
        ) by {
            if j > 0 {
                assert(all[j] == rest[j - 1]);
            }
        }
    }
}

/// Whatever requests come in, the fetch loop fetches each imagery set and
/// location at most once: after the first fetch, its requests are answered
/// from the cache.
pub proof fn law_each_location_fetched_at_most_once<V>(
    cache: Map<CacheKey, V>,
    requests: Seq<BingRequest>,
    responses: Seq<V>,
    location_count: nat,
    i: int,
    j: int,
)
    requires
        0 <= i < j < plans_for_run(cache, requests, responses, location_count).len(),
        plans_for_run(cache, requests, responses, location_count)[i] is FetchLocation,
    ensures
        plans_for_run(cache, requests, responses, location_count)[j]
            != plans_for_run(cache, requests, responses, location_count)[i],
    decreases i,
{
    let next = cache_after(cache, requests[0], responses[0], location_count);
    let rest = plans_for_run(next, requests.drop_first(), responses.drop_first(), location_count);
    let all = plans_for_run(cache, requests, responses, location_count);
    assert(all[j] == rest[j - 1]);
    if i == 0 {
        if let FetchPlan::FetchLocation(imagery, location) = all[0] {
            assert(next.contains_key((imagery, location)));
            lemma_cached_never_fetched(
                next,
                requests.drop_first(),
                responses.drop_first(),
                location_count,
                imagery,
                location,
            );
        }
    } else {
        assert(all[i] == rest[i - 1]);
        law_each_location_fetched_at_most_once(
            next,
            requests.drop_first(),
            responses.drop_first(),
            location_count,
            i - 1,
            j - 1,
        );
    }
}


/// The response with which the fetch loop answers a request: the cached one,
/// or the one it has just fetched. Refused requests and earthquake requests
/// get no location response.
pub open spec fn answer_for<V>(cache: Map<CacheKey, V>, request: BingRequest, response: V, location_count: nat) -> Option<V> {
    match plan_for(cache, request, location_count) {
        FetchPlan::ServeCached(imagery, location) => Some(cache[(imagery, location)]),
        FetchPlan::FetchLocation(_, _) => Some(response),
        _ => None,
    }
}

/// The answers of the fetch loop to a run of requests, where `responses[i]`
/// is what the services answer if request `i` has to be fetched.
pub open spec fn answers_for_run<V>(
    cache: Map<CacheKey, V>,
    requests: Seq<BingRequest>,
    responses: Seq<V>,
    location_count: nat,
) -> Seq<Option<V>>
    decreases requests.len(),
{
    if requests.len() == 0 || responses.len() == 0 {
        Seq::empty()
    } else {
        seq![answer_for(cache, requests[0], responses[0], location_count)] + answers_for_run(
            cache_after(cache, requests[0], responses[0], location_count),
            requests.drop_first(),
            responses.drop_first(),
            location_count,
        )
    }
}

proof fn lemma_answers_len<V>(
    cache: Map<CacheKey, V>,
    requests: Seq<BingRequest>,
    responses: Seq<V>,
    location_count: nat,
)
    ensures
        answers_for_run(cache, requests, responses, location_count).len() <= requests.len(),
        answers_for_run(cache, requests, responses, location_count).len() <= responses.len(),
    decreases requests.len(),
{
    if requests.len() > 0 && responses.len() > 0 {
        lemma_answers_len(
            cache_after(cache, requests[0], responses[0], location_count),
            requests.drop_first(),
            responses.drop_first(),
            location_count,
        );
    }
}

proof fn lemma_cached_answer_kept<V>(
    cache: Map<CacheKey, V>,
    requests: Seq<BingRequest>,
    responses: Seq<V>,
    location_count: nat,
    imagery: ImageryType,
    location: usize,
)
    requires
        cache.contains_key((imagery, location)),
    ensures
        forall|j: int|
            0 <= j < answers_for_run(cache, requests, responses, location_count).len()
                && requests[j] == BingRequest::Location(imagery, location) ==> #[trigger] answers_for_run(
                cache,
                requests,
                responses,
                location_count,
            )[j] == Some(cache[(imagery, location)]),
    decreases requests.len(),
{
    lemma_answers_len(cache, requests, responses, location_count);
    if requests.len() > 0 && responses.len() > 0 {
        let next = cache_after(cache, requests[0], responses[0], location_count);
        assert(next.contains_key((imagery, location)) && next[(imagery, location)] == cache[(imagery, location)]);
        lemma_cached_answer_kept(
            next,
            requests.drop_first(),
            responses.drop_first(),
            location_count,
            imagery,
            location,
        );
        let rest = answers_for_run(next, requests.drop_first(), responses.drop_first(), location_count);
        let all = answers_for_run(cache, requests, responses, location_count);
        assert forall|j: int|
            0 <= j < all.len() && requests[j] == BingRequest::Location(imagery, location) implies #[trigger] all[j]
            == Some(cache[(imagery, location)]) by {
            if j > 0 {
                assert(all[j] == rest[j - 1]);
                assert(requests.drop_first()[j - 1] == requests[j]);
            }
        }
    }
}

/// Every request for an imagery set and location that the fetch loop has
/// answered once is answered again with the same response: the first
/// response fetched for it.
pub proof fn law_same_location_same_answer<V>(
    cache: Map<CacheKey, V>,
    requests: Seq<BingRequest>,
    responses: Seq<V>,
    location_count: nat,
    i: int,
    j: int,
)
    requires
        0 <= i < j < answers_for_run(cache, requests, responses, location_count).len(),
        requests[i] is Location,
        requests[j] == requests[i],
        answers_for_run(cache, requests, responses, location_count)[i] is Some,
    ensures
        answers_for_run(cache, requests, responses, location_count)[j]
            == answers_for_run(cache, requests, responses, location_count)[i],
    decreases i,
{
    lemma_answers_len(cache, requests, responses, location_count);
    let next = cache_after(cache, requests[0], responses[0], location_count);
    let rest = answers_for_run(next, requests.drop_first(), responses.drop_first(), location_count);
    let all = answers_for_run(cache, requests, responses, location_count);
    assert(all[j] == rest[j - 1]);
    assert(requests.drop_first()[j - 1] == requests[j]);
    if i == 0 {
        if let BingRequest::Location(imagery, location) = requests[0] {
            assert(next.contains_key((imagery, location)));
            assert(all[0] == Some(next[(imagery, location)]));
            lemma_cached_answer_kept(
                next,
                requests.drop_first(),
                responses.drop_first(),
                location_count,
                imagery,
                location,
            );
        }
    } else {
        assert(all[i] == rest[i - 1]);
        assert(requests.drop_first()[i - 1] == requests[i]);
        law_same_location_same_answer(
            next,
            requests.drop_first(),
            responses.drop_first(),
            location_count,
            i - 1,
            j - 1,
        );
    }
}
/// Every request gets the plan that fits it: a cached location is served from
/// the cache; an uncached one is fetched when its index is in the table and
/// refused when it is not; an earthquake request gets the earthquake list.
pub proof fn law_plan_cases<V>(cache: Map<CacheKey, V>, imagery: ImageryType, location: usize, location_count: nat)
    ensures
        cache.contains_key((imagery, location)) ==> plan_for(cache, BingRequest::Location(imagery, location), location_count)
            == FetchPlan::ServeCached(imagery, location),
        !cache.contains_key((imagery, location)) && location < location_count ==> plan_for(
            cache,
            BingRequest::Location(imagery, location),
            location_count,
        ) == FetchPlan::FetchLocation(imagery, location),
        !cache.contains_key((imagery, location)) && location >= location_count ==> plan_for(
            cache,
            BingRequest::Location(imagery, location),
            location_count,
        ) == FetchPlan::LocationNotFound(location),
        plan_for(cache, BingRequest::Quakes, location_count) == FetchPlan::ServeQuakes,
{
}

} // verus!
