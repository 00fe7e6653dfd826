//! Which location the viewer shows, and when a choice in its location menu
//! makes it load another one.
use vstd::prelude::*;

verus! {

/// What a request to show a location asks of the viewer.
#[derive(Clone, Copy, Debug, PartialEq, Eq, Structural)]
pub enum LocationChange {
    /// The location is already shown: nothing is to be done.
    Unchanged,
    /// Clear the terrain and load the location with this index.
    Load(usize),
}

/// The change that a request for `requested` makes while `current` is shown.
pub open spec fn location_change(current: Option<usize>, requested: Option<usize>) -> LocationChange {
    if requested == current {
        LocationChange::Unchanged
    } else {
        LocationChange::Load(requested->0)
    }
}

/// The index of the last pressed button of a menu, if one was pressed.
pub open spec fn last_pressed(pressed: Seq<bool>) -> Option<int>
    decreases pressed.len(),
{
    if pressed.len() == 0 {
        None
    } else if pressed.last() {
        Some(pressed.len() - 1)
    } else {
        last_pressed(pressed.drop_last())
    }
}

/// The location that a frame of the location menu asks for: the last pressed
/// button's location, when it is not the one already shown.
pub open spec fn menu_request(pressed: Seq<bool>, current: Option<usize>) -> Option<usize> {
    match last_pressed(pressed) {
        Some(i) => if current == Some(i as usize) { None } else { Some(i as usize) },
        None => None,
    }
}

/// The location that the viewer shows, by its index in the table of
/// locations; none before the first one is loaded.
pub struct LocationSelection {
    pub location_id: Option<usize>,
}

impl LocationSelection {
    /// No location shown yet.
    pub fn new() -> (s: Self)
        ensures
            s.location_id is None,
    {
        LocationSelection { location_id: None }
    }

    /// Whether the menu button of location `id` shows as active.
    pub fn is_active(&self, id: usize) -> (b: bool)
        ensures
            b == (self.location_id == Some(id)),
    {
        match self.location_id {
            Some(cur) => cur == id,
            None => false,
        }
    }

    /// Makes `requested` the shown location and says what that takes: nothing
    /// if it was already shown, else loading it. Only a location of the table
    /// of `location_count` locations can be loaded: a request for another one,
    /// or for no location while one is shown, is not accepted.
    pub fn load_location(&mut self, requested: Option<usize>, location_count: usize) -> (c: LocationChange)
        requires
            requested != old(self).location_id ==> requested is Some && requested->0 < location_count,
        ensures
            final(self).location_id == requested,
            c == location_change(old(self).location_id, requested),
    {
        let same = match (requested, self.location_id) {
            (Some(a), Some(b)) => a == b,
            (None, None) => true,
            _ => false,
        };
        if same {
            return LocationChange::Unchanged;
        }
        self.location_id = requested;
        match requested {
            Some(id) => LocationChange::Load(id),
            None => LocationChange::Unchanged,
        }
    }

    /// The location that a frame of the location menu asks for, given which
    /// of its buttons were pressed in menu order: the last pressed one, if it
    /// is not the location already shown.
    pub fn menu_request(&self, pressed: &Vec<bool>) -> (r: Option<usize>)
        ensures
            r == menu_request(pressed@, self.location_id),
    {
        let n = pressed.len();
        let mut chosen: Option<usize> = None;
        let mut i: usize = 0;
        while i < n
            invariant
                n == pressed@.len(),
                i <= n,
                match last_pressed(pressed@.take(i as int)) {
                    Some(j) => chosen == Some(j as usize) && 0 <= j < i,
                    None => chosen is None,
                },
            decreases n - i,
        {
            assert(pressed@.take(i as int + 1).drop_last() =~= pressed@.take(i as int));
            if pressed[i] {
                chosen = Some(i);
            }
            i = i + 1;
        }
        assert(pressed@.take(n as int) =~= pressed@);
        match chosen {
            Some(id) => if self.is_active(id) { None } else { Some(id) },
            None => None,
        }
    }
}

/// Showing a location is idempotent: once a request has been handled, the
/// same request again changes nothing.
pub proof fn law_load_location_idempotent(requested: Option<usize>)
    ensures
        location_change(requested, requested) == LocationChange::Unchanged,
{
}

/// The location menu never asks again for the location already shown.
pub proof fn law_menu_never_requests_current(pressed: Seq<bool>, current: Option<usize>)
    ensures
        menu_request(pressed, current) is Some ==> menu_request(pressed, current) != current,
        menu_request(pressed, current) is Some ==> location_change(current, menu_request(pressed, current))
            == LocationChange::Load(menu_request(pressed, current)->0),
{
}

proof fn lemma_last_pressed(pressed: Seq<bool>)
    ensures
        match last_pressed(pressed) {
            Some(i) => 0 <= i < pressed.len() && pressed[i] && forall|j: int| i < j < pressed.len() ==> !pressed[j],
            None => forall|j: int| 0 <= j < pressed.len() ==> !pressed[j],
        },
    decreases pressed.len(),
{
    if pressed.len() > 0 && !pressed.last() {
        let t = pressed.drop_last();
        lemma_last_pressed(t);
        assert forall|j: int| 0 <= j < pressed.len() - 1 implies pressed[j] == t[j] by {}
    }
}

/// The location menu asks for the location of a pressed button exactly when
/// no later button is pressed and that location is not the one shown; when
/// no button is pressed, or the last pressed one is the shown location, it
/// asks for nothing.
pub proof fn law_menu_request_is_last_pressed(pressed: Seq<bool>, current: Option<usize>)
    requires
        pressed.len() <= usize::MAX,
    ensures
        forall|i: int|
            0 <= i < pressed.len() && #[trigger] pressed[i] && (forall|j: int| i < j < pressed.len() ==> !pressed[j])
                ==> menu_request(pressed, current) == (if current == Some(i as usize) {
                None::<usize>
            } else {
                Some(i as usize)
            }),
        (forall|j: int| 0 <= j < pressed.len() ==> !pressed[j]) ==> menu_request(pressed, current) is None,
        menu_request(pressed, current) matches Some(r) ==> {
            &&& r < pressed.len()
            &&& pressed[r as int]
            &&& forall|j: int| r < j < pressed.len() ==> !pressed[j]
            &&& current != Some(r)
        },
{
    lemma_last_pressed(pressed);
    assert forall|i: int|
        0 <= i < pressed.len() && #[trigger] pressed[i] && (forall|j: int| i < j < pressed.len() ==> !pressed[j])
            implies menu_request(pressed, current) == (if current == Some(i as usize) {
            None::<usize>
        } else {
            Some(i as usize)
        }) by {
        match last_pressed(pressed) {
            Some(k) => {
                if k < i {
                    assert(!pressed[i]);
                } else if k > i {
                    assert(!pressed[k]);
                }
            },
            None => {
                assert(!pressed[i]);
            },
        }
    }
}

/// A request for the location already shown changes nothing, and a request
/// for another location loads exactly that location.
pub proof fn law_location_change(current: Option<usize>, requested: Option<usize>)
    ensures
        requested == current ==> location_change(current, requested) == LocationChange::Unchanged,
        requested != current && requested is Some ==> location_change(current, requested) == LocationChange::Load(
            requested->0,
        ),
{
}

} // verus!
