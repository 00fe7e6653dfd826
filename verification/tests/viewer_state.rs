use bing_terrain::location::{LocationChange, LocationSelection};
use bing_terrain::terrain::chunk_grid_cells;

#[test]
fn first_location_is_loaded() {
    let mut s = LocationSelection::new();
    assert_eq!(s.location_id, None);
    assert_eq!(s.load_location(Some(0), 4), LocationChange::Load(0));
    assert_eq!(s.location_id, Some(0));
}

#[test]
fn loading_the_shown_location_changes_nothing() {
    let mut s = LocationSelection::new();
    assert_eq!(s.load_location(Some(2), 4), LocationChange::Load(2));
    assert_eq!(s.load_location(Some(2), 4), LocationChange::Unchanged);
    assert_eq!(s.location_id, Some(2));
    assert_eq!(s.load_location(Some(3), 4), LocationChange::Load(3));
    assert_eq!(s.location_id, Some(3));
}

#[test]
fn no_location_while_none_is_shown() {
    let mut s = LocationSelection::new();
    assert_eq!(s.load_location(None, 4), LocationChange::Unchanged);
    assert_eq!(s.location_id, None);
}

#[test]
fn active_button_is_the_shown_location() {
    let mut s = LocationSelection::new();
    assert!(!s.is_active(0));
    s.load_location(Some(1), 4);
    assert!(s.is_active(1));
    assert!(!s.is_active(0));
}

#[test]
fn menu_picks_last_pressed_button() {
    let s = LocationSelection::new();
    assert_eq!(s.menu_request(&vec![false, false, false, false]), None);
    assert_eq!(s.menu_request(&vec![false, true, false, false]), Some(1));
    assert_eq!(s.menu_request(&vec![true, false, true, false]), Some(2));
    assert_eq!(s.menu_request(&vec![true, true, true, true]), Some(3));
    assert_eq!(s.menu_request(&vec![]), None);
}

#[test]
fn menu_does_not_request_shown_location() {
    let mut s = LocationSelection::new();
    s.load_location(Some(3), 4);
    assert_eq!(s.menu_request(&vec![false, false, false, true]), None);
    assert_eq!(s.menu_request(&vec![false, true, false, false]), Some(1));
    assert_eq!(s.menu_request(&vec![true, false, false, true]), None);
}

#[test]
fn chunk_grid_of_two() {
    assert_eq!(chunk_grid_cells(2), vec![(0, 0), (1, 0), (0, 1), (1, 1)]);
}

#[test]
fn chunk_grid_of_three() {
    let cells = chunk_grid_cells(3);
    assert_eq!(cells.len(), 9);
    assert_eq!(cells[0], (0, 0));
    assert_eq!(cells[2], (2, 0));
    assert_eq!(cells[3], (0, 1));
    assert_eq!(cells[8], (2, 2));
}

#[test]
fn empty_chunk_grids() {
    assert!(chunk_grid_cells(0).is_empty());
    assert!(chunk_grid_cells(-3).is_empty());
    assert_eq!(chunk_grid_cells(1), vec![(0, 0)]);
}

use bing_terrain::hand::{FingerId, Handed, JointId};

#[test]
fn hands_by_number() {
    assert_eq!(Handed::from_raw(0), Handed::Left);
    assert_eq!(Handed::from_raw(1), Handed::Rigth);
    assert_eq!(Handed::Left.to_raw(), 0);
    assert_eq!(Handed::Rigth.to_raw(), 1);
    assert_eq!(Handed::from_raw(Handed::Rigth.to_raw()), Handed::Rigth);
}

#[test]
fn finger_and_joint_indices() {
    assert_eq!(FingerId::Thumb.index(), 0);
    assert_eq!(FingerId::Index.index(), 1);
    assert_eq!(FingerId::Little.index(), 4);
    assert_eq!(JointId::Root.index(), 0);
    assert_eq!(JointId::KnuckleMid.index(), 2);
    assert_eq!(JointId::Tip.index(), 4);
}

use bing_terrain::drag::{drag_step, DragStep, PINCH_ACTIVE, PINCH_JUST_ACTIVE, PINCH_JUST_INACTIVE};

#[test]
fn idle_hand_away_from_terrain_does_nothing() {
    assert_eq!(
        drag_step(false, false, true, PINCH_JUST_ACTIVE),
        DragStep {
            show_widget: false,
            widget_highlighted: false,
            start_drag: false,
            move_terrain: false,
            drag_active: false
        }
    );
}

#[test]
fn pinch_over_terrain_starts_drag() {
    let s = drag_step(false, true, true, PINCH_JUST_ACTIVE);
    assert!(s.show_widget && s.start_drag && s.drag_active);
    assert!(!s.move_terrain && !s.widget_highlighted);
}

#[test]
fn busy_interface_does_not_start_drag() {
    let s = drag_step(false, true, false, PINCH_JUST_ACTIVE);
    assert!(s.show_widget && !s.start_drag && !s.drag_active);
}

#[test]
fn held_pinch_moves_terrain_during_drag() {
    let s = drag_step(true, false, false, PINCH_ACTIVE);
    assert_eq!(
        s,
        DragStep {
            show_widget: true,
            widget_highlighted: true,
            start_drag: false,
            move_terrain: true,
            drag_active: true
        }
    );
    let t = drag_step(false, true, true, PINCH_ACTIVE);
    assert!(!t.move_terrain && !t.drag_active);
}

#[test]
fn release_ends_drag() {
    let s = drag_step(true, false, true, PINCH_JUST_INACTIVE);
    assert!(!s.drag_active && !s.move_terrain);
    let t = drag_step(true, true, true, 0);
    assert!(t.drag_active && !t.move_terrain);
    // a first pinch frame reports active and just-active together, which is
    // neither state on its own
    let u = drag_step(false, true, true, PINCH_ACTIVE | PINCH_JUST_ACTIVE);
    assert!(!u.start_drag && !u.drag_active);
}

