//! Dragging the terrain with a pinch of the right hand: when the move widget
//! shows, when a drag starts, when the terrain follows the hand and when the
//! drag ends.
use vstd::prelude::*;

verus! {

/// The pinch is held down.
pub const PINCH_ACTIVE: u32 = 1;

/// The pinch was released in this frame.
pub const PINCH_JUST_INACTIVE: u32 = 2;

/// The pinch was started in this frame.
pub const PINCH_JUST_ACTIVE: u32 = 4;

/// What one frame of hand input does to the terrain drag.
#[derive(Clone, Copy, Debug, PartialEq, Eq, Structural)]
pub struct DragStep {
    /// Draw the move widget at the hand.
    pub show_widget: bool,
    /// Draw the widget enlarged and brightened, as during a drag.
    pub widget_highlighted: bool,
    /// Remember the terrain's and the hand's positions: a drag starts.
    pub start_drag: bool,
    /// Move the terrain along with the hand.
    pub move_terrain: bool,
    /// Whether a drag is under way after this frame.
    pub drag_active: bool,
}

/// The rules of the drag, for a frame in which a drag is or is not under way
/// (`drag_active`), the hand is or is not above the terrain
/// (`hand_in_volume`), the user interface is or is not busy with the right
/// hand (`ui_idle` when it is not), and the pinch has state `pinch` (the
/// runtime's button-state bits, compared whole). The widget shows while a drag
/// is under way or the hand is above the terrain; there, a pinch that starts
/// while the interface is idle starts a drag, and a held pinch during a drag
/// moves the terrain. Releasing the pinch ends the drag wherever the hand is.
pub open spec fn drag_step_spec(drag_active: bool, hand_in_volume: bool, ui_idle: bool, pinch: u32) -> DragStep {
    let show = drag_active || hand_in_volume;
    let start = show && ui_idle && pinch == PINCH_JUST_ACTIVE;
    let dragging = drag_active || start;
    DragStep {
        show_widget: show,
        widget_highlighted: drag_active,
        start_drag: start,
        move_terrain: show && dragging && pinch == PINCH_ACTIVE,
        drag_active: if pinch == PINCH_JUST_INACTIVE { false } else { dragging },
    }
}

/// The effect of one frame of hand input on the terrain drag.
pub fn drag_step(drag_active: bool, hand_in_volume: bool, ui_idle: bool, pinch: u32) -> (s: DragStep)
    ensures
        s == drag_step_spec(drag_active, hand_in_volume, ui_idle, pinch),
{
    let show_widget = drag_active || hand_in_volume;
    let mut dragging = drag_active;
    let mut start_drag = false;
    let mut move_terrain = false;
    if show_widget {
        if ui_idle && pinch == PINCH_JUST_ACTIVE {
            start_drag = true;
            dragging = true;
        }
        if dragging && pinch == PINCH_ACTIVE {
            move_terrain = true;
        }
    }
    if pinch == PINCH_JUST_INACTIVE {
        dragging = false;
    }
    DragStep {
        show_widget,
        widget_highlighted: drag_active,
        start_drag,
        move_terrain,
        drag_active: dragging,
    }
}

/// A drag that starts is under way after its frame; the terrain only moves
/// during a drag that goes on; releasing the pinch always ends the drag; and
/// without a pinch change the drag goes on as it was.
pub proof fn law_drag_rules(drag_active: bool, hand_in_volume: bool, ui_idle: bool, pinch: u32)
    ensures
        drag_step_spec(drag_active, hand_in_volume, ui_idle, pinch).start_drag ==> drag_step_spec(
            drag_active,
            hand_in_volume,
            ui_idle,
            pinch,
        ).drag_active,
        drag_step_spec(drag_active, hand_in_volume, ui_idle, pinch).move_terrain ==> drag_active
            && drag_step_spec(drag_active, hand_in_volume, ui_idle, pinch).drag_active,
        pinch == PINCH_JUST_INACTIVE ==> !drag_step_spec(drag_active, hand_in_volume, ui_idle, pinch).drag_active,
        pinch != PINCH_JUST_INACTIVE && pinch != PINCH_JUST_ACTIVE ==> drag_step_spec(
            drag_active,
            hand_in_volume,
            ui_idle,
            pinch,
        ).drag_active == drag_active,
{
}

/// Field by field, in terms of the inputs: the widget shows exactly while a
/// drag is under way or the hand is above the terrain, and is highlighted
/// exactly during a drag; a drag starts exactly when the widget shows, the
/// interface is idle and the pinch has just started; during a drag a held
/// pinch moves the terrain, whatever the hand's place and the interface's
/// state, and nothing else moves it; after the frame a drag is under way
/// exactly when one was or just started, unless the pinch was released.
pub proof fn law_drag_fields(drag_active: bool, hand_in_volume: bool, ui_idle: bool, pinch: u32)
    ensures
        drag_step_spec(drag_active, hand_in_volume, ui_idle, pinch).show_widget <==> drag_active || hand_in_volume,
        drag_step_spec(drag_active, hand_in_volume, ui_idle, pinch).widget_highlighted <==> drag_active,
        drag_step_spec(drag_active, hand_in_volume, ui_idle, pinch).start_drag <==> (drag_active || hand_in_volume)
            && ui_idle && pinch == 4,
        drag_step_spec(drag_active, hand_in_volume, ui_idle, pinch).move_terrain <==> drag_active && pinch == 1,
        drag_step_spec(drag_active, hand_in_volume, ui_idle, pinch).drag_active <==> pinch != 2 && (drag_active
            || ((drag_active || hand_in_volume) && ui_idle && pinch == 4)),
{
}

} // verus!
