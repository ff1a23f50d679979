//! Per-view input state shared by every fractal view: the drag origin and the
//! left mouse button, together with what each cursor event asks the GPU side
//! to do.

use vstd::prelude::*;

verus! {

/// The mouse button of an input event, as the views read it.
#[derive(Clone, Copy, Debug, PartialEq, Eq, Structural)]
pub enum MouseButton {
    Left,
    Right,
    Middle,
    Other(u8),
}

/// Whether a button went down or came back up.
#[derive(Clone, Copy, Debug, PartialEq, Eq, Structural)]
pub enum ElementState {
    Pressed,
    Released,
}

/// What a cursor move asks the unverified side to do with its stored cursor
/// positions and the position uniform buffer.
#[derive(Clone, Copy, Debug, PartialEq, Eq, Structural)]
pub struct PositionUpdate {
    /// Reset the drag origin to the current cursor position before taking the
    /// drag delta (the view had not seen a cursor position yet).
    pub seed_prev: bool,
    /// Move the pan offset by the drag delta scaled with the zoom factor.
    pub apply_pan: bool,
    /// Upload the pan offset to the view's position uniform buffer.
    pub emit: bool,
}

/// The input state a fractal view keeps between events. The pan offset, zoom
/// factor and cursor coordinates it controls are kept next to the GPU handles
/// on the unverified side.
#[derive(Clone, Copy, Debug, PartialEq, Eq, Structural)]
pub struct FractalViewData {
    pub first_drag_pos_received: bool,
    pub left_button_pressed: bool,
}

/// How `FractalViewData::mouse_input` changes the view state: only the left
/// button is tracked, and only the button flag may change.
pub open spec fn mouse_input_rel(
    pre: FractalViewData,
    post: FractalViewData,
    button: MouseButton,
    state: ElementState,
) -> bool {
    &&& post.first_drag_pos_received == pre.first_drag_pos_received
    &&& post.left_button_pressed == if button is Left {
        state is Pressed
    } else {
        pre.left_button_pressed
    }
}

/// How `FractalViewData::new_position` changes the view state and what it asks
/// of the caller: the drag origin seeds itself on the first cursor position
/// ever seen, and the pan offset moves and uploads exactly on active drags.
pub open spec fn position_update_rel(
    pre: FractalViewData,
    post: FractalViewData,
    active: bool,
    u: PositionUpdate,
) -> bool {
    &&& post.left_button_pressed == pre.left_button_pressed
    &&& post.first_drag_pos_received
    &&& u.seed_prev == !pre.first_drag_pos_received
    &&& u.apply_pan == active
    &&& u.emit == active
}

impl FractalViewData {
    /// A view that has seen no cursor position and holds no pressed button.
    pub fn new() -> (d: Self)
        ensures
            !d.first_drag_pos_received,
            !d.left_button_pressed,
    {
        FractalViewData { first_drag_pos_received: false, left_button_pressed: false }
    }

    /// Tracks the left mouse button; other buttons are ignored.
    pub fn mouse_input(&mut self, button: MouseButton, state: ElementState)
        ensures
            mouse_input_rel(*old(self), *final(self), button, state),
    {
        if button == MouseButton::Left {
            match state {
                ElementState::Pressed => {
                    self.left_button_pressed = true;
                },
                ElementState::Released => {
                    self.left_button_pressed = false;
                },
            }
        }
    }

    /// Decides what a new cursor position means for this view. `active` says
    /// the cursor is dragging (button held with the cursor on screen).
    pub fn new_position(&mut self, active: bool) -> (u: PositionUpdate)
        ensures
            position_update_rel(*old(self), *final(self), active, u),
    {
        let seed_prev = !self.first_drag_pos_received;
        self.first_drag_pos_received = true;
        PositionUpdate { seed_prev, apply_pan: active, emit: active }
    }
}

} // verus!
