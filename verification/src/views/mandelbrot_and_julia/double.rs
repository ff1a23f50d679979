//! The manager of the split layout: routes each event to the Mandelbrot half
//! or the Julia half by where the cursor is.

use vstd::prelude::*;

use crate::utils::Julia;
use crate::views::mandelbrot_and_julia::julia::JuliaDoubleView;
use crate::views::mandelbrot_and_julia::mandelbrot::MandelbrotDoubleView;
use crate::views::view::ElementState;
use crate::views::view::MouseButton;
use crate::views::view::PositionUpdate;
use crate::views::view::mouse_input_rel;
use crate::views::view::position_update_rel;

verus! {

/// Which half of the split window an event is routed to.
#[derive(Clone, Copy, Debug, PartialEq, Eq, Structural)]
pub enum Side {
    Left,
    Right,
}

/// Everything a cursor move over the split layout asks of the GPU side.
#[derive(Clone, Copy, Debug, PartialEq, Eq, Structural)]
pub struct DoublePositionUpdate {
    /// The half the cursor position was routed to.
    pub side: Side,
    /// What that half's view asked for its own position uniform.
    pub update: PositionUpdate,
    /// Reset the left half's drag origin to the current cursor position: the
    /// split layout had not seen a cursor position over the left half yet.
    pub seed_left_prev: bool,
    /// Upload a new Julia generator point, taken from the cursor position over
    /// the Mandelbrot half, to the right half's generator uniform buffer.
    pub emit_generator: bool,
}

#[derive(Clone, Copy, Debug, PartialEq, Eq, Structural)]
pub struct DoubleViewManager {
    pub left: MandelbrotDoubleView,
    pub right: JuliaDoubleView,
    pub ever_had_pos: bool,
}

/// How `DoubleViewManager::new_position` changes the manager and what it asks
/// of the caller. A cursor position strictly right of the middle goes to the
/// Julia half, any other to the Mandelbrot half; a passive move over the
/// Mandelbrot half moves the Julia generator point.
pub open spec fn double_position_rel(
    pre: DoubleViewManager,
    post: DoubleViewManager,
    cursor_in_right_half: bool,
    active: bool,
    r: DoublePositionUpdate,
) -> bool {
    &&& r.side == if cursor_in_right_half {
        Side::Right
    } else {
        Side::Left
    }
    &&& cursor_in_right_half ==> {
        &&& post.left == pre.left
        &&& post.ever_had_pos == pre.ever_had_pos
        &&& position_update_rel(pre.right.data, post.right.data, active, r.update)
        &&& !r.seed_left_prev
        &&& !r.emit_generator
    }
    &&& !cursor_in_right_half ==> {
        &&& post.right == pre.right
        &&& post.ever_had_pos
        &&& position_update_rel(pre.left.data, post.left.data, active, r.update)
        &&& r.seed_left_prev == !pre.ever_had_pos
        &&& r.emit_generator == !active
    }
}

impl DoubleViewManager {
    pub fn new() -> (m: Self)
        ensures
            !m.left.data.first_drag_pos_received,
            !m.left.data.left_button_pressed,
            !m.right.data.first_drag_pos_received,
            !m.right.data.left_button_pressed,
            !m.ever_had_pos,
    {
        DoubleViewManager {
            left: MandelbrotDoubleView::new(),
            right: JuliaDoubleView::new(),
            ever_had_pos: false,
        }
    }

    /// Button events go to both halves.
    pub fn mouse_input(&mut self, button: MouseButton, state: ElementState)
        ensures
            mouse_input_rel(old(self).left.data, final(self).left.data, button, state),
            mouse_input_rel(old(self).right.data, final(self).right.data, button, state),
            final(self).ever_had_pos == old(self).ever_had_pos,
    {
        self.left.data.mouse_input(button, state);
        self.right.data.mouse_input(button, state);
    }

    /// An iteration-depth change goes to the half the cursor is over; on the
    /// exact middle it goes right.
    pub fn iterations(&self, cursor_in_left_half: bool) -> (s: Side)
        ensures
            s == if cursor_in_left_half {
                Side::Left
            } else {
                Side::Right
            },
    {
        if cursor_in_left_half {
            Side::Left
        } else {
            Side::Right
        }
    }

    /// A zoom change goes to the half the cursor is over; on the exact middle
    /// it goes right.
    pub fn zoom(&self, cursor_in_left_half: bool) -> (s: Side)
        ensures
            s == if cursor_in_left_half {
                Side::Left
            } else {
                Side::Right
            },
    {
        if cursor_in_left_half {
            Side::Left
        } else {
            Side::Right
        }
    }

    /// The split layout always shows both sets; a set-Julia request changes
    /// nothing and uploads nothing.
    pub fn set_julia(&self, _state: bool) -> (r: Option<Julia>)
        ensures
            r is None,
    {
        None
    }

    pub fn new_position(&mut self, cursor_in_right_half: bool, active: bool) -> (r:
        DoublePositionUpdate)
        ensures
            double_position_rel(*old(self), *final(self), cursor_in_right_half, active, r),
    {
        if cursor_in_right_half {
            let update = self.right.data.new_position(active);
            DoublePositionUpdate {
                side: Side::Right,
                update,
                seed_left_prev: false,
                emit_generator: false,
            }
        } else {
            let seed_left_prev = !self.ever_had_pos;
            self.ever_had_pos = true;
            let update = self.left.data.new_position(active);
            DoublePositionUpdate {
                side: Side::Left,
                update,
                seed_left_prev,
                emit_generator: !active,
            }
        }
    }
}

} // verus!
