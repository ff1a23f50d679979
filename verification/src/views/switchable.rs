//! `SwitchableViewManager` owns all view managers, is a view manager itself,
//! and passes events to the manager dependent on its `current` property.

use vstd::prelude::*;

use crate::utils::CurrentView;
use crate::utils::Julia;
use crate::views::mandelbrot::MandelbrotViewManager;
use crate::views::mandelbrot_and_julia::double::DoublePositionUpdate;
use crate::views::mandelbrot_and_julia::double::DoubleViewManager;
use crate::views::mandelbrot_and_julia::double::Side;
use crate::views::mandelbrot_and_julia::double::double_position_rel;
use crate::views::view::ElementState;
use crate::views::view::MouseButton;
use crate::views::view::PositionUpdate;
use crate::views::view::mouse_input_rel;
use crate::views::view::position_update_rel;

verus! {

/// The view an iteration-depth or zoom change must be applied to.
#[derive(Clone, Copy, Debug, PartialEq, Eq, Structural)]
pub enum ViewTarget {
    Single,
    DoubleLeft,
    DoubleRight,
}

/// What a cursor move asks for, depending on the layout it was routed to.
#[derive(Clone, Copy, Debug, PartialEq, Eq, Structural)]
pub enum PositionOutcome {
    Single(PositionUpdate),
    Double(DoublePositionUpdate),
}

#[derive(Clone, Copy, Debug, PartialEq, Eq, Structural)]
pub struct SwitchableViewManager {
    pub single: MandelbrotViewManager,
    pub double: DoubleViewManager,
    pub current: CurrentView,
}

/// How `SwitchableViewManager::mouse_input` dispatches a button event: the
/// layout on screen takes it, the other keeps its state.
pub open spec fn mouse_dispatch_rel(
    pre: SwitchableViewManager,
    post: SwitchableViewManager,
    button: MouseButton,
    state: ElementState,
) -> bool {
    &&& post.current == pre.current
    &&& pre.current == CurrentView::Double ==> {
        &&& post.single == pre.single
        &&& mouse_input_rel(pre.double.left.data, post.double.left.data, button, state)
        &&& mouse_input_rel(pre.double.right.data, post.double.right.data, button, state)
        &&& post.double.ever_had_pos == pre.double.ever_had_pos
    }
    &&& pre.current == CurrentView::Single ==> {
        &&& post.double == pre.double
        &&& mouse_input_rel(pre.single.view.data, post.single.view.data, button, state)
    }
}

/// How `SwitchableViewManager::new_position` dispatches a cursor move: the
/// layout on screen answers it, the other keeps its state.
pub open spec fn position_dispatch_rel(
    pre: SwitchableViewManager,
    post: SwitchableViewManager,
    cursor_in_right_half: bool,
    active: bool,
    r: PositionOutcome,
) -> bool {
    &&& post.current == pre.current
    &&& pre.current == CurrentView::Double ==> {
        &&& post.single == pre.single
        &&& r matches PositionOutcome::Double(u) && double_position_rel(
            pre.double,
            post.double,
            cursor_in_right_half,
            active,
            u,
        )
    }
    &&& pre.current == CurrentView::Single ==> {
        &&& post.double == pre.double
        &&& r matches PositionOutcome::Single(u) && position_update_rel(
            pre.single.view.data,
            post.single.view.data,
            active,
            u,
        )
    }
}

/// The view an iteration-depth or zoom change is applied to: the single view,
/// or the half of the split view the cursor is over.
pub open spec fn wheel_target(current: CurrentView, cursor_in_left_half: bool) -> ViewTarget {
    if current == CurrentView::Double {
        if cursor_in_left_half {
            ViewTarget::DoubleLeft
        } else {
            ViewTarget::DoubleRight
        }
    } else {
        ViewTarget::Single
    }
}

impl SwitchableViewManager {
    pub fn init(single: MandelbrotViewManager, double: DoubleViewManager, current: CurrentView)
        -> (m: Self)
        ensures
            m.single == single,
            m.double == double,
            m.current == current,
    {
        SwitchableViewManager { single, double, current }
    }

    /// Button events go to the layout on screen; the other keeps its state.
    pub fn mouse_input(&mut self, button: MouseButton, state: ElementState)
        ensures
            mouse_dispatch_rel(*old(self), *final(self), button, state),
    {
        if self.current == CurrentView::Double {
            self.double.mouse_input(button, state);
        } else {
            self.single.mouse_input(button, state);
        }
    }

    /// An iteration-depth change goes to the view on screen under the cursor.
    pub fn iterations(&self, cursor_in_left_half: bool) -> (t: ViewTarget)
        ensures
            t == wheel_target(self.current, cursor_in_left_half),
    {
        if self.current == CurrentView::Double {
            match self.double.iterations(cursor_in_left_half) {
                Side::Left => ViewTarget::DoubleLeft,
                Side::Right => ViewTarget::DoubleRight,
            }
        } else {
            ViewTarget::Single
        }
    }

    /// A zoom change goes to the view on screen under the cursor.
    pub fn zoom(&self, cursor_in_left_half: bool) -> (t: ViewTarget)
        ensures
            t == wheel_target(self.current, cursor_in_left_half),
    {
        if self.current == CurrentView::Double {
            match self.double.zoom(cursor_in_left_half) {
                Side::Left => ViewTarget::DoubleLeft,
                Side::Right => ViewTarget::DoubleRight,
            }
        } else {
            ViewTarget::Single
        }
    }

    /// A set-Julia request is honoured only by the single layout.
    pub fn set_julia(&self, state: bool) -> (r: Option<Julia>)
        ensures
            self.current == CurrentView::Single ==> r == Some(Julia { is_julia: state }),
            self.current == CurrentView::Double ==> r is None,
    {
        if self.current == CurrentView::Double {
            self.double.set_julia(state)
        } else {
            self.single.set_julia(state)
        }
    }

    /// A cursor move goes to the layout on screen; the other keeps its state.
    pub fn new_position(&mut self, cursor_in_right_half: bool, active: bool) -> (r:
        PositionOutcome)
        ensures
            position_dispatch_rel(*old(self), *final(self), cursor_in_right_half, active, r),
    {
        if self.current == CurrentView::Double {
            PositionOutcome::Double(self.double.new_position(cursor_in_right_half, active))
        } else {
            PositionOutcome::Single(self.single.new_position(active))
        }
    }
}

} // verus!
