//! The single full-window Mandelbrot view and its manager.

use vstd::prelude::*;

use crate::utils::Julia;
use crate::views::view::ElementState;
use crate::views::view::FractalViewData;
use crate::views::view::MouseButton;
use crate::views::view::PositionUpdate;
use crate::views::view::mouse_input_rel;
use crate::views::view::position_update_rel;

verus! {

/// The one view of the single layout: a Mandelbrot set over the whole window.
#[derive(Clone, Copy, Debug, PartialEq, Eq, Structural)]
pub struct MandelbrotOnlyView {
    pub data: FractalViewData,
}

impl MandelbrotOnlyView {
    pub fn new() -> (v: Self)
        ensures
            !v.data.first_drag_pos_received,
            !v.data.left_button_pressed,
    {
        MandelbrotOnlyView { data: FractalViewData::new() }
    }

    pub fn data(&mut self) -> (d: &mut FractalViewData)
        ensures
            *d == old(self).data,
            final(self).data == *final(d),
    {
        &mut self.data
    }
}

/// Manages the single layout; every event goes to its one view.
#[derive(Clone, Copy, Debug, PartialEq, Eq, Structural)]
pub struct MandelbrotViewManager {
    pub view: MandelbrotOnlyView,
}

impl MandelbrotViewManager {
    pub fn new() -> (m: Self)
        ensures
            !m.view.data.first_drag_pos_received,
            !m.view.data.left_button_pressed,
    {
        MandelbrotViewManager { view: MandelbrotOnlyView::new() }
    }

    pub fn mouse_input(&mut self, button: MouseButton, state: ElementState)
        ensures
            mouse_input_rel(old(self).view.data, final(self).view.data, button, state),
    {
        self.view.data.mouse_input(button, state);
    }

    /// In the single layout a set-Julia request is always honoured: the new
    /// flag value is uploaded to the view's uniform buffer.
    pub fn set_julia(&self, state: bool) -> (r: Option<Julia>)
        ensures
            r == Some(Julia { is_julia: state }),
    {
        Some(Julia { is_julia: state })
    }

    pub fn new_position(&mut self, active: bool) -> (u: PositionUpdate)
        ensures
            position_update_rel(old(self).view.data, final(self).view.data, active, u),
    {
        self.view.data.new_position(active)
    }
}

} // verus!
