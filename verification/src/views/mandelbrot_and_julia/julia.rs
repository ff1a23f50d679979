//! The right half of the split layout: a Julia view whose generator point
//! follows the cursor over the Mandelbrot half.

use vstd::prelude::*;

use crate::views::view::FractalViewData;

verus! {

#[derive(Clone, Copy, Debug, PartialEq, Eq, Structural)]
pub struct JuliaDoubleView {
    pub data: FractalViewData,
}

impl JuliaDoubleView {
    pub fn new() -> (v: Self)
        ensures
            !v.data.first_drag_pos_received,
            !v.data.left_button_pressed,
    {
        JuliaDoubleView { data: FractalViewData::new() }
    }

    pub fn data(&mut self) -> (d: &mut FractalViewData)
        ensures
            *d == old(self).data,
            final(self).data == *final(d),
    {
        &mut self.data
    }
}

} // verus!
