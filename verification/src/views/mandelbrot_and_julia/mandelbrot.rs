//! The left half of the split layout: a Mandelbrot view whose drag position
//! also drives the Julia generator point on the right.

use vstd::prelude::*;

use crate::views::view::FractalViewData;

verus! {

#[derive(Clone, Copy, Debug, PartialEq, Eq, Structural)]
pub struct MandelbrotDoubleView {
    pub data: FractalViewData,
}

impl MandelbrotDoubleView {
    pub fn new() -> (v: Self)
        ensures
            !v.data.first_drag_pos_received,
            !v.data.left_button_pressed,
    {
        MandelbrotDoubleView { data: FractalViewData::new() }
    }

    pub fn data(&mut self) -> (d: &mut FractalViewData)
        ensures
            *d == old(self).data,
            final(self).data == *final(d),
    {
        &mut self.data
    }
}

} // verus!
