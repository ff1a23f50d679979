//! Host-side state of an interactive Mandelbrot/Julia fractal viewer.
//!
//! The GPU work (uniform buffer uploads, render passes, shader modules) and the
//! windowing plumbing live outside this library; what is verified here is the
//! state the viewer keeps between events and the decisions it takes on each
//! event: which flags change, which view receives an event, and which uniform
//! buffer updates must be issued.

pub mod controller;
pub mod utils;
pub mod views;
