//! Home of the split view that displays both Mandelbrot and Julia at the same
//! time.

pub mod double;
pub mod julia;
pub mod mandelbrot;

pub use self::double::DoubleViewManager;
pub use self::julia::JuliaDoubleView;
pub use self::mandelbrot::MandelbrotDoubleView;
