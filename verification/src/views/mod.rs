//! Home of view managers.

pub mod mandelbrot;
pub mod mandelbrot_and_julia;
pub mod switchable;
pub mod view;

pub use self::mandelbrot::MandelbrotViewManager;
pub use self::mandelbrot_and_julia::DoubleViewManager;
pub use self::mandelbrot_and_julia::JuliaDoubleView;
pub use self::mandelbrot_and_julia::MandelbrotDoubleView;
pub use self::switchable::SwitchableViewManager;
pub use self::view::FractalViewData;
