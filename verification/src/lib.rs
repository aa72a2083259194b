//! Core of an escape-time fractal renderer: the fractal catalogue with its
//! parameter invariants, colour-ramp name resolution, the integer stage of the
//! pixel-to-plane viewport mapping, pixel-buffer layout facts, and the
//! selection-box overlay that is drawn into a pixel buffer.

pub mod gradient;
pub mod variant;
pub mod viewport;
pub mod zoom_box;

pub use gradient::COLOUR_GRADIENTS;
pub use gradient::GradientId;
pub use gradient::gradient_name;
pub use gradient::string_to_colour_gradient;
pub use variant::Fractals;
