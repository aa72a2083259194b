//! The fractal catalogue: a closed set of three fractal families, each with
//! its own tunable parameters, and the invariants a well-formed value obeys.
//!
//! Real-valued parameters are carried as the bit patterns of IEEE-754
//! binary64 values; the caller converts to and from its own real number
//! representation at the boundary.  The well-formedness checks below are
//! therefore stated directly on bit patterns.

use vstd::prelude::*;

verus! {

/// Bit pattern of the positive-infinity binary64 value.  A binary64 value
/// compares strictly greater than zero exactly when its bit pattern lies in
/// the range `1 ..= POSITIVE_INFINITY_BITS`: the sign bit is clear, the value
/// is not a zero, and it is not a NaN.
pub const POSITIVE_INFINITY_BITS: u64 = 0x7ff0_0000_0000_0000;

/// Whether a binary64 bit pattern denotes a value strictly greater than zero
/// (a positive subnormal, normal, or infinite value).
pub open spec fn is_strictly_positive_bits(b: u64) -> bool {
    0 < b && b <= POSITIVE_INFINITY_BITS
}

/// One fractal to render, with its parameters.
///
/// `escape_radius` and the Julia constant `c` are binary64 bit patterns;
/// `colour_gradient` names the colour ramp used for the final colouring and
/// resolves through [`crate::gradient::string_to_colour_gradient`].
#[derive(Clone, PartialEq, Debug)]
pub enum Fractals {
    Mandelbrot { max_iterations: u32, escape_radius: u64, colour_gradient: String },
    Julia {
        max_iterations: u32,
        escape_radius: u64,
        c_re: u64,
        c_im: u64,
        colour_gradient: String,
    },
    Newton { max_iterations: u32, colour_gradient: String },
}

impl Fractals {
    /// The invariants of a renderable value: at least one iteration, and a
    /// strictly positive escape radius where the family has one.  A violation
    /// is a programmer error; the renderer refuses to run on such a value.
    pub open spec fn wf(&self) -> bool {
        match *self {
            Fractals::Mandelbrot { max_iterations, escape_radius, .. } => {
                max_iterations >= 1 && is_strictly_positive_bits(escape_radius)
            },
            Fractals::Julia { max_iterations, escape_radius, .. } => {
                max_iterations >= 1 && is_strictly_positive_bits(escape_radius)
            },
            Fractals::Newton { max_iterations, .. } => max_iterations >= 1,
        }
    }

    /// Decide well-formedness, exactly as [`Fractals::wf`] states it.
    pub fn is_well_formed(&self) -> (r: bool)
        ensures
            r == self.wf(),
    {
        match self {
            Fractals::Mandelbrot { max_iterations, escape_radius, .. } => {
                *max_iterations >= 1 && 0 < *escape_radius && *escape_radius
                    <= POSITIVE_INFINITY_BITS
            },
            Fractals::Julia { max_iterations, escape_radius, .. } => {
                *max_iterations >= 1 && 0 < *escape_radius && *escape_radius
                    <= POSITIVE_INFINITY_BITS
            },
            Fractals::Newton { max_iterations, .. } => *max_iterations >= 1,
        }
    }
}

} // verus!
