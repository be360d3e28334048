//! Dynamic smoothing filter in Q16 fixed point: a cascade of two one-pole
//! lowpasses whose coefficient rises with the difference between the two
//! stages, so that the output follows jumps quickly and is calm otherwise.

use vstd::prelude::*;

pub mod fixed;
pub mod settling;
pub mod smoother;
pub mod stability;
pub mod tan;

pub use smoother::derive_g0;
pub use smoother::DynamicSmootherEcoI32;
pub use tan::tan_lut_lookup;
pub use tan::tan_wc_i32;

verus! {

/// Number of fractional bits of the fixed-point arguments and coefficients.
pub const I32_FRAC_BITS: u8 = tan::TAN_LUT_FRAC_BITS;

} // verus!
