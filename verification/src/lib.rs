//! Interactive view-transform and touch-stream conditioning for a rendering
//! scaffold.
//!
//! All quantities that the platform layer reports as fractional numbers
//! (positions, pressures, scale factors, matrix entries) are carried here as
//! exact fixed-point values: signed 64-bit counts of millionths of a unit
//! (see [`fixed::FX_ONE`]). Every operation on them is integer arithmetic
//! with a proved absence of overflow, so the contracts pin results down
//! exactly instead of approximating.

pub mod fixed;
pub mod math;
pub mod matrix;
pub mod mvp_uniform_obj;
pub mod fs;
pub mod utils;
pub mod vertex;
