//! Integer core of a recursive Monte Carlo ray tracer: the pixel grid that a
//! render fills, and the depth-budget control of the shading recursion.

pub mod image_handler;
pub mod shading;
