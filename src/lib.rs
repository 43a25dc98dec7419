//! Fixed-size 3- and 4-component vectors over a generic scalar type, with
//! length, normalization, dot and cross products and component-wise operators.

pub mod laws;
mod scalar;
mod vec3;
mod vec4;
mod vector;

pub use scalar::{ExactScalar, Scalar};
pub use vec3::Vec3;
pub use vec4::Vec4;
pub use vector::Vector;
