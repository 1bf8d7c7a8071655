//! Points and vectors of the plane and of space, over any scalar type that
//! has the standard operators.
//!
//! The four types are `Point`, `Vector`, `Point3D` and `Vector3D`. All of them
//! are compared with `==` and have `+`, `-`, `*` and `/`, coordinate by
//! coordinate; `*` and `/` also take a scalar. The vectors have `!` for the
//! opposite vector, `dot` and `cross`. `Point`, `Vector` and `Vector3D` are
//! indexed from their last coordinate, with `[]` or with `get` and `set`,
//! which answer an index out of range with `InvalidIndex`.
//!
//! Every operation is verified for every scalar type. Its contract says which
//! operator of the scalar type made each coordinate of the result from which
//! operands (module `scalar`), and gives the value itself wherever the scalar
//! type keeps to the specification of its operators, as the integers do.
//! Module `laws` holds the algebra that follows.

pub mod constants;
pub mod error;
pub mod scalar;
pub mod point;
pub mod vector;
pub mod point3d;
pub mod vector3d;
pub mod laws;

pub use constants::EULER_GAMMA_BITS;
pub use error::InvalidIndex;
pub use point::Point;
pub use vector::Vector;
pub use point3d::Point3D;
pub use vector3d::Vector3D;
