//! The algebra of the four types, proved from what their operations are
//! specified to return.
//!
//! A law of vectors holds where the matching property of scalars (module
//! `scalar`) holds of the coordinates involved; each function names those
//! properties in its `requires` and needs nothing else. Module `int64` shows
//! the properties of `i64`, which has them wherever the results fit.

pub mod planar;
pub mod spatial;
pub mod int64;
