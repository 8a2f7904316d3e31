//! Block contraction of a 3x3 linear map with a set of node vectors.

pub mod kernel;
pub mod laws;
pub mod matrix;
pub mod scalar;
