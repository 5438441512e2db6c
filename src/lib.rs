//! Complex numbers generic over their scalar type.
mod complex;
pub mod laws;

pub use complex::Complex;
