//! Complex numbers kept simultaneously in Cartesian and polar form.
//!
//! Every scalar in this crate is an IEEE 754 binary64 value carried as its
//! bit pattern (a `u64`); callers move values across the boundary with the
//! standard to-bits and from-bits conversions. The binary64 operations
//! themselves are performed by outside arithmetic crates behind small
//! trusted wrappers (see [`scalar`]); the library's own logic — which
//! representation each operation works in, and how the dual representation
//! is re-derived on every construction — is verified.

pub mod angle;
pub mod complex;
pub mod scalar;
pub mod z;

pub use angle::Angle;
pub use angle::Degree;
pub use angle::Radian;
pub use complex::ComplexNumber;
pub use z::CartesianComplexNumber;
pub use z::PolarComplexNumber;
