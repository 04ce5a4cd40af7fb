//! Elementwise arithmetic for a 3-row, 4-column matrix of IEEE-754
//! single-precision values, built from three 4-wide lane vectors.
//!
//! Every value is carried as its bit pattern (`u32`), so that the matrix
//! and vector algebra can be specified and verified exactly, down to the
//! bit, while the arithmetic on individual lanes is delegated to an
//! IEEE-754 software implementation.

#![allow(non_camel_case_types)]

pub mod ieee;
pub mod matrix;
pub mod vector;

pub use matrix::float3x4;
pub use matrix::matrix_float3x4;
pub use vector::float4;
