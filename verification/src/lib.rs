//! Two-dimensional vectors over IEEE 754 binary64 numbers.
//!
//! The numbers are held as their 64-bit encodings, so that every rule of this crate is a
//! statement about integers: which encodings are zero, which are equal as numbers, and when
//! a vector has a direction. Arithmetic on the numbers is left to the caller.

pub mod binary64;
pub mod vector2;
