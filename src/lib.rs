//! Deterministic colors for arbitrary strings.
//!
//! A string is hashed with SHA-256, the first four bytes of the digest are
//! read as a big-endian integer, and that integer picks a hue, a saturation
//! and a lightness from a configurable set of candidates.
pub mod digest;
pub mod color;
pub mod laws;
