//! A small xorwow pseudorandom number generator.
//!
//! `Ra` holds four 64-bit words of xorshift state and a Weyl counter.
//! `Ra::xorwow` produces the next raw 64-bit word; `Ra::sample` turns one
//! or two raw words into a value of a requested primitive type through the
//! `Sample` trait.
//!
//! The generator is deterministic and not suitable for cryptographic use.

pub mod generator;
pub mod laws;
pub mod sample;

pub use generator::{Ra, DEFAULT_RANDOM_SEED};
pub use sample::Sample;
