//! A discrete Fourier transform engine over complex samples.
//!
//! The library offers two independent algorithms: a direct (quadratic-cost)
//! transform that works for any length, and a recursive radix-2 transform
//! that requires a power-of-two length, together with the power-of-two
//! padding step that prepares a sequence for the recursive engine.

pub mod codec;
pub mod complex;
pub mod direct;
pub mod engine;
pub mod padding;
pub mod pow2;
