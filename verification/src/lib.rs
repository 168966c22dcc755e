//! The discrete core of an articulatory voice synthesiser.
//!
//! The synthesiser models a glottis feeding a vocal tract and a nasal branch.
//! This crate holds the part of that model which is exact integer reasoning:
//! the layout of the tract, the block schedule that drives synthesis, the
//! looped noise buffer, the bookkeeping of closures and releases, and a
//! reproducible random generator. Every item is verified with Verus.

pub mod math;
pub mod noise;
pub mod noise_gen;
pub mod rng;
pub mod tract;
pub mod tract_shaper;
pub mod trombone;
