//! Lockstep iteration over several vectorized streams: a zip of streams
//! hands out tuples of vectors, one vector of each stream, and a map or a
//! reduction consumes them.

pub mod iters;
pub mod laws;
pub mod vecs;
pub mod zip;
