//! A fair reader-writer lock protocol.
//!
//! Contended requests wait in one FIFO ticket line, and a writer in line
//! raises a flag that turns new readers away, so neither readers nor writers
//! starve. `state` gives the layout of the lock word, `raw` the atomic steps
//! on it, and `model` proves what those steps guarantee for every interleaving.
use vstd::prelude::*;

pub mod model;
pub mod raw;
pub mod state;

verus! {
}
