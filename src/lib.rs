//! A write-once cell: it starts empty, takes a value at most once, and from
//! then on holds that value for the rest of its life.
mod cell;
pub mod laws;

pub use cell::{filled, try_set_outcome, AlwaysCell};
