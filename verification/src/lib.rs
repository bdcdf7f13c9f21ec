//! A growable sequence container with a one-word handle.
//!
//! The container's length and capacity counters live in a header at the
//! front of its single backing allocation, ahead of the element array, so
//! the handle held by the owner is exactly one machine pointer wide.

pub mod growth;
pub mod handle;
pub mod heap_vec;
pub mod laws;

pub use handle::Unique;
pub use heap_vec::HeapVec;
