//! A last-in-first-out stack kept as a chain of heap-allocated nodes.
//!
//! [`Stack`] is the container. Its contracts are stated over a `Seq` of the
//! stored values, bottom first, and over the functions of [`model`], which
//! say what each operation does to such a sequence. [`laws`] proves what
//! holds of whole runs of operations.

pub mod laws;
pub mod model;
pub mod stack;

pub use stack::Stack;
