//! A nullable, shared-ownership pointer slot.
//!
//! The slot ([`AtomicArc`]) holds at most one [`SharedRef`]: a
//! reference-counted handle to an immutable value, tagged with the identity
//! of its allocation. The slot's operations — `load`, `store`, `swap` and
//! `compare_and_swap` — publish, read and replace that handle, and each one
//! accounts for exactly one reference-count unit entering and one leaving.
//! `compare_and_swap` compares allocation identity, never the pointed-to
//! values.

pub mod handle;
pub mod laws;
pub mod slot;

pub use handle::SharedRef;
pub use slot::AtomicArc;
