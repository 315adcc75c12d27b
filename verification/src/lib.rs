//! Heap-allocation bridging for a native automaton library.
//!
//! A native, C-calling-convention component performs all of its heap
//! allocation through four host-supplied callbacks and an opaque context.
//! The heart of this crate is the bookkeeping those callbacks rely on: a
//! tracking bridge that records the size and alignment of every live
//! allocation (`bridge`), the layout arithmetic that derives those pairs
//! (`layout`), and a guarded allocation primitive that brackets a buffer
//! with canary bytes to detect out-of-bounds writes (`alloc_guard`).
//! Around that core sit the macro front end's argument parser (`args`)
//! and the wrapper that names generated matcher code (`codegen`).

pub mod alloc_guard;
pub mod args;
pub mod bridge;
pub mod codegen;
pub mod layout;
