//! The earliest-executing core of a freestanding environment: the boot entry
//! that a loader transfers control to, and the terminal fault handler that
//! halts forever once an unrecoverable fault is detected.
//!
//! The two components are leaves: they never call each other, and everything a
//! real kernel would eventually add (memory management, interrupts, drivers,
//! scheduling) is deliberately absent. What can be stated of this layer is its
//! control flow, modelled in [`machine`]: entry establishes normal instruction
//! flow, and the fault path ends in a halted state with no outgoing transition.

pub mod entry;
pub mod fault;
pub mod machine;
