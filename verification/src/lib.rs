//! A minimal interactive process debugger: it launches a target executable
//! under trace control, lets the operator set one software breakpoint, resume
//! execution, single-step, and inspect CPU registers.
//!
//! The crate holds the debugger's process-control and breakpoint engine: the
//! typed state machine governing whether a target process exists, the logic
//! that patches and restores executable memory to implement a software
//! breakpoint, and the protocol for stepping over a breakpoint before
//! resuming. The surrounding read-eval loop, which feeds tokenized command
//! vectors into [`dbg`], lives outside the library.

pub mod addr;
pub mod dbg;
pub mod laws;
pub mod trace;
pub mod word;
