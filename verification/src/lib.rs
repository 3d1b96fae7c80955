//! A flash-mediation syscall driver for a security-key microcontroller.
//!
//! The driver admits at most one flash operation at a time, validates the
//! address and alignment of every request, splits word-aligned writes into
//! chunks that respect the hardware's write-boundary defect, and routes
//! asynchronous completions back to the process that issued the request.
//! Hardware work is returned to the caller as explicit requests; a thin
//! unverified runner performs them and feeds the completions back in.

pub mod chunks;
pub mod opensk_syscall;
pub mod probe;
pub mod ui;
pub mod words;
