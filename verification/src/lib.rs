//! A syscall tracer library: process control, the stop-pairing state
//! machine, register decoding through a syscall descriptor table, and
//! best-effort reconstruction of strings from a traced process's memory.

pub mod arch;
pub mod cli;
pub mod memory;
pub mod registers;
pub mod text;
pub mod trace;
pub mod ui;
