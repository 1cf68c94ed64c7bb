//! Execution tracing for a WebAssembly interpreter.
//!
//! A [`Tracer`] follows an interpreter and fills three tables from which the
//! whole execution can be rebuilt without running it again: the
//! instruction table, with one entry for every instruction of every
//! registered module; the table of initial memory, with the first contents
//! of every memory and global; and the execution table, with one entry for
//! every recorded step.
//!
//! The interpreter hands its instances over as plain data (see
//! [`instance`] and [`memory`]) and tells the tracer of calls and returns
//! (see [`frames`]). The [`phantom`] module makes the host's implicit
//! fetching of external input show in the trace as ordinary bytecode.

pub mod etable;
pub mod frames;
pub mod imtable;
pub mod instance;
pub mod isa;
pub mod itable;
pub mod memory;
pub mod phantom;
pub mod register;
pub mod registry;
pub mod snapshot;
pub mod statistics;
pub mod tracer;
pub mod types;

pub use phantom::{add_trace_count, get_trace_count, reset_trace_count, PhantomFunction, TraceCount};
pub use tracer::Tracer;
pub use types::FuncDesc;
