//! Control of Intel Processor Trace through its model-specific registers.
//!
//! The library turns a declarative trace configuration into the exact bit
//! layout of the trace control register, gates every feature against the
//! capabilities that the CPU reports, and drives the attach, start, stop and
//! detach lifecycle of one trace buffer on one logical CPU.

pub mod registers;
pub mod filter;
pub mod capability;
pub mod encoding;
pub mod msr;
pub mod buffer;
pub mod controller;
pub mod dump;

pub use controller::{ProcessorTraceController, TraceError};
pub use dump::TraceDump;
pub use filter::FilterConfig;
