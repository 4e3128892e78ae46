//! The decisions of a process monitor for a container-runtime shim.
//!
//! A caller makes a one-shot channel, gives its sending end to `start` and its
//! receiving end to `wait`. `start` follows one process from its launch to
//! its end and hands the record of that end to the channel; `wait` gives the
//! record to whoever holds the other end. Launching and suspending are left
//! to the caller: `start` and `wait` take what the system reported and say
//! what follows from it.

pub mod error;
pub mod exit;
pub mod monitor;
pub mod trusted;

pub use error::MonitorError;
pub use exit::{Exit, ProcessOutput, ProcessOutputView};
pub use monitor::{DefaultMonitor, ProcessMonitor, Report, Running, Step};
