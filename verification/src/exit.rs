//! The values that pass through the monitor: what a process left behind, and
//! the record of its end.

use time::OffsetDateTime;
use vstd::prelude::*;

verus! {

/// How a process ended: when, under which identifier, and with which code.
/// Nothing changes a record once it is made.
#[derive(Debug)]
pub struct Exit {
    /// The instant at which the end was observed, in UTC.
    pub ts: OffsetDateTime,
    /// The identifier the system gave the process at its launch.
    pub pid: u32,
    /// The code the process ended with.
    pub status: i32,
}

/// What was collected from a process that has ended.
#[derive(Debug, PartialEq, Eq)]
pub struct ProcessOutput {
    /// The code the process ended with; `None` where it ended without one,
    /// as a process killed by a signal does.
    pub code: Option<i32>,
    /// Everything the process wrote to its standard output.
    pub stdout: Vec<u8>,
    /// Everything the process wrote to its standard error.
    pub stderr: Vec<u8>,
}

/// A `ProcessOutput` as plain values: the code and the bytes of both streams.
pub struct ProcessOutputView {
    pub code: Option<i32>,
    pub stdout: Seq<u8>,
    pub stderr: Seq<u8>,
}

impl View for ProcessOutput {
    type V = ProcessOutputView;

    open spec fn view(&self) -> ProcessOutputView {
        ProcessOutputView { code: self.code, stdout: self.stdout@, stderr: self.stderr@ }
    }
}

impl Clone for ProcessOutput {
    /// Copies the code and every byte of both streams.
    fn clone(&self) -> (copy: Self)
        ensures
            copy@ == self@,
    {
        ProcessOutput {
            code: self.code,
            stdout: self.stdout.clone(),
            stderr: self.stderr.clone(),
        }
    }
}

} // verus!
