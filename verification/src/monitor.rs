//! The monitor itself: the capability `ProcessMonitor`, its default
//! implementation, and the rules both follow.
//!
//! An invocation of `start` meets the system twice: when it launches the
//! process, and when it waits for the process to end. Between the two it only
//! decides. `ProcessMonitor::start` is that deciding part, one step at a time:
//! it takes a [`Report`] of what the system just did and answers with the
//! [`Step`] to take next. `ProcessMonitor::wait` takes what the receiving end
//! of the channel yielded and answers with the result of the wait.

use crate::error::MonitorError;
use crate::exit::{Exit, ProcessOutput};
use time::OffsetDateTime;
use tokio::sync::oneshot::error::RecvError;
use tokio::sync::oneshot::Sender;
use vstd::prelude::*;

verus! {

/// A process that `start` has launched and not yet seen end.
#[derive(Debug)]
pub struct Running {
    /// The identifier the system gave the process at its launch.
    pub pid: u32,
    /// The sending end of the channel on which the record of the end goes out.
    pub tx: Sender<Exit>,
}

/// Where an invocation of `start` stands, with what the system just reported.
#[derive(Debug)]
pub enum Report {
    /// The launch was attempted. `spawned` holds the identifier the system
    /// gave the new process, if it gave one, or the error of the launch;
    /// `tx` is the sending end that the caller of `start` brought.
    Launched { spawned: Result<Option<u32>, std::io::Error>, tx: Sender<Exit> },
    /// The wait on a launched process is over. `collected` holds what the
    /// process left behind, or the error of the wait.
    Ended { running: Running, collected: Result<ProcessOutput, std::io::Error> },
}

/// What an invocation of `start` does next.
#[derive(Debug)]
pub enum Step {
    /// Wait until the process ends, collecting what it writes, and come back
    /// with `Report::Ended` and this same `Running`.
    Await(Running),
    /// Return this to the caller of `start`.
    Return(Result<ProcessOutput, MonitorError>),
}

/// The step that follows a launch: a wait on the process where the system
/// named it, a failure otherwise.
pub open spec fn after_launch(
    spawned: Result<Option<u32>, std::io::Error>,
    tx: Sender<Exit>,
) -> Step {
    match spawned {
        Ok(Some(pid)) => Step::Await(Running { pid, tx }),
        Ok(None) => Step::Return(Err(MonitorError::IdentifierUnavailable)),
        Err(error) => Step::Return(Err(MonitorError::SpawnFailure(error))),
    }
}

/// The record of a process launched under `pid` whose end was observed at
/// `ts`. There is one where the process ended with a code.
pub open spec fn exit_of(ts: OffsetDateTime, pid: u32, code: Option<i32>) -> Result<
    Exit,
    MonitorError,
> {
    match code {
        Some(status) => Ok(Exit { ts, pid, status }),
        None => Err(MonitorError::MissingStatusCode),
    }
}

/// What `start` returns once the channel has answered: the output where the
/// record was taken, the refused record where it was not.
pub open spec fn after_send(output: ProcessOutput, sent: Result<(), Exit>) -> Result<
    ProcessOutput,
    MonitorError,
> {
    match sent {
        Ok(_) => Ok(output),
        Err(exit) => Err(MonitorError::DeliveryRefused(exit)),
    }
}

/// What `wait` returns for what the receiving end yielded: the record as it
/// came, or the news that the sending end is gone.
pub open spec fn after_receive(received: Result<Exit, RecvError>) -> Result<Exit, MonitorError> {
    match received {
        Ok(exit) => Ok(exit),
        Err(_) => Err(MonitorError::AbandonedChannel),
    }
}

/// Whether `step` may follow `report`.
///
/// After a launch the step is fixed. After the end of the process it is
/// fixed too, except where a record goes to the channel: then the receiving
/// end decides whether it is taken, so either the output is returned, or the
/// record comes back refused, with the identifier and the code it was made
/// from.
pub open spec fn follows(report: Report, step: Step) -> bool {
    match report {
        Report::Launched { spawned, tx } => step == after_launch(spawned, tx),
        Report::Ended { running, collected } => match collected {
            Err(error) => step == Step::Return(Err(MonitorError::CollectFailure(error))),
            Ok(output) => match output.code {
                None => step == Step::Return(Err(MonitorError::MissingStatusCode)),
                Some(status) => {
                    ||| step == Step::Return(Ok(output))
                    ||| {
                        &&& step matches Step::Return(Err(MonitorError::DeliveryRefused(exit)))
                        &&& exit.pid == running.pid
                        &&& exit.status == status
                    }
                },
            },
        },
    }
}

/// Decides the step that follows a launch.
pub fn launch(spawned: Result<Option<u32>, std::io::Error>, tx: Sender<Exit>) -> (step: Step)
    ensures
        step == after_launch(spawned, tx),
{
    match spawned {
        Ok(Some(pid)) => Step::Await(Running { pid, tx }),
        Ok(None) => Step::Return(Err(MonitorError::IdentifierUnavailable)),
        Err(error) => Step::Return(Err(MonitorError::SpawnFailure(error))),
    }
}

/// Makes the record of a process launched under `pid` whose end was
/// observed at `ts`.
pub fn exit_record(ts: OffsetDateTime, pid: u32, code: Option<i32>) -> (record: Result<
    Exit,
    MonitorError,
>)
    ensures
        record == exit_of(ts, pid, code),
{
    match code {
        Some(status) => Ok(Exit { ts, pid, status }),
        None => Err(MonitorError::MissingStatusCode),
    }
}

/// Decides what `start` returns once the channel has answered.
pub fn delivered(output: ProcessOutput, sent: Result<(), Exit>) -> (result: Result<
    ProcessOutput,
    MonitorError,
>)
    ensures
        result == after_send(output, sent),
{
    match sent {
        Ok(_) => Ok(output),
        Err(exit) => Err(MonitorError::DeliveryRefused(exit)),
    }
}

/// The capability of following a process from its launch to its end and of
/// handing the record of that end to whoever waits for it.
///
/// Both operations come with a body. A type that has the capability may give
/// either a body of its own, which then answers as the contract here says.
pub trait ProcessMonitor {
    /// Takes one step of an invocation of `start`.
    ///
    /// The caller launches the process and reports `Launched`. Where the
    /// answer is `Await`, it waits for the process to end and reports
    /// `Ended`; where the answer is `Return`, the invocation is over.
    ///
    /// On `Ended` with the output of a process that ended with a code, the
    /// clock is read, the record is made and offered to the channel. The
    /// sending end is spent by that, and dropped wherever `start` returns
    /// without having offered a record.
    fn start(&self, report: Report) -> (step: Step)
        ensures
            follows(report, step),
    {
        match report {
            Report::Launched { spawned, tx } => launch(spawned, tx),
            Report::Ended { running, collected } => match collected {
                Err(error) => Step::Return(Err(MonitorError::CollectFailure(error))),
                Ok(output) => {
                    let ts = OffsetDateTime::now_utc();
                    match exit_record(ts, running.pid, output.code) {
                        Err(error) => Step::Return(Err(error)),
                        Ok(exit) => Step::Return(delivered(output, running.tx.send(exit))),
                    }
                },
            },
        }
    }

    /// Turns what the receiving end of the channel yielded into the result
    /// of `wait`.
    fn wait(&self, received: Result<Exit, RecvError>) -> (result: Result<Exit, MonitorError>)
        ensures
            result == after_receive(received),
    {
        match received {
            Ok(exit) => Ok(exit),
            Err(_) => Err(MonitorError::AbandonedChannel),
        }
    }
}

/// The monitor to use where nothing special is asked of launching or
/// waiting. It holds no state and takes both operations as they come.
#[derive(Debug, Clone, Copy)]
pub struct DefaultMonitor {}

impl ProcessMonitor for DefaultMonitor {}

impl Default for DefaultMonitor {
    fn default() -> (monitor: Self)
        ensures
            monitor == (DefaultMonitor {}),
    {
        Self {}
    }
}

impl DefaultMonitor {
    /// Makes a monitor.
    pub fn new() -> (monitor: Self)
        ensures
            monitor == (DefaultMonitor {}),
    {
        Self {}
    }
}

/// The record of an end holds the identifier of the launch and the code of
/// the end: a launch that the system answered with `pid` leads to a wait on
/// `pid`, and the record made when that wait is over holds `pid` and the code
/// the process ended with, at whatever instant it is made.
pub proof fn lemma_record_holds_identifier_and_code(
    pid: u32,
    tx: Sender<Exit>,
    ts: OffsetDateTime,
    status: i32,
)
    ensures
        after_launch(Ok(Some(pid)), tx) == Step::Await(Running { pid, tx }),
        exit_of(ts, pid, Some(status)) == Ok::<Exit, MonitorError>(Exit { ts, pid, status }),
{
}

/// `wait` gives out the record that `start` made, as it was made: where the
/// channel yields the record of a process launched under `pid` that ended
/// with `status`, the wait succeeds with that identifier, that code and the
/// instant the record was made at.
pub proof fn lemma_wait_yields_the_record_made(ts: OffsetDateTime, pid: u32, status: i32)
    ensures
        exit_of(ts, pid, Some(status)) matches Ok(exit) && after_receive(Ok(exit)) == Ok::<
            Exit,
            MonitorError,
        >(Exit { ts, pid, status }),
{
}

/// An invocation of `start` is over once the end of the wait is reported:
/// whatever the system and the channel did, the step that follows is a
/// return, and it returns an output only where that is the output collected
/// from a process that ended with a code.
pub proof fn lemma_end_is_answered_with_return(
    running: Running,
    collected: Result<ProcessOutput, std::io::Error>,
    step: Step,
)
    requires
        follows(Report::Ended { running, collected }, step),
    ensures
        step is Return,
        step->Return_0 matches Ok(output) ==> collected == Ok::<ProcessOutput, std::io::Error>(
            output,
        ) && output.code is Some,
{
}

/// A record is refused only after the process has ended and its output was
/// collected, and the refused record is that of this process: it holds the
/// identifier the process ran under and the code it ended with.
pub proof fn lemma_refusal_follows_collected_output(report: Report, exit: Exit)
    requires
        follows(report, Step::Return(Err(MonitorError::DeliveryRefused(exit)))),
    ensures
        report matches Report::Ended { running, collected: Ok(output) } && running.pid == exit.pid
            && output.code == Some(exit.status),
{
}

} // verus!
