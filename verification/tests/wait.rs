use process_monitor::{
    DefaultMonitor, Exit, MonitorError, ProcessMonitor, ProcessOutput, Report, Running, Step,
};
use time::OffsetDateTime;
use tokio::sync::oneshot::channel;
use tokio::sync::oneshot::error::TryRecvError;

#[test]
fn wait_returns_the_record_as_it_came() {
    let ts = OffsetDateTime::from_unix_timestamp(86_400).unwrap();
    let exit = DefaultMonitor::new().wait(Ok(Exit { ts, pid: 12, status: 34 })).unwrap();
    assert_eq!(exit.ts, ts);
    assert_eq!(exit.pid, 12);
    assert_eq!(exit.status, 34);
}

#[test]
fn dropped_sender_abandons_the_wait() {
    let (tx, rx) = channel::<Exit>();
    drop(tx);
    let waited = DefaultMonitor::new().wait(rx.blocking_recv());
    assert!(matches!(waited, Err(MonitorError::AbandonedChannel)));
}

#[test]
fn wait_issued_before_start_gets_the_record() {
    let monitor = DefaultMonitor::new();
    let (tx, mut rx) = channel::<Exit>();
    // The waiting side looks first and finds nothing yet.
    assert_eq!(rx.try_recv().unwrap_err(), TryRecvError::Empty);
    let running = match monitor.start(Report::Launched { spawned: Ok(Some(77)), tx }) {
        Step::Await(running) => running,
        other => panic!("expected a wait, got {:?}", other),
    };
    assert_eq!(rx.try_recv().unwrap_err(), TryRecvError::Empty);
    let collected = ProcessOutput { code: Some(0), stdout: Vec::new(), stderr: Vec::new() };
    let step = monitor.start(Report::Ended { running, collected: Ok(collected) });
    assert!(matches!(step, Step::Return(Ok(_))));
    let exit = monitor.wait(rx.blocking_recv()).unwrap();
    assert_eq!((exit.pid, exit.status), (77, 0));
}

#[test]
fn start_issued_before_wait_gets_the_record() {
    let monitor = DefaultMonitor::new();
    let (tx, rx) = channel::<Exit>();
    let collected = ProcessOutput { code: Some(2), stdout: Vec::new(), stderr: Vec::new() };
    let running = Running { pid: 78, tx };
    let step = monitor.start(Report::Ended { running, collected: Ok(collected) });
    assert!(matches!(step, Step::Return(Ok(_))));
    let exit = monitor.wait(rx.blocking_recv()).unwrap();
    assert_eq!((exit.pid, exit.status), (78, 2));
}

#[test]
fn invocations_do_not_share_a_channel() {
    let monitor = DefaultMonitor::new();
    let (tx_a, rx_a) = channel::<Exit>();
    let (tx_b, rx_b) = channel::<Exit>();
    let empty = || ProcessOutput { code: Some(0), stdout: Vec::new(), stderr: Vec::new() };
    let a = Running { pid: 1, tx: tx_a };
    let b = Running { pid: 2, tx: tx_b };
    assert!(matches!(
        monitor.start(Report::Ended { running: b, collected: Ok(empty()) }),
        Step::Return(Ok(_))
    ));
    assert!(matches!(
        monitor.start(Report::Ended { running: a, collected: Ok(empty()) }),
        Step::Return(Ok(_))
    ));
    assert_eq!(monitor.wait(rx_a.blocking_recv()).unwrap().pid, 1);
    assert_eq!(monitor.wait(rx_b.blocking_recv()).unwrap().pid, 2);
}

#[test]
fn new_and_default_make_the_same_monitor() {
    let made = DefaultMonitor::new();
    let copied = made;
    assert_eq!(format!("{:?}", made), format!("{:?}", DefaultMonitor::default()));
    assert_eq!(format!("{:?}", copied.clone()), "DefaultMonitor");
}

#[test]
fn output_clone_copies_code_and_streams() {
    let out = ProcessOutput { code: Some(17), stdout: vec![1, 2, 3], stderr: vec![4] };
    let copy = out.clone();
    assert_eq!(copy.code, Some(17));
    assert_eq!(copy.stdout, vec![1, 2, 3]);
    assert_eq!(copy.stderr, vec![4]);
    assert_eq!(copy, out);
    let none = ProcessOutput { code: None, stdout: Vec::new(), stderr: Vec::new() };
    assert_eq!(none.clone(), none);
}

struct Custom;

impl ProcessMonitor for Custom {}

#[test]
fn a_type_of_the_caller_takes_the_bodies_given() {
    let (tx, rx) = channel::<Exit>();
    let running = Running { pid: 3, tx };
    let collected = ProcessOutput { code: Some(4), stdout: Vec::new(), stderr: Vec::new() };
    assert!(matches!(
        Custom.start(Report::Ended { running, collected: Ok(collected) }),
        Step::Return(Ok(_))
    ));
    let exit = Custom.wait(rx.blocking_recv()).unwrap();
    assert_eq!((exit.pid, exit.status), (3, 4));
}
