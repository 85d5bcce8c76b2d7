use stratum_v2_client::client::{ConnectionDetails, StartOutcome, Status, StratumClient};
use stratum_v2_client::job::StratumJob;
use stratum_v2_client::messages::Target;

fn client() -> StratumClient<&'static str> {
    let details = ConnectionDetails::new("worker".to_string(), "pool.example".to_string(), 3336);
    StratumClient::new(details, "solver")
}

/// A fresh client starts: the status moves to Starting and the solver
/// handle is checked out for the run sequence.
#[test]
fn start_from_created_checks_out_the_solver() {
    let mut c = client();
    assert_eq!(c.status(), Status::Created);
    match c.start() {
        StartOutcome::Started(solver) => assert_eq!(solver, "solver"),
        other => panic!("unexpected outcome: {:?}", other),
    }
    assert_eq!(c.status(), Status::Starting);
    assert!(c.job_solver.is_none());
}

/// A start while the status is Starting or Running is a no-op: no new
/// connection attempt, status unchanged.
#[test]
fn start_while_active_changes_nothing() {
    let mut c = client();
    c.start();
    assert_eq!(c.status(), Status::Starting);
    assert!(matches!(c.start(), StartOutcome::AlreadyActive));
    assert_eq!(c.status(), Status::Starting);

    c.on_connected();
    assert_eq!(c.status(), Status::Running);
    assert!(matches!(c.start(), StartOutcome::AlreadyActive));
    assert_eq!(c.status(), Status::Running);
}

/// A start while a stop is in flight only records the wish to restart.
#[test]
fn start_while_stopping_defers_to_restarting() {
    let mut c = client();
    c.compare_and_swap_status(Status::Created, Status::Stopping);
    assert!(matches!(c.start(), StartOutcome::Deferred));
    assert_eq!(c.status(), Status::Restarting);
    assert!(matches!(c.start(), StartOutcome::AlreadyActive));
    assert_eq!(c.status(), Status::Restarting);
}

/// A full run sequence: start, connect, session over, solver returned; the
/// client is startable again.
#[test]
fn run_sequence_returns_solver_and_stops() {
    let mut c = client();
    let solver = match c.start() {
        StartOutcome::Started(s) => s,
        other => panic!("unexpected outcome: {:?}", other),
    };
    c.on_connected();
    assert_eq!(c.status(), Status::Running);
    c.return_job_solver(solver);
    c.on_disconnected();
    assert_eq!(c.status(), Status::Stopped);
    assert!(matches!(c.start(), StartOutcome::Started(_)));
    assert_eq!(c.status(), Status::Starting);
}

/// The compare-and-swap leaves the status alone when it no longer reads the
/// expected value.
#[test]
fn compare_and_swap_fails_on_contested_value() {
    let mut c = client();
    let prev = c.compare_and_swap_status(Status::Stopped, Status::Starting);
    assert_eq!(prev, Status::Created);
    assert_eq!(c.status(), Status::Created);
}

/// A stop request changes nothing by itself; stopping is driven by the
/// transport closing.
#[test]
fn stop_request_is_inert() {
    let mut c = client();
    c.start();
    c.on_connected();
    c.stop();
    assert_eq!(c.status(), Status::Running);
}

/// The last-job slot is empty until a job is materialized, then holds the
/// most recent one.
#[test]
fn last_job_slot_replaced_wholesale() {
    let mut c = client();
    assert_eq!(c.get_last_job(), None);
    let job = StratumJob {
        id: 1,
        channel_id: 2,
        version: 3,
        prev_hash: [4; 32],
        merkle_root: [5; 32],
        time: 6,
        bits: 7,
        target: Target { hi: 8, lo: 9 },
    };
    c.update_last_job(job);
    assert_eq!(c.get_last_job(), Some(job));
    let mut newer = job;
    newer.id = 2;
    c.update_last_job(newer);
    assert_eq!(c.get_last_job(), Some(newer));
}
