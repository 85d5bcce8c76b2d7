use stratum_v2_client::client::{ConnectionDetails, StratumClient};
use stratum_v2_client::dispatcher::{DispatchOutcome, ProtocolError, StratumEventHandler};
use stratum_v2_client::job::{Solution, StratumJob};
use stratum_v2_client::messages::{
    Message, NewMiningJob, SetNewPrevHash, SetTarget, SubmitSharesError, SubmitSharesSuccess,
    Target,
};
use stratum_v2_client::submission::StratumSolutionHandler;

fn details() -> ConnectionDetails {
    ConnectionDetails::new("worker".to_string(), "pool.example".to_string(), 3336)
}

fn client() -> StratumClient<u8> {
    StratumClient::new(details(), 0u8)
}

fn job_msg(job_id: u32, future_job: bool) -> NewMiningJob {
    NewMiningJob {
        channel_id: 5,
        job_id,
        future_job,
        version: 0x2000_0000,
        merkle_root: [job_id as u8; 32],
    }
}

fn prevhash_msg(job_id: u32) -> SetNewPrevHash {
    SetNewPrevHash {
        channel_id: 5,
        job_id,
        prev_hash: [0xab; 32],
        min_ntime: 1_560_000_000,
        nbits: 0x1729_d72d,
    }
}

fn target(hi: u128) -> Target {
    Target { hi, lo: 0 }
}

fn solved(job: StratumJob, nonce: u32) -> Solution {
    Solution::new(job, nonce, job.time + 1, job.version)
}

/// A future job followed by a prevhash referencing it materializes the job
/// with the message's own fields, the prevhash's time and bits, and the
/// then-current target.
#[test]
fn prevhash_materializes_referenced_job() {
    let mut c = client();
    let mut h = StratumEventHandler::new(target(42));
    let m1 = job_msg(1, true);
    let m2 = job_msg(2, true);
    assert_eq!(
        h.handle_new_mining_job(&mut c, &m1),
        Ok(DispatchOutcome::JobStored)
    );
    assert_eq!(
        h.handle_new_mining_job(&mut c, &m2),
        Ok(DispatchOutcome::JobStored)
    );
    assert_eq!(c.get_last_job(), None);

    let ph = prevhash_msg(1);
    let r = h.handle_set_new_prev_hash(&mut c, &ph);
    let expected = StratumJob {
        id: 1,
        channel_id: 5,
        version: 0x2000_0000,
        prev_hash: [0xab; 32],
        merkle_root: [1; 32],
        time: 1_560_000_000,
        bits: 0x1729_d72d,
        target: target(42),
    };
    assert_eq!(r, Ok(DispatchOutcome::JobDispatched(expected)));
    assert_eq!(c.get_last_job(), Some(expected));
}

/// A job not marked future is mined right away under the prevhash context
/// in force; the target in force at materialization time is the one used.
#[test]
fn immediate_job_uses_current_context() {
    let mut c = client();
    let mut h = StratumEventHandler::new(target(1));
    let m1 = job_msg(1, true);
    h.handle_new_mining_job(&mut c, &m1).unwrap();
    let ph = prevhash_msg(1);
    h.handle_set_new_prev_hash(&mut c, &ph).unwrap();

    // a target change affects only jobs materialized afterwards
    let r = h.handle_message(
        &mut c,
        &Message::SetTarget(SetTarget { channel_id: 5, max_target: target(9) }),
        0,
    );
    assert_eq!(r, Ok(DispatchOutcome::TargetUpdated));

    let m3 = job_msg(3, false);
    let r = h.handle_message(&mut c, &Message::NewMiningJob(m3), 0);
    match r {
        Ok(DispatchOutcome::JobDispatched(job)) => {
            assert_eq!(job.id, 3);
            assert_eq!(job.target, target(9));
            assert_eq!(job.time, 1_560_000_000);
            assert_eq!(job.bits, 0x1729_d72d);
            assert_eq!(c.get_last_job(), Some(job));
        }
        other => panic!("unexpected outcome: {:?}", other),
    }
}

/// A job with an id already in the table supersedes the earlier entry.
#[test]
fn equal_job_ids_keep_the_later_message() {
    let mut c = client();
    let mut h = StratumEventHandler::new(target(1));
    let first = job_msg(7, true);
    let mut second = job_msg(7, true);
    second.version = 0x2000_0002;
    h.handle_new_mining_job(&mut c, &first).unwrap();
    h.handle_new_mining_job(&mut c, &second).unwrap();
    let r = h.handle_set_new_prev_hash(&mut c, &prevhash_msg(7));
    match r {
        Ok(DispatchOutcome::JobDispatched(job)) => assert_eq!(job.version, 0x2000_0002),
        other => panic!("unexpected outcome: {:?}", other),
    }
}

/// A prevhash referencing an id absent from the job table is a fatal
/// protocol fault and materializes nothing.
#[test]
fn prevhash_with_unknown_job_id_is_fatal() {
    let mut c = client();
    let mut h = StratumEventHandler::new(target(1));
    let m1 = job_msg(1, true);
    h.handle_new_mining_job(&mut c, &m1).unwrap();
    let r = h.handle_set_new_prev_hash(&mut c, &prevhash_msg(2));
    assert_eq!(r, Err(ProtocolError::UnknownJobId(2)));
    assert_eq!(c.get_last_job(), None);
}

/// An immediate job before any prevhash context is a fatal protocol fault.
#[test]
fn immediate_job_without_prevhash_is_fatal() {
    let mut c = client();
    let mut h = StratumEventHandler::new(target(1));
    let m = job_msg(1, false);
    let r = h.handle_new_mining_job(&mut c, &m);
    assert_eq!(r, Err(ProtocolError::MissingPrevHash));
    assert_eq!(c.get_last_job(), None);
}

fn client_with_queue() -> (StratumClient<u8>, StratumEventHandler, [Solution; 3]) {
    let mut c = client();
    let mut h = StratumEventHandler::new(target(3));
    h.handle_new_mining_job(&mut c, &job_msg(1, true)).unwrap();
    h.handle_set_new_prev_hash(&mut c, &prevhash_msg(1)).unwrap();
    let job = c.get_last_job().unwrap();
    let s0 = solved(job, 100);
    let s1 = solved(job, 101);
    let s2 = solved(job, 102);
    let mut sub = StratumSolutionHandler::new();
    sub.process_solution(&mut c, s0);
    sub.process_solution(&mut c, s1);
    sub.process_solution(&mut c, s2);
    (c, h, [s0, s1, s2])
}

/// Accept reconciliation: queue [(s0,0),(s1,1),(s2,2)], success with
/// acknowledged number 1: s0 and s1 are accounted accepted, s2 stays queued.
#[test]
fn accept_reconciliation_pops_through_acknowledged() {
    let (mut c, h, sols) = client_with_queue();
    let msg = SubmitSharesSuccess { channel_id: 5, last_seq_num: 1 };
    let reconciled = h.process_accepted_shares(&mut c, &msg, 777);
    assert!(reconciled);
    assert_eq!(c.client_stats.accepted.len(), 2);
    assert_eq!(c.client_stats.accepted[0].target, sols[0].job_target());
    assert_eq!(c.client_stats.accepted[0].time, 777);
    assert_eq!(c.client_stats.accepted[1].target, sols[1].job_target());
    assert_eq!(c.client_stats.rejected.len(), 0);
    assert_eq!(c.solutions.len(), 1);
    assert_eq!(c.solutions[0], (sols[2], 2));
}

/// Reject reconciliation: queue [(s0,0),(s1,1),(s2,2)], error with rejected
/// number 1: s0 accounted accepted, s1 accounted rejected, s2 stays queued.
#[test]
fn reject_reconciliation_accepts_predecessors() {
    let (mut c, h, sols) = client_with_queue();
    let msg = SubmitSharesError { channel_id: 5, seq_num: 1, code: "difficulty-too-low".to_string() };
    let reconciled = h.process_rejected_shares(&mut c, &msg, 778);
    assert!(reconciled);
    assert_eq!(c.client_stats.accepted.len(), 1);
    assert_eq!(c.client_stats.accepted[0].target, sols[0].job_target());
    assert_eq!(c.client_stats.rejected.len(), 1);
    assert_eq!(c.client_stats.rejected[0].target, sols[1].job_target());
    assert_eq!(c.client_stats.rejected[0].time, 778);
    assert_eq!(c.solutions.len(), 1);
    assert_eq!(c.solutions[0], (sols[2], 2));
}

/// An acknowledged number absent from the queue drains it and reports the
/// anomaly; processing goes on.
#[test]
fn accept_reconciliation_anomaly_drains_queue() {
    let (mut c, h, _sols) = client_with_queue();
    let msg = SubmitSharesSuccess { channel_id: 5, last_seq_num: 9 };
    let reconciled = h.process_accepted_shares(&mut c, &msg, 1);
    assert!(!reconciled);
    assert_eq!(c.client_stats.accepted.len(), 3);
    assert_eq!(c.solutions.len(), 0);
}

/// A rejected number absent from the queue drains it into the accepted
/// counter and reports the anomaly.
#[test]
fn reject_reconciliation_anomaly_drains_queue() {
    let (mut c, h, _sols) = client_with_queue();
    let msg = SubmitSharesError { channel_id: 5, seq_num: 9, code: "stale".to_string() };
    let reconciled = h.process_rejected_shares(&mut c, &msg, 1);
    assert!(!reconciled);
    assert_eq!(c.client_stats.accepted.len(), 3);
    assert_eq!(c.client_stats.rejected.len(), 0);
    assert_eq!(c.solutions.len(), 0);
}

/// Reconciliation against an already empty queue is the same anomaly.
#[test]
fn reconciliation_on_empty_queue_is_anomaly() {
    let mut c = client();
    let h = StratumEventHandler::new(target(1));
    let msg = SubmitSharesSuccess { channel_id: 5, last_seq_num: 0 };
    assert!(!h.process_accepted_shares(&mut c, &msg, 0));
    let msg = SubmitSharesError { channel_id: 5, seq_num: 0, code: "stale".to_string() };
    assert!(!h.process_rejected_shares(&mut c, &msg, 0));
    assert_eq!(c.client_stats.accepted.len(), 0);
    assert_eq!(c.client_stats.rejected.len(), 0);
}

/// One session seen through the single entry point: jobs arrive, solutions
/// are submitted, and both kinds of acknowledgment are reconciled.
#[test]
fn session_through_handle_message() {
    let mut c = client();
    let mut h = StratumEventHandler::new(target(3));
    h.handle_message(&mut c, &Message::NewMiningJob(job_msg(1, true)), 0)
        .unwrap();
    h.handle_message(&mut c, &Message::SetNewPrevHash(prevhash_msg(1)), 0)
        .unwrap();
    let job = c.get_last_job().unwrap();
    let mut sub = StratumSolutionHandler::new();
    for nonce in 0..4u32 {
        sub.process_solution(&mut c, solved(job, nonce));
    }

    let ok = Message::SubmitSharesSuccess(SubmitSharesSuccess { channel_id: 5, last_seq_num: 0 });
    assert_eq!(
        h.handle_message(&mut c, &ok, 1),
        Ok(DispatchOutcome::SharesAccepted { reconciled: true })
    );
    assert_eq!(c.client_stats.accepted.len(), 1);
    assert_eq!(c.solutions.len(), 3);

    let err = Message::SubmitSharesError(SubmitSharesError {
        channel_id: 5,
        seq_num: 2,
        code: "stale".to_string(),
    });
    assert_eq!(
        h.handle_message(&mut c, &err, 2),
        Ok(DispatchOutcome::SharesRejected { reconciled: true })
    );
    assert_eq!(c.client_stats.accepted.len(), 2);
    assert_eq!(c.client_stats.rejected.len(), 1);
    assert_eq!(c.solutions.len(), 1);
    assert_eq!(c.solutions[0].1, 3);
}

/// Handshake replies reaching a running session's dispatcher are dropped.
#[test]
fn unrelated_message_is_ignored() {
    let mut c = client();
    let mut h = StratumEventHandler::new(target(1));
    let msg = Message::SetupConnectionSuccess(
        stratum_v2_client::messages::SetupConnectionSuccess { used_version: 2, flags: 0 },
    );
    assert_eq!(h.handle_message(&mut c, &msg, 0), Ok(DispatchOutcome::Ignored));
}
