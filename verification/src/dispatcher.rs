//! The inbound dispatcher.
//!
//! A [`StratumEventHandler`] processes the messages of one session strictly
//! in arrival order. It keeps the job table, the prevhash context and the
//! current target, materializes jobs for the solver, and reconciles
//! submitted solutions against the server's accept/reject acknowledgments
//! by popping the client's shared queue from the front.
//!
//! Protocol faults are fatal: the caller terminates the session on an `Err`.
//! A reconciliation anomaly (an acknowledged sequence number absent from the
//! queue) is not: it is reported in the outcome and processing continues.

use vstd::prelude::*;
use std::collections::HashMap;
use crate::client::{
    unchanged_except_accounting, unchanged_except_last_job, SolutionAccount, StratumClient,
};
use crate::job::{job_from, Solution, StratumJob};
use crate::messages::{
    Message, NewMiningJob, SetNewPrevHash, SubmitSharesError, SubmitSharesSuccess, Target,
};

verus! {

broadcast use vstd::std_specs::hash::group_hash_axioms, vstd::std_specs::vecdeque::group_vec_dequeue_axioms;

/// A protocol fault, fatal to the session that sees it.
#[derive(Clone, Copy, Debug, PartialEq, Eq)]
pub enum ProtocolError {
    /// A prevhash notice referenced a job id absent from the job table; the
    /// job should have arrived earlier as a future job.
    UnknownJobId(u32),
    /// A job not marked future arrived before any prevhash context was
    /// known, so there is nothing to pair it with.
    MissingPrevHash,
}

/// What handling one inbound message did; the caller acts on it.
#[derive(Clone, Copy, Debug, PartialEq)]
pub enum DispatchOutcome {
    /// A job was materialized and replaced the client's last job; hand it to
    /// the solver.
    JobDispatched(StratumJob),
    /// A future job was recorded in the job table; nothing to mine yet.
    JobStored,
    /// The current target changed; it affects only jobs materialized later.
    TargetUpdated,
    /// An accept acknowledgment was reconciled against the queue;
    /// `reconciled` is false when the queue ran out first, a logged anomaly.
    SharesAccepted { reconciled: bool },
    /// A reject acknowledgment was reconciled against the queue;
    /// `reconciled` is false when the queue ran out first, a logged anomaly.
    SharesRejected { reconciled: bool },
    /// A message this handler has no business with; it is dropped.
    Ignored,
}

/// `msg` reclassified from future to immediate.
pub open spec fn immediate(msg: NewMiningJob) -> NewMiningJob {
    NewMiningJob { future_job: false, ..msg }
}

/// The job a prevhash notice materializes from job table `table` while
/// `target` is current: the referenced entry, reclassified as immediate,
/// merged with the notice.
pub open spec fn materialized_on_prevhash(
    table: Map<u32, NewMiningJob>,
    prevhash_msg: SetNewPrevHash,
    target: Target,
) -> StratumJob {
    job_from(immediate(table[prevhash_msg.job_id]), prevhash_msg, target)
}

/// The job table after recording `msgs` in order on top of `table`: each
/// message inserted under its job id, later messages superseding earlier
/// ones with the same id.
pub open spec fn table_after(table: Map<u32, NewMiningJob>, msgs: Seq<NewMiningJob>) -> Map<
    u32,
    NewMiningJob,
>
    decreases msgs.len(),
{
    if msgs.len() == 0 {
        table
    } else {
        table_after(table, msgs.drop_last()).insert(msgs.last().job_id, msgs.last())
    }
}

/// For any run of new-job messages followed by a prevhash notice referencing
/// one of them (and none later carrying the same id), the job the dispatcher
/// materializes is exactly that message merged with the notice's time and
/// bits and the then-current target.
pub proof fn lemma_prevhash_materializes_referenced_job(
    table: Map<u32, NewMiningJob>,
    msgs: Seq<NewMiningJob>,
    k: int,
    prevhash_msg: SetNewPrevHash,
    target: Target,
)
    requires
        0 <= k < msgs.len(),
        msgs[k].job_id == prevhash_msg.job_id,
        forall|j: int| k < j < msgs.len() ==> msgs[j].job_id != prevhash_msg.job_id,
    ensures
        table_after(table, msgs).contains_key(prevhash_msg.job_id),
        table_after(table, msgs)[prevhash_msg.job_id] == msgs[k],
        materialized_on_prevhash(table_after(table, msgs), prevhash_msg, target) == job_from(
            immediate(msgs[k]),
            prevhash_msg,
            target,
        ),
    decreases msgs.len(),
{
    if k == msgs.len() - 1 {
    } else {
        lemma_prevhash_materializes_referenced_job(
            table,
            msgs.drop_last(),
            k,
            prevhash_msg,
            target,
        );
        assert(msgs.drop_last()[k] == msgs[k]);
        assert(msgs.last().job_id != prevhash_msg.job_id);
    }
}

/// What the statistics collaborator records for one reconciled queue entry.
pub open spec fn account_of(entry: (Solution, u32), time: u64) -> SolutionAccount {
    SolutionAccount { target: entry.0.job.target, time }
}

/// What the statistics collaborator records for a run of reconciled queue
/// entries, in popping order.
pub open spec fn accounts_of(entries: Seq<(Solution, u32)>, time: u64) -> Seq<SolutionAccount> {
    entries.map_values(|entry: (Solution, u32)| account_of(entry, time))
}

/// Whether some queue entry carries sequence number `n`.
pub open spec fn has_seq_num(queue: Seq<(Solution, u32)>, n: u32) -> bool {
    exists|i: int| 0 <= i < queue.len() && queue[i].1 == n
}

/// The position of the first queue entry carrying sequence number `n`, or
/// the queue's length when none does.
pub open spec fn first_index_of_seq_num(queue: Seq<(Solution, u32)>, n: u32) -> int
    decreases queue.len(),
{
    if queue.len() == 0 {
        0
    } else if queue[0].1 == n {
        0
    } else {
        1 + first_index_of_seq_num(queue.drop_first(), n)
    }
}

/// How many entries reconciliation pops for an acknowledgment of `n`: up to
/// and including the first entry carrying `n`, or the whole queue when none
/// does.
pub open spec fn reconcile_pop_count(queue: Seq<(Solution, u32)>, n: u32) -> int {
    if has_seq_num(queue, n) {
        first_index_of_seq_num(queue, n) + 1
    } else {
        queue.len() as int
    }
}

pub proof fn lemma_first_index_of_seq_num(queue: Seq<(Solution, u32)>, n: u32)
    ensures
        0 <= first_index_of_seq_num(queue, n) <= queue.len(),
        has_seq_num(queue, n) <==> first_index_of_seq_num(queue, n) < queue.len(),
        first_index_of_seq_num(queue, n) < queue.len() ==> queue[first_index_of_seq_num(
            queue,
            n,
        )].1 == n,
        forall|i: int| 0 <= i < first_index_of_seq_num(queue, n) ==> queue[i].1 != n,
    decreases queue.len(),
{
    if queue.len() == 0 {
    } else if queue[0].1 == n {
        assert(has_seq_num(queue, n)) by {
            assert(queue[0].1 == n);
        }
    } else {
        let rest = queue.drop_first();
        lemma_first_index_of_seq_num(rest, n);
        let k = first_index_of_seq_num(rest, n);
        assert(forall|i: int| 0 <= i < rest.len() ==> rest[i] == queue[i + 1]);
        if has_seq_num(queue, n) {
            let w = choose|i: int| 0 <= i < queue.len() && queue[i].1 == n;
            assert(rest[w - 1].1 == n);
            assert(has_seq_num(rest, n));
        }
        if has_seq_num(rest, n) {
            assert(queue[k + 1].1 == n);
            assert(has_seq_num(queue, n));
        }
        assert(forall|i: int| 0 <= i < 1 + k ==> queue[i].1 != n) by {
            assert(forall|i: int| 1 <= i < 1 + k ==> queue[i].1 == rest[i - 1].1);
        }
    }
}

/// Processes the messages of one session in arrival order, owning the job
/// table, the prevhash context and the current target.
pub struct StratumEventHandler {
    /// Every job recorded since the session began, by job id. A prevhash
    /// notice reclassifies the entry it references; the other entries are
    /// retained, stale as they are, and the table keeps growing until the
    /// session ends.
    pub all_jobs: HashMap<u32, NewMiningJob>,
    /// The latest new-chain-tip notice, replaced wholesale, never merged.
    pub current_prevhash_msg: Option<SetNewPrevHash>,
    /// The target for jobs materialized from now on.
    pub current_target: Target,
}

impl StratumEventHandler {
    /// The table's key discipline: every entry sits under its own job id.
    /// It holds of a fresh handler and every handler step keeps it.
    pub open spec fn wf(&self) -> bool {
        forall|k: u32| self.all_jobs@.contains_key(k) ==> (#[trigger] self.all_jobs@[k]).job_id
            == k
    }

    pub fn new(current_target: Target) -> (r: StratumEventHandler)
        ensures
            r.all_jobs@ =~= Map::<u32, NewMiningJob>::empty(),
            r.current_prevhash_msg is None,
            r.current_target == current_target,
            r.wf(),
    {
        StratumEventHandler { all_jobs: HashMap::new(), current_prevhash_msg: None, current_target }
    }

    /// Records a new job in the table under its id, superseding any entry
    /// with the same id. A job not marked future is materialized right away
    /// under the prevhash context in force and the current target, and
    /// replaces the client's last job; without a prevhash context such a job
    /// is a protocol fault.
    pub fn handle_new_mining_job<S>(
        &mut self,
        client: &mut StratumClient<S>,
        job_msg: &NewMiningJob,
    ) -> (r: Result<DispatchOutcome, ProtocolError>)
        ensures
            final(self).all_jobs@ == old(self).all_jobs@.insert(job_msg.job_id, *job_msg),
            final(self).all_jobs@ == table_after(old(self).all_jobs@, seq![*job_msg]),
            final(self).current_prevhash_msg == old(self).current_prevhash_msg,
            final(self).current_target == old(self).current_target,
            old(self).wf() ==> final(self).wf(),
            job_msg.future_job ==> r == Ok::<DispatchOutcome, ProtocolError>(DispatchOutcome::JobStored) && *final(client) == *old(client),
            !job_msg.future_job ==> match old(self).current_prevhash_msg {
                Some(prevhash_msg) => ({
                    let job = job_from(*job_msg, prevhash_msg, old(self).current_target);
                    &&& r == Ok::<DispatchOutcome, ProtocolError>(DispatchOutcome::JobDispatched(job))
                    &&& final(client).last_job == Some(job)
                    &&& unchanged_except_last_job(*old(client), *final(client))
                }),
                None => r == Err::<DispatchOutcome, ProtocolError>(ProtocolError::MissingPrevHash) && *final(client) == *old(client),
            },
    {
        self.all_jobs.insert(job_msg.job_id, *job_msg);
        proof {
            let msgs = seq![*job_msg];
            assert(msgs.drop_last() =~= Seq::<NewMiningJob>::empty());
            assert(table_after(old(self).all_jobs@, msgs.drop_last()) == old(self).all_jobs@);
        }
        if job_msg.future_job {
            Ok(DispatchOutcome::JobStored)
        } else {
            match &self.current_prevhash_msg {
                Some(prevhash_msg) => {
                    let job = StratumJob::new(job_msg, prevhash_msg, self.current_target);
                    client.update_last_job(job);
                    Ok(DispatchOutcome::JobDispatched(job))
                }
                None => Err(ProtocolError::MissingPrevHash),
            }
        }
    }

    /// Replaces the prevhash context wholesale and switches mining to the
    /// job the notice references: that table entry is reclassified from
    /// future to immediate, reinserted, materialized under the current
    /// target, and replaces the client's last job. A notice referencing an
    /// id absent from the table is a fatal protocol fault and materializes
    /// nothing.
    pub fn handle_set_new_prev_hash<S>(
        &mut self,
        client: &mut StratumClient<S>,
        prevhash_msg: &SetNewPrevHash,
    ) -> (r: Result<DispatchOutcome, ProtocolError>)
        ensures
            final(self).current_prevhash_msg == Some(*prevhash_msg),
            final(self).current_target == old(self).current_target,
            old(self).wf() ==> final(self).wf(),
            old(self).all_jobs@.contains_key(prevhash_msg.job_id) ==> ({
                let job = materialized_on_prevhash(
                    old(self).all_jobs@,
                    *prevhash_msg,
                    old(self).current_target,
                );
                &&& final(self).all_jobs@ == old(self).all_jobs@.insert(
                    prevhash_msg.job_id,
                    immediate(old(self).all_jobs@[prevhash_msg.job_id]),
                )
                &&& r == Ok::<DispatchOutcome, ProtocolError>(DispatchOutcome::JobDispatched(job))
                &&& final(client).last_job == Some(job)
                &&& unchanged_except_last_job(*old(client), *final(client))
            }),
            !old(self).all_jobs@.contains_key(prevhash_msg.job_id) ==> {
                &&& final(self).all_jobs@ == old(self).all_jobs@
                &&& r == Err::<DispatchOutcome, ProtocolError>(ProtocolError::UnknownJobId(prevhash_msg.job_id))
                &&& *final(client) == *old(client)
            },
    {
        self.current_prevhash_msg = Some(*prevhash_msg);
        let removed = self.all_jobs.remove(&prevhash_msg.job_id);
        proof {
            assert(self.all_jobs@ == old(self).all_jobs@.remove(prevhash_msg.job_id));
        }
        let ghost mid = self.all_jobs@;
        match removed {
            Some(found) => {
                proof {
                    assert(old(self).all_jobs@.contains_key(prevhash_msg.job_id));
                    assert(old(self).all_jobs@[prevhash_msg.job_id] == found);
                }
                let mut future_job_msg = found;
                future_job_msg.future_job = false;
                self.all_jobs.insert(prevhash_msg.job_id, future_job_msg);
                proof {
                    assert(future_job_msg == immediate(old(self).all_jobs@[prevhash_msg.job_id]));
                    assert(self.all_jobs@ == mid.insert(prevhash_msg.job_id, future_job_msg));
                    assert(self.all_jobs@ =~= old(self).all_jobs@.insert(
                        prevhash_msg.job_id,
                        immediate(old(self).all_jobs@[prevhash_msg.job_id]),
                    ));
                }
                let job = StratumJob::new(&future_job_msg, prevhash_msg, self.current_target);
                client.update_last_job(job);
                Ok(DispatchOutcome::JobDispatched(job))
            }
            None => {
                proof {
                    assert(!old(self).all_jobs@.contains_key(prevhash_msg.job_id));
                    assert(self.all_jobs@ =~= old(self).all_jobs@);
                }
                Err(ProtocolError::UnknownJobId(prevhash_msg.job_id))
            }
        }
    }

    /// Replaces the current target; only jobs materialized afterwards see
    /// it.
    pub fn update_target(&mut self, value: Target)
        ensures
            final(self).current_target == value,
            final(self).all_jobs@ == old(self).all_jobs@,
            final(self).current_prevhash_msg == old(self).current_prevhash_msg,
    {
        self.current_target = value;
    }

    /// Reconciles an accept acknowledgment: pops the queue from the front,
    /// accounting every popped entry as accepted, until the popped entry
    /// carries the acknowledged number, inclusive. Returns false, the logged
    /// anomaly, when the queue runs out without meeting that number.
    #[verifier::loop_isolation(false)]
    pub fn process_accepted_shares<S>(
        &self,
        client: &mut StratumClient<S>,
        success_msg: &SubmitSharesSuccess,
        now: u64,
    ) -> (reconciled: bool)
        ensures
            ({
                let q0 = old(client).solutions@;
                let n = success_msg.last_seq_num;
                let c = reconcile_pop_count(q0, n);
                &&& reconciled == has_seq_num(q0, n)
                &&& final(client).solutions@ == q0.subrange(c, q0.len() as int)
                &&& final(client).client_stats.accepted@ == old(client).client_stats.accepted@
                    + accounts_of(q0.subrange(0, c), now)
                &&& final(client).client_stats.rejected@ == old(client).client_stats.rejected@
                &&& unchanged_except_accounting(*old(client), *final(client))
            }),
    {
        let ghost q0 = client.solutions@;
        let ghost acc0 = client.client_stats.accepted@;
        let ghost n = success_msg.last_seq_num;
        proof {
            lemma_first_index_of_seq_num(q0, n);
            assert(q0.subrange(0, q0.len() as int) =~= q0);
            assert(acc0 + accounts_of(q0.subrange(0, 0), now) =~= acc0);
        }
        let ghost mut popped: int = 0;
        loop
            invariant
                0 <= popped <= q0.len(),
                has_seq_num(q0, n) ==> popped <= first_index_of_seq_num(q0, n),
                forall|i: int| 0 <= i < popped ==> q0[i].1 != n,
                client.solutions@ == q0.subrange(popped, q0.len() as int),
                client.client_stats.accepted@ == acc0 + accounts_of(q0.subrange(0, popped), now),
                client.client_stats.rejected@ == old(client).client_stats.rejected@,
                client.connection_details == old(client).connection_details,
                client.status == old(client).status,
                client.last_job == old(client).last_job,
                client.job_solver == old(client).job_solver,
            decreases q0.len() - popped,
        {
            match client.solutions.pop_front() {
                None => {
                    proof {
                        assert(popped == q0.len());
                        assert(!has_seq_num(q0, n));
                    }
                    return false;
                }
                Some(entry) => {
                    proof {
                        assert(entry == q0.subrange(popped, q0.len() as int)[0]);
                        assert(entry == q0[popped]);
                        assert(q0.subrange(popped, q0.len() as int).subrange(
                            1,
                            q0.len() - popped,
                        ) =~= q0.subrange(popped + 1, q0.len() as int));
                    }
                    let (solution, seq_num) = entry;
                    client.client_stats.account_accepted(solution.job_target(), now);
                    proof {
                        assert(q0.subrange(0, popped + 1) =~= q0.subrange(0, popped).push(
                            q0[popped],
                        ));
                        assert(accounts_of(q0.subrange(0, popped + 1), now) =~= accounts_of(
                            q0.subrange(0, popped),
                            now,
                        ).push(account_of(q0[popped], now)));
                        popped = popped + 1;
                    }
                    if seq_num == success_msg.last_seq_num {
                        proof {
                            assert(has_seq_num(q0, n)) by {
                                assert(q0[popped - 1].1 == n);
                            }
                            assert(first_index_of_seq_num(q0, n) == popped - 1) by {
                                let k = first_index_of_seq_num(q0, n);
                                assert(q0[k].1 == n);
                                assert(q0[popped - 1].1 == n);
                            }
                            assert(reconcile_pop_count(q0, n) == popped);
                        }
                        return true;
                    }
                }
            }
        }
    }

    /// Reconciles a reject acknowledgment: pops the queue from the front;
    /// every entry before the rejected number is accounted accepted (what
    /// precedes a rejection notice is implicitly acknowledged), the entry
    /// carrying the rejected number is accounted rejected, then popping
    /// stops. Returns false, the logged anomaly, when the queue runs out
    /// without meeting that number.
    #[verifier::loop_isolation(false)]
    pub fn process_rejected_shares<S>(
        &self,
        client: &mut StratumClient<S>,
        error_msg: &SubmitSharesError,
        now: u64,
    ) -> (reconciled: bool)
        ensures
            ({
                let q0 = old(client).solutions@;
                let n = error_msg.seq_num;
                let c = reconcile_pop_count(q0, n);
                &&& reconciled == has_seq_num(q0, n)
                &&& final(client).solutions@ == q0.subrange(c, q0.len() as int)
                &&& final(client).client_stats.accepted@ == old(client).client_stats.accepted@
                    + accounts_of(
                    q0.subrange(
                        0,
                        if has_seq_num(q0, n) {
                            first_index_of_seq_num(q0, n)
                        } else {
                            q0.len() as int
                        },
                    ),
                    now,
                )
                &&& final(client).client_stats.rejected@ == if has_seq_num(q0, n) {
                    old(client).client_stats.rejected@.push(
                        account_of(q0[first_index_of_seq_num(q0, n)], now),
                    )
                } else {
                    old(client).client_stats.rejected@
                }
                &&& unchanged_except_accounting(*old(client), *final(client))
            }),
    {
        let ghost q0 = client.solutions@;
        let ghost acc0 = client.client_stats.accepted@;
        let ghost n = error_msg.seq_num;
        proof {
            lemma_first_index_of_seq_num(q0, n);
            assert(q0.subrange(0, q0.len() as int) =~= q0);
            assert(acc0 + accounts_of(q0.subrange(0, 0), now) =~= acc0);
        }
        let ghost mut popped: int = 0;
        loop
            invariant
                0 <= popped <= q0.len(),
                has_seq_num(q0, n) ==> popped <= first_index_of_seq_num(q0, n),
                forall|i: int| 0 <= i < popped ==> q0[i].1 != n,
                client.solutions@ == q0.subrange(popped, q0.len() as int),
                client.client_stats.accepted@ == acc0 + accounts_of(q0.subrange(0, popped), now),
                client.client_stats.rejected@ == old(client).client_stats.rejected@,
                client.connection_details == old(client).connection_details,
                client.status == old(client).status,
                client.last_job == old(client).last_job,
                client.job_solver == old(client).job_solver,
            decreases q0.len() - popped,
        {
            match client.solutions.pop_front() {
                None => {
                    proof {
                        assert(popped == q0.len());
                        assert(!has_seq_num(q0, n));
                    }
                    return false;
                }
                Some(entry) => {
                    proof {
                        assert(entry == q0.subrange(popped, q0.len() as int)[0]);
                        assert(entry == q0[popped]);
                        assert(q0.subrange(popped, q0.len() as int).subrange(
                            1,
                            q0.len() - popped,
                        ) =~= q0.subrange(popped + 1, q0.len() as int));
                    }
                    let (solution, seq_num) = entry;
                    if seq_num == error_msg.seq_num {
                        client.client_stats.account_rejected(solution.job_target(), now);
                        proof {
                            assert(has_seq_num(q0, n)) by {
                                assert(q0[popped].1 == n);
                            }
                            assert(first_index_of_seq_num(q0, n) == popped) by {
                                let k = first_index_of_seq_num(q0, n);
                                assert(q0[k].1 == n);
                                assert(q0[popped].1 == n);
                            }
                            assert(reconcile_pop_count(q0, n) == popped + 1);
                        }
                        return true;
                    } else {
                        client.client_stats.account_accepted(solution.job_target(), now);
                        proof {
                            assert(q0.subrange(0, popped + 1) =~= q0.subrange(0, popped).push(
                                q0[popped],
                            ));
                            assert(accounts_of(q0.subrange(0, popped + 1), now) =~= accounts_of(
                                q0.subrange(0, popped),
                                now,
                            ).push(account_of(q0[popped], now)));
                            popped = popped + 1;
                        }
                    }
                }
            }
        }
    }

    /// Handles one inbound message: the dispatcher's single entry point,
    /// matching the closed message union exhaustively. Handshake replies
    /// have no business here once a session runs and are dropped.
    pub fn handle_message<S>(
        &mut self,
        client: &mut StratumClient<S>,
        msg: &Message,
        now: u64,
    ) -> (r: Result<DispatchOutcome, ProtocolError>)
        ensures
            old(self).wf() ==> final(self).wf(),
            match *msg {
                Message::NewMiningJob(job_msg) => {
                    &&& final(self).all_jobs@ == old(self).all_jobs@.insert(
                        job_msg.job_id,
                        job_msg,
                    )
                    &&& final(self).current_prevhash_msg == old(self).current_prevhash_msg
                    &&& final(self).current_target == old(self).current_target
                    &&& job_msg.future_job ==> r == Ok::<DispatchOutcome, ProtocolError>(DispatchOutcome::JobStored) && *final(client) == *old(client)
                    &&& !job_msg.future_job ==> match old(self).current_prevhash_msg {
                        Some(prevhash_msg) => ({
                            let job = job_from(job_msg, prevhash_msg, old(self).current_target);
                            &&& r == Ok::<DispatchOutcome, ProtocolError>(DispatchOutcome::JobDispatched(job))
                            &&& final(client).last_job == Some(job)
                            &&& unchanged_except_last_job(*old(client), *final(client))
                        }),
                        None => r == Err::<DispatchOutcome, ProtocolError>(ProtocolError::MissingPrevHash) && *final(client) == *old(client),
                    }
                },
                Message::SetNewPrevHash(prevhash_msg) => {
                    &&& final(self).current_prevhash_msg == Some(prevhash_msg)
                    &&& final(self).current_target == old(self).current_target
                    &&& old(self).all_jobs@.contains_key(prevhash_msg.job_id) ==> ({
                        let job = materialized_on_prevhash(
                            old(self).all_jobs@,
                            prevhash_msg,
                            old(self).current_target,
                        );
                        &&& final(self).all_jobs@ == old(self).all_jobs@.insert(
                            prevhash_msg.job_id,
                            immediate(old(self).all_jobs@[prevhash_msg.job_id]),
                        )
                        &&& r == Ok::<DispatchOutcome, ProtocolError>(DispatchOutcome::JobDispatched(job))
                        &&& final(client).last_job == Some(job)
                        &&& unchanged_except_last_job(*old(client), *final(client))
                    })
                    &&& !old(self).all_jobs@.contains_key(prevhash_msg.job_id) ==> {
                        &&& final(self).all_jobs@ == old(self).all_jobs@
                        &&& r == Err::<DispatchOutcome, ProtocolError>(ProtocolError::UnknownJobId(prevhash_msg.job_id))
                        &&& *final(client) == *old(client)
                    }
                },
                Message::SetTarget(target_msg) => {
                    &&& r == Ok::<DispatchOutcome, ProtocolError>(DispatchOutcome::TargetUpdated)
                    &&& final(self).current_target == target_msg.max_target
                    &&& final(self).all_jobs@ == old(self).all_jobs@
                    &&& final(self).current_prevhash_msg == old(self).current_prevhash_msg
                    &&& *final(client) == *old(client)
                },
                Message::SubmitSharesSuccess(success_msg) => ({
                    let q0 = old(client).solutions@;
                    let n = success_msg.last_seq_num;
                    let c = reconcile_pop_count(q0, n);
                    &&& r == Ok::<DispatchOutcome, ProtocolError>(
                        DispatchOutcome::SharesAccepted { reconciled: has_seq_num(q0, n) },
                    )
                    &&& final(client).solutions@ == q0.subrange(c, q0.len() as int)
                    &&& final(client).client_stats.accepted@ == old(client).client_stats.accepted@ + accounts_of(q0.subrange(0, c), now)
                    &&& final(client).client_stats.rejected@ == old(client).client_stats.rejected@
                    &&& unchanged_except_accounting(*old(client), *final(client))
                    &&& *final(self) == *old(self)
                }),
                Message::SubmitSharesError(ref error_msg) => ({
                    let q0 = old(client).solutions@;
                    let n = error_msg.seq_num;
                    let c = reconcile_pop_count(q0, n);
                    &&& r == Ok::<DispatchOutcome, ProtocolError>(
                        DispatchOutcome::SharesRejected { reconciled: has_seq_num(q0, n) },
                    )
                    &&& final(client).solutions@ == q0.subrange(c, q0.len() as int)
                    &&& final(client).client_stats.accepted@ == old(client).client_stats.accepted@ + accounts_of(
                        q0.subrange(
                            0,
                            if has_seq_num(q0, n) {
                                first_index_of_seq_num(q0, n)
                            } else {
                                q0.len() as int
                            },
                        ),
                        now,
                    )
                    &&& final(client).client_stats.rejected@ == if has_seq_num(q0, n) {
                        old(client).client_stats.rejected@.push(
                            account_of(q0[first_index_of_seq_num(q0, n)], now),
                        )
                    } else {
                        old(client).client_stats.rejected@
                    }
                    &&& unchanged_except_accounting(*old(client), *final(client))
                    &&& *final(self) == *old(self)
                }),
                _ => r == Ok::<DispatchOutcome, ProtocolError>(DispatchOutcome::Ignored) && *final(self) == *old(self) && *final(client) == *old(client),
            },
    {
        match msg {
            Message::NewMiningJob(job_msg) => self.handle_new_mining_job(client, job_msg),
            Message::SetNewPrevHash(prevhash_msg) => self.handle_set_new_prev_hash(
                client,
                prevhash_msg,
            ),
            Message::SetTarget(target_msg) => {
                self.update_target(target_msg.max_target);
                Ok(DispatchOutcome::TargetUpdated)
            }
            Message::SubmitSharesSuccess(success_msg) => {
                let reconciled = self.process_accepted_shares(client, success_msg, now);
                Ok(DispatchOutcome::SharesAccepted { reconciled })
            }
            Message::SubmitSharesError(error_msg) => {
                let reconciled = self.process_rejected_shares(client, error_msg, now);
                Ok(DispatchOutcome::SharesRejected { reconciled })
            }
            _ => Ok(DispatchOutcome::Ignored),
        }
    }
}

} // verus!
