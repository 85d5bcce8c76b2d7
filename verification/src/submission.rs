//! The outbound submission handler.
//!
//! Solved work arrives from the solver one item at a time. Each item gets
//! the next sequence number, starting at 0 and wrapping at the 32-bit
//! boundary; the pair of item and number is appended at the back of the
//! client's shared solution queue, and a submission message is built for the
//! transport to send. The append-at-back/remove-at-front discipline is what
//! lets the dispatcher reconcile acknowledgments purely by popping order.
//!
//! A transmit failure is fatal to this handler: the caller aborts the
//! session without a local retry, and restart belongs to the lifecycle
//! controller.

use vstd::prelude::*;
use crate::client::StratumClient;
use crate::job::Solution;
use crate::messages::SubmitSharesStandard;

verus! {

broadcast use vstd::std_specs::vecdeque::group_vec_dequeue_axioms;

/// The successor of a sequence number: one more, reduced mod 2^32.
pub open spec fn wrap_inc(seq_num: u32) -> u32 {
    ((seq_num + 1) % 0x1_0000_0000) as u32
}

/// The submission message for `solution` under sequence number `seq_num`:
/// channel and job id come from the solved job, nonce, time and version from
/// the solution itself.
pub open spec fn share_msg_of(solution: Solution, seq_num: u32) -> SubmitSharesStandard {
    SubmitSharesStandard {
        channel_id: solution.job.channel_id,
        seq_num,
        job_id: solution.job.id,
        nonce: solution.nonce,
        ntime: solution.time,
        version: solution.version,
    }
}

/// The handler state after submitting `solutions` in order, starting from
/// sequence number `seq_num` with `queue` already enqueued: the final
/// sequence number and the final queue.
pub open spec fn submit_all(
    seq_num: u32,
    queue: Seq<(Solution, u32)>,
    solutions: Seq<Solution>,
) -> (u32, Seq<(Solution, u32)>)
    decreases solutions.len(),
{
    if solutions.len() == 0 {
        (seq_num, queue)
    } else {
        let (s, q) = submit_all(seq_num, queue, solutions.drop_last());
        (wrap_inc(s), q.push((solutions.last(), s)))
    }
}

/// Solutions submitted in order from sequence number `start` are assigned
/// `start`, `start + 1`, ... reduced mod 2^32, in that order, and the queue
/// read front to back lists them in exactly that order behind whatever it
/// already held.
pub proof fn lemma_submission_order(start: u32, queue: Seq<(Solution, u32)>, solutions: Seq<Solution>)
    ensures
        ({
            let (s, q) = submit_all(start, queue, solutions);
            &&& q.len() == queue.len() + solutions.len()
            &&& forall|i: int| 0 <= i < queue.len() ==> q[i] == queue[i]
            &&& forall|i: int| 0 <= i < solutions.len() ==> #[trigger] q[queue.len() + i] == (
                solutions[i],
                ((start + i) % 0x1_0000_0000) as u32,
            )
            &&& s == ((start + solutions.len()) % 0x1_0000_0000) as u32
        }),
    decreases solutions.len(),
{
    if solutions.len() == 0 {
        assert((start + 0) % 0x1_0000_0000 == start);
    } else {
        lemma_submission_order(start, queue, solutions.drop_last());
        let n = solutions.len() as int;
        let (s0, q0) = submit_all(start, queue, solutions.drop_last());
        assert(s0 == ((start + (n - 1)) % 0x1_0000_0000) as u32);
        assert(wrap_inc(s0) == ((start + n) % 0x1_0000_0000) as u32) by {
            vstd::arithmetic::div_mod::lemma_add_mod_noop(start + (n - 1), 1, 0x1_0000_0000);
            assert(1int % 0x1_0000_0000 == 1);
        }
        assert(forall|i: int| 0 <= i < n - 1 ==> solutions.drop_last()[i] == solutions[i]);
    }
}

/// Consumes solved work and turns it into sequenced submissions.
pub struct StratumSolutionHandler {
    /// The sequence number the next submission will carry.
    pub seq_num: u32,
}

impl StratumSolutionHandler {
    pub fn new() -> (r: StratumSolutionHandler)
        ensures
            r.seq_num == 0,
    {
        StratumSolutionHandler { seq_num: 0 }
    }

    /// Assigns the next sequence number to `solution`, appends the pair at
    /// the back of the client's solution queue for later reconciliation, and
    /// returns the submission message to transmit.
    pub fn process_solution<S>(
        &mut self,
        client: &mut StratumClient<S>,
        solution: Solution,
    ) -> (msg: SubmitSharesStandard)
        ensures
            msg == share_msg_of(solution, old(self).seq_num),
            final(self).seq_num == wrap_inc(old(self).seq_num),
            final(client).solutions@ == old(client).solutions@.push((solution, old(self).seq_num)),
            (final(self).seq_num, final(client).solutions@) == submit_all(
                old(self).seq_num,
                old(client).solutions@,
                seq![solution],
            ),
            final(client).connection_details == old(client).connection_details,
            final(client).client_stats == old(client).client_stats,
            final(client).status == old(client).status,
            final(client).last_job == old(client).last_job,
            final(client).job_solver == old(client).job_solver,
    {
        let seq_num = self.seq_num;
        self.seq_num = self.seq_num.wrapping_add(1);
        let msg = SubmitSharesStandard {
            channel_id: solution.job.channel_id,
            seq_num,
            job_id: solution.job.id,
            nonce: solution.nonce,
            ntime: solution.time,
            version: solution.version,
        };
        client.solutions.push_back((solution, seq_num));
        proof {
            let sols = seq![solution];
            assert(sols.drop_last() =~= Seq::<Solution>::empty());
            assert(submit_all(seq_num, old(client).solutions@, sols.drop_last()) == (
                seq_num,
                old(client).solutions@,
            ));
        }
        msg
    }
}

} // verus!
