//! The client aggregate and its lifecycle state machine.
//!
//! A [`StratumClient`] owns everything one remote endpoint needs: the
//! connection details, the share-accounting record, the lifecycle status,
//! the last materialized job, the queue of submitted solutions awaiting
//! acknowledgment, and the checked-out/checked-in solver handle pair.
//!
//! The solver handle is whatever pair of job-sender and solution-receiver
//! endpoints the embedding runtime uses; the client only tracks its custody,
//! so the type is a parameter.

use vstd::prelude::*;
use crate::job::StratumJob;
use crate::messages::Target;

verus! {

/// Connection configuration: user credential, host and port. Built once from
/// configuration and immutable afterwards.
#[derive(Clone, Debug, PartialEq, Eq)]
pub struct ConnectionDetails {
    pub user: String,
    pub host: String,
    pub port: u16,
}

impl ConnectionDetails {
    pub fn new(user: String, host: String, port: u16) -> (r: ConnectionDetails)
        ensures
            r.user@ == user@,
            r.host@ == host@,
            r.port == port,
    {
        ConnectionDetails { user, host, port }
    }
}

/// Lifecycle status of a client; a single atomically updated slot in a
/// concurrent setting, stepped only through the transitions below.
#[derive(Clone, Copy, Debug, PartialEq, Eq, Structural)]
pub enum Status {
    Created,
    Starting,
    Running,
    Stopping,
    Failing,
    Stopped,
    Failed,
    Restarting,
}

/// Statuses from which a start request may launch the run sequence.
pub open spec fn is_startable(s: Status) -> bool {
    s == Status::Created || s == Status::Stopped || s == Status::Failed
}

/// Statuses in which a stop is in flight, so a start request can only record
/// the wish to restart.
pub open spec fn is_stop_pending(s: Status) -> bool {
    s == Status::Stopping || s == Status::Failing
}

/// Statuses in which the client is already active and a start request has
/// nothing to do.
pub open spec fn is_active(s: Status) -> bool {
    s == Status::Starting || s == Status::Running || s == Status::Restarting
}

/// One call of the statistics collaborator: a solution accounted at `target`
/// at time `time`, on either the accepted or the rejected counter.
#[derive(Clone, Copy, Debug, PartialEq, Eq)]
pub struct SolutionAccount {
    pub target: Target,
    pub time: u64,
}

/// The record of every solution reported to the statistics collaborator,
/// split into the accepted and the rejected counter, in reporting order.
#[derive(Debug)]
pub struct ClientStats {
    pub accepted: Vec<SolutionAccount>,
    pub rejected: Vec<SolutionAccount>,
}

impl ClientStats {
    pub fn new() -> (r: ClientStats)
        ensures
            r.accepted@ =~= Seq::<SolutionAccount>::empty(),
            r.rejected@ =~= Seq::<SolutionAccount>::empty(),
    {
        ClientStats { accepted: Vec::new(), rejected: Vec::new() }
    }

    /// Accounts one accepted solution.
    pub fn account_accepted(&mut self, target: Target, time: u64)
        ensures
            final(self).accepted@ == old(self).accepted@.push(SolutionAccount { target, time }),
            final(self).rejected@ == old(self).rejected@,
    {
        self.accepted.push(SolutionAccount { target, time });
    }

    /// Accounts one rejected solution.
    pub fn account_rejected(&mut self, target: Target, time: u64)
        ensures
            final(self).rejected@ == old(self).rejected@.push(SolutionAccount { target, time }),
            final(self).accepted@ == old(self).accepted@,
    {
        self.rejected.push(SolutionAccount { target, time });
    }
}

/// What a start request did.
#[derive(Debug)]
pub enum StartOutcome<S> {
    /// The status moved to `Starting` and the solver handle was checked out:
    /// the caller must now launch the run sequence with it.
    Started(S),
    /// A stop was in flight; the status moved to `Restarting` and no
    /// connection attempt was made.
    Deferred,
    /// The client was already active; nothing changed.
    AlreadyActive,
}

/// Every field of the client but the last-job slot is the same in `post` as
/// in `pre`.
pub open spec fn unchanged_except_last_job<S>(pre: StratumClient<S>, post: StratumClient<S>) -> bool {
    &&& post.connection_details == pre.connection_details
    &&& post.client_stats == pre.client_stats
    &&& post.status == pre.status
    &&& post.solutions == pre.solutions
    &&& post.job_solver == pre.job_solver
}

/// Every field of the client but the solution queue and the statistics
/// record is the same in `post` as in `pre`.
pub open spec fn unchanged_except_accounting<S>(pre: StratumClient<S>, post: StratumClient<S>) -> bool {
    &&& post.connection_details == pre.connection_details
    &&& post.status == pre.status
    &&& post.last_job == pre.last_job
    &&& post.job_solver == pre.job_solver
}

/// The per-endpoint client aggregate. `S` is the solver handle pair checked
/// out while a session runs and checked back in when it ends.
pub struct StratumClient<S> {
    pub connection_details: ConnectionDetails,
    pub client_stats: ClientStats,
    pub status: Status,
    pub last_job: Option<StratumJob>,
    /// Submitted solutions paired with their sequence numbers, front first.
    /// Queue order equals transmission order equals sequence-number order;
    /// reconciliation of acknowledgments rests on exactly that.
    pub solutions: std::collections::VecDeque<(crate::job::Solution, u32)>,
    pub job_solver: Option<S>,
}

impl<S> StratumClient<S> {
    pub fn new(connection_details: ConnectionDetails, job_solver: S) -> (r: StratumClient<S>)
        ensures
            r.connection_details == connection_details,
            r.client_stats.accepted@ =~= Seq::<SolutionAccount>::empty(),
            r.client_stats.rejected@ =~= Seq::<SolutionAccount>::empty(),
            r.status == Status::Created,
            r.last_job is None,
            r.solutions@ =~= Seq::<(crate::job::Solution, u32)>::empty(),
            r.job_solver == Some(job_solver),
    {
        broadcast use vstd::std_specs::vecdeque::group_vec_dequeue_axioms;

        StratumClient {
            connection_details,
            client_stats: ClientStats::new(),
            status: Status::Created,
            last_job: None,
            solutions: std::collections::VecDeque::new(),
            job_solver: Some(job_solver),
        }
    }

    /// Checks the solver handle out for a session.
    pub fn take_job_solver(&mut self) -> (solver: S)
        requires
            old(self).job_solver is Some,
        ensures
            old(self).job_solver == Some(solver),
            final(self).job_solver is None,
            final(self).connection_details == old(self).connection_details,
            final(self).client_stats == old(self).client_stats,
            final(self).status == old(self).status,
            final(self).last_job == old(self).last_job,
            final(self).solutions == old(self).solutions,
    {
        self.job_solver.take().unwrap()
    }

    /// Checks the solver handle back in after a session; the slot must be
    /// empty, the handle having been taken when the session began.
    pub fn return_job_solver(&mut self, solver: S)
        requires
            old(self).job_solver is None,
        ensures
            final(self).job_solver == Some(solver),
            final(self).connection_details == old(self).connection_details,
            final(self).client_stats == old(self).client_stats,
            final(self).status == old(self).status,
            final(self).last_job == old(self).last_job,
            final(self).solutions == old(self).solutions,
    {
        self.job_solver = Some(solver);
    }

    /// Replaces the last materialized job.
    pub fn update_last_job(&mut self, job: StratumJob)
        ensures
            final(self).last_job == Some(job),
            final(self).connection_details == old(self).connection_details,
            final(self).client_stats == old(self).client_stats,
            final(self).status == old(self).status,
            final(self).solutions == old(self).solutions,
            final(self).job_solver == old(self).job_solver,
    {
        self.last_job = Some(job);
    }

    pub fn status(&self) -> (r: Status)
        ensures
            r == self.status,
    {
        self.status
    }

    /// Swaps the status to `new` when it still reads `current`, returning
    /// what it read. With exclusive access the swap cannot be contested; a
    /// concurrent runtime retries a start request when it is.
    pub fn compare_and_swap_status(&mut self, current: Status, new: Status) -> (prev: Status)
        ensures
            prev == old(self).status,
            final(self).status == if old(self).status == current { new } else { old(self).status },
            final(self).connection_details == old(self).connection_details,
            final(self).client_stats == old(self).client_stats,
            final(self).last_job == old(self).last_job,
            final(self).solutions == old(self).solutions,
            final(self).job_solver == old(self).job_solver,
    {
        let prev = self.status;
        if prev == current {
            self.status = new;
        }
        prev
    }

    /// A start request. From an idle status it moves to `Starting` and hands
    /// the solver handle out for the run sequence; while a stop is in flight
    /// it records `Restarting`; while the client is active it does nothing,
    /// in particular it makes no new connection attempt and leaves the
    /// status as it was.
    pub fn start(&mut self) -> (outcome: StartOutcome<S>)
        requires
            is_startable(old(self).status) ==> old(self).job_solver is Some,
        ensures
            final(self).connection_details == old(self).connection_details,
            final(self).client_stats == old(self).client_stats,
            final(self).last_job == old(self).last_job,
            final(self).solutions == old(self).solutions,
            is_startable(old(self).status) ==> {
                &&& final(self).status == Status::Starting
                &&& final(self).job_solver is None
                &&& old(self).job_solver matches Some(s) && outcome == StartOutcome::<S>::Started(s)
            },
            is_stop_pending(old(self).status) ==> {
                &&& final(self).status == Status::Restarting
                &&& final(self).job_solver == old(self).job_solver
                &&& outcome is Deferred
            },
            is_active(old(self).status) ==> {
                &&& final(self).status == old(self).status
                &&& final(self).job_solver == old(self).job_solver
                &&& outcome is AlreadyActive
            },
    {
        let status = self.status;
        match status {
            Status::Created | Status::Stopped | Status::Failed => {
                self.compare_and_swap_status(status, Status::Starting);
                let solver = self.take_job_solver();
                StartOutcome::Started(solver)
            }
            Status::Stopping | Status::Failing => {
                self.compare_and_swap_status(status, Status::Restarting);
                StartOutcome::Deferred
            }
            Status::Starting | Status::Running | Status::Restarting => StartOutcome::AlreadyActive,
        }
    }

    /// The run sequence reports the handshake done and the session live.
    pub fn on_connected(&mut self)
        ensures
            final(self).status == Status::Running,
            final(self).connection_details == old(self).connection_details,
            final(self).client_stats == old(self).client_stats,
            final(self).last_job == old(self).last_job,
            final(self).solutions == old(self).solutions,
            final(self).job_solver == old(self).job_solver,
    {
        self.status = Status::Running;
    }

    /// The run sequence reports the session over: both session tasks have
    /// finished after the transport closed.
    pub fn on_disconnected(&mut self)
        ensures
            final(self).status == Status::Stopped,
            final(self).connection_details == old(self).connection_details,
            final(self).client_stats == old(self).client_stats,
            final(self).last_job == old(self).last_job,
            final(self).solutions == old(self).solutions,
            final(self).job_solver == old(self).job_solver,
    {
        self.status = Status::Stopped;
    }

    /// A stop request. Terminating the transport, which is what actually
    /// ends a session, is the embedding runtime's part; the request itself
    /// changes nothing on the client.
    pub fn stop(&mut self)
        ensures
            *final(self) == *old(self),
    {
    }

    /// The most recent materialized job, or none before the first one.
    pub fn get_last_job(&self) -> (r: Option<StratumJob>)
        ensures
            r == self.last_job,
    {
        self.last_job
    }
}

} // verus!
