//! Jobs and solved work.
//!
//! A [`StratumJob`] is an immutable unit of mining work: the header template
//! fields of one [`NewMiningJob`] merged with the prevhash context in force
//! and the target current at materialization time. A [`Solution`] is a solved
//! job together with the nonce, time and version the solver chose.

use vstd::prelude::*;
use crate::messages::{NewMiningJob, SetNewPrevHash, Target};

verus! {

/// Which bits of the block-header version field the solver may roll.
pub const VERSION_MASK: u32 = 0x1fffe000;

/// One unit of candidate work, immutable once constructed.
#[derive(Clone, Copy, Debug, PartialEq, Eq)]
pub struct StratumJob {
    pub id: u32,
    pub channel_id: u32,
    pub version: u32,
    pub prev_hash: [u8; 32],
    pub merkle_root: [u8; 32],
    pub time: u32,
    pub bits: u32,
    pub target: Target,
}

/// The job a dispatcher materializes from `job_msg` while `prevhash_msg` is
/// the prevhash context in force and `target` the current target: the job's
/// own fields come from the job message, time and bits from the prevhash
/// notice, and the target is the one given.
pub open spec fn job_from(job_msg: NewMiningJob, prevhash_msg: SetNewPrevHash, target: Target) -> StratumJob {
    StratumJob {
        id: job_msg.job_id,
        channel_id: job_msg.channel_id,
        version: job_msg.version,
        prev_hash: prevhash_msg.prev_hash,
        merkle_root: job_msg.merkle_root,
        time: prevhash_msg.min_ntime,
        bits: prevhash_msg.nbits,
        target,
    }
}

impl StratumJob {
    /// Merges a job message with a prevhash notice and the current target
    /// into the job to be solved.
    pub fn new(job_msg: &NewMiningJob, prevhash_msg: &SetNewPrevHash, target: Target) -> (job: StratumJob)
        ensures
            job == job_from(*job_msg, *prevhash_msg, target),
    {
        StratumJob {
            id: job_msg.job_id,
            channel_id: job_msg.channel_id,
            version: job_msg.version,
            prev_hash: prevhash_msg.prev_hash,
            merkle_root: job_msg.merkle_root,
            time: prevhash_msg.min_ntime,
            bits: prevhash_msg.nbits,
            target,
        }
    }

    pub fn version(&self) -> (r: u32)
        ensures
            r == self.version,
    {
        self.version
    }

    pub fn version_mask(&self) -> (r: u32)
        ensures
            r == VERSION_MASK,
    {
        VERSION_MASK
    }

    pub fn previous_hash(&self) -> (r: &[u8; 32])
        ensures
            r == self.prev_hash,
    {
        &self.prev_hash
    }

    pub fn merkle_root(&self) -> (r: &[u8; 32])
        ensures
            r == self.merkle_root,
    {
        &self.merkle_root
    }

    pub fn time(&self) -> (r: u32)
        ensures
            r == self.time,
    {
        self.time
    }

    pub fn bits(&self) -> (r: u32)
        ensures
            r == self.bits,
    {
        self.bits
    }

    pub fn target(&self) -> (r: Target)
        ensures
            r == self.target,
    {
        self.target
    }

    /// A materialized job carries no expiry of its own; it is superseded only
    /// by later jobs and is valid as long as a consumer still holds it.
    pub fn is_valid(&self) -> (r: bool)
        ensures
            r,
    {
        true
    }
}

/// A solved job: the job it answers plus the solver's chosen nonce, header
/// time and rolled version.
#[derive(Clone, Copy, Debug, PartialEq, Eq)]
pub struct Solution {
    pub job: StratumJob,
    pub nonce: u32,
    pub time: u32,
    pub version: u32,
}

impl Solution {
    pub fn new(job: StratumJob, nonce: u32, time: u32, version: u32) -> (r: Solution)
        ensures
            r == (Solution { job, nonce, time, version }),
    {
        Solution { job, nonce, time, version }
    }

    pub fn job(&self) -> (r: &StratumJob)
        ensures
            r == self.job,
    {
        &self.job
    }

    pub fn nonce(&self) -> (r: u32)
        ensures
            r == self.nonce,
    {
        self.nonce
    }

    pub fn time(&self) -> (r: u32)
        ensures
            r == self.time,
    {
        self.time
    }

    pub fn version(&self) -> (r: u32)
        ensures
            r == self.version,
    {
        self.version
    }

    /// The target the solution's job was mined at.
    pub fn job_target(&self) -> (r: Target)
        ensures
            r == self.job.target,
    {
        self.job.target
    }
}

} // verus!
