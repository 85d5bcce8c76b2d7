//! The wire message set of the protocol, as plain values.
//!
//! Encoding and decoding of these messages into length-framed byte streams is
//! the codec's concern and stays outside this crate; the types here carry the
//! fields the client's logic reads and writes.

use vstd::prelude::*;

verus! {

/// A 256-bit mining target held as two 128-bit halves, `hi` being the most
/// significant. A solution counts as valid when its block-header hash, read
/// as a 256-bit number, is not above the target. The codec converts between
/// this form and the fixed-width wire representation.
#[derive(Clone, Copy, Debug, PartialEq, Eq)]
pub struct Target {
    pub hi: u128,
    pub lo: u128,
}

impl Target {
    /// The largest target the protocol allows, `0xffff << 208`: one share at
    /// this target corresponds to difficulty 1.
    pub fn difficulty_1() -> (r: Target)
        ensures
            r.hi == 0xffff_0000_0000_0000_0000_0000u128,
            r.lo == 0,
    {
        Target { hi: 0xffff_0000_0000_0000_0000_0000u128, lo: 0 }
    }
}

/// Identity of the mining device, sent once during connection setup.
#[derive(Clone, Debug, PartialEq, Eq)]
pub struct DeviceInfo {
    pub vendor: String,
    pub hw_rev: String,
    pub fw_ver: String,
    pub dev_id: String,
}

/// First request of the handshake: negotiates the protocol version range and
/// announces the endpoint and device identity.
#[derive(Clone, Debug, PartialEq, Eq)]
pub struct SetupConnection {
    pub protocol: u8,
    pub max_version: u16,
    pub min_version: u16,
    pub flags: u32,
    pub endpoint_host: String,
    pub endpoint_port: u16,
    pub device: DeviceInfo,
}

/// Positive reply to [`SetupConnection`].
#[derive(Clone, Copy, Debug, PartialEq, Eq)]
pub struct SetupConnectionSuccess {
    pub used_version: u16,
    pub flags: u32,
}

/// Negative reply to [`SetupConnection`]; the attempt is over.
#[derive(Clone, Debug, PartialEq, Eq)]
pub struct SetupConnectionError {
    pub code: String,
}

/// Second request of the handshake: opens the client's standard mining
/// channel under the configured user credential.
///
/// The nominal hashrate is held in hashes per second; the codec owns the
/// conversion to the wire's floating-point field.
#[derive(Clone, Debug, PartialEq, Eq)]
pub struct OpenStandardMiningChannel {
    pub req_id: u32,
    pub user: String,
    pub nominal_hashrate: u64,
    pub max_target: Target,
}

/// Positive reply to [`OpenStandardMiningChannel`]: the channel is open and
/// `target` is the initial target to mine at.
#[derive(Clone, Copy, Debug, PartialEq, Eq)]
pub struct OpenStandardMiningChannelSuccess {
    pub req_id: u32,
    pub channel_id: u32,
    pub target: Target,
}

/// Negative reply to [`OpenStandardMiningChannel`]; the attempt is over.
#[derive(Clone, Debug, PartialEq, Eq)]
pub struct OpenStandardMiningChannelError {
    pub req_id: u32,
    pub code: String,
}

/// A unit of work offered by the server. A job marked `future_job` waits in
/// the job table until a [`SetNewPrevHash`] references it; any other job is
/// mined right away under the prevhash context then in force.
#[derive(Clone, Copy, Debug, PartialEq, Eq)]
pub struct NewMiningJob {
    pub channel_id: u32,
    pub job_id: u32,
    pub future_job: bool,
    pub version: u32,
    pub merkle_root: [u8; 32],
}

/// Notice of a new chain tip. It replaces the prevhash context wholesale and
/// names the job that mining must switch to.
#[derive(Clone, Copy, Debug, PartialEq, Eq)]
pub struct SetNewPrevHash {
    pub channel_id: u32,
    pub job_id: u32,
    pub prev_hash: [u8; 32],
    pub min_ntime: u32,
    pub nbits: u32,
}

/// Server-driven change of the mining target; it affects only jobs
/// materialized afterwards.
#[derive(Clone, Copy, Debug, PartialEq, Eq)]
pub struct SetTarget {
    pub channel_id: u32,
    pub max_target: Target,
}

/// A submitted solution, carrying the sequence number the submission handler
/// assigned and the header fields of the solved job.
#[derive(Clone, Copy, Debug, PartialEq, Eq)]
pub struct SubmitSharesStandard {
    pub channel_id: u32,
    pub seq_num: u32,
    pub job_id: u32,
    pub nonce: u32,
    pub ntime: u32,
    pub version: u32,
}

/// Cumulative acknowledgment: every queued submission up to and including
/// `last_seq_num` has been accepted.
#[derive(Clone, Copy, Debug, PartialEq, Eq)]
pub struct SubmitSharesSuccess {
    pub channel_id: u32,
    pub last_seq_num: u32,
}

/// Rejection of the submission numbered `seq_num`; submissions before it are
/// implicitly accepted.
#[derive(Clone, Debug, PartialEq, Eq)]
pub struct SubmitSharesError {
    pub channel_id: u32,
    pub seq_num: u32,
    pub code: String,
}

/// The closed union of messages a client can receive. The codec decodes each
/// inbound frame into one of these variants; the handshake machine and the
/// dispatcher match on it exhaustively.
#[derive(Clone, Debug, PartialEq, Eq)]
pub enum Message {
    SetupConnectionSuccess(SetupConnectionSuccess),
    SetupConnectionError(SetupConnectionError),
    OpenStandardMiningChannelSuccess(OpenStandardMiningChannelSuccess),
    OpenStandardMiningChannelError(OpenStandardMiningChannelError),
    NewMiningJob(NewMiningJob),
    SetNewPrevHash(SetNewPrevHash),
    SetTarget(SetTarget),
    SubmitSharesSuccess(SubmitSharesSuccess),
    SubmitSharesError(SubmitSharesError),
}

} // verus!
