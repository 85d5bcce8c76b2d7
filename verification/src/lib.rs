//! Client side of the Stratum V2 mining protocol.
//!
//! The crate models the protocol logic a mining client runs against a remote
//! pool: the connection handshake, the job lifecycle (future jobs, prevhash
//! pairing, target changes), solution submission with sequence numbering, the
//! accept/reject reconciliation of acknowledged shares, and the lifecycle
//! state machine that coordinates start/run/stop of a client.
//!
//! Transport, framing and message (de)serialization are collaborators outside
//! this crate: callers feed decoded [`messages::Message`] values in and carry
//! the produced request messages out.

pub mod client;
pub mod dispatcher;
pub mod handshake;
pub mod job;
pub mod messages;
pub mod submission;
