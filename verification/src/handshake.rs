//! The connection handshake state machine.
//!
//! After the transport is open, the client performs two strictly sequential
//! request/response exchanges: a setup-connection request negotiating the
//! protocol version, then an open-channel request under the configured user
//! credential. Each step awaits exactly one correlated reply; an error reply
//! or an unexpected message is a protocol fault, fatal to the attempt, with
//! no retry at this layer. Full success yields the initial target to mine
//! at.
//!
//! The caller owns the transport: it sends the request this machine builds,
//! hands the one reply frame back, and aborts the attempt on `Err`.

use vstd::prelude::*;
use crate::client::ConnectionDetails;
use crate::messages::{DeviceInfo, Message, OpenStandardMiningChannel, SetupConnection, Target};

verus! {

/// Why a handshake attempt ended without an open channel.
#[derive(Clone, Copy, Debug, PartialEq, Eq)]
pub enum HandshakeError {
    /// The server answered the setup request with an error reply.
    SetupRejected,
    /// The server answered the open-channel request with an error reply.
    ChannelRejected,
    /// The reply was not the one the pending request correlates with.
    UnexpectedMessage,
}

/// Where in the two-exchange sequence the attempt stands.
#[derive(Clone, Copy, Debug, PartialEq, Eq, Structural)]
pub enum HandshakeState {
    /// Nothing sent yet.
    Idle,
    /// The setup request is out; exactly one reply is awaited.
    AwaitingSetupResponse,
    /// Setup succeeded; the channel may now be opened.
    SetupComplete,
    /// The open-channel request is out; exactly one reply is awaited.
    AwaitingChannelResponse,
    /// The channel is open and the initial target known.
    Connected,
    /// The attempt is over; no further step is taken.
    Failed,
}

/// Drives one connection attempt through the two handshake exchanges.
pub struct StratumConnectionHandler {
    pub connection_details: ConnectionDetails,
    pub state: HandshakeState,
    /// The target the open channel starts at, known once `state` is
    /// `Connected`.
    pub init_target: Option<Target>,
}

impl StratumConnectionHandler {
    pub fn new(connection_details: ConnectionDetails) -> (r: StratumConnectionHandler)
        ensures
            r.connection_details == connection_details,
            r.state == HandshakeState::Idle,
            r.init_target is None,
    {
        StratumConnectionHandler { connection_details, state: HandshakeState::Idle, init_target: None }
    }

    pub fn state(&self) -> (r: HandshakeState)
        ensures
            r == self.state,
    {
        self.state
    }

    /// Builds the setup-connection request: this protocol, version 2 alone,
    /// the configured endpoint, and the device identity. Step one of the
    /// handshake; the caller sends the message and feeds the one reply to
    /// [`Self::on_setup_connection_response`].
    pub fn setup_connection_request(&mut self) -> (msg: SetupConnection)
        requires
            old(self).state == HandshakeState::Idle,
        ensures
            final(self).state == HandshakeState::AwaitingSetupResponse,
            final(self).connection_details == old(self).connection_details,
            final(self).init_target == old(self).init_target,
            msg.protocol == 0,
            msg.max_version == 2,
            msg.min_version == 2,
            msg.flags == 0,
            msg.endpoint_host@ == old(self).connection_details.host@,
            msg.endpoint_port == old(self).connection_details.port,
            msg.device.vendor@ == "Braiins"@,
            msg.device.hw_rev@ == "1"@,
            msg.device.fw_ver@ == "Braiins OS 2019-06-05"@,
            msg.device.dev_id@ == "xyz"@,
    {
        self.state = HandshakeState::AwaitingSetupResponse;
        SetupConnection {
            protocol: 0,
            max_version: 2,
            min_version: 2,
            flags: 0,
            endpoint_host: self.connection_details.host.clone(),
            endpoint_port: self.connection_details.port,
            device: DeviceInfo {
                vendor: "Braiins".to_owned(),
                hw_rev: "1".to_owned(),
                fw_ver: "Braiins OS 2019-06-05".to_owned(),
                dev_id: "xyz".to_owned(),
            },
        }
    }

    /// Classifies the one reply to the setup request: success moves the
    /// attempt on, an error reply or any other message is fatal to it.
    pub fn on_setup_connection_response(&mut self, msg: &Message) -> (r: Result<(), HandshakeError>)
        requires
            old(self).state == HandshakeState::AwaitingSetupResponse,
        ensures
            final(self).connection_details == old(self).connection_details,
            final(self).init_target == old(self).init_target,
            match *msg {
                Message::SetupConnectionSuccess(_) => r == Ok::<(), HandshakeError>(())
                    && final(self).state == HandshakeState::SetupComplete,
                Message::SetupConnectionError(_) => r == Err::<(), HandshakeError>(
                    HandshakeError::SetupRejected,
                ) && final(self).state == HandshakeState::Failed,
                _ => r == Err::<(), HandshakeError>(HandshakeError::UnexpectedMessage)
                    && final(self).state == HandshakeState::Failed,
            },
    {
        match msg {
            Message::SetupConnectionSuccess(_) => {
                self.state = HandshakeState::SetupComplete;
                Ok(())
            }
            Message::SetupConnectionError(_) => {
                self.state = HandshakeState::Failed;
                Err(HandshakeError::SetupRejected)
            }
            _ => {
                self.state = HandshakeState::Failed;
                Err(HandshakeError::UnexpectedMessage)
            }
        }
    }

    /// Builds the open-channel request: the configured user credential, the
    /// nominal hashrate, and the largest target the protocol allows as the
    /// requested maximum. Step two of the handshake, reachable only after
    /// setup succeeded; the caller sends the message and feeds the one
    /// reply to [`Self::on_open_channel_response`].
    pub fn open_channel_request(&mut self) -> (msg: OpenStandardMiningChannel)
        requires
            old(self).state == HandshakeState::SetupComplete,
        ensures
            final(self).state == HandshakeState::AwaitingChannelResponse,
            final(self).connection_details == old(self).connection_details,
            final(self).init_target == old(self).init_target,
            msg.req_id == 10,
            msg.user@ == old(self).connection_details.user@,
            msg.nominal_hashrate == 1_000_000_000u64,
            msg.max_target.hi == 0xffff_0000_0000_0000_0000_0000u128,
            msg.max_target.lo == 0,
    {
        self.state = HandshakeState::AwaitingChannelResponse;
        OpenStandardMiningChannel {
            req_id: 10,
            user: self.connection_details.user.clone(),
            nominal_hashrate: 1_000_000_000,
            max_target: Target::difficulty_1(),
        }
    }

    /// Classifies the one reply to the open-channel request: success ends
    /// the handshake and yields the initial target, an error reply or any
    /// other message is fatal to the attempt.
    pub fn on_open_channel_response(&mut self, msg: &Message) -> (r: Result<Target, HandshakeError>)
        requires
            old(self).state == HandshakeState::AwaitingChannelResponse,
        ensures
            final(self).connection_details == old(self).connection_details,
            match *msg {
                Message::OpenStandardMiningChannelSuccess(success_msg) => {
                    &&& r == Ok::<Target, HandshakeError>(success_msg.target)
                    &&& final(self).state == HandshakeState::Connected
                    &&& final(self).init_target == Some(success_msg.target)
                },
                Message::OpenStandardMiningChannelError(_) => {
                    &&& r == Err::<Target, HandshakeError>(HandshakeError::ChannelRejected)
                    &&& final(self).state == HandshakeState::Failed
                    &&& final(self).init_target == old(self).init_target
                },
                _ => {
                    &&& r == Err::<Target, HandshakeError>(HandshakeError::UnexpectedMessage)
                    &&& final(self).state == HandshakeState::Failed
                    &&& final(self).init_target == old(self).init_target
                },
            },
    {
        match msg {
            Message::OpenStandardMiningChannelSuccess(success_msg) => {
                self.state = HandshakeState::Connected;
                self.init_target = Some(success_msg.target);
                Ok(success_msg.target)
            }
            Message::OpenStandardMiningChannelError(_) => {
                self.state = HandshakeState::Failed;
                Err(HandshakeError::ChannelRejected)
            }
            _ => {
                self.state = HandshakeState::Failed;
                Err(HandshakeError::UnexpectedMessage)
            }
        }
    }
}

} // verus!
