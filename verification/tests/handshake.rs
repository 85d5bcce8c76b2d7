use stratum_v2_client::client::ConnectionDetails;
use stratum_v2_client::handshake::{HandshakeError, HandshakeState, StratumConnectionHandler};
use stratum_v2_client::messages::{
    Message, OpenStandardMiningChannelError, OpenStandardMiningChannelSuccess,
    SetupConnectionError, SetupConnectionSuccess, Target,
};

fn handler() -> StratumConnectionHandler {
    let details = ConnectionDetails::new("worker".to_string(), "pool.example".to_string(), 3336);
    StratumConnectionHandler::new(details)
}

fn setup_ok() -> Message {
    Message::SetupConnectionSuccess(SetupConnectionSuccess { used_version: 2, flags: 0 })
}

/// The happy path: setup succeeds, the channel opens, and the initial
/// target is the one the server granted.
#[test]
fn full_handshake_yields_initial_target() {
    let mut h = handler();
    let setup = h.setup_connection_request();
    assert_eq!(setup.protocol, 0);
    assert_eq!(setup.min_version, 2);
    assert_eq!(setup.max_version, 2);
    assert_eq!(setup.endpoint_host, "pool.example");
    assert_eq!(setup.endpoint_port, 3336);
    assert_eq!(setup.device.vendor, "Braiins");

    assert_eq!(h.on_setup_connection_response(&setup_ok()), Ok(()));
    assert_eq!(h.state(), HandshakeState::SetupComplete);

    let open = h.open_channel_request();
    assert_eq!(open.req_id, 10);
    assert_eq!(open.user, "worker");
    assert_eq!(open.nominal_hashrate, 1_000_000_000);
    assert_eq!(open.max_target, Target { hi: 0xffff_0000_0000_0000_0000_0000, lo: 0 });

    let granted = Target { hi: 0x1234, lo: 5 };
    let reply = Message::OpenStandardMiningChannelSuccess(OpenStandardMiningChannelSuccess {
        req_id: 10,
        channel_id: 5,
        target: granted,
    });
    assert_eq!(h.on_open_channel_response(&reply), Ok(granted));
    assert_eq!(h.state(), HandshakeState::Connected);
    assert_eq!(h.init_target, Some(granted));
}

/// A rejection at the setup step aborts the attempt before any channel-open
/// step: the machine lands in Failed, from which the channel request is
/// unreachable.
#[test]
fn setup_rejection_aborts_before_channel_open() {
    let mut h = handler();
    let _ = h.setup_connection_request();
    let reply = Message::SetupConnectionError(SetupConnectionError { code: "unsupported".to_string() });
    assert_eq!(
        h.on_setup_connection_response(&reply),
        Err(HandshakeError::SetupRejected)
    );
    assert_eq!(h.state(), HandshakeState::Failed);
    assert_ne!(h.state(), HandshakeState::SetupComplete);
    assert_eq!(h.init_target, None);
}

/// An unexpected message while a setup reply is awaited is a protocol
/// fault, fatal to the attempt.
#[test]
fn unexpected_setup_reply_is_fatal() {
    let mut h = handler();
    let _ = h.setup_connection_request();
    let reply = Message::OpenStandardMiningChannelSuccess(OpenStandardMiningChannelSuccess {
        req_id: 10,
        channel_id: 5,
        target: Target { hi: 0, lo: 1 },
    });
    assert_eq!(
        h.on_setup_connection_response(&reply),
        Err(HandshakeError::UnexpectedMessage)
    );
    assert_eq!(h.state(), HandshakeState::Failed);
}

/// A rejection at the channel step fails the attempt as a whole.
#[test]
fn channel_rejection_fails_the_attempt() {
    let mut h = handler();
    let _ = h.setup_connection_request();
    h.on_setup_connection_response(&setup_ok()).unwrap();
    let _ = h.open_channel_request();
    let reply = Message::OpenStandardMiningChannelError(OpenStandardMiningChannelError {
        req_id: 10,
        code: "unknown-user".to_string(),
    });
    assert_eq!(
        h.on_open_channel_response(&reply),
        Err(HandshakeError::ChannelRejected)
    );
    assert_eq!(h.state(), HandshakeState::Failed);
    assert_eq!(h.init_target, None);
}

/// An unexpected message while a channel reply is awaited is fatal too.
#[test]
fn unexpected_channel_reply_is_fatal() {
    let mut h = handler();
    let _ = h.setup_connection_request();
    h.on_setup_connection_response(&setup_ok()).unwrap();
    let _ = h.open_channel_request();
    assert_eq!(
        h.on_open_channel_response(&setup_ok()),
        Err(HandshakeError::UnexpectedMessage)
    );
    assert_eq!(h.state(), HandshakeState::Failed);
}
