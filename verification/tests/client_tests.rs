use isekai::client::{
    ConnectOutcome, ErrorCode, FlightClientState, HandshakeOutcome, HostFlightClient, PollOutcome,
    ReadyOutcome, RpcOutcome, SendOutcome,
};

#[test]
fn finish_before_start_is_not_in_progress() {
    let mut c = HostFlightClient::create_client();
    let r = c.finish_connect(PollOutcome::Pending);
    assert!(matches!(r, Err(ErrorCode::NotInProgress)));
    assert!(matches!(c.state, FlightClientState::Default));

    let r = c.finish_handshake(PollOutcome::Pending);
    assert!(matches!(r, Err(ErrorCode::NotInProgress)));
    assert!(matches!(c.state, FlightClientState::Default));

    let r = c.finish_do_get(PollOutcome::Pending);
    assert!(matches!(r, Err(ErrorCode::NotInProgress)));
    assert!(matches!(c.state, FlightClientState::Default));

    let r = c.finish_do_put(PollOutcome::Pending);
    assert!(matches!(r, Err(ErrorCode::NotInProgress)));
    assert!(matches!(c.state, FlightClientState::Default));
}

#[test]
fn finish_do_get_while_connected_keeps_state() {
    let mut c = HostFlightClient::create_client();
    c.start_connect().unwrap();
    c.finish_connect(PollOutcome::Ready(ConnectOutcome::Established)).unwrap();
    let r = c.finish_do_get(PollOutcome::Pending);
    assert!(matches!(r, Err(ErrorCode::NotInProgress)));
    assert!(matches!(c.state, FlightClientState::Connected));
}

#[test]
fn do_put_without_data_or_fin_is_invalid_parameter() {
    let mut c = HostFlightClient::create_client();
    c.start_connect().unwrap();
    c.finish_connect(PollOutcome::Ready(ConnectOutcome::Established)).unwrap();
    c.start_do_put().unwrap();
    let r = c.do_put(None, false);
    assert!(matches!(r, Err(ErrorCode::InvalidParameter)));
    assert!(matches!(c.state, FlightClientState::DoPutSendProgress));
}

#[test]
fn full_session_walks_the_states() {
    let mut c = HostFlightClient::create_client();
    assert!(matches!(c.state, FlightClientState::Default));

    c.start_connect().unwrap();
    assert!(matches!(c.state, FlightClientState::Connecting));
    assert!(matches!(c.start_connect(), Err(ErrorCode::AlreadyConnected)));

    // The guest polls before the channel resolves.
    assert!(matches!(c.finish_connect(PollOutcome::Pending), Err(ErrorCode::WouldBlock)));
    assert!(matches!(c.state, FlightClientState::Connecting));
    c.ready(ReadyOutcome::Connect(ConnectOutcome::Established));
    c.finish_connect(PollOutcome::Pending).unwrap();
    assert!(matches!(c.state, FlightClientState::Connected));

    c.start_handshake().unwrap();
    assert!(matches!(c.start_handshake(), Err(ErrorCode::InProgress)));
    c.ready(ReadyOutcome::Handshake(HandshakeOutcome::Token("ab12".to_string())));
    c.finish_handshake(PollOutcome::Pending).unwrap();
    assert!(matches!(c.state, FlightClientState::Connected));
    assert_eq!(c.token.as_deref(), Some("ab12"));

    c.start_do_get().unwrap();
    c.finish_do_get(PollOutcome::Ready(RpcOutcome::Succeeded)).unwrap();
    assert!(matches!(c.state, FlightClientState::Connected));

    c.start_do_put().unwrap();
    c.do_put(Some(SendOutcome::Accepted), false).unwrap();
    assert!(matches!(c.state, FlightClientState::DoPutSendProgress));
    c.do_put(None, true).unwrap();
    assert!(matches!(c.state, FlightClientState::DoPutRecvProgress));
    c.finish_do_put(PollOutcome::Ready(RpcOutcome::Succeeded)).unwrap();
    assert!(matches!(c.state, FlightClientState::Connected));
}

#[test]
fn refused_connection_closes() {
    let mut c = HostFlightClient::create_client();
    c.start_connect().unwrap();
    let r = c.finish_connect(PollOutcome::Ready(ConnectOutcome::Refused("no route".to_string())));
    match r {
        Err(ErrorCode::ConnectionRefused(m)) => assert_eq!(m, "no route"),
        other => panic!("unexpected: {:?}", other),
    }
    assert!(matches!(c.state, FlightClientState::Closed));
    // Closed is terminal: every further operation is refused.
    assert!(matches!(c.start_connect(), Err(ErrorCode::AlreadyConnected)));
    assert!(matches!(c.start_handshake(), Err(ErrorCode::InvalidState)));
    assert!(matches!(c.start_do_get(), Err(ErrorCode::InvalidState)));
    assert!(matches!(c.start_do_put(), Err(ErrorCode::InvalidState)));
    assert!(matches!(c.state, FlightClientState::Closed));
}

#[test]
fn failed_handshake_closes_the_client() {
    let mut c = HostFlightClient::create_client();
    c.start_connect().unwrap();
    c.finish_connect(PollOutcome::Ready(ConnectOutcome::Established)).unwrap();
    c.start_handshake().unwrap();
    let r = c.finish_handshake(PollOutcome::Ready(HandshakeOutcome::Failed(
        "unauthenticated".to_string(),
    )));
    assert!(matches!(r, Err(ErrorCode::InternalError(Some(_)))));
    assert!(matches!(c.state, FlightClientState::Closed));
    assert!(c.token.is_none());
}

#[test]
fn failed_do_get_closes_the_client() {
    let mut c = HostFlightClient::create_client();
    c.start_connect().unwrap();
    c.finish_connect(PollOutcome::Ready(ConnectOutcome::Established)).unwrap();
    c.start_do_get().unwrap();
    let r = c.finish_do_get(PollOutcome::Ready(RpcOutcome::Failed("boom".to_string())));
    assert!(matches!(r, Err(ErrorCode::InternalError(Some(_)))));
    assert!(matches!(c.state, FlightClientState::Closed));
}

#[test]
fn full_send_queue_preserves_the_state_for_a_retry() {
    let mut c = HostFlightClient::create_client();
    c.start_connect().unwrap();
    c.finish_connect(PollOutcome::Ready(ConnectOutcome::Established)).unwrap();
    c.start_do_put().unwrap();
    let r = c.do_put(Some(SendOutcome::Full), false);
    assert!(matches!(r, Err(ErrorCode::WouldBlock)));
    assert!(matches!(c.state, FlightClientState::DoPutSendProgress));
    // The retry can then proceed.
    c.do_put(Some(SendOutcome::Accepted), true).unwrap();
    assert!(matches!(c.state, FlightClientState::DoPutRecvProgress));
}

#[test]
fn lost_send_queue_closes_the_client() {
    let mut c = HostFlightClient::create_client();
    c.start_connect().unwrap();
    c.finish_connect(PollOutcome::Ready(ConnectOutcome::Established)).unwrap();
    c.start_do_put().unwrap();
    let r = c.do_put(Some(SendOutcome::Disconnected), false);
    assert!(matches!(r, Err(ErrorCode::InternalError(Some(_)))));
    assert!(matches!(c.state, FlightClientState::Closed));
}

#[test]
fn nonce_request_data_takes_first_64_bytes() {
    let payload: Vec<u8> = (0u8..80).collect();
    let data = isekai::client::nonce_request_data(&payload).unwrap();
    assert_eq!(data.len(), 64);
    assert_eq!(data[..], payload[..64]);
    let short: Vec<u8> = vec![1, 2, 3];
    assert!(isekai::client::nonce_request_data(&short).is_none());
}
