use smtp_core::connect::{
    map_connect_failure, secure_connect_step, ConnectPhase, SecureConnectAction,
    SecureConnectEvent, SecureConnectState,
};

fn network_action(action: &SecureConnectAction) -> bool {
    matches!(
        action,
        SecureConnectAction::OpenTcp | SecureConnectAction::RunHandshake
    )
}

#[test]
fn connect_request_starts_with_local_setup() {
    let (state, action) = secure_connect_step(
        SecureConnectState::Idle,
        SecureConnectEvent::ConnectRequested,
    );
    assert_eq!(state, SecureConnectState::SettingUpTlsConnector);
    assert_eq!(action, SecureConnectAction::RunTlsSetup);
    assert!(!network_action(&action));
}

#[test]
fn setup_failure_fails_fast_without_network_attempt() {
    let (state, action) = secure_connect_step(
        SecureConnectState::Idle,
        SecureConnectEvent::ConnectRequested,
    );
    assert!(!network_action(&action));
    let (state, action) = secure_connect_step(
        state,
        SecureConnectEvent::SetupFailed("bad trust anchor".to_owned()),
    );
    assert!(!network_action(&action));
    assert_eq!(action, SecureConnectAction::ReportError);
    match &state {
        SecureConnectState::Failed(error) => {
            assert_eq!(error.phase, ConnectPhase::TlsSetup);
            assert_eq!(error.message, "bad trust anchor");
        }
        other => panic!("expected a terminal failure, got {:?}", other),
    }
    // whatever is fed in afterwards, the machine stays put and never
    // asks for network work
    for event in [
        SecureConnectEvent::TcpConnected,
        SecureConnectEvent::HandshakeSucceeded,
        SecureConnectEvent::ConnectRequested,
    ] {
        let (next, action) = secure_connect_step(state.clone(), event);
        assert_eq!(next, state);
        assert_eq!(action, SecureConnectAction::Stay);
    }
}

#[test]
fn tcp_failure_is_a_transport_error_not_a_setup_error() {
    let (state, _) = secure_connect_step(
        SecureConnectState::Idle,
        SecureConnectEvent::ConnectRequested,
    );
    let (state, action) = secure_connect_step(state, SecureConnectEvent::SetupSucceeded);
    assert_eq!(action, SecureConnectAction::OpenTcp);
    let (state, action) = secure_connect_step(
        state,
        SecureConnectEvent::TcpFailed("connection refused".to_owned()),
    );
    assert_eq!(action, SecureConnectAction::ReportError);
    match state {
        SecureConnectState::Failed(error) => {
            assert_eq!(error.phase, ConnectPhase::TcpConnect);
            assert_ne!(error.phase, ConnectPhase::TlsSetup);
            assert_eq!(error.message, "connection refused");
        }
        other => panic!("expected a terminal failure, got {:?}", other),
    }
}

#[test]
fn handshake_failure_carries_the_handshake_phase() {
    let (state, _) = secure_connect_step(
        SecureConnectState::Idle,
        SecureConnectEvent::ConnectRequested,
    );
    let (state, _) = secure_connect_step(state, SecureConnectEvent::SetupSucceeded);
    let (state, action) = secure_connect_step(state, SecureConnectEvent::TcpConnected);
    assert_eq!(action, SecureConnectAction::RunHandshake);
    let (state, _) = secure_connect_step(
        state,
        SecureConnectEvent::HandshakeFailed("certificate name mismatch".to_owned()),
    );
    match state {
        SecureConnectState::Failed(error) => {
            assert_eq!(error.phase, ConnectPhase::TlsHandshake);
        }
        other => panic!("expected a terminal failure, got {:?}", other),
    }
}

#[test]
fn successful_run_ends_ready_and_yields_the_handle() {
    let (state, _) = secure_connect_step(
        SecureConnectState::Idle,
        SecureConnectEvent::ConnectRequested,
    );
    let (state, _) = secure_connect_step(state, SecureConnectEvent::SetupSucceeded);
    let (state, _) = secure_connect_step(state, SecureConnectEvent::TcpConnected);
    let (state, action) = secure_connect_step(state, SecureConnectEvent::HandshakeSucceeded);
    assert_eq!(state, SecureConnectState::Ready);
    assert_eq!(action, SecureConnectAction::YieldIo);
    // Ready is terminal
    let (next, action) = secure_connect_step(state.clone(), SecureConnectEvent::ConnectRequested);
    assert_eq!(next, state);
    assert_eq!(action, SecureConnectAction::Stay);
}

#[test]
fn failure_translation_keeps_phase_and_text() {
    let error = map_connect_failure(ConnectPhase::TlsHandshake, "expired certificate".to_owned());
    assert_eq!(error.phase, ConnectPhase::TlsHandshake);
    assert_eq!(error.message, "expired certificate");
}
