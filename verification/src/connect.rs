//! The decision core of transport establishment.
//!
//! A secure connect runs TLS setup synchronously first, then opens the
//! raw stream and performs the handshake, each phase able to fail on
//! its own. The choices — what to do next, and how a failure in any
//! phase is carried to the caller as one error surface — are made
//! here; performing the network work itself belongs to the I/O layer
//! around this core, which feeds each phase's outcome back in as an
//! event.

use vstd::prelude::*;

verus! {

/// The phase of transport establishment in which a failure arose.
#[derive(Debug, Clone, Copy, PartialEq, Eq, Structural)]
pub enum ConnectPhase {
    TlsSetup,
    TcpConnect,
    TlsHandshake,
}

/// The one error surface of transport establishment: the failing
/// phase, preserved as the distinct cause, and the underlying
/// failure's text.
#[derive(Debug, Clone, PartialEq, Eq)]
pub struct ConnectError {
    pub phase: ConnectPhase,
    pub message: String,
}

/// The single translation point through which a failure of any phase
/// of transport establishment is mapped into the common error type.
pub fn map_connect_failure(phase: ConnectPhase, message: String) -> (r: ConnectError)
    ensures
        r == (ConnectError { phase, message }),
{
    ConnectError { phase, message }
}

/// Where a secure connect stands.
#[derive(Debug, Clone, PartialEq, Eq)]
pub enum SecureConnectState {
    Idle,
    SettingUpTlsConnector,
    ConnectingTcp,
    PerformingHandshake,
    Ready,
    Failed(ConnectError),
}

/// The outcome of the work the surrounding I/O layer was asked for.
#[derive(Debug, Clone, PartialEq, Eq)]
pub enum SecureConnectEvent {
    ConnectRequested,
    SetupSucceeded,
    SetupFailed(String),
    TcpConnected,
    TcpFailed(String),
    HandshakeSucceeded,
    HandshakeFailed(String),
}

/// What the surrounding I/O layer must do next. Only `OpenTcp` and
/// `RunHandshake` touch the network.
#[derive(Debug, Clone, PartialEq, Eq)]
pub enum SecureConnectAction {
    /// Run the caller-supplied TLS setup; purely local work.
    RunTlsSetup,
    /// Open the raw stream to the target address.
    OpenTcp,
    /// Perform the TLS handshake over the raw stream.
    RunHandshake,
    /// The transport is established: hand the I/O handle out.
    YieldIo,
    /// Report the error carried by the terminal `Failed` state.
    ReportError,
    /// Nothing to do: the machine is in a terminal state, or the
    /// event does not belong to the current phase.
    Stay,
}

/// Whether an action asks the I/O layer to touch the network.
pub open spec fn spec_is_network_action(action: SecureConnectAction) -> bool {
    action is OpenTcp || action is RunHandshake
}

/// Whether a state is terminal: `Ready` yields the handle, `Failed`
/// carries the translated error, and neither is ever left again.
pub open spec fn spec_is_terminal(state: SecureConnectState) -> bool {
    state is Ready || state is Failed
}

/// The transition function of a secure connect: from the current
/// state and the latest outcome to the next state and the next piece
/// of work. Setup runs before anything else; a failure of any phase
/// is terminal, translated into the one error surface; there is no
/// retry.
pub open spec fn spec_step(state: SecureConnectState, event: SecureConnectEvent) -> (
    SecureConnectState,
    SecureConnectAction,
) {
    match (state, event) {
        (
            SecureConnectState::Idle,
            SecureConnectEvent::ConnectRequested,
        ) => (SecureConnectState::SettingUpTlsConnector, SecureConnectAction::RunTlsSetup),
        (
            SecureConnectState::SettingUpTlsConnector,
            SecureConnectEvent::SetupSucceeded,
        ) => (SecureConnectState::ConnectingTcp, SecureConnectAction::OpenTcp),
        (
            SecureConnectState::SettingUpTlsConnector,
            SecureConnectEvent::SetupFailed(message),
        ) => (
            SecureConnectState::Failed(
                ConnectError { phase: ConnectPhase::TlsSetup, message },
            ),
            SecureConnectAction::ReportError,
        ),
        (
            SecureConnectState::ConnectingTcp,
            SecureConnectEvent::TcpConnected,
        ) => (SecureConnectState::PerformingHandshake, SecureConnectAction::RunHandshake),
        (
            SecureConnectState::ConnectingTcp,
            SecureConnectEvent::TcpFailed(message),
        ) => (
            SecureConnectState::Failed(
                ConnectError { phase: ConnectPhase::TcpConnect, message },
            ),
            SecureConnectAction::ReportError,
        ),
        (
            SecureConnectState::PerformingHandshake,
            SecureConnectEvent::HandshakeSucceeded,
        ) => (SecureConnectState::Ready, SecureConnectAction::YieldIo),
        (
            SecureConnectState::PerformingHandshake,
            SecureConnectEvent::HandshakeFailed(message),
        ) => (
            SecureConnectState::Failed(
                ConnectError { phase: ConnectPhase::TlsHandshake, message },
            ),
            SecureConnectAction::ReportError,
        ),
        (s, _) => (s, SecureConnectAction::Stay),
    }
}

/// Advance a secure connect by one outcome.
pub fn secure_connect_step(state: SecureConnectState, event: SecureConnectEvent) -> (r: (
    SecureConnectState,
    SecureConnectAction,
))
    ensures
        r == spec_step(state, event),
{
    match (state, event) {
        (
            SecureConnectState::Idle,
            SecureConnectEvent::ConnectRequested,
        ) => (SecureConnectState::SettingUpTlsConnector, SecureConnectAction::RunTlsSetup),
        (
            SecureConnectState::SettingUpTlsConnector,
            SecureConnectEvent::SetupSucceeded,
        ) => (SecureConnectState::ConnectingTcp, SecureConnectAction::OpenTcp),
        (
            SecureConnectState::SettingUpTlsConnector,
            SecureConnectEvent::SetupFailed(message),
        ) => (
            SecureConnectState::Failed(map_connect_failure(ConnectPhase::TlsSetup, message)),
            SecureConnectAction::ReportError,
        ),
        (
            SecureConnectState::ConnectingTcp,
            SecureConnectEvent::TcpConnected,
        ) => (SecureConnectState::PerformingHandshake, SecureConnectAction::RunHandshake),
        (
            SecureConnectState::ConnectingTcp,
            SecureConnectEvent::TcpFailed(message),
        ) => (
            SecureConnectState::Failed(map_connect_failure(ConnectPhase::TcpConnect, message)),
            SecureConnectAction::ReportError,
        ),
        (
            SecureConnectState::PerformingHandshake,
            SecureConnectEvent::HandshakeSucceeded,
        ) => (SecureConnectState::Ready, SecureConnectAction::YieldIo),
        (
            SecureConnectState::PerformingHandshake,
            SecureConnectEvent::HandshakeFailed(message),
        ) => (
            SecureConnectState::Failed(map_connect_failure(ConnectPhase::TlsHandshake, message)),
            SecureConnectAction::ReportError,
        ),
        (s, _) => (s, SecureConnectAction::Stay),
    }
}

/// The state a run of the machine reaches after the given outcomes.
pub open spec fn spec_run_state(
    state: SecureConnectState,
    events: Seq<SecureConnectEvent>,
) -> SecureConnectState
    decreases events.len(),
{
    if events.len() == 0 {
        state
    } else {
        spec_run_state(spec_step(state, events[0]).0, events.drop_first())
    }
}

/// The actions a run of the machine asks for, one per outcome fed in.
pub open spec fn spec_run_actions(
    state: SecureConnectState,
    events: Seq<SecureConnectEvent>,
) -> Seq<SecureConnectAction>
    decreases events.len(),
{
    if events.len() == 0 {
        Seq::empty()
    } else {
        seq![spec_step(state, events[0]).1] + spec_run_actions(
            spec_step(state, events[0]).0,
            events.drop_first(),
        )
    }
}

/// Terminal states are truly terminal: no event moves the machine or
/// makes it ask for more work.
pub proof fn lemma_terminal_states_stay(state: SecureConnectState, event: SecureConnectEvent)
    requires
        spec_is_terminal(state),
    ensures
        spec_step(state, event).0 == state,
        spec_step(state, event).1 == SecureConnectAction::Stay,
{
}

/// From a terminal state, a run asks for nothing whatever outcomes
/// are fed in, and never leaves the state.
pub proof fn lemma_terminal_run_stays(state: SecureConnectState, events: Seq<SecureConnectEvent>)
    requires
        spec_is_terminal(state),
    ensures
        spec_run_state(state, events) == state,
        forall|i: int|
            0 <= i < spec_run_actions(state, events).len()
                ==> spec_run_actions(state, events)[i] == SecureConnectAction::Stay,
    decreases events.len(),
{
    if events.len() > 0 {
        lemma_terminal_states_stay(state, events[0]);
        lemma_terminal_run_stays(state, events.drop_first());
        assert forall|i: int|
            0 <= i < spec_run_actions(state, events).len() implies spec_run_actions(
            state,
            events,
        )[i] == SecureConnectAction::Stay by {
            if i > 0 {
                assert(spec_run_actions(state, events)[i] == spec_run_actions(
                    state,
                    events.drop_first(),
                )[i - 1]);
            }
        }
    }
}

/// A failing TLS setup fails the whole connect at once, with the
/// setup phase preserved as the cause, and without any network
/// attempt: neither the request nor the failed setup asks for network
/// work, and no continuation of the run ever does.
pub proof fn lemma_setup_failure_is_fail_fast(
    message: String,
    events: Seq<SecureConnectEvent>,
)
    ensures
        ({
            let requested = spec_step(SecureConnectState::Idle, SecureConnectEvent::ConnectRequested);
            let failed = spec_step(requested.0, SecureConnectEvent::SetupFailed(message));
            &&& !spec_is_network_action(requested.1)
            &&& !spec_is_network_action(failed.1)
            &&& failed.0 == SecureConnectState::Failed(
                ConnectError { phase: ConnectPhase::TlsSetup, message },
            )
            &&& failed.1 == SecureConnectAction::ReportError
            &&& forall|i: int|
                0 <= i < spec_run_actions(failed.0, events).len() ==> !spec_is_network_action(
                    #[trigger] spec_run_actions(failed.0, events)[i],
                )
        }),
{
    let requested = spec_step(SecureConnectState::Idle, SecureConnectEvent::ConnectRequested);
    let failed = spec_step(requested.0, SecureConnectEvent::SetupFailed(message));
    lemma_terminal_run_stays(failed.0, events);
}

/// After a successful setup, a failure to open the raw stream is
/// reported as a transport error carrying the connect phase — not as
/// a setup error.
pub proof fn lemma_tcp_failure_is_transport_error(message: String)
    ensures
        ({
            let requested = spec_step(SecureConnectState::Idle, SecureConnectEvent::ConnectRequested);
            let setup = spec_step(requested.0, SecureConnectEvent::SetupSucceeded);
            let failed = spec_step(setup.0, SecureConnectEvent::TcpFailed(message));
            &&& spec_is_network_action(setup.1)
            &&& failed.0 == SecureConnectState::Failed(
                ConnectError { phase: ConnectPhase::TcpConnect, message },
            )
            &&& failed.0 != SecureConnectState::Failed(
                ConnectError { phase: ConnectPhase::TlsSetup, message },
            )
            &&& failed.1 == SecureConnectAction::ReportError
        }),
{
}

/// The one way to the handle: request, setup, raw connect and
/// handshake in order, each succeeding, end in `Ready`, which yields
/// the established transport.
pub proof fn lemma_successful_run_yields_io()
    ensures
        ({
            let requested = spec_step(SecureConnectState::Idle, SecureConnectEvent::ConnectRequested);
            let setup = spec_step(requested.0, SecureConnectEvent::SetupSucceeded);
            let connected = spec_step(setup.0, SecureConnectEvent::TcpConnected);
            let shaken = spec_step(connected.0, SecureConnectEvent::HandshakeSucceeded);
            &&& requested.1 == SecureConnectAction::RunTlsSetup
            &&& setup.1 == SecureConnectAction::OpenTcp
            &&& connected.1 == SecureConnectAction::RunHandshake
            &&& shaken.0 == SecureConnectState::Ready
            &&& shaken.1 == SecureConnectAction::YieldIo
        }),
{
}

} // verus!
