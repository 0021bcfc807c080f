//! The connection-supervision state machine of a network device.
//!
//! A supervisor owns a listening socket and drives the device through
//! the `Offline`/`Connected` lifecycle. The blocking work itself
//! (binding, accepting, sleeping) cannot run here; the embedding
//! program performs the action that [`spec_phase_action`] prescribes
//! for the current phase and feeds the observed [`SupervisorEvent`]
//! back into the verified step function of the network device. The
//! functions below define the diagnostic texts of each transition and
//! the pure phase-transition relation.

use vstd::prelude::*;
use vstd::string::StringExecFns;

verus! {

/// The phase a connection supervisor is in.
///
/// `OfflineIdle` means no socket exists (the bind failed permanently),
/// `OfflineListening` means the socket is bound and waits for a
/// connection, `OfflineSocketError` means an accept failed and will be
/// retried after a backoff, `Connected` means a peer connection is
/// established, and `Stopped` is the terminal phase reached only
/// through an explicit shutdown.
#[derive(Copy, Clone, Debug, PartialEq, Eq, Structural)]
pub enum SupervisorPhase {
    OfflineIdle,
    OfflineListening,
    OfflineSocketError,
    Connected,
    Stopped,
}

/// The blocking action the embedding program has to perform for a
/// phase: exit the background task (`Halt`), block on accepting a
/// connection (`Accept`), sleep one backoff period (`Backoff`), or
/// sleep one poll period (`Poll`).
#[derive(Copy, Clone, Debug, PartialEq, Eq, Structural)]
pub enum SupervisorAction {
    Halt,
    Accept,
    Backoff,
    Poll,
}

/// What the embedding program observed while performing the action of
/// the current phase.
#[derive(Debug)]
pub enum SupervisorEvent {
    /// A peer connection was accepted.
    Accepted,
    /// Accepting failed with the given reason.
    AcceptFailed(String),
    /// The backoff period after a socket error has elapsed.
    BackoffElapsed,
    /// One poll period of a held connection has elapsed.
    PollElapsed,
}

/// The blocking action that belongs to each phase.
pub open spec fn spec_phase_action(phase: SupervisorPhase) -> SupervisorAction {
    match phase {
        SupervisorPhase::OfflineIdle => SupervisorAction::Halt,
        SupervisorPhase::OfflineListening => SupervisorAction::Accept,
        SupervisorPhase::OfflineSocketError => SupervisorAction::Backoff,
        SupervisorPhase::Connected => SupervisorAction::Poll,
        SupervisorPhase::Stopped => SupervisorAction::Halt,
    }
}

/// The phase-transition relation of the supervisor. Once the abort
/// flag is observed the supervisor stops, whatever its phase; an
/// event that does not belong to the current phase changes nothing.
pub open spec fn spec_step_phase(
    aborted: bool,
    phase: SupervisorPhase,
    event: SupervisorEvent,
) -> SupervisorPhase {
    if aborted {
        SupervisorPhase::Stopped
    } else {
        match (phase, event) {
            (SupervisorPhase::OfflineListening, SupervisorEvent::Accepted) => SupervisorPhase::Connected,
            (SupervisorPhase::OfflineListening, SupervisorEvent::AcceptFailed(_)) => SupervisorPhase::OfflineSocketError,
            (SupervisorPhase::OfflineSocketError, SupervisorEvent::BackoffElapsed) => SupervisorPhase::OfflineListening,
            _ => phase,
        }
    }
}

/// Diagnostic shown while the supervisor waits for a connection.
pub open spec fn waiting_detail() -> Seq<char> {
    "Waiting for a connection."@
}

/// Diagnostic shown once a peer connection has been accepted and the
/// protocol handshake would begin.
pub open spec fn connecting_detail() -> Seq<char> {
    "Connecting..."@
}

/// Diagnostic shown after an accept failure, around its reason.
pub open spec fn socket_error_detail(reason: Seq<char>) -> Seq<char> {
    "Socket error `"@ + reason + "`. Waiting for a new connection."@
}

/// Diagnostic shown when the listening socket could not be bound,
/// around the reported reason.
pub open spec fn bind_failure_detail(reason: Seq<char>) -> Seq<char> {
    "Cannot open the configured socket ("@ + reason + ")."@
}

/// Build the accept-failure diagnostic around `reason`.
pub fn make_socket_error_detail(reason: &str) -> (r: String)
    ensures
        r@ == socket_error_detail(reason@),
{
    let mut m = "Socket error `".to_owned();
    m.append(reason);
    m.append("`. Waiting for a new connection.");
    m
}

/// Build the bind-failure diagnostic around `reason`. The result is
/// never empty, whatever the reason says.
pub fn make_bind_failure_detail(reason: &str) -> (r: String)
    ensures
        r@ == bind_failure_detail(reason@),
        r@.len() > 0,
{
    let mut m = "Cannot open the configured socket (".to_owned();
    m.append(reason);
    m.append(").");
    proof {
        reveal_strlit("Cannot open the configured socket (");
    }
    m
}

/// Every phase whose action is `Halt` has no live background task; a
/// supervisor that failed to bind stays in `OfflineIdle` until it is
/// told to stop, so such a device can never leave `Offline` on its
/// own.
pub proof fn lemma_offline_idle_is_permanent(aborted: bool, event: SupervisorEvent)
    ensures
        spec_step_phase(aborted, SupervisorPhase::OfflineIdle, event) == (if aborted {
            SupervisorPhase::Stopped
        } else {
            SupervisorPhase::OfflineIdle
        }),
        spec_phase_action(SupervisorPhase::OfflineIdle) == SupervisorAction::Halt,
        spec_phase_action(SupervisorPhase::Stopped) == SupervisorAction::Halt,
{
}

/// Once the abort flag is set, the very next step stops the
/// supervisor, whatever its phase and whatever event arrives, and a
/// stopped supervisor asks for nothing but `Halt`.
pub proof fn lemma_abort_stops_supervisor(phase: SupervisorPhase, event: SupervisorEvent)
    ensures
        spec_step_phase(true, phase, event) == SupervisorPhase::Stopped,
        spec_phase_action(SupervisorPhase::Stopped) == SupervisorAction::Halt,
{
}

/// `Stopped` is terminal: no event, with or without the abort flag,
/// ever leaves it.
pub proof fn lemma_stopped_is_terminal(aborted: bool, event: SupervisorEvent)
    ensures
        spec_step_phase(aborted, SupervisorPhase::Stopped, event) == SupervisorPhase::Stopped,
        spec_phase_action(SupervisorPhase::Stopped) == SupervisorAction::Halt,
{
}

} // verus!
