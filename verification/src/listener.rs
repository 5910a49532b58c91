//! The listener's lifecycle: unbound, listening, closed. Binding the socket
//! is the operating system's work; this module decides what each bind
//! outcome means for the listener and which error it surfaces.

use vstd::prelude::*;

use crate::http::Response;
use crate::http::spec_health_response;
use crate::routing::respond;
use crate::routing::spec_respond;

verus! {

/// Where the listener stands in its life: not yet bound, bound and serving,
/// or shut down.
#[derive(Clone, Copy, Debug, PartialEq, Eq, Structural)]
pub enum ListenerState {
    Unbound,
    Listening,
    Closed,
}

/// Why a bind attempt failed: the address and port are already bound by
/// someone else, the process may not bind them, or the address is invalid.
#[derive(Clone, Copy, Debug, PartialEq, Eq, Structural)]
pub enum BindError {
    AddressInUse,
    PermissionDenied,
    InvalidAddress,
}

/// What the operating system reported for a bind attempt. The listener does
/// not choose this; it only decides what follows from it.
#[derive(Clone, Copy, Debug, PartialEq, Eq, Structural)]
pub enum BindOutcome {
    Bound,
    AddressInUse,
    PermissionDenied,
    InvalidAddress,
}

/// The state the listener moves to after a bind attempt: listening exactly
/// when the bind succeeded, otherwise unbound as before.
pub open spec fn spec_state_after_bind(outcome: BindOutcome) -> ListenerState {
    match outcome {
        BindOutcome::Bound => ListenerState::Listening,
        _ => ListenerState::Unbound,
    }
}

/// What a bind attempt returns: success exactly when the socket was bound,
/// and otherwise the error matching what the operating system reported.
pub open spec fn spec_bind_result(outcome: BindOutcome) -> Result<(), BindError> {
    match outcome {
        BindOutcome::Bound => Ok(()),
        BindOutcome::AddressInUse => Err(BindError::AddressInUse),
        BindOutcome::PermissionDenied => Err(BindError::PermissionDenied),
        BindOutcome::InvalidAddress => Err(BindError::InvalidAddress),
    }
}

/// The listener: the address and port it is configured for, and where it
/// stands in its lifecycle.
#[derive(Debug)]
pub struct Listener {
    pub address: String,
    pub port: u16,
    pub state: ListenerState,
}

impl Listener {
    /// A fresh listener for the given address and port, not yet bound.
    pub fn new(address: String, port: u16) -> (l: Listener)
        ensures
            l.address@ == address@,
            l.port == port,
            l.state == ListenerState::Unbound,
    {
        Listener { address, port, state: ListenerState::Unbound }
    }

    /// Records the outcome of a bind attempt. The listener starts serving
    /// exactly when the bind succeeded; on failure it stays unbound and the
    /// error names what went wrong. Address and port never change.
    pub fn bind_attempted(&mut self, outcome: BindOutcome) -> (r: Result<(), BindError>)
        requires
            old(self).state == ListenerState::Unbound,
        ensures
            final(self).address@ == old(self).address@,
            final(self).port == old(self).port,
            final(self).state == spec_state_after_bind(outcome),
            r == spec_bind_result(outcome),
            r is Ok <==> final(self).state == ListenerState::Listening,
    {
        match outcome {
            BindOutcome::Bound => {
                self.state = ListenerState::Listening;
                Ok(())
            },
            BindOutcome::AddressInUse => Err(BindError::AddressInUse),
            BindOutcome::PermissionDenied => Err(BindError::PermissionDenied),
            BindOutcome::InvalidAddress => Err(BindError::InvalidAddress),
        }
    }

    /// Answers one request while listening. The listener is read, never
    /// changed: the response depends on the request alone.
    pub fn serve(&self, method_name: &str, path: &str) -> (r: Response)
        requires
            self.state == ListenerState::Listening,
        ensures
            r@ == spec_respond(method_name@, path@),
    {
        respond(method_name, path)
    }

    /// Shuts the listener down. Address and port are kept; the listener
    /// serves no further request.
    pub fn close(&mut self)
        requires
            old(self).state == ListenerState::Listening,
        ensures
            final(self).address@ == old(self).address@,
            final(self).port == old(self).port,
            final(self).state == ListenerState::Closed,
    {
        self.state = ListenerState::Closed;
    }
}

/// A successful bind — any free port the operating system grants — leaves
/// the listener listening with success reported, and a `GET /health` request
/// is then answered with status 200 and body `OK`, served as plain text.
pub proof fn law_bind_success_then_health_ok()
    ensures
        spec_bind_result(BindOutcome::Bound) == Ok::<(), BindError>(()),
        spec_state_after_bind(BindOutcome::Bound) == ListenerState::Listening,
        spec_respond("GET"@, "/health"@) == spec_health_response(),
        spec_respond("GET"@, "/health"@).status == 200,
        spec_respond("GET"@, "/health"@).body == "OK"@,
{
}

/// A bind attempt on an address and port that another listener already
/// holds fails with `AddressInUse`, and the listener does not start
/// serving.
pub proof fn law_bind_on_taken_port_fails()
    ensures
        spec_bind_result(BindOutcome::AddressInUse) == Err::<(), BindError>(
            BindError::AddressInUse,
        ),
        spec_state_after_bind(BindOutcome::AddressInUse) != ListenerState::Listening,
{
}

} // verus!
