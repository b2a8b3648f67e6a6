//! Discovery sessions.

use vstd::prelude::*;
use std::sync::Arc;
use blurmock::fake_discovery_session::FakeBluetoothDiscoverySession;
use crate::backend::Backend;
use crate::error::{forward, relay, BluetoothError};
use crate::mock;
use crate::native::NativeSession;

verus! {

/// Whether a session is scanning, as far as the commands given through its
/// handle tell.
#[derive(Clone, Copy, Debug, PartialEq, Eq, Structural)]
pub enum SessionState {
    /// Not started yet, or stopped since.
    Inactive,
    /// Started and not stopped since.
    Active,
}

impl SessionState {
    /// The state after a start command that the stack did or did not carry
    /// out.
    pub open spec fn after_start(self, done: bool) -> SessionState {
        if done {
            SessionState::Active
        } else {
            self
        }
    }

    /// The state after a stop command that the stack did or did not carry
    /// out.
    pub open spec fn after_stop(self, done: bool) -> SessionState {
        if done {
            SessionState::Inactive
        } else {
            self
        }
    }
}

/// The native session behind a session handle.
pub enum SessionLink {
    /// On the Linux system-bus stack.
    Bluez(NativeSession),
    /// On the Android stack.
    Android(NativeSession),
    /// On the macOS framework stack.
    Mac(NativeSession),
    /// Without a native stack.
    Empty,
    /// On the in-memory test stack.
    Mock(Arc<FakeBluetoothDiscoverySession>),
}

impl SessionLink {
    /// The stack that owns the session.
    pub open spec fn tag(&self) -> Backend {
        match self {
            SessionLink::Bluez(_) => Backend::Bluez,
            SessionLink::Android(_) => Backend::Android,
            SessionLink::Mac(_) => Backend::Mac,
            SessionLink::Empty => Backend::Empty,
            SessionLink::Mock(_) => Backend::Mock,
        }
    }
}

/// A handle to a discovery session: a period during which an adapter scans
/// for devices nearby.
///
/// The handle passes every command on to its stack, whatever its state, and
/// keeps count of what the stack carried out.
pub struct BluetoothDiscoverySession {
    link: SessionLink,
    state: SessionState,
}

impl BluetoothDiscoverySession {
    /// The stack that owns the session behind this handle.
    pub closed spec fn tag(&self) -> Backend {
        self.link.tag()
    }

    /// Whether the session is scanning.
    pub closed spec fn phase(&self) -> SessionState {
        self.state
    }

    /// An inactive session on `link`.
    pub fn new(link: SessionLink) -> (r: BluetoothDiscoverySession)
        ensures
            r.backend() == link.tag(),
            r.state() == SessionState::Inactive,
    {
        BluetoothDiscoverySession { link, state: SessionState::Inactive }
    }

    /// The stack that owns the session behind this handle.
    #[verifier::when_used_as_spec(tag)]
    pub fn backend(&self) -> (b: Backend)
        ensures
            b == self.tag(),
    {
        match &self.link {
            SessionLink::Bluez(_) => Backend::Bluez,
            SessionLink::Android(_) => Backend::Android,
            SessionLink::Mac(_) => Backend::Mac,
            SessionLink::Empty => Backend::Empty,
            SessionLink::Mock(_) => Backend::Mock,
        }
    }

    /// Whether the session is scanning.
    #[verifier::when_used_as_spec(phase)]
    pub fn state(&self) -> (s: SessionState)
        ensures
            s == self.phase(),
    {
        self.state
    }

    /// Whether the session is scanning.
    pub fn is_active(&self) -> (r: bool)
        ensures
            r == (self.state() == SessionState::Active),
    {
        self.state == SessionState::Active
    }

    /// Starts scanning.
    ///
    /// The command goes to the stack also where the session is active
    /// already, and the answer is that of the stack. The session is active
    /// after a start that the stack carried out; a start that failed leaves
    /// the state as it was.
    pub fn start_discovery(&mut self) -> (r: Result<(), BluetoothError>)
        ensures
            old(self).backend().answers(r),
            final(self).backend() == old(self).backend(),
            final(self).state() == old(self).state().after_start(r is Ok),
    {
        let r = match &self.link {
            SessionLink::Bluez(native)
            | SessionLink::Android(native)
            | SessionLink::Mac(native) => relay(native.stack.start_discovery()),
            SessionLink::Empty => Err(BluetoothError::NotSupported),
            SessionLink::Mock(fake) => forward(mock::session_start_discovery(fake)),
        };
        if r.is_ok() {
            self.state = SessionState::Active;
        }
        r
    }

    /// Stops scanning.
    ///
    /// The command goes to the stack also where the session is inactive, and
    /// the answer is that of the stack. The session is inactive after a stop
    /// that the stack carried out; a stop that failed leaves the state as it
    /// was.
    pub fn stop_discovery(&mut self) -> (r: Result<(), BluetoothError>)
        ensures
            old(self).backend().answers(r),
            final(self).backend() == old(self).backend(),
            final(self).state() == old(self).state().after_stop(r is Ok),
    {
        let r = match &self.link {
            SessionLink::Bluez(native)
            | SessionLink::Android(native)
            | SessionLink::Mac(native) => relay(native.stack.stop_discovery()),
            SessionLink::Empty => Err(BluetoothError::NotSupported),
            SessionLink::Mock(fake) => forward(mock::session_stop_discovery(fake)),
        };
        if r.is_ok() {
            self.state = SessionState::Inactive;
        }
        r
    }
}

/// A session that is started and then stopped, both carried out by the
/// stack, is active in between and inactive at the end, whatever it was
/// before.
pub proof fn start_then_stop_ends_inactive(before: SessionState)
    ensures
        before.after_start(true) == SessionState::Active,
        before.after_start(true).after_stop(true) == SessionState::Inactive,
{
}

/// Stopping an inactive session leaves it inactive, whether or not the stack
/// carried the command out.
pub proof fn stop_while_inactive_stays_inactive(done: bool)
    ensures
        SessionState::Inactive.after_stop(done) == SessionState::Inactive,
{
}

} // verus!
