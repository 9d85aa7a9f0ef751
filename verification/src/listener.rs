//! The single-shot listener, as a verified state machine.
//!
//! The listener binds one TCP address, waits for one inbound connection, and
//! hands it to the transfer engine. A bind failure is fatal and becomes the
//! result of the whole serve; a failure to accept, or a failed transfer, is
//! scoped to that one connection and leaves the overall result a success.
//! After the first connection attempt has been handled, well or badly, the
//! listener is closed: no further connection is accepted. The caller performs
//! the actual bind, accept, and transfer, and reports each outcome as a
//! [`ListenerEvent`].

use vstd::prelude::*;

verus! {

/// Where the listener stands.
#[derive(Clone, Copy, Debug, PartialEq, Eq, Structural)]
pub enum ListenerPhase {
    /// Nothing is bound yet.
    Unbound,
    /// The address is bound; the next step waits for one connection.
    Accepting,
    /// A connection is accepted; the next step runs the transfer on it.
    Serving,
    /// The one connection attempt has been handled; the serve is over and
    /// its result is success.
    Closed,
    /// Binding failed; the serve is over and its result is the bind error.
    BindFailed { errno: i32 },
}

/// What the caller must do next.
#[derive(Clone, Copy, Debug, PartialEq, Eq, Structural)]
pub enum ListenerAction {
    /// Bind the TCP address.
    Bind,
    /// Wait for one inbound connection.
    AcceptOne,
    /// Run the transfer engine on the accepted connection.
    RunTransfer,
    /// Nothing remains; report the outcome.
    Done,
}

/// What came of the last action.
#[derive(Clone, Copy, Debug, PartialEq, Eq, Structural)]
pub enum ListenerEvent {
    /// The address was bound.
    BindOk,
    /// Binding failed with the given OS error code.
    BindFailed { errno: i32 },
    /// A connection was accepted.
    AcceptOk,
    /// Accepting failed; the failure is logged, not propagated.
    AcceptFailed,
    /// The transfer on the accepted connection ended; `ok` says whether it
    /// delivered the payload. Either way the error, if any, stays scoped to
    /// the connection.
    TransferFinished { ok: bool },
}

/// The state of one serve.
#[derive(Clone, Copy, Debug)]
pub struct Listener {
    pub phase: ListenerPhase,
}

impl Listener {
    /// The serve is over.
    pub open spec fn is_terminal(self) -> bool {
        self.phase is Closed || self.phase is BindFailed
    }

    /// Whether a finished serve reports success. Only a bind failure makes
    /// the serve itself fail; connection-scoped errors do not.
    pub open spec fn outcome_ok(self) -> bool {
        self.phase is Closed
    }

    /// The action each phase calls for.
    pub open spec fn action_spec(self) -> ListenerAction {
        match self.phase {
            ListenerPhase::Unbound => ListenerAction::Bind,
            ListenerPhase::Accepting => ListenerAction::AcceptOne,
            ListenerPhase::Serving => ListenerAction::RunTransfer,
            ListenerPhase::Closed => ListenerAction::Done,
            ListenerPhase::BindFailed { .. } => ListenerAction::Done,
        }
    }

    /// Which events can answer the current action.
    pub open spec fn valid_event(self, ev: ListenerEvent) -> bool {
        match self.phase {
            ListenerPhase::Unbound => ev is BindOk || ev is BindFailed,
            ListenerPhase::Accepting => ev is AcceptOk || ev is AcceptFailed,
            ListenerPhase::Serving => ev is TransferFinished,
            ListenerPhase::Closed => false,
            ListenerPhase::BindFailed { .. } => false,
        }
    }

    /// The transition relation, as a total function; an event that is not
    /// valid for the phase leaves the state unchanged.
    pub open spec fn step_spec(self, ev: ListenerEvent) -> Listener {
        match (self.phase, ev) {
            (ListenerPhase::Unbound, ListenerEvent::BindOk) => {
                Listener { phase: ListenerPhase::Accepting }
            },
            (ListenerPhase::Unbound, ListenerEvent::BindFailed { errno }) => {
                Listener { phase: ListenerPhase::BindFailed { errno } }
            },
            (ListenerPhase::Accepting, ListenerEvent::AcceptOk) => {
                Listener { phase: ListenerPhase::Serving }
            },
            (ListenerPhase::Accepting, ListenerEvent::AcceptFailed) => {
                Listener { phase: ListenerPhase::Closed }
            },
            (ListenerPhase::Serving, ListenerEvent::TransferFinished { .. }) => {
                Listener { phase: ListenerPhase::Closed }
            },
            _ => self,
        }
    }

    /// Start a serve: nothing bound, nothing served.
    pub fn new() -> (l: Listener)
        ensures
            l.phase is Unbound,
    {
        Listener { phase: ListenerPhase::Unbound }
    }

    /// The next action the caller must perform.
    pub fn next_action(&self) -> (a: ListenerAction)
        ensures
            a == self.action_spec(),
    {
        match self.phase {
            ListenerPhase::Unbound => ListenerAction::Bind,
            ListenerPhase::Accepting => ListenerAction::AcceptOne,
            ListenerPhase::Serving => ListenerAction::RunTransfer,
            ListenerPhase::Closed => ListenerAction::Done,
            ListenerPhase::BindFailed { .. } => ListenerAction::Done,
        }
    }

    /// Consume the outcome of the last action and move to the next state.
    pub fn apply(&mut self, ev: ListenerEvent)
        requires
            old(self).valid_event(ev),
        ensures
            *final(self) == old(self).step_spec(ev),
    {
        match (self.phase, ev) {
            (ListenerPhase::Unbound, ListenerEvent::BindOk) => {
                self.phase = ListenerPhase::Accepting;
            },
            (ListenerPhase::Unbound, ListenerEvent::BindFailed { errno }) => {
                self.phase = ListenerPhase::BindFailed { errno };
            },
            (ListenerPhase::Accepting, ListenerEvent::AcceptOk) => {
                self.phase = ListenerPhase::Serving;
            },
            (ListenerPhase::Accepting, ListenerEvent::AcceptFailed) => {
                self.phase = ListenerPhase::Closed;
            },
            (ListenerPhase::Serving, ListenerEvent::TransferFinished { .. }) => {
                self.phase = ListenerPhase::Closed;
            },
            _ => {
            },
        }
    }
}

/// Single-connection scope: once the one accepted connection has been
/// handled — delivered or failed — the listener is closed, reports success,
/// and never asks to accept or transfer again; a second connection attempt
/// is never served.
pub proof fn lemma_single_shot(l: Listener, ev: ListenerEvent, later: ListenerEvent)
    requires
        l.phase is Serving,
        l.valid_event(ev),
    ensures
        l.step_spec(ev).phase is Closed,
        l.step_spec(ev).outcome_ok(),
        l.step_spec(ev).action_spec() == ListenerAction::Done,
        !l.step_spec(ev).valid_event(later),
{
}

/// Bind errors are fatal: a failed bind ends the serve at once, with the
/// bind error as its outcome, and no connection is ever accepted.
pub proof fn lemma_bind_error_fatal(l: Listener, errno: i32, later: ListenerEvent)
    requires
        l.phase is Unbound,
    ensures
        ({
            let next = l.step_spec(ListenerEvent::BindFailed { errno });
            &&& next.phase == (ListenerPhase::BindFailed { errno })
            &&& !next.outcome_ok()
            &&& next.action_spec() == ListenerAction::Done
            &&& !next.valid_event(later)
        }),
{
}

/// Connection-scoped errors never propagate: whatever the transfer on the
/// accepted connection reported, the serve ends successfully.
pub proof fn lemma_connection_error_contained(l: Listener, ok: bool)
    requires
        l.phase is Serving,
    ensures
        l.step_spec(ListenerEvent::TransferFinished { ok }).outcome_ok(),
{
}

} // verus!
