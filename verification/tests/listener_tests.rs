use splice_serve::listener::{Listener, ListenerAction, ListenerEvent, ListenerPhase};

#[test]
fn serves_exactly_one_connection() {
    let mut l = Listener::new();
    assert_eq!(l.next_action(), ListenerAction::Bind);
    l.apply(ListenerEvent::BindOk);
    assert_eq!(l.next_action(), ListenerAction::AcceptOne);
    l.apply(ListenerEvent::AcceptOk);
    assert_eq!(l.next_action(), ListenerAction::RunTransfer);
    l.apply(ListenerEvent::TransferFinished { ok: true });
    // A second connection attempt is never served: the listener only asks to
    // finish, never to accept again.
    assert_eq!(l.phase, ListenerPhase::Closed);
    assert_eq!(l.next_action(), ListenerAction::Done);
}

#[test]
fn bind_failure_is_fatal() {
    let mut l = Listener::new();
    l.apply(ListenerEvent::BindFailed { errno: 98 });
    assert_eq!(l.phase, ListenerPhase::BindFailed { errno: 98 });
    assert_eq!(l.next_action(), ListenerAction::Done);
}

#[test]
fn accept_failure_does_not_fail_the_serve() {
    let mut l = Listener::new();
    l.apply(ListenerEvent::BindOk);
    l.apply(ListenerEvent::AcceptFailed);
    assert_eq!(l.phase, ListenerPhase::Closed);
    assert_eq!(l.next_action(), ListenerAction::Done);
}

#[test]
fn transfer_error_is_scoped_to_the_connection() {
    let mut l = Listener::new();
    l.apply(ListenerEvent::BindOk);
    l.apply(ListenerEvent::AcceptOk);
    l.apply(ListenerEvent::TransferFinished { ok: false });
    // The connection's transfer failed, yet the serve itself closes cleanly.
    assert_eq!(l.phase, ListenerPhase::Closed);
    assert_eq!(l.next_action(), ListenerAction::Done);
}
