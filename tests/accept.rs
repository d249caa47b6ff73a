use tonic_rustls::{
    handle_tcp_accept_error, AcceptErrorKind, AcceptFlow, AcceptLoop, LoopAction, LoopEvent, Wait,
};

type Ev = LoopEvent<u32, &'static str, String>;
type Act = LoopAction<u32, &'static str, String>;

fn step(l: &mut AcceptLoop, ev: Ev) -> Act {
    assert!(l.admits(&ev));
    l.on_event(ev)
}

#[test]
fn transient_kinds_continue() {
    for k in [
        AcceptErrorKind::ConnectionAborted,
        AcceptErrorKind::ConnectionReset,
        AcceptErrorKind::BrokenPipe,
        AcceptErrorKind::Interrupted,
        AcceptErrorKind::WouldBlock,
        AcceptErrorKind::TimedOut,
    ] {
        assert!(matches!(handle_tcp_accept_error("e", Some(k)), AcceptFlow::Continue));
    }
}

#[test]
fn triage_is_repeatable() {
    let a = handle_tcp_accept_error(1u8, Some(AcceptErrorKind::ConnectionReset));
    let b = handle_tcp_accept_error(1u8, Some(AcceptErrorKind::ConnectionReset));
    assert!(matches!(a, AcceptFlow::Continue));
    assert!(matches!(b, AcceptFlow::Continue));
    let c = handle_tcp_accept_error(2u8, Some(AcceptErrorKind::Other));
    let d = handle_tcp_accept_error(2u8, Some(AcceptErrorKind::Other));
    assert!(matches!(c, AcceptFlow::Break(2)));
    assert!(matches!(d, AcceptFlow::Break(2)));
}

#[test]
fn non_io_error_is_fatal() {
    assert!(matches!(handle_tcp_accept_error("boom", None), AcceptFlow::Break("boom")));
}

#[test]
fn plain_mode_yields_in_accept_order() {
    let mut l = AcceptLoop::new(false);
    assert_eq!(l.next_wait(), Wait::Source);
    assert!(matches!(step(&mut l, Ev::Accepted(1)), Act::YieldPlain(1)));
    assert!(matches!(step(&mut l, Ev::Accepted(2)), Act::YieldPlain(2)));
    assert_eq!(l.in_flight(), 0);
    assert!(matches!(step(&mut l, Ev::SourceExhausted), Act::Skip));
    assert!(l.is_finished());
    assert_eq!(l.next_wait(), Wait::Finished);
}

#[test]
fn stalled_handshake_does_not_block_others() {
    let mut l = AcceptLoop::new(true);
    assert!(matches!(step(&mut l, Ev::Accepted(0)), Act::Spawn(0)));
    for i in 1..5u32 {
        assert_eq!(l.next_wait(), Wait::SourceOrUpgrade);
        assert!(matches!(step(&mut l, Ev::Accepted(i)), Act::Spawn(n) if n == i));
    }
    for _ in 1..5u32 {
        assert!(matches!(step(&mut l, Ev::Upgraded("ok")), Act::YieldSecure("ok")));
    }
    assert_eq!(l.in_flight(), 1);
    assert_eq!(l.next_wait(), Wait::SourceOrUpgrade);
}

#[test]
fn failed_handshakes_release_their_slots() {
    let mut l = AcceptLoop::new(true);
    for i in 0..3u32 {
        step(&mut l, Ev::Accepted(i));
    }
    assert_eq!(l.in_flight(), 3);
    for _ in 0..3 {
        assert!(matches!(step(&mut l, Ev::UpgradeFailed), Act::Skip));
    }
    assert_eq!(l.in_flight(), 0);
    assert_eq!(l.next_wait(), Wait::Source);
}

#[test]
fn drain_on_shutdown_yields_successes_then_ends() {
    let mut l = AcceptLoop::new(true);
    for i in 0..3u32 {
        step(&mut l, Ev::Accepted(i));
    }
    assert!(matches!(step(&mut l, Ev::SourceExhausted), Act::Skip));
    assert_eq!(l.next_wait(), Wait::Upgrade);
    assert!(!l.admits(&Ev::Accepted(9)));
    assert!(matches!(step(&mut l, Ev::Upgraded("b")), Act::YieldSecure("b")));
    assert!(matches!(step(&mut l, Ev::UpgradeFailed), Act::Skip));
    assert!(!l.is_finished());
    assert!(matches!(step(&mut l, Ev::Upgraded("a")), Act::YieldSecure("a")));
    assert!(l.is_finished());
}

#[test]
fn transient_source_error_keeps_accepting() {
    let mut l = AcceptLoop::new(true);
    let a = step(&mut l, Ev::SourceFailed("reset".to_string(), Some(AcceptErrorKind::ConnectionReset)));
    assert!(matches!(a, Act::Skip));
    assert_eq!(l.next_wait(), Wait::Source);
}

#[test]
fn fatal_source_error_is_the_last_item() {
    let mut l = AcceptLoop::new(true);
    step(&mut l, Ev::Accepted(1));
    step(&mut l, Ev::Accepted(2));
    let a = step(&mut l, Ev::SourceFailed("fd".to_string(), Some(AcceptErrorKind::Other)));
    assert!(matches!(a, Act::Fail(ref e) if e == "fd"));
    assert_eq!(l.in_flight(), 0);
    assert_eq!(l.next_wait(), Wait::Finished);
    assert!(l.is_finished());
    assert!(!l.admits(&Ev::Upgraded("x")));
    assert!(!l.admits(&Ev::Accepted(3)));
}

#[test]
fn fatal_plain_source_error_ends_sequence() {
    let mut l = AcceptLoop::new(false);
    let a = step(&mut l, Ev::SourceFailed("bad".to_string(), None));
    assert!(matches!(a, Act::Fail(ref e) if e == "bad"));
    assert!(l.is_finished());
}

#[test]
fn empty_source_ends_at_once() {
    let mut l = AcceptLoop::new(true);
    step(&mut l, Ev::SourceExhausted);
    assert!(l.is_finished());
    assert!(!l.admits(&Ev::UpgradeFailed));
}
