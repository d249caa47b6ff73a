use vstd::prelude::*;

verus! {

/// The kind of a failed accept, as far as triage needs to know it.
#[derive(Clone, Copy, Debug, PartialEq, Eq, Structural)]
pub enum AcceptErrorKind {
    ConnectionAborted,
    ConnectionReset,
    BrokenPipe,
    Interrupted,
    WouldBlock,
    TimedOut,
    /// Any other I/O error kind.
    Other,
}

/// Whether an accept error concerns one connection only, so that the listener
/// can keep serving. `None` stands for an error that is not an I/O error.
pub open spec fn is_transient(kind: Option<AcceptErrorKind>) -> bool {
    match kind {
        Some(k) => k != AcceptErrorKind::Other,
        None => false,
    }
}

/// What the accept loop does after an error from the listener.
#[derive(Debug)]
pub enum AcceptFlow<E> {
    /// Skip the error and keep accepting.
    Continue,
    /// Hand the error to the consumer and stop accepting.
    Break(E),
}

/// Classifies an error from the listener: a per-connection condition (an
/// aborted or reset connection, a broken pipe, an interrupted call, a spurious
/// would-block or time-out) is skipped; anything else is fatal and returned.
pub fn handle_tcp_accept_error<E>(e: E, kind: Option<AcceptErrorKind>) -> (r: AcceptFlow<E>)
    ensures
        is_transient(kind) <==> r is Continue,
        !is_transient(kind) ==> r == AcceptFlow::Break(e),
{
    match kind {
        Some(AcceptErrorKind::Other) | None => AcceptFlow::Break(e),
        Some(_) => AcceptFlow::Continue,
    }
}

/// The abstract state of the accept loop.
pub struct LoopState {
    /// Whether accepted connections go through a handshake.
    pub secure: bool,
    /// How many handshakes are running.
    pub in_flight: nat,
    /// Whether the listener may still hand out connections.
    pub source_open: bool,
}

/// Which event sources the loop waits on next.
#[derive(Clone, Copy, Debug, PartialEq, Eq, Structural)]
pub enum Wait {
    /// Only the listener: no handshake is running.
    Source,
    /// Whichever comes first, a new connection or a finished handshake.
    SourceOrUpgrade,
    /// Only finished handshakes: the listener is closed, or the pool is full.
    Upgrade,
    /// Nothing: the sequence has ended.
    Finished,
}

/// An event handed to the loop, as far as its decisions depend on it.
pub enum EventTag {
    Accepted,
    SourceFailed { transient: bool },
    SourceExhausted,
    Upgraded,
    UpgradeFailed,
}

/// What the loop does in answer to an event, as far as its kind goes.
pub enum Reaction {
    Spawn,
    YieldPlain,
    YieldSecure,
    Skip,
    Fail,
}

/// An event of one of the two sources.
#[derive(Debug)]
pub enum LoopEvent<C, S, E> {
    /// The listener handed out a raw connection.
    Accepted(C),
    /// The listener failed, with the kind of the failure if it is an I/O error.
    SourceFailed(E, Option<AcceptErrorKind>),
    /// The listener is closed.
    SourceExhausted,
    /// A handshake finished with a usable session.
    Upgraded(S),
    /// A handshake failed; the failure concerns that peer only.
    UpgradeFailed,
}

/// What the driver of the loop must do next.
#[derive(Debug)]
pub enum LoopAction<C, S, E> {
    /// Start a handshake on this connection, in the background.
    Spawn(C),
    /// Hand this plain connection to the consumer.
    YieldPlain(C),
    /// Hand this negotiated session to the consumer.
    YieldSecure(S),
    /// Nothing to hand out; wait again.
    Skip,
    /// Hand this fatal listener error to the consumer as the last item, and
    /// cancel the handshakes still running.
    Fail(E),
}

pub open spec fn max_in_flight() -> nat {
    usize::MAX as nat
}

pub open spec fn well_formed(s: LoopState) -> bool {
    &&& s.in_flight <= max_in_flight()
    &&& !s.secure ==> s.in_flight == 0
}

/// The sources that the loop waits on in state `s`.
pub open spec fn wait_for(s: LoopState) -> Wait {
    if s.source_open {
        if s.in_flight == 0 {
            Wait::Source
        } else if s.in_flight < max_in_flight() {
            Wait::SourceOrUpgrade
        } else {
            Wait::Upgrade
        }
    } else if s.in_flight > 0 {
        Wait::Upgrade
    } else {
        Wait::Finished
    }
}

pub open spec fn waits_on_source(w: Wait) -> bool {
    w == Wait::Source || w == Wait::SourceOrUpgrade
}

pub open spec fn waits_on_upgrade(w: Wait) -> bool {
    w == Wait::Upgrade || w == Wait::SourceOrUpgrade
}

/// Whether the event can come in state `s`: only from a source that the loop
/// waits on.
pub open spec fn admits(s: LoopState, t: EventTag) -> bool {
    match t {
        EventTag::Accepted | EventTag::SourceFailed { .. } | EventTag::SourceExhausted =>
            waits_on_source(wait_for(s)),
        EventTag::Upgraded | EventTag::UpgradeFailed => waits_on_upgrade(wait_for(s)),
    }
}

/// The state after event `t` in state `s`.
pub open spec fn step(s: LoopState, t: EventTag) -> LoopState {
    match t {
        EventTag::Accepted => if s.secure {
            LoopState { in_flight: s.in_flight + 1, ..s }
        } else {
            s
        },
        EventTag::SourceFailed { transient } => if transient {
            s
        } else {
            LoopState { source_open: false, in_flight: 0, ..s }
        },
        EventTag::SourceExhausted => LoopState { source_open: false, ..s },
        EventTag::Upgraded | EventTag::UpgradeFailed => LoopState {
            in_flight: (s.in_flight - 1) as nat,
            ..s
        },
    }
}

/// The kind of action that answers event `t` in state `s`.
pub open spec fn reaction(s: LoopState, t: EventTag) -> Reaction {
    match t {
        EventTag::Accepted => if s.secure {
            Reaction::Spawn
        } else {
            Reaction::YieldPlain
        },
        EventTag::SourceFailed { transient } => if transient {
            Reaction::Skip
        } else {
            Reaction::Fail
        },
        EventTag::SourceExhausted => Reaction::Skip,
        EventTag::Upgraded => Reaction::YieldSecure,
        EventTag::UpgradeFailed => Reaction::Skip,
    }
}

pub open spec fn event_tag<C, S, E>(ev: LoopEvent<C, S, E>) -> EventTag {
    match ev {
        LoopEvent::Accepted(_) => EventTag::Accepted,
        LoopEvent::SourceFailed(_, k) => EventTag::SourceFailed { transient: is_transient(k) },
        LoopEvent::SourceExhausted => EventTag::SourceExhausted,
        LoopEvent::Upgraded(_) => EventTag::Upgraded,
        LoopEvent::UpgradeFailed => EventTag::UpgradeFailed,
    }
}

pub open spec fn action_kind<C, S, E>(a: LoopAction<C, S, E>) -> Reaction {
    match a {
        LoopAction::Spawn(_) => Reaction::Spawn,
        LoopAction::YieldPlain(_) => Reaction::YieldPlain,
        LoopAction::YieldSecure(_) => Reaction::YieldSecure,
        LoopAction::Skip => Reaction::Skip,
        LoopAction::Fail(_) => Reaction::Fail,
    }
}

/// The action hands on exactly the value that the event brought.
pub open spec fn carries<C, S, E>(ev: LoopEvent<C, S, E>, a: LoopAction<C, S, E>) -> bool {
    match (ev, a) {
        (LoopEvent::Accepted(c), LoopAction::Spawn(d)) => c == d,
        (LoopEvent::Accepted(c), LoopAction::YieldPlain(d)) => c == d,
        (LoopEvent::Upgraded(s), LoopAction::YieldSecure(t)) => s == t,
        (LoopEvent::SourceFailed(e, _), LoopAction::Fail(f)) => e == f,
        _ => true,
    }
}

/// The accept loop's decisions: it merges a listener with a pool of running
/// handshakes. The driver waits on the sources that `next_wait` names, hands
/// each event to `on_event`, and performs the action it gets back.
pub struct AcceptLoop {
    secure: bool,
    in_flight: usize,
    source_open: bool,
}

impl View for AcceptLoop {
    type V = LoopState;

    closed spec fn view(&self) -> LoopState {
        LoopState { secure: self.secure, in_flight: self.in_flight as nat, source_open: self.source_open }
    }
}

impl AcceptLoop {
    /// A loop over an open listener with no handshake running; `secure` says
    /// whether connections go through a handshake before they are handed out.
    pub fn new(secure: bool) -> (r: AcceptLoop)
        ensures
            r@ == (LoopState { secure, in_flight: 0, source_open: true }),
            well_formed(r@),
    {
        AcceptLoop { secure, in_flight: 0, source_open: true }
    }

    /// How many handshakes are running.
    pub fn in_flight(&self) -> (r: usize)
        ensures
            r as nat == self@.in_flight,
    {
        self.in_flight
    }

    /// The sources to wait on next.
    pub fn next_wait(&self) -> (r: Wait)
        ensures
            r == wait_for(self@),
    {
        if self.source_open {
            if self.in_flight == 0 {
                Wait::Source
            } else if self.in_flight < usize::MAX {
                Wait::SourceOrUpgrade
            } else {
                Wait::Upgrade
            }
        } else if self.in_flight > 0 {
            Wait::Upgrade
        } else {
            Wait::Finished
        }
    }

    /// Whether the sequence has ended: the listener is closed and every
    /// handshake has finished.
    pub fn is_finished(&self) -> (r: bool)
        ensures
            r == (wait_for(self@) == Wait::Finished),
    {
        !self.source_open && self.in_flight == 0
    }

    /// Whether `ev` comes from a source that the loop waits on.
    pub fn admits<C, S, E>(&self, ev: &LoopEvent<C, S, E>) -> (r: bool)
        ensures
            r == admits(self@, event_tag(*ev)),
    {
        let w = self.next_wait();
        match ev {
            LoopEvent::Accepted(_) | LoopEvent::SourceFailed(_, _) | LoopEvent::SourceExhausted => {
                w == Wait::Source || w == Wait::SourceOrUpgrade
            },
            LoopEvent::Upgraded(_) | LoopEvent::UpgradeFailed => {
                w == Wait::Upgrade || w == Wait::SourceOrUpgrade
            },
        }
    }

    /// Reacts to one event: a new connection starts a handshake (or is handed
    /// out as it is, without security); a finished handshake hands out its
    /// session or, if it failed, is dropped; a listener error is triaged, and a
    /// fatal one ends the sequence, abandoning the running handshakes; a closed
    /// listener leaves the running handshakes to drain.
    pub fn on_event<C, S, E>(&mut self, ev: LoopEvent<C, S, E>) -> (r: LoopAction<C, S, E>)
        requires
            well_formed(old(self)@),
            admits(old(self)@, event_tag(ev)),
        ensures
            well_formed(final(self)@),
            final(self)@ == step(old(self)@, event_tag(ev)),
            action_kind(r) == reaction(old(self)@, event_tag(ev)),
            carries(ev, r),
            r is Fail ==> wait_for(final(self)@) == Wait::Finished,
    {
        match ev {
            LoopEvent::Accepted(c) => {
                if self.secure {
                    self.in_flight = self.in_flight + 1;
                    LoopAction::Spawn(c)
                } else {
                    LoopAction::YieldPlain(c)
                }
            },
            LoopEvent::SourceFailed(e, kind) => {
                match handle_tcp_accept_error(e, kind) {
                    AcceptFlow::Continue => LoopAction::Skip,
                    AcceptFlow::Break(e) => {
                        self.source_open = false;
                        self.in_flight = 0;
                        LoopAction::Fail(e)
                    },
                }
            },
            LoopEvent::SourceExhausted => {
                self.source_open = false;
                LoopAction::Skip
            },
            LoopEvent::Upgraded(s) => {
                self.in_flight = self.in_flight - 1;
                LoopAction::YieldSecure(s)
            },
            LoopEvent::UpgradeFailed => {
                self.in_flight = self.in_flight - 1;
                LoopAction::Skip
            },
        }
    }
}

} // verus!
