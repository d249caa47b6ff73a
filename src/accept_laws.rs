use vstd::prelude::*;

use crate::incoming::{
    admits, max_in_flight, reaction, step, wait_for, waits_on_source, well_formed, EventTag,
    LoopState, Reaction, Wait,
};

verus! {

/// The state after a sequence of events.
pub open spec fn run(s: LoopState, evs: Seq<EventTag>) -> LoopState
    decreases evs.len(),
{
    if evs.len() == 0 {
        s
    } else {
        run(step(s, evs[0]), evs.drop_first())
    }
}

/// The kinds of the actions that answer a sequence of events, in order.
pub open spec fn reactions(s: LoopState, evs: Seq<EventTag>) -> Seq<Reaction>
    decreases evs.len(),
{
    if evs.len() == 0 {
        Seq::empty()
    } else {
        seq![reaction(s, evs[0])] + reactions(step(s, evs[0]), evs.drop_first())
    }
}

/// Every event of the sequence comes from a source that the loop waits on.
pub open spec fn all_admitted(s: LoopState, evs: Seq<EventTag>) -> bool
    decreases evs.len(),
{
    evs.len() == 0 || (admits(s, evs[0]) && all_admitted(step(s, evs[0]), evs.drop_first()))
}

/// `n` new connections in a row.
pub open spec fn accepts(n: nat) -> Seq<EventTag> {
    Seq::new(n, |i: int| EventTag::Accepted)
}

/// Finished handshakes, `true` for one that succeeded.
pub open spec fn completions(outcomes: Seq<bool>) -> Seq<EventTag> {
    Seq::new(outcomes.len(), |i: int| if outcomes[i] { EventTag::Upgraded } else { EventTag::UpgradeFailed })
}

/// What answers finished handshakes: a session handed out for each success,
/// nothing for each failure.
pub open spec fn completion_reactions(outcomes: Seq<bool>) -> Seq<Reaction> {
    Seq::new(outcomes.len(), |i: int| if outcomes[i] { Reaction::YieldSecure } else { Reaction::Skip })
}

proof fn lemma_run_concat(s: LoopState, a: Seq<EventTag>, b: Seq<EventTag>)
    ensures
        run(s, a + b) == run(run(s, a), b),
        reactions(s, a + b) == reactions(s, a) + reactions(run(s, a), b),
        all_admitted(s, a + b) == (all_admitted(s, a) && all_admitted(run(s, a), b)),
    decreases a.len(),
{
    if a.len() == 0 {
        assert(a + b =~= b);
        assert(reactions(s, a) + reactions(run(s, a), b) =~= reactions(run(s, a), b));
    } else {
        let s1 = step(s, a[0]);
        assert((a + b)[0] == a[0]);
        assert((a + b).drop_first() =~= a.drop_first() + b);
        lemma_run_concat(s1, a.drop_first(), b);
        assert(seq![reaction(s, a[0])] + (reactions(s1, a.drop_first()) + reactions(run(s1, a.drop_first()), b))
            =~= (seq![reaction(s, a[0])] + reactions(s1, a.drop_first())) + reactions(run(s1, a.drop_first()), b));
    }
}

proof fn lemma_run_accepts(s: LoopState, n: nat)
    requires
        well_formed(s),
        s.secure,
        s.source_open,
        s.in_flight + n <= max_in_flight(),
    ensures
        all_admitted(s, accepts(n)),
        run(s, accepts(n)) == (LoopState { in_flight: s.in_flight + n, ..s }),
        reactions(s, accepts(n)) == Seq::new(n, |i: int| Reaction::Spawn),
    decreases n,
{
    if n == 0 {
        assert(reactions(s, accepts(n)) =~= Seq::new(n, |i: int| Reaction::Spawn));
    } else {
        let s1 = step(s, EventTag::Accepted);
        assert(accepts(n)[0] == EventTag::Accepted);
        assert(accepts(n).drop_first() =~= accepts((n - 1) as nat));
        lemma_run_accepts(s1, (n - 1) as nat);
        assert(seq![Reaction::Spawn] + Seq::new((n - 1) as nat, |i: int| Reaction::Spawn)
            =~= Seq::new(n, |i: int| Reaction::Spawn));
    }
}

proof fn lemma_run_completions(s: LoopState, outcomes: Seq<bool>)
    requires
        well_formed(s),
        s.secure,
        s.in_flight >= outcomes.len(),
    ensures
        all_admitted(s, completions(outcomes)),
        run(s, completions(outcomes)) == (LoopState { in_flight: (s.in_flight - outcomes.len()) as nat, ..s }),
        reactions(s, completions(outcomes)) == completion_reactions(outcomes),
    decreases outcomes.len(),
{
    if outcomes.len() == 0 {
        assert(reactions(s, completions(outcomes)) =~= completion_reactions(outcomes));
    } else {
        let evs = completions(outcomes);
        let s1 = step(s, evs[0]);
        assert(evs.drop_first() =~= completions(outcomes.drop_first()));
        lemma_run_completions(s1, outcomes.drop_first());
        assert(seq![reaction(s, evs[0])] + completion_reactions(outcomes.drop_first())
            =~= completion_reactions(outcomes));
    }
}

/// A running handshake never keeps the loop from the listener: while the
/// listener is open and the pool has room, the loop waits on new connections
/// however many handshakes are running, and it waits on finished handshakes
/// whenever one is running.
pub proof fn lemma_accepts_during_handshakes(s: LoopState)
    requires
        well_formed(s),
    ensures
        s.source_open && s.in_flight < max_in_flight() ==> waits_on_source(wait_for(s)),
        s.in_flight > 0 ==> (wait_for(s) == Wait::Upgrade || wait_for(s) == Wait::SourceOrUpgrade),
{
}

/// A handshake that never finishes does not hold back the others: with at
/// least one handshake stalled, `n` further connections are each taken in,
/// their handshakes finish, and every one of them is handed out, while the
/// stalled one is still running and the loop, unless its pool is full, still
/// waits on the listener.
pub proof fn lemma_no_head_of_line_blocking(s: LoopState, n: nat)
    requires
        well_formed(s),
        s.secure,
        s.source_open,
        s.in_flight >= 1,
        s.in_flight + n <= max_in_flight(),
    ensures
        all_admitted(s, accepts(n) + completions(Seq::new(n, |i: int| true))),
        reactions(s, accepts(n) + completions(Seq::new(n, |i: int| true)))
            == Seq::new(n, |i: int| Reaction::Spawn) + Seq::new(n, |i: int| Reaction::YieldSecure),
        run(s, accepts(n) + completions(Seq::new(n, |i: int| true))) == s,
        s.in_flight < max_in_flight() ==> waits_on_source(wait_for(s)),
{
    let oks = Seq::new(n, |i: int| true);
    lemma_run_concat(s, accepts(n), completions(oks));
    lemma_run_accepts(s, n);
    let s1 = LoopState { in_flight: s.in_flight + n, ..s };
    lemma_run_completions(s1, oks);
    assert(completion_reactions(oks) =~= Seq::new(n, |i: int| Reaction::YieldSecure));
}

/// A burst of failed handshakes leaves nothing behind: after `n` connections
/// are taken in and each handshake fails, nothing was handed out and the loop
/// is back in the state it started from, with the same number of handshakes
/// running.
pub proof fn lemma_failure_burst_releases(s: LoopState, n: nat)
    requires
        well_formed(s),
        s.secure,
        s.source_open,
        s.in_flight + n <= max_in_flight(),
    ensures
        all_admitted(s, accepts(n) + completions(Seq::new(n, |i: int| false))),
        reactions(s, accepts(n) + completions(Seq::new(n, |i: int| false)))
            == Seq::new(n, |i: int| Reaction::Spawn) + Seq::new(n, |i: int| Reaction::Skip),
        run(s, accepts(n) + completions(Seq::new(n, |i: int| false))) == s,
{
    let fails = Seq::new(n, |i: int| false);
    lemma_run_concat(s, accepts(n), completions(fails));
    lemma_run_accepts(s, n);
    let s1 = LoopState { in_flight: s.in_flight + n, ..s };
    lemma_run_completions(s1, fails);
    assert(completion_reactions(fails) =~= Seq::new(n, |i: int| Reaction::Skip));
}

/// Once the listener is closed, the handshakes still running are drained:
/// each one that succeeds is handed out, in the order they finish, each one
/// that fails is dropped, and after the last one the sequence ends.
pub proof fn lemma_drain_on_shutdown(s: LoopState, outcomes: Seq<bool>)
    requires
        well_formed(s),
        s.secure,
        !s.source_open,
        outcomes.len() == s.in_flight,
    ensures
        all_admitted(s, completions(outcomes)),
        reactions(s, completions(outcomes)) == completion_reactions(outcomes),
        wait_for(run(s, completions(outcomes))) == Wait::Finished,
{
    lemma_run_completions(s, outcomes);
}

/// A fatal listener error is the last item of the sequence: it is handed to
/// the consumer, the handshakes still running are abandoned, and no event of
/// either source is taken after it.
pub proof fn lemma_fatal_error_ends_sequence(s: LoopState, t: EventTag)
    requires
        well_formed(s),
        admits(s, EventTag::SourceFailed { transient: false }),
    ensures
        reaction(s, EventTag::SourceFailed { transient: false }) == Reaction::Fail,
        wait_for(step(s, EventTag::SourceFailed { transient: false })) == Wait::Finished,
        step(s, EventTag::SourceFailed { transient: false }).in_flight == 0,
        !admits(step(s, EventTag::SourceFailed { transient: false }), t),
{
}

/// A finished handshake is taken up whatever else is running: while any
/// handshake runs, the loop waits on completions, and a success is handed out
/// at once, freeing its slot.
pub proof fn lemma_completion_handed_out_at_once(s: LoopState)
    requires
        well_formed(s),
        s.secure,
        s.in_flight >= 1,
    ensures
        admits(s, EventTag::Upgraded),
        admits(s, EventTag::UpgradeFailed),
        reaction(s, EventTag::Upgraded) == Reaction::YieldSecure,
        step(s, EventTag::Upgraded).in_flight == s.in_flight - 1,
        step(s, EventTag::Upgraded).source_open == s.source_open,
{
}

} // verus!
