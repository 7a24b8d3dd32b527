//! Process supervision: the bounded termination protocol and play-time accounting.
use vstd::prelude::*;

verus! {

/// Longest play session, in milliseconds, that is believed; longer ones come from a
/// corrupt clock.
pub const MAX_PLAY_TIME_MS: i64 = 86_400_000;

/// How long a child may take to exit after a graceful request, in milliseconds.
pub const GRACE_WINDOW_MS: i64 = 5000;

/// The play time to add to the catalog for a session that started at `start` and ended
/// at `now`, both in milliseconds: the elapsed time if it is at most `MAX_PLAY_TIME_MS`,
/// else nothing.
pub open spec fn play_time_spec(start: i64, now: i64) -> Option<i64> {
    if now - start <= MAX_PLAY_TIME_MS {
        Some((now - start) as i64)
    } else {
        None
    }
}

/// The play time to record for a session from `start` to `now`; `None` discards it.
pub fn play_time_to_record(start: i64, now: i64) -> (r: Option<i64>)
    requires
        i64::MIN <= now - start,
    ensures
        r == play_time_spec(start, now),
{
    let elapsed: i128 = now as i128 - start as i128;
    if elapsed <= MAX_PLAY_TIME_MS as i128 {
        Some(elapsed as i64)
    } else {
        None
    }
}

/// A process-control signal sent to a child.
#[derive(Debug, Clone, Copy, PartialEq, Eq, Structural)]
pub enum Signal {
    /// Freeze the process.
    Stop,
    /// Resume a frozen process.
    Continue,
    /// Ask the process to exit.
    Terminate,
    /// End the process at once.
    Kill,
}

/// Where the termination of one child stands.
#[derive(Debug, Clone, Copy, PartialEq, Eq, Structural)]
pub enum Termination {
    /// Asked to exit; killed if still alive at `deadline` (milliseconds).
    Waiting { deadline: i64 },
    /// The child exited by itself.
    Exited,
    /// The child was killed.
    Killed,
}

/// What the supervisor learns while waiting for a child to exit.
#[derive(Debug, Clone, Copy, PartialEq, Eq, Structural)]
pub enum TerminationEvent {
    /// The child has exited.
    Exited,
    /// The clock reads this many milliseconds and the child is still alive.
    Alive(i64),
}

impl Termination {
    /// The protocol's first step at time `now`: where graceful signals exist, ask the
    /// child to exit and wait up to `GRACE_WINDOW_MS`; elsewhere kill it directly.
    pub open spec fn begin_spec(graceful: bool, now: i64) -> (Termination, Signal) {
        if graceful {
            (Termination::Waiting { deadline: (now + GRACE_WINDOW_MS) as i64 }, Signal::Terminate)
        } else {
            (Termination::Killed, Signal::Kill)
        }
    }

    /// One step of the protocol on `e`: the new stage, and the signal to send, if any.
    pub open spec fn step_spec(self, e: TerminationEvent) -> (Termination, Option<Signal>) {
        match self {
            Termination::Waiting { deadline } => match e {
                TerminationEvent::Exited => (Termination::Exited, None),
                TerminationEvent::Alive(now) => if now >= deadline {
                    (Termination::Killed, Some(Signal::Kill))
                } else {
                    (self, None)
                },
            },
            _ => (self, None),
        }
    }

    /// How many kill signals the protocol sends over `es`, from this stage on.
    pub open spec fn kills(self, es: Seq<TerminationEvent>) -> nat
        decreases es.len(),
    {
        if es.len() == 0 {
            0
        } else {
            let (t, s) = self.step_spec(es[0]);
            (if s == Some(Signal::Kill) { 1nat } else { 0nat }) + t.kills(es.drop_first())
        }
    }

    /// Starts terminating a child at time `now`; returns the stage and the signal to send.
    pub fn begin(graceful: bool, now: i64) -> (r: (Termination, Signal))
        requires
            now <= i64::MAX - GRACE_WINDOW_MS,
        ensures
            r == Self::begin_spec(graceful, now),
    {
        if graceful {
            (Termination::Waiting { deadline: now + GRACE_WINDOW_MS }, Signal::Terminate)
        } else {
            (Termination::Killed, Signal::Kill)
        }
    }

    /// Advances the protocol on `e`; returns the signal to send, if any.
    pub fn step(&mut self, e: TerminationEvent) -> (r: Option<Signal>)
        ensures
            (*final(self), r) == old(self).step_spec(e),
    {
        match *self {
            Termination::Waiting { deadline } => match e {
                TerminationEvent::Exited => {
                    *self = Termination::Exited;
                    None
                },
                TerminationEvent::Alive(now) => {
                    if now >= deadline {
                        *self = Termination::Killed;
                        Some(Signal::Kill)
                    } else {
                        None
                    }
                },
            },
            _ => None,
        }
    }

    /// Whether the child is gone.
    pub fn is_done(&self) -> (r: bool)
        ensures
            r == !(*self is Waiting),
    {
        !matches!(*self, Termination::Waiting { .. })
    }
}

/// Once the child is gone, no further kill signal is sent.
pub proof fn lemma_done_sends_no_kill(t: Termination, es: Seq<TerminationEvent>)
    requires
        !(t is Waiting),
    ensures
        t.kills(es) == 0,
    decreases es.len(),
{
    if es.len() > 0 {
        lemma_done_sends_no_kill(t, es.drop_first());
    }
}

/// A child that exits before the grace window ends is never killed: the events are
/// checks at times before the deadline, then its exit, then anything.
pub proof fn lemma_exit_in_time_not_killed(deadline: i64, es: Seq<TerminationEvent>, k: int)
    requires
        0 <= k < es.len(),
        es[k] == TerminationEvent::Exited,
        forall|i: int| 0 <= i < k ==> (#[trigger] es[i] matches TerminationEvent::Alive(now) && now < deadline),
    ensures
        (Termination::Waiting { deadline }).kills(es) == 0,
    decreases k,
{
    let t = Termination::Waiting { deadline };
    if k == 0 {
        lemma_done_sends_no_kill(Termination::Exited, es.drop_first());
    } else {
        assert(es[0] matches TerminationEvent::Alive(now) && now < deadline);
        let rest = es.drop_first();
        assert forall|i: int| 0 <= i < k - 1 implies (#[trigger] rest[i] matches TerminationEvent::Alive(now) && now < deadline) by {
            assert(rest[i] == es[i + 1]);
        }
        lemma_exit_in_time_not_killed(deadline, rest, k - 1);
    }
}

/// A child that never exits is killed exactly once, once a check at or after the
/// deadline has come.
pub proof fn lemma_stuck_child_killed_once(deadline: i64, es: Seq<TerminationEvent>, k: int)
    requires
        0 <= k < es.len(),
        forall|i: int| 0 <= i < es.len() ==> (#[trigger] es[i] is Alive),
        es[k] matches TerminationEvent::Alive(now) && now >= deadline,
    ensures
        (Termination::Waiting { deadline }).kills(es) == 1,
    decreases es.len(),
{
    let t = Termination::Waiting { deadline };
    assert(es[0] is Alive);
    let rest = es.drop_first();
    match es[0] {
        TerminationEvent::Alive(now) => {
            if now >= deadline {
                lemma_done_sends_no_kill(Termination::Killed, rest);
            } else {
                assert(k > 0);
                assert(rest[k - 1] == es[k]);
                assert forall|i: int| 0 <= i < rest.len() implies (#[trigger] rest[i] is Alive) by {
                    assert(rest[i] == es[i + 1]);
                }
                lemma_stuck_child_killed_once(deadline, rest, k - 1);
            }
        },
        TerminationEvent::Exited => {},
    }
}

} // verus!
