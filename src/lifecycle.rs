//! The timer state machine of one session. A driver asks it what to do next,
//! performs that (a non-blocking sleep, closing the session, evicting it) and
//! reports whether the session was still in the registry. Minutes slept are
//! counted from the moment the session was created.
use vstd::prelude::*;

verus! {

/// Minutes a finished session stays resolvable before it is evicted.
pub const PURGE_DELAY: u64 = 2880;

#[derive(Clone, Copy, Debug, PartialEq, Eq, Structural)]
pub enum Phase {
    /// Armed: the voting window has not been slept yet.
    AwaitingClose,
    /// The voting window has elapsed: the session is to be closed.
    CloseDue,
    /// Closed: the retention window has not been slept yet.
    AwaitingPurge,
    /// The retention window has elapsed: the session is to be evicted.
    PurgeDue,
    /// Nothing more to do.
    Done,
}

#[derive(Clone, Copy, Debug, PartialEq, Eq, Structural)]
pub enum TimerAction {
    /// Sleep this many minutes without occupying a thread.
    Sleep { minutes: u64 },
    /// Mark the session `Finished`.
    Close,
    /// Remove the session from the registry.
    Evict,
    /// End the timer task.
    Stop,
}

#[derive(Clone, Copy, Debug, PartialEq, Eq, Structural)]
pub struct Lifecycle {
    pub voting_time: u32,
    pub phase: Phase,
    /// Minutes slept since the session was created.
    pub elapsed: u64,
}

/// Minutes slept so far in each phase, given the voting window.
pub open spec fn elapsed_in(phase: Phase, voting_time: u32) -> int {
    match phase {
        Phase::AwaitingClose => 0,
        Phase::CloseDue | Phase::AwaitingPurge => voting_time as int,
        Phase::PurgeDue => voting_time + PURGE_DELAY,
        Phase::Done => -1,
    }
}

impl Lifecycle {
    /// The machine's own bookkeeping: the minutes slept match the phase.
    pub open spec fn wf(&self) -> bool {
        self.phase != Phase::Done ==> self.elapsed == elapsed_in(self.phase, self.voting_time)
    }

    /// One step from `self`: the next state and the action to perform.
    /// `present` tells whether the session was still registered when a
    /// `Close` was to be applied.
    pub open spec fn step(self, present: bool) -> (Lifecycle, TimerAction) {
        match self.phase {
            Phase::AwaitingClose => (
                Lifecycle { phase: Phase::CloseDue, elapsed: self.voting_time as u64, ..self },
                TimerAction::Sleep { minutes: self.voting_time as u64 },
            ),
            Phase::CloseDue => if present {
                (Lifecycle { phase: Phase::AwaitingPurge, ..self }, TimerAction::Close)
            } else {
                (Lifecycle { phase: Phase::Done, ..self }, TimerAction::Stop)
            },
            Phase::AwaitingPurge => (
                Lifecycle {
                    phase: Phase::PurgeDue,
                    elapsed: (self.voting_time + PURGE_DELAY) as u64,
                    ..self
                },
                TimerAction::Sleep { minutes: PURGE_DELAY },
            ),
            Phase::PurgeDue => (Lifecycle { phase: Phase::Done, ..self }, TimerAction::Evict),
            Phase::Done => (self, TimerAction::Stop),
        }
    }

    /// A machine armed when its session is created.
    pub fn new(voting_time: u32) -> (r: Lifecycle)
        ensures
            r.wf(),
            r == armed(voting_time),
    {
        Lifecycle { voting_time, phase: Phase::AwaitingClose, elapsed: 0 }
    }

    /// Decides the next action and moves to the next phase.
    pub fn advance(&mut self, present: bool) -> (r: TimerAction)
        requires
            old(self).wf(),
        ensures
            (*final(self), r) == old(self).step(present),
            final(self).wf(),
    {
        match self.phase {
            Phase::AwaitingClose => {
                self.phase = Phase::CloseDue;
                self.elapsed = self.voting_time as u64;
                TimerAction::Sleep { minutes: self.voting_time as u64 }
            },
            Phase::CloseDue => {
                if present {
                    self.phase = Phase::AwaitingPurge;
                    TimerAction::Close
                } else {
                    self.phase = Phase::Done;
                    TimerAction::Stop
                }
            },
            Phase::AwaitingPurge => {
                self.phase = Phase::PurgeDue;
                self.elapsed = self.voting_time as u64 + PURGE_DELAY;
                TimerAction::Sleep { minutes: PURGE_DELAY }
            },
            Phase::PurgeDue => {
                self.phase = Phase::Done;
                TimerAction::Evict
            },
            Phase::Done => TimerAction::Stop,
        }
    }
}

/// Runs the machine from `l` through one step per entry of `presents`,
/// giving the state reached and the actions issued in order.
pub open spec fn run(l: Lifecycle, presents: Seq<bool>) -> (Lifecycle, Seq<TimerAction>)
    decreases presents.len(),
{
    if presents.len() == 0 {
        (l, Seq::empty())
    } else {
        let (next, a) = l.step(presents[0]);
        let (end, rest) = run(next, presents.drop_first());
        (end, seq![a].add(rest))
    }
}

/// Minutes of sleep one action asks for.
pub open spec fn sleep_of(a: TimerAction) -> int {
    match a {
        TimerAction::Sleep { minutes } => minutes as int,
        _ => 0,
    }
}

/// Minutes of sleep contained in a sequence of actions.
pub open spec fn slept(actions: Seq<TimerAction>) -> int
    decreases actions.len(),
{
    if actions.len() == 0 {
        0
    } else {
        sleep_of(actions[0]) + slept(actions.drop_first())
    }
}

/// The machine as it is armed for a session with this voting window.
pub open spec fn armed(voting_time: u32) -> Lifecycle {
    Lifecycle { voting_time, phase: Phase::AwaitingClose, elapsed: 0 }
}

proof fn lemma_run_len(l: Lifecycle, presents: Seq<bool>)
    ensures
        run(l, presents).1.len() == presents.len(),
    decreases presents.len(),
{
    if presents.len() > 0 {
        lemma_run_len(l.step(presents[0]).0, presents.drop_first());
    }
}

/// From a well-formed state, each `Close` comes when the voting window has
/// been slept since creation, and each `Evict` when the retention window has
/// been slept after it.
proof fn lemma_run_timing(l: Lifecycle, presents: Seq<bool>, i: int)
    requires
        l.wf(),
        0 <= i < presents.len(),
    ensures
        run(l, presents).1[i] == TimerAction::Close ==> {
            &&& (l.phase == Phase::AwaitingClose || l.phase == Phase::CloseDue)
            &&& l.elapsed + slept(run(l, presents).1.take(i)) == l.voting_time
        },
        run(l, presents).1[i] == TimerAction::Evict ==> {
            &&& l.phase != Phase::Done
            &&& l.elapsed + slept(run(l, presents).1.take(i)) == l.voting_time + PURGE_DELAY
        },
    decreases presents.len(),
{
    let (next, a) = l.step(presents[0]);
    let rest = run(next, presents.drop_first()).1;
    let actions = run(l, presents).1;
    assert(actions == seq![a].add(rest));
    lemma_run_len(next, presents.drop_first());
    if i == 0 {
        assert(actions.take(0) =~= Seq::<TimerAction>::empty());
    } else {
        lemma_run_timing(next, presents.drop_first(), i - 1);
        assert(actions[i] == rest[i - 1]);
        assert(actions.take(i).drop_first() =~= rest.take(i - 1));
        assert(actions.take(i)[0] == a);
        assert(slept(actions.take(i)) == sleep_of(a) + slept(rest.take(i - 1)));
    }
}

/// A session is closed only once exactly its voting window has been slept
/// since creation, whatever the driver reported on the way.
pub proof fn lemma_close_after_voting_time(voting_time: u32, presents: Seq<bool>, i: int)
    requires
        0 <= i < presents.len(),
        run(armed(voting_time), presents).1[i] == TimerAction::Close,
    ensures
        slept(run(armed(voting_time), presents).1.take(i)) == voting_time,
{
    lemma_run_timing(armed(voting_time), presents, i);
}

/// A session is evicted only once its voting window and then the retention
/// window have been slept since creation.
pub proof fn lemma_evict_after_purge_delay(voting_time: u32, presents: Seq<bool>, i: int)
    requires
        0 <= i < presents.len(),
        run(armed(voting_time), presents).1[i] == TimerAction::Evict,
    ensures
        slept(run(armed(voting_time), presents).1.take(i)) == voting_time + PURGE_DELAY,
{
    lemma_run_timing(armed(voting_time), presents, i);
}

} // verus!
