//! The drive loop as a state machine.
//!
//! The host runs the loop: it asks the driver for the next [`Command`],
//! performs it (polls the task, reads the clock, asks the network stack for its
//! next delay, parks the thread, ...) and hands back the [`Event`] that came of
//! it. Every decision of the loop is taken here, by [`Driver::step`], which
//! follows the transition function [`next`] exactly.

use vstd::prelude::*;
use crate::time::{Duration, Instant, millis_of};

verus! {

/// Up to this many milliseconds of network delay the loop busy-advances the
/// network stack; above it, parking the thread in the kernel pays off.
pub const BUSY_POLL_LIMIT_MS: u64 = 100;

/// What the host is asked to do next.
#[derive(Clone, Copy, Debug, PartialEq, Eq, Structural)]
pub enum Command {
    /// Announce to the kernel whether network interrupts are taken by polling.
    SetPollingMode(bool),
    /// Read the current time and report it with [`Event::Clock`].
    ReadClock,
    /// Advance the task one step and report [`Event::TaskPolled`].
    PollTask,
    /// Ask the network stack for its next required delay at this time and
    /// report it with [`Event::NetworkDelay`].
    QueryNetworkDelay(Instant),
    /// Swap the wake flag to false and report its prior value with
    /// [`Event::WakeConsumed`].
    ConsumeWake,
    /// Block the thread in the kernel, for at most this many milliseconds
    /// (without limit if absent).
    Block(Option<u64>),
    /// Yield the rest of the time slice to the kernel's scheduler.
    Yield,
    /// Clear the wake flag.
    ClearWake,
    /// Let the network stack process what is ready at this time.
    AdvanceNetwork(Instant),
    /// The task has produced its result: hand it to the caller.
    Complete,
    /// The deadline has passed before the task completed.
    TimedOut,
}

/// What came of the last command.
#[derive(Clone, Copy, Debug, PartialEq, Eq, Structural)]
pub enum Event {
    /// The command is done and has nothing to report.
    Done,
    /// The task was advanced; `ready` tells whether it has completed.
    TaskPolled { ready: bool },
    /// The current time.
    Clock(Instant),
    /// The network stack's next required delay, if it has one.
    NetworkDelay(Option<Duration>),
    /// The wake flag's value before it was consumed.
    WakeConsumed { was_pending: bool },
}

/// Where the loop stands: each phase but `Fresh` names the command that was
/// handed out last and whose outcome the driver waits for.
#[derive(Clone, Copy, Debug, PartialEq, Eq, Structural)]
pub enum Phase {
    Fresh,
    Announced,
    ReadingStart,
    Polling,
    ReadingNow,
    Querying { now: Instant },
    Consuming { delay: Option<u64> },
    Parking { delay: Option<u64> },
    Blocked { delay: Option<u64> },
    Yielded,
    Resumed,
    Cleared,
    ReadingWake,
    Advancing { now: Instant },
    Finishing { completed: bool },
    Finished { completed: bool },
}

/// The state of one run of the drive loop.
#[derive(Clone, Copy, Debug, PartialEq, Eq, Structural)]
pub struct Driver {
    /// How long the task may take, counted from the first clock reading.
    pub timeout: Option<Duration>,
    /// The first clock reading of the run.
    pub start: Instant,
    pub phase: Phase,
}

/// Whether the polling mode last announced in this phase is on.
pub open spec fn announced_polling(p: Phase) -> bool {
    match p {
        Phase::Fresh => false,
        Phase::Parking { .. } | Phase::Blocked { .. } | Phase::Yielded => false,
        Phase::Finishing { .. } | Phase::Finished { .. } => false,
        _ => true,
    }
}

/// The command that a phase stands for.
pub open spec fn command_of(p: Phase) -> Command {
    match p {
        Phase::Fresh => Command::SetPollingMode(false),
        Phase::Announced => Command::SetPollingMode(true),
        Phase::ReadingStart => Command::ReadClock,
        Phase::Polling => Command::PollTask,
        Phase::ReadingNow => Command::ReadClock,
        Phase::Querying { now } => Command::QueryNetworkDelay(now),
        Phase::Consuming { .. } => Command::ConsumeWake,
        Phase::Parking { .. } => Command::SetPollingMode(false),
        Phase::Blocked { delay } => Command::Block(delay),
        Phase::Yielded => Command::Yield,
        Phase::Resumed => Command::SetPollingMode(true),
        Phase::Cleared => Command::ClearWake,
        Phase::ReadingWake => Command::ReadClock,
        Phase::Advancing { now } => Command::AdvanceNetwork(now),
        Phase::Finishing { .. } => Command::SetPollingMode(false),
        Phase::Finished { completed } => if completed {
            Command::Complete
        } else {
            Command::TimedOut
        },
    }
}

/// Whether `now` lies at or past the deadline of a run that started at
/// `start` with this timeout.
pub open spec fn deadline_passed(timeout: Option<Duration>, start: Instant, now: Instant) -> bool {
    match timeout {
        Some(d) => now.micros >= start.micros + d.micros,
        None => false,
    }
}

/// Whether a network delay, in milliseconds, leaves the loop idle long enough
/// to park the thread.
pub open spec fn is_idle(delay: Option<u64>) -> bool {
    match delay {
        None => true,
        Some(ms) => ms > BUSY_POLL_LIMIT_MS,
    }
}

/// The delay in whole milliseconds, if there is one.
pub open spec fn delay_millis(d: Option<Duration>) -> Option<u64> {
    match d {
        Some(d) => Some(millis_of(d.micros)),
        None => None,
    }
}

/// The driver in phase `p`, all else unchanged.
pub open spec fn enter(s: Driver, p: Phase) -> (Driver, Command) {
    (Driver { phase: p, ..s }, command_of(p))
}

/// One transition of the drive loop: the new state, and the command it hands
/// out. An event that the phase does not wait for changes nothing and hands
/// out the same command again.
pub open spec fn next(s: Driver, ev: Event) -> (Driver, Command) {
    match (s.phase, ev) {
        (Phase::Fresh, _) => enter(s, Phase::Announced),
        (Phase::Announced, Event::Done) => enter(s, Phase::ReadingStart),
        (Phase::ReadingStart, Event::Clock(t)) => enter(Driver { start: t, ..s }, Phase::Polling),
        (Phase::Polling, Event::TaskPolled { ready }) => if ready {
            enter(s, Phase::Finishing { completed: true })
        } else {
            enter(s, Phase::ReadingNow)
        },
        (Phase::ReadingNow, Event::Clock(now)) => if s.timeout.is_some() {
            if deadline_passed(s.timeout, s.start, now) {
                enter(s, Phase::Finishing { completed: false })
            } else {
                enter(s, Phase::Polling)
            }
        } else {
            enter(s, Phase::Querying { now })
        },
        (Phase::Querying { now }, Event::NetworkDelay(d)) => if is_idle(delay_millis(d)) {
            enter(s, Phase::Consuming { delay: delay_millis(d) })
        } else {
            enter(s, Phase::Advancing { now })
        },
        (Phase::Consuming { delay }, Event::WakeConsumed { was_pending }) => if was_pending {
            enter(s, Phase::Polling)
        } else {
            enter(s, Phase::Parking { delay })
        },
        (Phase::Parking { delay }, Event::Done) => enter(s, Phase::Blocked { delay }),
        (Phase::Blocked { .. }, Event::Done) => enter(s, Phase::Yielded),
        (Phase::Yielded, Event::Done) => enter(s, Phase::Resumed),
        (Phase::Resumed, Event::Done) => enter(s, Phase::Cleared),
        (Phase::Cleared, Event::Done) => enter(s, Phase::ReadingWake),
        (Phase::ReadingWake, Event::Clock(now)) => enter(s, Phase::Advancing { now }),
        (Phase::Advancing { .. }, Event::Done) => enter(s, Phase::Polling),
        (Phase::Finishing { completed }, Event::Done) => enter(s, Phase::Finished { completed }),
        _ => (s, command_of(s.phase)),
    }
}

/// The well-formed states: a run with a timeout never enters the branch that
/// parks the thread, and a run without one never finishes by timing out.
pub open spec fn wf(s: Driver) -> bool {
    &&& s.timeout.is_none() ==> !(s.phase matches Phase::Finishing { completed: false })
        && !(s.phase matches Phase::Finished { completed: false })
    &&& s.timeout.is_some() ==> !in_idle_branch(s.phase)
}

/// The phases of the branch that consults the network stack and may park the
/// thread, taken only by a run without a timeout.
pub open spec fn in_idle_branch(p: Phase) -> bool {
    match p {
        Phase::Querying { .. } | Phase::Consuming { .. } | Phase::Parking { .. } => true,
        Phase::Blocked { .. } | Phase::Yielded | Phase::Resumed | Phase::Cleared => true,
        Phase::ReadingWake | Phase::Advancing { .. } => true,
        _ => false,
    }
}

fn command_for(p: Phase) -> (r: Command)
    ensures
        r == command_of(p),
{
    match p {
        Phase::Fresh => Command::SetPollingMode(false),
        Phase::Announced => Command::SetPollingMode(true),
        Phase::ReadingStart => Command::ReadClock,
        Phase::Polling => Command::PollTask,
        Phase::ReadingNow => Command::ReadClock,
        Phase::Querying { now } => Command::QueryNetworkDelay(now),
        Phase::Consuming { .. } => Command::ConsumeWake,
        Phase::Parking { .. } => Command::SetPollingMode(false),
        Phase::Blocked { delay } => Command::Block(delay),
        Phase::Yielded => Command::Yield,
        Phase::Resumed => Command::SetPollingMode(true),
        Phase::Cleared => Command::ClearWake,
        Phase::ReadingWake => Command::ReadClock,
        Phase::Advancing { now } => Command::AdvanceNetwork(now),
        Phase::Finishing { .. } => Command::SetPollingMode(false),
        Phase::Finished { completed } => if completed {
            Command::Complete
        } else {
            Command::TimedOut
        },
    }
}

impl Driver {
    /// A run that has not started yet; `timeout` bounds how long it may take.
    pub fn new(timeout: Option<Duration>) -> (r: Driver)
        ensures
            r.timeout == timeout,
            r.phase == Phase::Fresh,
            wf(r),
    {
        Driver { timeout, start: Instant { micros: 0 }, phase: Phase::Fresh }
    }

    /// Whether the polling mode that this run last announced is on.
    pub fn polling_mode(&self) -> (r: bool)
        ensures
            r == announced_polling(self.phase),
    {
        match self.phase {
            Phase::Fresh => false,
            Phase::Parking { .. } | Phase::Blocked { .. } | Phase::Yielded => false,
            Phase::Finishing { .. } | Phase::Finished { .. } => false,
            _ => true,
        }
    }

    /// Whether the run has ended, by completion or by timing out.
    pub fn is_finished(&self) -> (r: bool)
        ensures
            r == (self.phase matches Phase::Finished { .. }),
    {
        matches!(self.phase, Phase::Finished { .. })
    }

    fn enter(&mut self, p: Phase) -> (r: Command)
        ensures
            (*final(self), r) == enter(*old(self), p),
    {
        self.phase = p;
        command_for(p)
    }

    /// Takes the outcome of the last command and hands out the next one.
    pub fn step(&mut self, ev: Event) -> (r: Command)
        ensures
            (*final(self), r) == next(*old(self), ev),
            wf(*old(self)) ==> wf(*final(self)),
            (r matches Command::Complete) || (r matches Command::TimedOut)
                ==> !announced_polling(final(self).phase),
    {
        match (self.phase, ev) {
            (Phase::Fresh, _) => self.enter(Phase::Announced),
            (Phase::Announced, Event::Done) => self.enter(Phase::ReadingStart),
            (Phase::ReadingStart, Event::Clock(t)) => {
                self.start = t;
                self.enter(Phase::Polling)
            },
            (Phase::Polling, Event::TaskPolled { ready }) => if ready {
                self.enter(Phase::Finishing { completed: true })
            } else {
                self.enter(Phase::ReadingNow)
            },
            (Phase::ReadingNow, Event::Clock(now)) => match self.timeout {
                Some(d) => {
                    if (now.micros as i128) >= (self.start.micros as i128) + (d.micros as i128) {
                        self.enter(Phase::Finishing { completed: false })
                    } else {
                        self.enter(Phase::Polling)
                    }
                },
                None => self.enter(Phase::Querying { now }),
            },
            (Phase::Querying { now }, Event::NetworkDelay(d)) => {
                let delay = match d {
                    Some(d) => Some(d.total_millis()),
                    None => None,
                };
                let idle = match delay {
                    Some(ms) => ms > BUSY_POLL_LIMIT_MS,
                    None => true,
                };
                if idle {
                    self.enter(Phase::Consuming { delay })
                } else {
                    self.enter(Phase::Advancing { now })
                }
            },
            (Phase::Consuming { delay }, Event::WakeConsumed { was_pending }) => if was_pending {
                self.enter(Phase::Polling)
            } else {
                self.enter(Phase::Parking { delay })
            },
            (Phase::Parking { delay }, Event::Done) => self.enter(Phase::Blocked { delay }),
            (Phase::Blocked { .. }, Event::Done) => self.enter(Phase::Yielded),
            (Phase::Yielded, Event::Done) => self.enter(Phase::Resumed),
            (Phase::Resumed, Event::Done) => self.enter(Phase::Cleared),
            (Phase::Cleared, Event::Done) => self.enter(Phase::ReadingWake),
            (Phase::ReadingWake, Event::Clock(now)) => self.enter(Phase::Advancing { now }),
            (Phase::Advancing { .. }, Event::Done) => self.enter(Phase::Polling),
            (Phase::Finishing { completed }, Event::Done) => self.enter(
                Phase::Finished { completed },
            ),
            _ => command_for(self.phase),
        }
    }
}

/// The state after feeding `evs` to the driver, one after the other, and the
/// commands handed out on the way.
pub open spec fn run(s: Driver, evs: Seq<Event>) -> (Driver, Seq<Command>)
    decreases evs.len(),
{
    if evs.len() == 0 {
        (s, Seq::empty())
    } else {
        let (s1, c) = next(s, evs[0]);
        let (s2, cs) = run(s1, evs.subrange(1, evs.len() as int));
        (s2, seq![c] + cs)
    }
}

/// One transition keeps a well-formed state well-formed.
pub proof fn lemma_next_keeps_wf(s: Driver, ev: Event)
    requires
        wf(s),
    ensures
        wf(next(s, ev).0),
        next(s, ev).0.timeout == s.timeout,
{
}

/// A run without a timeout never reports that it timed out, whatever the task,
/// the clock and the network stack report: a task that completes is always
/// handed back as complete.
pub proof fn lemma_no_timeout_without_deadline(s: Driver, evs: Seq<Event>)
    requires
        wf(s),
        s.timeout.is_none(),
    ensures
        forall|i: int| 0 <= i < run(s, evs).1.len() ==> run(s, evs).1[i] != Command::TimedOut,
    decreases evs.len(),
{
    if evs.len() > 0 {
        let (s1, c) = next(s, evs[0]);
        lemma_no_timeout_without_deadline(s1, evs.subrange(1, evs.len() as int));
        let cs = run(s1, evs.subrange(1, evs.len() as int)).1;
        assert forall|i: int| 0 <= i < run(s, evs).1.len() implies run(s, evs).1[i]
            != Command::TimedOut by {
            if i > 0 {
                assert(run(s, evs).1[i] == cs[i - 1]);
            }
        }
    }
}

/// A run with a timeout never blocks the thread in the kernel: it only
/// busy-polls the task until it completes or the deadline passes.
pub proof fn lemma_deadline_never_blocks(s: Driver, evs: Seq<Event>)
    requires
        wf(s),
        s.timeout.is_some(),
    ensures
        forall|i: int| 0 <= i < run(s, evs).1.len() ==> !(#[trigger] run(s, evs).1[i] matches Command::Block(_)),
    decreases evs.len(),
{
    if evs.len() > 0 {
        let (s1, c) = next(s, evs[0]);
        lemma_deadline_never_blocks(s1, evs.subrange(1, evs.len() as int));
        let cs = run(s1, evs.subrange(1, evs.len() as int)).1;
        assert forall|i: int| 0 <= i < run(s, evs).1.len() implies !(#[trigger] run(s, evs).1[i] matches Command::Block(_)) by {
            if i > 0 {
                assert(run(s, evs).1[i] == cs[i - 1]);
            }
        }
    }
}

/// A task that reports completion is handed back: the driver first turns the
/// polling mode off, then completes, and the mode stays off afterwards.
pub proof fn lemma_ready_task_completes(s: Driver)
    requires
        s.phase == Phase::Polling,
    ensures
        ({
            let (s1, c1) = next(s, Event::TaskPolled { ready: true });
            let (s2, c2) = next(s1, Event::Done);
            &&& c1 == Command::SetPollingMode(false)
            &&& c2 == Command::Complete
            &&& !announced_polling(s2.phase)
            &&& forall|ev: Event| next(s2, ev) == (s2, Command::Complete)
        }),
{
}

/// Once the clock reads at or past the deadline while the task is pending, the
/// driver turns the polling mode off and reports the timeout, without blocking.
pub proof fn lemma_past_deadline_times_out(s: Driver, now: Instant)
    requires
        s.phase == Phase::ReadingNow,
        s.timeout.is_some(),
        deadline_passed(s.timeout, s.start, now),
    ensures
        ({
            let (s1, c1) = next(s, Event::Clock(now));
            let (s2, c2) = next(s1, Event::Done);
            &&& c1 == Command::SetPollingMode(false)
            &&& c2 == Command::TimedOut
            &&& !announced_polling(s2.phase)
        }),
{
}

/// The thread is parked only right after the wake flag was consumed and found
/// clear, with the polling mode off (or again, when the host repeats the
/// request of a parked driver); and after the kernel returns, the driver
/// yields, turns the polling mode on, clears the wake flag, and advances the
/// network stack before it polls the task again.
pub proof fn lemma_park_protocol(s: Driver, ev: Event)
    ensures
        (next(s, ev).1 matches Command::Block(_)) ==> ((s.phase matches Phase::Parking { .. })
            && ev == Event::Done) || next(s, ev).0 == s,
        (next(s, ev).0.phase matches Phase::Parking { .. }) && !(s.phase matches Phase::Parking { .. })
            ==> (s.phase matches Phase::Consuming { .. }) && ev == (Event::WakeConsumed { was_pending: false }),
        (s.phase matches Phase::Blocked { .. }) && ev == Event::Done ==> next(s, ev).1 == Command::Yield,
        s.phase == Phase::Yielded && ev == Event::Done ==> next(s, ev).1 == Command::SetPollingMode(true),
        s.phase == Phase::Resumed && ev == Event::Done ==> next(s, ev).1 == Command::ClearWake,
        s.phase == Phase::Cleared && ev == Event::Done ==> next(s, ev).1 == Command::ReadClock,
        s.phase == Phase::ReadingWake && (ev matches Event::Clock(_)) ==> (next(s, ev).1 matches Command::AdvanceNetwork(_)),
{
}

} // verus!
