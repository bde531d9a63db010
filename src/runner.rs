use vstd::prelude::*;

verus! {

/// The line written to a child's stdin to ask it to shut down.
pub const STOP_COMMAND: &'static str = "stop";

/// Interval, in milliseconds, at which the exit guard polls the child.
pub const POLL_INTERVAL_MS: u64 = 200;

/// Capacity of a runner's input and output channels.
pub const CHANNEL_CAPACITY: usize = 32;

/// The bytes written to a child's stdin for one channel line: the line and
/// its terminator. Channel lines never carry a terminator of their own.
pub fn frame_line(line: &str) -> (r: String)
    ensures
        r@ == line@ + seq!['\n'],
{
    let mut framed = line.to_owned();
    framed.append("\n");
    proof {
        reveal_strlit("\n");
    }
    framed
}

/// How a child process ended: its exit code, or `None` when a signal
/// terminated it.
#[derive(Clone, Copy, PartialEq, Eq, Structural, Debug)]
pub struct ExitStatus {
    pub code: Option<i32>,
}

impl ExitStatus {
    pub fn success(&self) -> (r: bool)
        ensures
            r == (self.code == Some(0i32)),
    {
        match self.code {
            Some(c) => c == 0,
            None => false,
        }
    }
}

/// Where the exit guard stands.
#[derive(Clone, Copy, PartialEq, Eq, Structural, Debug)]
pub enum GuardPhase {
    /// Waiting for the child to exit on its own.
    Watching,
    /// A stop was requested; the child has until `deadline` (ms) to exit.
    Graceful { deadline: u64 },
    /// The child has exited or was killed; its status is to be collected.
    Reaping,
}

/// What the exit guard learns.
#[derive(Clone, Copy, PartialEq, Eq, Structural, Debug)]
pub enum GuardEvent {
    /// The caller asked for a stop at time `now`, allowing `timeout` ms.
    StopRequested { now: u64, timeout: u64 },
    /// A poll of the child at time `now`; `exited` tells whether it has exited.
    Poll { now: u64, exited: bool },
}

/// What the exit guard asks its driver to do next.
#[derive(Clone, Copy, PartialEq, Eq, Structural, Debug)]
pub enum GuardAction {
    /// Sleep for one poll interval, then poll again.
    Sleep,
    /// Send the stop command to the child's stdin, then keep polling.
    SendStop,
    /// Kill the child, then collect its exit status.
    Kill,
    /// Collect the exit status of the child, which has exited.
    Reap,
    /// Nothing to do for this event.
    Ignore,
}

/// `a + b`, capped at the largest `u64`.
pub open spec fn saturating_add(a: u64, b: u64) -> u64 {
    if a + b > u64::MAX {
        u64::MAX
    } else {
        (a + b) as u64
    }
}

/// The exit guard's transition: the next phase and the action to perform.
pub open spec fn guard_next(phase: GuardPhase, event: GuardEvent) -> (GuardPhase, GuardAction) {
    match (phase, event) {
        (GuardPhase::Watching, GuardEvent::StopRequested { now, timeout }) => (
            GuardPhase::Graceful { deadline: saturating_add(now, timeout) },
            GuardAction::SendStop,
        ),
        (GuardPhase::Watching, GuardEvent::Poll { now, exited }) => if exited {
            (GuardPhase::Reaping, GuardAction::Reap)
        } else {
            (GuardPhase::Watching, GuardAction::Sleep)
        },
        (GuardPhase::Graceful { deadline }, GuardEvent::Poll { now, exited }) => if exited {
            (GuardPhase::Reaping, GuardAction::Reap)
        } else if now >= deadline {
            (GuardPhase::Reaping, GuardAction::Kill)
        } else {
            (phase, GuardAction::Sleep)
        },
        (GuardPhase::Reaping, GuardEvent::Poll { now, exited }) => (
            GuardPhase::Reaping,
            GuardAction::Reap,
        ),
        (_, GuardEvent::StopRequested { now, timeout }) => (phase, GuardAction::Ignore),
    }
}

fn saturating_add_u64(a: u64, b: u64) -> (r: u64)
    ensures
        r == saturating_add(a, b),
{
    if a > u64::MAX - b {
        u64::MAX
    } else {
        a + b
    }
}

/// Computes the exit guard's transition.
pub fn guard_step(phase: GuardPhase, event: GuardEvent) -> (r: (GuardPhase, GuardAction))
    ensures
        r == guard_next(phase, event),
{
    match (phase, event) {
        (GuardPhase::Watching, GuardEvent::StopRequested { now, timeout }) => (
            GuardPhase::Graceful { deadline: saturating_add_u64(now, timeout) },
            GuardAction::SendStop,
        ),
        (GuardPhase::Watching, GuardEvent::Poll { now: _, exited }) => {
            if exited {
                (GuardPhase::Reaping, GuardAction::Reap)
            } else {
                (GuardPhase::Watching, GuardAction::Sleep)
            }
        },
        (GuardPhase::Graceful { deadline }, GuardEvent::Poll { now, exited }) => {
            if exited {
                (GuardPhase::Reaping, GuardAction::Reap)
            } else if now >= deadline {
                (GuardPhase::Reaping, GuardAction::Kill)
            } else {
                (phase, GuardAction::Sleep)
            }
        },
        (GuardPhase::Reaping, GuardEvent::Poll { .. }) => (GuardPhase::Reaping, GuardAction::Reap),
        (_, GuardEvent::StopRequested { .. }) => (phase, GuardAction::Ignore),
    }
}

/// Why a request to a runner was refused.
#[derive(Clone, Copy, PartialEq, Eq, Structural, Debug)]
pub enum RunnerError {
    /// The stop signal was already sent; it may be sent only once.
    StopAlreadyRequested,
    /// The exit guard has already finished, so nobody receives the stop signal.
    StopSignalDropped,
}

impl RunnerError {
    pub fn message(&self) -> (r: String)
        ensures
            *self == RunnerError::StopAlreadyRequested ==> r@
                == "The stop signal is not allowed to be sent repeatedly."@,
            *self == RunnerError::StopSignalDropped ==> r@ == "Failed to send stop signal"@,
    {
        match self {
            RunnerError::StopAlreadyRequested => String::from_str(
                "The stop signal is not allowed to be sent repeatedly.",
            ),
            RunnerError::StopSignalDropped => String::from_str("Failed to send stop signal"),
        }
    }
}

/// The state of a runner as the contracts see it.
pub struct RunnerState {
    pub id: usize,
    pub stop_taken: bool,
    pub phase: GuardPhase,
    pub exit: Option<ExitStatus>,
}

/// The state after a stop request, and the request's result.
pub open spec fn stop_next(s: RunnerState, now: u64, timeout: u64) -> (
    RunnerState,
    Result<GuardAction, RunnerError>,
) {
    if s.stop_taken {
        (s, Err(RunnerError::StopAlreadyRequested))
    } else if s.phase == GuardPhase::Reaping {
        (RunnerState { stop_taken: true, ..s }, Err(RunnerError::StopSignalDropped))
    } else {
        let (p, a) = guard_next(s.phase, GuardEvent::StopRequested { now, timeout });
        (RunnerState { stop_taken: true, phase: p, ..s }, Ok(a))
    }
}

/// The state after the child's exit status was collected.
pub open spec fn exit_next(s: RunnerState, status: ExitStatus) -> RunnerState {
    if s.phase == GuardPhase::Reaping && s.exit.is_none() {
        RunnerState { exit: Some(status), ..s }
    } else {
        s
    }
}

/// The control state of one supervised child process: its id, the stop
/// signal that may be sent once, the exit guard, and a write-once cell for
/// the exit status that any number of waiters may read.
pub struct Runner {
    id: usize,
    stop_taken: bool,
    phase: GuardPhase,
    exit: Option<ExitStatus>,
}

impl View for Runner {
    type V = RunnerState;

    closed spec fn view(&self) -> RunnerState {
        RunnerState { id: self.id, stop_taken: self.stop_taken, phase: self.phase, exit: self.exit }
    }
}

impl Runner {
    /// A runner for a freshly spawned child.
    pub fn new(id: usize) -> (r: Self)
        ensures
            r@ == (RunnerState {
                id,
                stop_taken: false,
                phase: GuardPhase::Watching,
                exit: None,
            }),
    {
        Runner { id, stop_taken: false, phase: GuardPhase::Watching, exit: None }
    }

    /// Requests a graceful stop with `timeout` ms of grace, at time `now`.
    /// Succeeds once; every later request is refused and changes nothing.
    pub fn kill_with_timeout(&mut self, now: u64, timeout: u64) -> (r: Result<GuardAction, RunnerError>)
        ensures
            (final(self)@, r) == stop_next(old(self)@, now, timeout),
    {
        if self.stop_taken {
            return Err(RunnerError::StopAlreadyRequested);
        }
        self.stop_taken = true;
        if self.phase == GuardPhase::Reaping {
            return Err(RunnerError::StopSignalDropped);
        }
        let (p, a) = guard_step(self.phase, GuardEvent::StopRequested { now, timeout });
        self.phase = p;
        Ok(a)
    }

    /// Feeds one poll of the child to the exit guard.
    pub fn poll(&mut self, now: u64, exited: bool) -> (r: GuardAction)
        ensures
            (final(self)@.phase, r) == guard_next(old(self)@.phase, GuardEvent::Poll { now, exited }),
            final(self)@ == (RunnerState { phase: final(self)@.phase, ..old(self)@ }),
    {
        let (p, a) = guard_step(self.phase, GuardEvent::Poll { now, exited });
        self.phase = p;
        a
    }

    /// Records the collected exit status. Only the first status recorded
    /// after the guard started reaping is kept; the result tells whether this
    /// call was that one.
    pub fn record_exit(&mut self, status: ExitStatus) -> (r: bool)
        ensures
            final(self)@ == exit_next(old(self)@, status),
            r == (old(self)@.phase == GuardPhase::Reaping && old(self)@.exit.is_none()),
    {
        if self.phase == GuardPhase::Reaping && self.exit.is_none() {
            self.exit = Some(status);
            true
        } else {
            false
        }
    }

    pub fn id(&self) -> (r: usize)
        ensures
            r == self@.id,
    {
        self.id
    }

    /// The exit status, once it is known.
    pub fn wait(&self) -> (r: Option<ExitStatus>)
        ensures
            r == self@.exit,
    {
        self.exit
    }

    pub fn phase(&self) -> (r: GuardPhase)
        ensures
            r == self@.phase,
    {
        self.phase
    }
}

/// Hands out runner ids from a counter: each id is fresh and none is reused.
pub struct RunnerIds {
    next: usize,
}

impl RunnerIds {
    pub closed spec fn spec_next(&self) -> nat {
        self.next as nat
    }

    pub fn new() -> (r: Self)
        ensures
            r.spec_next() == 1,
    {
        RunnerIds { next: 1 }
    }

    /// The next id; `None` once the counter is exhausted.
    pub fn allocate(&mut self) -> (r: Option<usize>)
        ensures
            old(self).spec_next() < usize::MAX ==> r == Some(old(self).spec_next() as usize)
                && final(self).spec_next() == old(self).spec_next() + 1,
            old(self).spec_next() >= usize::MAX ==> r.is_none() && final(self).spec_next()
                == old(self).spec_next(),
    {
        if self.next == usize::MAX {
            None
        } else {
            let id = self.next;
            self.next = self.next + 1;
            Some(id)
        }
    }
}

/// A live runner accepts the first stop request and refuses the second with
/// an explicit error that changes nothing; the exit status is then recorded
/// once, and every later read sees that same status.
pub proof fn lemma_stop_once(
    s: RunnerState,
    now1: u64,
    timeout1: u64,
    now2: u64,
    timeout2: u64,
    status: ExitStatus,
    other: ExitStatus,
)
    requires
        !s.stop_taken,
        s.phase == GuardPhase::Watching,
        s.exit.is_none(),
    ensures
        stop_next(s, now1, timeout1).1 == Ok::<GuardAction, RunnerError>(GuardAction::SendStop),
        stop_next(stop_next(s, now1, timeout1).0, now2, timeout2).1 == Err::<GuardAction, RunnerError>(
            RunnerError::StopAlreadyRequested,
        ),
        stop_next(stop_next(s, now1, timeout1).0, now2, timeout2).0 == stop_next(s, now1, timeout1).0,
        ({
            let reaping = RunnerState { phase: GuardPhase::Reaping, ..stop_next(s, now1, timeout1).0 };
            &&& exit_next(reaping, status).exit == Some(status)
            &&& exit_next(exit_next(reaping, status), other).exit == Some(status)
        }),
{
}

/// The exit guard's phase and actions over a run of polls of a child that
/// has not exited, at times `times`.
pub open spec fn polls_while_running(phase: GuardPhase, times: Seq<u64>) -> (GuardPhase, Seq<GuardAction>)
    decreases times.len(),
{
    if times.len() == 0 {
        (phase, Seq::<GuardAction>::empty())
    } else {
        let (p, actions) = polls_while_running(phase, times.drop_last());
        let (q, a) = guard_next(p, GuardEvent::Poll { now: times.last(), exited: false });
        (q, actions.push(a))
    }
}

/// A child that ignores the stop command is given its whole grace period:
/// every poll before the deadline (the request's time plus the timeout,
/// capped at the largest time) only sleeps, and the guard keeps its
/// deadline, so no kill and no exit status can come; the first poll from
/// the deadline on kills it.
pub proof fn lemma_graceful_then_forceful(requested_at: u64, timeout: u64, times: Seq<u64>)
    ensures
        ({
            let graceful = guard_next(
                GuardPhase::Watching,
                GuardEvent::StopRequested { now: requested_at, timeout },
            ).0;
            let deadline = saturating_add(requested_at, timeout);
            &&& graceful == GuardPhase::Graceful { deadline }
            &&& (forall|i: int| 0 <= i < times.len() ==> #[trigger] times[i] < deadline)
                ==> polls_while_running(graceful, times) == (
                graceful,
                Seq::new(times.len(), |i: int| GuardAction::Sleep),
            )
            &&& (times.len() > 0 && times.last() >= deadline && forall|i: int|
                0 <= i < times.len() - 1 ==> #[trigger] times[i] < deadline) ==> polls_while_running(
                graceful,
                times,
            ) == (
                GuardPhase::Reaping,
                Seq::new((times.len() - 1) as nat, |i: int| GuardAction::Sleep).push(GuardAction::Kill),
            )
        }),
{
    let deadline = saturating_add(requested_at, timeout);
    let graceful = GuardPhase::Graceful { deadline };
    if forall|i: int| 0 <= i < times.len() ==> #[trigger] times[i] < deadline {
        lemma_sleeps_before_deadline(deadline, times);
    }
    if times.len() > 0 && times.last() >= deadline && forall|i: int|
        0 <= i < times.len() - 1 ==> #[trigger] times[i] < deadline {
        let before = times.drop_last();
        assert forall|i: int| 0 <= i < before.len() implies #[trigger] before[i] < deadline by {
            assert(before[i] == times[i]);
        }
        lemma_sleeps_before_deadline(deadline, before);
        assert(Seq::new(before.len(), |i: int| GuardAction::Sleep).push(GuardAction::Kill) =~= Seq::new(
            (times.len() - 1) as nat,
            |i: int| GuardAction::Sleep,
        ).push(GuardAction::Kill));
    }
}

proof fn lemma_sleeps_before_deadline(deadline: u64, times: Seq<u64>)
    requires
        forall|i: int| 0 <= i < times.len() ==> #[trigger] times[i] < deadline,
    ensures
        polls_while_running(GuardPhase::Graceful { deadline }, times) == (
            GuardPhase::Graceful { deadline },
            Seq::new(times.len(), |i: int| GuardAction::Sleep),
        ),
    decreases times.len(),
{
    if times.len() > 0 {
        let before = times.drop_last();
        assert forall|i: int| 0 <= i < before.len() implies #[trigger] before[i] < deadline by {
            assert(before[i] == times[i]);
        }
        lemma_sleeps_before_deadline(deadline, before);
        assert(times.last() == times[times.len() - 1]);
        assert(Seq::new(before.len(), |i: int| GuardAction::Sleep).push(GuardAction::Sleep) =~= Seq::new(
            times.len(),
            |i: int| GuardAction::Sleep,
        ));
    } else {
        assert(Seq::new(times.len(), |i: int| GuardAction::Sleep) =~= Seq::<GuardAction>::empty());
    }
}

/// The exit status of a runner can only be recorded once its guard reaps.
pub proof fn lemma_exit_only_when_reaping(s: RunnerState, status: ExitStatus)
    requires
        s.phase != GuardPhase::Reaping,
    ensures
        exit_next(s, status) == s,
{
}

} // verus!
