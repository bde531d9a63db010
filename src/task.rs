use vstd::prelude::*;

verus! {

/// How a supervised task ended.
#[derive(Clone, Copy, PartialEq, Eq, Structural, Debug)]
pub enum TaskOutcome {
    Succeeded,
    Failed,
    Panicked,
}

/// Why a task could not be submitted.
#[derive(Clone, Copy, PartialEq, Eq, Structural, Debug)]
pub enum SpawnError {
    /// The manager is shutting down and takes no new work.
    ShuttingDown,
    /// Every task id has been handed out.
    IdsExhausted,
}

/// What the coordinator loop learns on one turn.
#[derive(Clone, Copy, PartialEq, Eq, Structural, Debug)]
pub enum CoordinatorEvent {
    /// The shared cancellation signal fired.
    Cancelled,
    /// A submitted task is waiting to be started.
    Submitted,
    /// The running task `id` finished with `outcome`.
    Completed { id: u64, outcome: TaskOutcome },
}

/// What the coordinator does on that turn.
#[derive(Clone, Copy, PartialEq, Eq, Structural, Debug)]
pub enum CoordinatorAction {
    /// Leave the loop; the remaining tasks are drained by `shutdown`.
    Exit,
    /// Start task `id` and track it.
    Start { id: u64 },
    /// Log that task `id` ended with `outcome`; nothing else is affected.
    Report { id: u64, outcome: TaskOutcome },
    /// Nothing to do.
    Idle,
}

/// What a supervised loop does on one turn.
#[derive(Clone, Copy, PartialEq, Eq, Structural, Debug)]
pub enum LoopStep {
    /// Cancellation was observed: leave the loop.
    Exit,
    /// Handle the item of work that is ready.
    Work,
    /// Nothing is ready: suspend until something is.
    Wait,
}

/// One turn of a supervised loop: cancellation wins over any ready work.
pub open spec fn loop_next(cancelled: bool, work_ready: bool) -> LoopStep {
    if cancelled {
        LoopStep::Exit
    } else if work_ready {
        LoopStep::Work
    } else {
        LoopStep::Wait
    }
}

/// Decides one turn of a supervised loop.
pub fn loop_step(cancelled: bool, work_ready: bool) -> (r: LoopStep)
    ensures
        r == loop_next(cancelled, work_ready),
{
    if cancelled {
        LoopStep::Exit
    } else if work_ready {
        LoopStep::Work
    } else {
        LoopStep::Wait
    }
}

/// Whether the coordinator leaves its loop on `event`.
pub open spec fn coordinator_exits(s: TaskManagerState, event: CoordinatorEvent) -> bool {
    s.cancelled || event == CoordinatorEvent::Cancelled
}

/// The state after a submission, and its result.
pub open spec fn spawn_next(s: TaskManagerState) -> (TaskManagerState, Result<u64, SpawnError>) {
    if s.cancelled {
        (s, Err(SpawnError::ShuttingDown))
    } else if s.next_id >= u64::MAX {
        (s, Err(SpawnError::IdsExhausted))
    } else {
        (
            TaskManagerState {
                next_id: s.next_id + 1,
                pending: s.pending.push(s.next_id as u64),
                ..s
            },
            Ok(s.next_id as u64),
        )
    }
}

/// The state after shutdown, and the tasks handed back to be drained.
pub open spec fn shutdown_next(s: TaskManagerState) -> (TaskManagerState, Seq<u64>) {
    (
        TaskManagerState {
            cancelled: true,
            next_id: s.next_id,
            pending: Seq::<u64>::empty(),
            running: Seq::<u64>::empty(),
        },
        s.pending + s.running,
    )
}

/// The supervisor's state as the contracts see it.
pub struct TaskManagerState {
    pub cancelled: bool,
    pub next_id: nat,
    /// Submitted tasks not yet started, oldest first.
    pub pending: Seq<u64>,
    /// Started tasks that have not been reported finished.
    pub running: Seq<u64>,
}

/// The supervisor of all asynchronous work: it hands out task ids, queues
/// submissions, tracks running tasks, isolates their failures, and on
/// shutdown cancels every loop and drains what is left.
pub struct TaskManager {
    cancelled: bool,
    next_id: u64,
    pending: Vec<u64>,
    running: Vec<u64>,
}

impl View for TaskManager {
    type V = TaskManagerState;

    closed spec fn view(&self) -> TaskManagerState {
        TaskManagerState {
            cancelled: self.cancelled,
            next_id: self.next_id as nat,
            pending: self.pending@,
            running: self.running@,
        }
    }
}

impl TaskManager {
    /// Every queued or running id was handed out before and appears once.
    pub open spec fn wf(&self) -> bool {
        let s = self@;
        &&& forall|i: int| 0 <= i < s.pending.len() ==> s.pending[i] < s.next_id
        &&& forall|i: int| 0 <= i < s.running.len() ==> s.running[i] < s.next_id
        &&& (s.pending + s.running).no_duplicates()
    }

    pub fn new() -> (r: Self)
        ensures
            r.wf(),
            r@.cancelled == false,
            r@.next_id == 0,
            r@.pending == Seq::<u64>::empty(),
            r@.running == Seq::<u64>::empty(),
    {
        let r = TaskManager { cancelled: false, next_id: 0, pending: Vec::new(), running: Vec::new() };
        assert(r.pending@ + r.running@ =~= Seq::<u64>::empty());
        r
    }

    pub fn is_cancelled(&self) -> (r: bool)
        ensures
            r == self@.cancelled,
    {
        self.cancelled
    }

    /// Submits a task: it gets a fresh id and waits for the coordinator.
    /// Refused once shutdown has begun.
    pub fn spawn(&mut self) -> (r: Result<u64, SpawnError>)
        requires
            old(self).wf(),
        ensures
            final(self).wf(),
            (final(self)@, r) == spawn_next(old(self)@),
    {
        if self.cancelled {
            return Err(SpawnError::ShuttingDown);
        }
        if self.next_id == u64::MAX {
            return Err(SpawnError::IdsExhausted);
        }
        let id = self.next_id;
        let ghost old_all = self.pending@ + self.running@;
        self.pending.push(id);
        self.next_id = id + 1;
        assert(self.pending@ + self.running@ =~= old_all.insert(old(self).pending@.len() as int, id));
        assert forall|i: int, j: int|
            0 <= i < j < (self.pending@ + self.running@).len() implies (self.pending@
                + self.running@)[i] != (self.pending@ + self.running@)[j] by {
            let all = self.pending@ + self.running@;
            let k = old(self).pending@.len() as int;
            if i != k && j != k {
                let i0 = if i < k { i } else { i - 1 };
                let j0 = if j < k { j } else { j - 1 };
                assert(all[i] == old_all[i0]);
                assert(all[j] == old_all[j0]);
            } else if i == k {
                let j0 = j - 1;
                assert(all[j] == old_all[j0]);
                assert(old_all[j0] < id);
            } else {
                assert(all[i] == old_all[i]);
                assert(old_all[i] < id);
            }
        }
        Ok(id)
    }

    /// One turn of the coordinator loop. Cancellation ends the loop. A
    /// submission moves the oldest pending task into the running set. A
    /// completion is reported and the task forgotten: a failure or panic of
    /// one task never cancels the manager or any other task.
    pub fn coordinate(&mut self, event: CoordinatorEvent) -> (r: CoordinatorAction)
        requires
            old(self).wf(),
        ensures
            final(self).wf(),
            final(self)@.cancelled == old(self)@.cancelled,
            final(self)@.next_id == old(self)@.next_id,
            coordinator_exits(old(self)@, event) ==> r == CoordinatorAction::Exit && final(self)@
                == old(self)@,
            !old(self)@.cancelled && event == CoordinatorEvent::Submitted ==> {
                if old(self)@.pending.len() == 0 {
                    r == CoordinatorAction::Idle && final(self)@ == old(self)@
                } else {
                    &&& r == CoordinatorAction::Start { id: old(self)@.pending[0] }
                    &&& final(self)@.pending == old(self)@.pending.drop_first()
                    &&& final(self)@.running == old(self)@.running.push(old(self)@.pending[0])
                }
            },
            !old(self)@.cancelled ==> match event {
                CoordinatorEvent::Completed { id, outcome } => {
                    &&& r == CoordinatorAction::Report { id, outcome }
                    &&& final(self)@.pending == old(self)@.pending
                    &&& forall|x: u64|
                        final(self)@.running.contains(x) <==> (old(self)@.running.contains(x) && x
                            != id)
                },
                _ => true,
            },
    {
        if self.cancelled {
            return CoordinatorAction::Exit;
        }
        match event {
            CoordinatorEvent::Cancelled => CoordinatorAction::Exit,
            CoordinatorEvent::Submitted => {
                if self.pending.len() == 0 {
                    CoordinatorAction::Idle
                } else {
                    let ghost old_all = self.pending@ + self.running@;
                    let id = self.pending.remove(0);
                    self.running.push(id);
                    assert(self.pending@ =~= old(self).pending@.drop_first());
                    proof {
                        let all = self.pending@ + self.running@;
                        let np = self.pending@.len() as int;
                        let nt = old(self).running@.len() as int;
                        assert forall|i: int| 0 <= i < all.len() implies all[i] == old_all[
                            if i < np { i + 1 } else if i < np + nt { i + 1 } else { 0 }
                        ] by {}
                        assert forall|i: int, j: int| 0 <= i < j < all.len() implies all[i]
                            != all[j] by {
                            let mi = if i < np + nt { i + 1 } else { 0 };
                            let mj = if j < np + nt { j + 1 } else { 0 };
                            assert(all[i] == old_all[mi]);
                            assert(all[j] == old_all[mj]);
                        }
                    }
                    CoordinatorAction::Start { id }
                }
            },
            CoordinatorEvent::Completed { id, outcome } => {
                self.forget(id);
                CoordinatorAction::Report { id, outcome }
            },
        }
    }

    /// Removes `id` from the running tasks.
    fn forget(&mut self, id: u64)
        requires
            old(self).wf(),
        ensures
            final(self).wf(),
            final(self)@.cancelled == old(self)@.cancelled,
            final(self)@.next_id == old(self)@.next_id,
            final(self)@.pending == old(self)@.pending,
            forall|x: u64|
                final(self)@.running.contains(x) <==> (old(self)@.running.contains(x) && x != id),
    {
        let ghost before = self.running@;
        match position_of(&self.running, id) {
            None => {},
            Some(i) => {
                proof {
                    lemma_remove_unique(self.pending@, before, i as int);
                }
                self.running.remove(i);
                assert(self.running@ == before.remove(i as int));
            },
        }
        assert forall|x: u64|
            #[trigger] self.running@.contains(x) <==> (before.contains(x) && x != id) by {}
    }

    /// Fires the shared cancellation signal and hands back every task still
    /// queued or running, to be awaited or aborted; afterwards nothing is
    /// left and no task is accepted.
    pub fn shutdown(&mut self) -> (r: Vec<u64>)
        requires
            old(self).wf(),
        ensures
            final(self).wf(),
            (final(self)@, r@) == shutdown_next(old(self)@),
    {
        self.cancelled = true;
        let mut drained: Vec<u64> = Vec::new();
        std::mem::swap(&mut drained, &mut self.pending);
        let mut running: Vec<u64> = Vec::new();
        std::mem::swap(&mut running, &mut self.running);
        drained.append(&mut running);
        assert(self.pending@ + self.running@ =~= Seq::<u64>::empty());
        drained
    }
}

/// Removing one item from the second part of a duplicate-free pair of
/// sequences keeps it duplicate-free and removes exactly that value.
proof fn lemma_remove_unique(p: Seq<u64>, r: Seq<u64>, i: int)
    requires
        (p + r).no_duplicates(),
        0 <= i < r.len(),
    ensures
        (p + r.remove(i)).no_duplicates(),
        forall|x: u64| r.remove(i).contains(x) <==> (r.contains(x) && x != r[i]),
{
    let old_all = p + r;
    let all = p + r.remove(i);
    let np = p.len() as int;
    assert forall|k: int| 0 <= k < all.len() implies all[k] == old_all[
        if k < np + i { k } else { k + 1 }
    ] by {}
    assert forall|a: int, b: int| 0 <= a < b < all.len() implies all[a] != all[b] by {
        let ma = if a < np + i { a } else { a + 1 };
        let mb = if b < np + i { b } else { b + 1 };
        assert(all[a] == old_all[ma]);
        assert(all[b] == old_all[mb]);
    }
    assert forall|x: u64| r.remove(i).contains(x) <==> (r.contains(x) && x != r[i]) by {
        let after = r.remove(i);
        if after.contains(x) {
            let k = choose|k: int| 0 <= k < after.len() && after[k] == x;
            let mk = if k < i { k } else { k + 1 };
            assert(r[mk] == x);
            assert(old_all[np + mk] == x);
            assert(old_all[np + i] == r[i]);
        }
        if r.contains(x) && x != r[i] {
            let k = choose|k: int| 0 <= k < r.len() && r[k] == x;
            let nk = if k < i { k } else { k - 1 };
            assert(after[nk] == x);
        }
    }
}

/// The first position of `id` in `v`, if any.
fn position_of(v: &Vec<u64>, id: u64) -> (r: Option<usize>)
    ensures
        match r {
            Some(i) => i < v@.len() && v@[i as int] == id,
            None => !v@.contains(id),
        },
{
    let mut i: usize = 0;
    while i < v.len()
        invariant
            0 <= i <= v@.len(),
            forall|k: int| 0 <= k < i ==> v@[k] != id,
        decreases v@.len() - i,
    {
        if v[i] == id {
            return Some(i);
        }
        i = i + 1;
    }
    None
}

/// After shutdown every supervised loop leaves on its next turn whatever
/// work is ready, the coordinator leaves on any event, no task is left
/// queued or running, every task that was is handed back to be drained,
/// and no new task is accepted.
pub proof fn lemma_shutdown_stops_everything(
    before: TaskManagerState,
    work_ready: bool,
    event: CoordinatorEvent,
)
    ensures
        ({
            let (after, drained) = shutdown_next(before);
            &&& loop_next(after.cancelled, work_ready) == LoopStep::Exit
            &&& coordinator_exits(after, event)
            &&& spawn_next(after) == (after, Err::<u64, SpawnError>(SpawnError::ShuttingDown))
            &&& after.pending.len() == 0
            &&& after.running.len() == 0
            &&& forall|id: u64|
                (before.pending.contains(id) || before.running.contains(id)) ==> #[trigger] drained.contains(id)
        }),
{
    let drained = before.pending + before.running;
    assert forall|id: u64|
        (before.pending.contains(id) || before.running.contains(id)) implies #[trigger] drained.contains(id) by {
        if before.pending.contains(id) {
            let k = choose|k: int| 0 <= k < before.pending.len() && before.pending[k] == id;
            assert(drained[k] == id);
        } else {
            let k = choose|k: int| 0 <= k < before.running.len() && before.running[k] == id;
            assert(drained[before.pending.len() + k] == id);
        }
    }
}

} // verus!
