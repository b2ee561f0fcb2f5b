//! The pool of workers and the race for the first exit.
//!
//! A pool has a fixed number of workers, numbered from zero. A driver starts
//! the processes, waits for them and kills them; it tells the pool what it
//! saw, one event at a time, and the pool answers with the workers to kill.
//! The first worker seen to end, or to fail, decides the outcome of the pool,
//! and nothing that is seen later changes it.

use vstd::prelude::*;
use crate::process::ProcessSpec;

verus! {

/// Where a worker stands.
#[derive(Clone, Copy, Debug, PartialEq, Eq, Structural)]
pub enum WorkerState {
    /// No process has been started for it yet.
    Pending,
    /// Its process runs, as far as the pool knows.
    Running,
    /// Its process has ended, could not be started, or was sent the request
    /// to terminate. A worker never leaves this state.
    Exited,
}

/// How the worker that decided the pool came to its end.
#[derive(Clone, Copy, Debug, PartialEq, Eq)]
pub enum Finish {
    /// The process ended; with its exit code, where it had one.
    Exited(Option<i32>),
    /// The process could not be started.
    SpawnFailed,
    /// Waiting for the process failed.
    WaitFailed,
}

/// The outcome of a pool: the worker that was first, and how it ended.
#[derive(Clone, Copy, Debug, PartialEq, Eq)]
pub struct ExitOutcome {
    pub id: usize,
    pub finish: Finish,
}

/// What a driver can see happen to a worker.
#[derive(Clone, Copy, Debug, PartialEq, Eq)]
pub enum Event {
    /// The process of this worker was started.
    Spawned(usize),
    /// The process of this worker could not be started.
    SpawnFailed(usize),
    /// The process of this worker ended; with its exit code, where it had
    /// one.
    Exited(usize, Option<i32>),
    /// Waiting for the process of this worker failed.
    WaitFailed(usize),
}

impl Event {
    /// The worker that the event is about.
    pub open spec fn id(self) -> usize {
        match self {
            Event::Spawned(id) => id,
            Event::SpawnFailed(id) => id,
            Event::Exited(id, _) => id,
            Event::WaitFailed(id) => id,
        }
    }

    /// How the worker ended, where the event is an end.
    pub open spec fn finish(self) -> Option<Finish> {
        match self {
            Event::Spawned(_) => None,
            Event::SpawnFailed(_) => Some(Finish::SpawnFailed),
            Event::Exited(_, code) => Some(Finish::Exited(code)),
            Event::WaitFailed(_) => Some(Finish::WaitFailed),
        }
    }
}

/// The running workers among the first `upto`, but for worker `skip`, in
/// rising order.
pub open spec fn running_except(workers: Seq<WorkerState>, skip: int, upto: nat) -> Seq<usize>
    decreases upto,
{
    if upto == 0 {
        Seq::empty()
    } else {
        let before = running_except(workers, skip, (upto - 1) as nat);
        if upto - 1 != skip && workers[upto - 1] == WorkerState::Running {
            before.push((upto - 1) as usize)
        } else {
            before
        }
    }
}

/// A pool as the contracts see it: the state of each worker, by its number,
/// and the outcome once there is one.
pub struct PoolState {
    pub workers: Seq<WorkerState>,
    pub outcome: Option<ExitOutcome>,
}

impl PoolState {
    /// A pool of `jobs` workers, none of them started.
    pub open spec fn fresh(jobs: nat) -> PoolState {
        PoolState { workers: Seq::new(jobs, |i: int| WorkerState::Pending), outcome: None }
    }

    /// Whether worker `id` is in state `state`.
    pub open spec fn is_in(self, id: int, state: WorkerState) -> bool {
        0 <= id < self.workers.len() && self.workers[id] == state
    }

    /// Whether no worker runs.
    pub open spec fn none_running(self) -> bool {
        forall|i: int| 0 <= i < self.workers.len() ==> self.workers[i] != WorkerState::Running
    }

    /// Once a pool has its outcome, none of its workers runs.
    pub open spec fn wf(self) -> bool {
        self.outcome is Some ==> self.none_running()
    }

    /// Whether the event can happen in this state: a worker is started, or
    /// fails to start, while it is pending, and ends while it runs.
    pub open spec fn accepts(self, event: Event) -> bool {
        match event {
            Event::Spawned(id) => self.is_in(id as int, WorkerState::Pending),
            Event::SpawnFailed(id) => self.is_in(id as int, WorkerState::Pending),
            Event::Exited(id, _) => self.is_in(id as int, WorkerState::Running),
            Event::WaitFailed(id) => self.is_in(id as int, WorkerState::Running),
        }
    }

    /// The state after worker `id` came to its end in the way `finish`: it
    /// and every running worker have exited, and it decides the outcome
    /// unless there is one already.
    pub open spec fn settle(self, id: usize, finish: Finish) -> PoolState {
        PoolState {
            workers: Seq::new(
                self.workers.len(),
                |i: int|
                    if i == id || self.workers[i] == WorkerState::Running {
                        WorkerState::Exited
                    } else {
                        self.workers[i]
                    },
            ),
            outcome: if self.outcome is Some {
                self.outcome
            } else {
                Some(ExitOutcome { id, finish })
            },
        }
    }

    /// The state after an event. An event that cannot happen changes
    /// nothing. A worker that is started joins the running ones while the
    /// pool is undecided, and has exited at once where it is decided.
    pub open spec fn step(self, event: Event) -> PoolState {
        if !self.accepts(event) {
            self
        } else {
            match event {
                Event::Spawned(id) => PoolState {
                    workers: self.workers.update(
                        id as int,
                        if self.outcome is Some {
                            WorkerState::Exited
                        } else {
                            WorkerState::Running
                        },
                    ),
                    outcome: self.outcome,
                },
                Event::SpawnFailed(id) => self.settle(id, Finish::SpawnFailed),
                Event::Exited(id, code) => self.settle(id, Finish::Exited(code)),
                Event::WaitFailed(id) => self.settle(id, Finish::WaitFailed),
            }
        }
    }

    /// The workers that the driver has to kill after an event, in rising
    /// order: a worker that was started into a decided pool, and the running
    /// workers other than the one that ended.
    pub open spec fn kills(self, event: Event) -> Seq<usize> {
        if !self.accepts(event) {
            Seq::empty()
        } else {
            match event {
                Event::Spawned(id) => if self.outcome is Some {
                    seq![id]
                } else {
                    Seq::empty()
                },
                _ => running_except(self.workers, event.id() as int, self.workers.len()),
            }
        }
    }

    /// The state after the request to terminate worker `id`: a running
    /// worker has exited, and nothing else changes.
    pub open spec fn terminate(self, id: usize) -> PoolState {
        if self.is_in(id as int, WorkerState::Running) {
            PoolState { workers: self.workers.update(id as int, WorkerState::Exited), ..self }
        } else {
            self
        }
    }

    /// Whether worker `i` is pending and no worker with a lower number is.
    pub open spec fn is_first_pending(self, i: int) -> bool {
        &&& self.is_in(i, WorkerState::Pending)
        &&& forall|j: int| 0 <= j < i ==> !self.is_in(j, WorkerState::Pending)
    }

    /// The worker to start next: the pending worker with the lowest number,
    /// while the pool is undecided.
    pub open spec fn next_spawn(self) -> Option<usize> {
        if self.outcome is None && exists|i: int| self.is_first_pending(i) {
            Some((choose|i: int| self.is_first_pending(i)) as usize)
        } else {
            None
        }
    }

    /// The state after a run of events.
    pub open spec fn run(self, events: Seq<Event>) -> PoolState
        decreases events.len(),
    {
        if events.len() == 0 {
            self
        } else {
            self.run(events.drop_last()).step(events.last())
        }
    }
}

/// The worker that stands at `position` in a row of `jobs` workers from
/// which `winner` was taken out.
pub open spec fn spec_remaining_id(jobs: nat, winner: usize, position: usize) -> Option<usize> {
    let id = if position < winner {
        position as int
    } else {
        position + 1
    };
    if id < jobs {
        Some(id as usize)
    } else {
        None
    }
}

/// Why no pool can be made.
#[derive(Clone, Copy, Debug, PartialEq, Eq, Structural)]
pub enum PoolError {
    /// A pool needs at least one worker.
    NoWorkers,
}

/// The pool that a driver holds.
pub struct Pool {
    spec: ProcessSpec,
    workers: Vec<WorkerState>,
    outcome: Option<ExitOutcome>,
}

impl View for Pool {
    type V = PoolState;

    closed spec fn view(&self) -> PoolState {
        PoolState { workers: self.workers@, outcome: self.outcome }
    }
}

impl Pool {
    /// The description that every worker of this pool is started from.
    pub closed spec fn template(&self) -> ProcessSpec {
        self.spec
    }

    /// A pool of `jobs` workers, none of them started. A pool without
    /// workers is refused.
    pub fn new(spec: ProcessSpec, jobs: u16) -> (r: Result<Pool, PoolError>)
        ensures
            jobs == 0 ==> r == Err::<Pool, PoolError>(PoolError::NoWorkers),
            jobs > 0 ==> r is Ok && r->Ok_0@ == PoolState::fresh(jobs as nat) && r->Ok_0.template()
                == spec,
    {
        if jobs == 0 {
            return Err(PoolError::NoWorkers);
        }
        let mut workers: Vec<WorkerState> = Vec::new();
        let mut i: u16 = 0;
        while i < jobs
            invariant
                i <= jobs,
                workers@ =~= Seq::new(i as nat, |k: int| WorkerState::Pending),
            decreases jobs - i,
        {
            workers.push(WorkerState::Pending);
            i += 1;
        }
        Ok(Pool { spec, workers, outcome: None })
    }

    /// The number of workers.
    pub fn jobs(&self) -> (r: usize)
        ensures
            r == self@.workers.len(),
    {
        self.workers.len()
    }

    /// The description that every worker of this pool is started from.
    pub fn spec(&self) -> (r: &ProcessSpec)
        ensures
            *r == self.template(),
    {
        &self.spec
    }

    /// The outcome, once the pool is decided.
    pub fn outcome(&self) -> (r: Option<ExitOutcome>)
        ensures
            r == self@.outcome,
    {
        self.outcome
    }

    /// The state of worker `id`, where the pool has such a worker.
    pub fn state(&self, id: usize) -> (r: Option<WorkerState>)
        ensures
            id < self@.workers.len() ==> r == Some(self@.workers[id as int]),
            id >= self@.workers.len() ==> r is None,
    {
        if id < self.workers.len() {
            Some(self.workers[id])
        } else {
            None
        }
    }

    /// The worker to start next, where one is left to start.
    pub fn next_spawn(&self) -> (r: Option<usize>)
        ensures
            r == self@.next_spawn(),
    {
        if self.outcome.is_some() {
            return None;
        }
        let mut i: usize = 0;
        while i < self.workers.len()
            invariant
                i <= self.workers.len(),
                self.outcome is None,
                forall|j: int| 0 <= j < i ==> !self@.is_in(j, WorkerState::Pending),
            decreases self.workers.len() - i,
        {
            if self.workers[i] == WorkerState::Pending {
                proof {
                    let m = self@;
                    assert(m.is_first_pending(i as int));
                    let c = choose|c: int| m.is_first_pending(c);
                    assert(c == i) by {
                        if c < i {
                            assert(!m.is_in(c, WorkerState::Pending));
                        } else if c > i {
                            assert(m.is_in(i as int, WorkerState::Pending));
                        }
                    }
                }
                return Some(i);
            }
            i += 1;
        }
        proof {
            let m = self@;
            assert forall|c: int| !m.is_first_pending(c) by {
                if m.is_in(c, WorkerState::Pending) {
                    assert(0 <= c < self.workers.len());
                }
            }
        }
        None
    }

    /// Marks worker `id` and every running worker as exited, and names the
    /// running workers other than `id`.
    fn sweep(&mut self, id: usize) -> (kills: Vec<usize>)
        requires
            id < old(self).workers.len(),
        ensures
            final(self).outcome == old(self).outcome,
            final(self).spec == old(self).spec,
            final(self).workers@ == old(self)@.settle(id, Finish::WaitFailed).workers,
            kills@ == running_except(old(self).workers@, id as int, old(self).workers@.len()),
    {
        let mut kills: Vec<usize> = Vec::new();
        let ghost before = self.workers@;
        let mut i: usize = 0;
        while i < self.workers.len()
            invariant
                i <= self.workers.len(),
                id < self.workers.len(),
                self.workers.len() == before.len(),
                self.outcome == old(self).outcome,
                self.spec == old(self).spec,
                kills@ == running_except(before, id as int, i as nat),
                forall|j: int|
                    0 <= j < i ==> self.workers@[j] == if j == id || before[j]
                        == WorkerState::Running {
                        WorkerState::Exited
                    } else {
                        before[j]
                    },
                forall|j: int| i <= j < before.len() ==> self.workers@[j] == before[j],
            decreases self.workers.len() - i,
        {
            if i != id && self.workers[i] == WorkerState::Running {
                kills.push(i);
            }
            if i == id || self.workers[i] == WorkerState::Running {
                self.workers[i] = WorkerState::Exited;
            }
            i += 1;
        }
        assert(self.workers@ =~= old(self)@.settle(id, Finish::WaitFailed).workers);
        kills
    }

    /// Takes what the driver saw and hands back the workers that it has to
    /// kill now, in rising order. Failing to kill one of them is of no
    /// account, and the driver waits for none of them.
    pub fn handle(&mut self, event: Event) -> (kills: Vec<usize>)
        ensures
            final(self)@ == old(self)@.step(event),
            kills@ == old(self)@.kills(event),
            final(self).template() == old(self).template(),
    {
        let n = self.workers.len();
        match event {
            Event::Spawned(id) => {
                let mut kills: Vec<usize> = Vec::new();
                if id < n && self.workers[id] == WorkerState::Pending {
                    if self.outcome.is_some() {
                        self.workers[id] = WorkerState::Exited;
                        kills.push(id);
                        assert(kills@ =~= seq![id]);
                    } else {
                        self.workers[id] = WorkerState::Running;
                    }
                }
                kills
            },
            Event::SpawnFailed(id) => {
                if id < n && self.workers[id] == WorkerState::Pending {
                    self.settle(id, Finish::SpawnFailed)
                } else {
                    Vec::new()
                }
            },
            Event::Exited(id, code) => {
                if id < n && self.workers[id] == WorkerState::Running {
                    self.settle(id, Finish::Exited(code))
                } else {
                    Vec::new()
                }
            },
            Event::WaitFailed(id) => {
                if id < n && self.workers[id] == WorkerState::Running {
                    self.settle(id, Finish::WaitFailed)
                } else {
                    Vec::new()
                }
            },
        }
    }

    /// Takes the request to terminate worker `id`, and says whether there
    /// is a process to signal: only a running worker has one. The request is
    /// never an error. A worker that has exited, or was never started, is
    /// left as it is.
    pub fn terminate(&mut self, id: usize) -> (signal: bool)
        ensures
            signal == old(self)@.is_in(id as int, WorkerState::Running),
            final(self)@ == old(self)@.terminate(id),
            final(self).template() == old(self).template(),
    {
        if id < self.workers.len() && self.workers[id] == WorkerState::Running {
            self.workers[id] = WorkerState::Exited;
            true
        } else {
            false
        }
    }

    /// The worker that stands at `position` in the row of workers from
    /// which `winner` was taken out, where the pool has such a worker: the
    /// workers before the winner keep their place, and those behind it have
    /// moved up by one.
    pub fn remaining_id(&self, winner: usize, position: usize) -> (r: Option<usize>)
        ensures
            r == spec_remaining_id(self@.workers.len(), winner, position),
    {
        if position < winner {
            if position < self.workers.len() {
                Some(position)
            } else {
                None
            }
        } else if position < self.workers.len() && position + 1 < self.workers.len() {
            Some(position + 1)
        } else {
            None
        }
    }

    /// Records the end of worker `id`: see [`PoolState::settle`].
    fn settle(&mut self, id: usize, finish: Finish) -> (kills: Vec<usize>)
        requires
            id < old(self).workers.len(),
        ensures
            final(self)@ == old(self)@.settle(id, finish),
            final(self).spec == old(self).spec,
            kills@ == running_except(old(self).workers@, id as int, old(self).workers@.len()),
    {
        let kills = self.sweep(id);
        if self.outcome.is_none() {
            self.outcome = Some(ExitOutcome { id, finish });
        }
        kills
    }
}

/// What `running_except` holds: each running worker below `upto` other than
/// `skip`, once, in rising order.
pub proof fn lemma_running_except(workers: Seq<WorkerState>, skip: int, upto: nat)
    requires
        upto <= workers.len(),
        workers.len() <= usize::MAX,
    ensures
        forall|j: int|
            0 <= j < upto && j != skip && workers[j] == WorkerState::Running ==> running_except(
                workers,
                skip,
                upto,
            ).contains(j as usize),
        forall|k: int|
            0 <= k < running_except(workers, skip, upto).len() ==> {
                let j = #[trigger] running_except(workers, skip, upto)[k];
                j < upto && j != skip && workers[j as int] == WorkerState::Running
            },
        forall|k: int, l: int|
            0 <= k < l < running_except(workers, skip, upto).len() ==> running_except(
                workers,
                skip,
                upto,
            )[k] < running_except(workers, skip, upto)[l],
    decreases upto,
{
    if upto > 0 {
        let before = running_except(workers, skip, (upto - 1) as nat);
        let all = running_except(workers, skip, upto);
        lemma_running_except(workers, skip, (upto - 1) as nat);
        assert forall|j: int|
            0 <= j < upto && j != skip && workers[j] == WorkerState::Running implies all.contains(
            j as usize,
        ) by {
            if j < upto - 1 {
                let k = choose|k: int| 0 <= k < before.len() && before[k] == j as usize;
                assert(all[k] == j as usize);
            } else {
                assert(all[all.len() - 1] == j as usize);
            }
        }
    }
}

/// When the first worker ends, the others are stopped in the same step:
/// every other running worker is among those to kill, no worker runs
/// afterwards, and the pool is decided. This holds as well where the end is
/// a failure to start or to wait.
pub proof fn law_end_stops_the_others(m: PoolState, event: Event)
    requires
        m.workers.len() <= usize::MAX,
        m.accepts(event),
        event.finish() is Some,
    ensures
        forall|j: int|
            j != event.id() && m.is_in(j, WorkerState::Running) ==> m.kills(event).contains(
                j as usize,
            ),
        forall|k: int|
            0 <= k < m.kills(event).len() ==> m.is_in(
                (#[trigger] m.kills(event)[k]) as int,
                WorkerState::Running,
            ),
        m.step(event).none_running(),
        m.step(event).outcome is Some,
{
    lemma_running_except(m.workers, event.id() as int, m.workers.len());
}

/// The first end decides: in an undecided pool, the worker of the first
/// event that is an end, and the way it ended, are the outcome.
pub proof fn law_first_end_decides(m: PoolState, event: Event)
    requires
        m.outcome is None,
        m.accepts(event),
        event.finish() is Some,
    ensures
        m.step(event).outcome == Some(
            ExitOutcome { id: event.id(), finish: event.finish()->Some_0 },
        ),
{
}

/// A pool is decided once: whatever is seen after it has its outcome, the
/// outcome stays as it is.
pub proof fn law_outcome_is_final(m: PoolState, events: Seq<Event>)
    requires
        m.outcome is Some,
    ensures
        m.run(events).outcome == m.outcome,
    decreases events.len(),
{
    if events.len() > 0 {
        law_outcome_is_final(m, events.drop_last());
    }
}

/// No event and no request brings a running worker into a decided pool,
/// and none changes the number of workers.
pub proof fn law_step_keeps_wf(m: PoolState, event: Event, id: usize)
    requires
        m.wf(),
    ensures
        m.step(event).wf(),
        m.step(event).workers.len() == m.workers.len(),
        m.terminate(id).wf(),
        m.terminate(id).workers.len() == m.workers.len(),
{
}

/// However the events fall, a pool that started fresh has no running worker
/// once it is decided.
pub proof fn law_decided_pool_is_still(jobs: nat, events: Seq<Event>)
    ensures
        PoolState::fresh(jobs).run(events).wf(),
        PoolState::fresh(jobs).run(events).workers.len() == jobs,
    decreases events.len(),
{
    if events.len() > 0 {
        law_decided_pool_is_still(jobs, events.drop_last());
        law_step_keeps_wf(PoolState::fresh(jobs).run(events.drop_last()), events.last(), 0);
    }
}

/// A worker that has exited stays so: no event about it changes anything
/// or asks for a kill, and a request to terminate it does nothing.
pub proof fn law_exited_worker_is_left_alone(m: PoolState, event: Event)
    requires
        m.is_in(event.id() as int, WorkerState::Exited),
    ensures
        m.step(event) == m,
        m.kills(event) == Seq::<usize>::empty(),
        m.terminate(event.id()) == m,
{
}

/// To ask twice for the end of a worker is to ask once.
pub proof fn law_terminate_twice(m: PoolState, id: usize)
    ensures
        m.terminate(id).terminate(id) == m.terminate(id),
        !m.terminate(id).is_in(id as int, WorkerState::Running),
{
}

/// A pool of `jobs` workers of which the first `started` run and the others
/// are pending.
pub open spec fn started_pool(jobs: nat, started: nat) -> PoolState {
    PoolState {
        workers: Seq::new(
            jobs,
            |i: int|
                if i < started {
                    WorkerState::Running
                } else {
                    WorkerState::Pending
                },
        ),
        outcome: None,
    }
}

/// A driver that starts the worker that the pool names, and reports it,
/// starts each worker once, in rising order: a fresh pool names worker 0,
/// with workers `0` to `started - 1` running it names worker `started`, and
/// with all of them running it names none.
pub proof fn law_workers_start_in_turn(jobs: nat, started: nat)
    requires
        started <= jobs <= usize::MAX,
    ensures
        PoolState::fresh(jobs) == started_pool(jobs, 0),
        started < jobs ==> {
            &&& started_pool(jobs, started).next_spawn() == Some(started as usize)
            &&& started_pool(jobs, started).step(Event::Spawned(started as usize)) == started_pool(
                jobs,
                started + 1,
            )
            &&& started_pool(jobs, started).kills(Event::Spawned(started as usize)) == Seq::<
                usize,
            >::empty()
        },
        started == jobs ==> started_pool(jobs, started).next_spawn() is None,
{
    assert(PoolState::fresh(jobs).workers =~= started_pool(jobs, 0).workers);
    let m = started_pool(jobs, started);
    if started < jobs {
        assert(m.is_first_pending(started as int));
        let c = choose|c: int| m.is_first_pending(c);
        if c < started {
            assert(!m.is_in(c, WorkerState::Pending));
        } else if c > started {
            assert(m.is_in(started as int, WorkerState::Pending));
        }
        assert(m.step(Event::Spawned(started as usize)).workers =~= started_pool(
            jobs,
            started + 1,
        ).workers);
    } else {
        assert forall|c: int| !m.is_first_pending(c) by {}
    }
}

} // verus!
