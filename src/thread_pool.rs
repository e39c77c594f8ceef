//! Dispatch state of a fixed-size worker pool.
//!
//! A pool of `size` workers shares one first-in first-out queue of messages.
//! The pool submits jobs; each idle worker takes the next message, runs the
//! job it carries and reports back, or leaves for good when the message is
//! `Terminate`. Closing the pool queues one `Terminate` per live worker behind
//! every job already submitted. The threads themselves, the lock around this
//! state and the blocking wait belong to the embedding program: this module
//! decides what each worker receives.
use vstd::prelude::*;

verus! {

/// What travels over the dispatch queue: a job, or the order to stop.
pub enum Message<J> {
    NewJob(J),
    Terminate,
}

/// Where a worker stands in its receive-execute loop.
#[derive(Clone, Copy, Debug, PartialEq, Eq, Structural)]
pub enum WorkerState {
    /// Waiting for the next message.
    Idle,
    /// Running a job it has taken.
    Busy,
    /// Has taken `Terminate`; its thread has left the loop.
    Stopped,
}

/// Number of workers in `states` that stand in state `s`.
pub open spec fn count_in(states: Seq<WorkerState>, s: WorkerState) -> nat
    decreases states.len(),
{
    if states.len() == 0 {
        0
    } else {
        count_in(states.drop_last(), s) + if states.last() == s { 1nat } else { 0nat }
    }
}

/// Changing one worker's state moves it from one count to another.
pub proof fn lemma_count_update(states: Seq<WorkerState>, i: int, t: WorkerState, s: WorkerState)
    requires
        0 <= i < states.len(),
    ensures
        count_in(states.update(i, t), s) + (if states[i] == s { 1int } else { 0int })
            == count_in(states, s) + (if t == s { 1int } else { 0int }),
    decreases states.len(),
{
    let u = states.update(i, t);
    if i == states.len() - 1 {
        assert(u.drop_last() =~= states.drop_last());
    } else {
        lemma_count_update(states.drop_last(), i, t, s);
        assert(u.drop_last() =~= states.drop_last().update(i, t));
    }
}

/// No worker stands in a state whose count is zero.
pub proof fn lemma_count_zero(states: Seq<WorkerState>, s: WorkerState)
    ensures
        count_in(states, s) == 0 <==> forall|i: int| 0 <= i < states.len() ==> states[i] != s,
    decreases states.len(),
{
    if states.len() > 0 {
        lemma_count_zero(states.drop_last(), s);
        if count_in(states, s) == 0 {
            assert forall|i: int| 0 <= i < states.len() implies states[i] != s by {
                if i < states.len() - 1 {
                    assert(states[i] == states.drop_last()[i]);
                }
            }
        }
        if forall|i: int| 0 <= i < states.len() ==> states[i] != s {
            assert forall|i: int| 0 <= i < states.drop_last().len()
                implies states.drop_last()[i] != s by {
                assert(states.drop_last()[i] == states[i]);
            }
        }
    }
}

/// The states of a worker set, counted by state, add up to its size.
pub proof fn lemma_count_total(states: Seq<WorkerState>)
    ensures
        count_in(states, WorkerState::Idle) + count_in(states, WorkerState::Busy)
            + count_in(states, WorkerState::Stopped) == states.len(),
    decreases states.len(),
{
    if states.len() > 0 {
        lemma_count_total(states.drop_last());
    }
}

/// A sequence of `n` messages that are all `Terminate`.
pub open spec fn terminates<J>(n: nat) -> Seq<Message<J>> {
    Seq::new(n, |i: int| Message::Terminate)
}

/// The shared dispatch state of a pool: queued jobs, queued stop orders and
/// the state of every worker, together with the history of what was
/// submitted and what was handed out.
pub struct Dispatch<J> {
    jobs: std::collections::VecDeque<J>,
    stops: usize,
    states: Vec<WorkerState>,
    closed: bool,
    submitted: Ghost<Seq<J>>,
    taken: Ghost<Seq<J>>,
    finished: Ghost<nat>,
}

impl<J> Dispatch<J> {
    /// Number of workers.
    pub open spec fn size(&self) -> nat {
        self.states().len()
    }

    /// The state of every worker, indexed by worker id.
    pub closed spec fn states(&self) -> Seq<WorkerState> {
        self.states@
    }

    /// Whether shutdown has begun.
    pub closed spec fn is_closed(&self) -> bool {
        self.closed
    }

    /// Every job ever submitted, in submission order.
    pub closed spec fn submitted(&self) -> Seq<J> {
        self.submitted@
    }

    /// Every job handed to a worker, in the order it was handed out.
    pub closed spec fn taken(&self) -> Seq<J> {
        self.taken@
    }

    /// Number of jobs whose worker has reported them complete.
    pub closed spec fn finished(&self) -> nat {
        self.finished@
    }

    /// Jobs submitted and not yet handed out, oldest first.
    pub closed spec fn pending_jobs(&self) -> Seq<J> {
        self.jobs@
    }

    /// Number of `Terminate` messages queued behind the pending jobs.
    pub closed spec fn stops(&self) -> nat {
        self.stops as nat
    }

    /// The queue as workers see it: pending jobs first, then the stop orders.
    pub open spec fn pending(&self) -> Seq<Message<J>> {
        self.pending_jobs().map_values(|j: J| Message::NewJob(j)) + terminates(self.stops())
    }

    /// Number of workers that have not stopped.
    pub open spec fn live_count(&self) -> nat {
        (self.size() - count_in(self.states(), WorkerState::Stopped)) as nat
    }

    /// Whether every worker has stopped.
    pub open spec fn all_stopped(&self) -> bool {
        forall|w: int| 0 <= w < self.size() ==> self.states()[w] == WorkerState::Stopped
    }

    /// The invariant of the dispatch state.
    pub closed spec fn wf(&self) -> bool {
        &&& self.states@.len() > 0
        &&& self.taken@.len() <= self.submitted@.len()
        &&& self.taken@ == self.submitted@.take(self.taken@.len() as int)
        &&& self.jobs@ == self.submitted@.skip(self.taken@.len() as int)
        &&& !self.closed ==> self.stops == 0 && count_in(self.states@, WorkerState::Stopped) == 0
        &&& self.closed ==> self.stops + count_in(self.states@, WorkerState::Stopped)
            == self.states@.len()
        &&& count_in(self.states@, WorkerState::Stopped) > 0 ==> self.jobs@.len() == 0
        &&& self.finished@ + count_in(self.states@, WorkerState::Busy) == self.taken@.len()
    }

    /// A pool of `size` idle workers with nothing queued.
    pub fn new(size: usize) -> (r: Self)
        requires
            size > 0,
        ensures
            r.wf(),
            r.size() == size,
            r.states() == Seq::new(size as nat, |w: int| WorkerState::Idle),
            r.live_count() == size,
            !r.is_closed(),
            r.pending() == Seq::<Message<J>>::empty(),
            r.submitted() == Seq::<J>::empty(),
            r.taken() == Seq::<J>::empty(),
            r.finished() == 0,
    {
        let mut states: Vec<WorkerState> = Vec::with_capacity(size);
        let mut i: usize = 0;
        while i < size
            invariant
                i <= size,
                states@ == Seq::new(i as nat, |w: int| WorkerState::Idle),
                count_in(states@, WorkerState::Stopped) == 0,
                count_in(states@, WorkerState::Busy) == 0,
            decreases size - i,
        {
            states.push(WorkerState::Idle);
            i = i + 1;
            assert(states@.drop_last() =~= Seq::new((i - 1) as nat, |w: int| WorkerState::Idle));
            assert(states@ =~= Seq::new(i as nat, |w: int| WorkerState::Idle));
        }
        let r = Dispatch {
            jobs: std::collections::VecDeque::new(),
            stops: 0,
            states,
            closed: false,
            submitted: Ghost(Seq::empty()),
            taken: Ghost(Seq::empty()),
            finished: Ghost(0),
        };
        assert(r.submitted@.take(0) =~= Seq::<J>::empty());
        assert(r.submitted@.skip(0) =~= Seq::<J>::empty());
        assert(r.pending() =~= Seq::<Message<J>>::empty());
        r
    }
    /// Queues `job` behind everything submitted before it.
    pub fn submit(&mut self, job: J)
        requires
            old(self).wf(),
            !old(self).is_closed(),
        ensures
            final(self).wf(),
            final(self).submitted() == old(self).submitted().push(job),
            final(self).pending() == old(self).pending().push(Message::NewJob(job)),
            final(self).taken() == old(self).taken(),
            final(self).states() == old(self).states(),
            final(self).finished() == old(self).finished(),
            !final(self).is_closed(),
    {
        let ghost t = self.taken@.len() as int;
        let ghost old_pending = self.pending();
        self.submitted = Ghost(self.submitted@.push(job));
        self.jobs.push_back(job);
        assert(self.taken@ =~= self.submitted@.take(t));
        assert(self.jobs@ =~= self.submitted@.skip(t));
        assert(self.pending() =~= old_pending.push(Message::NewJob(job)));
    }

    /// Begins shutdown: queues one `Terminate` per worker behind every job
    /// already submitted. Closing a closed dispatch changes nothing.
    pub fn close(&mut self)
        requires
            old(self).wf(),
        ensures
            final(self).wf(),
            final(self).is_closed(),
            old(self).is_closed() ==> *final(self) == *old(self),
            !old(self).is_closed() ==> final(self).pending() == old(self).pending() + terminates::<J>(
                old(self).size(),
            ),
            final(self).submitted() == old(self).submitted(),
            final(self).taken() == old(self).taken(),
            final(self).states() == old(self).states(),
            final(self).finished() == old(self).finished(),
    {
        if !self.closed {
            let ghost old_pending = self.pending();
            self.stops = self.states.len();
            self.closed = true;
            assert(self.pending() =~= old_pending + terminates::<J>(self.size()));
        }
    }

    /// Hands the next queued message to idle worker `worker`, or `None` when
    /// the queue is empty and the worker has to wait. A job makes the worker
    /// busy; `Terminate` stops it.
    pub fn take(&mut self, worker: usize) -> (r: Option<Message<J>>)
        requires
            old(self).wf(),
            worker < old(self).size(),
            old(self).states()[worker as int] == WorkerState::Idle,
        ensures
            final(self).wf(),
            final(self).submitted() == old(self).submitted(),
            final(self).finished() == old(self).finished(),
            final(self).is_closed() == old(self).is_closed(),
            old(self).pending().len() == 0 ==> r is None && final(self).pending() == old(self).pending(),
            old(self).pending().len() > 0 ==> r == Some(old(self).pending()[0])
                && final(self).pending() == old(self).pending().drop_first(),
            match r {
                Some(Message::NewJob(j)) => {
                    &&& final(self).taken() == old(self).taken().push(j)
                    &&& final(self).states() == old(self).states().update(
                        worker as int,
                        WorkerState::Busy,
                    )
                },
                Some(Message::Terminate) => {
                    &&& final(self).taken() == old(self).taken()
                    &&& final(self).states() == old(self).states().update(
                        worker as int,
                        WorkerState::Stopped,
                    )
                },
                None => {
                    &&& final(self).taken() == old(self).taken()
                    &&& final(self).states() == old(self).states()
                },
            },
    {
        let ghost old_pending = self.pending();
        let ghost old_states = self.states@;
        let ghost t = self.taken@.len() as int;
        proof {
            lemma_count_update(old_states, worker as int, WorkerState::Busy, WorkerState::Busy);
            lemma_count_update(old_states, worker as int, WorkerState::Busy, WorkerState::Stopped);
            lemma_count_update(old_states, worker as int, WorkerState::Stopped, WorkerState::Busy);
            lemma_count_update(
                old_states,
                worker as int,
                WorkerState::Stopped,
                WorkerState::Stopped,
            );
        }
        match self.jobs.pop_front() {
            Some(job) => {
                self.taken = Ghost(self.taken@.push(job));
                self.states.set(worker, WorkerState::Busy);
                assert(self.taken@ =~= self.submitted@.take(t + 1));
                assert(self.jobs@ =~= self.submitted@.skip(t + 1));
                assert(old_pending[0] == Message::<J>::NewJob(job));
                assert(self.pending() =~= old_pending.drop_first());
                Some(Message::NewJob(job))
            },
            None => {
                if self.stops > 0 {
                    self.stops = self.stops - 1;
                    self.states.set(worker, WorkerState::Stopped);
                    assert(self.pending() =~= old_pending.drop_first());
                    Some(Message::Terminate)
                } else {
                    assert(old_pending =~= Seq::<Message<J>>::empty());
                    None
                }
            },
        }
    }

    /// Records that busy worker `worker` has run its job to completion; it
    /// is idle again.
    pub fn finish(&mut self, worker: usize)
        requires
            old(self).wf(),
            worker < old(self).size(),
            old(self).states()[worker as int] == WorkerState::Busy,
        ensures
            final(self).wf(),
            final(self).states() == old(self).states().update(worker as int, WorkerState::Idle),
            final(self).finished() == old(self).finished() + 1,
            final(self).pending() == old(self).pending(),
            final(self).submitted() == old(self).submitted(),
            final(self).taken() == old(self).taken(),
            final(self).is_closed() == old(self).is_closed(),
    {
        proof {
            lemma_count_update(self.states@, worker as int, WorkerState::Idle, WorkerState::Busy);
            lemma_count_update(
                self.states@,
                worker as int,
                WorkerState::Idle,
                WorkerState::Stopped,
            );
        }
        self.states.set(worker, WorkerState::Idle);
        self.finished = Ghost(self.finished@ + 1);
    }

    /// Number of workers.
    pub fn worker_count(&self) -> (r: usize)
        ensures
            r == self.size(),
    {
        self.states.len()
    }

    /// The state of worker `worker`.
    pub fn worker_state(&self, worker: usize) -> (r: WorkerState)
        requires
            worker < self.size(),
        ensures
            r == self.states()[worker as int],
    {
        self.states[worker]
    }

    /// Number of jobs waiting in the queue.
    pub fn queued_jobs(&self) -> (r: usize)
        ensures
            r == self.pending_jobs().len(),
    {
        self.jobs.len()
    }

    /// Number of `Terminate` messages waiting in the queue.
    pub fn queued_stops(&self) -> (r: usize)
        ensures
            r == self.stops(),
    {
        self.stops
    }

    /// Whether shutdown has begun.
    pub fn shutting_down(&self) -> (r: bool)
        ensures
            r == self.is_closed(),
    {
        self.closed
    }
}

/// One slot of the pool: its id and, until shutdown joins it, the handle of
/// its thread.
pub struct Worker<H> {
    pub id: usize,
    pub thread: Option<H>,
}

impl<H> Worker<H> {
    /// A worker `id` whose thread is `thread`.
    pub fn new(id: usize, thread: H) -> (r: Self)
        ensures
            r.id == id,
            r.thread == Some(thread),
    {
        Worker { id, thread: Some(thread) }
    }

    /// Hands out the thread handle, if the worker still holds it, and leaves
    /// the worker without one: a handle is handed out at most once.
    pub fn take_thread(&mut self) -> (r: Option<H>)
        ensures
            r == old(self).thread,
            final(self).thread is None,
            final(self).id == old(self).id,
    {
        self.thread.take()
    }
}

/// The handles that the workers of `ws` still hold, in worker order.
pub open spec fn held_threads<H>(ws: Seq<Worker<H>>) -> Seq<H>
    decreases ws.len(),
{
    if ws.len() == 0 {
        Seq::empty()
    } else {
        let rest = held_threads(ws.drop_last());
        match ws.last().thread {
            Some(h) => rest.push(h),
            None => rest,
        }
    }
}

/// Collects every thread handle that the workers hold, in worker order, for
/// the caller to join, and leaves every worker without one; ids are kept.
pub fn take_threads<H>(workers: &mut Vec<Worker<H>>) -> (r: Vec<H>)
    ensures
        r@ == held_threads(old(workers)@),
        final(workers)@.len() == old(workers)@.len(),
        forall|i: int|
            0 <= i < final(workers)@.len() ==> (#[trigger] final(workers)@[i]).thread is None
                && final(workers)@[i].id == old(workers)@[i].id,
{
    let ghost before = workers@;
    let mut handles: Vec<H> = Vec::new();
    let mut i: usize = 0;
    while i < workers.len()
        invariant
            i <= workers@.len(),
            workers@.len() == before.len(),
            handles@ == held_threads(before.subrange(0, i as int)),
            forall|k: int| 0 <= k < i ==> (#[trigger] workers@[k]).thread is None
                && workers@[k].id == before[k].id,
            forall|k: int| i <= k < workers@.len() ==> #[trigger] workers@[k] == before[k],
        decreases workers@.len() - i,
    {
        let t = workers[i].take_thread();
        assert(before.subrange(0, i + 1).drop_last() =~= before.subrange(0, i as int));
        match t {
            Some(h) => handles.push(h),
            None => {},
        }
        i = i + 1;
    }
    assert(before.subrange(0, i as int) =~= before);
    handles
}

/// Every job submitted so far is, exactly once, either already handed to a
/// worker or still waiting in the queue, and jobs are handed out in the order
/// they were submitted.
pub proof fn lemma_each_job_once<J>(d: Dispatch<J>)
    requires
        d.wf(),
    ensures
        d.taken() + d.pending_jobs() == d.submitted(),
        d.taken() == d.submitted().take(d.taken().len() as int),
{
    assert(d.taken() + d.pending_jobs() =~= d.submitted());
}

/// Once shutdown has begun, the queue holds exactly one `Terminate` for each
/// worker that has not stopped, so no live worker waits forever; and the
/// queue runs empty only when every worker has stopped.
pub proof fn lemma_one_stop_per_live_worker<J>(d: Dispatch<J>)
    requires
        d.wf(),
        d.is_closed(),
    ensures
        d.stops() == d.live_count(),
        d.pending().len() == d.pending_jobs().len() + d.live_count(),
        d.live_count() > 0 ==> d.pending().len() > 0,
        d.pending().len() == 0 ==> d.all_stopped(),
{
    lemma_count_total(d.states());
    if d.pending().len() == 0 {
        assert(count_in(d.states(), WorkerState::Idle) == 0);
        assert(count_in(d.states(), WorkerState::Busy) == 0);
        lemma_count_zero(d.states(), WorkerState::Idle);
        lemma_count_zero(d.states(), WorkerState::Busy);
    }
}

/// A pool released with nothing ever submitted queues nothing but one
/// `Terminate` per live worker: each worker takes one and leaves.
pub proof fn lemma_release_without_work<J>(d: Dispatch<J>)
    requires
        d.wf(),
        d.is_closed(),
        d.submitted().len() == 0,
    ensures
        d.pending() == terminates::<J>(d.live_count()),
{
    lemma_one_stop_per_live_worker(d);
    assert(d.pending() =~= terminates::<J>(d.live_count()));
}

/// When every worker has stopped, every job ever submitted has been handed to
/// exactly one worker, in submission order, and has run to completion;
/// nothing is left in the queue.
pub proof fn lemma_all_stopped_all_done<J>(d: Dispatch<J>)
    requires
        d.wf(),
        d.all_stopped(),
    ensures
        d.is_closed(),
        d.pending().len() == 0,
        d.taken() == d.submitted(),
        d.finished() == d.submitted().len(),
{
    lemma_count_total(d.states());
    lemma_count_zero(d.states(), WorkerState::Idle);
    lemma_count_zero(d.states(), WorkerState::Busy);
    assert(d.taken() =~= d.submitted());
}

} // verus!
