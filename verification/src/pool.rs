//! The bounded worker pool: a closable FIFO job queue, a per-worker lifecycle
//! state machine, and the pool manager that owns them.
//!
//! Jobs are opaque one-shot units of work; the library tracks each by a
//! numeric ticket.  The process around the library runs the actual worker
//! threads: each thread drives [`worker_step`] to decide what to do with the
//! event it observed (a delivered job, a closed queue, a poisoned guard), and
//! the manager's operations here decide what the surrounding process performs
//! and logs, so that submission, rejection, draining and joining follow the
//! contracts below.
//!
//! Ordering: jobs are delivered in submission order, each to exactly one
//! worker, but nothing orders their completions — a job submitted first may
//! finish after one submitted later, since the workers run in parallel.

use vstd::prelude::*;

verus! {

/// A fatal startup fault: the pool or its surroundings cannot be brought up.
#[derive(Clone, Copy, PartialEq, Eq, Structural, Debug)]
pub enum StartupError {
    /// A pool of zero workers was requested.
    InvalidPoolSize,
    /// A second process-wide interrupt handler registration was attempted.
    HandlerAlreadyRegistered,
    /// The durable log sink could not be opened.
    LogSinkUnavailable,
}

/// What became of a submission attempt.
#[derive(Clone, Copy, PartialEq, Eq, Structural, Debug)]
pub enum SubmitOutcome {
    /// The job was enqueued and will be delivered to exactly one worker.
    Accepted,
    /// The queue is closed; the job was not enqueued and never runs.
    Rejected,
}

/// What one receive attempt on the queue observed.
#[derive(Clone, Copy, PartialEq, Eq, Structural, Debug)]
pub enum ReceiveOutcome {
    /// The oldest pending job, now claimed by the caller alone.
    Delivered(u64),
    /// The queue is open but empty: a blocking receive would wait here.
    WouldBlock,
    /// The queue is closed and fully drained: the worker should stop.
    Closed,
}

/// The abstract state of a job queue: the pending tickets in submission
/// order, and whether the queue still accepts work.
pub ghost struct QueueView {
    pub jobs: Seq<u64>,
    pub closed: bool,
}

/// The queue that connects submitters to workers: FIFO, closable, with each
/// pending job delivered to exactly one receiver.
pub struct JobQueue {
    jobs: Vec<u64>,
    closed: bool,
}

impl View for JobQueue {
    type V = QueueView;

    closed spec fn view(&self) -> QueueView {
        QueueView { jobs: self.jobs@, closed: self.closed }
    }
}

/// The state of an open queue holding no work.
pub open spec fn empty_open_queue() -> QueueView {
    QueueView { jobs: Seq::<u64>::empty(), closed: false }
}

/// The queue state after one submission: appended if open, unchanged if closed.
pub open spec fn submit_one(q: QueueView, job: u64) -> QueueView {
    if q.closed {
        q
    } else {
        QueueView { jobs: q.jobs.push(job), closed: false }
    }
}

/// The queue state after a sequence of submissions, oldest first.
pub open spec fn submit_all(q: QueueView, jobs: Seq<u64>) -> QueueView
    decreases jobs.len(),
{
    if jobs.len() == 0 {
        q
    } else {
        submit_all(submit_one(q, jobs[0]), jobs.drop_first())
    }
}

impl JobQueue {
    /// A fresh queue: open and empty.
    pub fn new() -> (q: JobQueue)
        ensures
            q@ == empty_open_queue(),
    {
        JobQueue { jobs: Vec::new(), closed: false }
    }

    /// How many jobs are pending.
    pub fn pending(&self) -> (n: usize)
        ensures
            n == self@.jobs.len(),
    {
        self.jobs.len()
    }

    /// Whether the queue has been closed.
    pub fn is_closed(&self) -> (c: bool)
        ensures
            c == self@.closed,
    {
        self.closed
    }

    /// Enqueue one job.  An open queue appends it; a closed queue rejects it
    /// without blocking and without changing anything.
    pub fn submit(&mut self, job: u64) -> (r: SubmitOutcome)
        ensures
            final(self)@ == submit_one(old(self)@, job),
            r == SubmitOutcome::Accepted <==> !old(self)@.closed,
    {
        if self.closed {
            SubmitOutcome::Rejected
        } else {
            self.jobs.push(job);
            SubmitOutcome::Accepted
        }
    }

    /// Close the queue: no further job may be enqueued, pending jobs stay to
    /// be drained.  Idempotent.
    pub fn close(&mut self)
        ensures
            final(self)@.closed,
            final(self)@.jobs == old(self)@.jobs,
    {
        self.closed = true;
    }

    /// One receive attempt.  The oldest pending job is handed to the caller
    /// and to nobody else; an empty closed queue reports closure; an empty
    /// open queue reports that a blocking receive would wait.
    pub fn receive(&mut self) -> (r: ReceiveOutcome)
        ensures
            old(self)@.jobs.len() > 0 ==> {
                &&& r == ReceiveOutcome::Delivered(old(self)@.jobs[0])
                &&& final(self)@.jobs == old(self)@.jobs.drop_first()
                &&& final(self)@.closed == old(self)@.closed
            },
            old(self)@.jobs.len() == 0 ==> {
                &&& final(self)@ == old(self)@
                &&& r == (if old(self)@.closed {
                    ReceiveOutcome::Closed
                } else {
                    ReceiveOutcome::WouldBlock
                })
            },
    {
        if self.jobs.len() > 0 {
            let job = self.jobs.remove(0);
            proof {
                assert(old(self)@.jobs.remove(0) =~= old(self)@.jobs.drop_first());
            }
            ReceiveOutcome::Delivered(job)
        } else if self.closed {
            ReceiveOutcome::Closed
        } else {
            ReceiveOutcome::WouldBlock
        }
    }

    /// Hand out every pending job at once, in submission order, leaving the
    /// queue empty.  This is what the workers collectively do while the pool
    /// drains during teardown: no accepted job is lost.
    pub fn drain(&mut self) -> (jobs: Vec<u64>)
        ensures
            jobs@ == old(self)@.jobs,
            final(self)@.jobs.len() == 0,
            final(self)@.closed == old(self)@.closed,
    {
        let mut out: Vec<u64> = Vec::new();
        std::mem::swap(&mut out, &mut self.jobs);
        out
    }
}

/// Submitting a batch to an open queue appends it whole: nothing already
/// pending is disturbed, every submitted job is enqueued, in submission
/// order, and the queue stays open.
pub proof fn lemma_submit_all_appends(q: QueueView, jobs: Seq<u64>)
    requires
        !q.closed,
    ensures
        submit_all(q, jobs).jobs == q.jobs + jobs,
        !submit_all(q, jobs).closed,
    decreases jobs.len(),
{
    if jobs.len() == 0 {
        assert(q.jobs + jobs =~= q.jobs);
    } else {
        lemma_submit_all_appends(submit_one(q, jobs[0]), jobs.drop_first());
        assert(q.jobs.push(jobs[0]) + jobs.drop_first() =~= q.jobs + jobs);
    }
}

/// Exactly-once delivery: the jobs a fresh pool's queue holds after a batch
/// of submissions are precisely the submitted ones, in submission order, so
/// draining them delivers each submitted job to exactly one worker — no job
/// is lost and none is duplicated.
pub proof fn lemma_jobs_delivered_exactly_once(jobs: Seq<u64>)
    ensures
        submit_all(empty_open_queue(), jobs).jobs == jobs,
        submit_all(empty_open_queue(), jobs).jobs.to_multiset() == jobs.to_multiset(),
{
    lemma_submit_all_appends(empty_open_queue(), jobs);
    assert(Seq::<u64>::empty() + jobs =~= jobs);
}

/// `c` is one of the ways the submissions of two concurrent producers `a`
/// and `b` can reach the queue: an order-preserving merge of the two.
pub open spec fn is_interleaving(a: Seq<u64>, b: Seq<u64>, c: Seq<u64>) -> bool
    decreases c.len(),
{
    if c.len() == 0 {
        a.len() == 0 && b.len() == 0
    } else {
        ||| (a.len() > 0 && a[0] == c[0] && is_interleaving(a.drop_first(), b, c.drop_first()))
        ||| (b.len() > 0 && b[0] == c[0] && is_interleaving(a, b.drop_first(), c.drop_first()))
    }
}

/// An order-preserving merge of two producers' submissions carries exactly
/// the submissions of both, with their multiplicities.
pub proof fn lemma_interleaving_preserves_multiset(a: Seq<u64>, b: Seq<u64>, c: Seq<u64>)
    requires
        is_interleaving(a, b, c),
    ensures
        c.to_multiset() == a.to_multiset().add(b.to_multiset()),
    decreases c.len(),
{
    broadcast use vstd::seq_lib::group_to_multiset_ensures;
    broadcast use vstd::multiset::group_multiset_axioms;

    if c.len() == 0 {
        assert(c.to_multiset() =~= a.to_multiset().add(b.to_multiset()));
    } else {
        assert(c.drop_first() =~= c.remove(0));
        if a.len() > 0 && a[0] == c[0] && is_interleaving(a.drop_first(), b, c.drop_first()) {
            lemma_interleaving_preserves_multiset(a.drop_first(), b, c.drop_first());
            assert(a.drop_first() =~= a.remove(0));
            assert(a.contains(a[0]));
            assert(c.contains(c[0]));
            assert forall|x: u64|
                c.to_multiset().count(x) == a.to_multiset().add(b.to_multiset()).count(x) by {
                let cd = c.remove(0).to_multiset();
                let ad = a.remove(0).to_multiset();
                assert(cd == c.to_multiset().remove(c[0]));
                assert(ad == a.to_multiset().remove(a[0]));
                assert(cd.count(x) == ad.add(b.to_multiset()).count(x));
            }
            assert(c.to_multiset() =~= a.to_multiset().add(b.to_multiset()));
        } else {
            lemma_interleaving_preserves_multiset(a, b.drop_first(), c.drop_first());
            assert(b.drop_first() =~= b.remove(0));
            assert(b.contains(b[0]));
            assert(c.contains(c[0]));
            assert forall|x: u64|
                c.to_multiset().count(x) == a.to_multiset().add(b.to_multiset()).count(x) by {
                let cd = c.remove(0).to_multiset();
                let bd = b.remove(0).to_multiset();
                assert(cd == c.to_multiset().remove(c[0]));
                assert(bd == b.to_multiset().remove(b[0]));
                assert(cd.count(x) == a.to_multiset().add(bd).count(x));
            }
            assert(c.to_multiset() =~= a.to_multiset().add(b.to_multiset()));
        }
    }
}

/// Concurrent submission preserves exactly-once delivery: however the
/// submissions of two producers interleave on their way into a fresh pool's
/// queue, the queue ends up holding each producer's jobs exactly once, and
/// nothing else.  Merges of more producers compose pairwise.
pub proof fn lemma_concurrent_submission_exactly_once(a: Seq<u64>, b: Seq<u64>, c: Seq<u64>)
    requires
        is_interleaving(a, b, c),
    ensures
        submit_all(empty_open_queue(), c).jobs.to_multiset() == a.to_multiset().add(
            b.to_multiset(),
        ),
{
    lemma_jobs_delivered_exactly_once(c);
    lemma_interleaving_preserves_multiset(a, b, c);
}

/// The lifecycle phase of one worker.
#[derive(Clone, Copy, PartialEq, Eq, Structural, Debug)]
pub enum WorkerPhase {
    /// The execution thread exists but has not entered its loop yet.
    Starting,
    /// Blocked on the queue, waiting to claim the next job.
    Waiting,
    /// Running one claimed job inside the failure-isolation boundary.
    Executing,
    /// Out of the loop; the thread ends and stays only to be joined.
    Stopped,
}

/// What a worker observed: its thread came up, the queue handed it a job or
/// reported closure, the guard around the receiving end was found poisoned,
/// or the claimed job ended (normally or abnormally).
#[derive(Clone, Copy, PartialEq, Eq, Structural, Debug)]
pub enum WorkerEvent {
    Started,
    JobReceived,
    JobCompleted,
    JobPanicked,
    QueueClosed,
    GuardPoisoned,
}

/// What the worker's thread must do next.
#[derive(Clone, Copy, PartialEq, Eq, Structural, Debug)]
pub enum WorkerAction {
    /// Nothing to perform; go on with the new phase.
    NoAction,
    /// Announce at debug level that this worker is up.
    LogStarted,
    /// Run the claimed job inside the failure-isolation boundary.
    RunJob,
    /// Report the failed job at error level; the worker itself goes on.
    LogJobFailure,
    /// Announce at debug level that the queue closed and this worker ends.
    LogGracefulStop,
    /// Report at error level that the queue's guard was poisoned; this
    /// worker alone retires, reducing capacity by one.
    LogPoisonedStop,
}

/// The worker's next phase for a given observation.  A stopped worker stays
/// stopped; an observation that cannot occur in a phase leaves it unchanged.
pub open spec fn worker_next_phase(p: WorkerPhase, e: WorkerEvent) -> WorkerPhase {
    match (p, e) {
        (WorkerPhase::Starting, WorkerEvent::Started) => WorkerPhase::Waiting,
        (WorkerPhase::Waiting, WorkerEvent::JobReceived) => WorkerPhase::Executing,
        (WorkerPhase::Waiting, WorkerEvent::QueueClosed) => WorkerPhase::Stopped,
        (WorkerPhase::Waiting, WorkerEvent::GuardPoisoned) => WorkerPhase::Stopped,
        (WorkerPhase::Executing, WorkerEvent::JobCompleted) => WorkerPhase::Waiting,
        (WorkerPhase::Executing, WorkerEvent::JobPanicked) => WorkerPhase::Waiting,
        _ => p,
    }
}

/// The action that accompanies each transition of [`worker_next_phase`].
pub open spec fn worker_action(p: WorkerPhase, e: WorkerEvent) -> WorkerAction {
    match (p, e) {
        (WorkerPhase::Starting, WorkerEvent::Started) => WorkerAction::LogStarted,
        (WorkerPhase::Waiting, WorkerEvent::JobReceived) => WorkerAction::RunJob,
        (WorkerPhase::Waiting, WorkerEvent::QueueClosed) => WorkerAction::LogGracefulStop,
        (WorkerPhase::Waiting, WorkerEvent::GuardPoisoned) => WorkerAction::LogPoisonedStop,
        (WorkerPhase::Executing, WorkerEvent::JobPanicked) => WorkerAction::LogJobFailure,
        _ => WorkerAction::NoAction,
    }
}

/// One step of the worker lifecycle: the worker thread feeds in what it
/// observed and performs the returned action in the returned phase.
pub fn worker_step(p: WorkerPhase, e: WorkerEvent) -> (r: (WorkerPhase, WorkerAction))
    ensures
        r.0 == worker_next_phase(p, e),
        r.1 == worker_action(p, e),
{
    match (p, e) {
        (WorkerPhase::Starting, WorkerEvent::Started) => (
            WorkerPhase::Waiting,
            WorkerAction::LogStarted,
        ),
        (WorkerPhase::Waiting, WorkerEvent::JobReceived) => (
            WorkerPhase::Executing,
            WorkerAction::RunJob,
        ),
        (WorkerPhase::Waiting, WorkerEvent::QueueClosed) => (
            WorkerPhase::Stopped,
            WorkerAction::LogGracefulStop,
        ),
        (WorkerPhase::Waiting, WorkerEvent::GuardPoisoned) => (
            WorkerPhase::Stopped,
            WorkerAction::LogPoisonedStop,
        ),
        (WorkerPhase::Executing, WorkerEvent::JobCompleted) => (
            WorkerPhase::Waiting,
            WorkerAction::NoAction,
        ),
        (WorkerPhase::Executing, WorkerEvent::JobPanicked) => (
            WorkerPhase::Waiting,
            WorkerAction::LogJobFailure,
        ),
        _ => (p, WorkerAction::NoAction),
    }
}

/// The event a worker derives from one receive attempt on the queue.  A
/// blocking receive never observes [`ReceiveOutcome::WouldBlock`]; it waits
/// instead, so waiting maps back to claiming whatever arrives next.
pub fn event_of_receive(r: ReceiveOutcome) -> (e: WorkerEvent)
    ensures
        (r matches ReceiveOutcome::Delivered(_)) ==> e == WorkerEvent::JobReceived,
        r == ReceiveOutcome::Closed ==> e == WorkerEvent::QueueClosed,
        r == ReceiveOutcome::WouldBlock ==> e == WorkerEvent::JobReceived,
{
    match r {
        ReceiveOutcome::Delivered(_) => WorkerEvent::JobReceived,
        ReceiveOutcome::WouldBlock => WorkerEvent::JobReceived,
        ReceiveOutcome::Closed => WorkerEvent::QueueClosed,
    }
}

/// A job that terminates abnormally is fully isolated: the worker that ran it
/// reports the failure and returns to waiting for the next job, exactly as
/// after a normal completion; it does not stop and does not lose capacity.
pub proof fn lemma_job_failure_is_isolated()
    ensures
        worker_next_phase(WorkerPhase::Executing, WorkerEvent::JobPanicked) == WorkerPhase::Waiting,
        worker_action(WorkerPhase::Executing, WorkerEvent::JobPanicked)
            == WorkerAction::LogJobFailure,
        worker_next_phase(WorkerPhase::Executing, WorkerEvent::JobCompleted)
            == worker_next_phase(WorkerPhase::Executing, WorkerEvent::JobPanicked),
{
}

/// A worker stops only because the queue closed or its guard was poisoned:
/// no job outcome and no other observation ends a live worker.
pub proof fn lemma_only_closure_or_poison_stops(p: WorkerPhase, e: WorkerEvent)
    requires
        p != WorkerPhase::Stopped,
        worker_next_phase(p, e) == WorkerPhase::Stopped,
    ensures
        e == WorkerEvent::QueueClosed || e == WorkerEvent::GuardPoisoned,
{
}

/// One worker as the manager sees it: its index, and whether its execution
/// thread is still there to be joined.
#[derive(Clone, Copy, PartialEq, Eq, Structural, Debug)]
pub struct Worker {
    pub id: usize,
    pub joinable: bool,
}

/// What `shutdown` did.
pub enum ShutdownOutcome {
    /// First call: the queue was closed, the listed jobs were drained to the
    /// workers in submission order, and every worker was joined.
    DidShutdown(Vec<u64>),
    /// The pool was already down; nothing happened and nothing is logged.
    AlreadyDown,
}

/// Each worker's id is its index in the pool.
pub open spec fn workers_indexed(ws: Seq<Worker>) -> bool {
    forall|i: int| 0 <= i < ws.len() ==> (#[trigger] ws[i]).id == i
}

/// Every worker's execution thread is still there to be joined.
pub open spec fn all_joinable(ws: Seq<Worker>) -> bool {
    forall|i: int| 0 <= i < ws.len() ==> (#[trigger] ws[i]).joinable
}

/// No worker's execution thread remains: all have been joined.
pub open spec fn none_joinable(ws: Seq<Worker>) -> bool {
    forall|i: int| 0 <= i < ws.len() ==> !(#[trigger] ws[i]).joinable
}

/// The pool manager: it owns the sending half of the queue (open) and the
/// set of workers.  Once shutdown begins the sending half is gone and every
/// further submission is rejected.
pub struct ThreadPool {
    queue: JobQueue,
    open: bool,
    workers: Vec<Worker>,
}

impl ThreadPool {
    /// The pool's invariant: the queue accepts work exactly while the pool is
    /// open; worker ids are their indices; while the pool is open every
    /// worker is joinable, and once it is down none is and no job is pending.
    pub open spec fn wf(self) -> bool {
        &&& self.is_open() == !self.queue_view().closed
        &&& workers_indexed(self.workers_view())
        &&& self.is_open() ==> all_joinable(self.workers_view())
        &&& !self.is_open() ==> self.queue_view().jobs.len() == 0
        &&& !self.is_open() ==> none_joinable(self.workers_view())
    }

    /// The abstract state of the pool's queue.
    pub closed spec fn queue_view(self) -> QueueView {
        self.queue@
    }

    /// Whether the pool still holds the sending half of the queue.
    pub closed spec fn is_open(self) -> bool {
        self.open
    }

    /// The workers, by index.
    pub closed spec fn workers_view(self) -> Seq<Worker> {
        self.workers@
    }

    /// Build a pool of `size` workers sharing one queue.  A size of zero is a
    /// programming-error-level fault and is excluded here; `try_new` is the
    /// checked form.
    pub fn new(size: usize) -> (p: ThreadPool)
        requires
            size >= 1,
        ensures
            p.wf(),
            p.is_open(),
            p.queue_view() == empty_open_queue(),
            p.workers_view().len() == size,
            forall|i: int|
                0 <= i < size ==> (#[trigger] p.workers_view()[i]) == (Worker {
                    id: i as usize,
                    joinable: true,
                }),
    {
        let mut workers: Vec<Worker> = Vec::new();
        let mut id: usize = 0;
        while id < size
            invariant
                id <= size,
                workers@.len() == id,
                forall|i: int|
                    0 <= i < id ==> (#[trigger] workers@[i]) == (Worker {
                        id: i as usize,
                        joinable: true,
                    }),
            decreases size - id,
        {
            workers.push(Worker { id, joinable: true });
            id = id + 1;
        }
        ThreadPool { queue: JobQueue::new(), open: true, workers }
    }

    /// The checked constructor: a pool of `size` workers, or the startup
    /// fault for a requested size of zero.
    pub fn try_new(size: usize) -> (r: Result<ThreadPool, StartupError>)
        ensures
            size == 0 <==> r == Result::<ThreadPool, StartupError>::Err(
                StartupError::InvalidPoolSize,
            ),
            size >= 1 ==> (r matches Ok(p) && {
                &&& p.wf()
                &&& p.is_open()
                &&& p.queue_view() == empty_open_queue()
                &&& p.workers_view().len() == size
                &&& forall|i: int|
                    0 <= i < size ==> (#[trigger] p.workers_view()[i]) == (Worker {
                        id: i as usize,
                        joinable: true,
                    })
            }),
    {
        if size == 0 {
            Err(StartupError::InvalidPoolSize)
        } else {
            Ok(ThreadPool::new(size))
        }
    }

    /// How many workers the pool was built with.
    pub fn worker_count(&self) -> (n: usize)
        ensures
            n == self.workers_view().len(),
    {
        self.workers.len()
    }

    /// Submit one job.  An open pool enqueues it without blocking beyond the
    /// enqueue itself; a pool whose shutdown has begun rejects it without
    /// blocking and without crashing the submitter, and the rejection is
    /// reported (logged), not raised.
    pub fn execute(&mut self, job: u64) -> (r: SubmitOutcome)
        requires
            old(self).wf(),
        ensures
            final(self).wf(),
            final(self).is_open() == old(self).is_open(),
            final(self).workers_view() == old(self).workers_view(),
            final(self).queue_view() == submit_one(old(self).queue_view(), job),
            r == SubmitOutcome::Accepted <==> old(self).is_open(),
            old(self).is_open() ==> final(self).queue_view().jobs == old(
                self,
            ).queue_view().jobs.push(job),
            !old(self).is_open() ==> final(self).queue_view() == old(self).queue_view(),
    {
        if self.open {
            self.queue.submit(job)
        } else {
            SubmitOutcome::Rejected
        }
    }

    /// Tear the pool down.  The first call closes the queue, drains every
    /// pending job to the workers in submission order (no accepted job is
    /// lost), and joins every worker; afterwards no worker thread remains.
    /// Any later call finds the pool already down, changes nothing, and gives
    /// the caller nothing to log: shutdown is idempotent.
    pub fn shutdown(&mut self) -> (r: ShutdownOutcome)
        requires
            old(self).wf(),
        ensures
            final(self).wf(),
            !final(self).is_open(),
            final(self).queue_view().jobs.len() == 0,
            final(self).workers_view().len() == old(self).workers_view().len(),
            forall|i: int|
                0 <= i < final(self).workers_view().len()
                    ==> !(#[trigger] final(self).workers_view()[i]).joinable,
            old(self).is_open() ==> (r matches ShutdownOutcome::DidShutdown(drained)
                && drained@ == old(self).queue_view().jobs),
            !old(self).is_open() ==> (r matches ShutdownOutcome::AlreadyDown
                && *final(self) == *old(self)),
    {
        if !self.open {
            return ShutdownOutcome::AlreadyDown;
        }
        self.open = false;
        self.queue.close();
        let drained = self.queue.drain();
        let n = self.workers.len();
        let mut i: usize = 0;
        while i < n
            invariant
                i <= n,
                self.open == false,
                self.queue@.closed,
                self.queue@.jobs.len() == 0,
                self.workers@.len() == n,
                n == old(self).workers_view().len(),
                workers_indexed(self.workers@),
                forall|k: int| 0 <= k < i ==> !(#[trigger] self.workers@[k]).joinable,
            decreases n - i,
        {
            let w = Worker { id: self.workers[i].id, joinable: false };
            self.workers.set(i, w);
            i = i + 1;
        }
        ShutdownOutcome::DidShutdown(drained)
    }
}

} // verus!
