use std::collections::VecDeque;
use vstd::multiset::Multiset;
use vstd::prelude::*;

use crate::types::QueueType;

verus! {

/// Whether `value` has reached `bound`; `None` is no bound at all.
pub open spec fn spec_limit_reached(value: int, bound: Option<usize>) -> bool {
    match bound {
        None => false,
        Some(n) => value >= n,
    }
}

/// Whether `value` has reached `bound`; `None` is no bound at all.
pub fn limit_reached(value: usize, bound: Option<usize>) -> (r: bool)
    ensures
        r == spec_limit_reached(value as int, bound),
{
    match bound {
        None => false,
        Some(n) => value >= n,
    }
}

/// An error reported to whoever posts a job.
#[derive(Debug, Clone)]
pub struct Error {
    msg: String,
}

impl View for Error {
    type V = Seq<char>;

    closed spec fn view(&self) -> Seq<char> {
        self.msg@
    }
}

impl Error {
    /// An error with the given message.
    pub fn new(msg: String) -> (e: Error)
        ensures
            e@ == msg@,
    {
        Error { msg }
    }

    /// The error for a job posted after the scheduler stopped accepting jobs.
    pub fn not_accepting() -> (e: Error)
        ensures
            e@ == "scheduler is not accepting new jobs"@,
    {
        Error { msg: String::from_str("scheduler is not accepting new jobs") }
    }

    /// The error for a job posted to a scheduler that no longer runs.
    pub fn stopped() -> (e: Error)
        ensures
            e@ == "scheduler stopped"@,
    {
        Error { msg: String::from_str("scheduler stopped") }
    }

    /// The error's message.
    pub fn message(&self) -> (r: &str)
        ensures
            r@ == self@,
    {
        self.msg.as_str()
    }
}

/// The scheduler of one hook, as mathematical values.
pub struct SchedulerState<J> {
    pub max_concurrent: Option<usize>,
    pub queue_size: Option<usize>,
    pub queue_type: QueueType,
    /// The number of jobs that run now.
    pub running: nat,
    /// The queued jobs, oldest first.
    pub queue: Seq<J>,
    /// Whether new jobs are still accepted.
    pub accept_jobs: bool,
    /// Whether a finished job makes room for a queued one.
    pub process_queue: bool,
}

impl<J> SchedulerState<J> {
    /// What every reachable state of a scheduler satisfies.
    pub open spec fn wf(self) -> bool {
        &&& (self.max_concurrent matches Some(n) ==> self.running <= n)
        &&& (self.queue_size matches Some(n) ==> self.queue.len() <= n)
        &&& (self.accept_jobs ==> self.process_queue)
        &&& (self.accept_jobs && self.queue.len() > 0 ==> spec_limit_reached(
            self.running as int,
            self.max_concurrent,
        ))
    }

    /// The work still to do before the scheduler may stop: the running jobs,
    /// and the queued jobs if they are still going to run.
    pub open spec fn pending_work(self) -> nat {
        self.running + if self.process_queue {
            self.queue.len()
        } else {
            0nat
        }
    }

    /// Whether the scheduler still has something to wait for.
    pub open spec fn active(self) -> bool {
        self.accept_jobs || self.running > 0
    }
}

/// Adds `job` to a queue with the given bound and type: the new queue, and
/// the job that was dropped to respect the bound, if any.
///
/// A FIFO queue keeps its older jobs and drops the new one when it is full;
/// a LIFO queue drops its oldest job to make room for the new one (and
/// drops the new one when its bound is zero).
pub open spec fn spec_enqueue<J>(queue: Seq<J>, queue_size: Option<usize>, queue_type: QueueType, job: J) -> (Seq<J>, Option<J>) {
    if spec_limit_reached(queue.len() as int, queue_size) {
        match queue_type {
            QueueType::Fifo => (queue, Some(job)),
            QueueType::Lifo => if queue.len() == 0 {
                (queue, Some(job))
            } else {
                (queue.drop_first().push(job), Some(queue[0]))
            },
        }
    } else {
        (queue.push(job), None)
    }
}

/// Takes the next job out of a non-empty queue: the oldest for FIFO, the
/// newest for LIFO. The job and the remaining queue.
pub open spec fn spec_unqueue<J>(queue: Seq<J>, queue_type: QueueType) -> (J, Seq<J>)
    recommends
        queue.len() > 0,
{
    match queue_type {
        QueueType::Fifo => (queue[0], queue.drop_first()),
        QueueType::Lifo => (queue.last(), queue.drop_last()),
    }
}

/// What happened to a posted job.
#[derive(Debug)]
pub enum NewJob<J> {
    /// The scheduler no longer accepts jobs; the job is handed back.
    Rejected(J),
    /// A job slot was free: the job is handed back to be started now.
    Started(J),
    /// All job slots were taken, so the job went to the queue; `dropped` is
    /// the job that the queue's bound made it drop, if any (that may be the
    /// posted job itself).
    Queued { dropped: Option<J> },
}

impl<J> NewJob<J> {
    /// What the poster of the job is told.
    pub fn reply(&self) -> (r: Result<(), Error>)
        ensures
            self is Rejected ==> r is Err && r->Err_0@ == "scheduler is not accepting new jobs"@,
            !(self is Rejected) ==> r is Ok,
    {
        match self {
            NewJob::Rejected(_) => Err(Error::not_accepting()),
            _ => Ok(()),
        }
    }
}

/// The state and outcome after a job is posted to scheduler state `s`.
pub open spec fn spec_new_job<J>(s: SchedulerState<J>, job: J) -> (SchedulerState<J>, NewJob<J>) {
    if !s.accept_jobs {
        (s, NewJob::Rejected(job))
    } else if !spec_limit_reached(s.running as int, s.max_concurrent) {
        (SchedulerState { running: s.running + 1, ..s }, NewJob::Started(job))
    } else {
        let (queue, dropped) = spec_enqueue(s.queue, s.queue_size, s.queue_type, job);
        (SchedulerState { queue, ..s }, NewJob::Queued { dropped })
    }
}

/// The state after a running job finished in scheduler state `s`, and the
/// queued job that takes its slot, if any.
pub open spec fn spec_job_finished<J>(s: SchedulerState<J>) -> (SchedulerState<J>, Option<J>) {
    if s.process_queue && s.queue.len() > 0 {
        let (job, queue) = spec_unqueue(s.queue, s.queue_type);
        (SchedulerState { queue, ..s }, Some(job))
    } else {
        (SchedulerState { running: (s.running - 1) as nat, ..s }, None)
    }
}

/// Whether a queue of `len` jobs is at its bound.
pub open spec fn queue_full(len: int, queue_size: Option<usize>) -> bool {
    queue_size matches Some(n) && len >= n
}

/// Queueing keeps every job while there is room: below the bound (always so
/// without a bound) the job is appended at the end and nothing is dropped;
/// and a job is dropped only when the queue is at its bound.
pub proof fn lemma_enqueue_keeps_jobs_below_bound<J>(queue: Seq<J>, queue_size: Option<usize>, queue_type: QueueType, job: J)
    ensures
        !queue_full(queue.len() as int, queue_size) ==> spec_enqueue(queue, queue_size, queue_type, job) == (
        queue.push(job), None::<J>),
        spec_enqueue(queue, queue_size, queue_type, job).1 is Some ==> queue_full(queue.len() as int, queue_size),
        spec_enqueue(queue, queue_size, queue_type, job).0.len() <= queue.len() + 1,
{
}

/// Taking a job out of a non-empty queue removes exactly that job and keeps
/// the others in order: FIFO takes the first job, LIFO the last one.
pub proof fn lemma_unqueue_removes_one<J>(queue: Seq<J>, queue_type: QueueType)
    requires
        queue.len() > 0,
    ensures
        queue_type == QueueType::Fifo ==> spec_unqueue(queue, queue_type) == (queue[0], queue.remove(0)),
        queue_type == QueueType::Lifo ==> spec_unqueue(queue, queue_type) == (
            queue[queue.len() - 1],
            queue.remove(queue.len() - 1),
        ),
{
    assert(queue.drop_first() =~= queue.remove(0));
    assert(queue.drop_last() =~= queue.remove(queue.len() - 1));
}

/// Taking a job out undoes queueing it under LIFO, and takes the oldest job
/// under FIFO: a job queued with room to spare is the next one out of a LIFO
/// queue, which is left as it was; so a LIFO queue hands its jobs back in the
/// reverse order of posting, and a FIFO queue in the order of posting.
pub proof fn lemma_unqueue_after_enqueue<J>(queue: Seq<J>, queue_size: Option<usize>, job: J)
    requires
        !queue_full(queue.len() as int, queue_size),
    ensures
        spec_unqueue(spec_enqueue(queue, queue_size, QueueType::Lifo, job).0, QueueType::Lifo) == (job, queue),
        queue.len() > 0 ==> spec_unqueue(spec_enqueue(queue, queue_size, QueueType::Fifo, job).0, QueueType::Fifo)
            == (queue[0], queue.drop_first().push(job)),
        queue.len() == 0 ==> spec_unqueue(spec_enqueue(queue, queue_size, QueueType::Fifo, job).0, QueueType::Fifo)
            == (job, queue),
{
    assert(queue.push(job).drop_last() =~= queue);
    if queue.len() > 0 {
        assert(queue.push(job).drop_first() =~= queue.drop_first().push(job));
    } else {
        assert(queue.push(job).drop_first() =~= queue);
    }
}

/// The jobs that a post hands back or drops, as a multiset.
pub open spec fn outcome_jobs<J>(outcome: NewJob<J>) -> Multiset<J> {
    match outcome {
        NewJob::Rejected(j) => Multiset::singleton(j),
        NewJob::Started(j) => Multiset::singleton(j),
        NewJob::Queued { dropped: None } => Multiset::empty(),
        NewJob::Queued { dropped: Some(j) } => Multiset::singleton(j),
    }
}

/// No job is lost or made up by a post: the jobs queued before it and the
/// posted job are exactly the jobs queued after it and the job handed back
/// (rejected, to start, or dropped), counted with multiplicity.
pub proof fn lemma_post_keeps_jobs<J>(s: SchedulerState<J>, job: J)
    ensures
        ({
            let (s2, outcome) = spec_new_job(s, job);
            s2.queue.to_multiset().add(outcome_jobs(outcome)) =~= s.queue.to_multiset().insert(job)
        }),
{
    broadcast use vstd::seq_lib::group_to_multiset_ensures;
    broadcast use vstd::multiset::group_multiset_axioms;

    let q = s.queue;
    if s.accept_jobs && spec_limit_reached(s.running as int, s.max_concurrent) && spec_limit_reached(
        q.len() as int,
        s.queue_size,
    ) && s.queue_type == QueueType::Lifo && q.len() > 0 {
        assert(q.drop_first() =~= q.remove(0));
        assert(q.drop_first().to_multiset() =~= q.to_multiset().remove(q[0]));
        assert(q.to_multiset().count(q[0]) > 0);
    }
}

/// Queue order under FIFO: a post keeps the queued jobs in place and, if it
/// queues the new job, puts it last; and the job taken out is the oldest.
pub proof fn lemma_fifo_order<J>(queue: Seq<J>, queue_size: Option<usize>, job: J)
    ensures
        ({
            let (q2, _) = spec_enqueue(queue, queue_size, QueueType::Fifo, job);
            q2 == queue || q2 == queue.push(job)
        }),
        queue.len() > 0 ==> spec_unqueue(queue, QueueType::Fifo).0 == queue[0],
{
}

/// Queue order under LIFO: when the bound leaves room for a queue at all, a
/// posted job that is queued is the one taken out next.
pub proof fn lemma_lifo_newest_first<J>(queue: Seq<J>, queue_size: Option<usize>, job: J)
    requires
        queue_size != Some(0usize),
    ensures
        ({
            let (q2, _) = spec_enqueue(queue, queue_size, QueueType::Lifo, job);
            q2.len() > 0 && spec_unqueue(q2, QueueType::Lifo).0 == job
        }),
{
}

/// A finished job keeps a scheduler well formed, leaves whether it accepts
/// jobs alone, and lowers its pending work by exactly one.
pub proof fn lemma_job_finished_step<J>(s: SchedulerState<J>)
    requires
        s.wf(),
        s.running > 0,
    ensures
        spec_job_finished(s).0.wf(),
        spec_job_finished(s).0.accept_jobs == s.accept_jobs,
        spec_job_finished(s).0.pending_work() + 1 == s.pending_work(),
{
}

/// The state after the running jobs of `s` finish one at a time, `n` of
/// them at most, each finished job making room for a queued one where the
/// queue is still processed; it stops early when no job runs.
pub open spec fn spec_drain<J>(s: SchedulerState<J>, n: nat) -> SchedulerState<J>
    decreases n,
{
    if n == 0 || s.running == 0 {
        s
    } else {
        spec_drain(spec_job_finished(s).0, (n - 1) as nat)
    }
}

/// A stopped scheduler ends: once it accepts no jobs, it is active exactly
/// while jobs run (so another job will finish), and after at most
/// `pending_work` finished jobs (each a valid step, with a job running) it
/// is no longer active and its loop returns. When the queue is still
/// processed and a job runs whenever jobs wait, every queued job has been
/// started by then.
pub proof fn lemma_stopped_scheduler_ends<J>(s: SchedulerState<J>)
    requires
        s.wf(),
        !s.accept_jobs,
    ensures
        s.active() <==> s.running > 0,
        s.running <= s.pending_work(),
        !spec_drain(s, s.pending_work()).active(),
        spec_drain(s, s.pending_work()).running == 0,
        s.process_queue && (s.queue.len() > 0 ==> s.running > 0) ==> spec_drain(
            s,
            s.pending_work(),
        ).queue.len() == 0,
    decreases s.pending_work(),
{
    if s.running > 0 {
        let s2 = spec_job_finished(s).0;
        lemma_job_finished_step(s);
        lemma_stopped_scheduler_ends(s2);
        assert(spec_drain(s, s.pending_work()) == spec_drain(s2, s2.pending_work()));
    }
}

/// The decisions of one hook's job scheduler: how many jobs run, which jobs
/// wait in the queue, and whether it still takes new jobs. Starting and
/// awaiting the jobs is left to the caller, which reports each event here and
/// acts on the answer.
pub struct Scheduler<J> {
    max_concurrent: Option<usize>,
    queue_size: Option<usize>,
    queue_type: QueueType,
    running: usize,
    queue: VecDeque<J>,
    accept_jobs: bool,
    process_queue: bool,
}

impl<J> View for Scheduler<J> {
    type V = SchedulerState<J>;

    closed spec fn view(&self) -> SchedulerState<J> {
        SchedulerState {
            max_concurrent: self.max_concurrent,
            queue_size: self.queue_size,
            queue_type: self.queue_type,
            running: self.running as nat,
            queue: self.queue@,
            accept_jobs: self.accept_jobs,
            process_queue: self.process_queue,
        }
    }
}

impl<J> Scheduler<J> {
    #[verifier::type_invariant]
    spec fn well_formed(self) -> bool {
        self@.wf()
    }

    /// A scheduler that runs at most `max_concurrent` jobs at once (`None`:
    /// no limit) and queues at most `queue_size` more (`None`: no limit).
    pub fn new(max_concurrent: Option<usize>, queue_size: Option<usize>, queue_type: QueueType) -> (s: Self)
        ensures
            s@ == (SchedulerState::<J> {
                max_concurrent,
                queue_size,
                queue_type,
                running: 0,
                queue: Seq::empty(),
                accept_jobs: true,
                process_queue: true,
            }),
            s@.wf(),
    {
        Scheduler {
            max_concurrent,
            queue_size,
            queue_type,
            running: 0,
            queue: VecDeque::new(),
            accept_jobs: true,
            process_queue: true,
        }
    }

    /// The number of jobs that run now.
    pub fn jobs_running(&self) -> (r: usize)
        ensures
            r == self@.running,
            self@.wf(),
    {
        proof {
            use_type_invariant(self);
        }
        self.running
    }

    /// The number of jobs that wait in the queue.
    pub fn jobs_queued(&self) -> (r: usize)
        ensures
            r == self@.queue.len(),
    {
        self.queue.len()
    }

    /// Whether new jobs are still accepted.
    pub fn accepts_jobs(&self) -> (r: bool)
        ensures
            r == self@.accept_jobs,
    {
        self.accept_jobs
    }

    /// Whether the scheduler must keep going: it still accepts jobs, or
    /// jobs still run.
    pub fn is_active(&self) -> (r: bool)
        ensures
            r == self@.active(),
    {
        self.accept_jobs || self.running > 0
    }

    /// Posts a job. When it is not rejected and a job slot is free it is
    /// handed back to be started; otherwise it goes to the queue.
    pub fn post(&mut self, job: J) -> (r: NewJob<J>)
        requires
            old(self)@.max_concurrent is None ==> old(self)@.running < usize::MAX,
        ensures
            (final(self)@, r) == spec_new_job(old(self)@, job),
            final(self)@.wf(),
            old(self)@.accept_jobs && spec_limit_reached(old(self)@.running as int, old(self)@.max_concurrent)
                && !queue_full(old(self)@.queue.len() as int, old(self)@.queue_size) ==> (r == (NewJob::<J>::Queued {
                dropped: None,
            }) && final(self)@.queue == old(self)@.queue.push(job)),
            (r matches NewJob::Queued { dropped: Some(_) }) ==> queue_full(
                old(self)@.queue.len() as int,
                old(self)@.queue_size,
            ),
    {
        proof {
            use_type_invariant(&*self);
            lemma_enqueue_keeps_jobs_below_bound(self.queue@, self.queue_size, self.queue_type, job);
        }
        if !self.accept_jobs {
            NewJob::Rejected(job)
        } else if !limit_reached(self.running, self.max_concurrent) {
            // A free job slot means an empty queue.
            assert(self.queue@.len() == 0);
            self.running = self.running + 1;
            NewJob::Started(job)
        } else {
            let mut queue = VecDeque::new();
            std::mem::swap(&mut queue, &mut self.queue);
            let dropped = enqueue(&mut queue, self.queue_size, self.queue_type, job);
            self.queue = queue;
            NewJob::Queued { dropped }
        }
    }

    /// Reports that a running job finished. Unless the queue is no longer
    /// processed, the next queued job (if any) takes its slot and is handed
    /// back to be started.
    pub fn handle_job_finished(&mut self) -> (next: Option<J>)
        requires
            old(self)@.running > 0,
        ensures
            (final(self)@, next) == spec_job_finished(old(self)@),
            final(self)@.wf(),
            final(self)@.pending_work() + 1 == old(self)@.pending_work(),
            next is Some ==> old(self)@.queue.len() > 0,
            (next is Some && old(self)@.queue_type == QueueType::Fifo) ==> (next == Some(old(self)@.queue[0])
                && final(self)@.queue == old(self)@.queue.remove(0)),
            (next is Some && old(self)@.queue_type == QueueType::Lifo) ==> (next == Some(
                old(self)@.queue[old(self)@.queue.len() - 1],
            ) && final(self)@.queue == old(self)@.queue.remove(old(self)@.queue.len() - 1)),
            next is None ==> final(self)@.queue == old(self)@.queue,
    {
        proof {
            use_type_invariant(&*self);
            if self.queue@.len() > 0 {
                lemma_unqueue_removes_one(self.queue@, self.queue_type);
            }
        }
        if !self.process_queue {
            self.running = self.running - 1;
            None
        } else {
            let mut queue = VecDeque::new();
            std::mem::swap(&mut queue, &mut self.queue);
            let next = unqueue(&mut queue, self.queue_type);
            self.queue = queue;
            match next {
                Some(job) => Some(job),
                None => {
                    self.running = self.running - 1;
                    None
                },
            }
        }
    }

    /// Stops taking new jobs. With `finish_queue` the queued jobs still run
    /// as job slots come free; without it they never run.
    pub fn stop(&mut self, finish_queue: bool)
        ensures
            final(self)@ == (SchedulerState {
                accept_jobs: false,
                process_queue: finish_queue,
                ..old(self)@
            }),
            final(self)@.wf(),
    {
        proof {
            use_type_invariant(&*self);
        }
        self.accept_jobs = false;
        self.process_queue = finish_queue;
    }

    /// Reports a change of the daemon-wide stop signal: `Some(true)` asks to
    /// stop, and so does `None` (the signal is gone). Stopping this way also
    /// abandons the queue.
    pub fn handle_stop_signal(&mut self, stop: Option<bool>)
        ensures
            final(self)@ == (if stop != Some(false) {
                SchedulerState { accept_jobs: false, process_queue: false, ..old(self)@ }
            } else {
                old(self)@
            }),
            final(self)@.wf(),
    {
        proof {
            use_type_invariant(&*self);
        }
        let stopping = match stop {
            Some(b) => b,
            None => true,
        };
        if stopping {
            self.accept_jobs = false;
            self.process_queue = false;
        }
    }
}

/// Adds `job` to a queue with the given bound and type; the job that the
/// bound made it drop, if any.
fn enqueue<J>(queue: &mut VecDeque<J>, queue_size: Option<usize>, queue_type: QueueType, job: J) -> (dropped: Option<J>)
    ensures
        (final(queue)@, dropped) == spec_enqueue(old(queue)@, queue_size, queue_type, job),
{
    if limit_reached(queue.len(), queue_size) {
        match queue_type {
            // Keep the older jobs: the new one is dropped.
            QueueType::Fifo => Some(job),
            QueueType::Lifo => {
                // Drop the oldest job to make room for the new one.
                match queue.pop_front() {
                    None => Some(job),
                    Some(oldest) => {
                        queue.push_back(job);
                        Some(oldest)
                    },
                }
            },
        }
    } else {
        queue.push_back(job);
        None
    }
}

/// Takes the next job out of a queue: the oldest for FIFO, the newest for
/// LIFO; `None`, with the queue unchanged, when it is empty.
fn unqueue<J>(queue: &mut VecDeque<J>, queue_type: QueueType) -> (job: Option<J>)
    ensures
        old(queue)@.len() == 0 ==> job is None && final(queue)@ == old(queue)@,
        old(queue)@.len() > 0 ==> job is Some && (job->0, final(queue)@) == spec_unqueue(
            old(queue)@,
            queue_type,
        ),
{
    match queue_type {
        QueueType::Fifo => queue.pop_front(),
        QueueType::Lifo => queue.pop_back(),
    }
}

} // verus!
