use vstd::prelude::*;
use crate::job::{
    is_finished_shape, is_queued_shape, is_running_shape, same_job, EncodingJob, JobId,
};
use crate::stats::EncodingStats;
use crate::status::JobStatus;

verus! {

/// Why a queue operation was refused.
#[derive(Debug, Clone, Copy, PartialEq, Eq, Structural)]
pub enum QueueError {
    /// The daemon is draining and takes no new jobs.
    NotAccepting,
    /// A job with this id is already known.
    DuplicateId(JobId),
    /// No job with this id where the operation looks for it.
    NotFound(JobId),
    /// Retry asked for a job that is not a failed history entry.
    NotFoundOrNotFailed(JobId),
    /// The job exists but is not running, so it has no statistics.
    NoStats(JobId),
    /// A restored snapshot repeats an id or holds a job in the wrong state.
    Malformed,
}

/// Lifecycle notification produced by the queue, in the order generated.
#[derive(Debug, Clone)]
pub enum QueueEvent {
    JobAdded(JobId),
    JobStarted(JobId),
    JobProgress(JobId, EncodingStats),
    JobCompleted(JobId),
    JobFailed(JobId, String),
    JobCancelled(JobId),
}

/// What a successful cancel did.
#[derive(Debug, Clone, Copy, PartialEq, Eq, Structural)]
pub enum CancelOutcome {
    /// The job is running: the caller must signal its executor, and the
    /// job leaves the active set once the executor returns.
    SignalRunning,
    /// The job was still queued and is now in the history as cancelled.
    RemovedFromQueue,
}

/// How an executor run ended.
#[derive(Debug, Clone)]
pub enum JobOutcome {
    Completed,
    Failed(String),
    Cancelled,
}

/// The persisted triple of partitions.
#[derive(Debug, Clone)]
pub struct PersistedState {
    pub queue: Vec<EncodingJob>,
    pub active: Vec<EncodingJob>,
    pub history: Vec<EncodingJob>,
}

impl Default for PersistedState {
    fn default() -> (r: Self)
        ensures
            r.queue@.len() == 0,
            r.active@.len() == 0,
            r.history@.len() == 0,
    {
        PersistedState { queue: Vec::new(), active: Vec::new(), history: Vec::new() }
    }
}

pub open spec fn ids_distinct(s: Seq<EncodingJob>) -> bool {
    forall|i: int, j: int| 0 <= i < s.len() && 0 <= j < s.len() && i != j ==> s[i].id != s[j].id
}

pub open spec fn ids_disjoint(s: Seq<EncodingJob>, t: Seq<EncodingJob>) -> bool {
    forall|i: int, j: int| 0 <= i < s.len() && 0 <= j < t.len() ==> s[i].id != t[j].id
}

pub open spec fn has_id(s: Seq<EncodingJob>, id: JobId) -> bool {
    exists|i: int| 0 <= i < s.len() && s[i].id == id
}

pub open spec fn index_of_id(s: Seq<EncodingJob>, id: JobId) -> int
    recommends
        has_id(s, id),
{
    choose|i: int| 0 <= i < s.len() && s[i].id == id
}

pub open spec fn all_queued(s: Seq<EncodingJob>) -> bool {
    forall|i: int| 0 <= i < s.len() ==> is_queued_shape(#[trigger] s[i])
}

pub open spec fn all_running(s: Seq<EncodingJob>) -> bool {
    forall|i: int| 0 <= i < s.len() ==> is_running_shape(#[trigger] s[i])
}

pub open spec fn all_finished(s: Seq<EncodingJob>) -> bool {
    forall|i: int| 0 <= i < s.len() ==> is_finished_shape(#[trigger] s[i])
}

/// A job as it re-enters the queue: queued, with statistics, error and
/// timestamps cleared.
pub open spec fn requeued(j: EncodingJob) -> EncodingJob {
    EncodingJob {
        status: JobStatus::Queued,
        stats: None,
        error_message: None,
        started_at: None,
        finished_at: None,
        ..j
    }
}

/// Owner of the three partitions and of the admission gate.
pub struct QueueManager {
    queue: Vec<EncodingJob>,
    active: Vec<EncodingJob>,
    history: Vec<EncodingJob>,
    max_concurrent: usize,
    accepting_jobs: bool,
    events: Vec<QueueEvent>,
}


/// Position of the job with the given id, if any.
fn find_id(v: &Vec<EncodingJob>, id: JobId) -> (r: Option<usize>)
    ensures
        match r {
            Some(i) => i < v@.len() && v@[i as int].id == id,
            None => !has_id(v@, id),
        },
{
    let mut i: usize = 0;
    while i < v.len()
        invariant
            i <= v@.len(),
            forall|k: int| 0 <= k < i ==> v@[k].id != id,
        decreases v@.len() - i,
    {
        if v[i].id == id {
            return Some(i);
        }
        i = i + 1;
    }
    None
}

/// Whether no two jobs of `v` share an id.
fn all_ids_distinct(v: &Vec<EncodingJob>) -> (r: bool)
    ensures
        r == ids_distinct(v@),
{
    let n = v.len();
    let mut i: usize = 0;
    while i < n
        invariant
            n == v@.len(),
            i <= n,
            forall|a: int, b: int| 0 <= b < a < i ==> v@[a].id != v@[b].id,
        decreases n - i,
    {
        let mut j: usize = 0;
        while j < i
            invariant
                n == v@.len(),
                j <= i < n,
                forall|a: int, b: int| 0 <= b < a < i ==> v@[a].id != v@[b].id,
                forall|b: int| 0 <= b < j ==> v@[i as int].id != v@[b].id,
            decreases i - j,
        {
            if v[i].id == v[j].id {
                return false;
            }
            j = j + 1;
        }
        i = i + 1;
    }
    proof {
        assert forall|a: int, b: int| 0 <= a < v@.len() && 0 <= b < v@.len() && a != b implies v@[a].id
            != v@[b].id by {
            if a < b {
                assert(v@[b].id != v@[a].id);
            }
        }
    }
    true
}

/// Whether no job of `a` shares an id with a job of `b`.
fn no_shared_ids(a: &Vec<EncodingJob>, b: &Vec<EncodingJob>) -> (r: bool)
    ensures
        r == ids_disjoint(a@, b@),
{
    let mut i: usize = 0;
    while i < a.len()
        invariant
            i <= a@.len(),
            forall|x: int, y: int| 0 <= x < i && 0 <= y < b@.len() ==> a@[x].id != b@[y].id,
        decreases a@.len() - i,
    {
        if find_id(b, a[i].id).is_some() {
            return false;
        }
        i = i + 1;
    }
    true
}

fn queued_shape(j: &EncodingJob) -> (r: bool)
    ensures
        r == is_queued_shape(*j),
{
    j.status == JobStatus::Queued && j.stats.is_none() && j.error_message.is_none()
        && j.started_at.is_none() && j.finished_at.is_none()
}

fn finished_shape(j: &EncodingJob) -> (r: bool)
    ensures
        r == is_finished_shape(*j),
{
    j.status.is_terminal() && j.stats.is_none() && (j.error_message.is_some() == (j.status
        == JobStatus::Failed))
}

fn all_match(v: &Vec<EncodingJob>, finished: bool) -> (r: bool)
    ensures
        r == (if finished {
            all_finished(v@)
        } else {
            all_queued(v@)
        }),
{
    let mut i: usize = 0;
    while i < v.len()
        invariant
            i <= v@.len(),
            forall|k: int|
                0 <= k < i ==> (if finished {
                    is_finished_shape(#[trigger] v@[k])
                } else {
                    is_queued_shape(v@[k])
                }),
        decreases v@.len() - i,
    {
        let ok = if finished {
            finished_shape(&v[i])
        } else {
            queued_shape(&v[i])
        };
        if !ok {
            return false;
        }
        i = i + 1;
    }
    true
}

/// Reset a job so that it can wait in the queue again.
fn requeue(j: EncodingJob) -> (r: EncodingJob)
    ensures
        r == requeued(j),
{
    let mut j = j;
    j.status = JobStatus::Queued;
    j.stats = None;
    j.error_message = None;
    j.started_at = None;
    j.finished_at = None;
    j
}

/// Pairwise the same jobs, in the same order.
pub open spec fn same_jobs(a: Seq<EncodingJob>, b: Seq<EncodingJob>) -> bool {
    &&& a.len() == b.len()
    &&& forall|i: int| 0 <= i < a.len() ==> same_job(#[trigger] a[i], b[i])
}

pub(crate) fn copy_jobs(v: &Vec<EncodingJob>) -> (r: Vec<EncodingJob>)
    ensures
        same_jobs(v@, r@),
{
    let mut out: Vec<EncodingJob> = Vec::new();
    let mut i: usize = 0;
    while i < v.len()
        invariant
            i <= v@.len(),
            out@.len() == i,
            forall|k: int| 0 <= k < i ==> same_job(#[trigger] v@[k], out@[k]),
        decreases v@.len() - i,
    {
        out.push(v[i].duplicate());
        i = i + 1;
    }
    out
}

/// `s` holds the same three partitions as `m`.
pub open spec fn is_snapshot_of(s: PersistedState, m: QueueManager) -> bool {
    &&& same_jobs(m.queue_jobs(), s.queue@)
    &&& same_jobs(m.active_jobs(), s.active@)
    &&& same_jobs(m.history_jobs(), s.history@)
}

/// The queue rebuilt from a snapshot: its queue, then its interrupted
/// jobs, in their stored order, all in queued state with statistics,
/// error and timestamps cleared.
pub open spec fn restored_queue(s: PersistedState) -> Seq<EncodingJob> {
    (s.queue@ + s.active@).map_values(|j: EncodingJob| requeued(j))
}

/// A snapshot can be restored next to the given running jobs: ids are
/// unique over all of it and those jobs, and every history entry is
/// finished (terminal, without statistics, with an error exactly when it
/// failed).
pub open spec fn restorable(s: PersistedState, running: Seq<EncodingJob>) -> bool {
    let q = restored_queue(s);
    &&& all_finished(s.history@)
    &&& ids_distinct(q)
    &&& ids_distinct(s.history@)
    &&& ids_disjoint(q, running)
    &&& ids_disjoint(q, s.history@)
    &&& ids_disjoint(running, s.history@)
}

impl QueueManager {
    pub closed spec fn queue_jobs(&self) -> Seq<EncodingJob> {
        self.queue@
    }

    pub closed spec fn active_jobs(&self) -> Seq<EncodingJob> {
        self.active@
    }

    pub closed spec fn history_jobs(&self) -> Seq<EncodingJob> {
        self.history@
    }

    pub closed spec fn max_jobs(&self) -> nat {
        self.max_concurrent as nat
    }

    pub closed spec fn is_accepting(&self) -> bool {
        self.accepting_jobs
    }

    /// Notifications produced and not yet taken.
    pub closed spec fn pending_events(&self) -> Seq<QueueEvent> {
        self.events@
    }

    /// Each job sits in one partition in the state that partition
    /// requires, ids are unique over all three, and no more jobs run than
    /// the limit allows.
    pub open spec fn wf(&self) -> bool {
        &&& all_queued(self.queue_jobs())
        &&& all_running(self.active_jobs())
        &&& all_finished(self.history_jobs())
        &&& ids_distinct(self.queue_jobs())
        &&& ids_distinct(self.active_jobs())
        &&& ids_distinct(self.history_jobs())
        &&& ids_disjoint(self.queue_jobs(), self.active_jobs())
        &&& ids_disjoint(self.queue_jobs(), self.history_jobs())
        &&& ids_disjoint(self.active_jobs(), self.history_jobs())
        &&& self.active_jobs().len() <= self.max_jobs()
    }

    pub open spec fn knows(&self, id: JobId) -> bool {
        has_id(self.queue_jobs(), id) || has_id(self.active_jobs(), id) || has_id(
            self.history_jobs(),
            id,
        )
    }

    /// An empty manager that accepts jobs and runs at most
    /// `max_concurrent` of them at once.
    pub fn new(max_concurrent: usize) -> (r: Self)
        ensures
            r.wf(),
            r.queue_jobs().len() == 0,
            r.active_jobs().len() == 0,
            r.history_jobs().len() == 0,
            r.max_jobs() == max_concurrent,
            r.is_accepting(),
            r.pending_events().len() == 0,
    {
        QueueManager {
            queue: Vec::new(),
            active: Vec::new(),
            history: Vec::new(),
            max_concurrent,
            accepting_jobs: true,
            events: Vec::new(),
        }
    }

    /// Append a job to the tail of the queue, in queued state.
    pub fn add_job(&mut self, job: EncodingJob) -> (r: Result<JobId, QueueError>)
        requires
            old(self).wf(),
        ensures
            final(self).wf(),
            final(self).max_jobs() == old(self).max_jobs(),
            final(self).is_accepting() == old(self).is_accepting(),
            !old(self).is_accepting() ==> r == Err::<JobId, QueueError>(QueueError::NotAccepting)
                && *final(self) == *old(self),
            old(self).is_accepting() && old(self).knows(job.id) ==> r == Err::<JobId, QueueError>(
                QueueError::DuplicateId(job.id),
            ) && *final(self) == *old(self),
            old(self).is_accepting() && !old(self).knows(job.id) ==> {
                &&& r == Ok::<JobId, QueueError>(job.id)
                &&& final(self).queue_jobs() == old(self).queue_jobs().push(requeued(job))
                &&& final(self).active_jobs() == old(self).active_jobs()
                &&& final(self).history_jobs() == old(self).history_jobs()
                &&& final(self).pending_events() == old(self).pending_events().push(
                    QueueEvent::JobAdded(job.id),
                )
            },
    {
        if !self.accepting_jobs {
            return Err(QueueError::NotAccepting);
        }
        let id = job.id;
        if find_id(&self.queue, id).is_some() || find_id(&self.active, id).is_some() || find_id(
            &self.history,
            id,
        ).is_some() {
            return Err(QueueError::DuplicateId(id));
        }
        let mut job = job;
        job.status = JobStatus::Queued;
        job.stats = None;
        job.error_message = None;
        job.started_at = None;
        job.finished_at = None;
        self.queue.push(job);
        self.events.push(QueueEvent::JobAdded(id));
        proof {
            let q = self.queue@;
            assert(forall|i: int| 0 <= i < q.len() - 1 ==> q[i] == old(self).queue@[i]);
        }
        Ok(id)
    }

    /// Cancel a job. A running job is only signalled; a queued job moves
    /// straight to the history as cancelled, never having started.
    pub fn cancel_job(&mut self, id: JobId) -> (r: Result<CancelOutcome, QueueError>)
        requires
            old(self).wf(),
        ensures
            final(self).wf(),
            final(self).max_jobs() == old(self).max_jobs(),
            final(self).is_accepting() == old(self).is_accepting(),
            has_id(old(self).active_jobs(), id) ==> r == Ok::<CancelOutcome, QueueError>(
                CancelOutcome::SignalRunning,
            ) && *final(self) == *old(self),
            !has_id(old(self).active_jobs(), id) && has_id(old(self).queue_jobs(), id) ==> {
                let k = index_of_id(old(self).queue_jobs(), id);
                let j = old(self).queue_jobs()[k];
                &&& r == Ok::<CancelOutcome, QueueError>(CancelOutcome::RemovedFromQueue)
                &&& final(self).queue_jobs() == old(self).queue_jobs().remove(k)
                &&& final(self).active_jobs() == old(self).active_jobs()
                &&& final(self).history_jobs().len() == old(self).history_jobs().len() + 1
                &&& final(self).history_jobs().drop_last() == old(self).history_jobs()
                &&& final(self).history_jobs().last() == (EncodingJob {
                    status: JobStatus::Cancelled,
                    finished_at: final(self).history_jobs().last().finished_at,
                    ..j
                })
                &&& final(self).history_jobs().last().started_at.is_none()
                &&& final(self).history_jobs().last().finished_at.is_some()
                &&& final(self).pending_events() == old(self).pending_events().push(
                    QueueEvent::JobCancelled(id),
                )
            },
            !has_id(old(self).active_jobs(), id) && !has_id(old(self).queue_jobs(), id) ==> r
                == Err::<CancelOutcome, QueueError>(QueueError::NotFound(id)) && *final(self)
                == *old(self),
    {
        if find_id(&self.active, id).is_some() {
            return Ok(CancelOutcome::SignalRunning);
        }
        match find_id(&self.queue, id) {
            None => Err(QueueError::NotFound(id)),
            Some(k) => {
                proof {
                    assert(old(self).queue@[k as int].id == id);
                    assert(is_queued_shape(old(self).queue@[k as int]));
                    assert(index_of_id(old(self).queue@, id) == k) by {
                        let c = index_of_id(old(self).queue@, id);
                        assert(0 <= c < old(self).queue@.len() && old(self).queue@[c].id == id);
                    }
                }
                let mut job = self.queue.remove(k);
                job.mark_cancelled();
                self.history.push(job);
                self.events.push(QueueEvent::JobCancelled(id));
                proof {
                    let oq = old(self).queue@;
                    let oh = old(self).history@;
                    let h = self.history@;
                    assert(h.drop_last() =~= oh);
                    assert(forall|i: int| 0 <= i < oh.len() ==> h[i] == oh[i]);
                    assert(forall|i: int|
                        0 <= i < self.queue@.len() ==> self.queue@[i] == (if i < k {
                            oq[i]
                        } else {
                            oq[i + 1]
                        }));
                }
                Ok(CancelOutcome::RemovedFromQueue)
            },
        }
    }

    /// Put a failed history entry back at the tail of the queue, with its
    /// error, statistics and timestamps cleared.
    pub fn retry_job(&mut self, id: JobId) -> (r: Result<(), QueueError>)
        requires
            old(self).wf(),
        ensures
            final(self).wf(),
            final(self).max_jobs() == old(self).max_jobs(),
            final(self).is_accepting() == old(self).is_accepting(),
            ({
                let h = old(self).history_jobs();
                let k = index_of_id(h, id);
                if has_id(h, id) && h[k].status == JobStatus::Failed {
                    &&& r == Ok::<(), QueueError>(())
                    &&& final(self).history_jobs() == h.remove(k)
                    &&& final(self).queue_jobs() == old(self).queue_jobs().push(requeued(h[k]))
                    &&& final(self).active_jobs() == old(self).active_jobs()
                    &&& final(self).pending_events() == old(self).pending_events().push(
                        QueueEvent::JobAdded(id),
                    )
                } else {
                    &&& r == Err::<(), QueueError>(QueueError::NotFoundOrNotFailed(id))
                    &&& *final(self) == *old(self)
                }
            }),
    {
        match find_id(&self.history, id) {
            None => Err(QueueError::NotFoundOrNotFailed(id)),
            Some(k) => {
                proof {
                    assert(index_of_id(old(self).history@, id) == k) by {
                        let c = index_of_id(old(self).history@, id);
                        assert(0 <= c < old(self).history@.len() && old(self).history@[c].id == id);
                    }
                }
                if self.history[k].status != JobStatus::Failed {
                    return Err(QueueError::NotFoundOrNotFailed(id));
                }
                let mut job = self.history.remove(k);
                job.status = JobStatus::Queued;
                job.error_message = None;
                job.stats = None;
                job.started_at = None;
                job.finished_at = None;
                self.queue.push(job);
                self.events.push(QueueEvent::JobAdded(id));
                proof {
                    let oh = old(self).history@;
                    let oq = old(self).queue@;
                    assert(forall|i: int| 0 <= i < oq.len() ==> self.queue@[i] == oq[i]);
                    assert(forall|i: int|
                        0 <= i < self.history@.len() ==> self.history@[i] == (if i < k {
                            oh[i]
                        } else {
                            oh[i + 1]
                        }));
                }
                Ok(())
            },
        }
    }

    /// Drop one entry from the history.
    pub fn remove_from_history(&mut self, id: JobId) -> (r: Result<(), QueueError>)
        requires
            old(self).wf(),
        ensures
            final(self).wf(),
            final(self).max_jobs() == old(self).max_jobs(),
            final(self).is_accepting() == old(self).is_accepting(),
            final(self).queue_jobs() == old(self).queue_jobs(),
            final(self).active_jobs() == old(self).active_jobs(),
            final(self).pending_events() == old(self).pending_events(),
            has_id(old(self).history_jobs(), id) ==> r == Ok::<(), QueueError>(())
                && final(self).history_jobs() == old(self).history_jobs().remove(
                index_of_id(old(self).history_jobs(), id),
            ),
            !has_id(old(self).history_jobs(), id) ==> r == Err::<(), QueueError>(
                QueueError::NotFound(id),
            ) && *final(self) == *old(self),
    {
        match find_id(&self.history, id) {
            None => Err(QueueError::NotFound(id)),
            Some(k) => {
                proof {
                    assert(index_of_id(old(self).history@, id) == k) by {
                        let c = index_of_id(old(self).history@, id);
                        assert(0 <= c < old(self).history@.len() && old(self).history@[c].id == id);
                    }
                }
                let _ = self.history.remove(k);
                proof {
                    let oh = old(self).history@;
                    assert(forall|i: int|
                        0 <= i < self.history@.len() ==> self.history@[i] == (if i < k {
                            oh[i]
                        } else {
                            oh[i + 1]
                        }));
                }
                Ok(())
            },
        }
    }

    /// Empty the history. Always succeeds.
    pub fn clear_history(&mut self) -> (r: Result<(), QueueError>)
        requires
            old(self).wf(),
        ensures
            final(self).wf(),
            r.is_ok(),
            final(self).history_jobs().len() == 0,
            final(self).queue_jobs() == old(self).queue_jobs(),
            final(self).active_jobs() == old(self).active_jobs(),
            final(self).max_jobs() == old(self).max_jobs(),
            final(self).is_accepting() == old(self).is_accepting(),
            final(self).pending_events() == old(self).pending_events(),
    {
        self.history.clear();
        Ok(())
    }

    /// Jobs waiting, head first.
    pub fn get_queue(&self) -> (r: &Vec<EncodingJob>)
        ensures
            r@ == self.queue_jobs(),
    {
        &self.queue
    }

    /// Jobs running now.
    pub fn get_active(&self) -> (r: &Vec<EncodingJob>)
        ensures
            r@ == self.active_jobs(),
    {
        &self.active
    }

    /// Finished jobs, oldest first.
    pub fn get_history(&self) -> (r: &Vec<EncodingJob>)
        ensures
            r@ == self.history_jobs(),
    {
        &self.history
    }

    /// Upper bound on running jobs.
    pub fn max_concurrent(&self) -> (r: usize)
        ensures
            r == self.max_jobs(),
    {
        self.max_concurrent
    }

    /// Whether new jobs are admitted.
    pub fn is_accepting_jobs(&self) -> (r: bool)
        ensures
            r == self.is_accepting(),
    {
        self.accepting_jobs
    }

    /// Look a job up in the queue, then the active set, then the history.
    pub fn get_job(&self, id: JobId) -> (r: Option<&EncodingJob>)
        requires
            self.wf(),
        ensures
            has_id(self.queue_jobs(), id) ==> r == Some(
                &self.queue_jobs()[index_of_id(self.queue_jobs(), id)],
            ),
            !has_id(self.queue_jobs(), id) && has_id(self.active_jobs(), id) ==> r == Some(
                &self.active_jobs()[index_of_id(self.active_jobs(), id)],
            ),
            !has_id(self.queue_jobs(), id) && !has_id(self.active_jobs(), id) && has_id(
                self.history_jobs(),
                id,
            ) ==> r == Some(&self.history_jobs()[index_of_id(self.history_jobs(), id)]),
            !self.knows(id) ==> r.is_none(),
    {
        if let Some(k) = find_id(&self.queue, id) {
            proof {
                let c = index_of_id(self.queue@, id);
                assert(0 <= c < self.queue@.len() && self.queue@[c].id == id);
            }
            return Some(&self.queue[k]);
        }
        if let Some(k) = find_id(&self.active, id) {
            proof {
                let c = index_of_id(self.active@, id);
                assert(0 <= c < self.active@.len() && self.active@[c].id == id);
            }
            return Some(&self.active[k]);
        }
        if let Some(k) = find_id(&self.history, id) {
            proof {
                let c = index_of_id(self.history@, id);
                assert(0 <= c < self.history@.len() && self.history@[c].id == id);
            }
            return Some(&self.history[k]);
        }
        None
    }

    /// Statistics of a running job.
    pub fn get_stats(&self, id: JobId) -> (r: Result<EncodingStats, QueueError>)
        requires
            self.wf(),
        ensures
            has_id(self.active_jobs(), id) ==> r == Ok::<EncodingStats, QueueError>(
                self.active_jobs()[index_of_id(self.active_jobs(), id)].stats.unwrap(),
            ),
            !has_id(self.active_jobs(), id) && self.knows(id) ==> r == Err::<
                EncodingStats,
                QueueError,
            >(QueueError::NoStats(id)),
            !self.knows(id) ==> r == Err::<EncodingStats, QueueError>(QueueError::NotFound(id)),
    {
        match self.get_job(id) {
            None => Err(QueueError::NotFound(id)),
            Some(job) => {
                proof {
                    if has_id(self.active_jobs(), id) {
                        let c = index_of_id(self.active@, id);
                        assert(0 <= c < self.active@.len() && self.active@[c].id == id);
                        assert(is_running_shape(self.active@[c]));
                        assert(!has_id(self.queue@, id)) by {
                            if has_id(self.queue@, id) {
                                let d = index_of_id(self.queue@, id);
                                assert(self.queue@[d].id != self.active@[c].id);
                            }
                        }
                    } else if has_id(self.queue@, id) {
                        let c = index_of_id(self.queue@, id);
                        assert(is_queued_shape(self.queue@[c]));
                    } else if has_id(self.history@, id) {
                        let c = index_of_id(self.history@, id);
                        assert(is_finished_shape(self.history@[c]));
                    }
                }
                match job.stats {
                    Some(stats) => Ok(stats),
                    None => Err(QueueError::NoStats(id)),
                }
            },
        }
    }

    /// Admit the head of the queue if fewer than the limit run. The job
    /// becomes running with fresh statistics and a start time.
    pub fn start_next_job(&mut self) -> (r: Option<JobId>)
        requires
            old(self).wf(),
        ensures
            final(self).wf(),
            final(self).max_jobs() == old(self).max_jobs(),
            final(self).is_accepting() == old(self).is_accepting(),
            final(self).history_jobs() == old(self).history_jobs(),
            old(self).active_jobs().len() < old(self).max_jobs() && old(self).queue_jobs().len()
                > 0 ==> {
                let j = old(self).queue_jobs()[0];
                let n = final(self).active_jobs().last();
                &&& r == Some(j.id)
                &&& final(self).queue_jobs() == old(self).queue_jobs().subrange(
                    1,
                    old(self).queue_jobs().len() as int,
                )
                &&& final(self).active_jobs().drop_last() == old(self).active_jobs()
                &&& final(self).active_jobs().len() == old(self).active_jobs().len() + 1
                &&& n.id == j.id && n.input_path == j.input_path && n.output_path
                    == j.output_path && n.config == j.config && n.created_at == j.created_at
                &&& n.status == JobStatus::Running
                &&& n.stats == Some(EncodingStats::spec_empty())
                &&& n.started_at.is_some()
                &&& final(self).pending_events() == old(self).pending_events().push(
                    QueueEvent::JobStarted(j.id),
                )
            },
            !(old(self).active_jobs().len() < old(self).max_jobs() && old(self).queue_jobs().len()
                > 0) ==> r.is_none() && *final(self) == *old(self),
    {
        if self.active.len() >= self.max_concurrent || self.queue.len() == 0 {
            return None;
        }
        let mut job = self.queue.remove(0);
        proof {
            assert(is_queued_shape(old(self).queue@[0]));
        }
        job.mark_started();
        let id = job.id;
        self.active.push(job);
        self.events.push(QueueEvent::JobStarted(id));
        proof {
            let oq = old(self).queue@;
            let oa = old(self).active@;
            assert(self.queue@ =~= oq.subrange(1, oq.len() as int));
            assert(self.active@.drop_last() =~= oa);
            assert(forall|i: int| 0 <= i < oa.len() ==> self.active@[i] == oa[i]);
            assert(forall|i: int| 0 <= i < self.queue@.len() ==> self.queue@[i] == oq[i + 1]);
        }
        Some(id)
    }

    /// The admission loop: admit queue heads, in order, until the queue is
    /// empty or the limit is reached. Returns the admitted ids in order.
    pub fn dispatch_ready(&mut self) -> (r: Vec<JobId>)
        requires
            old(self).wf(),
        ensures
            final(self).wf(),
            final(self).max_jobs() == old(self).max_jobs(),
            final(self).is_accepting() == old(self).is_accepting(),
            final(self).history_jobs() == old(self).history_jobs(),
            final(self).queue_jobs().len() == 0 || final(self).active_jobs().len()
                == final(self).max_jobs(),
            r@.len() == old(self).queue_jobs().len() - final(self).queue_jobs().len(),
            final(self).queue_jobs() == old(self).queue_jobs().subrange(
                r@.len() as int,
                old(self).queue_jobs().len() as int,
            ),
            forall|i: int| 0 <= i < r@.len() ==> r@[i] == old(self).queue_jobs()[i].id,
            final(self).active_jobs().len() == old(self).active_jobs().len() + r@.len(),
            forall|i: int|
                0 <= i < old(self).active_jobs().len() ==> final(self).active_jobs()[i] == old(self).active_jobs()[i],
            forall|i: int|
                0 <= i < r@.len() ==> final(self).active_jobs()[old(self).active_jobs().len() + i].id
                    == r@[i],
    {
        let mut started: Vec<JobId> = Vec::new();
        loop
            invariant
                self.wf(),
                self.max_jobs() == old(self).max_jobs(),
                self.is_accepting() == old(self).is_accepting(),
                self.history_jobs() == old(self).history_jobs(),
                started@.len() == old(self).queue_jobs().len() - self.queue_jobs().len(),
                self.queue_jobs() == old(self).queue_jobs().subrange(
                    started@.len() as int,
                    old(self).queue_jobs().len() as int,
                ),
                forall|i: int| 0 <= i < started@.len() ==> started@[i] == old(self).queue_jobs()[i].id,
                self.active_jobs().len() == old(self).active_jobs().len() + started@.len(),
                forall|i: int|
                    0 <= i < old(self).active_jobs().len() ==> self.active_jobs()[i] == old(self).active_jobs()[i],
                forall|i: int|
                    0 <= i < started@.len() ==> self.active_jobs()[old(self).active_jobs().len() + i].id
                        == started@[i],
            ensures
                self.queue_jobs().len() == 0 || self.active_jobs().len() == self.max_jobs(),
            decreases self.queue_jobs().len(),
        {
            let ghost before = self.queue_jobs();
            let ghost active_before = self.active_jobs();
            match self.start_next_job() {
                None => break,
                Some(id) => {
                    proof {
                        assert(id == before[0].id);
                        assert(forall|i: int| 0 <= i < active_before.len() ==> self.active_jobs()[i] == active_before[i]);
                        assert(self.queue_jobs() =~= old(self).queue_jobs().subrange(
                            started@.len() as int + 1,
                            old(self).queue_jobs().len() as int,
                        ));
                    }
                    started.push(id);
                },
            }
        }
        started
    }

    /// Record the end of an executor run: the job leaves the active set and
    /// is appended to the history with its terminal state.
    pub fn finish_job(&mut self, id: JobId, outcome: JobOutcome) -> (r: Result<(), QueueError>)
        requires
            old(self).wf(),
        ensures
            final(self).wf(),
            final(self).max_jobs() == old(self).max_jobs(),
            final(self).is_accepting() == old(self).is_accepting(),
            final(self).queue_jobs() == old(self).queue_jobs(),
            has_id(old(self).active_jobs(), id) ==> {
                let k = index_of_id(old(self).active_jobs(), id);
                let j = old(self).active_jobs()[k];
                let n = final(self).history_jobs().last();
                &&& r == Ok::<(), QueueError>(())
                &&& final(self).active_jobs() == old(self).active_jobs().remove(k)
                &&& final(self).history_jobs().drop_last() == old(self).history_jobs()
                &&& final(self).history_jobs().len() == old(self).history_jobs().len() + 1
                &&& n.finished_at.is_some()
                &&& n == (EncodingJob {
                    status: n.status,
                    stats: None,
                    error_message: n.error_message,
                    finished_at: n.finished_at,
                    ..j
                })
                &&& match outcome {
                    JobOutcome::Completed => n.status == JobStatus::Completed
                        && n.error_message.is_none() && final(self).pending_events()
                        == old(self).pending_events().push(QueueEvent::JobCompleted(id)),
                    JobOutcome::Failed(e) => n.status == JobStatus::Failed && n.error_message
                        == Some(e) && final(self).pending_events() == old(self).pending_events().push(QueueEvent::JobFailed(id, e)),
                    JobOutcome::Cancelled => n.status == JobStatus::Cancelled
                        && n.error_message.is_none() && final(self).pending_events()
                        == old(self).pending_events().push(QueueEvent::JobCancelled(id)),
                }
            },
            !has_id(old(self).active_jobs(), id) ==> r == Err::<(), QueueError>(
                QueueError::NotFound(id),
            ) && *final(self) == *old(self),
    {
        match find_id(&self.active, id) {
            None => Err(QueueError::NotFound(id)),
            Some(k) => {
                proof {
                    assert(index_of_id(old(self).active@, id) == k) by {
                        let c = index_of_id(old(self).active@, id);
                        assert(0 <= c < old(self).active@.len() && old(self).active@[c].id == id);
                    }
                    assert(is_running_shape(old(self).active@[k as int]));
                }
                let mut job = self.active.remove(k);
                match outcome {
                    JobOutcome::Completed => {
                        job.mark_completed();
                        self.events.push(QueueEvent::JobCompleted(id));
                    },
                    JobOutcome::Failed(e) => {
                        let msg = e.clone();
                        job.mark_failed(e);
                        self.events.push(QueueEvent::JobFailed(id, msg));
                    },
                    JobOutcome::Cancelled => {
                        job.mark_cancelled();
                        self.events.push(QueueEvent::JobCancelled(id));
                    },
                }
                self.history.push(job);
                proof {
                    let oa = old(self).active@;
                    let oh = old(self).history@;
                    assert(self.history@.drop_last() =~= oh);
                    assert(forall|i: int| 0 <= i < oh.len() ==> self.history@[i] == oh[i]);
                    assert(forall|i: int|
                        0 <= i < self.active@.len() ==> self.active@[i] == (if i < k {
                            oa[i]
                        } else {
                            oa[i + 1]
                        }));
                }
                Ok(())
            },
        }
    }

    /// Store new statistics on a running job and announce them.
    pub fn update_stats(&mut self, id: JobId, stats: EncodingStats) -> (r: Result<(), QueueError>)
        requires
            old(self).wf(),
        ensures
            final(self).wf(),
            final(self).max_jobs() == old(self).max_jobs(),
            final(self).is_accepting() == old(self).is_accepting(),
            final(self).queue_jobs() == old(self).queue_jobs(),
            final(self).history_jobs() == old(self).history_jobs(),
            has_id(old(self).active_jobs(), id) ==> {
                let k = index_of_id(old(self).active_jobs(), id);
                &&& r == Ok::<(), QueueError>(())
                &&& final(self).active_jobs() == old(self).active_jobs().update(
                    k,
                    EncodingJob { stats: Some(stats), ..old(self).active_jobs()[k] },
                )
                &&& final(self).pending_events() == old(self).pending_events().push(
                    QueueEvent::JobProgress(id, stats),
                )
            },
            !has_id(old(self).active_jobs(), id) ==> r == Err::<(), QueueError>(
                QueueError::NotFound(id),
            ) && *final(self) == *old(self),
    {
        match find_id(&self.active, id) {
            None => Err(QueueError::NotFound(id)),
            Some(k) => {
                proof {
                    assert(index_of_id(old(self).active@, id) == k) by {
                        let c = index_of_id(old(self).active@, id);
                        assert(0 <= c < old(self).active@.len() && old(self).active@[c].id == id);
                    }
                }
                let mut job = self.active.remove(k);
                job.stats = Some(stats);
                self.active.insert(k, job);
                self.events.push(QueueEvent::JobProgress(id, stats));
                proof {
                    let oa = old(self).active@;
                    assert(self.active@ =~= oa.update(k as int, EncodingJob { stats: Some(stats), ..oa[k as int] }));
                }
                Ok(())
            },
        }
    }

    /// Close the admission gate: later `add_job` calls fail.
    pub fn stop_accepting_jobs(&mut self)
        requires
            old(self).wf(),
        ensures
            final(self).wf(),
            !final(self).is_accepting(),
            final(self).queue_jobs() == old(self).queue_jobs(),
            final(self).active_jobs() == old(self).active_jobs(),
            final(self).history_jobs() == old(self).history_jobs(),
            final(self).max_jobs() == old(self).max_jobs(),
            final(self).pending_events() == old(self).pending_events(),
    {
        self.accepting_jobs = false;
    }

    /// Hand out the pending notifications, oldest first, and forget them.
    pub fn take_events(&mut self) -> (r: Vec<QueueEvent>)
        requires
            old(self).wf(),
        ensures
            final(self).wf(),
            r@ == old(self).pending_events(),
            final(self).pending_events().len() == 0,
            final(self).queue_jobs() == old(self).queue_jobs(),
            final(self).active_jobs() == old(self).active_jobs(),
            final(self).history_jobs() == old(self).history_jobs(),
            final(self).max_jobs() == old(self).max_jobs(),
            final(self).is_accepting() == old(self).is_accepting(),
    {
        let mut out: Vec<QueueEvent> = Vec::new();
        std::mem::swap(&mut out, &mut self.events);
        out
    }

    /// Replace the queue and history by a snapshot's. Jobs that were
    /// running when it was taken cannot be resumed: they are queued again,
    /// after the stored queue, with statistics and timestamps cleared, as
    /// stored queue entries are. A snapshot that repeats an id, or whose
    /// history holds an unfinished job, is refused as `Malformed`.
    pub fn load_state(&mut self, state: PersistedState) -> (r: Result<(), QueueError>)
        requires
            old(self).wf(),
        ensures
            final(self).wf(),
            final(self).max_jobs() == old(self).max_jobs(),
            final(self).is_accepting() == old(self).is_accepting(),
            final(self).active_jobs() == old(self).active_jobs(),
            final(self).pending_events() == old(self).pending_events(),
            restorable(state, old(self).active_jobs()) ==> r == Ok::<(), QueueError>(())
                && final(self).queue_jobs() == restored_queue(state) && final(self).history_jobs()
                == state.history@,
            !restorable(state, old(self).active_jobs()) ==> r == Err::<(), QueueError>(
                QueueError::Malformed,
            ) && *final(self) == *old(self),
    {
        let ghost s0 = state;
        let PersistedState { queue, active, history } = state;
        if !all_match(&history, true) {
            return Err(QueueError::Malformed);
        }
        let mut pending = queue;
        let mut rest = active;
        pending.append(&mut rest);
        let ghost a0 = pending@;
        proof {
            assert(a0 =~= s0.queue@ + s0.active@);
        }
        let n = pending.len();
        let mut new_queue: Vec<EncodingJob> = Vec::new();
        let mut i: usize = 0;
        while i < n
            invariant
                n == a0.len(),
                i <= n,
                pending@ == a0.subrange(i as int, n as int),
                new_queue@ == a0.subrange(0, i as int).map_values(|j: EncodingJob| requeued(j)),
            decreases n - i,
        {
            let job = pending.remove(0);
            new_queue.push(requeue(job));
            proof {
                assert(pending@ =~= a0.subrange(i as int + 1, n as int));
                assert(a0.subrange(0, i as int + 1).map_values(|j: EncodingJob| requeued(j)) =~= a0.subrange(
                    0,
                    i as int,
                ).map_values(|j: EncodingJob| requeued(j)).push(requeued(a0[i as int])));
            }
            i = i + 1;
        }
        proof {
            assert(a0.subrange(0, n as int) =~= a0);
            assert(new_queue@ =~= restored_queue(s0));
        }
        if !all_ids_distinct(&new_queue) || !all_ids_distinct(&history) || !no_shared_ids(
            &new_queue,
            &self.active,
        ) || !no_shared_ids(&new_queue, &history) || !no_shared_ids(&self.active, &history) {
            return Err(QueueError::Malformed);
        }
        proof {
            let q = new_queue@;
            assert forall|k: int| 0 <= k < q.len() implies is_queued_shape(#[trigger] q[k]) by {
                assert(q[k] == requeued(a0[k]));
            }
        }
        self.queue = new_queue;
        self.history = history;
        Ok(())
    }

    /// A copy of the three partitions, for saving.
    pub fn save_state(&self) -> (r: PersistedState)
        ensures
            is_snapshot_of(r, *self),
    {
        PersistedState {
            queue: copy_jobs(&self.queue),
            active: copy_jobs(&self.active),
            history: copy_jobs(&self.history),
        }
    }
}

/// A job id known to a well-formed manager lies in exactly one of the
/// queue, the active set and the history.
pub proof fn lemma_one_partition(m: QueueManager, id: JobId)
    requires
        m.wf(),
    ensures
        m.knows(id) ==> (has_id(m.queue_jobs(), id) && !has_id(m.active_jobs(), id) && !has_id(
            m.history_jobs(),
            id,
        )) || (!has_id(m.queue_jobs(), id) && has_id(m.active_jobs(), id) && !has_id(
            m.history_jobs(),
            id,
        )) || (!has_id(m.queue_jobs(), id) && !has_id(m.active_jobs(), id) && has_id(
            m.history_jobs(),
            id,
        )),
{
    let q = m.queue_jobs();
    let a = m.active_jobs();
    let h = m.history_jobs();
    if has_id(q, id) && has_id(a, id) {
        assert(q[index_of_id(q, id)].id != a[index_of_id(a, id)].id);
    }
    if has_id(q, id) && has_id(h, id) {
        assert(q[index_of_id(q, id)].id != h[index_of_id(h, id)].id);
    }
    if has_id(a, id) && has_id(h, id) {
        assert(a[index_of_id(a, id)].id != h[index_of_id(h, id)].id);
    }
}

/// A well-formed manager never runs more jobs than its limit.
pub proof fn lemma_active_bounded(m: QueueManager)
    requires
        m.wf(),
    ensures
        m.active_jobs().len() <= m.max_jobs(),
{
}

/// A snapshot of a well-formed manager restores, into a manager with no
/// running jobs, to its queue followed by its running jobs demoted, and to
/// its history unchanged.
pub proof fn lemma_save_load_round_trip(m: QueueManager, s: PersistedState)
    requires
        m.wf(),
        is_snapshot_of(s, m),
    ensures
        restorable(s, Seq::<EncodingJob>::empty()),
        same_jobs(
            m.queue_jobs() + m.active_jobs().map_values(|j: EncodingJob| requeued(j)),
            restored_queue(s),
        ),
        same_jobs(m.history_jobs(), s.history@),
{
    let q = m.queue_jobs();
    let a = m.active_jobs();
    let h = m.history_jobs();
    let rq = restored_queue(s);
    let mq = q + a.map_values(|j: EncodingJob| requeued(j));
    let sq = s.queue@ + s.active@;
    assert forall|i: int| 0 <= i < mq.len() implies same_job(#[trigger] mq[i], rq[i]) by {
        if i >= q.len() {
            assert(sq[i] == s.active@[i - q.len()]);
            assert(same_job(a[i - q.len()], s.active@[i - q.len()]));
        } else {
            assert(sq[i] == s.queue@[i]);
            assert(same_job(q[i], s.queue@[i]));
            assert(is_queued_shape(q[i]));
        }
    }
    assert forall|i: int| 0 <= i < s.history@.len() implies is_finished_shape(
        #[trigger] s.history@[i],
    ) by {
        assert(same_job(h[i], s.history@[i]));
        assert(is_finished_shape(h[i]));
    }
    assert forall|i: int, j: int|
        0 <= i < rq.len() && 0 <= j < rq.len() && i != j implies rq[i].id != rq[j].id by {
        assert(same_job(mq[i], rq[i]));
        assert(same_job(mq[j], rq[j]));
        if i < q.len() && j < q.len() {
        } else if i < q.len() {
            assert(q[i].id != a[j - q.len()].id);
        } else if j < q.len() {
            assert(q[j].id != a[i - q.len()].id);
        } else {
            assert(a[i - q.len()].id != a[j - q.len()].id);
        }
    }
    assert forall|i: int, j: int|
        0 <= i < s.history@.len() && 0 <= j < s.history@.len() && i != j implies s.history@[i].id
        != s.history@[j].id by {
        assert(same_job(h[i], s.history@[i]));
        assert(same_job(h[j], s.history@[j]));
    }
    assert forall|i: int, j: int|
        0 <= i < rq.len() && 0 <= j < s.history@.len() implies rq[i].id != s.history@[j].id by {
        assert(same_job(mq[i], rq[i]));
        assert(same_job(h[j], s.history@[j]));
        if i < q.len() {
            assert(q[i].id != h[j].id);
        } else {
            assert(a[i - q.len()].id != h[j].id);
        }
    }
}

} // verus!
