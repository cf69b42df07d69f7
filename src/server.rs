use vstd::prelude::*;
use vstd::string::*;
use crate::deps_tracker::DepsCompilationTracker;
use crate::job::{is_queued_shape, same_job, EncodingJob, JobId};
use crate::messages::{Request, RequestPayload, Response, ResponsePayload};
use crate::queue::{
    QueueEvent,
    copy_jobs, has_id, index_of_id, requeued, same_jobs, QueueError, QueueManager,
};
use crate::status::JobStatus;

verus! {

pub open spec fn hex_digit(d: int) -> char {
    if d < 10 {
        crate::pipeline::digit_char(d)
    } else if d == 10 {
        'a'
    } else if d == 11 {
        'b'
    } else if d == 12 {
        'c'
    } else if d == 13 {
        'd'
    } else if d == 14 {
        'e'
    } else {
        'f'
    }
}

/// The last `count` lowercase hex digits of `n`, most significant first.
pub open spec fn hex_of(n: nat, count: nat) -> Seq<char>
    decreases count,
{
    if count == 0 {
        Seq::empty()
    } else {
        hex_of(n / 16, (count - 1) as nat).push(hex_digit((n % 16) as int))
    }
}

/// The canonical text of a UUID given by its 128-bit value: 32 lowercase
/// hex digits, most significant first, in groups of 8, 4, 4, 4 and 12
/// joined by hyphens.
pub open spec fn uuid_text(id: u128) -> Seq<char> {
    let h = hex_of(id as nat, 32);
    h.subrange(0, 8) + "-"@ + h.subrange(8, 12) + "-"@ + h.subrange(12, 16) + "-"@ + h.subrange(16, 20)
        + "-"@ + h.subrange(20, 32)
}

/// Relies on `uuid::Uuid::from_u128` and its `Display`: the hyphenated
/// lowercase form of the value's big-endian bytes.
#[verifier::external_body]
fn id_text(id: u128) -> (r: String)
    ensures
        r@ == uuid_text(id),
{
    uuid::Uuid::from_u128(id).to_string()
}

/// Message sent to a client for a refused operation.
pub open spec fn error_text(e: QueueError) -> Seq<char> {
    match e {
        QueueError::NotAccepting => "the daemon is not accepting new jobs"@,
        QueueError::DuplicateId(id) => "Job "@ + uuid_text(id) + " already exists"@,
        QueueError::NotFound(id) => "Job "@ + uuid_text(id) + " not found"@,
        QueueError::NotFoundOrNotFailed(id) => "Job "@ + uuid_text(id) + " not found or not failed"@,
        QueueError::NoStats(id) => "Job "@ + uuid_text(id) + " has no stats"@,
        QueueError::Malformed => "the saved state is inconsistent"@,
    }
}

fn about_job(id: JobId, tail: &str) -> (r: String)
    ensures
        r@ == "Job "@ + uuid_text(id) + tail@,
{
    let head = String::from_str("Job ");
    let with_id = head.concat(id_text(id).as_str());
    with_id.concat(tail)
}

/// The client-facing text of a queue error.
pub fn error_message(e: QueueError) -> (r: String)
    ensures
        r@ == error_text(e),
{
    match e {
        QueueError::NotAccepting => String::from_str("the daemon is not accepting new jobs"),
        QueueError::DuplicateId(id) => about_job(id, " already exists"),
        QueueError::NotFound(id) => about_job(id, " not found"),
        QueueError::NotFoundOrNotFailed(id) => about_job(id, " not found or not failed"),
        QueueError::NoStats(id) => about_job(id, " has no stats"),
        QueueError::Malformed => String::from_str("the saved state is inconsistent"),
    }
}

pub open spec fn is_error_reply(p: ResponsePayload, e: QueueError) -> bool {
    p matches ResponsePayload::Error { message } && message@ == error_text(e)
}

/// The job `get_job` finds for a known id.
pub open spec fn found_job(m: QueueManager, id: JobId) -> EncodingJob {
    if has_id(m.queue_jobs(), id) {
        m.queue_jobs()[index_of_id(m.queue_jobs(), id)]
    } else if has_id(m.active_jobs(), id) {
        m.active_jobs()[index_of_id(m.active_jobs(), id)]
    } else {
        m.history_jobs()[index_of_id(m.history_jobs(), id)]
    }
}

/// What answering `payload` does to the manager `m0`, giving `m1` and the
/// reply `p`.
pub open spec fn answered(
    m0: QueueManager,
    m1: QueueManager,
    deps: DepsCompilationTracker,
    payload: RequestPayload,
    p: ResponsePayload,
) -> bool {
    match payload {
        RequestPayload::AddJob { input_path, output_path, config } => if !m0.is_accepting() {
            is_error_reply(p, QueueError::NotAccepting) && m1 == m0
        } else {
            match p {
                ResponsePayload::JobId { job_id } => {
                    let n = m1.queue_jobs().last();
                    &&& !m0.knows(job_id)
                    &&& m1.queue_jobs().len() == m0.queue_jobs().len() + 1
                    &&& m1.queue_jobs().drop_last() == m0.queue_jobs()
                    &&& n.id == job_id && n.input_path == input_path && n.output_path
                        == output_path && n.config == config && is_queued_shape(n)
                    &&& m1.active_jobs() == m0.active_jobs()
                    &&& m1.history_jobs() == m0.history_jobs()
                },
                _ => m1 == m0 && exists|id: JobId|
                    #[trigger] m0.knows(id) && is_error_reply(p, QueueError::DuplicateId(id)),
            }
        },
        RequestPayload::CancelJob { job_id } => if has_id(m0.active_jobs(), job_id) {
            p == ResponsePayload::Success && m1 == m0
        } else if has_id(m0.queue_jobs(), job_id) {
            let k = index_of_id(m0.queue_jobs(), job_id);
            let n = m1.history_jobs().last();
            &&& p == ResponsePayload::Success
            &&& m1.queue_jobs() == m0.queue_jobs().remove(k)
            &&& m1.active_jobs() == m0.active_jobs()
            &&& m1.history_jobs().drop_last() == m0.history_jobs()
            &&& m1.history_jobs().len() == m0.history_jobs().len() + 1
            &&& n.id == job_id && n.status == JobStatus::Cancelled && n.started_at.is_none()
            &&& n.finished_at.is_some()
        } else {
            is_error_reply(p, QueueError::NotFound(job_id)) && m1 == m0
        },
        RequestPayload::RetryJob { job_id } => {
            let h = m0.history_jobs();
            let k = index_of_id(h, job_id);
            if has_id(h, job_id) && h[k].status == JobStatus::Failed {
                &&& p == ResponsePayload::Success
                &&& m1.history_jobs() == h.remove(k)
                &&& m1.queue_jobs() == m0.queue_jobs().push(requeued(h[k]))
                &&& m1.active_jobs() == m0.active_jobs()
            } else {
                is_error_reply(p, QueueError::NotFoundOrNotFailed(job_id)) && m1 == m0
            }
        },
        RequestPayload::ListQueue => m1 == m0 && (p matches ResponsePayload::JobList { jobs }
            && same_jobs(m0.queue_jobs(), jobs@)),
        RequestPayload::ListActive => m1 == m0 && (p matches ResponsePayload::JobList { jobs }
            && same_jobs(m0.active_jobs(), jobs@)),
        RequestPayload::ListHistory => m1 == m0 && (p matches ResponsePayload::JobList { jobs }
            && same_jobs(m0.history_jobs(), jobs@)),
        RequestPayload::GetJob { job_id } => m1 == m0 && if m0.knows(job_id) {
            p matches ResponsePayload::Job { job } && same_job(found_job(m0, job_id), *job)
        } else {
            is_error_reply(p, QueueError::NotFound(job_id))
        },
        RequestPayload::GetStats { job_id } => m1 == m0 && if has_id(m0.active_jobs(), job_id) {
            p == (ResponsePayload::Stats {
                stats: m0.active_jobs()[index_of_id(m0.active_jobs(), job_id)].stats.unwrap(),
            })
        } else if m0.knows(job_id) {
            is_error_reply(p, QueueError::NoStats(job_id))
        } else {
            is_error_reply(p, QueueError::NotFound(job_id))
        },
        RequestPayload::RemoveFromHistory { job_id } => if has_id(m0.history_jobs(), job_id) {
            &&& p == ResponsePayload::Success
            &&& m1.history_jobs() == m0.history_jobs().remove(
                index_of_id(m0.history_jobs(), job_id),
            )
            &&& m1.queue_jobs() == m0.queue_jobs()
            &&& m1.active_jobs() == m0.active_jobs()
        } else {
            is_error_reply(p, QueueError::NotFound(job_id)) && m1 == m0
        },
        RequestPayload::ClearHistory => {
            &&& p == ResponsePayload::Success
            &&& m1.history_jobs().len() == 0
            &&& m1.queue_jobs() == m0.queue_jobs()
            &&& m1.active_jobs() == m0.active_jobs()
        },
        RequestPayload::Shutdown => p == ResponsePayload::Success && m1 == m0,
        RequestPayload::Ping => p == ResponsePayload::Pong && m1 == m0,
        RequestPayload::GetDepsStatus => m1 == m0 && p == (ResponsePayload::DepsStatus {
            status: deps@,
        }),
    }
}

/// Notifications that answering `payload` queues: `JobAdded` for an
/// accepted job or a retried one, `JobCancelled` for a queued job that was
/// cancelled, and none for anything else.
pub open spec fn announced(
    m0: QueueManager,
    m1: QueueManager,
    payload: RequestPayload,
    p: ResponsePayload,
) -> bool {
    match payload {
        RequestPayload::AddJob { .. } => match p {
            ResponsePayload::JobId { job_id } => m1.pending_events() == m0.pending_events().push(
                QueueEvent::JobAdded(job_id),
            ),
            _ => m1.pending_events() == m0.pending_events(),
        },
        RequestPayload::CancelJob { job_id } => if !has_id(m0.active_jobs(), job_id) && has_id(
            m0.queue_jobs(),
            job_id,
        ) {
            m1.pending_events() == m0.pending_events().push(QueueEvent::JobCancelled(job_id))
        } else {
            m1.pending_events() == m0.pending_events()
        },
        RequestPayload::RetryJob { job_id } => if p == ResponsePayload::Success {
            m1.pending_events() == m0.pending_events().push(QueueEvent::JobAdded(job_id))
        } else {
            m1.pending_events() == m0.pending_events()
        },
        _ => m1.pending_events() == m0.pending_events(),
    }
}

fn reply(result: Result<(), QueueError>) -> (r: ResponsePayload)
    ensures
        match result {
            Ok(()) => r == ResponsePayload::Success,
            Err(e) => is_error_reply(r, e),
        },
{
    match result {
        Ok(()) => ResponsePayload::Success,
        Err(e) => ResponsePayload::Error { message: error_message(e) },
    }
}

/// Answer one client request against the queue and the dependency
/// tracker.
pub fn handle_request(
    manager: &mut QueueManager,
    deps: &DepsCompilationTracker,
    request: Request,
) -> (r: Response)
    requires
        old(manager).wf(),
    ensures
        final(manager).wf(),
        r.request_id == request.id,
        final(manager).max_jobs() == old(manager).max_jobs(),
        final(manager).is_accepting() == old(manager).is_accepting(),
        answered(*old(manager), *final(manager), *deps, request.payload, r.payload),
        announced(*old(manager), *final(manager), request.payload, r.payload),
{
    let request_id = request.id;
    let ghost m0 = *manager;
    let payload = match request.payload {
        RequestPayload::AddJob { input_path, output_path, config } => {
            let job = EncodingJob::new(input_path, output_path, config);
            let ghost jid = job.id;
            match manager.add_job(job) {
                Ok(job_id) => {
                    proof {
                        assert(manager.queue_jobs().drop_last() =~= m0.queue_jobs());
                    }
                    ResponsePayload::JobId { job_id }
                },
                Err(e) => {
                    let p = ResponsePayload::Error { message: error_message(e) };
                    proof {
                        if m0.is_accepting() {
                            assert(m0.knows(jid) && is_error_reply(p, QueueError::DuplicateId(jid)));
                        }
                    }
                    p
                },
            }
        },
        RequestPayload::CancelJob { job_id } => {
            let result = match manager.cancel_job(job_id) {
                Ok(_) => Ok(()),
                Err(e) => Err(e),
            };
            reply(result)
        },
        RequestPayload::RetryJob { job_id } => reply(manager.retry_job(job_id)),
        RequestPayload::ListQueue => ResponsePayload::JobList { jobs: copy_jobs(manager.get_queue()) },
        RequestPayload::ListActive => ResponsePayload::JobList {
            jobs: copy_jobs(manager.get_active()),
        },
        RequestPayload::ListHistory => ResponsePayload::JobList {
            jobs: copy_jobs(manager.get_history()),
        },
        RequestPayload::GetJob { job_id } => match manager.get_job(job_id) {
            Some(job) => ResponsePayload::Job { job: Box::new(job.duplicate()) },
            None => ResponsePayload::Error { message: error_message(QueueError::NotFound(job_id)) },
        },
        RequestPayload::GetStats { job_id } => match manager.get_stats(job_id) {
            Ok(stats) => ResponsePayload::Stats { stats },
            Err(e) => ResponsePayload::Error { message: error_message(e) },
        },
        RequestPayload::RemoveFromHistory { job_id } => reply(manager.remove_from_history(job_id)),
        RequestPayload::ClearHistory => reply(manager.clear_history()),
        RequestPayload::Shutdown => ResponsePayload::Success,
        RequestPayload::Ping => ResponsePayload::Pong,
        RequestPayload::GetDepsStatus => ResponsePayload::DepsStatus { status: deps.get_status() },
    };
    Response::new(request_id, payload)
}

} // verus!
