use vstd::prelude::*;
use crate::job::{EncodingConfig, EncodingJob, JobId};
use crate::queue::QueueEvent;
use crate::stats::EncodingStats;
use crate::system::{now_millis, random_id};

verus! {

/// Stage of building one dependency.
#[derive(Debug, Clone, Copy, PartialEq, Eq, Structural)]
pub enum DepsCompilationStep {
    Downloading,
    Building,
    Verifying,
}

/// Where the dependency build stands.
#[derive(Debug, Clone)]
pub struct DepsStatusInfo {
    pub all_present: bool,
    pub compiling: bool,
    pub current_dep: Option<String>,
    pub current_step: Option<DepsCompilationStep>,
    pub completed_count: usize,
    pub total_count: usize,
}

/// A client request; `id` correlates it with its response.
#[derive(Debug, Clone)]
pub struct Request {
    pub id: u128,
    pub payload: RequestPayload,
}

impl Request {
    /// A request with a fresh random correlation id.
    pub fn new(payload: RequestPayload) -> (r: Self)
        ensures
            r.payload == payload,
    {
        Request { id: random_id(), payload }
    }
}

#[derive(Debug, Clone)]
pub enum RequestPayload {
    AddJob { input_path: String, output_path: String, config: EncodingConfig },
    CancelJob { job_id: JobId },
    RetryJob { job_id: JobId },
    ListQueue,
    ListActive,
    ListHistory,
    GetJob { job_id: JobId },
    GetStats { job_id: JobId },
    RemoveFromHistory { job_id: JobId },
    ClearHistory,
    Shutdown,
    Ping,
    GetDepsStatus,
}

/// The daemon's answer to one request.
#[derive(Debug, Clone)]
pub struct Response {
    pub request_id: u128,
    pub payload: ResponsePayload,
}

impl Response {
    pub fn new(request_id: u128, payload: ResponsePayload) -> (r: Self)
        ensures
            r.request_id == request_id,
            r.payload == payload,
    {
        Response { request_id, payload }
    }

    pub fn ok(request_id: u128) -> (r: Self)
        ensures
            r.request_id == request_id,
            r.payload == ResponsePayload::Success,
    {
        Response::new(request_id, ResponsePayload::Success)
    }

    pub fn error(request_id: u128, message: String) -> (r: Self)
        ensures
            r.request_id == request_id,
            r.payload == (ResponsePayload::Error { message }),
    {
        Response::new(request_id, ResponsePayload::Error { message })
    }
}

#[derive(Debug, Clone)]
pub enum ResponsePayload {
    Success,
    Error { message: String },
    JobId { job_id: JobId },
    Job { job: Box<EncodingJob> },
    JobList { jobs: Vec<EncodingJob> },
    Stats { stats: EncodingStats },
    Pong,
    DepsStatus { status: DepsStatusInfo },
}

/// A notification pushed to every connected client. `timestamp` is in
/// milliseconds since the Unix epoch.
#[derive(Debug, Clone)]
pub struct Event {
    pub id: u128,
    pub timestamp: i64,
    pub payload: EventPayload,
}

impl Event {
    /// An event with a fresh random id, stamped now.
    pub fn new(payload: EventPayload) -> (r: Self)
        ensures
            r.payload == payload,
    {
        Event { id: random_id(), timestamp: now_millis(), payload }
    }
}

#[derive(Debug, Clone)]
pub enum EventPayload {
    JobAdded { job_id: JobId },
    JobStarted { job_id: JobId },
    JobProgress { job_id: JobId, stats: EncodingStats },
    JobCompleted { job_id: JobId },
    JobFailed { job_id: JobId, error: String },
    JobCancelled { job_id: JobId },
    DaemonShutdown,
    DepsCompilationStarted { total_deps: usize },
    DepsCompilationProgress {
        dep_name: String,
        dep_index: usize,
        total_deps: usize,
        step: DepsCompilationStep,
    },
    DepsCompilationItemCompleted { dep_name: String, dep_index: usize, total_deps: usize },
    DepsCompilationCompleted,
    DepsCompilationFailed { dep_name: String, error: String },
}

/// Any message on the wire.
#[derive(Debug, Clone)]
pub enum IpcMessage {
    Request(Request),
    Response(Response),
    Event(Event),
}

/// The client-facing form of a queue notification.
pub open spec fn payload_of(e: QueueEvent) -> EventPayload {
    match e {
        QueueEvent::JobAdded(id) => EventPayload::JobAdded { job_id: id },
        QueueEvent::JobStarted(id) => EventPayload::JobStarted { job_id: id },
        QueueEvent::JobProgress(id, stats) => EventPayload::JobProgress { job_id: id, stats },
        QueueEvent::JobCompleted(id) => EventPayload::JobCompleted { job_id: id },
        QueueEvent::JobFailed(id, error) => EventPayload::JobFailed { job_id: id, error },
        QueueEvent::JobCancelled(id) => EventPayload::JobCancelled { job_id: id },
    }
}

/// Turn a queue notification into a broadcast event.
pub fn event_from_queue(e: QueueEvent) -> (r: Event)
    ensures
        r.payload == payload_of(e),
{
    let payload = match e {
        QueueEvent::JobAdded(id) => EventPayload::JobAdded { job_id: id },
        QueueEvent::JobStarted(id) => EventPayload::JobStarted { job_id: id },
        QueueEvent::JobProgress(id, stats) => EventPayload::JobProgress { job_id: id, stats },
        QueueEvent::JobCompleted(id) => EventPayload::JobCompleted { job_id: id },
        QueueEvent::JobFailed(id, error) => EventPayload::JobFailed { job_id: id, error },
        QueueEvent::JobCancelled(id) => EventPayload::JobCancelled { job_id: id },
    };
    Event::new(payload)
}

} // verus!
