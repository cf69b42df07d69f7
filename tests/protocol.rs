use encodetalker::deps_tracker::DepsCompilationTracker;
use encodetalker::job::EncodingConfig;
use encodetalker::messages::{
    event_from_queue, DepsCompilationStep, EventPayload, Request, RequestPayload, ResponsePayload,
};
use encodetalker::queue::{JobOutcome, QueueError, QueueEvent, QueueManager};
use encodetalker::server::{error_message, handle_request};

fn add(m: &mut QueueManager, deps: &DepsCompilationTracker, name: &str) -> u128 {
    let req = Request::new(RequestPayload::AddJob {
        input_path: format!("/v/{}.mkv", name),
        output_path: format!("/v/{}.av1.mkv", name),
        config: EncodingConfig::default(),
    });
    let id = req.id;
    let resp = handle_request(m, deps, req);
    assert_eq!(resp.request_id, id);
    match resp.payload {
        ResponsePayload::JobId { job_id } => job_id,
        _ => panic!("expected a job id"),
    }
}

#[test]
fn add_job_request_queues_and_announces() {
    let mut m = QueueManager::new(1);
    let deps = DepsCompilationTracker::new();
    let id = add(&mut m, &deps, "a");
    assert_eq!(m.get_queue()[0].id, id);
    assert_eq!(m.get_queue()[0].input_path, "/v/a.mkv");
    let events = m.take_events();
    let e1 = event_from_queue(events[0].clone());
    let e2 = event_from_queue(events[0].clone());
    assert!(matches!(e1.payload, EventPayload::JobAdded { job_id } if job_id == id));
    assert!(matches!(e2.payload, EventPayload::JobAdded { job_id } if job_id == id));
}

#[test]
fn list_requests_mirror_partitions() {
    let mut m = QueueManager::new(1);
    let deps = DepsCompilationTracker::new();
    let a = add(&mut m, &deps, "a");
    let b = add(&mut m, &deps, "b");
    m.dispatch_ready();
    match handle_request(&mut m, &deps, Request::new(RequestPayload::ListQueue)).payload {
        ResponsePayload::JobList { jobs } => assert_eq!(jobs.iter().map(|j| j.id).collect::<Vec<_>>(), vec![b]),
        _ => panic!("expected a list"),
    }
    match handle_request(&mut m, &deps, Request::new(RequestPayload::ListActive)).payload {
        ResponsePayload::JobList { jobs } => assert_eq!(jobs.iter().map(|j| j.id).collect::<Vec<_>>(), vec![a]),
        _ => panic!("expected a list"),
    }
    match handle_request(&mut m, &deps, Request::new(RequestPayload::GetStats { job_id: a })).payload {
        ResponsePayload::Stats { stats } => assert_eq!(stats.frame, 0),
        _ => panic!("expected stats"),
    }
    match handle_request(&mut m, &deps, Request::new(RequestPayload::GetJob { job_id: b })).payload {
        ResponsePayload::Job { job } => assert_eq!(job.id, b),
        _ => panic!("expected a job"),
    }
}

#[test]
fn retry_of_completed_job_reports_error() {
    let mut m = QueueManager::new(1);
    let deps = DepsCompilationTracker::new();
    let a = add(&mut m, &deps, "a");
    m.dispatch_ready();
    m.finish_job(a, JobOutcome::Completed).unwrap();
    let resp = handle_request(&mut m, &deps, Request::new(RequestPayload::RetryJob { job_id: a }));
    match resp.payload {
        ResponsePayload::Error { message } => {
            assert!(message.ends_with(" not found or not failed"));
            assert!(message.starts_with("Job "));
            assert_eq!(message, error_message(QueueError::NotFoundOrNotFailed(a)));
        }
        _ => panic!("expected an error"),
    }
}

#[test]
fn error_messages_name_the_job() {
    let text = error_message(QueueError::NotFound(0x1234));
    assert_eq!(text, "Job 00000000-0000-0000-0000-000000001234 not found");
    assert_eq!(error_message(QueueError::NotAccepting), "the daemon is not accepting new jobs");
}

#[test]
fn ping_shutdown_and_clear() {
    let mut m = QueueManager::new(1);
    let deps = DepsCompilationTracker::new();
    assert!(matches!(handle_request(&mut m, &deps, Request::new(RequestPayload::Ping)).payload, ResponsePayload::Pong));
    assert!(matches!(handle_request(&mut m, &deps, Request::new(RequestPayload::Shutdown)).payload, ResponsePayload::Success));
    assert!(matches!(handle_request(&mut m, &deps, Request::new(RequestPayload::ClearHistory)).payload, ResponsePayload::Success));
    assert!(matches!(handle_request(&mut m, &deps, Request::new(RequestPayload::ClearHistory)).payload, ResponsePayload::Success));
    let resp = handle_request(&mut m, &deps, Request::new(RequestPayload::CancelJob { job_id: 5 }));
    assert!(matches!(resp.payload, ResponsePayload::Error { .. }));
    let resp = handle_request(&mut m, &deps, Request::new(RequestPayload::RemoveFromHistory { job_id: 5 }));
    assert!(matches!(resp.payload, ResponsePayload::Error { .. }));
}

#[test]
fn draining_daemon_refuses_jobs() {
    let mut m = QueueManager::new(1);
    let deps = DepsCompilationTracker::new();
    m.stop_accepting_jobs();
    let req = Request::new(RequestPayload::AddJob {
        input_path: "/v/x.mkv".to_string(),
        output_path: "/v/x.av1.mkv".to_string(),
        config: EncodingConfig::default(),
    });
    match handle_request(&mut m, &deps, req).payload {
        ResponsePayload::Error { message } => assert_eq!(message, "the daemon is not accepting new jobs"),
        _ => panic!("expected an error"),
    }
}

#[test]
fn deps_status_is_reported() {
    let mut m = QueueManager::new(1);
    let mut deps = DepsCompilationTracker::new();
    deps.start_compilation(3);
    deps.set_current("FFmpeg".to_string(), DepsCompilationStep::Building);
    deps.complete_dep();
    match handle_request(&mut m, &deps, Request::new(RequestPayload::GetDepsStatus)).payload {
        ResponsePayload::DepsStatus { status } => {
            assert!(status.compiling);
            assert_eq!(status.total_count, 3);
            assert_eq!(status.completed_count, 1);
            assert_eq!(status.current_dep.as_deref(), Some("FFmpeg"));
            assert_eq!(status.current_step, Some(DepsCompilationStep::Building));
        }
        _ => panic!("expected a status"),
    }
    deps.finish_compilation();
    let s = deps.get_status();
    assert!(s.all_present && !s.compiling && s.current_dep.is_none());
    deps.fail_compilation();
    assert!(!deps.get_status().compiling);
}

#[test]
fn queue_events_map_to_client_events() {
    let e = event_from_queue(QueueEvent::JobFailed(3, "boom".to_string()));
    assert!(matches!(e.payload, EventPayload::JobFailed { job_id: 3, ref error } if error == "boom"));
    let e = event_from_queue(QueueEvent::JobCancelled(4));
    assert!(matches!(e.payload, EventPayload::JobCancelled { job_id: 4 }));
}
