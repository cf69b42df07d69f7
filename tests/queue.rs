use encodetalker::job::{EncodingConfig, EncodingJob};
use encodetalker::queue::{CancelOutcome, JobOutcome, PersistedState, QueueError, QueueEvent, QueueManager};
use encodetalker::stats::EncodingStats;
use encodetalker::status::JobStatus;

fn job(name: &str) -> EncodingJob {
    EncodingJob::new(
        format!("/videos/{}.mkv", name),
        format!("/videos/{}.av1.mkv", name),
        EncodingConfig::default(),
    )
}

fn ids(jobs: &[EncodingJob]) -> Vec<u128> {
    jobs.iter().map(|j| j.id).collect()
}

#[test]
fn add_job_appends_to_queue_tail() {
    let mut m = QueueManager::new(2);
    let a = m.add_job(job("a")).unwrap();
    let b = m.add_job(job("b")).unwrap();
    assert_eq!(ids(m.get_queue()), vec![a, b]);
    assert!(m.get_queue().iter().all(|j| j.status == JobStatus::Queued));
    let events = m.take_events();
    assert_eq!(events.len(), 2);
    assert!(matches!(events[0], QueueEvent::JobAdded(id) if id == a));
    assert!(m.take_events().is_empty());
}

#[test]
fn add_job_refused_when_draining() {
    let mut m = QueueManager::new(1);
    m.stop_accepting_jobs();
    assert_eq!(m.add_job(job("a")), Err(QueueError::NotAccepting));
    assert!(m.get_queue().is_empty());
}

#[test]
fn add_job_refuses_a_known_id() {
    let mut m = QueueManager::new(1);
    let j = job("a");
    let copy = j.duplicate();
    m.add_job(j).unwrap();
    assert_eq!(m.add_job(copy.duplicate()), Err(QueueError::DuplicateId(copy.id)));
    assert_eq!(m.get_queue().len(), 1);
}

#[test]
fn second_job_waits_while_first_runs() {
    let mut m = QueueManager::new(1);
    let first = m.add_job(job("first")).unwrap();
    assert_eq!(m.dispatch_ready(), vec![first]);
    let second = m.add_job(job("second")).unwrap();
    assert!(m.dispatch_ready().is_empty());
    assert_eq!(ids(m.get_queue()), vec![second]);
    assert_eq!(ids(m.get_active()), vec![first]);
    assert_eq!(m.get_active()[0].status, JobStatus::Running);
    m.finish_job(first, JobOutcome::Completed).unwrap();
    assert_eq!(m.dispatch_ready(), vec![second]);
    assert_eq!(ids(m.get_active()), vec![second]);
    assert_eq!(m.get_history()[0].status, JobStatus::Completed);
}

#[test]
fn dispatch_respects_limit_and_order() {
    let mut m = QueueManager::new(2);
    let a = m.add_job(job("a")).unwrap();
    let b = m.add_job(job("b")).unwrap();
    let c = m.add_job(job("c")).unwrap();
    assert_eq!(m.dispatch_ready(), vec![a, b]);
    assert_eq!(m.get_active().len(), 2);
    assert_eq!(ids(m.get_queue()), vec![c]);
    assert!(m.get_active().iter().all(|j| j.started_at.is_some() && j.stats.is_some()));
}

#[test]
fn zero_limit_never_dispatches() {
    let mut m = QueueManager::new(0);
    m.add_job(job("a")).unwrap();
    assert!(m.dispatch_ready().is_empty());
    assert_eq!(m.start_next_job(), None);
}

#[test]
fn cancel_queued_job_goes_to_history() {
    let mut m = QueueManager::new(1);
    let a = m.add_job(job("a")).unwrap();
    assert_eq!(m.cancel_job(a), Ok(CancelOutcome::RemovedFromQueue));
    assert!(m.get_queue().is_empty());
    let h = &m.get_history()[0];
    assert_eq!(h.id, a);
    assert_eq!(h.status, JobStatus::Cancelled);
    assert!(h.started_at.is_none());
    assert!(h.finished_at.is_some());
}

#[test]
fn cancel_running_job_only_signals() {
    let mut m = QueueManager::new(1);
    let a = m.add_job(job("a")).unwrap();
    m.dispatch_ready();
    assert_eq!(m.cancel_job(a), Ok(CancelOutcome::SignalRunning));
    assert_eq!(ids(m.get_active()), vec![a]);
    m.finish_job(a, JobOutcome::Cancelled).unwrap();
    assert_eq!(m.get_history()[0].status, JobStatus::Cancelled);
    assert!(m.get_active().is_empty());
}

#[test]
fn cancel_unknown_job_fails() {
    let mut m = QueueManager::new(1);
    assert_eq!(m.cancel_job(42), Err(QueueError::NotFound(42)));
}

#[test]
fn retry_completed_job_fails() {
    let mut m = QueueManager::new(1);
    let a = m.add_job(job("a")).unwrap();
    m.dispatch_ready();
    m.finish_job(a, JobOutcome::Completed).unwrap();
    assert_eq!(m.retry_job(a), Err(QueueError::NotFoundOrNotFailed(a)));
    assert_eq!(m.get_history().len(), 1);
}

#[test]
fn retry_failed_job_requeues_it_cleared() {
    let mut m = QueueManager::new(1);
    let a = m.add_job(job("a")).unwrap();
    let b = m.add_job(job("b")).unwrap();
    m.dispatch_ready();
    m.finish_job(a, JobOutcome::Failed("encoder exited with 1".to_string())).unwrap();
    let failed = &m.get_history()[0];
    assert_eq!(failed.status, JobStatus::Failed);
    assert_eq!(failed.error_message.as_deref(), Some("encoder exited with 1"));
    m.take_events();
    m.retry_job(a).unwrap();
    assert!(m.get_history().is_empty());
    assert_eq!(ids(m.get_queue()), vec![b, a]);
    let q = &m.get_queue()[1];
    assert_eq!(q.status, JobStatus::Queued);
    assert!(q.error_message.is_none());
    assert!(q.stats.is_none());
    assert!(q.started_at.is_none());
    assert!(q.finished_at.is_none());
    assert!(matches!(m.take_events()[0], QueueEvent::JobAdded(id) if id == a));
    assert!(m.get_active().is_empty());
}

#[test]
fn clear_history_twice_is_fine() {
    let mut m = QueueManager::new(1);
    let a = m.add_job(job("a")).unwrap();
    m.cancel_job(a).unwrap();
    assert_eq!(m.clear_history(), Ok(()));
    assert!(m.get_history().is_empty());
    assert_eq!(m.clear_history(), Ok(()));
    assert!(m.get_history().is_empty());
}

#[test]
fn remove_from_history_by_id() {
    let mut m = QueueManager::new(1);
    let a = m.add_job(job("a")).unwrap();
    let b = m.add_job(job("b")).unwrap();
    m.cancel_job(a).unwrap();
    m.cancel_job(b).unwrap();
    assert_eq!(m.remove_from_history(a), Ok(()));
    assert_eq!(ids(m.get_history()), vec![b]);
    assert_eq!(m.remove_from_history(a), Err(QueueError::NotFound(a)));
}

#[test]
fn stats_only_for_running_jobs() {
    let mut m = QueueManager::new(1);
    let a = m.add_job(job("a")).unwrap();
    assert_eq!(m.get_stats(a), Err(QueueError::NoStats(a)));
    assert_eq!(m.get_stats(7), Err(QueueError::NotFound(7)));
    m.dispatch_ready();
    let mut s = EncodingStats::with_totals(Some(100), None);
    s.frame = 50;
    s.update();
    m.update_stats(a, s).unwrap();
    assert_eq!(m.get_stats(a), Ok(s));
    assert_eq!(m.get_job(a).unwrap().stats, Some(s));
    assert_eq!(m.update_stats(9, s), Err(QueueError::NotFound(9)));
}

#[test]
fn each_id_in_exactly_one_partition() {
    let mut m = QueueManager::new(1);
    let a = m.add_job(job("a")).unwrap();
    let b = m.add_job(job("b")).unwrap();
    let c = m.add_job(job("c")).unwrap();
    m.dispatch_ready();
    m.cancel_job(c).unwrap();
    for id in [a, b, c] {
        let n = [m.get_queue(), m.get_active(), m.get_history()]
            .iter()
            .filter(|part| part.iter().any(|j| j.id == id))
            .count();
        assert_eq!(n, 1);
    }
}

#[test]
fn reload_demotes_interrupted_jobs() {
    let mut m = QueueManager::new(2);
    let a = m.add_job(job("a")).unwrap();
    let b = m.add_job(job("b")).unwrap();
    let c = m.add_job(job("c")).unwrap();
    m.dispatch_ready();
    m.cancel_job(c).unwrap();
    let a2 = m.add_job(job("d")).unwrap();
    let saved = m.save_state();
    assert_eq!(ids(&saved.active), vec![a, b]);

    let mut restored = QueueManager::new(2);
    restored.load_state(saved).unwrap();
    assert_eq!(ids(restored.get_queue()), vec![a2, a, b]);
    assert!(restored.get_queue().iter().all(|j| j.status == JobStatus::Queued
        && j.stats.is_none()
        && j.started_at.is_none()
        && j.finished_at.is_none()));
    assert!(restored.get_active().is_empty());
    assert_eq!(ids(restored.get_history()), vec![c]);
}

#[test]
fn reload_rejects_repeated_ids() {
    let j = job("a");
    let state = PersistedState { queue: vec![j.duplicate()], active: vec![], history: vec![] };
    let mut dup = state.queue[0].duplicate();
    dup.status = JobStatus::Cancelled;
    dup.finished_at = Some(1);
    let state = PersistedState { history: vec![dup], ..state };
    let mut m = QueueManager::new(1);
    assert_eq!(m.load_state(state), Err(QueueError::Malformed));
    assert!(m.get_queue().is_empty());
}

#[test]
fn empty_snapshot_loads_empty() {
    let mut m = QueueManager::new(1);
    m.load_state(PersistedState::default()).unwrap();
    assert!(m.get_queue().is_empty() && m.get_active().is_empty() && m.get_history().is_empty());
}

#[test]
fn reload_requeues_stored_queue_entries() {
    let mut stale = job("a");
    stale.started_at = Some(5);
    let id = stale.id;
    let mut m = QueueManager::new(1);
    m.load_state(PersistedState { queue: vec![stale], active: vec![], history: vec![] }).unwrap();
    assert_eq!(ids(m.get_queue()), vec![id]);
    assert!(m.get_queue()[0].started_at.is_none());
}
