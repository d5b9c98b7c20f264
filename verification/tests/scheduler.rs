use std::collections::VecDeque;

use webhookd::scheduler::{limit_reached, Error, NewJob, Scheduler};
use webhookd::types::QueueType;

/// Posts jobs `0..count`, checking the number of running jobs after each
/// post against `expected_running`; returns the started jobs and the
/// dropped ones.
fn post_all(
    scheduler: &mut Scheduler<usize>,
    count: usize,
    expected_running: impl Fn(usize) -> usize,
) -> (VecDeque<usize>, Vec<usize>) {
    let mut started = VecDeque::new();
    let mut dropped = Vec::new();
    for i in 0..count {
        let outcome = scheduler.post(i);
        assert!(outcome.reply().is_ok());
        match outcome {
            NewJob::Started(job) => started.push_back(job),
            NewJob::Queued { dropped: Some(job) } => dropped.push(job),
            NewJob::Queued { dropped: None } => {},
            NewJob::Rejected(_) => panic!("job rejected"),
        }
        assert_eq!(scheduler.jobs_running(), expected_running(i));
    }
    (started, dropped)
}

/// Lets the running jobs finish one after another, starting whatever the
/// scheduler hands back; returns the jobs in the order in which they ran.
fn finish_all(scheduler: &mut Scheduler<usize>, mut running: VecDeque<usize>) -> Vec<usize> {
    let mut completed = Vec::new();
    while let Some(job) = running.pop_front() {
        completed.push(job);
        if let Some(next) = scheduler.handle_job_finished() {
            running.push_back(next);
        }
    }
    completed
}

#[test]
fn unlimited_concurrency() {
    let mut scheduler = Scheduler::new(None, None, QueueType::Fifo);
    let (started, dropped) = post_all(&mut scheduler, 100, |i| i + 1);
    assert!(dropped.is_empty());
    assert_eq!(started.len(), 100);

    scheduler.stop(false);
    let completed = finish_all(&mut scheduler, started);
    assert!(!scheduler.is_active());
    assert_eq!(completed.len(), 100);
}

#[test]
fn limited_concurrency_abort_queue() {
    let mut scheduler = Scheduler::new(Some(4), Some(8), QueueType::Fifo);
    let (started, dropped) = post_all(&mut scheduler, 100, |i| (i + 1).min(4));
    for i in 0..100 {
        if i < 12 {
            assert!(!dropped.contains(&i));
        } else {
            assert!(dropped.contains(&i));
        }
    }

    scheduler.stop(false);
    let completed = finish_all(&mut scheduler, started);
    assert!(!scheduler.is_active());
    assert_eq!(completed.len(), 4);
}

#[test]
fn limited_concurrency_finish_queue() {
    let mut scheduler = Scheduler::new(Some(4), Some(8), QueueType::Fifo);
    let (started, dropped) = post_all(&mut scheduler, 100, |i| (i + 1).min(4));
    for i in 0..100 {
        if i < 12 {
            assert!(!dropped.contains(&i));
        } else {
            assert!(dropped.contains(&i));
        }
    }

    scheduler.stop(true);
    let completed = finish_all(&mut scheduler, started);
    assert!(!scheduler.is_active());
    assert_eq!(completed.len(), 12);
    // FIFO: the queued jobs ran in the order in which they were posted.
    assert_eq!(completed, (0..12).collect::<Vec<_>>());
}

#[test]
fn limit_reached_values() {
    assert!(!limit_reached(5, None));
    assert!(!limit_reached(3, Some(4)));
    assert!(limit_reached(4, Some(4)));
    assert!(limit_reached(0, Some(0)));
}

#[test]
fn fifo_full_queue_drops_new_job() {
    let mut scheduler = Scheduler::new(Some(1), Some(1), QueueType::Fifo);
    assert!(matches!(scheduler.post(1), NewJob::Started(1)));
    assert!(matches!(scheduler.post(2), NewJob::Queued { dropped: None }));
    assert!(matches!(scheduler.post(3), NewJob::Queued { dropped: Some(3) }));
    assert_eq!(scheduler.jobs_queued(), 1);
    assert_eq!(scheduler.handle_job_finished(), Some(2));
    assert_eq!(scheduler.jobs_running(), 1);
    assert_eq!(scheduler.handle_job_finished(), None);
    assert_eq!(scheduler.jobs_running(), 0);
    assert!(scheduler.is_active());
}

#[test]
fn lifo_full_queue_drops_oldest_job() {
    let mut scheduler = Scheduler::new(Some(1), Some(2), QueueType::Lifo);
    assert!(matches!(scheduler.post(1), NewJob::Started(1)));
    assert!(matches!(scheduler.post(2), NewJob::Queued { dropped: None }));
    assert!(matches!(scheduler.post(3), NewJob::Queued { dropped: None }));
    assert!(matches!(scheduler.post(4), NewJob::Queued { dropped: Some(2) }));
    assert_eq!(scheduler.jobs_queued(), 2);
    // The newest job runs first.
    assert_eq!(scheduler.handle_job_finished(), Some(4));
    assert_eq!(scheduler.handle_job_finished(), Some(3));
    assert_eq!(scheduler.handle_job_finished(), None);
    assert_eq!(scheduler.jobs_running(), 0);
}

#[test]
fn lifo_default_keeps_latest_request() {
    let mut scheduler = Scheduler::new(Some(1), Some(1), QueueType::Lifo);
    assert!(matches!(scheduler.post(1), NewJob::Started(1)));
    assert!(matches!(scheduler.post(2), NewJob::Queued { dropped: None }));
    assert!(matches!(scheduler.post(3), NewJob::Queued { dropped: Some(2) }));
    assert!(matches!(scheduler.post(4), NewJob::Queued { dropped: Some(3) }));
    assert_eq!(scheduler.handle_job_finished(), Some(4));
}

#[test]
fn zero_sized_queues_keep_nothing() {
    for queue_type in [QueueType::Fifo, QueueType::Lifo] {
        let mut scheduler = Scheduler::new(Some(1), Some(0), queue_type);
        assert!(matches!(scheduler.post(1), NewJob::Started(1)));
        assert!(matches!(scheduler.post(2), NewJob::Queued { dropped: Some(2) }));
        assert_eq!(scheduler.jobs_queued(), 0);
    }
}

#[test]
fn zero_concurrency_only_queues() {
    let mut scheduler = Scheduler::new(Some(0), None, QueueType::Fifo);
    assert!(matches!(scheduler.post(1), NewJob::Queued { dropped: None }));
    assert_eq!(scheduler.jobs_running(), 0);
    assert_eq!(scheduler.jobs_queued(), 1);
}

#[test]
fn stopped_scheduler_rejects_jobs() {
    let mut scheduler = Scheduler::new(None, None, QueueType::Fifo);
    assert!(scheduler.accepts_jobs());
    scheduler.stop(true);
    assert!(!scheduler.accepts_jobs());
    assert!(!scheduler.is_active());
    let outcome = scheduler.post(7);
    assert!(matches!(outcome, NewJob::Rejected(7)));
    let error = outcome.reply().unwrap_err();
    assert_eq!(error.message(), "scheduler is not accepting new jobs");
}

#[test]
fn stop_signal_abandons_queue() {
    let mut scheduler = Scheduler::new(Some(1), None, QueueType::Fifo);
    assert!(matches!(scheduler.post(1), NewJob::Started(1)));
    assert!(matches!(scheduler.post(2), NewJob::Queued { dropped: None }));
    scheduler.handle_stop_signal(Some(false));
    assert!(scheduler.accepts_jobs());
    scheduler.handle_stop_signal(None);
    assert!(!scheduler.accepts_jobs());
    assert!(scheduler.is_active());
    assert_eq!(scheduler.handle_job_finished(), None);
    assert!(!scheduler.is_active());
    assert_eq!(scheduler.jobs_queued(), 1);
}

#[test]
fn stop_signal_true_stops() {
    let mut scheduler: Scheduler<u8> = Scheduler::new(None, None, QueueType::Lifo);
    scheduler.handle_stop_signal(Some(true));
    assert!(!scheduler.accepts_jobs());
}

#[test]
fn error_messages() {
    assert_eq!(Error::stopped().message(), "scheduler stopped");
    assert_eq!(Error::new("boom".to_string()).message(), "boom");
}
