use std::sync::mpsc;

use mma_tui::jobs::{JobKind, JobMsg, JobStatus, RunningJob, MAX_LOG_LINES};

#[test]
fn drain_collects_lines_progress_and_done_once() {
    let (tx, rx) = mpsc::channel();
    tx.send(JobMsg::Line("a".into())).unwrap();
    tx.send(JobMsg::Progress(1, 3)).unwrap();
    tx.send(JobMsg::Line("b".into())).unwrap();
    tx.send(JobMsg::Done(true)).unwrap();
    let mut job = RunningJob::new(JobKind::Scrape, rx);

    let done = job.drain();
    assert_eq!(done, Some(true));
    assert_eq!(job.log, vec!["a".to_string(), "b".to_string()]);
    assert_eq!(job.progress, Some((1, 3)));
    assert_eq!(job.status, JobStatus::Done);
    assert!(job.status.is_finished());

    assert_eq!(job.drain(), None);
}

#[test]
fn drain_marks_failed_on_nonzero() {
    let (tx, rx) = mpsc::channel();
    tx.send(JobMsg::Done(false)).unwrap();
    let mut job = RunningJob::new(JobKind::Train, rx);
    assert_eq!(job.drain(), Some(false));
    assert_eq!(job.status, JobStatus::Failed);
}

#[test]
fn log_trims_to_cap() {
    let (_tx, rx) = mpsc::channel();
    let mut job = RunningJob::new(JobKind::Scrape, rx);
    for i in 0..(MAX_LOG_LINES + 50) {
        job.push_log(format!("line {i}"));
    }
    assert_eq!(job.log.len(), MAX_LOG_LINES);
    assert_eq!(
        job.log.last().unwrap(),
        &format!("line {}", MAX_LOG_LINES + 49)
    );
    assert_eq!(job.log[0], format!("line {}", 50));
}

#[test]
fn finished_elapsed_is_frozen_by_the_first_done() {
    let (_tx, rx) = mpsc::channel();
    let mut job = RunningJob::new(JobKind::Train, rx);
    assert_eq!(job.apply(JobMsg::Done(true), 42), Some(true));
    assert_eq!(job.finished_secs, Some(42));
    assert_eq!(job.elapsed_secs(), 42);
    assert_eq!(job.apply(JobMsg::Done(false), 99), Some(false));
    assert_eq!(job.finished_secs, Some(42));
    assert_eq!(job.status, JobStatus::Failed);
    assert!(!job.is_running());
}

#[test]
fn drain_on_an_idle_channel_changes_nothing() {
    let (_tx, rx) = mpsc::channel::<JobMsg>();
    let mut job = RunningJob::new(JobKind::Scrape, rx);
    assert_eq!(job.drain(), None);
    assert_eq!(job.status, JobStatus::Running);
    assert!(job.is_running());
    assert!(job.log.is_empty());
}

#[test]
fn job_labels() {
    assert_eq!(JobKind::Scrape.label(), "Scraping");
    assert_eq!(JobKind::Train.label(), "Training model");
    assert!(!JobStatus::Running.is_finished());
    assert!(JobStatus::Done.is_finished());
    assert!(JobStatus::Failed.is_finished());
}
