//! Background-job bookkeeping: the messages a worker streams, the job's
//! lifecycle status, and the bounded log the loading overlay shows.

use std::sync::mpsc::Receiver;
use std::time::{Duration, Instant};
use vstd::prelude::*;
use crate::scraper::{parse_progress, progress_from};
use crate::text::push_str;

verus! {

/// Which kind of background job is running.
#[derive(Debug, Clone, Copy, PartialEq, Eq, Structural)]
pub enum JobKind {
    /// The scraper refreshing the database.
    Scrape,
    /// Retraining the prediction model.
    Train,
}

/// The overlay label of each job kind.
pub open spec fn job_label(k: JobKind) -> Seq<char> {
    match k {
        JobKind::Scrape => "Scraping"@,
        JobKind::Train => "Training model"@,
    }
}

impl JobKind {
    /// Human-readable label for the loading overlay header.
    pub fn label(self) -> (s: &'static str)
        ensures
            s@ == job_label(self),
    {
        match self {
            JobKind::Scrape => "Scraping",
            JobKind::Train => "Training model",
        }
    }
}

/// One message streamed from a worker: zero or more lines and progress
/// updates, then exactly one `Done`.
#[derive(Debug, Clone, PartialEq, Eq)]
pub enum JobMsg {
    /// One output line, newline stripped.
    Line(String),
    /// Parsed `(done, total)` progress.
    Progress(usize, usize),
    /// The job finished; `true` on success.
    Done(bool),
}

/// Lifecycle status of a job.
#[derive(Debug, Clone, Copy, PartialEq, Eq, Structural)]
pub enum JobStatus {
    /// The worker is still streaming.
    Running,
    /// The job exited successfully.
    Done,
    /// The job failed or could not start.
    Failed,
}

impl JobStatus {
    /// True once the job has stopped, successfully or not.
    pub fn is_finished(self) -> (r: bool)
        ensures
            r == !(self is Running),
    {
        !matches!(self, JobStatus::Running)
    }
}

/// Maximum number of log lines kept in memory.
pub const MAX_LOG_LINES: usize = 5000;

/// The log after appending `line`: the newest `MAX_LOG_LINES` lines.
pub open spec fn log_after_push(log: Seq<String>, line: String) -> Seq<String> {
    let full = log.push(line);
    if full.len() > MAX_LOG_LINES {
        full.skip(full.len() - MAX_LOG_LINES)
    } else {
        full
    }
}

/// Appending a line keeps the log within [`MAX_LOG_LINES`] (once it is
/// there), makes that line the newest entry, and keeps the older lines in
/// order, dropping only from the front.
pub proof fn log_push_keeps_newest(log: Seq<String>, line: String)
    requires
        log.len() <= MAX_LOG_LINES,
    ensures
        log_after_push(log, line).len() <= MAX_LOG_LINES,
        log_after_push(log, line).last() == line,
        log_after_push(log, line) == log.push(line).skip(log.push(line).len() - log_after_push(log, line).len()),
{
    let full = log.push(line);
    if full.len() <= MAX_LOG_LINES {
        assert(full.skip(0) =~= full);
    }
}

#[verifier::external_type_specification]
#[verifier::external_body]
#[verifier::reject_recursive_types(T)]
pub struct ExReceiver<T>(Receiver<T>);

#[verifier::external_type_specification]
#[verifier::external_body]
pub struct ExInstant(Instant);

/// `Instant::now()`. Nothing is stated of the value: it reads the clock.
#[verifier::external_body]
fn instant_now() -> Instant {
    Instant::now()
}

/// `Instant::elapsed`: the time since `t`. Nothing is stated of the value: it
/// reads the clock.
#[verifier::external_body]
fn elapsed_since(t: &Instant) -> Duration {
    t.elapsed()
}

/// `Duration::as_secs`: the whole seconds of `d`. Nothing is stated of the
/// value, since a `Duration` is opaque here.
#[verifier::external_body]
fn whole_secs(d: Duration) -> u64 {
    d.as_secs()
}

/// Whole seconds elapsed since `t`.
fn whole_secs_since(t: &Instant) -> u64 {
    whole_secs(elapsed_since(t))
}

/// `Receiver::try_recv` without blocking: `Some` with the next queued message,
/// `None` when none is queued or every sender is gone. Nothing is stated of
/// which: it depends on the worker thread.
#[verifier::external_body]
fn try_receive(rx: &Receiver<JobMsg>) -> Option<JobMsg> {
    rx.try_recv().ok()
}

/// State for one running (or just finished) background job.
pub struct RunningJob {
    /// Which job this is.
    pub kind: JobKind,
    /// Channel fed by the worker thread.
    pub rx: Receiver<JobMsg>,
    /// The newest output lines.
    pub log: Vec<String>,
    /// When the job started.
    pub started: Instant,
    /// Current lifecycle status.
    pub status: JobStatus,
    /// Latest `(done, total)` progress, if reported.
    pub progress: Option<(usize, usize)>,
    /// Elapsed seconds frozen at completion; `None` while running.
    pub finished_secs: Option<u64>,
}

/// The job after handling one message: a line is logged, progress is
/// recorded, and `Done` settles the status and freezes the elapsed seconds
/// (to `elapsed`, unless they were frozen already).
pub open spec fn after_message(job: RunningJob, msg: JobMsg, elapsed: u64, next: RunningJob) -> bool {
    &&& next.kind == job.kind
    &&& next.rx == job.rx
    &&& next.started == job.started
    &&& match msg {
        JobMsg::Line(line) => {
            &&& next.log@ == log_after_push(job.log@, line)
            &&& next.status == job.status
            &&& next.progress == job.progress
            &&& next.finished_secs == job.finished_secs
        },
        JobMsg::Progress(done, total) => {
            &&& next.log@ == job.log@
            &&& next.status == job.status
            &&& next.progress == Some((done, total))
            &&& next.finished_secs == job.finished_secs
        },
        JobMsg::Done(success) => {
            &&& next.log@ == job.log@
            &&& next.status == (if success { JobStatus::Done } else { JobStatus::Failed })
            &&& next.progress == job.progress
            &&& next.finished_secs == (if job.finished_secs is Some { job.finished_secs } else { Some(elapsed) })
        },
    }
}

/// The log after a run of messages: each `Line` appended in turn, keeping the
/// newest [`MAX_LOG_LINES`].
pub open spec fn log_after_messages(log: Seq<String>, msgs: Seq<JobMsg>) -> Seq<String>
    decreases msgs.len(),
{
    if msgs.len() == 0 {
        log
    } else {
        let prev = log_after_messages(log, msgs.drop_last());
        match msgs.last() {
            JobMsg::Line(line) => log_after_push(prev, line),
            _ => prev,
        }
    }
}

/// The progress after a run of messages: the last `Progress` among them, else
/// `progress` unchanged.
pub open spec fn progress_after_messages(progress: Option<(usize, usize)>, msgs: Seq<JobMsg>) -> Option<(usize, usize)>
    decreases msgs.len(),
{
    if msgs.len() == 0 {
        progress
    } else {
        match msgs.last() {
            JobMsg::Progress(done, total) => Some((done, total)),
            _ => progress_after_messages(progress, msgs.drop_last()),
        }
    }
}

/// The outcome of the last `Done` among `msgs`, if any.
pub open spec fn last_done(msgs: Seq<JobMsg>) -> Option<bool>
    decreases msgs.len(),
{
    if msgs.len() == 0 {
        None
    } else {
        match msgs.last() {
            JobMsg::Done(success) => Some(success),
            _ => last_done(msgs.drop_last()),
        }
    }
}

/// `after` is `before` with the messages `msgs` handled in order, and
/// `completed` reports the last `Done` among them.
pub open spec fn drained(before: RunningJob, msgs: Seq<JobMsg>, after: RunningJob, completed: Option<bool>) -> bool {
    &&& after.log@ == log_after_messages(before.log@, msgs)
    &&& after.progress == progress_after_messages(before.progress, msgs)
    &&& completed == last_done(msgs)
}

impl RunningJob {
    /// A fresh running job around a worker channel.
    pub fn new(kind: JobKind, rx: Receiver<JobMsg>) -> (job: RunningJob)
        ensures
            job.kind == kind,
            job.rx == rx,
            job.log@.len() == 0,
            job.status == JobStatus::Running,
            job.progress is None,
            job.finished_secs is None,
    {
        RunningJob {
            kind,
            rx,
            log: Vec::new(),
            started: instant_now(),
            status: JobStatus::Running,
            progress: None,
            finished_secs: None,
        }
    }

    /// Appends a log line, keeping only the newest [`MAX_LOG_LINES`].
    pub fn push_log(&mut self, line: String)
        ensures
            final(self).log@ == log_after_push(old(self).log@, line),
            final(self).kind == old(self).kind,
            final(self).rx == old(self).rx,
            final(self).started == old(self).started,
            final(self).status == old(self).status,
            final(self).progress == old(self).progress,
            final(self).finished_secs == old(self).finished_secs,
    {
        let ghost full = self.log@.push(line);
        let ghost st = *self;
        self.log.push(line);
        let ghost mut dropped: int = 0;
        while self.log.len() > MAX_LOG_LINES
            invariant
                self.kind == st.kind,
                self.rx == st.rx,
                self.started == st.started,
                self.status == st.status,
                self.progress == st.progress,
                self.finished_secs == st.finished_secs,
                0 <= dropped <= full.len(),
                self.log@ == full.skip(dropped),
                full.len() > MAX_LOG_LINES ==> dropped <= full.len() - MAX_LOG_LINES,
                full.len() <= MAX_LOG_LINES ==> dropped == 0,
            decreases self.log.len(),
        {
            self.log.remove(0);
            proof {
                dropped = dropped + 1;
            }
            assert(self.log@ =~= full.skip(dropped));
        }
        assert(full.skip(0) =~= full);
    }

    /// Handles one message from the worker. Returns `Some(success)` when the
    /// message is the terminal `Done`. `elapsed` is the clock reading frozen
    /// into `finished_secs` by a first `Done`.
    pub fn apply(&mut self, msg: JobMsg, elapsed: u64) -> (done: Option<bool>)
        ensures
            after_message(*old(self), msg, elapsed, *final(self)),
            done == (match msg {
                JobMsg::Done(success) => Some(success),
                _ => None::<bool>,
            }),
    {
        match msg {
            JobMsg::Line(line) => {
                self.push_log(line);
                None
            },
            JobMsg::Progress(done, total) => {
                self.progress = Some((done, total));
                None
            },
            JobMsg::Done(success) => {
                self.status = if success {
                    JobStatus::Done
                } else {
                    JobStatus::Failed
                };
                if self.finished_secs.is_none() {
                    self.finished_secs = Some(elapsed);
                }
                Some(success)
            },
        }
    }

    /// Drains every message queued right now without blocking, updating the
    /// log, progress and status. Returns `Some(success)` when a `Done` was
    /// among them, `None` otherwise.
    pub fn drain(&mut self) -> (completed: Option<bool>)
        ensures
            final(self).kind == old(self).kind,
            final(self).rx == old(self).rx,
            final(self).started == old(self).started,
            match completed {
                Some(success) => {
                    &&& final(self).status == (if success { JobStatus::Done } else { JobStatus::Failed })
                    &&& final(self).finished_secs is Some
                },
                None => {
                    &&& final(self).status == old(self).status
                    &&& final(self).finished_secs == old(self).finished_secs
                },
            },
            old(self).finished_secs is Some ==> final(self).finished_secs == old(self).finished_secs,
            final(self).log@.len() <= (if old(self).log@.len() > MAX_LOG_LINES { old(self).log@.len() as int } else { MAX_LOG_LINES as int }),
            exists|msgs: Seq<JobMsg>| #[trigger] drained(*old(self), msgs, *final(self), completed),
    {
        let ghost start = *self;
        let ghost mut msgs: Seq<JobMsg> = Seq::empty();
        let mut completed: Option<bool> = None;
        // A worker cannot queue anywhere near `u64::MAX` messages, so this
        // budget never cuts a drain short; it only bounds the loop.
        let mut budget: u64 = u64::MAX;
        while budget > 0
            invariant
                self.kind == start.kind,
                self.rx == start.rx,
                self.started == start.started,
                match completed {
                    Some(success) => {
                        &&& self.status == (if success { JobStatus::Done } else { JobStatus::Failed })
                        &&& self.finished_secs is Some
                    },
                    None => {
                        &&& self.status == start.status
                        &&& self.finished_secs == start.finished_secs
                    },
                },
                start.finished_secs is Some ==> self.finished_secs == start.finished_secs,
                self.log@.len() <= (if start.log@.len() > MAX_LOG_LINES { start.log@.len() as int } else { MAX_LOG_LINES as int }),
                drained(start, msgs, *self, completed),
            decreases budget,
        {
            budget -= 1;
            match try_receive(&self.rx) {
                None => break,
                Some(msg) => {
                    let freeze = match &msg {
                        JobMsg::Done(_) => self.finished_secs.is_none(),
                        _ => false,
                    };
                    let elapsed = if freeze { whole_secs_since(&self.started) } else { 0 };
                    let ghost m = msg;
                    if let Some(success) = self.apply(msg, elapsed) {
                        completed = Some(success);
                    }
                    proof {
                        let prev = msgs;
                        msgs = prev.push(m);
                        assert(msgs.drop_last() =~= prev);
                        assert(msgs.last() == m);
                    }
                },
            }
        }
        assert(drained(start, msgs, *self, completed));
        completed
    }

    /// Elapsed seconds for the readout: the frozen duration once finished,
    /// otherwise a live clock reading.
    pub fn elapsed_secs(&self) -> (secs: u64)
        ensures
            self.finished_secs matches Some(s) ==> secs == s,
    {
        match self.finished_secs {
            Some(s) => s,
            None => whole_secs_since(&self.started),
        }
    }

    /// True while the worker is still streaming.
    pub fn is_running(&self) -> (r: bool)
        ensures
            r == (self.status is Running),
    {
        matches!(self.status, JobStatus::Running)
    }
}

/// The messages one streamed output line becomes: a `Progress` first when
/// progress is tracked on this stream and the line carries an `N/M` pair, then
/// the line itself.
pub open spec fn line_messages_of(line: String, track_progress: bool) -> Seq<JobMsg> {
    match (if track_progress { progress_from(line@, 0) } else { None }) {
        Some((done, total)) => seq![JobMsg::Progress(done, total), JobMsg::Line(line)],
        None => seq![JobMsg::Line(line)],
    }
}

/// Turns one worker output line into the messages to send.
pub fn line_messages(line: String, track_progress: bool) -> (msgs: Vec<JobMsg>)
    ensures
        msgs@ == line_messages_of(line, track_progress),
{
    let mut msgs: Vec<JobMsg> = Vec::new();
    if track_progress {
        match parse_progress(line.as_str()) {
            Some((done, total)) => msgs.push(JobMsg::Progress(done, total)),
            None => {},
        }
    }
    msgs.push(JobMsg::Line(line));
    msgs
}

/// The log line appended when a job ends.
pub open spec fn completion_log_text(kind: JobKind, success: bool) -> Seq<char> {
    "$ "@ + job_label(kind) + (if success { " finished OK"@ } else { " exited with errors"@ })
}

/// Builds [`completion_log_text`].
pub fn completion_log_line(kind: JobKind, success: bool) -> (s: String)
    ensures
        s@ == completion_log_text(kind, success),
{
    let mut out = String::new();
    push_str(&mut out, "$ ");
    push_str(&mut out, kind.label());
    if success {
        push_str(&mut out, " finished OK");
    } else {
        push_str(&mut out, " exited with errors");
    }
    out
}

/// The status line shown when a job ends.
pub open spec fn completion_status_text(kind: JobKind, success: bool) -> Seq<char> {
    job_label(kind) + (if success { " complete"@ } else { " failed"@ }) + " — press Esc/Enter to dismiss."@
}

/// Builds [`completion_status_text`].
pub fn completion_status(kind: JobKind, success: bool) -> (s: String)
    ensures
        s@ == completion_status_text(kind, success),
{
    let mut out = String::new();
    push_str(&mut out, kind.label());
    if success {
        push_str(&mut out, " complete");
    } else {
        push_str(&mut out, " failed");
    }
    push_str(&mut out, " — press Esc/Enter to dismiss.");
    out
}

} // verus!
