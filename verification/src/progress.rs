//! Progress of long-running tasks: what a poll of a task shows.

use crate::text::{decimal_text, push_number, push_text, same_text, string_of};
use vstd::prelude::*;

verus! {

/// Where a task stands.
#[derive(Debug, Clone, Copy, PartialEq, Eq, Structural)]
pub enum TaskStatus {
    Running,
    Completed,
    Failed,
    Stopped,
    NotFound,
    Unknown,
}

impl TaskStatus {
    /// The status as the polling side reads it.
    pub open spec fn text(self) -> Seq<char> {
        match self {
            TaskStatus::Running => "running"@,
            TaskStatus::Completed => "completed"@,
            TaskStatus::Failed => "failed"@,
            TaskStatus::Stopped => "stopped"@,
            TaskStatus::NotFound => "not_found"@,
            TaskStatus::Unknown => "unknown"@,
        }
    }

    /// The status that a word stands for; any other word stands for
    /// `Unknown`.
    pub open spec fn from_text_spec(text: Seq<char>) -> TaskStatus {
        if text == "running"@ {
            TaskStatus::Running
        } else if text == "completed"@ {
            TaskStatus::Completed
        } else if text == "failed"@ {
            TaskStatus::Failed
        } else if text == "stopped"@ {
            TaskStatus::Stopped
        } else if text == "not_found"@ {
            TaskStatus::NotFound
        } else {
            TaskStatus::Unknown
        }
    }

    /// Reads a status from the word that stands for it.
    pub fn from_text(text: &str) -> (out: TaskStatus)
        ensures
            out == Self::from_text_spec(text@),
    {
        if same_text(text, "running") {
            TaskStatus::Running
        } else if same_text(text, "completed") {
            TaskStatus::Completed
        } else if same_text(text, "failed") {
            TaskStatus::Failed
        } else if same_text(text, "stopped") {
            TaskStatus::Stopped
        } else if same_text(text, "not_found") {
            TaskStatus::NotFound
        } else {
            TaskStatus::Unknown
        }
    }

    /// The status as the polling side reads it.
    pub fn as_str(&self) -> (out: &'static str)
        ensures
            out@ == self.text(),
    {
        match self {
            TaskStatus::Running => "running",
            TaskStatus::Completed => "completed",
            TaskStatus::Failed => "failed",
            TaskStatus::Stopped => "stopped",
            TaskStatus::NotFound => "not_found",
            TaskStatus::Unknown => "unknown",
        }
    }
}

/// Each status is read back from its own word.
pub proof fn lemma_status_round_trip(status: TaskStatus)
    ensures
        TaskStatus::from_text_spec(status.text()) == status,
{
    reveal_strlit("running");
    reveal_strlit("completed");
    reveal_strlit("failed");
    reveal_strlit("stopped");
    reveal_strlit("not_found");
    reveal_strlit("unknown");
    assert("running"@[0] == 'r');
    assert("completed"@[0] == 'c');
    assert("stopped"@[0] == 's');
    assert("not_found"@[0] == 'n');
    assert("unknown"@[0] == 'u');
    assert("failed"@.len() == 6);
}

/// What a registry needs of a progress record: its status, a way to mark it
/// stopped by hand, and a copy.
pub trait TaskProgress: View + Sized {
    spec fn status_of(v: Self::V) -> TaskStatus;

    /// The record after a stop by hand.
    spec fn stopped_view(v: Self::V) -> Self::V;

    fn status(&self) -> (s: TaskStatus)
        ensures
            s == Self::status_of(self@),
    ;

    fn mark_stopped(&mut self)
        ensures
            final(self)@ == Self::stopped_view(old(self)@),
    ;

    fn duplicate(&self) -> (out: Self)
        ensures
            out@ == self@,
    ;

    /// A record that was marked stopped shows the status `stopped`.
    proof fn lemma_stopped_is_stopped(v: Self::V)
        ensures
            Self::status_of(Self::stopped_view(v)) == TaskStatus::Stopped,
    ;
}

/// The line a record carries once its task was stopped by hand.
pub open spec fn stopped_log() -> Seq<char> {
    "任务已手动停止"@
}

/// The line of a record that was never filled in.
pub open spec fn unknown_log() -> Seq<char> {
    "未知状态"@
}

/// The line shown for a task id that the registry does not hold.
pub open spec fn missing_log() -> Seq<char> {
    "任务不存在"@
}

/// Progress of one collection run.
#[derive(Debug, Clone, PartialEq, Eq)]
pub struct CollectProgress {
    pub status: TaskStatus,
    pub current_page: u32,
    pub total_pages: u32,
    pub success: u32,
    pub failed: u32,
    pub log: String,
}

/// Progress of a collection run as the contracts see it.
pub struct CollectProgressView {
    pub status: TaskStatus,
    pub current_page: u32,
    pub total_pages: u32,
    pub success: u32,
    pub failed: u32,
    pub log: Seq<char>,
}

impl View for CollectProgress {
    type V = CollectProgressView;

    open spec fn view(&self) -> CollectProgressView {
        CollectProgressView {
            status: self.status,
            current_page: self.current_page,
            total_pages: self.total_pages,
            success: self.success,
            failed: self.failed,
            log: self.log@,
        }
    }
}

impl Default for CollectProgress {
    fn default() -> (out: CollectProgress)
        ensures
            out@ == (CollectProgressView {
                status: TaskStatus::Unknown,
                current_page: 0,
                total_pages: 0,
                success: 0,
                failed: 0,
                log: unknown_log(),
            }),
    {
        CollectProgress {
            status: TaskStatus::Unknown,
            current_page: 0,
            total_pages: 0,
            success: 0,
            failed: 0,
            log: String::from_str("未知状态"),
        }
    }
}

impl CollectProgress {
    /// What a poll shows for a task id that the registry does not hold.
    pub fn not_found() -> (out: CollectProgress)
        ensures
            out@ == (CollectProgressView {
                status: TaskStatus::NotFound,
                current_page: 0,
                total_pages: 0,
                success: 0,
                failed: 0,
                log: missing_log(),
            }),
    {
        CollectProgress {
            status: TaskStatus::NotFound,
            current_page: 0,
            total_pages: 0,
            success: 0,
            failed: 0,
            log: String::from_str("任务不存在"),
        }
    }
}

impl TaskProgress for CollectProgress {
    open spec fn status_of(v: CollectProgressView) -> TaskStatus {
        v.status
    }

    open spec fn stopped_view(v: CollectProgressView) -> CollectProgressView {
        CollectProgressView { status: TaskStatus::Stopped, log: stopped_log(), ..v }
    }

    fn status(&self) -> (s: TaskStatus) {
        self.status
    }

    fn mark_stopped(&mut self) {
        self.status = TaskStatus::Stopped;
        self.log = String::from_str("任务已手动停止");
    }

    proof fn lemma_stopped_is_stopped(v: CollectProgressView) {
    }

    fn duplicate(&self) -> (out: CollectProgress) {
        CollectProgress {
            status: self.status,
            current_page: self.current_page,
            total_pages: self.total_pages,
            success: self.success,
            failed: self.failed,
            log: self.log.clone(),
        }
    }
}

/// The answer to a poll of a collection run.
#[derive(Debug, Clone, PartialEq, Eq)]
pub struct CollectProgressResponse {
    pub success: bool,
    pub progress: CollectProgress,
}

/// Answers a poll: the record when the task is known, and otherwise a
/// `not_found` record with `success` unset.
pub fn poll_response(found: Option<CollectProgress>) -> (out: CollectProgressResponse)
    ensures
        out.success == found is Some,
        match found {
            Some(p) => out.progress@ == p@,
            None => out.progress@ == (CollectProgressView {
                status: TaskStatus::NotFound,
                current_page: 0,
                total_pages: 0,
                success: 0,
                failed: 0,
                log: missing_log(),
            }),
        },
{
    match found {
        Some(progress) => CollectProgressResponse { success: true, progress },
        None => CollectProgressResponse { success: false, progress: CollectProgress::not_found() },
    }
}

/// Progress of one batch removal of a play source.
#[derive(Debug, Clone, PartialEq, Eq)]
pub struct BatchDeleteProgress {
    pub status: TaskStatus,
    pub processed_count: u64,
    pub deleted_count: u64,
    pub total_count: u64,
    pub log: String,
}

/// Progress of a batch removal as the contracts see it.
pub struct BatchDeleteProgressView {
    pub status: TaskStatus,
    pub processed_count: u64,
    pub deleted_count: u64,
    pub total_count: u64,
    pub log: Seq<char>,
}

impl View for BatchDeleteProgress {
    type V = BatchDeleteProgressView;

    open spec fn view(&self) -> BatchDeleteProgressView {
        BatchDeleteProgressView {
            status: self.status,
            processed_count: self.processed_count,
            deleted_count: self.deleted_count,
            total_count: self.total_count,
            log: self.log@,
        }
    }
}

impl Default for BatchDeleteProgress {
    fn default() -> (out: BatchDeleteProgress)
        ensures
            out@ == (BatchDeleteProgressView {
                status: TaskStatus::Unknown,
                processed_count: 0,
                deleted_count: 0,
                total_count: 0,
                log: unknown_log(),
            }),
    {
        BatchDeleteProgress {
            status: TaskStatus::Unknown,
            processed_count: 0,
            deleted_count: 0,
            total_count: 0,
            log: String::from_str("未知状态"),
        }
    }
}

impl BatchDeleteProgress {
    /// What a poll shows for a task id that the registry does not hold.
    pub fn not_found() -> (out: BatchDeleteProgress)
        ensures
            out@ == (BatchDeleteProgressView {
                status: TaskStatus::NotFound,
                processed_count: 0,
                deleted_count: 0,
                total_count: 0,
                log: missing_log(),
            }),
    {
        BatchDeleteProgress {
            status: TaskStatus::NotFound,
            processed_count: 0,
            deleted_count: 0,
            total_count: 0,
            log: String::from_str("任务不存在"),
        }
    }
}

impl TaskProgress for BatchDeleteProgress {
    open spec fn status_of(v: BatchDeleteProgressView) -> TaskStatus {
        v.status
    }

    open spec fn stopped_view(v: BatchDeleteProgressView) -> BatchDeleteProgressView {
        BatchDeleteProgressView { status: TaskStatus::Stopped, log: stopped_log(), ..v }
    }

    fn status(&self) -> (s: TaskStatus) {
        self.status
    }

    fn mark_stopped(&mut self) {
        self.status = TaskStatus::Stopped;
        self.log = String::from_str("任务已手动停止");
    }

    proof fn lemma_stopped_is_stopped(v: BatchDeleteProgressView) {
    }

    fn duplicate(&self) -> (out: BatchDeleteProgress) {
        BatchDeleteProgress {
            status: self.status,
            processed_count: self.processed_count,
            deleted_count: self.deleted_count,
            total_count: self.total_count,
            log: self.log.clone(),
        }
    }
}

/// `n` in decimal, with a zero before a single digit.
pub open spec fn two_digits(n: u32) -> Seq<char> {
    if n < 10 {
        "0"@ + decimal_text(n as nat)
    } else {
        decimal_text(n as nat)
    }
}

/// A time of day as a list of running tasks shows it: hours, minutes and
/// seconds, two digits each, with `:` between.
pub open spec fn clock_text_spec(hour: u32, minute: u32, second: u32) -> Seq<char> {
    two_digits(hour) + ":"@ + two_digits(minute) + ":"@ + two_digits(second)
}

fn push_two_digits(line: &mut Vec<char>, n: u32)
    ensures
        final(line)@ == old(line)@ + two_digits(n),
{
    if n < 10 {
        push_text(line, "0");
    }
    push_number(line, n as u64);
}

/// A time of day with two digits for each part.
pub fn clock_text(hour: u32, minute: u32, second: u32) -> (out: String)
    ensures
        out@ == clock_text_spec(hour, minute, second),
{
    let mut line: Vec<char> = Vec::new();
    push_two_digits(&mut line, hour);
    push_text(&mut line, ":");
    push_two_digits(&mut line, minute);
    push_text(&mut line, ":");
    push_two_digits(&mut line, second);
    string_of(&line)
}

/// `prefix`, then `a` in decimal.
pub open spec fn line_1(prefix: Seq<char>, a: nat) -> Seq<char> {
    prefix + decimal_text(a)
}

/// `prefix`, `a` in decimal, `middle`, `b` in decimal, `suffix`.
pub open spec fn line_2(prefix: Seq<char>, a: nat, middle: Seq<char>, b: nat, suffix: Seq<char>) -> Seq<
    char,
> {
    prefix + decimal_text(a) + middle + decimal_text(b) + suffix
}

/// A log line that ends in a number.
pub fn make_line_1(prefix: &str, a: u64) -> (out: String)
    ensures
        out@ == line_1(prefix@, a as nat),
{
    let mut line: Vec<char> = Vec::new();
    push_text(&mut line, prefix);
    push_number(&mut line, a);
    string_of(&line)
}

/// A log line with two numbers in it.
pub fn make_line_2(prefix: &str, a: u64, middle: &str, b: u64, suffix: &str) -> (out: String)
    ensures
        out@ == line_2(prefix@, a as nat, middle@, b as nat, suffix@),
{
    let mut line: Vec<char> = Vec::new();
    push_text(&mut line, prefix);
    push_number(&mut line, a);
    push_text(&mut line, middle);
    push_number(&mut line, b);
    push_text(&mut line, suffix);
    string_of(&line)
}

/// `prefix` followed by `detail`.
pub fn make_line_text(prefix: &str, detail: &str) -> (out: String)
    ensures
        out@ == prefix@ + detail@,
{
    let mut line: Vec<char> = Vec::new();
    push_text(&mut line, prefix);
    push_text(&mut line, detail);
    string_of(&line)
}

} // verus!
