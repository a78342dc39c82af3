//! The batch collection run and its page collector, as a state machine. The
//! caller fetches, stores and sleeps; each answer is handed to the run, which
//! keeps the progress, publishes it in the registry, and says what to do
//! next.

use crate::dto::{JsonResponse, VideoListResponse, VodApiListEntry};
use crate::merge::WriteKind;
use crate::models::{opt_text, Binding, Collection, Vod, VodView};
use crate::progress::{
    line_1, line_2, make_line_1, make_line_2, make_line_text, CollectProgress,
    CollectProgressView, TaskProgress, TaskStatus,
};
use crate::registry::{lookup, upsert_spec, TaskEntryView, TaskRegistry};
use crate::remote::{
    listing_url, listing_url_spec, page_count_failure, page_url, page_url_spec, probe_step,
    probe_step_spec, CollectError, CollectErrorView, ProbeStep, ProbeStepView, PROBE_ATTEMPTS,
};
use crate::text::{decimal_text, same_text, signed_decimal_chars, signed_decimal_text, string_of};
use vstd::prelude::*;

verus! {

/// Milliseconds to wait after a page before the next is asked for.
pub const PAGE_DELAY_MS: u64 = 500;

/// Where a run stands.
#[derive(Debug, Clone, Copy, PartialEq, Eq, Structural)]
pub enum RunPhase {
    /// The page count is being asked for.
    Probing,
    /// Pages are being collected.
    Paging,
    /// All pages were collected.
    Completed,
    /// The page count could not be had.
    Failed,
    /// The task was stopped from outside.
    Stopped,
}

/// One collection run over a source's listing.
pub struct BatchRun {
    pub task_id: String,
    pub name: String,
    pub api_url: String,
    pub progress: CollectProgress,
    pub phase: RunPhase,
    /// Number of the probe attempt that is under way, from 1.
    pub attempt: u32,
    /// Pages that were collected or given up.
    pub pages_done: u32,
}

/// A run as the contracts see it.
pub struct BatchRunView {
    pub task_id: Seq<char>,
    pub name: Seq<char>,
    pub api_url: Seq<char>,
    pub progress: CollectProgressView,
    pub phase: RunPhase,
    pub attempt: u32,
    pub pages_done: u32,
}

impl View for BatchRun {
    type V = BatchRunView;

    open spec fn view(&self) -> BatchRunView {
        BatchRunView {
            task_id: self.task_id@,
            name: self.name@,
            api_url: self.api_url@,
            progress: self.progress@,
            phase: self.phase,
            attempt: self.attempt,
            pages_done: self.pages_done,
        }
    }
}

impl BatchRunView {
    /// A probe never passes its attempts, and no more pages are done than
    /// the listing has.
    pub open spec fn well_formed(self) -> bool {
        &&& 1 <= self.attempt <= PROBE_ATTEMPTS
        &&& self.phase == RunPhase::Probing ==> self.pages_done == 0
        &&& self.phase == RunPhase::Paging ==> self.pages_done <= self.progress.total_pages
    }

    /// The run is over.
    pub open spec fn is_over(self) -> bool {
        self.phase == RunPhase::Completed || self.phase == RunPhase::Failed || self.phase
            == RunPhase::Stopped
    }
}

/// What the caller is to do for the next page.
#[derive(Debug, Clone, PartialEq, Eq)]
pub enum PageDecision {
    /// Fetch this page and hand the outcome to `page_done`.
    Fetch { page: u32, url: String },
    /// The task was stopped: the run ends here, cleanly.
    Halt,
    /// There is no page left: the run is over.
    Finished,
}

/// A decision as the contracts see it.
pub enum PageDecisionView {
    Fetch { page: u32, url: Seq<char> },
    Halt,
    Finished,
}

impl View for PageDecision {
    type V = PageDecisionView;

    open spec fn view(&self) -> PageDecisionView {
        match self {
            PageDecision::Fetch { page, url } => PageDecisionView::Fetch { page: *page, url: url@ },
            PageDecision::Halt => PageDecisionView::Halt,
            PageDecision::Finished => PageDecisionView::Finished,
        }
    }
}

/// How the collection of one page ended.
#[derive(Debug, Clone, PartialEq, Eq)]
pub enum PageOutcome {
    /// Every listed video was tried: so many were taken in, so many failed.
    Collected { success: u32, failed: u32 },
    /// The task was stopped while the page was under way.
    Interrupted,
    /// The page could not be fetched or read.
    Failed(CollectError),
}

/// An outcome as the contracts see it.
pub enum PageOutcomeView {
    Collected { success: u32, failed: u32 },
    Interrupted,
    Failed(CollectErrorView),
}

impl View for PageOutcome {
    type V = PageOutcomeView;

    open spec fn view(&self) -> PageOutcomeView {
        match self {
            PageOutcome::Collected { success, failed } => PageOutcomeView::Collected {
                success: *success,
                failed: *failed,
            },
            PageOutcome::Interrupted => PageOutcomeView::Interrupted,
            PageOutcome::Failed(cause) => PageOutcomeView::Failed(cause@),
        }
    }
}

/// The progress of a run that has just begun.
pub open spec fn started_progress() -> CollectProgressView {
    CollectProgressView {
        status: TaskStatus::Running,
        current_page: 0,
        total_pages: 1,
        success: 0,
        failed: 0,
        log: "正在获取总页数..."@,
    }
}

/// The progress of a task that was accepted and has not begun.
pub open spec fn accepted_progress() -> CollectProgressView {
    CollectProgressView { log: "正在启动采集任务..."@, ..started_progress() }
}

/// A run that has just begun: probing for the first time, no page done.
pub open spec fn start_spec(
    name: Seq<char>,
    collect_url: Seq<char>,
    hours: Option<Seq<char>>,
    task_id: Seq<char>,
) -> BatchRunView {
    BatchRunView {
        task_id,
        name,
        api_url: listing_url_spec(collect_url, hours),
        progress: started_progress(),
        phase: RunPhase::Probing,
        attempt: 1,
        pages_done: 0,
    }
}

/// The line of a run that is over, with its counts.
pub open spec fn summary_log(success: u32, failed: u32) -> Seq<char> {
    line_2("采集完成，成功: "@, success as nat, "，失败: "@, failed as nat, Seq::empty())
}

/// The run after an answer to the page-count probe.
pub open spec fn after_probe_spec(
    run: BatchRunView,
    reply: Result<VideoListResponse, CollectError>,
) -> BatchRunView {
    match probe_step_spec(run.attempt as nat, PROBE_ATTEMPTS as nat, reply) {
        ProbeStepView::Done(pages) => BatchRunView {
            phase: RunPhase::Paging,
            progress: CollectProgressView {
                total_pages: pages,
                log: line_1("开始采集，总页数: "@, pages as nat),
                ..run.progress
            },
            ..run
        },
        ProbeStepView::Retry { wait_seconds } => BatchRunView {
            attempt: (run.attempt + 1) as u32,
            ..run
        },
        ProbeStepView::GiveUp(cause) => BatchRunView {
            phase: RunPhase::Failed,
            progress: CollectProgressView {
                status: TaskStatus::Failed,
                log: "采集失败: "@ + page_count_failure(cause).message,
                ..run.progress
            },
            ..run
        },
    }
}

/// What the caller hears after an answer to the probe: as the probe says,
/// with the reason of a failure turned into the run's own.
pub open spec fn probe_report_spec(
    run: BatchRunView,
    reply: Result<VideoListResponse, CollectError>,
) -> ProbeStepView {
    match probe_step_spec(run.attempt as nat, PROBE_ATTEMPTS as nat, reply) {
        ProbeStepView::GiveUp(cause) => ProbeStepView::GiveUp(page_count_failure(cause)),
        other => other,
    }
}

/// The run before its next page, given the status that the registry shows
/// for the task. A stop that was asked for ends the run, whether pages are
/// left or not. Else with no page left the run completes; else the next page
/// begins.
pub open spec fn begin_page_spec(run: BatchRunView, status: Option<TaskStatus>) -> BatchRunView {
    if run.phase != RunPhase::Paging {
        run
    } else if status == Some(TaskStatus::Stopped) {
        BatchRunView { phase: RunPhase::Stopped, ..run }
    } else if run.pages_done >= run.progress.total_pages {
        BatchRunView {
            phase: RunPhase::Completed,
            progress: CollectProgressView {
                status: TaskStatus::Completed,
                log: summary_log(run.progress.success, run.progress.failed),
                ..run.progress
            },
            ..run
        }
    } else {
        BatchRunView {
            progress: CollectProgressView {
                current_page: (run.pages_done + 1) as u32,
                log: line_2(
                    "正在采集第 "@,
                    (run.pages_done + 1) as nat,
                    "/"@,
                    run.progress.total_pages as nat,
                    " 页"@,
                ),
                ..run.progress
            },
            ..run
        }
    }
}

/// Whether the run publishes its progress before the next page: when it
/// completes and when a page begins, not when it halts or is over already.
pub open spec fn publishes_before_page(run: BatchRunView, status: Option<TaskStatus>) -> bool {
    run.phase == RunPhase::Paging && status != Some(TaskStatus::Stopped)
}

/// What the caller is told before the next page: fetch the page after
/// those that are done, halt on a stop, or nothing more to do.
pub open spec fn page_decision_spec(run: BatchRunView, status: Option<TaskStatus>) -> PageDecisionView {
    if run.phase != RunPhase::Paging {
        if run.phase == RunPhase::Stopped {
            PageDecisionView::Halt
        } else {
            PageDecisionView::Finished
        }
    } else if status == Some(TaskStatus::Stopped) {
        PageDecisionView::Halt
    } else if run.pages_done >= run.progress.total_pages {
        PageDecisionView::Finished
    } else {
        PageDecisionView::Fetch {
            page: (run.pages_done + 1) as u32,
            url: page_url_spec(run.api_url, (run.pages_done + 1) as u32),
        }
    }
}

/// The progress after a page: the page's counts added, or one more failure
/// for a page that could not be had; an interrupted page adds nothing.
pub open spec fn progress_after_page(
    progress: CollectProgressView,
    outcome: PageOutcomeView,
) -> CollectProgressView {
    match outcome {
        PageOutcomeView::Collected { success, failed } => CollectProgressView {
            success: (progress.success + success) as u32,
            failed: (progress.failed + failed) as u32,
            log: line_2("本页采集完成，成功: "@, success as nat, "，失败: "@, failed as nat, Seq::empty()),
            ..progress
        },
        PageOutcomeView::Interrupted => progress,
        PageOutcomeView::Failed(cause) => CollectProgressView {
            failed: (progress.failed + 1) as u32,
            log: line_1("第 "@, progress.current_page as nat) + " 页采集失败: "@ + cause.message,
            ..progress
        },
    }
}

/// The counts of the page fit beside those of the run.
pub open spec fn page_fits(progress: CollectProgressView, outcome: PageOutcomeView) -> bool {
    match outcome {
        PageOutcomeView::Collected { success, failed } => progress.success + success <= u32::MAX
            && progress.failed + failed <= u32::MAX,
        PageOutcomeView::Interrupted => true,
        PageOutcomeView::Failed(_) => progress.failed + 1 <= u32::MAX,
    }
}

/// The run after a page: its progress brought forward and one more page
/// done.
pub open spec fn after_page_spec(run: BatchRunView, outcome: PageOutcomeView) -> BatchRunView {
    BatchRunView {
        progress: progress_after_page(run.progress, outcome),
        pages_done: (run.pages_done + 1) as u32,
        ..run
    }
}

/// Milliseconds to wait after a page: the politeness delay, but none after
/// a page that could not be had.
pub open spec fn wait_after_page(outcome: PageOutcomeView) -> u64 {
    match outcome {
        PageOutcomeView::Failed(_) => 0,
        _ => PAGE_DELAY_MS,
    }
}

/// The registry with `progress` recorded for a task, unless the registry
/// shows the task as stopped: a stop is the task's last word and no progress
/// of its run is written over it.
pub open spec fn recorded(
    registry: Seq<TaskEntryView<CollectProgressView>>,
    task_id: Seq<char>,
    progress: CollectProgressView,
    name: Seq<char>,
) -> Seq<TaskEntryView<CollectProgressView>> {
    if stored_status(registry, task_id) == Some(TaskStatus::Stopped) {
        registry
    } else {
        upsert_spec(registry, task_id, progress, name)
    }
}

/// The registry with the run's progress published, unless the task was
/// stopped.
pub open spec fn published(
    registry: Seq<TaskEntryView<CollectProgressView>>,
    run: BatchRunView,
) -> Seq<TaskEntryView<CollectProgressView>> {
    recorded(registry, run.task_id, run.progress, run.name)
}

/// Records the progress of a task's run, unless the task was stopped.
pub fn record_progress(
    registry: &mut TaskRegistry<CollectProgress>,
    task_id: &str,
    progress: CollectProgress,
    name: String,
)
    ensures
        final(registry)@ == recorded(old(registry)@, task_id@, progress@, name@),
{
    let stopped = match registry.status(task_id) {
        Some(s) => s == TaskStatus::Stopped,
        None => false,
    };
    if !stopped {
        registry.upsert(task_id, progress, name);
    }
}

impl BatchRun {
    fn publish(&self, registry: &mut TaskRegistry<CollectProgress>)
        ensures
            final(registry)@ == published(old(registry)@, self@),
    {
        record_progress(
            registry,
            self.task_id.as_str(),
            self.progress.duplicate(),
            self.name.clone(),
        );
    }

    /// Begins a run on `collection`, for all videos or those changed within
    /// `hours`, and publishes it as running.
    pub fn start(
        collection: &Collection,
        hours: &Option<String>,
        task_id: String,
        registry: &mut TaskRegistry<CollectProgress>,
    ) -> (run: BatchRun)
        ensures
            run@ == start_spec(
                collection.collect_name@,
                collection.collect_url@,
                opt_text(*hours),
                task_id@,
            ),
            run@.well_formed(),
            final(registry)@ == published(old(registry)@, run@),
    {
        let run = BatchRun {
            task_id,
            name: collection.collect_name.clone(),
            api_url: listing_url(collection.collect_url.as_str(), hours),
            progress: CollectProgress {
                status: TaskStatus::Running,
                current_page: 0,
                total_pages: 1,
                success: 0,
                failed: 0,
                log: String::from_str("正在获取总页数..."),
            },
            phase: RunPhase::Probing,
            attempt: 1,
            pages_done: 0,
        };
        run.publish(registry);
        run
    }

    /// Begins a run under a fresh task id.
    pub fn start_new(
        collection: &Collection,
        hours: &Option<String>,
        registry: &mut TaskRegistry<CollectProgress>,
    ) -> (run: BatchRun)
        ensures
            crate::picture::is_uuid_text(run@.task_id),
            run@ == start_spec(
                collection.collect_name@,
                collection.collect_url@,
                opt_text(*hours),
                run@.task_id,
            ),
            run@.well_formed(),
            final(registry)@ == published(old(registry)@, run@),
    {
        let task_id = crate::registry::new_task_id();
        BatchRun::start(collection, hours, task_id, registry)
    }

    /// The address that the page-count probe asks.
    pub fn probe_url(&self) -> (url: String)
        ensures
            url@ == page_url_spec(self@.api_url, 1),
    {
        page_url(self.api_url.as_str(), 1)
    }

    /// Takes an answer to the page-count probe. A page count opens the
    /// paging; a failure before the last attempt asks for a wait and
    /// another attempt; the last failure fails the run, and no page is
    /// collected.
    pub fn on_probe_reply(
        &mut self,
        reply: &Result<VideoListResponse, CollectError>,
        registry: &mut TaskRegistry<CollectProgress>,
    ) -> (step: ProbeStep)
        requires
            old(self)@.well_formed(),
            old(self)@.phase == RunPhase::Probing,
        ensures
            final(self)@ == after_probe_spec(old(self)@, *reply),
            final(self)@.well_formed(),
            step@ == probe_report_spec(old(self)@, *reply),
            final(registry)@ == if step@ is Retry {
                old(registry)@
            } else {
                published(old(registry)@, final(self)@)
            },
    {
        match probe_step(self.attempt, PROBE_ATTEMPTS, reply) {
            ProbeStep::Done(pages) => {
                self.phase = RunPhase::Paging;
                self.progress.total_pages = pages;
                self.progress.log = make_line_1("开始采集，总页数: ", pages as u64);
                self.publish(registry);
                ProbeStep::Done(pages)
            },
            ProbeStep::Retry { wait_seconds } => {
                self.attempt = self.attempt + 1;
                ProbeStep::Retry { wait_seconds }
            },
            ProbeStep::GiveUp(cause) => {
                let failure = cause.as_page_count_failure();
                self.phase = RunPhase::Failed;
                self.progress.status = TaskStatus::Failed;
                self.progress.log = make_line_text("采集失败: ", failure.message.as_str());
                self.publish(registry);
                ProbeStep::GiveUp(failure)
            },
        }
    }

    /// Decides on the next page. Looks the task up in the registry first:
    /// once its status there is `stopped` the run ends without another
    /// fetch, and the stopped record stays as the task's last.
    pub fn begin_page(&mut self, registry: &mut TaskRegistry<CollectProgress>) -> (decision:
        PageDecision)
        requires
            old(self)@.well_formed(),
        ensures
            final(self)@ == begin_page_spec(
                old(self)@,
                stored_status(old(registry)@, old(self)@.task_id),
            ),
            decision@ == page_decision_spec(
                old(self)@,
                stored_status(old(registry)@, old(self)@.task_id),
            ),
            final(self)@.well_formed(),
            final(registry)@ == if publishes_before_page(
                old(self)@,
                stored_status(old(registry)@, old(self)@.task_id),
            ) {
                published(old(registry)@, final(self)@)
            } else {
                old(registry)@
            },
    {
        match self.phase {
            RunPhase::Paging => {},
            RunPhase::Stopped => {
                return PageDecision::Halt;
            },
            _ => {
                return PageDecision::Finished;
            },
        }
        let status = registry.status(self.task_id.as_str());
        let stopped = match status {
            Some(s) => s == TaskStatus::Stopped,
            None => false,
        };
        if stopped {
            self.phase = RunPhase::Stopped;
            return PageDecision::Halt;
        }
        if self.pages_done >= self.progress.total_pages {
            self.phase = RunPhase::Completed;
            self.progress.status = TaskStatus::Completed;
            self.progress.log = make_line_2(
                "采集完成，成功: ",
                self.progress.success as u64,
                "，失败: ",
                self.progress.failed as u64,
                "",
            );
            proof {
                reveal_strlit("");
                assert(""@ =~= Seq::<char>::empty());
            }
            self.publish(registry);
            return PageDecision::Finished;
        }
        let page = self.pages_done + 1;
        self.progress.current_page = page;
        self.progress.log = make_line_2(
            "正在采集第 ",
            page as u64,
            "/",
            self.progress.total_pages as u64,
            " 页",
        );
        self.publish(registry);
        PageDecision::Fetch { page, url: page_url(self.api_url.as_str(), page) }
    }

    /// Takes the outcome of the page that `begin_page` asked for, publishes
    /// the new counts, and says how many milliseconds to wait before the next
    /// page.
    pub fn page_done(&mut self, outcome: &PageOutcome, registry: &mut TaskRegistry<CollectProgress>) -> (wait_ms:
        u64)
        requires
            old(self)@.well_formed(),
            old(self)@.phase == RunPhase::Paging,
            old(self)@.pages_done < old(self)@.progress.total_pages,
            page_fits(old(self)@.progress, outcome@),
        ensures
            final(self)@ == after_page_spec(old(self)@, outcome@),
            final(self)@.well_formed(),
            wait_ms == wait_after_page(outcome@),
            final(registry)@ == if outcome@ is Interrupted {
                old(registry)@
            } else {
                published(old(registry)@, final(self)@)
            },
    {
        self.pages_done = self.pages_done + 1;
        match outcome {
            PageOutcome::Collected { success, failed } => {
                self.progress.success = self.progress.success + *success;
                self.progress.failed = self.progress.failed + *failed;
                self.progress.log = make_line_2(
                    "本页采集完成，成功: ",
                    *success as u64,
                    "，失败: ",
                    *failed as u64,
                    "",
                );
                proof {
                    reveal_strlit("");
                    assert(""@ =~= Seq::<char>::empty());
                }
                self.publish(registry);
                PAGE_DELAY_MS
            },
            PageOutcome::Interrupted => PAGE_DELAY_MS,
            PageOutcome::Failed(cause) => {
                self.progress.failed = self.progress.failed + 1;
                let head = make_line_1("第 ", self.progress.current_page as u64);
                let mut line = crate::text::chars_of(head.as_str());
                crate::text::push_text(&mut line, " 页采集失败: ");
                crate::text::push_text(&mut line, cause.message.as_str());
                self.progress.log = string_of(&line);
                self.publish(registry);
                0
            },
        }
    }

    /// Whether the run's counters are sound: see `BatchRunView::well_formed`.
    pub fn is_well_formed(&self) -> (ok: bool)
        ensures
            ok == self@.well_formed(),
    {
        let attempts = 1 <= self.attempt && self.attempt <= PROBE_ATTEMPTS;
        let probing = match self.phase {
            RunPhase::Probing => self.pages_done == 0,
            _ => true,
        };
        let paging = match self.phase {
            RunPhase::Paging => self.pages_done <= self.progress.total_pages,
            _ => true,
        };
        attempts && probing && paging
    }

    /// Whether the counts of a page's outcome fit beside those of the run.
    pub fn has_room_for(&self, outcome: &PageOutcome) -> (ok: bool)
        ensures
            ok == page_fits(self@.progress, outcome@),
    {
        match outcome {
            PageOutcome::Collected { success, failed } => {
                *success <= u32::MAX - self.progress.success && *failed <= u32::MAX
                    - self.progress.failed
            },
            PageOutcome::Interrupted => true,
            PageOutcome::Failed(_) => self.progress.failed < u32::MAX,
        }
    }

    /// The run ended without a failure: it completed, or it was stopped.
    pub fn ended_well(&self) -> (ok: bool)
        ensures
            ok == (self@.phase == RunPhase::Completed || self@.phase == RunPhase::Stopped),
    {
        match self.phase {
            RunPhase::Completed => true,
            RunPhase::Stopped => true,
            _ => false,
        }
    }
}

/// The status that the registry shows for a task.
pub open spec fn stored_status(
    registry: Seq<TaskEntryView<CollectProgressView>>,
    task_id: Seq<char>,
) -> Option<TaskStatus> {
    match lookup(registry, task_id) {
        Some(entry) => Some(entry.progress.status),
        None => None,
    }
}

/// Once the registry shows a task as stopped, its run fetches no page: the
/// decision is to halt, the run is over without a failure, and every later
/// decision is again not to fetch, whatever the registry shows by then.
pub proof fn lemma_stop_ends_the_run(run: BatchRunView, later: Option<TaskStatus>)
    requires
        run.phase == RunPhase::Paging,
    ensures
        page_decision_spec(run, Some(TaskStatus::Stopped)) is Halt,
        begin_page_spec(run, Some(TaskStatus::Stopped)).phase == RunPhase::Stopped,
        begin_page_spec(run, Some(TaskStatus::Stopped)).progress == run.progress,
        !(page_decision_spec(begin_page_spec(run, Some(TaskStatus::Stopped)), later) is Fetch),
        begin_page_spec(begin_page_spec(run, Some(TaskStatus::Stopped)), later) == begin_page_spec(
            run,
            Some(TaskStatus::Stopped),
        ),
{
}

/// No stop is lost to a progress write of the run. While the registry shows
/// the task as stopped, whatever the run publishes leaves the registry as it
/// is: after an answer to the probe, good or bad, and after a page, whatever
/// its outcome. The stop is therefore still there at the next decision,
/// which is not to fetch.
pub proof fn lemma_stop_is_not_overwritten(
    registry: Seq<TaskEntryView<CollectProgressView>>,
    run: BatchRunView,
    reply: Result<VideoListResponse, CollectError>,
    outcome: PageOutcomeView,
)
    requires
        stored_status(registry, run.task_id) == Some(TaskStatus::Stopped),
    ensures
        published(registry, run) == registry,
        published(registry, after_probe_spec(run, reply)) == registry,
        published(registry, after_page_spec(run, outcome)) == registry,
        stored_status(
            published(registry, after_probe_spec(run, reply)),
            after_probe_spec(run, reply).task_id,
        ) == Some(TaskStatus::Stopped),
        !(page_decision_spec(
            after_probe_spec(run, reply),
            stored_status(published(registry, after_probe_spec(run, reply)), run.task_id),
        ) is Fetch),
        !(page_decision_spec(
            after_page_spec(run, outcome),
            stored_status(published(registry, after_page_spec(run, outcome)), run.task_id),
        ) is Fetch),
{
}

/// Pages are collected strictly in order: while the task is not stopped the
/// page asked for is the one after those that are done, its progress is
/// published before it is fetched, and once its outcome is taken the next
/// decision is about the page after it.
pub proof fn lemma_pages_in_order(
    run: BatchRunView,
    status: Option<TaskStatus>,
    outcome: PageOutcomeView,
)
    requires
        run.phase == RunPhase::Paging,
        run.pages_done < run.progress.total_pages,
        status != Some(TaskStatus::Stopped),
    ensures
        page_decision_spec(run, status) == (PageDecisionView::Fetch {
            page: (run.pages_done + 1) as u32,
            url: page_url_spec(run.api_url, (run.pages_done + 1) as u32),
        }),
        publishes_before_page(run, status),
        begin_page_spec(run, status).progress.current_page == run.pages_done + 1,
        after_page_spec(begin_page_spec(run, status), outcome).pages_done == run.pages_done + 1,
        after_page_spec(begin_page_spec(run, status), outcome).phase == RunPhase::Paging,
{
}

/// A run that is over stays as it is and asks for no page.
pub proof fn lemma_over_is_final(run: BatchRunView, status: Option<TaskStatus>)
    requires
        run.is_over(),
    ensures
        begin_page_spec(run, status) == run,
        !(page_decision_spec(run, status) is Fetch),
{
}

/// A run whose probe failed for the last time has failed, and from then on
/// asks for no page.
pub proof fn lemma_failed_probe_fetches_nothing(
    run: BatchRunView,
    reply: Result<VideoListResponse, CollectError>,
    status: Option<TaskStatus>,
)
    requires
        run.phase == RunPhase::Probing,
        probe_step_spec(run.attempt as nat, PROBE_ATTEMPTS as nat, reply) is GiveUp,
    ensures
        after_probe_spec(run, reply).phase == RunPhase::Failed,
        after_probe_spec(run, reply).progress.status == TaskStatus::Failed,
        after_probe_spec(run, reply).pages_done == run.pages_done,
        !(page_decision_spec(after_probe_spec(run, reply), status) is Fetch),
{
}

/// The last progress of a task once its run has returned: completed with
/// its counts, or failed with the reason.
pub open spec fn settled_progress(
    last: CollectProgressView,
    result: Result<(), CollectError>,
) -> CollectProgressView {
    match result {
        Ok(_) => CollectProgressView {
            status: TaskStatus::Completed,
            log: summary_log(last.success, last.failed),
            ..last
        },
        Err(cause) => CollectProgressView {
            status: TaskStatus::Failed,
            log: "采集失败: "@ + cause@.message,
            ..last
        },
    }
}

/// The progress that the registry shows for a task, or that of a record
/// that was never filled in.
pub open spec fn stored_progress(
    registry: Seq<TaskEntryView<CollectProgressView>>,
    task_id: Seq<char>,
) -> CollectProgressView {
    match lookup(registry, task_id) {
        Some(entry) => entry.progress,
        None => CollectProgressView {
            status: TaskStatus::Unknown,
            current_page: 0,
            total_pages: 0,
            success: 0,
            failed: 0,
            log: crate::progress::unknown_log(),
        },
    }
}

/// Publishes a task as accepted, before its run begins.
pub fn accept_task(registry: &mut TaskRegistry<CollectProgress>, task_id: &str, name: String)
    ensures
        final(registry)@ == upsert_spec(old(registry)@, task_id@, accepted_progress(), name@),
{
    let progress = CollectProgress {
        status: TaskStatus::Running,
        current_page: 0,
        total_pages: 1,
        success: 0,
        failed: 0,
        log: String::from_str("正在启动采集任务..."),
    };
    registry.upsert(task_id, progress, name);
}

/// Publishes how a task's run ended, on top of the last progress that the
/// registry shows for it. The record of a task that was stopped stays as it
/// is.
pub fn settle(
    registry: &mut TaskRegistry<CollectProgress>,
    task_id: &str,
    name: String,
    result: &Result<(), CollectError>,
)
    ensures
        final(registry)@ == recorded(
            old(registry)@,
            task_id@,
            settled_progress(stored_progress(old(registry)@, task_id@), *result),
            name@,
        ),
{
    let mut progress = match registry.get(task_id) {
        Some(p) => p,
        None => CollectProgress::default(),
    };
    match result {
        Ok(_) => {
            progress.status = TaskStatus::Completed;
            progress.log = make_line_2(
                "采集完成，成功: ",
                progress.success as u64,
                "，失败: ",
                progress.failed as u64,
                "",
            );
            proof {
                reveal_strlit("");
                assert(""@ =~= Seq::<char>::empty());
            }
        },
        Err(cause) => {
            progress.status = TaskStatus::Failed;
            progress.log = make_line_text("采集失败: ", cause.message.as_str());
        },
    }
    record_progress(registry, task_id, progress, name);
}

/// The counts of one page while its videos are taken in.
#[derive(Debug, Clone, Copy, PartialEq, Eq, Structural)]
pub struct PageTally {
    pub success: u32,
    pub failed: u32,
}

/// Reads the envelope of a page: a code other than 1 fails the page.
pub fn check_envelope(listing: &VideoListResponse) -> (out: Result<(), CollectError>)
    ensures
        listing.code == 1 ==> out is Ok,
        listing.code != 1 ==> out is Err && out->Err_0@ == crate::remote::api_code_error(
            listing.code,
        ),
{
    if listing.code == 1 {
        Ok(())
    } else {
        Err(CollectError::api_code(listing.code))
    }
}

/// Reads the envelope of any answer: a code other than 1 is a failure.
pub fn check_response<T>(answer: &JsonResponse<T>) -> (out: Result<(), CollectError>)
    ensures
        answer.code == 1 ==> out is Ok,
        answer.code != 1 ==> out is Err && out->Err_0@ == crate::remote::api_code_error(
            answer.code,
        ),
{
    if answer.code == 1 {
        Ok(())
    } else {
        Err(CollectError::api_code(answer.code))
    }
}

/// The failure of an answer that was to hold the details of one video.
pub open spec fn detail_failure() -> CollectErrorView {
    CollectErrorView { kind: crate::remote::ErrorKind::ApiProtocol, message: "获取视频详情失败"@ }
}

/// The video whose details an answer holds: the first one listed, in an
/// envelope whose code is 1. Any other answer is a failure.
pub fn detail_entry(answer: &JsonResponse<VodApiListEntry>) -> (out: Result<
    &VodApiListEntry,
    CollectError,
>)
    ensures
        answer.code == 1 && answer.list@.len() > 0 ==> out is Ok && *out->Ok_0
            == answer.list@[0],
        !(answer.code == 1 && answer.list@.len() > 0) ==> out is Err && out->Err_0@
            == detail_failure(),
{
    if answer.code == 1 && answer.list.len() > 0 {
        Ok(&answer.list[0])
    } else {
        Err(
            CollectError {
                kind: crate::remote::ErrorKind::ApiProtocol,
                message: String::from_str("获取视频详情失败"),
            },
        )
    }
}

/// Whether the next listed video is to be taken in: not once the registry
/// shows the task as stopped.
pub fn may_continue(status: Option<TaskStatus>) -> (go: bool)
    ensures
        go == (status != Some(TaskStatus::Stopped)),
{
    match status {
        Some(s) => !(s == TaskStatus::Stopped),
        None => true,
    }
}

impl PageTally {
    /// No video counted yet.
    pub fn new() -> (out: PageTally)
        ensures
            out == (PageTally { success: 0, failed: 0 }),
    {
        PageTally { success: 0, failed: 0 }
    }

    /// Counts one video: taken in, or failed.
    pub fn record(&mut self, taken_in: bool)
        requires
            taken_in ==> old(self).success < u32::MAX,
            !taken_in ==> old(self).failed < u32::MAX,
        ensures
            *final(self) == if taken_in {
                PageTally { success: (old(self).success + 1) as u32, ..*old(self) }
            } else {
                PageTally { failed: (old(self).failed + 1) as u32, ..*old(self) }
            },
    {
        if taken_in {
            self.success = self.success + 1;
        } else {
            self.failed = self.failed + 1;
        }
    }

    /// The outcome of a page whose videos were all tried.
    pub fn outcome(&self) -> (out: PageOutcome)
        ensures
            out@ == (PageOutcomeView::Collected { success: self.success, failed: self.failed }),
    {
        PageOutcome::Collected { success: self.success, failed: self.failed }
    }
}

/// The key under which a source's category is bound: its number in decimal.
pub fn binding_key(type_id: i32) -> (key: String)
    ensures
        key@ == signed_decimal_text(type_id as int),
{
    let digits = signed_decimal_chars(type_id as i64);
    string_of(&digits)
}

/// Position of the first binding of `source_flag` for `external_id`, or
/// `bindings.len()`.
pub open spec fn binding_position(
    bindings: Seq<Binding>,
    source_flag: Seq<char>,
    external_id: Seq<char>,
) -> int
    decreases bindings.len(),
{
    if bindings.len() == 0 {
        0
    } else if bindings[0].source_flag@ == source_flag && bindings[0].external_id@ == external_id {
        0
    } else {
        1 + binding_position(bindings.drop_first(), source_flag, external_id)
    }
}

proof fn lemma_binding_position_is(
    bindings: Seq<Binding>,
    source_flag: Seq<char>,
    external_id: Seq<char>,
    k: int,
)
    requires
        0 <= k <= bindings.len(),
        forall|i: int|
            0 <= i < k ==> !(bindings[i].source_flag@ == source_flag && bindings[i].external_id@
                == external_id),
        k < bindings.len() ==> bindings[k].source_flag@ == source_flag && bindings[k].external_id@
            == external_id,
    ensures
        binding_position(bindings, source_flag, external_id) == k,
    decreases bindings.len(),
{
    if bindings.len() > 0 && k > 0 {
        let rest = bindings.drop_first();
        assert(!(bindings[0].source_flag@ == source_flag && bindings[0].external_id@
            == external_id));
        assert forall|i: int| 0 <= i < k - 1 implies !(rest[i].source_flag@ == source_flag
            && rest[i].external_id@ == external_id) by {
            assert(rest[i] == bindings[i + 1]);
        }
        lemma_binding_position_is(rest, source_flag, external_id, k - 1);
    }
}

/// The local category that a video's category is bound to.
pub open spec fn resolve_spec(bindings: Seq<Binding>, source_flag: Seq<char>, type_id: i32) -> Option<
    i32,
> {
    let at = binding_position(bindings, source_flag, signed_decimal_text(type_id as int));
    if 0 <= at < bindings.len() {
        Some(bindings[at].local_type_id)
    } else {
        None
    }
}

/// Resolves the category of a listed video to a local one. Without a
/// binding the video fails, and only the video.
pub fn resolve_binding(bindings: &Vec<Binding>, source_flag: &str, type_id: i32) -> (out: Result<
    i32,
    CollectError,
>)
    ensures
        match resolve_spec(bindings@, source_flag@, type_id) {
            Some(local) => out == Ok::<i32, CollectError>(local),
            None => out is Err && out->Err_0@ == (CollectErrorView {
                kind: crate::remote::ErrorKind::BindingNotFound,
                message: "未找到分类绑定"@,
            }),
        },
{
    let key = binding_key(type_id);
    let mut i: usize = 0;
    while i < bindings.len()
        invariant
            i <= bindings.len(),
            key@ == signed_decimal_text(type_id as int),
            forall|k: int|
                0 <= k < i ==> !(bindings@[k].source_flag@ == source_flag@
                    && bindings@[k].external_id@ == key@),
        decreases bindings.len() - i,
    {
        if same_text(bindings[i].source_flag.as_str(), source_flag) && bindings[i].external_id
            == key {
            proof {
                lemma_binding_position_is(bindings@, source_flag@, key@, i as int);
            }
            return Ok(bindings[i].local_type_id);
        }
        i = i + 1;
    }
    proof {
        lemma_binding_position_is(bindings@, source_flag@, key@, i as int);
    }
    Err(CollectError::binding_not_found())
}

/// The local category of a binding that a lookup gave, or the failure of a
/// video whose category is not bound.
pub fn local_category(binding: &Option<Binding>) -> (out: Result<i32, CollectError>)
    ensures
        match *binding {
            Some(b) => out == Ok::<i32, CollectError>(b.local_type_id),
            None => out is Err && out->Err_0@ == (CollectErrorView {
                kind: crate::remote::ErrorKind::BindingNotFound,
                message: "未找到分类绑定"@,
            }),
        },
{
    match binding {
        Some(b) => Ok(b.local_type_id),
        None => Err(CollectError::binding_not_found()),
    }
}

/// The picture that is to be fetched for a row: that of a new row, when the
/// source asks for local pictures and the listing has one.
pub open spec fn picture_wanted_spec(
    sync_pic_opt: i32,
    kind: WriteKind,
    vod_pic: Option<Seq<char>>,
) -> Option<Seq<char>> {
    if kind == WriteKind::Insert && sync_pic_opt == 1 {
        vod_pic
    } else {
        None
    }
}

/// The address of the picture to fetch for a row, if one is to be fetched.
pub fn picture_wanted(collection: &Collection, kind: WriteKind, incoming: &VodApiListEntry) -> (out:
    Option<String>)
    ensures
        opt_text(out) == picture_wanted_spec(
            collection.collect_sync_pic_opt,
            kind,
            incoming@.vod_pic,
        ),
{
    if kind == WriteKind::Insert && collection.collect_sync_pic_opt == 1 {
        crate::models::copy_opt(&incoming.vod_pic)
    } else {
        None
    }
}

/// The row with its picture at the local path when the picture was fetched;
/// the row as it is, with the remote address, when it was not.
pub fn with_local_picture(row: Vod, fetched: &Result<String, CollectError>) -> (out: Vod)
    ensures
        out@ == match *fetched {
            Ok(path) => VodView { vod_pic: Some(path@), ..row@ },
            Err(_) => row@,
        },
{
    match fetched {
        Ok(path) => {
            let mut row = row;
            row.vod_pic = Some(path.clone());
            row
        },
        Err(_) => row,
    }
}

} // verus!
