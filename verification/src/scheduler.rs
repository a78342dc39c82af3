//! The scheduler's rules: the persisted configuration and when a cycle is
//! due, the in-memory mirror that start, stop and the status query consult,
//! and the execution log of each source's run within a cycle. Times count
//! milliseconds since the Unix epoch.

use crate::models::opt_text;
use crate::progress::{line_1, make_line_1, make_line_text, CollectProgress, TaskStatus};
use crate::remote::{CollectError, CollectErrorView};
use crate::text::{decimal_text, same_text, signed_decimal_chars, signed_decimal_text, string_of};
use vstd::prelude::*;

verus! {

/// Hours between cycles when none are named.
pub const DEFAULT_INTERVAL_HOURS: i32 = 12;

/// Seconds between two looks at the clock by the background loop.
pub const TICK_SECONDS: u64 = 60;

/// Seconds between two sources of one cycle.
pub const SOURCE_DELAY_SECONDS: u64 = 5;

/// The change window, in hours, of a scheduled collection.
pub const SCHEDULED_WINDOW_HOURS: u32 = 24;

/// Execution-log rows that a query returns when it names no limit.
pub const DEFAULT_LOG_LIMIT: i32 = 50;

/// The one persisted configuration of the scheduler.
#[derive(Debug, Clone, PartialEq, Eq)]
pub struct ScheduledTaskConfig {
    pub id: Option<u128>,
    pub enabled: bool,
    pub interval_hours: i32,
    pub last_run: Option<i64>,
    pub next_run: Option<i64>,
    pub running_collections: Vec<String>,
    pub current_collection_index: usize,
    pub created_at: i64,
    pub updated_at: i64,
}

/// The configuration as the contracts see it.
pub struct ScheduledTaskConfigView {
    pub id: Option<u128>,
    pub enabled: bool,
    pub interval_hours: i32,
    pub last_run: Option<i64>,
    pub next_run: Option<i64>,
    pub running_collections: Seq<Seq<char>>,
    pub current_collection_index: usize,
    pub created_at: i64,
    pub updated_at: i64,
}

impl View for ScheduledTaskConfig {
    type V = ScheduledTaskConfigView;

    open spec fn view(&self) -> ScheduledTaskConfigView {
        ScheduledTaskConfigView {
            id: self.id,
            enabled: self.enabled,
            interval_hours: self.interval_hours,
            last_run: self.last_run,
            next_run: self.next_run,
            running_collections: Seq::new(
                self.running_collections@.len(),
                |i: int| self.running_collections@[i]@,
            ),
            current_collection_index: self.current_collection_index,
            created_at: self.created_at,
            updated_at: self.updated_at,
        }
    }
}

/// Milliseconds in `hours`.
pub open spec fn interval_millis(hours: i32) -> int {
    hours * 3600 * 1000
}

/// The time of the cycle after one at `now`.
pub open spec fn next_run_spec(now: i64, interval_hours: i32) -> int {
    now + interval_millis(interval_hours)
}

/// The time of the next cycle fits the clock.
pub open spec fn next_run_fits(now: i64, interval_hours: i32) -> bool {
    i64::MIN <= next_run_spec(now, interval_hours) <= i64::MAX
}

/// The time of the cycle after one at `now`.
pub fn next_run_after(now: i64, interval_hours: i32) -> (out: i64)
    requires
        next_run_fits(now, interval_hours),
    ensures
        out == next_run_spec(now, interval_hours),
{
    let hours: i64 = interval_hours as i64;
    let step: i64 = hours * 3600 * 1000;
    now + step
}

/// The same, or `None` where the time does not fit the clock.
pub fn checked_next_run(now: i64, interval_hours: i32) -> (out: Option<i64>)
    ensures
        out == if next_run_fits(now, interval_hours) {
            Some(next_run_spec(now, interval_hours) as i64)
        } else {
            None
        },
{
    let hours: i64 = interval_hours as i64;
    let step: i64 = hours * 3600 * 1000;
    if step >= 0 {
        if now > i64::MAX - step {
            None
        } else {
            Some(now + step)
        }
    } else if now < i64::MIN - step {
        None
    } else {
        Some(now + step)
    }
}

/// The configuration that a fresh installation begins with: switched off,
/// every twelve hours, first due twelve hours from `now`.
pub open spec fn default_config_spec(now: i64) -> ScheduledTaskConfigView {
    ScheduledTaskConfigView {
        id: None,
        enabled: false,
        interval_hours: DEFAULT_INTERVAL_HOURS,
        last_run: None,
        next_run: Some(next_run_spec(now, DEFAULT_INTERVAL_HOURS) as i64),
        running_collections: Seq::empty(),
        current_collection_index: 0,
        created_at: now,
        updated_at: now,
    }
}

/// The configuration after the admin set it: switched as asked, with the
/// interval asked for or twelve hours, due one interval from `now` when
/// switched on and never when switched off.
pub open spec fn updated_config_spec(
    config: ScheduledTaskConfigView,
    enabled: bool,
    interval_hours: Option<i32>,
    now: i64,
) -> ScheduledTaskConfigView {
    let hours = match interval_hours {
        Some(h) => h,
        None => DEFAULT_INTERVAL_HOURS,
    };
    ScheduledTaskConfigView {
        enabled,
        interval_hours: hours,
        next_run: if enabled {
            Some(next_run_spec(now, hours) as i64)
        } else {
            None
        },
        updated_at: now,
        running_collections: Seq::empty(),
        current_collection_index: 0,
        ..config
    }
}

/// The configuration after a start at `now`: switched on, the interval as
/// it was, the next cycle due one interval from `now`.
pub open spec fn started_config_spec(config: ScheduledTaskConfigView, now: i64) -> ScheduledTaskConfigView {
    ScheduledTaskConfigView {
        enabled: true,
        next_run: Some(next_run_spec(now, config.interval_hours) as i64),
        updated_at: now,
        running_collections: Seq::empty(),
        current_collection_index: 0,
        ..config
    }
}

/// The configuration after a stop at `now`: switched off, the interval as
/// it was, no cycle due.
pub open spec fn stopped_config_spec(config: ScheduledTaskConfigView, now: i64) -> ScheduledTaskConfigView {
    ScheduledTaskConfigView {
        enabled: false,
        next_run: None,
        updated_at: now,
        running_collections: Seq::empty(),
        current_collection_index: 0,
        ..config
    }
}

/// The configuration after a cycle that ended at `now`.
pub open spec fn config_after_cycle_spec(config: ScheduledTaskConfigView, now: i64) -> ScheduledTaskConfigView {
    ScheduledTaskConfigView {
        last_run: Some(now),
        next_run: Some(next_run_spec(now, config.interval_hours) as i64),
        updated_at: now,
        ..config
    }
}

/// A cycle is due when the scheduler is switched on and its time has come.
pub open spec fn is_due_spec(config: ScheduledTaskConfigView, now: i64) -> bool {
    config.enabled && config.next_run is Some && now >= config.next_run->0
}

impl ScheduledTaskConfig {
    /// The configuration that a fresh installation begins with.
    pub fn initial(now: i64) -> (out: ScheduledTaskConfig)
        requires
            next_run_fits(now, DEFAULT_INTERVAL_HOURS),
        ensures
            out@ == default_config_spec(now),
    {
        let out = ScheduledTaskConfig {
            id: None,
            enabled: false,
            interval_hours: DEFAULT_INTERVAL_HOURS,
            last_run: None,
            next_run: Some(next_run_after(now, DEFAULT_INTERVAL_HOURS)),
            running_collections: Vec::new(),
            current_collection_index: 0,
            created_at: now,
            updated_at: now,
        };
        assert(out@.running_collections =~= Seq::<Seq<char>>::empty());
        out
    }

    /// Sets the configuration as the admin asks.
    pub fn update(&mut self, enabled: bool, interval_hours: Option<i32>, now: i64)
        requires
            enabled ==> next_run_fits(
                now,
                match interval_hours {
                    Some(h) => h,
                    None => DEFAULT_INTERVAL_HOURS,
                },
            ),
        ensures
            final(self)@ == updated_config_spec(old(self)@, enabled, interval_hours, now),
    {
        let hours = match interval_hours {
            Some(h) => h,
            None => DEFAULT_INTERVAL_HOURS,
        };
        self.enabled = enabled;
        self.interval_hours = hours;
        self.next_run = if enabled {
            Some(next_run_after(now, hours))
        } else {
            None
        };
        self.updated_at = now;
        self.running_collections = Vec::new();
        self.current_collection_index = 0;
        assert(self@.running_collections =~= Seq::<Seq<char>>::empty());
    }

    /// Switches the scheduler on at `now`: the interval stays as it is and
    /// the next cycle is due one interval from `now`.
    pub fn start(&mut self, now: i64)
        requires
            next_run_fits(now, old(self).interval_hours),
        ensures
            final(self)@ == started_config_spec(old(self)@, now),
    {
        self.enabled = true;
        self.next_run = Some(next_run_after(now, self.interval_hours));
        self.updated_at = now;
        self.running_collections = Vec::new();
        self.current_collection_index = 0;
        assert(self@.running_collections =~= Seq::<Seq<char>>::empty());
    }

    /// Switches the scheduler off at `now`: the interval stays as it is and
    /// no cycle is due any more.
    pub fn switch_off(&mut self, now: i64)
        ensures
            final(self)@ == stopped_config_spec(old(self)@, now),
    {
        self.enabled = false;
        self.next_run = None;
        self.updated_at = now;
        self.running_collections = Vec::new();
        self.current_collection_index = 0;
        assert(self@.running_collections =~= Seq::<Seq<char>>::empty());
    }

    /// Notes a cycle that ended at `now` and sets the time of the next.
    pub fn cycle_done(&mut self, now: i64)
        requires
            next_run_fits(now, old(self).interval_hours),
        ensures
            final(self)@ == config_after_cycle_spec(old(self)@, now),
    {
        self.last_run = Some(now);
        self.next_run = Some(next_run_after(now, self.interval_hours));
        self.updated_at = now;
    }

    /// Whether a cycle is due at `now`.
    pub fn is_due(&self, now: i64) -> (due: bool)
        ensures
            due == is_due_spec(self@, now),
    {
        match self.next_run {
            Some(at) => self.enabled && now >= at,
            None => false,
        }
    }
}

/// After a cycle the next is due exactly one interval later, and not
/// before.
pub proof fn lemma_next_cycle_after_interval(config: ScheduledTaskConfigView, now: i64, later: i64)
    requires
        config.enabled,
        next_run_fits(now, config.interval_hours),
    ensures
        is_due_spec(config_after_cycle_spec(config, now), later) <==> later >= now + interval_millis(
            config.interval_hours,
        ),
{
}

/// A start keeps the interval, switches the scheduler on, and makes the
/// next cycle due exactly one interval after the start.
pub proof fn lemma_start_keeps_interval(config: ScheduledTaskConfigView, now: i64, later: i64)
    requires
        next_run_fits(now, config.interval_hours),
    ensures
        started_config_spec(config, now).enabled,
        started_config_spec(config, now).interval_hours == config.interval_hours,
        started_config_spec(config, now).next_run == Some(
            (now + interval_millis(config.interval_hours)) as i64,
        ),
        is_due_spec(started_config_spec(config, now), later) <==> later >= now + interval_millis(
            config.interval_hours,
        ),
        !is_due_spec(stopped_config_spec(config, now), later),
        stopped_config_spec(config, now).interval_hours == config.interval_hours,
{
}

/// A scheduler that is switched off is never due.
pub proof fn lemma_disabled_never_due(
    config: ScheduledTaskConfigView,
    interval_hours: Option<i32>,
    now: i64,
    later: i64,
)
    ensures
        !is_due_spec(updated_config_spec(config, false, interval_hours, now), later),
{
}

/// What the background loop does on one look at the clock.
#[derive(Debug, Clone, Copy, PartialEq, Eq, Structural)]
pub enum TickAction {
    /// The scheduler was stopped: the loop ends.
    Exit,
    /// A cycle is due: run it, then wait for the next tick.
    RunCycle,
    /// Nothing is due: wait for the next tick.
    Wait,
}

/// The view of an optional configuration.
pub open spec fn config_view(config: Option<ScheduledTaskConfig>) -> Option<ScheduledTaskConfigView> {
    match config {
        Some(c) => Some(c@),
        None => None,
    }
}

/// A stopped loop ends; a running one starts a cycle that is due and else
/// waits.
pub open spec fn tick_spec(running: bool, config: Option<ScheduledTaskConfigView>, now: i64) -> TickAction {
    if !running {
        TickAction::Exit
    } else if config is Some && is_due_spec(config->0, now) {
        TickAction::RunCycle
    } else {
        TickAction::Wait
    }
}

/// Decides on one tick, from the in-memory flag and the persisted
/// configuration as it was just read (`None` when there is none or it could
/// not be read).
pub fn on_tick(running: bool, config: &Option<ScheduledTaskConfig>, now: i64) -> (action: TickAction)
    ensures
        action == tick_spec(running, config_view(*config), now),
{
    if !running {
        return TickAction::Exit;
    }
    match config {
        Some(c) => {
            if c.is_due(now) {
                TickAction::RunCycle
            } else {
                TickAction::Wait
            }
        },
        None => TickAction::Wait,
    }
}

/// The scheduler's in-memory state: whether the background loop is meant to
/// run, and the task that is under way.
#[derive(Debug, Clone, PartialEq, Eq)]
pub struct SchedulerMirror {
    pub is_running: bool,
    pub current_task: Option<String>,
}

/// The in-memory state as the contracts see it.
pub struct SchedulerMirrorView {
    pub is_running: bool,
    pub current_task: Option<Seq<char>>,
}

impl View for SchedulerMirror {
    type V = SchedulerMirrorView;

    open spec fn view(&self) -> SchedulerMirrorView {
        SchedulerMirrorView {
            is_running: self.is_running,
            current_task: opt_text(self.current_task),
        }
    }
}

/// The shape of a document id in hexadecimal: 24 lower-case digits.
pub open spec fn is_object_id_text(id: Seq<char>) -> bool {
    id.len() == 24 && forall|i: int| 0 <= i < 24 ==> crate::picture::is_lower_hex(#[trigger] id[i])
}

/// A fresh document id from `mongodb::bson::oid::ObjectId::new`, written
/// out by its `to_hex`: the twelve bytes as 24 lower-case hexadecimal
/// digits. The id is made of the clock, a number drawn once for the process
/// and a counter; nothing is claimed of which id comes back. The call needs a
/// system clock that stands between 1970 and 2106.
#[verifier::external_body]
pub(crate) fn fresh_object_id_hex() -> (out: String)
    ensures
        is_object_id_text(out@),
{
    mongodb::bson::oid::ObjectId::new().to_hex()
}

/// A fresh id of the kind that names tasks and documents.
pub fn new_object_id_text() -> (id: String)
    ensures
        is_object_id_text(id@),
{
    fresh_object_id_hex()
}

/// A start finds the scheduler started already when it is switched on and
/// the loop is running.
pub open spec fn already_started(mirror: SchedulerMirrorView, config: Option<ScheduledTaskConfigView>) -> bool {
    config is Some && config->0.enabled && mirror.is_running
}

/// The scheduler counts as running when it is switched on and either the
/// loop runs or a task is under way.
pub open spec fn reported_running(mirror: SchedulerMirrorView, config: Option<ScheduledTaskConfigView>) -> bool {
    config is Some && config->0.enabled && (mirror.is_running || mirror.current_task is Some)
}

/// Whether a cycle may run at once after a start: only with a source that
/// is switched on and with a configuration to go by.
pub open spec fn immediate_cycle_spec(
    enabled_sources: Option<u64>,
    config: Option<ScheduledTaskConfigView>,
) -> bool {
    enabled_sources is Some && enabled_sources->0 > 0 && config is Some
}

impl SchedulerMirror {
    /// The state of a scheduler that was never started.
    pub fn new() -> (out: SchedulerMirror)
        ensures
            out@ == (SchedulerMirrorView { is_running: false, current_task: None }),
    {
        SchedulerMirror { is_running: false, current_task: None }
    }

    /// Begins a start with `task_id` as the task under way. A scheduler
    /// that is started already is left alone. Says whether the start goes
    /// on.
    pub fn begin_start_as(&mut self, config: &Option<ScheduledTaskConfig>, task_id: String) -> (go:
        bool)
        ensures
            go == !already_started(old(self)@, config_view(*config)),
            final(self)@ == if go {
                SchedulerMirrorView { current_task: Some(task_id@), ..old(self)@ }
            } else {
                old(self)@
            },
    {
        let started = match config {
            Some(c) => c.enabled && self.is_running,
            None => false,
        };
        if started {
            false
        } else {
            self.current_task = Some(task_id);
            true
        }
    }

    /// Begins a start under a fresh task id. A scheduler that is started
    /// already is left alone. Returns the id when the start goes on.
    pub fn begin_start(&mut self, config: &Option<ScheduledTaskConfig>) -> (task_id: Option<String>)
        ensures
            task_id is Some == !already_started(old(self)@, config_view(*config)),
            match task_id {
                Some(id) => is_object_id_text(id@) && final(self)@ == (SchedulerMirrorView {
                    current_task: Some(id@),
                    ..old(self)@
                }),
                None => final(self)@ == old(self)@,
            },
    {
        let id = fresh_object_id_hex();
        if self.begin_start_as(config, id.clone()) {
            Some(id)
        } else {
            None
        }
    }

    /// Starts the scheduler at `now`. A scheduler that is started already
    /// is left alone, and so is its configuration. Else a fresh id becomes
    /// the task under way, the configuration is switched on with its
    /// interval as it is and its next cycle one interval from `now`, and
    /// the loop is meant to run. Returns the id when the scheduler started.
    pub fn start(&mut self, config: &mut Option<ScheduledTaskConfig>, now: i64) -> (task_id: Option<
        String,
    >)
        requires
            !already_started(old(self)@, config_view(*old(config))) && *old(config) is Some
                ==> next_run_fits(now, old(config)->0.interval_hours),
        ensures
            task_id is Some == !already_started(old(self)@, config_view(*old(config))),
            match task_id {
                Some(id) => {
                    &&& is_object_id_text(id@)
                    &&& final(self)@ == (SchedulerMirrorView {
                        is_running: true,
                        current_task: Some(id@),
                    })
                    &&& config_view(*final(config)) == match config_view(*old(config)) {
                        Some(c) => Some(started_config_spec(c, now)),
                        None => None,
                    }
                },
                None => final(self)@ == old(self)@ && config_view(*final(config)) == config_view(
                    *old(config),
                ),
            },
    {
        let started = match config {
            Some(c) => c.enabled && self.is_running,
            None => false,
        };
        if started {
            return None;
        }
        let id = fresh_object_id_hex();
        self.current_task = Some(id.clone());
        match config {
            Some(c) => {
                c.start(now);
            },
            None => {},
        }
        self.is_running = true;
        Some(id)
    }

    /// Makes sure that a task is under way: where there is none, a fresh id
    /// becomes the task.
    pub fn claim_fresh(&mut self)
        ensures
            old(self)@.current_task is Some ==> final(self)@ == old(self)@,
            old(self)@.current_task is None ==> final(self)@.current_task is Some
                && is_object_id_text(final(self)@.current_task->0) && final(self)@.is_running
                == old(self)@.is_running,
    {
        if self.current_task.is_none() {
            self.current_task = Some(fresh_object_id_hex());
        }
    }

    /// The loop is meant to run from now on.
    pub fn mark_running(&mut self)
        ensures
            final(self)@ == (SchedulerMirrorView { is_running: true, ..old(self)@ }),
    {
        self.is_running = true;
    }

    /// Decides whether a cycle runs at once after a start, from the number
    /// of sources that are switched on (`None` when the count failed) and
    /// the configuration. Where none runs, no task is under way any more.
    pub fn before_immediate_cycle(
        &mut self,
        enabled_sources: Option<u64>,
        config: &Option<ScheduledTaskConfig>,
    ) -> (go: bool)
        ensures
            go == immediate_cycle_spec(enabled_sources, config_view(*config)),
            final(self)@ == if go {
                old(self)@
            } else {
                SchedulerMirrorView { current_task: None, ..old(self)@ }
            },
    {
        let sources = match enabled_sources {
            Some(n) => n > 0,
            None => false,
        };
        if sources && config.is_some() {
            true
        } else {
            self.current_task = None;
            false
        }
    }

    /// No task is under way any more.
    pub fn clear_task(&mut self)
        ensures
            final(self)@ == (SchedulerMirrorView { current_task: None, ..old(self)@ }),
    {
        self.current_task = None;
    }

    /// Makes `task_id` the task under way unless there is one.
    pub fn claim(&mut self, task_id: &str)
        ensures
            final(self)@ == if old(self)@.current_task is Some {
                old(self)@
            } else {
                SchedulerMirrorView { current_task: Some(task_id@), ..old(self)@ }
            },
    {
        if self.current_task.is_none() {
            self.current_task = Some(String::from_str(task_id));
        }
    }

    /// Ends the task under way if it is `task_id`; a task of another id
    /// stays.
    pub fn release(&mut self, task_id: &str)
        ensures
            final(self)@ == if old(self)@.current_task == Some(task_id@) {
                SchedulerMirrorView { current_task: None, ..old(self)@ }
            } else {
                old(self)@
            },
    {
        let mine = match &self.current_task {
            Some(current) => same_text(current.as_str(), task_id),
            None => false,
        };
        if mine {
            self.current_task = None;
        }
    }

    /// Stops the scheduler: the loop is not meant to run any more. Says
    /// whether the persisted configuration is still to be switched off.
    pub fn stop(&mut self, config: &Option<ScheduledTaskConfig>) -> (switch_off: bool)
        ensures
            final(self)@ == (SchedulerMirrorView { is_running: false, ..old(self)@ }),
            switch_off == !(config_view(*config) is Some && !config_view(*config)->0.enabled),
    {
        self.is_running = false;
        match config {
            Some(c) => c.enabled,
            None => true,
        }
    }

    /// What a status query reports as running.
    pub fn reports_running(&self, config: &Option<ScheduledTaskConfig>) -> (running: bool)
        ensures
            running == reported_running(self@, config_view(*config)),
    {
        match config {
            Some(c) => c.enabled && (self.is_running || self.current_task.is_some()),
            None => false,
        }
    }
}

/// Once stopped, the loop ends at its next tick and starts no cycle,
/// whatever the configuration and the clock say.
pub proof fn lemma_stopped_loop_runs_no_cycle(
    mirror: SchedulerMirrorView,
    config: Option<ScheduledTaskConfigView>,
    now: i64,
)
    ensures
        tick_spec(
            (SchedulerMirrorView { is_running: false, ..mirror }).is_running,
            config,
            now,
        ) == TickAction::Exit,
{
}

/// The record of one source's run within a cycle.
#[derive(Debug, Clone, PartialEq, Eq)]
pub struct TaskExecutionLog {
    pub id: Option<u128>,
    pub task_id: String,
    pub collection_id: String,
    pub collection_name: String,
    pub status: TaskStatus,
    pub started_at: i64,
    pub completed_at: Option<i64>,
    pub message: Option<String>,
    pub videos_collected: Option<i32>,
    pub errors: Option<String>,
}

/// A record as the contracts see it.
pub struct TaskExecutionLogView {
    pub id: Option<u128>,
    pub task_id: Seq<char>,
    pub collection_id: Seq<char>,
    pub collection_name: Seq<char>,
    pub status: TaskStatus,
    pub started_at: i64,
    pub completed_at: Option<i64>,
    pub message: Option<Seq<char>>,
    pub videos_collected: Option<i32>,
    pub errors: Option<Seq<char>>,
}

impl View for TaskExecutionLog {
    type V = TaskExecutionLogView;

    open spec fn view(&self) -> TaskExecutionLogView {
        TaskExecutionLogView {
            id: self.id,
            task_id: self.task_id@,
            collection_id: self.collection_id@,
            collection_name: self.collection_name@,
            status: self.status,
            started_at: self.started_at,
            completed_at: self.completed_at,
            message: opt_text(self.message),
            videos_collected: self.videos_collected,
            errors: opt_text(self.errors),
        }
    }
}

/// The record of a run that has just begun.
pub open spec fn log_started_spec(
    task_id: Seq<char>,
    collection_id: Seq<char>,
    collection_name: Seq<char>,
    now: i64,
) -> TaskExecutionLogView {
    TaskExecutionLogView {
        id: None,
        task_id,
        collection_id,
        collection_name,
        status: TaskStatus::Running,
        started_at: now,
        completed_at: None,
        message: Some("开始采集 "@ + collection_name),
        videos_collected: None,
        errors: None,
    }
}

/// The record of a run that ended at `now`: completed with its count of
/// videos, or failed with the reason.
pub open spec fn log_finished_spec(
    log: TaskExecutionLogView,
    result: Result<i32, CollectError>,
    now: i64,
) -> TaskExecutionLogView {
    match result {
        Ok(videos) => TaskExecutionLogView {
            status: TaskStatus::Completed,
            completed_at: Some(now),
            videos_collected: Some(videos),
            message: Some("采集完成，获取 "@ + signed_decimal_text(videos as int) + " 个视频"@),
            ..log
        },
        Err(cause) => TaskExecutionLogView {
            status: TaskStatus::Failed,
            completed_at: Some(now),
            errors: Some(cause@.message),
            message: Some("采集失败: "@ + cause@.message),
            ..log
        },
    }
}

impl TaskExecutionLog {
    /// The record of a run that begins at `now` as task `task_id`.
    pub fn started(task_id: String, collection_id: String, collection_name: String, now: i64) -> (out:
        TaskExecutionLog)
        ensures
            out@ == log_started_spec(task_id@, collection_id@, collection_name@, now),
    {
        let message = make_line_text("开始采集 ", collection_name.as_str());
        TaskExecutionLog {
            id: None,
            task_id,
            collection_id,
            collection_name,
            status: TaskStatus::Running,
            started_at: now,
            completed_at: None,
            message: Some(message),
            videos_collected: None,
            errors: None,
        }
    }

    /// The record of a run that begins at `now` under a fresh task id, on
    /// the source with the stored id `collection_id`, or with a fresh id
    /// where the source has none.
    pub fn open(collection_id: Option<String>, collection_name: String, now: i64) -> (out:
        TaskExecutionLog)
        ensures
            is_object_id_text(out@.task_id),
            match collection_id {
                Some(id) => out@.collection_id == id@,
                None => is_object_id_text(out@.collection_id),
            },
            out@ == log_started_spec(out@.task_id, out@.collection_id, collection_name@, now),
    {
        let task_id = fresh_object_id_hex();
        let source_id = match collection_id {
            Some(id) => id,
            None => fresh_object_id_hex(),
        };
        TaskExecutionLog::started(task_id, source_id, collection_name, now)
    }

    /// Closes the record of a run that ended at `now`.
    pub fn finish(&mut self, result: &Result<i32, CollectError>, now: i64)
        ensures
            final(self)@ == log_finished_spec(old(self)@, *result, now),
    {
        self.completed_at = Some(now);
        match result {
            Ok(videos) => {
                let mut line = crate::text::chars_of("采集完成，获取 ");
                let digits = signed_decimal_chars(*videos as i64);
                crate::text::push_all(&mut line, &digits);
                crate::text::push_text(&mut line, " 个视频");
                self.status = TaskStatus::Completed;
                self.videos_collected = Some(*videos);
                self.message = Some(string_of(&line));
            },
            Err(cause) => {
                self.status = TaskStatus::Failed;
                self.errors = Some(cause.message.clone());
                self.message = Some(make_line_text("采集失败: ", cause.message.as_str()));
            },
        }
    }
}

/// The videos that a run took in, read off its last progress: its count of
/// successes as a signed number, or none where no progress is known.
pub open spec fn videos_collected_spec(success: Option<u32>) -> i32 {
    match success {
        Some(s) => if s <= i32::MAX {
            s as i32
        } else {
            (s - 0x1_0000_0000) as i32
        },
        None => 0,
    }
}

/// The videos that a run took in, read off its last progress.
pub fn videos_collected(progress: &Option<CollectProgress>) -> (out: i32)
    ensures
        out == videos_collected_spec(
            match *progress {
                Some(p) => Some(p.success),
                None => None,
            },
        ),
{
    match progress {
        Some(p) => {
            if p.success <= 0x7fff_ffff {
                p.success as i32
            } else {
                let low: u32 = p.success - 0x8000_0000;
                let shifted: i64 = low as i64 - 0x8000_0000;
                shifted as i32
            }
        },
        None => 0,
    }
}

/// The counts of one cycle.
#[derive(Debug, Clone, Copy, PartialEq, Eq, Structural)]
pub struct CycleTotals {
    pub videos: i64,
    pub succeeded: u32,
    pub failed: u32,
}

impl CycleTotals {
    /// Nothing counted yet.
    pub fn new() -> (out: CycleTotals)
        ensures
            out == (CycleTotals { videos: 0, succeeded: 0, failed: 0 }),
    {
        CycleTotals { videos: 0, succeeded: 0, failed: 0 }
    }

    /// Counts one source's run. A failed run neither ends the cycle nor
    /// changes what earlier runs took in.
    pub fn record(&mut self, videos: Option<i32>)
        requires
            match videos {
                Some(n) => old(self).succeeded < u32::MAX && i64::MIN <= old(self).videos + n
                    <= i64::MAX,
                None => old(self).failed < u32::MAX,
            },
        ensures
            *final(self) == match videos {
                Some(n) => CycleTotals {
                    videos: (old(self).videos + n) as i64,
                    succeeded: (old(self).succeeded + 1) as u32,
                    ..*old(self)
                },
                None => CycleTotals { failed: (old(self).failed + 1) as u32, ..*old(self) },
            },
    {
        match videos {
            Some(n) => {
                self.videos = self.videos + n as i64;
                self.succeeded = self.succeeded + 1;
            },
            None => {
                self.failed = self.failed + 1;
            },
        }
    }
}

impl CycleTotals {
    /// Whether one more run with this outcome can be counted.
    pub fn has_room_for(&self, videos: Option<i32>) -> (ok: bool)
        ensures
            ok == match videos {
                Some(n) => self.succeeded < u32::MAX && i64::MIN <= self.videos + n <= i64::MAX,
                None => self.failed < u32::MAX,
            },
    {
        match videos {
            Some(n) => {
                let fits = if n >= 0 {
                    self.videos <= i64::MAX - n as i64
                } else {
                    self.videos >= i64::MIN - n as i64
                };
                self.succeeded < u32::MAX && fits
            },
            None => self.failed < u32::MAX,
        }
    }
}

/// One cycle over the sources that are switched on, one after the other.
#[derive(Debug, Clone, Copy, PartialEq, Eq, Structural)]
pub struct CycleRun {
    /// The cycle runs at once after a start, not because it was due.
    pub immediate: bool,
    /// How many sources the cycle goes over.
    pub sources: usize,
    /// How many of them were collected, with or without success.
    pub done: usize,
    pub totals: CycleTotals,
    /// The cycle's end was recorded in the configuration.
    pub closed: bool,
}

/// What the caller is to do next in a cycle.
#[derive(Debug, Clone, Copy, PartialEq, Eq, Structural)]
pub enum CycleStep {
    /// Collect from the source at this place and hand in how it went.
    Collect { index: usize },
    /// Every source was collected from: record the cycle's end in the
    /// configuration.
    Close,
    /// Nothing is left to do.
    Done,
}

/// The next step of a cycle, from the cycle's own state alone: whether the
/// scheduler was stopped in the meantime plays no part, so a cycle under way
/// is not cut short. A cycle without sources does nothing and records
/// nothing. Else the sources come in order, each once; after the last a
/// cycle that was due records its end, one that ran at once after a start
/// does not.
pub open spec fn cycle_step_spec(run: CycleRun) -> CycleStep {
    if run.sources == 0 {
        CycleStep::Done
    } else if run.done < run.sources {
        CycleStep::Collect { index: run.done }
    } else if !run.closed && !run.immediate {
        CycleStep::Close
    } else {
        CycleStep::Done
    }
}

impl CycleRun {
    /// A cycle over `sources` sources that has not begun.
    pub fn begin(immediate: bool, sources: usize) -> (out: CycleRun)
        ensures
            out == (CycleRun {
                immediate,
                sources,
                done: 0,
                totals: CycleTotals { videos: 0, succeeded: 0, failed: 0 },
                closed: false,
            }),
    {
        CycleRun { immediate, sources, done: 0, totals: CycleTotals::new(), closed: false }
    }

    /// What is to be done next.
    pub fn next_step(&self) -> (step: CycleStep)
        ensures
            step == cycle_step_spec(*self),
    {
        if self.sources == 0 {
            CycleStep::Done
        } else if self.done < self.sources {
            CycleStep::Collect { index: self.done }
        } else if !self.closed && !self.immediate {
            CycleStep::Close
        } else {
            CycleStep::Done
        }
    }

    /// Takes the outcome of the source that was to be collected: the videos
    /// it took in, or `None` for a failure, which does not end the cycle.
    /// Returns the seconds to wait before the next step.
    pub fn source_done(&mut self, videos: Option<i32>) -> (wait_seconds: u64)
        requires
            old(self).done < old(self).sources,
            match videos {
                Some(n) => old(self).totals.succeeded < u32::MAX && i64::MIN <= old(
                    self,
                ).totals.videos + n <= i64::MAX,
                None => old(self).totals.failed < u32::MAX,
            },
        ensures
            wait_seconds == SOURCE_DELAY_SECONDS,
            *final(self) == (CycleRun {
                done: (old(self).done + 1) as usize,
                totals: match videos {
                    Some(n) => CycleTotals {
                        videos: (old(self).totals.videos + n) as i64,
                        succeeded: (old(self).totals.succeeded + 1) as u32,
                        ..old(self).totals
                    },
                    None => CycleTotals {
                        failed: (old(self).totals.failed + 1) as u32,
                        ..old(self).totals
                    },
                },
                ..*old(self)
            }),
    {
        let mut totals = self.totals;
        totals.record(videos);
        self.totals = totals;
        self.done = self.done + 1;
        SOURCE_DELAY_SECONDS
    }

    /// Records the end of the cycle at `now` in the configuration.
    pub fn close(&mut self, config: &mut ScheduledTaskConfig, now: i64)
        requires
            next_run_fits(now, old(config).interval_hours),
        ensures
            *final(self) == (CycleRun { closed: true, ..*old(self) }),
            final(config)@ == config_after_cycle_spec(old(config)@, now),
    {
        config.cycle_done(now);
        self.closed = true;
    }
}

/// A cycle collects from every source, in order and each once, whatever
/// happens to the scheduler meanwhile: while sources are left the step is to
/// collect from the next one, and taking its outcome, a failure too, moves
/// the cycle on by one.
pub proof fn lemma_cycle_visits_every_source(run: CycleRun, after: CycleRun)
    requires
        run.done < run.sources,
        after == (CycleRun { done: (run.done + 1) as usize, totals: after.totals, ..run }),
    ensures
        cycle_step_spec(run) == (CycleStep::Collect { index: run.done }),
        after.done < after.sources ==> cycle_step_spec(after) == (CycleStep::Collect {
            index: (run.done + 1) as usize,
        }),
        after.done == after.sources ==> cycle_step_spec(after) == if run.immediate || run.closed {
            CycleStep::Done
        } else {
            CycleStep::Close
        },
{
}

/// How many execution-log rows a query returns: as many as it asks for, or
/// fifty.
pub fn log_limit(limit: Option<i32>) -> (out: i64)
    ensures
        out == match limit {
            Some(n) => n as i64,
            None => DEFAULT_LOG_LIMIT as i64,
        },
{
    match limit {
        Some(n) => n as i64,
        None => DEFAULT_LOG_LIMIT as i64,
    }
}

/// How a status query shows a time: its milliseconds in decimal, or the
/// given words when there is none.
pub fn time_text(at: Option<i64>, missing: &str) -> (out: String)
    ensures
        out@ == match at {
            Some(t) => signed_decimal_text(t as int),
            None => missing@,
        },
{
    match at {
        Some(t) => {
            let digits = signed_decimal_chars(t);
            string_of(&digits)
        },
        None => String::from_str(missing),
    }
}

} // verus!
