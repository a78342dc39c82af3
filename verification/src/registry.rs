//! The task progress registry: one entry for each task id, with the task's
//! latest progress, its display name and whether a cancellation handle is
//! attached. The handles themselves stay with the caller, that aborts one
//! when `stop` says so.

use crate::progress::{TaskProgress, TaskStatus};
use crate::text::same_text;
use vstd::prelude::*;

verus! {

/// What the registry holds of one task.
#[derive(Debug, Clone, PartialEq, Eq)]
pub struct TaskEntry<P> {
    pub task_id: String,
    pub progress: P,
    pub name: String,
    pub has_handle: bool,
}

/// An entry as the contracts see it.
pub struct TaskEntryView<V> {
    pub task_id: Seq<char>,
    pub progress: V,
    pub name: Seq<char>,
    pub has_handle: bool,
}

impl<P: TaskProgress> View for TaskEntry<P> {
    type V = TaskEntryView<P::V>;

    open spec fn view(&self) -> TaskEntryView<P::V> {
        TaskEntryView {
            task_id: self.task_id@,
            progress: self.progress@,
            name: self.name@,
            has_handle: self.has_handle,
        }
    }
}

impl<P: TaskProgress> TaskEntry<P> {
    /// A copy of the entry.
    pub fn duplicate(&self) -> (out: Self)
        ensures
            out@ == self@,
    {
        TaskEntry {
            task_id: self.task_id.clone(),
            progress: self.progress.duplicate(),
            name: self.name.clone(),
            has_handle: self.has_handle,
        }
    }
}

/// The entries that a vector holds, as the contracts see them.
pub open spec fn entry_views<P: TaskProgress>(entries: Seq<TaskEntry<P>>) -> Seq<
    TaskEntryView<P::V>,
> {
    Seq::new(entries.len(), |i: int| entries[i]@)
}

/// Position of the first entry of task `id`, or `entries.len()`.
pub open spec fn entry_position<V>(entries: Seq<TaskEntryView<V>>, id: Seq<char>) -> int
    decreases entries.len(),
{
    if entries.len() == 0 {
        0
    } else if entries[0].task_id == id {
        0
    } else {
        1 + entry_position(entries.drop_first(), id)
    }
}

/// The position lies within the entries or right behind them, no entry
/// before it is of the task, and the entry at it is.
pub proof fn lemma_entry_position<V>(entries: Seq<TaskEntryView<V>>, id: Seq<char>)
    ensures
        0 <= entry_position(entries, id) <= entries.len(),
        forall|i: int| 0 <= i < entry_position(entries, id) ==> entries[i].task_id != id,
        entry_position(entries, id) < entries.len() ==> entries[entry_position(
            entries,
            id,
        )].task_id == id,
    decreases entries.len(),
{
    if entries.len() > 0 && entries[0].task_id != id {
        let t = entries.drop_first();
        lemma_entry_position(t, id);
        assert forall|i: int| 0 <= i < entry_position(entries, id) implies entries[i].task_id
            != id by {
            if i > 0 {
                assert(entries[i] == t[i - 1]);
            }
        }
    }
}

/// A place that holds the task, or the end, with no entry of the task before
/// it is the position of the task.
pub proof fn lemma_entry_position_is<V>(entries: Seq<TaskEntryView<V>>, id: Seq<char>, k: int)
    requires
        0 <= k <= entries.len(),
        forall|i: int| 0 <= i < k ==> entries[i].task_id != id,
        k < entries.len() ==> entries[k].task_id == id,
    ensures
        entry_position(entries, id) == k,
{
    lemma_entry_position(entries, id);
    let f = entry_position(entries, id);
    if f < k {
        assert(entries[f].task_id == id);
    } else if k < f {
        assert(entries[k].task_id == id);
    }
}

/// The entry of task `id`, if the registry holds one.
pub open spec fn lookup<V>(entries: Seq<TaskEntryView<V>>, id: Seq<char>) -> Option<
    TaskEntryView<V>,
> {
    let at = entry_position(entries, id);
    if 0 <= at < entries.len() {
        Some(entries[at])
    } else {
        None
    }
}

/// No two entries share a task id.
pub open spec fn distinct_ids<V>(entries: Seq<TaskEntryView<V>>) -> bool {
    forall|i: int, j: int|
        0 <= i < j < entries.len() ==> (#[trigger] entries[i]).task_id != (
        #[trigger] entries[j]).task_id
}

/// The registry after `upsert`: progress and name of a known task replaced,
/// its handle kept; an unknown task added at the end without a handle.
pub open spec fn upsert_spec<V>(
    entries: Seq<TaskEntryView<V>>,
    id: Seq<char>,
    progress: V,
    name: Seq<char>,
) -> Seq<TaskEntryView<V>> {
    let at = entry_position(entries, id);
    if 0 <= at < entries.len() {
        entries.update(at, TaskEntryView { progress, name, ..entries[at] })
    } else {
        entries.push(TaskEntryView { task_id: id, progress, name, has_handle: false })
    }
}

/// The registry after a handle was attached to task `id`.
pub open spec fn attach_spec<V>(entries: Seq<TaskEntryView<V>>, id: Seq<char>) -> Seq<
    TaskEntryView<V>,
> {
    let at = entry_position(entries, id);
    if 0 <= at < entries.len() {
        entries.update(at, TaskEntryView { has_handle: true, ..entries[at] })
    } else {
        entries
    }
}

/// The registry after `stop`: the task's record marked stopped and its
/// handle gone; the record itself stays.
pub open spec fn stop_spec<P: TaskProgress>(entries: Seq<TaskEntryView<P::V>>, id: Seq<char>) -> Seq<
    TaskEntryView<P::V>,
> {
    let at = entry_position(entries, id);
    if 0 <= at < entries.len() {
        entries.update(
            at,
            TaskEntryView {
                progress: P::stopped_view(entries[at].progress),
                has_handle: false,
                ..entries[at]
            },
        )
    } else {
        entries
    }
}

/// The entry is of a task that is running.
pub open spec fn is_running_entry<P: TaskProgress>(entry: TaskEntryView<P::V>) -> bool {
    P::status_of(entry.progress) == TaskStatus::Running
}

/// The entries of running tasks, in registry order.
pub open spec fn running_entries<P: TaskProgress>(entries: Seq<TaskEntryView<P::V>>) -> Seq<
    TaskEntryView<P::V>,
> {
    entries.filter(|entry: TaskEntryView<P::V>| is_running_entry::<P>(entry))
}

/// What `stop` found and what is left to do.
#[derive(Debug, Clone, Copy, PartialEq, Eq, Structural)]
pub struct StopOutcome {
    /// The registry holds the task.
    pub found: bool,
    /// A handle was attached: the caller aborts it.
    pub abort: bool,
}

/// The registry of tasks and their progress, in the order the tasks were
/// first seen.
pub struct TaskRegistry<P> {
    pub entries: Vec<TaskEntry<P>>,
}

impl<P: TaskProgress> View for TaskRegistry<P> {
    type V = Seq<TaskEntryView<P::V>>;

    open spec fn view(&self) -> Seq<TaskEntryView<P::V>> {
        entry_views(self.entries@)
    }
}

impl<P: TaskProgress> TaskRegistry<P> {
    /// A registry without tasks.
    pub fn new() -> (out: Self)
        ensures
            out@ == Seq::<TaskEntryView<P::V>>::empty(),
    {
        let out = TaskRegistry { entries: Vec::new() };
        assert(out@ =~= Seq::<TaskEntryView<P::V>>::empty());
        out
    }

    /// Position of the task's entry, or the number of entries.
    pub fn position(&self, task_id: &str) -> (at: usize)
        ensures
            at == entry_position(self@, task_id@),
            at <= self@.len(),
    {
        let mut i: usize = 0;
        while i < self.entries.len() && !same_text(self.entries[i].task_id.as_str(), task_id)
            invariant
                i <= self.entries.len(),
                forall|k: int| 0 <= k < i ==> self@[k].task_id != task_id@,
            decreases self.entries.len() - i,
        {
            i = i + 1;
        }
        proof {
            lemma_entry_position_is(self@, task_id@, i as int);
        }
        i
    }

    /// The task's latest progress.
    pub fn get(&self, task_id: &str) -> (out: Option<P>)
        ensures
            match out {
                Some(p) => lookup(self@, task_id@) is Some && p@ == lookup(
                    self@,
                    task_id@,
                )->0.progress,
                None => lookup(self@, task_id@) is None,
            },
    {
        let at = self.position(task_id);
        if at < self.entries.len() {
            Some(self.entries[at].progress.duplicate())
        } else {
            None
        }
    }

    /// The task's status, if the registry holds the task.
    pub fn status(&self, task_id: &str) -> (out: Option<TaskStatus>)
        ensures
            out == match lookup(self@, task_id@) {
                Some(entry) => Some(P::status_of(entry.progress)),
                None => None,
            },
    {
        let at = self.position(task_id);
        if at < self.entries.len() {
            Some(self.entries[at].progress.status())
        } else {
            None
        }
    }

    /// Records the task's progress and name. A handle that is attached
    /// stays attached.
    pub fn upsert(&mut self, task_id: &str, progress: P, name: String)
        ensures
            final(self)@ == upsert_spec(old(self)@, task_id@, progress@, name@),
    {
        let ghost before = self@;
        let at = self.position(task_id);
        if at < self.entries.len() {
            let has_handle = self.entries[at].has_handle;
            let entry = TaskEntry {
                task_id: self.entries[at].task_id.clone(),
                progress,
                name,
                has_handle,
            };
            self.entries.set(at, entry);
            assert(self@ =~= before.update(at as int, entry@));
        } else {
            let entry = TaskEntry {
                task_id: String::from_str(task_id),
                progress,
                name,
                has_handle: false,
            };
            self.entries.push(entry);
            assert(self@ =~= before.push(entry@));
        }
    }

    /// Notes that a cancellation handle is attached to the task. Says
    /// whether the registry holds the task.
    pub fn attach_handle(&mut self, task_id: &str) -> (found: bool)
        ensures
            final(self)@ == attach_spec(old(self)@, task_id@),
            found == lookup(old(self)@, task_id@) is Some,
    {
        let ghost before = self@;
        let at = self.position(task_id);
        if at < self.entries.len() {
            let mut entry = self.entries[at].duplicate();
            entry.has_handle = true;
            self.entries.set(at, entry);
            assert(self@ =~= before.update(at as int, entry@));
            true
        } else {
            false
        }
    }

    /// Stops a task by hand: marks its record stopped and drops its handle.
    pub fn stop(&mut self, task_id: &str) -> (out: StopOutcome)
        ensures
            final(self)@ == stop_spec::<P>(old(self)@, task_id@),
            out.found == lookup(old(self)@, task_id@) is Some,
            out.abort == (lookup(old(self)@, task_id@) is Some && lookup(
                old(self)@,
                task_id@,
            )->0.has_handle),
    {
        let ghost before = self@;
        let at = self.position(task_id);
        if at < self.entries.len() {
            let mut entry = self.entries[at].duplicate();
            let abort = entry.has_handle;
            let mut progress = entry.progress;
            progress.mark_stopped();
            entry.progress = progress;
            entry.has_handle = false;
            self.entries.set(at, entry);
            assert(self@ =~= before.update(at as int, entry@));
            StopOutcome { found: true, abort }
        } else {
            StopOutcome { found: false, abort: false }
        }
    }

    /// Copies of the entries of running tasks, in registry order.
    pub fn list_running(&self) -> (out: Vec<TaskEntry<P>>)
        ensures
            entry_views(out@) == running_entries::<P>(self@),
    {
        let mut out: Vec<TaskEntry<P>> = Vec::new();
        let mut i: usize = 0;
        let ghost all = self@;
        proof {
            reveal(Seq::filter);
            assert(all.subrange(0, 0) =~= Seq::<TaskEntryView<P::V>>::empty());
            assert(entry_views(out@) =~= running_entries::<P>(all.subrange(0, 0)));
        }
        while i < self.entries.len()
            invariant
                i <= self.entries.len(),
                all == self@,
                entry_views(out@) == running_entries::<P>(all.subrange(0, i as int)),
            decreases self.entries.len() - i,
        {
            let ghost before = entry_views(out@);
            let ghost next = all.subrange(0, i + 1);
            proof {
                reveal(Seq::filter);
                assert(next.drop_last() == all.subrange(0, i as int));
                assert(next.last() == self.entries@[i as int]@);
            }
            if self.entries[i].progress.status() == TaskStatus::Running {
                let entry = self.entries[i].duplicate();
                out.push(entry);
                assert(entry_views(out@) =~= before.push(entry@));
            }
            i = i + 1;
        }
        assert(all.subrange(0, self.entries.len() as int) == all);
        out
    }

    /// Copies of all entries, in registry order.
    pub fn list_all(&self) -> (out: Vec<TaskEntry<P>>)
        ensures
            entry_views(out@) == self@,
    {
        let mut out: Vec<TaskEntry<P>> = Vec::new();
        let mut i: usize = 0;
        while i < self.entries.len()
            invariant
                i <= self.entries.len(),
                entry_views(out@) == self@.subrange(0, i as int),
            decreases self.entries.len() - i,
        {
            let ghost before = entry_views(out@);
            let entry = self.entries[i].duplicate();
            out.push(entry);
            assert(entry_views(out@) =~= before.push(entry@));
            i = i + 1;
        }
        assert(self@.subrange(0, self.entries.len() as int) == self@);
        out
    }
}

/// A fresh task id: a random identifier in its usual form.
pub fn new_task_id() -> (id: String)
    ensures
        crate::picture::is_uuid_text(id@),
{
    crate::picture::fresh_uuid_text()
}

/// Every registry operation keeps task ids distinct.
pub proof fn lemma_registry_keeps_distinct_ids<P: TaskProgress>(
    entries: Seq<TaskEntryView<P::V>>,
    id: Seq<char>,
    progress: P::V,
    name: Seq<char>,
)
    requires
        distinct_ids(entries),
    ensures
        distinct_ids(upsert_spec(entries, id, progress, name)),
        distinct_ids(attach_spec(entries, id)),
        distinct_ids(stop_spec::<P>(entries, id)),
{
    lemma_entry_position(entries, id);
}

/// After `upsert` the task is held with the progress and name given, its
/// handle is as it was, and every other task is as it was.
pub proof fn lemma_upsert_effect<V>(
    entries: Seq<TaskEntryView<V>>,
    id: Seq<char>,
    progress: V,
    name: Seq<char>,
)
    ensures
        ({
            let after = upsert_spec(entries, id, progress, name);
            &&& lookup(after, id) is Some
            &&& lookup(after, id)->0.progress == progress
            &&& lookup(after, id)->0.name == name
            &&& lookup(after, id)->0.has_handle == (lookup(entries, id) is Some && lookup(
                entries,
                id,
            )->0.has_handle)
            &&& forall|other: Seq<char>| other != id ==> lookup(after, other) == lookup(entries, other)
        }),
{
    let at = entry_position(entries, id);
    let after = upsert_spec(entries, id, progress, name);
    lemma_entry_position(entries, id);
    assert forall|i: int| 0 <= i < at implies after[i].task_id != id by {
        assert(after[i].task_id == entries[i].task_id);
    }
    lemma_entry_position_is(after, id, at);
    assert forall|other: Seq<char>| other != id implies lookup(after, other) == lookup(
        entries,
        other,
    ) by {
        lemma_entry_position(entries, other);
        let k = entry_position(entries, other);
        assert forall|i: int| 0 <= i < k implies after[i].task_id != other by {
            assert(after[i].task_id == entries[i].task_id);
        }
        if k < entries.len() {
            assert(after[k].task_id == other);
            lemma_entry_position_is(after, other, k);
        } else if at < entries.len() {
            lemma_entry_position_is(after, other, k);
        } else {
            assert(after[k].task_id == id);
            lemma_entry_position_is(after, other, k + 1);
        }
    }
}

/// After `stop` a task that the registry holds is stopped, has no handle, is
/// no longer listed as running, and every other task is as it was.
pub proof fn lemma_stop_effect<P: TaskProgress>(entries: Seq<TaskEntryView<P::V>>, id: Seq<char>)
    requires
        lookup(entries, id) is Some,
    ensures
        ({
            let after = stop_spec::<P>(entries, id);
            &&& lookup(after, id) is Some
            &&& P::status_of(lookup(after, id)->0.progress) == TaskStatus::Stopped
            &&& !lookup(after, id)->0.has_handle
            &&& forall|other: Seq<char>| other != id ==> lookup(after, other) == lookup(entries, other)
        }),
{
    let at = entry_position(entries, id);
    let after = stop_spec::<P>(entries, id);
    lemma_entry_position(entries, id);
    lemma_entry_position_is(after, id, at);
    P::lemma_stopped_is_stopped(entries[at].progress);
    assert forall|other: Seq<char>| other != id implies lookup(after, other) == lookup(
        entries,
        other,
    ) by {
        lemma_entry_position(entries, other);
        let k = entry_position(entries, other);
        assert forall|i: int| 0 <= i < k implies after[i].task_id != other by {
            assert(after[i].task_id == entries[i].task_id);
        }
        if k < entries.len() {
            assert(after[k].task_id == other);
        }
        lemma_entry_position_is(after, other, k);
    }
}

} // verus!
