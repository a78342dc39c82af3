//! Batch removal of one play source from every row of the catalog. The
//! caller pages through the store by key, hands each page and each of its
//! rows to the run, and writes back the rows that changed.

use crate::models::{source_views, PlaySource, PlaySourceView, Vod, VodView};
use crate::progress::{
    line_2, make_line_2, make_line_text, BatchDeleteProgress, BatchDeleteProgressView, TaskStatus,
};
use crate::registry::{running_entries, upsert_spec, TaskEntryView, TaskRegistry};
use crate::remote::CollectError;
use crate::text::{chars_of, same_text, string_of, trim_chars, trim_seq};
use vstd::prelude::*;

verus! {

/// Rows that one query of the store returns at most.
pub const BATCH_SIZE: usize = 2000;

/// Rows between two progress reports.
pub const PROGRESS_EVERY: u64 = 100;

/// The play sources that are not called `name`, in order.
pub open spec fn kept_sources(sources: Seq<PlaySourceView>, name: Seq<char>) -> Seq<PlaySourceView> {
    sources.filter(|source: PlaySourceView| source.source_name != name)
}

/// The row without its play sources called `name`. A row that the store
/// gave no id is left as it is.
pub open spec fn stripped(row: VodView, name: Seq<char>) -> VodView {
    if row.id is Some {
        VodView { vod_play_urls: kept_sources(row.vod_play_urls, name), ..row }
    } else {
        row
    }
}

/// How many play sources `stripped` takes out of the row.
pub open spec fn removed_from(row: VodView, name: Seq<char>) -> nat {
    if row.id is Some {
        (row.vod_play_urls.len() - kept_sources(row.vod_play_urls, name).len()) as nat
    } else {
        0
    }
}

/// The play sources of `sources` that are not called `name`, and how many
/// were left out.
pub fn without_source(sources: &Vec<PlaySource>, name: &str) -> (out: (Vec<PlaySource>, usize))
    ensures
        source_views(out.0@) == kept_sources(source_views(sources@), name@),
        out.1 == sources@.len() - out.0@.len(),
{
    let mut kept: Vec<PlaySource> = Vec::new();
    let mut removed: usize = 0;
    let mut i: usize = 0;
    let ghost all = source_views(sources@);
    proof {
        reveal(Seq::filter);
        assert(all.subrange(0, 0) =~= Seq::<PlaySourceView>::empty());
        assert(source_views(kept@) =~= kept_sources(all.subrange(0, 0), name@));
    }
    while i < sources.len()
        invariant
            i <= sources.len(),
            all == source_views(sources@),
            source_views(kept@) == kept_sources(all.subrange(0, i as int), name@),
            kept@.len() + removed == i,
        decreases sources.len() - i,
    {
        let ghost before = source_views(kept@);
        let ghost next = all.subrange(0, i + 1);
        proof {
            reveal(Seq::filter);
            assert(next.drop_last() == all.subrange(0, i as int));
            assert(next.last() == sources@[i as int]@);
        }
        if same_text(sources[i].source_name.as_str(), name) {
            removed = removed + 1;
        } else {
            let copy = sources[i].duplicate();
            kept.push(copy);
            assert(source_views(kept@) =~= before.push(copy@));
        }
        i = i + 1;
    }
    assert(all.subrange(0, sources.len() as int) == all);
    (kept, removed)
}

/// The name under which a removal of `source_name` is listed.
pub open spec fn task_name_spec(source_name: Seq<char>) -> Seq<char> {
    "批量删除播放源: "@ + source_name
}

/// The progress of a removal that has just begun.
pub open spec fn begun_progress(total_count: u64) -> BatchDeleteProgressView {
    BatchDeleteProgressView {
        status: TaskStatus::Running,
        processed_count: 0,
        deleted_count: 0,
        total_count,
        log: "开始批量删除播放源任务"@,
    }
}

/// The progress while rows are worked through.
pub open spec fn running_progress(processed: u64, deleted: u64, total: u64) -> BatchDeleteProgressView {
    BatchDeleteProgressView {
        status: TaskStatus::Running,
        processed_count: processed,
        deleted_count: deleted,
        total_count: total,
        log: line_2("正在处理中... 已处理 "@, processed as nat, "/"@, total as nat, " 个视频"@),
    }
}

/// The progress of a removal that went through the whole catalog.
pub open spec fn completed_progress(processed: u64, deleted: u64, total: u64) -> BatchDeleteProgressView {
    BatchDeleteProgressView {
        status: TaskStatus::Completed,
        processed_count: total,
        deleted_count: deleted,
        total_count: total,
        log: line_2(
            "批量删除完成：处理了 "@,
            processed as nat,
            " 个视频，删除了 "@,
            deleted as nat,
            " 个播放源"@,
        ),
    }
}

/// The progress of a removal that failed for the reason `detail`.
pub open spec fn failed_progress(total: u64, detail: Seq<char>) -> BatchDeleteProgressView {
    BatchDeleteProgressView {
        status: TaskStatus::Failed,
        processed_count: 0,
        deleted_count: 0,
        total_count: total,
        log: "批量删除失败: "@ + detail,
    }
}

/// The progress of a removal that could not count the catalog.
pub open spec fn uncounted_progress() -> BatchDeleteProgressView {
    BatchDeleteProgressView {
        status: TaskStatus::Failed,
        processed_count: 0,
        deleted_count: 0,
        total_count: 0,
        log: "无法获取视频总数"@,
    }
}

/// One removal of a play source from the whole catalog.
pub struct BatchDeleteRun {
    pub task_id: String,
    pub source_name: String,
    pub processed_count: u64,
    pub deleted_count: u64,
    pub total_count: u64,
    /// The id of the last row of the last page: the next page is asked for
    /// after it.
    pub last_id: Option<u128>,
    pub done: bool,
}

/// A removal as the contracts see it.
pub struct BatchDeleteRunView {
    pub task_id: Seq<char>,
    pub source_name: Seq<char>,
    pub processed_count: u64,
    pub deleted_count: u64,
    pub total_count: u64,
    pub last_id: Option<u128>,
    pub done: bool,
}

impl View for BatchDeleteRun {
    type V = BatchDeleteRunView;

    open spec fn view(&self) -> BatchDeleteRunView {
        BatchDeleteRunView {
            task_id: self.task_id@,
            source_name: self.source_name@,
            processed_count: self.processed_count,
            deleted_count: self.deleted_count,
            total_count: self.total_count,
            last_id: self.last_id,
            done: self.done,
        }
    }
}

/// The registry with `progress` published for the run.
pub open spec fn reported(
    registry: Seq<TaskEntryView<BatchDeleteProgressView>>,
    run: BatchDeleteRunView,
    progress: BatchDeleteProgressView,
) -> Seq<TaskEntryView<BatchDeleteProgressView>> {
    upsert_spec(registry, run.task_id, progress, task_name_spec(run.source_name))
}

/// The run after one row: one more row processed, the row's removed play
/// sources counted.
pub open spec fn after_row_spec(run: BatchDeleteRunView, row: VodView) -> BatchDeleteRunView {
    BatchDeleteRunView {
        processed_count: (run.processed_count + 1) as u64,
        deleted_count: (run.deleted_count + removed_from(row, run.source_name)) as u64,
        ..run
    }
}

/// A page shorter than the batch size is the last one.
pub open spec fn is_last_page(page_len: nat, batch_size: nat) -> bool {
    page_len < batch_size
}

impl BatchDeleteRun {
    fn task_name(&self) -> (out: String)
        ensures
            out@ == task_name_spec(self@.source_name),
    {
        make_line_text("批量删除播放源: ", self.source_name.as_str())
    }

    fn report(&self, progress: BatchDeleteProgress, registry: &mut TaskRegistry<BatchDeleteProgress>)
        ensures
            final(registry)@ == reported(old(registry)@, self@, progress@),
    {
        let name = self.task_name();
        registry.upsert(self.task_id.as_str(), progress, name);
    }

    fn complete(&mut self, registry: &mut TaskRegistry<BatchDeleteProgress>)
        ensures
            final(self)@ == (BatchDeleteRunView { done: true, ..old(self)@ }),
            final(registry)@ == reported(
                old(registry)@,
                old(self)@,
                completed_progress(
                    old(self)@.processed_count,
                    old(self)@.deleted_count,
                    old(self)@.total_count,
                ),
            ),
    {
        self.done = true;
        let progress = BatchDeleteProgress {
            status: TaskStatus::Completed,
            processed_count: self.total_count,
            deleted_count: self.deleted_count,
            total_count: self.total_count,
            log: make_line_2(
                "批量删除完成：处理了 ",
                self.processed_count,
                " 个视频，删除了 ",
                self.deleted_count,
                " 个播放源",
            ),
        };
        self.report(progress, registry);
    }

    /// Begins a removal of `source_name` from a catalog of `total_count`
    /// rows and publishes it as running.
    pub fn begin(
        task_id: String,
        source_name: String,
        total_count: u64,
        registry: &mut TaskRegistry<BatchDeleteProgress>,
    ) -> (run: BatchDeleteRun)
        ensures
            run@ == (BatchDeleteRunView {
                task_id: task_id@,
                source_name: source_name@,
                processed_count: 0,
                deleted_count: 0,
                total_count,
                last_id: None,
                done: false,
            }),
            final(registry)@ == reported(old(registry)@, run@, begun_progress(total_count)),
    {
        let run = BatchDeleteRun {
            task_id,
            source_name,
            processed_count: 0,
            deleted_count: 0,
            total_count,
            last_id: None,
            done: false,
        };
        let progress = BatchDeleteProgress {
            status: TaskStatus::Running,
            processed_count: 0,
            deleted_count: 0,
            total_count,
            log: String::from_str("开始批量删除播放源任务"),
        };
        run.report(progress, registry);
        run
    }

    /// Begins a removal under a fresh task id.
    pub fn begin_new(
        source_name: String,
        total_count: u64,
        registry: &mut TaskRegistry<BatchDeleteProgress>,
    ) -> (run: BatchDeleteRun)
        ensures
            crate::picture::is_uuid_text(run@.task_id),
            run@ == (BatchDeleteRunView {
                task_id: run@.task_id,
                source_name: source_name@,
                processed_count: 0,
                deleted_count: 0,
                total_count,
                last_id: None,
                done: false,
            }),
            final(registry)@ == reported(old(registry)@, run@, begun_progress(total_count)),
    {
        let task_id = crate::registry::new_task_id();
        BatchDeleteRun::begin(task_id, source_name, total_count, registry)
    }

    /// Publishes the failure of a removal whose run could not go on, for the
    /// reason `detail`.
    pub fn fail(&mut self, detail: &str, registry: &mut TaskRegistry<BatchDeleteProgress>)
        ensures
            final(self)@ == (BatchDeleteRunView { done: true, ..old(self)@ }),
            final(registry)@ == reported(
                old(registry)@,
                old(self)@,
                failed_progress(old(self)@.total_count, detail@),
            ),
    {
        self.done = true;
        let progress = BatchDeleteProgress {
            status: TaskStatus::Failed,
            processed_count: 0,
            deleted_count: 0,
            total_count: self.total_count,
            log: make_line_text("批量删除失败: ", detail),
        };
        self.report(progress, registry);
    }

    /// Takes a page that the store returned for the rows after `last_id`.
    /// An empty page ends the run; of any other the last row's id is kept
    /// for the next query. Says whether there are rows to work through.
    pub fn begin_page(&mut self, page: &Vec<Vod>, registry: &mut TaskRegistry<BatchDeleteProgress>) -> (has_rows:
        bool)
        ensures
            has_rows == (page.len() > 0),
            has_rows ==> final(self)@ == (BatchDeleteRunView {
                last_id: page@.last().id,
                ..old(self)@
            }) && final(registry)@ == old(registry)@,
            !has_rows ==> final(self)@ == (BatchDeleteRunView { done: true, ..old(self)@ })
                && final(registry)@ == reported(
                old(registry)@,
                old(self)@,
                completed_progress(
                    old(self)@.processed_count,
                    old(self)@.deleted_count,
                    old(self)@.total_count,
                ),
            ),
    {
        if page.len() == 0 {
            self.complete(registry);
            false
        } else {
            self.last_id = page[page.len() - 1].id;
            true
        }
    }

    /// Takes what a query for the rows after `last_id` gave. A query that
    /// failed fails the run, with its reason, and ends it: rows that were
    /// not read are not reported as done. A page is taken as `begin_page`
    /// takes it. Says whether there are rows to work through.
    pub fn take_page(
        &mut self,
        read: &Result<Vec<Vod>, CollectError>,
        registry: &mut TaskRegistry<BatchDeleteProgress>,
    ) -> (has_rows: bool)
        ensures
            has_rows == (*read is Ok && read->Ok_0@.len() > 0),
            has_rows ==> final(self)@ == (BatchDeleteRunView {
                last_id: read->Ok_0@.last().id,
                ..old(self)@
            }) && final(registry)@ == old(registry)@,
            !has_rows ==> final(self)@ == (BatchDeleteRunView { done: true, ..old(self)@ })
                && final(registry)@ == reported(
                old(registry)@,
                old(self)@,
                match *read {
                    Ok(_) => completed_progress(
                        old(self)@.processed_count,
                        old(self)@.deleted_count,
                        old(self)@.total_count,
                    ),
                    Err(cause) => failed_progress(old(self)@.total_count, cause@.message),
                },
            ),
    {
        match read {
            Ok(page) => self.begin_page(page, registry),
            Err(cause) => {
                self.fail(cause.message.as_str(), registry);
                false
            },
        }
    }

    /// Works through one row: takes the play sources of the run's name out
    /// of it, counts, and publishes the progress at every hundredth row.
    /// Says whether the row changed and is to be written back.
    pub fn absorb_row(&mut self, row: &mut Vod, registry: &mut TaskRegistry<BatchDeleteProgress>) -> (changed:
        bool)
        requires
            old(self).processed_count < u64::MAX,
            old(self).deleted_count + old(row).vod_play_urls@.len() <= u64::MAX,
        ensures
            final(row)@ == stripped(old(row)@, old(self)@.source_name),
            changed == (removed_from(old(row)@, old(self)@.source_name) > 0),
            final(self)@ == after_row_spec(old(self)@, old(row)@),
            final(registry)@ == if final(self)@.processed_count % PROGRESS_EVERY == 0 {
                reported(
                    old(registry)@,
                    final(self)@,
                    running_progress(
                        final(self)@.processed_count,
                        final(self)@.deleted_count,
                        final(self)@.total_count,
                    ),
                )
            } else {
                old(registry)@
            },
    {
        let mut changed = false;
        if row.id.is_some() {
            let (kept, removed) = without_source(&row.vod_play_urls, self.source_name.as_str());
            if removed > 0 {
                row.vod_play_urls = kept;
                self.deleted_count = self.deleted_count + removed as u64;
                changed = true;
            } else {
                proof {
                    lemma_nothing_removed(source_views(row.vod_play_urls@), self.source_name@);
                }
            }
        }
        self.processed_count = self.processed_count + 1;
        if self.processed_count % PROGRESS_EVERY == 0 {
            let progress = BatchDeleteProgress {
                status: TaskStatus::Running,
                processed_count: self.processed_count,
                deleted_count: self.deleted_count,
                total_count: self.total_count,
                log: make_line_2(
                    "正在处理中... 已处理 ",
                    self.processed_count,
                    "/",
                    self.total_count,
                    " 个视频",
                ),
            };
            self.report(progress, registry);
        }
        changed
    }

    /// Ends a page of `page_len` rows. A page shorter than `batch_size`
    /// was the last: the run completes. Says whether the run is over.
    pub fn end_page(
        &mut self,
        page_len: usize,
        batch_size: usize,
        registry: &mut TaskRegistry<BatchDeleteProgress>,
    ) -> (over: bool)
        ensures
            over == is_last_page(page_len as nat, batch_size as nat),
            over ==> final(self)@ == (BatchDeleteRunView { done: true, ..old(self)@ })
                && final(registry)@ == reported(
                old(registry)@,
                old(self)@,
                completed_progress(
                    old(self)@.processed_count,
                    old(self)@.deleted_count,
                    old(self)@.total_count,
                ),
            ),
            !over ==> final(self)@ == old(self)@ && final(registry)@ == old(registry)@,
    {
        if page_len < batch_size {
            self.complete(registry);
            true
        } else {
            false
        }
    }
}

/// A filter that leaves nothing out gives the sequence back.
pub proof fn lemma_nothing_removed(sources: Seq<PlaySourceView>, name: Seq<char>)
    requires
        kept_sources(sources, name).len() == sources.len(),
    ensures
        kept_sources(sources, name) == sources,
    decreases sources.len(),
{
    reveal(Seq::filter);
    if sources.len() > 0 {
        let front = sources.drop_last();
        front.lemma_filter_len(|source: PlaySourceView| source.source_name != name);
        lemma_nothing_removed(front, name);
        assert(front.push(sources.last()) =~= sources);
    }
}

/// Publishes the failure of a removal that could not count the catalog.
pub fn report_uncounted(task_id: &str, source_name: &str, registry: &mut TaskRegistry<BatchDeleteProgress>)
    ensures
        final(registry)@ == upsert_spec(
            old(registry)@,
            task_id@,
            uncounted_progress(),
            task_name_spec(source_name@),
        ),
{
    let progress = BatchDeleteProgress {
        status: TaskStatus::Failed,
        processed_count: 0,
        deleted_count: 0,
        total_count: 0,
        log: String::from_str("无法获取视频总数"),
    };
    registry.upsert(task_id, progress, make_line_text("批量删除播放源: ", source_name));
}

/// The name of the play source that a request asks to remove: the name
/// without the white space around it, or `None` when nothing is left.
pub fn requested_source(raw: &str) -> (out: Option<String>)
    ensures
        match out {
            Some(name) => name@ == trim_seq(raw@) && name@.len() > 0,
            None => trim_seq(raw@).len() == 0,
        },
{
    let chars = chars_of(raw);
    let trimmed = trim_chars(&chars);
    if trimmed.len() == 0 {
        None
    } else {
        Some(string_of(&trimmed))
    }
}

/// A removal may begin when no other is running.
pub fn may_start(registry: &TaskRegistry<BatchDeleteProgress>) -> (ok: bool)
    ensures
        ok == (running_entries::<BatchDeleteProgress>(registry@).len() == 0),
{
    registry.list_running().len() == 0
}

/// Every row without its play sources called `name`.
pub open spec fn stripped_rows(rows: Seq<VodView>, name: Seq<char>) -> Seq<VodView> {
    Seq::new(rows.len(), |i: int| stripped(rows[i], name))
}

/// How many play sources called `name` the rows lose together.
pub open spec fn removed_in(rows: Seq<VodView>, name: Seq<char>) -> nat
    decreases rows.len(),
{
    if rows.len() == 0 {
        0
    } else {
        removed_in(rows.drop_last(), name) + removed_from(rows.last(), name)
    }
}

/// How many play sources the rows hold together.
pub open spec fn sources_in(rows: Seq<VodView>) -> nat
    decreases rows.len(),
{
    if rows.len() == 0 {
        0
    } else {
        sources_in(rows.drop_last()) + rows.last().vod_play_urls.len()
    }
}

/// The first rows lose no more play sources than they hold, and hold no
/// more than all rows.
pub proof fn lemma_sources_prefix(rows: Seq<VodView>, name: Seq<char>, k: int)
    requires
        0 <= k <= rows.len(),
    ensures
        removed_in(rows.subrange(0, k), name) <= sources_in(rows.subrange(0, k)),
        sources_in(rows.subrange(0, k)) <= sources_in(rows),
    decreases rows.len(),
{
    let front = rows.subrange(0, k);
    if rows.len() == 0 {
        assert(front =~= rows);
    } else if k == rows.len() {
        assert(front =~= rows);
        lemma_sources_prefix(rows.drop_last(), name, k - 1);
        assert(rows.drop_last().subrange(0, k - 1) =~= rows.drop_last());
        rows.last().vod_play_urls.lemma_filter_len(
            |source: PlaySourceView| source.source_name != name,
        );
    } else {
        lemma_sources_prefix(rows.drop_last(), name, k);
        assert(rows.drop_last().subrange(0, k) =~= front);
    }
}

/// The rows carry ids and the store's order: each id greater than the one
/// before.
pub open spec fn store_ordered(rows: Seq<VodView>) -> bool {
    &&& forall|i: int| 0 <= i < rows.len() ==> (#[trigger] rows[i]).id is Some
    &&& forall|i: int, j: int|
        0 <= i < j < rows.len() ==> (#[trigger] rows[i]).id->0 < (#[trigger] rows[j]).id->0
}

/// Position of the first row whose id is greater than `after`; with no
/// `after`, the first row.
pub open spec fn first_after(rows: Seq<VodView>, after: Option<u128>) -> int
    decreases rows.len(),
{
    if rows.len() == 0 {
        0
    } else if after is None || (rows[0].id is Some && rows[0].id->0 > after->0) {
        0
    } else {
        1 + first_after(rows.drop_first(), after)
    }
}

/// What the store returns for a query by key: the first `limit` rows with
/// an id greater than `after`, in order.
pub open spec fn keyset_page(rows: Seq<VodView>, after: Option<u128>, limit: nat) -> Seq<VodView> {
    let from = first_after(rows, after);
    let to = if from + limit < rows.len() {
        from + limit
    } else {
        rows.len() as int
    };
    rows.subrange(from, to)
}

/// The rows that a scan visits, page by page, from the rows after `after`
/// on: each page is asked for after the last row of the one before, and a
/// page that is empty or shorter than `limit` ends the scan.
pub open spec fn scan_visits(rows: Seq<VodView>, after: Option<u128>, limit: nat) -> Seq<VodView>
    decreases rows.len() - first_after(rows, after),
    when limit >= 1 && store_ordered(rows)
    via scan_decreases
{
    let page = keyset_page(rows, after, limit);
    if page.len() == 0 {
        Seq::empty()
    } else if is_last_page(page.len(), limit) {
        page
    } else {
        page + scan_visits(rows, page.last().id, limit)
    }
}

/// In the store's order the rows greater than `after` are exactly those from
/// `first_after` on.
pub proof fn lemma_first_after(rows: Seq<VodView>, after: Option<u128>)
    requires
        store_ordered(rows),
    ensures
        0 <= first_after(rows, after) <= rows.len(),
        after is None ==> first_after(rows, after) == 0,
        forall|i: int|
            0 <= i < rows.len() && after is Some ==> ((#[trigger] rows[i]).id->0 > after->0 <==> i
                >= first_after(rows, after)),
    decreases rows.len(),
{
    if rows.len() > 0 && !(after is None || (rows[0].id is Some && rows[0].id->0 > after->0)) {
        let rest = rows.drop_first();
        assert(store_ordered(rest)) by {
            assert forall|i: int| 0 <= i < rest.len() implies (#[trigger] rest[i]).id is Some by {
                assert(rest[i] == rows[i + 1]);
            }
            assert forall|i: int, j: int| 0 <= i < j < rest.len() implies (#[trigger] rest[i]).id->0
                < (#[trigger] rest[j]).id->0 by {
                assert(rest[i] == rows[i + 1]);
                assert(rest[j] == rows[j + 1]);
            }
        }
        lemma_first_after(rest, after);
        assert forall|i: int| 0 <= i < rows.len() && after is Some implies ((
        #[trigger] rows[i]).id->0 > after->0 <==> i >= first_after(rows, after)) by {
            if i > 0 {
                assert(rows[i] == rest[i - 1]);
            }
        }
    } else if rows.len() > 0 && after is Some {
        assert forall|i: int| 0 <= i < rows.len() implies ((#[trigger] rows[i]).id->0 > after->0
            <==> i >= 0) by {
            if i > 0 {
                assert(rows[0].id->0 < rows[i].id->0);
            }
        }
    }
}

/// After a full page the next query begins right behind it.
pub proof fn lemma_next_after_page(rows: Seq<VodView>, after: Option<u128>, limit: nat)
    requires
        store_ordered(rows),
        limit >= 1,
        keyset_page(rows, after, limit).len() > 0,
    ensures
        first_after(rows, keyset_page(rows, after, limit).last().id) == first_after(rows, after)
            + keyset_page(rows, after, limit).len(),
{
    lemma_first_after(rows, after);
    let page = keyset_page(rows, after, limit);
    let from = first_after(rows, after);
    let last = from + page.len() - 1;
    assert(page.last() == rows[last]);
    let next = page.last().id;
    lemma_first_after(rows, next);
    let f = first_after(rows, next);
    if f <= last {
        assert(rows[last].id->0 > next->0);
    }
    if f > last + 1 {
        assert(rows[last].id->0 < rows[last + 1].id->0);
        assert(!(rows[last + 1].id->0 > next->0));
    }
}

#[via_fn]
proof fn scan_decreases(rows: Seq<VodView>, after: Option<u128>, limit: nat) {
    let page = keyset_page(rows, after, limit);
    if page.len() > 0 && !is_last_page(page.len(), limit) {
        lemma_next_after_page(rows, after, limit);
        lemma_first_after(rows, page.last().id);
    }
}

/// A scan by key visits what lies behind its starting point, each row once
/// and in order.
pub proof fn lemma_scan_from(rows: Seq<VodView>, after: Option<u128>, limit: nat)
    requires
        store_ordered(rows),
        limit >= 1,
    ensures
        scan_visits(rows, after, limit) == rows.subrange(
            first_after(rows, after),
            rows.len() as int,
        ),
    decreases rows.len() - first_after(rows, after),
{
    lemma_first_after(rows, after);
    let page = keyset_page(rows, after, limit);
    let from = first_after(rows, after);
    if page.len() == 0 {
        assert(rows.subrange(from, rows.len() as int) =~= Seq::<VodView>::empty());
    } else if is_last_page(page.len(), limit) {
    } else {
        lemma_next_after_page(rows, after, limit);
        lemma_first_after(rows, page.last().id);
        lemma_scan_from(rows, page.last().id, limit);
        assert(page + rows.subrange(from + page.len(), rows.len() as int) =~= rows.subrange(
            from,
            rows.len() as int,
        ));
    }
}

/// A scan of the whole catalog by key, whatever the number of rows and the
/// batch size, visits every row exactly once, in the store's order.
pub proof fn lemma_scan_covers_catalog(rows: Seq<VodView>, limit: nat)
    requires
        store_ordered(rows),
        limit >= 1,
    ensures
        scan_visits(rows, None, limit) == rows,
{
    lemma_scan_from(rows, None, limit);
    lemma_first_after(rows, None);
    assert(rows.subrange(0, rows.len() as int) =~= rows);
}

} // verus!
