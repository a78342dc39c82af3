//! The catalog as the merger sees it: rows in the store's order, looked up by
//! title and, when the listing carries one, by release year.

use crate::batch_delete::{
    completed_progress, first_after, keyset_page, lemma_first_after, lemma_next_after_page,
    lemma_nothing_removed, lemma_sources_prefix, removed_from, removed_in, sources_in,
    store_ordered, stripped, stripped_rows, task_name_spec, BatchDeleteRun,
};
use crate::progress::{BatchDeleteProgress, BatchDeleteProgressView};
use crate::registry::{lemma_upsert_effect, lookup, TaskEntryView, TaskRegistry};
use crate::collect::{check_envelope, resolve_binding, resolve_spec, PageTally};
use crate::dto::{RemoteVideoView, VideoListResponse, VodApiListEntry};
use crate::models::Binding;
use crate::remote::{api_code_error, CollectError};
use crate::merge::{
    distinct_names, lemma_merge_idempotent, lemma_new_video_distinct_names,
    lemma_updated_video_distinct_names, merge_video, new_video_spec, updated_video_spec, WriteKind,
};
use crate::models::{opt_text, vod_views, PlaySourceView, Vod, VodView};
use crate::playlist::parse_play_urls_spec;
use vstd::prelude::*;

verus! {

/// A row is the listing's title when the names agree and, if the listing
/// has a year, the years agree too.
pub open spec fn is_match(row: VodView, name: Seq<char>, year: Option<Seq<char>>) -> bool {
    row.vod_name == name && (year is Some ==> row.vod_year == year)
}

/// Position of the first matching row, or `rows.len()`.
pub open spec fn match_position(rows: Seq<VodView>, name: Seq<char>, year: Option<Seq<char>>) -> int
    decreases rows.len(),
{
    if rows.len() == 0 {
        0
    } else if is_match(rows[0], name, year) {
        0
    } else {
        1 + match_position(rows.drop_first(), name, year)
    }
}

/// The match position lies within the rows or right behind them, no row
/// before it matches, and the row at it does.
pub proof fn lemma_match_position(rows: Seq<VodView>, name: Seq<char>, year: Option<Seq<char>>)
    ensures
        0 <= match_position(rows, name, year) <= rows.len(),
        forall|i: int| 0 <= i < match_position(rows, name, year) ==> !is_match(rows[i], name, year),
        match_position(rows, name, year) < rows.len() ==> is_match(
            rows[match_position(rows, name, year)],
            name,
            year,
        ),
    decreases rows.len(),
{
    if rows.len() > 0 && !is_match(rows[0], name, year) {
        let t = rows.drop_first();
        lemma_match_position(t, name, year);
        assert forall|i: int| 0 <= i < match_position(rows, name, year) implies !is_match(
            rows[i],
            name,
            year,
        ) by {
            if i > 0 {
                assert(rows[i] == t[i - 1]);
            }
        }
    }
}

/// A position with a matching row, or the end, and no match before it is
/// the match position.
pub proof fn lemma_match_position_is(
    rows: Seq<VodView>,
    name: Seq<char>,
    year: Option<Seq<char>>,
    k: int,
)
    requires
        0 <= k <= rows.len(),
        forall|i: int| 0 <= i < k ==> !is_match(rows[i], name, year),
        k < rows.len() ==> is_match(rows[k], name, year),
    ensures
        match_position(rows, name, year) == k,
{
    lemma_match_position(rows, name, year);
    let f = match_position(rows, name, year);
    if f < k {
        assert(is_match(rows[f], name, year));
    } else if k < f {
        assert(is_match(rows[k], name, year));
    }
}

/// The catalog after one listed video: the first matching row updated in
/// place, or a new row at the end.
pub open spec fn ingest_spec(
    rows: Seq<VodView>,
    incoming: RemoteVideoView,
    local_type_id: i32,
    now: i64,
) -> Seq<VodView> {
    let at = match_position(rows, incoming.vod_name, incoming.vod_year);
    if 0 <= at < rows.len() {
        rows.update(at, updated_video_spec(rows[at], incoming, now))
    } else {
        rows.push(new_video_spec(incoming, local_type_id, now))
    }
}

/// The catalog and the counts of a page while its videos are taken in.
pub struct PageState {
    pub rows: Seq<VodView>,
    pub success: nat,
    pub failed: nat,
}

/// The state after one listed video: taken in under the local category that
/// its category is bound to, or counted as failed, with the catalog as it
/// was, when there is no binding.
pub open spec fn page_step(
    state: PageState,
    listed: RemoteVideoView,
    bindings: Seq<Binding>,
    source_flag: Seq<char>,
    now: i64,
) -> PageState {
    match resolve_spec(bindings, source_flag, listed.type_id) {
        Some(local_type_id) => PageState {
            rows: ingest_spec(state.rows, listed, local_type_id, now),
            success: state.success + 1,
            ..state
        },
        None => PageState { failed: state.failed + 1, ..state },
    }
}

/// The state after the listed videos were taken in, one after the other.
pub open spec fn page_fold(
    rows: Seq<VodView>,
    listed: Seq<VodApiListEntry>,
    bindings: Seq<Binding>,
    source_flag: Seq<char>,
    now: i64,
) -> PageState
    decreases listed.len(),
{
    if listed.len() == 0 {
        PageState { rows, success: 0, failed: 0 }
    } else {
        page_step(
            page_fold(rows, listed.drop_last(), bindings, source_flag, now),
            listed.last()@,
            bindings,
            source_flag,
            now,
        )
    }
}

/// Every listed video is counted once: as taken in or as failed.
pub proof fn lemma_page_counts_every_video(
    rows: Seq<VodView>,
    listed: Seq<VodApiListEntry>,
    bindings: Seq<Binding>,
    source_flag: Seq<char>,
    now: i64,
)
    ensures
        page_fold(rows, listed, bindings, source_flag, now).success + page_fold(
            rows,
            listed,
            bindings,
            source_flag,
            now,
        ).failed == listed.len(),
    decreases listed.len(),
{
    if listed.len() > 0 {
        lemma_page_counts_every_video(rows, listed.drop_last(), bindings, source_flag, now);
    }
}

/// Every row holds at most one play source of each name.
pub open spec fn rows_distinct_names(rows: Seq<VodView>) -> bool {
    forall|i: int| 0 <= i < rows.len() ==> distinct_names((#[trigger] rows[i]).vod_play_urls)
}

/// A catalog whose rows hold at most one play source of each name is
/// such a catalog after an ingest too, a newly added row included.
pub proof fn lemma_ingest_keeps_distinct_names(
    rows: Seq<VodView>,
    incoming: RemoteVideoView,
    local_type_id: i32,
    now: i64,
)
    requires
        rows_distinct_names(rows),
    ensures
        rows_distinct_names(ingest_spec(rows, incoming, local_type_id, now)),
{
    let at = match_position(rows, incoming.vod_name, incoming.vod_year);
    lemma_match_position(rows, incoming.vod_name, incoming.vod_year);
    let after = ingest_spec(rows, incoming, local_type_id, now);
    lemma_new_video_distinct_names(incoming, local_type_id, now);
    if at < rows.len() {
        lemma_updated_video_distinct_names(rows[at], incoming, now);
    }
    assert forall|i: int| 0 <= i < after.len() implies distinct_names(
        (#[trigger] after[i]).vod_play_urls,
    ) by {
        if i != at {
            assert(after[i] == rows[i]);
        }
    }
}

/// Updating a row twice from one listing gives what one update gives, but
/// for the publish time of the second.
pub proof fn lemma_update_twice(row: VodView, incoming: RemoteVideoView, now: i64, again: i64)
    ensures
        updated_video_spec(updated_video_spec(row, incoming, now), incoming, again) == (VodView {
            vod_pubdate: updated_video_spec(
                updated_video_spec(row, incoming, now),
                incoming,
                again,
            ).vod_pubdate,
            ..updated_video_spec(row, incoming, now)
        }),
        again == now ==> updated_video_spec(updated_video_spec(row, incoming, now), incoming, again)
            == updated_video_spec(row, incoming, now),
{
    let sources = parse_play_urls_spec(incoming.vod_play_from, incoming.vod_play_url);
    lemma_merge_idempotent(row.vod_play_urls, sources);
}

/// Ingesting one listed video twice leaves the catalog as one ingest left
/// it: no row is added, and no row differs but in its publish time. A title
/// that was new has exactly one row afterwards.
pub proof fn lemma_ingest_twice(
    rows: Seq<VodView>,
    incoming: RemoteVideoView,
    local_type_id: i32,
    now: i64,
    again: i64,
)
    ensures
        ({
            let once = ingest_spec(rows, incoming, local_type_id, now);
            let twice = ingest_spec(once, incoming, local_type_id, again);
            &&& twice.len() == once.len()
            &&& forall|i: int|
                0 <= i < once.len() ==> #[trigger] twice[i] == (VodView {
                    vod_pubdate: twice[i].vod_pubdate,
                    ..once[i]
                })
            &&& again == now ==> twice == once
            &&& match_position(rows, incoming.vod_name, incoming.vod_year) == rows.len() ==> {
                &&& twice.len() == rows.len() + 1
                &&& forall|i: int|
                    0 <= i < twice.len() ==> (is_match(
                        #[trigger] twice[i],
                        incoming.vod_name,
                        incoming.vod_year,
                    ) <==> i == rows.len())
            }
        }),
{
    let name = incoming.vod_name;
    let year = incoming.vod_year;
    let at = match_position(rows, name, year);
    let once = ingest_spec(rows, incoming, local_type_id, now);
    lemma_match_position(rows, name, year);
    assert forall|i: int| 0 <= i < at implies !is_match(once[i], name, year) by {
        assert(once[i] == rows[i]);
    }
    lemma_match_position_is(once, name, year, at);
    let twice = ingest_spec(once, incoming, local_type_id, again);
    let sources = parse_play_urls_spec(incoming.vod_play_from, incoming.vod_play_url);
    if at < rows.len() {
        lemma_update_twice(rows[at], incoming, now, again);
    } else {
        lemma_merge_idempotent(Seq::empty(), sources);
    }
    assert(twice.len() == once.len());
    assert forall|i: int| 0 <= i < once.len() implies #[trigger] twice[i] == (VodView {
        vod_pubdate: twice[i].vod_pubdate,
        ..once[i]
    }) by {}
    if again == now {
        assert(twice =~= once);
    }
}

/// One source-scoped ingest keeps every play source of another name in
/// the matched row, in its place.
pub proof fn lemma_ingest_keeps_other_sources(
    rows: Seq<VodView>,
    incoming: RemoteVideoView,
    local_type_id: i32,
    now: i64,
    i: int,
)
    requires
        match_position(rows, incoming.vod_name, incoming.vod_year) < rows.len(),
        0 <= i < rows[match_position(
            rows,
            incoming.vod_name,
            incoming.vod_year,
        )].vod_play_urls.len(),
        !crate::merge::names_source(
            parse_play_urls_spec(incoming.vod_play_from, incoming.vod_play_url),
            rows[match_position(
                rows,
                incoming.vod_name,
                incoming.vod_year,
            )].vod_play_urls[i].source_name,
        ),
    ensures
        ({
            let at = match_position(rows, incoming.vod_name, incoming.vod_year);
            let after = ingest_spec(rows, incoming, local_type_id, now)[at];
            i < after.vod_play_urls.len() && after.vod_play_urls[i] == rows[at].vod_play_urls[i]
        }),
{
    let at = match_position(rows, incoming.vod_name, incoming.vod_year);
    lemma_match_position(rows, incoming.vod_name, incoming.vod_year);
    let sources = parse_play_urls_spec(incoming.vod_play_from, incoming.vod_play_url);
    crate::merge::lemma_merge_keeps_other_sources(rows[at].vod_play_urls, sources, i);
}

/// The row lies behind `after` in the store's order.
pub open spec fn behind(row: VodView, after: Option<u128>) -> bool {
    after is None || (row.id is Some && row.id->0 > after->0)
}

fn is_behind(row: &Vod, after: Option<u128>) -> (r: bool)
    ensures
        r == behind(row@, after),
{
    match after {
        None => true,
        Some(a) => match row.id {
            Some(id) => id > a,
            None => false,
        },
    }
}

fn same_id(a: Option<u128>, b: Option<u128>) -> (r: bool)
    ensures
        r == (a == b),
{
    match (a, b) {
        (Some(x), Some(y)) => x == y,
        (None, None) => true,
        _ => false,
    }
}

proof fn lemma_first_after_is(rows: Seq<VodView>, after: Option<u128>, k: int)
    requires
        0 <= k <= rows.len(),
        forall|i: int| 0 <= i < k ==> !behind(rows[i], after),
        k < rows.len() ==> behind(rows[k], after),
    ensures
        first_after(rows, after) == k,
    decreases rows.len(),
{
    if rows.len() > 0 && k > 0 {
        let rest = rows.drop_first();
        assert(!behind(rows[0], after));
        assert forall|i: int| 0 <= i < k - 1 implies !behind(rest[i], after) by {
            assert(rest[i] == rows[i + 1]);
        }
        lemma_first_after_is(rest, after, k - 1);
    }
}

/// Position of the first row with this id, or `rows.len()`.
pub open spec fn id_position(rows: Seq<VodView>, id: Option<u128>) -> int
    decreases rows.len(),
{
    if rows.len() == 0 {
        0
    } else if rows[0].id == id {
        0
    } else {
        1 + id_position(rows.drop_first(), id)
    }
}

proof fn lemma_id_position_is(rows: Seq<VodView>, id: Option<u128>, k: int)
    requires
        0 <= k <= rows.len(),
        forall|i: int| 0 <= i < k ==> rows[i].id != id,
        k < rows.len() ==> rows[k].id == id,
    ensures
        id_position(rows, id) == k,
    decreases rows.len(),
{
    if rows.len() > 0 && k > 0 {
        let rest = rows.drop_first();
        assert(rows[0].id != id);
        assert forall|i: int| 0 <= i < k - 1 implies rest[i].id != id by {
            assert(rest[i] == rows[i + 1]);
        }
        lemma_id_position_is(rest, id, k - 1);
    }
}

/// In the store's order a row is the first, and the only one, with its id.
proof fn lemma_id_is_position(rows: Seq<VodView>, k: int)
    requires
        store_ordered(rows),
        0 <= k < rows.len(),
    ensures
        id_position(rows, rows[k].id) == k,
{
    assert forall|i: int| 0 <= i < k implies rows[i].id != rows[k].id by {
        assert(rows[i].id->0 < rows[k].id->0);
    }
    lemma_id_position_is(rows, rows[k].id, k);
}

/// Rows with the same ids in the same places are asked for from the same
/// place.
proof fn lemma_first_after_by_ids(a: Seq<VodView>, b: Seq<VodView>, after: Option<u128>)
    requires
        a.len() == b.len(),
        forall|i: int| 0 <= i < a.len() ==> a[i].id == b[i].id,
    ensures
        first_after(a, after) == first_after(b, after),
    decreases a.len(),
{
    if a.len() > 0 {
        assert(a[0].id == b[0].id);
        let ra = a.drop_first();
        let rb = b.drop_first();
        assert forall|i: int| 0 <= i < ra.len() implies ra[i].id == rb[i].id by {
            assert(ra[i] == a[i + 1]);
            assert(rb[i] == b[i + 1]);
        }
        lemma_first_after_by_ids(ra, rb, after);
    }
}

/// The catalog while a removal is under way: the first `done` rows are
/// stripped, the others are as they were.
pub open spec fn partly_stripped(rows: Seq<VodView>, name: Seq<char>, done: int) -> Seq<VodView> {
    Seq::new(
        rows.len(),
        |i: int|
            if i < done {
                stripped(rows[i], name)
            } else {
                rows[i]
            },
    )
}

/// Every task but `id` is in `after` as it is in `before`.
pub open spec fn others_untouched(
    after: Seq<TaskEntryView<BatchDeleteProgressView>>,
    before: Seq<TaskEntryView<BatchDeleteProgressView>>,
    id: Seq<char>,
) -> bool {
    forall|other: Seq<char>| other != id ==> lookup(after, other) == lookup(before, other)
}

/// An in-memory catalog: rows in insertion order.
pub struct Catalog {
    pub rows: Vec<Vod>,
}

impl View for Catalog {
    type V = Seq<VodView>;

    open spec fn view(&self) -> Seq<VodView> {
        vod_views(self.rows@)
    }
}

fn same_opt(a: &Option<String>, b: &Option<String>) -> (r: bool)
    ensures
        r == (opt_text(*a) == opt_text(*b)),
{
    match (a, b) {
        (Some(x), Some(y)) => *x == *y,
        (None, None) => true,
        _ => false,
    }
}

impl Catalog {
    /// A catalog without rows.
    pub fn new() -> (out: Catalog)
        ensures
            out@ == Seq::<VodView>::empty(),
    {
        let out = Catalog { rows: Vec::new() };
        assert(out@ =~= Seq::<VodView>::empty());
        out
    }

    /// How many rows the catalog holds.
    pub fn len(&self) -> (n: usize)
        ensures
            n == self@.len(),
    {
        self.rows.len()
    }

    /// The first row that is the listing's title.
    pub fn find_match(&self, name: &String, year: &Option<String>) -> (out: Option<usize>)
        ensures
            match out {
                Some(at) => at == match_position(self@, name@, opt_text(*year)) && at < self@.len(),
                None => match_position(self@, name@, opt_text(*year)) == self@.len(),
            },
    {
        let mut i: usize = 0;
        while i < self.rows.len()
            invariant
                i <= self.rows.len(),
                forall|k: int| 0 <= k < i ==> !is_match(self@[k], name@, opt_text(*year)),
            decreases self.rows.len() - i,
        {
            let row = &self.rows[i];
            let year_ok = match year {
                Some(_) => same_opt(&row.vod_year, year),
                None => true,
            };
            if row.vod_name == *name && year_ok {
                proof {
                    lemma_match_position_is(self@, name@, opt_text(*year), i as int);
                }
                return Some(i);
            }
            i = i + 1;
        }
        proof {
            lemma_match_position_is(self@, name@, opt_text(*year), i as int);
        }
        None
    }

    /// The rows that a query by key returns: the first `limit` rows from the
    /// first whose id is greater than `after`.
    pub fn page_after(&self, after: Option<u128>, limit: usize) -> (out: Vec<Vod>)
        ensures
            vod_views(out@) == keyset_page(self@, after, limit as nat),
    {
        let n = self.rows.len();
        let mut from: usize = 0;
        while from < n && !is_behind(&self.rows[from], after)
            invariant
                n == self.rows.len(),
                from <= n,
                forall|k: int| 0 <= k < from ==> !behind(self@[k], after),
            decreases n - from,
        {
            from = from + 1;
        }
        proof {
            lemma_first_after_is(self@, after, from as int);
        }
        let to: usize = if limit < n - from {
            from + limit
        } else {
            n
        };
        let mut out: Vec<Vod> = Vec::new();
        let mut i: usize = from;
        while i < to
            invariant
                from <= i <= to <= n,
                n == self.rows.len(),
                vod_views(out@) == self@.subrange(from as int, i as int),
            decreases to - i,
        {
            let ghost before = vod_views(out@);
            let row = self.rows[i].duplicate();
            out.push(row);
            assert(vod_views(out@) =~= before.push(row@));
            i = i + 1;
        }
        out
    }

    /// Puts `row` in the place of the row that has its id, if there is one.
    /// Says whether there was.
    pub fn write_back(&mut self, row: Vod) -> (found: bool)
        ensures
            found == (id_position(old(self)@, row@.id) < old(self)@.len()),
            final(self)@ == if found {
                old(self)@.update(id_position(old(self)@, row@.id), row@)
            } else {
                old(self)@
            },
    {
        let ghost before = self@;
        let mut i: usize = 0;
        while i < self.rows.len()
            invariant
                i <= self.rows.len(),
                self@ == before,
                before == old(self)@,
                forall|k: int| 0 <= k < i ==> self@[k].id != row@.id,
            decreases self.rows.len() - i,
        {
            if same_id(self.rows[i].id, row.id) {
                let ghost placed = row@;
                proof {
                    assert(before[i as int] == self.rows@[i as int]@);
                    assert(before[i as int].id == placed.id);
                    lemma_id_position_is(before, placed.id, i as int);
                }
                self.rows.set(i, row);
                assert(self@ =~= before.update(i as int, placed));
                return true;
            }
            i = i + 1;
        }
        proof {
            lemma_id_position_is(before, row@.id, i as int);
        }
        false
    }

    /// Removes the play sources called `source_name` from the whole
    /// catalog, as task `task_id`: page by page by key, `batch_size` rows at
    /// a time, until a page comes back short. Every row is worked through
    /// exactly once, and the registry ends with the task as completed.
    /// Returns the run and how many pages were asked for: one more than
    /// there are full pages.
    pub fn remove_source(
        &mut self,
        task_id: String,
        source_name: String,
        batch_size: usize,
        registry: &mut TaskRegistry<BatchDeleteProgress>,
    ) -> (out: (BatchDeleteRun, usize))
        requires
            store_ordered(old(self)@),
            batch_size >= 1,
            sources_in(old(self)@) <= u64::MAX,
            old(self)@.len() < usize::MAX,
        ensures
            final(self)@ == stripped_rows(old(self)@, source_name@),
            out.1 == old(self)@.len() as int / (batch_size as int) + 1,
            ({
                let run = out.0;
                &&& run@.done
                &&& run@.task_id == task_id@
                &&& run@.source_name == source_name@
                &&& run@.processed_count == old(self)@.len()
                &&& run@.total_count == old(self)@.len()
                &&& run@.deleted_count == removed_in(old(self)@, source_name@)
                &&& lookup(final(registry)@, task_id@) is Some
                &&& lookup(final(registry)@, task_id@)->0.progress == completed_progress(
                    run@.processed_count,
                    run@.deleted_count,
                    run@.total_count,
                )
                &&& lookup(final(registry)@, task_id@)->0.name == task_name_spec(source_name@)
            }),
            others_untouched(final(registry)@, old(registry)@, task_id@),
    {
        let ghost orig = self@;
        let ghost name = source_name@;
        let ghost id = task_id@;
        let ghost registry_before = registry@;
        let n = self.rows.len();
        let mut run = BatchDeleteRun::begin(task_id, source_name, n as u64, registry);
        let mut queries: usize = 0;
        proof {
            lemma_upsert_effect(
                registry_before,
                id,
                crate::batch_delete::begun_progress(n as u64),
                task_name_spec(name),
            );
            lemma_first_after(orig, None);
            assert(self@ =~= partly_stripped(orig, name, 0));
            assert(orig.subrange(0, 0) =~= Seq::<VodView>::empty());
        }
        while !run.done
            invariant
                n == orig.len(),
                store_ordered(orig),
                batch_size >= 1,
                sources_in(orig) <= u64::MAX,
                run@.task_id == id,
                run@.source_name == name,
                run@.total_count == n,
                0 <= run@.processed_count <= n,
                n < usize::MAX,
                !run@.done ==> queries == run@.processed_count as int / (batch_size as int)
                    && run@.processed_count as int % (batch_size as int) == 0,
                run@.done ==> queries == n as int / (batch_size as int) + 1,
                !run@.done ==> first_after(orig, run@.last_id) == run@.processed_count,
                run@.done ==> run@.processed_count == n && lookup(registry@, id) is Some && lookup(
                    registry@,
                    id,
                )->0.progress == completed_progress(
                    run@.processed_count,
                    run@.deleted_count,
                    run@.total_count,
                ) && lookup(registry@, id)->0.name == task_name_spec(name),
                run@.deleted_count == removed_in(
                    orig.subrange(0, run@.processed_count as int),
                    name,
                ),
                self@ == partly_stripped(orig, name, run@.processed_count as int),
                others_untouched(registry@, registry_before, id),
            decreases
                    n - run@.processed_count + if run@.done {
                        0int
                    } else {
                        1int
                    },
        {
            let ghost start = run@.processed_count as int;
            let ghost registry_at_page = registry@;
            let ghost run_at_page = run@;
            proof {
                assert forall|i: int| 0 <= i < n implies self@[i].id == orig[i].id by {}
                lemma_first_after_by_ids(self@, orig, run@.last_id);
            }
            let page = self.page_after(run.last_id, batch_size);
            queries = queries + 1;
            let ghost shown = vod_views(page@);
            proof {
                assert(shown == self@.subrange(
                    start,
                    if start + batch_size < n {
                        start + batch_size
                    } else {
                        n as int
                    },
                ));
                assert forall|j: int| 0 <= j < shown.len() implies shown[j] == orig[start + j] by {
                    assert(shown[j] == self@[start + j]);
                }
                assert(shown =~= keyset_page(orig, run@.last_id, batch_size as nat));
            }
            if !run.begin_page(&page, registry) {
                proof {
                    lemma_upsert_effect(
                        registry_at_page,
                        id,
                        completed_progress(
                            run_at_page.processed_count,
                            run_at_page.deleted_count,
                            run_at_page.total_count,
                        ),
                        task_name_spec(name),
                    );
                }
            } else {
                proof {
                    assert(shown.last() == page@.last()@);
                }
                let mut j: usize = 0;
                while j < page.len()
                    invariant
                        n == orig.len(),
                        store_ordered(orig),
                        sources_in(orig) <= u64::MAX,
                        0 <= start,
                        start + page.len() <= n,
                        j <= page.len(),
                        shown == vod_views(page@),
                        forall|k: int| 0 <= k < shown.len() ==> shown[k] == orig[start + k],
                        !run@.done,
                        run@.task_id == id,
                        run@.source_name == name,
                        run@.total_count == n,
                        run@.last_id == shown.last().id,
                        run@.processed_count == start + j,
                        run@.deleted_count == removed_in(orig.subrange(0, start + j), name),
                        self@ == partly_stripped(orig, name, start + j),
                        others_untouched(registry@, registry_before, id),
                    decreases page.len() - j,
                {
                    let ghost at = start + j;
                    let ghost before_row = registry@;
                    let mut row = page[j].duplicate();
                    proof {
                        assert(row@ == shown[j as int]);
                        assert(row@ == orig[at]);
                        lemma_sources_prefix(orig, name, at);
                        lemma_sources_prefix(orig, name, at + 1);
                        assert(orig.subrange(0, at + 1).drop_last() =~= orig.subrange(0, at));
                        assert(orig.subrange(0, at + 1).last() == orig[at]);
                    }
                    let changed = run.absorb_row(&mut row, registry);
                    proof {
                        if run@.processed_count % crate::batch_delete::PROGRESS_EVERY == 0 {
                            lemma_upsert_effect(
                                before_row,
                                id,
                                crate::batch_delete::running_progress(
                                    run@.processed_count,
                                    run@.deleted_count,
                                    run@.total_count,
                                ),
                                task_name_spec(name),
                            );
                        }
                        assert forall|i: int| 0 <= i < n implies self@[i].id == orig[i].id by {}
                        assert(store_ordered(self@)) by {
                            assert forall|a: int, b: int| 0 <= a < b < self@.len() implies (
                            #[trigger] self@[a]).id->0 < (#[trigger] self@[b]).id->0 by {
                                assert(orig[a].id->0 < orig[b].id->0);
                            }
                            assert forall|a: int| 0 <= a < self@.len() implies (
                            #[trigger] self@[a]).id is Some by {
                                assert(orig[a].id is Some);
                            }
                        }
                        lemma_id_is_position(self@, at);
                    }
                    if changed {
                        let found = self.write_back(row);
                        assert(found);
                        assert(self@ =~= partly_stripped(orig, name, at + 1));
                    } else {
                        proof {
                            lemma_nothing_removed(orig[at].vod_play_urls, name);
                            assert(stripped(orig[at], name) == orig[at]);
                            assert(self@ =~= partly_stripped(orig, name, at + 1));
                        }
                    }
                    j = j + 1;
                }
                let ghost registry_at_end = registry@;
                let ghost run_at_end = run@;
                proof {
                    lemma_next_after_page(orig, run_at_page.last_id, batch_size as nat);
                }
                let over = run.end_page(page.len(), batch_size, registry);
                proof {
                    let b = batch_size as int;
                    let r = page.len() as int;
                    assert((start + r) / b + 1 == start / b + 1 + if r == b {
                        1int
                    } else {
                        0int
                    } && (r == b ==> (start + r) % b == 0)) by (nonlinear_arith)
                        requires
                            b >= 1,
                            0 <= r <= b,
                            start >= 0,
                            start % b == 0,
                    ;
                    if over {
                        lemma_upsert_effect(
                            registry_at_end,
                            id,
                            completed_progress(
                                run_at_end.processed_count,
                                run_at_end.deleted_count,
                                run_at_end.total_count,
                            ),
                            task_name_spec(name),
                        );
                    }
                }
            }
        }
        proof {
            assert(orig.subrange(0, n as int) =~= orig);
            assert(self@ =~= stripped_rows(orig, name));
        }
        (run, queries)
    }

    /// Takes a page of a listing in. An envelope whose code is not 1 fails
    /// the page and leaves the catalog alone. Else every listed video is
    /// taken in under the local category that `bindings` give for it; one
    /// without a binding is counted as failed and the page goes on.
    pub fn collect_listing(
        &mut self,
        listing: &VideoListResponse,
        bindings: &Vec<Binding>,
        source_flag: &str,
        now: i64,
    ) -> (out: Result<PageTally, CollectError>)
        requires
            listing.list.len() <= u32::MAX,
        ensures
            listing.code != 1 ==> out is Err && out->Err_0@ == api_code_error(listing.code)
                && final(self)@ == old(self)@,
            listing.code == 1 ==> out is Ok && ({
                let end = page_fold(old(self)@, listing.list@, bindings@, source_flag@, now);
                &&& final(self)@ == end.rows
                &&& out->Ok_0.success == end.success
                &&& out->Ok_0.failed == end.failed
            }),
    {
        match check_envelope(listing) {
            Err(cause) => {
                return Err(cause);
            },
            Ok(_) => {},
        }
        let mut tally = PageTally::new();
        let mut i: usize = 0;
        let ghost start = self@;
        assert(listing.list@.subrange(0, 0) =~= Seq::<VodApiListEntry>::empty());
        while i < listing.list.len()
            invariant
                i <= listing.list.len() <= u32::MAX,
                tally.success + tally.failed == i,
                ({
                    let so_far = page_fold(
                        start,
                        listing.list@.subrange(0, i as int),
                        bindings@,
                        source_flag@,
                        now,
                    );
                    &&& self@ == so_far.rows
                    &&& tally.success == so_far.success
                    &&& tally.failed == so_far.failed
                }),
            decreases listing.list.len() - i,
        {
            let listed = &listing.list[i];
            proof {
                let next = listing.list@.subrange(0, i + 1);
                assert(next.drop_last() =~= listing.list@.subrange(0, i as int));
                assert(next.last() == *listed);
            }
            match resolve_binding(bindings, source_flag, listed.type_id) {
                Ok(local_type_id) => {
                    self.ingest(listed, local_type_id, now);
                    tally.record(true);
                },
                Err(_) => {
                    tally.record(false);
                },
            }
            i = i + 1;
        }
        assert(listing.list@.subrange(0, listing.list.len() as int) =~= listing.list@);
        Ok(tally)
    }

    /// Takes one listed video in: merges it into the first matching row or
    /// adds a row for it.
    pub fn ingest(&mut self, incoming: &VodApiListEntry, local_type_id: i32, now: i64) -> (kind:
        WriteKind)
        ensures
            final(self)@ == ingest_spec(old(self)@, incoming@, local_type_id, now),
            kind == crate::merge::write_kind_spec(
                if match_position(old(self)@, incoming@.vod_name, incoming@.vod_year) < old(
                    self,
                )@.len() {
                    Some(
                        old(self)@[match_position(
                            old(self)@,
                            incoming@.vod_name,
                            incoming@.vod_year,
                        )],
                    )
                } else {
                    None
                },
                incoming@,
            ),
    {
        let ghost before = self@;
        match self.find_match(&incoming.vod_name, &incoming.vod_year) {
            Some(at) => {
                let row = self.rows[at].duplicate();
                let (merged, kind) = merge_video(Some(row), incoming, local_type_id, now);
                self.rows.set(at, merged);
                assert(self@ =~= before.update(at as int, merged@));
                kind
            },
            None => {
                let (row, kind) = merge_video(None, incoming, local_type_id, now);
                self.rows.push(row);
                assert(self@ =~= before.push(row@));
                kind
            },
        }
    }
}

} // verus!
