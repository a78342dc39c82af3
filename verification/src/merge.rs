//! The video merger: how a listed video joins the catalog. A new title
//! becomes a new row; a known one has its play sources replaced by name, and
//! sources of other names stay as they are.

use crate::dto::{RemoteVideoView, VodApiListEntry};
use crate::models::{
    copy_opt, source_views, PlaySource, PlaySourceView, Vod, VodView,
};
use crate::playlist::{parse_play_urls, parse_play_urls_spec};
use vstd::prelude::*;

verus! {

/// Position of the first source called `name`, or `list.len()`.
pub open spec fn source_position(list: Seq<PlaySourceView>, name: Seq<char>) -> int
    decreases list.len(),
{
    if list.len() == 0 {
        0
    } else if list[0].source_name == name {
        0
    } else {
        1 + source_position(list.drop_first(), name)
    }
}

/// The position lies within the list or right behind it, no source before
/// it has the name, and the source at it does.
pub proof fn lemma_source_position(list: Seq<PlaySourceView>, name: Seq<char>)
    ensures
        0 <= source_position(list, name) <= list.len(),
        forall|i: int| 0 <= i < source_position(list, name) ==> list[i].source_name != name,
        source_position(list, name) < list.len() ==> list[source_position(
            list,
            name,
        )].source_name == name,
    decreases list.len(),
{
    if list.len() > 0 && list[0].source_name != name {
        let t = list.drop_first();
        lemma_source_position(t, name);
        assert forall|i: int| 0 <= i < source_position(list, name) implies list[i].source_name
            != name by {
            if i > 0 {
                assert(list[i] == t[i - 1]);
            }
        }
    }
}

/// A place that holds the name, or the end, with no such source before it
/// is the position of the name.
pub proof fn lemma_source_position_is(list: Seq<PlaySourceView>, name: Seq<char>, k: int)
    requires
        0 <= k <= list.len(),
        forall|i: int| 0 <= i < k ==> list[i].source_name != name,
        k < list.len() ==> list[k].source_name == name,
    ensures
        source_position(list, name) == k,
{
    lemma_source_position(list, name);
    let f = source_position(list, name);
    if f < k {
        assert(list[f].source_name == name);
    } else if k < f {
        assert(list[k].source_name == name);
    }
}

/// `list` with `source` in the place of the first source of its name, or at
/// the end when the name is new.
pub open spec fn upsert_source(list: Seq<PlaySourceView>, source: PlaySourceView) -> Seq<
    PlaySourceView,
> {
    let at = source_position(list, source.source_name);
    if 0 <= at < list.len() {
        list.update(at, source)
    } else {
        list.push(source)
    }
}

/// `existing` after each of `incoming`, in order, replaced the source of its
/// name or was appended.
pub open spec fn merge_sources(
    existing: Seq<PlaySourceView>,
    incoming: Seq<PlaySourceView>,
) -> Seq<PlaySourceView>
    decreases incoming.len(),
{
    if incoming.len() == 0 {
        existing
    } else {
        merge_sources(upsert_source(existing, incoming[0]), incoming.drop_first())
    }
}

/// No two sources share a name.
pub open spec fn distinct_names(list: Seq<PlaySourceView>) -> bool {
    forall|i: int, j: int|
        0 <= i < j < list.len() ==> (#[trigger] list[i]).source_name != (
        #[trigger] list[j]).source_name
}

/// `incoming` has a source of this name that equals `value`.
pub open spec fn from_incoming(
    incoming: Seq<PlaySourceView>,
    name: Seq<char>,
    value: PlaySourceView,
) -> bool {
    exists|k: int|
        0 <= k < incoming.len() && (#[trigger] incoming[k]).source_name == name && incoming[k]
            == value
}

/// `incoming` has a source of this name.
pub open spec fn names_source(incoming: Seq<PlaySourceView>, name: Seq<char>) -> bool {
    exists|k: int| 0 <= k < incoming.len() && (#[trigger] incoming[k]).source_name == name
}

proof fn lemma_upsert_prefix(list: Seq<PlaySourceView>, source: PlaySourceView)
    ensures
        upsert_source(list, source).len() >= list.len(),
        forall|i: int|
            0 <= i < list.len() ==> {
                let u = #[trigger] upsert_source(list, source)[i];
                u.source_name == list[i].source_name && (u == list[i] || (u == source
                    && source.source_name == list[i].source_name))
            },
        ({
            let at = source_position(upsert_source(list, source), source.source_name);
            0 <= at < upsert_source(list, source).len() && upsert_source(list, source)[at] == source
        }),
{
    lemma_source_position(list, source.source_name);
    let at = source_position(list, source.source_name);
    let u = upsert_source(list, source);
    lemma_source_position_is(u, source.source_name, at);
}

/// Merging never shortens the list nor renames a place, and each place holds
/// what it held or an incoming source of the same name.
pub proof fn lemma_merge_prefix(existing: Seq<PlaySourceView>, incoming: Seq<PlaySourceView>)
    ensures
        merge_sources(existing, incoming).len() >= existing.len(),
        forall|i: int|
            0 <= i < existing.len() ==> {
                let m = #[trigger] merge_sources(existing, incoming)[i];
                m.source_name == existing[i].source_name && (m == existing[i] || from_incoming(
                    incoming,
                    existing[i].source_name,
                    m,
                ))
            },
    decreases incoming.len(),
{
    if incoming.len() > 0 {
        let u = upsert_source(existing, incoming[0]);
        let rest = incoming.drop_first();
        lemma_upsert_prefix(existing, incoming[0]);
        lemma_merge_prefix(u, rest);
        let merged = merge_sources(existing, incoming);
        assert(merged == merge_sources(u, rest));
        assert forall|i: int| 0 <= i < existing.len() implies ({
            let m = #[trigger] merged[i];
            m.source_name == existing[i].source_name && (m == existing[i] || from_incoming(
                incoming,
                existing[i].source_name,
                m,
            ))
        }) by {
            let m = merged[i];
            let name = existing[i].source_name;
            assert(u[i].source_name == name);
            assert(m.source_name == u[i].source_name);
            if m == u[i] {
                if u[i] != existing[i] {
                    assert(incoming[0].source_name == name && incoming[0] == m);
                }
            } else {
                assert(from_incoming(rest, name, m));
                let k = choose|k: int|
                    0 <= k < rest.len() && (#[trigger] rest[k]).source_name == name && rest[k] == m;
                assert(incoming[k + 1] == rest[k]);
                assert(incoming[k + 1].source_name == name && incoming[k + 1] == m);
            }
        }
    }
}

/// A source whose name the payload does not carry is untouched by the merge,
/// and stays in its place.
pub proof fn lemma_merge_keeps_other_sources(
    existing: Seq<PlaySourceView>,
    incoming: Seq<PlaySourceView>,
    i: int,
)
    requires
        0 <= i < existing.len(),
        !names_source(incoming, existing[i].source_name),
    ensures
        i < merge_sources(existing, incoming).len(),
        merge_sources(existing, incoming)[i] == existing[i],
{
    lemma_merge_prefix(existing, incoming);
    let m = merge_sources(existing, incoming)[i];
    if m != existing[i] {
        let k = choose|k: int|
            0 <= k < incoming.len() && (#[trigger] incoming[k]).source_name
                == existing[i].source_name && incoming[k] == m;
        assert(incoming[k].source_name == existing[i].source_name);
    }
}

proof fn lemma_position_of_prefix_name(
    shorter: Seq<PlaySourceView>,
    longer: Seq<PlaySourceView>,
    name: Seq<char>,
)
    requires
        shorter.len() <= longer.len(),
        forall|i: int| 0 <= i < shorter.len() ==> longer[i].source_name == shorter[i].source_name,
        source_position(shorter, name) < shorter.len(),
    ensures
        source_position(longer, name) == source_position(shorter, name),
{
    lemma_source_position(shorter, name);
    let at = source_position(shorter, name);
    assert forall|i: int| 0 <= i < at implies longer[i].source_name != name by {
        assert(shorter[i].source_name != name);
    }
    lemma_source_position_is(longer, name, at);
}

/// A list without a repeated name has none after another source is put in
/// or replaced.
pub proof fn lemma_upsert_keeps_distinct_names(list: Seq<PlaySourceView>, source: PlaySourceView)
    requires
        distinct_names(list),
    ensures
        distinct_names(upsert_source(list, source)),
{
    lemma_source_position(list, source.source_name);
    let at = source_position(list, source.source_name);
    let after = upsert_source(list, source);
    assert forall|i: int, j: int| 0 <= i < j < after.len() implies (#[trigger] after[i]).source_name
        != (#[trigger] after[j]).source_name by {
        if at < list.len() {
            assert(after[i].source_name == list[i].source_name);
            assert(after[j].source_name == list[j].source_name);
        } else if j < list.len() {
            assert(after[i] == list[i]);
            assert(after[j] == list[j]);
        } else {
            assert(after[i] == list[i]);
        }
    }
}

/// A row that holds at most one play source of each name still does after a
/// merge, whatever is merged into it.
pub proof fn lemma_merge_keeps_distinct_names(
    existing: Seq<PlaySourceView>,
    incoming: Seq<PlaySourceView>,
)
    requires
        distinct_names(existing),
    ensures
        distinct_names(merge_sources(existing, incoming)),
    decreases incoming.len(),
{
    if incoming.len() > 0 {
        lemma_upsert_keeps_distinct_names(existing, incoming[0]);
        lemma_merge_keeps_distinct_names(
            upsert_source(existing, incoming[0]),
            incoming.drop_first(),
        );
    }
}

/// `incoming[k]` is the last source of its name.
pub open spec fn is_last_of_name(incoming: Seq<PlaySourceView>, k: int) -> bool {
    &&& 0 <= k < incoming.len()
    &&& forall|later: int|
        k < later < incoming.len() ==> (#[trigger] incoming[later]).source_name
            != incoming[k].source_name
}

/// `incoming` has a source of this name at `from` or later.
pub open spec fn named_from(incoming: Seq<PlaySourceView>, name: Seq<char>, from: int) -> bool {
    exists|k: int| from <= k < incoming.len() && (#[trigger] incoming[k]).source_name == name
}

/// The list holds a source of each incoming name, and the first of each
/// name is the last incoming source of that name.
pub open spec fn settled(list: Seq<PlaySourceView>, incoming: Seq<PlaySourceView>) -> bool {
    &&& forall|k: int|
        0 <= k < incoming.len() ==> 0 <= source_position(
            list,
            (#[trigger] incoming[k]).source_name,
        ) < list.len()
    &&& forall|k: int|
        is_last_of_name(incoming, k) ==> list[source_position(
            list,
            (#[trigger] incoming[k]).source_name,
        )] == incoming[k]
}

/// A merge leaves the list settled for what was merged.
pub proof fn lemma_merge_settles(existing: Seq<PlaySourceView>, incoming: Seq<PlaySourceView>)
    ensures
        settled(merge_sources(existing, incoming), incoming),
    decreases incoming.len(),
{
    if incoming.len() > 0 {
        let first = incoming[0];
        let u = upsert_source(existing, first);
        let rest = incoming.drop_first();
        let merged = merge_sources(existing, incoming);
        assert(merged == merge_sources(u, rest));
        lemma_merge_settles(u, rest);
        lemma_upsert_prefix(existing, first);
        lemma_merge_prefix(u, rest);
        lemma_position_of_prefix_name(u, merged, first.source_name);
        let p = source_position(u, first.source_name);
        assert forall|k: int| 0 <= k < incoming.len() implies 0 <= source_position(
            merged,
            (#[trigger] incoming[k]).source_name,
        ) < merged.len() by {
            if k > 0 {
                assert(incoming[k] == rest[k - 1]);
            }
        }
        assert forall|k: int| is_last_of_name(incoming, k) implies merged[source_position(
            merged,
            (#[trigger] incoming[k]).source_name,
        )] == incoming[k] by {
            if k > 0 {
                assert(incoming[k] == rest[k - 1]);
                assert(is_last_of_name(rest, k - 1)) by {
                    assert forall|later: int| k - 1 < later < rest.len() implies (
                    #[trigger] rest[later]).source_name != rest[k - 1].source_name by {
                        assert(rest[later] == incoming[later + 1]);
                    }
                }
            } else {
                let m = merged[p];
                if m != u[p] {
                    let j = choose|j: int|
                        0 <= j < rest.len() && (#[trigger] rest[j]).source_name
                            == u[p].source_name && rest[j] == m;
                    assert(rest[j] == incoming[j + 1]);
                    assert(incoming[j + 1].source_name != incoming[0].source_name);
                }
            }
        }
    }
}

/// Merging into a list what it is settled for gives the list back, even
/// when the first sources of names that are still to come hold something
/// else of the same name.
proof fn lemma_settled_absorbs_from(
    list: Seq<PlaySourceView>,
    current: Seq<PlaySourceView>,
    incoming: Seq<PlaySourceView>,
    from: int,
)
    requires
        settled(list, incoming),
        0 <= from <= incoming.len(),
        current.len() == list.len(),
        forall|i: int| 0 <= i < list.len() ==> current[i].source_name == list[i].source_name,
        forall|i: int|
            0 <= i < list.len() ==> #[trigger] current[i] == list[i] || (source_position(
                list,
                list[i].source_name,
            ) == i && named_from(incoming, list[i].source_name, from)),
    ensures
        merge_sources(current, incoming.subrange(from, incoming.len() as int)) == list,
    decreases incoming.len() - from,
{
    let rest = incoming.subrange(from, incoming.len() as int);
    if from == incoming.len() {
        assert forall|i: int| 0 <= i < list.len() implies current[i] == list[i] by {
            if current[i] != list[i] {
                assert(named_from(incoming, list[i].source_name, from));
            }
        }
        assert(current =~= list);
    } else {
        let r = incoming[from];
        assert(rest[0] == r);
        assert(rest.drop_first() =~= incoming.subrange(from + 1, incoming.len() as int));
        lemma_position_of_prefix_name(list, current, r.source_name);
        let p = source_position(list, r.source_name);
        lemma_source_position(list, r.source_name);
        let next = upsert_source(current, r);
        assert(next == current.update(p, r));
        assert forall|i: int| 0 <= i < list.len() implies #[trigger] next[i] == list[i] || (
        source_position(list, list[i].source_name) == i && named_from(
            incoming,
            list[i].source_name,
            from + 1,
        )) by {
            if i != p {
                assert(next[i] == current[i]);
                if current[i] != list[i] {
                    let k = choose|k: int|
                        from <= k < incoming.len() && (#[trigger] incoming[k]).source_name
                            == list[i].source_name;
                    if k == from {
                        assert(source_position(list, r.source_name) == i);
                    }
                    assert(incoming[k].source_name == list[i].source_name);
                }
            } else if !named_from(incoming, r.source_name, from + 1) {
                assert(is_last_of_name(incoming, from)) by {
                    assert forall|later: int| from < later < incoming.len() implies (
                    #[trigger] incoming[later]).source_name != incoming[from].source_name by {
                        if incoming[later].source_name == r.source_name {
                            assert(named_from(incoming, r.source_name, from + 1));
                        }
                    }
                }
                assert(list[p] == incoming[from]);
            }
        }
        lemma_settled_absorbs_from(list, next, incoming, from + 1);
    }
}

/// Merging the same payload a second time changes nothing, whatever the
/// payload.
pub proof fn lemma_merge_idempotent(existing: Seq<PlaySourceView>, incoming: Seq<PlaySourceView>)
    ensures
        merge_sources(merge_sources(existing, incoming), incoming) == merge_sources(
            existing,
            incoming,
        ),
{
    let merged = merge_sources(existing, incoming);
    lemma_merge_settles(existing, incoming);
    lemma_settled_absorbs_from(merged, merged, incoming, 0);
    assert(incoming.subrange(0, incoming.len() as int) =~= incoming);
}

/// Position of the first source called `name`, or `list.len()`.
pub fn find_source(list: &Vec<PlaySource>, name: &String) -> (at: usize)
    ensures
        at == source_position(source_views(list@), name@),
        at <= list.len(),
{
    let mut i: usize = 0;
    while i < list.len() && !(list[i].source_name == *name)
        invariant
            i <= list.len(),
            forall|k: int| 0 <= k < i ==> source_views(list@)[k].source_name != name@,
        decreases list.len() - i,
    {
        i = i + 1;
    }
    proof {
        lemma_source_position_is(source_views(list@), name@, i as int);
    }
    i
}

/// Replaces or appends each incoming source by name. Says whether anything
/// was merged.
pub fn merge_play_sources(existing: &mut Vec<PlaySource>, incoming: &Vec<PlaySource>) -> (updated:
    bool)
    ensures
        source_views(final(existing)@) == merge_sources(
            source_views(old(existing)@),
            source_views(incoming@),
        ),
        updated == (incoming.len() > 0),
{
    let ghost all = source_views(incoming@);
    let mut i: usize = 0;
    assert(all.subrange(0, all.len() as int) == all);
    while i < incoming.len()
        invariant
            i <= incoming.len(),
            all == source_views(incoming@),
            merge_sources(source_views(old(existing)@), all) == merge_sources(
                source_views(existing@),
                all.subrange(i as int, all.len() as int),
            ),
        decreases incoming.len() - i,
    {
        let source = incoming[i].duplicate();
        let ghost before = source_views(existing@);
        let ghost rest = all.subrange(i as int, all.len() as int);
        let at = find_source(existing, &source.source_name);
        proof {
            assert(rest[0] == source@);
            assert(rest.drop_first() == all.subrange(i + 1, all.len() as int));
        }
        if at < existing.len() {
            existing.set(at, source);
            assert(source_views(existing@) =~= before.update(at as int, source@));
        } else {
            existing.push(source);
            assert(source_views(existing@) =~= before.push(source@));
        }
        i = i + 1;
    }
    incoming.len() > 0
}

/// What the store is to do with a merged row.
#[derive(Debug, Clone, Copy, PartialEq, Eq, Structural)]
pub enum WriteKind {
    /// The title is new: add the row.
    Insert,
    /// The row changed: replace the stored one.
    Replace,
    /// The listing carried no payload: leave the stored row alone.
    Unchanged,
}

/// The status a listing gives, or 1 when it gives none.
pub open spec fn status_or_default(status: Option<i32>) -> i32 {
    match status {
        Some(s) => s,
        None => 1,
    }
}

/// The row for a title that the catalog does not hold yet: the listing's
/// metadata, counters at zero, and its play sources, one for each name: of
/// a name that the listing declares twice the later one stands, in the
/// place of the first.
pub open spec fn new_video_spec(incoming: RemoteVideoView, local_type_id: i32, now: i64) -> VodView {
    VodView {
        id: None,
        vod_name: incoming.vod_name,
        type_id: local_type_id,
        vod_status: status_or_default(incoming.vod_status),
        vod_class: incoming.vod_class,
        vod_pic: incoming.vod_pic,
        vod_actor: incoming.vod_actor,
        vod_director: incoming.vod_director,
        vod_remarks: Some(incoming.vod_remarks),
        vod_pubdate: now,
        vod_area: incoming.vod_area,
        vod_lang: incoming.vod_lang,
        vod_year: incoming.vod_year,
        vod_content: incoming.vod_content,
        vod_hits: Some(0i32),
        vod_hits_day: Some(0i32),
        vod_hits_week: Some(0i32),
        vod_hits_month: Some(0i32),
        vod_score: Some(zero_score()),
        vod_play_urls: merge_sources(
            Seq::empty(),
            parse_play_urls_spec(incoming.vod_play_from, incoming.vod_play_url),
        ),
    }
}

/// A new row holds at most one play source of each name, whatever the
/// listing declares.
pub proof fn lemma_new_video_distinct_names(
    incoming: RemoteVideoView,
    local_type_id: i32,
    now: i64,
)
    ensures
        distinct_names(new_video_spec(incoming, local_type_id, now).vod_play_urls),
{
    lemma_merge_keeps_distinct_names(
        Seq::empty(),
        parse_play_urls_spec(incoming.vod_play_from, incoming.vod_play_url),
    );
}

/// A row that holds at most one play source of each name still does after a
/// listing of its title was merged into it.
pub proof fn lemma_updated_video_distinct_names(existing: VodView, incoming: RemoteVideoView, now: i64)
    requires
        distinct_names(existing.vod_play_urls),
    ensures
        distinct_names(updated_video_spec(existing, incoming, now).vod_play_urls),
{
    lemma_merge_keeps_distinct_names(
        existing.vod_play_urls,
        parse_play_urls_spec(incoming.vod_play_from, incoming.vod_play_url),
    );
}

/// The score of a title that nobody has rated.
pub open spec fn zero_score() -> Seq<char> {
    seq!['0', '.', '0']
}

/// A known row after a listing of the same title: its play sources merged,
/// publish time and remarks renewed, nothing else touched. A listing without
/// a payload carries no play source and changes nothing.
pub open spec fn updated_video_spec(existing: VodView, incoming: RemoteVideoView, now: i64) -> VodView {
    let sources = parse_play_urls_spec(incoming.vod_play_from, incoming.vod_play_url);
    if sources.len() == 0 {
        existing
    } else {
        VodView {
            vod_play_urls: merge_sources(existing.vod_play_urls, sources),
            vod_pubdate: now,
            vod_remarks: Some(incoming.vod_remarks),
            ..existing
        }
    }
}

/// The row for a listed video: the known row updated, or a new one.
pub open spec fn merge_video_spec(
    existing: Option<VodView>,
    incoming: RemoteVideoView,
    local_type_id: i32,
    now: i64,
) -> VodView {
    match existing {
        Some(row) => updated_video_spec(row, incoming, now),
        None => new_video_spec(incoming, local_type_id, now),
    }
}

/// What the store is to do: add a new row, replace a known one that took
/// play sources in, leave one that took none.
pub open spec fn write_kind_spec(existing: Option<VodView>, incoming: RemoteVideoView) -> WriteKind {
    match existing {
        None => WriteKind::Insert,
        Some(_) => if parse_play_urls_spec(incoming.vod_play_from, incoming.vod_play_url).len()
            == 0 {
            WriteKind::Unchanged
        } else {
            WriteKind::Replace
        },
    }
}

/// The view of an optional row.
pub open spec fn opt_vod_view(row: Option<Vod>) -> Option<VodView> {
    match row {
        Some(v) => Some(v@),
        None => None,
    }
}

fn zero_score_text() -> (out: String)
    ensures
        out@ == zero_score(),
{
    let mut chars: Vec<char> = Vec::new();
    chars.push('0');
    chars.push('.');
    chars.push('0');
    assert(chars@ =~= zero_score());
    crate::text::string_of(&chars)
}

/// The row for a title that the catalog does not hold yet.
pub fn new_video(incoming: &VodApiListEntry, local_type_id: i32, now: i64) -> (out: Vod)
    ensures
        out@ == new_video_spec(incoming@, local_type_id, now),
{
    let parsed = parse_play_urls(incoming.vod_play_from.as_str(), &incoming.vod_play_url);
    let mut sources: Vec<PlaySource> = Vec::new();
    assert(source_views(sources@) =~= Seq::<PlaySourceView>::empty());
    merge_play_sources(&mut sources, &parsed);
    let status = match incoming.vod_status {
        Some(s) => s,
        None => 1,
    };
    Vod {
        id: None,
        vod_name: incoming.vod_name.clone(),
        type_id: local_type_id,
        vod_status: status,
        vod_class: copy_opt(&incoming.vod_class),
        vod_pic: copy_opt(&incoming.vod_pic),
        vod_actor: copy_opt(&incoming.vod_actor),
        vod_director: copy_opt(&incoming.vod_director),
        vod_remarks: Some(incoming.vod_remarks.clone()),
        vod_pubdate: now,
        vod_area: copy_opt(&incoming.vod_area),
        vod_lang: copy_opt(&incoming.vod_lang),
        vod_year: copy_opt(&incoming.vod_year),
        vod_content: copy_opt(&incoming.vod_content),
        vod_hits: Some(0),
        vod_hits_day: Some(0),
        vod_hits_week: Some(0),
        vod_hits_month: Some(0),
        vod_score: Some(zero_score_text()),
        vod_play_urls: sources,
    }
}

/// The new value where there is one, else the old.
pub open spec fn or_keep(new: Option<Seq<char>>, old: Option<Seq<char>>) -> Option<Seq<char>> {
    if new is Some {
        new
    } else {
        old
    }
}

/// A known row after the details of its title were fetched: name, category
/// and remarks renewed, status set to 1, each piece of metadata that the
/// details carry taken over, the publish time renewed when the details carry
/// one, and the play sources that the details name merged in by name: a
/// source of another name stays as it is.
pub open spec fn refreshed_video_spec(
    existing: VodView,
    incoming: RemoteVideoView,
    local_type_id: i32,
    now: i64,
) -> VodView {
    VodView {
        vod_name: incoming.vod_name,
        type_id: local_type_id,
        vod_status: 1,
        vod_remarks: Some(incoming.vod_remarks),
        vod_pubdate: if incoming.vod_pubdate is Some {
            now
        } else {
            existing.vod_pubdate
        },
        vod_class: or_keep(incoming.vod_class, existing.vod_class),
        vod_pic: or_keep(incoming.vod_pic, existing.vod_pic),
        vod_actor: or_keep(incoming.vod_actor, existing.vod_actor),
        vod_director: or_keep(incoming.vod_director, existing.vod_director),
        vod_area: or_keep(incoming.vod_area, existing.vod_area),
        vod_lang: or_keep(incoming.vod_lang, existing.vod_lang),
        vod_year: or_keep(incoming.vod_year, existing.vod_year),
        vod_content: or_keep(incoming.vod_content, existing.vod_content),
        vod_play_urls: if incoming.vod_play_from.len() > 0 {
            merge_sources(
                existing.vod_play_urls,
                parse_play_urls_spec(incoming.vod_play_from, incoming.vod_play_url),
            )
        } else {
            existing.vod_play_urls
        },
        ..existing
    }
}

fn take_over(new: &Option<String>, old: Option<String>) -> (out: Option<String>)
    ensures
        crate::models::opt_text(out) == or_keep(
            crate::models::opt_text(*new),
            crate::models::opt_text(old),
        ),
{
    match new {
        Some(value) => Some(value.clone()),
        None => old,
    }
}

/// Brings a row up to the details of its title, or makes the row when there
/// is none. Returns the row and what the store is to do with it.
pub fn refresh_video(
    existing: Option<Vod>,
    incoming: &VodApiListEntry,
    local_type_id: i32,
    now: i64,
) -> (out: (Vod, WriteKind))
    ensures
        out.0@ == match opt_vod_view(existing) {
            Some(row) => refreshed_video_spec(row, incoming@, local_type_id, now),
            None => new_video_spec(incoming@, local_type_id, now),
        },
        out.1 == if existing is Some {
            WriteKind::Replace
        } else {
            WriteKind::Insert
        },
{
    match existing {
        None => (new_video(incoming, local_type_id, now), WriteKind::Insert),
        Some(row) => {
            let mut sources = row.vod_play_urls;
            if incoming.vod_play_from.as_str().unicode_len() > 0 {
                let parsed = parse_play_urls(
                    incoming.vod_play_from.as_str(),
                    &incoming.vod_play_url,
                );
                merge_play_sources(&mut sources, &parsed);
            }
            let out = Vod {
                id: row.id,
                vod_name: incoming.vod_name.clone(),
                type_id: local_type_id,
                vod_status: 1,
                vod_class: take_over(&incoming.vod_class, row.vod_class),
                vod_pic: take_over(&incoming.vod_pic, row.vod_pic),
                vod_actor: take_over(&incoming.vod_actor, row.vod_actor),
                vod_director: take_over(&incoming.vod_director, row.vod_director),
                vod_remarks: Some(incoming.vod_remarks.clone()),
                vod_pubdate: if incoming.vod_pubdate.is_some() {
                    now
                } else {
                    row.vod_pubdate
                },
                vod_area: take_over(&incoming.vod_area, row.vod_area),
                vod_lang: take_over(&incoming.vod_lang, row.vod_lang),
                vod_year: take_over(&incoming.vod_year, row.vod_year),
                vod_content: take_over(&incoming.vod_content, row.vod_content),
                vod_hits: row.vod_hits,
                vod_hits_day: row.vod_hits_day,
                vod_hits_week: row.vod_hits_week,
                vod_hits_month: row.vod_hits_month,
                vod_score: row.vod_score,
                vod_play_urls: sources,
            };
            (out, WriteKind::Replace)
        },
    }
}

/// Merges a listed video into the catalog row of the same title, or makes
/// the row when there is none. Returns the row and what the store is to do
/// with it.
pub fn merge_video(
    existing: Option<Vod>,
    incoming: &VodApiListEntry,
    local_type_id: i32,
    now: i64,
) -> (out: (Vod, WriteKind))
    ensures
        out.0@ == merge_video_spec(opt_vod_view(existing), incoming@, local_type_id, now),
        out.1 == write_kind_spec(opt_vod_view(existing), incoming@),
{
    match existing {
        None => (new_video(incoming, local_type_id, now), WriteKind::Insert),
        Some(row) => {
            let mut row = row;
            let sources = parse_play_urls(incoming.vod_play_from.as_str(), &incoming.vod_play_url);
            if sources.len() == 0 {
                (row, WriteKind::Unchanged)
            } else {
                let mut merged = row.vod_play_urls;
                merge_play_sources(&mut merged, &sources);
                row.vod_play_urls = merged;
                row.vod_pubdate = now;
                row.vod_remarks = Some(incoming.vod_remarks.clone());
                (row, WriteKind::Replace)
            }
        },
    }
}

} // verus!
