//! Catalog rows and source configuration, with their mathematical views.

use vstd::prelude::*;

verus! {

/// The text of an optional string.
pub open spec fn opt_text(o: Option<String>) -> Option<Seq<char>> {
    match o {
        Some(s) => Some(s@),
        None => None,
    }
}

/// Copy of an optional string.
pub fn copy_opt(o: &Option<String>) -> (out: Option<String>)
    ensures
        opt_text(out) == opt_text(*o),
{
    match o {
        Some(s) => Some(s.clone()),
        None => None,
    }
}

/// One episode: a display name and where it plays from.
#[derive(Debug, Clone, PartialEq, Eq)]
pub struct PlayUrl {
    pub name: String,
    pub url: String,
}

/// An episode as the contracts see it.
pub struct PlayUrlView {
    pub name: Seq<char>,
    pub url: Seq<char>,
}

impl View for PlayUrl {
    type V = PlayUrlView;

    open spec fn view(&self) -> PlayUrlView {
        PlayUrlView { name: self.name@, url: self.url@ }
    }
}

impl PlayUrl {
    /// A copy of the episode.
    pub fn duplicate(&self) -> (out: PlayUrl)
        ensures
            out@ == self@,
    {
        PlayUrl { name: self.name.clone(), url: self.url.clone() }
    }
}

/// The episodes that a vector holds, as the contracts see them.
pub open spec fn url_views(urls: Seq<PlayUrl>) -> Seq<PlayUrlView> {
    Seq::new(urls.len(), |i: int| urls[i]@)
}

/// A copy of the episodes.
pub fn copy_urls(urls: &Vec<PlayUrl>) -> (out: Vec<PlayUrl>)
    ensures
        url_views(out@) == url_views(urls@),
{
    let mut out: Vec<PlayUrl> = Vec::new();
    let mut i: usize = 0;
    while i < urls.len()
        invariant
            i <= urls.len(),
            url_views(out@) == url_views(urls@.subrange(0, i as int)),
        decreases urls.len() - i,
    {
        let ghost before = url_views(out@);
        out.push(urls[i].duplicate());
        assert(url_views(out@) =~= before.push(urls@[i as int]@));
        assert(url_views(urls@.subrange(0, i + 1)) =~= before.push(urls@[i as int]@));
        i = i + 1;
    }
    assert(urls@.subrange(0, urls.len() as int) == urls@);
    out
}

/// One named playback line of a video with its ordered episodes.
#[derive(Debug, Clone, PartialEq, Eq)]
pub struct PlaySource {
    pub source_name: String,
    pub urls: Vec<PlayUrl>,
}

/// A play source as the contracts see it.
pub struct PlaySourceView {
    pub source_name: Seq<char>,
    pub urls: Seq<PlayUrlView>,
}

impl View for PlaySource {
    type V = PlaySourceView;

    open spec fn view(&self) -> PlaySourceView {
        PlaySourceView { source_name: self.source_name@, urls: url_views(self.urls@) }
    }
}

impl PlaySource {
    /// A copy of the play source.
    pub fn duplicate(&self) -> (out: PlaySource)
        ensures
            out@ == self@,
    {
        PlaySource { source_name: self.source_name.clone(), urls: copy_urls(&self.urls) }
    }
}

/// The play sources that a vector holds, as the contracts see them.
pub open spec fn source_views(sources: Seq<PlaySource>) -> Seq<PlaySourceView> {
    Seq::new(sources.len(), |i: int| sources[i]@)
}

/// A copy of the play sources.
pub fn copy_sources(sources: &Vec<PlaySource>) -> (out: Vec<PlaySource>)
    ensures
        source_views(out@) == source_views(sources@),
{
    let mut out: Vec<PlaySource> = Vec::new();
    let mut i: usize = 0;
    while i < sources.len()
        invariant
            i <= sources.len(),
            source_views(out@) == source_views(sources@.subrange(0, i as int)),
        decreases sources.len() - i,
    {
        let ghost before = source_views(out@);
        out.push(sources[i].duplicate());
        assert(source_views(out@) =~= before.push(sources@[i as int]@));
        assert(source_views(sources@.subrange(0, i + 1)) =~= before.push(sources@[i as int]@));
        i = i + 1;
    }
    assert(sources@.subrange(0, sources.len() as int) == sources@);
    out
}

/// A catalog row. `id` is the store's 96-bit document id as a number (the
/// store orders rows by it) and `vod_pubdate` counts milliseconds since the
/// Unix epoch.
#[derive(Debug, Clone, PartialEq, Eq)]
pub struct Vod {
    pub id: Option<u128>,
    pub vod_name: String,
    pub type_id: i32,
    pub vod_status: i32,
    pub vod_class: Option<String>,
    pub vod_pic: Option<String>,
    pub vod_actor: Option<String>,
    pub vod_director: Option<String>,
    pub vod_remarks: Option<String>,
    pub vod_pubdate: i64,
    pub vod_area: Option<String>,
    pub vod_lang: Option<String>,
    pub vod_year: Option<String>,
    pub vod_content: Option<String>,
    pub vod_hits: Option<i32>,
    pub vod_hits_day: Option<i32>,
    pub vod_hits_week: Option<i32>,
    pub vod_hits_month: Option<i32>,
    pub vod_score: Option<String>,
    pub vod_play_urls: Vec<PlaySource>,
}

/// A catalog row as the contracts see it.
pub struct VodView {
    pub id: Option<u128>,
    pub vod_name: Seq<char>,
    pub type_id: i32,
    pub vod_status: i32,
    pub vod_class: Option<Seq<char>>,
    pub vod_pic: Option<Seq<char>>,
    pub vod_actor: Option<Seq<char>>,
    pub vod_director: Option<Seq<char>>,
    pub vod_remarks: Option<Seq<char>>,
    pub vod_pubdate: i64,
    pub vod_area: Option<Seq<char>>,
    pub vod_lang: Option<Seq<char>>,
    pub vod_year: Option<Seq<char>>,
    pub vod_content: Option<Seq<char>>,
    pub vod_hits: Option<i32>,
    pub vod_hits_day: Option<i32>,
    pub vod_hits_week: Option<i32>,
    pub vod_hits_month: Option<i32>,
    pub vod_score: Option<Seq<char>>,
    pub vod_play_urls: Seq<PlaySourceView>,
}

impl View for Vod {
    type V = VodView;

    open spec fn view(&self) -> VodView {
        VodView {
            id: self.id,
            vod_name: self.vod_name@,
            type_id: self.type_id,
            vod_status: self.vod_status,
            vod_class: opt_text(self.vod_class),
            vod_pic: opt_text(self.vod_pic),
            vod_actor: opt_text(self.vod_actor),
            vod_director: opt_text(self.vod_director),
            vod_remarks: opt_text(self.vod_remarks),
            vod_pubdate: self.vod_pubdate,
            vod_area: opt_text(self.vod_area),
            vod_lang: opt_text(self.vod_lang),
            vod_year: opt_text(self.vod_year),
            vod_content: opt_text(self.vod_content),
            vod_hits: self.vod_hits,
            vod_hits_day: self.vod_hits_day,
            vod_hits_week: self.vod_hits_week,
            vod_hits_month: self.vod_hits_month,
            vod_score: opt_text(self.vod_score),
            vod_play_urls: source_views(self.vod_play_urls@),
        }
    }
}

impl Vod {
    /// A copy of the row.
    pub fn duplicate(&self) -> (out: Vod)
        ensures
            out@ == self@,
    {
        Vod {
            id: self.id,
            vod_name: self.vod_name.clone(),
            type_id: self.type_id,
            vod_status: self.vod_status,
            vod_class: copy_opt(&self.vod_class),
            vod_pic: copy_opt(&self.vod_pic),
            vod_actor: copy_opt(&self.vod_actor),
            vod_director: copy_opt(&self.vod_director),
            vod_remarks: copy_opt(&self.vod_remarks),
            vod_pubdate: self.vod_pubdate,
            vod_area: copy_opt(&self.vod_area),
            vod_lang: copy_opt(&self.vod_lang),
            vod_year: copy_opt(&self.vod_year),
            vod_content: copy_opt(&self.vod_content),
            vod_hits: self.vod_hits,
            vod_hits_day: self.vod_hits_day,
            vod_hits_week: self.vod_hits_week,
            vod_hits_month: self.vod_hits_month,
            vod_score: copy_opt(&self.vod_score),
            vod_play_urls: copy_sources(&self.vod_play_urls),
        }
    }
}

/// The rows that a vector holds, as the contracts see them.
pub open spec fn vod_views(rows: Seq<Vod>) -> Seq<VodView> {
    Seq::new(rows.len(), |i: int| rows[i]@)
}

/// Maps a category of one source to a local category. Times count
/// milliseconds since the Unix epoch.
#[derive(Debug, Clone, PartialEq, Eq)]
pub struct Binding {
    pub id: String,
    pub source_flag: String,
    pub external_id: String,
    pub local_type_id: i32,
    pub local_type_name: String,
    pub created_at: i64,
    pub updated_at: i64,
}

/// Whether converted pictures are wanted when a source's settings do not say.
pub fn default_convert_webp() -> (out: i32)
    ensures
        out == 0,
{
    0
}

/// How often a picture download is tried when a source's settings do not say.
pub fn default_download_retry() -> (out: i32)
    ensures
        out == 3,
{
    3
}

/// A configured remote source. `collect_name` is the flag that bindings are
/// scoped by. Times count milliseconds since the Unix epoch.
#[derive(Debug, Clone, PartialEq, Eq)]
pub struct Collection {
    pub id: Option<u128>,
    pub collect_name: String,
    pub collect_url: String,
    pub collect_type: i32,
    pub collect_mid: i32,
    pub collect_appid: String,
    pub collect_appkey: String,
    pub collect_param: String,
    pub collect_filter: String,
    pub collect_filter_from: String,
    pub collect_opt: i32,
    pub collect_sync_pic_opt: i32,
    pub collect_remove_ad: i32,
    pub collect_convert_webp: i32,
    pub collect_download_retry: i32,
    pub collect_status: i32,
    pub created_at: i64,
    pub updated_at: i64,
}

impl Collection {
    /// The source takes part in scheduled cycles.
    pub fn is_enabled(&self) -> (out: bool)
        ensures
            out == (self.collect_status == 1),
    {
        self.collect_status == 1
    }

    /// Pictures of new rows are fetched into local storage.
    pub fn syncs_pictures(&self) -> (out: bool)
        ensures
            out == (self.collect_sync_pic_opt == 1),
    {
        self.collect_sync_pic_opt == 1
    }

    /// Fetched pictures are converted to the compressed format.
    pub fn converts_pictures(&self) -> (out: bool)
        ensures
            out == (self.collect_convert_webp == 1),
    {
        self.collect_convert_webp == 1
    }
}

} // verus!
