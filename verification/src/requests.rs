//! What the admin side hands in to drive the core: the requests that start
//! and shape collection runs, scheduled cycles and batch removals.

use crate::batch_delete::requested_source;
use crate::models::{opt_text, Binding, Collection};
use crate::remote::{
    categories_url, listing_pages, pages_for, videos_url, videos_url_spec, with_action,
};
use crate::scheduler::{log_limit, DEFAULT_LOG_LIMIT};
use crate::text::{
    chars_of, decimal_text, push_text, signed_decimal_chars, signed_decimal_text, string_of,
    trim_seq,
};
use vstd::prelude::*;

verus! {

/// A source as the admin enters it.
#[derive(Debug, Clone, PartialEq, Eq)]
pub struct CollectionRequest {
    pub collect_name: String,
    pub collect_url: String,
    pub collect_type: i32,
    pub collect_mid: i32,
    pub collect_appid: String,
    pub collect_appkey: String,
    pub collect_param: String,
    pub collect_filter: String,
    pub collect_filter_from: String,
    pub collect_opt: i32,
    pub collect_sync_pic_opt: i32,
    pub collect_remove_ad: i32,
    pub collect_convert_webp: i32,
    pub collect_download_retry: i32,
    pub collect_status: i32,
}

impl CollectionRequest {
    /// The source to store for this request, made at `now`.
    pub fn to_collection(&self, now: i64) -> (out: Collection)
        ensures
            out.id is None,
            out.collect_name@ == self.collect_name@,
            out.collect_url@ == self.collect_url@,
            out.collect_type == self.collect_type,
            out.collect_mid == self.collect_mid,
            out.collect_appid@ == self.collect_appid@,
            out.collect_appkey@ == self.collect_appkey@,
            out.collect_param@ == self.collect_param@,
            out.collect_filter@ == self.collect_filter@,
            out.collect_filter_from@ == self.collect_filter_from@,
            out.collect_opt == self.collect_opt,
            out.collect_sync_pic_opt == self.collect_sync_pic_opt,
            out.collect_remove_ad == self.collect_remove_ad,
            out.collect_convert_webp == self.collect_convert_webp,
            out.collect_download_retry == self.collect_download_retry,
            out.collect_status == self.collect_status,
            out.created_at == now,
            out.updated_at == now,
    {
        Collection {
            id: None,
            collect_name: self.collect_name.clone(),
            collect_url: self.collect_url.clone(),
            collect_type: self.collect_type,
            collect_mid: self.collect_mid,
            collect_appid: self.collect_appid.clone(),
            collect_appkey: self.collect_appkey.clone(),
            collect_param: self.collect_param.clone(),
            collect_filter: self.collect_filter.clone(),
            collect_filter_from: self.collect_filter_from.clone(),
            collect_opt: self.collect_opt,
            collect_sync_pic_opt: self.collect_sync_pic_opt,
            collect_remove_ad: self.collect_remove_ad,
            collect_convert_webp: self.collect_convert_webp,
            collect_download_retry: self.collect_download_retry,
            collect_status: self.collect_status,
            created_at: now,
            updated_at: now,
        }
    }
}

/// A binding as the admin enters it.
#[derive(Debug, Clone, PartialEq, Eq)]
pub struct BindingRequest {
    pub source_flag: String,
    pub external_id: String,
    pub local_type_id: i32,
}

/// The key of a binding: the source's flag, `_`, and the category's id at
/// the source.
pub open spec fn binding_id_spec(source_flag: Seq<char>, external_id: Seq<char>) -> Seq<char> {
    source_flag + "_"@ + external_id
}

impl BindingRequest {
    /// The binding to store for this request, made at `now`, with the name
    /// of the local category, or `Unknown Type` where the category is not
    /// known.
    pub fn to_binding(&self, local_type_name: Option<String>, now: i64) -> (out: Binding)
        ensures
            out.id@ == binding_id_spec(self.source_flag@, self.external_id@),
            out.source_flag@ == self.source_flag@,
            out.external_id@ == self.external_id@,
            out.local_type_id == self.local_type_id,
            out.local_type_name@ == match local_type_name {
                Some(name) => name@,
                None => "Unknown Type"@,
            },
            out.created_at == now,
            out.updated_at == now,
    {
        let mut id = chars_of(self.source_flag.as_str());
        push_text(&mut id, "_");
        push_text(&mut id, self.external_id.as_str());
        let name = match local_type_name {
            Some(name) => name,
            None => String::from_str("Unknown Type"),
        };
        Binding {
            id: string_of(&id),
            source_flag: self.source_flag.clone(),
            external_id: self.external_id.clone(),
            local_type_id: self.local_type_id,
            local_type_name: name,
            created_at: now,
            updated_at: now,
        }
    }
}

/// A request to collect from a source, all of it or what changed within
/// `hours`.
#[derive(Debug, Clone, PartialEq, Eq)]
pub struct CollectRequest {
    pub hours: Option<i32>,
}

/// What the admin is told when a source has no category bound yet.
pub open spec fn unbound_message() -> Seq<char> {
    "请先绑定分类"@
}

/// Whether a collection may start on a source with so many bound
/// categories: not on one with none. A refusal comes with its message.
pub fn may_collect(bound_categories: u64) -> (out: Result<(), String>)
    ensures
        bound_categories > 0 ==> out is Ok,
        bound_categories == 0 ==> out is Err && out->Err_0@ == unbound_message(),
{
    if bound_categories == 0 {
        Err(String::from_str("请先绑定分类"))
    } else {
        Ok(())
    }
}

/// The change window as the listing address carries it.
pub open spec fn hours_text(hours: Option<i32>) -> Option<Seq<char>> {
    match hours {
        Some(h) => Some(signed_decimal_text(h as int)),
        None => None,
    }
}

/// What the admin is told when the run is accepted.
pub open spec fn accepted_message(hours: Option<i32>) -> Seq<char> {
    match hours {
        Some(h) => "采集任务已启动 ("@ + signed_decimal_text(h as int) + "小时内)"@,
        None => "采集任务已启动 (全部数据)"@,
    }
}

fn hours_of(hours: Option<i32>) -> (out: Option<String>)
    ensures
        opt_text(out) == hours_text(hours),
{
    match hours {
        Some(h) => {
            let digits = signed_decimal_chars(h as i64);
            Some(string_of(&digits))
        },
        None => None,
    }
}

impl CollectRequest {
    /// The change window as the listing address carries it.
    pub fn hours_param(&self) -> (out: Option<String>)
        ensures
            opt_text(out) == hours_text(self.hours),
    {
        hours_of(self.hours)
    }

    /// What the admin is told when the run is accepted.
    pub fn accepted(&self) -> (out: String)
        ensures
            out@ == accepted_message(self.hours),
    {
        match self.hours {
            Some(h) => {
                let mut line = chars_of("采集任务已启动 (");
                let digits = signed_decimal_chars(h as i64);
                crate::text::push_all(&mut line, &digits);
                push_text(&mut line, "小时内)");
                string_of(&line)
            },
            None => String::from_str("采集任务已启动 (全部数据)"),
        }
    }
}

/// A request to start a collection task on a source.
#[derive(Debug, Clone, PartialEq, Eq)]
pub struct CollectStartRequest {
    pub collection_id: String,
    pub source_flag: String,
    pub api_url: String,
    pub collect_type: String,
    pub video_ids: Option<Vec<String>>,
    pub hours: Option<u32>,
}

impl CollectStartRequest {
    /// The change window as the listing address carries it.
    pub fn hours_param(&self) -> (out: Option<String>)
        ensures
            opt_text(out) == match self.hours {
                Some(h) => Some(decimal_text(h as nat)),
                None => None,
            },
    {
        match self.hours {
            Some(h) => {
                let digits = crate::text::decimal_chars(h as u64);
                Some(string_of(&digits))
            },
            None => None,
        }
    }
}

/// A query for the categories of a source.
#[derive(Debug, Clone, PartialEq, Eq)]
pub struct CollectCategoriesQuery {
    pub url: String,
}

impl CollectCategoriesQuery {
    /// The address to ask.
    pub fn address(&self) -> (out: String)
        ensures
            out@ == with_action(self.url@, "ac=list"@),
    {
        categories_url(self.url.as_str())
    }
}

/// A query for videos of a source.
#[derive(Debug, Clone, PartialEq, Eq)]
pub struct CollectVideosQuery {
    pub url: String,
    pub page: Option<u32>,
    pub limit: Option<u32>,
    pub type_id: Option<String>,
    pub wd: Option<String>,
}

impl CollectVideosQuery {
    /// The address to ask.
    pub fn address(&self) -> (out: String)
        ensures
            out@ == videos_url_spec(self.url@, self.page, opt_text(self.type_id), opt_text(self.wd)),
    {
        videos_url(self.url.as_str(), self.page, &self.type_id, &self.wd)
    }

    /// Pages that a listing of `total` videos has at this query's limit,
    /// where that can be said.
    pub fn pages(&self, total: u64) -> (out: Option<u32>)
        ensures
            out == pages_for(
                total,
                match self.limit {
                    Some(l) => l as u64,
                    None => 20,
                },
            ),
    {
        listing_pages(total, self.limit)
    }
}

/// A request to switch the scheduler and set its interval.
#[derive(Debug, Clone, PartialEq, Eq)]
pub struct ScheduledTaskConfigRequest {
    pub enabled: bool,
    pub interval_hours: Option<i32>,
}

/// A query for the latest execution-log rows.
#[derive(Debug, Clone, PartialEq, Eq)]
pub struct ScheduledTaskLogsQuery {
    pub limit: Option<i32>,
}

impl ScheduledTaskLogsQuery {
    /// How many rows to return.
    pub fn row_limit(&self) -> (out: i64)
        ensures
            out == match self.limit {
                Some(n) => n as i64,
                None => DEFAULT_LOG_LIMIT as i64,
            },
    {
        log_limit(self.limit)
    }
}

/// A request to remove a play source from the whole catalog.
#[derive(Debug, Clone, PartialEq, Eq)]
pub struct BatchDeleteSourceRequest {
    pub source_name: String,
}

impl BatchDeleteSourceRequest {
    /// The name to remove, or `None` for a request that names none.
    pub fn source(&self) -> (out: Option<String>)
        ensures
            match out {
                Some(name) => name@ == trim_seq(self.source_name@) && name@.len() > 0,
                None => trim_seq(self.source_name@).len() == 0,
            },
    {
        requested_source(self.source_name.as_str())
    }
}

} // verus!
