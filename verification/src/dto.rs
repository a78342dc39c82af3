//! Shapes of the remote API: query parameters, the response envelope and
//! the video entries it lists.

use crate::text::{
    chars_of, decimal_text, parse_i64_chars, parse_i64_spec, parse_u64_chars, parse_u64_spec,
    signed_decimal_chars, signed_decimal_text, string_of,
};
use crate::models::opt_text;
use vstd::prelude::*;

verus! {

/// A video id as a source sends it: a number or a string.
#[derive(Debug, Clone, PartialEq, Eq)]
pub enum VodId {
    Number(i64),
    String(String),
}

impl VodId {
    /// The id's text: the decimal form of a number, the string as it is.
    pub open spec fn text(self) -> Seq<char> {
        match self {
            VodId::Number(n) => signed_decimal_text(n as int),
            VodId::String(s) => s@,
        }
    }

    /// The id's number: the number itself, or what the string reads as.
    pub open spec fn number(self) -> Option<i64> {
        match self {
            VodId::Number(n) => Some(n),
            VodId::String(s) => parse_i64_spec(s@),
        }
    }

    /// The id as text.
    pub fn to_string(&self) -> (out: String)
        ensures
            out@ == self.text(),
    {
        match self {
            VodId::Number(n) => {
                let digits = signed_decimal_chars(*n);
                string_of(&digits)
            },
            VodId::String(s) => s.clone(),
        }
    }

    /// The id as a number, where it is one.
    pub fn to_i64(&self) -> (out: Option<i64>)
        ensures
            out == self.number(),
    {
        match self {
            VodId::Number(n) => Some(*n),
            VodId::String(s) => {
                let chars = chars_of(s.as_str());
                parse_i64_chars(&chars)
            },
        }
    }
}

/// A count that a source sends as a number or as its decimal text.
#[derive(Debug, Clone, PartialEq, Eq)]
pub enum StringOrNumber {
    String(String),
    Number(u64),
}

impl StringOrNumber {
    /// The count: the number itself, or what the text reads as.
    pub open spec fn value(self) -> Option<u64> {
        match self {
            StringOrNumber::String(s) => parse_u64_spec(s@),
            StringOrNumber::Number(n) => Some(n),
        }
    }
}

/// Why a count could not be read.
#[derive(Debug, Clone, Copy, PartialEq, Eq, Structural)]
pub enum FieldError {
    /// The text is no unsigned decimal number that fits.
    NotANumber,
}

/// Reads a count that came as a number or as text.
pub fn deserialize_string_or_number(raw: &StringOrNumber) -> (out: Result<u64, FieldError>)
    ensures
        out == match raw.value() {
            Some(n) => Ok::<u64, FieldError>(n),
            None => Err::<u64, FieldError>(FieldError::NotANumber),
        },
{
    match raw {
        StringOrNumber::Number(n) => Ok(*n),
        StringOrNumber::String(s) => {
            let chars = chars_of(s.as_str());
            match parse_u64_chars(&chars) {
                Some(n) => Ok(n),
                None => Err(FieldError::NotANumber),
            }
        },
    }
}

/// A sub-category that a page address may carry: absent or empty for none,
/// else a signed decimal number that fits 32 bits.
pub open spec fn optional_number_spec(raw: Option<Seq<char>>) -> Result<Option<i32>, FieldError> {
    match raw {
        None => Ok(None),
        Some(text) => if text.len() == 0 {
            Ok(None)
        } else {
            match parse_i64_spec(text) {
                Some(n) => if i32::MIN <= n <= i32::MAX {
                    Ok(Some(n as i32))
                } else {
                    Err(FieldError::NotANumber)
                },
                None => Err(FieldError::NotANumber),
            }
        },
    }
}

/// Reads an optional number that came as text; the empty text is none.
pub fn deserialize_empty_string_to_none(raw: &Option<String>) -> (out: Result<Option<i32>, FieldError>)
    ensures
        out == optional_number_spec(opt_text(*raw)),
{
    match raw {
        None => Ok(None),
        Some(text) => {
            let chars = chars_of(text.as_str());
            if chars.len() == 0 {
                return Ok(None);
            }
            match parse_i64_chars(&chars) {
                Some(n) => {
                    if n < -0x8000_0000 || n > 0x7fff_ffff {
                        Err(FieldError::NotANumber)
                    } else {
                        Ok(Some(n as i32))
                    }
                },
                None => Err(FieldError::NotANumber),
            }
        },
    }
}

/// Query parameters of the provide-style API.
#[derive(Debug, Clone, PartialEq, Eq)]
pub struct ApiParams {
    pub ac: Option<String>,
    pub at: Option<String>,
    pub ids: Option<String>,
    pub t: Option<i32>,
    pub pg: Option<u64>,
    pub pagesize: Option<u64>,
    pub h: Option<u64>,
    pub wd: Option<String>,
}

/// A category as a source lists it.
#[derive(Debug, Clone, PartialEq, Eq)]
pub struct Category {
    pub type_id: i32,
    pub category_name: String,
    pub type_pid: i32,
}

/// Whether the number is zero: a parent of zero is left out of what is sent.
pub fn is_zero(num: &i32) -> (out: bool)
    ensures
        out == (*num == 0),
{
    *num == 0
}

/// The response envelope with a list of `T` and the source's categories.
#[derive(Debug, Clone, PartialEq, Eq)]
pub struct JsonResponse<T> {
    pub code: i32,
    pub msg: String,
    pub page: u64,
    pub pagecount: u64,
    pub limit: u64,
    pub total: u64,
    pub list: Vec<T>,
    pub categories: Vec<Category>,
}

/// The response envelope of a video listing.
#[derive(Debug, Clone, PartialEq, Eq)]
pub struct VideoListResponse {
    pub code: i32,
    pub msg: String,
    pub page: u64,
    pub pagecount: u64,
    pub limit: u64,
    pub total: u64,
    pub list: Vec<VodApiListEntry>,
}

/// One video as a listing carries it.
#[derive(Debug, Clone, PartialEq, Eq)]
pub struct VodApiListEntry {
    pub vod_id: VodId,
    pub vod_name: String,
    pub type_id: i32,
    pub category_name: Option<String>,
    pub vod_time: String,
    pub vod_remarks: String,
    pub vod_play_from: String,
    pub vod_status: Option<i32>,
    pub vod_letter: Option<String>,
    pub vod_color: Option<String>,
    pub vod_tag: Option<String>,
    pub vod_class: Option<String>,
    pub vod_pic: Option<String>,
    pub vod_pic_thumb: Option<String>,
    pub vod_pic_slide: Option<String>,
    pub vod_pic_screenshot: Option<String>,
    pub vod_actor: Option<String>,
    pub vod_director: Option<String>,
    pub vod_writer: Option<String>,
    pub vod_behind: Option<String>,
    pub vod_blurb: Option<String>,
    pub vod_pubdate: Option<String>,
    pub vod_total: Option<i32>,
    pub vod_serial: Option<String>,
    pub vod_tv: Option<String>,
    pub vod_weekday: Option<String>,
    pub vod_area: Option<String>,
    pub vod_lang: Option<String>,
    pub vod_year: Option<String>,
    pub vod_version: Option<String>,
    pub vod_state: Option<String>,
    pub vod_author: Option<String>,
    pub vod_jumpurl: Option<String>,
    pub vod_tpl: Option<String>,
    pub vod_tpl_play: Option<String>,
    pub vod_tpl_down: Option<String>,
    pub vod_isend: Option<i32>,
    pub vod_lock: Option<i32>,
    pub vod_level: Option<i32>,
    pub vod_copyright: Option<i32>,
    pub vod_points: Option<i32>,
    pub vod_points_play: Option<i32>,
    pub vod_points_down: Option<i32>,
    pub vod_hits: Option<i32>,
    pub vod_hits_day: Option<i32>,
    pub vod_hits_week: Option<i32>,
    pub vod_hits_month: Option<i32>,
    pub vod_duration: Option<String>,
    pub vod_up: Option<i32>,
    pub vod_down: Option<i32>,
    pub vod_score: Option<String>,
    pub vod_score_all: Option<i32>,
    pub vod_score_num: Option<i32>,
    pub vod_time_add: Option<i64>,
    pub vod_time_hits: Option<i64>,
    pub vod_time_make: Option<i64>,
    pub vod_trysee: Option<i32>,
    pub vod_douban_id: Option<i64>,
    pub vod_douban_score: Option<String>,
    pub vod_reurl: Option<String>,
    pub vod_rel_vod: Option<String>,
    pub vod_rel_art: Option<String>,
    pub vod_pwd: Option<String>,
    pub vod_pwd_url: Option<String>,
    pub vod_pwd_play: Option<String>,
    pub vod_pwd_play_url: Option<String>,
    pub vod_pwd_down: Option<String>,
    pub vod_pwd_down_url: Option<String>,
    pub vod_content: Option<String>,
    pub vod_play_server: Option<String>,
    pub vod_play_note: Option<String>,
    pub vod_play_url: Option<String>,
    pub vod_down_from: Option<String>,
    pub vod_down_server: Option<String>,
    pub vod_down_note: Option<String>,
    pub vod_down_url: Option<String>,
}

/// What ingestion reads of a listed video.
pub struct RemoteVideoView {
    pub vod_name: Seq<char>,
    pub type_id: i32,
    pub vod_status: Option<i32>,
    pub vod_class: Option<Seq<char>>,
    pub vod_pic: Option<Seq<char>>,
    pub vod_actor: Option<Seq<char>>,
    pub vod_director: Option<Seq<char>>,
    pub vod_remarks: Seq<char>,
    pub vod_pubdate: Option<Seq<char>>,
    pub vod_area: Option<Seq<char>>,
    pub vod_lang: Option<Seq<char>>,
    pub vod_year: Option<Seq<char>>,
    pub vod_content: Option<Seq<char>>,
    pub vod_play_from: Seq<char>,
    pub vod_play_url: Option<Seq<char>>,
}

impl View for VodApiListEntry {
    type V = RemoteVideoView;

    open spec fn view(&self) -> RemoteVideoView {
        RemoteVideoView {
            vod_name: self.vod_name@,
            type_id: self.type_id,
            vod_status: self.vod_status,
            vod_class: opt_text(self.vod_class),
            vod_pic: opt_text(self.vod_pic),
            vod_actor: opt_text(self.vod_actor),
            vod_director: opt_text(self.vod_director),
            vod_remarks: self.vod_remarks@,
            vod_pubdate: opt_text(self.vod_pubdate),
            vod_area: opt_text(self.vod_area),
            vod_lang: opt_text(self.vod_lang),
            vod_year: opt_text(self.vod_year),
            vod_content: opt_text(self.vod_content),
            vod_play_from: self.vod_play_from@,
            vod_play_url: opt_text(self.vod_play_url),
        }
    }
}

/// What a list page may be narrowed by.
#[derive(Debug, Clone, PartialEq, Eq)]
pub struct ListPageParams {
    pub sub_type: Option<i32>,
    pub area: Option<String>,
    pub year: Option<String>,
    pub pg: Option<u64>,
    pub sort: Option<String>,
}

/// What a query for videos of a category may be narrowed by.
#[derive(Debug, Clone, PartialEq, Eq)]
pub struct VideoFilterParams {
    pub sub_type: Option<i32>,
    pub area: Option<String>,
    pub year: Option<String>,
    pub pg: Option<u64>,
    pub limit: Option<u64>,
}

} // verus!
