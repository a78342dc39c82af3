//! What the remote API is asked and how its answers and failures are read:
//! listing addresses, the error taxonomy, page counts and the retry policy
//! of the page-count probe.

use crate::dto::VideoListResponse;
use crate::models::opt_text;
use crate::text::{
    chars_of, contains_char, decimal_text, has_char, push_all, push_number, push_text,
    signed_decimal_chars, signed_decimal_text, string_of,
};
use vstd::arithmetic::power2::{lemma2_to64, lemma_pow2_strictly_increases, lemma_pow2_unfold, pow2};
use vstd::prelude::*;

verus! {

/// `url` with the query `action` added: after a bare `?`, after `&` when
/// the address has a query already, after `?` otherwise.
pub open spec fn with_action(url: Seq<char>, action: Seq<char>) -> Seq<char> {
    if contains_char(url, '?') {
        if url.len() > 0 && url.last() == '?' {
            url + action
        } else {
            url + "&"@ + action
        }
    } else {
        url + "?"@ + action
    }
}

/// The listing address of a source: its address with `ac=detail` and, when
/// only recent changes are wanted, `&h=` and the hours.
pub open spec fn listing_url_spec(collect_url: Seq<char>, hours: Option<Seq<char>>) -> Seq<char> {
    match hours {
        Some(h) => with_action(collect_url, "ac=detail"@) + "&h="@ + h,
        None => with_action(collect_url, "ac=detail"@),
    }
}

/// The address of one page of a listing.
pub open spec fn page_url_spec(api_url: Seq<char>, page: u32) -> Seq<char> {
    api_url + "&pg="@ + decimal_text(page as nat)
}

fn add_action(url: &str, action: &str) -> (out: Vec<char>)
    ensures
        out@ == with_action(url@, action@),
{
    let mut out = chars_of(url);
    let n = out.len();
    if has_char(&out, '?') {
        if n > 0 && out[n - 1] == '?' {
            push_text(&mut out, action);
        } else {
            push_text(&mut out, "&");
            push_text(&mut out, action);
        }
    } else {
        push_text(&mut out, "?");
        push_text(&mut out, action);
    }
    out
}

/// The address that lists a source's categories.
pub fn categories_url(url: &str) -> (out: String)
    ensures
        out@ == with_action(url@, "ac=list"@),
{
    let out = add_action(url, "ac=list");
    string_of(&out)
}

/// The address that lists a source's videos, all or those changed within
/// `hours`.
pub fn listing_url(collect_url: &str, hours: &Option<String>) -> (out: String)
    ensures
        out@ == listing_url_spec(collect_url@, opt_text(*hours)),
{
    let mut out = add_action(collect_url, "ac=detail");
    match hours {
        Some(h) => {
            push_text(&mut out, "&h=");
            push_text(&mut out, h.as_str());
        },
        None => {},
    }
    string_of(&out)
}

/// The address of page `page` of a listing.
pub fn page_url(api_url: &str, page: u32) -> (out: String)
    ensures
        out@ == page_url_spec(api_url@, page),
{
    let mut out = chars_of(api_url);
    push_text(&mut out, "&pg=");
    push_number(&mut out, page as u64);
    string_of(&out)
}

/// The address that asks for one video by its id, as changed within a day.
pub fn detail_url(api_url: &str, vod_id: &str) -> (out: String)
    ensures
        out@ == api_url@ + "?ac=detail&h=24&ids="@ + vod_id@,
{
    let mut out = chars_of(api_url);
    push_text(&mut out, "?ac=detail&h=24&ids=");
    push_text(&mut out, vod_id);
    string_of(&out)
}

/// Bytes that stand for themselves in a query: letters, digits, `-`, `.`,
/// `_` and `~`.
pub open spec fn is_unreserved(b: u8) -> bool {
    ||| 0x30 <= b <= 0x39
    ||| 0x41 <= b <= 0x5a
    ||| 0x61 <= b <= 0x7a
    ||| b == 0x2d
    ||| b == 0x2e
    ||| b == 0x5f
    ||| b == 0x7e
}

/// The upper-case hexadecimal digit of `d`.
pub open spec fn hex_upper(d: int) -> char {
    if d < 10 {
        ((0x30 + d) as u8) as char
    } else {
        ((0x41 + d - 10) as u8) as char
    }
}

/// One byte as it stands in a query.
pub open spec fn percent_byte(b: u8) -> Seq<char> {
    if is_unreserved(b) {
        seq![b as char]
    } else {
        seq!['%', hex_upper(b as int / 16), hex_upper(b as int % 16)]
    }
}

/// Each byte as itself when it is unreserved, else as `%` and its two
/// upper-case hexadecimal digits.
pub open spec fn percent_encoded(bytes: Seq<u8>) -> Seq<char>
    decreases bytes.len(),
{
    if bytes.len() == 0 {
        Seq::empty()
    } else {
        percent_byte(bytes[0]) + percent_encoded(bytes.drop_first())
    }
}

/// A search term as it stands in a query: its UTF-8 bytes, percent-encoded.
pub open spec fn query_text(term: Seq<char>) -> Seq<char> {
    percent_encoded(vstd::utf8::encode_utf8(term))
}

/// `urlencoding::encode`: percent-encodes every byte of the UTF-8 form of
/// `term` except letters, digits, `-`, `.`, `_` and `~`, with upper-case
/// digits after each `%`.
#[verifier::external_body]
pub(crate) fn url_encode(term: &str) -> (out: String)
    ensures
        out@ == query_text(term@),
{
    urlencoding::encode(term).into_owned()
}

/// The address that asks a source for videos: `?ac=detail`, then the page,
/// the category and the search term, each where one is given.
pub open spec fn videos_url_spec(
    url: Seq<char>,
    page: Option<u32>,
    type_id: Option<Seq<char>>,
    wd: Option<Seq<char>>,
) -> Seq<char> {
    url + "?ac=detail"@ + (match page {
        Some(p) => "&pg="@ + decimal_text(p as nat),
        None => Seq::empty(),
    }) + (match type_id {
        Some(t) => "&t="@ + t,
        None => Seq::empty(),
    }) + (match wd {
        Some(w) => "&wd="@ + query_text(w),
        None => Seq::empty(),
    })
}

/// The address that asks a source for videos.
pub fn videos_url(url: &str, page: Option<u32>, type_id: &Option<String>, wd: &Option<String>) -> (out:
    String)
    ensures
        out@ == videos_url_spec(url@, page, opt_text(*type_id), opt_text(*wd)),
{
    let mut out = chars_of(url);
    push_text(&mut out, "?ac=detail");
    let ghost base = out@;
    match page {
        Some(p) => {
            push_text(&mut out, "&pg=");
            push_number(&mut out, p as u64);
        },
        None => {
            assert(out@ =~= base + Seq::<char>::empty());
        },
    }
    let ghost paged = out@;
    match type_id {
        Some(t) => {
            push_text(&mut out, "&t=");
            push_text(&mut out, t.as_str());
        },
        None => {
            assert(out@ =~= paged + Seq::<char>::empty());
        },
    }
    let ghost typed = out@;
    match wd {
        Some(w) => {
            let encoded = url_encode(w.as_str());
            push_text(&mut out, "&wd=");
            push_text(&mut out, encoded.as_str());
        },
        None => {
            assert(out@ =~= typed + Seq::<char>::empty());
        },
    }
    string_of(&out)
}

/// Pages that a listing of `total` videos has when `limit` are asked for at
/// a time, or 20 when no limit is named; `None` where that cannot be said.
pub fn listing_pages(total: u64, limit: Option<u32>) -> (pages: Option<u32>)
    ensures
        pages == pages_for(
            total,
            match limit {
                Some(l) => l as u64,
                None => 20,
            },
        ),
{
    let per_page: u64 = match limit {
        Some(l) => l as u64,
        None => 20,
    };
    total_pages(total, per_page)
}

/// The kinds of failure that ingestion tells apart.
#[derive(Debug, Clone, Copy, PartialEq, Eq, Structural)]
pub enum ErrorKind {
    /// The request failed or its body could not be read.
    Network,
    /// The request ran out of time.
    Timeout,
    /// The answer is no valid envelope, or its code reports a failure.
    ApiProtocol,
    /// No local category is bound to the video's category.
    BindingNotFound,
    /// The store failed.
    Storage,
    /// The task was stopped: a clean early end, no failure.
    Cancelled,
}

/// A failure with the line that the progress log shows for it.
#[derive(Debug, Clone, PartialEq, Eq)]
pub struct CollectError {
    pub kind: ErrorKind,
    pub message: String,
}

/// A failure as the contracts see it.
pub struct CollectErrorView {
    pub kind: ErrorKind,
    pub message: Seq<char>,
}

impl View for CollectError {
    type V = CollectErrorView;

    open spec fn view(&self) -> CollectErrorView {
        CollectErrorView { kind: self.kind, message: self.message@ }
    }
}

impl CollectError {
    /// A copy of the failure.
    pub fn duplicate(&self) -> (out: CollectError)
        ensures
            out@ == self@,
    {
        CollectError { kind: self.kind, message: self.message.clone() }
    }

    /// The request did not answer in time.
    pub fn timeout() -> (out: CollectError)
        ensures
            out@ == (CollectErrorView { kind: ErrorKind::Timeout, message: "请求超时"@ }),
    {
        CollectError { kind: ErrorKind::Timeout, message: String::from_str("请求超时") }
    }

    /// The request failed; `detail` says how.
    pub fn network(detail: &str) -> (out: CollectError)
        ensures
            out@ == (CollectErrorView { kind: ErrorKind::Network, message: "请求失败: "@ + detail@ }),
    {
        let mut line = chars_of("请求失败: ");
        push_text(&mut line, detail);
        CollectError { kind: ErrorKind::Network, message: string_of(&line) }
    }

    /// The answer's body could not be read; `detail` says why.
    pub fn unreadable(detail: &str) -> (out: CollectError)
        ensures
            out@ == (CollectErrorView {
                kind: ErrorKind::Network,
                message: "读取响应失败: "@ + detail@,
            }),
    {
        let mut line = chars_of("读取响应失败: ");
        push_text(&mut line, detail);
        CollectError { kind: ErrorKind::Network, message: string_of(&line) }
    }

    /// The answer is no valid envelope; `detail` says why.
    pub fn undecodable(detail: &str) -> (out: CollectError)
        ensures
            out@ == (CollectErrorView {
                kind: ErrorKind::ApiProtocol,
                message: "解析API响应失败: "@ + detail@,
            }),
    {
        let mut line = chars_of("解析API响应失败: ");
        push_text(&mut line, detail);
        CollectError { kind: ErrorKind::ApiProtocol, message: string_of(&line) }
    }

    /// The envelope's code reports a failure.
    pub fn api_code(code: i32) -> (out: CollectError)
        ensures
            out@ == api_code_error(code),
    {
        let mut line = chars_of("API返回错误: ");
        let digits = signed_decimal_chars(code as i64);
        push_all(&mut line, &digits);
        CollectError { kind: ErrorKind::ApiProtocol, message: string_of(&line) }
    }

    /// The envelope's numbers give no page count.
    pub fn paging(total: u64, limit: u64) -> (out: CollectError)
        ensures
            out@ == paging_error(total, limit),
    {
        let mut line = chars_of("API返回错误: total ");
        push_number(&mut line, total);
        push_text(&mut line, ", limit ");
        push_number(&mut line, limit);
        CollectError { kind: ErrorKind::ApiProtocol, message: string_of(&line) }
    }

    /// No local category is bound to the video's category.
    pub fn binding_not_found() -> (out: CollectError)
        ensures
            out@ == (CollectErrorView {
                kind: ErrorKind::BindingNotFound,
                message: "未找到分类绑定"@,
            }),
    {
        CollectError { kind: ErrorKind::BindingNotFound, message: String::from_str("未找到分类绑定") }
    }

    /// The task was stopped by hand: the run ended early and cleanly.
    pub fn cancelled() -> (out: CollectError)
        ensures
            out@ == (CollectErrorView {
                kind: ErrorKind::Cancelled,
                message: crate::progress::stopped_log(),
            }),
    {
        CollectError { kind: ErrorKind::Cancelled, message: String::from_str("任务已手动停止") }
    }

    /// The store failed; `detail` says how.
    pub fn storage(detail: &str) -> (out: CollectError)
        ensures
            out@ == (CollectErrorView { kind: ErrorKind::Storage, message: detail@ }),
    {
        CollectError { kind: ErrorKind::Storage, message: String::from_str(detail) }
    }

    /// The same failure as the reason why the page count is not known.
    pub fn as_page_count_failure(&self) -> (out: CollectError)
        ensures
            out@ == page_count_failure(self@),
    {
        let mut line = chars_of("获取总页数失败: ");
        push_text(&mut line, self.message.as_str());
        CollectError { kind: self.kind, message: string_of(&line) }
    }
}

/// The failure of an envelope whose code is not 1.
pub open spec fn api_code_error(code: i32) -> CollectErrorView {
    CollectErrorView {
        kind: ErrorKind::ApiProtocol,
        message: "API返回错误: "@ + signed_decimal_text(code as int),
    }
}

/// A failure as the reason why the page count is not known.
pub open spec fn page_count_failure(cause: CollectErrorView) -> CollectErrorView {
    CollectErrorView { kind: cause.kind, message: "获取总页数失败: "@ + cause.message }
}

/// Pages needed for `total` entries at `limit` a page, rounded up. No
/// entries need no page. A listing that has entries and names no limit, or
/// needs more pages than can be counted, has no page count.
pub open spec fn pages_for(total: u64, limit: u64) -> Option<u32> {
    if total == 0 {
        Some(0u32)
    } else if limit == 0 {
        None
    } else {
        let pages = (total + limit - 1) / (limit as int);
        if pages > u32::MAX {
            None
        } else {
            Some(pages as u32)
        }
    }
}

/// Pages needed for `total` entries at `limit` a page, where that can be
/// said.
pub fn total_pages(total: u64, limit: u64) -> (pages: Option<u32>)
    ensures
        pages == pages_for(total, limit),
{
    if total == 0 {
        Some(0)
    } else if limit == 0 {
        None
    } else {
        let whole = total / limit;
        let ghost exact = (total + limit - 1) / (limit as int);
        assert(exact == if total % limit == 0 {
            whole as int
        } else {
            whole + 1
        }) by (nonlinear_arith)
            requires
                limit > 0,
                whole == total / limit,
                exact == (total + limit - 1) / (limit as int),
        ;
        if total % limit == 0 {
            if whole > 0xffff_ffff {
                None
            } else {
                Some(whole as u32)
            }
        } else if whole >= 0xffff_ffff {
            None
        } else {
            Some((whole + 1) as u32)
        }
    }
}

/// The failure of an envelope whose numbers give no page count.
pub open spec fn paging_error(total: u64, limit: u64) -> CollectErrorView {
    CollectErrorView {
        kind: ErrorKind::ApiProtocol,
        message: "API返回错误: total "@ + decimal_text(total as nat) + ", limit "@ + decimal_text(
            limit as nat,
        ),
    }
}

/// Seconds to wait after failed attempt number `attempt`: one, then twice
/// as long each time.
pub open spec fn backoff_spec(attempt: nat) -> nat {
    pow2((attempt - 1) as nat)
}

/// Seconds to wait after failed attempt number `attempt`.
pub fn backoff_seconds(attempt: u32) -> (seconds: u64)
    requires
        1 <= attempt <= 64,
    ensures
        seconds == backoff_spec(attempt as nat),
{
    let mut seconds: u64 = 1;
    let mut i: u32 = 1;
    proof {
        lemma2_to64();
    }
    while i < attempt
        invariant
            1 <= i <= attempt <= 64,
            seconds == pow2((i - 1) as nat),
        decreases attempt - i,
    {
        proof {
            lemma_pow2_unfold(i as nat);
            lemma_pow2_strictly_increases(i as nat, 64);
            lemma2_to64();
        }
        seconds = seconds * 2;
        i = i + 1;
    }
    seconds
}

/// How often the page count of a listing is asked for.
pub const PROBE_ATTEMPTS: u32 = 3;

/// Seconds after which a request for a listing page is given up.
pub const FETCH_TIMEOUT_SECONDS: u64 = 30;

/// What follows one attempt of a retried request.
#[derive(Debug, Clone, Copy, PartialEq, Eq, Structural)]
pub enum RetryStep {
    /// Wait this long, then try again.
    Retry { wait_seconds: u64 },
    /// That was the last attempt.
    GiveUp,
}

/// After a failure that was not the last attempt comes a wait; after the
/// last, giving up.
pub open spec fn retry_step_spec(attempt: nat, max_attempts: nat) -> RetryStep {
    if attempt < max_attempts {
        RetryStep::Retry { wait_seconds: backoff_spec(attempt) as u64 }
    } else {
        RetryStep::GiveUp
    }
}

/// What follows failed attempt number `attempt` of `max_attempts`.
pub fn after_failure(attempt: u32, max_attempts: u32) -> (step: RetryStep)
    requires
        attempt < max_attempts ==> 1 <= attempt <= 64,
    ensures
        step == retry_step_spec(attempt as nat, max_attempts as nat),
        step matches RetryStep::Retry { wait_seconds } ==> wait_seconds == backoff_spec(
            attempt as nat,
        ),
{
    if attempt < max_attempts {
        RetryStep::Retry { wait_seconds: backoff_seconds(attempt) }
    } else {
        RetryStep::GiveUp
    }
}

/// The page count in an answer to the probe, when the answer is good.
pub open spec fn probe_pages(reply: Result<VideoListResponse, CollectError>) -> Option<u32> {
    match reply {
        Ok(listing) => if listing.code == 1 {
            pages_for(listing.total, listing.limit)
        } else {
            None
        },
        Err(_) => None,
    }
}

/// Why an answer to the probe is no good.
pub open spec fn probe_failure(reply: Result<VideoListResponse, CollectError>) -> CollectErrorView {
    match reply {
        Ok(listing) => if listing.code == 1 {
            paging_error(listing.total, listing.limit)
        } else {
            api_code_error(listing.code)
        },
        Err(cause) => if cause.kind == ErrorKind::ApiProtocol {
            cause@
        } else {
            page_count_failure(cause@)
        },
    }
}

/// What follows one answer to the page-count probe.
#[derive(Debug, Clone, PartialEq, Eq)]
pub enum ProbeStep {
    /// The listing has this many pages.
    Done(u32),
    /// Wait this long, then ask again.
    Retry { wait_seconds: u64 },
    /// The last attempt failed, for this reason.
    GiveUp(CollectError),
}

/// A step as the contracts see it.
pub enum ProbeStepView {
    Done(u32),
    Retry { wait_seconds: u64 },
    GiveUp(CollectErrorView),
}

impl View for ProbeStep {
    type V = ProbeStepView;

    open spec fn view(&self) -> ProbeStepView {
        match self {
            ProbeStep::Done(pages) => ProbeStepView::Done(*pages),
            ProbeStep::Retry { wait_seconds } => ProbeStepView::Retry { wait_seconds: *wait_seconds },
            ProbeStep::GiveUp(cause) => ProbeStepView::GiveUp(cause@),
        }
    }
}

/// What follows an answer to the probe: the page count of a good answer;
/// after a bad one a wait, or the reason when it was the last attempt.
pub open spec fn probe_step_spec(
    attempt: nat,
    max_attempts: nat,
    reply: Result<VideoListResponse, CollectError>,
) -> ProbeStepView {
    match probe_pages(reply) {
        Some(pages) => ProbeStepView::Done(pages),
        None => match retry_step_spec(attempt, max_attempts) {
            RetryStep::Retry { wait_seconds } => ProbeStepView::Retry { wait_seconds },
            RetryStep::GiveUp => ProbeStepView::GiveUp(probe_failure(reply)),
        },
    }
}

/// Reads one answer to the page-count probe: the page count of a good
/// answer, a wait before the next attempt after a bad one, the reason after
/// the last.
pub fn probe_step(attempt: u32, max_attempts: u32, reply: &Result<VideoListResponse, CollectError>) -> (step:
    ProbeStep)
    requires
        attempt < max_attempts ==> 1 <= attempt <= 64,
    ensures
        step@ == probe_step_spec(attempt as nat, max_attempts as nat, *reply),
{
    match reply {
        Ok(listing) => {
            if listing.code == 1 {
                match total_pages(listing.total, listing.limit) {
                    Some(pages) => {
                        return ProbeStep::Done(pages);
                    },
                    None => {},
                }
            }
        },
        Err(_) => {},
    }
    match after_failure(attempt, max_attempts) {
        RetryStep::Retry { wait_seconds } => ProbeStep::Retry { wait_seconds },
        RetryStep::GiveUp => {
            let cause = match reply {
                Ok(listing) => {
                    if listing.code == 1 {
                        CollectError::paging(listing.total, listing.limit)
                    } else {
                        CollectError::api_code(listing.code)
                    }
                },
                Err(cause) => {
                    if cause.kind == ErrorKind::ApiProtocol {
                        cause.duplicate()
                    } else {
                        cause.as_page_count_failure()
                    }
                },
            };
            ProbeStep::GiveUp(cause)
        },
    }
}

/// What a whole probe did: how often it asked, how long it waited after
/// each failure but the last, and the page count if it got one.
pub struct ProbeTrace {
    pub attempts: nat,
    pub waits: Seq<nat>,
    pub pages: Option<u32>,
}

/// The probe from attempt `attempt` on, when attempt `k` is answered with
/// `answers[k - 1]`: a page count, or `None` for a failure.
pub open spec fn probe_trace(answers: Seq<Option<u32>>, attempt: nat, max_attempts: nat) -> ProbeTrace
    decreases max_attempts - attempt,
{
    match answers[attempt - 1] {
        Some(pages) => ProbeTrace { attempts: attempt, waits: Seq::empty(), pages: Some(pages) },
        None => match retry_step_spec(attempt, max_attempts) {
            RetryStep::Retry { wait_seconds } => {
                let rest = probe_trace(answers, attempt + 1, max_attempts);
                ProbeTrace {
                    attempts: rest.attempts,
                    waits: seq![backoff_spec(attempt)] + rest.waits,
                    pages: rest.pages,
                }
            },
            RetryStep::GiveUp => ProbeTrace { attempts: attempt, waits: Seq::empty(), pages: None },
        },
    }
}

/// A probe that never gets a good answer asks exactly `max_attempts` times,
/// waits after each attempt but the last, each wait twice the one before,
/// and ends without a page count.
pub proof fn lemma_probe_always_failing(answers: Seq<Option<u32>>, attempt: nat, max_attempts: nat)
    requires
        1 <= attempt <= max_attempts,
        answers.len() >= max_attempts,
        forall|k: int| attempt - 1 <= k < max_attempts ==> answers[k] is None,
    ensures
        ({
            let trace = probe_trace(answers, attempt, max_attempts);
            &&& trace.attempts == max_attempts
            &&& trace.pages is None
            &&& trace.waits.len() == max_attempts - attempt
            &&& forall|i: int|
                0 <= i < trace.waits.len() ==> #[trigger] trace.waits[i] == backoff_spec(
                    (attempt + i) as nat,
                )
            &&& forall|i: int|
                0 <= i < trace.waits.len() - 1 ==> trace.waits[i + 1] == 2 * #[trigger] trace.waits[i]
        }),
    decreases max_attempts - attempt,
{
    if attempt < max_attempts {
        lemma_probe_always_failing(answers, attempt + 1, max_attempts);
        let rest = probe_trace(answers, attempt + 1, max_attempts);
        let trace = probe_trace(answers, attempt, max_attempts);
        assert(trace.waits == seq![backoff_spec(attempt)] + rest.waits);
        assert forall|i: int| 0 <= i < trace.waits.len() implies #[trigger] trace.waits[i]
            == backoff_spec((attempt + i) as nat) by {
            if i > 0 {
                assert(trace.waits[i] == rest.waits[i - 1]);
            }
        }
        assert forall|i: int| 0 <= i < trace.waits.len() - 1 implies trace.waits[i + 1] == 2
            * #[trigger] trace.waits[i] by {
            lemma_pow2_unfold((attempt + i) as nat);
        }
    }
}

/// With the three attempts of the page-count probe: three requests, and
/// waits of one and two seconds between them.
pub proof fn lemma_probe_three_failures(answers: Seq<Option<u32>>)
    requires
        answers.len() >= 3,
        answers[0] is None,
        answers[1] is None,
        answers[2] is None,
    ensures
        probe_trace(answers, 1, PROBE_ATTEMPTS as nat).attempts == 3,
        probe_trace(answers, 1, PROBE_ATTEMPTS as nat).pages is None,
        probe_trace(answers, 1, PROBE_ATTEMPTS as nat).waits == seq![1nat, 2nat],
{
    lemma_probe_always_failing(answers, 1, 3);
    lemma2_to64();
    let trace = probe_trace(answers, 1, 3);
    assert(trace.waits[0] == backoff_spec(1));
    assert(trace.waits[1] == backoff_spec(2));
    assert(trace.waits =~= seq![1nat, 2nat]);
}

} // verus!
