//! The image localizer's rules: where a fetched picture is stored, how often
//! a download is tried and how long to wait between attempts. Fetching,
//! converting and writing are the caller's.

use crate::remote::{after_failure, retry_step_spec, CollectError, CollectErrorView, ErrorKind, RetryStep};
use crate::text::{
    chars_of, decimal_text, lemma_split_nonempty, push_all, push_number, push_text, split_chars,
    split_seq, string_of, views_of,
};
use vstd::prelude::*;

verus! {

/// Quality, out of 100, at which a converted picture is encoded.
pub const WEBP_QUALITY: u8 = 75;

/// The directory that holds localized pictures.
pub open spec fn image_dir() -> Seq<char> {
    "static/images/"@
}

/// How often a download is tried: as the source says, or three times when
/// it names no positive number.
pub open spec fn attempts_spec(collect_download_retry: i32) -> u32 {
    if collect_download_retry > 0 {
        collect_download_retry as u32
    } else {
        3
    }
}

/// How often a download is tried for a source with this setting.
pub fn download_attempts(collect_download_retry: i32) -> (out: u32)
    ensures
        out == attempts_spec(collect_download_retry),
{
    if collect_download_retry > 0 {
        collect_download_retry as u32
    } else {
        3
    }
}

/// The extension of the stored file: `webp` for a converted picture, else
/// what follows the last `.` of the address (the whole address when it has
/// none).
pub open spec fn extension_spec(image_url: Seq<char>, convert_to_webp: bool) -> Seq<char> {
    if convert_to_webp {
        "webp"@
    } else {
        split_seq(image_url, '.').last()
    }
}

/// The extension under which the picture at `image_url` is stored.
pub fn file_extension(image_url: &str, convert_to_webp: bool) -> (out: String)
    ensures
        out@ == extension_spec(image_url@, convert_to_webp),
{
    if convert_to_webp {
        String::from_str("webp")
    } else {
        let chars = chars_of(image_url);
        let pieces = split_chars(&chars, '.');
        proof {
            lemma_split_nonempty(chars@, '.');
            assert(views_of(pieces@).len() == pieces@.len());
        }
        let last = &pieces[pieces.len() - 1];
        assert(views_of(pieces@).last() == last@);
        string_of(last)
    }
}

/// The shape of a random identifier in its usual form: 36 characters, `-`
/// at four fixed places, lower-case hexadecimal digits elsewhere.
pub open spec fn is_uuid_text(id: Seq<char>) -> bool {
    &&& id.len() == 36
    &&& forall|i: int|
        0 <= i < 36 ==> if i == 8 || i == 13 || i == 18 || i == 23 {
            #[trigger] id[i] == '-'
        } else {
            is_lower_hex(id[i])
        }
}

/// A lower-case hexadecimal digit.
pub open spec fn is_lower_hex(c: char) -> bool {
    ('0' <= c && c <= '9') || ('a' <= c && c <= 'f')
}

/// A fresh random identifier from `uuid::Uuid::new_v4`, written out by its
/// `to_string`: the hyphenated lower-case form. Nothing is claimed of which
/// identifier comes back. The call needs random bytes from the system and
/// does not return where there are none.
#[verifier::external_body]
pub(crate) fn fresh_uuid_text() -> (out: String)
    ensures
        is_uuid_text(out@),
{
    uuid::Uuid::new_v4().to_string()
}

/// Where one picture goes.
#[derive(Debug, Clone, PartialEq, Eq)]
pub struct ImageTarget {
    /// The identifier that names the file.
    pub id: String,
    pub file_name: String,
    /// Where the file is written, from the working directory.
    pub local_path: String,
    /// The path by which catalog rows refer to the file.
    pub public_path: String,
}

/// A place for a picture as the contracts see it.
pub struct ImageTargetView {
    pub id: Seq<char>,
    pub file_name: Seq<char>,
    pub local_path: Seq<char>,
    pub public_path: Seq<char>,
}

impl View for ImageTarget {
    type V = ImageTargetView;

    open spec fn view(&self) -> ImageTargetView {
        ImageTargetView {
            id: self.id@,
            file_name: self.file_name@,
            local_path: self.local_path@,
            public_path: self.public_path@,
        }
    }
}

/// The place of a picture: the file is named by `id` and the extension, is
/// written into the picture directory, and is referred to from the root.
pub open spec fn image_target_spec(id: Seq<char>, image_url: Seq<char>, convert_to_webp: bool) -> ImageTargetView {
    let file_name = id + "."@ + extension_spec(image_url, convert_to_webp);
    ImageTargetView {
        id,
        file_name,
        local_path: image_dir() + file_name,
        public_path: "/"@ + image_dir() + file_name,
    }
}

/// The place of the picture at `image_url` when its file is named by `id`.
pub fn image_target(id: String, image_url: &str, convert_to_webp: bool) -> (out: ImageTarget)
    ensures
        out@ == image_target_spec(id@, image_url@, convert_to_webp),
{
    let extension = file_extension(image_url, convert_to_webp);
    let mut name = chars_of(id.as_str());
    push_text(&mut name, ".");
    push_text(&mut name, extension.as_str());
    let mut local = chars_of("static/images/");
    push_all(&mut local, &name);
    let mut public = chars_of("/");
    push_text(&mut public, "static/images/");
    push_all(&mut public, &name);
    ImageTarget {
        id,
        file_name: string_of(&name),
        local_path: string_of(&local),
        public_path: string_of(&public),
    }
}

/// A place for the picture at `image_url` under a fresh random name.
pub fn new_image_target(image_url: &str, convert_to_webp: bool) -> (out: ImageTarget)
    ensures
        is_uuid_text(out@.id),
        out@ == image_target_spec(out@.id, image_url@, convert_to_webp),
{
    let id = fresh_uuid_text();
    image_target(id, image_url, convert_to_webp)
}

/// The failure of a download that was answered with a status that is no
/// success.
pub fn http_failure(status: u16) -> (out: CollectError)
    ensures
        out@ == (CollectErrorView {
            kind: ErrorKind::Network,
            message: "HTTP错误: "@ + decimal_text(status as nat),
        }),
{
    let mut line = chars_of("HTTP错误: ");
    push_number(&mut line, status as u64);
    CollectError { kind: ErrorKind::Network, message: string_of(&line) }
}

/// What follows one attempt to fetch and store a picture.
#[derive(Debug, Clone, PartialEq, Eq)]
pub enum DownloadStep {
    /// The picture is stored: rows refer to it by this path.
    Stored(String),
    /// Wait this long, then try again.
    Retry { wait_seconds: u64 },
    /// The last attempt failed, for this reason: the row keeps the remote
    /// address.
    GiveUp(CollectError),
}

/// A step as the contracts see it.
pub enum DownloadStepView {
    Stored(Seq<char>),
    Retry { wait_seconds: u64 },
    GiveUp(CollectErrorView),
}

impl View for DownloadStep {
    type V = DownloadStepView;

    open spec fn view(&self) -> DownloadStepView {
        match self {
            DownloadStep::Stored(path) => DownloadStepView::Stored(path@),
            DownloadStep::Retry { wait_seconds } => DownloadStepView::Retry {
                wait_seconds: *wait_seconds,
            },
            DownloadStep::GiveUp(cause) => DownloadStepView::GiveUp(cause@),
        }
    }
}

/// What follows an attempt: the stored path after a success; after a
/// failure a wait, or the failure itself when it was the last attempt.
pub open spec fn download_step_spec(
    attempt: nat,
    max_attempts: nat,
    public_path: Seq<char>,
    outcome: Result<(), CollectError>,
) -> DownloadStepView {
    match outcome {
        Ok(_) => DownloadStepView::Stored(public_path),
        Err(cause) => match retry_step_spec(attempt, max_attempts) {
            RetryStep::Retry { wait_seconds } => DownloadStepView::Retry { wait_seconds },
            RetryStep::GiveUp => DownloadStepView::GiveUp(cause@),
        },
    }
}

/// Reads the outcome of attempt number `attempt` of `max_attempts`: a
/// stored picture ends the work; a failure is followed by a wait of
/// `2^(attempt-1)` seconds and another attempt, or, after the last attempt,
/// by giving up with that failure.
pub fn after_download(
    attempt: u32,
    max_attempts: u32,
    target: &ImageTarget,
    outcome: &Result<(), CollectError>,
) -> (step: DownloadStep)
    requires
        *outcome is Err && attempt < max_attempts ==> 1 <= attempt <= 64,
    ensures
        step@ == download_step_spec(
            attempt as nat,
            max_attempts as nat,
            target@.public_path,
            *outcome,
        ),
{
    match outcome {
        Ok(_) => DownloadStep::Stored(target.public_path.clone()),
        Err(cause) => match after_failure(attempt, max_attempts) {
            RetryStep::Retry { wait_seconds } => DownloadStep::Retry { wait_seconds },
            RetryStep::GiveUp => DownloadStep::GiveUp(cause.duplicate()),
        },
    }
}

} // verus!
