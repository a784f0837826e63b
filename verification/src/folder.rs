//! The folder watcher: which files of the watched directory are taken, what
//! a file has to pass before upload (size, stability, hash), the retrying
//! upload, the post-upload action and the watcher's own status.
//!
//! Nothing here touches the file system or the network. A [`FileJob`] says
//! what is to be done with one file and takes reports of what happened.

use vstd::prelude::*;
use vstd::string::StringExecFns;
use sha2::{Digest, Sha256};
use crate::clock::now_rfc3339;
use crate::http::{
    file_part, is_backend_request, is_file_part, is_success, is_success_status, is_text_part,
    text_part, Answer, Body, FormPart, HttpMethod, HttpRequest,
};
use crate::text::{
    decimal, decimal_string, from_chars, hex_lower, hex_string, lowercase, lowercase_of,
    has_no_duplicates, holds_text, insert_text, same_text, texts_of, to_chars,
};

verus! {

/// Path of the upload endpoint under the backend URL.
pub const UPLOAD_PATH: &'static str = "/api/scanner/bridge/folder-upload";

/// Path of the status endpoint under the backend URL.
pub const SYNC_STATUS_PATH: &'static str = "/api/scanner/bridge/folder-sync-status";

/// Largest file that is uploaded, in bytes: 50 MiB.
pub const MAX_FILE_SIZE: u64 = 52428800;

/// Size samples taken to see whether a file is still being written.
pub const STABILITY_SAMPLES: usize = 3;

/// Pause after each size sample, in milliseconds.
pub const STABILITY_INTERVAL_MS: u64 = 1500;

/// Total upload attempts per file.
pub const MAX_UPLOAD_ATTEMPTS: u8 = 3;

/// Extra pause after a rate-limit reply, in seconds.
pub const RATE_LIMIT_PAUSE_SECS: u64 = 10;

/// Timeout of one upload attempt, in seconds.
pub const UPLOAD_TIMEOUT_SECS: u64 = 60;

/// Timeout of a status report, in seconds.
pub const STATUS_TIMEOUT_SECS: u64 = 10;

/// Timeout of the report sent when the watcher stops, in seconds.
pub const STOP_TIMEOUT_SECS: u64 = 5;

/// Pause between two looks at the directory, in seconds.
pub const CYCLE_SECS: u64 = 5;

/// The status is reported to the backend once in this many cycles.
pub const REPORT_EVERY: u32 = 6;

/// Name of the subfolder that uploaded files are moved to.
pub const UPLOADED_DIR: &'static str = "uploaded";

/// What happens to a file once the backend has it.
#[derive(Clone, Copy, Debug, PartialEq, Eq, Structural)]
pub enum PostUploadAction {
    /// Move it into the subfolder `uploaded` of its directory.
    MoveToSubfolder,
    /// Remove it.
    Delete,
    /// Leave it.
    Keep,
}

/// The folder sync as configured.
#[derive(Clone, Debug)]
pub struct FolderSyncConfig {
    pub enabled: bool,
    pub watch_path: String,
    pub post_upload_action: PostUploadAction,
}

/// What the watcher has done so far.
#[derive(Clone, Debug)]
pub struct FolderSyncStatus {
    pub running: bool,
    pub watch_path: Option<String>,
    pub files_uploaded: u32,
    pub files_pending: u32,
    pub errors: u32,
    pub last_upload: Option<String>,
    pub last_error: Option<String>,
}

/// The backend's answer to an upload.
#[derive(Clone, Debug)]
pub struct FolderUploadResponse {
    pub success: bool,
    pub job_id: i64,
    pub filename: String,
    pub duplicate: bool,
    pub message: String,
}

/// The body of a status report to the backend.
#[derive(Clone, Debug)]
pub struct FolderSyncReport {
    pub folder_sync_enabled: bool,
    pub watched_folder: String,
    pub files_uploaded: u32,
    pub errors: u32,
    pub last_sync_at: Option<String>,
}

/// One entry of the watched directory, as the directory listing gives it.
#[derive(Clone, Debug)]
pub struct FileEntry {
    /// The full path.
    pub path: String,
    /// The last component of the path.
    pub file_name: String,
    /// The name of the directory that holds the entry, if it has one.
    pub parent_name: Option<String>,
    /// Whether the entry is a regular file.
    pub is_file: bool,
}

/// Where the handling of one file stands.
#[derive(Clone, Copy, Debug, PartialEq, Eq, Structural)]
pub enum FileStage {
    /// The size is being asked for.
    Sizing,
    /// The size samples are being taken.
    Sampling,
    /// The content is being read for hashing.
    Hashing,
    /// Upload attempt `attempt` (from 0) is under way.
    Uploading { attempt: u8 },
    /// Pausing before upload attempt `attempt`.
    Pausing { attempt: u8 },
    /// Pausing after attempt `attempt` met the rate limit.
    Cooling { attempt: u8 },
    /// The post-upload action is under way.
    Disposing,
    /// The file is dealt with.
    Done,
    /// The file has failed.
    Failed,
}

/// Why a file failed.
#[derive(Clone, Copy, Debug, PartialEq, Eq, Structural)]
pub enum FileFailure {
    /// The file could not be looked at or read.
    Unreadable,
    /// The file is larger than [`MAX_FILE_SIZE`].
    TooLarge,
    /// The size samples differ or are zero.
    Unstable,
    /// No upload attempt was accepted.
    UploadFailed,
    /// The backend accepted the upload with an answer that cannot be read.
    BadResponse,
    /// The post-upload action failed.
    DisposalFailed,
    /// The report does not answer what the job had asked for.
    OutOfTurn,
}

/// What a report means to the state machine.
#[derive(Clone, Copy, Debug, PartialEq, Eq, Structural)]
pub enum FileReportKind {
    SizeFits,
    SizeTooLarge,
    Stable,
    Unstable,
    /// The content's hash is among the known ones.
    KnownContent,
    /// The content's hash is new.
    NewContent,
    /// The file could not be looked at or read.
    Unreadable,
    /// Upload accepted, answer read.
    Accepted,
    /// Upload accepted, answer unreadable.
    BadResponse,
    /// Upload met the rate limit (status 429).
    RateLimited,
    /// Upload refused with another status.
    Refused,
    /// Upload got no reply.
    NoReply,
    Elapsed,
    Disposed,
    DisposalFailed,
}

/// What the embedding program does next for a file.
#[derive(Clone, Copy, Debug, PartialEq, Eq, Structural)]
pub enum FileAction {
    /// Ask for the size; report `Size`.
    Stat,
    /// Take `count` size samples with `interval_ms` after each; report
    /// `Samples`.
    Sample { count: usize, interval_ms: u64 },
    /// Read the content; report `Content`.
    ReadForHash,
    /// Read the content again, build the request with
    /// [`FolderWatcher::upload_file`], send it; report the reply.
    Upload,
    /// Wait; report `Elapsed`.
    Pause { secs: u64 },
    /// Carry out the post-upload action; report `Disposed` or
    /// `DisposalFailed`. A move goes into the subfolder [`UPLOADED_DIR`] of
    /// the file's directory, under the file's name, unless
    /// [`move_refusal`] speaks against it.
    Dispose { action: PostUploadAction },
    /// The file is dealt with.
    Finish,
    /// The file has failed.
    Abort,
}

/// The part of a file job that decides.
#[derive(Clone, Copy, Debug, PartialEq, Eq, Structural)]
pub struct FileProgress {
    pub stage: FileStage,
    /// Upload requests issued so far.
    pub uploads: u8,
    /// Seconds paused between upload attempts so far.
    pub waited_secs: u64,
    pub failure: Option<FileFailure>,
}

/// What the embedding program reports to a file job.
#[derive(Debug)]
pub enum FileReport {
    /// The size of the file in bytes.
    Size { bytes: u64 },
    /// The size samples taken; fewer than asked for if the file went away.
    Samples { sizes: Vec<u64> },
    /// The content read for hashing.
    Content { data: Vec<u8> },
    /// The file could not be looked at or read.
    Unreadable { detail: String },
    /// What came back for an upload.
    Uploaded { answer: Answer<FolderUploadResponse> },
    /// The pause is over.
    Elapsed,
    /// The post-upload action is done.
    Disposed,
    /// The post-upload action failed.
    DisposalFailed { detail: String },
}

/// The handling of one file.
#[derive(Debug)]
pub struct FileJob {
    pub entry: FileEntry,
    pub progress: FileProgress,
    /// The size as last reported.
    pub size: u64,
    /// The content hash, once the content was read.
    pub hash: String,
    /// The text of the last error met.
    pub detail: String,
}

/// What a watcher does at the top of a cycle.
#[derive(Clone, Copy, Debug, PartialEq, Eq, Structural)]
pub enum CycleAction {
    /// List the watched directory and handle its eligible files in order.
    Scan,
    /// Leave the loop.
    Leave,
}

/// What is left to do at the end of a cycle.
#[derive(Debug)]
pub struct CycleEnd {
    /// The status report to send, where one is due.
    pub report: Option<HttpRequest>,
    /// Seconds to pause before the next cycle.
    pub pause_secs: u64,
}

/// How a look at the watched directory ended.
#[derive(Debug)]
pub enum CycleOutcome {
    /// The directory was listed; `pending` eligible files were handled.
    Scanned { pending: u32 },
    /// The directory could not be listed.
    Unreadable { detail: String },
}

/// The watcher of one directory.
#[derive(Debug)]
pub struct FolderWatcher {
    pub config: FolderSyncConfig,
    pub api_key: String,
    pub docflow_url: String,
    pub status: FolderSyncStatus,
    /// Hashes of the contents uploaded by this watcher, each once.
    pub known_hashes: Vec<String>,
    /// Cycles completed, counted modulo `2^32`.
    pub cycle: u32,
}

/// Index of the last `.` in `name`, or -1.
pub open spec fn last_dot(name: Seq<char>) -> int
    decreases name.len(),
{
    if name.len() == 0 {
        -1
    } else if name.last() == '.' {
        name.len() - 1
    } else {
        last_dot(name.drop_last())
    }
}

/// The extension of a file name: what follows its last `.`, unless the name
/// has none, has its only one in front, or is `..`.
pub open spec fn extension_of(name: Seq<char>) -> Option<Seq<char>> {
    let i = last_dot(name);
    if i <= 0 || name == seq!['.', '.'] {
        None
    } else {
        Some(name.subrange(i + 1, name.len() as int))
    }
}

/// The lower-case extensions that are taken.
pub open spec fn is_allowed_lower(ext: Seq<char>) -> bool {
    ext == "pdf"@ || ext == "jpg"@ || ext == "jpeg"@ || ext == "png"@ || ext == "tiff"@ || ext
        == "tif"@
}

/// A file name is taken if it has an extension whose lower-case form is one
/// of `pdf`, `jpg`, `jpeg`, `png`, `tiff`, `tif`.
pub open spec fn is_allowed_name(name: Seq<char>) -> bool {
    match extension_of(name) {
        Some(ext) => is_allowed_lower(lowercase_of(ext)),
        None => false,
    }
}

/// The MIME type sent for a file name, by its extension as written.
pub open spec fn mime_of(name: Seq<char>) -> Seq<char> {
    match extension_of(name) {
        Some(ext) => if ext == "pdf"@ {
            "application/pdf"@
        } else if ext == "jpg"@ || ext == "jpeg"@ {
            "image/jpeg"@
        } else if ext == "png"@ {
            "image/png"@
        } else if ext == "tiff"@ || ext == "tif"@ {
            "image/tiff"@
        } else {
            "application/octet-stream"@
        },
        None => "application/octet-stream"@,
    }
}

/// An entry is eligible if it is a regular file, does not lie in a directory
/// named `uploaded`, and has an allowed extension.
pub open spec fn is_eligible_entry(entry: FileEntry) -> bool {
    &&& entry.is_file
    &&& match entry.parent_name {
        Some(p) => p@ != UPLOADED_DIR@,
        None => true,
    }
    &&& is_allowed_name(entry.file_name@)
}

/// Three samples, all equal and not zero.
pub open spec fn is_stable_sizes(sizes: Seq<u64>) -> bool {
    &&& sizes.len() == 3
    &&& sizes[0] == sizes[1]
    &&& sizes[1] == sizes[2]
    &&& sizes[0] > 0
}

/// The SHA-256 digest of a byte string, as the `sha2` crate computes it.
pub uninterp spec fn sha256_of(data: Seq<u8>) -> Seq<u8>;

/// The hash under which a file's content is known: its SHA-256 digest in
/// lower-case hexadecimal.
pub open spec fn content_hash_of(data: Seq<u8>) -> Seq<char> {
    hex_lower(sha256_of(data))
}

/// Why a file is not moved: it is never moved onto another one.
pub open spec fn move_refusal_of(destination_exists: bool) -> Option<Seq<char>> {
    if destination_exists {
        Some("Zieldatei existiert bereits"@)
    } else {
        None
    }
}

/// `n + 1`, or `n` where that does not fit.
pub open spec fn bumped(n: u32) -> u32 {
    if n < u32::MAX {
        (n + 1) as u32
    } else {
        n
    }
}

/// `2^n`.
pub open spec fn two_to(n: nat) -> nat
    decreases n,
{
    if n == 0 {
        1
    } else {
        2 * two_to((n - 1) as nat)
    }
}

/// Seconds to pause before upload attempt `attempt`.
pub open spec fn backoff_secs(attempt: u8) -> u64 {
    two_to(attempt as nat) as u64
}

/// What a size means.
pub open spec fn size_kind(size: Option<u64>) -> FileReportKind {
    match size {
        Some(n) => if n > MAX_FILE_SIZE {
            FileReportKind::SizeTooLarge
        } else {
            FileReportKind::SizeFits
        },
        None => FileReportKind::Unreadable,
    }
}

/// What size samples mean.
pub open spec fn samples_kind(sizes: Seq<u64>) -> FileReportKind {
    if is_stable_sizes(sizes) {
        FileReportKind::Stable
    } else {
        FileReportKind::Unstable
    }
}

/// What a content means, given the hashes known so far.
pub open spec fn content_kind(known: Set<Seq<char>>, data: Seq<u8>) -> FileReportKind {
    if known.contains(content_hash_of(data)) {
        FileReportKind::KnownContent
    } else {
        FileReportKind::NewContent
    }
}

/// What an upload reply means: success needs a readable answer, 429 is the
/// rate limit, any other status a refusal.
pub open spec fn upload_reply_kind(status: u16, readable: bool) -> FileReportKind {
    if is_success(status) {
        if readable {
            FileReportKind::Accepted
        } else {
            FileReportKind::BadResponse
        }
    } else if status == 429 {
        FileReportKind::RateLimited
    } else {
        FileReportKind::Refused
    }
}

/// What a report means, given the hashes known so far.
pub open spec fn file_report_kind(report: FileReport, known: Set<Seq<char>>) -> FileReportKind {
    match report {
        FileReport::Size { bytes } => size_kind(Some(bytes)),
        FileReport::Samples { sizes } => samples_kind(sizes@),
        FileReport::Content { data } => content_kind(known, data@),
        FileReport::Unreadable { detail } => FileReportKind::Unreadable,
        FileReport::Uploaded { answer } => match answer {
            Answer::NoReply { reason } => FileReportKind::NoReply,
            Answer::Reply { status, body, decoded } => upload_reply_kind(status, decoded is Ok),
        },
        FileReport::Elapsed => FileReportKind::Elapsed,
        FileReport::Disposed => FileReportKind::Disposed,
        FileReport::DisposalFailed { detail } => FileReportKind::DisposalFailed,
    }
}

/// The error text that a report leaves behind, if it brings one: why a
/// file could not be read or disposed of, why no reply came, what the
/// decoder said to an accepted upload, that the rate limit was met, or the
/// body of a refusal.
pub open spec fn report_detail(report: FileReport) -> Option<Seq<char>> {
    match report {
        FileReport::Unreadable { detail } => Some(detail@),
        FileReport::Uploaded { answer } => match answer {
            Answer::NoReply { reason } => Some(reason@),
            Answer::Reply { status, body, decoded } => if is_success(status) {
                match decoded {
                    Ok(given) => None,
                    Err(why) => Some(why@),
                }
            } else if status == 429 {
                Some("Rate-Limit erreicht"@)
            } else {
                Some(body@)
            },
        },
        FileReport::DisposalFailed { detail } => Some(detail@),
        _ => None,
    }
}

/// The progress of a file job that has failed.
pub open spec fn file_failed(p: FileProgress, failure: FileFailure) -> FileProgress {
    FileProgress {
        stage: FileStage::Failed,
        uploads: p.uploads,
        waited_secs: p.waited_secs,
        failure: Some(failure),
    }
}

/// The progress of a file job that moves on to `stage`.
pub open spec fn file_moved(p: FileProgress, stage: FileStage) -> FileProgress {
    FileProgress { stage, uploads: p.uploads, waited_secs: p.waited_secs, failure: p.failure }
}

/// The progress of a file job that issues upload attempt `attempt` after
/// having paused `paused` seconds.
pub open spec fn file_uploading(p: FileProgress, attempt: u8, paused: u64) -> FileProgress {
    FileProgress {
        stage: FileStage::Uploading { attempt },
        uploads: (p.uploads + 1) as u8,
        waited_secs: (p.waited_secs + paused) as u64,
        failure: p.failure,
    }
}

/// After a failed attempt: the pause before the next one, or failure when
/// [`MAX_UPLOAD_ATTEMPTS`] are used up. `paused` seconds were spent since the
/// attempt.
pub open spec fn file_retry(p: FileProgress, attempt: u8, paused: u64) -> FileProgress {
    if attempt + 1 < MAX_UPLOAD_ATTEMPTS {
        FileProgress {
            stage: FileStage::Pausing { attempt: (attempt + 1) as u8 },
            uploads: p.uploads,
            waited_secs: (p.waited_secs + paused) as u64,
            failure: p.failure,
        }
    } else {
        FileProgress {
            stage: FileStage::Failed,
            uploads: p.uploads,
            waited_secs: (p.waited_secs + paused) as u64,
            failure: Some(FileFailure::UploadFailed),
        }
    }
}

/// The transition function of a file job.
///
/// A file has to fit the size limit, to be at rest, and to be hashed. Known
/// content skips the upload and goes to the post-upload action. New content
/// is uploaded in up to [`MAX_UPLOAD_ATTEMPTS`] attempts: before attempt `a`
/// the job pauses `2^a` seconds, after a rate-limit reply another
/// [`RATE_LIMIT_PAUSE_SECS`]. An unreadable file or answer fails the job at
/// once. A report that does not fit the stage fails the job.
pub open spec fn next_file_progress(p: FileProgress, kind: FileReportKind) -> FileProgress {
    match (p.stage, kind) {
        (FileStage::Sizing, FileReportKind::SizeFits) => file_moved(p, FileStage::Sampling),
        (FileStage::Sizing, FileReportKind::SizeTooLarge) => file_failed(p, FileFailure::TooLarge),
        (FileStage::Sizing, FileReportKind::Unreadable) => file_failed(p, FileFailure::Unreadable),
        (FileStage::Sampling, FileReportKind::Stable) => file_moved(p, FileStage::Hashing),
        (FileStage::Sampling, FileReportKind::Unstable) => file_failed(p, FileFailure::Unstable),
        (FileStage::Hashing, FileReportKind::KnownContent) => file_moved(p, FileStage::Disposing),
        (FileStage::Hashing, FileReportKind::NewContent) => file_uploading(p, 0, 0),
        (FileStage::Hashing, FileReportKind::Unreadable) => file_failed(p, FileFailure::Unreadable),
        (FileStage::Uploading { attempt }, FileReportKind::Accepted) => file_moved(
            p,
            FileStage::Disposing,
        ),
        (FileStage::Uploading { attempt }, FileReportKind::BadResponse) => file_failed(
            p,
            FileFailure::BadResponse,
        ),
        (FileStage::Uploading { attempt }, FileReportKind::Unreadable) => file_failed(
            p,
            FileFailure::Unreadable,
        ),
        (FileStage::Uploading { attempt }, FileReportKind::RateLimited) => file_moved(
            p,
            FileStage::Cooling { attempt },
        ),
        (FileStage::Uploading { attempt }, FileReportKind::Refused) => file_retry(p, attempt, 0),
        (FileStage::Uploading { attempt }, FileReportKind::NoReply) => file_retry(p, attempt, 0),
        (FileStage::Cooling { attempt }, FileReportKind::Elapsed) => file_retry(
            p,
            attempt,
            RATE_LIMIT_PAUSE_SECS,
        ),
        (FileStage::Pausing { attempt }, FileReportKind::Elapsed) => file_uploading(
            p,
            attempt,
            backoff_secs(attempt),
        ),
        (FileStage::Disposing, FileReportKind::Disposed) => file_moved(p, FileStage::Done),
        (FileStage::Disposing, FileReportKind::DisposalFailed) => file_failed(
            p,
            FileFailure::DisposalFailed,
        ),
        _ => file_failed(p, FileFailure::OutOfTurn),
    }
}

/// What is to be done in a stage, under a configured post-upload action.
pub open spec fn file_action_of(stage: FileStage, action: PostUploadAction) -> FileAction {
    match stage {
        FileStage::Sizing => FileAction::Stat,
        FileStage::Sampling => FileAction::Sample {
            count: STABILITY_SAMPLES,
            interval_ms: STABILITY_INTERVAL_MS,
        },
        FileStage::Hashing => FileAction::ReadForHash,
        FileStage::Uploading { attempt } => FileAction::Upload,
        FileStage::Pausing { attempt } => FileAction::Pause { secs: backoff_secs(attempt) },
        FileStage::Cooling { attempt } => FileAction::Pause { secs: RATE_LIMIT_PAUSE_SECS },
        FileStage::Disposing => FileAction::Dispose { action },
        FileStage::Done => FileAction::Finish,
        FileStage::Failed => FileAction::Abort,
    }
}

/// The progress of a file job that has not begun.
pub open spec fn initial_file_progress() -> FileProgress {
    FileProgress { stage: FileStage::Sizing, uploads: 0, waited_secs: 0, failure: None }
}

/// The progress of a file job that has just issued its first upload.
pub open spec fn first_upload() -> FileProgress {
    FileProgress {
        stage: FileStage::Uploading { attempt: 0 },
        uploads: 1,
        waited_secs: 0,
        failure: None,
    }
}

/// Attempt numbers stay below [`MAX_UPLOAD_ATTEMPTS`], attempt `a` is the
/// `a + 1`-th upload, and the pauses so far are bounded.
pub open spec fn file_progress_consistent(p: FileProgress) -> bool {
    &&& p.uploads <= MAX_UPLOAD_ATTEMPTS
    &&& p.waited_secs <= 16 * p.uploads
    &&& match p.stage {
        FileStage::Sizing => p.uploads == 0,
        FileStage::Sampling => p.uploads == 0,
        FileStage::Hashing => p.uploads == 0,
        FileStage::Uploading { attempt } => attempt < MAX_UPLOAD_ATTEMPTS && p.uploads == attempt
            + 1 && p.waited_secs <= 16 * attempt,
        FileStage::Pausing { attempt } => 1 <= attempt < MAX_UPLOAD_ATTEMPTS && p.uploads
            == attempt && p.waited_secs <= 16 * attempt - 4,
        FileStage::Cooling { attempt } => attempt < MAX_UPLOAD_ATTEMPTS && p.uploads == attempt
            + 1 && p.waited_secs <= 16 * attempt,
        FileStage::Disposing => true,
        FileStage::Done => true,
        FileStage::Failed => p.failure is Some,
    }
}

/// The progress after a run of reports.
pub open spec fn file_progress_after(p: FileProgress, kinds: Seq<FileReportKind>) -> FileProgress
    decreases kinds.len(),
{
    if kinds.len() == 0 {
        p
    } else {
        next_file_progress(file_progress_after(p, kinds.drop_last()), kinds.last())
    }
}

/// The text of a failure of a file of `size` bytes whose last error text is
/// `detail`.
pub open spec fn file_failure_text(failure: FileFailure, size: u64, detail: Seq<char>) -> Seq<
    char,
> {
    match failure {
        FileFailure::TooLarge => "Datei zu gro\u{df}: "@ + decimal((size / 1048576) as nat)
            + " MB (max 50 MB)"@,
        FileFailure::Unstable => "Datei nicht stabil (wird noch geschrieben?)"@,
        FileFailure::UploadFailed => "Upload fehlgeschlagen nach 3 Versuchen: "@ + detail,
        FileFailure::Unreadable => detail,
        FileFailure::BadResponse => detail,
        FileFailure::DisposalFailed => detail,
        FileFailure::OutOfTurn => "Ablauf gest\u{f6}rt"@,
    }
}

/// The entry of the status for a failed file: its name, a colon, the text of
/// the failure.
pub open spec fn file_error_entry(name: Seq<char>, text: Seq<char>) -> Seq<char> {
    name + ": "@ + text
}

/// The URL of the upload endpoint under a backend URL.
pub open spec fn upload_url_of(docflow_url: Seq<char>) -> Seq<char> {
    docflow_url + UPLOAD_PATH@
}

/// The URL of the status endpoint under a backend URL.
pub open spec fn sync_status_url_of(docflow_url: Seq<char>) -> Seq<char> {
    docflow_url + SYNC_STATUS_PATH@
}

/// `request` tells the backend that the folder sync of `watcher` is off: it
/// carries the counters of the watcher, no time, and the sync as disabled.
pub open spec fn is_farewell(request: HttpRequest, watcher: FolderWatcher) -> bool {
    &&& is_backend_request(
        request,
        HttpMethod::Post,
        sync_status_url_of(watcher.docflow_url@),
        watcher.api_key@,
        Some(STOP_TIMEOUT_SECS),
    )
    &&& request.body matches Body::FolderStatus { report }
    &&& report == watcher.report_of(false, false)
}

/// How the job and the watcher stand after a report, given the time `now`.
///
/// The job moves as [`next_file_progress`] says and keeps size, hash and the
/// last error text. An accepted upload makes the hash known, counts one
/// upload and notes the time. A job that fails counts one error and leaves
/// its entry in the status.
pub open spec fn ingest_step(
    watcher: FolderWatcher,
    job: FileJob,
    report: FileReport,
    now: Seq<char>,
    watcher_after: FolderWatcher,
    job_after: FileJob,
) -> bool {
    let kind = file_report_kind(report, watcher.known());
    let accepted = job.progress.stage is Uploading && kind == FileReportKind::Accepted;
    let fails = job_after.progress.stage == FileStage::Failed;
    &&& job_after.progress == next_file_progress(job.progress, kind)
    &&& job_after.entry == job.entry
    &&& job_after.size == (match report {
        FileReport::Size { bytes } => bytes,
        _ => job.size,
    })
    &&& job_after.hash@ == (match report {
        FileReport::Content { data } => content_hash_of(data@),
        _ => job.hash@,
    })
    &&& job_after.detail@ == (match report_detail(report) {
        Some(d) => d,
        None => job.detail@,
    })
    &&& watcher_after.config == watcher.config
    &&& watcher_after.api_key == watcher.api_key
    &&& watcher_after.docflow_url == watcher.docflow_url
    &&& watcher_after.cycle == watcher.cycle
    &&& watcher_after.known() == (if accepted {
        watcher.known().insert(job.hash@)
    } else {
        watcher.known()
    })
    &&& watcher_after.status.running == watcher.status.running
    &&& watcher_after.status.watch_path == watcher.status.watch_path
    &&& watcher_after.status.files_pending == watcher.status.files_pending
    &&& watcher_after.status.files_uploaded == (if accepted {
        bumped(watcher.status.files_uploaded)
    } else {
        watcher.status.files_uploaded
    })
    &&& if accepted {
        watcher_after.status.last_upload matches Some(t) && t@ == now
    } else {
        watcher_after.status.last_upload == watcher.status.last_upload
    }
    &&& watcher_after.status.errors == (if fails {
        bumped(watcher.status.errors)
    } else {
        watcher.status.errors
    })
    &&& if fails {
        watcher_after.status.last_error matches Some(t) && t@ == file_error_entry(
            job_after.entry.file_name@,
            job_after.failure_text(),
        )
    } else {
        watcher_after.status.last_error == watcher.status.last_error
    }
}

/// The pauses before the second and third attempt are 2 and 4 seconds.
pub proof fn lemma_backoff_values()
    ensures
        backoff_secs(0) == 1,
        backoff_secs(1) == 2,
        backoff_secs(2) == 4,
{
    reveal_with_fuel(two_to, 4);
}

/// The count of uploads goes up by one with every report that is answered
/// with an upload, and with no other.
pub proof fn lemma_uploads_count(p: FileProgress, kind: FileReportKind, action: PostUploadAction)
    requires
        file_progress_consistent(p),
    ensures
        next_file_progress(p, kind).uploads == p.uploads + (if file_action_of(
            next_file_progress(p, kind).stage,
            action,
        ) == FileAction::Upload {
            1int
        } else {
            0int
        }),
{
}

/// One more report is one more transition.
pub proof fn lemma_file_progress_push(
    p: FileProgress,
    kinds: Seq<FileReportKind>,
    kind: FileReportKind,
)
    ensures
        file_progress_after(p, kinds.push(kind)) == next_file_progress(
            file_progress_after(p, kinds),
            kind,
        ),
{
    assert(kinds.push(kind).drop_last() =~= kinds);
}

/// Feeding the reports of `a` and then those of `b` is feeding `a + b`.
pub proof fn lemma_file_progress_concat(
    p: FileProgress,
    a: Seq<FileReportKind>,
    b: Seq<FileReportKind>,
)
    ensures
        file_progress_after(p, a + b) == file_progress_after(file_progress_after(p, a), b),
    decreases b.len(),
{
    if b.len() > 0 {
        assert((a + b).drop_last() =~= a + b.drop_last());
        lemma_file_progress_concat(p, a, b.drop_last());
    }
}

/// A job that has failed stays failed and uploads nothing, whatever is
/// reported.
pub proof fn lemma_failed_file_stays(p: FileProgress, kinds: Seq<FileReportKind>)
    requires
        p.stage == FileStage::Failed,
    ensures
        file_progress_after(p, kinds).stage == FileStage::Failed,
        file_progress_after(p, kinds).uploads == p.uploads,
    decreases kinds.len(),
{
    if kinds.len() > 0 {
        lemma_failed_file_stays(p, kinds.drop_last());
    }
}

/// Stability: a file whose size grows from sample to sample is not stable.
/// Its job fails on the samples, and whatever is reported later, it never
/// uploads.
pub proof fn lemma_growing_file_not_uploaded(
    first: u64,
    second: u64,
    third: u64,
    later: Seq<FileReportKind>,
)
    requires
        first < second < third,
    ensures
        !is_stable_sizes(seq![first, second, third]),
        samples_kind(seq![first, second, third]) == FileReportKind::Unstable,
        file_progress_after(
            initial_file_progress(),
            seq![FileReportKind::SizeFits, FileReportKind::Unstable],
        ) == (FileProgress {
            stage: FileStage::Failed,
            uploads: 0,
            waited_secs: 0,
            failure: Some(FileFailure::Unstable),
        }),
        file_progress_after(
            initial_file_progress(),
            seq![FileReportKind::SizeFits, FileReportKind::Unstable] + later,
        ).uploads == 0,
{
    let start = initial_file_progress();
    let none = Seq::<FileReportKind>::empty();
    let refused = seq![FileReportKind::SizeFits, FileReportKind::Unstable];
    lemma_file_progress_push(start, none, FileReportKind::SizeFits);
    lemma_file_progress_push(
        start,
        none.push(FileReportKind::SizeFits),
        FileReportKind::Unstable,
    );
    assert(refused =~= none.push(FileReportKind::SizeFits).push(FileReportKind::Unstable));
    lemma_file_progress_concat(start, refused, later);
    lemma_failed_file_stays(file_progress_after(start, refused), later);
}

/// Retry backoff: a new file whose first two upload attempts get no reply
/// and whose third is accepted goes on to the post-upload action after three
/// uploads and pauses of 2 and 4 seconds.
pub proof fn lemma_retry_backoff()
    ensures
        file_progress_after(
            initial_file_progress(),
            seq![
                FileReportKind::SizeFits,
                FileReportKind::Stable,
                FileReportKind::NewContent,
                FileReportKind::NoReply,
                FileReportKind::Elapsed,
                FileReportKind::NoReply,
                FileReportKind::Elapsed,
                FileReportKind::Accepted,
            ],
        ) == (FileProgress {
            stage: FileStage::Disposing,
            uploads: 3,
            waited_secs: 6,
            failure: None,
        }),
{
    lemma_backoff_values();
    let p = initial_file_progress();
    let none = Seq::<FileReportKind>::empty();
    let sized = none.push(FileReportKind::SizeFits);
    let sampled = sized.push(FileReportKind::Stable);
    let hashed = sampled.push(FileReportKind::NewContent);
    let lost_once = hashed.push(FileReportKind::NoReply);
    let paused_once = lost_once.push(FileReportKind::Elapsed);
    let lost_twice = paused_once.push(FileReportKind::NoReply);
    let paused_twice = lost_twice.push(FileReportKind::Elapsed);
    let all = paused_twice.push(FileReportKind::Accepted);
    lemma_file_progress_push(p, none, FileReportKind::SizeFits);
    lemma_file_progress_push(p, sized, FileReportKind::Stable);
    lemma_file_progress_push(p, sampled, FileReportKind::NewContent);
    lemma_file_progress_push(p, hashed, FileReportKind::NoReply);
    lemma_file_progress_push(p, lost_once, FileReportKind::Elapsed);
    lemma_file_progress_push(p, paused_once, FileReportKind::NoReply);
    lemma_file_progress_push(p, lost_twice, FileReportKind::Elapsed);
    lemma_file_progress_push(p, paused_twice, FileReportKind::Accepted);
    assert(all =~= seq![
        FileReportKind::SizeFits,
        FileReportKind::Stable,
        FileReportKind::NewContent,
        FileReportKind::NoReply,
        FileReportKind::Elapsed,
        FileReportKind::NoReply,
        FileReportKind::Elapsed,
        FileReportKind::Accepted,
    ]);
}

/// Folder dedup: of two files with the same content, handled one after the
/// other by a watcher that did not know the content, exactly the first is
/// uploaded, and both reach the post-upload action.
pub proof fn lemma_folder_dedup(known: Set<Seq<char>>, data: Seq<u8>)
    requires
        !known.contains(content_hash_of(data)),
    ensures
        ({
            let hashing = file_moved(initial_file_progress(), FileStage::Hashing);
            let first = next_file_progress(hashing, content_kind(known, data));
            let first_done = next_file_progress(first, FileReportKind::Accepted);
            let known_then = known.insert(content_hash_of(data));
            let second = next_file_progress(hashing, content_kind(known_then, data));
            &&& first == first_upload()
            &&& first_done.stage == FileStage::Disposing
            &&& first_done.uploads == 1
            &&& second.stage == FileStage::Disposing
            &&& second.uploads == 0
        }),
{
}

/// The SHA-256 digest of `data`, computed by `sha2::Sha256::digest`. The
/// contract names the digest and says nothing else about it.
#[verifier::external_body]
fn sha256(data: &[u8]) -> (digest: Vec<u8>)
    ensures
        digest@ == sha256_of(data@),
{
    Sha256::digest(data).to_vec()
}

/// The extension of a file name.
pub fn extension(name: &str) -> (r: Option<String>)
    ensures
        match r {
            Some(e) => extension_of(name@) == Some(e@),
            None => extension_of(name@) is None,
        },
{
    let v = to_chars(name);
    let mut n: usize = v.len();
    assert(v@.subrange(0, n as int) == v@);
    while n > 0 && v[n - 1] != '.'
        invariant
            n <= v.len(),
            last_dot(v@) == last_dot(v@.subrange(0, n as int)),
        decreases n,
    {
        assert(v@.subrange(0, n as int).drop_last() == v@.subrange(0, n - 1));
        n -= 1;
    }
    if n <= 1 {
        return None;
    }
    if v.len() == 2 && v[0] == '.' {
        assert(v@ =~= seq!['.', '.']);
        return None;
    }
    Some(from_chars(&v, n, v.len()))
}

/// Whether a lower-case extension is one of those that are taken.
pub fn is_allowed_lowercase_extension(ext: &str) -> (r: bool)
    ensures
        r == is_allowed_lower(ext@),
{
    same_text(ext, "pdf") || same_text(ext, "jpg") || same_text(ext, "jpeg") || same_text(
        ext,
        "png",
    ) || same_text(ext, "tiff") || same_text(ext, "tif")
}

/// Whether a file of this name is taken, by its extension in any case.
pub fn is_allowed_extension(file_name: &str) -> (r: bool)
    ensures
        r == is_allowed_name(file_name@),
{
    match extension(file_name) {
        Some(ext) => {
            let lower = lowercase(ext.as_str());
            is_allowed_lowercase_extension(lower.as_str())
        },
        None => false,
    }
}

/// The MIME type sent for a file of this name.
pub fn mime_for(file_name: &str) -> (r: &'static str)
    ensures
        r@ == mime_of(file_name@),
{
    match extension(file_name) {
        Some(ext) => {
            let e = ext.as_str();
            if same_text(e, "pdf") {
                "application/pdf"
            } else if same_text(e, "jpg") || same_text(e, "jpeg") {
                "image/jpeg"
            } else if same_text(e, "png") {
                "image/png"
            } else if same_text(e, "tiff") || same_text(e, "tif") {
                "image/tiff"
            } else {
                "application/octet-stream"
            }
        },
        None => "application/octet-stream",
    }
}

/// Whether an entry of the watched directory is taken.
pub fn is_eligible(entry: &FileEntry) -> (r: bool)
    ensures
        r == is_eligible_entry(*entry),
{
    if !entry.is_file {
        return false;
    }
    let in_uploaded = match &entry.parent_name {
        Some(p) => same_text(p.as_str(), UPLOADED_DIR),
        None => false,
    };
    if in_uploaded {
        return false;
    }
    is_allowed_extension(entry.file_name.as_str())
}

/// Whether size samples show a file at rest.
pub fn is_stable(sizes: &Vec<u64>) -> (r: bool)
    ensures
        r == is_stable_sizes(sizes@),
{
    sizes.len() == 3 && sizes[0] == sizes[1] && sizes[1] == sizes[2] && sizes[0] > 0
}

/// The hash under which the content `data` is known.
pub fn compute_file_hash(data: &[u8]) -> (r: String)
    ensures
        r@ == content_hash_of(data@),
{
    let digest = sha256(data);
    hex_string(&digest)
}

/// Why a file is not moved into [`UPLOADED_DIR`], given whether a file of
/// its name is there already; none if it may be moved.
pub fn move_refusal(destination_exists: bool) -> (r: Option<String>)
    ensures
        match move_refusal_of(destination_exists) {
            Some(text) => r matches Some(t) && t@ == text,
            None => r is None,
        },
{
    if destination_exists {
        Some(String::from_str("Zieldatei existiert bereits"))
    } else {
        None
    }
}

/// `n + 1`, or `n` where that does not fit.
pub fn bump(n: u32) -> (r: u32)
    ensures
        r == bumped(n),
{
    if n < u32::MAX {
        n + 1
    } else {
        n
    }
}

/// A copy of an optional text.
pub fn clone_text(t: &Option<String>) -> (r: Option<String>)
    ensures
        r == *t,
{
    match t {
        Some(x) => Some(x.clone()),
        None => None,
    }
}

impl FileJob {
    /// The job for an entry, before anything was asked.
    pub fn new(entry: FileEntry) -> (job: FileJob)
        ensures
            job.entry == entry,
            job.progress == initial_file_progress(),
            job.size == 0,
            job.hash@ == Seq::<char>::empty(),
            job.detail@ == Seq::<char>::empty(),
            job.well_formed(),
    {
        FileJob {
            entry,
            progress: FileProgress {
                stage: FileStage::Sizing,
                uploads: 0,
                waited_secs: 0,
                failure: None,
            },
            size: 0,
            hash: String::new(),
            detail: String::new(),
        }
    }

    /// The progress is consistent.
    pub open spec fn well_formed(&self) -> bool {
        file_progress_consistent(self.progress)
    }

    /// Whether the job is well formed.
    pub fn is_well_formed(&self) -> (r: bool)
        ensures
            r == self.well_formed(),
    {
        let p = &self.progress;
        if p.uploads > MAX_UPLOAD_ATTEMPTS {
            return false;
        }
        let uploads: u64 = p.uploads as u64;
        if p.waited_secs > 16 * uploads {
            return false;
        }
        match p.stage {
            FileStage::Sizing => p.uploads == 0,
            FileStage::Sampling => p.uploads == 0,
            FileStage::Hashing => p.uploads == 0,
            FileStage::Uploading { attempt } => attempt < MAX_UPLOAD_ATTEMPTS && p.uploads
                == attempt + 1 && p.waited_secs + 16 <= 16 * uploads,
            FileStage::Pausing { attempt } => 1 <= attempt && attempt < MAX_UPLOAD_ATTEMPTS
                && p.uploads == attempt && p.waited_secs + 4 <= 16 * uploads,
            FileStage::Cooling { attempt } => attempt < MAX_UPLOAD_ATTEMPTS && p.uploads == attempt
                + 1 && p.waited_secs + 16 <= 16 * uploads,
            FileStage::Disposing => true,
            FileStage::Done => true,
            FileStage::Failed => p.failure.is_some(),
        }
    }

    /// The text of the job's failure; empty while it has not failed.
    pub open spec fn failure_text(&self) -> Seq<char> {
        match self.progress.failure {
            Some(f) => file_failure_text(f, self.size, self.detail@),
            None => Seq::empty(),
        }
    }

    /// The text of the job's failure; empty while it has not failed.
    pub fn failure_message(&self) -> (r: String)
        ensures
            r@ == self.failure_text(),
    {
        match self.progress.failure {
            Some(FileFailure::TooLarge) => {
                let mut r = String::from_str("Datei zu gro\u{df}: ");
                let digits = decimal_string(self.size / 1048576);
                r.append(digits.as_str());
                r.append(" MB (max 50 MB)");
                r
            },
            Some(FileFailure::Unstable) => String::from_str(
                "Datei nicht stabil (wird noch geschrieben?)",
            ),
            Some(FileFailure::UploadFailed) => {
                let mut r = String::from_str("Upload fehlgeschlagen nach 3 Versuchen: ");
                r.append(self.detail.as_str());
                r
            },
            Some(FileFailure::Unreadable) => self.detail.clone(),
            Some(FileFailure::BadResponse) => self.detail.clone(),
            Some(FileFailure::DisposalFailed) => self.detail.clone(),
            Some(FileFailure::OutOfTurn) => String::from_str("Ablauf gest\u{f6}rt"),
            None => String::new(),
        }
    }
}

impl FolderWatcher {
    /// A watcher that has not started: nothing uploaded, nothing known.
    pub fn new(config: FolderSyncConfig, api_key: String, docflow_url: String) -> (w: FolderWatcher)
        ensures
            w.well_formed(),
            w.config == config,
            w.api_key == api_key,
            w.docflow_url == docflow_url,
            !w.status.running,
            w.status.watch_path is None,
            w.status.files_uploaded == 0,
            w.status.files_pending == 0,
            w.status.errors == 0,
            w.status.last_upload is None,
            w.status.last_error is None,
            w.known() == Set::<Seq<char>>::empty(),
            w.cycle == 0,
    {
        FolderWatcher {
            config,
            api_key,
            docflow_url,
            status: FolderSyncStatus {
                running: false,
                watch_path: None,
                files_uploaded: 0,
                files_pending: 0,
                errors: 0,
                last_upload: None,
                last_error: None,
            },
            known_hashes: Vec::new(),
            cycle: 0,
        }
    }

    /// No hash is kept twice. Every watcher that [`FolderWatcher::new`]
    /// made and that only the functions of this module changed is well
    /// formed; none of them asks for it.
    pub open spec fn well_formed(&self) -> bool {
        texts_of(self.known_hashes@).no_duplicates()
    }

    /// The hashes of the contents uploaded by this watcher.
    pub open spec fn known(&self) -> Set<Seq<char>> {
        texts_of(self.known_hashes@).to_set()
    }

    /// Whether the watcher is well formed.
    pub fn is_well_formed(&self) -> (r: bool)
        ensures
            r == self.well_formed(),
    {
        has_no_duplicates(&self.known_hashes)
    }

    /// Whether a content hash is known.
    pub fn is_known(&self, hash: &str) -> (r: bool)
        ensures
            r == self.known().contains(hash@),
    {
        holds_text(&self.known_hashes, hash)
    }

    /// Makes a content hash known.
    fn remember(&mut self, hash: String)
        ensures
            old(self).well_formed() ==> final(self).well_formed(),
            final(self).known() == old(self).known().insert(hash@),
            final(self).config == old(self).config,
            final(self).api_key == old(self).api_key,
            final(self).docflow_url == old(self).docflow_url,
            final(self).status == old(self).status,
            final(self).cycle == old(self).cycle,
    {
        insert_text(&mut self.known_hashes, hash);
    }

    /// Records that `job` has failed.
    fn record_failure(&mut self, job: &FileJob)
        requires
            job.progress.failure is Some,
        ensures
            final(self).status.errors == bumped(old(self).status.errors),
            final(self).status.last_error matches Some(t) && t@ == file_error_entry(
                job.entry.file_name@,
                job.failure_text(),
            ),
            final(self).status.running == old(self).status.running,
            final(self).status.watch_path == old(self).status.watch_path,
            final(self).status.files_pending == old(self).status.files_pending,
            final(self).status.files_uploaded == old(self).status.files_uploaded,
            final(self).status.last_upload == old(self).status.last_upload,
            final(self).config == old(self).config,
            final(self).api_key == old(self).api_key,
            final(self).docflow_url == old(self).docflow_url,
            final(self).known_hashes == old(self).known_hashes,
            final(self).cycle == old(self).cycle,
    {
        let mut entry = job.entry.file_name.clone();
        entry.append(": ");
        let text = job.failure_message();
        entry.append(text.as_str());
        self.status.errors = bump(self.status.errors);
        self.status.last_error = Some(entry);
    }

    /// Takes a report on `job` at the time `now` and answers with the next
    /// action for the file.
    pub fn process_file_at(
        &mut self,
        job: &mut FileJob,
        report: FileReport,
        now: String,
    ) -> (action: FileAction)
        requires
            old(job).well_formed(),
        ensures
            old(self).well_formed() ==> final(self).well_formed(),
            final(job).well_formed(),
            ingest_step(*old(self), *old(job), report, now@, *final(self), *final(job)),
            action == file_action_of(
                final(job).progress.stage,
                final(self).config.post_upload_action,
            ),
    {
        proof {
            lemma_backoff_values();
        }
        let stage = job.progress.stage;
        let mut failure: Option<FileFailure> = None;
        match report {
            FileReport::Size { bytes } => {
                job.size = bytes;
                match stage {
                    FileStage::Sizing => {
                        if bytes > MAX_FILE_SIZE {
                            failure = Some(FileFailure::TooLarge);
                        } else {
                            job.progress.stage = FileStage::Sampling;
                        }
                    },
                    _ => {
                        failure = Some(FileFailure::OutOfTurn);
                    },
                }
            },
            FileReport::Samples { sizes } => match stage {
                FileStage::Sampling => {
                    if is_stable(&sizes) {
                        job.progress.stage = FileStage::Hashing;
                    } else {
                        failure = Some(FileFailure::Unstable);
                    }
                },
                _ => {
                    failure = Some(FileFailure::OutOfTurn);
                },
            },
            FileReport::Content { data } => {
                job.hash = compute_file_hash(data.as_slice());
                match stage {
                    FileStage::Hashing => {
                        if self.is_known(job.hash.as_str()) {
                            job.progress.stage = FileStage::Disposing;
                        } else {
                            job.progress.stage = FileStage::Uploading { attempt: 0 };
                            job.progress.uploads = job.progress.uploads + 1;
                        }
                    },
                    _ => {
                        failure = Some(FileFailure::OutOfTurn);
                    },
                }
            },
            FileReport::Unreadable { detail } => {
                job.detail = detail;
                match stage {
                    FileStage::Sizing => {
                        failure = Some(FileFailure::Unreadable);
                    },
                    FileStage::Hashing => {
                        failure = Some(FileFailure::Unreadable);
                    },
                    FileStage::Uploading { attempt } => {
                        failure = Some(FileFailure::Unreadable);
                    },
                    _ => {
                        failure = Some(FileFailure::OutOfTurn);
                    },
                }
            },
            FileReport::Uploaded { answer } => {
                let mut accepted = false;
                let mut limited = false;
                let mut unreadable = false;
                match answer {
                    Answer::NoReply { reason } => {
                        job.detail = reason;
                    },
                    Answer::Reply { status, body, decoded } => {
                        if is_success_status(status) {
                            match decoded {
                                Ok(given) => {
                                    accepted = true;
                                },
                                Err(why) => {
                                    job.detail = why;
                                    unreadable = true;
                                },
                            }
                        } else if status == 429 {
                            job.detail = String::from_str("Rate-Limit erreicht");
                            limited = true;
                        } else {
                            job.detail = body;
                        }
                    },
                }
                match stage {
                    FileStage::Uploading { attempt } => {
                        if accepted {
                            self.remember(job.hash.clone());
                            self.status.files_uploaded = bump(self.status.files_uploaded);
                            self.status.last_upload = Some(now);
                            job.progress.stage = FileStage::Disposing;
                        } else if unreadable {
                            failure = Some(FileFailure::BadResponse);
                        } else if limited {
                            job.progress.stage = FileStage::Cooling { attempt };
                        } else if attempt + 1 < MAX_UPLOAD_ATTEMPTS {
                            job.progress.stage = FileStage::Pausing { attempt: attempt + 1 };
                        } else {
                            failure = Some(FileFailure::UploadFailed);
                        }
                    },
                    _ => {
                        failure = Some(FileFailure::OutOfTurn);
                    },
                }
            },
            FileReport::Elapsed => match stage {
                FileStage::Cooling { attempt } => {
                    job.progress.waited_secs = job.progress.waited_secs + RATE_LIMIT_PAUSE_SECS;
                    if attempt + 1 < MAX_UPLOAD_ATTEMPTS {
                        job.progress.stage = FileStage::Pausing { attempt: attempt + 1 };
                    } else {
                        failure = Some(FileFailure::UploadFailed);
                    }
                },
                FileStage::Pausing { attempt } => {
                    let pause: u64 = if attempt == 1 {
                        2
                    } else {
                        4
                    };
                    job.progress.waited_secs = job.progress.waited_secs + pause;
                    job.progress.uploads = job.progress.uploads + 1;
                    job.progress.stage = FileStage::Uploading { attempt };
                },
                _ => {
                    failure = Some(FileFailure::OutOfTurn);
                },
            },
            FileReport::Disposed => match stage {
                FileStage::Disposing => {
                    job.progress.stage = FileStage::Done;
                },
                _ => {
                    failure = Some(FileFailure::OutOfTurn);
                },
            },
            FileReport::DisposalFailed { detail } => {
                job.detail = detail;
                match stage {
                    FileStage::Disposing => {
                        failure = Some(FileFailure::DisposalFailed);
                    },
                    _ => {
                        failure = Some(FileFailure::OutOfTurn);
                    },
                }
            },
        }
        match failure {
            Some(f) => {
                job.progress.stage = FileStage::Failed;
                job.progress.failure = Some(f);
                self.record_failure(job);
            },
            None => {},
        }
        self.file_action(job)
    }

    /// Takes a report on `job` and answers with the next action for the
    /// file. The time of an accepted upload is read from the clock; whatever
    /// it is, job and watcher stand as [`FolderWatcher::process_file_at`]
    /// leaves them for that time.
    pub fn process_file(&mut self, job: &mut FileJob, report: FileReport) -> (action: FileAction)
        requires
            old(job).well_formed(),
        ensures
            old(self).well_formed() ==> final(self).well_formed(),
            final(job).well_formed(),
            exists|now: Seq<char>|
                ingest_step(*old(self), *old(job), report, now, *final(self), *final(job)),
            action == file_action_of(
                final(job).progress.stage,
                final(self).config.post_upload_action,
            ),
    {
        let now = now_rfc3339();
        self.process_file_at(job, report, now)
    }

    /// What is to be done now for `job`.
    pub fn file_action(&self, job: &FileJob) -> (a: FileAction)
        requires
            job.well_formed(),
        ensures
            a == file_action_of(job.progress.stage, self.config.post_upload_action),
    {
        proof {
            lemma_backoff_values();
        }
        match job.progress.stage {
            FileStage::Sizing => FileAction::Stat,
            FileStage::Sampling => FileAction::Sample {
                count: STABILITY_SAMPLES,
                interval_ms: STABILITY_INTERVAL_MS,
            },
            FileStage::Hashing => FileAction::ReadForHash,
            FileStage::Uploading { attempt } => FileAction::Upload,
            FileStage::Pausing { attempt } => FileAction::Pause {
                secs: if attempt == 1 {
                    2
                } else {
                    4
                },
            },
            FileStage::Cooling { attempt } => FileAction::Pause { secs: RATE_LIMIT_PAUSE_SECS },
            FileStage::Disposing => FileAction::Dispose { action: self.config.post_upload_action },
            FileStage::Done => FileAction::Finish,
            FileStage::Failed => FileAction::Abort,
        }
    }

    /// The status report as it stands.
    pub open spec fn report_of(&self, enabled: bool, with_time: bool) -> FolderSyncReport {
        FolderSyncReport {
            folder_sync_enabled: enabled,
            watched_folder: self.config.watch_path,
            files_uploaded: self.status.files_uploaded,
            errors: self.status.errors,
            last_sync_at: if with_time {
                self.status.last_upload
            } else {
                None
            },
        }
    }

    /// Starts the watcher on its configured directory. Where the directory
    /// does not exist the watcher does not start and notes why.
    pub fn start_watching(&mut self, dir_exists: bool) -> (started: bool)
        ensures
            started == dir_exists,
            final(self).config == old(self).config,
            final(self).api_key == old(self).api_key,
            final(self).docflow_url == old(self).docflow_url,
            final(self).known_hashes == old(self).known_hashes,
            final(self).cycle == old(self).cycle,
            final(self).status.files_uploaded == old(self).status.files_uploaded,
            final(self).status.files_pending == old(self).status.files_pending,
            final(self).status.errors == old(self).status.errors,
            final(self).status.last_upload == old(self).status.last_upload,
            dir_exists ==> {
                &&& final(self).status.running
                &&& final(self).status.watch_path == Some(old(self).config.watch_path)
                &&& final(self).status.last_error == old(self).status.last_error
            },
            !dir_exists ==> {
                &&& final(self).status.running == old(self).status.running
                &&& final(self).status.watch_path == old(self).status.watch_path
                &&& final(self).status.last_error matches Some(t) && t@
                    == "Ordner nicht gefunden: "@ + old(self).config.watch_path@
            },
    {
        if dir_exists {
            self.status.running = true;
            self.status.watch_path = Some(self.config.watch_path.clone());
        } else {
            let mut text = String::from_str("Ordner nicht gefunden: ");
            text.append(self.config.watch_path.as_str());
            self.status.last_error = Some(text);
        }
        dir_exists
    }

    /// What to do at the top of a cycle: go on while running, else leave.
    pub fn begin_cycle(&self) -> (a: CycleAction)
        ensures
            a == self.begin_cycle_of(),
    {
        if self.status.running {
            CycleAction::Scan
        } else {
            CycleAction::Leave
        }
    }

    /// Closes a cycle. A listing sets the number of pending files; an
    /// unreadable directory counts as an error. The answer holds the status
    /// report, which is due once in [`REPORT_EVERY`] cycles, beginning with
    /// the first, and the pause before the next cycle, [`CYCLE_SECS`].
    pub fn end_cycle(&mut self, outcome: CycleOutcome) -> (end: CycleEnd)
        ensures
            end.pause_secs == CYCLE_SECS,
            if old(self).cycle % REPORT_EVERY == 0 {
                end.report matches Some(request) && final(self).is_status_report(request)
            } else {
                end.report is None
            },
            final(self).cycle == (if old(self).cycle == u32::MAX {
                0
            } else {
                (old(self).cycle + 1) as u32
            }),
            final(self).config == old(self).config,
            final(self).api_key == old(self).api_key,
            final(self).docflow_url == old(self).docflow_url,
            final(self).known_hashes == old(self).known_hashes,
            final(self).status.running == old(self).status.running,
            final(self).status.watch_path == old(self).status.watch_path,
            final(self).status.files_uploaded == old(self).status.files_uploaded,
            final(self).status.last_upload == old(self).status.last_upload,
            match outcome {
                CycleOutcome::Scanned { pending } => {
                    &&& final(self).status.files_pending == pending
                    &&& final(self).status.errors == old(self).status.errors
                    &&& final(self).status.last_error == old(self).status.last_error
                },
                CycleOutcome::Unreadable { detail } => {
                    &&& final(self).status.files_pending == old(self).status.files_pending
                    &&& final(self).status.errors == bumped(old(self).status.errors)
                    &&& final(self).status.last_error matches Some(t) && t@
                        == "Ordner nicht lesbar: "@ + detail@
                },
            },
    {
        match outcome {
            CycleOutcome::Scanned { pending } => {
                self.status.files_pending = pending;
            },
            CycleOutcome::Unreadable { detail } => {
                let mut text = String::from_str("Ordner nicht lesbar: ");
                text.append(detail.as_str());
                self.status.last_error = Some(text);
                self.status.errors = bump(self.status.errors);
            },
        }
        let report = if self.cycle % REPORT_EVERY == 0 {
            Some(self.report_status_to_server())
        } else {
            None
        };
        self.cycle = if self.cycle == u32::MAX {
            0
        } else {
            self.cycle + 1
        };
        CycleEnd { report, pause_secs: CYCLE_SECS }
    }

    /// The request that uploads the file of `job` with the content `data`:
    /// a form with the file under its name and MIME type, the content hash
    /// and the file's path.
    pub fn upload_file(&self, job: &FileJob, data: Vec<u8>) -> (request: HttpRequest)
        ensures
            is_backend_request(
                request,
                HttpMethod::Post,
                upload_url_of(self.docflow_url@),
                self.api_key@,
                Some(UPLOAD_TIMEOUT_SECS),
            ),
            request.body matches Body::Form { parts } && {
                &&& parts@.len() == 3
                &&& is_file_part(
                    parts@[0],
                    "file"@,
                    job.entry.file_name@,
                    mime_of(job.entry.file_name@),
                    data@,
                )
                &&& is_text_part(parts@[1], "file_hash"@, job.hash@)
                &&& is_text_part(parts@[2], "original_path"@, job.entry.path@)
            },
    {
        let mut url = self.docflow_url.clone();
        url.append(UPLOAD_PATH);
        let mut parts: Vec<FormPart> = Vec::new();
        parts.push(
            file_part(
                "file",
                job.entry.file_name.clone(),
                mime_for(job.entry.file_name.as_str()),
                data,
            ),
        );
        parts.push(text_part("file_hash", job.hash.clone()));
        parts.push(text_part("original_path", job.entry.path.clone()));
        HttpRequest {
            method: HttpMethod::Post,
            url,
            bearer: Some(self.api_key.clone()),
            timeout_secs: Some(UPLOAD_TIMEOUT_SECS),
            accept_invalid_certs: false,
            body: Body::Form { parts },
        }
    }

    /// `request` reports the status of the watcher to the backend.
    pub open spec fn is_status_report(&self, request: HttpRequest) -> bool {
        &&& is_backend_request(
            request,
            HttpMethod::Post,
            sync_status_url_of(self.docflow_url@),
            self.api_key@,
            Some(STATUS_TIMEOUT_SECS),
        )
        &&& request.body matches Body::FolderStatus { report }
        &&& report == self.report_of(self.config.enabled, true)
    }

    /// The request that reports the status to the backend.
    pub fn report_status_to_server(&self) -> (request: HttpRequest)
        ensures
            self.is_status_report(request),
    {
        let mut url = self.docflow_url.clone();
        url.append(SYNC_STATUS_PATH);
        let report = FolderSyncReport {
            folder_sync_enabled: self.config.enabled,
            watched_folder: self.config.watch_path.clone(),
            files_uploaded: self.status.files_uploaded,
            errors: self.status.errors,
            last_sync_at: clone_text(&self.status.last_upload),
        };
        HttpRequest {
            method: HttpMethod::Post,
            url,
            bearer: Some(self.api_key.clone()),
            timeout_secs: Some(STATUS_TIMEOUT_SECS),
            accept_invalid_certs: false,
            body: Body::FolderStatus { report },
        }
    }

    /// Stops the watcher: the next cycle leaves. The answer is the request
    /// that tells the backend that the folder sync is off.
    pub fn stop(&mut self) -> (request: HttpRequest)
        ensures
            !final(self).status.running,
            final(self).begin_cycle_of() == CycleAction::Leave,
            final(self).config == old(self).config,
            final(self).api_key == old(self).api_key,
            final(self).docflow_url == old(self).docflow_url,
            final(self).known_hashes == old(self).known_hashes,
            final(self).cycle == old(self).cycle,
            final(self).status.watch_path == old(self).status.watch_path,
            final(self).status.files_uploaded == old(self).status.files_uploaded,
            final(self).status.files_pending == old(self).status.files_pending,
            final(self).status.errors == old(self).status.errors,
            final(self).status.last_upload == old(self).status.last_upload,
            final(self).status.last_error == old(self).status.last_error,
            is_farewell(request, *old(self)),
    {
        self.status.running = false;
        let mut url = self.docflow_url.clone();
        url.append(SYNC_STATUS_PATH);
        let report = FolderSyncReport {
            folder_sync_enabled: false,
            watched_folder: self.config.watch_path.clone(),
            files_uploaded: self.status.files_uploaded,
            errors: self.status.errors,
            last_sync_at: None,
        };
        HttpRequest {
            method: HttpMethod::Post,
            url,
            bearer: Some(self.api_key.clone()),
            timeout_secs: Some(STOP_TIMEOUT_SECS),
            accept_invalid_certs: false,
            body: Body::FolderStatus { report },
        }
    }

    /// What a cycle begins with: the scan while the watcher runs, else the
    /// leave.
    pub open spec fn begin_cycle_of(&self) -> CycleAction {
        if self.status.running {
            CycleAction::Scan
        } else {
            CycleAction::Leave
        }
    }

    /// A copy of the status.
    pub fn get_status(&self) -> (status: FolderSyncStatus)
        ensures
            status == self.status,
    {
        FolderSyncStatus {
            running: self.status.running,
            watch_path: clone_text(&self.status.watch_path),
            files_uploaded: self.status.files_uploaded,
            files_pending: self.status.files_pending,
            errors: self.status.errors,
            last_upload: clone_text(&self.status.last_upload),
            last_error: clone_text(&self.status.last_error),
        }
    }
}

} // verus!
