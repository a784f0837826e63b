//! The eSCL scan client: URL construction, the scan settings document, the
//! clean-up of stale jobs and the state machine of one scan.
//!
//! The client performs no I/O. [`EsclSession::advance`] takes what happened
//! (a reply, a transport failure, an elapsed pause) and answers with the next
//! thing to do; the embedding program carries it out and reports back.

use vstd::prelude::*;
use vstd::string::StringExecFns;
use base64::Engine;
use crate::http::{is_success, is_success_status, Body, HttpMethod, HttpRequest};
use crate::text::{
    contains_char, contains_seq, decimal, decimal_string, find_chars, find_first, find_from,
    from_chars, lemma_find_first_contains, lemma_find_from, lines_of, same_text, split_lines,
    texts_of, to_chars, views_of,
};

verus! {

/// The scanner status under the base URL.
pub const STATUS_RESOURCE: &'static str = "/ScannerStatus";

/// The jobs under the base URL, by number.
pub const JOB_RESOURCE: &'static str = "/ScanJobs/";

/// The resource under the base URL at which jobs are created.
pub const JOBS_RESOURCE: &'static str = "/ScanJobs";

/// The next page under a job URL.
pub const NEXT_DOCUMENT: &'static str = "/NextDocument";

/// Total attempts at creating a scan job while the scanner reports a conflict.
pub const MAX_CREATE_ATTEMPTS: u8 = 4;

/// Pause before each retry of the job creation, in milliseconds.
pub const BUSY_PAUSE_MS: u64 = 3000;

/// First attempt index before which all guessable jobs are deleted.
pub const PURGE_FROM_ATTEMPT: u8 = 2;

/// Job numbers `1..=PURGE_JOB_COUNT` are deleted in a purge.
pub const PURGE_JOB_COUNT: u8 = 20;

/// Pause after a purge, in milliseconds.
pub const SETTLE_PAUSE_MS: u64 = 2000;

/// Pause before asking again for a page that is not ready, in milliseconds.
pub const PENDING_PAUSE_MS: u64 = 500;

/// Timeout of every request of a scan, in seconds.
pub const SCAN_TIMEOUT_SECS: u64 = 120;

/// The scan settings document up to the input source: version 2.0, intent
/// `Document`, and a US-Letter region of 2550 x 3300 three-hundredths of an
/// inch at offset 0,0.
pub const SETTINGS_HEAD: &'static str = "<?xml version=\"1.0\" encoding=\"UTF-8\"?>\n\
<scan:ScanSettings xmlns:scan=\"http://schemas.hp.com/imaging/escl/2011/05/03\"\n                   \
xmlns:pwg=\"http://www.pwg.org/schemas/2010/12/sm\">\n    \
<pwg:Version>2.0</pwg:Version>\n    \
<scan:Intent>Document</scan:Intent>\n    \
<pwg:ScanRegions>\n        \
<pwg:ScanRegion>\n            \
<pwg:ContentRegionUnits>escl:ThreeHundredthsOfInches</pwg:ContentRegionUnits>\n            \
<pwg:XOffset>0</pwg:XOffset>\n            \
<pwg:YOffset>0</pwg:YOffset>\n            \
<pwg:Width>2550</pwg:Width>\n            \
<pwg:Height>3300</pwg:Height>\n        \
</pwg:ScanRegion>\n    \
</pwg:ScanRegions>\n    \
<pwg:InputSource>";

/// Between the input source and the colour mode.
pub const SETTINGS_COLOR: &'static str = "</pwg:InputSource>\n    <scan:ColorMode>";

/// Between the colour mode and the horizontal resolution.
pub const SETTINGS_X: &'static str = "</scan:ColorMode>\n    <scan:XResolution>";

/// Between the horizontal and the vertical resolution.
pub const SETTINGS_Y: &'static str = "</scan:XResolution>\n    <scan:YResolution>";

/// Between the vertical resolution and the document format.
pub const SETTINGS_FORMAT: &'static str = "</scan:YResolution>\n    <pwg:DocumentFormat>";

/// After the document format.
pub const SETTINGS_TAIL: &'static str = "</pwg:DocumentFormat>\n</scan:ScanSettings>";

/// The text for a scanner that stays busy.
pub const BUSY_TEXT: &'static str =
    "Scanner dauerhaft busy (409 Conflict) \u{2014} bitte Scanner neu starten \
oder Display pr\u{fc}fen";

/// What the backend asked to scan, in the scanner's terms.
#[derive(Debug)]
pub struct ScanJob {
    pub scanner_id: String,
    pub resolution: u32,
    pub color_mode: String,
    /// Document format as a MIME type.
    pub format: String,
    /// `"adf"` selects the feeder, anything else the platen.
    pub source: String,
    pub duplex: bool,
}

/// One retrieved page.
#[derive(Debug)]
pub struct ScannedPage {
    /// 1-based position of the page in the scan.
    pub page_number: usize,
    pub format: String,
    pub size_bytes: usize,
    /// The page as the scanner sent it.
    pub data: Vec<u8>,
}

/// The outcome of a completed scan.
#[derive(Debug)]
pub struct ScanResult {
    pub job_id: String,
    pub pages: Vec<ScannedPage>,
    pub total_pages: usize,
}

/// Where a scan stands.
#[derive(Clone, Copy, Debug, PartialEq, Eq, Structural)]
pub enum ScanPhase {
    /// The scanner status is being fetched.
    PreCheck,
    /// Stale jobs named by the status are being deleted.
    Cleanup,
    /// Attempt `attempt` (from 0) at creating the job is under way.
    Creating { attempt: u8 },
    /// Pausing after a conflict, before attempt `attempt`.
    Backoff { attempt: u8 },
    /// Deleting all guessable jobs before attempt `attempt`.
    Purging { attempt: u8 },
    /// Pausing after a purge, before attempt `attempt`.
    Settling { attempt: u8 },
    /// The next page is being fetched.
    Retrieving,
    /// Pausing because the page was not ready.
    Waiting,
    /// All pages are in.
    Done,
    /// The scan has failed.
    Failed,
}

/// Why a scan failed.
#[derive(Clone, Copy, Debug, PartialEq, Eq, Structural)]
pub enum ScanFailure {
    /// The scanner answered the job creation with another status than
    /// success or conflict.
    Rejected { status: u16 },
    /// The scanner accepted the job and named no job URL.
    NoJobUrl,
    /// The scanner reported a conflict on every attempt.
    Busy,
    /// A request that must succeed did not reach the scanner.
    Unreachable,
    /// The report does not answer what the session had asked for.
    OutOfTurn,
}

/// What a report means to the state machine.
#[derive(Clone, Copy, Debug, PartialEq, Eq, Structural)]
pub enum ReportKind {
    /// The status request is over, with or without a document.
    StatusSeen,
    /// A round of best-effort deletions is over.
    Swept,
    /// A pause is over.
    Elapsed,
    /// Job creation: success with a job URL.
    Created,
    /// Job creation: success without a job URL.
    Unnamed,
    /// Job creation: conflict, the scanner is busy.
    Conflict,
    /// Job creation: any other status.
    Rejected { status: u16 },
    /// Page request: a page came.
    Page,
    /// Page request: no more pages.
    NoMorePages,
    /// Page request: not ready yet.
    NotReady,
    /// The request got no reply.
    NoReply,
}

/// What the embedding program does next.
#[derive(Clone, Copy, Debug, PartialEq, Eq, Structural)]
pub enum ScanAction {
    /// `GET` the status URL, then report the document or its absence.
    FetchStatus,
    /// `DELETE` every URL of [`EsclSession::sweep_urls`], ignoring all
    /// errors, then report `Swept`.
    Sweep,
    /// `POST` the settings document to the jobs URL.
    CreateJob,
    /// Wait, then report `Elapsed`.
    Pause { millis: u64 },
    /// `GET` the document URL.
    FetchDocument,
    /// Take the result.
    Finish,
    /// Take the failure.
    Abort,
}

/// The part of a session that decides: the phase, the number of job
/// creations issued so far, and the failure, if any.
#[derive(Clone, Copy, Debug, PartialEq, Eq, Structural)]
pub struct ScanProgress {
    pub phase: ScanPhase,
    pub posts: u8,
    pub failure: Option<ScanFailure>,
}

/// What the embedding program reports to a session.
#[derive(Debug)]
pub enum ScanReport {
    /// The status request is over; the document, if one came.
    Status { document: Option<String> },
    /// The deletions of a sweep have been issued.
    Swept,
    /// The pause is over.
    Elapsed,
    /// The reply to a job creation.
    JobReply { status: u16, location: Option<String> },
    /// The reply to a page request.
    Document { status: u16, data: Vec<u8> },
    /// The last request got no reply.
    NoReply,
}

/// One scan against one endpoint.
#[derive(Debug)]
pub struct EsclSession {
    pub ip: String,
    pub port: u16,
    pub use_tls: bool,
    pub rs_path: String,
    pub job: ScanJob,
    pub progress: ScanProgress,
    /// The scanner status as fetched by the pre-check, if it came.
    pub status_document: Option<String>,
    /// The job URL, verbatim from the `Location` header.
    pub job_url: String,
    pub pages: Vec<ScannedPage>,
}

/// Page `i` of a scan carries number `i + 1`, the requested format and the
/// length of its own data.
pub open spec fn pages_in_order(pages: Seq<ScannedPage>, format: Seq<char>) -> bool {
    forall|i: int|
        0 <= i < pages.len() ==> {
            &&& (#[trigger] pages[i]).page_number == i + 1
            &&& pages[i].format@ == format
            &&& pages[i].size_bytes == pages[i].data@.len()
        }
}

/// The base64 text of a byte string in the standard alphabet with padding,
/// as the `base64` crate computes it.
pub uninterp spec fn base64_of(data: Seq<u8>) -> Seq<char>;

/// The data is short enough for its base64 text: four characters for every
/// three bytes, rounded up, have to fit a length.
pub open spec fn fits_base64(data: Seq<u8>) -> bool {
    data.len() / 3 * 4 + 4 <= usize::MAX
}

/// `https` for a TLS endpoint or port 443, `http` otherwise.
pub open spec fn scheme_of(use_tls: bool, port: u16) -> Seq<char> {
    if use_tls || port == 443 {
        "https"@
    } else {
        "http"@
    }
}

/// The host part of a URL: an address with a colon is an IPv6 literal and is
/// put in brackets.
pub open spec fn host_of(ip: Seq<char>) -> Seq<char> {
    if ip.contains(':') {
        "["@ + ip + "]"@
    } else {
        ip
    }
}

/// `<scheme>://<host>:<port>/<rs_path>`.
pub open spec fn base_url_of(
    ip: Seq<char>,
    port: u16,
    use_tls: bool,
    rs_path: Seq<char>,
) -> Seq<char> {
    scheme_of(use_tls, port) + "://"@ + host_of(ip) + ":"@ + decimal(port as nat) + "/"@ + rs_path
}

/// `<scheme>://<host><path>`: the address of a job that the scanner named by
/// its path.
pub open spec fn job_url_of(
    ip: Seq<char>,
    port: u16,
    use_tls: bool,
    path: Seq<char>,
) -> Seq<char> {
    scheme_of(use_tls, port) + "://"@ + host_of(ip) + path
}

/// The input source element for a requested source.
pub open spec fn input_source_of(source: Seq<char>) -> Seq<char> {
    if source == "adf"@ {
        "Feeder"@
    } else {
        "Platen"@
    }
}

/// The scan settings document for a job: the fixed head, the input source,
/// the colour mode, the resolution on both axes, the document format.
pub open spec fn scan_settings_of(
    source: Seq<char>,
    color_mode: Seq<char>,
    resolution: u32,
    format: Seq<char>,
) -> Seq<char> {
    SETTINGS_HEAD@ + input_source_of(source) + SETTINGS_COLOR@ + color_mode + SETTINGS_X@ + decimal(
        resolution as nat,
    ) + SETTINGS_Y@ + decimal(resolution as nat) + SETTINGS_FORMAT@ + format + SETTINGS_TAIL@
}

/// The job path that a line of a scanner status names: where the line
/// mentions `JobUri` or `jobUri`, the text from the first `/eSCL/` up to the
/// next `<`.
pub open spec fn stale_path_in(line: Seq<char>) -> Option<Seq<char>> {
    if contains_seq(line, "JobUri"@) || contains_seq(line, "jobUri"@) {
        match find_first(line, "/eSCL/"@) {
            Some(start) => match find_from(line, "<"@, start) {
                Some(end) => Some(line.subrange(start, end)),
                None => None,
            },
            None => None,
        }
    } else {
        None
    }
}

/// The job paths named in `lines`, in order.
pub open spec fn stale_paths_in(lines: Seq<Seq<char>>) -> Seq<Seq<char>>
    decreases lines.len(),
{
    if lines.len() == 0 {
        Seq::empty()
    } else {
        match stale_path_in(lines.last()) {
            Some(p) => stale_paths_in(lines.drop_last()).push(p),
            None => stale_paths_in(lines.drop_last()),
        }
    }
}

/// The job paths that a scanner status document names, line by line.
pub open spec fn stale_paths_of(status: Seq<char>) -> Seq<Seq<char>> {
    stale_paths_in(lines_of(status))
}

/// The URLs of the jobs at `paths` on an endpoint.
pub open spec fn eviction_urls_of(
    ip: Seq<char>,
    port: u16,
    use_tls: bool,
    paths: Seq<Seq<char>>,
) -> Seq<Seq<char>> {
    Seq::new(paths.len(), |i: int| job_url_of(ip, port, use_tls, paths[i]))
}

/// The URLs of jobs `1..=count` under a base URL.
pub open spec fn purge_urls_of(base: Seq<char>, count: nat) -> Seq<Seq<char>> {
    Seq::new(count, |i: int| base + JOB_RESOURCE@ + decimal((i + 1) as nat))
}

/// `request` goes to the scanner at `url`: no credentials, the scan timeout,
/// the certificate unchecked.
pub open spec fn is_scanner_request(
    request: HttpRequest,
    method: HttpMethod,
    url: Seq<char>,
) -> bool {
    &&& request.method == method
    &&& request.url@ == url
    &&& request.bearer is None
    &&& request.timeout_secs == Some(SCAN_TIMEOUT_SECS)
    &&& request.accept_invalid_certs
}

/// The text of a failure, for the error report.
pub open spec fn failure_text(failure: ScanFailure) -> Seq<char> {
    match failure {
        ScanFailure::Rejected { status } => "Scan-Job erstellen fehlgeschlagen: "@ + decimal(
            status as nat,
        ),
        ScanFailure::NoJobUrl => "Keine Job-URL erhalten"@,
        ScanFailure::Busy => BUSY_TEXT@,
        ScanFailure::Unreachable => "Scanner nicht erreichbar"@,
        ScanFailure::OutOfTurn => "Scan-Ablauf gest\u{f6}rt"@,
    }
}

/// What a job creation reply means.
pub open spec fn job_reply_kind(status: u16, has_location: bool) -> ReportKind {
    if is_success(status) {
        if has_location {
            ReportKind::Created
        } else {
            ReportKind::Unnamed
        }
    } else if status == 409 {
        ReportKind::Conflict
    } else {
        ReportKind::Rejected { status }
    }
}

/// What a page reply means: 404 ends the scan, success brings a page, any
/// other status says that the scanner is still working.
pub open spec fn document_reply_kind(status: u16) -> ReportKind {
    if status == 404 {
        ReportKind::NoMorePages
    } else if is_success(status) {
        ReportKind::Page
    } else {
        ReportKind::NotReady
    }
}

/// What a report means.
pub open spec fn kind_of(report: ScanReport) -> ReportKind {
    match report {
        ScanReport::Status { document } => ReportKind::StatusSeen,
        ScanReport::Swept => ReportKind::Swept,
        ScanReport::Elapsed => ReportKind::Elapsed,
        ScanReport::JobReply { status, location } => job_reply_kind(status, location is Some),
        ScanReport::Document { status, data } => document_reply_kind(status),
        ScanReport::NoReply => ReportKind::NoReply,
    }
}

/// The progress of a session that has failed.
pub open spec fn failed(p: ScanProgress, failure: ScanFailure) -> ScanProgress {
    ScanProgress { phase: ScanPhase::Failed, posts: p.posts, failure: Some(failure) }
}

/// The progress of a session that moves on to `phase`.
pub open spec fn moved(p: ScanProgress, phase: ScanPhase) -> ScanProgress {
    ScanProgress { phase, posts: p.posts, failure: p.failure }
}

/// The progress of a session that issues job creation attempt `attempt`.
pub open spec fn posting(p: ScanProgress, attempt: u8) -> ScanProgress {
    ScanProgress {
        phase: ScanPhase::Creating { attempt },
        posts: (p.posts + 1) as u8,
        failure: p.failure,
    }
}

/// The transition function of a scan.
///
/// A missing status is no failure. A conflict leads to another attempt
/// while fewer than [`MAX_CREATE_ATTEMPTS`] were made, after a pause and,
/// from attempt index [`PURGE_FROM_ATTEMPT`] on, a purge and a second pause.
/// A report that does not fit the phase fails the scan.
pub open spec fn next_progress(p: ScanProgress, kind: ReportKind) -> ScanProgress {
    match (p.phase, kind) {
        (ScanPhase::PreCheck, ReportKind::StatusSeen) => moved(p, ScanPhase::Cleanup),
        (ScanPhase::PreCheck, ReportKind::NoReply) => moved(p, ScanPhase::Cleanup),
        (ScanPhase::Cleanup, ReportKind::Swept) => posting(p, 0),
        (ScanPhase::Creating { attempt }, ReportKind::Created) => moved(p, ScanPhase::Retrieving),
        (ScanPhase::Creating { attempt }, ReportKind::Unnamed) => failed(p, ScanFailure::NoJobUrl),
        (ScanPhase::Creating { attempt }, ReportKind::Conflict) => if attempt + 1
            < MAX_CREATE_ATTEMPTS {
            moved(p, ScanPhase::Backoff { attempt: (attempt + 1) as u8 })
        } else {
            failed(p, ScanFailure::Busy)
        },
        (ScanPhase::Creating { attempt }, ReportKind::Rejected { status }) => failed(
            p,
            ScanFailure::Rejected { status },
        ),
        (ScanPhase::Creating { attempt }, ReportKind::NoReply) => failed(
            p,
            ScanFailure::Unreachable,
        ),
        (ScanPhase::Backoff { attempt }, ReportKind::Elapsed) => if attempt >= PURGE_FROM_ATTEMPT {
            moved(p, ScanPhase::Purging { attempt })
        } else {
            posting(p, attempt)
        },
        (ScanPhase::Purging { attempt }, ReportKind::Swept) => moved(
            p,
            ScanPhase::Settling { attempt },
        ),
        (ScanPhase::Settling { attempt }, ReportKind::Elapsed) => posting(p, attempt),
        (ScanPhase::Retrieving, ReportKind::Page) => moved(p, ScanPhase::Retrieving),
        (ScanPhase::Retrieving, ReportKind::NoMorePages) => moved(p, ScanPhase::Done),
        (ScanPhase::Retrieving, ReportKind::NotReady) => moved(p, ScanPhase::Waiting),
        (ScanPhase::Retrieving, ReportKind::NoReply) => failed(p, ScanFailure::Unreachable),
        (ScanPhase::Waiting, ReportKind::Elapsed) => moved(p, ScanPhase::Retrieving),
        _ => failed(p, ScanFailure::OutOfTurn),
    }
}

/// What is to be done in a phase.
pub open spec fn action_of(phase: ScanPhase) -> ScanAction {
    match phase {
        ScanPhase::PreCheck => ScanAction::FetchStatus,
        ScanPhase::Cleanup => ScanAction::Sweep,
        ScanPhase::Creating { attempt } => ScanAction::CreateJob,
        ScanPhase::Backoff { attempt } => ScanAction::Pause { millis: BUSY_PAUSE_MS },
        ScanPhase::Purging { attempt } => ScanAction::Sweep,
        ScanPhase::Settling { attempt } => ScanAction::Pause { millis: SETTLE_PAUSE_MS },
        ScanPhase::Retrieving => ScanAction::FetchDocument,
        ScanPhase::Waiting => ScanAction::Pause { millis: PENDING_PAUSE_MS },
        ScanPhase::Done => ScanAction::Finish,
        ScanPhase::Failed => ScanAction::Abort,
    }
}

/// The progress of a session that has not begun.
pub open spec fn initial_progress() -> ScanProgress {
    ScanProgress { phase: ScanPhase::PreCheck, posts: 0, failure: None }
}

/// The number of job creations issued is tied to the phase: attempt `a` is
/// the `a + 1`-th creation, and no more than [`MAX_CREATE_ATTEMPTS`] are ever
/// issued.
pub open spec fn progress_consistent(p: ScanProgress) -> bool {
    match p.phase {
        ScanPhase::PreCheck => p.posts == 0,
        ScanPhase::Cleanup => p.posts == 0,
        ScanPhase::Creating { attempt } => attempt < MAX_CREATE_ATTEMPTS && p.posts == attempt + 1,
        ScanPhase::Backoff { attempt } => 1 <= attempt < MAX_CREATE_ATTEMPTS && p.posts == attempt,
        ScanPhase::Purging { attempt } => PURGE_FROM_ATTEMPT <= attempt < MAX_CREATE_ATTEMPTS
            && p.posts == attempt,
        ScanPhase::Settling { attempt } => PURGE_FROM_ATTEMPT <= attempt < MAX_CREATE_ATTEMPTS
            && p.posts == attempt,
        ScanPhase::Retrieving => 1 <= p.posts <= MAX_CREATE_ATTEMPTS,
        ScanPhase::Waiting => 1 <= p.posts <= MAX_CREATE_ATTEMPTS,
        ScanPhase::Done => 1 <= p.posts <= MAX_CREATE_ATTEMPTS,
        ScanPhase::Failed => p.posts <= MAX_CREATE_ATTEMPTS && p.failure is Some,
    }
}

/// The progress after a run of reports.
pub open spec fn progress_after(p: ScanProgress, kinds: Seq<ReportKind>) -> ScanProgress
    decreases kinds.len(),
{
    if kinds.len() == 0 {
        p
    } else {
        next_progress(progress_after(p, kinds.drop_last()), kinds.last())
    }
}

/// The reports of a scan on a scanner that answers the first `conflicts`
/// job creations with a conflict, up to the point where the next creation is
/// issued. The scan begins with the pre-check, which ends as `precheck` says,
/// and the clean-up. Each conflict is followed by the pause, and from the
/// second retry on by the purge and its pause.
pub open spec fn busy_script(precheck: ReportKind, conflicts: nat) -> Seq<ReportKind>
    decreases conflicts,
{
    if conflicts == 0 {
        seq![precheck, ReportKind::Swept]
    } else if conflicts < PURGE_FROM_ATTEMPT {
        busy_script(precheck, (conflicts - 1) as nat).push(ReportKind::Conflict).push(
            ReportKind::Elapsed,
        )
    } else {
        busy_script(precheck, (conflicts - 1) as nat).push(ReportKind::Conflict).push(
            ReportKind::Elapsed,
        ).push(ReportKind::Swept).push(ReportKind::Elapsed)
    }
}

/// The reports of a retrieval that goes on: each is a page that came, or a
/// page that was not ready followed by the pause.
pub open spec fn is_retrieval_run(kinds: Seq<ReportKind>) -> bool
    decreases kinds.len(),
{
    if kinds.len() == 0 {
        true
    } else if kinds.last() == ReportKind::Page {
        is_retrieval_run(kinds.drop_last())
    } else if kinds.len() >= 2 && kinds.last() == ReportKind::Elapsed && kinds[kinds.len() - 2]
        == ReportKind::NotReady {
        is_retrieval_run(kinds.drop_last().drop_last())
    } else {
        false
    }
}

/// A pre-check ends with the status seen or with no reply.
pub open spec fn ends_precheck(kind: ReportKind) -> bool {
    kind == ReportKind::StatusSeen || kind == ReportKind::NoReply
}

/// The count of job creations goes up by one with every report that is
/// answered with a job creation, and with no other.
pub proof fn lemma_posts_count_creations(p: ScanProgress, kind: ReportKind)
    requires
        progress_consistent(p),
    ensures
        next_progress(p, kind).posts == p.posts + (if action_of(next_progress(p, kind).phase)
            == ScanAction::CreateJob {
            1int
        } else {
            0int
        }),
{
}

/// One more report is one more transition.
pub proof fn lemma_progress_after_push(p: ScanProgress, kinds: Seq<ReportKind>, kind: ReportKind)
    ensures
        progress_after(p, kinds.push(kind)) == next_progress(progress_after(p, kinds), kind),
{
    assert(kinds.push(kind).drop_last() =~= kinds);
}

/// After `conflicts` conflicts, at most three, a scan is in attempt
/// `conflicts` and has issued `conflicts + 1` job creations.
pub proof fn lemma_after_conflicts(precheck: ReportKind, conflicts: nat)
    requires
        ends_precheck(precheck),
        conflicts < MAX_CREATE_ATTEMPTS,
    ensures
        progress_after(initial_progress(), busy_script(precheck, conflicts)) == (ScanProgress {
            phase: ScanPhase::Creating { attempt: conflicts as u8 },
            posts: (conflicts + 1) as u8,
            failure: None,
        }),
    decreases conflicts,
{
    let start = initial_progress();
    if conflicts == 0 {
        let none = Seq::<ReportKind>::empty();
        lemma_progress_after_push(start, none, precheck);
        lemma_progress_after_push(start, none.push(precheck), ReportKind::Swept);
        assert(seq![precheck, ReportKind::Swept] =~= none.push(precheck).push(ReportKind::Swept));
    } else {
        let earlier = busy_script(precheck, (conflicts - 1) as nat);
        lemma_after_conflicts(precheck, (conflicts - 1) as nat);
        let conflicted = earlier.push(ReportKind::Conflict);
        let paused = conflicted.push(ReportKind::Elapsed);
        lemma_progress_after_push(start, earlier, ReportKind::Conflict);
        lemma_progress_after_push(start, conflicted, ReportKind::Elapsed);
        if conflicts >= PURGE_FROM_ATTEMPT {
            let purged = paused.push(ReportKind::Swept);
            lemma_progress_after_push(start, paused, ReportKind::Swept);
            lemma_progress_after_push(start, purged, ReportKind::Elapsed);
        }
    }
}

/// Busy recovery: a scanner that answers the first `conflicts` job creations
/// with a conflict, `conflicts` at most three, and the next one with success
/// and a job URL, gets exactly `conflicts + 1` job creations, and the scan
/// goes on to retrieve pages.
pub proof fn lemma_busy_recovery(precheck: ReportKind, conflicts: nat)
    requires
        ends_precheck(precheck),
        conflicts < MAX_CREATE_ATTEMPTS,
    ensures
        progress_after(
            initial_progress(),
            busy_script(precheck, conflicts).push(ReportKind::Created),
        ) == (ScanProgress {
            phase: ScanPhase::Retrieving,
            posts: (conflicts + 1) as u8,
            failure: None,
        }),
{
    lemma_after_conflicts(precheck, conflicts);
    lemma_progress_after_push(
        initial_progress(),
        busy_script(precheck, conflicts),
        ReportKind::Created,
    );
}

/// Exhausted busy: a scanner that answers all [`MAX_CREATE_ATTEMPTS`] job
/// creations with a conflict gets exactly that many, and the scan fails as
/// busy.
pub proof fn lemma_exhausted_busy(precheck: ReportKind)
    requires
        ends_precheck(precheck),
    ensures
        progress_after(
            initial_progress(),
            busy_script(precheck, (MAX_CREATE_ATTEMPTS - 1) as nat).push(ReportKind::Conflict),
        ) == (ScanProgress {
            phase: ScanPhase::Failed,
            posts: MAX_CREATE_ATTEMPTS,
            failure: Some(ScanFailure::Busy),
        }),
{
    lemma_after_conflicts(precheck, (MAX_CREATE_ATTEMPTS - 1) as nat);
    lemma_progress_after_push(
        initial_progress(),
        busy_script(precheck, (MAX_CREATE_ATTEMPTS - 1) as nat),
        ReportKind::Conflict,
    );
}

/// Feeding the reports of `a` and then those of `b` is feeding `a + b`.
pub proof fn lemma_progress_after_concat(p: ScanProgress, a: Seq<ReportKind>, b: Seq<ReportKind>)
    ensures
        progress_after(p, a + b) == progress_after(progress_after(p, a), b),
    decreases b.len(),
{
    if b.len() > 0 {
        assert((a + b).drop_last() =~= a + b.drop_last());
        lemma_progress_after_concat(p, a, b.drop_last());
    }
}

/// A retrieval that goes on stays a retrieval: pages and pauses change
/// neither the phase nor the count of job creations.
pub proof fn lemma_retrieval_goes_on(p: ScanProgress, run: Seq<ReportKind>)
    requires
        p.phase == ScanPhase::Retrieving,
        is_retrieval_run(run),
    ensures
        progress_after(p, run) == p,
    decreases run.len(),
{
    if run.len() > 0 {
        if run.last() == ReportKind::Page {
            lemma_retrieval_goes_on(p, run.drop_last());
        } else {
            lemma_retrieval_goes_on(p, run.drop_last().drop_last());
        }
    }
}

/// Busy recovery to the end: a scanner that answers the first `conflicts`
/// job creations with a conflict, `conflicts` at most three, the next one
/// with success and a job URL, and whose retrieval, however many pages and
/// pauses it takes, ends with no more pages, gets exactly `conflicts + 1`
/// job creations, and the scan is done without a failure.
pub proof fn lemma_busy_recovery_succeeds(
    precheck: ReportKind,
    conflicts: nat,
    run: Seq<ReportKind>,
)
    requires
        ends_precheck(precheck),
        conflicts < MAX_CREATE_ATTEMPTS,
        is_retrieval_run(run),
    ensures
        progress_after(
            initial_progress(),
            busy_script(precheck, conflicts).push(ReportKind::Created) + run.push(
                ReportKind::NoMorePages,
            ),
        ) == (ScanProgress {
            phase: ScanPhase::Done,
            posts: (conflicts + 1) as u8,
            failure: None,
        }),
{
    let created = busy_script(precheck, conflicts).push(ReportKind::Created);
    lemma_busy_recovery(precheck, conflicts);
    lemma_progress_after_concat(initial_progress(), created, run.push(ReportKind::NoMorePages));
    let retrieving = progress_after(initial_progress(), created);
    lemma_progress_after_push(retrieving, run, ReportKind::NoMorePages);
    lemma_retrieval_goes_on(retrieving, run);
}

/// A session that is done ends with a result, and a session that is not
/// done ends with a failure, its own where it has failed.
pub proof fn lemma_session_ends(
    session: EsclSession,
    job_id: String,
    r: Result<ScanResult, ScanFailure>,
)
    requires
        session.ends_as(job_id, r),
    ensures
        r is Ok <==> session.progress.phase == ScanPhase::Done,
        session.progress.phase == ScanPhase::Failed && session.progress.failure is Some ==> r
            == Err::<ScanResult, ScanFailure>(session.progress.failure->0),
{
}

/// The base64 text of `data`, computed by `Engine::encode` of
/// `base64::engine::general_purpose::STANDARD`. The contract names the text
/// and says nothing else about it. The encoder gives up on data whose text
/// would be longer than any length; such data is left out.
#[verifier::external_body]
fn base64_standard(data: &[u8]) -> (text: String)
    requires
        fits_base64(data@),
    ensures
        text@ == base64_of(data@),
{
    base64::engine::general_purpose::STANDARD.encode(data)
}

/// A fresh job identifier from `uuid::Uuid::new_v4`, in its default text
/// form. The identifier is random; only its length is claimed: the default
/// form is the hyphenated one, of 36 characters.
#[verifier::external_body]
fn fresh_job_id() -> (id: String)
    ensures
        id@.len() == 36,
{
    uuid::Uuid::new_v4().to_string()
}

/// The URL scheme for an endpoint.
pub fn scheme(use_tls: bool, port: u16) -> (r: &'static str)
    ensures
        r@ == scheme_of(use_tls, port),
{
    if use_tls || port == 443 {
        "https"
    } else {
        "http"
    }
}

/// The host part of a URL for an address.
pub fn host_segment(ip: &str) -> (r: String)
    ensures
        r@ == host_of(ip@),
{
    if contains_char(ip, ':') {
        let mut r = String::from_str("[");
        r.append(ip);
        r.append("]");
        r
    } else {
        String::from_str(ip)
    }
}

/// The base URL of all eSCL resources of an endpoint.
pub fn base_url(ip: &str, port: u16, use_tls: bool, rs_path: &str) -> (r: String)
    ensures
        r@ == base_url_of(ip@, port, use_tls, rs_path@),
{
    let mut r = String::from_str(scheme(use_tls, port));
    r.append("://");
    let host = host_segment(ip);
    r.append(host.as_str());
    r.append(":");
    let digits = decimal_string(port as u64);
    r.append(digits.as_str());
    r.append("/");
    r.append(rs_path);
    r
}

/// The URL of a job from the path under which the scanner listed it. The port
/// is not part of it.
pub fn job_url_for_path(ip: &str, port: u16, use_tls: bool, path: &str) -> (r: String)
    ensures
        r@ == job_url_of(ip@, port, use_tls, path@),
{
    let mut r = String::from_str(scheme(use_tls, port));
    r.append("://");
    let host = host_segment(ip);
    r.append(host.as_str());
    r.append(path);
    r
}

/// The scan settings document for `job`.
pub fn scan_settings_xml(job: &ScanJob) -> (r: String)
    ensures
        r@ == scan_settings_of(job.source@, job.color_mode@, job.resolution, job.format@),
{
    let mut r = String::from_str(SETTINGS_HEAD);
    if same_text(job.source.as_str(), "adf") {
        r.append("Feeder");
    } else {
        r.append("Platen");
    }
    r.append(SETTINGS_COLOR);
    r.append(job.color_mode.as_str());
    r.append(SETTINGS_X);
    let digits = decimal_string(job.resolution as u64);
    r.append(digits.as_str());
    r.append(SETTINGS_Y);
    r.append(digits.as_str());
    r.append(SETTINGS_FORMAT);
    r.append(job.format.as_str());
    r.append(SETTINGS_TAIL);
    r
}

/// The job path named in one line of a scanner status, if any.
pub fn stale_path_in_line(line: &Vec<char>) -> (r: Option<String>)
    ensures
        match r {
            Some(p) => stale_path_in(line@) == Some(p@),
            None => stale_path_in(line@) is None,
        },
{
    let upper = to_chars("JobUri");
    let lower = to_chars("jobUri");
    proof {
        lemma_find_first_contains(line@, "JobUri"@);
        lemma_find_first_contains(line@, "jobUri"@);
    }
    if find_chars(line, &upper, 0).is_none() && find_chars(line, &lower, 0).is_none() {
        return None;
    }
    let root = to_chars("/eSCL/");
    let close = to_chars("<");
    match find_chars(line, &root, 0) {
        Some(start) => match find_chars(line, &close, start) {
            Some(end) => {
                proof {
                    lemma_find_from(line@, "<"@, start as int);
                }
                Some(from_chars(line, start, end))
            },
            None => None,
        },
        None => None,
    }
}

/// The job paths that a scanner status document names, in order of their
/// lines.
pub fn stale_job_paths(status: &str) -> (paths: Vec<String>)
    ensures
        texts_of(paths@) == stale_paths_of(status@),
{
    let lines = split_lines(status);
    let mut paths: Vec<String> = Vec::new();
    let mut i: usize = 0;
    while i < lines.len()
        invariant
            i <= lines.len(),
            texts_of(paths@) == stale_paths_in(views_of(lines@).subrange(0, i as int)),
        decreases lines.len() - i,
    {
        proof {
            assert(views_of(lines@).subrange(0, i + 1).drop_last() == views_of(lines@).subrange(
                0,
                i as int,
            ));
        }
        match stale_path_in_line(&lines[i]) {
            Some(p) => {
                paths.push(p);
            },
            None => {},
        }
        i += 1;
    }
    assert(views_of(lines@).subrange(0, lines.len() as int) == views_of(lines@));
    paths
}

/// A request to the scanner.
fn scanner_request(method: HttpMethod, url: String, body: Body) -> (request: HttpRequest)
    ensures
        is_scanner_request(request, method, url@),
        request.body == body,
{
    HttpRequest {
        method,
        url,
        bearer: None,
        timeout_secs: Some(SCAN_TIMEOUT_SECS),
        accept_invalid_certs: true,
        body,
    }
}

/// Whether a progress is consistent.
pub fn is_consistent(p: &ScanProgress) -> (r: bool)
    ensures
        r == progress_consistent(*p),
{
    match p.phase {
        ScanPhase::PreCheck => p.posts == 0,
        ScanPhase::Cleanup => p.posts == 0,
        ScanPhase::Creating { attempt } => attempt < MAX_CREATE_ATTEMPTS && p.posts == attempt + 1,
        ScanPhase::Backoff { attempt } => 1 <= attempt && attempt < MAX_CREATE_ATTEMPTS && p.posts
            == attempt,
        ScanPhase::Purging { attempt } => PURGE_FROM_ATTEMPT <= attempt && attempt
            < MAX_CREATE_ATTEMPTS && p.posts == attempt,
        ScanPhase::Settling { attempt } => PURGE_FROM_ATTEMPT <= attempt && attempt
            < MAX_CREATE_ATTEMPTS && p.posts == attempt,
        ScanPhase::Retrieving => 1 <= p.posts && p.posts <= MAX_CREATE_ATTEMPTS,
        ScanPhase::Waiting => 1 <= p.posts && p.posts <= MAX_CREATE_ATTEMPTS,
        ScanPhase::Done => 1 <= p.posts && p.posts <= MAX_CREATE_ATTEMPTS,
        ScanPhase::Failed => p.posts <= MAX_CREATE_ATTEMPTS && p.failure.is_some(),
    }
}

/// The text of a failure, for the error report.
pub fn failure_message(failure: ScanFailure) -> (r: String)
    ensures
        r@ == failure_text(failure),
{
    match failure {
        ScanFailure::Rejected { status } => {
            let mut r = String::from_str("Scan-Job erstellen fehlgeschlagen: ");
            let digits = decimal_string(status as u64);
            r.append(digits.as_str());
            r
        },
        ScanFailure::NoJobUrl => String::from_str("Keine Job-URL erhalten"),
        ScanFailure::Busy => String::from_str(BUSY_TEXT),
        ScanFailure::Unreachable => String::from_str("Scanner nicht erreichbar"),
        ScanFailure::OutOfTurn => String::from_str("Scan-Ablauf gest\u{f6}rt"),
    }
}

/// Begins a scan of `job` on the endpoint `ip:port` whose eSCL resources
/// live under `rs_path`. Nothing is sent: the session starts in the
/// pre-check and is driven by [`EsclSession::advance`].
pub fn scan_escl_with_tls(ip: &str, port: u16, use_tls: bool, rs_path: &str, job: ScanJob) -> (s:
    EsclSession)
    ensures
        s.well_formed(),
        s.ip@ == ip@,
        s.port == port,
        s.use_tls == use_tls,
        s.rs_path@ == rs_path@,
        s.job == job,
        s.progress == initial_progress(),
        s.status_document is None,
        s.job_url@ == Seq::<char>::empty(),
        s.pages@ == Seq::<ScannedPage>::empty(),
{
    EsclSession {
        ip: String::from_str(ip),
        port,
        use_tls,
        rs_path: String::from_str(rs_path),
        job,
        progress: ScanProgress { phase: ScanPhase::PreCheck, posts: 0, failure: None },
        status_document: None,
        job_url: String::new(),
        pages: Vec::new(),
    }
}

/// Begins a scan without TLS under the default resource path `eSCL`.
pub fn scan_escl(ip: &str, port: u16, job: ScanJob) -> (s: EsclSession)
    ensures
        s.well_formed(),
        s.ip@ == ip@,
        s.port == port,
        !s.use_tls,
        s.rs_path@ == "eSCL"@,
        s.job == job,
        s.progress == initial_progress(),
        s.status_document is None,
        s.job_url@ == Seq::<char>::empty(),
        s.pages@ == Seq::<ScannedPage>::empty(),
{
    scan_escl_with_tls(ip, port, false, "eSCL", job)
}

impl ScannedPage {
    /// The data of the page as base64 text, for where the page goes into
    /// JSON; none for data too long to have one.
    pub fn data_base64(&self) -> (r: Option<String>)
        ensures
            r is Some <==> fits_base64(self.data@),
            r matches Some(text) ==> text@ == base64_of(self.data@),
    {
        if self.data.len() / 3 <= (usize::MAX - 4) / 4 {
            Some(base64_standard(self.data.as_slice()))
        } else {
            None
        }
    }
}

impl EsclSession {
    /// The progress is consistent and the pages are numbered from 1.
    pub open spec fn well_formed(&self) -> bool {
        &&& progress_consistent(self.progress)
        &&& pages_in_order(self.pages@, self.job.format@)
    }

    /// The base URL of the endpoint.
    pub open spec fn base(&self) -> Seq<char> {
        base_url_of(self.ip@, self.port, self.use_tls, self.rs_path@)
    }

    /// The URLs that a sweep deletes: in the clean-up the jobs that the
    /// status document names, in a purge the jobs `1..=PURGE_JOB_COUNT`.
    pub open spec fn sweep_urls_of(&self) -> Seq<Seq<char>> {
        match self.progress.phase {
            ScanPhase::Cleanup => match self.status_document {
                Some(d) => eviction_urls_of(
                    self.ip@,
                    self.port,
                    self.use_tls,
                    stale_paths_of(d@),
                ),
                None => Seq::empty(),
            },
            ScanPhase::Purging { attempt } => purge_urls_of(self.base(), PURGE_JOB_COUNT as nat),
            _ => Seq::empty(),
        }
    }

    /// Whether the session is well formed.
    pub fn is_well_formed(&self) -> (r: bool)
        ensures
            r == self.well_formed(),
    {
        if !is_consistent(&self.progress) {
            return false;
        }
        let mut i: usize = 0;
        while i < self.pages.len()
            invariant
                i <= self.pages.len(),
                pages_in_order(self.pages@.subrange(0, i as int), self.job.format@),
            decreases self.pages.len() - i,
        {
            let page = &self.pages[i];
            if page.page_number == 0 || page.page_number - 1 != i || page.size_bytes
                != page.data.len() || !same_text(page.format.as_str(), self.job.format.as_str()) {
                return false;
            }
            i += 1;
        }
        assert(self.pages@.subrange(0, self.pages.len() as int) == self.pages@);
        true
    }

    /// What is to be done now.
    pub fn action(&self) -> (a: ScanAction)
        ensures
            a == action_of(self.progress.phase),
    {
        match self.progress.phase {
            ScanPhase::PreCheck => ScanAction::FetchStatus,
            ScanPhase::Cleanup => ScanAction::Sweep,
            ScanPhase::Creating { attempt } => ScanAction::CreateJob,
            ScanPhase::Backoff { attempt } => ScanAction::Pause { millis: BUSY_PAUSE_MS },
            ScanPhase::Purging { attempt } => ScanAction::Sweep,
            ScanPhase::Settling { attempt } => ScanAction::Pause { millis: SETTLE_PAUSE_MS },
            ScanPhase::Retrieving => ScanAction::FetchDocument,
            ScanPhase::Waiting => ScanAction::Pause { millis: PENDING_PAUSE_MS },
            ScanPhase::Done => ScanAction::Finish,
            ScanPhase::Failed => ScanAction::Abort,
        }
    }

    fn fail(&mut self, failure: ScanFailure)
        requires
            old(self).well_formed(),
        ensures
            final(self).progress == failed(old(self).progress, failure),
            final(self).well_formed(),
            final(self).ip == old(self).ip,
            final(self).port == old(self).port,
            final(self).use_tls == old(self).use_tls,
            final(self).rs_path == old(self).rs_path,
            final(self).job == old(self).job,
            final(self).status_document == old(self).status_document,
            final(self).job_url == old(self).job_url,
            final(self).pages == old(self).pages,
    {
        self.progress.phase = ScanPhase::Failed;
        self.progress.failure = Some(failure);
    }

    fn post(&mut self, attempt: u8)
        requires
            old(self).well_formed(),
            attempt < MAX_CREATE_ATTEMPTS,
            old(self).progress.posts == attempt,
        ensures
            final(self).progress == posting(old(self).progress, attempt),
            final(self).well_formed(),
            final(self).ip == old(self).ip,
            final(self).port == old(self).port,
            final(self).use_tls == old(self).use_tls,
            final(self).rs_path == old(self).rs_path,
            final(self).job == old(self).job,
            final(self).status_document == old(self).status_document,
            final(self).job_url == old(self).job_url,
            final(self).pages == old(self).pages,
    {
        self.progress.phase = ScanPhase::Creating { attempt };
        self.progress.posts = self.progress.posts + 1;
    }

    /// Takes a report and answers with the next action.
    ///
    /// The progress moves as [`next_progress`] says. Beside it, a status
    /// document is kept for the clean-up, the job URL is taken verbatim from
    /// the location of a successful job creation, and a page that came is
    /// appended with the next page number, the job's format and its size.
    pub fn advance(&mut self, report: ScanReport) -> (action: ScanAction)
        requires
            old(self).well_formed(),
            old(self).pages@.len() < usize::MAX,
        ensures
            final(self).well_formed(),
            final(self).progress == next_progress(old(self).progress, kind_of(report)),
            action == action_of(final(self).progress.phase),
            final(self).ip == old(self).ip,
            final(self).port == old(self).port,
            final(self).use_tls == old(self).use_tls,
            final(self).rs_path == old(self).rs_path,
            final(self).job == old(self).job,
            final(self).status_document == (match (old(self).progress.phase, report) {
                (ScanPhase::PreCheck, ScanReport::Status { document }) => document,
                _ => old(self).status_document,
            }),
            final(self).job_url == (match (old(self).progress.phase, report) {
                (
                    ScanPhase::Creating { attempt },
                    ScanReport::JobReply { status, location: Some(url) },
                ) => if is_success(status) {
                    url
                } else {
                    old(self).job_url
                },
                _ => old(self).job_url,
            }),
            match (old(self).progress.phase, report) {
                (ScanPhase::Retrieving, ScanReport::Document { status, data }) => if status != 404
                    && is_success(status) {
                    &&& final(self).pages@.len() == old(self).pages@.len() + 1
                    &&& final(self).pages@.drop_last() == old(self).pages@
                    &&& final(self).pages@.last().data == data
                } else {
                    final(self).pages == old(self).pages
                },
                _ => final(self).pages == old(self).pages,
            },
    {
        let phase = self.progress.phase;
        match report {
            ScanReport::Status { document } => match phase {
                ScanPhase::PreCheck => {
                    self.status_document = document;
                    self.progress.phase = ScanPhase::Cleanup;
                },
                _ => self.fail(ScanFailure::OutOfTurn),
            },
            ScanReport::Swept => match phase {
                ScanPhase::Cleanup => self.post(0),
                ScanPhase::Purging { attempt } => {
                    self.progress.phase = ScanPhase::Settling { attempt };
                },
                _ => self.fail(ScanFailure::OutOfTurn),
            },
            ScanReport::Elapsed => match phase {
                ScanPhase::Backoff { attempt } => {
                    if attempt >= PURGE_FROM_ATTEMPT {
                        self.progress.phase = ScanPhase::Purging { attempt };
                    } else {
                        self.post(attempt);
                    }
                },
                ScanPhase::Settling { attempt } => self.post(attempt),
                ScanPhase::Waiting => {
                    self.progress.phase = ScanPhase::Retrieving;
                },
                _ => self.fail(ScanFailure::OutOfTurn),
            },
            ScanReport::JobReply { status, location } => match phase {
                ScanPhase::Creating { attempt } => {
                    if is_success_status(status) {
                        match location {
                            Some(url) => {
                                self.job_url = url;
                                self.progress.phase = ScanPhase::Retrieving;
                            },
                            None => self.fail(ScanFailure::NoJobUrl),
                        }
                    } else if status == 409 {
                        if attempt + 1 < MAX_CREATE_ATTEMPTS {
                            self.progress.phase = ScanPhase::Backoff { attempt: attempt + 1 };
                        } else {
                            self.fail(ScanFailure::Busy);
                        }
                    } else {
                        self.fail(ScanFailure::Rejected { status });
                    }
                },
                _ => self.fail(ScanFailure::OutOfTurn),
            },
            ScanReport::Document { status, data } => match phase {
                ScanPhase::Retrieving => {
                    if status == 404 {
                        self.progress.phase = ScanPhase::Done;
                    } else if is_success_status(status) {
                        let page = ScannedPage {
                            page_number: self.pages.len() + 1,
                            format: self.job.format.clone(),
                            size_bytes: data.len(),
                            data,
                        };
                        self.pages.push(page);
                    } else {
                        self.progress.phase = ScanPhase::Waiting;
                    }
                },
                _ => self.fail(ScanFailure::OutOfTurn),
            },
            ScanReport::NoReply => match phase {
                ScanPhase::PreCheck => {
                    self.progress.phase = ScanPhase::Cleanup;
                },
                ScanPhase::Creating { attempt } => self.fail(ScanFailure::Unreachable),
                ScanPhase::Retrieving => self.fail(ScanFailure::Unreachable),
                _ => self.fail(ScanFailure::OutOfTurn),
            },
        }
        self.action()
    }

    /// The URL of the scanner status.
    pub fn status_url(&self) -> (r: String)
        ensures
            r@ == self.base() + STATUS_RESOURCE@,
    {
        let mut r = base_url(self.ip.as_str(), self.port, self.use_tls, self.rs_path.as_str());
        r.append(STATUS_RESOURCE);
        r
    }

    /// The URL to which the settings document is posted.
    pub fn jobs_url(&self) -> (r: String)
        ensures
            r@ == self.base() + JOBS_RESOURCE@,
    {
        let mut r = base_url(self.ip.as_str(), self.port, self.use_tls, self.rs_path.as_str());
        r.append(JOBS_RESOURCE);
        r
    }

    /// The URL of the next page of the job.
    pub fn document_url(&self) -> (r: String)
        ensures
            r@ == self.job_url@ + NEXT_DOCUMENT@,
    {
        let mut r = self.job_url.clone();
        r.append(NEXT_DOCUMENT);
        r
    }

    /// The settings document of the job.
    pub fn settings(&self) -> (r: String)
        ensures
            r@ == scan_settings_of(
                self.job.source@,
                self.job.color_mode@,
                self.job.resolution,
                self.job.format@,
            ),
    {
        scan_settings_xml(&self.job)
    }

    /// The URLs to delete in the sweep that is due, in order.
    pub fn sweep_urls(&self) -> (urls: Vec<String>)
        ensures
            texts_of(urls@) == self.sweep_urls_of(),
    {
        let mut urls: Vec<String> = Vec::new();
        match self.progress.phase {
            ScanPhase::Cleanup => match &self.status_document {
                Some(d) => {
                    let paths = stale_job_paths(d.as_str());
                    let mut i: usize = 0;
                    while i < paths.len()
                        invariant
                            i <= paths.len(),
                            urls@.len() == i,
                            forall|j: int|
                                0 <= j < i ==> (#[trigger] urls@[j])@ == job_url_of(
                                    self.ip@,
                                    self.port,
                                    self.use_tls,
                                    paths@[j]@,
                                ),
                        decreases paths.len() - i,
                    {
                        let u = job_url_for_path(
                            self.ip.as_str(),
                            self.port,
                            self.use_tls,
                            paths[i].as_str(),
                        );
                        urls.push(u);
                        i += 1;
                    }
                },
                None => {},
            },
            ScanPhase::Purging { attempt } => {
                let base = base_url(
                    self.ip.as_str(),
                    self.port,
                    self.use_tls,
                    self.rs_path.as_str(),
                );
                let mut n: u8 = 0;
                while n < PURGE_JOB_COUNT
                    invariant
                        n <= PURGE_JOB_COUNT,
                        urls@.len() == n,
                        base@ == self.base(),
                        forall|j: int|
                            0 <= j < n ==> (#[trigger] urls@[j])@ == base@ + JOB_RESOURCE@
                                + decimal((j + 1) as nat),
                    decreases PURGE_JOB_COUNT - n,
                {
                    n += 1;
                    let mut u = base.clone();
                    u.append(JOB_RESOURCE);
                    let digits = decimal_string(n as u64);
                    u.append(digits.as_str());
                    urls.push(u);
                }
            },
            _ => {},
        }
        urls
    }

    /// The request that is due, for the actions that are one request.
    pub fn request(&self) -> (r: Option<HttpRequest>)
        ensures
            match action_of(self.progress.phase) {
                ScanAction::FetchStatus => {
                    &&& r matches Some(q)
                    &&& is_scanner_request(q, HttpMethod::Get, self.base() + STATUS_RESOURCE@)
                    &&& q.body is Empty
                },
                ScanAction::CreateJob => {
                    &&& r matches Some(q)
                    &&& is_scanner_request(q, HttpMethod::Post, self.base() + JOBS_RESOURCE@)
                    &&& q.body matches Body::Xml { document }
                    &&& document@ == scan_settings_of(
                        self.job.source@,
                        self.job.color_mode@,
                        self.job.resolution,
                        self.job.format@,
                    )
                },
                ScanAction::FetchDocument => {
                    &&& r matches Some(q)
                    &&& is_scanner_request(q, HttpMethod::Get, self.job_url@ + NEXT_DOCUMENT@)
                    &&& q.body is Empty
                },
                _ => r is None,
            },
    {
        match self.action() {
            ScanAction::FetchStatus => Some(
                scanner_request(HttpMethod::Get, self.status_url(), Body::Empty),
            ),
            ScanAction::CreateJob => Some(
                scanner_request(
                    HttpMethod::Post,
                    self.jobs_url(),
                    Body::Xml { document: self.settings() },
                ),
            ),
            ScanAction::FetchDocument => Some(
                scanner_request(HttpMethod::Get, self.document_url(), Body::Empty),
            ),
            _ => None,
        }
    }

    /// The deletions of the sweep that is due, in order.
    pub fn sweep_requests(&self) -> (requests: Vec<HttpRequest>)
        ensures
            requests@.len() == self.sweep_urls_of().len(),
            forall|i: int|
                0 <= i < requests@.len() ==> {
                    &&& is_scanner_request(
                        #[trigger] requests@[i],
                        HttpMethod::Delete,
                        self.sweep_urls_of()[i],
                    )
                    &&& requests@[i].body is Empty
                },
    {
        let urls = self.sweep_urls();
        let mut requests: Vec<HttpRequest> = Vec::new();
        let mut i: usize = 0;
        while i < urls.len()
            invariant
                i <= urls.len(),
                requests@.len() == i,
                texts_of(urls@) == self.sweep_urls_of(),
                forall|k: int|
                    0 <= k < i ==> {
                        &&& is_scanner_request(
                            #[trigger] requests@[k],
                            HttpMethod::Delete,
                            self.sweep_urls_of()[k],
                        )
                        &&& requests@[k].body is Empty
                    },
            decreases urls.len() - i,
        {
            requests.push(scanner_request(HttpMethod::Delete, urls[i].clone(), Body::Empty));
            i += 1;
        }
        requests
    }

    /// The failure with which a session ends that is not done: its own if
    /// it has failed, and `OutOfTurn` if it is still under way.
    pub open spec fn failure_of(&self) -> ScanFailure {
        match self.progress.failure {
            Some(f) => if self.progress.phase == ScanPhase::Failed {
                f
            } else {
                ScanFailure::OutOfTurn
            },
            None => ScanFailure::OutOfTurn,
        }
    }

    /// How a session ends under the job identifier `job_id`: with its pages
    /// in order if the scan is done, else with its failure.
    pub open spec fn ends_as(&self, job_id: String, r: Result<ScanResult, ScanFailure>) -> bool {
        match r {
            Ok(result) => {
                &&& self.progress.phase == ScanPhase::Done
                &&& result.job_id == job_id
                &&& result.pages == self.pages
                &&& result.total_pages == self.pages@.len()
                &&& pages_in_order(result.pages@, self.job.format@)
            },
            Err(failure) => {
                &&& self.progress.phase != ScanPhase::Done
                &&& failure == self.failure_of()
            },
        }
    }

    /// Ends the session under the job identifier `job_id`.
    pub fn into_result(self, job_id: String) -> (r: Result<ScanResult, ScanFailure>)
        requires
            self.well_formed(),
        ensures
            self.ends_as(job_id, r),
    {
        match self.progress.phase {
            ScanPhase::Done => {
                let total_pages: usize = self.pages.len();
                Ok(ScanResult { job_id, pages: self.pages, total_pages })
            },
            ScanPhase::Failed => match self.progress.failure {
                Some(f) => Err(f),
                None => Err(ScanFailure::OutOfTurn),
            },
            _ => Err(ScanFailure::OutOfTurn),
        }
    }

    /// Ends the session under a fresh random job identifier of 36
    /// characters. Whichever identifier comes, the session ends as
    /// [`EsclSession::into_result`] ends it under that identifier.
    pub fn finish(self) -> (r: Result<ScanResult, ScanFailure>)
        requires
            self.well_formed(),
        ensures
            exists|job_id: String| job_id@.len() == 36 && self.ends_as(job_id, r),
    {
        let id = fresh_job_id();
        self.into_result(id)
    }
}

} // verus!
