//! The scan poller: the request for pending scans, what a reply to it means,
//! how a command finds its scanner, and what is sent to the backend after a
//! scan.
//!
//! The loop itself runs in the embedding program: it asks
//! [`ScanPoller::begin_cycle`] whether to go on, sends what the poller hands
//! out and reports what came back.

use vstd::prelude::*;
use vstd::string::StringExecFns;
use crate::clock::now_rfc3339;
use crate::discovery::{find_by_id, has_id, models_of, DiscoveredScanner};
use crate::escl::{
    failure_message, failure_text, scan_escl_with_tls, EsclSession, ScanFailure, ScanJob,
    ScanResult, initial_progress,
};
use crate::folder::{bump, bumped, clone_text};
use crate::http::{
    file_part, is_backend_request, is_file_part, is_success, is_success_status, is_text_part,
    text_part, Answer, Body, FormPart, HttpMethod, HttpRequest,
};
use crate::text::same_text;

verus! {

/// Path of the pending scans under the backend URL.
pub const PENDING_PATH: &'static str = "/api/scanner/bridge/pending-scans";

/// Path under the backend URL to which the job id is appended for the result
/// or the failure of a job.
pub const SCAN_UPLOAD_PATH: &'static str = "/api/scanner/bridge/scan-upload/";

/// Pause between two polls, in seconds.
pub const POLL_INTERVAL_SECS: u64 = 2;

/// Timeout of a poll and of an error report, in seconds.
pub const POLL_TIMEOUT_SECS: u64 = 10;

/// Timeout of a result upload, in seconds.
pub const RESULT_TIMEOUT_SECS: u64 = 60;

/// A scan command of the backend.
#[derive(Clone, Debug)]
pub struct PendingScanJob {
    pub job_id: String,
    pub scanner_id: String,
    pub resolution: u32,
    pub color_mode: String,
    pub source: String,
    pub duplex: bool,
    /// The logical format: `pdf`, or anything else for JPEG.
    pub format: String,
    pub created_at: String,
    pub expires_at: String,
}

/// What the poller has done so far.
#[derive(Clone, Debug)]
pub struct PollerStatus {
    pub running: bool,
    pub last_poll: Option<String>,
    pub jobs_processed: u32,
    pub last_error: Option<String>,
}

/// The poller of one backend.
#[derive(Debug)]
pub struct ScanPoller {
    pub api_key: String,
    pub docflow_url: String,
    pub status: PollerStatus,
}

/// What a cycle begins with.
#[derive(Clone, Copy, Debug, PartialEq, Eq, Structural)]
pub enum PollerAction {
    /// Ask for pending scans.
    Poll,
    /// Leave the loop.
    Leave,
}

/// What a poll brought.
#[derive(Debug)]
pub struct PollVerdict {
    /// The commands to run, in the order of the reply.
    pub jobs: Vec<PendingScanJob>,
    /// The text of the failure, where the poll failed and the failure is to
    /// be logged.
    pub complaint: Option<String>,
    /// Seconds to pause after the commands were run, before the next poll.
    pub pause_secs: u64,
}

/// What goes to the backend after a scan.
#[derive(Debug)]
pub enum Delivery {
    /// The upload of the result; its reply goes to
    /// [`ScanPoller::after_upload`].
    Upload { request: HttpRequest },
    /// The report of a failure; its reply is of no interest.
    Report { request: HttpRequest },
}

/// The URL of the pending scans under a backend URL.
pub open spec fn pending_url_of(docflow_url: Seq<char>) -> Seq<char> {
    docflow_url + PENDING_PATH@
}

/// The URL under which the result or the failure of a job is sent.
pub open spec fn scan_upload_url_of(docflow_url: Seq<char>, job_id: Seq<char>) -> Seq<char> {
    docflow_url + SCAN_UPLOAD_PATH@ + job_id
}

/// The MIME type that the scanner is asked for: PDF for the logical format
/// `pdf`, JPEG for every other.
pub open spec fn document_format_of(format: Seq<char>) -> Seq<char> {
    if format == "pdf"@ {
        "application/pdf"@
    } else {
        "image/jpeg"@
    }
}

/// The text with which a command fails whose scanner is not registered.
pub open spec fn not_found_text(scanner_id: Seq<char>) -> Seq<char> {
    "Scanner '"@ + scanner_id + "' nicht gefunden"@
}

/// The commands that the answer to a poll lists: those of a success whose
/// body was read.
pub open spec fn listed_of(answer: Answer<Vec<PendingScanJob>>) -> Option<Vec<PendingScanJob>> {
    match answer {
        Answer::Reply { status, body, decoded: Ok(jobs) } => if is_success(status) {
            Some(jobs)
        } else {
            None
        },
        _ => None,
    }
}

/// The text of a poll that failed, as kept in the status; none for what is
/// passed over in silence: success, and status 401, which is expected while
/// credentials spread.
pub open spec fn poll_error_of(answer: Answer<Vec<PendingScanJob>>) -> Option<Seq<char>> {
    match answer {
        Answer::NoReply { reason } => Some(reason@),
        Answer::Reply { status, body, decoded } => if is_success(status) {
            match decoded {
                Ok(jobs) => None,
                Err(why) => Some(why@),
            }
        } else if status == 401 {
            None
        } else {
            Some("Polling fehlgeschlagen: "@ + body@)
        },
    }
}

/// How a poller stands after the answer to a poll that came at the time
/// `now`, and what the poll brought.
///
/// A list of commands is handed out as it is, the time is noted and the
/// last error cleared. A failed poll hands out nothing; its text is kept as
/// the last error and handed out for the log, unless it is passed over in
/// silence.
pub open spec fn polled(
    before: ScanPoller,
    answer: Answer<Vec<PendingScanJob>>,
    now: String,
    after: ScanPoller,
    verdict: PollVerdict,
) -> bool {
    &&& after.api_key == before.api_key
    &&& after.docflow_url == before.docflow_url
    &&& after.status.running == before.status.running
    &&& after.status.jobs_processed == before.status.jobs_processed
    &&& verdict.pause_secs == POLL_INTERVAL_SECS
    &&& match listed_of(answer) {
        Some(listed) => {
            &&& verdict.jobs == listed
            &&& verdict.complaint is None
            &&& after.status.last_poll == Some(now)
            &&& after.status.last_error is None
        },
        None => {
            &&& verdict.jobs@.len() == 0
            &&& after.status.last_poll == before.status.last_poll
            &&& match poll_error_of(answer) {
                Some(text) => {
                    &&& after.status.last_error matches Some(t) && t@ == text
                    &&& verdict.complaint matches Some(c) && c@ == text
                },
                None => {
                    &&& after.status.last_error == before.status.last_error
                    &&& verdict.complaint is None
                },
            }
        },
    }
}

/// The bytes that go to the backend after a scan: the data of the first
/// page. A scan without pages, and a failed scan, give the text of the
/// failure instead.
pub open spec fn deliverable_of(outcome: Result<ScanResult, ScanFailure>) -> Result<
    Seq<u8>,
    Seq<char>,
> {
    match outcome {
        Ok(result) => if result.pages@.len() == 0 {
            Err("Keine Seiten gescannt"@)
        } else {
            Ok(result.pages@[0].data@)
        },
        Err(failure) => Err(failure_text(failure)),
    }
}

/// `request` uploads `data` as the result of job `job_id`.
pub open spec fn is_result_upload(
    request: HttpRequest,
    docflow_url: Seq<char>,
    key: Seq<char>,
    job_id: Seq<char>,
    data: Seq<u8>,
) -> bool {
    &&& is_backend_request(
        request,
        HttpMethod::Post,
        scan_upload_url_of(docflow_url, job_id),
        key,
        Some(RESULT_TIMEOUT_SECS),
    )
    &&& request.body matches Body::Form { parts }
    &&& parts@.len() == 2
    &&& is_file_part(parts@[0], "file"@, "scan.pdf"@, "application/pdf"@, data)
    &&& is_text_part(parts@[1], "success"@, "true"@)
}

/// The upload of a result was answered with a success.
pub open spec fn is_counted(status: Option<u16>) -> bool {
    status matches Some(code) && is_success(code)
}

/// How a poller stands after the upload of the result of `job` was answered
/// with `status` and the body `text`, or with no status and the reason
/// `text` where no reply came, and what it reports.
///
/// Only a success counts the job as processed, and nothing is reported then.
/// Everything else leaves the count and is answered with the report of the
/// failure: the body of a refusal after `Upload fehlgeschlagen: `, or the
/// reason as it is.
pub open spec fn uploaded(
    before: ScanPoller,
    job: PendingScanJob,
    status: Option<u16>,
    text: Seq<char>,
    after: ScanPoller,
    report: Option<HttpRequest>,
) -> bool {
    &&& after.api_key == before.api_key
    &&& after.docflow_url == before.docflow_url
    &&& after.status.running == before.status.running
    &&& after.status.last_poll == before.status.last_poll
    &&& after.status.last_error == before.status.last_error
    &&& after.status.jobs_processed == (if is_counted(status) {
        bumped(before.status.jobs_processed)
    } else {
        before.status.jobs_processed
    })
    &&& match status {
        Some(code) => if is_success(code) {
            report is None
        } else {
            report matches Some(r) && is_error_report(
                r,
                before.docflow_url@,
                before.api_key@,
                job.job_id@,
                "Upload fehlgeschlagen: "@ + text,
            )
        },
        None => report matches Some(r) && is_error_report(
            r,
            before.docflow_url@,
            before.api_key@,
            job.job_id@,
            text,
        ),
    }
}

/// `request` reports that job `job_id` failed with `message`.
pub open spec fn is_error_report(
    request: HttpRequest,
    docflow_url: Seq<char>,
    key: Seq<char>,
    job_id: Seq<char>,
    message: Seq<char>,
) -> bool {
    &&& is_backend_request(
        request,
        HttpMethod::Post,
        scan_upload_url_of(docflow_url, job_id),
        key,
        Some(POLL_TIMEOUT_SECS),
    )
    &&& request.body matches Body::Form { parts }
    &&& parts@.len() == 3
    &&& is_file_part(parts@[0], "file"@, "error.txt"@, "text/plain"@, Seq::empty())
    &&& is_text_part(parts@[1], "success"@, "false"@)
    &&& is_text_part(parts@[2], "error_message"@, message)
}

/// The MIME type that the scanner is asked for.
pub fn document_format(format: &str) -> (r: String)
    ensures
        r@ == document_format_of(format@),
{
    if same_text(format, "pdf") {
        String::from_str("application/pdf")
    } else {
        String::from_str("image/jpeg")
    }
}

/// The bytes that go to the backend after a scan, or the text of the
/// failure.
pub fn deliverable(outcome: Result<ScanResult, ScanFailure>) -> (r: Result<Vec<u8>, String>)
    ensures
        match r {
            Ok(data) => deliverable_of(outcome) == Ok::<Seq<u8>, Seq<char>>(data@),
            Err(text) => deliverable_of(outcome) == Err::<Seq<u8>, Seq<char>>(text@),
        },
{
    match outcome {
        Ok(result) => {
            let mut pages = result.pages;
            if pages.len() == 0 {
                Err(String::from_str("Keine Seiten gescannt"))
            } else {
                let first = pages.swap_remove(0);
                Ok(first.data)
            }
        },
        Err(failure) => Err(failure_message(failure)),
    }
}

impl ScanPoller {
    /// A poller that has not started.
    pub fn new(api_key: String, docflow_url: String) -> (p: ScanPoller)
        ensures
            p.api_key == api_key,
            p.docflow_url == docflow_url,
            !p.status.running,
            p.status.last_poll is None,
            p.status.jobs_processed == 0,
            p.status.last_error is None,
    {
        ScanPoller {
            api_key,
            docflow_url,
            status: PollerStatus {
                running: false,
                last_poll: None,
                jobs_processed: 0,
                last_error: None,
            },
        }
    }

    /// What a cycle begins with: the poll while the poller runs, else the
    /// leave.
    pub open spec fn begin_cycle_of(&self) -> PollerAction {
        if self.status.running {
            PollerAction::Poll
        } else {
            PollerAction::Leave
        }
    }

    /// Starts the poller.
    pub fn start_polling(&mut self)
        ensures
            final(self).status.running,
            final(self).api_key == old(self).api_key,
            final(self).docflow_url == old(self).docflow_url,
            final(self).status.last_poll == old(self).status.last_poll,
            final(self).status.jobs_processed == old(self).status.jobs_processed,
            final(self).status.last_error == old(self).status.last_error,
    {
        self.status.running = true;
    }

    /// Stops the poller: the next cycle leaves.
    pub fn stop(&mut self)
        ensures
            !final(self).status.running,
            final(self).begin_cycle_of() == PollerAction::Leave,
            final(self).api_key == old(self).api_key,
            final(self).docflow_url == old(self).docflow_url,
            final(self).status.last_poll == old(self).status.last_poll,
            final(self).status.jobs_processed == old(self).status.jobs_processed,
            final(self).status.last_error == old(self).status.last_error,
    {
        self.status.running = false;
    }

    /// What to do at the top of a cycle: poll while running, else leave.
    pub fn begin_cycle(&self) -> (a: PollerAction)
        ensures
            a == self.begin_cycle_of(),
    {
        if self.status.running {
            PollerAction::Poll
        } else {
            PollerAction::Leave
        }
    }

    /// A copy of the status.
    pub fn get_status(&self) -> (status: PollerStatus)
        ensures
            status == self.status,
    {
        PollerStatus {
            running: self.status.running,
            last_poll: clone_text(&self.status.last_poll),
            jobs_processed: self.status.jobs_processed,
            last_error: clone_text(&self.status.last_error),
        }
    }

    /// The request for the pending scans.
    pub fn poll_pending_jobs(&self) -> (request: HttpRequest)
        ensures
            is_backend_request(
                request,
                HttpMethod::Get,
                pending_url_of(self.docflow_url@),
                self.api_key@,
                Some(POLL_TIMEOUT_SECS),
            ),
            request.body is Empty,
    {
        let mut url = self.docflow_url.clone();
        url.append(PENDING_PATH);
        HttpRequest {
            method: HttpMethod::Get,
            url,
            bearer: Some(self.api_key.clone()),
            timeout_secs: Some(POLL_TIMEOUT_SECS),
            accept_invalid_certs: false,
            body: Body::Empty,
        }
    }

    /// Records a failed poll with its text.
    fn complain(&mut self, text: String) -> (verdict: PollVerdict)
        ensures
            final(self).api_key == old(self).api_key,
            final(self).docflow_url == old(self).docflow_url,
            final(self).status.running == old(self).status.running,
            final(self).status.jobs_processed == old(self).status.jobs_processed,
            final(self).status.last_poll == old(self).status.last_poll,
            final(self).status.last_error == Some(text),
            verdict.jobs@.len() == 0,
            verdict.complaint == Some(text),
            verdict.pause_secs == POLL_INTERVAL_SECS,
    {
        self.status.last_error = Some(text.clone());
        PollVerdict { jobs: Vec::new(), complaint: Some(text), pause_secs: POLL_INTERVAL_SECS }
    }

    /// Takes the answer to a poll at the time `now`.
    pub fn poll_outcome_at(&mut self, answer: Answer<Vec<PendingScanJob>>, now: String) -> (verdict:
        PollVerdict)
        ensures
            polled(*old(self), answer, now, *final(self), verdict),
    {
        match answer {
            Answer::NoReply { reason } => self.complain(reason),
            Answer::Reply { status, body, decoded } => {
                if is_success_status(status) {
                    match decoded {
                        Ok(jobs) => {
                            self.status.last_poll = Some(now);
                            self.status.last_error = None;
                            PollVerdict { jobs, complaint: None, pause_secs: POLL_INTERVAL_SECS }
                        },
                        Err(why) => self.complain(why),
                    }
                } else if status == 401 {
                    PollVerdict {
                        jobs: Vec::new(),
                        complaint: None,
                        pause_secs: POLL_INTERVAL_SECS,
                    }
                } else {
                    let mut text = String::from_str("Polling fehlgeschlagen: ");
                    text.append(body.as_str());
                    self.complain(text)
                }
            },
        }
    }

    /// Takes the answer to a poll. The time of the poll is read from the
    /// clock; whatever it is, the poller stands as
    /// [`ScanPoller::poll_outcome_at`] leaves it for that time.
    pub fn poll_outcome(&mut self, answer: Answer<Vec<PendingScanJob>>) -> (verdict: PollVerdict)
        ensures
            exists|now: String| polled(*old(self), answer, now, *final(self), verdict),
    {
        let now = now_rfc3339();
        self.poll_outcome_at(answer, now)
    }

    /// Begins the scan that `job` asks for on the scanner that it names: the
    /// first of `scanners` with that id. Where there is none, the answer is
    /// the text of the failure.
    pub fn execute_scan_job(&self, job: &PendingScanJob, scanners: &Vec<DiscoveredScanner>) -> (r:
        Result<EsclSession, String>)
        ensures
            r is Ok <==> has_id(models_of(scanners@), job.scanner_id@),
            match r {
                Ok(session) => exists|i: int|
                    {
                        &&& 0 <= i < scanners@.len()
                        &&& (#[trigger] scanners@[i]).id@ == job.scanner_id@
                        &&& forall|j: int|
                            0 <= j < i ==> (#[trigger] scanners@[j]).id@ != job.scanner_id@
                        &&& session.well_formed()
                        &&& session.ip@ == scanners@[i].ip@
                        &&& session.port == scanners@[i].port
                        &&& session.use_tls == scanners@[i].use_tls
                        &&& session.rs_path@ == scanners@[i].rs_path@
                        &&& session.progress == initial_progress()
                        &&& session.pages@.len() == 0
                        &&& session.job.scanner_id@ == job.scanner_id@
                        &&& session.job.resolution == job.resolution
                        &&& session.job.color_mode@ == job.color_mode@
                        &&& session.job.format@ == document_format_of(job.format@)
                        &&& session.job.source@ == job.source@
                        &&& session.job.duplex == job.duplex
                    },
                Err(text) => text@ == not_found_text(job.scanner_id@),
            },
    {
        match find_by_id(scanners, job.scanner_id.as_str()) {
            Some(i) => {
                let scanner = &scanners[i];
                let scan_job = ScanJob {
                    scanner_id: job.scanner_id.clone(),
                    resolution: job.resolution,
                    color_mode: job.color_mode.clone(),
                    format: document_format(job.format.as_str()),
                    source: job.source.clone(),
                    duplex: job.duplex,
                };
                Ok(
                    scan_escl_with_tls(
                        scanner.ip.as_str(),
                        scanner.port,
                        scanner.use_tls,
                        scanner.rs_path.as_str(),
                        scan_job,
                    ),
                )
            },
            None => {
                let mut text = String::from_str("Scanner '");
                text.append(job.scanner_id.as_str());
                text.append("' nicht gefunden");
                Err(text)
            },
        }
    }

    /// The request that uploads `data` as the result of job `job_id`.
    pub fn upload_scan_result(&self, job_id: &str, data: Vec<u8>) -> (request: HttpRequest)
        ensures
            is_result_upload(request, self.docflow_url@, self.api_key@, job_id@, data@),
    {
        let mut url = self.docflow_url.clone();
        url.append(SCAN_UPLOAD_PATH);
        url.append(job_id);
        let mut parts: Vec<FormPart> = Vec::new();
        parts.push(file_part("file", String::from_str("scan.pdf"), "application/pdf", data));
        parts.push(text_part("success", String::from_str("true")));
        HttpRequest {
            method: HttpMethod::Post,
            url,
            bearer: Some(self.api_key.clone()),
            timeout_secs: Some(RESULT_TIMEOUT_SECS),
            accept_invalid_certs: false,
            body: Body::Form { parts },
        }
    }

    /// The request that reports the failure of job `job_id`.
    pub fn report_error(&self, job_id: &str, error_message: &str) -> (request: HttpRequest)
        ensures
            is_error_report(request, self.docflow_url@, self.api_key@, job_id@, error_message@),
    {
        let mut url = self.docflow_url.clone();
        url.append(SCAN_UPLOAD_PATH);
        url.append(job_id);
        let mut parts: Vec<FormPart> = Vec::new();
        parts.push(file_part("file", String::from_str("error.txt"), "text/plain", Vec::new()));
        parts.push(text_part("success", String::from_str("false")));
        parts.push(text_part("error_message", String::from_str(error_message)));
        HttpRequest {
            method: HttpMethod::Post,
            url,
            bearer: Some(self.api_key.clone()),
            timeout_secs: Some(POLL_TIMEOUT_SECS),
            accept_invalid_certs: false,
            body: Body::Form { parts },
        }
    }

    /// What is sent after the scan of `job` ended with `outcome`: the first
    /// page as the result, or the report of the failure.
    pub fn after_scan(
        &self,
        job: &PendingScanJob,
        outcome: Result<ScanResult, ScanFailure>,
    ) -> (delivery: Delivery)
        ensures
            match deliverable_of(outcome) {
                Ok(data) => delivery matches Delivery::Upload { request } && is_result_upload(
                    request,
                    self.docflow_url@,
                    self.api_key@,
                    job.job_id@,
                    data,
                ),
                Err(text) => delivery matches Delivery::Report { request } && is_error_report(
                    request,
                    self.docflow_url@,
                    self.api_key@,
                    job.job_id@,
                    text,
                ),
            },
    {
        match deliverable(outcome) {
            Ok(data) => Delivery::Upload {
                request: self.upload_scan_result(job.job_id.as_str(), data),
            },
            Err(text) => Delivery::Report {
                request: self.report_error(job.job_id.as_str(), text.as_str()),
            },
        }
    }

    /// Takes the reply to the upload of the result of `job`: `status` and the
    /// body as text, or no status and the reason where no reply came. Only a
    /// success counts the job as processed; everything else is answered with
    /// the report of the failure.
    pub fn after_upload(
        &mut self,
        job: &PendingScanJob,
        status: Option<u16>,
        text: &str,
    ) -> (report: Option<HttpRequest>)
        ensures
            uploaded(*old(self), *job, status, text@, *final(self), report),
    {
        match status {
            Some(code) => {
                if 200 <= code && code <= 299 {
                    self.status.jobs_processed = bump(self.status.jobs_processed);
                    None
                } else {
                    let mut message = String::from_str("Upload fehlgeschlagen: ");
                    message.append(text);
                    Some(self.report_error(job.job_id.as_str(), message.as_str()))
                }
            },
            None => Some(self.report_error(job.job_id.as_str(), text)),
        }
    }
}

} // verus!
