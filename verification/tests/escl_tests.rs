use scanner_bridge::escl::{
    base_url, failure_message, host_segment, is_consistent, job_url_for_path, scan_escl,
    scan_escl_with_tls,
    scan_settings_xml, scheme, stale_job_paths, stale_path_in_line,
    EsclSession, ScanAction, ScanFailure, ScanJob, ScanPhase, ScanProgress, ScanReport,
    ScannedPage, BUSY_PAUSE_MS,
    MAX_CREATE_ATTEMPTS, PENDING_PAUSE_MS, SCAN_TIMEOUT_SECS, SETTLE_PAUSE_MS,
};

use scanner_bridge::http::{is_success_status, Body, HttpMethod};

fn job(source: &str, format: &str) -> ScanJob {
    ScanJob {
        scanner_id: "u-1".to_string(),
        resolution: 300,
        color_mode: "RGB24".to_string(),
        format: format.to_string(),
        source: source.to_string(),
        duplex: false,
    }
}

fn session() -> EsclSession {
    scan_escl_with_tls("10.0.0.2", 443, true, "eSCL", job("flatbed", "application/pdf"))
}

/// Drives a session through the pre-check up to the first job creation.
fn at_first_post() -> EsclSession {
    let mut s = session();
    assert_eq!(s.action(), ScanAction::FetchStatus);
    assert_eq!(s.advance(ScanReport::NoReply), ScanAction::Sweep);
    assert_eq!(s.advance(ScanReport::Swept), ScanAction::CreateJob);
    s
}

fn conflict() -> ScanReport {
    ScanReport::JobReply { status: 409, location: None }
}

fn created(url: &str) -> ScanReport {
    ScanReport::JobReply { status: 201, location: Some(url.to_string()) }
}

/// Answers `conflicts` job creations with a conflict and counts the job
/// creations asked for up to and including the next one.
fn run_conflicts(s: &mut EsclSession, conflicts: u8) -> u8 {
    let mut posts = 1;
    for _ in 0..conflicts {
        let mut action = s.advance(conflict());
        loop {
            match action {
                ScanAction::Pause { .. } => action = s.advance(ScanReport::Elapsed),
                ScanAction::Sweep => action = s.advance(ScanReport::Swept),
                ScanAction::CreateJob => {
                    posts += 1;
                    break;
                }
                _ => return posts,
            }
        }
    }
    posts
}

#[test]
fn scheme_follows_tls_and_port() {
    assert_eq!(scheme(false, 80), "http");
    assert_eq!(scheme(true, 80), "https");
    assert_eq!(scheme(false, 443), "https");
    assert_eq!(scheme(false, 8080), "http");
}

#[test]
fn host_segment_brackets_ipv6() {
    assert_eq!(host_segment("192.168.1.50"), "192.168.1.50");
    assert_eq!(host_segment("fe80::1"), "[fe80::1]");
}

#[test]
fn base_url_joins_parts() {
    assert_eq!(base_url("10.0.0.2", 443, true, "eSCL"), "https://10.0.0.2:443/eSCL");
    assert_eq!(base_url("fe80::1", 8080, false, "eSCL2"), "http://[fe80::1]:8080/eSCL2");
    assert_eq!(base_url("10.0.0.2", 443, false, "eSCL"), "https://10.0.0.2:443/eSCL");
}

#[test]
fn job_url_for_path_has_no_port() {
    assert_eq!(
        job_url_for_path("10.0.0.2", 8080, false, "/eSCL/ScanJobs/42"),
        "http://10.0.0.2/eSCL/ScanJobs/42"
    );
    assert_eq!(
        job_url_for_path("fe80::1", 443, false, "/eSCL/ScanJobs/1"),
        "https://[fe80::1]/eSCL/ScanJobs/1"
    );
}

#[test]
fn status_success_range() {
    assert!(!is_success_status(199));
    assert!(is_success_status(200));
    assert!(is_success_status(201));
    assert!(is_success_status(299));
    assert!(!is_success_status(300));
    assert!(!is_success_status(404));
    assert!(!is_success_status(409));
}

#[test]
fn scan_settings_for_flatbed_pdf() {
    let expected = "<?xml version=\"1.0\" encoding=\"UTF-8\"?>\n\
<scan:ScanSettings xmlns:scan=\"http://schemas.hp.com/imaging/escl/2011/05/03\"\n                   xmlns:pwg=\"http://www.pwg.org/schemas/2010/12/sm\">\n    \
<pwg:Version>2.0</pwg:Version>\n    \
<scan:Intent>Document</scan:Intent>\n    \
<pwg:ScanRegions>\n        \
<pwg:ScanRegion>\n            \
<pwg:ContentRegionUnits>escl:ThreeHundredthsOfInches</pwg:ContentRegionUnits>\n            \
<pwg:XOffset>0</pwg:XOffset>\n            \
<pwg:YOffset>0</pwg:YOffset>\n            \
<pwg:Width>2550</pwg:Width>\n            \
<pwg:Height>3300</pwg:Height>\n        \
</pwg:ScanRegion>\n    \
</pwg:ScanRegions>\n    \
<pwg:InputSource>Platen</pwg:InputSource>\n    \
<scan:ColorMode>RGB24</scan:ColorMode>\n    \
<scan:XResolution>300</scan:XResolution>\n    \
<scan:YResolution>300</scan:YResolution>\n    \
<pwg:DocumentFormat>application/pdf</pwg:DocumentFormat>\n\
</scan:ScanSettings>";
    assert_eq!(scan_settings_xml(&job("flatbed", "application/pdf")), expected);
}

#[test]
fn scan_settings_map_the_source() {
    let adf = scan_settings_xml(&job("adf", "image/jpeg"));
    assert!(adf.contains("<pwg:InputSource>Feeder</pwg:InputSource>"));
    assert!(adf.contains("<pwg:DocumentFormat>image/jpeg</pwg:DocumentFormat>"));
    let other = scan_settings_xml(&job("ADF", "image/jpeg"));
    assert!(other.contains("<pwg:InputSource>Platen</pwg:InputSource>"));
    let mut high = job("flatbed", "image/jpeg");
    high.resolution = 600;
    let xml = scan_settings_xml(&high);
    assert!(xml.contains("<scan:XResolution>600</scan:XResolution>"));
    assert!(xml.contains("<scan:YResolution>600</scan:YResolution>"));
}

#[test]
fn stale_path_needs_job_uri_root_and_bracket() {
    let line: Vec<char> = "  <scan:JobUri>/eSCL/ScanJobs/42</scan:JobUri>".chars().collect();
    assert_eq!(stale_path_in_line(&line), Some("/eSCL/ScanJobs/42".to_string()));
    let lower: Vec<char> = "<jobUri>/eSCL/ScanJobs/7</jobUri>".chars().collect();
    assert_eq!(stale_path_in_line(&lower), Some("/eSCL/ScanJobs/7".to_string()));
    let no_mark: Vec<char> = "<Uri>/eSCL/ScanJobs/7</Uri>".chars().collect();
    assert_eq!(stale_path_in_line(&no_mark), None);
    let no_root: Vec<char> = "<scan:JobUri>/other/ScanJobs/7</scan:JobUri>".chars().collect();
    assert_eq!(stale_path_in_line(&no_root), None);
    let open: Vec<char> = "<scan:JobUri>/eSCL/ScanJobs/7".chars().collect();
    assert_eq!(stale_path_in_line(&open), None);
}

#[test]
fn stale_job_paths_reads_line_by_line() {
    let status = "<scan:ScannerStatus>\n<pwg:State>Processing</pwg:State>\n<scan:Jobs>\n\
<scan:JobInfo><pwg:JobUri>/eSCL/ScanJobs/3</pwg:JobUri></scan:JobInfo>\n\
<scan:JobInfo><pwg:JobUri>/eSCL/ScanJobs/4</pwg:JobUri></scan:JobInfo>\n\
</scan:Jobs>\n</scan:ScannerStatus>\n";
    assert_eq!(stale_job_paths(status), vec!["/eSCL/ScanJobs/3", "/eSCL/ScanJobs/4"]);
    assert!(stale_job_paths("<pwg:State>Idle</pwg:State>").is_empty());
    assert!(stale_job_paths("").is_empty());
    // The path has to stand on a line that holds the mark.
    assert!(stale_job_paths("<pwg:JobUri>\n/eSCL/ScanJobs/3<end>").is_empty());
    assert_eq!(
        stale_job_paths("<pwg:JobUri>\n/eSCL/ScanJobs/3</pwg:JobUri>"),
        vec!["/eSCL/ScanJobs/3"]
    );
}

#[test]
fn session_starts_in_the_pre_check() {
    let s = session();
    assert_eq!(s.progress.phase, ScanPhase::PreCheck);
    assert_eq!(s.progress.posts, 0);
    assert_eq!(s.progress.failure, None);
    assert_eq!(s.action(), ScanAction::FetchStatus);
    assert_eq!(s.status_url(), "https://10.0.0.2:443/eSCL/ScannerStatus");
    assert_eq!(s.jobs_url(), "https://10.0.0.2:443/eSCL/ScanJobs");
    assert!(s.sweep_urls().is_empty());
    assert_eq!(SCAN_TIMEOUT_SECS, 120);
}

#[test]
fn scan_escl_uses_plain_http_and_default_path() {
    let s = scan_escl("192.168.1.50", 80, job("flatbed", "image/jpeg"));
    assert!(!s.use_tls);
    assert_eq!(s.rs_path, "eSCL");
    assert_eq!(s.jobs_url(), "http://192.168.1.50:80/eSCL/ScanJobs");
    assert_eq!(s.settings(), scan_settings_xml(&job("flatbed", "image/jpeg")));
}

#[test]
fn pre_check_evicts_stale_jobs() {
    let mut s = scan_escl_with_tls("10.0.0.2", 8080, false, "eSCL", job("flatbed", "image/jpeg"));
    let document = "<pwg:JobUri>/eSCL/ScanJobs/3</pwg:JobUri>\n<x>\n<pwg:JobUri>/eSCL/ScanJobs/9</pwg:JobUri>";
    let action = s.advance(ScanReport::Status { document: Some(document.to_string()) });
    assert_eq!(action, ScanAction::Sweep);
    assert_eq!(
        s.sweep_urls(),
        vec!["http://10.0.0.2/eSCL/ScanJobs/3", "http://10.0.0.2/eSCL/ScanJobs/9"]
    );
    assert_eq!(s.advance(ScanReport::Swept), ScanAction::CreateJob);
    assert_eq!(s.progress.posts, 1);
    assert!(s.sweep_urls().is_empty());
}

#[test]
fn pre_check_without_status_goes_on() {
    let mut s = session();
    assert_eq!(s.advance(ScanReport::Status { document: None }), ScanAction::Sweep);
    assert!(s.sweep_urls().is_empty());
    assert_eq!(s.advance(ScanReport::Swept), ScanAction::CreateJob);
}

#[test]
fn scan_dispatch_one_page() {
    let mut s = at_first_post();
    let action = s.advance(created("https://10.0.0.2:443/eSCL/ScanJobs/5"));
    assert_eq!(action, ScanAction::FetchDocument);
    assert_eq!(s.job_url, "https://10.0.0.2:443/eSCL/ScanJobs/5");
    assert_eq!(s.document_url(), "https://10.0.0.2:443/eSCL/ScanJobs/5/NextDocument");
    let action = s.advance(ScanReport::Document { status: 200, data: vec![1, 2, 3] });
    assert_eq!(action, ScanAction::FetchDocument);
    let action = s.advance(ScanReport::Document { status: 404, data: vec![] });
    assert_eq!(action, ScanAction::Finish);
    let result = s.into_result("id-1".to_string()).unwrap();
    assert_eq!(result.job_id, "id-1");
    assert_eq!(result.total_pages, 1);
    assert_eq!(result.pages.len(), 1);
    assert_eq!(result.pages[0].page_number, 1);
    assert_eq!(result.pages[0].format, "application/pdf");
    assert_eq!(result.pages[0].size_bytes, 3);
    assert_eq!(result.pages[0].data, vec![1, 2, 3]);
}

#[test]
fn pages_are_numbered_in_order() {
    let mut s = at_first_post();
    s.advance(created("http://x/eSCL/ScanJobs/1"));
    s.advance(ScanReport::Document { status: 200, data: vec![1] });
    s.advance(ScanReport::Document { status: 200, data: vec![2, 2] });
    s.advance(ScanReport::Document { status: 200, data: vec![3, 3, 3] });
    s.advance(ScanReport::Document { status: 404, data: vec![9] });
    let result = s.into_result("j".to_string()).unwrap();
    assert_eq!(result.total_pages, 3);
    for (i, page) in result.pages.iter().enumerate() {
        assert_eq!(page.page_number, i + 1);
        assert_eq!(page.size_bytes, i + 1);
        assert_eq!(page.data.len(), i + 1);
    }
}

#[test]
fn page_not_ready_waits_and_asks_again() {
    let mut s = at_first_post();
    s.advance(created("http://x/eSCL/ScanJobs/1"));
    let action = s.advance(ScanReport::Document { status: 503, data: vec![] });
    assert_eq!(action, ScanAction::Pause { millis: 500 });
    assert_eq!(PENDING_PAUSE_MS, 500);
    assert_eq!(s.advance(ScanReport::Elapsed), ScanAction::FetchDocument);
    assert!(s.pages.is_empty());
    let action = s.advance(ScanReport::Document { status: 202, data: vec![5] });
    assert_eq!(action, ScanAction::FetchDocument);
    assert_eq!(s.pages.len(), 1);
}

#[test]
fn busy_recovery_issues_one_more_post_than_conflicts() {
    for conflicts in 0..=3u8 {
        let mut s = at_first_post();
        let posts = run_conflicts(&mut s, conflicts);
        assert_eq!(posts, conflicts + 1);
        assert_eq!(s.progress.posts, conflicts + 1);
        assert_eq!(s.progress.phase, ScanPhase::Creating { attempt: conflicts });
        let action = s.advance(created("http://x/eSCL/ScanJobs/1"));
        assert_eq!(action, ScanAction::FetchDocument);
        assert_eq!(s.progress.posts, conflicts + 1);
        assert_eq!(s.progress.failure, None);
        s.advance(ScanReport::Document { status: 404, data: vec![] });
        assert!(s.into_result("j".to_string()).is_ok());
    }
}

#[test]
fn exhausted_busy_fails_after_four_posts() {
    let mut s = at_first_post();
    let posts = run_conflicts(&mut s, 3);
    assert_eq!(posts, 4);
    assert_eq!(MAX_CREATE_ATTEMPTS, 4);
    let action = s.advance(conflict());
    assert_eq!(action, ScanAction::Abort);
    assert_eq!(s.progress.posts, 4);
    assert_eq!(s.progress.failure, Some(ScanFailure::Busy));
    let failure = s.into_result("j".to_string()).unwrap_err();
    assert_eq!(failure, ScanFailure::Busy);
    assert!(failure_message(failure).contains("dauerhaft busy"));
}

#[test]
fn first_retry_only_pauses() {
    let mut s = at_first_post();
    assert_eq!(s.advance(conflict()), ScanAction::Pause { millis: 3000 });
    assert_eq!(BUSY_PAUSE_MS, 3000);
    assert_eq!(s.progress.phase, ScanPhase::Backoff { attempt: 1 });
    assert_eq!(s.advance(ScanReport::Elapsed), ScanAction::CreateJob);
}

#[test]
fn later_retries_purge_jobs_one_to_twenty() {
    let mut s = at_first_post();
    run_conflicts(&mut s, 1);
    assert_eq!(s.advance(conflict()), ScanAction::Pause { millis: 3000 });
    assert_eq!(s.advance(ScanReport::Elapsed), ScanAction::Sweep);
    assert_eq!(s.progress.phase, ScanPhase::Purging { attempt: 2 });
    let urls = s.sweep_urls();
    assert_eq!(urls.len(), 20);
    assert_eq!(urls[0], "https://10.0.0.2:443/eSCL/ScanJobs/1");
    assert_eq!(urls[9], "https://10.0.0.2:443/eSCL/ScanJobs/10");
    assert_eq!(urls[19], "https://10.0.0.2:443/eSCL/ScanJobs/20");
    assert_eq!(s.advance(ScanReport::Swept), ScanAction::Pause { millis: 2000 });
    assert_eq!(SETTLE_PAUSE_MS, 2000);
    assert_eq!(s.advance(ScanReport::Elapsed), ScanAction::CreateJob);
    assert_eq!(s.progress.posts, 3);
}

#[test]
fn success_without_location_fails() {
    let mut s = at_first_post();
    let action = s.advance(ScanReport::JobReply { status: 201, location: None });
    assert_eq!(action, ScanAction::Abort);
    let failure = s.into_result("j".to_string()).unwrap_err();
    assert_eq!(failure, ScanFailure::NoJobUrl);
    assert_eq!(failure_message(failure), "Keine Job-URL erhalten");
}

#[test]
fn other_status_fails_at_once_with_the_code() {
    let mut s = at_first_post();
    let action = s.advance(ScanReport::JobReply { status: 503, location: None });
    assert_eq!(action, ScanAction::Abort);
    assert_eq!(s.progress.posts, 1);
    let failure = s.into_result("j".to_string()).unwrap_err();
    assert_eq!(failure, ScanFailure::Rejected { status: 503 });
    assert_eq!(failure_message(failure), "Scan-Job erstellen fehlgeschlagen: 503");
}

#[test]
fn lost_requests_fail_the_scan() {
    let mut s = at_first_post();
    assert_eq!(s.advance(ScanReport::NoReply), ScanAction::Abort);
    assert_eq!(s.progress.failure, Some(ScanFailure::Unreachable));
    let mut s = at_first_post();
    s.advance(created("http://x/eSCL/ScanJobs/1"));
    assert_eq!(s.advance(ScanReport::NoReply), ScanAction::Abort);
    assert_eq!(s.into_result("j".to_string()).unwrap_err(), ScanFailure::Unreachable);
}

#[test]
fn report_out_of_turn_fails_the_scan() {
    let mut s = session();
    assert_eq!(s.advance(ScanReport::Elapsed), ScanAction::Abort);
    assert_eq!(s.progress.failure, Some(ScanFailure::OutOfTurn));
    let mut s = at_first_post();
    assert_eq!(s.advance(ScanReport::Document { status: 200, data: vec![1] }), ScanAction::Abort);
    assert!(s.pages.is_empty());
}

#[test]
fn unfinished_session_has_no_result() {
    let s = at_first_post();
    assert_eq!(s.into_result("j".to_string()).unwrap_err(), ScanFailure::OutOfTurn);
}

#[test]
fn finish_gives_a_fresh_job_id() {
    let mut ids = Vec::new();
    for _ in 0..2 {
        let mut s = at_first_post();
        s.advance(created("http://x/eSCL/ScanJobs/1"));
        s.advance(ScanReport::Document { status: 200, data: vec![1] });
        s.advance(ScanReport::Document { status: 404, data: vec![] });
        let result = s.finish().unwrap();
        assert_eq!(result.job_id.chars().count(), 36);
        assert_eq!(result.total_pages, 1);
        ids.push(result.job_id);
    }
    assert_ne!(ids[0], ids[1]);
}

#[test]
fn finish_of_a_failed_session_is_the_failure() {
    let mut s = at_first_post();
    s.advance(ScanReport::JobReply { status: 500, location: None });
    assert_eq!(s.finish().unwrap_err(), ScanFailure::Rejected { status: 500 });
}

#[test]
fn requests_follow_the_phase() {
    let mut s = session();
    let status = s.request().expect("status request");
    assert_eq!(status.method, HttpMethod::Get);
    assert_eq!(status.url, "https://10.0.0.2:443/eSCL/ScannerStatus");
    assert_eq!(status.bearer, None);
    assert_eq!(status.timeout_secs, Some(120));
    assert!(status.accept_invalid_certs);
    assert!(matches!(status.body, Body::Empty));
    s.advance(ScanReport::NoReply);
    assert!(s.request().is_none());
    s.advance(ScanReport::Swept);
    let create = s.request().expect("job creation");
    assert_eq!(create.method, HttpMethod::Post);
    assert_eq!(create.url, "https://10.0.0.2:443/eSCL/ScanJobs");
    assert_eq!(create.timeout_secs, Some(120));
    assert!(create.accept_invalid_certs);
    match &create.body {
        Body::Xml { document } => assert_eq!(document, &s.settings()),
        other => panic!("no document: {:?}", other),
    }
    s.advance(conflict());
    assert!(s.request().is_none());
    s.advance(ScanReport::Elapsed);
    s.advance(created("https://10.0.0.2:443/eSCL/ScanJobs/5"));
    let next = s.request().expect("page request");
    assert_eq!(next.method, HttpMethod::Get);
    assert_eq!(next.url, "https://10.0.0.2:443/eSCL/ScanJobs/5/NextDocument");
    assert!(matches!(next.body, Body::Empty));
    s.advance(ScanReport::Document { status: 404, data: vec![] });
    assert!(s.request().is_none());
}

#[test]
fn sweep_requests_delete_what_sweep_urls_name() {
    let mut s = scan_escl_with_tls("10.0.0.2", 8080, false, "eSCL", job("flatbed", "image/jpeg"));
    assert!(s.sweep_requests().is_empty());
    let document = "<pwg:JobUri>/eSCL/ScanJobs/3</pwg:JobUri>";
    s.advance(ScanReport::Status { document: Some(document.to_string()) });
    let evictions = s.sweep_requests();
    assert_eq!(evictions.len(), 1);
    assert_eq!(evictions[0].method, HttpMethod::Delete);
    assert_eq!(evictions[0].url, "http://10.0.0.2/eSCL/ScanJobs/3");
    assert!(evictions[0].accept_invalid_certs);
    assert_eq!(evictions[0].timeout_secs, Some(120));
    s.advance(ScanReport::Swept);
    run_conflicts(&mut s, 1);
    s.advance(conflict());
    s.advance(ScanReport::Elapsed);
    let purge = s.sweep_requests();
    let urls: Vec<String> = purge.iter().map(|r| r.url.clone()).collect();
    assert_eq!(urls, s.sweep_urls());
    assert_eq!(purge.len(), 20);
    assert!(purge.iter().all(|r| r.method == HttpMethod::Delete));
    assert_eq!(purge[19].url, "http://10.0.0.2:8080/eSCL/ScanJobs/20");
}

#[test]
fn sessions_made_by_the_library_are_well_formed() {
    let mut s = at_first_post();
    assert!(s.is_well_formed());
    run_conflicts(&mut s, 2);
    assert!(s.is_well_formed());
    s.advance(created("http://x/eSCL/ScanJobs/1"));
    s.advance(ScanReport::Document { status: 200, data: vec![1, 2] });
    s.advance(ScanReport::Document { status: 200, data: vec![3] });
    assert!(s.is_well_formed());
    s.advance(ScanReport::Elapsed);
    assert!(s.is_well_formed());
}

#[test]
fn tampered_sessions_are_not_well_formed() {
    let mut s = at_first_post();
    s.advance(created("http://x/eSCL/ScanJobs/1"));
    s.advance(ScanReport::Document { status: 200, data: vec![1, 2] });
    let mut wrong_number = at_first_post();
    wrong_number.advance(created("http://x/eSCL/ScanJobs/1"));
    wrong_number.advance(ScanReport::Document { status: 200, data: vec![1, 2] });
    wrong_number.pages[0].page_number = 2;
    assert!(!wrong_number.is_well_formed());
    s.pages[0].size_bytes = 7;
    assert!(!s.is_well_formed());
    let mut wrong_format = at_first_post();
    wrong_format.advance(created("http://x/eSCL/ScanJobs/1"));
    wrong_format.advance(ScanReport::Document { status: 200, data: vec![1, 2] });
    wrong_format.pages[0].format = "image/png".to_string();
    assert!(!wrong_format.is_well_formed());
    let mut wrong_count = at_first_post();
    wrong_count.progress.posts = 3;
    assert!(!wrong_count.is_well_formed());
}

#[test]
fn consistency_ties_posts_to_the_phase() {
    let progress = |phase: ScanPhase, posts: u8, failure: Option<ScanFailure>| ScanProgress {
        phase,
        posts,
        failure,
    };
    assert!(is_consistent(&progress(ScanPhase::PreCheck, 0, None)));
    assert!(!is_consistent(&progress(ScanPhase::PreCheck, 1, None)));
    assert!(is_consistent(&progress(ScanPhase::Creating { attempt: 3 }, 4, None)));
    assert!(!is_consistent(&progress(ScanPhase::Creating { attempt: 4 }, 5, None)));
    assert!(is_consistent(&progress(ScanPhase::Backoff { attempt: 1 }, 1, None)));
    assert!(!is_consistent(&progress(ScanPhase::Backoff { attempt: 0 }, 0, None)));
    assert!(is_consistent(&progress(ScanPhase::Purging { attempt: 2 }, 2, None)));
    assert!(!is_consistent(&progress(ScanPhase::Purging { attempt: 1 }, 1, None)));
    assert!(is_consistent(&progress(ScanPhase::Settling { attempt: 3 }, 3, None)));
    assert!(is_consistent(&progress(ScanPhase::Retrieving, 1, None)));
    assert!(!is_consistent(&progress(ScanPhase::Retrieving, 0, None)));
    assert!(!is_consistent(&progress(ScanPhase::Done, 5, None)));
    assert!(is_consistent(&progress(ScanPhase::Failed, 0, Some(ScanFailure::OutOfTurn))));
    assert!(!is_consistent(&progress(ScanPhase::Failed, 0, None)));
}

#[test]
fn every_failure_has_its_text() {
    assert_eq!(
        failure_message(ScanFailure::Rejected { status: 404 }),
        "Scan-Job erstellen fehlgeschlagen: 404"
    );
    assert_eq!(failure_message(ScanFailure::NoJobUrl), "Keine Job-URL erhalten");
    assert_eq!(
        failure_message(ScanFailure::Busy),
        "Scanner dauerhaft busy (409 Conflict) \u{2014} bitte Scanner neu starten oder Display pr\u{fc}fen"
    );
    assert_eq!(failure_message(ScanFailure::Unreachable), "Scanner nicht erreichbar");
    assert_eq!(failure_message(ScanFailure::OutOfTurn), "Scan-Ablauf gest\u{f6}rt");
}

#[test]
fn page_data_as_base64() {
    let page = |data: &[u8]| ScannedPage {
        page_number: 1,
        format: "application/pdf".to_string(),
        size_bytes: data.len(),
        data: data.to_vec(),
    };
    assert_eq!(page(b"").data_base64(), Some(String::new()));
    assert_eq!(page(b"h").data_base64(), Some("aA==".to_string()));
    assert_eq!(page(b"he").data_base64(), Some("aGU=".to_string()));
    assert_eq!(page(b"hello").data_base64(), Some("aGVsbG8=".to_string()));
    assert_eq!(page(&[0xfb, 0xff, 0xfe]).data_base64(), Some("+//+".to_string()));
}

#[test]
fn busy_recovery_succeeds_through_any_retrieval() {
    let page = |n: u8| ScanReport::Document { status: 200, data: vec![n; n as usize] };
    let pending = || ScanReport::Document { status: 503, data: vec![] };
    for conflicts in 0..=3u8 {
        let mut s = at_first_post();
        assert_eq!(run_conflicts(&mut s, conflicts), conflicts + 1);
        s.advance(created("http://x/eSCL/ScanJobs/1"));
        assert_eq!(s.advance(pending()), ScanAction::Pause { millis: 500 });
        assert_eq!(s.advance(ScanReport::Elapsed), ScanAction::FetchDocument);
        assert_eq!(s.advance(page(1)), ScanAction::FetchDocument);
        assert_eq!(s.advance(pending()), ScanAction::Pause { millis: 500 });
        assert_eq!(s.advance(ScanReport::Elapsed), ScanAction::FetchDocument);
        assert_eq!(s.advance(pending()), ScanAction::Pause { millis: 500 });
        assert_eq!(s.advance(ScanReport::Elapsed), ScanAction::FetchDocument);
        assert_eq!(s.advance(page(2)), ScanAction::FetchDocument);
        assert_eq!(s.advance(page(3)), ScanAction::FetchDocument);
        assert!(s.is_well_formed());
        assert_eq!(s.advance(ScanReport::Document { status: 404, data: vec![] }), ScanAction::Finish);
        assert_eq!(s.progress.posts, conflicts + 1);
        let result = s.into_result("j".to_string()).unwrap();
        assert_eq!(result.total_pages, 3);
        assert_eq!(result.pages[2].data, vec![3, 3, 3]);
    }
}
