//! The shared state of the agent and its lifecycle: boot, pairing,
//! discovery, folder sync and disconnect, each as a transition of one
//! [`AppState`] value. A transition answers with what is left to do outside:
//! requests to send and vault slots to write or delete.

use vstd::prelude::*;
use vstd::string::StringExecFns;
use crate::clock::now_rfc3339;
use crate::discovery::{models_of, DiscoveredScanner};
use crate::folder::{
    bumped, clone_text, is_farewell, CycleAction, FolderSyncConfig, FolderSyncStatus,
    FolderWatcher, PostUploadAction,
};
use crate::http::{
    is_backend_request, is_success, is_success_status, Body, HttpMethod, HttpRequest,
};
use crate::pairing::PairingResult;
use crate::poller::{is_counted, uploaded, PendingScanJob, PollerAction, ScanPoller};
use crate::text::{same_text, skip_trailing, trim_trailing};
use crate::vault::{VaultSlot, VaultWrite};

verus! {

/// Path under the backend URL to which the registry is pushed.
pub const SCANNERS_PATH: &'static str = "/api/scanner/bridge/scanners";

/// The status of the agent as the shell shows it.
#[derive(Clone, Debug)]
pub struct BridgeStatus {
    pub connected: bool,
    pub docflow_url: Option<String>,
    pub scanner_count: usize,
    pub last_discovery: Option<String>,
    pub version: String,
    pub poller_active: bool,
    pub jobs_processed: u32,
    pub folder_sync_active: bool,
    pub folder_sync_path: Option<String>,
}

/// The state of the agent: status, credentials, scanner registry, and the
/// poller and the folder watcher, at most one of each.
///
/// Every poller and every watcher that is started gets the next epoch. The
/// loop that drives it keeps the epoch and leaves as soon as the state holds
/// another one, so a loop never drives the successor of its engine.
#[derive(Debug)]
pub struct AppState {
    pub bridge_status: BridgeStatus,
    pub api_key: Option<String>,
    pub scanners: Vec<DiscoveredScanner>,
    pub poller: Option<ScanPoller>,
    pub folder_watcher: Option<FolderWatcher>,
    /// The epoch of the poller that was started last.
    pub poller_epoch: u64,
    /// The epoch of the watcher that was started last.
    pub watcher_epoch: u64,
}

/// The loops to start after a boot, each with the epoch of its engine.
#[derive(Clone, Copy, Debug, PartialEq, Eq, Structural)]
pub struct Started {
    pub poller: Option<u64>,
    pub watcher: Option<u64>,
}

/// What is left to do outside after a pairing.
#[derive(Debug)]
pub struct PairingPlan {
    /// What is to be put into the vault: the API key and the URL, each in
    /// its slot.
    pub writes: Vec<VaultWrite>,
    /// The epoch of the poller whose loop is to be started.
    pub poller_epoch: u64,
}

/// What is left to do outside after a disconnect.
#[derive(Debug)]
pub struct DisconnectPlan {
    /// The request by which the stopped watcher tells the backend that the
    /// folder sync is off, where a watcher was there.
    pub watcher_farewell: Option<HttpRequest>,
    /// The vault slot to delete.
    pub delete_slot: VaultSlot,
}

/// What is left to do outside after the folder sync was configured.
#[derive(Debug)]
pub struct FolderSyncPlan {
    /// The request by which the replaced watcher tells the backend that the
    /// folder sync is off, where a watcher was there.
    pub watcher_farewell: Option<HttpRequest>,
    /// The configuration to persist as JSON in the slot
    /// `folder_sync_config`.
    pub persist: FolderSyncConfig,
    /// The epoch of the watcher whose loop is to be started.
    pub watcher_epoch: u64,
}

/// Why the folder sync could not be configured.
#[derive(Clone, Copy, Debug, PartialEq, Eq, Structural)]
pub enum ConfigFailure {
    /// The agent is not connected.
    NotConnected,
    /// The directory does not exist.
    NoSuchFolder,
}

/// The status of an agent of `version` that is not connected.
pub open spec fn default_status(version: String) -> BridgeStatus {
    BridgeStatus {
        connected: false,
        docflow_url: None,
        scanner_count: 0,
        last_discovery: None,
        version,
        poller_active: false,
        jobs_processed: 0,
        folder_sync_active: false,
        folder_sync_path: None,
    }
}

/// The number of jobs that a state has processed: the count of its poller,
/// and where there is none, the count that the status holds.
pub open spec fn jobs_processed_of(state: AppState) -> u32 {
    match state.poller {
        Some(p) => p.status.jobs_processed,
        None => state.bridge_status.jobs_processed,
    }
}

/// The status that is shown: the status that the state holds, with the
/// number of jobs that the state has processed.
pub open spec fn shown_status(state: AppState) -> BridgeStatus {
    BridgeStatus {
        connected: state.bridge_status.connected,
        docflow_url: state.bridge_status.docflow_url,
        scanner_count: state.bridge_status.scanner_count,
        last_discovery: state.bridge_status.last_discovery,
        version: state.bridge_status.version,
        poller_active: state.bridge_status.poller_active,
        jobs_processed: jobs_processed_of(state),
        folder_sync_active: state.bridge_status.folder_sync_active,
        folder_sync_path: state.bridge_status.folder_sync_path,
    }
}

/// The state after a disconnect: the status back at its defaults, no
/// credentials, no poller, no watcher. The registry stays.
pub open spec fn disconnected(state: AppState) -> AppState {
    AppState {
        bridge_status: default_status(state.bridge_status.version),
        api_key: None,
        scanners: state.scanners,
        poller: None,
        folder_watcher: None,
        poller_epoch: state.poller_epoch,
        watcher_epoch: state.watcher_epoch,
    }
}

/// The epoch after `epoch`.
pub open spec fn next_epoch(epoch: u64) -> u64 {
    if epoch < u64::MAX {
        (epoch + 1) as u64
    } else {
        0
    }
}

/// What the poller loop of epoch `epoch` does at the top of its next cycle:
/// it polls while its poller is the current one and runs.
pub open spec fn poller_cycle_of(state: AppState, epoch: u64) -> PollerAction {
    match state.poller {
        Some(p) => if epoch == state.poller_epoch {
            p.begin_cycle_of()
        } else {
            PollerAction::Leave
        },
        None => PollerAction::Leave,
    }
}

/// What the watcher loop of epoch `epoch` does at the top of its next cycle:
/// it scans while its watcher is the current one and runs.
pub open spec fn watcher_cycle_of(state: AppState, epoch: u64) -> CycleAction {
    match state.folder_watcher {
        Some(w) => if epoch == state.watcher_epoch {
            w.begin_cycle_of()
        } else {
            CycleAction::Leave
        },
        None => CycleAction::Leave,
    }
}

/// The post-upload action that a word of the shell selects: `delete`, `keep`,
/// and the move for every other word.
pub open spec fn post_action_of(word: Seq<char>) -> PostUploadAction {
    if word == "delete"@ {
        PostUploadAction::Delete
    } else if word == "keep"@ {
        PostUploadAction::Keep
    } else {
        PostUploadAction::MoveToSubfolder
    }
}

/// `farewell` is what a watcher that was stopped tells the backend, and
/// nothing where there was no watcher.
pub open spec fn farewell_of(
    watcher: Option<FolderWatcher>,
    farewell: Option<HttpRequest>,
) -> bool {
    match watcher {
        Some(w) => farewell matches Some(request) && is_farewell(request, w),
        None => farewell is None,
    }
}

/// The URL to which the registry is pushed under a backend URL.
pub open spec fn scanners_url_of(docflow_url: Seq<char>) -> Seq<char> {
    skip_trailing(docflow_url, '/') + SCANNERS_PATH@
}

/// What there is to complain of after the registry was pushed: nothing
/// after a success, the body after any other status, the reason where no
/// reply came.
pub open spec fn push_complaint_of(status: Option<u16>, text: Seq<char>) -> Option<Seq<char>> {
    match status {
        Some(code) => if is_success(code) {
            None
        } else {
            Some("DocFlow-Fehler: "@ + text)
        },
        None => Some(text),
    }
}

/// The text of a configuration failure for the directory `watch_path`.
pub open spec fn config_failure_text(failure: ConfigFailure, watch_path: Seq<char>) -> Seq<char> {
    match failure {
        ConfigFailure::NotConnected => "Nicht mit DocFlow verbunden"@,
        ConfigFailure::NoSuchFolder => "Ordner existiert nicht: "@ + watch_path,
    }
}

/// How a state stands after a discovery that ended at the time `now` with
/// `scanners`, and what is pushed to the backend.
///
/// The registry is replaced, and the status notes the number of scanners
/// and the time. Where the agent has its credentials, the registry is pushed
/// to the backend.
pub open spec fn discovered(
    before: AppState,
    scanners: Vec<DiscoveredScanner>,
    now: String,
    after: AppState,
    push: Option<HttpRequest>,
) -> bool {
    &&& after.scanners == scanners
    &&& after.bridge_status.scanner_count == scanners@.len()
    &&& after.bridge_status.last_discovery == Some(now)
    &&& after.api_key == before.api_key
    &&& after.poller == before.poller
    &&& after.folder_watcher == before.folder_watcher
    &&& after.poller_epoch == before.poller_epoch
    &&& after.watcher_epoch == before.watcher_epoch
    &&& after.bridge_status.connected == before.bridge_status.connected
    &&& after.bridge_status.docflow_url == before.bridge_status.docflow_url
    &&& after.bridge_status.version == before.bridge_status.version
    &&& after.bridge_status.poller_active == before.bridge_status.poller_active
    &&& after.bridge_status.jobs_processed == before.bridge_status.jobs_processed
    &&& after.bridge_status.folder_sync_active == before.bridge_status.folder_sync_active
    &&& after.bridge_status.folder_sync_path == before.bridge_status.folder_sync_path
    &&& match (before.api_key, before.bridge_status.docflow_url) {
        (Some(key), Some(url)) => {
            &&& push matches Some(request)
            &&& is_backend_request(request, HttpMethod::Post, scanners_url_of(url@), key@, None)
            &&& request.body matches Body::Scanners { scanners: sent }
            &&& models_of(sent@) == models_of(scanners@)
        },
        _ => push is None,
    }
}

/// Disconnect finality: after a disconnect no loop of any epoch goes into
/// another cycle, so none sends another request, and the status that is
/// shown has the agent as not connected with poller and folder sync
/// inactive.
pub proof fn lemma_disconnect_final(state: AppState, epoch: u64)
    ensures
        poller_cycle_of(disconnected(state), epoch) == PollerAction::Leave,
        watcher_cycle_of(disconnected(state), epoch) == CycleAction::Leave,
        !shown_status(disconnected(state)).connected,
        !shown_status(disconnected(state)).poller_active,
        !shown_status(disconnected(state)).folder_sync_active,
        shown_status(disconnected(state)) == default_status(state.bridge_status.version),
{
}

/// The count follows the uploads: where the poller of a state has taken a
/// successful upload, the status that is shown counts one job more, and
/// after any other answer it counts what it counted.
pub proof fn lemma_shown_count(
    before: AppState,
    job: PendingScanJob,
    status: Option<u16>,
    text: Seq<char>,
    after: AppState,
    report: Option<HttpRequest>,
)
    requires
        before.poller matches Some(p) && after.poller matches Some(q) && uploaded(
            p,
            job,
            status,
            text,
            q,
            report,
        ),
    ensures
        shown_status(after).jobs_processed == (if is_counted(status) {
            bumped(shown_status(before).jobs_processed)
        } else {
            shown_status(before).jobs_processed
        }),
{
}

/// The epoch after `epoch`.
pub fn following_epoch(epoch: u64) -> (r: u64)
    ensures
        r == next_epoch(epoch),
{
    if epoch < u64::MAX {
        epoch + 1
    } else {
        0
    }
}

/// The post-upload action that a word of the shell selects.
pub fn post_action_for(word: &str) -> (action: PostUploadAction)
    ensures
        action == post_action_of(word@),
{
    if same_text(word, "delete") {
        PostUploadAction::Delete
    } else if same_text(word, "keep") {
        PostUploadAction::Keep
    } else {
        PostUploadAction::MoveToSubfolder
    }
}

/// A copy of a list of scanners.
pub fn clone_scanners(scanners: &Vec<DiscoveredScanner>) -> (r: Vec<DiscoveredScanner>)
    ensures
        models_of(r@) == models_of(scanners@),
{
    let mut r: Vec<DiscoveredScanner> = Vec::new();
    let mut i: usize = 0;
    while i < scanners.len()
        invariant
            i <= scanners.len(),
            r@.len() == i,
            forall|j: int| 0 <= j < i ==> (#[trigger] r@[j])@ == scanners@[j]@,
        decreases scanners.len() - i,
    {
        r.push(scanners[i].duplicate());
        i += 1;
    }
    r
}

/// The request that pushes the registry to the backend.
pub fn send_scanners_to_docflow(
    docflow_url: &str,
    api_key: &str,
    scanners: &Vec<DiscoveredScanner>,
) -> (request: HttpRequest)
    ensures
        is_backend_request(
            request,
            HttpMethod::Post,
            scanners_url_of(docflow_url@),
            api_key@,
            None,
        ),
        request.body matches Body::Scanners { scanners: sent } && models_of(sent@) == models_of(
            scanners@,
        ),
{
    let mut url = trim_trailing(docflow_url, '/');
    url.append(SCANNERS_PATH);
    HttpRequest {
        method: HttpMethod::Post,
        url,
        bearer: Some(String::from_str(api_key)),
        timeout_secs: None,
        accept_invalid_certs: false,
        body: Body::Scanners { scanners: clone_scanners(scanners) },
    }
}

/// What there is to complain of after the registry was pushed. The push is
/// best effort: a complaint is a warning, not a failure.
pub fn push_outcome(status: Option<u16>, text: &str) -> (complaint: Option<String>)
    ensures
        match push_complaint_of(status, text@) {
            Some(c) => complaint matches Some(t) && t@ == c,
            None => complaint is None,
        },
{
    match status {
        Some(code) => {
            if is_success_status(code) {
                None
            } else {
                let mut c = String::from_str("DocFlow-Fehler: ");
                c.append(text);
                Some(c)
            }
        },
        None => Some(String::from_str(text)),
    }
}

/// The text of a configuration failure for the directory `watch_path`.
pub fn config_failure_message(failure: ConfigFailure, watch_path: &str) -> (r: String)
    ensures
        r@ == config_failure_text(failure, watch_path@),
{
    match failure {
        ConfigFailure::NotConnected => String::from_str("Nicht mit DocFlow verbunden"),
        ConfigFailure::NoSuchFolder => {
            let mut r = String::from_str("Ordner existiert nicht: ");
            r.append(watch_path);
            r
        },
    }
}

/// The status of a folder sync without a watcher.
pub fn idle_folder_status() -> (status: FolderSyncStatus)
    ensures
        !status.running,
        status.watch_path is None,
        status.files_uploaded == 0,
        status.files_pending == 0,
        status.errors == 0,
        status.last_upload is None,
        status.last_error is None,
{
    FolderSyncStatus {
        running: false,
        watch_path: None,
        files_uploaded: 0,
        files_pending: 0,
        errors: 0,
        last_upload: None,
        last_error: None,
    }
}

/// A persisted folder sync configuration, switched off.
pub fn disabled_config(config: FolderSyncConfig) -> (r: FolderSyncConfig)
    ensures
        !r.enabled,
        r.watch_path == config.watch_path,
        r.post_upload_action == config.post_upload_action,
{
    FolderSyncConfig {
        enabled: false,
        watch_path: config.watch_path,
        post_upload_action: config.post_upload_action,
    }
}

impl AppState {
    /// The watcher, where there is one, keeps no hash twice. Every state
    /// that [`AppState::new`] made and that only the functions of this
    /// module changed is well formed; none of them asks for it.
    pub open spec fn well_formed(&self) -> bool {
        match self.folder_watcher {
            Some(w) => w.well_formed(),
            None => true,
        }
    }

    /// Whether the state is well formed.
    pub fn is_well_formed(&self) -> (r: bool)
        ensures
            r == self.well_formed(),
    {
        match &self.folder_watcher {
            Some(w) => w.is_well_formed(),
            None => true,
        }
    }

    /// Both credentials are there.
    pub open spec fn has_credentials(&self) -> bool {
        self.api_key is Some && self.bridge_status.docflow_url is Some
    }

    /// The state of an agent of `version` at its first launch.
    pub fn new(version: String) -> (state: AppState)
        ensures
            state.well_formed(),
            state.bridge_status == default_status(version),
            state.api_key is None,
            state.scanners@.len() == 0,
            state.poller is None,
            state.folder_watcher is None,
            state.poller_epoch == 0,
            state.watcher_epoch == 0,
    {
        AppState {
            bridge_status: BridgeStatus {
                connected: false,
                docflow_url: None,
                scanner_count: 0,
                last_discovery: None,
                version,
                poller_active: false,
                jobs_processed: 0,
                folder_sync_active: false,
                folder_sync_path: None,
            },
            api_key: None,
            scanners: Vec::new(),
            poller: None,
            folder_watcher: None,
            poller_epoch: 0,
            watcher_epoch: 0,
        }
    }

    /// What the poller loop of epoch `epoch` does at the top of its next
    /// cycle.
    pub fn poller_cycle(&self, epoch: u64) -> (a: PollerAction)
        ensures
            a == poller_cycle_of(*self, epoch),
    {
        match &self.poller {
            Some(p) => {
                if epoch == self.poller_epoch {
                    p.begin_cycle()
                } else {
                    PollerAction::Leave
                }
            },
            None => PollerAction::Leave,
        }
    }

    /// What the watcher loop of epoch `epoch` does at the top of its next
    /// cycle.
    pub fn watcher_cycle(&self, epoch: u64) -> (a: CycleAction)
        ensures
            a == watcher_cycle_of(*self, epoch),
    {
        match &self.folder_watcher {
            Some(w) => {
                if epoch == self.watcher_epoch {
                    w.begin_cycle()
                } else {
                    CycleAction::Leave
                }
            },
            None => CycleAction::Leave,
        }
    }

    /// Puts a started watcher for `config` in the place of the current one.
    fn start_watcher(&mut self, config: FolderSyncConfig, key: String, url: String)
        ensures
            final(self).folder_watcher matches Some(w) && {
                &&& w.well_formed()
                &&& w.config == config
                &&& w.api_key == key
                &&& w.docflow_url == url
                &&& w.status.running
                &&& w.status.watch_path == Some(config.watch_path)
                &&& w.status.files_uploaded == 0
                &&& w.status.files_pending == 0
                &&& w.status.errors == 0
                &&& w.status.last_upload is None
                &&& w.status.last_error is None
                &&& w.known() == Set::<Seq<char>>::empty()
                &&& w.cycle == 0
            },
            final(self).watcher_epoch == next_epoch(old(self).watcher_epoch),
            final(self).bridge_status.folder_sync_active,
            final(self).bridge_status.folder_sync_path == Some(config.watch_path),
            final(self).bridge_status.connected == old(self).bridge_status.connected,
            final(self).bridge_status.docflow_url == old(self).bridge_status.docflow_url,
            final(self).bridge_status.scanner_count == old(self).bridge_status.scanner_count,
            final(self).bridge_status.last_discovery == old(self).bridge_status.last_discovery,
            final(self).bridge_status.version == old(self).bridge_status.version,
            final(self).bridge_status.poller_active == old(self).bridge_status.poller_active,
            final(self).bridge_status.jobs_processed == old(self).bridge_status.jobs_processed,
            final(self).api_key == old(self).api_key,
            final(self).scanners == old(self).scanners,
            final(self).poller == old(self).poller,
            final(self).poller_epoch == old(self).poller_epoch,
    {
        let path = config.watch_path.clone();
        let mut watcher = FolderWatcher::new(config, key, url);
        watcher.start_watching(true);
        self.folder_watcher = Some(watcher);
        self.watcher_epoch = following_epoch(self.watcher_epoch);
        self.bridge_status.folder_sync_active = true;
        self.bridge_status.folder_sync_path = Some(path);
    }

    /// The status as the shell shows it: the status that the state holds,
    /// with the number of jobs that its poller has processed.
    pub fn get_status(&self) -> (status: BridgeStatus)
        ensures
            status == shown_status(*self),
    {
        let jobs_processed: u32 = match &self.poller {
            Some(p) => p.status.jobs_processed,
            None => self.bridge_status.jobs_processed,
        };
        BridgeStatus {
            connected: self.bridge_status.connected,
            docflow_url: clone_text(&self.bridge_status.docflow_url),
            scanner_count: self.bridge_status.scanner_count,
            last_discovery: clone_text(&self.bridge_status.last_discovery),
            version: self.bridge_status.version.clone(),
            poller_active: self.bridge_status.poller_active,
            jobs_processed,
            folder_sync_active: self.bridge_status.folder_sync_active,
            folder_sync_path: clone_text(&self.bridge_status.folder_sync_path),
        }
    }

    /// Takes the answer to the upload of the result of `job`, as the
    /// poller's [`ScanPoller::after_upload`] does. A success counts one job
    /// more in the status that is shown. Without a poller nothing changes
    /// and nothing is reported.
    pub fn after_upload(
        &mut self,
        job: &PendingScanJob,
        status: Option<u16>,
        text: &str,
    ) -> (report: Option<HttpRequest>)
        ensures
            match old(self).poller {
                Some(p) => {
                    &&& final(self).poller matches Some(q)
                    &&& uploaded(p, *job, status, text@, q, report)
                    &&& shown_status(*final(self)).jobs_processed == (if is_counted(status) {
                        bumped(shown_status(*old(self)).jobs_processed)
                    } else {
                        shown_status(*old(self)).jobs_processed
                    })
                },
                None => final(self).poller is None && report is None,
            },
            final(self).bridge_status == old(self).bridge_status,
            final(self).api_key == old(self).api_key,
            final(self).scanners == old(self).scanners,
            final(self).folder_watcher == old(self).folder_watcher,
            final(self).poller_epoch == old(self).poller_epoch,
            final(self).watcher_epoch == old(self).watcher_epoch,
    {
        match &mut self.poller {
            Some(p) => p.after_upload(job, status, text),
            None => None,
        }
    }

    /// The status of the folder sync: that of the watcher, or the idle one.
    pub fn get_folder_sync_status(&self) -> (status: FolderSyncStatus)
        ensures
            match self.folder_watcher {
                Some(w) => status == w.status,
                None => {
                    &&& !status.running
                    &&& status.watch_path is None
                    &&& status.files_uploaded == 0
                    &&& status.files_pending == 0
                    &&& status.errors == 0
                    &&& status.last_upload is None
                    &&& status.last_error is None
                },
            },
    {
        match &self.folder_watcher {
            Some(w) => w.get_status(),
            None => idle_folder_status(),
        }
    }

    /// Connects the agent with an API key and a backend URL and starts a
    /// fresh poller.
    fn connect(&mut self, api_key: String, docflow_url: String)
        ensures
            final(self).bridge_status.connected,
            final(self).bridge_status.poller_active,
            final(self).bridge_status.docflow_url == Some(docflow_url),
            final(self).api_key == Some(api_key),
            final(self).poller matches Some(p) && {
                &&& p.api_key == api_key
                &&& p.docflow_url == docflow_url
                &&& p.status.running
                &&& p.status.jobs_processed == 0
                &&& p.status.last_poll is None
                &&& p.status.last_error is None
            },
            final(self).poller_epoch == next_epoch(old(self).poller_epoch),
            final(self).watcher_epoch == old(self).watcher_epoch,
            final(self).scanners == old(self).scanners,
            final(self).folder_watcher == old(self).folder_watcher,
            final(self).bridge_status.scanner_count == old(self).bridge_status.scanner_count,
            final(self).bridge_status.last_discovery == old(self).bridge_status.last_discovery,
            final(self).bridge_status.version == old(self).bridge_status.version,
            final(self).bridge_status.jobs_processed == old(self).bridge_status.jobs_processed,
            final(self).bridge_status.folder_sync_active == old(
                self,
            ).bridge_status.folder_sync_active,
            final(self).bridge_status.folder_sync_path == old(self).bridge_status.folder_sync_path,
    {
        let mut poller = ScanPoller::new(api_key.clone(), docflow_url.clone());
        poller.start_polling();
        self.poller_epoch = following_epoch(self.poller_epoch);
        self.bridge_status.connected = true;
        self.bridge_status.docflow_url = Some(docflow_url);
        self.bridge_status.poller_active = true;
        self.api_key = Some(api_key);
        self.poller = Some(poller);
    }

    /// Takes the result of a pairing: the agent is connected with the API
    /// key and the effective URL, and a fresh poller runs. The answer says
    /// what is left to do outside.
    pub fn pair_with_docflow(&mut self, result: &PairingResult) -> (plan: PairingPlan)
        ensures
            old(self).well_formed() ==> final(self).well_formed(),
            plan.writes@.len() == 2,
            plan.writes@[0].slot == VaultSlot::ApiKey,
            plan.writes@[0].value == result.api_key,
            plan.writes@[1].slot == VaultSlot::DocflowUrl,
            plan.writes@[1].value == result.docflow_url,
            plan.poller_epoch == final(self).poller_epoch,
            final(self).bridge_status.connected,
            final(self).bridge_status.poller_active,
            final(self).bridge_status.docflow_url == Some(result.docflow_url),
            final(self).api_key == Some(result.api_key),
            final(self).has_credentials(),
            final(self).poller matches Some(p) && {
                &&& p.api_key == result.api_key
                &&& p.docflow_url == result.docflow_url
                &&& p.status.running
                &&& p.status.jobs_processed == 0
            },
            final(self).poller_epoch == next_epoch(old(self).poller_epoch),
            final(self).watcher_epoch == old(self).watcher_epoch,
            poller_cycle_of(*final(self), final(self).poller_epoch) == PollerAction::Poll,
            poller_cycle_of(*final(self), old(self).poller_epoch) == PollerAction::Leave,
            final(self).scanners == old(self).scanners,
            final(self).folder_watcher == old(self).folder_watcher,
            final(self).bridge_status.scanner_count == old(self).bridge_status.scanner_count,
            final(self).bridge_status.last_discovery == old(self).bridge_status.last_discovery,
            final(self).bridge_status.version == old(self).bridge_status.version,
            final(self).bridge_status.jobs_processed == old(self).bridge_status.jobs_processed,
            final(self).bridge_status.folder_sync_active == old(
                self,
            ).bridge_status.folder_sync_active,
            final(self).bridge_status.folder_sync_path == old(self).bridge_status.folder_sync_path,
    {
        self.connect(result.api_key.clone(), result.docflow_url.clone());
        let mut writes: Vec<VaultWrite> = Vec::new();
        writes.push(VaultWrite { slot: VaultSlot::ApiKey, value: result.api_key.clone() });
        writes.push(VaultWrite { slot: VaultSlot::DocflowUrl, value: result.docflow_url.clone() });
        PairingPlan { writes, poller_epoch: self.poller_epoch }
    }

    /// Restores the agent at boot from what the vault holds. With both
    /// credentials the agent is connected and the poller runs; with a
    /// configuration that is enabled and whose directory exists, the folder
    /// watcher runs too. Without both credentials nothing changes.
    pub fn restore(
        &mut self,
        api_key: Option<String>,
        docflow_url: Option<String>,
        folder_config: Option<FolderSyncConfig>,
        dir_exists: bool,
    ) -> (started: Started)
        ensures
            old(self).well_formed() ==> final(self).well_formed(),
            final(self).scanners == old(self).scanners,
            started.poller == (if final(self).poller_epoch != old(self).poller_epoch {
                Some(final(self).poller_epoch)
            } else {
                None
            }),
            started.watcher == (if final(self).watcher_epoch != old(self).watcher_epoch {
                Some(final(self).watcher_epoch)
            } else {
                None
            }),
            match (api_key, docflow_url) {
                (Some(key), Some(url)) => {
                    &&& final(self).bridge_status.connected
                    &&& final(self).bridge_status.poller_active
                    &&& final(self).bridge_status.docflow_url == Some(url)
                    &&& final(self).api_key == Some(key)
                    &&& final(self).poller_epoch == next_epoch(old(self).poller_epoch)
                    &&& poller_cycle_of(*final(self), final(self).poller_epoch)
                        == PollerAction::Poll
                    &&& match folder_config {
                        Some(config) => if config.enabled && dir_exists {
                            &&& final(self).bridge_status.folder_sync_active
                            &&& final(self).bridge_status.folder_sync_path == Some(
                                config.watch_path,
                            )
                            &&& final(self).watcher_epoch == next_epoch(old(self).watcher_epoch)
                            &&& watcher_cycle_of(*final(self), final(self).watcher_epoch)
                                == CycleAction::Scan
                            &&& final(self).folder_watcher matches Some(w) && {
                                &&& w.config == config
                                &&& w.api_key == key
                                &&& w.docflow_url == url
                                &&& w.status.running
                                &&& w.known() == Set::<Seq<char>>::empty()
                            }
                        } else {
                            &&& final(self).folder_watcher == old(self).folder_watcher
                            &&& final(self).watcher_epoch == old(self).watcher_epoch
                            &&& final(self).bridge_status.folder_sync_active == old(
                                self,
                            ).bridge_status.folder_sync_active
                        },
                        None => {
                            &&& final(self).folder_watcher == old(self).folder_watcher
                            &&& final(self).watcher_epoch == old(self).watcher_epoch
                            &&& final(self).bridge_status.folder_sync_active == old(
                                self,
                            ).bridge_status.folder_sync_active
                        },
                    }
                },
                _ => *final(self) == *old(self),
            },
    {
        let mut started = Started { poller: None, watcher: None };
        match (api_key, docflow_url) {
            (Some(key), Some(url)) => {
                self.connect(key.clone(), url.clone());
                started.poller = Some(self.poller_epoch);
                match folder_config {
                    Some(config) => {
                        if config.enabled && dir_exists {
                            self.start_watcher(config, key, url);
                            started.watcher = Some(self.watcher_epoch);
                        }
                    },
                    None => {},
                }
            },
            _ => {},
        }
        started
    }

    /// Takes the result of a discovery at the time `now`.
    pub fn discover_scanners_at(&mut self, scanners: Vec<DiscoveredScanner>, now: String) -> (push:
        Option<HttpRequest>)
        ensures
            old(self).well_formed() ==> final(self).well_formed(),
            discovered(*old(self), scanners, now, *final(self), push),
    {
        self.bridge_status.scanner_count = scanners.len();
        self.bridge_status.last_discovery = Some(now);
        self.scanners = scanners;
        match (&self.api_key, &self.bridge_status.docflow_url) {
            (Some(key), Some(url)) => Some(
                send_scanners_to_docflow(url.as_str(), key.as_str(), &self.scanners),
            ),
            _ => None,
        }
    }

    /// Takes the result of a discovery. The time is read from the clock;
    /// whatever it is, the state stands as
    /// [`AppState::discover_scanners_at`] leaves it for that time.
    pub fn discover_scanners(&mut self, scanners: Vec<DiscoveredScanner>) -> (push: Option<
        HttpRequest,
    >)
        ensures
            old(self).well_formed() ==> final(self).well_formed(),
            exists|now: String| discovered(*old(self), scanners, now, *final(self), push),
    {
        let now = now_rfc3339();
        self.discover_scanners_at(scanners, now)
    }

    /// Disconnects the agent: poller and watcher are stopped and dropped,
    /// the credentials forgotten, the status back at its defaults. The
    /// answer says what is left to do outside.
    pub fn disconnect(&mut self) -> (plan: DisconnectPlan)
        ensures
            old(self).well_formed() ==> final(self).well_formed(),
            *final(self) == disconnected(*old(self)),
            plan.delete_slot == VaultSlot::ApiKey,
            farewell_of(old(self).folder_watcher, plan.watcher_farewell),
    {
        match &mut self.poller {
            Some(p) => {
                p.stop();
            },
            None => {},
        }
        self.poller = None;
        let watcher_farewell = match &mut self.folder_watcher {
            Some(w) => Some(w.stop()),
            None => None,
        };
        self.folder_watcher = None;
        self.bridge_status.connected = false;
        self.bridge_status.docflow_url = None;
        self.bridge_status.scanner_count = 0;
        self.bridge_status.last_discovery = None;
        self.bridge_status.poller_active = false;
        self.bridge_status.jobs_processed = 0;
        self.bridge_status.folder_sync_active = false;
        self.bridge_status.folder_sync_path = None;
        self.api_key = None;
        DisconnectPlan { watcher_farewell, delete_slot: VaultSlot::ApiKey }
    }

    /// Configures the folder sync on the directory `watch_path` with the
    /// post-upload action that `post_action` names.
    ///
    /// The agent must have its credentials and the directory must exist.
    /// Then a watcher that was there is stopped and a new one started in its
    /// place, and the status shows the folder sync as active on the
    /// directory. The answer holds the configuration to persist.
    pub fn configure_folder_sync(
        &mut self,
        watch_path: String,
        post_action: &str,
        dir_exists: bool,
    ) -> (r: Result<FolderSyncPlan, ConfigFailure>)
        ensures
            old(self).well_formed() ==> final(self).well_formed(),
            final(self).scanners == old(self).scanners,
            final(self).api_key == old(self).api_key,
            final(self).poller == old(self).poller,
            final(self).poller_epoch == old(self).poller_epoch,
            match (old(self).api_key, old(self).bridge_status.docflow_url) {
                (Some(key), Some(url)) => if dir_exists {
                    &&& r matches Ok(plan)
                    &&& final(self).watcher_epoch == next_epoch(old(self).watcher_epoch)
                    &&& watcher_cycle_of(*final(self), final(self).watcher_epoch)
                        == CycleAction::Scan
                    &&& watcher_cycle_of(*final(self), old(self).watcher_epoch)
                        == CycleAction::Leave
                    &&& plan.persist.enabled
                    &&& plan.persist.watch_path@ == watch_path@
                    &&& plan.persist.post_upload_action == post_action_of(post_action@)
                    &&& plan.watcher_epoch == final(self).watcher_epoch
                    &&& farewell_of(old(self).folder_watcher, plan.watcher_farewell)
                    &&& final(self).bridge_status.folder_sync_active
                    &&& final(self).bridge_status.folder_sync_path == Some(watch_path)
                    &&& final(self).folder_watcher matches Some(w) && {
                        &&& w.config.enabled
                        &&& w.config.watch_path@ == watch_path@
                        &&& w.config.post_upload_action == post_action_of(post_action@)
                        &&& w.api_key == key
                        &&& w.docflow_url == url
                        &&& w.status.running
                        &&& w.status.files_uploaded == 0
                        &&& w.status.errors == 0
                        &&& w.known() == Set::<Seq<char>>::empty()
                    }
                } else {
                    &&& r == Err::<FolderSyncPlan, ConfigFailure>(ConfigFailure::NoSuchFolder)
                    &&& *final(self) == *old(self)
                },
                _ => {
                    &&& r == Err::<FolderSyncPlan, ConfigFailure>(ConfigFailure::NotConnected)
                    &&& *final(self) == *old(self)
                },
            },
    {
        let (key, url) = match (&self.api_key, &self.bridge_status.docflow_url) {
            (Some(k), Some(u)) => (k.clone(), u.clone()),
            _ => {
                return Err(ConfigFailure::NotConnected);
            },
        };
        if !dir_exists {
            return Err(ConfigFailure::NoSuchFolder);
        }
        let watcher_farewell = match &mut self.folder_watcher {
            Some(w) => Some(w.stop()),
            None => None,
        };
        let action = post_action_for(post_action);
        let persist = FolderSyncConfig {
            enabled: true,
            watch_path: watch_path.clone(),
            post_upload_action: action,
        };
        let config = FolderSyncConfig {
            enabled: true,
            watch_path,
            post_upload_action: action,
        };
        self.start_watcher(config, key, url);
        Ok(FolderSyncPlan { watcher_farewell, persist, watcher_epoch: self.watcher_epoch })
    }

    /// Stops the folder sync: the watcher is stopped and dropped and the
    /// status shows the folder sync as inactive. The answer is the request
    /// by which the watcher tells the backend, where a watcher was there.
    pub fn stop_folder_sync(&mut self) -> (farewell: Option<HttpRequest>)
        ensures
            old(self).well_formed() ==> final(self).well_formed(),
            final(self).folder_watcher is None,
            forall|epoch: u64| watcher_cycle_of(*final(self), epoch) == CycleAction::Leave,
            final(self).poller_epoch == old(self).poller_epoch,
            final(self).watcher_epoch == old(self).watcher_epoch,
            !final(self).bridge_status.folder_sync_active,
            final(self).bridge_status.folder_sync_path is None,
            farewell_of(old(self).folder_watcher, farewell),
            final(self).scanners == old(self).scanners,
            final(self).api_key == old(self).api_key,
            final(self).poller == old(self).poller,
            final(self).bridge_status.connected == old(self).bridge_status.connected,
            final(self).bridge_status.docflow_url == old(self).bridge_status.docflow_url,
            final(self).bridge_status.scanner_count == old(self).bridge_status.scanner_count,
            final(self).bridge_status.last_discovery == old(self).bridge_status.last_discovery,
            final(self).bridge_status.version == old(self).bridge_status.version,
            final(self).bridge_status.poller_active == old(self).bridge_status.poller_active,
            final(self).bridge_status.jobs_processed == old(self).bridge_status.jobs_processed,
    {
        let farewell = match &mut self.folder_watcher {
            Some(w) => Some(w.stop()),
            None => None,
        };
        self.folder_watcher = None;
        self.bridge_status.folder_sync_active = false;
        self.bridge_status.folder_sync_path = None;
        farewell
    }
}

} // verus!
