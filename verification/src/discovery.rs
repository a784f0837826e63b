//! Scanner discovery: what a resolved mDNS service says about a scanner,
//! which of two sightings of one scanner is kept, the subnet probe, and how
//! the results of both are put together.
//!
//! Browsing and probing are done by the embedding program. It hands what
//! was resolved to [`discover_mdns`], the reply to each probe to
//! [`probe_escl_endpoint`], and the outcome of both to [`discover_all`].

use vstd::prelude::*;
use vstd::string::{StrSliceExecFns, StringExecFns};
use crate::http::{is_success, Body, HttpMethod, HttpRequest};
use crate::text::{
    clone_texts, contains_char, contains_seq, contains_str, decimal, decimal_string,
    has_no_duplicates, has_prefix, holds_text, insert_text, lowercase, lowercase_of, same_text,
    skip_leading, starts_with_str, texts_of, trim_leading,
};

verus! {

/// Path that a probe asks for.
pub const PROBE_PATH: &'static str = "/eSCL/ScannerCapabilities";

/// Seconds for which each service type is browsed.
pub const BROWSE_SECS: u64 = 5;

/// Timeout of one probe, in seconds.
pub const PROBE_TIMEOUT_SECS: u64 = 2;

/// Seconds after which the subnet sweep is given up.
pub const SWEEP_TIMEOUT_SECS: u64 = 30;

/// Hosts `1..=PROBE_HOSTS` of the subnet are probed.
pub const PROBE_HOSTS: u8 = 254;

/// What a scanner can do.
#[derive(Clone, Debug)]
pub struct ScannerCapabilities {
    pub duplex: bool,
    pub adf: bool,
    pub flatbed: bool,
    pub max_resolution: u32,
    pub color_modes: Vec<String>,
    pub formats: Vec<String>,
}

/// A scanner that was found.
#[derive(Clone, Debug)]
pub struct DiscoveredScanner {
    pub id: String,
    pub name: String,
    pub manufacturer: String,
    pub model: String,
    pub ip: String,
    pub port: u16,
    pub use_tls: bool,
    pub protocols: Vec<String>,
    pub capabilities: ScannerCapabilities,
    pub discovery_method: String,
    /// The eSCL resource path, without leading slashes.
    pub rs_path: String,
}

/// A scanner as the contracts see it: every text as its characters.
pub struct ScannerModel {
    pub id: Seq<char>,
    pub name: Seq<char>,
    pub manufacturer: Seq<char>,
    pub model: Seq<char>,
    pub ip: Seq<char>,
    pub port: u16,
    pub use_tls: bool,
    pub protocols: Seq<Seq<char>>,
    pub duplex: bool,
    pub adf: bool,
    pub flatbed: bool,
    pub max_resolution: u32,
    pub color_modes: Seq<Seq<char>>,
    pub formats: Seq<Seq<char>>,
    pub discovery_method: Seq<char>,
    pub rs_path: Seq<char>,
}

/// One key of a TXT record with its value as text.
#[derive(Clone, Debug)]
pub struct TxtEntry {
    pub key: String,
    pub value: String,
}

/// A resolved mDNS service, as plain values.
#[derive(Clone, Debug)]
pub struct MdnsService {
    /// The full service name.
    pub fullname: String,
    /// The addresses of the service as text, without brackets.
    pub addresses: Vec<String>,
    pub port: u16,
    /// The TXT record, in the order of the record.
    pub txt: Vec<TxtEntry>,
}

/// The kind of service under which a scanner was seen.
#[derive(Clone, Copy, Debug, PartialEq, Eq, Structural)]
pub enum ServiceKind {
    /// `_uscan._tcp.local.`: eSCL over HTTP.
    Escl,
    /// `_uscans._tcp.local.`: eSCL over TLS.
    EsclTls,
    /// `_scanner._tcp.local.`: any scanner.
    Generic,
}

/// One resolved service with the kind of service under which it came.
#[derive(Clone, Debug)]
pub struct MdnsEvent {
    pub kind: ServiceKind,
    pub service: MdnsService,
}

/// What an arbiter holds: the scanners kept so far, in the order in which
/// their ids were first seen, and the addresses seen under an eSCL service.
pub struct Arbitration {
    pub scanners: Seq<ScannerModel>,
    pub escl_ips: Set<Seq<char>>,
}

/// The arbiter of one discovery.
#[derive(Debug)]
pub struct Arbiter {
    /// The scanners kept so far, no id twice.
    pub scanners: Vec<DiscoveredScanner>,
    /// The addresses seen under an eSCL service, each once.
    pub escl_ips: Vec<String>,
}

/// The primary local address of the machine.
#[derive(Clone, Copy, Debug, PartialEq, Eq, Structural)]
pub enum LocalAddress {
    /// An IPv4 address `a.b.c.d`.
    V4 { a: u8, b: u8, c: u8, d: u8 },
    /// An IPv6 address.
    V6,
}

/// One endpoint to probe.
#[derive(Clone, Debug)]
pub struct ProbeTarget {
    pub ip: String,
    pub port: u16,
}

/// The sweep of a subnet: the endpoints to probe, and the seconds after
/// which what has not answered is given up.
#[derive(Clone, Debug)]
pub struct SweepPlan {
    pub targets: Vec<ProbeTarget>,
    pub deadline_secs: u64,
}

/// One browse of a discovery: the kind of service and the seconds to browse
/// for.
#[derive(Clone, Copy, Debug, PartialEq, Eq, Structural)]
pub struct BrowseWindow {
    pub kind: ServiceKind,
    pub secs: u64,
}

impl View for DiscoveredScanner {
    type V = ScannerModel;

    open spec fn view(&self) -> ScannerModel {
        ScannerModel {
            id: self.id@,
            name: self.name@,
            manufacturer: self.manufacturer@,
            model: self.model@,
            ip: self.ip@,
            port: self.port,
            use_tls: self.use_tls,
            protocols: texts_of(self.protocols@),
            duplex: self.capabilities.duplex,
            adf: self.capabilities.adf,
            flatbed: self.capabilities.flatbed,
            max_resolution: self.capabilities.max_resolution,
            color_modes: texts_of(self.capabilities.color_modes@),
            formats: texts_of(self.capabilities.formats@),
            discovery_method: self.discovery_method@,
            rs_path: self.rs_path@,
        }
    }
}

impl View for Arbiter {
    type V = Arbitration;

    open spec fn view(&self) -> Arbitration {
        Arbitration {
            scanners: models_of(self.scanners@),
            escl_ips: texts_of(self.escl_ips@).to_set(),
        }
    }
}

/// The models of a list of scanners.
pub open spec fn models_of(scanners: Seq<DiscoveredScanner>) -> Seq<ScannerModel> {
    scanners.map_values(|s: DiscoveredScanner| s@)
}

/// The keys and values of a TXT record.
pub open spec fn txt_of(entries: Seq<TxtEntry>) -> Seq<(Seq<char>, Seq<char>)> {
    entries.map_values(|e: TxtEntry| (e.key@, e.value@))
}

/// The value of the first entry whose key is `key` in any case.
pub open spec fn txt_lookup(txt: Seq<(Seq<char>, Seq<char>)>, key: Seq<char>) -> Option<Seq<char>>
    decreases txt.len(),
{
    if txt.len() == 0 {
        None
    } else if lowercase_of(txt[0].0) == lowercase_of(key) {
        Some(txt[0].1)
    } else {
        txt_lookup(txt.drop_first(), key)
    }
}

/// The resource path that is taken where a scanner names none.
pub open spec fn default_rs() -> Seq<char> {
    "eSCL"@
}

/// Bonus for well-known ports: 443 over 80 over 8080 over the rest.
pub open spec fn port_bonus(port: u16) -> int {
    if port == 443 {
        15
    } else if port == 80 {
        10
    } else if port == 8080 {
        5
    } else {
        0
    }
}

/// Bonus for the address: an address without a colon is IPv4 and gains 3; an
/// address whose lower-case form `lower` begins with `fe80:` is link-local
/// IPv6 and loses 3.
pub open spec fn address_bonus(ip: Seq<char>, lower: Seq<char>) -> int {
    if !ip.contains(':') {
        3
    } else if has_prefix(lower, "fe80:"@) {
        -3
    } else {
        0
    }
}

/// The score of an endpoint whose address has the lower-case form `lower`.
pub open spec fn score_with(use_tls: bool, port: u16, ip: Seq<char>, lower: Seq<char>) -> int {
    (if use_tls {
        20int
    } else {
        0int
    }) + port_bonus(port) + address_bonus(ip, lower)
}

/// The score of a scanner: 20 for TLS, the port bonus, the address bonus.
pub open spec fn score_of(s: ScannerModel) -> int {
    score_with(s.use_tls, s.port, s.ip, lowercase_of(s.ip))
}

/// The manufacturer that a lower-case model name points to: the first of the
/// known brand words that occurs in it.
pub open spec fn manufacturer_in(lower: Seq<char>) -> Seq<char> {
    if contains_seq(lower, "hp"@) {
        "HP"@
    } else if contains_seq(lower, "hewlett"@) {
        "HP"@
    } else if contains_seq(lower, "canon"@) {
        "Canon"@
    } else if contains_seq(lower, "brother"@) {
        "Brother"@
    } else if contains_seq(lower, "epson"@) {
        "Epson"@
    } else if contains_seq(lower, "samsung"@) {
        "Samsung"@
    } else if contains_seq(lower, "xerox"@) {
        "Xerox"@
    } else if contains_seq(lower, "lexmark"@) {
        "Lexmark"@
    } else if contains_seq(lower, "ricoh"@) {
        "Ricoh"@
    } else if contains_seq(lower, "kyocera"@) {
        "Kyocera"@
    } else if contains_seq(lower, "konica"@) {
        "Konica Minolta"@
    } else {
        "Unknown"@
    }
}

/// The manufacturer of a model.
pub open spec fn manufacturer_of(model: Seq<char>) -> Seq<char> {
    manufacturer_in(lowercase_of(model))
}

/// Whether the lower-case value of `duplex` says yes.
pub open spec fn is_yes(lower: Seq<char>) -> bool {
    lower == "t"@ || lower == "true"@ || lower == "1"@
}

/// The protocols of every scanner found here.
pub open spec fn standard_protocols() -> Seq<Seq<char>> {
    seq!["escl"@]
}

/// The colour modes assumed of a scanner found by mDNS.
pub open spec fn standard_color_modes() -> Seq<Seq<char>> {
    seq!["RGB24"@, "Grayscale8"@]
}

/// The formats assumed of a scanner found by mDNS.
pub open spec fn standard_formats() -> Seq<Seq<char>> {
    seq!["application/pdf"@, "image/jpeg"@]
}

/// The value of the first of two TXT keys that is present, else `fallback`.
pub open spec fn txt_either(
    txt: Seq<(Seq<char>, Seq<char>)>,
    first: Seq<char>,
    second: Seq<char>,
    fallback: Seq<char>,
) -> Seq<char> {
    match txt_lookup(txt, first) {
        Some(v) => v,
        None => match txt_lookup(txt, second) {
            Some(v) => v,
            None => fallback,
        },
    }
}

/// The lower-case input sources that a TXT record names; empty where it
/// names none.
pub open spec fn input_sources_of(txt: Seq<(Seq<char>, Seq<char>)>) -> Seq<char> {
    match txt_lookup(txt, "is"@) {
        Some(v) => lowercase_of(v),
        None => Seq::empty(),
    }
}

/// The scanner that a resolved service describes; none where the service
/// has no address.
///
/// The address is the first one and the port the advertised one. The model
/// is the value of `ty`, else of `product`, else the full service name; the
/// id that of `uuid`, else `ip:port`. `duplex` holds for the values `t`,
/// `true` and `1` in any case. The feeder is there where `is` names `adf` or
/// `feeder`, the flatbed where it names `platen` or nothing at all. The
/// resource path is the value of `rs` without leading slashes, else `eSCL`.
pub open spec fn parse_service(
    fullname: Seq<char>,
    addresses: Seq<Seq<char>>,
    port: u16,
    txt: Seq<(Seq<char>, Seq<char>)>,
) -> Option<ScannerModel> {
    if addresses.len() == 0 {
        None
    } else {
        let ip = addresses[0];
        let model = txt_either(txt, "ty"@, "product"@, fullname);
        let sources = input_sources_of(txt);
        Some(
            ScannerModel {
                id: match txt_lookup(txt, "uuid"@) {
                    Some(v) => v,
                    None => ip + ":"@ + decimal(port as nat),
                },
                name: model,
                manufacturer: manufacturer_of(model),
                model,
                ip,
                port,
                use_tls: false,
                protocols: standard_protocols(),
                duplex: match txt_lookup(txt, "duplex"@) {
                    Some(v) => is_yes(lowercase_of(v)),
                    None => false,
                },
                adf: contains_seq(sources, "adf"@) || contains_seq(sources, "feeder"@),
                flatbed: contains_seq(sources, "platen"@) || sources.len() == 0,
                max_resolution: 600,
                color_modes: standard_color_modes(),
                formats: standard_formats(),
                discovery_method: "mdns"@,
                rs_path: match txt_lookup(txt, "rs"@) {
                    Some(v) => skip_leading(v, '/'),
                    None => default_rs(),
                },
            },
        )
    }
}

/// The scanner that `service` describes.
pub open spec fn parse_of(service: MdnsService) -> Option<ScannerModel> {
    parse_service(
        service.fullname@,
        texts_of(service.addresses@),
        service.port,
        txt_of(service.txt@),
    )
}

/// The service type that is browsed for a kind.
pub open spec fn service_type_of(kind: ServiceKind) -> Seq<char> {
    match kind {
        ServiceKind::Escl => "_uscan._tcp.local."@,
        ServiceKind::EsclTls => "_uscans._tcp.local."@,
        ServiceKind::Generic => "_scanner._tcp.local."@,
    }
}

/// The kind of a service type: the TLS variant by its full name, eSCL by the
/// prefix `_uscan`, everything else generic.
pub open spec fn kind_of_type(service_type: Seq<char>) -> ServiceKind {
    if service_type == "_uscans._tcp.local."@ {
        ServiceKind::EsclTls
    } else if has_prefix(service_type, "_uscan"@) {
        ServiceKind::Escl
    } else {
        ServiceKind::Generic
    }
}

/// What a run of events means to the arbitration.
pub open spec fn sightings_of(events: Seq<MdnsEvent>) -> Seq<(ServiceKind, Option<ScannerModel>)> {
    events.map_values(|e: MdnsEvent| (e.kind, parse_of(e.service)))
}

/// Some scanner of the list has the id.
pub open spec fn has_id(scanners: Seq<ScannerModel>, id: Seq<char>) -> bool {
    exists|i: int| 0 <= i < scanners.len() && (#[trigger] scanners[i]).id == id
}

/// No two scanners of the list share an id.
pub open spec fn unique_ids(scanners: Seq<ScannerModel>) -> bool {
    forall|i: int, j: int|
        0 <= i < j < scanners.len() ==> (#[trigger] scanners[i]).id != (#[trigger] scanners[j]).id
}

/// Which of a kept scanner and a candidate of the same id stays: the
/// candidate only if it scores higher.
pub open spec fn retained(kept: ScannerModel, candidate: ScannerModel) -> ScannerModel {
    if kept.id == candidate.id && score_of(candidate) > score_of(kept) {
        candidate
    } else {
        kept
    }
}

/// The list after a candidate was placed: it takes the place of the scanner
/// with its id if it scores higher, and comes last if its id is new.
pub open spec fn placed(scanners: Seq<ScannerModel>, candidate: ScannerModel) -> Seq<ScannerModel> {
    if has_id(scanners, candidate.id) {
        scanners.map_values(|kept: ScannerModel| retained(kept, candidate))
    } else {
        scanners.push(candidate)
    }
}

/// A scanner as it was seen under a kind of service: the TLS variant says
/// that the endpoint speaks TLS.
pub open spec fn sighting(kind: ServiceKind, parsed: ScannerModel) -> ScannerModel {
    if kind == ServiceKind::EsclTls {
        ScannerModel { use_tls: true, ..parsed }
    } else {
        parsed
    }
}

/// A sighting under `kind` is placed by an arbitration, not dropped: it came
/// under an eSCL service, or its address was not seen under one.
pub open spec fn is_placed(a: Arbitration, kind: ServiceKind, candidate: ScannerModel) -> bool {
    kind != ServiceKind::Generic || !a.escl_ips.contains(candidate.ip)
}

/// The arbitration after one resolved service.
///
/// A service without address changes nothing. A sighting under an eSCL
/// service records its address and is placed. A sighting under the generic
/// service is dropped if its address was seen under an eSCL service, and
/// placed otherwise.
pub open spec fn observed(
    a: Arbitration,
    kind: ServiceKind,
    parsed: Option<ScannerModel>,
) -> Arbitration {
    match parsed {
        None => a,
        Some(p) => {
            let candidate = sighting(kind, p);
            if kind != ServiceKind::Generic {
                Arbitration {
                    scanners: placed(a.scanners, candidate),
                    escl_ips: a.escl_ips.insert(candidate.ip),
                }
            } else if a.escl_ips.contains(candidate.ip) {
                a
            } else {
                Arbitration { scanners: placed(a.scanners, candidate), escl_ips: a.escl_ips }
            }
        },
    }
}

/// The arbitration after a run of resolved services, from nothing.
pub open spec fn arbitrated(events: Seq<(ServiceKind, Option<ScannerModel>)>) -> Arbitration
    decreases events.len(),
{
    if events.len() == 0 {
        Arbitration { scanners: Seq::empty(), escl_ips: Set::empty() }
    } else {
        observed(arbitrated(events.drop_last()), events.last().0, events.last().1)
    }
}

/// Some scanner of the list has the id and scores at least `score`.
pub open spec fn kept_at_least(scanners: Seq<ScannerModel>, id: Seq<char>, score: int) -> bool {
    exists|i: int|
        0 <= i < scanners.len() && (#[trigger] scanners[i]).id == id && score_of(scanners[i])
            >= score
}

/// The identity of a scanner: id, address, port and TLS.
pub open spec fn identity_of(s: ScannerModel) -> (Seq<char>, Seq<char>, u16, bool) {
    (s.id, s.ip, s.port, s.use_tls)
}

/// The identities of a list of scanners, as a set.
pub open spec fn identities_of(scanners: Seq<ScannerModel>) -> Set<
    (Seq<char>, Seq<char>, u16, bool),
> {
    scanners.map_values(|s: ScannerModel| identity_of(s)).to_set()
}

/// A list of scanners settled by id: the scanners placed one after the
/// other. Every id of the list stays, once; where an id occurs again, the
/// scanner that scores higher stays in the place of the first.
pub open spec fn settled(list: Seq<ScannerModel>) -> Seq<ScannerModel>
    decreases list.len(),
{
    if list.len() == 0 {
        Seq::empty()
    } else {
        placed(settled(list.drop_last()), list.last())
    }
}

/// What a discovery goes by: the scanners found by mDNS, and only where
/// mDNS found none, the scanners found by the probe.
pub open spec fn found_of(mdns: Seq<ScannerModel>, probed: Seq<ScannerModel>) -> Seq<ScannerModel> {
    if mdns.len() == 0 {
        probed
    } else {
        mdns
    }
}

/// The result of a discovery: what was found, settled by id. Scanners are
/// told apart by their id alone: two ids on one address are two scanners.
pub open spec fn discovery_of(
    mdns: Seq<ScannerModel>,
    probed: Seq<ScannerModel>,
) -> Seq<ScannerModel> {
    settled(found_of(mdns, probed))
}

/// The first three octets of an IPv4 address, dotted; `192.168.1` where the
/// address is IPv6.
pub open spec fn subnet_of(local: LocalAddress) -> Seq<char> {
    match local {
        LocalAddress::V4 { a, b, c, d } => decimal(a as nat) + "."@ + decimal(b as nat) + "."@
            + decimal(c as nat),
        LocalAddress::V6 => "192.168.1"@,
    }
}

/// The ports that are probed on every host, in order.
pub open spec fn probe_ports() -> Seq<u16> {
    seq![80u16, 443u16, 8080u16, 9100u16]
}

/// Target `k` of a subnet: host `k / 4 + 1`, port `k % 4` of the probed ones.
pub open spec fn probe_target_of(subnet: Seq<char>, k: int) -> (Seq<char>, u16) {
    (subnet + "."@ + decimal((k / 4 + 1) as nat), probe_ports()[k % 4])
}

/// The URL that a probe asks for: `https` on port 443, `http` elsewhere.
pub open spec fn probe_url_of(ip: Seq<char>, port: u16) -> Seq<char> {
    (if port == 443 {
        "https"@
    } else {
        "http"@
    }) + "://"@ + ip + ":"@ + decimal(port as nat) + PROBE_PATH@
}

/// The scanner that an answering endpoint is taken for.
pub open spec fn probed_scanner(ip: Seq<char>, port: u16) -> ScannerModel {
    ScannerModel {
        id: ip + ":"@ + decimal(port as nat),
        name: "Scanner at "@ + ip,
        manufacturer: "Unknown"@,
        model: "eSCL Scanner ("@ + ip + ")"@,
        ip,
        port,
        use_tls: port == 443,
        protocols: standard_protocols(),
        duplex: false,
        adf: false,
        flatbed: false,
        max_resolution: 0,
        color_modes: Seq::empty(),
        formats: Seq::empty(),
        discovery_method: "ip_scan"@,
        rs_path: default_rs(),
    }
}

/// A probe has found a scanner where the status is a success and the body
/// mentions `ScannerCapabilities`.
pub open spec fn probe_found(status: u16, body: Seq<char>) -> bool {
    is_success(status) && contains_seq(body, "ScannerCapabilities"@)
}

/// Preference monotonicity: where a candidate meets a kept scanner of the
/// same id, the one of the two that stays is the candidate or the kept one,
/// and it scores at least as high as the other.
pub proof fn lemma_preference_monotone(scanners: Seq<ScannerModel>, candidate: ScannerModel, i: int)
    requires
        0 <= i < scanners.len(),
        scanners[i].id == candidate.id,
    ensures
        placed(scanners, candidate).len() == scanners.len(),
        ({
            let stays = placed(scanners, candidate)[i];
            let goes = if stays == candidate {
                scanners[i]
            } else {
                candidate
            };
            &&& stays == candidate || stays == scanners[i]
            &&& stays.id == candidate.id
            &&& score_of(stays) >= score_of(goes)
            &&& score_of(stays) >= score_of(scanners[i])
            &&& score_of(stays) >= score_of(candidate)
        }),
{
}

/// After a candidate was placed, the list holds its id with at least its
/// score.
pub proof fn lemma_placed_at_least(scanners: Seq<ScannerModel>, candidate: ScannerModel)
    ensures
        kept_at_least(placed(scanners, candidate), candidate.id, score_of(candidate)),
{
    let after = placed(scanners, candidate);
    if has_id(scanners, candidate.id) {
        let k = choose|k: int|
            0 <= k < scanners.len() && (#[trigger] scanners[k]).id == candidate.id;
        assert(after[k] == retained(scanners[k], candidate));
    } else {
        assert(after[scanners.len() as int] == candidate);
    }
}

/// Placing a candidate lowers the score of no id.
pub proof fn lemma_placed_keeps(
    scanners: Seq<ScannerModel>,
    candidate: ScannerModel,
    id: Seq<char>,
    score: int,
)
    requires
        kept_at_least(scanners, id, score),
    ensures
        kept_at_least(placed(scanners, candidate), id, score),
{
    let after = placed(scanners, candidate);
    let i = choose|i: int|
        0 <= i < scanners.len() && (#[trigger] scanners[i]).id == id && score_of(scanners[i])
            >= score;
    if has_id(scanners, candidate.id) {
        assert(after[i] == retained(scanners[i], candidate));
    } else {
        assert(after[i] == scanners[i]);
    }
}

/// One resolved service lowers the score of no id and forgets no address.
pub proof fn lemma_observed_keeps(
    a: Arbitration,
    kind: ServiceKind,
    parsed: Option<ScannerModel>,
    id: Seq<char>,
    score: int,
)
    ensures
        a.escl_ips.subset_of(observed(a, kind, parsed).escl_ips),
        kept_at_least(a.scanners, id, score) ==> kept_at_least(
            observed(a, kind, parsed).scanners,
            id,
            score,
        ),
{
    if parsed is Some && kept_at_least(a.scanners, id, score) {
        lemma_placed_keeps(a.scanners, sighting(kind, parsed->0), id, score);
    }
}

/// What the arbitration holds after the first `j` services, it holds at the
/// end: every address seen under an eSCL service, and every id with at
/// least the score it had.
pub proof fn lemma_arbitrated_grows(
    events: Seq<(ServiceKind, Option<ScannerModel>)>,
    j: int,
    id: Seq<char>,
    score: int,
)
    requires
        0 <= j <= events.len(),
    ensures
        arbitrated(events.subrange(0, j)).escl_ips.subset_of(arbitrated(events).escl_ips),
        kept_at_least(arbitrated(events.subrange(0, j)).scanners, id, score) ==> kept_at_least(
            arbitrated(events).scanners,
            id,
            score,
        ),
    decreases events.len(),
{
    if j == events.len() {
        assert(events.subrange(0, j) =~= events);
    } else {
        let shorter = events.drop_last();
        assert(shorter.subrange(0, j) =~= events.subrange(0, j));
        lemma_arbitrated_grows(shorter, j, id, score);
        lemma_observed_keeps(arbitrated(shorter), events.last().0, events.last().1, id, score);
    }
}

/// The arbitration never holds an id twice.
pub proof fn lemma_arbitrated_unique(events: Seq<(ServiceKind, Option<ScannerModel>)>)
    ensures
        unique_ids(arbitrated(events).scanners),
    decreases events.len(),
{
    if events.len() > 0 {
        lemma_arbitrated_unique(events.drop_last());
    }
}

/// Preference over a whole discovery: every sighting that was placed is
/// outscored or equalled by the scanner that is kept under its id at the
/// end.
pub proof fn lemma_kept_outscores(events: Seq<(ServiceKind, Option<ScannerModel>)>, k: int)
    requires
        0 <= k < events.len(),
        events[k].1 is Some,
        is_placed(
            arbitrated(events.subrange(0, k)),
            events[k].0,
            sighting(events[k].0, events[k].1->0),
        ),
    ensures
        kept_at_least(
            arbitrated(events).scanners,
            sighting(events[k].0, events[k].1->0).id,
            score_of(sighting(events[k].0, events[k].1->0)),
        ),
{
    let candidate = sighting(events[k].0, events[k].1->0);
    let upto = events.subrange(0, k + 1);
    assert(upto.drop_last() =~= events.subrange(0, k));
    lemma_placed_at_least(arbitrated(events.subrange(0, k)).scanners, candidate);
    lemma_arbitrated_grows(events, k + 1, candidate.id, score_of(candidate));
}

/// A service that the arbitration has seen changes nothing when it is seen
/// again.
pub proof fn lemma_seen_again(events: Seq<(ServiceKind, Option<ScannerModel>)>, k: int)
    requires
        0 <= k < events.len(),
    ensures
        observed(arbitrated(events), events[k].0, events[k].1) == arbitrated(events),
{
    let a = arbitrated(events);
    let kind = events[k].0;
    if events[k].1 is Some {
        let candidate = sighting(kind, events[k].1->0);
        lemma_arbitrated_grows(events, k, candidate.id, score_of(candidate));
        lemma_arbitrated_grows(events, k + 1, candidate.id, score_of(candidate));
        if kind != ServiceKind::Generic {
            assert(a.escl_ips.insert(candidate.ip) =~= a.escl_ips);
        }
        if is_placed(a, kind, candidate) {
            lemma_kept_outscores(events, k);
            lemma_arbitrated_unique(events);
            assert(placed(a.scanners, candidate) =~= a.scanners);
        }
    }
}

/// Seeing the first `j` services of a discovery again after all of them
/// changes nothing.
pub proof fn lemma_seen_again_upto(events: Seq<(ServiceKind, Option<ScannerModel>)>, j: int)
    requires
        0 <= j <= events.len(),
    ensures
        arbitrated(events + events.subrange(0, j)) == arbitrated(events),
    decreases j,
{
    if j > 0 {
        let longer = events + events.subrange(0, j);
        assert(longer.drop_last() =~= events + events.subrange(0, j - 1));
        lemma_seen_again_upto(events, j - 1);
        lemma_seen_again(events, j - 1);
    }
}

/// Discovery replay: a discovery that sees every service a second time, in
/// the same order, ends as it would have ended after the first time.
pub proof fn lemma_discovery_replay(events: Seq<(ServiceKind, Option<ScannerModel>)>)
    ensures
        arbitrated(events + events) == arbitrated(events),
{
    assert(events.subrange(0, events.len() as int) =~= events);
    lemma_seen_again_upto(events, events.len() as int);
}

/// Placing a candidate adds its id and takes none away.
pub proof fn lemma_placed_ids(scanners: Seq<ScannerModel>, candidate: ScannerModel, id: Seq<char>)
    ensures
        has_id(placed(scanners, candidate), id) <==> has_id(scanners, id) || id == candidate.id,
{
    let after = placed(scanners, candidate);
    if has_id(scanners, candidate.id) {
        assert forall|i: int| 0 <= i < scanners.len() implies (#[trigger] after[i]).id
            == scanners[i].id by {}
        if has_id(scanners, id) {
            let i = choose|i: int| 0 <= i < scanners.len() && (#[trigger] scanners[i]).id == id;
            assert(after[i].id == id);
        }
        if has_id(after, id) {
            let i = choose|i: int| 0 <= i < after.len() && (#[trigger] after[i]).id == id;
            assert(scanners[i].id == id);
        }
    } else {
        assert(after[scanners.len() as int] == candidate);
        if has_id(scanners, id) {
            let i = choose|i: int| 0 <= i < scanners.len() && (#[trigger] scanners[i]).id == id;
            assert(after[i].id == id);
        }
        if has_id(after, id) {
            let i = choose|i: int| 0 <= i < after.len() && (#[trigger] after[i]).id == id;
            if i < scanners.len() {
                assert(scanners[i].id == id);
            }
        }
    }
}

/// Settling keeps every id of the list and adds none.
pub proof fn lemma_settled_ids(list: Seq<ScannerModel>, id: Seq<char>)
    ensures
        has_id(settled(list), id) <==> has_id(list, id),
    decreases list.len(),
{
    if list.len() > 0 {
        let prefix = list.drop_last();
        lemma_settled_ids(prefix, id);
        lemma_placed_ids(settled(prefix), list.last(), id);
        if has_id(prefix, id) {
            let i = choose|i: int| 0 <= i < prefix.len() && (#[trigger] prefix[i]).id == id;
            assert(list[i].id == id);
        }
        if has_id(list, id) {
            let i = choose|i: int| 0 <= i < list.len() && (#[trigger] list[i]).id == id;
            if i < prefix.len() {
                assert(prefix[i].id == id);
            }
        }
    }
}

/// What is settled holds no id twice, and a list that holds no id twice is
/// settled as it is.
pub proof fn lemma_settled_unique(list: Seq<ScannerModel>)
    ensures
        unique_ids(settled(list)),
        unique_ids(list) ==> settled(list) == list,
    decreases list.len(),
{
    if list.len() > 0 {
        lemma_settled_unique(list.drop_last());
    }
}

/// Discovery idempotence: the result of a discovery is a function of what
/// mDNS and the probe delivered. Two runs that are given the same deliveries
/// end with the same identities.
pub proof fn lemma_discovery_idempotent(
    events: Seq<(ServiceKind, Option<ScannerModel>)>,
    probed: Seq<ScannerModel>,
    first: Seq<ScannerModel>,
    second: Seq<ScannerModel>,
)
    requires
        first == discovery_of(arbitrated(events).scanners, probed),
        second == discovery_of(arbitrated(events).scanners, probed),
    ensures
        identities_of(first) == identities_of(second),
{
}

impl Default for ScannerCapabilities {
    /// Nothing known: no capability, resolution 0, no modes, no formats.
    fn default() -> (c: ScannerCapabilities)
        ensures
            !c.duplex,
            !c.adf,
            !c.flatbed,
            c.max_resolution == 0,
            c.color_modes@.len() == 0,
            c.formats@.len() == 0,
    {
        ScannerCapabilities {
            duplex: false,
            adf: false,
            flatbed: false,
            max_resolution: 0,
            color_modes: Vec::new(),
            formats: Vec::new(),
        }
    }
}

impl DiscoveredScanner {
    /// A copy of the scanner.
    pub fn duplicate(&self) -> (r: DiscoveredScanner)
        ensures
            r@ == self@,
    {
        DiscoveredScanner {
            id: self.id.clone(),
            name: self.name.clone(),
            manufacturer: self.manufacturer.clone(),
            model: self.model.clone(),
            ip: self.ip.clone(),
            port: self.port,
            use_tls: self.use_tls,
            protocols: clone_texts(&self.protocols),
            capabilities: ScannerCapabilities {
                duplex: self.capabilities.duplex,
                adf: self.capabilities.adf,
                flatbed: self.capabilities.flatbed,
                max_resolution: self.capabilities.max_resolution,
                color_modes: clone_texts(&self.capabilities.color_modes),
                formats: clone_texts(&self.capabilities.formats),
            },
            discovery_method: self.discovery_method.clone(),
            rs_path: self.rs_path.clone(),
        }
    }
}

/// The default resource path.
pub fn default_rs_path() -> (r: String)
    ensures
        r@ == default_rs(),
{
    String::from_str("eSCL")
}

/// The score of an endpoint, given the lower-case form of its address.
pub fn score_endpoint(use_tls: bool, port: u16, ip: &str, lower: &str) -> (r: i32)
    ensures
        r == score_with(use_tls, port, ip@, lower@),
{
    let mut score: i32 = 0;
    if use_tls {
        score = score + 20;
    }
    if port == 443 {
        score = score + 15;
    } else if port == 80 {
        score = score + 10;
    } else if port == 8080 {
        score = score + 5;
    }
    if !contains_char(ip, ':') {
        score = score + 3;
    } else if starts_with_str(lower, "fe80:") {
        score = score - 3;
    }
    score
}

/// The score of a scanner.
pub fn score_scanner(scanner: &DiscoveredScanner) -> (r: i32)
    ensures
        r == score_of(scanner@),
{
    let lower = lowercase(scanner.ip.as_str());
    score_endpoint(scanner.use_tls, scanner.port, scanner.ip.as_str(), lower.as_str())
}

/// Whether `candidate` is to replace `current`: only if it scores higher.
pub fn prefer_scanner(candidate: &DiscoveredScanner, current: &DiscoveredScanner) -> (r: bool)
    ensures
        r == (score_of(candidate@) > score_of(current@)),
{
    score_scanner(candidate) > score_scanner(current)
}

/// The manufacturer that a lower-case model name points to.
pub fn manufacturer_for_lowercase(lower: &str) -> (r: String)
    ensures
        r@ == manufacturer_in(lower@),
{
    if contains_str(lower, "hp") {
        String::from_str("HP")
    } else if contains_str(lower, "hewlett") {
        String::from_str("HP")
    } else if contains_str(lower, "canon") {
        String::from_str("Canon")
    } else if contains_str(lower, "brother") {
        String::from_str("Brother")
    } else if contains_str(lower, "epson") {
        String::from_str("Epson")
    } else if contains_str(lower, "samsung") {
        String::from_str("Samsung")
    } else if contains_str(lower, "xerox") {
        String::from_str("Xerox")
    } else if contains_str(lower, "lexmark") {
        String::from_str("Lexmark")
    } else if contains_str(lower, "ricoh") {
        String::from_str("Ricoh")
    } else if contains_str(lower, "kyocera") {
        String::from_str("Kyocera")
    } else if contains_str(lower, "konica") {
        String::from_str("Konica Minolta")
    } else {
        String::from_str("Unknown")
    }
}

/// The manufacturer of a model, by the brand words in its name in any case.
pub fn extract_manufacturer(model: &str) -> (r: String)
    ensures
        r@ == manufacturer_of(model@),
{
    let lower = lowercase(model);
    manufacturer_for_lowercase(lower.as_str())
}

/// The value of a TXT key, in any case of the key.
pub fn txt_value(txt: &Vec<TxtEntry>, key: &str) -> (r: Option<String>)
    ensures
        match r {
            Some(v) => txt_lookup(txt_of(txt@), key@) == Some(v@),
            None => txt_lookup(txt_of(txt@), key@) is None,
        },
{
    let wanted = lowercase(key);
    let mut i: usize = 0;
    assert(txt_of(txt@).subrange(0, txt.len() as int) == txt_of(txt@));
    while i < txt.len()
        invariant
            i <= txt.len(),
            wanted@ == lowercase_of(key@),
            txt_lookup(txt_of(txt@), key@) == txt_lookup(
                txt_of(txt@).subrange(i as int, txt.len() as int),
                key@,
            ),
        decreases txt.len() - i,
    {
        let have = lowercase(txt[i].key.as_str());
        let ghost rest = txt_of(txt@).subrange(i as int, txt.len() as int);
        if same_text(have.as_str(), wanted.as_str()) {
            return Some(txt[i].value.clone());
        }
        assert(rest.drop_first() == txt_of(txt@).subrange(i + 1, txt.len() as int));
        i += 1;
    }
    None
}

/// A list of one text.
fn one_text(a: &str) -> (v: Vec<String>)
    ensures
        texts_of(v@) == seq![a@],
{
    let mut v: Vec<String> = Vec::new();
    v.push(String::from_str(a));
    v
}

/// A list of two texts.
fn two_texts(a: &str, b: &str) -> (v: Vec<String>)
    ensures
        texts_of(v@) == seq![a@, b@],
{
    let mut v: Vec<String> = Vec::new();
    v.push(String::from_str(a));
    v.push(String::from_str(b));
    v
}

/// Whether a lower-case `duplex` value says yes.
pub fn is_yes_value(lower: &str) -> (r: bool)
    ensures
        r == is_yes(lower@),
{
    same_text(lower, "t") || same_text(lower, "true") || same_text(lower, "1")
}

/// The scanner that a resolved service describes.
pub fn parse_mdns_service(service: &MdnsService) -> (r: Option<DiscoveredScanner>)
    ensures
        match r {
            Some(s) => parse_of(*service) == Some(s@),
            None => parse_of(*service) is None,
        },
{
    if service.addresses.len() == 0 {
        return None;
    }
    let ghost txt = txt_of(service.txt@);
    let ip = service.addresses[0].clone();
    let port = service.port;
    let model = match txt_value(&service.txt, "ty") {
        Some(v) => v,
        None => match txt_value(&service.txt, "product") {
            Some(v) => v,
            None => service.fullname.clone(),
        },
    };
    let id = match txt_value(&service.txt, "uuid") {
        Some(v) => v,
        None => {
            let mut id = ip.clone();
            id.append(":");
            let digits = decimal_string(port as u64);
            id.append(digits.as_str());
            id
        },
    };
    let manufacturer = extract_manufacturer(model.as_str());
    let duplex = match txt_value(&service.txt, "duplex") {
        Some(v) => {
            let lower = lowercase(v.as_str());
            is_yes_value(lower.as_str())
        },
        None => false,
    };
    let sources = match txt_value(&service.txt, "is") {
        Some(v) => lowercase(v.as_str()),
        None => String::new(),
    };
    let adf = contains_str(sources.as_str(), "adf") || contains_str(sources.as_str(), "feeder");
    let no_sources = sources.as_str().unicode_len() == 0;
    let flatbed = contains_str(sources.as_str(), "platen") || no_sources;
    let rs_path = match txt_value(&service.txt, "rs") {
        Some(v) => trim_leading(v.as_str(), '/'),
        None => default_rs_path(),
    };
    Some(
        DiscoveredScanner {
            id,
            name: model.clone(),
            manufacturer,
            model,
            ip,
            port,
            use_tls: false,
            protocols: one_text("escl"),
            capabilities: ScannerCapabilities {
                duplex,
                adf,
                flatbed,
                max_resolution: 600,
                color_modes: two_texts("RGB24", "Grayscale8"),
                formats: two_texts("application/pdf", "image/jpeg"),
            },
            discovery_method: String::from_str("mdns"),
            rs_path,
        },
    )
}

/// The service type that is browsed for a kind.
pub fn service_type(kind: ServiceKind) -> (r: &'static str)
    ensures
        r@ == service_type_of(kind),
{
    match kind {
        ServiceKind::Escl => "_uscan._tcp.local.",
        ServiceKind::EsclTls => "_uscans._tcp.local.",
        ServiceKind::Generic => "_scanner._tcp.local.",
    }
}

/// The browses of a discovery in their order: eSCL first, the generic type
/// last, each for [`BROWSE_SECS`].
pub fn browse_plan() -> (plan: Vec<BrowseWindow>)
    ensures
        plan@ == seq![
            BrowseWindow { kind: ServiceKind::Escl, secs: BROWSE_SECS },
            BrowseWindow { kind: ServiceKind::EsclTls, secs: BROWSE_SECS },
            BrowseWindow { kind: ServiceKind::Generic, secs: BROWSE_SECS },
        ],
{
    let mut plan: Vec<BrowseWindow> = Vec::new();
    plan.push(BrowseWindow { kind: ServiceKind::Escl, secs: BROWSE_SECS });
    plan.push(BrowseWindow { kind: ServiceKind::EsclTls, secs: BROWSE_SECS });
    plan.push(BrowseWindow { kind: ServiceKind::Generic, secs: BROWSE_SECS });
    plan
}

/// The kind of a service type.
pub fn service_kind(service_type: &str) -> (kind: ServiceKind)
    ensures
        kind == kind_of_type(service_type@),
{
    if same_text(service_type, "_uscans._tcp.local.") {
        ServiceKind::EsclTls
    } else if starts_with_str(service_type, "_uscan") {
        ServiceKind::Escl
    } else {
        ServiceKind::Generic
    }
}

/// The index of the first scanner with the id `id`.
pub fn find_by_id(scanners: &Vec<DiscoveredScanner>, id: &str) -> (r: Option<usize>)
    ensures
        match r {
            Some(i) => {
                &&& i < scanners.len()
                &&& scanners@[i as int].id@ == id@
                &&& forall|j: int| 0 <= j < i ==> (#[trigger] scanners@[j]).id@ != id@
            },
            None => forall|j: int| 0 <= j < scanners.len() ==> (#[trigger] scanners@[j]).id@ != id@,
        },
        r is Some <==> has_id(models_of(scanners@), id@),
{
    let mut i: usize = 0;
    while i < scanners.len()
        invariant
            i <= scanners.len(),
            forall|j: int| 0 <= j < i ==> (#[trigger] scanners@[j]).id@ != id@,
        decreases scanners.len() - i,
    {
        if same_text(scanners[i].id.as_str(), id) {
            assert(models_of(scanners@)[i as int].id == id@);
            return Some(i);
        }
        i += 1;
    }
    None
}

/// Whether no two scanners of the list share an id.
pub fn has_unique_ids(scanners: &Vec<DiscoveredScanner>) -> (r: bool)
    ensures
        r == unique_ids(models_of(scanners@)),
{
    let mut j: usize = 0;
    while j < scanners.len()
        invariant
            j <= scanners.len(),
            forall|a: int, b: int|
                0 <= a < b < j ==> (#[trigger] models_of(scanners@)[a]).id != (#[trigger] models_of(
                    scanners@,
                )[b]).id,
        decreases scanners.len() - j,
    {
        let mut i: usize = 0;
        while i < j
            invariant
                i <= j < scanners.len(),
                forall|a: int|
                    0 <= a < i ==> (#[trigger] models_of(scanners@)[a]).id != models_of(
                        scanners@,
                    )[j as int].id,
            decreases j - i,
        {
            if same_text(scanners[i].id.as_str(), scanners[j].id.as_str()) {
                assert(models_of(scanners@)[i as int].id == models_of(scanners@)[j as int].id);
                return false;
            }
            i += 1;
        }
        j += 1;
    }
    true
}

/// Places `candidate` among `scanners`.
pub fn place(scanners: &mut Vec<DiscoveredScanner>, candidate: DiscoveredScanner)
    requires
        unique_ids(models_of(old(scanners)@)),
    ensures
        unique_ids(models_of(final(scanners)@)),
        models_of(final(scanners)@) == placed(models_of(old(scanners)@), candidate@),
{
    let ghost before = models_of(scanners@);
    match find_by_id(scanners, candidate.id.as_str()) {
        Some(i) => {
            if prefer_scanner(&candidate, &scanners[i]) {
                scanners[i] = candidate;
            }
            assert(models_of(scanners@) =~= placed(before, candidate@)) by {
                assert forall|j: int| 0 <= j < before.len() implies models_of(scanners@)[j]
                    == retained(before[j], candidate@) by {
                    if j != i {
                        assert(before[j].id != before[i as int].id);
                    }
                }
            }
        },
        None => {
            scanners.push(candidate);
            assert(models_of(scanners@) =~= placed(before, candidate@));
        },
    }
}

impl Arbiter {
    /// No id and no address is kept twice.
    pub open spec fn well_formed(&self) -> bool {
        &&& unique_ids(models_of(self.scanners@))
        &&& texts_of(self.escl_ips@).no_duplicates()
    }

    /// Whether the arbiter is well formed.
    pub fn is_well_formed(&self) -> (r: bool)
        ensures
            r == self.well_formed(),
    {
        has_unique_ids(&self.scanners) && has_no_duplicates(&self.escl_ips)
    }

    /// An arbiter that has seen nothing.
    pub fn new() -> (a: Arbiter)
        ensures
            a.well_formed(),
            a@ == arbitrated(Seq::empty()),
    {
        let a = Arbiter { scanners: Vec::new(), escl_ips: Vec::new() };
        assert(a@.scanners =~= Seq::<ScannerModel>::empty());
        assert(a@.escl_ips =~= Set::<Seq<char>>::empty());
        a
    }

    /// Takes one resolved service that came under `kind`.
    pub fn observe(&mut self, kind: ServiceKind, service: &MdnsService)
        requires
            old(self).well_formed(),
        ensures
            final(self).well_formed(),
            final(self)@ == observed(old(self)@, kind, parse_of(*service)),
    {
        match parse_mdns_service(service) {
            None => {},
            Some(parsed) => {
                let mut candidate = parsed;
                match kind {
                    ServiceKind::EsclTls => {
                        candidate.use_tls = true;
                    },
                    _ => {},
                }
                match kind {
                    ServiceKind::Generic => {
                        if holds_text(&self.escl_ips, candidate.ip.as_str()) {
                            return ;
                        }
                    },
                    _ => {
                        insert_text(&mut self.escl_ips, candidate.ip.clone());
                    },
                }
                place(&mut self.scanners, candidate);
            },
        }
    }
}

/// The scanners that a run of resolved services leaves, in the order in
/// which their ids were first seen.
pub fn discover_mdns(events: &Vec<MdnsEvent>) -> (scanners: Vec<DiscoveredScanner>)
    ensures
        models_of(scanners@) == arbitrated(sightings_of(events@)).scanners,
        unique_ids(models_of(scanners@)),
{
    let mut arbiter = Arbiter::new();
    let mut i: usize = 0;
    while i < events.len()
        invariant
            i <= events.len(),
            arbiter.well_formed(),
            arbiter@ == arbitrated(sightings_of(events@).subrange(0, i as int)),
        decreases events.len() - i,
    {
        arbiter.observe(events[i].kind, &events[i].service);
        proof {
            let all = sightings_of(events@);
            assert(all.subrange(0, i + 1).drop_last() =~= all.subrange(0, i as int));
        }
        i += 1;
    }
    assert(sightings_of(events@).subrange(0, events.len() as int) =~= sightings_of(events@));
    arbiter.scanners
}

/// The scanners of `list` settled by id.
fn settle(list: &Vec<DiscoveredScanner>) -> (r: Vec<DiscoveredScanner>)
    ensures
        models_of(r@) == settled(models_of(list@)),
        unique_ids(models_of(r@)),
{
    let mut r: Vec<DiscoveredScanner> = Vec::new();
    let mut i: usize = 0;
    while i < list.len()
        invariant
            i <= list.len(),
            unique_ids(models_of(r@)),
            models_of(r@) == settled(models_of(list@).subrange(0, i as int)),
        decreases list.len() - i,
    {
        proof {
            let all = models_of(list@);
            assert(all.subrange(0, i + 1).drop_last() =~= all.subrange(0, i as int));
        }
        place(&mut r, list[i].duplicate());
        i += 1;
    }
    assert(models_of(list@).subrange(0, list.len() as int) =~= models_of(list@));
    r
}

/// Whether the subnet has to be probed: only where mDNS found nothing.
pub fn needs_subnet_scan(mdns: &Vec<DiscoveredScanner>) -> (r: bool)
    ensures
        r == (mdns@.len() == 0),
{
    mdns.len() == 0
}

/// The result of a discovery from what mDNS and the probe found: what mDNS
/// found, or what the probe found where mDNS found nothing, settled by id.
///
/// The result holds every id that was found, and none twice. Where no id
/// was found twice, the result is what was found, scanner by scanner, in the
/// same order: two scanners on one address are both in it.
pub fn discover_all(mdns: &Vec<DiscoveredScanner>, probed: &Vec<DiscoveredScanner>) -> (scanners:
    Vec<DiscoveredScanner>)
    ensures
        models_of(scanners@) == discovery_of(models_of(mdns@), models_of(probed@)),
        unique_ids(models_of(scanners@)),
        forall|id: Seq<char>| #[trigger]
            has_id(models_of(scanners@), id) <==> has_id(
                found_of(models_of(mdns@), models_of(probed@)),
                id,
            ),
        unique_ids(found_of(models_of(mdns@), models_of(probed@))) ==> models_of(scanners@)
            == found_of(models_of(mdns@), models_of(probed@)),
{
    proof {
        let found = found_of(models_of(mdns@), models_of(probed@));
        lemma_settled_unique(found);
        assert forall|id: Seq<char>| #[trigger]
            has_id(settled(found), id) <==> has_id(found, id) by {
            lemma_settled_ids(found, id);
        }
    }
    if mdns.len() == 0 {
        settle(probed)
    } else {
        settle(mdns)
    }
}

/// The `/24` subnet that is probed from a local address.
pub fn get_subnet(local: &LocalAddress) -> (r: String)
    ensures
        r@ == subnet_of(*local),
{
    match local {
        LocalAddress::V4 { a, b, c, d } => {
            let mut r = decimal_string(*a as u64);
            r.append(".");
            let second = decimal_string(*b as u64);
            r.append(second.as_str());
            r.append(".");
            let third = decimal_string(*c as u64);
            r.append(third.as_str());
            r
        },
        LocalAddress::V6 => String::from_str("192.168.1"),
    }
}

/// The sweep of a subnet: hosts 1 to 254, each on the ports 80, 443, 8080
/// and 9100, all to be probed at once, and [`SWEEP_TIMEOUT_SECS`] for the
/// whole of it.
pub fn discover_ip_range(subnet: &str) -> (sweep: SweepPlan)
    ensures
        sweep.deadline_secs == SWEEP_TIMEOUT_SECS,
        sweep.targets@.len() == 1016,
        forall|k: int|
            0 <= k < 1016 ==> ((#[trigger] sweep.targets@[k]).ip@, sweep.targets@[k].port)
                == probe_target_of(subnet@, k),
{
    let mut targets: Vec<ProbeTarget> = Vec::new();
    let mut host: u8 = 0;
    while host < PROBE_HOSTS
        invariant
            host <= PROBE_HOSTS,
            targets@.len() == 4 * host,
            forall|k: int|
                0 <= k < 4 * host ==> ((#[trigger] targets@[k]).ip@, targets@[k].port)
                    == probe_target_of(subnet@, k),
        decreases PROBE_HOSTS - host,
    {
        host += 1;
        let mut ip = String::from_str(subnet);
        ip.append(".");
        let digits = decimal_string(host as u64);
        ip.append(digits.as_str());
        targets.push(ProbeTarget { ip: ip.clone(), port: 80 });
        targets.push(ProbeTarget { ip: ip.clone(), port: 443 });
        targets.push(ProbeTarget { ip: ip.clone(), port: 8080 });
        targets.push(ProbeTarget { ip, port: 9100 });
    }
    SweepPlan { targets, deadline_secs: SWEEP_TIMEOUT_SECS }
}

/// The request of a probe. Certificates are not checked.
pub fn probe_request(ip: &str, port: u16) -> (request: HttpRequest)
    ensures
        request.method == HttpMethod::Get,
        request.url@ == probe_url_of(ip@, port),
        request.bearer is None,
        request.timeout_secs == Some(PROBE_TIMEOUT_SECS),
        request.accept_invalid_certs,
        request.body is Empty,
{
    let mut url = String::from_str(
        if port == 443 {
            "https"
        } else {
            "http"
        },
    );
    url.append("://");
    url.append(ip);
    url.append(":");
    let digits = decimal_string(port as u64);
    url.append(digits.as_str());
    url.append(PROBE_PATH);
    HttpRequest {
        method: HttpMethod::Get,
        url,
        bearer: None,
        timeout_secs: Some(PROBE_TIMEOUT_SECS),
        accept_invalid_certs: true,
        body: Body::Empty,
    }
}

/// What the reply to a probe of `ip:port` says: a scanner, or nothing.
pub fn probe_escl_endpoint(ip: &str, port: u16, status: u16, body: &str) -> (r: Option<
    DiscoveredScanner,
>)
    ensures
        r is Some <==> probe_found(status, body@),
        r matches Some(s) ==> s@ == probed_scanner(ip@, port),
{
    if !(200 <= status && status <= 299) {
        return None;
    }
    if !contains_str(body, "ScannerCapabilities") {
        return None;
    }
    let mut id = String::from_str(ip);
    id.append(":");
    let digits = decimal_string(port as u64);
    id.append(digits.as_str());
    let mut name = String::from_str("Scanner at ");
    name.append(ip);
    let mut model = String::from_str("eSCL Scanner (");
    model.append(ip);
    model.append(")");
    let capabilities = ScannerCapabilities::default();
    let s = DiscoveredScanner {
        id,
        name,
        manufacturer: String::from_str("Unknown"),
        model,
        ip: String::from_str(ip),
        port,
        use_tls: port == 443,
        protocols: one_text("escl"),
        capabilities,
        discovery_method: String::from_str("ip_scan"),
        rs_path: default_rs_path(),
    };
    assert(s@.color_modes =~= Seq::<Seq<char>>::empty());
    assert(s@.formats =~= Seq::<Seq<char>>::empty());
    Some(s)
}

} // verus!
