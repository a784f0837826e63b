//! Pairing with the backend: the forms of a pairing code, the requests that
//! redeem one, and what is kept once the backend has answered.
//!
//! A structured code carries the backend URL itself. A manual code is
//! resolved at the URL that the user gave, and that URL stays the effective
//! one: behind a reverse proxy the backend cannot know its own port.

use vstd::prelude::*;
use vstd::string::StringExecFns;
use crate::http::{is_success, is_success_status, Answer, Body, HttpMethod, HttpRequest};
use crate::text::{
    contains_char, has_prefix, skip_trailing, starts_with_str, trim_trailing,
};

verus! {

/// The host name that stands in where the system gives none.
pub const UNKNOWN_HOST: &'static str = "Unknown";

/// Path under the backend URL at which a manual code is resolved.
pub const RESOLVE_PATH: &'static str = "/api/scanner/bridge/resolve-code";

/// Path under the backend URL at which a bridge registers.
pub const REGISTER_PATH: &'static str = "/api/scanner/bridge/register";

/// Path under the backend URL that tells whether an API key is valid.
pub const STATUS_PATH: &'static str = "/api/scanner/bridge/status";

/// What a pairing code says, from the code itself or from the backend that
/// resolved it.
#[derive(Clone, Debug)]
pub struct PairingCode {
    pub docflow_url: String,
    pub tenant_id: Option<i64>,
    pub pairing_token: String,
    pub bridge_name: Option<String>,
}

/// The backend's answer to a registration.
#[derive(Clone, Debug)]
pub struct PairingResult {
    pub bridge_id: String,
    pub api_key: String,
    pub refresh_token: String,
    pub docflow_url: String,
    pub tenant_name: String,
}

/// The body of a registration.
#[derive(Clone, Debug)]
pub struct RegisterRequest {
    pub pairing_token: String,
    pub bridge_name: String,
    pub bridge_version: String,
    pub os: String,
    pub hostname: String,
}

/// The form of a pairing code.
#[derive(Clone, Copy, Debug, PartialEq, Eq, Structural)]
pub enum CodeForm {
    /// JSON: the text begins with `{`.
    Structured,
    /// A code like `ABCD-1234-WXYZ`: the text holds a `-`.
    Manual,
    /// Anything else.
    Invalid,
}

/// Why a pairing did not go through.
#[derive(Clone, Copy, Debug, PartialEq, Eq, Structural)]
pub enum PairingFailure {
    /// The code has no known form.
    InvalidCode,
    /// A manual code came without a backend URL.
    UrlRequired,
    /// A structured code is no valid JSON of the expected shape.
    UnreadableCode,
    /// The backend could not be reached for resolving the code.
    ResolveUnreachable,
    /// The backend refused to resolve the code.
    ResolveRefused,
    /// The backend's answer to the resolving cannot be read.
    ResolveUnreadable,
    /// The backend could not be reached for the registration.
    RegisterUnreachable,
    /// The backend refused the registration.
    RegisterRefused,
    /// The backend's answer to the registration cannot be read.
    RegisterUnreadable,
}

/// A failed pairing: why it failed, and what the backend, the transport or
/// the decoder said.
#[derive(Debug)]
pub struct PairingError {
    pub failure: PairingFailure,
    pub detail: String,
}

/// What a pairing begins with.
#[derive(Debug)]
pub enum PairingStart {
    /// Decode the code as JSON into a [`PairingCode`], then register with
    /// the URL that it names.
    Decode,
    /// Send `request` to resolve the code, then register with
    /// `effective_url`.
    Resolve { request: HttpRequest, effective_url: String },
    /// The pairing has failed.
    Fail { failure: PairingFailure },
}

/// The form of a code text.
pub open spec fn form_of(code: Seq<char>) -> CodeForm {
    if has_prefix(code, "{"@) {
        CodeForm::Structured
    } else if code.contains('-') {
        CodeForm::Manual
    } else {
        CodeForm::Invalid
    }
}

/// The URL at which a manual code is resolved under a backend URL.
pub open spec fn resolve_url_of(docflow_url: Seq<char>) -> Seq<char> {
    skip_trailing(docflow_url, '/') + RESOLVE_PATH@
}

/// The URL at which a bridge registers under an effective URL.
pub open spec fn register_url_of(effective_url: Seq<char>) -> Seq<char> {
    effective_url + REGISTER_PATH@
}

/// The URL that tells whether an API key is valid.
pub open spec fn status_url_of(docflow_url: Seq<char>) -> Seq<char> {
    docflow_url + STATUS_PATH@
}

/// The host name of a machine: the one the system gives, else
/// [`UNKNOWN_HOST`].
pub open spec fn hostname_of(given: Option<String>) -> Seq<char> {
    match given {
        Some(name) => name@,
        None => UNKNOWN_HOST@,
    }
}

/// The name under which a bridge registers: the one the code gives, else
/// `Bridge auf <hostname>`.
pub open spec fn bridge_name_of(given: Option<String>, hostname: Seq<char>) -> Seq<char> {
    match given {
        Some(name) => name@,
        None => "Bridge auf "@ + hostname,
    }
}

/// The text of a failure; `detail` is what the backend or the transport
/// said.
pub open spec fn pairing_failure_text(failure: PairingFailure, detail: Seq<char>) -> Seq<char> {
    match failure {
        PairingFailure::InvalidCode => "Ung\u{fc}ltiger Pairing-Code"@,
        PairingFailure::UrlRequired => "DocFlow-URL wird f\u{fc}r manuelle Codes ben\u{f6}tigt"@,
        PairingFailure::UnreadableCode => detail,
        PairingFailure::ResolveUnreachable => "Verbindung fehlgeschlagen: "@ + detail,
        PairingFailure::ResolveRefused => "Code-Aufl\u{f6}sung fehlgeschlagen: "@ + detail,
        PairingFailure::ResolveUnreadable => detail,
        PairingFailure::RegisterUnreachable => detail,
        PairingFailure::RegisterRefused => "Registrierung fehlgeschlagen: "@ + detail,
        PairingFailure::RegisterUnreadable => detail,
    }
}

/// How an answer fails a pairing, if it does: no reply as `unreachable`
/// with the reason, a status that is no success as `refused` with the body,
/// a body that cannot be read as `unreadable` with what the decoder said.
pub open spec fn answer_failure<T>(
    answer: Answer<T>,
    unreachable: PairingFailure,
    refused: PairingFailure,
    unreadable: PairingFailure,
) -> Option<(PairingFailure, String)> {
    match answer {
        Answer::NoReply { reason } => Some((unreachable, reason)),
        Answer::Reply { status, body, decoded } => if !is_success(status) {
            Some((refused, body))
        } else {
            match decoded {
                Ok(value) => None,
                Err(why) => Some((unreadable, why)),
            }
        },
    }
}

/// The host name of the machine, from `hostname::get`, read as text with
/// whatever cannot be read replaced; none where the system gives no name.
/// Nothing is claimed about the name.
#[verifier::external_body]
fn host_name() -> (name: Option<String>)
{
    match hostname::get() {
        Ok(h) => Some(h.to_string_lossy().into_owned()),
        Err(_) => None,
    }
}

/// The form of a code text.
pub fn code_form(code: &str) -> (form: CodeForm)
    ensures
        form == form_of(code@),
{
    if starts_with_str(code, "{") {
        CodeForm::Structured
    } else if contains_char(code, '-') {
        CodeForm::Manual
    } else {
        CodeForm::Invalid
    }
}

/// The request that resolves a manual code at a backend URL.
pub fn resolve_manual_code(code: &str, docflow_url: &str) -> (request: HttpRequest)
    ensures
        request.method == HttpMethod::Post,
        request.url@ == resolve_url_of(docflow_url@),
        request.bearer is None,
        request.timeout_secs is None,
        !request.accept_invalid_certs,
        request.body matches Body::ResolveCode { code: c } && c@ == code@,
{
    let mut url = trim_trailing(docflow_url, '/');
    url.append(RESOLVE_PATH);
    HttpRequest {
        method: HttpMethod::Post,
        url,
        bearer: None,
        timeout_secs: None,
        accept_invalid_certs: false,
        body: Body::ResolveCode { code: String::from_str(code) },
    }
}

/// Begins a pairing with the code that the user entered and the backend URL
/// that came with it.
///
/// A structured code is to be decoded. A manual code needs the URL: it is
/// resolved there, and the URL without trailing slashes is the effective
/// one. Any other code is invalid.
pub fn pair(pairing_code: &str, docflow_url: Option<&str>) -> (start: PairingStart)
    ensures
        match form_of(pairing_code@) {
            CodeForm::Structured => start is Decode,
            CodeForm::Manual => match docflow_url {
                Some(url) => {
                    &&& start matches PairingStart::Resolve { request, effective_url }
                    &&& effective_url@ == skip_trailing(url@, '/')
                    &&& request.method == HttpMethod::Post
                    &&& request.url@ == resolve_url_of(url@)
                    &&& request.bearer is None
                    &&& request.timeout_secs is None
                    &&& !request.accept_invalid_certs
                    &&& request.body matches Body::ResolveCode { code: c } && c@ == pairing_code@
                },
                None => start matches PairingStart::Fail { failure } && failure
                    == PairingFailure::UrlRequired,
            },
            CodeForm::Invalid => start matches PairingStart::Fail { failure } && failure
                == PairingFailure::InvalidCode,
        },
{
    match code_form(pairing_code) {
        CodeForm::Structured => PairingStart::Decode,
        CodeForm::Manual => match docflow_url {
            Some(url) => PairingStart::Resolve {
                request: resolve_manual_code(pairing_code, url),
                effective_url: trim_trailing(url, '/'),
            },
            None => PairingStart::Fail { failure: PairingFailure::UrlRequired },
        },
        CodeForm::Invalid => PairingStart::Fail { failure: PairingFailure::InvalidCode },
    }
}

/// What a structured code says once it was decoded: the code and the
/// effective URL, which is the one that the code names. A code that could
/// not be decoded fails the pairing with what the decoder said.
pub fn decoded(code: Result<PairingCode, String>) -> (r: Result<
    (PairingCode, String),
    PairingError,
>)
    ensures
        match code {
            Ok(c) => r matches Ok(pair) && pair.0 == c && pair.1 == c.docflow_url,
            Err(why) => r matches Err(e) && e.failure == PairingFailure::UnreadableCode && e.detail
                == why,
        },
{
    match code {
        Ok(c) => {
            let url = c.docflow_url.clone();
            Ok((c, url))
        },
        Err(why) => Err(PairingError { failure: PairingFailure::UnreadableCode, detail: why }),
    }
}

/// What the answer to the resolving of a manual code means.
pub fn resolved(answer: Answer<PairingCode>) -> (r: Result<PairingCode, PairingError>)
    ensures
        match answer_failure(
            answer,
            PairingFailure::ResolveUnreachable,
            PairingFailure::ResolveRefused,
            PairingFailure::ResolveUnreadable,
        ) {
            Some(f) => r matches Err(e) && e.failure == f.0 && e.detail == f.1,
            None => r matches Ok(code) && answer matches Answer::Reply { decoded: Ok(c), .. }
                && code == c,
        },
{
    match answer {
        Answer::NoReply { reason } => Err(
            PairingError { failure: PairingFailure::ResolveUnreachable, detail: reason },
        ),
        Answer::Reply { status, body, decoded } => {
            if !is_success_status(status) {
                Err(PairingError { failure: PairingFailure::ResolveRefused, detail: body })
            } else {
                match decoded {
                    Ok(c) => Ok(c),
                    Err(why) => Err(
                        PairingError { failure: PairingFailure::ResolveUnreadable, detail: why },
                    ),
                }
            }
        },
    }
}

/// The request that registers the bridge of the machine `hostname` at the
/// effective URL with what the code says.
pub fn register_request(
    code: PairingCode,
    effective_url: &str,
    hostname: String,
    bridge_version: String,
    os: String,
) -> (request: HttpRequest)
    ensures
        request.method == HttpMethod::Post,
        request.url@ == register_url_of(effective_url@),
        request.bearer is None,
        request.timeout_secs is None,
        !request.accept_invalid_certs,
        request.body matches Body::Register { request: body } && {
            &&& body.pairing_token == code.pairing_token
            &&& body.bridge_name@ == bridge_name_of(code.bridge_name, hostname@)
            &&& body.bridge_version == bridge_version
            &&& body.os == os
            &&& body.hostname == hostname
        },
{
    let mut url = String::from_str(effective_url);
    url.append(REGISTER_PATH);
    let bridge_name = match code.bridge_name {
        Some(name) => name,
        None => {
            let mut name = String::from_str("Bridge auf ");
            name.append(hostname.as_str());
            name
        },
    };
    HttpRequest {
        method: HttpMethod::Post,
        url,
        bearer: None,
        timeout_secs: None,
        accept_invalid_certs: false,
        body: Body::Register {
            request: RegisterRequest {
                pairing_token: code.pairing_token,
                bridge_name,
                bridge_version,
                os,
                hostname,
            },
        },
    }
}

/// The host name to register with, from what the system gave.
pub fn hostname_or_unknown(given: Option<String>) -> (r: String)
    ensures
        r@ == hostname_of(given),
{
    match given {
        Some(name) => name,
        None => String::from_str(UNKNOWN_HOST),
    }
}

/// The request that registers the bridge of this machine. The host name is
/// asked of the system; whatever the system gives, the request is that of
/// [`register_request`] for the name that [`hostname_or_unknown`] makes of
/// it.
pub fn register_this_machine(
    code: PairingCode,
    effective_url: &str,
    bridge_version: String,
    os: String,
) -> (request: HttpRequest)
    ensures
        request.method == HttpMethod::Post,
        request.url@ == register_url_of(effective_url@),
        request.bearer is None,
        request.timeout_secs is None,
        !request.accept_invalid_certs,
        request.body matches Body::Register { request: body } && {
            &&& body.pairing_token == code.pairing_token
            &&& body.bridge_name@ == bridge_name_of(code.bridge_name, body.hostname@)
            &&& body.bridge_version == bridge_version
            &&& body.os == os
            &&& exists|given: Option<String>| body.hostname@ == #[trigger] hostname_of(given)
        },
{
    let hostname = hostname_or_unknown(host_name());
    register_request(code, effective_url, hostname, bridge_version, os)
}

/// What the answer to a registration means. On success the credentials are
/// kept with the effective URL in place of the URL that the backend named.
pub fn registered(answer: Answer<PairingResult>, effective_url: &str) -> (r: Result<
    PairingResult,
    PairingError,
>)
    ensures
        match answer_failure(
            answer,
            PairingFailure::RegisterUnreachable,
            PairingFailure::RegisterRefused,
            PairingFailure::RegisterUnreadable,
        ) {
            Some(f) => r matches Err(e) && e.failure == f.0 && e.detail == f.1,
            None => {
                &&& r matches Ok(kept)
                &&& answer matches Answer::Reply { decoded: Ok(given), .. }
                &&& kept.bridge_id == given.bridge_id
                &&& kept.api_key == given.api_key
                &&& kept.refresh_token == given.refresh_token
                &&& kept.tenant_name == given.tenant_name
                &&& kept.docflow_url@ == effective_url@
            },
        },
{
    match answer {
        Answer::NoReply { reason } => Err(
            PairingError { failure: PairingFailure::RegisterUnreachable, detail: reason },
        ),
        Answer::Reply { status, body, decoded } => {
            if !is_success_status(status) {
                Err(PairingError { failure: PairingFailure::RegisterRefused, detail: body })
            } else {
                match decoded {
                    Ok(given) => Ok(
                        PairingResult {
                            bridge_id: given.bridge_id,
                            api_key: given.api_key,
                            refresh_token: given.refresh_token,
                            docflow_url: String::from_str(effective_url),
                            tenant_name: given.tenant_name,
                        },
                    ),
                    Err(why) => Err(
                        PairingError { failure: PairingFailure::RegisterUnreadable, detail: why },
                    ),
                }
            }
        },
    }
}

/// The text of a failure; `detail` is what the backend or the transport
/// said.
pub fn pairing_failure_message(failure: PairingFailure, detail: &str) -> (r: String)
    ensures
        r@ == pairing_failure_text(failure, detail@),
{
    match failure {
        PairingFailure::InvalidCode => String::from_str("Ung\u{fc}ltiger Pairing-Code"),
        PairingFailure::UrlRequired => String::from_str(
            "DocFlow-URL wird f\u{fc}r manuelle Codes ben\u{f6}tigt",
        ),
        PairingFailure::UnreadableCode => String::from_str(detail),
        PairingFailure::ResolveUnreachable => {
            let mut r = String::from_str("Verbindung fehlgeschlagen: ");
            r.append(detail);
            r
        },
        PairingFailure::ResolveRefused => {
            let mut r = String::from_str("Code-Aufl\u{f6}sung fehlgeschlagen: ");
            r.append(detail);
            r
        },
        PairingFailure::ResolveUnreadable => String::from_str(detail),
        PairingFailure::RegisterUnreachable => String::from_str(detail),
        PairingFailure::RegisterRefused => {
            let mut r = String::from_str("Registrierung fehlgeschlagen: ");
            r.append(detail);
            r
        },
        PairingFailure::RegisterUnreadable => String::from_str(detail),
    }
}

impl PairingError {
    /// The text of the failure.
    pub fn message(&self) -> (r: String)
        ensures
            r@ == pairing_failure_text(self.failure, self.detail@),
    {
        pairing_failure_message(self.failure, self.detail.as_str())
    }
}

/// The saved connection: the API key and the backend URL, where the vault
/// holds both.
pub fn load_saved_connection(api_key: Option<String>, docflow_url: Option<String>) -> (r: Option<
    (String, String),
>)
    ensures
        r == (match (api_key, docflow_url) {
            (Some(key), Some(url)) => Some((key, url)),
            _ => None,
        }),
{
    match (api_key, docflow_url) {
        (Some(key), Some(url)) => Some((key, url)),
        _ => None,
    }
}

/// The request that asks the backend whether an API key is valid.
pub fn validate_connection(api_key: &str, docflow_url: &str) -> (request: HttpRequest)
    ensures
        request.method == HttpMethod::Get,
        request.url@ == status_url_of(docflow_url@),
        request.bearer matches Some(k) && k@ == api_key@,
        request.timeout_secs is None,
        !request.accept_invalid_certs,
        request.body is Empty,
{
    let mut url = String::from_str(docflow_url);
    url.append(STATUS_PATH);
    HttpRequest {
        method: HttpMethod::Get,
        url,
        bearer: Some(String::from_str(api_key)),
        timeout_secs: None,
        accept_invalid_certs: false,
        body: Body::Empty,
    }
}

/// Whether the reply to [`validate_connection`] says that the key is valid:
/// a success status; no reply says no.
pub fn connection_valid(status: Option<u16>) -> (r: bool)
    ensures
        r == (status matches Some(code) && is_success(code)),
{
    match status {
        Some(code) => is_success_status(code),
        None => false,
    }
}

} // verus!
