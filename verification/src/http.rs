//! Descriptions of the HTTP requests that the engines ask for. The embedding
//! program sends them; nothing here does.

use vstd::prelude::*;
use crate::discovery::DiscoveredScanner;
use crate::folder::FolderSyncReport;
use crate::pairing::RegisterRequest;

verus! {

/// The request method.
#[derive(Clone, Copy, Debug, PartialEq, Eq, Structural)]
pub enum HttpMethod {
    Get,
    Post,
    Delete,
}

/// The value of one part of a multipart form.
#[derive(Debug)]
pub enum FormValue {
    /// A text field.
    Text { text: String },
    /// A file with its name, MIME type and content.
    File { file_name: String, mime: String, data: Vec<u8> },
}

/// One part of a multipart form.
#[derive(Debug)]
pub struct FormPart {
    pub name: String,
    pub value: FormValue,
}

/// What a request carries.
#[derive(Debug)]
pub enum Body {
    /// Nothing.
    Empty,
    /// An XML document, sent as `application/xml`.
    Xml { document: String },
    /// A multipart form.
    Form { parts: Vec<FormPart> },
    /// JSON: the status of the folder sync.
    FolderStatus { report: FolderSyncReport },
    /// JSON: a manual pairing code to resolve, as `{code}`.
    ResolveCode { code: String },
    /// JSON: a registration.
    Register { request: RegisterRequest },
    /// JSON: the scanner registry, as `{scanners: [..]}`.
    Scanners { scanners: Vec<DiscoveredScanner> },
}

/// One request.
#[derive(Debug)]
pub struct HttpRequest {
    pub method: HttpMethod,
    pub url: String,
    /// The API key for `Authorization: Bearer`, where the endpoint asks for it.
    pub bearer: Option<String>,
    /// The timeout of this request in seconds, where it has one of its own.
    pub timeout_secs: Option<u64>,
    /// Whether the server's certificate is accepted unchecked.
    pub accept_invalid_certs: bool,
    pub body: Body,
}

/// What came back for a request whose answer is to be read as a `T`.
#[derive(Debug)]
pub enum Answer<T> {
    /// No reply came; the reason as text.
    NoReply { reason: String },
    /// A reply came: its status, its body as text, and the body read as a
    /// `T`, or why it cannot be read as one.
    Reply { status: u16, body: String, decoded: Result<T, String> },
}

/// A status in `200..=299`.
pub open spec fn is_success(status: u16) -> bool {
    200 <= status <= 299
}

/// `part` is the text field `name` with the value `text`.
pub open spec fn is_text_part(part: FormPart, name: Seq<char>, text: Seq<char>) -> bool {
    &&& part.name@ == name
    &&& part.value matches FormValue::Text { text: t }
    &&& t@ == text
}

/// `part` is the file field `name` with the given file name, MIME type and
/// content.
pub open spec fn is_file_part(
    part: FormPart,
    name: Seq<char>,
    file_name: Seq<char>,
    mime: Seq<char>,
    data: Seq<u8>,
) -> bool {
    &&& part.name@ == name
    &&& part.value matches FormValue::File { file_name: f, mime: m, data: d }
    &&& f@ == file_name
    &&& m@ == mime
    &&& d@ == data
}

/// `request` goes to the backend at `url` with the API key `key`.
pub open spec fn is_backend_request(
    request: HttpRequest,
    method: HttpMethod,
    url: Seq<char>,
    key: Seq<char>,
    timeout_secs: Option<u64>,
) -> bool {
    &&& request.method == method
    &&& request.url@ == url
    &&& request.bearer matches Some(k)
    &&& k@ == key
    &&& request.timeout_secs == timeout_secs
    &&& !request.accept_invalid_certs
}

/// A text field of a form.
pub fn text_part(name: &str, text: String) -> (part: FormPart)
    ensures
        is_text_part(part, name@, text@),
{
    FormPart { name: name.to_owned(), value: FormValue::Text { text } }
}

/// A file field of a form.
pub fn file_part(name: &str, file_name: String, mime: &str, data: Vec<u8>) -> (part: FormPart)
    ensures
        is_file_part(part, name@, file_name@, mime@, data@),
{
    FormPart {
        name: name.to_owned(),
        value: FormValue::File { file_name, mime: mime.to_owned(), data },
    }
}

/// Whether a status is in `200..=299`.
pub fn is_success_status(status: u16) -> (r: bool)
    ensures
        r == is_success(status),
{
    200 <= status && status <= 299
}

} // verus!
