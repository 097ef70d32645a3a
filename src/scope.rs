use vstd::prelude::*;
use vstd::utf8::{valid_utf8, decode_utf8};
use crate::error::{AsgiError, HeaderPair, headers_view};

verus! {

/// The HTTP versions a request can arrive with.
#[derive(PartialEq, Eq, Structural, Clone, Copy, Debug)]
pub enum HttpVersion {
    Http09,
    Http10,
    Http11,
    Http2,
    Http3,
}

/// The path and query of a request target, as raw bytes.
#[derive(Debug)]
pub struct RequestTarget {
    pub path: Vec<u8>,
    pub query: Option<Vec<u8>>,
}

/// What the scope is built from: a request without its body.
#[derive(Debug)]
pub struct RequestHead {
    pub version: HttpVersion,
    pub method: String,
    pub scheme: Option<String>,
    pub target: Option<RequestTarget>,
    pub headers: Vec<HeaderPair>,
}

/// The connection scope handed to the application.
#[derive(Debug)]
pub struct Scope {
    pub protocol: &'static str,
    pub asgi_version: &'static str,
    pub spec_version: &'static str,
    pub http_version: &'static str,
    pub method: String,
    pub scheme: String,
    pub path: String,
    pub raw_path: Vec<u8>,
    pub query_string: Vec<u8>,
    pub root_path: &'static str,
    pub headers: Vec<HeaderPair>,
}

/// The value of a hexadecimal digit.
pub open spec fn hex_value(b: u8) -> Option<u8> {
    if 48 <= b <= 57 {
        Some((b - 48) as u8)
    } else if 97 <= b <= 102 {
        Some((b - 87) as u8)
    } else if 65 <= b <= 70 {
        Some((b - 55) as u8)
    } else {
        None
    }
}

/// Percent-decoding: `%` and two hex digits stand for one byte; every
/// other byte, a lone `%` included, stands for itself.
pub open spec fn percent_decoded(s: Seq<u8>) -> Seq<u8>
    decreases s.len(),
{
    if s.len() == 0 {
        Seq::empty()
    } else if s[0] == 37 && s.len() >= 3 && hex_value(s[1]) is Some && hex_value(s[2]) is Some {
        seq![(hex_value(s[1]).unwrap() * 16 + hex_value(s[2]).unwrap()) as u8]
            + percent_decoded(s.subrange(3, s.len() as int))
    } else {
        seq![s[0]] + percent_decoded(s.drop_first())
    }
}

/// Relies on percent_encoding::percent_decode: decodes `%XX` escapes and
/// keeps every other byte.
#[verifier::external_body]
fn percent_decode_bytes(raw: &[u8]) -> (r: Vec<u8>)
    ensures
        r@ == percent_decoded(raw@),
{
    percent_encoding::percent_decode(raw).collect()
}

/// Relies on String::from_utf8: succeeds exactly on well-formed UTF-8 and
/// then holds the decoded characters.
#[verifier::external_body]
fn utf8_string(bytes: Vec<u8>) -> (r: Option<String>)
    ensures
        r is Some <==> valid_utf8(bytes@),
        r matches Some(s) ==> s@ == decode_utf8(bytes@),
{
    String::from_utf8(bytes).ok()
}

/// The version text of the scope, for the versions that are served.
pub open spec fn version_text(v: HttpVersion) -> Option<&'static str> {
    match v {
        HttpVersion::Http10 => Some("1.0"),
        HttpVersion::Http11 => Some("1.1"),
        HttpVersion::Http2 => Some("2"),
        _ => None,
    }
}

/// Maps the request's version to the scope's version text.
pub fn http_version_text(v: HttpVersion) -> (r: Result<&'static str, AsgiError>)
    ensures
        version_text(v) is None <==> r == Err::<&'static str, AsgiError>(AsgiError::InvalidHttpVersion),
        version_text(v) matches Some(t) ==> r == Ok::<&'static str, AsgiError>(t),
{
    match v {
        HttpVersion::Http10 => Ok("1.0"),
        HttpVersion::Http11 => Ok("1.1"),
        HttpVersion::Http2 => Ok("2"),
        HttpVersion::Http09 | HttpVersion::Http3 => Err(AsgiError::InvalidHttpVersion),
    }
}

/// Whether the path of the request decodes to UTF-8 text.
pub open spec fn path_decodes(head: RequestHead) -> bool {
    head.target matches Some(t) ==> valid_utf8(percent_decoded(t.path@))
}

/// Decodes a raw request path: percent escapes first, then UTF-8.
pub fn decode_path(raw: &[u8]) -> (r: Result<String, AsgiError>)
    ensures
        r is Ok <==> valid_utf8(percent_decoded(raw@)),
        r matches Ok(s) ==> s@ == decode_utf8(percent_decoded(raw@)),
        r is Err ==> r == Err::<String, AsgiError>(AsgiError::InvalidUtf8InPath),
{
    let decoded = percent_decode_bytes(raw);
    match utf8_string(decoded) {
        Some(s) => Ok(s),
        None => Err(AsgiError::InvalidUtf8InPath),
    }
}

/// The scheme text, `http` when the request names none.
pub open spec fn scheme_text(scheme: Option<String>) -> Seq<char> {
    match scheme {
        Some(s) => s@,
        None => "http"@,
    }
}

/// What a successful scope holds for a given request head.
pub open spec fn scope_matches(head: RequestHead, s: Scope) -> bool {
    &&& version_text(head.version) matches Some(t) && s.http_version == t
    &&& s.protocol@ == "http"@
    &&& s.asgi_version@ == "2.0"@
    &&& s.spec_version@ == "2.0"@
    &&& s.root_path@ == ""@
    &&& s.method@ == head.method@
    &&& s.scheme@ == scheme_text(head.scheme)
    &&& match head.target {
        Some(t) => {
            &&& s.path@ == decode_utf8(percent_decoded(t.path@))
            &&& s.raw_path@ == t.path@
            &&& s.query_string@ == match t.query {
                Some(q) => q@,
                None => Seq::<u8>::empty(),
            }
        },
        None => {
            &&& s.path@ == Seq::<char>::empty()
            &&& s.raw_path@ == Seq::<u8>::empty()
            &&& s.query_string@ == Seq::<u8>::empty()
        },
    }
    &&& headers_view(s.headers@) == headers_view(head.headers@)
}

/// Builds the connection scope of a request. The version is checked
/// first, then the path; headers pass through in order, duplicates kept.
pub fn build_scope(head: RequestHead) -> (r: Result<Scope, AsgiError>)
    ensures
        version_text(head.version) is None ==> r == Err::<Scope, AsgiError>(
            AsgiError::InvalidHttpVersion,
        ),
        version_text(head.version) is Some && !path_decodes(head) ==> r == Err::<Scope, AsgiError>(
            AsgiError::InvalidUtf8InPath,
        ),
        r is Ok <==> version_text(head.version) is Some && path_decodes(head),
        r matches Ok(s) ==> scope_matches(head, s),
{
    let ghost h = head;
    let RequestHead { version, method, scheme, target, headers } = head;
    let http_version = match http_version_text(version) {
        Ok(t) => t,
        Err(e) => return Err(e),
    };
    let scheme = match scheme {
        Some(s) => s,
        None => "http".to_owned(),
    };
    let (path, raw_path, query_string) = match target {
        Some(t) => {
            let RequestTarget { path: raw, query } = t;
            let path = match decode_path(raw.as_slice()) {
                Ok(p) => p,
                Err(e) => return Err(e),
            };
            let query_string = match query {
                Some(q) => q,
                None => Vec::new(),
            };
            (path, raw, query_string)
        },
        None => (String::new(), Vec::new(), Vec::new()),
    };
    Ok(
        Scope {
            protocol: "http",
            asgi_version: "2.0",
            spec_version: "2.0",
            http_version,
            method,
            scheme,
            path,
            raw_path,
            query_string,
            root_path: "",
            headers,
        },
    )
}

} // verus!
