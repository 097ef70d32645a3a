use vstd::prelude::*;
use vstd::slice::slice_to_vec;
use vstd::string::StringSliceAdditionalSpecFns;

verus! {

/// A header pair as raw bytes: (name, value).
pub type HeaderPair = (Vec<u8>, Vec<u8>);

pub open spec fn pair_view(p: HeaderPair) -> (Seq<u8>, Seq<u8>) {
    (p.0@, p.1@)
}

pub open spec fn headers_view(h: Seq<HeaderPair>) -> Seq<(Seq<u8>, Seq<u8>)> {
    h.map_values(|p: HeaderPair| pair_view(p))
}

/// The response handed back to the transport.
#[derive(Debug)]
pub struct HttpResponse {
    pub status: u16,
    pub headers: Vec<HeaderPair>,
    pub body: Vec<u8>,
}

/// The mathematical content of a response: status, header pairs, body bytes.
pub struct ResponseModel {
    pub status: u16,
    pub headers: Seq<(Seq<u8>, Seq<u8>)>,
    pub body: Seq<u8>,
}

impl View for HttpResponse {
    type V = ResponseModel;

    open spec fn view(&self) -> ResponseModel {
        ResponseModel { status: self.status, headers: headers_view(self.headers@), body: self.body@ }
    }
}

/// Every way in which serving a request can fail.
#[derive(PartialEq, Eq, Structural, Clone, Copy, Debug)]
pub enum AsgiError {
    /// The application, or the receive call it made, raised an error.
    Application,
    InvalidHttpVersion,
    ExpectedResponseStart,
    MissingResponse,
    ExpectedResponseBody,
    FailedToCreateResponse,
    InvalidHeader,
    InvalidUtf8InPath,
}

pub const BAD_REQUEST: u16 = 400;

pub const INTERNAL_SERVER_ERROR: u16 = 500;

/// The status that a failure is reported with.
pub open spec fn error_status(e: AsgiError) -> u16 {
    match e {
        AsgiError::InvalidHttpVersion | AsgiError::InvalidUtf8InPath => BAD_REQUEST,
        _ => INTERNAL_SERVER_ERROR,
    }
}

/// The text that a failure is reported with.
pub open spec fn error_text(e: AsgiError) -> &'static str {
    match e {
        AsgiError::InvalidHttpVersion => "Unsupported HTTP version",
        AsgiError::InvalidUtf8InPath => "Invalid Utf8 in path",
        _ => "Internal Server Error",
    }
}

/// The response that reports a failure.
pub open spec fn error_model(e: AsgiError) -> ResponseModel {
    ResponseModel {
        status: error_status(e),
        headers: Seq::empty(),
        body: error_text(e).spec_bytes(),
    }
}

impl AsgiError {
    /// The status and fixed text that this failure is reported with.
    pub fn status_and_text(self) -> (r: (u16, &'static str))
        ensures
            r.0 == error_status(self),
            r.1 == error_text(self),
    {
        match self {
            AsgiError::InvalidHttpVersion => (BAD_REQUEST, "Unsupported HTTP version"),
            AsgiError::InvalidUtf8InPath => (BAD_REQUEST, "Invalid Utf8 in path"),
            AsgiError::Application
            | AsgiError::ExpectedResponseStart
            | AsgiError::MissingResponse
            | AsgiError::ExpectedResponseBody
            | AsgiError::FailedToCreateResponse
            | AsgiError::InvalidHeader => (INTERNAL_SERVER_ERROR, "Internal Server Error"),
        }
    }

    /// The response that reports this failure: no headers, the fixed text
    /// as body. Never fails.
    pub fn into_response(self) -> (r: HttpResponse)
        ensures
            r@ == error_model(self),
    {
        let (status, text) = self.status_and_text();
        let r = HttpResponse { status, headers: Vec::new(), body: slice_to_vec(text.as_bytes()) };
        assert(r@.headers =~= Seq::<(Seq<u8>, Seq<u8>)>::empty());
        r
    }

    /// Whether the failure is the client's, and may be described to it.
    pub fn is_client_error(self) -> (r: bool)
        ensures
            r == (error_status(self) == BAD_REQUEST),
    {
        matches!(self, AsgiError::InvalidHttpVersion | AsgiError::InvalidUtf8InPath)
    }
}

} // verus!
