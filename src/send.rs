use vstd::prelude::*;
use crate::error::{AsgiError, HeaderPair, HttpResponse, ResponseModel, error_model, headers_view};

verus! {

/// What the application sends.
#[derive(Debug)]
pub enum SendEvent {
    ResponseStart { status: u16, headers: Vec<HeaderPair> },
    ResponseBody { body: Vec<u8>, more_body: bool },
    /// An event of another type, or one whose fields could not be read.
    Invalid,
}

/// The model of a send event.
pub enum SendEventModel {
    Start { status: u16, headers: Seq<(Seq<u8>, Seq<u8>)> },
    Body { body: Seq<u8>, more_body: bool },
    Invalid,
}

impl SendEvent {
    pub open spec fn model(&self) -> SendEventModel {
        match self {
            SendEvent::ResponseStart { status, headers } => SendEventModel::Start {
                status: *status,
                headers: headers_view(headers@),
            },
            SendEvent::ResponseBody { body, more_body } => SendEventModel::Body {
                body: body@,
                more_body: *more_body,
            },
            SendEvent::Invalid => SendEventModel::Invalid,
        }
    }
}

/// One field of an event as the application wrote it.
#[derive(Debug)]
pub enum Field<T> {
    Absent,
    Present(T),
    /// Present, but not of the type the protocol gives it.
    Malformed,
}

/// The fields of a send event as the application wrote them.
#[derive(Debug)]
pub struct RawSendEvent {
    pub kind: Field<String>,
    pub status: Field<u16>,
    pub headers: Field<Vec<HeaderPair>>,
    pub body: Field<Vec<u8>>,
    pub more_body: Field<bool>,
}

/// The event that raw fields make up. A start needs its status; absent
/// headers are none, an absent body is empty, an absent `more_body` is
/// false. An unknown type, or a malformed field that the type reads, makes
/// the event invalid.
pub open spec fn raw_event_model(raw: RawSendEvent) -> SendEventModel {
    match raw.kind {
        Field::Present(k) => if k@ == "http.response.start"@ {
            match (raw.status, raw.headers) {
                (Field::Present(status), Field::Present(h)) => SendEventModel::Start {
                    status,
                    headers: headers_view(h@),
                },
                (Field::Present(status), Field::Absent) => SendEventModel::Start {
                    status,
                    headers: Seq::empty(),
                },
                _ => SendEventModel::Invalid,
            }
        } else if k@ == "http.response.body"@ {
            match (raw.body, raw.more_body) {
                (Field::Malformed, _) | (_, Field::Malformed) => SendEventModel::Invalid,
                (b, m) => SendEventModel::Body {
                    body: match b {
                        Field::Present(v) => v@,
                        _ => Seq::empty(),
                    },
                    more_body: match m {
                        Field::Present(v) => v,
                        _ => false,
                    },
                },
            }
        } else {
            SendEventModel::Invalid
        },
        _ => SendEventModel::Invalid,
    }
}

impl SendEvent {
    /// Reads a send event from its raw fields.
    pub fn from_raw(raw: RawSendEvent) -> (r: SendEvent)
        ensures
            r.model() == raw_event_model(raw),
    {
        let RawSendEvent { kind, status, headers, body, more_body } = raw;
        let kind = match kind {
            Field::Present(k) => k,
            _ => return SendEvent::Invalid,
        };
        let start_kind = "http.response.start".to_owned();
        let body_kind = "http.response.body".to_owned();
        if kind == start_kind {
            let status = match status {
                Field::Present(s) => s,
                _ => return SendEvent::Invalid,
            };
            let headers = match headers {
                Field::Present(h) => h,
                Field::Absent => {
                    let h: Vec<HeaderPair> = Vec::new();
                    assert(headers_view(h@) =~= Seq::<(Seq<u8>, Seq<u8>)>::empty());
                    h
                },
                Field::Malformed => return SendEvent::Invalid,
            };
            SendEvent::ResponseStart { status, headers }
        } else if kind == body_kind {
            let body = match body {
                Field::Present(b) => b,
                Field::Absent => Vec::new(),
                Field::Malformed => return SendEvent::Invalid,
            };
            let more_body = match more_body {
                Field::Present(m) => m,
                Field::Absent => false,
                Field::Malformed => return SendEvent::Invalid,
            };
            SendEvent::ResponseBody { body, more_body }
        } else {
            SendEvent::Invalid
        }
    }
}

pub open spec fn events_model(events: Seq<SendEvent>) -> Seq<SendEventModel> {
    events.map_values(|e: SendEvent| e.model())
}

/// How a byte of a header name is kept: token characters as they are,
/// capitals as lower case; any other byte is refused.
pub open spec fn header_char(b: u8) -> Option<u8> {
    if 65 <= b <= 90 {
        Some((b + 32) as u8)
    } else if (97 <= b <= 122) || (48 <= b <= 57) || b == 33 || (35 <= b <= 39) || b == 42
        || b == 43 || b == 45 || b == 46 || b == 94 || b == 95 || b == 96 || b == 124 || b == 126 {
        Some(b)
    } else {
        None
    }
}

/// The longest header name that can be built.
pub const MAX_HEADER_NAME_LEN: usize = 65535;

/// A valid header name: 1 to 65535 token characters.
pub open spec fn header_name_valid(b: Seq<u8>) -> bool {
    &&& 1 <= b.len() <= MAX_HEADER_NAME_LEN
    &&& forall|i: int| 0 <= i < b.len() ==> (#[trigger] header_char(b[i])) is Some
}

/// Relies on http::HeaderName::from_bytes: a name of 1 to 65535 bytes, each
/// a token character, is accepted; any other input is refused.
#[verifier::external_body]
fn header_name_accepted(b: &[u8]) -> (r: bool)
    ensures
        r == header_name_valid(b@),
{
    http::HeaderName::from_bytes(b).is_ok()
}

/// A header value may hold tab and every byte from 32 up, but 127.
pub open spec fn header_value_valid(v: Seq<u8>) -> bool {
    forall|i: int| 0 <= i < v.len() ==> ((#[trigger] v[i] >= 32 && v[i] != 127) || v[i] == 9)
}

/// Relies on http::HeaderValue::from_bytes: accepts exactly the bytes that
/// `header_value_valid` allows.
#[verifier::external_body]
fn header_value_accepted(b: &[u8]) -> (r: bool)
    ensures
        r == header_value_valid(b@),
{
    http::HeaderValue::from_bytes(b).is_ok()
}

/// A status code can be built from 100 through 999.
pub open spec fn status_valid(s: u16) -> bool {
    100 <= s <= 999
}

/// Relies on http::StatusCode::from_u16: succeeds exactly from 100 through 999.
#[verifier::external_body]
fn status_code_valid(s: u16) -> (r: bool)
    ensures
        r == status_valid(s),
{
    http::StatusCode::from_u16(s).is_ok()
}

pub open spec fn header_ok(p: (Seq<u8>, Seq<u8>)) -> bool {
    header_name_valid(p.0) && header_value_valid(p.1)
}

pub open spec fn headers_ok(hs: Seq<(Seq<u8>, Seq<u8>)>) -> bool {
    forall|i: int| 0 <= i < hs.len() ==> header_ok(#[trigger] hs[i])
}

/// Checks every header of a response start, in order: each name must be a
/// valid header name and each value a valid header value.
pub fn validate_headers(headers: &Vec<HeaderPair>) -> (r: bool)
    ensures
        r == headers_ok(headers_view(headers@)),
{
    let ghost hv = headers_view(headers@);
    let mut i: usize = 0;
    while i < headers.len()
        invariant
            hv == headers_view(headers@),
            i <= headers@.len(),
            forall|j: int| 0 <= j < i ==> header_ok(#[trigger] hv[j]),
        decreases headers@.len() - i,
    {
        let name_ok = header_name_accepted(headers[i].0.as_slice());
        let value_ok = header_value_accepted(headers[i].1.as_slice());
        if !(name_ok && value_ok) {
            assert(!header_ok(hv[i as int]));
            return false;
        }
        i = i + 1;
    }
    true
}

/// Where the assembly of a response stands.
#[derive(PartialEq, Eq, Structural, Clone, Copy, Debug)]
pub enum Phase {
    AwaitingStart,
    StreamingBody,
    Done,
    Failed(AsgiError),
}

/// The assembler's state, as plain values.
pub struct AssemblyModel {
    pub phase: Phase,
    pub status: u16,
    pub headers: Seq<(Seq<u8>, Seq<u8>)>,
    pub body: Seq<u8>,
}

pub open spec fn initial_model() -> AssemblyModel {
    AssemblyModel { phase: Phase::AwaitingStart, status: 0, headers: Seq::empty(), body: Seq::empty() }
}

pub open spec fn is_terminal(s: AssemblyModel) -> bool {
    s.phase is Done || s.phase is Failed
}

/// One send event taken in: a start must come first, then body chunks
/// until one says no more body follows. Once done or failed, events are
/// ignored.
pub open spec fn next_state(s: AssemblyModel, e: SendEventModel) -> AssemblyModel {
    match s.phase {
        Phase::AwaitingStart => match e {
            SendEventModel::Start { status, headers } => if headers_ok(headers) {
                AssemblyModel {
                    phase: Phase::StreamingBody,
                    status,
                    headers,
                    body: Seq::empty(),
                }
            } else {
                AssemblyModel { phase: Phase::Failed(AsgiError::InvalidHeader), ..s }
            },
            _ => AssemblyModel { phase: Phase::Failed(AsgiError::ExpectedResponseStart), ..s },
        },
        Phase::StreamingBody => match e {
            SendEventModel::Body { body, more_body } => AssemblyModel {
                phase: if more_body {
                    Phase::StreamingBody
                } else {
                    Phase::Done
                },
                body: s.body + body,
                ..s
            },
            _ => AssemblyModel { phase: Phase::Failed(AsgiError::ExpectedResponseBody), ..s },
        },
        _ => s,
    }
}

/// The events taken in one after another.
pub open spec fn run(s: AssemblyModel, events: Seq<SendEventModel>) -> AssemblyModel
    decreases events.len(),
{
    if events.len() == 0 {
        s
    } else {
        run(next_state(s, events[0]), events.drop_first())
    }
}

/// The response for the state in which assembly stopped, either because it
/// finished or because the channel closed. A closed channel while streaming
/// ends the body.
pub open spec fn finish_model(s: AssemblyModel) -> ResponseModel {
    match s.phase {
        Phase::AwaitingStart => error_model(AsgiError::MissingResponse),
        Phase::Failed(e) => error_model(e),
        _ => if status_valid(s.status) {
            ResponseModel { status: s.status, headers: s.headers, body: s.body }
        } else {
            error_model(AsgiError::FailedToCreateResponse)
        },
    }
}

/// The response that a channel yielding `events` and then closing gives.
pub open spec fn assemble_model(events: Seq<SendEventModel>) -> ResponseModel {
    finish_model(run(initial_model(), events))
}

pub proof fn lemma_run_terminal(s: AssemblyModel, events: Seq<SendEventModel>)
    requires
        is_terminal(s),
    ensures
        run(s, events) == s,
    decreases events.len(),
{
    if events.len() > 0 {
        lemma_run_terminal(s, events.drop_first());
    }
}

/// Reassembles the application's send events into one response.
pub struct ResponseAssembler {
    phase: Phase,
    status: u16,
    headers: Vec<HeaderPair>,
    body: Vec<u8>,
}

impl ResponseAssembler {
    pub closed spec fn model(&self) -> AssemblyModel {
        AssemblyModel {
            phase: self.phase,
            status: self.status,
            headers: headers_view(self.headers@),
            body: self.body@,
        }
    }

    /// An assembler waiting for the response start.
    pub fn new() -> (r: ResponseAssembler)
        ensures
            r.model() == initial_model(),
    {
        let r = ResponseAssembler {
            phase: Phase::AwaitingStart,
            status: 0,
            headers: Vec::new(),
            body: Vec::new(),
        };
        assert(r.model().headers =~= Seq::<(Seq<u8>, Seq<u8>)>::empty());
        assert(r.model().body =~= Seq::<u8>::empty());
        r
    }

    /// Takes in one event; returns whether assembly has stopped, so that no
    /// further events need be read.
    pub fn on_event(&mut self, event: SendEvent) -> (stop: bool)
        ensures
            final(self).model() == next_state(old(self).model(), event.model()),
            stop == is_terminal(final(self).model()),
    {
        match self.phase {
            Phase::AwaitingStart => match event {
                SendEvent::ResponseStart { status, headers } => {
                    if validate_headers(&headers) {
                        self.phase = Phase::StreamingBody;
                        self.status = status;
                        self.headers = headers;
                        self.body = Vec::new();
                        assert(self.model().body =~= Seq::<u8>::empty());
                    } else {
                        self.phase = Phase::Failed(AsgiError::InvalidHeader);
                    }
                },
                _ => {
                    self.phase = Phase::Failed(AsgiError::ExpectedResponseStart);
                },
            },
            Phase::StreamingBody => match event {
                SendEvent::ResponseBody { body, more_body } => {
                    let mut body = body;
                    self.body.append(&mut body);
                    if !more_body {
                        self.phase = Phase::Done;
                    }
                },
                _ => {
                    self.phase = Phase::Failed(AsgiError::ExpectedResponseBody);
                },
            },
            _ => {},
        }
        match self.phase {
            Phase::Done | Phase::Failed(_) => true,
            _ => false,
        }
    }

    /// The response, once assembly stopped or the channel closed.
    pub fn finish(self) -> (r: HttpResponse)
        ensures
            r@ == finish_model(self.model()),
    {
        match self.phase {
            Phase::AwaitingStart => AsgiError::MissingResponse.into_response(),
            Phase::Failed(e) => e.into_response(),
            _ => {
                if status_code_valid(self.status) {
                    HttpResponse { status: self.status, headers: self.headers, body: self.body }
                } else {
                    AsgiError::FailedToCreateResponse.into_response()
                }
            },
        }
    }
}

/// Assembles the response from everything the application sent before the
/// channel closed. Events after the last body chunk are discarded.
pub fn assemble(events: Vec<SendEvent>) -> (r: HttpResponse)
    ensures
        r@ == assemble_model(events_model(events@)),
{
    let ghost all = events_model(events@);
    let mut events = events;
    let mut assembler = ResponseAssembler::new();
    while events.len() > 0
        invariant
            run(assembler.model(), events_model(events@)) == run(initial_model(), all),
        ensures
            assembler.model() == run(initial_model(), all),
        decreases events@.len(),
    {
        let ghost before = events_model(events@);
        let event = events.remove(0);
        assert(events_model(events@) =~= before.drop_first());
        let stop = assembler.on_event(event);
        if stop {
            proof {
                lemma_run_terminal(assembler.model(), events_model(events@));
            }
            break;
        }
    }
    assembler.finish()
}

} // verus!
