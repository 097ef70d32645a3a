use vstd::prelude::*;
use crate::body::{BodyError, concat};
use crate::error::{AsgiError, HttpResponse, ResponseModel, error_model, INTERNAL_SERVER_ERROR};
use crate::receive::{OutcomeModel, ReceiverModel, receive_step};
use crate::scope::{RequestHead, Scope, build_scope, path_decodes, scope_matches, version_text};
use crate::send::{
    AssemblyModel, Phase, SendEventModel, assemble_model, headers_ok, initial_model,
    lemma_run_terminal, next_state, run, status_valid,
};

verus! {

/// The first step of serving a request: its scope, or, where the scope
/// cannot be built, the response that reports why. The application is
/// invoked only on `Ok`.
pub fn prepare(head: RequestHead) -> (r: Result<Scope, HttpResponse>)
    ensures
        r is Ok <==> version_text(head.version) is Some && path_decodes(head),
        r matches Ok(s) ==> scope_matches(head, s),
        version_text(head.version) is None ==> (r matches Err(resp) && resp@ == error_model(
            AsgiError::InvalidHttpVersion,
        )),
        version_text(head.version) is Some && !path_decodes(head) ==> (r matches Err(resp)
            && resp@ == error_model(AsgiError::InvalidUtf8InPath)),
{
    match build_scope(head) {
        Ok(s) => Ok(s),
        Err(e) => Err(e.into_response()),
    }
}

impl AsgiError {
    /// A failed body aggregation inside a receive call fails the
    /// application's call, which is reported as an application failure.
    pub fn from_body_error(e: BodyError) -> (r: AsgiError)
        ensures
            r == AsgiError::Application,
    {
        match e {
            BodyError::LengthLimitExceeded => AsgiError::Application,
        }
    }
}

/// The receiver state right after it is seeded with a body.
pub open spec fn seeded(frames: Seq<Seq<u8>>) -> ReceiverModel {
    ReceiverModel { pending: Some(frames), disconnected: false }
}

/// Once the transport side is gone, a receive yields `Disconnect`, and
/// so does every receive after it, whatever the flag then reads.
pub proof fn law_cancel_gives_disconnect(
    s: ReceiverModel,
    limit: usize,
    later_flag: bool,
)
    ensures
        receive_step(s, true, limit).1 == OutcomeModel::Disconnect,
        receive_step(s, true, limit).0.disconnected,
        receive_step(receive_step(s, true, limit).0, later_flag, limit).1
            == OutcomeModel::Disconnect,
{
}

/// After a `Disconnect` has been seen, receive yields `Disconnect` again
/// and leaves the state as it was.
pub proof fn law_disconnect_is_idempotent(s: ReceiverModel, flag: bool, limit: usize)
    requires
        s.disconnected,
    ensures
        receive_step(s, flag, limit) == (s, OutcomeModel::Disconnect),
{
}

/// A body of exactly the limit is delivered whole; one byte more fails the
/// receive call, which is reported with a 500 response.
pub proof fn law_body_limit(frames: Seq<Seq<u8>>, limit: usize)
    ensures
        concat(frames).len() == limit ==> receive_step(seeded(frames), false, limit).1
            == (OutcomeModel::Request { body: concat(frames), more_body: false }),
        concat(frames).len() == limit + 1 ==> receive_step(seeded(frames), false, limit).1
            == OutcomeModel::Failed,
        error_model(AsgiError::Application).status == INTERNAL_SERVER_ERROR,
{
}

/// A body chunk sent before the response start gives the 500 response of
/// `ExpectedResponseStart`, whatever follows: the chunk's bytes appear
/// nowhere in it.
pub proof fn law_body_before_start(body: Seq<u8>, more_body: bool, rest: Seq<SendEventModel>)
    ensures
        assemble_model(seq![SendEventModel::Body { body, more_body }] + rest) == error_model(
            AsgiError::ExpectedResponseStart,
        ),
        error_model(AsgiError::ExpectedResponseStart).status == INTERNAL_SERVER_ERROR,
{
    let events = seq![SendEventModel::Body { body, more_body }] + rest;
    assert(events.drop_first() =~= rest);
    lemma_run_terminal(next_state(initial_model(), events[0]), rest);
}

proof fn lemma_run_keeps_headers(s: AssemblyModel, events: Seq<SendEventModel>)
    requires
        s.phase is StreamingBody || s.phase is Done || s.phase == Phase::Failed(
            AsgiError::ExpectedResponseBody,
        ),
    ensures
        run(s, events).headers == s.headers,
        run(s, events).status == s.status,
        run(s, events).phase is StreamingBody || run(s, events).phase is Done || run(s, events).phase
            == Phase::Failed(AsgiError::ExpectedResponseBody),
    decreases events.len(),
{
    if events.len() > 0 {
        lemma_run_keeps_headers(next_state(s, events[0]), events.drop_first());
    }
}

/// The headers of a valid response start reach the response as sent: same
/// pairs, same order, duplicates included, every byte unchanged. The
/// response carries them unless a later event is not a body chunk.
pub proof fn law_response_headers_kept(
    status: u16,
    headers: Seq<(Seq<u8>, Seq<u8>)>,
    rest: Seq<SendEventModel>,
)
    requires
        headers_ok(headers),
        status_valid(status),
    ensures
        ({
            let r = assemble_model(seq![SendEventModel::Start { status, headers }] + rest);
            r == error_model(AsgiError::ExpectedResponseBody) || (r.status == status && r.headers
                == headers)
        }),
{
    let events = seq![SendEventModel::Start { status, headers }] + rest;
    assert(events.drop_first() =~= rest);
    let s1 = next_state(initial_model(), events[0]);
    lemma_run_keeps_headers(s1, rest);
}

/// Body chunks that announce more body to come.
pub open spec fn chunk_events(chunks: Seq<Seq<u8>>) -> Seq<SendEventModel> {
    chunks.map_values(|c: Seq<u8>| SendEventModel::Body { body: c, more_body: true })
}

proof fn lemma_run_append(s: AssemblyModel, a: Seq<SendEventModel>, b: Seq<SendEventModel>)
    ensures
        run(s, a + b) == run(run(s, a), b),
    decreases a.len(),
{
    if a.len() > 0 {
        assert((a + b).drop_first() =~= a.drop_first() + b);
        assert((a + b)[0] == a[0]);
        lemma_run_append(next_state(s, a[0]), a.drop_first(), b);
    } else {
        assert(a + b =~= b);
    }
}

proof fn lemma_run_chunks(s: AssemblyModel, chunks: Seq<Seq<u8>>)
    requires
        s.phase is StreamingBody,
    ensures
        run(s, chunk_events(chunks)) == (AssemblyModel { body: s.body + concat(chunks), ..s }),
    decreases chunks.len(),
{
    if chunks.len() == 0 {
        assert(chunk_events(chunks) =~= Seq::<SendEventModel>::empty());
        assert(s.body + concat(chunks) =~= s.body);
    } else {
        let init = chunks.drop_last();
        let e = SendEventModel::Body { body: chunks.last(), more_body: true };
        assert(chunk_events(chunks) =~= chunk_events(init) + seq![e]);
        lemma_run_append(s, chunk_events(init), seq![e]);
        lemma_run_chunks(s, init);
        let mid = run(s, chunk_events(init));
        assert(seq![e].drop_first() =~= Seq::<SendEventModel>::empty());
        assert(seq![e][0] == e);
        assert(run(mid, seq![e]) == run(next_state(mid, e), Seq::<SendEventModel>::empty()));
        assert(s.body + concat(init) + chunks.last() =~= s.body + concat(chunks));
        assert(next_state(mid, e) =~= (AssemblyModel { body: s.body + concat(chunks), ..s }));
    }
}

/// After a valid start, body chunks are appended in order while they
/// announce more body; the first chunk that does not ends the body, and
/// whatever follows it is discarded.
pub proof fn law_chunks_concatenated(
    status: u16,
    headers: Seq<(Seq<u8>, Seq<u8>)>,
    chunks: Seq<Seq<u8>>,
    last: Seq<u8>,
    rest: Seq<SendEventModel>,
)
    requires
        headers_ok(headers),
        status_valid(status),
    ensures
        assemble_model(
            seq![SendEventModel::Start { status, headers }] + (chunk_events(chunks) + (seq![
                SendEventModel::Body { body: last, more_body: false },
            ] + rest)),
        ) == (ResponseModel { status, headers, body: concat(chunks) + last }),
{
    let fin = SendEventModel::Body { body: last, more_body: false };
    let tail = seq![fin] + rest;
    let events = seq![SendEventModel::Start { status, headers }] + (chunk_events(chunks) + tail);
    assert(events.drop_first() =~= chunk_events(chunks) + tail);
    let s1 = next_state(initial_model(), events[0]);
    assert(s1.body =~= Seq::<u8>::empty());
    lemma_run_append(s1, chunk_events(chunks), tail);
    lemma_run_chunks(s1, chunks);
    let s2 = run(s1, chunk_events(chunks));
    assert(tail.drop_first() =~= rest);
    assert(s1.body + concat(chunks) =~= concat(chunks));
    lemma_run_terminal(next_state(s2, fin), rest);
}

/// Round trip: a request body received whole and echoed back as one final
/// chunk under status 200 gives a 200 response whose body is that request
/// body.
pub proof fn law_echo_round_trip(frames: Seq<Seq<u8>>, limit: usize)
    requires
        concat(frames).len() <= limit,
    ensures
        receive_step(seeded(frames), false, limit).1 == (OutcomeModel::Request { body: concat(frames), more_body: false }),
        assemble_model(
            seq![
                SendEventModel::Start { status: 200, headers: Seq::empty() },
                SendEventModel::Body { body: concat(frames), more_body: false },
            ],
        ) == (ResponseModel { status: 200, headers: Seq::empty(), body: concat(frames) }),
{
    let b = concat(frames);
    let hs = Seq::<(Seq<u8>, Seq<u8>)>::empty();
    let events = seq![
        SendEventModel::Start { status: 200, headers: hs },
        SendEventModel::Body { body: b, more_body: false },
    ];
    let s1 = next_state(initial_model(), events[0]);
    let s2 = next_state(s1, events[1]);
    assert(s2.body =~= b);
    assert(events.drop_first().drop_first() =~= Seq::<SendEventModel>::empty());
    assert(run(s2, Seq::<SendEventModel>::empty()) == s2);
    assert(run(initial_model(), events) == run(s1, events.drop_first()));
    assert(run(s1, events.drop_first()) == run(s2, events.drop_first().drop_first()));
    assert(s2.phase == Phase::Done);
}

} // verus!
