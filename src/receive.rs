use vstd::prelude::*;
use crate::body::{Body, BodyError, concat, to_bytes};

verus! {

/// What a receive call hands to the application.
#[derive(Debug)]
pub enum ReceiveEvent {
    Request { body: Vec<u8>, more_body: bool },
    Disconnect,
}

/// The outcome of one receive call.
#[derive(Debug)]
pub enum ReceiveOutcome {
    /// An event is ready for the application.
    Ready(ReceiveEvent),
    /// The queued body could not be aggregated; the call fails.
    Failed(BodyError),
}

/// The receive side's state, as plain values.
pub struct ReceiverModel {
    /// The body still queued for delivery, as its frames.
    pub pending: Option<Seq<Seq<u8>>>,
    /// Whether a disconnect has been seen; never reset.
    pub disconnected: bool,
}

/// The model of a receive outcome.
pub enum OutcomeModel {
    Request { body: Seq<u8>, more_body: bool },
    Disconnect,
    Failed,
}

/// Delivers the request body to the application as receive events, and
/// a disconnect once the connection is gone.
pub struct HttpReceiver {
    pending: Option<Body>,
    disconnected: bool,
    limit: usize,
}

/// One receive call on a receiver in state `s`, where `transport_gone` says
/// whether the transport side has ended: the next state and the outcome.
pub open spec fn receive_step(s: ReceiverModel, transport_gone: bool, limit: usize) -> (
    ReceiverModel,
    OutcomeModel,
) {
    if s.disconnected || transport_gone {
        (ReceiverModel { disconnected: true, ..s }, OutcomeModel::Disconnect)
    } else {
        match s.pending {
            Some(frames) => {
                let next = ReceiverModel { pending: None, ..s };
                if concat(frames).len() <= limit {
                    (next, OutcomeModel::Request { body: concat(frames), more_body: false })
                } else {
                    (next, OutcomeModel::Failed)
                }
            },
            None => (ReceiverModel { disconnected: true, ..s }, OutcomeModel::Disconnect),
        }
    }
}

impl ReceiveOutcome {
    pub open spec fn model(&self) -> OutcomeModel {
        match self {
            ReceiveOutcome::Ready(ReceiveEvent::Request { body, more_body }) => OutcomeModel::Request {
                body: body@,
                more_body: *more_body,
            },
            ReceiveOutcome::Ready(ReceiveEvent::Disconnect) => OutcomeModel::Disconnect,
            ReceiveOutcome::Failed(_) => OutcomeModel::Failed,
        }
    }
}

impl HttpReceiver {
    pub closed spec fn model(&self) -> ReceiverModel {
        ReceiverModel {
            pending: match self.pending {
                Some(b) => Some(b@),
                None => None,
            },
            disconnected: self.disconnected,
        }
    }

    pub closed spec fn limit(&self) -> usize {
        self.limit
    }

    /// A receiver seeded with the whole request body, with a limit on the
    /// bytes that one aggregation may hold.
    pub fn new(body: Body, limit: usize) -> (r: HttpReceiver)
        ensures
            r.model() == (ReceiverModel { pending: Some(body@), disconnected: false }),
            r.limit() == limit,
    {
        HttpReceiver { pending: Some(body), disconnected: false, limit }
    }

    /// Whether a disconnect has been delivered or observed.
    pub fn is_disconnected(&self) -> (r: bool)
        ensures
            r == self.model().disconnected,
    {
        self.disconnected
    }

    /// One receive call. `transport_gone` is the shared disconnected flag
    /// as read at the call. The body is delivered whole, as one event with
    /// `more_body` false; afterwards, and once the connection is gone,
    /// every call yields `Disconnect`.
    pub fn receive(&mut self, transport_gone: bool) -> (r: ReceiveOutcome)
        ensures
            (final(self).model(), r.model()) == receive_step(
                old(self).model(),
                transport_gone,
                old(self).limit(),
            ),
            final(self).limit() == old(self).limit(),
            r matches ReceiveOutcome::Failed(e) ==> e == BodyError::LengthLimitExceeded,
    {
        if self.disconnected || transport_gone {
            self.disconnected = true;
            return ReceiveOutcome::Ready(ReceiveEvent::Disconnect);
        }
        match self.pending.take() {
            Some(body) => match to_bytes(body, self.limit) {
                Ok(bytes) => ReceiveOutcome::Ready(ReceiveEvent::Request { body: bytes, more_body: false }),
                Err(e) => ReceiveOutcome::Failed(e),
            },
            None => {
                self.disconnected = true;
                ReceiveOutcome::Ready(ReceiveEvent::Disconnect)
            },
        }
    }
}

} // verus!
