//! One request/response exchange, from opening a fresh stream to handing the
//! response back, as a state machine. The caller performs each action (open a
//! stream, write the request, read the response) and reports its outcome as
//! the next event; the machine decides what comes next.
use crate::error::{ClientErrorKind, Error};
use parsec_interface::requests::ResponseStatus;
use vstd::prelude::*;

verus! {

/// Where an exchange stands.
#[derive(Debug, Clone, Copy, PartialEq, Eq, Structural)]
pub enum Phase {
    /// Nothing has happened yet.
    Idle,
    /// A fresh stream is being opened.
    Connecting,
    /// The stream is open and the request is being written.
    Connected,
    /// The request was written and the response is being read.
    Exchanging,
    /// The response was accepted.
    Done,
    /// The exchange failed; the stream, if any, is to be dropped.
    Failed,
}

/// What the caller reports back to the exchange.
#[derive(Debug)]
pub enum Event {
    /// The caller is ready to start.
    Begin,
    /// A fresh stream was opened, with the timeout applied to both directions.
    Connected,
    /// Opening the stream failed.
    ConnectFailed(std::io::Error),
    /// The request was written to the stream.
    Written,
    /// The codec could not write the request; whatever the cause, this is a
    /// protocol failure of the exchange.
    WriteFailed(ResponseStatus),
    /// A response frame within the body limit was read and parsed; this is
    /// the opcode in its header.
    ResponseRead(u32),
    /// The codec could not make a response out of what it read, for a reason
    /// of its own, such as a malformed frame or a body over the limit.
    ReadFailed(ResponseStatus),
    /// Reading the response failed in the transport: the peer did not answer
    /// within the timeout, or the stream was reset.
    ReadTransportFailed(std::io::Error),
}

/// What the exchange asks of the caller.
#[derive(Debug)]
pub enum Action {
    /// Open a new stream through the handler.
    Connect,
    /// Write the request to the stream.
    WriteRequest,
    /// Read a response, refusing one whose body is over `limit` bytes.
    ReadResponse {
        /// The largest body the caller may accept.
        limit: usize,
    },
    /// Hand the response that was read to the user, unchanged.
    Deliver,
    /// Drop the stream and return this error to the user.
    Fail(Error),
    /// The event does not fit the phase: nothing to do.
    Ignore,
}

/// The next phase and the action that `event` brings about in `phase`, for a
/// request with opcode `request_opcode` and a body limit of `max_body_size`.
pub open spec fn transition(phase: Phase, request_opcode: u32, max_body_size: usize, event: Event) -> (
    Phase,
    Action,
) {
    match (phase, event) {
        (Phase::Idle, Event::Begin) => (Phase::Connecting, Action::Connect),
        (Phase::Connecting, Event::Connected) => (Phase::Connected, Action::WriteRequest),
        (Phase::Connecting, Event::ConnectFailed(e)) => (
            Phase::Failed,
            Action::Fail(Error::Client(ClientErrorKind::Ipc(e))),
        ),
        (Phase::Connected, Event::Written) => (
            Phase::Exchanging,
            Action::ReadResponse { limit: max_body_size },
        ),
        (Phase::Connected, Event::WriteFailed(s)) => (
            Phase::Failed,
            Action::Fail(Error::Client(ClientErrorKind::Interface(s))),
        ),
        (Phase::Exchanging, Event::ResponseRead(opcode)) => if opcode != request_opcode {
            (Phase::Failed, Action::Fail(Error::Client(ClientErrorKind::InvalidServiceResponseType)))
        } else {
            (Phase::Done, Action::Deliver)
        },
        (Phase::Exchanging, Event::ReadFailed(s)) => (
            Phase::Failed,
            Action::Fail(Error::Client(ClientErrorKind::Interface(s))),
        ),
        (Phase::Exchanging, Event::ReadTransportFailed(e)) => (
            Phase::Failed,
            Action::Fail(Error::Client(ClientErrorKind::Ipc(e))),
        ),
        (p, _) => (p, Action::Ignore),
    }
}

/// The state of one exchange.
#[derive(Debug)]
pub struct Exchange {
    phase: Phase,
    request_opcode: u32,
    max_body_size: usize,
}

impl Exchange {
    /// Where the exchange stands.
    pub closed spec fn spec_phase(&self) -> Phase {
        self.phase
    }

    /// The opcode of the request being sent.
    pub closed spec fn spec_request_opcode(&self) -> u32 {
        self.request_opcode
    }

    /// The largest response body that is accepted.
    pub closed spec fn spec_max_body_size(&self) -> usize {
        self.max_body_size
    }

    /// Start an exchange for a request with opcode `request_opcode`.
    pub fn new(request_opcode: u32, max_body_size: usize) -> (r: Exchange)
        ensures
            r.spec_phase() == Phase::Idle,
            r.spec_request_opcode() == request_opcode,
            r.spec_max_body_size() == max_body_size,
    {
        Exchange { phase: Phase::Idle, request_opcode, max_body_size }
    }

    /// Where the exchange stands.
    pub fn phase(&self) -> (r: Phase)
        ensures
            r == self.spec_phase(),
    {
        self.phase
    }

    /// Take in the outcome of the last action and say what to do next.
    pub fn step(&mut self, event: Event) -> (a: Action)
        ensures
            (final(self).spec_phase(), a) == transition(
                old(self).spec_phase(),
                old(self).spec_request_opcode(),
                old(self).spec_max_body_size(),
                event,
            ),
            final(self).spec_request_opcode() == old(self).spec_request_opcode(),
            final(self).spec_max_body_size() == old(self).spec_max_body_size(),
    {
        let (phase, action) = match (self.phase, event) {
            (Phase::Idle, Event::Begin) => (Phase::Connecting, Action::Connect),
            (Phase::Connecting, Event::Connected) => (Phase::Connected, Action::WriteRequest),
            (Phase::Connecting, Event::ConnectFailed(e)) => (
                Phase::Failed,
                Action::Fail(Error::Client(ClientErrorKind::Ipc(e))),
            ),
            (Phase::Connected, Event::Written) => (
                Phase::Exchanging,
                Action::ReadResponse { limit: self.max_body_size },
            ),
            (Phase::Connected, Event::WriteFailed(s)) => (
                Phase::Failed,
                Action::Fail(Error::Client(ClientErrorKind::Interface(s))),
            ),
            (Phase::Exchanging, Event::ResponseRead(opcode)) => {
                if opcode != self.request_opcode {
                    (
                        Phase::Failed,
                        Action::Fail(Error::Client(ClientErrorKind::InvalidServiceResponseType)),
                    )
                } else {
                    (Phase::Done, Action::Deliver)
                }
            },
            (Phase::Exchanging, Event::ReadFailed(s)) => (
                Phase::Failed,
                Action::Fail(Error::Client(ClientErrorKind::Interface(s))),
            ),
            (Phase::Exchanging, Event::ReadTransportFailed(e)) => (
                Phase::Failed,
                Action::Fail(Error::Client(ClientErrorKind::Ipc(e))),
            ),
            (p, _) => (p, Action::Ignore),
        };
        self.phase = phase;
        action
    }
}

/// Every exchange opens its own stream: the only action that opens one is the
/// first answer of an idle exchange, and a finished exchange, done or failed,
/// asks for nothing more. Two requests therefore never share a stream, and the
/// failure of one leaves the next untouched.
pub proof fn lemma_fresh_stream_per_exchange(
    phase: Phase,
    request_opcode: u32,
    max_body_size: usize,
    event: Event,
)
    ensures
        transition(Phase::Idle, request_opcode, max_body_size, Event::Begin) == (
            Phase::Connecting,
            Action::Connect,
        ),
        transition(phase, request_opcode, max_body_size, event).1 is Connect ==> phase
            == Phase::Idle,
        (phase == Phase::Done || phase == Phase::Failed) ==> transition(
            phase,
            request_opcode,
            max_body_size,
            event,
        ) == (phase, Action::Ignore),
{
}

/// The response is read under exactly the client's body limit, and a read that
/// the codec refuses for a reason of its own (an oversized body among others)
/// fails the exchange with an interface error carrying the codec's status;
/// nothing is delivered then.
pub proof fn lemma_body_limit_enforced(
    phase: Phase,
    request_opcode: u32,
    max_body_size: usize,
    event: Event,
    status: ResponseStatus,
)
    ensures
        transition(phase, request_opcode, max_body_size, event).1 is ReadResponse
            ==> transition(phase, request_opcode, max_body_size, event).1 == (Action::ReadResponse {
            limit: max_body_size,
        }),
        transition(Phase::Exchanging, request_opcode, max_body_size, Event::ReadFailed(status))
            == (Phase::Failed, Action::Fail(Error::Client(ClientErrorKind::Interface(status)))),
{
}

/// A response is delivered only when it was read while exchanging and its
/// opcode is the request's; a parsed response with another opcode fails the
/// exchange with `InvalidServiceResponseType`.
pub proof fn lemma_opcode_must_match(
    phase: Phase,
    request_opcode: u32,
    max_body_size: usize,
    event: Event,
    response_opcode: u32,
)
    ensures
        transition(phase, request_opcode, max_body_size, event).1 is Deliver ==> phase
            == Phase::Exchanging && event == Event::ResponseRead(request_opcode),
        response_opcode != request_opcode ==> transition(
            Phase::Exchanging,
            request_opcode,
            max_body_size,
            Event::ResponseRead(response_opcode),
        ) == (Phase::Failed, Action::Fail(Error::Client(ClientErrorKind::InvalidServiceResponseType))),
{
}

/// A stream that cannot be opened, because the peer refuses or does not answer,
/// and a peer that accepts the connection but does not answer within the
/// timeout, fail the exchange with a transport error carrying the system's
/// error; a request that cannot be written fails it with an interface error
/// carrying the codec's status.
pub proof fn lemma_failure_kinds(
    request_opcode: u32,
    max_body_size: usize,
    error: std::io::Error,
    status: ResponseStatus,
)
    ensures
        transition(Phase::Connecting, request_opcode, max_body_size, Event::ConnectFailed(error))
            == (Phase::Failed, Action::Fail(Error::Client(ClientErrorKind::Ipc(error)))),
        transition(Phase::Connected, request_opcode, max_body_size, Event::WriteFailed(status))
            == (Phase::Failed, Action::Fail(Error::Client(ClientErrorKind::Interface(status)))),
        transition(
            Phase::Exchanging,
            request_opcode,
            max_body_size,
            Event::ReadTransportFailed(error),
        ) == (Phase::Failed, Action::Fail(Error::Client(ClientErrorKind::Ipc(error)))),
{
}

} // verus!
