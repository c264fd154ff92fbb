//! Delivered messages and the decisions behind acknowledging them.
//!
//! Acknowledging is a conversation with the server. The functions here decide
//! which network call comes next and what its outcome means; the caller
//! performs each call on the context's client and reports back.
use vstd::prelude::*;

use bytes::Bytes;

use crate::ack_kind::{token, AckKind};
use crate::context::Context;
use crate::double_ack::{DoubleAck, Phase};
use crate::wire::bytes_view;

verus! {

/// A message as received from the server.
pub struct Envelope {
    pub subject: String,
    /// The subject the server expects acknowledgments on; set on every
    /// message that a JetStream consumer delivers.
    pub reply: Option<String>,
    pub payload: Bytes,
}

/// A message delivered by a JetStream consumer, bound to its context.
pub struct Message<C> {
    pub message: Envelope,
    pub context: Context<C>,
}

/// Why an acknowledgment did not go through.
#[derive(Debug, Clone, Copy, PartialEq, Eq, Structural)]
pub enum AckError {
    /// The message has no reply subject, so it cannot be acknowledged.
    NotAcknowledgeable,
    /// A call on the client failed.
    Transport,
    /// The confirmation subscription ended before any reply arrived.
    ConfirmationLost,
}

/// A call that the caller performs on the context's client.
pub enum Request {
    /// Obtain a fresh, unique inbox subject.
    NewInbox,
    /// Subscribe to `subject`.
    Subscribe { subject: String },
    /// Publish `payload` to `subject`, with no reply subject.
    Publish { subject: String, payload: Bytes },
    /// Publish `payload` to `subject`, asking for replies on `reply`.
    PublishWithReply { subject: String, reply: String, payload: Bytes },
    /// Wait for the next message on the open subscription.
    NextMessage,
}

/// What a `Request` asks for, over subjects and payload bytes.
pub enum Call {
    NewInbox,
    Subscribe(Seq<char>),
    Publish(Seq<char>, Seq<u8>),
    PublishWithReply(Seq<char>, Seq<char>, Seq<u8>),
    NextMessage,
}

impl View for Request {
    type V = Call;

    open spec fn view(&self) -> Call {
        match self {
            Request::NewInbox => Call::NewInbox,
            Request::Subscribe { subject } => Call::Subscribe(subject@),
            Request::Publish { subject, payload } => Call::Publish(subject@, bytes_view(*payload)),
            Request::PublishWithReply { subject, reply, payload } => Call::PublishWithReply(
                subject@,
                reply@,
                bytes_view(*payload),
            ),
            Request::NextMessage => Call::NextMessage,
        }
    }
}

/// The reply subject of a message, if it has one.
pub open spec fn reply_of(m: Envelope) -> Option<Seq<char>> {
    match m.reply {
        Some(s) => Some(s@),
        None => None,
    }
}

/// The single call that acknowledges a message with reply subject `reply`
/// by decision `kind`: a plain publish of the decision's token.
pub open spec fn ack_call(reply: Option<Seq<char>>, kind: AckKind) -> Result<Call, AckError> {
    match reply {
        Some(r) => Ok(Call::Publish(r, token(kind))),
        None => Err(AckError::NotAcknowledgeable),
    }
}

/// How a double-ack handshake for a message with reply subject `reply`
/// starts: from its first phase, with `+ACK` bound for `reply`.
pub open spec fn double_ack_start(reply: Option<Seq<char>>) -> Result<(Seq<char>, Phase), AckError> {
    match reply {
        Some(r) => Ok((r, Phase::NeedInbox)),
        None => Err(AckError::NotAcknowledgeable),
    }
}

/// A message without a reply subject cannot be acknowledged: every
/// acknowledgment operation fails with `NotAcknowledgeable` and asks for no
/// call on the client.
pub proof fn lemma_no_reply_not_acknowledgeable(kind: AckKind)
    ensures
        ack_call(None, kind) == Err::<Call, AckError>(AckError::NotAcknowledgeable),
        double_ack_start(None) == Err::<(Seq<char>, Phase), AckError>(
            AckError::NotAcknowledgeable,
        ),
{
}

/// Acknowledging a message with reply subject `r` is one plain publish of
/// `+ACK` to `r`, and nothing else.
pub proof fn lemma_ack_publishes_ack(r: Seq<char>)
    ensures
        ack_call(Some(r), AckKind::Ack) == Ok::<Call, AckError>(Call::Publish(r, seq![43u8, 65, 67, 75])),  // +ACK
{
    assert(token(AckKind::Ack) =~= seq![43u8, 65, 67, 75]);
}

/// Terminating a message with reply subject `r` is one plain publish of
/// `+TERM` to `r`.
pub proof fn lemma_term_publishes_term(r: Seq<char>)
    ensures
        ack_call(Some(r), AckKind::Term) == Ok::<Call, AckError>(Call::Publish(r, seq![43u8, 84, 69, 82, 77])),  // +TERM
{
    assert(token(AckKind::Term) =~= seq![43u8, 84, 69, 82, 77]);
}

fn publish_token(reply: &Option<String>, kind: AckKind) -> (r: Result<Request, AckError>)
    ensures
        match r {
            Ok(q) => ack_call(
                match reply {
                    Some(s) => Some(s@),
                    None => None,
                },
                kind,
            ) == Ok::<Call, AckError>(q@),
            Err(e) => reply is None && e == AckError::NotAcknowledgeable,
        },
{
    match reply {
        Some(s) => Ok(Request::Publish { subject: s.clone(), payload: kind.to_bytes() }),
        None => Err(AckError::NotAcknowledgeable),
    }
}

impl<C> Message<C> {
    /// Acknowledges the message: the call that publishes `+ACK` to its reply
    /// subject. Fire and forget: success of that publish means only that the
    /// client accepted it for sending.
    pub fn ack(&self) -> (r: Result<Request, AckError>)
        ensures
            match r {
                Ok(q) => ack_call(reply_of(self.message), AckKind::Ack) == Ok::<Call, AckError>(q@),
                Err(e) => ack_call(reply_of(self.message), AckKind::Ack) == Err::<Call, AckError>(e),
            },
    {
        publish_token(&self.message.reply, AckKind::Ack)
    }

    /// Acknowledges the message by decision `kind`: the call that publishes
    /// the decision's token to its reply subject.
    pub fn ack_with(&self, kind: AckKind) -> (r: Result<Request, AckError>)
        ensures
            match r {
                Ok(q) => ack_call(reply_of(self.message), kind) == Ok::<Call, AckError>(q@),
                Err(e) => ack_call(reply_of(self.message), kind) == Err::<Call, AckError>(e),
            },
    {
        publish_token(&self.message.reply, kind)
    }

    /// Acknowledges the message and asks the server to confirm it: the
    /// handshake to run, or `NotAcknowledgeable` before any call.
    pub fn double_ack(&self) -> (r: Result<DoubleAck, AckError>)
        ensures
            match r {
                Ok(d) => double_ack_start(reply_of(self.message)) == Ok::<(Seq<char>, Phase), AckError>(
                    (d.reply@, d.stage@),
                ),
                Err(e) => double_ack_start(reply_of(self.message)) == Err::<(Seq<char>, Phase), AckError>(e),
            },
    {
        match &self.message.reply {
            Some(s) => Ok(DoubleAck::new(s.clone())),
            None => Err(AckError::NotAcknowledgeable),
        }
    }

    /// The message, without its context.
    pub fn into_envelope(self) -> (r: Envelope)
        ensures
            r == self.message,
    {
        self.message
    }
}

} // verus!
