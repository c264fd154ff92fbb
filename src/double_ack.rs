//! The double-ack handshake: `+ACK` is published with a reply subject, and
//! the acknowledgment counts only once the server answers on it.
//!
//! The handshake runs as a small state machine. `request` names the next call
//! to perform on the client; `on_event` takes what came of it. The inbox is
//! subscribed to before the acknowledgment goes out, so that the server's
//! answer cannot arrive while nobody listens. No timeout is applied: if the
//! server never answers and the subscription stays open, the handshake waits.
use vstd::prelude::*;

use crate::ack_kind::{token, AckKind};
use crate::message::{AckError, Call, Request};

verus! {

/// Where a handshake stands.
pub enum Stage {
    /// A fresh inbox subject is needed.
    NeedInbox,
    /// The subscription to the inbox is being opened.
    Subscribing(String),
    /// `+ACK` is being published with the inbox as reply subject.
    Publishing(String),
    /// Waiting for the server's answer on the inbox.
    Awaiting(String),
    /// The server answered: the acknowledgment is confirmed.
    Confirmed,
    /// The handshake ended without a confirmation.
    Failed(AckError),
}

/// What came of the last call.
pub enum Event {
    /// The client handed out this inbox subject.
    Inbox(String),
    /// The subscription or the publish went through.
    Done,
    /// A message arrived on the inbox.
    Received,
    /// The subscription ended with no message.
    Closed,
    /// The call failed.
    TransportFailed,
}

/// A `Stage` over subjects.
pub enum Phase {
    NeedInbox,
    Subscribing(Seq<char>),
    Publishing(Seq<char>),
    Awaiting(Seq<char>),
    Confirmed,
    Failed(AckError),
}

/// An `Event` over subjects.
pub enum Signal {
    Inbox(Seq<char>),
    Done,
    Received,
    Closed,
    TransportFailed,
}

impl View for Stage {
    type V = Phase;

    open spec fn view(&self) -> Phase {
        match self {
            Stage::NeedInbox => Phase::NeedInbox,
            Stage::Subscribing(i) => Phase::Subscribing(i@),
            Stage::Publishing(i) => Phase::Publishing(i@),
            Stage::Awaiting(i) => Phase::Awaiting(i@),
            Stage::Confirmed => Phase::Confirmed,
            Stage::Failed(e) => Phase::Failed(*e),
        }
    }
}

impl View for Event {
    type V = Signal;

    open spec fn view(&self) -> Signal {
        match self {
            Event::Inbox(i) => Signal::Inbox(i@),
            Event::Done => Signal::Done,
            Event::Received => Signal::Received,
            Event::Closed => Signal::Closed,
            Event::TransportFailed => Signal::TransportFailed,
        }
    }
}

/// The call that phase `p` of a handshake for reply subject `reply` asks
/// for; none once it has ended.
pub open spec fn phase_call(reply: Seq<char>, p: Phase) -> Option<Call> {
    match p {
        Phase::NeedInbox => Some(Call::NewInbox),
        Phase::Subscribing(i) => Some(Call::Subscribe(i)),
        Phase::Publishing(i) => Some(Call::PublishWithReply(reply, i, token(AckKind::Ack))),
        Phase::Awaiting(_) => Some(Call::NextMessage),
        Phase::Confirmed => None,
        Phase::Failed(_) => None,
    }
}

/// The phase that follows `p` on signal `s`. A signal that does not answer
/// the phase's call leaves it as it is; an ended handshake stays ended.
pub open spec fn next_phase(p: Phase, s: Signal) -> Phase {
    match (p, s) {
        (Phase::Confirmed, _) => p,
        (Phase::Failed(_), _) => p,
        (_, Signal::TransportFailed) => Phase::Failed(AckError::Transport),
        (Phase::NeedInbox, Signal::Inbox(i)) => Phase::Subscribing(i),
        (Phase::Subscribing(i), Signal::Done) => Phase::Publishing(i),
        (Phase::Publishing(i), Signal::Done) => Phase::Awaiting(i),
        (Phase::Awaiting(_), Signal::Received) => Phase::Confirmed,
        (Phase::Awaiting(_), Signal::Closed) => Phase::Failed(AckError::ConfirmationLost),
        _ => p,
    }
}

/// How the handshake ended, once it has.
pub open spec fn phase_outcome(p: Phase) -> Option<Result<(), AckError>> {
    match p {
        Phase::Confirmed => Some(Ok(())),
        Phase::Failed(e) => Some(Err(e)),
        _ => None,
    }
}

/// A double-ack handshake for one message.
pub struct DoubleAck {
    /// The message's reply subject, where `+ACK` goes.
    pub reply: String,
    pub stage: Stage,
}

impl DoubleAck {
    /// A handshake for a message with reply subject `reply`, before any call.
    pub fn new(reply: String) -> (r: DoubleAck)
        ensures
            r.reply@ == reply@,
            r.stage@ == Phase::NeedInbox,
    {
        DoubleAck { reply, stage: Stage::NeedInbox }
    }

    /// The call to perform next, or `None` once the handshake has ended.
    pub fn request(&self) -> (r: Option<Request>)
        ensures
            match r {
                Some(q) => phase_call(self.reply@, self.stage@) == Some(q@),
                None => phase_call(self.reply@, self.stage@) is None,
            },
    {
        match &self.stage {
            Stage::NeedInbox => Some(Request::NewInbox),
            Stage::Subscribing(i) => Some(Request::Subscribe { subject: i.clone() }),
            Stage::Publishing(i) => Some(
                Request::PublishWithReply {
                    subject: self.reply.clone(),
                    reply: i.clone(),
                    payload: AckKind::Ack.to_bytes(),
                },
            ),
            Stage::Awaiting(_) => Some(Request::NextMessage),
            Stage::Confirmed => None,
            Stage::Failed(_) => None,
        }
    }

    /// Takes what came of the last call.
    pub fn on_event(&mut self, e: Event)
        ensures
            final(self).reply == old(self).reply,
            final(self).stage@ == next_phase(old(self).stage@, e@),
    {
        let next = match (&self.stage, e) {
            (Stage::Confirmed, _) => Stage::Confirmed,
            (Stage::Failed(f), _) => Stage::Failed(*f),
            (_, Event::TransportFailed) => Stage::Failed(AckError::Transport),
            (Stage::NeedInbox, Event::Inbox(i)) => Stage::Subscribing(i),
            (Stage::Subscribing(i), Event::Done) => Stage::Publishing(i.clone()),
            (Stage::Publishing(i), Event::Done) => Stage::Awaiting(i.clone()),
            (Stage::Awaiting(_), Event::Received) => Stage::Confirmed,
            (Stage::Awaiting(_), Event::Closed) => Stage::Failed(AckError::ConfirmationLost),
            _ => {
                return;
            },
        };
        self.stage = next;
    }

    /// How the handshake ended, or `None` while it runs.
    pub fn outcome(&self) -> (r: Option<Result<(), AckError>>)
        ensures
            r == phase_outcome(self.stage@),
    {
        match &self.stage {
            Stage::Confirmed => Some(Ok(())),
            Stage::Failed(e) => Some(Err(*e)),
            _ => None,
        }
    }
}

/// The inbox a phase is bound to, if any.
pub open spec fn inbox_of(p: Phase) -> Option<Seq<char>> {
    match p {
        Phase::Subscribing(i) => Some(i),
        Phase::Publishing(i) => Some(i),
        Phase::Awaiting(i) => Some(i),
        _ => None,
    }
}

/// A handshake for reply subject `r` that is handed inbox `i` asks, in this
/// order, for a new inbox, a subscription to `i`, `+ACK` published to `r`
/// with reply subject `i`, and the next message on `i`. A message there
/// confirms the acknowledgment; a subscription that ends without one fails
/// it with `ConfirmationLost`.
pub proof fn lemma_handshake_trace(r: Seq<char>, i: Seq<char>)
    ensures
        phase_call(r, Phase::NeedInbox) == Some(Call::NewInbox),
        next_phase(Phase::NeedInbox, Signal::Inbox(i)) == Phase::Subscribing(i),
        phase_call(r, Phase::Subscribing(i)) == Some(Call::Subscribe(i)),
        next_phase(Phase::Subscribing(i), Signal::Done) == Phase::Publishing(i),
        phase_call(r, Phase::Publishing(i)) == Some(
            Call::PublishWithReply(r, i, seq![43u8, 65, 67, 75]),  // +ACK
        ),
        next_phase(Phase::Publishing(i), Signal::Done) == Phase::Awaiting(i),
        phase_call(r, Phase::Awaiting(i)) == Some(Call::NextMessage),
        phase_outcome(next_phase(Phase::Awaiting(i), Signal::Received)) == Some(
            Ok::<(), AckError>(()),
        ),
        phase_outcome(next_phase(Phase::Awaiting(i), Signal::Closed)) == Some(
            Err::<(), AckError>(AckError::ConfirmationLost),
        ),
{
    assert(token(AckKind::Ack) =~= seq![43u8, 65, 67, 75]);
}

/// From any phase, on any signal: the handshake moves to publishing the
/// acknowledgment only once the subscription to the same inbox went through,
/// and it asks for an inbox only at the start, never again.
pub proof fn lemma_subscribe_before_publish(p: Phase, s: Signal)
    ensures
        next_phase(p, s) is Publishing && next_phase(p, s) != p ==> p is Subscribing && s is Done
            && inbox_of(next_phase(p, s)) == inbox_of(p),
        next_phase(p, s) is NeedInbox ==> p is NeedInbox,
{
}

/// A handshake keeps the inbox it was handed: it subscribes to, publishes
/// with, and waits on that subject and no other.
pub proof fn lemma_inbox_kept(p: Phase, s: Signal)
    ensures
        p is NeedInbox && s is Inbox ==> inbox_of(next_phase(p, s)) == Some(s->Inbox_0),
        inbox_of(p) is Some && inbox_of(next_phase(p, s)) is Some ==> inbox_of(next_phase(p, s))
            == inbox_of(p),
{
}

} // verus!
