//! The acknowledgment decisions and their wire tokens.
use vstd::prelude::*;

use bytes::Bytes;

use crate::wire::{bytes_from_vec, bytes_view};

verus! {

/// The kinds of response used for acknowledging a processed message.
#[derive(Debug, Clone, Copy, PartialEq, Eq, Structural)]
pub enum AckKind {
    /// The message was completely handled.
    Ack,
    /// The message will not be processed now; the server retries it.
    Nak,
    /// Work is ongoing: the ack-wait period is extended by one more period.
    Progress,
    /// The message was handled, and the next one is requested on the same
    /// reply subject (pull mode only).
    Next,
    /// Redelivery stops without the message counting as processed.
    Term,
}

/// The exact payload that carries decision `k` on the wire.
pub open spec fn token(k: AckKind) -> Seq<u8> {
    match k {
        AckKind::Ack => seq![43u8, 65, 67, 75],  // +ACK
        AckKind::Nak => seq![45u8, 78, 65, 75],  // -NAK
        AckKind::Progress => seq![43u8, 87, 80, 73],  // +WPI
        AckKind::Next => seq![43u8, 78, 88, 84],  // +NXT
        AckKind::Term => seq![43u8, 84, 69, 82, 77],  // +TERM
    }
}

/// Distinct decisions never share a wire token.
pub proof fn lemma_token_injective(a: AckKind, b: AckKind)
    ensures
        token(a) == token(b) ==> a == b,
{
    if token(a) == token(b) {
        assert(token(a).len() == token(b).len());
        assert(token(a)[0] == token(b)[0]);
        assert(token(a)[1] == token(b)[1]);
    }
}

impl AckKind {
    /// The wire token of this decision.
    pub fn encode(&self) -> (r: Vec<u8>)
        ensures
            r@ == token(*self),
    {
        let r = match self {
            AckKind::Ack => vec![43, 65, 67, 75],  // +ACK
            AckKind::Nak => vec![45, 78, 65, 75],  // -NAK
            AckKind::Progress => vec![43, 87, 80, 73],  // +WPI
            AckKind::Next => vec![43, 78, 88, 84],  // +NXT
            AckKind::Term => vec![43, 84, 69, 82, 77],  // +TERM
        };
        assert(r@ =~= token(*self));
        r
    }

    /// The wire token of this decision, as a payload ready to publish.
    pub fn to_bytes(self) -> (r: Bytes)
        ensures
            bytes_view(r) == token(self),
    {
        bytes_from_vec(self.encode())
    }
}

} // verus!
