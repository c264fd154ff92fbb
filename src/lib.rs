//! Acknowledgment of messages delivered by a persistent stream consumer.
//!
//! A delivered message is acknowledged by publishing one of a small set of
//! wire tokens to the reply subject the server attached to it. This crate
//! holds the token encoding, the JetStream context a message is bound to,
//! and the decisions each acknowledgment operation makes; performing the
//! network calls is left to the caller.
mod ack_kind;
mod context;
mod double_ack;
mod message;
mod wire;

pub use ack_kind::{token, lemma_token_injective, AckKind};
pub use context::{domain_prefix, new, with_domain, with_prefix, Context};
pub use double_ack::{
    inbox_of, lemma_handshake_trace, lemma_inbox_kept, lemma_subscribe_before_publish, next_phase,
    phase_call, phase_outcome, DoubleAck, Event, Phase, Signal, Stage,
};
pub use message::{
    ack_call, double_ack_start, lemma_ack_publishes_ack, lemma_no_reply_not_acknowledgeable,
    lemma_term_publishes_term, reply_of, AckError, Call, Envelope, Message, Request,
};
pub use wire::bytes_view;
