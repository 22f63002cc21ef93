//! The outbound channel of a session.
//!
//! A session hands its messages to the sending half of an unbounded
//! multi-producer, single-consumer channel; the transport layer owns the
//! receiving half and delivers what arrives there, in order.

use actix_cloud::tokio::sync::mpsc::UnboundedSender;
use vstd::prelude::*;

use crate::payload::Payload;

verus! {

/// The sending half of an unbounded channel. Verus carries values of this
/// type through without looking inside.
#[verifier::external_type_specification]
#[verifier::external_body]
#[verifier::reject_recursive_types(T)]
pub struct ExUnboundedSender<T>(UnboundedSender<T>);

/// Calls `UnboundedSender::send` and reports whether the channel took the
/// message.
///
/// The call never blocks. It refuses the message when the receiving half has
/// been closed or dropped, which depends on what the transport layer has done
/// so far; nothing is therefore claimed about the answer. A message that was
/// taken is delivered behind all that were taken before it.
#[verifier::external_body]
pub(crate) fn offer(channel: &UnboundedSender<Payload>, payload: Payload) -> (accepted: bool) {
    channel.send(payload).is_ok()
}

} // verus!
