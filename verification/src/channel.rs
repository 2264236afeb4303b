//! The bounded hand-off primitive the forwarders send into.
//!
//! The bridge does not create channels: the embedding application picks the
//! capacity, builds the channel, keeps the receiving half for its consumer,
//! and hands each forwarder a clone of the sending half. Senders may be used
//! concurrently from any number of in-flight calls; the channel's own
//! synchronisation suffices. Closing is terminal: once the consumer side is
//! gone, every subsequent send fails immediately.

use vstd::prelude::*;

verus! {

/// The sending half of a bounded hand-off channel, shared by every in-flight
/// export call.
#[verifier::external_type_specification]
#[verifier::external_body]
#[verifier::reject_recursive_types(T)]
pub struct ExSender<T>(async_channel::Sender<T>);

/// Relies on async_channel::Sender::send_blocking: the message is delivered
/// unless the channel is closed, in which case the message itself comes back
/// inside the error. While the channel is full the call blocks until room is
/// made or the channel closes, matching the hand-off's backpressure
/// contract.
#[verifier::external_body]
pub(crate) fn send_blocking_to<T>(sender: &async_channel::Sender<T>, message: T) -> (r: Result<
    (),
    T,
>)
    ensures
        r matches Err(m) ==> m == message,
{
    sender.send_blocking(message).map_err(|e| e.into_inner())
}

} // verus!
