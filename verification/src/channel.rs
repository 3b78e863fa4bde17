//! The channel that holds the latest frame of a camera.

use vstd::prelude::*;

use bytes::Bytes;
use tokio::sync::watch;

use crate::frame::content;

verus! {

/// `tokio::sync::watch::Sender`, the sending half of a channel that keeps only
/// the latest value.
#[verifier::external_type_specification]
#[verifier::external_body]
#[verifier::reject_recursive_types(T)]
pub struct ExWatchSender<T>(tokio::sync::watch::Sender<T>);

/// `tokio::sync::watch::Receiver`, a receiving half of such a channel.
#[verifier::external_type_specification]
#[verifier::external_body]
#[verifier::reject_recursive_types(T)]
pub struct ExWatchReceiver<T>(tokio::sync::watch::Receiver<T>);

/// The bytes of the latest value in the channel of a sender.
pub uninterp spec fn latest(sender: tokio::sync::watch::Sender<bytes::Bytes>) -> Seq<u8>;

/// The channel that a sender belongs to.
pub uninterp spec fn sender_channel(sender: tokio::sync::watch::Sender<bytes::Bytes>) -> int;

/// The channel that a receiver belongs to.
pub uninterp spec fn receiver_channel(receiver: tokio::sync::watch::Receiver<bytes::Bytes>) -> int;

/// `watch::channel` makes the two halves of one channel, which holds the
/// initial value.
#[verifier::external_body]
pub(crate) fn open_channel(initial: Bytes) -> (r: (watch::Sender<Bytes>, watch::Receiver<Bytes>))
    ensures
        latest(r.0) == content(initial),
        sender_channel(r.0) == receiver_channel(r.1),
{
    watch::channel(initial)
}

/// `Sender::send` replaces the value in the channel. It fails only where every
/// receiver has been dropped; `kept` is one that has not been. The sender is
/// taken by `&mut`, so that the value changes at this call alone.
#[verifier::external_body]
pub(crate) fn send_latest(
    sender: &mut watch::Sender<Bytes>,
    kept: &watch::Receiver<Bytes>,
    frame: Bytes,
) -> (delivered: bool)
    requires
        sender_channel(*old(sender)) == receiver_channel(*kept),
    ensures
        delivered,
        latest(*final(sender)) == content(frame),
        sender_channel(*final(sender)) == sender_channel(*old(sender)),
{
    sender.send(frame).is_ok()
}

/// `Sender::borrow` gives the latest value, of which a clone shares the bytes.
#[verifier::external_body]
pub(crate) fn borrow_latest(sender: &watch::Sender<Bytes>) -> (r: Bytes)
    ensures
        content(r) == latest(*sender),
{
    sender.borrow().clone()
}

/// `Sender::subscribe` makes another receiver of the same channel.
#[verifier::external_body]
pub(crate) fn subscribe_to(sender: &watch::Sender<Bytes>) -> (r: watch::Receiver<Bytes>)
    ensures
        receiver_channel(r) == sender_channel(*sender),
{
    sender.subscribe()
}

} // verus!
