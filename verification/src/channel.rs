//! The in-process queues that connect a UDP listener with the HTTP side.
//!
//! They are `async_channel` channels, shared between tasks that run at the
//! same time: what a receiver hands out depends on what other tasks have sent
//! and taken in the meantime, so nothing here names their contents.

use vstd::prelude::*;

verus! {

#[verifier::external_type_specification]
#[verifier::external_body]
#[verifier::reject_recursive_types(T)]
pub struct ExReceiver<T>(async_channel::Receiver<T>);

/// Calls `async_channel::Receiver::try_recv`: the next queued message, or
/// `None` where the channel is empty (open or closed); the `TryRecvError`
/// becomes `None`. Which message comes out depends on the other tasks that
/// share the channel, so nothing is claimed of it.
#[verifier::external_body]
pub(crate) fn channel_try_recv(receiver: &async_channel::Receiver<String>) -> (res: Option<String>) {
    receiver.try_recv().ok()
}

/// Calls `async_channel::Receiver::len`: how many messages the channel holds
/// at this moment. That depends on the other tasks that share the channel, so
/// nothing is claimed of it.
#[verifier::external_body]
pub(crate) fn channel_len(receiver: &async_channel::Receiver<String>) -> (res: usize) {
    receiver.len()
}

} // verus!
