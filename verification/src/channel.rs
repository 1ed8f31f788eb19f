//! Contracts for the bounded channel of the `futures` crate through which
//! body parts travel from the producer to the transport.
//!
//! What the channel answers depends on what the receiving side has done, so
//! none of these contracts promises an outcome.

use vstd::prelude::*;

verus! {

/// `mpsc::Sender`: the sending end of a bounded channel. Nothing is known of it.
#[verifier::external_type_specification]
#[verifier::external_body]
#[verifier::reject_recursive_types(T)]
pub struct ExSender<T>(futures::channel::mpsc::Sender<T>);

/// `mpsc::Receiver`: the receiving end of a bounded channel. Nothing is known of it.
#[verifier::external_type_specification]
#[verifier::external_body]
#[verifier::reject_recursive_types(T)]
pub struct ExReceiver<T>(futures::channel::mpsc::Receiver<T>);

/// `mpsc::SendError`: why the channel refused an item. Nothing is known of it.
#[verifier::external_type_specification]
#[verifier::external_body]
pub struct ExSendError(futures::channel::mpsc::SendError);

/// `core::task::Context`: the handle through which a waiting task is woken.
#[verifier::external_type_specification]
#[verifier::external_body]
pub struct ExContext<'a>(core::task::Context<'a>);

/// `mpsc::channel` creates a bounded channel and hands out its two ends. It
/// panics on a buffer size of a quarter of `usize::MAX` or more.
pub assume_specification<T>[ futures::channel::mpsc::channel::<T> ](buffer: usize) -> (ends: (
    futures::channel::mpsc::Sender<T>,
    futures::channel::mpsc::Receiver<T>,
))
    requires
        buffer < usize::MAX / 4,
;

/// `Sender::start_send` hands one item to the channel. It is accepted or
/// refused; which of the two depends on the receiving side.
pub assume_specification<T>[ futures::channel::mpsc::Sender::<T>::start_send ](
    sender: &mut futures::channel::mpsc::Sender<T>,
    msg: T,
) -> (r: Result<(), futures::channel::mpsc::SendError>)
;

/// Whether a send error says that the receiver is gone.
pub uninterp spec fn send_error_disconnected(e: futures::channel::mpsc::SendError) -> bool;

/// `SendError::is_disconnected` tells whether the send failed because the
/// receiver is gone, which is a matter of the error alone.
pub assume_specification[ futures::channel::mpsc::SendError::is_disconnected ](
    e: &futures::channel::mpsc::SendError,
) -> (r: bool)
    ensures
        r == send_error_disconnected(*e),
;

} // verus!
