//! The channels of tokio that carry tasks to a worker loop and results back
//! to the caller.

use vstd::prelude::*;

use tokio::sync::mpsc::UnboundedReceiver;
use tokio::sync::mpsc::UnboundedSender;
use tokio::sync::oneshot;

verus! {

#[verifier::external_type_specification]
#[verifier::external_body]
#[verifier::reject_recursive_types(T)]
pub struct ExOneshotSender<T>(oneshot::Sender<T>);

#[verifier::external_type_specification]
#[verifier::external_body]
#[verifier::reject_recursive_types(T)]
pub struct ExOneshotReceiver<T>(oneshot::Receiver<T>);

#[verifier::external_type_specification]
#[verifier::external_body]
pub struct ExRecvError(oneshot::error::RecvError);

#[verifier::external_type_specification]
#[verifier::external_body]
#[verifier::reject_recursive_types(T)]
pub struct ExUnboundedSender<T>(UnboundedSender<T>);

#[verifier::external_type_specification]
#[verifier::external_body]
#[verifier::reject_recursive_types(T)]
pub struct ExUnboundedReceiver<T>(UnboundedReceiver<T>);

/// A fresh one-shot result slot: its sending and its receiving half.
pub assume_specification<T>[ tokio::sync::oneshot::channel::<T> ]() -> (oneshot::Sender<T>, oneshot::Receiver<T>);

/// A fresh unbounded FIFO queue: its first sending half and its receiving half.
pub assume_specification<T>[ tokio::sync::mpsc::unbounded_channel::<T> ]() -> (UnboundedSender<T>, UnboundedReceiver<T>);

/// tokio's `oneshot::Sender::send` hands the value back when the receiving
/// half is gone, and reports success otherwise.
pub assume_specification<T>[ oneshot::Sender::<T>::send ](slot: oneshot::Sender<T>, t: T) -> (r: Result<(), T>)
    ensures
        r is Err ==> r->Err_0 == t,
;

/// What a non-blocking read of a one-shot slot saw.
pub enum SlotRead<T> {
    /// The value that had been written.
    Value(T),
    /// Nothing has been written yet and the writer still exists.
    Empty,
    /// The writer was dropped without writing, or the value was already taken.
    Closed,
}

/// Relies on tokio's `oneshot::Receiver::try_recv`: the value if one was
/// sent, otherwise whether the sending half is still alive.
#[verifier::external_body]
pub(crate) fn read_slot<T>(slot: &mut oneshot::Receiver<T>) -> (r: SlotRead<T>) {
    match slot.try_recv() {
        Ok(value) => SlotRead::Value(value),
        Err(oneshot::error::TryRecvError::Empty) => SlotRead::Empty,
        Err(oneshot::error::TryRecvError::Closed) => SlotRead::Closed,
    }
}

/// Relies on tokio's `UnboundedSender::send`: the item joins the queue
/// without waiting, unless the receiving half is gone, in which case the item
/// comes back in the error.
#[verifier::external_body]
pub(crate) fn enqueue<T>(queue: &UnboundedSender<T>, item: T) -> (r: Result<(), T>)
    ensures
        r is Err ==> r->Err_0 == item,
{
    queue.send(item).map_err(|e| e.0)
}

} // verus!
