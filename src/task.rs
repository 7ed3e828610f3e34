//! Tasks, result slots and the host-facing task caller.

use vstd::prelude::*;

use tokio::sync::mpsc::UnboundedReceiver;
use tokio::sync::mpsc::UnboundedSender;
use tokio::sync::oneshot;

use crate::channel::enqueue;
use crate::channel::read_slot;
use crate::channel::SlotRead;
use crate::error::BridgeError;
use crate::error::EngineError;

verus! {

/// What a worker writes into a task's result slot.
pub type TaskResult<R> = Result<R, EngineError>;

/// The host's side of the bridge: one-shot readiness descriptors, and the
/// wait on one of them that suspends only the calling logical thread.
pub trait HostNotifier {
    /// A readiness descriptor, alive for one call.
    type Descriptor;
    /// Makes its descriptor ready exactly once, when it is dropped.
    type Signaler;

    /// A fresh descriptor and the signaler bound to it, or `None` where the
    /// host cannot create one.
    fn open_descriptor(&self) -> Option<(Self::Descriptor, Self::Signaler)>;

    /// Returns once the descriptor is ready; `false` where the host reports
    /// a failure instead.
    fn notify(&self, descriptor: &Self::Descriptor) -> bool;
}

/// The background side of one call: the slot to write the result into and
/// the signaler to release once it is written.
#[verifier::reject_recursive_types(R)]
pub struct Reply<R, S> {
    slot: oneshot::Sender<TaskResult<R>>,
    signaler: S,
}

/// How the delivery of a result went.
#[derive(Debug, Clone, Copy, PartialEq, Eq, Structural)]
pub enum Completion {
    /// The result was written while the caller still waited for it.
    Delivered,
    /// The caller had abandoned the call; the result was dropped.
    CallerGone,
}

/// How a delivery went, from what the slot's `send` returned: the result
/// comes back only where the receiving half was gone.
pub fn completion<T>(written: &Result<(), T>) -> (r: Completion)
    ensures
        r == (if written is Ok {
            Completion::Delivered
        } else {
            Completion::CallerGone
        }),
{
    match written {
        Ok(()) => Completion::Delivered,
        Err(_) => Completion::CallerGone,
    }
}

/// Dropping the signaler is what makes the descriptor ready.
fn release<S>(signaler: S) {
}

impl<R, S> Reply<R, S> {
    /// The signaler that completing this reply releases.
    pub closed spec fn signaler_spec(&self) -> S {
        self.signaler
    }

    /// Writes the outcome into the slot, and only then releases the
    /// signaler, whether or not the caller is still there. The answer is the
    /// slot's: the outcome comes back where the caller had gone, which
    /// `completion` reports and which is never fatal.
    pub fn complete(self, outcome: TaskResult<R>) -> (r: Result<(), TaskResult<R>>)
        ensures
            r is Err ==> r->Err_0 == outcome,
    {
        let Reply { slot, signaler } = self;
        let written = slot.send(outcome);
        release(signaler);
        written
    }
}

/// The host side of one call: the descriptor to wait on and the slot to read
/// once it is ready.
#[verifier::reject_recursive_types(R)]
pub struct PendingReply<R, D> {
    slot: oneshot::Receiver<TaskResult<R>>,
    descriptor: D,
}

impl<R, D> PendingReply<R, D> {
    /// The descriptor that waiting on this reply waits on.
    pub closed spec fn descriptor_spec(&self) -> D {
        self.descriptor
    }
}

/// What a call yields once its slot has been read after the signal.
pub open spec fn settled<T>(read: SlotRead<T>) -> Result<T, BridgeError> {
    match read {
        SlotRead::Value(v) => Ok(v),
        SlotRead::Empty => Err(BridgeError::ResultUnavailableAfterSignal),
        SlotRead::Closed => Err(BridgeError::ChannelClosed),
    }
}

/// The result of a call whose descriptor has become ready: the written value;
/// a slot whose writer went away without writing means the task was
/// discarded; an empty slot breaks the signal-after-write protocol.
pub fn settle<T>(read: SlotRead<T>) -> (r: Result<T, BridgeError>)
    ensures
        r == settled(read),
{
    match read {
        SlotRead::Value(v) => Ok(v),
        SlotRead::Empty => Err(BridgeError::ResultUnavailableAfterSignal),
        SlotRead::Closed => Err(BridgeError::ChannelClosed),
    }
}

/// How far a call got: the first step that failed, or what the slot held
/// when it was read after the signal.
pub enum CallProgress<T> {
    /// The host could not create a readiness descriptor; nothing was enqueued.
    NoDescriptor,
    /// The command channel refused the task: its worker loop is gone.
    Refused,
    /// The host notifier reported a failure; the slot was not read.
    NotifierFailed,
    /// The descriptor became ready and the slot was read.
    Read(SlotRead<T>),
}

/// The result of a call that got this far.
pub open spec fn concluded<T>(progress: CallProgress<T>) -> Result<T, BridgeError> {
    match progress {
        CallProgress::NoDescriptor => Err(BridgeError::DescriptorUnavailable),
        CallProgress::Refused => Err(BridgeError::ChannelClosed),
        CallProgress::NotifierFailed => Err(BridgeError::NotifierFailure),
        CallProgress::Read(read) => settled(read),
    }
}

/// The result of a call, from how far it got: each failed step gives its
/// own error, and a completed wait gives what `settle` makes of the slot.
pub fn conclude<T>(progress: CallProgress<T>) -> (r: Result<T, BridgeError>)
    ensures
        r == concluded(progress),
{
    match progress {
        CallProgress::NoDescriptor => Err(BridgeError::DescriptorUnavailable),
        CallProgress::Refused => Err(BridgeError::ChannelClosed),
        CallProgress::NotifierFailed => Err(BridgeError::NotifierFailure),
        CallProgress::Read(read) => settle(read),
    }
}

/// Answers that a call's steps can give together: the slot is read exactly
/// when a descriptor was opened, the task was accepted and the notifier
/// succeeded.
pub open spec fn answered<T>(
    opened: bool,
    accepted: bool,
    notified: bool,
    read: Option<SlotRead<T>>,
) -> bool {
    read is Some <==> (opened && accepted && notified)
}

/// How far a call got, from its steps' answers: the first step that failed,
/// else what the slot held.
pub open spec fn progress_of<T>(
    opened: bool,
    accepted: bool,
    notified: bool,
    read: Option<SlotRead<T>>,
) -> CallProgress<T> {
    if !opened {
        CallProgress::NoDescriptor
    } else if !accepted {
        CallProgress::Refused
    } else if !notified {
        CallProgress::NotifierFailed
    } else {
        CallProgress::Read(read->Some_0)
    }
}

/// The progress of a call, from whether the host opened a descriptor,
/// whether the channel accepted the task, whether the notifier succeeded,
/// and what the slot held where it was read.
pub fn call_progress<T>(opened: bool, accepted: bool, notified: bool, read: Option<SlotRead<T>>) -> (r:
    CallProgress<T>)
    requires
        answered(opened, accepted, notified, read),
    ensures
        r == progress_of(opened, accepted, notified, read),
{
    if !opened {
        CallProgress::NoDescriptor
    } else if !accepted {
        CallProgress::Refused
    } else if !notified {
        CallProgress::NotifierFailed
    } else {
        CallProgress::Read(read.unwrap())
    }
}

/// Pairs what the host handed out for one call with a fresh result slot:
/// the half that the background side completes, holding the signaler, and
/// the half that the host waits on, holding the descriptor. No descriptor
/// means the call cannot be made.
pub fn pair_reply<R, D, S>(opened: Option<(D, S)>) -> (r: Result<
    (Reply<R, S>, PendingReply<R, D>),
    BridgeError,
>)
    ensures
        opened is None <==> r is Err,
        r is Err ==> r->Err_0 == BridgeError::DescriptorUnavailable,
        r matches Ok((reply, pending)) ==> reply.signaler_spec() == opened->Some_0.1
            && pending.descriptor_spec() == opened->Some_0.0,
{
    match opened {
        None => Err(BridgeError::DescriptorUnavailable),
        Some((descriptor, signaler)) => {
            let (slot, receiver) = oneshot::channel();
            Ok((Reply { slot, signaler }, PendingReply { slot: receiver, descriptor }))
        },
    }
}

/// A fresh result slot paired with a fresh readiness descriptor from the
/// host, as `pair_reply` makes them.
pub fn open_reply<R, H: HostNotifier>(host: &H) -> (r: Result<
    (Reply<R, H::Signaler>, PendingReply<R, H::Descriptor>),
    BridgeError,
>)
    ensures
        r is Err ==> r->Err_0 == BridgeError::DescriptorUnavailable,
{
    pair_reply(host.open_descriptor())
}

impl<R, D> PendingReply<R, D> {
    /// Waits through the host notifier, then reads the slot without
    /// blocking: the notifier's answer, and the read where it succeeded.
    fn await_read<H: HostNotifier<Descriptor = D>>(self, host: &H) -> (r: (
        bool,
        Option<SlotRead<TaskResult<R>>>,
    ))
        ensures
            r.1 is Some <==> r.0,
    {
        let PendingReply { mut slot, descriptor } = self;
        if !host.notify(&descriptor) {
            return (false, None);
        }
        (true, Some(read_slot(&mut slot)))
    }

    /// Waits through the host notifier, then reads the slot without blocking.
    /// Whatever the notifier and the slot answer, the result is what
    /// `conclude` makes of them: a failed notifier gives `NotifierFailure`
    /// with the slot unread, a read slot gives what `settle` makes of it.
    pub fn wait<H: HostNotifier<Descriptor = D>>(self, host: &H) -> (r: Result<
        TaskResult<R>,
        BridgeError,
    >)
        ensures
            exists|notified: bool, read: Option<SlotRead<TaskResult<R>>>|
                answered(true, true, notified, read) && r == concluded(
                    #[trigger] progress_of(true, true, notified, read),
                ),
    {
        let (notified, read) = self.await_read(host);
        let r = conclude(call_progress(true, true, notified, read));
        assert(answered(true, true, notified, read) && r == concluded(
            progress_of(true, true, notified, read),
        ));
        r
    }
}

/// One unit of work: a command and the reply that carries its result back.
#[verifier::reject_recursive_types(R)]
pub struct Task<C, R, S> {
    pub command: C,
    pub reply: Reply<R, S>,
}

impl<C, R, S> Task<C, R, S> {
    pub fn new(command: C, reply: Reply<R, S>) -> (r: Task<C, R, S>)
        ensures
            r.command == command,
            r.reply == reply,
    {
        Task { command, reply }
    }

    /// The command to execute, and the reply to complete with its outcome.
    pub fn into_parts(self) -> (r: (C, Reply<R, S>))
        ensures
            r == (self.command, self.reply),
    {
        (self.command, self.reply)
    }
}

/// The receiving end of a resource's command channel, held by its worker loop.
pub type TaskQueueReceiver<C, R, S> = UnboundedReceiver<Task<C, R, S>>;

/// The host-facing handle of one resource: the sending end of its command
/// channel and the host notifier that calls wait through.
#[verifier::reject_recursive_types(C)]
#[verifier::reject_recursive_types(R)]
pub struct TaskCaller<C, R, H: HostNotifier> {
    task_queue: UnboundedSender<Task<C, R, H::Signaler>>,
    notifier: H,
}

impl<C, R, H: HostNotifier> TaskCaller<C, R, H> {
    pub closed spec fn notifier_spec(&self) -> H {
        self.notifier
    }

    /// A caller bound to a fresh command channel, and the receiving end that
    /// the resource's worker loop is to own.
    pub fn new(notifier: H) -> (r: (Self, TaskQueueReceiver<C, R, H::Signaler>))
        ensures
            r.0.notifier_spec() == notifier,
    {
        let (task_queue, receiver) = tokio::sync::mpsc::unbounded_channel();
        (TaskCaller { task_queue, notifier }, receiver)
    }

    /// Submits the command and waits, through the host notifier, for its
    /// result. The task is enqueued only once its descriptor exists, and the
    /// notifier is called only once the task was accepted. Whatever the host,
    /// the channel and the slot answer, the result is what `conclude` makes
    /// of those answers.
    pub fn req_response(&self, command: C) -> (r: Result<TaskResult<R>, BridgeError>)
        ensures
            exists|
                opened: bool,
                accepted: bool,
                notified: bool,
                read: Option<SlotRead<TaskResult<R>>>,
            |
                answered(opened, accepted, notified, read) && r == concluded(
                    #[trigger] progress_of(opened, accepted, notified, read),
                ),
    {
        let (opened, accepted, notified, read) = match open_reply(&self.notifier) {
            Err(_) => (false, false, false, None),
            Ok((reply, pending)) => {
                if enqueue(&self.task_queue, Task::new(command, reply)).is_err() {
                    (true, false, false, None)
                } else {
                    let (notified, read) = pending.await_read(&self.notifier);
                    (true, true, notified, read)
                }
            },
        };
        let r = conclude(call_progress(opened, accepted, notified, read));
        assert(answered(opened, accepted, notified, read) && r == concluded(
            progress_of(opened, accepted, notified, read),
        ));
        r
    }
}

impl<C, R, H: HostNotifier + Clone> TaskCaller<C, R, H> {
    /// A caller for a new resource, bound to a fresh command channel, that
    /// waits through a clone of the other caller's notifier.
    pub fn from_other<OC, OR>(other: &TaskCaller<OC, OR, H>) -> (r: (
        Self,
        TaskQueueReceiver<C, R, H::Signaler>,
    ))
        ensures
            cloned(other.notifier_spec(), r.0.notifier_spec()),
    {
        Self::new(other.notifier.clone())
    }
}

} // verus!
