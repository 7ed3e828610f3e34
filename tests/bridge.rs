use std::cell::Cell;
use std::cell::RefCell;
use std::collections::VecDeque;
use std::rc::Rc;

use no_asyncio_nats::error::BridgeError;
use no_asyncio_nats::error::EngineError;
use no_asyncio_nats::task::open_reply;
use no_asyncio_nats::task::Completion;
use no_asyncio_nats::task::HostNotifier;
use no_asyncio_nats::task::Reply;
use no_asyncio_nats::task::TaskCaller;
use no_asyncio_nats::task::TaskQueueReceiver;
use no_asyncio_nats::worker::step;
use no_asyncio_nats::worker::WorkerAction;
use no_asyncio_nats::worker::WorkerEvent;
use no_asyncio_nats::worker::WorkerState;

#[derive(Debug, Clone, PartialEq)]
enum Cmd {
    Publish { subject: String, payload: String, reply: Option<String>, headers: Option<Vec<(String, String)>> },
    Subscribe(String),
    RecvMsg,
    Fail,
}

#[derive(Debug, Clone, PartialEq)]
enum Resp {
    NoResponse,
    Subscribed(String),
    Message(Option<String>),
}

type Event = WorkerEvent<Cmd, Reply<Resp, Signaler>, Result<Resp, EngineError>>;

/// A descriptor: its pending count.
type Descriptor = Rc<Cell<u64>>;

/// Adds one to its descriptor's count when dropped.
struct Signaler(Rc<Cell<u64>>);

impl Drop for Signaler {
    fn drop(&mut self) {
        self.0.set(self.0.get() + 1);
    }
}

enum Resource {
    Client,
    Subscription(Rc<RefCell<VecDeque<String>>>),
}

struct Worker {
    queue: TaskQueueReceiver<Cmd, Resp, Signaler>,
    resource: Resource,
    executed: Rc<RefCell<Vec<Cmd>>>,
    completions: Rc<RefCell<Vec<Completion>>>,
}

#[derive(PartialEq)]
enum Mode {
    /// The notifier runs the workers until the descriptor is ready.
    Drive,
    /// The notifier fails at once, leaving the task queued.
    Refuse,
    /// The worker drops the task it took without completing it.
    DropTask,
    /// The notifier returns at once, before the descriptor is ready.
    Premature,
}

struct Inner {
    workers: RefCell<Vec<Worker>>,
    subscriptions: RefCell<Vec<(String, Rc<RefCell<VecDeque<String>>>)>>,
    mode: RefCell<Mode>,
    opened: Cell<u64>,
}

#[derive(Clone)]
struct LoopbackHost(Rc<Inner>);

impl LoopbackHost {
    fn new(mode: Mode) -> Self {
        LoopbackHost(Rc::new(Inner {
            workers: RefCell::new(Vec::new()),
            subscriptions: RefCell::new(Vec::new()),
            mode: RefCell::new(mode),
            opened: Cell::new(0),
        }))
    }

    fn attach(&self, queue: TaskQueueReceiver<Cmd, Resp, Signaler>, resource: Resource) -> (Rc<RefCell<Vec<Cmd>>>, Rc<RefCell<Vec<Completion>>>) {
        let executed = Rc::new(RefCell::new(Vec::new()));
        let completions = Rc::new(RefCell::new(Vec::new()));
        self.0.workers.borrow_mut().push(Worker { queue, resource, executed: executed.clone(), completions: completions.clone() });
        (executed, completions)
    }

    fn set_mode(&self, mode: Mode) {
        *self.0.mode.borrow_mut() = mode;
    }

    fn execute(&self, resource: &Resource, cmd: Cmd) -> Result<Resp, EngineError> {
        match (resource, cmd) {
            (Resource::Client, Cmd::Publish { subject, payload, .. }) => {
                for (s, q) in self.0.subscriptions.borrow().iter() {
                    if *s == subject {
                        q.borrow_mut().push_back(payload.clone());
                    }
                }
                Ok(Resp::NoResponse)
            }
            (Resource::Client, Cmd::Subscribe(subject)) => {
                self.0.subscriptions.borrow_mut().push((subject.clone(), Rc::new(RefCell::new(VecDeque::new()))));
                Ok(Resp::Subscribed(subject))
            }
            (Resource::Subscription(q), Cmd::RecvMsg) => Ok(Resp::Message(q.borrow_mut().pop_front())),
            _ => Err(EngineError::new("unsupported".to_string())),
        }
    }

    /// Runs one task of the worker through the worker's state machine;
    /// `false` where its queue held none.
    fn run_one(&self, index: usize) -> bool {
        let taken = self.0.workers.borrow_mut()[index].queue.try_recv();
        let Ok(task) = taken else {
            return false;
        };
        if *self.0.mode.borrow() == Mode::DropTask {
            drop(task);
            return true;
        }
        let (command, reply) = task.into_parts();
        let (state, action) = step(WorkerState::Idle, Event::Dequeued(command, reply));
        let WorkerAction::Execute(command) = action else { panic!("expected Execute") };
        let outcome = {
            let workers = self.0.workers.borrow();
            let w = &workers[index];
            w.executed.borrow_mut().push(command.clone());
            let resource = match &w.resource {
                Resource::Client => Resource::Client,
                Resource::Subscription(q) => Resource::Subscription(q.clone()),
            };
            drop(workers);
            self.execute(&resource, command)
        };
        let (state, action) = step(state, Event::Finished(outcome));
        assert!(matches!(state, WorkerState::Idle));
        let WorkerAction::Deliver(reply, outcome) = action else { panic!("expected Deliver") };
        let completion: Completion = no_asyncio_nats::task::completion(&Reply::complete(reply, outcome));
        self.0.workers.borrow()[index].completions.borrow_mut().push(completion);
        true
    }

    fn drain(&self) {
        loop {
            let n = self.0.workers.borrow().len();
            let mut any = false;
            for i in 0..n {
                any |= self.run_one(i);
            }
            if !any {
                break;
            }
        }
    }
}

impl HostNotifier for LoopbackHost {
    type Descriptor = Descriptor;
    type Signaler = Signaler;

    fn open_descriptor(&self) -> Option<(Descriptor, Signaler)> {
        self.0.opened.set(self.0.opened.get() + 1);
        let d = Rc::new(Cell::new(0));
        Some((d.clone(), Signaler(d)))
    }

    fn notify(&self, descriptor: &Descriptor) -> bool {
        if *self.0.mode.borrow() == Mode::Refuse {
            return false;
        }
        if *self.0.mode.borrow() == Mode::Premature {
            return true;
        }
        while descriptor.get() == 0 {
            let n = self.0.workers.borrow().len();
            let mut any = false;
            for i in 0..n {
                any |= self.run_one(i);
                if descriptor.get() > 0 {
                    break;
                }
            }
            if !any {
                break;
            }
        }
        descriptor.get() > 0
    }
}

fn publish(subject: &str, payload: &str) -> Cmd {
    Cmd::Publish { subject: subject.to_string(), payload: payload.to_string(), reply: None, headers: None }
}

fn client(host: &LoopbackHost) -> (TaskCaller<Cmd, Resp, LoopbackHost>, Rc<RefCell<Vec<Cmd>>>, Rc<RefCell<Vec<Completion>>>) {
    let (caller, queue) = TaskCaller::new(host.clone());
    let (executed, completions) = host.attach(queue, Resource::Client);
    (caller, executed, completions)
}

#[test]
fn publish_without_reply_or_headers_is_one_round_trip() {
    let host = LoopbackHost::new(Mode::Drive);
    let (caller, executed, completions) = client(&host);
    let r = caller.req_response(publish("foo", "hello"));
    assert_eq!(r, Ok(Ok(Resp::NoResponse)));
    assert_eq!(*executed.borrow(), vec![publish("foo", "hello")]);
    assert_eq!(*completions.borrow(), vec![Completion::Delivered]);
    assert_eq!(host.0.opened.get(), 1);
}

#[test]
fn subscription_receives_messages_in_publish_order() {
    let host = LoopbackHost::new(Mode::Drive);
    let (caller, _, _) = client(&host);
    let r = caller.req_response(Cmd::Subscribe("foo".to_string()));
    assert_eq!(r, Ok(Ok(Resp::Subscribed("foo".to_string()))));
    let (sub, queue): (TaskCaller<Cmd, Resp, LoopbackHost>, _) = TaskCaller::from_other(&caller);
    let inbox = host.0.subscriptions.borrow()[0].1.clone();
    host.attach(queue, Resource::Subscription(inbox));
    assert_eq!(caller.req_response(publish("foo", "first")), Ok(Ok(Resp::NoResponse)));
    assert_eq!(caller.req_response(publish("foo", "second")), Ok(Ok(Resp::NoResponse)));
    assert_eq!(sub.req_response(Cmd::RecvMsg), Ok(Ok(Resp::Message(Some("first".to_string())))));
    assert_eq!(sub.req_response(Cmd::RecvMsg), Ok(Ok(Resp::Message(Some("second".to_string())))));
    assert_eq!(sub.req_response(Cmd::RecvMsg), Ok(Ok(Resp::Message(None))));
}

#[test]
fn abandoned_call_still_executes_without_harm() {
    let host = LoopbackHost::new(Mode::Refuse);
    let (caller, executed, completions) = client(&host);
    assert_eq!(caller.req_response(publish("foo", "late")), Err(BridgeError::NotifierFailure));
    drop(caller);
    host.set_mode(Mode::Drive);
    host.drain();
    assert_eq!(*executed.borrow(), vec![publish("foo", "late")]);
    assert_eq!(*completions.borrow(), vec![Completion::CallerGone]);
    // The channel then reports no more senders: the loop leaves.
    let closed = host.0.workers.borrow_mut()[0].queue.try_recv();
    assert!(matches!(closed, Err(tokio::sync::mpsc::error::TryRecvError::Disconnected)));
    let (state, action) = step::<Cmd, Reply<Resp, Signaler>, Result<Resp, EngineError>>(WorkerState::Idle, WorkerEvent::Closed);
    assert!(matches!(state, WorkerState::Terminated));
    assert!(matches!(action, WorkerAction::Exit));
}

#[test]
fn commands_execute_in_enqueue_order() {
    let host = LoopbackHost::new(Mode::Refuse);
    let (caller, executed, _) = client(&host);
    let second = TaskCaller::<Cmd, Resp, LoopbackHost>::from_other(&caller);
    drop(second);
    let cmds: Vec<Cmd> = (0..5).map(|i| publish("s", &format!("m{i}"))).collect();
    for c in &cmds {
        assert_eq!(caller.req_response(c.clone()), Err(BridgeError::NotifierFailure));
    }
    host.set_mode(Mode::Drive);
    host.drain();
    assert_eq!(*executed.borrow(), cmds);
}

#[test]
fn engine_error_is_surfaced_verbatim() {
    let host = LoopbackHost::new(Mode::Drive);
    let (caller, _, _) = client(&host);
    let r = caller.req_response(Cmd::Fail);
    assert_eq!(r, Ok(Err(EngineError::new("unsupported".to_string()))));
}

#[test]
fn dropped_task_still_releases_its_signaler() {
    let host = LoopbackHost::new(Mode::DropTask);
    let (caller, executed, _) = client(&host);
    let r = caller.req_response(publish("foo", "x"));
    assert_eq!(r, Err(BridgeError::ChannelClosed));
    assert!(executed.borrow().is_empty());
}

#[test]
fn closed_channel_refuses_submission() {
    let host = LoopbackHost::new(Mode::Drive);
    let (caller, queue) = TaskCaller::<Cmd, Resp, LoopbackHost>::new(host.clone());
    drop(queue);
    assert_eq!(caller.req_response(publish("foo", "x")), Err(BridgeError::ChannelClosed));
}

#[test]
fn sub_resource_outlives_its_parent_handle() {
    let host = LoopbackHost::new(Mode::Drive);
    let (caller, _, _) = client(&host);
    let (sub, queue) = TaskCaller::<Cmd, Resp, LoopbackHost>::from_other(&caller);
    let inbox = Rc::new(RefCell::new(VecDeque::from(vec!["kept".to_string()])));
    let (executed, _) = host.attach(queue, Resource::Subscription(inbox));
    drop(caller);
    assert_eq!(sub.req_response(Cmd::RecvMsg), Ok(Ok(Resp::Message(Some("kept".to_string())))));
    assert_eq!(*executed.borrow(), vec![Cmd::RecvMsg]);
}

struct NoDescriptors;

impl HostNotifier for NoDescriptors {
    type Descriptor = ();
    type Signaler = ();

    fn open_descriptor(&self) -> Option<((), ())> {
        None
    }

    fn notify(&self, _descriptor: &()) -> bool {
        true
    }
}

#[test]
fn missing_descriptor_fails_before_enqueueing() {
    let (caller, mut queue) = TaskCaller::<Cmd, Resp, NoDescriptors>::new(NoDescriptors);
    assert_eq!(caller.req_response(publish("foo", "x")), Err(BridgeError::DescriptorUnavailable));
    assert!(queue.try_recv().is_err());
}

#[test]
fn one_off_reply_round_trip() {
    let host = LoopbackHost::new(Mode::Drive);
    let (reply, pending) = open_reply::<u64, LoopbackHost>(&host).ok().unwrap();
    assert_eq!(Reply::complete(reply, Ok(7)), Ok(()));
    assert_eq!(pending.wait(&host), Ok(Ok(7)));
}

#[test]
fn notifier_returning_before_the_signal_is_reported() {
    let host = LoopbackHost::new(Mode::Premature);
    let (caller, executed, _) = client(&host);
    let r = caller.req_response(publish("foo", "x"));
    assert_eq!(r, Err(BridgeError::ResultUnavailableAfterSignal));
    assert!(executed.borrow().is_empty());
}

#[test]
fn completing_for_a_gone_caller_still_releases_the_signaler() {
    let host = LoopbackHost::new(Mode::Drive);
    let (reply, pending) = open_reply::<u64, LoopbackHost>(&host).ok().unwrap();
    drop(pending);
    let count = Rc::new(Cell::new(0));
    let (reply2, _pending2) = no_asyncio_nats::task::pair_reply::<u64, (), Signaler>(Some(((), Signaler(count.clone())))).ok().unwrap();
    assert_eq!(Reply::complete(reply, Ok(1)), Err(Ok(1)));
    assert_eq!(Reply::complete(reply2, Ok(2)), Ok(()));
    assert_eq!(count.get(), 1);
}
