//! The decisions of a worker loop, as a state machine. The loop itself, which
//! awaits the next task and the engine's work, runs on the background
//! executor and asks `step` what to do with each event.
//!
//! `Idle -> Executing -> Idle` for each task, `Idle -> Terminated` when the
//! command channel has no more senders; no other transition exists.
//!
//! Shutdown drains: the channel reports that it is closed only once the
//! tasks queued before its last sender went away have been taken, so each of
//! them is still executed and its result delivered or dropped.

use vstd::prelude::*;

verus! {

/// Where a worker loop stands; `Executing` holds the reply of the one task
/// whose command runs.
pub enum WorkerState<H> {
    Idle,
    Executing(H),
    Terminated,
}

/// What the worker loop observed.
pub enum WorkerEvent<C, H, R> {
    /// The next task came off the channel: its command and its reply.
    Dequeued(C, H),
    /// The channel is empty and has no senders left.
    Closed,
    /// The running command finished with this outcome.
    Finished(R),
}

/// What the worker loop is to do next.
pub enum WorkerAction<C, H, R> {
    /// Run this command against the resource, to completion.
    Execute(C),
    /// Write this outcome into this reply, then release its signaler.
    Deliver(H, R),
    /// Leave the loop and drop the resource.
    Exit,
}

/// The events that the state admits.
pub open spec fn accepts<C, H, R>(state: WorkerState<H>, event: WorkerEvent<C, H, R>) -> bool {
    match event {
        WorkerEvent::Dequeued(_, _) => state is Idle,
        WorkerEvent::Closed => state is Idle,
        WorkerEvent::Finished(_) => state is Executing,
    }
}

/// The transition on an admitted event, and the action it calls for.
pub open spec fn next<C, H, R>(state: WorkerState<H>, event: WorkerEvent<C, H, R>) -> (
    WorkerState<H>,
    WorkerAction<C, H, R>,
)
    recommends
        accepts(state, event),
{
    match event {
        WorkerEvent::Dequeued(c, h) => (WorkerState::Executing(h), WorkerAction::Execute(c)),
        WorkerEvent::Closed => (WorkerState::Terminated, WorkerAction::Exit),
        WorkerEvent::Finished(r) => match state {
            WorkerState::Executing(h) => (WorkerState::Idle, WorkerAction::Deliver(h, r)),
            _ => (state, WorkerAction::Exit),
        },
    }
}

/// The worker's decision on one event.
pub fn step<C, H, R>(state: WorkerState<H>, event: WorkerEvent<C, H, R>) -> (r: (
    WorkerState<H>,
    WorkerAction<C, H, R>,
))
    requires
        accepts(state, event),
    ensures
        r == next(state, event),
{
    match event {
        WorkerEvent::Dequeued(c, h) => (WorkerState::Executing(h), WorkerAction::Execute(c)),
        WorkerEvent::Closed => (WorkerState::Terminated, WorkerAction::Exit),
        WorkerEvent::Finished(r) => match state {
            WorkerState::Executing(h) => (WorkerState::Idle, WorkerAction::Deliver(h, r)),
            _ => (state, WorkerAction::Exit),
        },
    }
}

/// Whether `step` admits the event in this state.
pub fn admits<C, H, R>(state: &WorkerState<H>, event: &WorkerEvent<C, H, R>) -> (r: bool)
    ensures
        r == accepts(*state, *event),
{
    let idle = match state {
        WorkerState::Idle => true,
        _ => false,
    };
    match event {
        WorkerEvent::Finished(_) => match state {
            WorkerState::Executing(_) => true,
            _ => false,
        },
        _ => idle,
    }
}

/// A run of events of which each is admitted where it comes.
pub open spec fn valid_run<C, H, R>(state: WorkerState<H>, events: Seq<WorkerEvent<C, H, R>>) -> bool
    decreases events.len(),
{
    events.len() == 0 || (accepts(state, events[0]) && valid_run(
        next(state, events[0]).0,
        events.drop_first(),
    ))
}

/// The actions that a run of events calls for, in order.
pub open spec fn run_actions<C, H, R>(
    state: WorkerState<H>,
    events: Seq<WorkerEvent<C, H, R>>,
) -> Seq<WorkerAction<C, H, R>>
    decreases events.len(),
{
    if events.len() == 0 {
        Seq::empty()
    } else {
        let (s, a) = next(state, events[0]);
        seq![a] + run_actions(s, events.drop_first())
    }
}

/// The state after a run of events.
pub open spec fn run_state<C, H, R>(state: WorkerState<H>, events: Seq<WorkerEvent<C, H, R>>) -> WorkerState<H>
    decreases events.len(),
{
    if events.len() == 0 {
        state
    } else {
        run_state(next(state, events[0]).0, events.drop_first())
    }
}

/// The commands of the dequeued tasks, in dequeue order.
pub open spec fn dequeued_commands<C, H, R>(events: Seq<WorkerEvent<C, H, R>>) -> Seq<C>
    decreases events.len(),
{
    if events.len() == 0 {
        Seq::empty()
    } else {
        let rest = dequeued_commands(events.drop_first());
        match events[0] {
            WorkerEvent::Dequeued(c, _) => seq![c] + rest,
            _ => rest,
        }
    }
}

/// The replies of the dequeued tasks, in dequeue order.
pub open spec fn dequeued_replies<C, H, R>(events: Seq<WorkerEvent<C, H, R>>) -> Seq<H>
    decreases events.len(),
{
    if events.len() == 0 {
        Seq::empty()
    } else {
        let rest = dequeued_replies(events.drop_first());
        match events[0] {
            WorkerEvent::Dequeued(_, h) => seq![h] + rest,
            _ => rest,
        }
    }
}

/// The outcomes of the finished commands, in order.
pub open spec fn finished_outcomes<C, H, R>(events: Seq<WorkerEvent<C, H, R>>) -> Seq<R>
    decreases events.len(),
{
    if events.len() == 0 {
        Seq::empty()
    } else {
        let rest = finished_outcomes(events.drop_first());
        match events[0] {
            WorkerEvent::Finished(r) => seq![r] + rest,
            _ => rest,
        }
    }
}

/// The commands that the actions run, in order.
pub open spec fn executed_commands<C, H, R>(actions: Seq<WorkerAction<C, H, R>>) -> Seq<C>
    decreases actions.len(),
{
    if actions.len() == 0 {
        Seq::empty()
    } else {
        let rest = executed_commands(actions.drop_first());
        match actions[0] {
            WorkerAction::Execute(c) => seq![c] + rest,
            _ => rest,
        }
    }
}

/// The replies that the actions complete, in order.
pub open spec fn delivered_replies<C, H, R>(actions: Seq<WorkerAction<C, H, R>>) -> Seq<H>
    decreases actions.len(),
{
    if actions.len() == 0 {
        Seq::empty()
    } else {
        let rest = delivered_replies(actions.drop_first());
        match actions[0] {
            WorkerAction::Deliver(h, _) => seq![h] + rest,
            _ => rest,
        }
    }
}

/// The outcomes that the actions write, in order.
pub open spec fn delivered_outcomes<C, H, R>(actions: Seq<WorkerAction<C, H, R>>) -> Seq<R>
    decreases actions.len(),
{
    if actions.len() == 0 {
        Seq::empty()
    } else {
        let rest = delivered_outcomes(actions.drop_first());
        match actions[0] {
            WorkerAction::Deliver(_, r) => seq![r] + rest,
            _ => rest,
        }
    }
}

/// The reply still owed in a state: the running task's, if any.
pub open spec fn owed_reply<H>(state: WorkerState<H>) -> Seq<H> {
    match state {
        WorkerState::Executing(h) => seq![h],
        _ => Seq::empty(),
    }
}

/// Actions in which a command starts only while none runs, a result is
/// delivered only for a running command, and leaving the loop happens only
/// while none runs, as the last action.
pub open spec fn one_at_a_time<C, H, R>(actions: Seq<WorkerAction<C, H, R>>, busy: bool) -> bool
    decreases actions.len(),
{
    if actions.len() == 0 {
        true
    } else {
        match actions[0] {
            WorkerAction::Execute(_) => !busy && one_at_a_time(actions.drop_first(), true),
            WorkerAction::Deliver(_, _) => busy && one_at_a_time(actions.drop_first(), false),
            WorkerAction::Exit => !busy && actions.len() == 1,
        }
    }
}

proof fn lemma_first_action<C, H, R>(a: WorkerAction<C, H, R>, rest: Seq<WorkerAction<C, H, R>>)
    ensures
        (seq![a] + rest).len() > 0,
        (seq![a] + rest)[0] == a,
        (seq![a] + rest).drop_first() == rest,
{
    assert((seq![a] + rest).drop_first() =~= rest);
}

/// Commands run in the order in which their tasks left the channel, each
/// exactly once.
pub proof fn lemma_commands_run_in_dequeue_order<C, H, R>(
    state: WorkerState<H>,
    events: Seq<WorkerEvent<C, H, R>>,
)
    requires
        valid_run(state, events),
    ensures
        executed_commands(run_actions(state, events)) == dequeued_commands(events),
    decreases events.len(),
{
    if events.len() > 0 {
        let (s, a) = next(state, events[0]);
        let rest = run_actions(s, events.drop_first());
        lemma_commands_run_in_dequeue_order(s, events.drop_first());
        lemma_first_action(a, rest);
        assert(run_actions(state, events) == seq![a] + rest);
        match events[0] {
            WorkerEvent::Dequeued(c, _) => {
                assert(executed_commands(seq![a] + rest) == seq![c] + executed_commands(rest));
            },
            _ => {
                assert(executed_commands(seq![a] + rest) == executed_commands(rest));
            },
        }
    } else {
        assert(executed_commands(run_actions(state, events)) =~= dequeued_commands(events));
    }
}

/// A new command never starts before the result of the one before it has
/// been delivered, and the loop leaves only while no command runs.
pub proof fn lemma_one_command_at_a_time<C, H, R>(
    state: WorkerState<H>,
    events: Seq<WorkerEvent<C, H, R>>,
)
    requires
        valid_run(state, events),
    ensures
        one_at_a_time(run_actions(state, events), state is Executing),
    decreases events.len(),
{
    if events.len() > 0 {
        let (s, a) = next(state, events[0]);
        let rest = run_actions(s, events.drop_first());
        if !(s is Terminated) {
            lemma_one_command_at_a_time(s, events.drop_first());
        } else {
            assert(events.drop_first().len() == 0) by {
                assert(valid_run(s, events.drop_first()));
                if events.drop_first().len() > 0 {
                    assert(accepts(s, events.drop_first()[0]));
                }
            }
            assert(rest =~= Seq::<WorkerAction<C, H, R>>::empty());
        }
        lemma_first_action(a, rest);
        assert(run_actions(state, events) == seq![a] + rest);
    }
}

/// Every outcome goes to the reply of the task whose command produced it:
/// replies are completed in dequeue order, with the outcomes in the order
/// the commands finished, and at most the running task's reply is owed.
pub proof fn lemma_results_reach_their_tasks<C, H, R>(
    state: WorkerState<H>,
    events: Seq<WorkerEvent<C, H, R>>,
)
    requires
        valid_run(state, events),
    ensures
        owed_reply(state) + dequeued_replies(events) == delivered_replies(run_actions(state, events))
            + owed_reply(run_state(state, events)),
        delivered_outcomes(run_actions(state, events)) == finished_outcomes(events),
    decreases events.len(),
{
    if events.len() > 0 {
        let (s, a) = next(state, events[0]);
        let tail = events.drop_first();
        let rest = run_actions(s, tail);
        lemma_results_reach_their_tasks(s, tail);
        lemma_first_action(a, rest);
        assert(run_actions(state, events) == seq![a] + rest);
        assert(run_state(state, events) == run_state(s, tail));
        match events[0] {
            WorkerEvent::Dequeued(c, h) => {
                assert(delivered_replies(seq![a] + rest) == delivered_replies(rest));
                assert(delivered_outcomes(seq![a] + rest) == delivered_outcomes(rest));
                assert(dequeued_replies(events) == seq![h] + dequeued_replies(tail));
                assert(owed_reply(state) =~= Seq::<H>::empty());
                assert(owed_reply(s) =~= seq![h]);
                assert(owed_reply(state) + dequeued_replies(events) =~= owed_reply(s)
                    + dequeued_replies(tail));
            },
            WorkerEvent::Closed => {
                assert(delivered_replies(seq![a] + rest) == delivered_replies(rest));
                assert(delivered_outcomes(seq![a] + rest) == delivered_outcomes(rest));
                assert(owed_reply(state) =~= Seq::<H>::empty());
                assert(owed_reply(s) =~= Seq::<H>::empty());
                assert(owed_reply(state) + dequeued_replies(events) =~= owed_reply(s)
                    + dequeued_replies(tail));
            },
            WorkerEvent::Finished(r) => {
                let h = state->Executing_0;
                assert(delivered_replies(seq![a] + rest) == seq![h] + delivered_replies(rest));
                assert(delivered_outcomes(seq![a] + rest) == seq![r] + delivered_outcomes(rest));
                assert(owed_reply(state) =~= seq![h]);
                assert(owed_reply(s) =~= Seq::<H>::empty());
                assert(owed_reply(state) + dequeued_replies(events) =~= seq![h] + (owed_reply(s)
                    + dequeued_replies(tail)));
                assert(seq![h] + (delivered_replies(rest) + owed_reply(run_state(s, tail)))
                    =~= (seq![h] + delivered_replies(rest)) + owed_reply(run_state(s, tail)));
            },
        }
    } else {
        assert(owed_reply(state) + dequeued_replies(events) =~= delivered_replies(
            run_actions(state, events),
        ) + owed_reply(run_state(state, events)));
        assert(delivered_outcomes(run_actions(state, events)) =~= finished_outcomes(events));
    }
}

} // verus!
