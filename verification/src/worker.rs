//! The decisions of a queue worker, as a state machine.
//!
//! A worker owns one handler and serves the commands of one queue, one at a
//! time. Between two decisions it is either suspended on the channel, running
//! the handler on an entry, or handing that entry's response to its reply
//! slot. [`step`] says what it does next when one of these comes back;
//! [`run`] is the trace of a whole life, and the laws at the end of this
//! module are stated of every such trace.

use vstd::prelude::*;

verus! {

/// A command as the worker sees it: an entry, known by its id, or the
/// request to stop.
#[derive(Debug, Clone, Copy, PartialEq, Eq, Structural)]
pub enum Command {
    Append(u128),
    Stop,
}

/// Why a worker stopped.
#[derive(Debug, Clone, Copy, PartialEq, Eq, Structural)]
pub enum StopCause {
    /// A `Stop` command was received.
    Requested,
    /// Every handle to the queue is gone.
    Disconnected,
    /// The handler failed on an entry.
    HandlerFailed,
}

/// What a worker is doing between two decisions.
#[derive(Debug, Clone, Copy, PartialEq, Eq, Structural)]
pub enum WorkerState {
    /// Suspended until the next command arrives.
    Waiting,
    /// The handler is running on this entry.
    Handling(u128),
    /// The response to this entry is on its way to the reply slot.
    Replying(u128),
    /// The worker has left its loop for good.
    Stopped(StopCause),
}

/// What comes back to the worker from outside.
#[derive(Debug, Clone, Copy, PartialEq, Eq, Structural)]
pub enum WorkerEvent {
    /// The channel yielded a command.
    Received(Command),
    /// The channel is closed and empty.
    Closed,
    /// The handler returned: `true` with a response, `false` with an error.
    Handled(bool),
    /// The response was handed over: `true` if the consumer took it, `false`
    /// if the consumer had given up before.
    Replied(bool),
}

/// What the worker does next.
#[derive(Debug, Clone, Copy, PartialEq, Eq, Structural)]
pub enum WorkerAction {
    /// Suspend until the next command.
    Receive,
    /// Run the handler on this entry.
    Handle(u128),
    /// Hand the response to this entry's reply slot.
    Reply(u128),
    /// Leave the loop.
    Exit(StopCause),
}

/// A decision of the worker: the state it moves to and what it does next.
#[derive(Debug, Clone, Copy, PartialEq, Eq, Structural)]
pub struct Decision {
    pub next: WorkerState,
    pub action: WorkerAction,
}

/// A life of a worker up to some point: the state it is in and the actions
/// it took to get there.
pub struct Trace {
    pub state: WorkerState,
    pub actions: Seq<WorkerAction>,
}

/// The worker's decision when `event` comes back in `state`, or `None` for an
/// event that cannot come back in this state.
pub open spec fn step_spec(state: WorkerState, event: WorkerEvent) -> Option<Decision> {
    match (state, event) {
        (WorkerState::Waiting, WorkerEvent::Received(Command::Append(id))) => Some(
            Decision { next: WorkerState::Handling(id), action: WorkerAction::Handle(id) },
        ),
        (WorkerState::Waiting, WorkerEvent::Received(Command::Stop)) => Some(
            Decision {
                next: WorkerState::Stopped(StopCause::Requested),
                action: WorkerAction::Exit(StopCause::Requested),
            },
        ),
        (WorkerState::Waiting, WorkerEvent::Closed) => Some(
            Decision {
                next: WorkerState::Stopped(StopCause::Disconnected),
                action: WorkerAction::Exit(StopCause::Disconnected),
            },
        ),
        (WorkerState::Handling(id), WorkerEvent::Handled(true)) => Some(
            Decision { next: WorkerState::Replying(id), action: WorkerAction::Reply(id) },
        ),
        (WorkerState::Handling(_), WorkerEvent::Handled(false)) => Some(
            Decision {
                next: WorkerState::Stopped(StopCause::HandlerFailed),
                action: WorkerAction::Exit(StopCause::HandlerFailed),
            },
        ),
        (WorkerState::Replying(_), WorkerEvent::Replied(_)) => Some(
            Decision { next: WorkerState::Waiting, action: WorkerAction::Receive },
        ),
        _ => None,
    }
}

/// Decides what the worker does when `event` comes back in `state`.
pub fn step(state: WorkerState, event: WorkerEvent) -> (decision: Option<Decision>)
    ensures
        decision == step_spec(state, event),
{
    match state {
        WorkerState::Waiting => match event {
            WorkerEvent::Received(Command::Append(id)) => Some(
                Decision { next: WorkerState::Handling(id), action: WorkerAction::Handle(id) },
            ),
            WorkerEvent::Received(Command::Stop) => Some(
                Decision {
                    next: WorkerState::Stopped(StopCause::Requested),
                    action: WorkerAction::Exit(StopCause::Requested),
                },
            ),
            WorkerEvent::Closed => Some(
                Decision {
                    next: WorkerState::Stopped(StopCause::Disconnected),
                    action: WorkerAction::Exit(StopCause::Disconnected),
                },
            ),
            _ => None,
        },
        WorkerState::Handling(id) => match event {
            WorkerEvent::Handled(true) => Some(
                Decision { next: WorkerState::Replying(id), action: WorkerAction::Reply(id) },
            ),
            WorkerEvent::Handled(false) => Some(
                Decision {
                    next: WorkerState::Stopped(StopCause::HandlerFailed),
                    action: WorkerAction::Exit(StopCause::HandlerFailed),
                },
            ),
            _ => None,
        },
        WorkerState::Replying(_) => match event {
            WorkerEvent::Replied(_) => Some(
                Decision { next: WorkerState::Waiting, action: WorkerAction::Receive },
            ),
            _ => None,
        },
        WorkerState::Stopped(_) => None,
    }
}

/// The life of a worker that starts out waiting and sees `events` come back
/// one after the other: the state it ends in and the actions it took, one
/// per event. `None` if some event could not have come back when it did.
pub open spec fn run(events: Seq<WorkerEvent>) -> Option<Trace>
    decreases events.len(),
{
    if events.len() == 0 {
        Some(Trace { state: WorkerState::Waiting, actions: Seq::empty() })
    } else {
        match run(events.drop_last()) {
            Some(before) => match step_spec(before.state, events.last()) {
                Some(decision) => Some(
                    Trace { state: decision.next, actions: before.actions.push(decision.action) },
                ),
                None => None,
            },
            None => None,
        }
    }
}

/// The state a worker is in after `events`, in a life that is possible.
pub open spec fn state_after(events: Seq<WorkerEvent>) -> WorkerState {
    run(events).unwrap().state
}

/// The actions a worker took during `events`, in a life that is possible.
pub open spec fn actions_during(events: Seq<WorkerEvent>) -> Seq<WorkerAction> {
    run(events).unwrap().actions
}

/// The ids of the entries that arrived, in the order of their arrival.
pub open spec fn appended(events: Seq<WorkerEvent>) -> Seq<u128>
    decreases events.len(),
{
    if events.len() == 0 {
        Seq::empty()
    } else {
        match events.last() {
            WorkerEvent::Received(Command::Append(id)) => appended(events.drop_last()).push(id),
            _ => appended(events.drop_last()),
        }
    }
}

/// How many times the handler returned a response.
pub open spec fn successes(events: Seq<WorkerEvent>) -> nat
    decreases events.len(),
{
    if events.len() == 0 {
        0
    } else {
        match events.last() {
            WorkerEvent::Handled(true) => successes(events.drop_last()) + 1,
            _ => successes(events.drop_last()),
        }
    }
}

/// The ids of the entries the handler was run on, in that order.
pub open spec fn handled(actions: Seq<WorkerAction>) -> Seq<u128>
    decreases actions.len(),
{
    if actions.len() == 0 {
        Seq::empty()
    } else {
        match actions.last() {
            WorkerAction::Handle(id) => handled(actions.drop_last()).push(id),
            _ => handled(actions.drop_last()),
        }
    }
}

/// The ids of the entries whose response was handed to their reply slot, in
/// that order.
pub open spec fn replied(actions: Seq<WorkerAction>) -> Seq<u128>
    decreases actions.len(),
{
    if actions.len() == 0 {
        Seq::empty()
    } else {
        match actions.last() {
            WorkerAction::Reply(id) => replied(actions.drop_last()).push(id),
            _ => replied(actions.drop_last()),
        }
    }
}

/// A life that is possible stays possible when it is cut short, and each
/// further event adds the decision that [`step_spec`] takes on it.
proof fn lemma_run_prefix(events: Seq<WorkerEvent>, n: int)
    requires
        run(events) is Some,
        0 <= n <= events.len(),
    ensures
        run(events.take(n)) is Some,
        n == events.len() ==> run(events.take(n)) == run(events),
        n < events.len() ==> step_spec(state_after(events.take(n)), events[n]) is Some,
        n < events.len() ==> state_after(events.take(n + 1)) == step_spec(
            state_after(events.take(n)),
            events[n],
        ).unwrap().next,
    decreases events.len() - n,
{
    if n == events.len() {
        assert(events.take(n) =~= events);
    } else {
        lemma_run_prefix(events, n + 1);
        assert(events.take(n + 1).drop_last() =~= events.take(n));
        assert(events.take(n + 1).last() == events[n]);
    }
}

/// How the actions taken relate to the events that came back, state by
/// state, in every possible life.
proof fn lemma_run_accounts(events: Seq<WorkerEvent>)
    requires
        run(events) is Some,
    ensures
        handled(actions_during(events)) == appended(events),
        replied(actions_during(events)).len() == successes(events),
        match state_after(events) {
            WorkerState::Handling(id) => appended(events).len() > 0 && appended(events).last()
                == id && replied(actions_during(events)) == appended(events).drop_last(),
            WorkerState::Replying(id) => appended(events).len() > 0 && appended(events).last()
                == id && replied(actions_during(events)) == appended(events),
            WorkerState::Stopped(StopCause::HandlerFailed) => appended(events).len() > 0
                && replied(actions_during(events)) == appended(events).drop_last(),
            _ => replied(actions_during(events)) == appended(events),
        },
    decreases events.len(),
{
    if events.len() > 0 {
        let earlier = events.drop_last();
        lemma_run_accounts(earlier);
        let before = run(earlier).unwrap();
        let decision = step_spec(before.state, events.last()).unwrap();
        assert(actions_during(events) == before.actions.push(decision.action));
        assert(before.actions.push(decision.action).drop_last() =~= before.actions);
        match (before.state, events.last()) {
            (WorkerState::Waiting, WorkerEvent::Received(Command::Append(id))) => {
                assert(appended(events).drop_last() =~= appended(earlier));
            },
            _ => {},
        }
    }
}

/// Entries are handled in the order in which they arrive, each of them once:
/// the entries the handler was run on are the entries that arrived, in the
/// same order.
pub proof fn law_handled_in_arrival_order(events: Seq<WorkerEvent>)
    requires
        run(events) is Some,
    ensures
        handled(actions_during(events)) == appended(events),
{
    lemma_run_accounts(events);
}

/// Entries are handled one at a time. When an entry arrives, the event that
/// comes back next is the handler's return on that entry: of two entries, the
/// handling of the one that arrived first is over before the other is even
/// received, and the worker is idle when it receives it.
pub proof fn law_one_entry_at_a_time(events: Seq<WorkerEvent>, first: int, second: int)
    requires
        run(events) is Some,
        0 <= first < second < events.len(),
        events[first] is Received,
        events[first]->Received_0 is Append,
        events[second] is Received,
    ensures
        first + 1 < second,
        events[first + 1] is Handled,
        state_after(events.take(first + 1)) == WorkerState::Handling(
            events[first]->Received_0->Append_0,
        ),
        state_after(events.take(second)) == WorkerState::Waiting,
{
    lemma_run_prefix(events, first);
    lemma_run_prefix(events, first + 1);
    lemma_run_prefix(events, second);
}

/// Every entry the handler answered gets exactly one reply, and no other
/// entry gets one: the replies are as many as the handler's successes, and
/// they go, in order, to the entries that arrived. Only the entry that is
/// still with the handler, or on which the handler failed, is without one.
pub proof fn law_one_reply_per_success(events: Seq<WorkerEvent>)
    requires
        run(events) is Some,
    ensures
        replied(actions_during(events)).len() == successes(events),
        successes(events) <= appended(events).len() <= successes(events) + 1,
        replied(actions_during(events)) == appended(events).take(successes(events) as int),
        appended(events).len() == successes(events) + 1 <==> (state_after(events) is Handling
            || state_after(events) == WorkerState::Stopped(StopCause::HandlerFailed)),
{
    lemma_run_accounts(events);
    let arrived = appended(events);
    if state_after(events) is Handling || state_after(events) == WorkerState::Stopped(
        StopCause::HandlerFailed,
    ) {
        assert(arrived.drop_last() =~= arrived.take(arrived.len() - 1));
    } else {
        assert(arrived =~= arrived.take(arrived.len() as int));
    }
}

/// `Stop` does not preempt. When a `Stop` is received, every entry that
/// arrived before it has been handled and replied to; the worker then stops,
/// and nothing comes back after that.
pub proof fn law_stop_finishes_earlier_entries(events: Seq<WorkerEvent>, at: int)
    requires
        run(events) is Some,
        0 <= at < events.len(),
        events[at] == WorkerEvent::Received(Command::Stop),
    ensures
        at == events.len() - 1,
        state_after(events) == WorkerState::Stopped(StopCause::Requested),
        handled(actions_during(events)) == appended(events.take(at)),
        replied(actions_during(events)) == appended(events.take(at)),
{
    lemma_run_prefix(events, at);
    lemma_run_prefix(events, at + 1);
    assert(events.take(at + 1) =~= events);
    assert(events.drop_last() =~= events.take(at));
    lemma_run_accounts(events);
}

/// A reply that nobody waits for is not fatal. Whether or not the consumer
/// took the response, the worker goes back to waiting, and the entry that
/// arrives next is handled.
pub proof fn law_abandoned_reply_is_not_fatal(
    events: Seq<WorkerEvent>,
    delivered: bool,
    next: u128,
)
    requires
        run(events) is Some,
        state_after(events) is Replying,
    ensures
        run(events.push(WorkerEvent::Replied(delivered))) == Some(
            Trace {
                state: WorkerState::Waiting,
                actions: actions_during(events).push(WorkerAction::Receive),
            },
        ),
        run(
            events.push(WorkerEvent::Replied(delivered)).push(
                WorkerEvent::Received(Command::Append(next)),
            ),
        ) == Some(
            Trace {
                state: WorkerState::Handling(next),
                actions: actions_during(events).push(WorkerAction::Receive).push(
                    WorkerAction::Handle(next),
                ),
            },
        ),
{
    let answered = events.push(WorkerEvent::Replied(delivered));
    assert(answered.drop_last() =~= events);
    let resumed = answered.push(WorkerEvent::Received(Command::Append(next)));
    assert(resumed.drop_last() =~= answered);
}

/// A failure of the handler is fatal. The worker stops, and the entry it
/// failed on gets no reply.
pub proof fn law_handler_failure_is_fatal(events: Seq<WorkerEvent>)
    requires
        run(events) is Some,
        state_after(events) is Handling,
    ensures
        run(events.push(WorkerEvent::Handled(false))) == Some(
            Trace {
                state: WorkerState::Stopped(StopCause::HandlerFailed),
                actions: actions_during(events).push(
                    WorkerAction::Exit(StopCause::HandlerFailed),
                ),
            },
        ),
        replied(actions_during(events.push(WorkerEvent::Handled(false)))) == replied(
            actions_during(events),
        ),
{
    let failed = events.push(WorkerEvent::Handled(false));
    assert(failed.drop_last() =~= events);
    let actions = actions_during(events);
    assert(actions.push(WorkerAction::Exit(StopCause::HandlerFailed)).drop_last() =~= actions);
}

/// A stopped worker stays stopped: no event comes back to it, so whatever is
/// still in the channel is never handled.
pub proof fn law_stopped_is_final(events: Seq<WorkerEvent>, event: WorkerEvent)
    requires
        run(events) is Some,
        state_after(events) is Stopped,
    ensures
        run(events.push(event)) is None,
{
    assert(events.push(event).drop_last() =~= events);
}

} // verus!
