//! The request queue: the front door to a handler that must not be shared.
//!
//! Callers hold a [`Queue`], the producer side of an unbounded channel of
//! commands. One worker holds the consumer side and the handler, and calls
//! [`serve`] on every command the channel yields, in the order in which the
//! channel yields them. No two entries are ever with the handler at once.

use vstd::prelude::*;
use std::time::Instant;
use tokio::sync::mpsc::UnboundedReceiver;
use tokio::sync::mpsc::UnboundedSender;
use tokio::sync::oneshot::Receiver;
use tokio::sync::oneshot::Sender;
use crate::error::EmbedError;
use crate::handler::RequestHandler;
use crate::worker::run;
use crate::worker::state_after;
use crate::worker::step;
use crate::worker::step_spec;
use crate::worker::Command;
use crate::worker::StopCause;
use crate::worker::WorkerEvent;
use crate::worker::WorkerState;

verus! {

/// `tokio::sync::mpsc::UnboundedSender`: a producer handle of an unbounded
/// channel.
#[verifier::external_type_specification]
#[verifier::external_body]
#[verifier::reject_recursive_types(T)]
pub struct ExUnboundedSender<T>(UnboundedSender<T>);

/// `tokio::sync::mpsc::UnboundedReceiver`: the consumer of an unbounded
/// channel.
#[verifier::external_type_specification]
#[verifier::external_body]
#[verifier::reject_recursive_types(T)]
pub struct ExUnboundedReceiver<T>(UnboundedReceiver<T>);

/// `tokio::sync::oneshot::Sender`: the producer of a channel for one value.
#[verifier::external_type_specification]
#[verifier::external_body]
#[verifier::reject_recursive_types(T)]
pub struct ExSender<T>(Sender<T>);

/// `tokio::sync::oneshot::Receiver`: the consumer of a channel for one value.
#[verifier::external_type_specification]
#[verifier::external_body]
#[verifier::reject_recursive_types(T)]
pub struct ExReceiver<T>(Receiver<T>);

/// `tokio::sync::oneshot::error::RecvError`: what awaiting a `Receiver`
/// yields when its sender is gone.
#[verifier::external_type_specification]
#[verifier::external_body]
pub struct ExRecvError(tokio::sync::oneshot::error::RecvError);

/// `std::time::Instant`: a reading of the monotonic clock.
#[verifier::external_type_specification]
#[verifier::external_body]
pub struct ExInstant(Instant);

/// `tokio::sync::mpsc::unbounded_channel`: a new channel without a bound.
#[verifier::external_body]
fn command_channel<T>() -> (ends: (UnboundedSender<T>, UnboundedReceiver<T>)) {
    tokio::sync::mpsc::unbounded_channel()
}

/// `UnboundedSender::send`: never waits. Returns whether the message was
/// queued; it is not when the consumer side is closed or gone.
#[verifier::external_body]
fn send_command<T>(tx: &UnboundedSender<T>, message: T) -> (queued: bool) {
    tx.send(message).is_ok()
}

/// `UnboundedSender::clone`: one more producer handle of the same channel.
#[verifier::external_body]
fn clone_sender<T>(tx: &UnboundedSender<T>) -> (other: UnboundedSender<T>) {
    tx.clone()
}

/// `tokio::sync::oneshot::channel`: a new channel for a single value.
#[verifier::external_body]
fn reply_channel<T>() -> (ends: (Sender<T>, Receiver<T>)) {
    tokio::sync::oneshot::channel()
}

/// `oneshot::Sender::send`: hands the value over and uses the sender up.
/// Returns whether the consumer was still there to take it.
#[verifier::external_body]
fn send_reply<T>(tx: Sender<T>, value: T) -> (taken: bool) {
    tx.send(value).is_ok()
}

/// `Uuid::new_v4` as a number (`Uuid::as_u128`): 128 bits, random but for
/// the version and variant fields.
#[verifier::external_body]
fn random_id() -> (id: u128) {
    uuid::Uuid::new_v4().as_u128()
}

/// `Instant::now`: the present reading of the monotonic clock.
#[verifier::external_body]
fn now() -> (instant: Instant) {
    Instant::now()
}

/// A request on its way through the queue, with the slot for its response.
#[verifier::reject_recursive_types(THandler)]
pub struct QueueEntry<THandler: RequestHandler> {
    /// Tells this entry from every other.
    pub id: u128,
    /// When the entry was made.
    pub queue_time: Instant,
    pub request: THandler::TReq,
    /// Takes the response, once.
    pub response_tx: Sender<THandler::TResp>,
}

/// What a queue carries.
#[verifier::reject_recursive_types(THandler)]
pub enum QueueCommand<THandler: RequestHandler> {
    /// Handle this entry.
    Append(QueueEntry<THandler>),
    /// Stop, once everything sent before has been handled.
    Stop,
}

/// The producer side of a request queue. Cloning it gives another handle to
/// the same queue.
#[verifier::reject_recursive_types(THandler)]
pub struct Queue<THandler: RequestHandler> {
    tx: UnboundedSender<QueueCommand<THandler>>,
}

/// How serving one command ended.
#[derive(Debug, Clone, Copy, PartialEq, Eq, Structural)]
pub enum Served {
    /// The entry was handled. `delivered` says whether its response reached
    /// the consumer; if not, the consumer had given up, which is nobody's
    /// failure. The worker goes on.
    Replied { delivered: bool },
    /// The worker stopped, or had stopped before, without a failure.
    Finished,
    /// The handler failed with this error. The worker has stopped.
    Failed(EmbedError),
}

impl<THandler: RequestHandler> QueueEntry<THandler> {
    /// An entry for `request` with a fresh id, made now.
    pub fn new(request: THandler::TReq, response_tx: Sender<THandler::TResp>) -> (entry: Self)
        ensures
            entry.request == request,
            entry.response_tx == response_tx,
    {
        QueueEntry { id: random_id(), queue_time: now(), request, response_tx }
    }
}

impl<THandler: RequestHandler> View for QueueCommand<THandler> {
    type V = Command;

    /// The command as the worker's state machine sees it.
    open spec fn view(&self) -> Command {
        match self {
            QueueCommand::Append(entry) => Command::Append(entry.id),
            QueueCommand::Stop => Command::Stop,
        }
    }
}

/// The event that a receive on the channel stands for.
pub open spec fn received<THandler: RequestHandler>(
    command: Option<QueueCommand<THandler>>,
) -> WorkerEvent {
    match command {
        Some(command) => WorkerEvent::Received(command@),
        None => WorkerEvent::Closed,
    }
}

/// Where serving a command leaves the worker, and how it ended.
pub struct Service {
    pub state: WorkerState,
    pub served: Served,
}

/// Where serving `command` leaves a worker that was in `state`, and how it
/// ends, given what came back from the handler and from the reply slot.
///
/// A waiting worker runs through the decisions of
/// [`step_spec`](crate::worker::step_spec): on an entry it handles, and if
/// the handler answers, replies; on `Stop` or a closed channel it stops. A
/// worker in any other state leaves the command alone.
pub open spec fn serve_spec(
    state: WorkerState,
    command: WorkerEvent,
    handler_result: Result<(), EmbedError>,
    delivered: bool,
) -> Service {
    match (state, command) {
        (WorkerState::Waiting, WorkerEvent::Received(Command::Append(_))) => match handler_result {
            Ok(()) => Service { state: WorkerState::Waiting, served: Served::Replied { delivered } },
            Err(e) => Service {
                state: WorkerState::Stopped(StopCause::HandlerFailed),
                served: Served::Failed(e),
            },
        },
        (WorkerState::Waiting, WorkerEvent::Received(Command::Stop)) => Service {
            state: WorkerState::Stopped(StopCause::Requested),
            served: Served::Finished,
        },
        (WorkerState::Waiting, _) => Service {
            state: WorkerState::Stopped(StopCause::Disconnected),
            served: Served::Finished,
        },
        _ => Service { state, served: Served::Finished },
    }
}

/// The events that come back to a waiting worker while it serves one
/// command: the command itself, and for an entry the handler's return and,
/// if the handler answered, the fate of the reply.
pub open spec fn round(command: WorkerEvent, handler_ok: bool, delivered: bool) -> Seq<
    WorkerEvent,
> {
    match command {
        WorkerEvent::Received(Command::Append(_)) => if handler_ok {
            seq![command, WorkerEvent::Handled(true), WorkerEvent::Replied(delivered)]
        } else {
            seq![command, WorkerEvent::Handled(false)]
        },
        _ => seq![command],
    }
}

/// What a send on a queue's channel comes to: the command is queued, or
/// there is no worker left to take it, which is a delivery error.
pub fn delivery(queued: bool) -> (r: Result<(), EmbedError>)
    ensures
        r == if queued {
            Ok::<(), EmbedError>(())
        } else {
            Err(EmbedError::Delivery)
        },
{
    if queued {
        Ok(())
    } else {
        Err(EmbedError::Delivery)
    }
}

impl<THandler: RequestHandler> Queue<THandler> {
    /// A new queue: the handle for its callers, and the consumer side for
    /// its worker.
    pub fn channel() -> (ends: (Self, UnboundedReceiver<QueueCommand<THandler>>)) {
        let (tx, rx) = command_channel();
        (Queue { tx }, rx)
    }

    /// Puts `entry` at the end of the queue. Fails with a delivery error if
    /// the worker is gone.
    pub fn append(&self, entry: QueueEntry<THandler>) -> (r: Result<(), EmbedError>)
        ensures
            r matches Err(e) ==> e == EmbedError::Delivery,
    {
        delivery(send_command(&self.tx, QueueCommand::Append(entry)))
    }

    /// Puts `request` at the end of the queue and returns the slot on which
    /// its response will arrive. Fails with a delivery error if the worker is
    /// gone.
    pub fn submit(&self, request: THandler::TReq) -> (r: Result<
        Receiver<THandler::TResp>,
        EmbedError,
    >)
        ensures
            r matches Err(e) ==> e == EmbedError::Delivery,
    {
        let (response_tx, response_rx) = reply_channel();
        let entry = QueueEntry::new(request, response_tx);
        match self.append(entry) {
            Ok(()) => Ok(response_rx),
            Err(e) => Err(e),
        }
    }

    /// Asks the worker to stop once it has handled everything sent before.
    /// Fails with a delivery error if the worker is gone already.
    pub fn shutdown(&self) -> (r: Result<(), EmbedError>)
        ensures
            r matches Err(e) ==> e == EmbedError::Delivery,
    {
        delivery(send_command(&self.tx, QueueCommand::Stop))
    }
}

impl<THandler: RequestHandler> Clone for Queue<THandler> {
    fn clone(&self) -> (other: Self) {
        Queue { tx: clone_sender(&self.tx) }
    }
}

/// Lets the worker take its decision on `event`, if it can come back in the
/// worker's state. Tells whether it could.
fn advance(state: &mut WorkerState, event: WorkerEvent) -> (accepted: bool)
    ensures
        match step_spec(*old(state), event) {
            Some(decision) => accepted && *final(state) == decision.next,
            None => !accepted && *final(state) == *old(state),
        },
{
    match step(*state, event) {
        Some(decision) => {
            *state = decision.next;
            true
        },
        None => false,
    }
}

/// Concludes the handling of an entry: takes what the handler returned and
/// the entry's reply slot.
///
/// A response is handed to the reply slot, and the worker goes back to
/// waiting whether or not the consumer took it. An error of the handler is
/// fatal: the worker stops and reports that error, and nothing is sent. A
/// worker that was not handling an entry leaves everything as it is.
pub fn conclude<THandler: RequestHandler>(
    state: &mut WorkerState,
    outcome: Result<THandler::TResp, EmbedError>,
    response_tx: Sender<THandler::TResp>,
) -> (served: Served)
    ensures
        *old(state) is Handling ==> match outcome {
            Ok(_) => *final(state) == WorkerState::Waiting && served is Replied,
            Err(e) => *final(state) == WorkerState::Stopped(StopCause::HandlerFailed) && served
                == Served::Failed(e),
        },
        !(*old(state) is Handling) ==> *final(state) == *old(state) && served == Served::Finished,
{
    match outcome {
        Ok(response) => {
            if !advance(state, WorkerEvent::Handled(true)) {
                return Served::Finished;
            }
            let delivered = send_reply(response_tx, response);
            advance(state, WorkerEvent::Replied(delivered));
            Served::Replied { delivered }
        },
        Err(e) => {
            if !advance(state, WorkerEvent::Handled(false)) {
                return Served::Finished;
            }
            Served::Failed(e)
        },
    }
}

/// Serves what the channel yielded: `Some` command, or `None` once the
/// channel is closed and empty.
///
/// A waiting worker runs the handler on an appended entry and hands the
/// response to the entry's reply slot; if the handler fails, the worker stops
/// and reports the handler's error. On `Stop` and on a closed channel it
/// stops. A worker that has stopped drops the command unserved.
pub fn serve<THandler: RequestHandler>(
    state: &mut WorkerState,
    processor: &mut THandler,
    command: Option<QueueCommand<THandler>>,
) -> (served: Served)
    ensures
        exists|handler_result: Result<(), EmbedError>, delivered: bool|
            (Service { state: *final(state), served }) == serve_spec(
                *old(state),
                received(command),
                handler_result,
                delivered,
            ),
{
    let event = match &command {
        Some(QueueCommand::Append(entry)) => WorkerEvent::Received(Command::Append(entry.id)),
        Some(QueueCommand::Stop) => WorkerEvent::Received(Command::Stop),
        None => WorkerEvent::Closed,
    };
    if !advance(state, event) {
        // The worker is not waiting for a command: it has stopped.
        proof {
            let outcome = Service { state: *state, served: Served::Finished };
            assert(outcome == serve_spec(*old(state), received(command), Ok(()), true));
        }
        return Served::Finished;
    }
    let entry = match command {
        Some(QueueCommand::Append(entry)) => entry,
        _ => {
            // `Stop`, or the channel is closed: the worker has just stopped.
            proof {
                let outcome = Service { state: *state, served: Served::Finished };
                assert(outcome == serve_spec(*old(state), received(command), Ok(()), true));
            }
            return Served::Finished;
        },
    };
    let QueueEntry { id: _, queue_time: _, request, response_tx } = entry;
    let outcome = processor.handle(request);
    let ghost handler_result: Result<(), EmbedError> = match outcome {
        Ok(_) => Ok(()),
        Err(e) => Err(e),
    };
    let served = conclude::<THandler>(state, outcome, response_tx);
    proof {
        let service = Service { state: *state, served };
        let delivered = served is Replied && served->delivered;
        assert(service == serve_spec(*old(state), received(command), handler_result, delivered));
    }
    served
}

/// Serving a command is a stretch of the worker's life. If a worker is
/// waiting after `events`, then what comes back while it serves the next
/// command continues a possible life, and that life ends in the state that
/// [`serve_spec`] names.
pub proof fn law_serving_continues_the_run(
    events: Seq<WorkerEvent>,
    command: WorkerEvent,
    handler_result: Result<(), EmbedError>,
    delivered: bool,
)
    requires
        run(events) is Some,
        state_after(events) == WorkerState::Waiting,
        command is Received || command is Closed,
    ensures
        run(events + round(command, handler_result is Ok, delivered)) is Some,
        state_after(events + round(command, handler_result is Ok, delivered)) == serve_spec(
            WorkerState::Waiting,
            command,
            handler_result,
            delivered,
        ).state,
{
    let first = events.push(command);
    assert(first.drop_last() =~= events);
    assert(run(first) is Some);
    match command {
        WorkerEvent::Received(Command::Append(id)) => {
            assert(state_after(first) == WorkerState::Handling(id));
            if handler_result is Ok {
                let second = first.push(WorkerEvent::Handled(true));
                assert(second.drop_last() =~= first);
                assert(run(second) is Some && state_after(second) == WorkerState::Replying(id));
                let third = second.push(WorkerEvent::Replied(delivered));
                assert(third.drop_last() =~= second);
                assert(run(third) is Some && state_after(third) == WorkerState::Waiting);
                assert(events + round(command, true, delivered) =~= third);
            } else {
                let second = first.push(WorkerEvent::Handled(false));
                assert(second.drop_last() =~= first);
                assert(run(second) is Some);
                assert(events + round(command, false, delivered) =~= second);
            }
        },
        _ => {
            assert(events + round(command, handler_result is Ok, delivered) =~= first);
        },
    }
}

} // verus!
