//! The actor that owns the device.
//!
//! Commands from any number of callers wait in one bounded queue. The actor
//! hands their operations to the device one at a time, in the order in which
//! the commands came, and returns each outcome to the caller that asked.

use crate::error::AppError;
use crate::models::Device;
use crate::temperature::Temperature;
use std::collections::VecDeque;
use vstd::prelude::*;

pub mod brewslave;
pub mod mock;

verus! {

/// Number of commands that may wait for the device.
pub const QUEUE_CAPACITY: usize = 32;

/// Names the place where a caller waits for the answer to its command. An
/// answer is given to it exactly once.
#[derive(Clone, Copy, Debug, PartialEq, Eq)]
pub struct Responder(pub u64);

/// Commands to send to the device channel.
#[derive(Clone, Copy, Debug, PartialEq, Eq)]
pub enum Command {
    /// Read the state of the device.
    Read { resp: Responder },
    /// Set the target temperature.
    SetTemperature { temperature: Temperature, resp: Responder },
}

/// What a device can be asked to do.
#[derive(Clone, Copy, Debug, PartialEq, Eq)]
pub enum Operation {
    /// Read the state of the device.
    Read,
    /// Set the target temperature.
    SetTemperature(Temperature),
}

/// What an operation that went well brings back.
#[derive(Clone, Copy, Debug, PartialEq, Eq)]
pub enum Output {
    /// The state that was read.
    State(Device),
    /// The target temperature is set.
    Done,
}

/// The outcome of a command, on its way to the caller that sent it.
#[derive(Debug, PartialEq, Eq)]
pub struct Delivery {
    pub resp: Responder,
    pub outcome: Result<Output, AppError>,
}

impl Command {
    /// The operation that the command asks for.
    pub open spec fn operation(self) -> Operation {
        match self {
            Command::Read { .. } => Operation::Read,
            Command::SetTemperature { temperature, .. } => Operation::SetTemperature(temperature),
        }
    }

    /// Where the answer goes.
    pub open spec fn responder(self) -> Responder {
        match self {
            Command::Read { resp } => resp,
            Command::SetTemperature { resp, .. } => resp,
        }
    }

    /// The operation that the command asks for.
    pub fn to_operation(&self) -> (operation: Operation)
        ensures
            operation == self.operation(),
    {
        match self {
            Command::Read { .. } => Operation::Read,
            Command::SetTemperature { temperature, .. } => Operation::SetTemperature(*temperature),
        }
    }

    /// Where the answer goes.
    pub fn to_responder(&self) -> (resp: Responder)
        ensures
            resp == self.responder(),
    {
        match self {
            Command::Read { resp } => *resp,
            Command::SetTemperature { resp, .. } => *resp,
        }
    }
}

/// The actor in specifications: the commands that wait, oldest first, how
/// many may wait, and the command whose operation is with the device.
pub struct ActorView {
    pub queue: Seq<Command>,
    pub capacity: nat,
    pub in_flight: Option<Command>,
}

impl ActorView {
    /// An actor with nothing to do.
    pub open spec fn empty(capacity: nat) -> ActorView {
        ActorView { queue: Seq::empty(), capacity, in_flight: None }
    }

    /// Taking in a command: it joins the end of the queue if there is room,
    /// and is turned away if there is none.
    pub open spec fn submit(self, command: Command) -> (ActorView, bool) {
        if self.queue.len() < self.capacity {
            (ActorView { queue: self.queue.push(command), ..self }, true)
        } else {
            (self, false)
        }
    }

    /// Handing out the next operation: the oldest waiting command, and only
    /// while the device is free.
    pub open spec fn next(self) -> (ActorView, Option<Operation>) {
        if self.in_flight is None && self.queue.len() > 0 {
            (
                ActorView {
                    queue: self.queue.drop_first(),
                    in_flight: Some(self.queue[0]),
                    ..self
                },
                Some(self.queue[0].operation()),
            )
        } else {
            (self, None)
        }
    }

    /// Taking in what the device returned: it goes to the caller of the
    /// command in flight, and the device is free again. With no command in
    /// flight there is nobody to answer.
    pub open spec fn complete(self, outcome: Result<Output, AppError>) -> (
        ActorView,
        Option<Delivery>,
    ) {
        match self.in_flight {
            Some(command) => (
                ActorView { in_flight: None, ..self },
                Some(Delivery { resp: command.responder(), outcome }),
            ),
            None => (self, None),
        }
    }
}

/// The actor: a queue of commands and at most one command in flight.
pub struct Actor {
    queue: VecDeque<Command>,
    capacity: usize,
    in_flight: Option<Command>,
}

impl View for Actor {
    type V = ActorView;

    closed spec fn view(&self) -> ActorView {
        ActorView { queue: self.queue@, capacity: self.capacity as nat, in_flight: self.in_flight }
    }
}

impl Actor {
    /// An actor with nothing to do, in whose queue `capacity` commands may
    /// wait.
    pub fn new(capacity: usize) -> (actor: Actor)
        ensures
            actor@ == ActorView::empty(capacity as nat),
    {
        Actor { queue: VecDeque::new(), capacity, in_flight: None }
    }

    /// Whether an operation is with the device.
    pub fn busy(&self) -> (b: bool)
        ensures
            b == self@.in_flight is Some,
    {
        self.in_flight.is_some()
    }

    /// Number of commands that wait.
    pub fn waiting(&self) -> (n: usize)
        ensures
            n == self@.queue.len(),
    {
        self.queue.len()
    }

    /// Takes in a command, as [`ActorView::submit`] lays down. Returns
    /// whether it was taken.
    pub fn submit(&mut self, command: Command) -> (taken: bool)
        ensures
            (final(self)@, taken) == old(self)@.submit(command),
    {
        if self.queue.len() < self.capacity {
            self.queue.push_back(command);
            true
        } else {
            false
        }
    }

    /// Hands out the operation that the device is to perform next, as
    /// [`ActorView::next`] lays down.
    pub fn next(&mut self) -> (operation: Option<Operation>)
        ensures
            (final(self)@, operation) == old(self)@.next(),
    {
        if self.in_flight.is_some() {
            return None;
        }
        match self.queue.pop_front() {
            Some(command) => {
                self.in_flight = Some(command);
                assert(self.queue@ =~= old(self).queue@.drop_first());
                Some(command.to_operation())
            },
            None => None,
        }
    }

    /// Takes in what the device returned and hands out the answer for the
    /// caller, as [`ActorView::complete`] lays down.
    pub fn complete(&mut self, outcome: Result<Output, AppError>) -> (delivery: Option<Delivery>)
        ensures
            (final(self)@, delivery) == old(self)@.complete(outcome),
    {
        match self.in_flight {
            Some(command) => {
                self.in_flight = None;
                Some(Delivery { resp: command.to_responder(), outcome })
            },
            None => None,
        }
    }
}

/// One call on the actor.
pub enum Call {
    /// A command arrives.
    Submit(Command),
    /// The next operation is asked for.
    Next,
    /// The device returns an outcome.
    Complete(Result<Output, AppError>),
}

impl ActorView {
    /// The actor after one call.
    pub open spec fn apply(self, call: Call) -> ActorView {
        match call {
            Call::Submit(command) => self.submit(command).0,
            Call::Next => self.next().0,
            Call::Complete(outcome) => self.complete(outcome).0,
        }
    }

    /// The actor after a run of calls.
    pub open spec fn after(self, calls: Seq<Call>) -> ActorView
        decreases calls.len(),
    {
        if calls.len() == 0 {
            self
        } else {
            self.after(calls.drop_last()).apply(calls.last())
        }
    }

    /// The commands that a run of calls got into the queue, in the order in
    /// which they came.
    pub open spec fn taken(self, calls: Seq<Call>) -> Seq<Command>
        decreases calls.len(),
    {
        if calls.len() == 0 {
            Seq::empty()
        } else {
            let before = self.taken(calls.drop_last());
            let actor = self.after(calls.drop_last());
            match calls.last() {
                Call::Submit(command) => if actor.submit(command).1 {
                    before.push(command)
                } else {
                    before
                },
                _ => before,
            }
        }
    }

    /// The commands whose operations a run of calls handed to the device, in
    /// the order in which they went.
    pub open spec fn started(self, calls: Seq<Call>) -> Seq<Command>
        decreases calls.len(),
    {
        if calls.len() == 0 {
            Seq::empty()
        } else {
            let before = self.started(calls.drop_last());
            let actor = self.after(calls.drop_last());
            match calls.last() {
                Call::Next => if actor.next().1 is Some {
                    before.push(actor.queue[0])
                } else {
                    before
                },
                _ => before,
            }
        }
    }

    /// The answers that a run of calls gave, in the order in which they
    /// were given.
    pub open spec fn answered(self, calls: Seq<Call>) -> Seq<Delivery>
        decreases calls.len(),
    {
        if calls.len() == 0 {
            Seq::empty()
        } else {
            let before = self.answered(calls.drop_last());
            let actor = self.after(calls.drop_last());
            match calls.last() {
                Call::Complete(outcome) => match actor.complete(outcome).1 {
                    Some(delivery) => before.push(delivery),
                    None => before,
                },
                _ => before,
            }
        }
    }
}

/// However submissions, requests for work and outcomes are interleaved, an
/// actor that starts with nothing to do serves its callers one at a time
/// and in order:
///
/// - the operations that went to the device, followed by the commands that
///   still wait, are the commands that were taken, in the order in which
///   they came;
/// - every operation that went to the device has been answered, except the
///   last one while it is in flight: a second operation never starts before
///   the first has returned;
/// - the answers went, in the same order, to the callers of those commands;
/// - no more commands wait than the queue has room for.
pub proof fn lemma_serves_one_at_a_time_in_order(capacity: nat, calls: Seq<Call>)
    ensures
        ({
            let start = ActorView::empty(capacity);
            let end = start.after(calls);
            let started = start.started(calls);
            let answered = start.answered(calls);
            &&& started + end.queue == start.taken(calls)
            &&& end.in_flight is None ==> answered.len() == started.len()
            &&& end.in_flight matches Some(command) ==> {
                &&& answered.len() + 1 == started.len()
                &&& started.last() == command
            }
            &&& forall|i: int|
                0 <= i < answered.len() ==> (#[trigger] answered[i]).resp == started[i].responder()
            &&& end.queue.len() <= capacity
            &&& end.capacity == capacity
        }),
    decreases calls.len(),
{
    let start = ActorView::empty(capacity);
    if calls.len() == 0 {
        assert(start.started(calls) + start.queue =~= start.taken(calls));
    } else {
        let earlier = calls.drop_last();
        lemma_serves_one_at_a_time_in_order(capacity, earlier);
        let actor = start.after(earlier);
        let end = start.after(calls);
        let started = start.started(calls);
        match calls.last() {
            Call::Submit(command) => {
                if actor.submit(command).1 {
                    assert(started + end.queue =~= (start.started(earlier) + actor.queue).push(
                        command,
                    ));
                }
            },
            Call::Next => {
                if actor.next().1 is Some {
                    assert(started + end.queue =~= start.started(earlier) + actor.queue);
                }
            },
            Call::Complete(outcome) => {},
        }
    }
}

} // verus!
