//! The device behind the serial link.

use crate::comm;
use crate::devices::Output;
use crate::error::AppError;
use crate::models::Device;
use vstd::prelude::*;

verus! {

/// What is to happen next on the way through an operation.
#[derive(Debug, PartialEq, Eq)]
pub enum Progress {
    /// The link has work to do: a write or a read.
    Link(comm::Action),
    /// The operation is over.
    Finished(Result<Output, AppError>),
}

/// [`Progress`] in specifications.
pub enum ProgressView {
    Link(comm::ActionView),
    Finished(Result<Output, AppError>),
}

impl View for Progress {
    type V = ProgressView;

    open spec fn view(&self) -> ProgressView {
        match self {
            Progress::Link(action) => ProgressView::Link(action@),
            Progress::Finished(outcome) => ProgressView::Finished(*outcome),
        }
    }
}

/// The device state that a state report stands for. The report came in, so
/// the link has no problem.
pub open spec fn device_of(state: comm::State) -> Device {
    Device {
        current_temperature: state.current_temperature,
        target_temperature: state.target_temperature,
        stirrer_on: state.stirrer_on,
        heater_on: state.heater_on,
        serial_problem: false,
    }
}

/// The outcome of an operation, given the outcome of its transaction.
pub open spec fn outcome_of(outcome: Result<comm::Reply, comm::Error>) -> Result<Output, AppError> {
    match outcome {
        Ok(comm::Reply::State(state)) => Ok(Output::State(device_of(state))),
        Ok(comm::Reply::Ack) => Ok(Output::Done),
        Err(error) => Err(AppError::CommError(error)),
    }
}

/// What a step of the protocol means for the operation under way.
pub open spec fn progress_of(action: comm::ActionView) -> ProgressView {
    match action {
        comm::ActionView::Done(outcome) => ProgressView::Finished(outcome_of(outcome)),
        _ => ProgressView::Link(action),
    }
}

/// The brewing device on a serial link.
#[derive(Debug)]
pub struct Brewslave {
    client: comm::Comm,
}

impl Brewslave {
    /// The protocol client of the device.
    pub closed spec fn client(&self) -> comm::Comm {
        self.client
    }

    /// The device on the serial port at `path`, with no operation under way.
    pub fn new(path: &str) -> (device: Brewslave)
        ensures
            device.client().path() == path@,
            device.client().is_idle(),
    {
        Brewslave { client: comm::Comm::new(path) }
    }

    /// Path of the serial port.
    pub fn device_path(&self) -> (path: &str)
        ensures
            path@ == self.client().path(),
    {
        self.client.device_path()
    }

    /// How the link has to be set up.
    pub fn line(&self) -> (line: comm::Line)
        ensures
            line == comm::device_line(),
    {
        self.client.line()
    }

    /// Whether a new operation may begin.
    pub fn idle(&self) -> (b: bool)
        ensures
            b == self.client().is_idle(),
    {
        self.client.idle()
    }

    /// Begins reading the state of the device.
    pub fn read(&mut self) -> (action: comm::Action)
        requires
            old(self).client().is_idle(),
        ensures
            final(self).client().phase() == comm::Phase::Sending(comm::Request::ReadState),
            final(self).client().path() == old(self).client().path(),
            action@ == comm::ActionView::Write(comm::Request::ReadState.encoding()),
    {
        self.client.read_state()
    }

    /// Begins setting the target temperature.
    pub fn set_temperature(&mut self, temperature: crate::temperature::Temperature) -> (action:
        comm::Action)
        requires
            old(self).client().is_idle(),
        ensures
            final(self).client().phase() == comm::Phase::Sending(
                comm::Request::SetTemperature(temperature),
            ),
            final(self).client().path() == old(self).client().path(),
            action@ == comm::ActionView::Write(
                comm::Request::SetTemperature(temperature).encoding(),
            ),
    {
        self.client.set_temperature(temperature)
    }

    /// Takes in how the last action on the link went. The protocol moves as
    /// [`comm::transition`] lays down; where it ends, the operation ends
    /// with the state that was read, with success, or with the error of the
    /// transaction.
    pub fn advance(&mut self, event: comm::Event) -> (progress: Progress)
        ensures
            final(self).client().phase() == comm::transition(
                old(self).client().phase(),
                event@,
            ).0,
            final(self).client().path() == old(self).client().path(),
            progress@ == progress_of(comm::transition(old(self).client().phase(), event@).1),
    {
        match self.client.advance(event) {
            comm::Action::Done(outcome) => Progress::Finished(convert_outcome(outcome)),
            action => Progress::Link(action),
        }
    }
}

/// Converts a state report into the device state.
pub fn convert_state(state: comm::State) -> (device: Device)
    ensures
        device == device_of(state),
{
    Device {
        current_temperature: state.current_temperature,
        target_temperature: state.target_temperature,
        stirrer_on: state.stirrer_on,
        heater_on: state.heater_on,
        serial_problem: false,
    }
}

/// Converts the outcome of a transaction into the outcome of the operation.
pub fn convert_outcome(outcome: Result<comm::Reply, comm::Error>) -> (r: Result<Output, AppError>)
    ensures
        r == outcome_of(outcome),
{
    match outcome {
        Ok(comm::Reply::State(state)) => Ok(Output::State(convert_state(state))),
        Ok(comm::Reply::Ack) => Ok(Output::Done),
        Err(error) => Err(AppError::CommError(error)),
    }
}

} // verus!
