use brewmeister::comm;
use brewmeister::devices::brewslave::{convert_outcome, convert_state, Brewslave, Progress};
use brewmeister::devices::{Actor, Command, Delivery, Operation, Output, Responder, QUEUE_CAPACITY};
use brewmeister::error::AppError;
use brewmeister::models::Device;
use brewmeister::temperature::Temperature;

fn t(value: f32) -> Temperature {
    Temperature::from_bits(value.to_bits())
}

fn read(slot: u64) -> Command {
    Command::Read { resp: Responder(slot) }
}

fn set(value: f32, slot: u64) -> Command {
    Command::SetTemperature { temperature: t(value), resp: Responder(slot) }
}

fn state(current: f32) -> Device {
    Device {
        current_temperature: Some(t(current)),
        target_temperature: Some(t(65.0)),
        stirrer_on: false,
        heater_on: true,
        serial_problem: false,
    }
}

#[test]
fn queue_capacity_is_that_of_the_channel() {
    assert_eq!(QUEUE_CAPACITY, 32);
}

#[test]
fn commands_name_their_operation_and_caller() {
    assert_eq!(read(7).to_operation(), Operation::Read);
    assert_eq!(read(7).to_responder(), Responder(7));
    assert_eq!(set(65.0, 8).to_operation(), Operation::SetTemperature(t(65.0)));
    assert_eq!(set(65.0, 8).to_responder(), Responder(8));
}

#[test]
fn new_actor_has_nothing_to_do() {
    let mut actor = Actor::new(QUEUE_CAPACITY);
    assert!(!actor.busy());
    assert_eq!(actor.waiting(), 0);
    assert_eq!(actor.next(), None);
    assert_eq!(actor.complete(Ok(Output::Done)), None);
}

#[test]
fn read_is_forwarded_and_answered() {
    let mut actor = Actor::new(QUEUE_CAPACITY);
    assert!(actor.submit(read(1)));
    assert_eq!(actor.next(), Some(Operation::Read));
    assert!(actor.busy());
    assert_eq!(
        actor.complete(Ok(Output::State(state(64.0)))),
        Some(Delivery { resp: Responder(1), outcome: Ok(Output::State(state(64.0))) })
    );
    assert!(!actor.busy());
}

#[test]
fn set_temperature_is_forwarded_and_answered() {
    let mut actor = Actor::new(QUEUE_CAPACITY);
    assert!(actor.submit(set(65.0, 2)));
    assert_eq!(actor.next(), Some(Operation::SetTemperature(t(65.0))));
    assert_eq!(
        actor.complete(Ok(Output::Done)),
        Some(Delivery { resp: Responder(2), outcome: Ok(Output::Done) })
    );
}

#[test]
fn commands_are_served_in_arrival_order() {
    let mut actor = Actor::new(QUEUE_CAPACITY);
    assert!(actor.submit(read(1)));
    assert!(actor.submit(set(65.0, 2)));
    assert!(actor.submit(read(3)));
    assert_eq!(actor.waiting(), 3);
    assert_eq!(actor.next(), Some(Operation::Read));
    assert_eq!(actor.complete(Ok(Output::State(state(20.0)))).unwrap().resp, Responder(1));
    assert_eq!(actor.next(), Some(Operation::SetTemperature(t(65.0))));
    assert_eq!(actor.complete(Ok(Output::Done)).unwrap().resp, Responder(2));
    assert_eq!(actor.next(), Some(Operation::Read));
    assert_eq!(actor.complete(Ok(Output::State(state(21.0)))).unwrap().resp, Responder(3));
    assert_eq!(actor.next(), None);
}

#[test]
fn no_operation_starts_while_one_is_in_flight() {
    let mut actor = Actor::new(QUEUE_CAPACITY);
    assert!(actor.submit(read(1)));
    assert!(actor.submit(read(2)));
    assert_eq!(actor.next(), Some(Operation::Read));
    assert_eq!(actor.next(), None);
    assert!(actor.submit(set(30.0, 3)));
    assert_eq!(actor.next(), None);
    assert_eq!(actor.waiting(), 2);
    assert!(actor.complete(Ok(Output::State(state(20.0)))).is_some());
    assert_eq!(actor.next(), Some(Operation::Read));
    assert_eq!(actor.next(), None);
}

#[test]
fn device_errors_reach_the_caller_and_the_actor_goes_on() {
    let mut actor = Actor::new(QUEUE_CAPACITY);
    assert!(actor.submit(read(1)));
    assert!(actor.submit(read(2)));
    assert_eq!(actor.next(), Some(Operation::Read));
    assert_eq!(
        actor.complete(Err(AppError::CommError(comm::Error::Timeout))),
        Some(Delivery {
            resp: Responder(1),
            outcome: Err(AppError::CommError(comm::Error::Timeout))
        })
    );
    assert_eq!(actor.next(), Some(Operation::Read));
    assert_eq!(actor.complete(Ok(Output::State(state(20.0)))).unwrap().resp, Responder(2));
}

#[test]
fn full_queue_turns_commands_away() {
    let mut actor = Actor::new(2);
    assert!(actor.submit(read(1)));
    assert!(actor.submit(read(2)));
    assert!(!actor.submit(read(3)));
    assert_eq!(actor.waiting(), 2);
    assert_eq!(actor.next(), Some(Operation::Read));
    assert!(actor.submit(read(4)));
    assert!(!actor.submit(read(5)));
    assert_eq!(actor.complete(Ok(Output::Done)).unwrap().resp, Responder(1));
    assert_eq!(actor.next(), Some(Operation::Read));
    assert_eq!(actor.complete(Ok(Output::Done)).unwrap().resp, Responder(2));
    assert_eq!(actor.next(), Some(Operation::Read));
    assert_eq!(actor.complete(Ok(Output::Done)).unwrap().resp, Responder(4));
    assert_eq!(actor.next(), None);
}

#[test]
fn actor_without_room_takes_nothing() {
    let mut actor = Actor::new(0);
    assert!(!actor.submit(read(1)));
    assert_eq!(actor.next(), None);
}

#[test]
fn outcome_without_operation_in_flight_goes_nowhere() {
    let mut actor = Actor::new(QUEUE_CAPACITY);
    assert!(actor.submit(read(1)));
    assert_eq!(actor.complete(Ok(Output::Done)), None);
    assert_eq!(actor.waiting(), 1);
    assert_eq!(actor.next(), Some(Operation::Read));
}

/// Many callers at once, in an interleaving drawn from a generator: the
/// device never sees a second operation before the first returned, and the
/// answers come in the order of arrival.
#[test]
fn interleaved_callers_are_served_one_at_a_time() {
    let mut seed: u64 = 0x9e37_79b9_7f4a_7c15;
    let mut draw = |limit: u64| {
        seed ^= seed << 13;
        seed ^= seed >> 7;
        seed ^= seed << 17;
        seed % limit
    };
    let mut actor = Actor::new(QUEUE_CAPACITY);
    let mut next_slot: u64 = 0;
    let mut taken: Vec<Command> = Vec::new();
    let mut started: Vec<Operation> = Vec::new();
    let mut answered: Vec<Responder> = Vec::new();
    let mut in_flight = 0u32;
    for _ in 0..5000 {
        match draw(3) {
            0 => {
                let command = if draw(2) == 0 {
                    read(next_slot)
                } else {
                    set(20.0 + draw(80) as f32, next_slot)
                };
                next_slot += 1;
                if actor.submit(command) {
                    taken.push(command);
                } else {
                    assert_eq!(actor.waiting(), QUEUE_CAPACITY);
                }
            }
            1 => {
                if let Some(operation) = actor.next() {
                    assert_eq!(in_flight, 0);
                    in_flight += 1;
                    started.push(operation);
                } else {
                    assert!(in_flight == 1 || actor.waiting() == 0);
                }
            }
            _ => {
                if let Some(delivery) = actor.complete(Ok(Output::Done)) {
                    assert_eq!(in_flight, 1);
                    in_flight -= 1;
                    answered.push(delivery.resp);
                } else {
                    assert_eq!(in_flight, 0);
                }
            }
        }
        assert!(in_flight <= 1);
        assert_eq!(actor.busy(), in_flight == 1);
    }
    assert!(started.len() > 100);
    assert_eq!(started.len(), answered.len() + in_flight as usize);
    assert_eq!(taken.len(), started.len() + actor.waiting());
    for (index, operation) in started.iter().enumerate() {
        assert_eq!(*operation, taken[index].to_operation());
    }
    for (index, resp) in answered.iter().enumerate() {
        assert_eq!(*resp, taken[index].to_responder());
    }
}

#[test]
fn state_report_becomes_device_state_without_serial_problem() {
    let report = comm::State {
        current_temperature: Some(t(64.5)),
        target_temperature: None,
        stirrer_on: true,
        heater_on: false,
    };
    assert_eq!(
        convert_state(report),
        Device {
            current_temperature: Some(t(64.5)),
            target_temperature: None,
            stirrer_on: true,
            heater_on: false,
            serial_problem: false
        }
    );
}

#[test]
fn transaction_outcomes_become_operation_outcomes() {
    assert_eq!(convert_outcome(Ok(comm::Reply::Ack)), Ok(Output::Done));
    assert_eq!(
        convert_outcome(Err(comm::Error::Nack)),
        Err(AppError::CommError(comm::Error::Nack))
    );
    assert_eq!(
        convert_outcome(Err(comm::Error::Timeout)),
        Err(AppError::CommError(comm::Error::Timeout))
    );
    assert_eq!(
        convert_outcome(Err(comm::Error::UnexpectedData)),
        Err(AppError::CommError(comm::Error::UnexpectedData))
    );
}

#[test]
fn brewslave_reads_the_device() {
    let mut device = Brewslave::new("/dev/ttyACM0");
    assert_eq!(device.device_path(), "/dev/ttyACM0");
    assert_eq!(device.line().baud_rate, 115200);
    assert!(device.idle());
    assert_eq!(device.read(), comm::Action::Write(vec![0x01]));
    assert!(!device.idle());
    assert_eq!(device.advance(comm::Event::Written), Progress::Link(comm::Action::Read(4)));
    assert_eq!(
        device.advance(comm::Event::Received(vec![0x00, 0x00, 0x81, 0x42])),
        Progress::Link(comm::Action::Read(4))
    );
    assert_eq!(
        device.advance(comm::Event::Received(vec![0x00, 0x00, 0x82, 0x42])),
        Progress::Link(comm::Action::Read(1))
    );
    assert_eq!(
        device.advance(comm::Event::Received(vec![0x02])),
        Progress::Finished(Ok(Output::State(Device {
            current_temperature: Some(t(64.5)),
            target_temperature: Some(t(65.0)),
            stirrer_on: false,
            heater_on: true,
            serial_problem: false
        })))
    );
    assert!(device.idle());
}

#[test]
fn brewslave_sets_the_temperature() {
    let mut device = Brewslave::new("/dev/ttyACM0");
    assert_eq!(
        device.set_temperature(t(78.0)),
        comm::Action::Write(vec![0x02, 0x00, 0x00, 0x9c, 0x42])
    );
    assert_eq!(device.advance(comm::Event::Written), Progress::Link(comm::Action::Read(1)));
    assert_eq!(
        device.advance(comm::Event::Received(vec![0x80])),
        Progress::Finished(Ok(Output::Done))
    );
    assert!(device.idle());
}

#[test]
fn brewslave_reports_protocol_errors() {
    let mut device = Brewslave::new("/dev/ttyACM0");
    device.set_temperature(t(78.0));
    device.advance(comm::Event::Written);
    assert_eq!(
        device.advance(comm::Event::Received(vec![0x40])),
        Progress::Finished(Err(AppError::CommError(comm::Error::Nack)))
    );
    device.read();
    assert_eq!(
        device.advance(comm::Event::TimedOut),
        Progress::Finished(Err(AppError::CommError(comm::Error::Timeout)))
    );
    device.read();
    assert_eq!(
        device.advance(comm::Event::Failed),
        Progress::Finished(Err(AppError::CommError(comm::Error::TokioIo)))
    );
    assert!(device.idle());
}
