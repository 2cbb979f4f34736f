//! The serial protocol spoken with the microcontroller.
//!
//! The client never touches the link itself. It hands out one [`Action`] at
//! a time (bytes to send, a number of bytes to receive, or the outcome of
//! the transaction) and is told by an [`Event`] how the action went.

use crate::temperature::Temperature;
use byteorder::{ByteOrder, LittleEndian};
use vstd::prelude::*;

verus! {

/// Status bit with which the device accepts a command.
pub const RESPONSE_ACK: u8 = 0x80;

/// Status bit with which the device rejects a command.
pub const RESPONSE_NACK: u8 = 0x40;

/// Bit of the state byte that is set while the stirrer runs.
pub const RESPONSE_STIRRER_BIT: u8 = 0x1;

/// Bit of the state byte that is set while the heater runs.
pub const RESPONSE_HEATER_BIT: u8 = 0x2;

/// Seconds that a single write to or read from the link may take.
pub const STEP_TIMEOUT_SECS: u64 = 1;

/// Speed of the link in bits per second.
pub const BAUD_RATE: u32 = 115200;

/// Number of bytes in an encoded temperature.
pub const TEMPERATURE_LEN: usize = 4;

/// Number of bytes in the answer to a state request.
pub const STATE_LEN: usize = 9;

/// What went wrong in a transaction.
#[derive(Clone, Copy, Debug, PartialEq, Eq)]
pub enum Error {
    /// The device rejected the command.
    Nack,
    /// The device answered with something the protocol does not allow.
    UnexpectedData,
    /// The link failed while sending or receiving.
    TokioIo,
    /// The link could not be opened.
    TokioSerial,
    /// A write or a read did not finish in time.
    Timeout,
}

impl Error {
    /// The error in words.
    pub open spec fn text(self) -> Seq<char> {
        match self {
            Error::Nack => "Received NACK"@,
            Error::UnexpectedData => "Received unexpected data"@,
            Error::TokioIo => "Tokio I/O error"@,
            Error::TokioSerial => "Tokio Serial error"@,
            Error::Timeout => "Serial I/O timeout"@,
        }
    }

    /// The error in words.
    pub fn message(&self) -> (text: String)
        ensures
            text@ == self.text(),
    {
        match self {
            Error::Nack => "Received NACK".to_owned(),
            Error::UnexpectedData => "Received unexpected data".to_owned(),
            Error::TokioIo => "Tokio I/O error".to_owned(),
            Error::TokioSerial => "Tokio Serial error".to_owned(),
            Error::Timeout => "Serial I/O timeout".to_owned(),
        }
    }
}

/// State of the device as it reports it.
#[derive(Clone, Copy, Debug, PartialEq, Eq)]
pub struct State {
    /// Measured temperature, absent while the sensor has no reading.
    pub current_temperature: Option<Temperature>,
    /// Temperature the device regulates towards, absent while undefined.
    pub target_temperature: Option<Temperature>,
    pub stirrer_on: bool,
    pub heater_on: bool,
}

/// The operations of the protocol.
#[derive(Clone, Copy, Debug, PartialEq, Eq)]
pub enum Command {
    ReadState,
    SetTemperature,
    TurnStirrerOn,
    TurnStirrerOff,
}

impl Command {
    /// The byte that opens a request for this operation.
    pub open spec fn code(self) -> u8 {
        match self {
            Command::ReadState => 0x1,
            Command::SetTemperature => 0x2,
            Command::TurnStirrerOn => 0x3,
            Command::TurnStirrerOff => 0x4,
        }
    }

    /// The byte that opens a request for this operation.
    pub fn opcode(&self) -> (byte: u8)
        ensures
            byte == self.code(),
    {
        match self {
            Command::ReadState => 0x1,
            Command::SetTemperature => 0x2,
            Command::TurnStirrerOn => 0x3,
            Command::TurnStirrerOff => 0x4,
        }
    }
}

/// The number that four bytes spell, least significant byte first.
pub open spec fn le_u32(bytes: Seq<u8>) -> int {
    bytes[0] + 0x100 * bytes[1] + 0x1_0000 * bytes[2] + 0x100_0000 * bytes[3]
}

/// The four bytes that spell a number, least significant byte first.
pub open spec fn le_bytes(n: u32) -> Seq<u8> {
    seq![
        (n % 0x100) as u8,
        (n / 0x100 % 0x100) as u8,
        (n / 0x1_0000 % 0x100) as u8,
        (n / 0x100_0000) as u8,
    ]
}

/// Reading back what was written gives the number again.
pub proof fn lemma_le_round_trip(n: u32)
    ensures
        le_bytes(n).len() == 4,
        le_u32(le_bytes(n)) == n,
{
}

/// Calls `byteorder::LittleEndian::read_u32`, which takes the first four
/// bytes of the buffer as a number, least significant byte first, and
/// panics on a shorter buffer.
#[verifier::external_body]
fn read_u32(buf: &[u8]) -> (n: u32)
    requires
        buf@.len() >= 4,
    ensures
        n == le_u32(buf@),
{
    LittleEndian::read_u32(buf)
}

/// Calls `byteorder::LittleEndian::write_u32` on a buffer of four bytes,
/// which it fills with the number, least significant byte first.
#[verifier::external_body]
fn write_u32(n: u32) -> (buf: [u8; 4])
    ensures
        buf@ == le_bytes(n),
{
    let mut buf = [0u8; 4];
    LittleEndian::write_u32(&mut buf, n);
    buf
}

/// What a status byte says: the acknowledge bit wins, then the reject bit;
/// a byte with neither is not a status.
pub open spec fn ack_result(ack: u8) -> Result<(), Error> {
    if ack & RESPONSE_ACK != 0 {
        Ok(())
    } else if ack & RESPONSE_NACK != 0 {
        Err(Error::Nack)
    } else {
        Err(Error::UnexpectedData)
    }
}

/// Interprets the status byte that answers a command.
pub fn ack_byte_to(ack: u8) -> (r: Result<(), Error>)
    ensures
        r == ack_result(ack),
{
    if (ack & RESPONSE_ACK) != 0 {
        Ok(())
    } else if (ack & RESPONSE_NACK) != 0 {
        Err(Error::Nack)
    } else {
        Err(Error::UnexpectedData)
    }
}

/// The temperature that four bytes from the device stand for. The device
/// sends a NaN where it has no value, which is read as absent.
pub open spec fn temperature_of(bytes: Seq<u8>) -> Option<Temperature> {
    let t = Temperature { bits: le_u32(bytes) as u32 };
    if t.is_nan() {
        None
    } else {
        Some(t)
    }
}

/// Decodes a temperature from the four bytes in which the device sends it.
/// Anything but four bytes is not a temperature.
pub fn decode_temperature(bytes: &[u8]) -> (r: Result<Option<Temperature>, Error>)
    ensures
        bytes@.len() == TEMPERATURE_LEN ==> r == Ok::<Option<Temperature>, Error>(
            temperature_of(bytes@),
        ),
        bytes@.len() != TEMPERATURE_LEN ==> r == Err::<Option<Temperature>, Error>(
            Error::UnexpectedData,
        ),
        r matches Ok(Some(value)) ==> !value.is_nan(),
{
    if bytes.len() != TEMPERATURE_LEN {
        return Err(Error::UnexpectedData);
    }
    let t = Temperature::from_bits(read_u32(bytes));
    if t.nan() {
        Ok(None)
    } else {
        Ok(Some(t))
    }
}

/// The state that two decoded temperatures and a state byte make up.
pub open spec fn state_of(
    current: Option<Temperature>,
    target: Option<Temperature>,
    flags: u8,
) -> State {
    State {
        current_temperature: current,
        target_temperature: target,
        stirrer_on: flags & RESPONSE_STIRRER_BIT != 0,
        heater_on: flags & RESPONSE_HEATER_BIT != 0,
    }
}

/// The state that a whole answer of nine bytes stands for: current
/// temperature, target temperature, state byte.
pub open spec fn state_of_bytes(bytes: Seq<u8>) -> State {
    state_of(
        temperature_of(bytes.subrange(0, 4)),
        temperature_of(bytes.subrange(4, 8)),
        bytes[8],
    )
}

/// Puts a state together from its decoded parts.
pub fn assemble_state(
    current: Option<Temperature>,
    target: Option<Temperature>,
    flags: u8,
) -> (state: State)
    ensures
        state == state_of(current, target, flags),
{
    State {
        current_temperature: current,
        target_temperature: target,
        stirrer_on: (flags & RESPONSE_STIRRER_BIT) != 0,
        heater_on: (flags & RESPONSE_HEATER_BIT) != 0,
    }
}

/// Decodes the answer to a state request. Anything but nine bytes is not
/// such an answer.
pub fn decode_state(bytes: &[u8]) -> (r: Result<State, Error>)
    ensures
        bytes@.len() == STATE_LEN ==> r == Ok::<State, Error>(state_of_bytes(bytes@)),
        bytes@.len() != STATE_LEN ==> r == Err::<State, Error>(Error::UnexpectedData),
        r matches Ok(state) ==> {
            &&& state.current_temperature matches Some(t) ==> !t.is_nan()
            &&& state.target_temperature matches Some(t) ==> !t.is_nan()
        },
{
    if bytes.len() != STATE_LEN {
        return Err(Error::UnexpectedData);
    }
    let current = decode_temperature(vstd::slice::slice_subrange(bytes, 0, 4))?;
    let target = decode_temperature(vstd::slice::slice_subrange(bytes, 4, 8))?;
    Ok(assemble_state(current, target, bytes[8]))
}

/// A request to the device.
#[derive(Clone, Copy, Debug, PartialEq, Eq)]
pub enum Request {
    /// Ask for the current state.
    ReadState,
    /// Set the temperature that the device regulates towards.
    SetTemperature(Temperature),
    /// Switch the stirrer on or off.
    WriteStirrer(bool),
}

impl Request {
    /// The operation that carries the request.
    pub open spec fn command(self) -> Command {
        match self {
            Request::ReadState => Command::ReadState,
            Request::SetTemperature(_) => Command::SetTemperature,
            Request::WriteStirrer(true) => Command::TurnStirrerOn,
            Request::WriteStirrer(false) => Command::TurnStirrerOff,
        }
    }

    /// The bytes that go out: the opcode, followed for a new target by the
    /// temperature, least significant byte first.
    pub open spec fn encoding(self) -> Seq<u8> {
        match self {
            Request::SetTemperature(t) => seq![self.command().code()] + le_bytes(t.bits),
            _ => seq![self.command().code()],
        }
    }

    /// Encodes the request.
    pub fn encode(&self) -> (bytes: Vec<u8>)
        ensures
            bytes@ == self.encoding(),
    {
        match self {
            Request::ReadState => vec![Command::ReadState.opcode()],
            Request::SetTemperature(t) => {
                let value = write_u32(t.to_bits());
                let bytes = vec![
                    Command::SetTemperature.opcode(),
                    value[0],
                    value[1],
                    value[2],
                    value[3],
                ];
                assert(bytes@ =~= self.encoding());
                bytes
            },
            Request::WriteStirrer(on) => {
                if *on {
                    vec![Command::TurnStirrerOn.opcode()]
                } else {
                    vec![Command::TurnStirrerOff.opcode()]
                }
            },
        }
    }
}

/// What a transaction that went well brings back.
#[derive(Clone, Copy, Debug, PartialEq, Eq)]
pub enum Reply {
    /// The answer to a state request.
    State(State),
    /// The device accepted the command.
    Ack,
}

/// How far a transaction has come.
#[derive(Clone, Copy, Debug, PartialEq, Eq)]
pub enum Phase {
    /// No transaction is under way.
    Idle,
    /// The request is being sent.
    Sending(Request),
    /// Waiting for the four bytes of the current temperature.
    AwaitingCurrent,
    /// Waiting for the four bytes of the target temperature.
    AwaitingTarget { current: Option<Temperature> },
    /// Waiting for the state byte.
    AwaitingFlags { current: Option<Temperature>, target: Option<Temperature> },
    /// Waiting for the status byte that answers a command.
    AwaitingStatus,
}

/// What the client wants done on the link. Each write and each read is to be
/// given up after [`STEP_TIMEOUT_SECS`].
#[derive(Debug, PartialEq, Eq)]
pub enum Action {
    /// Send these bytes.
    Write(Vec<u8>),
    /// Receive exactly this many bytes.
    Read(usize),
    /// Nothing more: the transaction is over, with this outcome.
    Done(Result<Reply, Error>),
}

/// [`Action`] in specifications.
pub enum ActionView {
    Write(Seq<u8>),
    Read(usize),
    Done(Result<Reply, Error>),
}

impl View for Action {
    type V = ActionView;

    open spec fn view(&self) -> ActionView {
        match self {
            Action::Write(bytes) => ActionView::Write(bytes@),
            Action::Read(len) => ActionView::Read(*len),
            Action::Done(outcome) => ActionView::Done(*outcome),
        }
    }
}

/// How the last action went.
#[derive(Debug, PartialEq, Eq)]
pub enum Event {
    /// The bytes are out.
    Written,
    /// These bytes came in.
    Received(Vec<u8>),
    /// The write or read did not finish in time.
    TimedOut,
    /// The link reported an error.
    Failed,
}

/// [`Event`] in specifications.
pub enum EventView {
    Written,
    Received(Seq<u8>),
    TimedOut,
    Failed,
}

impl View for Event {
    type V = EventView;

    open spec fn view(&self) -> EventView {
        match self {
            Event::Written => EventView::Written,
            Event::Received(bytes) => EventView::Received(bytes@),
            Event::TimedOut => EventView::TimedOut,
            Event::Failed => EventView::Failed,
        }
    }
}

/// The outcome of a command, given the status byte that answered it.
pub open spec fn command_outcome(status: u8) -> Result<Reply, Error> {
    match ack_result(status) {
        Ok(_) => Ok(Reply::Ack),
        Err(e) => Err(e),
    }
}

/// The protocol: where an event takes a transaction, and what is to be done
/// next.
///
/// A time-out or a failure of the link ends the transaction with that
/// error. So does an event that does not answer the action that was handed
/// out, or bytes of another number than was asked for: they end it as
/// unexpected data.
pub open spec fn transition(phase: Phase, event: EventView) -> (Phase, ActionView) {
    let unexpected = (Phase::Idle, ActionView::Done(Err(Error::UnexpectedData)));
    match event {
        EventView::TimedOut => (Phase::Idle, ActionView::Done(Err(Error::Timeout))),
        EventView::Failed => (Phase::Idle, ActionView::Done(Err(Error::TokioIo))),
        EventView::Written => match phase {
            Phase::Sending(Request::ReadState) => (
                Phase::AwaitingCurrent,
                ActionView::Read(TEMPERATURE_LEN),
            ),
            Phase::Sending(_) => (Phase::AwaitingStatus, ActionView::Read(1)),
            _ => unexpected,
        },
        EventView::Received(bytes) => match phase {
            Phase::AwaitingCurrent => if bytes.len() == TEMPERATURE_LEN {
                (
                    Phase::AwaitingTarget { current: temperature_of(bytes) },
                    ActionView::Read(TEMPERATURE_LEN),
                )
            } else {
                unexpected
            },
            Phase::AwaitingTarget { current } => if bytes.len() == TEMPERATURE_LEN {
                (
                    Phase::AwaitingFlags { current, target: temperature_of(bytes) },
                    ActionView::Read(1),
                )
            } else {
                unexpected
            },
            Phase::AwaitingFlags { current, target } => if bytes.len() == 1 {
                (
                    Phase::Idle,
                    ActionView::Done(Ok(Reply::State(state_of(current, target, bytes[0])))),
                )
            } else {
                unexpected
            },
            Phase::AwaitingStatus => if bytes.len() == 1 {
                (Phase::Idle, ActionView::Done(command_outcome(bytes[0])))
            } else {
                unexpected
            },
            _ => unexpected,
        },
    }
}

/// Number of data bits per character on the link.
#[derive(Clone, Copy, Debug, PartialEq, Eq)]
pub enum DataBits {
    Five,
    Six,
    Seven,
    Eight,
}

/// Parity checking on the link.
#[derive(Clone, Copy, Debug, PartialEq, Eq)]
pub enum Parity {
    Disabled,
    Odd,
    Even,
}

/// Number of stop bits per character on the link.
#[derive(Clone, Copy, Debug, PartialEq, Eq)]
pub enum StopBits {
    One,
    Two,
}

/// Flow control on the link.
#[derive(Clone, Copy, Debug, PartialEq, Eq)]
pub enum FlowControl {
    Disabled,
    Software,
    Hardware,
}

/// How the link to the device is set up.
#[derive(Clone, Copy, Debug, PartialEq, Eq)]
pub struct Line {
    pub baud_rate: u32,
    pub data_bits: DataBits,
    pub parity: Parity,
    pub stop_bits: StopBits,
    pub flow_control: FlowControl,
}

/// The set-up that the device expects: 115200 bits per second, eight data
/// bits, no parity, one stop bit, no flow control.
pub open spec fn device_line() -> Line {
    Line {
        baud_rate: BAUD_RATE,
        data_bits: DataBits::Eight,
        parity: Parity::Disabled,
        stop_bits: StopBits::One,
        flow_control: FlowControl::Disabled,
    }
}

/// The client side of the protocol for one link. It runs one transaction at
/// a time.
#[derive(Debug)]
pub struct Comm {
    path: String,
    phase: Phase,
}

impl Comm {
    /// Path of the serial device.
    pub closed spec fn path(&self) -> Seq<char> {
        self.path@
    }

    /// How far the transaction under way has come.
    pub closed spec fn phase(&self) -> Phase {
        self.phase
    }

    /// No transaction is under way.
    pub open spec fn is_idle(&self) -> bool {
        self.phase() == Phase::Idle
    }

    /// A client for the device at `path`, with no transaction under way.
    pub fn new(path: &str) -> (comm: Comm)
        ensures
            comm.path() == path@,
            comm.is_idle(),
    {
        Comm { path: path.to_owned(), phase: Phase::Idle }
    }

    /// Path of the serial device.
    pub fn device_path(&self) -> (path: &str)
        ensures
            path@ == self.path(),
    {
        self.path.as_str()
    }

    /// How the link has to be set up.
    pub fn line(&self) -> (line: Line)
        ensures
            line == device_line(),
    {
        Line {
            baud_rate: BAUD_RATE,
            data_bits: DataBits::Eight,
            parity: Parity::Disabled,
            stop_bits: StopBits::One,
            flow_control: FlowControl::Disabled,
        }
    }

    /// Whether a new transaction may begin.
    pub fn idle(&self) -> (b: bool)
        ensures
            b == self.is_idle(),
    {
        match self.phase {
            Phase::Idle => true,
            _ => false,
        }
    }

    /// How far the transaction under way has come.
    pub fn current_phase(&self) -> (phase: Phase)
        ensures
            phase == self.phase(),
    {
        self.phase
    }

    /// Begins a transaction: the request is to be sent.
    pub fn begin(&mut self, request: Request) -> (action: Action)
        requires
            old(self).is_idle(),
        ensures
            final(self).phase() == Phase::Sending(request),
            final(self).path() == old(self).path(),
            action@ == ActionView::Write(request.encoding()),
    {
        self.phase = Phase::Sending(request);
        Action::Write(request.encode())
    }

    /// Begins reading the current state of the device.
    pub fn read_state(&mut self) -> (action: Action)
        requires
            old(self).is_idle(),
        ensures
            final(self).phase() == Phase::Sending(Request::ReadState),
            final(self).path() == old(self).path(),
            action@ == ActionView::Write(Request::ReadState.encoding()),
    {
        self.begin(Request::ReadState)
    }

    /// Begins setting the temperature, in degrees Celsius, that the device
    /// is to reach.
    pub fn set_temperature(&mut self, temperature: Temperature) -> (action: Action)
        requires
            old(self).is_idle(),
        ensures
            final(self).phase() == Phase::Sending(Request::SetTemperature(temperature)),
            final(self).path() == old(self).path(),
            action@ == ActionView::Write(Request::SetTemperature(temperature).encoding()),
    {
        self.begin(Request::SetTemperature(temperature))
    }

    /// Begins switching the stirrer.
    pub fn write_stirrer(&mut self, stirrer_on: bool) -> (action: Action)
        requires
            old(self).is_idle(),
        ensures
            final(self).phase() == Phase::Sending(Request::WriteStirrer(stirrer_on)),
            final(self).path() == old(self).path(),
            action@ == ActionView::Write(Request::WriteStirrer(stirrer_on).encoding()),
    {
        self.begin(Request::WriteStirrer(stirrer_on))
    }

    /// Takes in how the last action went and says what is to be done next,
    /// as [`transition`] lays down.
    pub fn advance(&mut self, event: Event) -> (action: Action)
        ensures
            (final(self).phase(), action@) == transition(old(self).phase(), event@),
            final(self).path() == old(self).path(),
    {
        let phase = self.phase;
        self.phase = Phase::Idle;
        match event {
            Event::TimedOut => Action::Done(Err(Error::Timeout)),
            Event::Failed => Action::Done(Err(Error::TokioIo)),
            Event::Written => match phase {
                Phase::Sending(Request::ReadState) => {
                    self.phase = Phase::AwaitingCurrent;
                    Action::Read(TEMPERATURE_LEN)
                },
                Phase::Sending(_) => {
                    self.phase = Phase::AwaitingStatus;
                    Action::Read(1)
                },
                _ => Action::Done(Err(Error::UnexpectedData)),
            },
            Event::Received(bytes) => match phase {
                Phase::AwaitingCurrent => match decode_temperature(bytes.as_slice()) {
                    Ok(current) => {
                        self.phase = Phase::AwaitingTarget { current };
                        Action::Read(TEMPERATURE_LEN)
                    },
                    Err(error) => Action::Done(Err(error)),
                },
                Phase::AwaitingTarget { current } => match decode_temperature(bytes.as_slice()) {
                    Ok(target) => {
                        self.phase = Phase::AwaitingFlags { current, target };
                        Action::Read(1)
                    },
                    Err(error) => Action::Done(Err(error)),
                },
                Phase::AwaitingFlags { current, target } => {
                    if bytes.len() == 1 {
                        Action::Done(Ok(Reply::State(assemble_state(current, target, bytes[0]))))
                    } else {
                        Action::Done(Err(Error::UnexpectedData))
                    }
                },
                Phase::AwaitingStatus => {
                    if bytes.len() == 1 {
                        match ack_byte_to(bytes[0]) {
                            Ok(_) => Action::Done(Ok(Reply::Ack)),
                            Err(e) => Action::Done(Err(e)),
                        }
                    } else {
                        Action::Done(Err(Error::UnexpectedData))
                    }
                },
                _ => Action::Done(Err(Error::UnexpectedData)),
            },
        }
    }
}

/// A status byte by its value: from 128 on it acknowledges, from 64 to 127
/// it rejects, below 64 it is not a status.
pub proof fn lemma_status_by_value(status: u8)
    ensures
        ack_result(status) is Ok <==> status >= 128,
        ack_result(status) == Err::<(), Error>(Error::Nack) <==> 64 <= status < 128,
        ack_result(status) == Err::<(), Error>(Error::UnexpectedData) <==> status < 64,
{
    assert((status & 0x80 != 0) <==> status >= 128) by (bit_vector);
    assert(status < 128 ==> ((status & 0x40 != 0) <==> status >= 64)) by (bit_vector);
}

/// Bytes that the device sends for a temperature are read as absent exactly
/// when they spell a NaN, and what is read is never a NaN.
pub proof fn lemma_nan_is_absent(bytes: Seq<u8>)
    ensures
        temperature_of(bytes) is None <==> (Temperature { bits: le_u32(bytes) as u32 }).is_nan(),
        temperature_of(bytes) matches Some(t) ==> !t.is_nan() && t.bits == le_u32(bytes) as u32,
{
}

/// A temperature that went out in a request and comes back unchanged is
/// read as the same temperature, unless it is a NaN.
pub proof fn lemma_temperature_round_trip(t: Temperature)
    ensures
        Request::SetTemperature(t).encoding().len() == 5,
        temperature_of(Request::SetTemperature(t).encoding().subrange(1, 5)) == (if t.is_nan() {
            None
        } else {
            Some(t)
        }),
{
    lemma_le_round_trip(t.bits);
    assert(Request::SetTemperature(t).encoding().subrange(1, 5) =~= le_bytes(t.bits));
}

/// A command from request to outcome: once the request is out the client
/// asks for one byte, and that byte alone decides how the transaction ends.
/// A byte with the acknowledge bit ends it well, one with only the reject
/// bit as rejected, any other as unexpected data.
pub proof fn lemma_command_transaction(request: Request, status: u8)
    requires
        request != Request::ReadState,
    ensures
        ({
            let (sent, first) = transition(Phase::Sending(request), EventView::Written);
            let (end, last) = transition(sent, EventView::Received(seq![status]));
            &&& first == ActionView::Read(1)
            &&& end == Phase::Idle
            &&& last == ActionView::Done(command_outcome(status))
            &&& status >= 128 ==> last == ActionView::Done(Ok(Reply::Ack))
            &&& 64 <= status < 128 ==> last == ActionView::Done(Err(Error::Nack))
            &&& status < 64 ==> last == ActionView::Done(Err(Error::UnexpectedData))
        }),
{
    lemma_status_by_value(status);
}

/// A state request from request to outcome: the client asks for four bytes,
/// four bytes and one byte in turn, and ends with the state that the nine
/// bytes stand for, in which no temperature is a NaN.
pub proof fn lemma_state_transaction(current: Seq<u8>, target: Seq<u8>, flags: u8)
    requires
        current.len() == TEMPERATURE_LEN,
        target.len() == TEMPERATURE_LEN,
    ensures
        ({
            let (sent, first) = transition(
                Phase::Sending(Request::ReadState),
                EventView::Written,
            );
            let (half, second) = transition(sent, EventView::Received(current));
            let (most, third) = transition(half, EventView::Received(target));
            let (end, last) = transition(most, EventView::Received(seq![flags]));
            let state = state_of_bytes(current + target + seq![flags]);
            &&& first == ActionView::Read(TEMPERATURE_LEN)
            &&& second == ActionView::Read(TEMPERATURE_LEN)
            &&& third == ActionView::Read(1)
            &&& last == ActionView::Done(Ok(Reply::State(state)))
            &&& end == Phase::Idle
            &&& state.current_temperature matches Some(t) ==> !t.is_nan()
            &&& state.target_temperature matches Some(t) ==> !t.is_nan()
        }),
{
    let all = current + target + seq![flags];
    assert(all.subrange(0, 4) =~= current);
    assert(all.subrange(4, 8) =~= target);
    assert(all[8] == flags);
}

/// Whatever the event, a transaction that is over leaves the client idle,
/// and a time-out or a failure of the link ends the transaction at once.
pub proof fn lemma_transaction_ends_idle(phase: Phase, event: EventView)
    ensures
        transition(phase, event).1 is Done ==> transition(phase, event).0 == Phase::Idle,
        event is TimedOut ==> transition(phase, event).1 == ActionView::Done(
            Err(Error::Timeout),
        ),
        event is Failed ==> transition(phase, event).1 == ActionView::Done(Err(Error::TokioIo)),
{
}

} // verus!
