//! Executes a brew "program", i.e. set target temperatures and wait until
//! they are reached and then wait more until the required duration has
//! passed.
//!
//! A [`Program`] walks the steps of one run. It hands out one [`Action`] at
//! a time and is told by an [`Event`] what came of it. The [`Executor`]
//! sees to it that only one program runs at a time.

use crate::devices::Responder;
use crate::error::AppError;
use crate::models::{BrewId, Step};
use crate::temperature::Temperature;
use vstd::prelude::*;

verus! {

/// Seconds between two readings while a step waits for its temperature.
pub const POLL_INTERVAL_SECS: u64 = 5;

/// Commands to send to the program channel.
#[derive(Debug, PartialEq, Eq)]
pub enum Command {
    /// Run these steps as the brew `id`.
    Start { id: BrewId, steps: Vec<Step>, resp: Responder },
}

/// Where a step stands while it waits for its temperature.
#[derive(Clone, Copy, Debug, PartialEq, Eq)]
pub enum Poll {
    /// The device is being read.
    Reading,
    /// This reading is being recorded.
    Recording(Temperature),
    /// The interval before the next reading is passing.
    Pausing,
}

/// Where a run stands.
#[derive(Clone, Copy, Debug, PartialEq, Eq)]
pub enum Phase {
    /// Nothing is under way: every step is done.
    Idle,
    /// The target temperature of the step is being set.
    SettingTemperature,
    /// The step waits for the device to reach the temperature.
    Converging(Poll),
    /// The temperature is reached and held for the duration of the step.
    Holding,
    /// The device or the recording of a sample failed; the run is over.
    Failed,
}

/// What a program wants done.
#[derive(Clone, Copy, Debug, PartialEq, Eq)]
pub enum Action {
    /// Set the target temperature of the device.
    SetTemperature(Temperature),
    /// Read the current temperature of the device.
    Read,
    /// Record a reading of the brew.
    RecordSample { id: BrewId, temperature: Temperature },
    /// Let this many seconds pass.
    Sleep(u64),
    /// Nothing more: the run is over, with this outcome.
    Finish(Result<(), AppError>),
    /// Nothing new: the event does not answer the action that was handed
    /// out last, which is still awaited.
    Wait,
}

/// What came of the last action.
#[derive(Clone, Copy, Debug, PartialEq, Eq)]
pub enum Event {
    /// The device was told the target temperature, or failed.
    TemperatureSet(Result<(), AppError>),
    /// The device was read, or failed. The temperature is absent while the
    /// sensor has no reading.
    TemperatureRead(Result<Option<Temperature>, AppError>),
    /// The reading was recorded, or could not be.
    SampleRecorded(Result<(), AppError>),
    /// The seconds have passed.
    Slept,
}

/// A run in specifications: the brew, its steps, the index of the step
/// under way (the number of steps once all are done) and the phase.
pub struct ProgramView {
    pub id: BrewId,
    pub steps: Seq<Step>,
    pub position: nat,
    pub phase: Phase,
}

impl ProgramView {
    /// The step under way is one of the steps, unless the run is over.
    pub open spec fn wf(self) -> bool {
        match self.phase {
            Phase::Idle => self.position == self.steps.len(),
            _ => self.position < self.steps.len(),
        }
    }

    /// The temperature that the step under way is to reach.
    pub open spec fn target(self) -> Temperature {
        self.steps[self.position as int].target_temperature
    }

    /// A run that fails.
    pub open spec fn fail(self, error: AppError) -> (ProgramView, Action) {
        (ProgramView { phase: Phase::Failed, ..self }, Action::Finish(Err(error)))
    }

    /// A run that goes on polling after the interval.
    pub open spec fn pause(self) -> (ProgramView, Action) {
        (
            ProgramView { phase: Phase::Converging(Poll::Pausing), ..self },
            Action::Sleep(POLL_INTERVAL_SECS),
        )
    }

    /// A run before its first action: at its first step, or over at once if
    /// there is none.
    pub open spec fn start(id: BrewId, steps: Seq<Step>) -> (ProgramView, Action) {
        ProgramView::enter(id, steps, 0)
    }

    /// A run that turns to the step at `position`, or ends well if there is
    /// no such step.
    pub open spec fn enter(id: BrewId, steps: Seq<Step>, position: nat) -> (ProgramView, Action) {
        if position < steps.len() {
            (
                ProgramView { id, steps, position, phase: Phase::SettingTemperature },
                Action::SetTemperature(steps[position as int].target_temperature),
            )
        } else {
            (
                ProgramView { id, steps, position: steps.len(), phase: Phase::Idle },
                Action::Finish(Ok(())),
            )
        }
    }

    /// The rules of a run: where an event takes it, and what is to be done
    /// next.
    ///
    /// - Once the target is set, the device is read.
    /// - A reading with a temperature is recorded. Once it is recorded, the
    ///   step is held for its duration if the reading is within tolerance
    ///   of the target, and otherwise read again after the interval.
    /// - A reading without a temperature is followed by another after the
    ///   interval.
    /// - Once a step has been held, the next step begins; after the last
    ///   one the run ends well.
    /// - An error of the device or of the recording ends the run with that
    ///   error.
    /// - An event that does not answer the action handed out last changes
    ///   nothing.
    pub open spec fn transition(self, event: Event) -> (ProgramView, Action) {
        match (self.phase, event) {
            (Phase::SettingTemperature, Event::TemperatureSet(Ok(_))) => (
                ProgramView { phase: Phase::Converging(Poll::Reading), ..self },
                Action::Read,
            ),
            (Phase::SettingTemperature, Event::TemperatureSet(Err(error))) => self.fail(error),
            (Phase::Converging(Poll::Reading), Event::TemperatureRead(Ok(Some(current)))) => (
                ProgramView { phase: Phase::Converging(Poll::Recording(current)), ..self },
                Action::RecordSample { id: self.id, temperature: current },
            ),
            (Phase::Converging(Poll::Reading), Event::TemperatureRead(Ok(None))) => self.pause(),
            (Phase::Converging(Poll::Reading), Event::TemperatureRead(Err(error))) => self.fail(
                error,
            ),
            (Phase::Converging(Poll::Recording(current)), Event::SampleRecorded(Ok(_))) => {
                if current.within_tolerance(self.target()) {
                    (
                        ProgramView { phase: Phase::Holding, ..self },
                        Action::Sleep(self.steps[self.position as int].duration),
                    )
                } else {
                    self.pause()
                }
            },
            (Phase::Converging(Poll::Recording(_)), Event::SampleRecorded(Err(error))) => self.fail(
                error,
            ),
            (Phase::Converging(Poll::Pausing), Event::Slept) => (
                ProgramView { phase: Phase::Converging(Poll::Reading), ..self },
                Action::Read,
            ),
            (Phase::Holding, Event::Slept) => ProgramView::enter(
                self.id,
                self.steps,
                self.position + 1,
            ),
            _ => (self, Action::Wait),
        }
    }
}

/// One run of a recipe's steps.
#[derive(Debug)]
pub struct Program {
    id: BrewId,
    steps: Vec<Step>,
    position: usize,
    phase: Phase,
}

impl View for Program {
    type V = ProgramView;

    closed spec fn view(&self) -> ProgramView {
        ProgramView {
            id: self.id,
            steps: self.steps@,
            position: self.position as nat,
            phase: self.phase,
        }
    }
}

impl Program {
    /// The step under way is one of the steps, unless every step is done.
    #[verifier::type_invariant]
    spec fn inv(&self) -> bool {
        &&& self.position <= self.steps.len()
        &&& self.phase !is Idle ==> self.position < self.steps.len()
    }

    /// Begins the run of `steps` as the brew `id`: the first target is to be
    /// set, or the run is over at once if there are no steps.
    pub fn start(id: BrewId, steps: Vec<Step>) -> (r: (Program, Action))
        ensures
            (r.0@, r.1) == ProgramView::start(id, steps@),
    {
        if steps.len() > 0 {
            let target = steps[0].target_temperature;
            (
                Program { id, steps, position: 0, phase: Phase::SettingTemperature },
                Action::SetTemperature(target),
            )
        } else {
            (Program { id, steps, position: 0, phase: Phase::Idle }, Action::Finish(Ok(())))
        }
    }

    /// The brew that is run.
    pub fn id(&self) -> (id: BrewId)
        ensures
            id == self@.id,
    {
        self.id
    }

    /// Where the run stands.
    pub fn phase(&self) -> (phase: Phase)
        ensures
            phase == self@.phase,
    {
        self.phase
    }

    /// Index of the step under way; the number of steps once all are done.
    pub fn position(&self) -> (position: usize)
        ensures
            position == self@.position,
    {
        self.position
    }

    /// Whether the run is over, well or not.
    pub fn is_over(&self) -> (over: bool)
        ensures
            over == (self@.phase is Idle || self@.phase is Failed),
    {
        match self.phase {
            Phase::Idle => true,
            Phase::Failed => true,
            _ => false,
        }
    }

    /// Takes in what came of the last action and says what is to be done
    /// next, as [`ProgramView::transition`] lays down.
    pub fn advance(&mut self, event: Event) -> (action: Action)
        ensures
            (final(self)@, action) == old(self)@.transition(event),
    {
        proof {
            use_type_invariant(&*self);
        }
        match (self.phase, event) {
            (Phase::SettingTemperature, Event::TemperatureSet(Ok(_))) => {
                self.phase = Phase::Converging(Poll::Reading);
                Action::Read
            },
            (Phase::SettingTemperature, Event::TemperatureSet(Err(error))) => {
                self.phase = Phase::Failed;
                Action::Finish(Err(error))
            },
            (Phase::Converging(Poll::Reading), Event::TemperatureRead(Ok(Some(current)))) => {
                self.phase = Phase::Converging(Poll::Recording(current));
                Action::RecordSample { id: self.id, temperature: current }
            },
            (Phase::Converging(Poll::Reading), Event::TemperatureRead(Ok(None))) => {
                self.phase = Phase::Converging(Poll::Pausing);
                Action::Sleep(POLL_INTERVAL_SECS)
            },
            (Phase::Converging(Poll::Reading), Event::TemperatureRead(Err(error))) => {
                self.phase = Phase::Failed;
                Action::Finish(Err(error))
            },
            (Phase::Converging(Poll::Recording(current)), Event::SampleRecorded(Ok(_))) => {
                let step = &self.steps[self.position];
                if current.is_within_tolerance(&step.target_temperature) {
                    let duration = step.duration;
                    self.phase = Phase::Holding;
                    Action::Sleep(duration)
                } else {
                    self.phase = Phase::Converging(Poll::Pausing);
                    Action::Sleep(POLL_INTERVAL_SECS)
                }
            },
            (Phase::Converging(Poll::Recording(_)), Event::SampleRecorded(Err(error))) => {
                self.phase = Phase::Failed;
                Action::Finish(Err(error))
            },
            (Phase::Converging(Poll::Pausing), Event::Slept) => {
                self.phase = Phase::Converging(Poll::Reading);
                Action::Read
            },
            (Phase::Holding, Event::Slept) => {
                if self.position + 1 < self.steps.len() {
                    self.position = self.position + 1;
                    self.phase = Phase::SettingTemperature;
                    Action::SetTemperature(self.steps[self.position].target_temperature)
                } else {
                    self.phase = Phase::Idle;
                    self.position = self.steps.len();
                    Action::Finish(Ok(()))
                }
            },
            _ => Action::Wait,
        }
    }
}

/// One call on the executor.
pub enum Call {
    /// A brew is to be started.
    Start,
    /// The brew that ran is over.
    Finish,
}

/// Whether a brew runs after a call: after a start one does, be it the one
/// that was started or the one that ran already; after a finish none does.
pub open spec fn runs_after(running: bool, call: Call) -> bool {
    call is Start
}

/// Whether a call starts a brew: it is a start, and no brew runs.
pub open spec fn taken_up(running: bool, call: Call) -> bool {
    call is Start && !running
}

/// What starting a brew comes to: it is turned away as ongoing if a brew
/// ran already, and otherwise begins at its first step.
pub open spec fn start_outcome(
    was_running: bool,
    id: BrewId,
    steps: Seq<Step>,
    r: Result<(Program, Action), AppError>,
) -> bool {
    match r {
        Ok(run) => taken_up(was_running, Call::Start) && (run.0@, run.1) == ProgramView::start(
            id,
            steps,
        ),
        Err(error) => !taken_up(was_running, Call::Start) && error == AppError::BrewOngoing,
    }
}

/// Keeps brews apart: while one runs, no other is started.
#[derive(Debug)]
pub struct Executor {
    running: bool,
}

impl Executor {
    /// Whether a brew runs.
    pub closed spec fn running(&self) -> bool {
        self.running
    }

    /// An executor with no brew running.
    pub fn new() -> (executor: Executor)
        ensures
            !executor.running(),
    {
        Executor { running: false }
    }

    /// Whether a brew runs.
    pub fn is_running(&self) -> (running: bool)
        ensures
            running == self.running(),
    {
        self.running
    }

    /// Starts the run of `steps` as the brew `id`, unless a brew runs
    /// already: then nothing is started and the brew that runs is left
    /// alone. In one step this tests whether a brew runs and marks that one
    /// does.
    pub fn start(&mut self, id: BrewId, steps: Vec<Step>) -> (r: Result<(Program, Action), AppError>)
        ensures
            final(self).running() == runs_after(old(self).running(), Call::Start),
            start_outcome(old(self).running(), id, steps@, r),
    {
        if self.running {
            return Err(AppError::BrewOngoing);
        }
        self.running = true;
        Ok(Program::start(id, steps))
    }

    /// Takes in a command: starts the brew as [`Self::start`] does, and
    /// says whom to tell.
    pub fn handle(&mut self, command: Command) -> (r: (
        Responder,
        Result<(Program, Action), AppError>,
    ))
        ensures
            final(self).running() == runs_after(old(self).running(), Call::Start),
            command matches Command::Start { id, steps, resp } && r.0 == resp && start_outcome(
                old(self).running(),
                id,
                steps@,
                r.1,
            ),
    {
        match command {
            Command::Start { id, steps, resp } => (resp, self.start(id, steps)),
        }
    }

    /// Takes note that the brew that ran is over, however it ended.
    pub fn finish(&mut self)
        ensures
            final(self).running() == runs_after(old(self).running(), Call::Finish),
    {
        self.running = false;
    }
}

impl ProgramView {
    /// The run after a series of events.
    pub open spec fn after(self, events: Seq<Event>) -> ProgramView
        decreases events.len(),
    {
        if events.len() == 0 {
            self
        } else {
            self.after(events.drop_last()).transition(events.last()).0
        }
    }

    /// The actions with which the run answers a series of events, one for
    /// each event.
    pub open spec fn trace(self, events: Seq<Event>) -> Seq<Action>
        decreases events.len(),
    {
        if events.len() == 0 {
            Seq::empty()
        } else {
            self.trace(events.drop_last()).push(
                self.after(events.drop_last()).transition(events.last()).1,
            )
        }
    }

    /// Number of times that the run, answering a series of events, put off
    /// the next reading by the polling interval.
    pub open spec fn pauses(self, events: Seq<Event>) -> nat
        decreases events.len(),
    {
        if events.len() == 0 {
            0
        } else {
            let before = self.after(events.drop_last());
            let earlier = self.pauses(events.drop_last());
            if before.transition(events.last()) == before.pause() {
                earlier + 1
            } else {
                earlier
            }
        }
    }

    /// Every action of a run: the one it starts with, then those with which
    /// it answers the events.
    pub open spec fn history(id: BrewId, steps: Seq<Step>, events: Seq<Event>) -> Seq<Action> {
        seq![ProgramView::start(id, steps).1] + ProgramView::start(id, steps).0.trace(events)
    }

    /// Number of target temperatures that were set by the time the run
    /// stands here.
    pub open spec fn begun(self) -> nat {
        if self.phase is Idle {
            self.steps.len()
        } else {
            self.position + 1
        }
    }

    /// Number of steps of which a reading went to be recorded by the time
    /// the run stands here: those whose temperature was reached, and the
    /// step under way while a reading of it is being recorded.
    pub open spec fn sampled(self) -> nat {
        if self.phase is Holding || self.phase matches Phase::Converging(Poll::Recording(_)) {
            self.position + 1
        } else {
            self.position
        }
    }

    /// Number of steps whose temperature was reached by the time the run
    /// stands here.
    pub open spec fn reached(self) -> nat {
        if self.phase is Holding {
            self.position + 1
        } else {
            self.position
        }
    }
}

/// The target temperatures among the actions, in order.
pub open spec fn set_points(actions: Seq<Action>) -> Seq<Temperature>
    decreases actions.len(),
{
    if actions.len() == 0 {
        Seq::empty()
    } else {
        let before = set_points(actions.drop_last());
        match actions.last() {
            Action::SetTemperature(target) => before.push(target),
            _ => before,
        }
    }
}

/// The seconds that the actions let pass, all in all.
pub open spec fn slept(actions: Seq<Action>) -> nat
    decreases actions.len(),
{
    if actions.len() == 0 {
        0
    } else {
        let before = slept(actions.drop_last());
        match actions.last() {
            Action::Sleep(secs) => before + secs as nat,
            _ => before,
        }
    }
}

/// The readings of the brew `id` that the actions record, in order.
pub open spec fn samples(actions: Seq<Action>, id: BrewId) -> Seq<Temperature>
    decreases actions.len(),
{
    if actions.len() == 0 {
        Seq::empty()
    } else {
        let before = samples(actions.drop_last(), id);
        match actions.last() {
            Action::RecordSample { id: brew, temperature } => if brew == id {
                before.push(temperature)
            } else {
                before
            },
            _ => before,
        }
    }
}

/// The target temperatures of the steps, in order.
pub open spec fn targets(steps: Seq<Step>) -> Seq<Temperature> {
    Seq::new(steps.len(), |i: int| steps[i].target_temperature)
}

/// The seconds for which the first `n` steps are held, all in all.
pub open spec fn hold_time(steps: Seq<Step>, n: nat) -> nat
    decreases n,
{
    if n == 0 {
        0
    } else {
        hold_time(steps, (n - 1) as nat) + steps[n - 1].duration as nat
    }
}

/// A step is held from the moment on at which a reading within tolerance of
/// its target has been recorded, and not before: a run enters the holding
/// phase by that event alone. It then lets the duration of the step pass.
pub proof fn lemma_holds_once_converged(run: ProgramView, event: Event)
    ensures
        ({
            let (next, action) = run.transition(event);
            let converged = {
                &&& run.phase matches Phase::Converging(Poll::Recording(current))
                &&& event matches Event::SampleRecorded(Ok(_))
                &&& current.within_tolerance(run.target())
            };
            &&& (run.phase !is Holding && next.phase is Holding) <==> converged
            &&& converged ==> next.position == run.position && action == Action::Sleep(
                run.steps[run.position as int].duration,
            )
        }),
{
}

/// While a step waits for its temperature, a reading that is absent, or
/// that is recorded and found out of tolerance, is followed by another
/// reading after the polling interval.
pub proof fn lemma_polls_until_converged(run: ProgramView, reading: Option<Temperature>)
    requires
        run.phase == Phase::Converging(Poll::Reading),
        reading matches Some(current) ==> !current.within_tolerance(run.target()),
    ensures
        ({
            let read = run.transition(Event::TemperatureRead(Ok(reading)));
            let paused = match reading {
                Some(_) => read.0.transition(Event::SampleRecorded(Ok(()))),
                None => read,
            };
            &&& reading matches Some(current) ==> read.1 == Action::RecordSample {
                id: run.id,
                temperature: current,
            }
            &&& paused.1 == Action::Sleep(POLL_INTERVAL_SECS)
            &&& paused.0.transition(Event::Slept) == (run, Action::Read)
        }),
{
}

/// An error of the device, or of the recording of a sample, ends the run
/// with that error, and a run that is over answers nothing any more.
pub proof fn lemma_errors_end_the_run(run: ProgramView, event: Event, error: AppError)
    ensures
        run.phase is SettingTemperature && event == Event::TemperatureSet(Err(error))
            ==> run.transition(event) == run.fail(error),
        run.phase == Phase::Converging(Poll::Reading) && event == Event::TemperatureRead(
            Err(error),
        ) ==> run.transition(event) == run.fail(error),
        run.phase matches Phase::Converging(Poll::Recording(_)) && event == Event::SampleRecorded(
            Err(error),
        ) ==> run.transition(event) == run.fail(error),
        run.phase is Idle || run.phase is Failed ==> run.transition(event) == (run, Action::Wait),
{
}

proof fn lemma_set_points_push(actions: Seq<Action>, action: Action)
    ensures
        set_points(actions.push(action)) == match action {
            Action::SetTemperature(target) => set_points(actions).push(target),
            _ => set_points(actions),
        },
        slept(actions.push(action)) == match action {
            Action::Sleep(secs) => slept(actions) + secs as nat,
            _ => slept(actions),
        },
{
    assert(actions.push(action).drop_last() =~= actions);
}

proof fn lemma_samples_push(actions: Seq<Action>, action: Action, id: BrewId)
    ensures
        samples(actions.push(action), id) == match action {
            Action::RecordSample { id: brew, temperature } => if brew == id {
                samples(actions, id).push(temperature)
            } else {
                samples(actions, id)
            },
            _ => samples(actions, id),
        },
{
    assert(actions.push(action).drop_last() =~= actions);
}

/// Whatever events reach a run, and however it ends:
///
/// - the target temperatures that it sets are those of the steps, in the
///   order of the steps, up to the step at which it stands: all of them
///   once it has ended well;
/// - for every step whose temperature was reached, at least one reading was
///   recorded;
/// - the seconds that it lets pass are the durations of the steps whose
///   temperature was reached, and one polling interval for every reading
///   that it put off: once it has ended well, the durations of all steps
///   and the time that they took to converge.
pub proof fn lemma_run_follows_the_steps(id: BrewId, steps: Seq<Step>, events: Seq<Event>)
    ensures
        ({
            let end = ProgramView::start(id, steps).0.after(events);
            let history = ProgramView::history(id, steps, events);
            &&& end.wf()
            &&& end.id == id
            &&& end.steps == steps
            &&& set_points(history) == targets(steps).take(end.begun() as int)
            &&& samples(history, id).len() >= end.sampled() >= end.reached()
            &&& slept(history) == hold_time(steps, end.reached()) + POLL_INTERVAL_SECS
                * ProgramView::start(id, steps).0.pauses(events)
            &&& end.phase is Idle ==> {
                &&& set_points(history) == targets(steps)
                &&& slept(history) >= hold_time(steps, steps.len())
            }
        }),
    decreases events.len(),
{
    let (first, opening) = ProgramView::start(id, steps);
    let end = first.after(events);
    let history = ProgramView::history(id, steps, events);
    if events.len() == 0 {
        assert(history =~= Seq::<Action>::empty().push(opening));
        lemma_set_points_push(Seq::empty(), opening);
        lemma_samples_push(Seq::empty(), opening, id);
        assert(set_points(history) =~= targets(steps).take(end.begun() as int));
    } else {
        let earlier = events.drop_last();
        lemma_run_follows_the_steps(id, steps, earlier);
        let before = first.after(earlier);
        let past = ProgramView::history(id, steps, earlier);
        let action = before.transition(events.last()).1;
        assert(history =~= past.push(action));
        lemma_set_points_push(past, action);
        lemma_samples_push(past, action, id);
        assert(set_points(history) =~= targets(steps).take(end.begun() as int));
        if before.phase is Holding && events.last() is Slept {
            assert(hold_time(steps, end.reached()) == hold_time(steps, before.reached()));
        }
    }
    if end.phase is Idle {
        assert(targets(steps).take(steps.len() as int) =~= targets(steps));
    }
}

/// Whether a brew runs after a series of calls on an executor that began
/// with none.
pub open spec fn running_after(calls: Seq<Call>) -> bool
    decreases calls.len(),
{
    if calls.len() == 0 {
        false
    } else {
        runs_after(running_after(calls.drop_last()), calls.last())
    }
}

/// Whether the call at `index` starts a brew.
pub open spec fn starts_brew(calls: Seq<Call>, index: int) -> bool {
    taken_up(running_after(calls.take(index)), calls[index])
}

/// Two brews never run at once: between two starts that are taken up, the
/// brew of the first is over. The call just before the second is the one
/// that says so.
pub proof fn lemma_one_brew_at_a_time(calls: Seq<Call>, first: int, second: int)
    requires
        0 <= first < second < calls.len(),
        starts_brew(calls, first),
        starts_brew(calls, second),
    ensures
        first < second - 1,
        calls[second - 1] is Finish,
{
    assert(calls.take(second).last() == calls[second - 1]);
}

/// Of two starts in a row the second is turned away. The first is taken up
/// if no brew ran when it came, as is the case for the first call on a new
/// executor.
pub proof fn lemma_second_start_is_turned_away(calls: Seq<Call>, index: int)
    requires
        0 <= index,
        index + 1 < calls.len(),
        calls[index] is Start,
        calls[index + 1] is Start,
    ensures
        !starts_brew(calls, index + 1),
        starts_brew(calls, index) <==> !running_after(calls.take(index)),
        index == 0 ==> starts_brew(calls, index),
{
    assert(calls.take(index + 1).last() == calls[index]);
}

} // verus!
