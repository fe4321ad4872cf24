//! The control loop as a state machine.
//!
//! The loop switches the fan to manual control, then samples, drives and
//! sleeps until it is cancelled or something fails, and hands the fan back
//! to the card before it ends. The machine decides; the caller does the
//! work. In every phase the machine names one `Action`. The caller carries
//! it out and reports what came of it as an `Event`, which takes the
//! machine to its next phase.

use crate::amdgpu::{
    FileRead, FileReadView, FileWrite, FileWriteView, GpuError, GpuErrorView, Hwmon, HwmonView, Pwm,
    PwmMode, Temperature,
};
use vstd::prelude::*;
use vstd::string::StringExecFns;

verus! {

/// How far the loop has come.
#[derive(Debug)]
pub enum Phase {
    /// Nothing was done yet. The fan is to be switched to manual control.
    Idle,
    /// The fan is under manual control and no round has begun.
    ManualEngaged,
    /// A round has begun: the temperature is to be read.
    Sampling,
    /// The fan speed for this temperature is to be computed.
    Computing(Temperature),
    /// This fan speed is to be written.
    Actuating(Pwm),
    /// The round is over but for the wait before the next one.
    Sleeping,
    /// The loop is over with this outcome. The fan is to be handed back to
    /// the card.
    Restoring(Result<(), GpuError>),
    /// The hand-back was tried and the loop has ended with this outcome.
    Terminated(Result<(), GpuError>),
}

/// What the caller is to do next.
#[derive(Debug)]
pub enum Action {
    /// Carry out this write and report `Event::Written`.
    Write(FileWrite),
    /// Read the file at this path, at least as far as its first line feed,
    /// and report `Event::Read`.
    Read(String),
    /// Work out the fan speed for `temperature` on the fan curve, within
    /// `min` and `max`, and report `Event::Computed`.
    Compute { temperature: Temperature, min: Pwm, max: Pwm },
    /// Look at the cancellation flag and report `Event::Cancellation`.
    CheckCancellation,
    /// Wait for this many milliseconds, then look at the cancellation flag
    /// and report `Event::Cancellation`.
    Sleep(u64),
    /// Nothing is left to do.
    Stop,
}

/// What came of an action.
#[derive(Debug)]
pub enum Event {
    /// The write is done, or it failed.
    Written(Result<(), std::io::Error>),
    /// What came of the read.
    Read(FileRead),
    /// The fan speed, or why there is none.
    Computed(Result<Pwm, GpuError>),
    /// Whether the loop has been asked to end.
    Cancellation(bool),
}

/// The outcome of a loop with its texts as sequences of characters.
pub open spec fn outcome_view(outcome: Result<(), GpuError>) -> Result<(), GpuErrorView> {
    match outcome {
        Ok(done) => Ok(done),
        Err(error) => Err(error@),
    }
}

/// A `Phase` with its texts as sequences of characters.
pub enum PhaseView {
    Idle,
    ManualEngaged,
    Sampling,
    Computing(Temperature),
    Actuating(Pwm),
    Sleeping,
    Restoring(Result<(), GpuErrorView>),
    Terminated(Result<(), GpuErrorView>),
}

impl View for Phase {
    type V = PhaseView;

    open spec fn view(&self) -> PhaseView {
        match *self {
            Phase::Idle => PhaseView::Idle,
            Phase::ManualEngaged => PhaseView::ManualEngaged,
            Phase::Sampling => PhaseView::Sampling,
            Phase::Computing(temperature) => PhaseView::Computing(temperature),
            Phase::Actuating(value) => PhaseView::Actuating(value),
            Phase::Sleeping => PhaseView::Sleeping,
            Phase::Restoring(outcome) => PhaseView::Restoring(outcome_view(outcome)),
            Phase::Terminated(outcome) => PhaseView::Terminated(outcome_view(outcome)),
        }
    }
}

/// An `Action` with its texts as sequences of characters.
pub enum ActionView {
    Write(FileWriteView),
    Read(Seq<char>),
    Compute { temperature: Temperature, min: Pwm, max: Pwm },
    CheckCancellation,
    Sleep(u64),
    Stop,
}

impl View for Action {
    type V = ActionView;

    open spec fn view(&self) -> ActionView {
        match *self {
            Action::Write(write) => ActionView::Write(write@),
            Action::Read(path) => ActionView::Read(path@),
            Action::Compute { temperature, min, max } => ActionView::Compute {
                temperature,
                min,
                max,
            },
            Action::CheckCancellation => ActionView::CheckCancellation,
            Action::Sleep(millis) => ActionView::Sleep(millis),
            Action::Stop => ActionView::Stop,
        }
    }
}

/// An `Event` with its texts as sequences of characters.
pub enum EventView {
    Written(Result<(), std::io::Error>),
    Read(FileReadView),
    Computed(Result<Pwm, GpuErrorView>),
    Cancellation(bool),
}

impl View for Event {
    type V = EventView;

    open spec fn view(&self) -> EventView {
        match *self {
            Event::Written(done) => EventView::Written(done),
            Event::Read(read) => EventView::Read(read@),
            Event::Computed(Ok(value)) => EventView::Computed(Ok(value)),
            Event::Computed(Err(error)) => EventView::Computed(Err(error@)),
            Event::Cancellation(cancelled) => EventView::Cancellation(cancelled),
        }
    }
}

/// The phase that follows `phase` on `event`, for the loop of `device`.
///
/// A failed switch to manual control, a failed read, a temperature file
/// that is missing or holds no number, a fan speed that could not be
/// computed and a failed write of it each end the loop with that error, by
/// way of the hand-back. So does a cancellation, with success. The
/// hand-back ends the loop whether it worked or not, and leaves the outcome
/// as it was. An event that does not answer the action of the phase changes
/// nothing.
pub open spec fn next_phase(device: HwmonView, phase: PhaseView, event: EventView) -> PhaseView {
    match (phase, event) {
        (PhaseView::Idle, EventView::Written(Ok(_))) => PhaseView::ManualEngaged,
        (PhaseView::Idle, EventView::Written(Err(cause))) => PhaseView::Restoring(
            Err(GpuErrorView::Io(cause)),
        ),
        (PhaseView::ManualEngaged, EventView::Cancellation(cancelled)) => if cancelled {
            PhaseView::Restoring(Ok(()))
        } else {
            PhaseView::Sampling
        },
        (PhaseView::Sampling, EventView::Read(read)) => match device.temperature_read(read) {
            Ok(temperature) => PhaseView::Computing(temperature),
            Err(error) => PhaseView::Restoring(Err(error)),
        },
        (PhaseView::Computing(_), EventView::Computed(Ok(value))) => PhaseView::Actuating(value),
        (PhaseView::Computing(_), EventView::Computed(Err(error))) => PhaseView::Restoring(
            Err(error),
        ),
        (PhaseView::Actuating(_), EventView::Written(Ok(_))) => PhaseView::Sleeping,
        (PhaseView::Actuating(_), EventView::Written(Err(cause))) => PhaseView::Restoring(
            Err(GpuErrorView::Io(cause)),
        ),
        (PhaseView::Sleeping, EventView::Cancellation(cancelled)) => if cancelled {
            PhaseView::Restoring(Ok(()))
        } else {
            PhaseView::Sampling
        },
        (PhaseView::Restoring(outcome), EventView::Written(_)) => PhaseView::Terminated(outcome),
        _ => phase,
    }
}

/// The action of `phase`, for the loop of `device` that waits
/// `poll_interval_millis` between two rounds.
pub open spec fn action_of(device: HwmonView, poll_interval_millis: u64, phase: PhaseView)
    -> ActionView {
    match phase {
        PhaseView::Idle => ActionView::Write(device.mode_write(PwmMode::Manual)),
        PhaseView::ManualEngaged => ActionView::CheckCancellation,
        PhaseView::Sampling => ActionView::Read(device.path_temperature),
        PhaseView::Computing(temperature) => ActionView::Compute {
            temperature,
            min: device.pwm_min,
            max: device.pwm_max,
        },
        PhaseView::Actuating(value) => ActionView::Write(device.pwm_write(value)),
        PhaseView::Sleeping => ActionView::Sleep(poll_interval_millis),
        PhaseView::Restoring(_) => ActionView::Write(device.mode_write(PwmMode::Automatic)),
        PhaseView::Terminated(_) => ActionView::Stop,
    }
}

/// The control loop of one sensor group.
#[derive(Debug)]
pub struct ControlLoop {
    device: Hwmon,
    poll_interval_millis: u64,
    phase: Phase,
}

/// A `ControlLoop` with its texts as sequences of characters.
pub struct ControlLoopView {
    pub device: HwmonView,
    pub poll_interval_millis: u64,
    pub phase: PhaseView,
}

impl ControlLoopView {
    /// The loop after `event`.
    pub open spec fn after(self, event: EventView) -> ControlLoopView {
        ControlLoopView {
            device: self.device,
            poll_interval_millis: self.poll_interval_millis,
            phase: next_phase(self.device, self.phase, event),
        }
    }

    /// The action that the loop waits for.
    pub open spec fn action(self) -> ActionView {
        action_of(self.device, self.poll_interval_millis, self.phase)
    }
}

impl View for ControlLoop {
    type V = ControlLoopView;

    closed spec fn view(&self) -> ControlLoopView {
        ControlLoopView {
            device: self.device@,
            poll_interval_millis: self.poll_interval_millis,
            phase: self.phase@,
        }
    }
}

impl ControlLoop {
    /// A loop for `device` that has not begun. It will wait
    /// `poll_interval_millis` between two rounds.
    pub fn new(device: Hwmon, poll_interval_millis: u64) -> (control: ControlLoop)
        ensures
            control@ == (ControlLoopView {
                device: device@,
                poll_interval_millis,
                phase: PhaseView::Idle,
            }),
    {
        ControlLoop { device, poll_interval_millis, phase: Phase::Idle }
    }

    /// The phase that the loop is in.
    pub fn phase(&self) -> (phase: &Phase)
        ensures
            phase@ == self@.phase,
    {
        &self.phase
    }

    /// The action that the loop waits for. Asking changes nothing.
    pub fn action(&mut self) -> (action: Action)
        ensures
            action@ == old(self)@.action(),
            final(self)@ == old(self)@,
    {
        match &self.phase {
            Phase::Idle => Action::Write(self.device.set_pwm_mode(PwmMode::Manual)),
            Phase::ManualEngaged => Action::CheckCancellation,
            Phase::Sampling => Action::Read(String::from_str(self.device.temperature_path())),
            Phase::Computing(temperature) => Action::Compute {
                temperature: *temperature,
                min: self.device.get_pwm_min(),
                max: self.device.get_pwm_max(),
            },
            Phase::Actuating(value) => {
                let value: Pwm = *value;
                Action::Write(self.device.set_pwm(value))
            },
            Phase::Sleeping => Action::Sleep(self.poll_interval_millis),
            Phase::Restoring(_) => Action::Write(self.device.set_pwm_mode(PwmMode::Automatic)),
            Phase::Terminated(_) => Action::Stop,
        }
    }

    /// Takes the loop to its next phase on `event`.
    pub fn step(self, event: Event) -> (next: ControlLoop)
        ensures
            next@ == self@.after(event@),
    {
        let ControlLoop { device, poll_interval_millis, phase } = self;
        let phase = match phase {
            Phase::Idle => match event {
                Event::Written(Ok(_)) => Phase::ManualEngaged,
                Event::Written(Err(cause)) => Phase::Restoring(Err(GpuError::Io(cause))),
                _ => Phase::Idle,
            },
            Phase::ManualEngaged => match event {
                Event::Cancellation(true) => Phase::Restoring(Ok(())),
                Event::Cancellation(false) => Phase::Sampling,
                _ => Phase::ManualEngaged,
            },
            Phase::Sampling => match event {
                Event::Read(read) => match device.get_temperature(read) {
                    Ok(temperature) => Phase::Computing(temperature),
                    Err(error) => Phase::Restoring(Err(error)),
                },
                _ => Phase::Sampling,
            },
            Phase::Computing(temperature) => match event {
                Event::Computed(Ok(value)) => Phase::Actuating(value),
                Event::Computed(Err(error)) => Phase::Restoring(Err(error)),
                _ => Phase::Computing(temperature),
            },
            Phase::Actuating(value) => match event {
                Event::Written(Ok(_)) => Phase::Sleeping,
                Event::Written(Err(cause)) => Phase::Restoring(Err(GpuError::Io(cause))),
                _ => Phase::Actuating(value),
            },
            Phase::Sleeping => match event {
                Event::Cancellation(true) => Phase::Restoring(Ok(())),
                Event::Cancellation(false) => Phase::Sampling,
                _ => Phase::Sleeping,
            },
            Phase::Restoring(outcome) => match event {
                Event::Written(_) => Phase::Terminated(outcome),
                _ => Phase::Restoring(outcome),
            },
            Phase::Terminated(outcome) => Phase::Terminated(outcome),
        };
        ControlLoop { device, poll_interval_millis, phase }
    }

    /// The outcome of the loop, once it has ended.
    pub fn into_outcome(self) -> (outcome: Option<Result<(), GpuError>>)
        ensures
            match outcome {
                Some(result) => self@.phase == PhaseView::Terminated(outcome_view(result)),
                None => !(self@.phase is Terminated),
            },
    {
        match self.phase {
            Phase::Terminated(outcome) => Some(outcome),
            _ => None,
        }
    }
}

/// The phase that the loop of `device` reaches from `phase` on `events`,
/// taken in order.
pub open spec fn phase_after(device: HwmonView, phase: PhaseView, events: Seq<EventView>)
    -> PhaseView
    decreases events.len(),
{
    if events.len() == 0 {
        phase
    } else {
        next_phase(device, phase_after(device, phase, events.drop_last()), events.last())
    }
}

/// The number of hand-backs that were carried out while the loop of
/// `device` went from `phase` through `events`: the writes that were
/// reported to a loop that was restoring.
pub open spec fn restores(device: HwmonView, phase: PhaseView, events: Seq<EventView>) -> nat
    decreases events.len(),
{
    if events.len() == 0 {
        0
    } else {
        let before = phase_after(device, phase, events.drop_last());
        restores(device, phase, events.drop_last()) + if before is Restoring
            && events.last() is Written {
            1nat
        } else {
            0nat
        }
    }
}

/// The number of temperature reads that were carried out while the loop of
/// `device` went from `phase` through `events`: the reads that were
/// reported to a loop that was sampling.
pub open spec fn samples(device: HwmonView, phase: PhaseView, events: Seq<EventView>) -> nat
    decreases events.len(),
{
    if events.len() == 0 {
        0
    } else {
        let before = phase_after(device, phase, events.drop_last());
        samples(device, phase, events.drop_last()) + if before is Sampling
            && events.last() is Read {
            1nat
        } else {
            0nat
        }
    }
}

/// The number of hand-backs that a loop in `phase` still owes: one, until
/// it has ended.
pub open spec fn restores_owed(phase: PhaseView) -> nat {
    if phase is Terminated {
        0
    } else {
        1
    }
}

/// Whatever happens, the hand-backs carried out and the one still owed add
/// up to what was owed before.
pub proof fn lemma_restores_balance(device: HwmonView, phase: PhaseView, events: Seq<EventView>)
    ensures
        restores(device, phase, events) + restores_owed(phase_after(device, phase, events))
            == restores_owed(phase),
    decreases events.len(),
{
    if events.len() > 0 {
        lemma_restores_balance(device, phase, events.drop_last());
    }
}

/// The fan is handed back exactly once on every way to the end, and never
/// more than once: a loop that starts idle has ended if and only if one
/// hand-back was carried out, and until then none was.
pub proof fn lemma_restores_exactly_once(device: HwmonView, events: Seq<EventView>)
    ensures
        restores(device, PhaseView::Idle, events) <= 1,
        phase_after(device, PhaseView::Idle, events) is Terminated <==> restores(
            device,
            PhaseView::Idle,
            events,
        ) == 1,
{
    lemma_restores_balance(device, PhaseView::Idle, events);
}

/// A loop that has ended stays as it is.
pub proof fn lemma_terminated_is_final(
    device: HwmonView,
    outcome: Result<(), GpuErrorView>,
    events: Seq<EventView>,
)
    ensures
        phase_after(device, PhaseView::Terminated(outcome), events) == PhaseView::Terminated(
            outcome,
        ),
    decreases events.len(),
{
    if events.len() > 0 {
        lemma_terminated_is_final(device, outcome, events.drop_last());
    }
}

/// The hand-back ends the loop with the outcome that it had before,
/// whether the hand-back itself worked or failed.
pub proof fn lemma_restore_keeps_outcome(
    device: HwmonView,
    outcome: Result<(), GpuErrorView>,
    restore: Result<(), std::io::Error>,
)
    ensures
        next_phase(device, PhaseView::Restoring(outcome), EventView::Written(restore))
            == PhaseView::Terminated(outcome),
{
}

/// A loop that finds itself cancelled before its first round switches the
/// fan to manual control, reads no temperature, hands the fan back and ends
/// with success.
pub proof fn lemma_cancelled_before_first_round(
    device: HwmonView,
    poll_interval_millis: u64,
    restore: Result<(), std::io::Error>,
)
    ensures
        ({
            let events = seq![
                EventView::Written(Ok(())),
                EventView::Cancellation(true),
                EventView::Written(restore),
            ];
            let engaged = phase_after(device, PhaseView::Idle, events.take(1));
            let restoring = phase_after(device, PhaseView::Idle, events.take(2));
            let ended = phase_after(device, PhaseView::Idle, events);
            &&& action_of(device, poll_interval_millis, PhaseView::Idle) == ActionView::Write(
                device.mode_write(PwmMode::Manual),
            )
            &&& engaged == PhaseView::ManualEngaged
            &&& action_of(device, poll_interval_millis, engaged) == ActionView::CheckCancellation
            &&& restoring == PhaseView::Restoring(Ok(()))
            &&& action_of(device, poll_interval_millis, restoring) == ActionView::Write(
                device.mode_write(PwmMode::Automatic),
            )
            &&& ended == PhaseView::Terminated(Ok(()))
            &&& action_of(device, poll_interval_millis, ended) == ActionView::Stop
            &&& samples(device, PhaseView::Idle, events) == 0
            &&& restores(device, PhaseView::Idle, events) == 1
        }),
{
    let events = seq![
        EventView::Written(Ok(())),
        EventView::Cancellation(true),
        EventView::Written(restore),
    ];
    let none = Seq::<EventView>::empty();
    let one = seq![EventView::Written(Ok(()))];
    let two = seq![EventView::Written(Ok(())), EventView::Cancellation(true)];
    assert(one.drop_last() =~= none);
    assert(two.drop_last() =~= one);
    assert(events.drop_last() =~= two);
    assert(events.take(1) =~= one);
    assert(events.take(2) =~= two);
    assert(phase_after(device, PhaseView::Idle, none) == PhaseView::Idle);
    assert(phase_after(device, PhaseView::Idle, one) == PhaseView::ManualEngaged);
    assert(phase_after(device, PhaseView::Idle, two) == PhaseView::Restoring(Ok(())));
    assert(samples(device, PhaseView::Idle, none) == 0);
    assert(samples(device, PhaseView::Idle, one) == 0);
    assert(samples(device, PhaseView::Idle, two) == 0);
    lemma_restores_exactly_once(device, events);
}

/// A failure in a round is reported after the hand-back. Whatever the
/// phase of the round, a failed read or write, a temperature file that is
/// missing or holds no number, or a fan speed that could not be computed
/// takes the loop to the hand-back with that error; the hand-back, whatever
/// comes of it, ends the loop with the same error.
pub proof fn lemma_failure_in_round_is_reported_after_restore(
    device: HwmonView,
    poll_interval_millis: u64,
    phase: PhaseView,
    event: EventView,
    restore: Result<(), std::io::Error>,
)
    requires
        phase is Sampling || phase is Computing || phase is Actuating,
    ensures
        ({
            let error = round_failure(device, phase, event);
            let next = next_phase(device, phase, event);
            error is Some ==> {
                &&& next == PhaseView::Restoring(Err(error->0))
                &&& action_of(device, poll_interval_millis, next) == ActionView::Write(
                    device.mode_write(PwmMode::Automatic),
                )
                &&& next_phase(device, next, EventView::Written(restore)) == PhaseView::Terminated(
                    Err(error->0),
                )
            }
        }),
{
}

/// The error with which `event` fails a round that is in `phase`, if it
/// does.
pub open spec fn round_failure(device: HwmonView, phase: PhaseView, event: EventView) -> Option<
    GpuErrorView,
> {
    match (phase, event) {
        (PhaseView::Sampling, EventView::Read(read)) => match device.temperature_read(read) {
            Ok(_) => None,
            Err(error) => Some(error),
        },
        (PhaseView::Computing(_), EventView::Computed(Err(error))) => Some(error),
        (PhaseView::Actuating(_), EventView::Written(Err(cause))) => Some(GpuErrorView::Io(cause)),
        _ => None,
    }
}

/// A read of the temperature that fails takes the loop to the hand-back
/// and, by way of it and whatever comes of it, to its end with the error of
/// the read.
pub proof fn lemma_failed_read_is_reported_after_restore(
    device: HwmonView,
    poll_interval_millis: u64,
    cause: std::io::Error,
    restore: Result<(), std::io::Error>,
)
    ensures
        ({
            let failed = next_phase(
                device,
                PhaseView::Sampling,
                EventView::Read(FileReadView::Failed(cause)),
            );
            &&& failed == PhaseView::Restoring(Err(GpuErrorView::Io(cause)))
            &&& action_of(device, poll_interval_millis, failed) == ActionView::Write(
                device.mode_write(PwmMode::Automatic),
            )
            &&& next_phase(device, failed, EventView::Written(restore)) == PhaseView::Terminated(
                Err(GpuErrorView::Io(cause)),
            )
        }),
{
}

} // verus!
