//! The decisions of one transmit cycle.
//!
//! The controller does not talk to the radio. It is told what happened and
//! answers with what to do next: the caller performs that action and reports
//! its outcome as the next event. A cycle runs from `Idle` through `Sending`,
//! `Checking` and `Paced` back to `Idle`. A radio error ends in `Halted`, which
//! is never left.

use vstd::prelude::*;

verus! {

/// Pause after each transmission, in milliseconds.
pub const PACING_INTERVAL_MS: u32 = 5000;

/// The radio operation whose failure stopped the controller.
#[derive(Clone, Copy, Debug, PartialEq, Eq)]
pub enum FatalCause {
    /// Starting the transmission failed.
    StartTransmit,
    /// Asking whether the transmission is complete failed.
    CheckTransmit,
    /// The pause after the transmission failed.
    Delay,
}

/// Where the controller stands in its cycle.
#[derive(Clone, Copy, Debug, PartialEq, Eq)]
pub enum Phase {
    /// Waiting for a frame.
    Idle,
    /// The radio has been asked to start the transmission.
    Sending,
    /// The radio has been asked whether the transmission is complete.
    Checking,
    /// The pause after the transmission is running.
    Paced,
    /// A radio operation failed: nothing more is asked of the radio.
    Halted(FatalCause),
}

/// What the caller reports to the controller.
#[derive(Clone, Copy, Debug, PartialEq, Eq)]
pub enum Event {
    /// A frame has been composed and waits to be sent.
    FrameReady,
    /// The radio accepted the frame.
    TransmitStarted,
    /// The radio refused to start the transmission.
    TransmitFailed,
    /// The radio reports the transmission complete.
    CheckComplete,
    /// The radio reports the transmission not yet complete.
    CheckIncomplete,
    /// The radio could not say whether the transmission is complete.
    CheckFailed,
    /// The pause is over.
    DelayElapsed,
    /// The pause could not be made.
    DelayFailed,
}

/// What the controller asks of the caller.
#[derive(Clone, Copy, Debug, PartialEq, Eq)]
pub enum Action {
    /// Go on reading until the next frame is ready.
    AwaitFrame,
    /// Hand the frame to the radio.
    StartTransmit,
    /// Ask the radio once whether the transmission is complete.
    CheckTransmit,
    /// Pause for `millis` milliseconds. `complete` is false where the radio
    /// had not finished the transmission when asked: worth a note, and no
    /// reason to wait longer or to send again.
    Pace { millis: u32, complete: bool },
    /// Stop: the radio failed and only a restart can help.
    Halt(FatalCause),
    /// The event does not belong to the current phase and was disregarded.
    Disregard,
}

/// The phase after an event and the action that the event calls for.
pub open spec fn transition(phase: Phase, event: Event) -> (Phase, Action) {
    match (phase, event) {
        (Phase::Halted(cause), _) => (Phase::Halted(cause), Action::Halt(cause)),
        (Phase::Idle, Event::FrameReady) => (Phase::Sending, Action::StartTransmit),
        (Phase::Sending, Event::TransmitStarted) => (Phase::Checking, Action::CheckTransmit),
        (Phase::Sending, Event::TransmitFailed) => (
            Phase::Halted(FatalCause::StartTransmit),
            Action::Halt(FatalCause::StartTransmit),
        ),
        (Phase::Checking, Event::CheckComplete) => (
            Phase::Paced,
            Action::Pace { millis: PACING_INTERVAL_MS, complete: true },
        ),
        (Phase::Checking, Event::CheckIncomplete) => (
            Phase::Paced,
            Action::Pace { millis: PACING_INTERVAL_MS, complete: false },
        ),
        (Phase::Checking, Event::CheckFailed) => (
            Phase::Halted(FatalCause::CheckTransmit),
            Action::Halt(FatalCause::CheckTransmit),
        ),
        (Phase::Paced, Event::DelayElapsed) => (Phase::Idle, Action::AwaitFrame),
        (Phase::Paced, Event::DelayFailed) => (
            Phase::Halted(FatalCause::Delay),
            Action::Halt(FatalCause::Delay),
        ),
        (_, _) => (phase, Action::Disregard),
    }
}

/// The phase after a run of events.
pub open spec fn phase_after(phase: Phase, events: Seq<Event>) -> Phase
    decreases events.len(),
{
    if events.len() == 0 {
        phase
    } else {
        transition(phase_after(phase, events.drop_last()), events.last()).0
    }
}

/// Decides what the radio is asked to do next.
pub struct TransmitController {
    phase: Phase,
}

impl View for TransmitController {
    type V = Phase;

    closed spec fn view(&self) -> Phase {
        self.phase
    }
}

impl TransmitController {
    /// A controller that waits for its first frame.
    pub fn new() -> (controller: TransmitController)
        ensures
            controller@ == Phase::Idle,
    {
        TransmitController { phase: Phase::Idle }
    }

    /// Where the controller stands.
    pub fn phase(&self) -> (phase: Phase)
        ensures
            phase == self@,
    {
        self.phase
    }

    /// Takes one event and returns the action that it calls for.
    ///
    /// An error of the radio halts the controller for good. A transmission
    /// that is not yet complete when asked about is paced like a complete one.
    /// An event that the current phase does not wait for changes nothing.
    pub fn step(&mut self, event: Event) -> (action: Action)
        ensures
            final(self)@ == transition(old(self)@, event).0,
            action == transition(old(self)@, event).1,
    {
        let (next, action) = match (self.phase, event) {
            (Phase::Halted(cause), _) => (Phase::Halted(cause), Action::Halt(cause)),
            (Phase::Idle, Event::FrameReady) => (Phase::Sending, Action::StartTransmit),
            (Phase::Sending, Event::TransmitStarted) => (Phase::Checking, Action::CheckTransmit),
            (Phase::Sending, Event::TransmitFailed) => (
                Phase::Halted(FatalCause::StartTransmit),
                Action::Halt(FatalCause::StartTransmit),
            ),
            (Phase::Checking, Event::CheckComplete) => (
                Phase::Paced,
                Action::Pace { millis: PACING_INTERVAL_MS, complete: true },
            ),
            (Phase::Checking, Event::CheckIncomplete) => (
                Phase::Paced,
                Action::Pace { millis: PACING_INTERVAL_MS, complete: false },
            ),
            (Phase::Checking, Event::CheckFailed) => (
                Phase::Halted(FatalCause::CheckTransmit),
                Action::Halt(FatalCause::CheckTransmit),
            ),
            (Phase::Paced, Event::DelayElapsed) => (Phase::Idle, Action::AwaitFrame),
            (Phase::Paced, Event::DelayFailed) => (
                Phase::Halted(FatalCause::Delay),
                Action::Halt(FatalCause::Delay),
            ),
            (phase, _) => (phase, Action::Disregard),
        };
        self.phase = next;
        action
    }
}

/// The event for what the radio answered when asked to start a transmission.
pub fn start_event<E>(started: &Result<(), E>) -> (event: Event)
    ensures
        event == (match *started {
            Ok(_) => Event::TransmitStarted,
            Err(_) => Event::TransmitFailed,
        }),
{
    match started {
        Ok(_) => Event::TransmitStarted,
        Err(_) => Event::TransmitFailed,
    }
}

/// The event for what the radio answered when asked whether the transmission
/// is complete.
pub fn check_event<E>(checked: &Result<bool, E>) -> (event: Event)
    ensures
        event == (match *checked {
            Ok(true) => Event::CheckComplete,
            Ok(false) => Event::CheckIncomplete,
            Err(_) => Event::CheckFailed,
        }),
{
    match checked {
        Ok(true) => Event::CheckComplete,
        Ok(false) => Event::CheckIncomplete,
        Err(_) => Event::CheckFailed,
    }
}

/// The event for the outcome of the pause.
pub fn delay_event<E>(delayed: &Result<(), E>) -> (event: Event)
    ensures
        event == (match *delayed {
            Ok(_) => Event::DelayElapsed,
            Err(_) => Event::DelayFailed,
        }),
{
    match delayed {
        Ok(_) => Event::DelayElapsed,
        Err(_) => Event::DelayFailed,
    }
}

/// A halted controller stays halted, with the same cause, whatever it is told.
pub proof fn lemma_halted_is_final(cause: FatalCause, events: Seq<Event>)
    ensures
        phase_after(Phase::Halted(cause), events) == Phase::Halted(cause),
    decreases events.len(),
{
    if events.len() > 0 {
        lemma_halted_is_final(cause, events.drop_last());
    }
}

/// After a failed start the radio is not asked to transmit again: no later
/// event calls for `StartTransmit`.
pub proof fn lemma_no_retry_after_failed_start(later: Seq<Event>, event: Event)
    ensures
        transition(Phase::Sending, Event::TransmitFailed).1 == Action::Halt(
            FatalCause::StartTransmit,
        ),
        transition(
            phase_after(transition(Phase::Sending, Event::TransmitFailed).0, later),
            event,
        ).1 == Action::Halt(FatalCause::StartTransmit),
{
    lemma_halted_is_final(FatalCause::StartTransmit, later);
}

/// A cycle in which the radio reports no error ends where it began, whether
/// or not the transmission was complete when asked about, and is paced by
/// [`PACING_INTERVAL_MS`] either way.
pub proof fn lemma_cycle_returns_to_idle(complete: bool)
    ensures
        ({
            let check = if complete {
                Event::CheckComplete
            } else {
                Event::CheckIncomplete
            };
            let sending = transition(Phase::Idle, Event::FrameReady);
            let checking = transition(sending.0, Event::TransmitStarted);
            let paced = transition(checking.0, check);
            let idle = transition(paced.0, Event::DelayElapsed);
            &&& sending.1 == Action::StartTransmit
            &&& checking.1 == Action::CheckTransmit
            &&& paced.1 == (Action::Pace { millis: PACING_INTERVAL_MS, complete })
            &&& idle == (Phase::Idle, Action::AwaitFrame)
        }),
{
}

} // verus!
