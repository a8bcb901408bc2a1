use lora_gps::controller::{
    check_event, delay_event, start_event, Action, Event, FatalCause, Phase, TransmitController,
    PACING_INTERVAL_MS,
};

const ALL_EVENTS: [Event; 8] = [
    Event::FrameReady,
    Event::TransmitStarted,
    Event::TransmitFailed,
    Event::CheckComplete,
    Event::CheckIncomplete,
    Event::CheckFailed,
    Event::DelayElapsed,
    Event::DelayFailed,
];

fn at(phase: Phase) -> TransmitController {
    let mut c = TransmitController::new();
    let path: &[Event] = match phase {
        Phase::Idle => &[],
        Phase::Sending => &[Event::FrameReady],
        Phase::Checking => &[Event::FrameReady, Event::TransmitStarted],
        Phase::Paced => &[Event::FrameReady, Event::TransmitStarted, Event::CheckComplete],
        Phase::Halted(FatalCause::StartTransmit) => &[Event::FrameReady, Event::TransmitFailed],
        Phase::Halted(FatalCause::CheckTransmit) => {
            &[Event::FrameReady, Event::TransmitStarted, Event::CheckFailed]
        }
        Phase::Halted(FatalCause::Delay) => &[
            Event::FrameReady,
            Event::TransmitStarted,
            Event::CheckComplete,
            Event::DelayFailed,
        ],
    };
    for e in path {
        c.step(*e);
    }
    assert_eq!(c.phase(), phase);
    c
}

#[test]
fn pacing_interval_is_five_seconds() {
    assert_eq!(PACING_INTERVAL_MS, 5000);
}

#[test]
fn new_controller_is_idle() {
    assert_eq!(TransmitController::new().phase(), Phase::Idle);
}

#[test]
fn complete_cycle_returns_to_idle() {
    let mut c = TransmitController::new();
    assert_eq!(c.step(Event::FrameReady), Action::StartTransmit);
    assert_eq!(c.phase(), Phase::Sending);
    assert_eq!(c.step(Event::TransmitStarted), Action::CheckTransmit);
    assert_eq!(c.phase(), Phase::Checking);
    assert_eq!(c.step(Event::CheckComplete), Action::Pace { millis: 5000, complete: true });
    assert_eq!(c.phase(), Phase::Paced);
    assert_eq!(c.step(Event::DelayElapsed), Action::AwaitFrame);
    assert_eq!(c.phase(), Phase::Idle);
    assert_eq!(c.step(Event::FrameReady), Action::StartTransmit);
}

#[test]
fn failed_start_is_fatal_and_not_retried() {
    let mut c = TransmitController::new();
    assert_eq!(c.step(Event::FrameReady), Action::StartTransmit);
    assert_eq!(c.step(Event::TransmitFailed), Action::Halt(FatalCause::StartTransmit));
    assert_eq!(c.phase(), Phase::Halted(FatalCause::StartTransmit));
    for e in ALL_EVENTS {
        assert_eq!(c.step(e), Action::Halt(FatalCause::StartTransmit));
        assert_eq!(c.phase(), Phase::Halted(FatalCause::StartTransmit));
    }
}

#[test]
fn incomplete_transmission_is_paced_and_the_loop_goes_on() {
    let mut c = TransmitController::new();
    c.step(Event::FrameReady);
    c.step(Event::TransmitStarted);
    assert_eq!(c.step(Event::CheckIncomplete), Action::Pace { millis: 5000, complete: false });
    assert_eq!(c.phase(), Phase::Paced);
    assert_eq!(c.step(Event::DelayElapsed), Action::AwaitFrame);
    assert_eq!(c.phase(), Phase::Idle);
}

#[test]
fn failed_check_is_fatal() {
    let mut c = at(Phase::Checking);
    assert_eq!(c.step(Event::CheckFailed), Action::Halt(FatalCause::CheckTransmit));
    assert_eq!(c.phase(), Phase::Halted(FatalCause::CheckTransmit));
    assert_eq!(c.step(Event::FrameReady), Action::Halt(FatalCause::CheckTransmit));
}

#[test]
fn failed_delay_is_fatal() {
    let mut c = at(Phase::Paced);
    assert_eq!(c.step(Event::DelayFailed), Action::Halt(FatalCause::Delay));
    assert_eq!(c.phase(), Phase::Halted(FatalCause::Delay));
    assert_eq!(c.step(Event::DelayElapsed), Action::Halt(FatalCause::Delay));
}

#[test]
fn events_of_another_phase_change_nothing() {
    let expected: [(Phase, &[Event]); 4] = [
        (Phase::Idle, &[Event::FrameReady]),
        (Phase::Sending, &[Event::TransmitStarted, Event::TransmitFailed]),
        (Phase::Checking, &[Event::CheckComplete, Event::CheckIncomplete, Event::CheckFailed]),
        (Phase::Paced, &[Event::DelayElapsed, Event::DelayFailed]),
    ];
    for (phase, awaited) in expected {
        for e in ALL_EVENTS {
            if awaited.contains(&e) {
                continue;
            }
            let mut c = at(phase);
            assert_eq!(c.step(e), Action::Disregard);
            assert_eq!(c.phase(), phase);
        }
    }
}

#[test]
fn radio_answers_become_events() {
    assert_eq!(start_event::<u8>(&Ok(())), Event::TransmitStarted);
    assert_eq!(start_event(&Err(7u8)), Event::TransmitFailed);
    assert_eq!(check_event::<u8>(&Ok(true)), Event::CheckComplete);
    assert_eq!(check_event::<u8>(&Ok(false)), Event::CheckIncomplete);
    assert_eq!(check_event(&Err(7u8)), Event::CheckFailed);
    assert_eq!(delay_event::<u8>(&Ok(())), Event::DelayElapsed);
    assert_eq!(delay_event(&Err(7u8)), Event::DelayFailed);
}
