use lora_gps::composer::{ComposeError, OutgoingFrame};
use lora_gps::controller::{check_event, start_event, Action, Event, FatalCause, TransmitController};
use lora_gps::framer::{CaptureState, SentenceFramer};
use lora_gps::pipeline::{
    frame_sentence, process_byte, FrameKind, ReadyFrame, POSITION_PAYLOAD_LEN,
};

const ID: &[u8] = b"B411-2";
const FIX: &[u8] = b"$GPRMC,031737.00,A,4523.74241,N,07540.61255,W,0.551,,300321,,,A*66\r";
const VOID_FIX: &[u8] = b"$GPRMC,030052.00,V,,,,,,,300321,,,N*7A\r";
const SATELLITES: &[u8] =
    b"$GPGSV,3,1,11,03,03,111,00,04,15,270,00,06,01,010,00,13,06,292,00*74\r";

fn run(
    framer: &mut SentenceFramer,
    id: Option<&[u8]>,
    bytes: &[u8],
    frame: &mut OutgoingFrame,
) -> Vec<Result<(ReadyFrame, Vec<u8>), ComposeError>> {
    let mut out = Vec::new();
    for b in bytes {
        match process_byte(framer, id, *b, frame) {
            Ok(None) => {}
            Ok(Some(ready)) => out.push(Ok((ready, frame.as_bytes().to_vec()))),
            Err(e) => out.push(Err(e)),
        }
    }
    out
}

#[test]
fn position_payload_is_26_bytes() {
    assert_eq!(POSITION_PAYLOAD_LEN, 26);
}

#[test]
fn valid_fix_is_sent_as_two_fields() {
    let mut framer = SentenceFramer::new();
    let mut frame = OutgoingFrame::new();
    let out = run(&mut framer, Some(ID), FIX, &mut frame);
    assert_eq!(
        out,
        vec![Ok((
            ReadyFrame { kind: FrameKind::Position, truncated: false },
            b"B411-2 4523.74241,N 07540.61255,W".to_vec()
        ))]
    );
}

#[test]
fn void_fix_is_sent_whole() {
    let mut framer = SentenceFramer::new();
    let mut frame = OutgoingFrame::new();
    let out = run(&mut framer, Some(ID), VOID_FIX, &mut frame);
    assert_eq!(
        out,
        vec![Ok((
            ReadyFrame { kind: FrameKind::Passthrough, truncated: false },
            b"B411-2 $GPRMC,030052.00,V,,,,,,,300321,,,N*7A\r".to_vec()
        ))]
    );
}

#[test]
fn other_sentence_is_sent_whole() {
    let mut framer = SentenceFramer::new();
    let mut frame = OutgoingFrame::new();
    let out = run(&mut framer, Some(ID), SATELLITES, &mut frame);
    let mut expected = b"B411-2 ".to_vec();
    expected.extend_from_slice(SATELLITES);
    assert_eq!(
        out,
        vec![Ok((ReadyFrame { kind: FrameKind::Passthrough, truncated: false }, expected))]
    );
}

#[test]
fn frame_is_untouched_until_a_sentence_completes() {
    let mut framer = SentenceFramer::new();
    let mut frame = OutgoingFrame::new();
    run(&mut framer, Some(ID), b"$A\r", &mut frame);
    assert_eq!(frame.as_bytes(), b"B411-2 $A\r");
    for b in b"\n$GPRMC,0317" {
        assert_eq!(process_byte(&mut framer, Some(ID), *b, &mut frame), Ok(None));
        assert_eq!(frame.as_bytes(), b"B411-2 $A\r");
    }
    assert_eq!(framer.state(), CaptureState::Capturing);
}

#[test]
fn truncated_sentence_is_reported_as_such() {
    let mut input = vec![b'$'];
    input.extend(std::iter::repeat(b'a').take(84));
    let mut framer = SentenceFramer::new();
    let mut frame = OutgoingFrame::new();
    let out = run(&mut framer, None, &input, &mut frame);
    assert_eq!(
        out,
        vec![Ok((
            ReadyFrame { kind: FrameKind::Passthrough, truncated: true },
            input[..80].to_vec()
        ))]
    );
}

#[test]
fn truncated_positioning_sentence_still_gives_fields() {
    let mut input = FIX[..66].to_vec();
    input.extend(std::iter::repeat(b'0').take(19));
    assert_eq!(input.len(), 85);
    let mut framer = SentenceFramer::new();
    let mut frame = OutgoingFrame::new();
    let out = run(&mut framer, Some(ID), &input, &mut frame);
    assert_eq!(
        out,
        vec![Ok((
            ReadyFrame { kind: FrameKind::Position, truncated: true },
            b"B411-2 4523.74241,N 07540.61255,W".to_vec()
        ))]
    );
}

#[test]
fn sentence_too_long_for_the_frame_is_an_overflow() {
    let mut input = vec![b'$'];
    input.extend(std::iter::repeat(b'a').take(73));
    input.push(b'\r');
    assert_eq!(input.len(), 75);
    let mut framer = SentenceFramer::new();
    let mut frame = OutgoingFrame::new();
    let out = run(&mut framer, Some(ID), &input, &mut frame);
    assert_eq!(out, vec![Err(ComposeError::Overflow)]);
    assert_eq!(frame.len(), 0);
    assert_eq!(framer.state(), CaptureState::Idle);
    let out = run(&mut framer, Some(ID), &input[1..], &mut frame);
    assert!(out.is_empty());
    let mut fitting = vec![b'$'];
    fitting.extend(std::iter::repeat(b'a').take(71));
    fitting.push(b'\r');
    let out = run(&mut framer, Some(ID), &fitting, &mut frame);
    assert_eq!(out.len(), 1);
    assert_eq!(frame.len(), 80);
}

#[test]
fn frame_sentence_cuts_and_composes() {
    let mut frame = OutgoingFrame::new();
    assert_eq!(frame_sentence(Some(ID), FIX, &mut frame), Ok(FrameKind::Position));
    assert_eq!(frame.as_bytes(), b"B411-2 4523.74241,N 07540.61255,W");
    assert_eq!(frame_sentence(None, FIX, &mut frame), Ok(FrameKind::Position));
    assert_eq!(frame.as_bytes(), b"4523.74241,N 07540.61255,W");
    assert_eq!(frame.len(), POSITION_PAYLOAD_LEN);
    assert_eq!(frame_sentence(None, VOID_FIX, &mut frame), Ok(FrameKind::Passthrough));
    assert_eq!(frame.as_bytes(), VOID_FIX);
    let long = [b'a'; 81];
    assert_eq!(frame_sentence(None, &long, &mut frame), Err(ComposeError::Overflow));
    assert_eq!(frame.len(), 0);
}

#[test]
fn two_sentences_in_one_stream_give_two_frames() {
    let mut stream = FIX.to_vec();
    stream.push(b'\n');
    stream.extend_from_slice(VOID_FIX);
    stream.push(b'\n');
    let mut framer = SentenceFramer::new();
    let mut frame = OutgoingFrame::new();
    let out = run(&mut framer, Some(ID), &stream, &mut frame);
    assert_eq!(out.len(), 2);
    assert_eq!(
        out[0],
        Ok((
            ReadyFrame { kind: FrameKind::Position, truncated: false },
            b"B411-2 4523.74241,N 07540.61255,W".to_vec()
        ))
    );
    assert_eq!(
        out[1],
        Ok((
            ReadyFrame { kind: FrameKind::Passthrough, truncated: false },
            b"B411-2 $GPRMC,030052.00,V,,,,,,,300321,,,N*7A\r".to_vec()
        ))
    );
}

#[test]
fn failing_radio_start_halts_the_cycle_without_a_second_attempt() {
    let mut framer = SentenceFramer::new();
    let mut frame = OutgoingFrame::new();
    let mut controller = TransmitController::new();
    let mut starts = 0;
    let mut halted = None;
    for b in FIX.iter().chain(FIX.iter()) {
        if halted.is_some() {
            break;
        }
        if let Ok(Some(_)) = process_byte(&mut framer, Some(ID), *b, &mut frame) {
            let mut action = controller.step(Event::FrameReady);
            loop {
                match action {
                    Action::StartTransmit => {
                        starts += 1;
                        let answer: Result<(), &str> = Err("radio busy");
                        action = controller.step(start_event(&answer));
                    }
                    Action::Halt(cause) => {
                        halted = Some(cause);
                        break;
                    }
                    other => panic!("unexpected action {:?}", other),
                }
            }
        }
    }
    assert_eq!(starts, 1);
    assert_eq!(halted, Some(FatalCause::StartTransmit));
}

#[test]
fn incomplete_transmission_does_not_stop_the_loop() {
    let mut framer = SentenceFramer::new();
    let mut frame = OutgoingFrame::new();
    let mut controller = TransmitController::new();
    let mut sent: Vec<Vec<u8>> = Vec::new();
    let mut notes = 0;
    let mut pauses: Vec<u32> = Vec::new();
    for b in FIX.iter().chain(VOID_FIX.iter()) {
        if let Ok(Some(_)) = process_byte(&mut framer, Some(ID), *b, &mut frame) {
            let mut action = controller.step(Event::FrameReady);
            loop {
                match action {
                    Action::StartTransmit => {
                        sent.push(frame.as_bytes().to_vec());
                        action = controller.step(start_event::<()>(&Ok(())));
                    }
                    Action::CheckTransmit => {
                        action = controller.step(check_event::<()>(&Ok(false)));
                    }
                    Action::Pace { millis, complete } => {
                        if !complete {
                            notes += 1;
                        }
                        pauses.push(millis);
                        action = controller.step(Event::DelayElapsed);
                    }
                    Action::AwaitFrame => break,
                    other => panic!("unexpected action {:?}", other),
                }
            }
        }
    }
    assert_eq!(sent.len(), 2);
    assert_eq!(sent[0], b"B411-2 4523.74241,N 07540.61255,W".to_vec());
    assert_eq!(notes, 2);
    assert_eq!(pauses, vec![5000, 5000]);
}
