use mymodbus::reader::{ReadAction, ReadEvent, ResponseError, ResponseReader};

fn done_ok(a: ReadAction) -> Vec<u8> {
    match a {
        ReadAction::Done(Ok(v)) => v,
        _ => panic!("expected a complete frame"),
    }
}

#[test]
fn frame_ends_when_the_line_goes_quiet() {
    let mut r = ResponseReader::new();
    let frame = vec![0xF7, 0x04, 0x02, 0x12, 0x34, 0xAA, 0xBB];
    assert!(matches!(r.on_read(ReadEvent::Data(frame.clone()), false), ReadAction::ReadAfterPause));
    assert_eq!(done_ok(r.on_read(ReadEvent::Nothing, false)), frame);
}

#[test]
fn more_bytes_after_the_pause_start_a_new_round() {
    let mut r = ResponseReader::new();
    assert!(matches!(r.on_read(ReadEvent::Data(vec![1, 2, 3]), false), ReadAction::ReadAfterPause));
    assert!(matches!(r.on_read(ReadEvent::Data(vec![4, 5, 6, 7]), false), ReadAction::Read));
    assert!(matches!(r.on_read(ReadEvent::Data(vec![]), false), ReadAction::Read));
    assert_eq!(done_ok(r.on_read(ReadEvent::TimedOut, false)), vec![1, 2, 3, 4, 5, 6, 7]);
}

#[test]
fn overall_timeout_and_short_frames() {
    let mut r = ResponseReader::new();
    assert!(matches!(r.on_read(ReadEvent::TimedOut, false), ReadAction::Read));
    assert!(matches!(
        r.on_read(ReadEvent::Nothing, true),
        ReadAction::Done(Err(ResponseError::TimedOut))
    ));

    let mut r = ResponseReader::new();
    assert!(matches!(r.on_read(ReadEvent::Data(vec![9, 9]), false), ReadAction::ReadAfterPause));
    match r.on_read(ReadEvent::Failed, false) {
        ReadAction::Done(Err(ResponseError::TooShort(v))) => assert_eq!(v, vec![9, 9]),
        _ => panic!("expected a short frame"),
    }

    let mut r = ResponseReader::new();
    assert!(matches!(r.on_read(ReadEvent::Data(vec![1, 2, 3]), false), ReadAction::ReadAfterPause));
    assert_eq!(done_ok(r.on_read(ReadEvent::Data(vec![4, 5]), true)), vec![1, 2, 3, 4, 5]);
}

#[test]
fn a_failed_first_read_is_reported() {
    let mut r = ResponseReader::new();
    assert!(matches!(r.on_read(ReadEvent::Failed, false), ReadAction::Fail));
}
