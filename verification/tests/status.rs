use contourwall_core::clock::{millis_from, millis_since_epoch, pacing_delay};
use contourwall_core::exchange::{read_step, status_of_reply, ReadStep};
use contourwall_core::status_code::StatusCode;

#[test]
fn status_codes_have_their_bytes() {
    assert_eq!(StatusCode::Error.as_u8(), 0);
    assert_eq!(StatusCode::TooSlow.as_u8(), 1);
    assert_eq!(StatusCode::NonMatchingCRC.as_u8(), 2);
    assert_eq!(StatusCode::UnknownCommand.as_u8(), 3);
    assert_eq!(StatusCode::ErrorInternal.as_u8(), 50);
    assert_eq!(StatusCode::NotACompatiblePort.as_u8(), 51);
    assert_eq!(StatusCode::Okay.as_u8(), 100);
    assert_eq!(StatusCode::Next.as_u8(), 101);
    assert_eq!(StatusCode::Reset.as_u8(), 255);
}

#[test]
fn status_bytes_are_read_back() {
    assert_eq!(StatusCode::new(0), Some(StatusCode::Error));
    assert_eq!(StatusCode::new(1), Some(StatusCode::TooSlow));
    assert_eq!(StatusCode::new(2), Some(StatusCode::NonMatchingCRC));
    assert_eq!(StatusCode::new(3), Some(StatusCode::UnknownCommand));
    assert_eq!(StatusCode::new(50), Some(StatusCode::ErrorInternal));
    assert_eq!(StatusCode::new(51), Some(StatusCode::NotACompatiblePort));
    assert_eq!(StatusCode::new(100), Some(StatusCode::Okay));
    assert_eq!(StatusCode::new(101), Some(StatusCode::Next));
    assert_eq!(StatusCode::new(255), Some(StatusCode::Reset));
}

#[test]
fn other_bytes_are_no_status() {
    let mut known = 0;
    for byte in 0..=255u8 {
        match StatusCode::new(byte) {
            Some(status) => {
                known += 1;
                assert_eq!(status.as_u8(), byte);
            }
            None => assert_eq!(status_of_reply(byte), StatusCode::ErrorInternal),
        }
    }
    assert_eq!(known, 9);
    assert_eq!(StatusCode::new(4), None);
    assert_eq!(StatusCode::new(49), None);
    assert_eq!(StatusCode::new(102), None);
    assert_eq!(StatusCode::new(254), None);
}

#[test]
fn status_in_words() {
    assert_eq!(StatusCode::Error.to_string(), "StatusCode::Error (0)");
    assert_eq!(StatusCode::TooSlow.to_string(), "StatusCode::TooSlow (1)");
    assert_eq!(StatusCode::NonMatchingCRC.to_string(), "StatusCode::NonMatchingCRC (2)");
    assert_eq!(StatusCode::UnknownCommand.to_string(), "StatusCode::UnknownCommand (3)");
    assert_eq!(StatusCode::ErrorInternal.to_string(), "StatusCode::ErrorInternal (50)");
    assert_eq!(
        StatusCode::NotACompatiblePort.to_string(),
        "StatusCode::NotACompatiblePort (51)"
    );
    assert_eq!(StatusCode::Okay.to_string(), "StatusCode::Okay (100)");
    assert_eq!(StatusCode::Next.to_string(), "StatusCode::Next (101)");
    assert_eq!(StatusCode::Reset.to_string(), "StatusCode::Reset (255)");
}

#[test]
fn pause_is_what_is_left_of_the_frame_time() {
    assert_eq!(pacing_delay(100, 90, 33), 23);
    assert_eq!(pacing_delay(100, 100, 33), 33);
    assert_eq!(pacing_delay(132, 100, 33), 1);
    assert_eq!(pacing_delay(133, 100, 33), 0);
    assert_eq!(pacing_delay(5000, 100, 33), 0);
    assert_eq!(pacing_delay(100, 100, 0), 0);
    assert_eq!(pacing_delay(u64::MAX, 0, u64::MAX), 0);
    assert_eq!(pacing_delay(0, 0, u64::MAX), u64::MAX);
}

#[test]
fn pause_is_the_whole_frame_time_when_the_clock_went_back() {
    assert_eq!(pacing_delay(90, 100, 33), 33);
    assert_eq!(pacing_delay(0, u64::MAX, 7), 7);
}

#[test]
fn pause_keeps_two_shows_a_frame_time_apart() {
    for last in [0u64, 10, 1000] {
        for gone in 0..100u64 {
            let now = last + gone;
            let pause = pacing_delay(now, last, 33);
            assert!(now + pause >= last + 33);
            assert!(pause <= 33);
            if gone >= 33 {
                assert_eq!(pause, 0);
            }
        }
    }
}

#[test]
fn reply_is_taken_once_it_is_there() {
    assert_eq!(read_step(1, 1, 1000, 1000), ReadStep::Take);
    assert_eq!(read_step(7, 5, 1000, 1010), ReadStep::Take);
    assert_eq!(read_step(3, 3, 1000, 5000), ReadStep::Take);
    assert_eq!(read_step(0, 0, 1000, 5000), ReadStep::Take);
}

#[test]
fn reply_is_waited_for_thirty_milliseconds() {
    assert_eq!(read_step(0, 1, 1000, 1000), ReadStep::Wait);
    assert_eq!(read_step(2, 3, 1000, 1030), ReadStep::Wait);
    assert_eq!(read_step(2, 3, 1000, 1031), ReadStep::GiveUp);
    assert_eq!(read_step(0, 5, 1000, 9999), ReadStep::GiveUp);
    assert_eq!(read_step(0, 5, 1000, 999), ReadStep::Wait);
    assert_eq!(read_step(u32::MAX, usize::MAX, 0, 0), ReadStep::Wait);
}

#[test]
fn clock_reads_a_time_of_this_century() {
    let first = millis_since_epoch();
    let second = millis_since_epoch();
    assert!(first > 1_600_000_000_000);
    assert!(first < 4_102_444_800_000);
    assert!(second + 1000 > first);
}

#[test]
fn reading_of_the_clock_becomes_a_count() {
    assert_eq!(millis_from(None), 0);
    assert_eq!(millis_from(Some(0)), 0);
    assert_eq!(millis_from(Some(1_700_000_000_123)), 1_700_000_000_123);
    assert_eq!(millis_from(Some(u64::MAX as u128)), u64::MAX);
    assert_eq!(millis_from(Some(u64::MAX as u128 + 1)), u64::MAX);
    assert_eq!(millis_from(Some(u128::MAX)), u64::MAX);
}
