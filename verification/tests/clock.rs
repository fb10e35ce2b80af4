use tetris::clock::phase_of;
use tetris::clock::ClockError;
use tetris::clock::FrameClock;
use tetris::clock::Timestamp;
use tetris::clock::NANOS_PER_SEC;

fn at(secs: u64, nanos: u32) -> Timestamp {
    Timestamp::new(secs, nanos).unwrap()
}

#[test]
fn timestamp_keeps_its_parts() {
    let t = at(12, 345);
    assert_eq!(t.secs(), 12);
    assert_eq!(t.subsec_nanos(), 345);
}

#[test]
fn timestamp_rejects_a_whole_second_of_nanos() {
    assert_eq!(NANOS_PER_SEC, 1_000_000_000);
    assert!(Timestamp::new(0, 999_999_999).is_some());
    assert_eq!(Timestamp::new(0, 1_000_000_000), None);
    assert_eq!(Timestamp::new(7, u32::MAX), None);
}

#[test]
fn origin_is_zero() {
    assert_eq!(Timestamp::origin(), at(0, 0));
}

#[test]
fn plus_seconds_moves_whole_seconds_only() {
    assert_eq!(at(5, 250).plus_seconds(3), Some(at(8, 250)));
    assert_eq!(at(5, 250).plus_seconds(0), Some(at(5, 250)));
    assert_eq!(at(u64::MAX - 1, 0).plus_seconds(1), Some(at(u64::MAX, 0)));
}

#[test]
fn plus_seconds_stops_at_the_end_of_the_range() {
    assert_eq!(at(u64::MAX, 0).plus_seconds(1), None);
    assert_eq!(at(1, 0).plus_seconds(u64::MAX), None);
}

#[test]
fn clock_remembers_its_start() {
    assert_eq!(FrameClock::new(at(3, 9)).start(), at(3, 9));
}

#[test]
fn elapsed_is_zero_at_the_start() {
    let clock = FrameClock::new(at(100, 500));
    assert_eq!(clock.elapsed_seconds(Some(at(100, 500))), Ok(0));
}

#[test]
fn elapsed_is_rounded_down() {
    let clock = FrameClock::new(at(100, 500_000_000));
    assert_eq!(clock.elapsed_seconds(Some(at(101, 499_999_999))), Ok(0));
    assert_eq!(clock.elapsed_seconds(Some(at(101, 500_000_000))), Ok(1));
    assert_eq!(clock.elapsed_seconds(Some(at(103, 0))), Ok(2));
    assert_eq!(clock.elapsed_seconds(Some(at(103, 999_999_999))), Ok(3));
}

#[test]
fn elapsed_spans_the_whole_range() {
    let clock = FrameClock::new(Timestamp::origin());
    assert_eq!(clock.elapsed_seconds(Some(at(u64::MAX, 999_999_999))), Ok(u64::MAX));
    let late = FrameClock::new(at(0, 1));
    assert_eq!(late.elapsed_seconds(Some(at(u64::MAX, 0))), Ok(u64::MAX - 1));
}

#[test]
fn unread_clock_is_an_error() {
    let clock = FrameClock::new(at(1, 0));
    assert_eq!(clock.elapsed_seconds(None), Err(ClockError::Unreadable));
}

#[test]
fn clock_before_the_start_is_an_error() {
    let clock = FrameClock::new(at(10, 100));
    assert_eq!(clock.elapsed_seconds(Some(at(10, 99))), Err(ClockError::WentBackwards));
    assert_eq!(clock.elapsed_seconds(Some(at(9, 999_999_999))), Err(ClockError::WentBackwards));
    assert_eq!(clock.elapsed_seconds(Some(at(0, 0))), Err(ClockError::WentBackwards));
}

#[test]
fn phase_is_green_at_zero_seconds() {
    let clock = FrameClock::new(at(40, 0));
    assert!(clock.display_phase(Some(at(40, 0))));
}

#[test]
fn phase_is_blue_at_one_second() {
    let clock = FrameClock::new(at(40, 0));
    assert!(!clock.display_phase(Some(at(41, 0))));
}

#[test]
fn phase_is_green_at_two_seconds() {
    let clock = FrameClock::new(at(40, 0));
    assert!(clock.display_phase(Some(at(42, 0))));
}

#[test]
fn phase_holds_for_the_whole_second() {
    let clock = FrameClock::new(at(40, 700_000_000));
    assert!(clock.display_phase(Some(at(41, 699_999_999))));
    assert!(!clock.display_phase(Some(at(41, 700_000_000))));
    assert!(!clock.display_phase(Some(at(42, 699_999_999))));
    assert!(clock.display_phase(Some(at(42, 700_000_000))));
}

#[test]
fn phase_follows_the_parity_of_whole_seconds() {
    let start = at(1_700_000_000, 123_456_789);
    let clock = FrameClock::new(start);
    let mut n: u64 = 0;
    while n < 200 {
        assert_eq!(clock.display_phase(start.plus_seconds(n)), n % 2 == 0);
        n += 1;
    }
    assert!(!clock.display_phase(start.plus_seconds(1_000_000_001)));
    assert!(clock.display_phase(start.plus_seconds(1_000_000_002)));
}

#[test]
fn failed_reading_shows_green() {
    let clock = FrameClock::new(at(50, 0));
    assert!(clock.display_phase(None));
    assert!(clock.display_phase(Some(at(49, 0))));
    assert!(clock.display_phase(Some(at(48, 999_999_999))));
}

#[test]
fn phase_of_a_reading() {
    assert!(phase_of(Ok(0)));
    assert!(!phase_of(Ok(1)));
    assert!(phase_of(Ok(2)));
    assert!(!phase_of(Ok(u64::MAX)));
    assert!(phase_of(Err(ClockError::Unreadable)));
    assert!(phase_of(Err(ClockError::WentBackwards)));
}
