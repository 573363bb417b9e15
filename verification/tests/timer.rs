use shapoist::error::ShapoError;
use shapoist::timer::{Timer, TimerError};

fn clock_error() -> ShapoError {
    ShapoError::TimerError(TimerError::CouldNotRead("clock".to_string()))
}

#[test]
fn new_timer_is_paused_and_unread() {
    let t = Timer::new(7);
    assert_eq!(t.id, 7);
    match t.read() {
        Err(ShapoError::TimerError(TimerError::CouldNotRead(m))) => assert_eq!(m, "havn't pause yet"),
        _ => panic!("a new timer has no reading"),
    }
}

#[test]
fn default_timer_is_new_timer_zero() {
    assert_eq!(Timer::default(), Timer::new(0));
}

#[test]
fn started_timer_counts_from_start() {
    let mut t = Timer::new(1);
    assert!(t.start_at(Ok(1_000)).is_ok());
    assert_eq!(t.read_at(Ok(1_500)).unwrap(), 500);
    assert_eq!(t.read_at(Ok(1_000)).unwrap(), 0);
    assert_eq!(t.read_at(Ok(4_000)).unwrap() - t.read_at(Ok(2_000)).unwrap(), 2_000);
}

#[test]
fn starting_a_running_timer_is_refused() {
    let mut t = Timer::new(1);
    t.start_at(Ok(10)).unwrap();
    let before = t;
    assert!(matches!(t.start_at(Ok(20)), Err(ShapoError::TimerError(TimerError::Running))));
    assert_eq!(t, before);
    assert!(matches!(t.start(), Err(ShapoError::TimerError(TimerError::Running))));
    assert_eq!(t, before);
}

#[test]
fn clock_error_leaves_timer_paused() {
    let mut t = Timer::new(3);
    let r = t.start_at(Err(clock_error()));
    assert!(matches!(r, Err(ShapoError::TimerError(TimerError::CouldNotRead(_)))));
    assert_eq!(t, Timer::new(3));
}

#[test]
fn reading_with_clock_error_returns_it() {
    let mut t = Timer::new(3);
    t.start_at(Ok(5)).unwrap();
    match t.read_at(Err(ShapoError::SystemError("x".to_string()))) {
        Err(ShapoError::SystemError(m)) => assert_eq!(m, "x"),
        _ => panic!("the clock's error is handed on"),
    }
}

#[test]
fn set_moves_reading_forward() {
    let mut t = Timer::new(1);
    t.start_at(Ok(1_000)).unwrap();
    let before = t.read_at(Ok(1_500)).unwrap();
    t.set(200).unwrap();
    assert_eq!(t.read_at(Ok(1_500)).unwrap(), before + 200);
    t.set(-300).unwrap();
    assert_eq!(t.read_at(Ok(1_500)).unwrap(), before - 100);
}

#[test]
fn set_on_unstarted_timer_is_refused() {
    let mut t = Timer::new(2);
    match t.set(5) {
        Err(ShapoError::TimerError(TimerError::CouldNotSet(m))) => assert_eq!(m, "havn't start yet"),
        _ => panic!("an unstarted timer cannot be set"),
    }
    assert_eq!(t, Timer::new(2));
}

#[test]
fn system_clock_timer_reads() {
    let mut t = Timer::new(0);
    t.start().unwrap();
    let r = t.read().unwrap();
    assert!(r >= 0);
    assert!(r < 60_000_000);
}

fn read_message(r: Result<i64, ShapoError>) -> String {
    match r {
        Err(ShapoError::TimerError(TimerError::CouldNotRead(m))) => m,
        _ => panic!("expected a refused reading"),
    }
}

#[test]
fn start_from_starts_a_paused_timer_at_the_moment() {
    let mut t = Timer::new(1);
    t.start_from(Ok(100)).unwrap();
    assert_eq!(t.read_from(Ok(150)).unwrap(), 50);
    assert!(matches!(t.start_from(Ok(0)), Err(ShapoError::TimerError(TimerError::Running))));
}

#[test]
fn read_from_refuses_a_reading_out_of_range() {
    let mut t = Timer::new(1);
    t.start_from(Ok(i64::MAX)).unwrap();
    assert_eq!(read_message(t.read_from(Ok(-10))), "reading out of range");
    assert_eq!(t.read_from(Ok(i64::MAX)).unwrap(), 0);
}

#[test]
fn read_from_passes_clock_errors_on() {
    let mut t = Timer::new(1);
    t.start_from(Ok(7)).unwrap();
    assert!(matches!(t.read_from(Err(clock_error())), Err(ShapoError::TimerError(TimerError::CouldNotRead(m))) if m == "clock"));
    assert_eq!(read_message(Timer::new(4).read_from(Ok(3))), "havn't pause yet");
}

#[test]
fn start_from_passes_clock_errors_on() {
    let mut t = Timer::new(1);
    assert!(t.start_from(Err(clock_error())).is_err());
    assert_eq!(read_message(t.read()), "havn't pause yet");
}
