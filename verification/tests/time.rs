use rotor::loop_time::millis;
use rotor::{estimate_system_time, make_time, mio_timeout_ms, Duration, Time};

#[test]
fn test_add_duration() {
    let tm = Time::zero();
    assert_eq!(tm.add(Duration::new(10, 0)), Time(10001));
    assert_eq!(tm.add(Duration::from_millis(150)), Time(151));
    assert_eq!(tm.add(Duration::from_millis(12345)), Time(12346));
    assert_eq!(tm.add(Duration::new(5, 0)).add(Duration::from_millis(20)), Time(5021));
}

#[test]
fn zero_duration_is_identity() {
    assert_eq!(Time::zero().add(Duration::zero()), Time::zero());
    assert_eq!(Time(777).add(Duration::zero()), Time(777));
}

#[test]
fn adding_never_goes_backwards() {
    for ms in [0u64, 1, 17, 999, 1000, 123456] {
        let t = Time(42);
        assert!(t.add(Duration::from_millis(ms)).0 >= t.0);
    }
}

#[test]
fn millis_truncates_sub_millisecond() {
    assert_eq!(millis(Duration::new(2, 999_999)), 2000);
    assert_eq!(millis(Duration::new(2, 1_000_000)), 2001);
    assert_eq!(millis(Duration::from_millis(1500)), 1500);
}

#[test]
fn make_time_starts_at_one() {
    assert_eq!(make_time(Duration::zero()), Time(1));
    assert_eq!(make_time(Duration::from_millis(10)), Time(11));
}

#[test]
fn past_deadline_gets_zero_delay() {
    assert_eq!(mio_timeout_ms(Time(50), Time(50)), 0);
    assert_eq!(mio_timeout_ms(Time(50), Time(10)), 0);
    assert_eq!(mio_timeout_ms(Time(50), Time(51)), 2);
    assert_eq!(mio_timeout_ms(Time(50), Time(150)), 101);
}

#[test]
fn wall_clock_estimate_exists() {
    assert!(estimate_system_time(Time(1), Time(500)).is_some());
}
