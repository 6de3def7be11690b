use voxel_mesh::time::{get_delta, update, Clock, FIRST_DELTA};

#[test]
fn new_clock_reports_one_millisecond() {
    let clock = Clock::new(123);
    assert_eq!(FIRST_DELTA, 1_000_000);
    assert_eq!(clock, Clock { previous: 123, delta: 1_000_000 });
    assert_eq!(get_delta(&clock), 1_000_000);
}

#[test]
fn update_measures_the_time_between_readings() {
    let mut clock = Clock::new(1_000);
    update(&mut clock, 17_000);
    assert_eq!(clock, Clock { previous: 17_000, delta: 16_000 });
    assert_eq!(get_delta(&clock), 16_000);
    update(&mut clock, 17_000);
    assert_eq!(get_delta(&clock), 0);
    update(&mut clock, u64::MAX);
    assert_eq!(get_delta(&clock), u64::MAX - 17_000);
}

#[test]
fn earlier_reading_gives_no_time() {
    let mut clock = Clock::new(500);
    update(&mut clock, 400);
    assert_eq!(clock, Clock { previous: 400, delta: 0 });
    update(&mut clock, 450);
    assert_eq!(get_delta(&clock), 50);
}
