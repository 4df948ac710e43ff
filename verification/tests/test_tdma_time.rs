use bluestation::tdma_time::{TdmaTime, TIMESLOTS_PER_CYCLE};

fn time(h: u16, m: u8, f: u8, t: u8) -> TdmaTime {
    TdmaTime { h, m, f, t }
}

#[test]
fn adding_timeslots_carries() {
    let start = TdmaTime::default();
    assert_eq!(start, time(0, 1, 1, 1));
    assert_eq!(start.add_timeslots(0), start);
    assert_eq!(start.add_timeslots(2), time(0, 1, 1, 3));
    assert_eq!(time(0, 1, 1, 3).add_timeslots(-2), start);
    assert_eq!(start.add_timeslots(4), time(0, 1, 2, 1));
    assert_eq!(start.add_timeslots(72), time(0, 2, 1, 1));
    assert_eq!(start.add_timeslots(4320), time(1, 1, 1, 1));
    assert_eq!(time(0, 1, 18, 4).add_timeslots(1), time(0, 2, 1, 1));
    assert_eq!(time(0, 60, 18, 4).next(), time(1, 1, 1, 1));
}

#[test]
fn the_hyperframe_wraps() {
    assert_eq!(time(63, 60, 18, 4).add_timeslots(1), time(0, 1, 1, 1));
    assert_eq!(time(0, 1, 1, 1).add_timeslots(-1), time(63, 60, 18, 4));
    assert_eq!(time(5, 6, 7, 2).add_timeslots(276480), time(5, 6, 7, 2));
    assert_eq!(time(5, 6, 7, 2).add_timeslots(-276480 * 3), time(5, 6, 7, 2));
}

#[test]
fn extreme_offsets_give_valid_times() {
    let start = TdmaTime::default();
    assert_eq!(start.add_timeslots(i32::MAX), time(14, 42, 14, 4));
    assert_eq!(start.add_timeslots(i32::MIN), time(49, 19, 5, 1));
    for base in [start, time(63, 60, 18, 4), time(31, 30, 9, 2)] {
        for k in [i32::MIN, i32::MIN + 1, -276481, -1, 0, 1, 276479, i32::MAX - 1, i32::MAX] {
            let moved = base.add_timeslots(k);
            assert!(moved.check_valid());
            let expected = (base.to_int() as i64 + k as i64).rem_euclid(276480);
            assert_eq!(moved.to_int() as i64, expected);
        }
    }
}

#[test]
fn index_and_time_correspond() {
    assert_eq!(TIMESLOTS_PER_CYCLE, 276480);
    assert_eq!(time(0, 1, 1, 1).to_int(), 0);
    assert_eq!(time(0, 1, 1, 4).to_int(), 3);
    assert_eq!(time(0, 1, 2, 1).to_int(), 4);
    assert_eq!(time(0, 2, 1, 1).to_int(), 72);
    assert_eq!(time(1, 1, 1, 1).to_int(), 4320);
    assert_eq!(time(63, 60, 18, 4).to_int(), 276479);
    assert_eq!(TdmaTime::from_int(0), time(0, 1, 1, 1));
    assert_eq!(TdmaTime::from_int(276479), time(63, 60, 18, 4));
    for n in (0..276480u32).step_by(997) {
        assert_eq!(TdmaTime::from_int(n).to_int(), n);
    }
}

#[test]
fn difference_counts_forward() {
    let a = time(0, 1, 1, 1);
    let b = time(0, 1, 2, 1);
    assert_eq!(b.diff(a), 4);
    assert_eq!(a.diff(b), 276476);
    assert_eq!(a.diff(a), 0);
    assert_eq!(time(0, 1, 1, 1).diff(time(63, 60, 18, 4)), 1);
}

#[test]
fn validity() {
    assert!(time(0, 1, 1, 1).check_valid());
    assert!(time(63, 60, 18, 4).check_valid());
    assert!(!time(64, 1, 1, 1).check_valid());
    assert!(!time(0, 0, 1, 1).check_valid());
    assert!(!time(0, 61, 1, 1).check_valid());
    assert!(!time(0, 1, 0, 1).check_valid());
    assert!(!time(0, 1, 19, 1).check_valid());
    assert!(!time(0, 1, 1, 0).check_valid());
    assert!(!time(0, 1, 1, 5).check_valid());
}

#[test]
fn order_is_lexicographic() {
    let times = [
        time(0, 1, 1, 1),
        time(0, 1, 1, 2),
        time(0, 1, 2, 1),
        time(0, 2, 1, 1),
        time(1, 1, 1, 1),
        time(63, 60, 18, 4),
    ];
    for i in 0..times.len() {
        for j in 0..times.len() {
            assert_eq!(times[i] < times[j], i < j);
            assert_eq!(times[i].precedes(times[j]), i < j);
            assert_eq!(times[i].to_int() < times[j].to_int(), i < j);
        }
    }
}
