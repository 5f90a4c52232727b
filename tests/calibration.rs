use gcdserver::calibration::{filter_calibrations_for_run, Calibration};

fn cal(dom_id: u32, timestamp: i64, tag: &str) -> Calibration<String> {
    Calibration { dom_id, domcal: tag.to_string(), timestamp }
}

fn picked(resolved: &[Calibration<String>]) -> Vec<(u32, i64, String)> {
    resolved.iter().map(|c| (c.dom_id, c.timestamp, c.domcal.clone())).collect()
}

#[test]
fn resolves_latest_in_effect_and_falls_back_to_oldest() {
    let input = vec![cal(161, 100, "a"), cal(161, 200, "b"), cal(162, 300, "c")];
    let resolved = filter_calibrations_for_run(input, 150, None);
    assert_eq!(
        picked(&resolved),
        vec![(161, 100, "a".to_string()), (162, 300, "c".to_string())]
    );
}

#[test]
fn empty_input_resolves_to_nothing() {
    let resolved = filter_calibrations_for_run(Vec::<Calibration<String>>::new(), 150, Some(500));
    assert!(resolved.is_empty());
}

#[test]
fn most_recent_in_effect_wins_over_older_ones() {
    let input = vec![cal(7, 10, "old"), cal(7, 40, "mid"), cal(7, 20, "early"), cal(7, 90, "late")];
    let resolved = filter_calibrations_for_run(input, 50, None);
    assert_eq!(picked(&resolved), vec![(7, 40, "mid".to_string())]);
}

#[test]
fn start_equal_to_timestamp_counts_as_in_effect() {
    let input = vec![cal(7, 50, "at"), cal(7, 10, "before")];
    let resolved = filter_calibrations_for_run(input, 50, None);
    assert_eq!(picked(&resolved), vec![(7, 50, "at".to_string())]);
}

#[test]
fn all_after_start_picks_oldest() {
    let input = vec![cal(9, 300, "x"), cal(9, 200, "y"), cal(9, 250, "z")];
    let resolved = filter_calibrations_for_run(input, 100, None);
    assert_eq!(picked(&resolved), vec![(9, 200, "y".to_string())]);
}

#[test]
fn equal_timestamps_in_effect_keep_first_in_input() {
    let input = vec![cal(3, 40, "first"), cal(3, 40, "second"), cal(3, 10, "older")];
    let resolved = filter_calibrations_for_run(input, 50, None);
    assert_eq!(picked(&resolved), vec![(3, 40, "first".to_string())]);
}

#[test]
fn equal_timestamps_after_start_keep_last_in_input() {
    let input = vec![cal(3, 80, "first"), cal(3, 80, "second"), cal(3, 95, "newer")];
    let resolved = filter_calibrations_for_run(input, 50, None);
    assert_eq!(picked(&resolved), vec![(3, 80, "second".to_string())]);
}

#[test]
fn one_version_per_device_in_input_order() {
    let input = vec![
        cal(5, 10, "a"),
        cal(2, 20, "b"),
        cal(5, 30, "c"),
        cal(2, 5, "d"),
        cal(8, 70, "e"),
    ];
    let resolved = filter_calibrations_for_run(input, 25, None);
    assert_eq!(
        picked(&resolved),
        vec![(5, 10, "a".to_string()), (2, 20, "b".to_string()), (8, 70, "e".to_string())]
    );
}

#[test]
fn shuffling_devices_keeps_resolved_set() {
    let first = vec![cal(1, 10, "a"), cal(2, 30, "b"), cal(1, 20, "c"), cal(2, 5, "d")];
    let second = vec![cal(2, 30, "b"), cal(1, 10, "a"), cal(2, 5, "d"), cal(1, 20, "c")];
    let mut r1 = picked(&filter_calibrations_for_run(first, 15, None));
    let mut r2 = picked(&filter_calibrations_for_run(second, 15, None));
    r1.sort();
    r2.sort();
    assert_eq!(r1, r2);
    assert_eq!(r1, vec![(1, 10, "a".to_string()), (2, 5, "d".to_string())]);
}

#[test]
fn resolving_twice_gives_the_same_result() {
    let make = || vec![cal(4, 10, "a"), cal(4, 60, "b"), cal(6, 70, "c"), cal(6, 65, "d")];
    let once = picked(&filter_calibrations_for_run(make(), 50, None));
    let again = picked(&filter_calibrations_for_run(make(), 50, None));
    assert_eq!(once, again);
    let resolved_again = filter_calibrations_for_run(filter_calibrations_for_run(make(), 50, None), 50, None);
    assert_eq!(picked(&resolved_again), once);
    assert_eq!(once, vec![(4, 10, "a".to_string()), (6, 65, "d".to_string())]);
}

#[test]
fn run_end_plays_no_part() {
    let make = || vec![cal(1, 10, "a"), cal(1, 20, "b"), cal(1, 30, "c")];
    let open = picked(&filter_calibrations_for_run(make(), 25, None));
    let closed = picked(&filter_calibrations_for_run(make(), 25, Some(15)));
    assert_eq!(open, closed);
    assert_eq!(open, vec![(1, 20, "b".to_string())]);
}

#[test]
fn extreme_timestamps_resolve() {
    let input = vec![cal(1, i64::MIN, "min"), cal(1, i64::MAX, "max"), cal(2, i64::MAX, "only")];
    let resolved = filter_calibrations_for_run(input, i64::MIN, None);
    assert_eq!(
        picked(&resolved),
        vec![(1, i64::MIN, "min".to_string()), (2, i64::MAX, "only".to_string())]
    );
}
