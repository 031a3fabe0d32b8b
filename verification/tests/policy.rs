use ec_fan::consts::{
    FAN_LOWER_INCREMENT, FAN_RAISE_INCREMENT, FAN_SPEED_MAX, FAN_SPEED_MIN, MAX_TEMP, MIN_TEMP,
    REACTION_LOOPS_LOWER, REACTION_LOOPS_RAISE, REACTION_TIME_MS_LOWER, REACTION_TIME_MS_RAISE,
    REFRESH_RATE,
};
use ec_fan::control::{classify, ControlState, Trend};

fn at(speed: u8, temp_last: u8) -> ControlState {
    ControlState {
        fan_speed_last: speed,
        fan_speed: speed,
        raising_loops: 0,
        lowering_or_staying_loops: 0,
        temp_last,
    }
}

#[test]
fn policy_constants() {
    assert_eq!(FAN_SPEED_MIN, 30);
    assert_eq!(FAN_SPEED_MAX, 100);
    assert_eq!(MIN_TEMP, 70);
    assert_eq!(MAX_TEMP, 85);
    assert_eq!(FAN_RAISE_INCREMENT, 5);
    assert_eq!(FAN_LOWER_INCREMENT, 1);
    assert_eq!(REACTION_LOOPS_RAISE, REACTION_TIME_MS_RAISE / REFRESH_RATE);
    assert_eq!(REACTION_LOOPS_LOWER, REACTION_TIME_MS_LOWER / REFRESH_RATE);
    assert_eq!(REACTION_LOOPS_RAISE, 4);
    assert_eq!(REACTION_LOOPS_LOWER, 8);
}

#[test]
fn new_state_starts_at_minimum_speed() {
    let s = ControlState::new(55);
    assert_eq!(s.fan_speed, 30);
    assert_eq!(s.fan_speed_last, 30);
    assert_eq!(s.raising_loops, 0);
    assert_eq!(s.lowering_or_staying_loops, 0);
    assert_eq!(s.temp_last, 55);
}

#[test]
fn classify_over_max_is_raising_whatever_the_baseline() {
    assert_eq!(classify(100, 86), Trend::Raising);
    assert_eq!(classify(86, 86), Trend::Raising);
    assert_eq!(classify(0, 255), Trend::Raising);
}

#[test]
fn classify_between_the_limits_goes_by_the_baseline() {
    assert_eq!(classify(70, 71), Trend::Raising);
    assert_eq!(classify(71, 71), Trend::LoweringOrSteady);
    assert_eq!(classify(80, 75), Trend::LoweringOrSteady);
    assert_eq!(classify(84, 85), Trend::Raising);
    assert_eq!(classify(85, 85), Trend::LoweringOrSteady);
}

#[test]
fn classify_at_or_under_min_is_never_raising() {
    assert_eq!(classify(0, 70), Trend::LoweringOrSteady);
    assert_eq!(classify(10, 50), Trend::LoweringOrSteady);
    assert_eq!(classify(0, 0), Trend::LoweringOrSteady);
}

#[test]
fn speed_rises_by_five_on_the_fifth_hot_reading() {
    let mut s = at(50, 90);
    for k in 1..=4u64 {
        assert_eq!(s.step(90), None);
        assert_eq!(s.fan_speed, 50);
        assert_eq!(s.raising_loops, k);
    }
    assert_eq!(s.step(90), Some(55));
    assert_eq!(s.fan_speed, 55);
    assert_eq!(s.fan_speed_last, 55);
}

#[test]
fn speed_falls_by_one_on_the_ninth_cool_reading() {
    let mut s = at(50, 60);
    for k in 1..=8u64 {
        assert_eq!(s.step(60), None);
        assert_eq!(s.fan_speed, 50);
        assert_eq!(s.lowering_or_staying_loops, k);
    }
    assert_eq!(s.step(60), Some(49));
    assert_eq!(s.fan_speed, 49);
}

#[test]
fn falling_readings_lower_the_speed_on_the_ninth() {
    let mut s = at(40, 84);
    let temps: Vec<u8> = vec![84, 83, 83, 80, 79, 75, 71, 70, 60];
    let changes = s.step_over(&temps);
    assert_eq!(
        changes,
        vec![None, None, None, None, None, None, None, None, Some(39)]
    );
    assert_eq!(s.temp_last, 60);
}

#[test]
fn speed_does_not_fall_under_the_minimum() {
    let mut s = at(30, 60);
    let changes = s.step_over(&vec![60; 9]);
    assert_eq!(changes, vec![None; 9]);
    assert_eq!(s.fan_speed, 30);
    assert_eq!(s.lowering_or_staying_loops, 0);
    assert_eq!(s.raising_loops, 0);
    let mut s = at(31, 60);
    let changes = s.step_over(&vec![60; 9]);
    assert_eq!(changes[8], Some(30));
}

#[test]
fn speed_does_not_rise_over_the_maximum() {
    let mut s = at(98, 90);
    let changes = s.step_over(&vec![90; 5]);
    assert_eq!(changes, vec![None, None, None, None, Some(100)]);
    let changes = s.step_over(&vec![90; 5]);
    assert_eq!(changes, vec![None; 5]);
    assert_eq!(s.fan_speed, 100);
    assert_eq!(s.raising_loops, 0);
    assert_eq!(s.lowering_or_staying_loops, 0);
}

#[test]
fn a_change_resets_counters_and_moves_the_baseline() {
    let mut s = at(50, 60);
    // Three cool readings, then five hot ones: the raise commits.
    assert_eq!(s.step_over(&vec![60, 60, 60]), vec![None, None, None]);
    assert_eq!(s.lowering_or_staying_loops, 3);
    assert_eq!(s.step_over(&vec![86, 87, 88, 89]), vec![None; 4]);
    assert_eq!(s.raising_loops, 4);
    assert_eq!(s.lowering_or_staying_loops, 3);
    assert_eq!(s.temp_last, 60);
    assert_eq!(s.step(91), Some(55));
    assert_eq!(s.raising_loops, 0);
    assert_eq!(s.lowering_or_staying_loops, 0);
    assert_eq!(s.temp_last, 91);
    assert_eq!(s.fan_speed_last, 55);
}

#[test]
fn baseline_moves_only_when_the_speed_changes() {
    let mut s = at(50, 60);
    assert_eq!(s.step(65), None);
    assert_eq!(s.temp_last, 60);
    assert_eq!(s.step(75), None);
    assert_eq!(s.temp_last, 60);
    assert_eq!(s.raising_loops, 1);
    assert_eq!(s.lowering_or_staying_loops, 1);
}

#[test]
fn counters_are_kept_across_readings_of_the_other_kind() {
    let mut s = at(50, 60);
    let temps: Vec<u8> = vec![90, 60, 90, 60, 90, 60, 90];
    assert_eq!(s.step_over(&temps), vec![None; 7]);
    assert_eq!(s.raising_loops, 4);
    assert_eq!(s.lowering_or_staying_loops, 3);
    assert_eq!(s.step(90), Some(55));
}

#[test]
fn speed_stays_in_range_for_any_readings() {
    let mut s = ControlState::new(0);
    let mut seed: u32 = 12345;
    for _ in 0..20000 {
        seed = seed.wrapping_mul(1103515245).wrapping_add(12345);
        let temp = (seed >> 16) as u8;
        let change = s.step(temp);
        assert!(30 <= s.fan_speed && s.fan_speed <= 100);
        assert_eq!(s.fan_speed_last, s.fan_speed);
        assert!(s.raising_loops <= 4);
        assert!(s.lowering_or_staying_loops <= 8);
        if let Some(speed) = change {
            assert_eq!(speed, s.fan_speed);
            assert_eq!(s.raising_loops, 0);
            assert_eq!(s.lowering_or_staying_loops, 0);
            assert_eq!(s.temp_last, temp);
        }
    }
    let mut s = ControlState::new(0);
    s.step_over(&vec![255; 1000]);
    assert_eq!(s.fan_speed, 100);
    s.step_over(&vec![0; 1000]);
    assert_eq!(s.fan_speed, 30);
}

#[test]
fn hot_start_raises_to_thirty_five_after_five_readings() {
    let mut s = ControlState::new(90);
    assert_eq!(s.fan_speed, 30);
    assert_eq!(classify(s.temp_last, 90), Trend::Raising);
    let changes = s.step_over(&vec![90; 5]);
    assert_eq!(changes, vec![None, None, None, None, Some(35)]);
    assert_eq!(s.fan_speed, 35);
    assert_eq!(s.temp_last, 90);
    // A reading over the maximum counts as raising whatever the baseline, so
    // the speed keeps climbing while it lasts.
    let changes = s.step_over(&vec![90; 5]);
    assert_eq!(changes, vec![None, None, None, None, Some(40)]);
}

#[test]
fn warm_start_raises_once_then_holds_at_the_new_baseline() {
    let mut s = ControlState::new(60);
    let changes = s.step_over(&vec![80; 5]);
    assert_eq!(changes, vec![None, None, None, None, Some(35)]);
    assert_eq!(s.temp_last, 80);
    // The same reading is no longer above the baseline: no further raise.
    let changes = s.step_over(&vec![80; 8]);
    assert_eq!(changes, vec![None; 8]);
    assert_eq!(s.fan_speed, 35);
    assert_eq!(s.raising_loops, 0);
    assert_eq!(s.lowering_or_staying_loops, 8);
    assert_eq!(s.step(80), Some(34));
}

#[test]
fn validity_is_speed_in_range_sent_and_counters_in_bounds() {
    assert!(ControlState::new(40).is_valid());
    assert!(at(100, 0).is_valid());
    assert!(!at(29, 0).is_valid());
    assert!(!at(101, 0).is_valid());
    let mut s = at(50, 0);
    s.fan_speed_last = 0;
    assert!(!s.is_valid());
    let mut s = at(50, 0);
    s.raising_loops = 5;
    assert!(!s.is_valid());
    s.raising_loops = 4;
    s.lowering_or_staying_loops = 8;
    assert!(s.is_valid());
    s.lowering_or_staying_loops = 9;
    assert!(!s.is_valid());
}
