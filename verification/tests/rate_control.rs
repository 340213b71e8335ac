use idesk::stream::rate_control::RateController;

#[test]
fn rate_controller_decrease() {
    let mut rc = RateController::new(500_000, 5_000_000, 2_000_000);
    rc.decrease();
    assert_eq!(rc.bitrate(), 1_800_000); // 2M * 0.9
}

#[test]
fn rate_controller_increase() {
    let mut rc = RateController::new(500_000, 5_000_000, 2_000_000);
    rc.increase();
    assert_eq!(rc.bitrate(), 2_200_000); // 2M * 1.1
}

#[test]
fn rate_controller_respects_bounds() {
    let mut rc = RateController::new(500_000, 5_000_000, 2_000_000);

    // Decrease below minimum
    for _ in 0..20 {
        rc.decrease();
    }
    assert_eq!(rc.bitrate(), 500_000);

    // Increase above maximum
    let mut rc2 = RateController::new(500_000, 5_000_000, 4_500_000);
    for _ in 0..20 {
        rc2.increase();
    }
    assert_eq!(rc2.bitrate(), 5_000_000);
}

#[test]
fn rate_controller_rounds_down() {
    let mut rc = RateController::new(0, u32::MAX, 15);
    rc.decrease();
    assert_eq!(rc.bitrate(), 13);
    rc.increase();
    assert_eq!(rc.bitrate(), 14);
}

#[test]
fn rate_controller_increase_saturates() {
    let mut rc = RateController::new(0, u32::MAX, u32::MAX);
    rc.increase();
    assert_eq!(rc.bitrate(), u32::MAX);
}

#[test]
fn rate_controller_below_minimum_is_raised_on_decrease() {
    let mut rc = RateController::new(1000, 2000, 10);
    rc.decrease();
    assert_eq!(rc.bitrate(), 1000);
}

#[test]
fn rate_controller_stays_in_range_over_a_sequence() {
    let mut rc = RateController::new(500_000, 5_000_000, 2_000_000);
    for step in 0..200u32 {
        if (step * 7) % 3 == 0 {
            rc.increase();
        } else {
            rc.decrease();
        }
        assert!(rc.bitrate() >= 500_000 && rc.bitrate() <= 5_000_000);
    }
}
