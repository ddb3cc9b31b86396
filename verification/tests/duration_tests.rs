use tomatl::duration::duration_ticks;

#[test]
fn one_minute_is_sixty_ticks() {
    assert_eq!(duration_ticks("1"), Some(60));
}

#[test]
fn whole_minutes_scale_by_sixty() {
    assert_eq!(duration_ticks("25"), Some(1500));
    assert_eq!(duration_ticks("90"), Some(5400));
}

#[test]
fn leading_zeros_are_accepted() {
    assert_eq!(duration_ticks("0007"), Some(420));
}

#[test]
fn fractions_are_exact() {
    assert_eq!(duration_ticks("1.5"), Some(90));
    assert_eq!(duration_ticks("0.5"), Some(30));
    assert_eq!(duration_ticks(".5"), Some(30));
    assert_eq!(duration_ticks("1."), Some(60));
}

#[test]
fn rounding_is_half_away_from_zero() {
    // 2.025 minutes = 121.5 seconds, which rounds up to 122 ticks.
    assert_eq!(duration_ticks("2.025"), Some(122));
    // 0.008 minutes = 0.48 seconds, which rounds down to 0 ticks.
    assert_eq!(duration_ticks("0.008"), Some(0));
    // 0.0084 minutes = 0.504 seconds, which rounds up to 1 tick.
    assert_eq!(duration_ticks("0.0084"), Some(1));
}

#[test]
fn tiny_positive_durations_are_accepted_with_zero_ticks() {
    assert_eq!(duration_ticks("0.001"), Some(0));
}

#[test]
fn zero_is_rejected() {
    assert_eq!(duration_ticks("0"), None);
    assert_eq!(duration_ticks("0.0"), None);
    assert_eq!(duration_ticks("000.000"), None);
}

#[test]
fn negative_durations_are_rejected() {
    assert_eq!(duration_ticks("-5"), None);
    assert_eq!(duration_ticks("-0.5"), None);
}

#[test]
fn malformed_durations_are_rejected() {
    assert_eq!(duration_ticks(""), None);
    assert_eq!(duration_ticks("."), None);
    assert_eq!(duration_ticks("1.2.3"), None);
    assert_eq!(duration_ticks("abc"), None);
    assert_eq!(duration_ticks("1e3"), None);
    assert_eq!(duration_ticks(" 1"), None);
    assert_eq!(duration_ticks("inf"), None);
    assert_eq!(duration_ticks("NaN"), None);
}

#[test]
fn out_of_range_durations_are_rejected() {
    assert_eq!(duration_ticks("1000000000000"), None);
    assert_eq!(duration_ticks("999999999999"), Some(59_999_999_999_940));
}

#[test]
fn fraction_digits_past_the_ninth_do_not_contribute() {
    assert_eq!(
        duration_ticks("1.9999999995"),
        duration_ticks("1.999999999"),
    );
}
