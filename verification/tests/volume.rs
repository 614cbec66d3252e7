use tuneplay::controls::{adjust_volume, format_time, VOLUME_MAX, VOLUME_STEP};

#[test]
fn volume_up_within_bounds() {
    for v in 0..=VOLUME_MAX {
        let r = adjust_volume(v, true);
        assert!(r >= v);
        assert!(r <= VOLUME_MAX);
    }
}

#[test]
fn volume_down_within_bounds() {
    for v in 0..=VOLUME_MAX {
        let r = adjust_volume(v, false);
        assert!(r <= v);
    }
}

#[test]
fn volume_up_plain_step() {
    assert_eq!(adjust_volume(50, true), 50 + VOLUME_STEP);
}

#[test]
fn volume_down_plain_step() {
    assert_eq!(adjust_volume(50, false), 50 - VOLUME_STEP);
}

#[test]
fn volume_up_saturates_at_full() {
    assert_eq!(adjust_volume(VOLUME_MAX, true), VOLUME_MAX);
    assert_eq!(adjust_volume(95, true), VOLUME_MAX);
}

#[test]
fn volume_down_saturates_at_zero() {
    assert_eq!(adjust_volume(0, false), 0);
    assert_eq!(adjust_volume(5, false), 0);
}

#[test]
fn volume_repeated_up_never_exceeds_full() {
    let mut v = 0;
    let mut last = 0;
    for _ in 0..30 {
        v = adjust_volume(v, true);
        assert!(v >= last);
        assert!(v <= VOLUME_MAX);
        last = v;
    }
    assert_eq!(v, VOLUME_MAX);
}

#[test]
fn format_time_zero() {
    assert_eq!(format_time(0), "00:00");
}

#[test]
fn format_time_pads_both_fields() {
    assert_eq!(format_time(65), "01:05");
    assert_eq!(format_time(75), "01:15");
}

#[test]
fn format_time_minutes_beyond_two_digits() {
    assert_eq!(format_time(6000), "100:00");
    assert_eq!(format_time(3599), "59:59");
}
