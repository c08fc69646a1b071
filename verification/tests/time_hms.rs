use time_hms::divmod;
use time_hms::divmod_i64;
use time_hms::TimeHms;
use time_hms::TimeHmsError;

#[test]
fn test_divmod() {
    let test_cases = vec![
        (5, 2, (2, 1)),
        (10, 3, (3, 1)),
        (13, 5, (2, 3)),
        (0, 5, (0, 0)),
        (u64::MAX, 1, (u64::MAX, 0)),
        (u64::MAX, u64::MAX, (1, 0)),
    ];

    for (x, y, expected) in test_cases {
        assert_eq!(divmod(x, y), expected);
    }
}

#[test]
fn valid_args() {
    let test_cases = vec![
        (0, (0, 0, 0)),
        (12345, (3, 25, 45)),
        (123456789, (34293, 33, 9)),
    ];

    for (input, expected) in test_cases {
        let t = TimeHms::new(input).unwrap();
        let (h, m, s) = expected;
        assert_eq!(t.h(), h);
        assert_eq!(t.m(), m);
        assert_eq!(t.s(), s);
    }
}

#[test]
fn equal() {
    let t1 = TimeHms::new(3661).unwrap();
    let t2 = TimeHms::new(3661).unwrap();
    assert_eq!(t1, t2);
}

#[test]
fn not_equal() {
    let t1 = TimeHms::new(3661).unwrap();
    let t2 = TimeHms::new(3662).unwrap();
    assert_ne!(t1, t2);
}

#[test]
fn negative_input_is_invalid() {
    assert_eq!(TimeHms::new(-1), Err(TimeHmsError::InvalidInput));
    assert_eq!(TimeHms::new(i64::MIN), Err(TimeHmsError::InvalidInput));
}

#[test]
fn fields_in_range_and_round_trip() {
    for n in [0i64, 1, 59, 60, 61, 3599, 3600, 3723, 12345, 123456789, i64::MAX] {
        let t = TimeHms::new(n).unwrap();
        assert!(t.m() <= 59);
        assert!(t.s() <= 59);
        assert_eq!(t.h() as i128 * 3600 + t.m() as i128 * 60 + t.s() as i128, n as i128);
    }
}

#[test]
fn format_zero_is_padded() {
    let t = TimeHms::new(0).unwrap();
    assert_eq!(t.to_string(), "00:00:00");
}

#[test]
fn format_small_fields_are_padded() {
    let t = TimeHms::new(3723).unwrap();
    assert_eq!(t.to_string(), "01:02:03");
}

#[test]
fn format_mixed_widths() {
    let t = TimeHms::new(12345).unwrap();
    assert_eq!(t.to_string(), "03:25:45");
}

#[test]
fn format_large_hours_not_truncated() {
    let t = TimeHms::new(123456789).unwrap();
    assert_eq!(t.to_string(), "34293:33:09");
}

#[test]
fn divmod_i64_truncates_toward_zero() {
    let test_cases = vec![
        (7, 2, (3, 1)),
        (-7, 2, (-3, -1)),
        (7, -2, (-3, 1)),
        (-7, -2, (3, -1)),
        (0, -5, (0, 0)),
        (i64::MIN, 2, (i64::MIN / 2, 0)),
        (i64::MIN, -2, (-(i64::MIN / 2), 0)),
        (i64::MAX, -1, (-i64::MAX, 0)),
    ];

    for (x, y, expected) in test_cases {
        let (q, r) = divmod_i64(x, y);
        assert_eq!((q, r), expected);
        assert_eq!(x, y * q + r);
    }
}
