use amdgpu_waybar::format_iec;

fn float_rendering(value: u64) -> String {
    let v = value as f64;
    if v < 1024.0 {
        format!("{v}B")
    } else if v < 1048576.0 {
        format!("{:.2}KiB", v / 1024.0)
    } else if v < 1073741824.0 {
        format!("{:.2}MiB", v / 1048576.0)
    } else if v < 1099511627776.0 {
        format!("{:.2}GiB", v / 1073741824.0)
    } else {
        format!("{:.2}TiB", v / 1099511627776.0)
    }
}

#[test]
fn iec_below_one_kib() {
    assert_eq!(format_iec(1023), "1023B");
    assert_eq!(format_iec(0), "0B");
    assert_eq!(format_iec(7), "7B");
}

#[test]
fn iec_at_thresholds() {
    assert_eq!(format_iec(1024), "1.00KiB");
    assert_eq!(format_iec(1024 * 1024), "1.00MiB");
    assert_eq!(format_iec(1024 * 1024 * 1024), "1.00GiB");
    assert_eq!(format_iec(1024 * 1024 * 1024 * 1024), "1.00TiB");
    assert_eq!(format_iec(1024 * 1024 - 1), "1024.00KiB");
}

#[test]
fn iec_two_decimals() {
    assert_eq!(format_iec(1536), "1.50KiB");
    assert_eq!(format_iec(8 * 1024 * 1024 * 1024 + 512 * 1024 * 1024), "8.50GiB");
    assert_eq!(format_iec(3 * 1024 * 1024 * 1024 * 1024 * 1024), "3072.00TiB");
}

#[test]
fn iec_tie_rounds_to_even() {
    // 1152 bytes are exactly 1.125 KiB.
    assert_eq!(format_iec(1152), "1.12KiB");
    // 1408 bytes are exactly 1.375 KiB.
    assert_eq!(format_iec(1408), "1.38KiB");
}

#[test]
fn iec_agrees_with_float_formatting() {
    let mut v: u64 = 0;
    while v < 300_000 {
        assert_eq!(format_iec(v), float_rendering(v), "value {v}");
        v += 7;
    }
    for v in [
        1024 * 1024 + 5243,
        17 * 1024 * 1024 * 1024 + 123_456_789,
        (1u64 << 40) + (1u64 << 33) + 77,
        u32::MAX as u64,
        1u64 << 50,
    ] {
        assert_eq!(format_iec(v), float_rendering(v), "value {v}");
    }
}

#[test]
fn iec_unit_never_shrinks() {
    let rank = |s: &str| {
        if s.ends_with("TiB") {
            4
        } else if s.ends_with("GiB") {
            3
        } else if s.ends_with("MiB") {
            2
        } else if s.ends_with("KiB") {
            1
        } else {
            0
        }
    };
    let values = [0u64, 1, 1023, 1024, 1025, 1048575, 1048576, 1u64 << 30, (1u64 << 30) + 1, 1u64 << 40, u64::MAX];
    for w in values.windows(2) {
        let (a, b) = (format_iec(w[0]), format_iec(w[1]));
        assert!(rank(&a) <= rank(&b));
    }
}
