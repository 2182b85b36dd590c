use waveline::noise::evaluate;

/// One fixed-point unit.
const S: i64 = 1_000_000;

#[test]
fn noise_is_deterministic() {
    let mut x: i64 = -50 * S;
    while x <= 50 * S {
        let mut y: i64 = -50 * S;
        while y <= 50 * S {
            assert_eq!(evaluate(x, y), evaluate(x, y));
            y += 7_300_000;
        }
        x += 7_300_000;
    }
    assert_eq!(evaluate(123_456, -654_321), evaluate(123_456, -654_321));
}

#[test]
fn noise_is_bounded_on_grid() {
    let mut x: i64 = -50 * S;
    while x <= 50 * S {
        let mut y: i64 = -50 * S;
        while y <= 50 * S {
            let v = evaluate(x, y);
            assert!(-2_400_000 <= v && v <= 2_400_000, "noise out of range at ({x}, {y}): {v}");
            y += 433_000;
        }
        x += 433_000;
    }
}

#[test]
fn noise_vanishes_on_the_lattice() {
    // at whole-number coordinates both fractional offsets are zero, so
    // every corner dot product and both fade weights vanish
    assert_eq!(evaluate(0, 0), 0);
    assert_eq!(evaluate(3 * S, 0), 0);
    assert_eq!(evaluate(-7 * S, 2 * S), 0);
    assert_eq!(evaluate(25 * S, -25 * S), 0);
}

#[test]
fn noise_reaches_visible_amplitude() {
    let mut peak: i64 = 0;
    let mut x: i64 = -50 * S;
    while x <= 50 * S {
        let v = evaluate(x, 0);
        if v.abs() > peak {
            peak = v.abs();
        }
        x += 113_000;
    }
    assert!(peak > 100_000, "noise amplitude too small: {peak}");
}
