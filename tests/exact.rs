use bezier_rs::{Bezier, Point, RationalPoint, Ratio, TValue, DEFAULT_LUT_STEP_SIZE};

fn curves() -> Vec<Bezier> {
    vec![
        Bezier::from_linear_coordinates(30, 50, 140, 30),
        Bezier::from_quadratic_coordinates(30, 50, 140, 30, 160, 170),
        Bezier::from_cubic_coordinates(30, 50, 140, 30, 160, 170, 77, 129),
        Bezier::from_cubic_coordinates(-50, -50, -50, -50, 50, -50, 50, -50),
    ]
}

fn at(curve: &Bezier, num: u16, den: u16) -> RationalPoint {
    curve.evaluate(TValue::Parametric(Ratio::new(num, den).unwrap()))
}

#[test]
fn evaluate_at_ends_gives_endpoints() {
    for curve in curves() {
        for den in [1u16, 2, 3, 7, 1000, 65535] {
            assert!(at(&curve, 0, den).same_value(&RationalPoint::from_point(curve.start())));
            assert!(at(&curve, den, den).same_value(&RationalPoint::from_point(curve.end())));
        }
    }
}

#[test]
fn evaluate_holds_point_over_power_of_denominator() {
    let quadratic = Bezier::from_quadratic_coordinates(3, 5, 14, 3, 19, 14);
    assert_eq!(at(&quadratic, 1, 2), RationalPoint { x: 50, y: 25, den: 4 });
    let cubic = Bezier::from_cubic_coordinates(3, 5, 14, 3, 19, 14, 30, 21);
    assert_eq!(at(&cubic, 1, 2), RationalPoint { x: 132, y: 77, den: 8 });
    let line = Bezier::from_linear_coordinates(0, 0, 3, 6);
    assert_eq!(at(&line, 1, 3), RationalPoint { x: 3, y: 6, den: 3 });
}

#[test]
fn evaluate_cubic_at_quarter() {
    // 27/64 (10, 10) + 27/64 (30, 30) + 9/64 (70, 70) + 1/64 (90, 10)
    let cubic = Bezier::from_cubic_coordinates(10, 10, 30, 30, 70, 70, 90, 10);
    let p = at(&cubic, 1, 4);
    assert_eq!(p, RationalPoint { x: 270 + 810 + 630 + 90, y: 270 + 810 + 630 + 10, den: 64 });
}

#[test]
fn evaluate_extreme_coordinates() {
    let lo = i32::MIN;
    let hi = i32::MAX;
    let cubic = Bezier::from_cubic_coordinates(lo, hi, lo, hi, lo, hi, lo, hi);
    let p = at(&cubic, 12345, 65535);
    let d = 65535u64 * 65535 * 65535;
    assert_eq!(p.den, d);
    assert_eq!(p.x, lo as i128 * d as i128);
    assert_eq!(p.y, hi as i128 * d as i128);
    assert!(p.same_value(&RationalPoint::from_point(Point { x: lo, y: hi })));
}

#[test]
fn lookup_table_has_steps_plus_one_points() {
    for curve in curves() {
        for steps in [1usize, 2, 5, 10, 33] {
            let table = curve.compute_lookup_table(Some(steps));
            assert_eq!(table.len(), steps + 1);
            assert!(table[0].same_value(&RationalPoint::from_point(curve.start())));
            assert!(table[steps].same_value(&RationalPoint::from_point(curve.end())));
            for (i, p) in table.iter().enumerate() {
                assert_eq!(*p, at(&curve, i as u16, steps as u16));
            }
        }
    }
}

#[test]
fn lookup_table_defaults_to_ten_steps() {
    let curve = Bezier::from_quadratic_coordinates(10, 10, 30, 30, 50, 10);
    let table = curve.compute_lookup_table(None);
    assert_eq!(DEFAULT_LUT_STEP_SIZE, 10);
    assert_eq!(table.len(), 11);
    assert!(table[5].same_value(&at(&curve, 5, 10)));
}

#[test]
fn ratio_outside_unit_interval_is_refused() {
    assert_eq!(Ratio::new(3, 2), None);
    assert_eq!(Ratio::new(0, 0), None);
    assert_eq!(Ratio::new(2, 2), Some(Ratio { num: 2, den: 2 }));
    assert_eq!(Ratio::new(0, 5), Some(Ratio { num: 0, den: 5 }));
}

#[test]
fn rational_point_bounds() {
    assert!(RationalPoint::new(1, 1, 0).is_none());
    assert!(RationalPoint::new(1 << 31, -(1 << 31), 1).is_some());
    assert!(RationalPoint::new((1 << 31) + 1, 0, 1).is_none());
    assert!(RationalPoint::new(0, 0, bezier_rs::MAX_DEN + 1).is_none());
    let a = RationalPoint::new(1, 2, 3).unwrap();
    let b = RationalPoint::new(2, 4, 6).unwrap();
    let c = RationalPoint::new(2, 5, 6).unwrap();
    assert!(a.same_value(&b));
    assert!(!a.same_value(&c));
}

#[test]
fn degree_follows_handles() {
    let degrees: Vec<usize> = curves().iter().map(|c| c.degree()).collect();
    assert_eq!(degrees, vec![1, 2, 3, 3]);
}
