use gui_core_00::transform::{Fraction, Transform};

fn value(f: Fraction) -> f64 {
    f.num as f64 / f.den as f64
}

#[test]
fn screen_fit_diagonal_for_1440_by_900() {
    let t = Transform::screen_fit(1440, 900).unwrap();
    let x = t.entry(0, 0);
    let y = t.entry(1, 1);
    assert_eq!(x.num as u64 * 720, x.den as u64);
    assert_eq!(y.num as u64 * 450, y.den as u64);
    assert!((value(x) - 1.0 / 720.0).abs() < 1e-12);
    assert!((value(y) - 1.0 / 450.0).abs() < 1e-12);
}

#[test]
fn screen_fit_rest_of_matrix() {
    let t = Transform::screen_fit(1440, 900).unwrap();
    for row in 0..4 {
        for col in 0..4 {
            let e = t.entry(row, col);
            if row != col {
                assert_eq!(e.num, 0);
            } else if row >= 2 {
                assert_eq!(e, Fraction { num: 1, den: 1 });
            }
        }
    }
}

#[test]
fn screen_fit_odd_width() {
    let t = Transform::screen_fit(801, 3).unwrap();
    assert_eq!(t.entry(0, 0), Fraction { num: 2, den: 801 });
    assert_eq!(t.entry(1, 1), Fraction { num: 2, den: 3 });
}

#[test]
fn screen_fit_needs_area() {
    assert!(Transform::screen_fit(0, 900).is_none());
    assert!(Transform::screen_fit(1440, 0).is_none());
}
