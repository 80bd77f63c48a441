use compressible_flow::fixed::Fixed;

const SCALE: f64 = 1099511627776.0;

fn fx(x: f64) -> Fixed {
    Fixed::from_raw((x * SCALE).round() as i64)
}

fn fl(x: Fixed) -> f64 {
    assert!(x.is_defined());
    x.to_raw() as f64 / SCALE
}

fn close(a: f64, b: f64, tol: f64) -> bool {
    (a - b).abs() <= tol * (1.0 + b.abs())
}

#[test]
fn sqrt_matches_reference() {
    for i in 0..2000 {
        let x = fl(fx((i as f64) * 0.37 + 1e-6));
        let got = fl(fx(x).sqrt());
        assert!(close(got, x.sqrt(), 2e-12), "sqrt({}) = {}", x, got);
    }
    assert!(!fx(-1.0).sqrt().is_defined());
    assert_eq!(fx(4.0).sqrt(), fx(2.0));
    assert_eq!(fx(0.0).sqrt(), fx(0.0));
}

#[test]
fn sine_and_cosine_match_reference() {
    for i in -4000..4000 {
        let x = (i as f64) * 0.00371;
        assert!(close(fl(fx(x).sin()), x.sin(), 3e-11), "sin({}) = {}", x, fl(fx(x).sin()));
        assert!(close(fl(fx(x).cos()), x.cos(), 3e-11), "cos({}) = {}", x, fl(fx(x).cos()));
    }
    assert_eq!(fx(0.0).sin(), fx(0.0));
}

#[test]
fn sine_and_cosine_are_rounded_to_the_last_bit() {
    for i in -3000..3000 {
        let x = fl(fx((i as f64) * 0.00217));
        let sine = fx(x).sin().to_raw() as f64;
        let cosine = fx(x).cos().to_raw() as f64;
        assert!((sine - x.sin() * SCALE).abs() <= 0.51, "sin({})", x);
        assert!((cosine - x.cos() * SCALE).abs() <= 0.51, "cos({})", x);
    }
}

#[test]
fn quotient_by_the_tangent_is_rounded_once() {
    for i in 1..1500 {
        let x = fl(fx((i as f64) * 0.001));
        let v = fl(fx(-0.5 - (i as f64) * 0.0003));
        let got = fx(v).over_tan(fx(x)).to_raw() as f64;
        let want = v / x.tan() * SCALE;
        assert!((got - want).abs() <= 0.51 + want.abs() * 1e-15, "{} over tan({})", v, x);
    }
    assert!(!fx(1.0).over_tan(fx(0.0)).is_defined());
    assert!(!fx(1.0).over_tan(Fixed::undefined()).is_defined());
}

#[test]
fn tangent_matches_reference() {
    for i in 1..1500 {
        let x = (i as f64) * 0.001;
        let got = fl(fx(x).tan());
        assert!(close(got, x.tan(), 1e-9 * (1.0 + x.tan().abs())), "tan({}) = {}", x, got);
    }
}

#[test]
fn arctangent_matches_reference() {
    for i in -3000..3000 {
        let x = (i as f64) * 0.0137;
        let got = fl(fx(x).atan());
        assert!(close(got, x.atan(), 3e-11), "atan({}) = {}", x, got);
    }
    assert!(close(fl(fx(1.0e6).atan()), 1.0e6f64.atan(), 3e-11));
}

#[test]
fn arcsine_matches_reference() {
    for i in -1000..=1000 {
        let x = (i as f64) * 0.001;
        let got = fl(fx(x).asin());
        assert!(close(got, x.asin(), 2e-6), "asin({}) = {}", x, got);
    }
    for i in -900..=900 {
        let x = (i as f64) * 0.001;
        let got = fl(fx(x).asin());
        assert!(close(got, x.asin(), 1e-10), "asin({}) = {}", x, got);
    }
    assert!(!fx(1.5).asin().is_defined());
}

#[test]
fn logarithm_matches_reference() {
    for i in 1..3000 {
        let x = (i as f64) * 0.0173;
        let got = fl(fx(x).ln());
        assert!(close(got, x.ln(), 1e-10), "ln({}) = {}", x, got);
    }
    assert!(close(fl(fx(1.0e6).ln()), 1.0e6f64.ln(), 1e-11));
    assert!(!fx(0.0).ln().is_defined());
    assert!(!fx(-2.0).ln().is_defined());
    assert_eq!(fx(1.0).ln(), fx(0.0));
}

#[test]
fn exponential_matches_reference() {
    for i in -2000..1500 {
        let x = (i as f64) * 0.01;
        let got = fl(fx(x).exp());
        assert!((got - x.exp()).abs() <= 1e-11 * (1.0 + x.exp()), "exp({}) = {}", x, got);
    }
    assert!(!fx(20.0).exp().is_defined());
    assert_eq!(fx(-40.0).exp(), fx(0.0));
    assert_eq!(fx(0.0).exp(), fx(1.0));
}

#[test]
fn power_matches_reference() {
    for i in 1..200 {
        for j in -20..20 {
            let b = (i as f64) * 0.05;
            let e = (j as f64) * 0.35;
            let want = b.powf(e);
            if want > 1.0e6 {
                continue;
            }
            let got = fl(fx(b).powf(fx(e)));
            assert!((got - want).abs() <= 2e-10 * (1.0 + want), "{}^{} = {} want {}", b, e, got, want);
        }
    }
    assert!(!fx(-1.0).powf(fx(2.0)).is_defined());
}
