use compressible_flow::fixed::Fixed;
use compressible_flow::isentropic as ise;
use compressible_flow::isentropic::IsentropicFlowError;
use compressible_flow::normalshock as ns;
use compressible_flow::obliqueshock as os;

const SCALE: f64 = 1099511627776.0;

fn fx(x: f64) -> Fixed {
    Fixed::from_raw((x * SCALE).round() as i64)
}

fn fl(x: Fixed) -> f64 {
    if x.is_defined() {
        x.to_raw() as f64 / SCALE
    } else {
        f64::NAN
    }
}

fn compare(out: &mut Vec<String>, name: &str, args: &str, got: Result<Fixed, IsentropicFlowError>, want: f64, rel: f64) {
    match got {
        Ok(v) => {
            let v = fl(v);
            if !((v - want).abs() <= rel * (1.0 + want.abs()) + 4e-12) {
                out.push(format!("{} {} got {} want {}", name, args, v, want));
            }
        }
        Err(e) => out.push(format!("{} {} -> {:?} want {}", name, args, e, want)),
    }
}

#[test]
fn relations_agree_with_double_precision_over_a_wide_range() {
    let mut out: Vec<String> = Vec::new();
    for g in [1.1, 1.3, 1.4, 1.667] {
        let gf = fx(g);
        for m in [0.01, 0.1, 0.5, 0.9, 1.0, 1.001, 1.1, 1.5, 2.0, 3.0, 5.0, 8.0, 12.0, 20.0, 30.0, 50.0] {
            let a = format!("g {} m {}", g, m);
            let t = 1.0 / (1.0 + (g - 1.0) / 2.0 * m * m);
            let p = t.powf(g / (g - 1.0));
            let d = t.powf(1.0 / (g - 1.0));
            compare(&mut out, "iT", &a, ise::calc_temperature_ratio_from_mach(fx(m), gf), t, 1e-9);
            if p > 1e-6 { compare(&mut out, "iP", &a, ise::calc_pressure_ratio_from_mach(fx(m), gf), p, 1e-8); }
            if d > 1e-6 { compare(&mut out, "iD", &a, ise::calc_density_ratio_from_mach(fx(m), gf), d, 1e-8); }
            compare(&mut out, "iTinv", &a, ise::calc_mach_from_temperature_ratio(fx(t), gf), m, 1e-6 / t / m);
            if p > 1e-6 { compare(&mut out, "iPinv", &a, ise::calc_mach_from_pressure_ratio(fx(p), gf), m, 1e-6 / p / m); }
            if d > 1e-6 { compare(&mut out, "iDinv", &a, ise::calc_mach_from_density_ratio(fx(d), gf), m, 1e-6 / d / m); }
            if m > 1.0 {
                let al = ((g + 1.0) / (g - 1.0)).sqrt();
                let eta = (m * m - 1.0f64).sqrt();
                let nu = al * (eta / al).atan() - eta.atan();
                compare(&mut out, "pm", &a, ise::prandtl_meyer_function(fx(m), gf), nu, 1e-9);
                compare(&mut out, "pminv", &a, ise::calc_mach_from_prandtl_meyer_angle(fx(nu), gf), m, 1e-7 * m * m);
                compare(&mut out, "mu", &a, ise::calc_mach_angle_from_mach(fx(m)), (1.0 / m).asin(), 1e-9);
                compare(&mut out, "muinv", &a, ise::calc_mach_from_mach_angle(fx((1.0 / m).asin())), m, 1e-8 * m * m);
                let m2 = ((1.0 + (g - 1.0) / 2.0 * m * m) / (g * m * m - (g - 1.0) / 2.0)).sqrt();
                let pr = 1.0 + 2.0 * g / (g + 1.0) * (m * m - 1.0);
                let dr = (g + 1.0) * m * m / ((g - 1.0) * m * m + 2.0);
                let tr = pr / dr;
                let sr = dr.powf(g / (g - 1.0)) * (1.0 / pr).powf(1.0 / (g - 1.0));
                compare(&mut out, "nM2", &a, ns::calc_downstream_mach_from_upstream_mach(fx(m), gf), m2, 1e-9);
                compare(&mut out, "nP", &a, ns::calc_pressure_ratio_from_upstream_mach(fx(m), gf), pr, 1e-9);
                compare(&mut out, "nD", &a, ns::calc_density_ratio_from_upstream_mach(fx(m), gf), dr, 1e-9);
                compare(&mut out, "nT", &a, ns::calc_temperature_ratio_from_upstream_mach(fx(m), gf), tr, 1e-9);
                if sr > 1e-5 { compare(&mut out, "nS", &a, ns::calc_stagnation_pressure_ratio_from_upstream_mach(fx(m), gf), sr, 1e-7); }
                compare(&mut out, "nPinv", &a, ns::calc_upstream_mach_from_pressure_ratio(fx(pr), gf), m, 1e-8);
                if m <= 12.0 { compare(&mut out, "nDinv", &a, ns::calc_upstream_mach_from_density_ratio(fx(dr), gf), m, 1e-6 * m * m * m); }
                compare(&mut out, "nTinv", &a, ns::calc_upstream_mach_from_temperature_ratio(fx(tr), gf), m, 1e-8);
                if m <= 12.0 { compare(&mut out, "nM2inv", &a, ns::calc_upstream_mach_from_downstream_mach(fx(m2), gf), m, 1e-6 * m * m * m); }
                if sr > 1e-4 && m > 1.2 { compare(&mut out, "nSinv", &a, ns::calc_upstream_mach_from_stagnation_pressure_ratio(fx(sr), gf), m, 1e-6 / sr); }
                let mu = (1.0 / m).asin();
                for i in 1..=20 {
                    let b = mu + (std::f64::consts::FRAC_PI_2 - mu) * (i as f64) / 20.0;
                    let a2 = format!("g {} m {} b {:.4}", g, m, b);
                    let mn = m * b.sin();
                    let th = (2.0 / b.tan() * (mn * mn - 1.0) / (m * m * (g + (2.0 * b).cos()) + 2.0)).atan();
                    let opr = 1.0 + 2.0 * g / (g + 1.0) * (mn * mn - 1.0);
                    let odr = (g + 1.0) * mn * mn / ((g - 1.0) * mn * mn + 2.0);
                    let m2n = ((1.0 + (g - 1.0) / 2.0 * mn * mn) / (g * mn * mn - (g - 1.0) / 2.0)).sqrt();
                    let om2 = m2n / (b - th).sin();
                    compare(&mut out, "oTh", &a2, os::calc_deflection_angle(fx(m), fx(b), gf), th, 1e-8);
                    compare(&mut out, "oP", &a2, os::calc_pressure_ratio(fx(m), fx(b), gf), opr, 1e-8);
                    compare(&mut out, "oD", &a2, os::calc_density_ratio(fx(m), fx(b), gf), odr, 1e-8);
                    compare(&mut out, "oT", &a2, os::calc_temperature_ratio(fx(m), fx(b), gf), opr / odr, 1e-8);
                    let osr = odr.powf(g / (g - 1.0)) * (1.0 / opr).powf(1.0 / (g - 1.0));
                    if osr > 1e-5 { compare(&mut out, "oS", &a2, os::calc_stagnation_pressure_ratio(fx(m), fx(b), gf), osr, 1e-7); }
                    if i < 20 { compare(&mut out, "oM2", &a2, os::calc_downstream_mach_from_shock_angle(fx(m), fx(b), gf), om2, 1e-7 * m / (b - th).sin()); }
                }
                let bmax = os::calc_max_shock_angle(fx(m), gf).map(fl);
                match bmax {
                    Ok(bm) => {
                        for i in 1..=9 {
                            let b = mu + (bm - mu) * (i as f64) / 10.0;
                            let mn = m * b.sin();
                            let th = (2.0 / b.tan() * (mn * mn - 1.0) / (m * m * (g + (2.0 * b).cos()) + 2.0)).atan();
                            let a2 = format!("g {} m {} th {:.5} b {:.5}", g, m, th, b);
                            compare(&mut out, "oBinv", &a2, os::calc_shock_angle(fx(m), fx(th), gf), b, 1e-5);
                        }
                    }
                    Err(e) => out.push(format!("bmax {} -> {:?}", a, e)),
                }
            }
        }
    }
    assert!(out.is_empty(), "{} disagreements, the first: {}", out.len(), out[0]);
}
