use compressible_flow::fixed::Fixed;
use compressible_flow::isentropic;
use compressible_flow::isentropic::{IsentropicFlow, IsentropicFlowError};
use compressible_flow::normalshock;
use compressible_flow::normalshock::NormalShock;
use compressible_flow::obliqueshock;
use compressible_flow::obliqueshock::ObliqueShock;
use std::f64::consts::PI;

const SCALE: f64 = 1099511627776.0;
const G: f64 = 1.4;

fn fx(x: f64) -> Fixed {
    Fixed::from_raw((x * SCALE).round() as i64)
}

fn fl(x: Fixed) -> f64 {
    assert!(x.is_defined());
    x.to_raw() as f64 / SCALE
}

fn near(got: Result<Fixed, IsentropicFlowError>, want: f64, tol: f64) {
    let value = fl(got.expect("a value"));
    assert!((value - want).abs() <= tol * (1.0 + want.abs()), "got {} want {}", value, want);
}

#[test]
fn isentropic_ratios_match_formulas() {
    for i in 0..60 {
        let m = 0.1 + 0.1 * i as f64;
        let base = 1.0 + (G - 1.0) / 2.0 * m * m;
        near(isentropic::calc_pressure_ratio_from_mach(fx(m), fx(G)), base.powf(-G / (G - 1.0)), 1e-9);
        near(isentropic::calc_temperature_ratio_from_mach(fx(m), fx(G)), 1.0 / base, 1e-10);
        near(
            isentropic::calc_density_ratio_from_mach(fx(m), fx(G)),
            base.powf(-1.0 / (G - 1.0)),
            1e-9,
        );
    }
}

#[test]
fn isentropic_exact_values_at_mach_two() {
    near(isentropic::calc_temperature_ratio_from_mach(fx(2.0), fx(G)), 1.0 / 1.8, 1e-11);
    near(isentropic::calc_pressure_ratio_from_mach(fx(2.0), fx(G)), 0.12780452546295096, 1e-10);
    near(isentropic::calc_density_ratio_from_mach(fx(2.0), fx(G)), 0.23004814583331168, 1e-10);
    near(isentropic::calc_mach_angle_from_mach(fx(2.0)), PI / 6.0, 1e-10);
    near(isentropic::prandtl_meyer_function(fx(2.0), fx(G)), 0.46041368208269473, 1e-10);
    near(isentropic::calc_mach_from_speed_of_sound(fx(680.0), fx(340.0)), 2.0, 1e-11);
}

#[test]
fn isentropic_inverses_recover_mach() {
    for i in 1..40 {
        let m = 0.15 * i as f64;
        let t = isentropic::calc_temperature_ratio_from_mach(fx(m), fx(G)).unwrap();
        near(isentropic::calc_mach_from_temperature_ratio(t, fx(G)), m, 1e-8);
        let p = isentropic::calc_pressure_ratio_from_mach(fx(m), fx(G)).unwrap();
        near(isentropic::calc_mach_from_pressure_ratio(p, fx(G)), m, 1e-7);
        let d = isentropic::calc_density_ratio_from_mach(fx(m), fx(G)).unwrap();
        near(isentropic::calc_mach_from_density_ratio(d, fx(G)), m, 1e-7);
    }
    for i in 1..30 {
        let m = 1.0 + 0.12 * i as f64;
        let angle = isentropic::calc_mach_angle_from_mach(fx(m)).unwrap();
        near(isentropic::calc_mach_from_mach_angle(angle), m, 1e-8);
        let nu = isentropic::prandtl_meyer_function(fx(m), fx(G)).unwrap();
        near(isentropic::calc_mach_from_prandtl_meyer_angle(nu, fx(G)), m, 1e-7);
    }
}

#[test]
fn isentropic_errors() {
    let bad_gamma = Err(IsentropicFlowError::InvalidSpecificHeatRatio);
    assert_eq!(isentropic::calc_pressure_ratio_from_mach(fx(2.0), fx(1.0)), bad_gamma);
    assert_eq!(isentropic::calc_temperature_ratio_from_mach(fx(2.0), fx(0.9)), bad_gamma);
    assert_eq!(isentropic::calc_density_ratio_from_mach(fx(2.0), fx(1.0)), bad_gamma);
    assert_eq!(isentropic::prandtl_meyer_function(fx(2.0), fx(1.0)), bad_gamma);
    assert_eq!(isentropic::calc_mach_from_prandtl_meyer_angle(fx(0.5), fx(1.0)), bad_gamma);
    assert_eq!(
        isentropic::calc_pressure_ratio_from_mach(fx(2.0), Fixed::undefined()),
        bad_gamma
    );
    assert_eq!(
        isentropic::calc_mach_angle_from_mach(fx(-1.0)),
        Err(IsentropicFlowError::InvalidMachNumber)
    );
    assert_eq!(
        isentropic::calc_mach_angle_from_mach(fx(0.5)),
        Err(IsentropicFlowError::DomainError)
    );
    assert_eq!(
        isentropic::prandtl_meyer_function(fx(1.0), fx(G)),
        Err(IsentropicFlowError::InvalidMachNumber)
    );
    assert_eq!(
        isentropic::calc_mach_from_mach_angle(fx(2.0)),
        Err(IsentropicFlowError::InvalidMachAngle)
    );
    assert_eq!(
        isentropic::calc_mach_from_mach_angle(fx(-0.1)),
        Err(IsentropicFlowError::InvalidMachAngle)
    );
    assert_eq!(
        isentropic::calc_mach_from_mach_angle(fx(0.0)),
        Err(IsentropicFlowError::DomainError)
    );
    assert_eq!(
        isentropic::calc_mach_from_temperature_ratio(fx(1.5), fx(G)),
        Err(IsentropicFlowError::InvalidTemperatureRatio)
    );
    assert_eq!(
        isentropic::calc_mach_from_temperature_ratio(fx(0.0), fx(G)),
        Err(IsentropicFlowError::InvalidTemperatureRatio)
    );
    assert_eq!(
        isentropic::calc_mach_from_pressure_ratio(fx(1.5), fx(G)),
        Err(IsentropicFlowError::InvalidPressureRatio)
    );
    assert_eq!(
        isentropic::calc_mach_from_density_ratio(fx(-0.5), fx(G)),
        Err(IsentropicFlowError::InvalidDensityRatio)
    );
    assert_eq!(
        isentropic::calc_mach_from_speed_of_sound(fx(1.0), fx(0.0)),
        Err(IsentropicFlowError::DomainError)
    );
    assert!(isentropic::valid_specific_heat_ratio(fx(1.4)));
    assert!(!isentropic::valid_specific_heat_ratio(fx(1.0)));
}

#[test]
fn isentropic_flow_state_and_calculator() {
    let flow = IsentropicFlow::from_mach(fx(2.0), fx(G)).unwrap();
    assert_eq!(flow.get(isentropic::Output::MachNumber), fx(2.0));
    assert!((fl(flow.get(isentropic::Output::MachAngle)) - PI / 6.0).abs() < 1e-10);
    assert!((fl(flow.get(isentropic::Output::TemperatureRatio)) - 1.0 / 1.8).abs() < 1e-10);
    assert!((fl(flow.get(isentropic::Output::PressureRatio)) - 0.12780452546295096).abs() < 1e-10);
    assert!((fl(flow.get(isentropic::Output::DensityRatio)) - 0.23004814583331168).abs() < 1e-10);
    assert!((fl(flow.get(isentropic::Output::PrandtlMeyerAngle)) - 0.46041368208269473).abs() < 1e-10);
    assert_eq!(
        IsentropicFlow::from_mach(fx(-2.0), fx(G)).err(),
        Some(IsentropicFlowError::InvalidMachNumber)
    );
    assert_eq!(
        IsentropicFlow::from_mach(fx(2.0), fx(1.0)).err(),
        Some(IsentropicFlowError::InvalidSpecificHeatRatio)
    );
    assert_eq!(
        IsentropicFlow::from_mach(fx(0.5), fx(G)).err(),
        Some(IsentropicFlowError::DomainError)
    );
    near(
        isentropic::calculate(
            isentropic::Output::PressureRatio,
            isentropic::Input::MachNumber(fx(2.0)),
            None,
        ),
        0.12780452546295096,
        1e-10,
    );
    near(
        isentropic::calculate(
            isentropic::Output::MachNumber,
            isentropic::Input::MachAngle(fx(PI / 6.0)),
            Some(fx(G)),
        ),
        2.0,
        1e-9,
    );
    near(
        isentropic::calculate(
            isentropic::Output::MachNumber,
            isentropic::Input::TemperatureRatio(fx(1.0 / 1.8)),
            None,
        ),
        2.0,
        1e-9,
    );
    near(
        isentropic::calculate(
            isentropic::Output::MachNumber,
            isentropic::Input::PressureRatio(fx(0.12780452546295096)),
            None,
        ),
        2.0,
        1e-8,
    );
    near(
        isentropic::calculate(
            isentropic::Output::MachNumber,
            isentropic::Input::DensityRatio(fx(0.23004814583331168)),
            None,
        ),
        2.0,
        1e-8,
    );
    near(
        isentropic::calculate(
            isentropic::Output::MachNumber,
            isentropic::Input::PrandtlMeyerAngle(fx(0.46041368208269473)),
            None,
        ),
        2.0,
        1e-8,
    );
    assert_eq!(
        isentropic::calculate(
            isentropic::Output::MachNumber,
            isentropic::Input::MachNumber(fx(2.0)),
            Some(fx(0.5)),
        ),
        Err(IsentropicFlowError::InvalidSpecificHeatRatio)
    );
}

#[test]
fn normal_shock_relations_match_formulas() {
    for i in 1..40 {
        let m = 1.0 + 0.1 * i as f64;
        let m2 = m * m;
        near(
            normalshock::calc_downstream_mach_from_upstream_mach(fx(m), fx(G)),
            (((G - 1.0) * m2 + 2.0) / (2.0 * G * m2 - (G - 1.0))).sqrt(),
            1e-10,
        );
        let p = (2.0 * G * m2 - (G - 1.0)) / (G + 1.0);
        near(normalshock::calc_pressure_ratio_from_upstream_mach(fx(m), fx(G)), p, 1e-10);
        near(
            normalshock::calc_temperature_ratio_from_upstream_mach(fx(m), fx(G)),
            (2.0 * G * m2 - (G - 1.0)) * ((G - 1.0) * m2 + 2.0) / ((G + 1.0).powi(2) * m2),
            1e-10,
        );
        let d = ((G + 1.0) * m2) / ((G - 1.0) * m2 + 2.0);
        near(normalshock::calc_density_ratio_from_upstream_mach(fx(m), fx(G)), d, 1e-10);
        near(
            normalshock::calc_stagnation_pressure_ratio_from_upstream_mach(fx(m), fx(G)),
            d.powf(G / (G - 1.0)) * (1.0 / p).powf(1.0 / (G - 1.0)),
            1e-8,
        );
        near(
            normalshock::calc_upstream_mach_from_pressure_ratio(fx(p), fx(G)),
            m,
            1e-9,
        );
        near(normalshock::calc_upstream_mach_from_density_ratio(fx(d), fx(G)), m, 1e-8);
    }
}

#[test]
fn normal_shock_exact_values_at_mach_three() {
    near(normalshock::calc_pressure_ratio_from_upstream_mach(fx(3.0), fx(G)), 10.333333333333334, 1e-11);
    near(normalshock::calc_density_ratio_from_upstream_mach(fx(3.0), fx(G)), 3.857142857142857, 1e-11);
    near(normalshock::calc_temperature_ratio_from_upstream_mach(fx(3.0), fx(G)), 2.679012345679012, 1e-11);
    near(normalshock::calc_downstream_mach_from_upstream_mach(fx(3.0), fx(G)), 0.47519096331149147, 1e-11);
}

#[test]
fn normal_shock_temperature_inverse_recovers_mach() {
    near(normalshock::calc_upstream_mach_from_temperature_ratio(fx(2.679012345679012), fx(G)), 3.0, 1e-9);
    for i in 0..200 {
        let m = 1.0 + 0.5 * i as f64;
        let m2 = m * m;
        let t = (2.0 * G * m2 - (G - 1.0)) * ((G - 1.0) * m2 + 2.0) / ((G + 1.0).powi(2) * m2);
        near(normalshock::calc_upstream_mach_from_temperature_ratio(fx(t), fx(G)), m, 1e-8);
    }
}

#[test]
fn normal_shock_downstream_inverse_recovers_mach() {
    near(normalshock::calc_upstream_mach_from_downstream_mach(fx(0.5), fx(G)), 2.6457513110645907, 1e-8);
    near(normalshock::calc_upstream_mach_from_downstream_mach(fx(1.0), fx(G)), 1.0, 1e-12);
    for i in 1..60 {
        let m = 1.0 + 0.25 * i as f64;
        let m2 = m * m;
        let down = (((G - 1.0) * m2 + 2.0) / (2.0 * G * m2 - (G - 1.0))).sqrt();
        near(normalshock::calc_upstream_mach_from_downstream_mach(fx(down), fx(G)), m, 2e-6);
    }
    let shock = NormalShock::new(normalshock::Input::DownstreamMachNumber(fx(0.5)), None).unwrap();
    assert!((fl(shock.get(normalshock::Output::UpstreamMachNumber)) - 2.6457513110645907).abs() < 1e-7);
    assert_eq!(
        normalshock::calc_upstream_mach_from_downstream_mach(fx(1.5), fx(G)),
        Err(IsentropicFlowError::InvalidMachNumber)
    );
    assert_eq!(
        normalshock::calc_upstream_mach_from_downstream_mach(fx(0.0), fx(G)),
        Err(IsentropicFlowError::InvalidMachNumber)
    );
    // below the downstream Mach number of the strongest shock, about 0.378
    assert_eq!(
        normalshock::calc_upstream_mach_from_downstream_mach(fx(0.3), fx(G)),
        Err(IsentropicFlowError::DomainError)
    );
}

#[test]
fn normal_shock_stagnation_inverse_solves_its_residual() {
    let target = 0.5;
    let m = fl(
        normalshock::calc_upstream_mach_from_stagnation_pressure_ratio(fx(target), fx(G)).unwrap(),
    );
    let alpha = (G + 1.0) * m * m / ((G - 1.0) * m * m + 2.0);
    let beta = (G + 1.0) / (2.0 * G * m * m - (G - 1.0));
    let value = alpha.powf(G / (G - 1.0)) * beta.powf(1.0 / (G - 1.0));
    assert!((value - target).abs() < 1e-8, "residual {} at {}", value - target, m);
    assert!(m > 1.0);
}

#[test]
fn normal_shock_errors() {
    let bad_gamma = Err(IsentropicFlowError::InvalidSpecificHeatRatio);
    assert_eq!(normalshock::calc_downstream_mach_from_upstream_mach(fx(3.0), fx(1.0)), bad_gamma);
    assert_eq!(normalshock::calc_pressure_ratio_from_upstream_mach(fx(3.0), fx(1.0)), bad_gamma);
    assert_eq!(normalshock::calc_temperature_ratio_from_upstream_mach(fx(3.0), fx(1.0)), bad_gamma);
    assert_eq!(normalshock::calc_density_ratio_from_upstream_mach(fx(3.0), fx(1.0)), bad_gamma);
    assert_eq!(
        normalshock::calc_stagnation_pressure_ratio_from_upstream_mach(fx(3.0), fx(1.0)),
        bad_gamma
    );
    assert_eq!(normalshock::calc_upstream_mach_from_downstream_mach(fx(0.5), fx(1.0)), bad_gamma);
    assert_eq!(normalshock::calc_upstream_mach_from_pressure_ratio(fx(5.0), fx(1.0)), bad_gamma);
    assert_eq!(normalshock::calc_upstream_mach_from_temperature_ratio(fx(2.0), fx(1.0)), bad_gamma);
    assert_eq!(normalshock::calc_upstream_mach_from_density_ratio(fx(2.0), fx(1.0)), bad_gamma);
    assert_eq!(
        normalshock::calc_upstream_mach_from_stagnation_pressure_ratio(fx(0.5), fx(1.0)),
        bad_gamma
    );
    assert_eq!(
        normalshock::calc_upstream_mach_from_stagnation_pressure_ratio(fx(1.5), fx(G)),
        Err(IsentropicFlowError::InvalidPressureRatio)
    );
    assert_eq!(
        normalshock::calc_upstream_mach_from_stagnation_pressure_ratio(fx(0.0), fx(G)),
        Err(IsentropicFlowError::InvalidPressureRatio)
    );
    assert_eq!(
        normalshock::calc_downstream_mach_from_upstream_mach(fx(0.2), fx(G)),
        Err(IsentropicFlowError::DomainError)
    );
}

#[test]
fn normal_shock_state_and_calculator() {
    let shock = NormalShock::from_upstream_mach(fx(3.0), None).unwrap();
    assert_eq!(shock.get(normalshock::Output::UpstreamMachNumber), fx(3.0));
    assert!((fl(shock.get(normalshock::Output::DownstreamMachNumber)) - 0.47519096331149147).abs() < 1e-10);
    assert!((fl(shock.get(normalshock::Output::PressureRatio)) - 10.333333333333334).abs() < 1e-10);
    assert!((fl(shock.get(normalshock::Output::DensityRatio)) - 3.857142857142857).abs() < 1e-10);
    assert!((fl(shock.get(normalshock::Output::TemperatureRatio)) - 2.679012345679012).abs() < 1e-10);
    let p: f64 = 10.333333333333334;
    let d: f64 = 3.857142857142857;
    let stagnation = d.powf(3.5) * (1.0 / p).powf(2.5);
    assert!(stagnation < 1.0);
    let got = fl(shock.get(normalshock::Output::StagnationPressureRatio));
    assert!((got - stagnation).abs() < 1e-8 * stagnation);
    let other = NormalShock::new(normalshock::Input::PressureRatio(fx(p)), Some(fx(G))).unwrap();
    assert!((fl(other.get(normalshock::Output::UpstreamMachNumber)) - 3.0).abs() < 1e-9);
    near(
        normalshock::calculate(
            normalshock::Input::UpstreamMachNumber(fx(3.0)),
            normalshock::Output::DensityRatio,
            fx(G),
        ),
        d,
        1e-10,
    );
    near(
        normalshock::calculate(
            normalshock::Input::DensityRatio(fx(d)),
            normalshock::Output::UpstreamMachNumber,
            fx(G),
        ),
        3.0,
        1e-8,
    );
    assert_eq!(
        normalshock::calculate(
            normalshock::Input::UpstreamMachNumber(fx(3.0)),
            normalshock::Output::DensityRatio,
            fx(1.0),
        ),
        Err(IsentropicFlowError::InvalidSpecificHeatRatio)
    );
    assert_eq!(
        NormalShock::new(normalshock::Input::StagnationPressureRatio(fx(2.0)), None).err(),
        Some(IsentropicFlowError::InvalidPressureRatio)
    );
}

fn deflection(m: f64, b: f64) -> f64 {
    let t = 2.0 / b.tan() * (m * m * b.sin().powi(2) - 1.0) / (m * m * (G + (2.0 * b).cos()) + 2.0);
    t.atan()
}

#[test]
fn oblique_shock_relations_match_formulas() {
    for i in 0..20 {
        for j in 1..16 {
            let m = 1.5 + 0.25 * i as f64;
            let b = 0.1 * j as f64;
            let n = m * m * b.sin().powi(2);
            near(obliqueshock::calc_deflection_angle(fx(m), fx(b), fx(G)), deflection(m, b), 1e-9);
            let p = (2.0 * G * n - (G - 1.0)) / (G + 1.0);
            near(obliqueshock::calc_pressure_ratio(fx(m), fx(b), fx(G)), p, 1e-9);
            let d = (G + 1.0) * n / ((G - 1.0) * n + 2.0);
            near(obliqueshock::calc_density_ratio(fx(m), fx(b), fx(G)), d, 1e-9);
            near(obliqueshock::calc_temperature_ratio(fx(m), fx(b), fx(G)), p / d, 1e-9);
            near(obliqueshock::calc_normal_upstream_mach(fx(m), fx(b)), m * b.sin(), 1e-10);
            if p > 0.05 {
                near(
                    obliqueshock::calc_stagnation_pressure_ratio(fx(m), fx(b), fx(G)),
                    d.powf(G / (G - 1.0)) * (1.0 / p).powf(1.0 / (G - 1.0)),
                    1e-7,
                );
            }
        }
    }
}

#[test]
fn oblique_downstream_mach_matches_formula() {
    let m: f64 = 3.0;
    let b: f64 = PI / 4.0;
    let theta = deflection(m, b);
    let mn = m * b.sin();
    let m2n = ((1.0 + (G - 1.0) * mn * mn / 2.0) / (G * mn * mn - (G - 1.0) / 2.0)).sqrt();
    near(
        obliqueshock::calc_downstream_mach_from_shock_angle(fx(m), fx(b), fx(G)),
        m2n / (b - theta).sin(),
        1e-9,
    );
    near(
        obliqueshock::calc_normal_downstream_mach(fx(1.5), fx(0.9), fx(0.3)),
        1.5 * (0.6f64).sin(),
        1e-10,
    );
}

#[test]
fn shock_angle_inverts_deflection() {
    for i in 1..8 {
        let theta = 0.07 * i as f64;
        let beta = fl(obliqueshock::calc_shock_angle(fx(3.0), fx(theta), fx(G)).unwrap());
        assert!((deflection(3.0, beta) - theta).abs() < 1e-8, "theta {} beta {}", theta, beta);
        assert!(beta >= theta && beta <= PI / 2.0);
        let m2 = fl(
            obliqueshock::calc_downstream_mach_from_deflection_angle(fx(3.0), fx(theta), fx(G))
                .unwrap(),
        );
        let mn = 3.0 * beta.sin();
        let m2n = ((1.0 + (G - 1.0) * mn * mn / 2.0) / (G * mn * mn - (G - 1.0) / 2.0)).sqrt();
        assert!((m2 - m2n / (beta - theta).sin()).abs() < 1e-7);
    }
}

#[test]
fn deflection_vanishes_at_the_mach_angle() {
    for i in 1..20 {
        let m = 1.2 + 0.3 * i as f64;
        let mach_angle = isentropic::calc_mach_angle_from_mach(fx(m)).unwrap();
        let theta = fl(obliqueshock::calc_deflection_angle(fx(m), mach_angle, fx(G)).unwrap());
        assert!(theta.abs() < 1e-9, "deflection {} at the Mach angle of {}", theta, m);
    }
}

#[test]
fn deflection_is_greatest_near_the_maximum_shock_angle() {
    for i in 0..20 {
        let m = 1.1 + 0.45 * i as f64;
        let beta = fl(obliqueshock::calc_max_shock_angle(fx(m), fx(G)).unwrap());
        let best = fl(obliqueshock::calc_deflection_angle(fx(m), fx(beta), fx(G)).unwrap());
        let mut greatest: f64 = 0.0;
        for j in 1..15700 {
            greatest = greatest.max(deflection(m, 0.0001 * j as f64));
        }
        assert!((best - greatest).abs() < 1e-7, "mach {}: {} against {}", m, best, greatest);
        assert!(best > deflection(m, beta - 0.01));
        assert!(best > deflection(m, beta + 0.01));
    }
}

#[test]
fn max_shock_angle_matches_formula() {
    let m: f64 = 3.0;
    let inner =
        ((G + 1.0) * ((G + 1.0) * m.powi(4) / 16.0 + (G - 1.0) * m.powi(2) / 2.0 + 1.0)).sqrt();
    let sine = ((1.0 / (G * m * m)) * ((G + 1.0) * m * m / 4.0 - 1.0 + inner)).sqrt();
    near(obliqueshock::calc_max_shock_angle(fx(m), fx(G)), sine.asin(), 1e-9);
}

#[test]
fn oblique_shock_errors() {
    assert_eq!(
        obliqueshock::calc_stagnation_pressure_ratio(fx(3.0), fx(0.8), fx(1.0)),
        Err(IsentropicFlowError::InvalidSpecificHeatRatio)
    );
    assert_eq!(
        obliqueshock::calc_max_shock_angle(fx(3.0), fx(1.0)),
        Err(IsentropicFlowError::InvalidSpecificHeatRatio)
    );
    assert_eq!(
        obliqueshock::calc_max_shock_angle(fx(1.0), fx(G)),
        Err(IsentropicFlowError::InvalidMachNumber)
    );
    assert_eq!(
        obliqueshock::calc_shock_angle(fx(0.8), fx(0.2), fx(G)),
        Err(IsentropicFlowError::InvalidMachNumber)
    );
    assert_eq!(
        obliqueshock::calc_normal_upstream_mach(fx(1.0), fx(0.5)),
        Err(IsentropicFlowError::InvalidMachNumber)
    );
    assert_eq!(
        obliqueshock::calc_normal_downstream_mach(fx(0.9), fx(0.5), fx(0.1)),
        Err(IsentropicFlowError::InvalidMachNumber)
    );
    assert_eq!(
        obliqueshock::calc_downstream_mach_from_shock_angle(fx(0.9), fx(0.5), fx(G)),
        Err(IsentropicFlowError::InvalidMachNumber)
    );
    assert_eq!(
        obliqueshock::calc_deflection_angle(fx(3.0), fx(0.0), fx(G)),
        Err(IsentropicFlowError::DomainError)
    );
    assert_eq!(
        obliqueshock::calc_pressure_ratio(Fixed::undefined(), fx(0.5), fx(G)),
        Err(IsentropicFlowError::DomainError)
    );
}

#[test]
fn oblique_shock_state_and_calculator() {
    let m: f64 = 3.0;
    let b: f64 = 0.7;
    let shock = ObliqueShock::from_mach_and_shock_angle(fx(m), fx(b), fx(G)).unwrap();
    let theta = deflection(m, b);
    assert_eq!(shock.get(obliqueshock::Output::ShockAngle), fx(b));
    assert!((fl(shock.get(obliqueshock::Output::DeflectionAngle)) - theta).abs() < 1e-9);
    assert!((fl(shock.get(obliqueshock::Output::NormalUpstreamMach)) - m * b.sin()).abs() < 1e-9);
    let m2 = fl(shock.get(obliqueshock::Output::DownstreamMach));
    let m2n = fl(shock.get(obliqueshock::Output::NormalDownstreamMach));
    assert!((m2n - m2 * (b - theta).sin()).abs() < 1e-9);
    let n = m * m * b.sin().powi(2);
    let p = (2.0 * G * n - (G - 1.0)) / (G + 1.0);
    let d = (G + 1.0) * n / ((G - 1.0) * n + 2.0);
    assert!((fl(shock.get(obliqueshock::Output::PressureRatio)) - p).abs() < 1e-9);
    assert!((fl(shock.get(obliqueshock::Output::DensityRatio)) - d).abs() < 1e-9);
    assert!((fl(shock.get(obliqueshock::Output::TemperatureRatio)) - p / d).abs() < 1e-8);
    let stagnation = d.powf(3.5) * (1.0 / p).powf(2.5);
    assert!((fl(shock.get(obliqueshock::Output::StagnationPressureRatio)) - stagnation).abs() < 1e-8);

    let by_normal = ObliqueShock::from_mach_and_normal_mach(fx(m), fx(m * b.sin()), fx(G)).unwrap();
    assert!((fl(by_normal.get(obliqueshock::Output::ShockAngle)) - b).abs() < 1e-8);
    assert_eq!(
        ObliqueShock::from_mach_and_normal_mach(fx(m), fx(3.5), fx(G)).err(),
        Some(IsentropicFlowError::InvalidMachNumber)
    );
    assert_eq!(
        ObliqueShock::from_mach_and_normal_mach(fx(0.5), fx(0.4), fx(G)).err(),
        Some(IsentropicFlowError::InvalidMachNumber)
    );

    let mut inputs = Vec::new();
    inputs.push(obliqueshock::Input::UpstreamMach(fx(m)));
    inputs.push(obliqueshock::Input::ShockAngle(fx(b)));
    near(obliqueshock::calculate(inputs, obliqueshock::Output::PressureRatio, fx(G)), p, 1e-9);

    let mut inputs = Vec::new();
    inputs.push(obliqueshock::Input::UpstreamMach(fx(m)));
    inputs.push(obliqueshock::Input::DeflectionAngle(fx(theta)));
    near(obliqueshock::calculate(inputs, obliqueshock::Output::ShockAngle, fx(G)), b, 1e-7);

    let mut inputs = Vec::new();
    inputs.push(obliqueshock::Input::UpstreamMach(fx(m)));
    inputs.push(obliqueshock::Input::DeflectionAngle(fx(0.1)));
    inputs.push(obliqueshock::Input::ShockAngle(fx(b)));
    near(obliqueshock::calculate(inputs, obliqueshock::Output::DeflectionAngle, fx(G)), theta, 1e-9);

    let mut inputs = Vec::new();
    inputs.push(obliqueshock::Input::UpstreamMach(fx(m)));
    inputs.push(obliqueshock::Input::NormalUpstreamMach(fx(m * b.sin())));
    near(obliqueshock::calculate(inputs, obliqueshock::Output::ShockAngle, fx(G)), b, 1e-8);

    let mut inputs = Vec::new();
    inputs.push(obliqueshock::Input::ShockAngle(fx(b)));
    inputs.push(obliqueshock::Input::UpstreamMach(fx(m)));
    assert_eq!(
        obliqueshock::calculate(inputs, obliqueshock::Output::ShockAngle, fx(G)),
        Err(IsentropicFlowError::DomainError)
    );
    assert_eq!(
        obliqueshock::calculate(Vec::new(), obliqueshock::Output::ShockAngle, fx(G)),
        Err(IsentropicFlowError::DomainError)
    );
    let mut inputs = Vec::new();
    inputs.push(obliqueshock::Input::UpstreamMach(fx(m)));
    inputs.push(obliqueshock::Input::ShockAngle(fx(b)));
    assert_eq!(
        obliqueshock::calculate(inputs, obliqueshock::Output::ShockAngle, fx(1.0)),
        Err(IsentropicFlowError::InvalidSpecificHeatRatio)
    );
}

fn stagnation_ratio(m: f64) -> f64 {
    let d = (G + 1.0) * m * m / ((G - 1.0) * m * m + 2.0);
    let p = (2.0 * G * m * m - (G - 1.0)) / (G + 1.0);
    d.powf(G / (G - 1.0)) * (1.0 / p).powf(1.0 / (G - 1.0))
}

#[test]
fn normal_shock_stagnation_ratio_never_exceeds_one() {
    for i in 0..120 {
        let m = 1.0 + 0.25 * i as f64;
        let got = fl(
            normalshock::calc_stagnation_pressure_ratio_from_upstream_mach(fx(m), fx(G)).unwrap(),
        );
        let want = stagnation_ratio(m);
        assert!(got > 0.0 && got <= 1.0 + 1e-11, "ratio {} at Mach {}", got, m);
        assert!((got - want).abs() <= 2e-10 * want + 3e-12, "at Mach {}: {} against {}", m, got, want);
    }
    assert!(
        (fl(normalshock::calc_stagnation_pressure_ratio_from_upstream_mach(fx(3.0), fx(G)).unwrap())
            - 0.32834388)
            .abs()
            < 1e-7
    );
    let strong = NormalShock::from_upstream_mach(fx(10.0), Some(fx(G))).unwrap();
    let ratio = fl(strong.get(normalshock::Output::StagnationPressureRatio));
    assert!((ratio - stagnation_ratio(10.0)).abs() < 1e-10);
}

#[test]
fn normal_shock_stagnation_inverse_covers_strong_shocks() {
    let mut ratios = vec![0.005, 0.0001, 0.999, 1.0];
    for i in 1..100 {
        ratios.push(0.01 * i as f64);
    }
    for ratio in ratios {
        let target = fl(fx(ratio));
        let m = fl(
            normalshock::calc_upstream_mach_from_stagnation_pressure_ratio(fx(target), fx(G))
                .unwrap(),
        );
        assert!(m >= 1.0 && m < 1024.0, "Mach {} at ratio {}", m, target);
        if target < 0.995 {
            let back = stagnation_ratio(m);
            assert!(
                (back - target).abs() <= 2e-8 * target + 2e-11,
                "ratio {}: Mach {} gives {}",
                target,
                m,
                back
            );
        }
    }
    let at_hundredth = fl(
        normalshock::calc_upstream_mach_from_stagnation_pressure_ratio(fx(0.01), fx(G)).unwrap(),
    );
    assert!((at_hundredth - 7.713).abs() < 1e-3);
    let shock = NormalShock::new(normalshock::Input::StagnationPressureRatio(fx(0.03)), None).unwrap();
    let back = fl(shock.get(normalshock::Output::StagnationPressureRatio));
    assert!((back - 0.03).abs() < 1e-8);
    near(
        normalshock::calculate(
            normalshock::Input::StagnationPressureRatio(fx(0.005)),
            normalshock::Output::StagnationPressureRatio,
            fx(G),
        ),
        0.005,
        1e-8,
    );
}

#[test]
fn max_shock_angle_holds_at_high_mach() {
    for m in [43.5, 100.0, 1000.0, 2800.0] {
        let m: f64 = m;
        let w = 1.0 / (m * m);
        let inner = ((G + 1.0) * ((G + 1.0) / 16.0 + (G - 1.0) * w / 2.0 + w * w)).sqrt();
        let sine = (((G + 1.0) / 4.0 - w + inner) / G).sqrt();
        near(obliqueshock::calc_max_shock_angle(fx(m), fx(G)), sine.asin(), 1e-9);
    }
    near(obliqueshock::calc_max_shock_angle(fx(43.5), fx(G)), 1.1829, 1e-4);
}

#[test]
fn oblique_temperature_ratio_is_pressure_over_density() {
    near(obliqueshock::calc_temperature_ratio(fx(4.0), fx(PI / 6.0), fx(G)), 1.6875, 1e-9);
}

#[test]
fn prandtl_meyer_inverse_covers_high_mach_numbers() {
    for m in [8.0, 12.0, 20.0, 40.0, 100.0, 500.0] {
        let nu = isentropic::prandtl_meyer_function(fx(m), fx(G)).unwrap();
        near(isentropic::calc_mach_from_prandtl_meyer_angle(nu, fx(G)), m, 1e-8);
    }
    assert_eq!(
        isentropic::calc_mach_from_prandtl_meyer_angle(fx(-0.1), fx(G)),
        Err(IsentropicFlowError::InvalidPrandtlMeyerAngle)
    );
    // With a specific-heat ratio of 1.4 no Mach number turns the flow by 2.3 radians.
    assert_eq!(
        isentropic::calc_mach_from_prandtl_meyer_angle(fx(2.3), fx(G)),
        Err(IsentropicFlowError::InvalidPrandtlMeyerAngle)
    );
}

#[test]
fn deflection_vanishes_behind_a_normal_shock() {
    assert_eq!(
        obliqueshock::calc_deflection_angle(fx(3.0), Fixed::half_pi(), fx(G)),
        Ok(Fixed::zero())
    );
    let near_normal = obliqueshock::calc_deflection_angle(fx(3.0), fx(1.5707), fx(G)).unwrap();
    assert!(near_normal.gt(Fixed::zero()) && near_normal.lt(fx(1e-3)));
}

#[test]
fn shock_angle_search_reaches_the_greatest_deflection() {
    for m in [1.1, 1.5, 2.0, 3.0, 8.0] {
        let steepest = fl(obliqueshock::calc_max_shock_angle(fx(m), fx(G)).unwrap());
        let weakest = (1.0 / m).asin();
        for i in 1..20 {
            let beta = weakest + (steepest - weakest) * i as f64 / 20.0;
            let theta = deflection(m, beta);
            let found = fl(obliqueshock::calc_shock_angle(fx(m), fx(theta), fx(G)).unwrap());
            assert!((found - beta).abs() < 1e-5, "Mach {} deflection {} gave {}", m, theta, found);
        }
    }
}

#[test]
fn shock_angle_search_refuses_what_no_weak_shock_gives() {
    // The greatest deflection at Mach 2 is 0.4009 radians.
    assert_eq!(
        obliqueshock::calc_shock_angle(fx(2.0), fx(0.41), fx(G)),
        Err(IsentropicFlowError::DomainError)
    );
    assert_eq!(
        obliqueshock::calc_shock_angle(fx(2.0), fx(-0.1), fx(G)),
        Err(IsentropicFlowError::DomainError)
    );
    assert_eq!(
        obliqueshock::calc_shock_angle(fx(2.0), Fixed::undefined(), fx(G)),
        Err(IsentropicFlowError::DomainError)
    );
    assert_eq!(
        obliqueshock::calc_shock_angle(fx(2.0), fx(0.2), fx(1.0)),
        Err(IsentropicFlowError::InvalidSpecificHeatRatio)
    );
    assert!(obliqueshock::calc_shock_angle(fx(2.0), fx(0.4), fx(G)).is_ok());
    let wave = fl(obliqueshock::calc_shock_angle(fx(2.0), fx(0.0), fx(G)).unwrap());
    assert!((wave - PI / 6.0).abs() < 1e-8);
    assert!(matches!(
        ObliqueShock::from_mach_and_deflection_angle(fx(2.0), fx(0.41), fx(G)),
        Err(IsentropicFlowError::DomainError)
    ));
}

#[test]
fn oblique_shock_state_needs_supersonic_flow_behind_the_shock() {
    // At Mach 2 a shock at 1.3 radians leaves the flow behind it at Mach 0.724.
    let behind =
        fl(obliqueshock::calc_downstream_mach_from_shock_angle(fx(2.0), fx(1.3), fx(G)).unwrap());
    assert!((behind - 0.72407654).abs() < 1e-7, "Mach {} behind the shock", behind);
    assert!(matches!(
        ObliqueShock::from_mach_and_shock_angle(fx(2.0), fx(1.3), fx(G)),
        Err(IsentropicFlowError::InvalidMachNumber)
    ));
    assert!(ObliqueShock::from_mach_and_shock_angle(fx(2.0), fx(0.8), fx(G)).is_ok());
}

#[test]
fn stagnation_inverse_returns_a_mach_number_where_it_is_owed_one() {
    let smallest = Fixed::from_raw(1 << 24);
    for g in [1.125, 1.2, 1.3, 1.375, 1.4, 1.45, 1.5, 1.667, 1.75] {
        for ratio in [smallest, fx(1e-4), fx(0.005), fx(0.03), fx(0.5), fx(0.999), fx(1.0)] {
            let mach = normalshock::calc_upstream_mach_from_stagnation_pressure_ratio(ratio, fx(g))
                .unwrap();
            assert!(mach.ge(fx(1.0)) && mach.le(fx(1024.0)));
            let m = fl(mach);
            let pressure = 1.0 + 2.0 * g / (g + 1.0) * (m * m - 1.0);
            let density = (g + 1.0) * m * m / ((g - 1.0) * m * m + 2.0);
            let back = density.powf(g / (g - 1.0)) * (1.0 / pressure).powf(1.0 / (g - 1.0));
            let want = fl(ratio);
            assert!(
                (back - want).abs() <= 1e-6 * want + 1e-11,
                "ratio {} at a specific-heat ratio of {} gave Mach {} with ratio {}",
                want,
                g,
                m,
                back
            );
        }
    }
}

#[test]
fn normal_shock_relations_hold_over_their_whole_range() {
    let one = Fixed::one();
    for g in [1.0625, 1.4, 1.667, 3.0] {
        assert_eq!(normalshock::calc_pressure_ratio_from_upstream_mach(one, fx(g)), Ok(one));
        assert_eq!(normalshock::calc_density_ratio_from_upstream_mach(one, fx(g)), Ok(one));
        assert_eq!(normalshock::calc_downstream_mach_from_upstream_mach(one, fx(g)), Ok(one));
        assert_eq!(normalshock::calc_temperature_ratio_from_upstream_mach(one, fx(g)), Ok(one));
        for m in [1.0 + 1e-9, 1.5, 30.0, 1000.0, 1024.0] {
            let pressure = normalshock::calc_pressure_ratio_from_upstream_mach(fx(m), fx(g)).unwrap();
            let density = normalshock::calc_density_ratio_from_upstream_mach(fx(m), fx(g)).unwrap();
            let behind = normalshock::calc_downstream_mach_from_upstream_mach(fx(m), fx(g)).unwrap();
            assert!(pressure.ge(one) && density.ge(one));
            assert!(behind.gt(Fixed::zero()) && behind.le(one));
            assert!(normalshock::calc_temperature_ratio_from_upstream_mach(fx(m), fx(g)).is_ok());
        }
    }
    for g in [1.0625, 1.4, 3.0] {
        assert_eq!(normalshock::calc_upstream_mach_from_pressure_ratio(one, fx(g)), Ok(one));
        let top = normalshock::calc_upstream_mach_from_pressure_ratio(fx(1048576.0), fx(g)).unwrap();
        let want = ((1048576.0 - 1.0) * (g + 1.0) / (2.0 * g) + 1.0f64).sqrt();
        assert!((top.to_raw() as f64 / SCALE - want).abs() < 1e-8);
    }
    // At Mach 1024 and a specific-heat ratio of 3 the pressure ratio is 1572863.5.
    near(normalshock::calc_pressure_ratio_from_upstream_mach(fx(1024.0), fx(3.0)), 1572863.5, 1e-12);
}

#[test]
fn downstream_inverse_succeeds_exactly_above_the_limit() {
    for g in [1.0625, 1.4, 1.667, 3.0] {
        let limit = normalshock::calc_downstream_mach_from_upstream_mach(fx(1024.0), fx(g)).unwrap();
        let above = Fixed::from_raw(limit.to_raw() + 1);
        let found = normalshock::calc_upstream_mach_from_downstream_mach(above, fx(g)).unwrap();
        assert!(found.ge(fx(1.0)) && found.le(fx(1024.0)));
        assert_eq!(
            normalshock::calc_upstream_mach_from_downstream_mach(limit, fx(g)),
            Err(IsentropicFlowError::DomainError)
        );
        assert_eq!(
            normalshock::calc_upstream_mach_from_downstream_mach(Fixed::one(), fx(g)),
            Ok(Fixed::one())
        );
    }
}

#[test]
fn isentropic_temperature_relations_hold_over_their_whole_range() {
    for g in [1.0625, 1.4, 3.0] {
        assert_eq!(isentropic::calc_temperature_ratio_from_mach(fx(0.0), fx(g)), Ok(Fixed::one()));
        assert_eq!(isentropic::calc_mach_from_temperature_ratio(Fixed::one(), fx(g)), Ok(fx(0.0)));
        for m in [0.001, 1.0, 30.0, 1024.0] {
            let ratio = isentropic::calc_temperature_ratio_from_mach(fx(m), fx(g)).unwrap();
            assert!(ratio.gt(fx(0.0)) && ratio.le(Fixed::one()));
            near(Ok(ratio), 1.0 / (1.0 + (g - 1.0) / 2.0 * m * m), 1e-12);
        }
        let smallest = Fixed::from_raw(1 << 24);
        let mach = isentropic::calc_mach_from_temperature_ratio(smallest, fx(g)).unwrap();
        near(Ok(mach), (2.0 * (65536.0 - 1.0) / (g - 1.0) as f64).sqrt(), 1e-9);
    }
}
