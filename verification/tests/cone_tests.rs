use compressible_flow::fixed::Fixed;
use compressible_flow::isentropic::IsentropicFlowError;
use compressible_flow::taylormaccoll::{
    calc_surface_density_ratio, calc_surface_pressure_ratio, calc_surface_temperature_ratio,
    cone_surface_from_shock, downstream_velocity_components, integrate_cone, search_slack,
    solve_taylor_maccoll, taylor_maccoll, too_steep, Output, SupersonicCone,
};
use std::f64::consts::PI;

const SCALE: f64 = 1099511627776.0;
const G: f64 = 1.4;

fn fx(x: f64) -> Fixed {
    Fixed::from_raw((x * SCALE).round() as i64)
}

fn fl(x: Fixed) -> f64 {
    assert!(x.is_defined());
    x.to_raw() as f64 / SCALE
}

fn deflection(m: f64, b: f64) -> f64 {
    let t = 2.0 / b.tan() * (m * m * b.sin().powi(2) - 1.0) / (m * m * (G + (2.0 * b).cos()) + 2.0);
    t.atan()
}

fn downstream_mach(m: f64, b: f64) -> f64 {
    let mn = m * b.sin();
    let m2n = ((1.0 + (G - 1.0) * mn * mn / 2.0) / (G * mn * mn - (G - 1.0) / 2.0)).sqrt();
    m2n / (b - deflection(m, b)).sin()
}

fn slope(vr: f64, vt: f64, theta: f64) -> f64 {
    let c = (G - 1.0) / 2.0;
    let e = 1.0 - vr * vr - vt * vt;
    (vt * vt * vr - c * e * (2.0 * vr + vt / theta.tan())) / (c * e - vt * vt)
}

#[test]
fn taylor_maccoll_matches_its_formula() {
    for (vr, vt, theta) in [(2.6, -0.5, 0.5), (1.5, -0.2, 0.9), (0.8, -0.6, 1.0), (3.6, -0.85, 0.3)] {
        let (d_radial, d_tangential) = taylor_maccoll((fx(vr), fx(vt)), fx(theta), fx(G)).unwrap();
        assert_eq!(d_radial, fx(vt));
        let want = slope(vr, vt, theta);
        assert!((fl(d_tangential) - want).abs() < 1e-9 * (1.0 + want.abs()));
    }
}

#[test]
fn taylor_maccoll_is_within_one_raw_unit_at_a_quarter_of_pi() {
    let (d_radial, d_tangential) =
        taylor_maccoll((fx(0.0), fx(-0.5)), fx(PI / 4.0), fx(3.0)).unwrap();
    assert_eq!(d_radial, fx(-0.5));
    assert!((d_tangential.to_raw() - fx(0.75).to_raw()).abs() <= 1);
    assert!((fl(d_tangential) - 0.75).abs() < 1e-12);
}

#[test]
fn taylor_maccoll_stays_within_one_raw_unit_of_its_formula() {
    let mut seed: u64 = 99;
    let mut draw = move || {
        seed = seed.wrapping_mul(6364136223846793005).wrapping_add(1442695040888963407);
        ((seed >> 11) as f64) / ((1u64 << 53) as f64)
    };
    let mut compared = 0;
    for _ in 0..20000 {
        let vr = fl(fx(draw() * 4.0));
        let vt = fl(fx(-draw() * 1.5));
        let theta = fl(fx(0.05 + draw() * 1.5));
        let g = fl(fx(1.1 + draw() * 0.6));
        let c = (g - 1.0) / 2.0;
        let e = 1.0 - vr * vr - vt * vt;
        if (c * e - vt * vt).abs() < 0.05 {
            continue;
        }
        let want = (vt * vt * vr - c * e * (2.0 * vr + vt / theta.tan())) / (c * e - vt * vt);
        let (_, got) = taylor_maccoll((fx(vr), fx(vt)), fx(theta), fx(g)).unwrap();
        assert!((got.to_raw() as f64 - want * SCALE).abs() < 1.0, "at {} {} {} {}", vr, vt, theta, g);
        compared += 1;
    }
    assert!(compared > 15000);
}

#[test]
fn taylor_maccoll_falls_back_beyond_the_guarded_range() {
    // the square of the radial velocity exceeds 2048
    let (_, got) = taylor_maccoll((fx(60.0), fx(-0.5)), fx(0.5), fx(G)).unwrap();
    let want = slope(60.0, -0.5, 0.5);
    assert!((fl(got) - want).abs() < 1e-8 * want.abs());
}

#[test]
fn taylor_maccoll_reports_each_failure() {
    assert_eq!(
        taylor_maccoll((fx(2.6), fx(-0.5)), fx(0.5), fx(1.0)),
        Err(IsentropicFlowError::InvalidSpecificHeatRatio)
    );
    assert_eq!(
        taylor_maccoll((fx(2.6), fx(-0.5)), fx(0.0), fx(G)),
        Err(IsentropicFlowError::DomainError)
    );
    assert_eq!(
        taylor_maccoll((fx(2.6), Fixed::undefined()), fx(0.5), fx(G)),
        Err(IsentropicFlowError::DomainError)
    );
}

#[test]
fn velocity_components_resolve_the_downstream_mach_number() {
    let m: f64 = 4.0;
    let b = PI / 6.0;
    let (radial, tangential) = downstream_velocity_components(fx(m), fx(b), fx(G)).unwrap();
    let m2 = downstream_mach(m, b);
    assert!((m2 - (fl(radial).powi(2) + fl(tangential).powi(2)).sqrt()).abs() < 1e-6);
    let turned = b - deflection(m, b);
    assert!((fl(radial) - m2 * turned.cos()).abs() < 1e-9);
    assert!((fl(tangential) + m2 * turned.sin()).abs() < 1e-9);
    assert!(fl(tangential) < 0.0);
    assert_eq!(
        downstream_velocity_components(fx(0.9), fx(b), fx(G)),
        Err(IsentropicFlowError::InvalidMachNumber)
    );
}

fn start() -> (Fixed, Fixed) {
    downstream_velocity_components(fx(4.0), fx(PI / 6.0), fx(G)).unwrap()
}

#[test]
fn trace_is_monotone_and_ends_before_the_crossing() {
    let beta = fx(PI / 6.0);
    let (velocities, thetas) =
        solve_taylor_maccoll(start(), beta, fx(0.0), fx(G), true, Some(2000)).unwrap();
    assert_eq!(velocities.len(), thetas.len());
    assert!(thetas.len() <= 2001);
    assert_eq!(velocities[0], start());
    assert_eq!(thetas[0], beta);
    let h = fx(0.0).minus(beta).div_int(2000);
    for i in 1..thetas.len() {
        assert!(thetas[i].lt(thetas[i - 1]));
        assert_eq!(thetas[i], thetas[i - 1].plus(h));
        assert!(velocities[i].1.lt(Fixed::zero()));
    }
    let last = thetas.len() - 1;
    assert!(velocities[last].1.lt(Fixed::zero()));
    // one more step crosses: marching one step further from the last sample stops at once
    let (next_v, next_t) = solve_taylor_maccoll(
        velocities[last],
        thetas[last],
        thetas[last].plus(h),
        fx(G),
        true,
        Some(1),
    )
    .unwrap();
    assert_eq!(next_v.len(), 1);
    assert_eq!(next_t.len(), 1);
    let (free_v, _) = solve_taylor_maccoll(
        velocities[last],
        thetas[last],
        thetas[last].plus(h),
        fx(G),
        false,
        Some(1),
    )
    .unwrap();
    assert!(free_v[1].1.ge(Fixed::zero()));
}

#[test]
fn march_matches_double_precision() {
    let (velocities, thetas) =
        solve_taylor_maccoll(start(), fx(PI / 6.0), fx(0.0), fx(G), true, Some(4000)).unwrap();
    assert_eq!(thetas.len(), 950);
    let last = thetas.len() - 1;
    assert!((fl(thetas[last]) - 0.39937496608761014).abs() < 1e-8);
    assert!((fl(velocities[last].0) - 2.7043842344400915).abs() < 1e-8);
    assert!((fl(velocities[last].1) + 0.00015653148251603105).abs() < 1e-7);
}

#[test]
fn march_without_wall_takes_every_step() {
    let (velocities, thetas) =
        solve_taylor_maccoll(start(), fx(0.5), fx(0.45), fx(G), false, Some(100)).unwrap();
    assert_eq!(velocities.len(), 101);
    assert_eq!(thetas.len(), 101);
    assert!((fl(thetas[100]) - 0.45).abs() < 1e-9);
    let (_, rising) =
        solve_taylor_maccoll(start(), fx(0.5), fx(0.52), fx(G), false, Some(10)).unwrap();
    for i in 1..rising.len() {
        assert!(rising[i].gt(rising[i - 1]));
    }
}

#[test]
fn march_reports_each_failure() {
    let beta = fx(PI / 6.0);
    assert_eq!(
        solve_taylor_maccoll(start(), beta, fx(0.0), fx(1.0), true, None).err(),
        Some(IsentropicFlowError::InvalidSpecificHeatRatio)
    );
    assert_eq!(
        solve_taylor_maccoll(start(), beta, fx(0.5), fx(G), true, Some(50)).err(),
        Some(IsentropicFlowError::UndeterminedCrossing)
    );
    assert_eq!(
        solve_taylor_maccoll(start(), beta, fx(0.0), fx(G), true, Some(0)).err(),
        Some(IsentropicFlowError::UndeterminedCrossing)
    );
    assert_eq!(
        solve_taylor_maccoll(start(), beta, fx(0.0), fx(G), true, Some(-5)).err(),
        Some(IsentropicFlowError::UndeterminedCrossing)
    );
    assert_eq!(
        solve_taylor_maccoll(start(), beta, fx(0.0), fx(G), false, Some(0)),
        Ok((vec![start()], vec![beta]))
    );
    assert_eq!(
        solve_taylor_maccoll(start(), beta, beta, fx(G), false, Some(-3)),
        Ok((vec![start()], vec![beta]))
    );
    assert_eq!(
        solve_taylor_maccoll(start(), beta, beta, fx(G), false, Some(10)).err(),
        Some(IsentropicFlowError::DomainError)
    );
    assert_eq!(
        solve_taylor_maccoll((Fixed::undefined(), fx(-0.5)), beta, fx(0.0), fx(G), true, None).err(),
        Some(IsentropicFlowError::DomainError)
    );
    assert_eq!(
        solve_taylor_maccoll(start(), beta, Fixed::undefined(), fx(G), true, None).err(),
        Some(IsentropicFlowError::DomainError)
    );
    // marching across the axis divides by the tangent of zero
    assert_eq!(
        solve_taylor_maccoll((fx(2.0), fx(-0.5)), fx(0.001), fx(-0.001), fx(G), false, Some(2)).err(),
        Some(IsentropicFlowError::DomainError)
    );
}

#[test]
fn integrate_cone_marches_to_the_wall() {
    let beta = fx(PI / 6.0);
    let (velocities, thetas) = integrate_cone(start(), beta, fx(G), Some(1000)).unwrap();
    let (same_v, same_t) =
        solve_taylor_maccoll(start(), beta, fx(0.0), fx(G), true, Some(1000)).unwrap();
    assert_eq!(velocities, same_v);
    assert_eq!(thetas, same_t);
    let surface = cone_surface_from_shock(fx(4.0), beta, fx(G), Some(1000)).unwrap();
    assert_eq!(surface.cone_angle, thetas[thetas.len() - 1]);
    assert_eq!(surface.surface_mach, velocities[velocities.len() - 1].0);
}

#[test]
fn shooting_pass_matches_double_precision_march() {
    let surface = cone_surface_from_shock(fx(4.0), fx(PI / 6.0), fx(G), None).unwrap();
    assert!((fl(surface.cone_angle) - 0.39937496608761014).abs() < 1e-7);
    assert!((fl(surface.surface_mach) - 2.7043842344400915).abs() < 1e-7);
}

fn isentropic(m: f64, exponent: f64) -> f64 {
    (1.0 + (G - 1.0) / 2.0 * m * m).powf(exponent)
}

#[test]
fn surface_ratios_chain_shock_and_isentropic_ratios() {
    let m: f64 = 4.0;
    let b = PI / 6.0;
    let mc: f64 = 2.7;
    let n = m * m * b.sin().powi(2);
    let p = (2.0 * G * n - (G - 1.0)) / (G + 1.0);
    let d = (G + 1.0) * n / ((G - 1.0) * n + 2.0);
    let t = p / d;
    let m2 = downstream_mach(m, b);
    let want_p = p * isentropic(mc, -G / (G - 1.0)) / isentropic(m2, -G / (G - 1.0));
    let want_d = d * isentropic(mc, -1.0 / (G - 1.0)) / isentropic(m2, -1.0 / (G - 1.0));
    let want_t = t * isentropic(mc, -1.0) / isentropic(m2, -1.0);
    let got_p = fl(calc_surface_pressure_ratio(fx(m), fx(b), fx(mc), fx(G)).unwrap());
    let got_d = fl(calc_surface_density_ratio(fx(m), fx(b), fx(mc), fx(G)).unwrap());
    let got_t = fl(calc_surface_temperature_ratio(fx(m), fx(b), fx(mc), fx(G)).unwrap());
    assert!((got_p - want_p).abs() < 1e-8 * want_p, "{} {}", got_p, want_p);
    assert!((got_d - want_d).abs() < 1e-8 * want_d, "{} {}", got_d, want_d);
    assert!((got_t - want_t).abs() < 1e-8 * want_t, "{} {}", got_t, want_t);
    assert!(got_p > 0.0 && got_d > 0.0 && got_t > 0.0);
    // a pressure ratio across the shock that is not positive gives no ratio at the surface
    assert_eq!(
        calc_surface_pressure_ratio(fx(1.2), fx(0.3), fx(1.1), fx(G)),
        Err(IsentropicFlowError::DomainError)
    );
    assert_eq!(
        calc_surface_pressure_ratio(fx(m), fx(b), fx(mc), fx(1.0)),
        Err(IsentropicFlowError::InvalidSpecificHeatRatio)
    );
    assert_eq!(
        calc_surface_density_ratio(fx(0.5), fx(b), fx(mc), fx(G)),
        Err(IsentropicFlowError::InvalidMachNumber)
    );
    assert_eq!(
        calc_surface_temperature_ratio(fx(m), fx(b), Fixed::undefined(), fx(G)),
        Err(IsentropicFlowError::DomainError)
    );
}

#[test]
fn cone_from_shock_angle_is_whole() {
    let m: f64 = 4.0;
    let b = PI / 6.0;
    let cone = SupersonicCone::from_mach_and_shock_angle(fx(m), fx(b), fx(G)).unwrap();
    let surface = cone_surface_from_shock(fx(m), fx(b), fx(G), None).unwrap();
    assert_eq!(cone.get(Output::ShockAngle), fx(b));
    assert_eq!(cone.get(Output::ConeAngle), surface.cone_angle);
    assert_eq!(cone.get(Output::SurfaceMachNumber), surface.surface_mach);
    assert_eq!(cone.get(Output::ShockTurnAngle), fx(b).minus(surface.cone_angle));
    let n = m * m * b.sin().powi(2);
    let p = (2.0 * G * n - (G - 1.0)) / (G + 1.0);
    let d = (G + 1.0) * n / ((G - 1.0) * n + 2.0);
    assert!((fl(cone.get(Output::PressureRatio)) - p).abs() < 1e-9);
    assert!((fl(cone.get(Output::DensityRatio)) - d).abs() < 1e-9);
    assert!((fl(cone.get(Output::TemperatureRatio)) - p / d).abs() < 1e-8);
    let stagnation = d.powf(3.5) * (1.0 / p).powf(2.5);
    assert!((fl(cone.get(Output::StagnationPressureRatio)) - stagnation).abs() < 1e-8);
    assert_eq!(
        cone.get(Output::SurfaceStagnationPressureratio),
        cone.get(Output::StagnationPressureRatio)
    );
    assert_eq!(
        Ok(cone.get(Output::SurfacePressureRatio)),
        calc_surface_pressure_ratio(fx(m), fx(b), surface.surface_mach, fx(G))
    );
    assert_eq!(
        Ok(cone.get(Output::SurfaceDensityRatio)),
        calc_surface_density_ratio(fx(m), fx(b), surface.surface_mach, fx(G))
    );
    assert_eq!(
        Ok(cone.get(Output::SurfaceTemperatureRatio)),
        calc_surface_temperature_ratio(fx(m), fx(b), surface.surface_mach, fx(G))
    );
    // the flow is compressed further between the shock and the surface
    assert!(cone.get(Output::SurfacePressureRatio).gt(cone.get(Output::PressureRatio)));
}

#[test]
fn cone_constructors_validate_their_arguments() {
    let b = fx(PI / 6.0);
    assert_eq!(
        SupersonicCone::from_mach_and_shock_angle(fx(4.0), b, fx(1.0)).err(),
        Some(IsentropicFlowError::InvalidSpecificHeatRatio)
    );
    assert_eq!(
        SupersonicCone::from_mach_and_shock_angle(fx(1.0), b, fx(G)).err(),
        Some(IsentropicFlowError::InvalidMachNumber)
    );
    assert_eq!(
        SupersonicCone::from_mach_and_shock_angle(fx(4.0), fx(0.0), fx(G)).err(),
        Some(IsentropicFlowError::DomainError)
    );
    assert_eq!(
        SupersonicCone::from_mach_and_shock_angle(fx(4.0), fx(1.6), fx(G)).err(),
        Some(IsentropicFlowError::DomainError)
    );
    assert_eq!(
        SupersonicCone::from_mach_and_shock_angle_with_steps(fx(4.0), b, fx(G), Some(0)).err(),
        Some(IsentropicFlowError::UndeterminedCrossing)
    );
    assert_eq!(
        SupersonicCone::from_mach_and_cone_angle(fx(4.0), fx(0.4), fx(0.9)).err(),
        Some(IsentropicFlowError::InvalidSpecificHeatRatio)
    );
    assert_eq!(
        SupersonicCone::from_mach_and_cone_angle(fx(0.7), fx(0.4), fx(G)).err(),
        Some(IsentropicFlowError::InvalidMachNumber)
    );
    assert_eq!(
        SupersonicCone::from_mach_and_cone_angle(fx(4.0), fx(-0.1), fx(G)).err(),
        Some(IsentropicFlowError::DomainError)
    );
    assert_eq!(
        SupersonicCone::from_mach_and_cone_angle(fx(4.0), fx(PI / 2.0 + 0.01), fx(G)).err(),
        Some(IsentropicFlowError::DomainError)
    );
    assert_eq!(
        SupersonicCone::from_mach_and_cone_angle_with(fx(4.0), fx(0.4), fx(G), Some(400), None, Some(2))
            .err(),
        Some(IsentropicFlowError::NonConvergence)
    );
}

#[test]
fn round_trip_recovers_shock_angle() {
    for shock_angle in [PI / 6.0, 0.4, 0.7] {
        let surface = cone_surface_from_shock(fx(4.0), fx(shock_angle), fx(G), Some(1000)).unwrap();
        let cone = SupersonicCone::from_mach_and_cone_angle_with(
            fx(4.0),
            surface.cone_angle,
            fx(G),
            Some(1000),
            None,
            None,
        )
        .unwrap();
        let recovered = fl(cone.get(Output::ShockAngle));
        assert!(
            (recovered - shock_angle).abs() < 2e-3,
            "recovered {} from cone angle {}",
            recovered,
            fl(surface.cone_angle)
        );
        assert!((fl(cone.get(Output::ConeAngle)) - fl(surface.cone_angle)).abs() < 2e-3);
    }
}

#[test]
fn cone_from_cone_angle_with_default_settings() {
    let cone = SupersonicCone::from_mach_and_cone_angle(fx(3.0), fx(0.35), fx(G)).unwrap();
    assert!((fl(cone.get(Output::ConeAngle)) - 0.35).abs() < 1e-3);
    let shock_angle = cone.get(Output::ShockAngle);
    assert!(shock_angle.gt(fx(0.35)) && shock_angle.lt(fx(PI / 2.0)));
    let again = SupersonicCone::from_mach_and_shock_angle(fx(3.0), shock_angle, fx(G)).unwrap();
    assert_eq!(again.get(Output::ConeAngle), cone.get(Output::ConeAngle));
    assert_eq!(again.get(Output::SurfaceMachNumber), cone.get(Output::SurfaceMachNumber));
}

#[test]
fn round_trip_recovers_shock_angle_from_surface_mach() {
    for shock_angle in [PI / 6.0, 0.45, 0.7] {
        let surface = cone_surface_from_shock(fx(4.0), fx(shock_angle), fx(G), Some(1000)).unwrap();
        let cone = SupersonicCone::from_mach_and_surface_mach_with(
            fx(4.0),
            surface.surface_mach,
            fx(G),
            Some(1000),
            None,
            None,
        )
        .unwrap();
        let recovered = fl(cone.get(Output::ShockAngle));
        assert!(
            (recovered - shock_angle).abs() < 2e-3,
            "recovered {} from surface Mach number {}",
            recovered,
            fl(surface.surface_mach)
        );
    }
    assert_eq!(
        SupersonicCone::from_mach_and_surface_mach(fx(4.0), fx(4.5), fx(G)).err(),
        Some(IsentropicFlowError::InvalidMachNumber)
    );
    assert_eq!(
        SupersonicCone::from_mach_and_surface_mach(fx(4.0), fx(0.0), fx(G)).err(),
        Some(IsentropicFlowError::InvalidMachNumber)
    );
    assert_eq!(
        SupersonicCone::from_mach_and_surface_mach(fx(1.0), fx(0.5), fx(G)).err(),
        Some(IsentropicFlowError::InvalidMachNumber)
    );
    assert_eq!(
        SupersonicCone::from_mach_and_surface_mach(fx(4.0), fx(2.0), fx(1.0)).err(),
        Some(IsentropicFlowError::InvalidSpecificHeatRatio)
    );
}

#[test]
fn integrate_cone_needs_two_steps() {
    let start = (fx(2.0), fx(-0.5));
    assert_eq!(
        integrate_cone(start, fx(0.5), fx(G), Some(1)).err(),
        Some(IsentropicFlowError::UndeterminedCrossing)
    );
    assert_eq!(
        integrate_cone(start, fx(0.5), fx(G), Some(0)).err(),
        Some(IsentropicFlowError::UndeterminedCrossing)
    );
    let (velocities, thetas) = integrate_cone(start, fx(0.5), fx(G), Some(2)).unwrap();
    assert_eq!(velocities, vec![start]);
    assert_eq!(thetas, vec![fx(0.5)]);
}

#[test]
fn too_steep_tells_subsonic_flow_behind_the_shock() {
    assert!(too_steep(fx(3.0), fx(1.4), fx(G)));
    assert!(!too_steep(fx(3.0), fx(0.6), fx(G)));
    assert!(downstream_mach(3.0, 1.4) < 1.0 && downstream_mach(3.0, 0.6) > 1.0);
}

#[test]
fn search_slack_is_one_step_and_twice_the_tolerance() {
    // 0.5 / 400 is 1374389535 raw units, the default tolerance 1100.
    assert_eq!(search_slack(fx(0.5), Some(400), None).to_raw(), 1374389535 + 2200);
    let loose = search_slack(fx(0.5), Some(-400), Some(Fixed::from_raw(1 << 30)));
    assert_eq!(loose.to_raw(), 1374389535 + (1 << 31));
}

#[test]
fn cone_angle_search_covers_blunt_cones() {
    for (mach, cone_angle) in [(6.0, 0.79), (3.0, 0.5), (2.0, 0.3), (10.0, 0.85), (4.5, 0.7)] {
        let cone = SupersonicCone::from_mach_and_cone_angle(fx(mach), fx(cone_angle), fx(G)).unwrap();
        assert!(
            (fl(cone.get(Output::ConeAngle)) - cone_angle).abs() < 1e-6,
            "Mach {} cone angle {} gave {}",
            mach,
            cone_angle,
            fl(cone.get(Output::ConeAngle))
        );
        let shock_angle = cone.get(Output::ShockAngle);
        assert!(!too_steep(fx(mach), shock_angle, fx(G)));
        let direct = SupersonicCone::from_mach_and_shock_angle(fx(mach), shock_angle, fx(G)).unwrap();
        assert_eq!(direct.get(Output::ConeAngle), cone.get(Output::ConeAngle));
        assert_eq!(direct.get(Output::SurfacePressureRatio), cone.get(Output::SurfacePressureRatio));
    }
}

#[test]
fn surface_mach_search_covers_strong_shocks() {
    for (mach, surface_mach) in [(6.0, 3.0), (3.0, 2.0), (3.0, 1.2), (3.0, 2.99), (10.0, 1.5)] {
        let cone =
            SupersonicCone::from_mach_and_surface_mach(fx(mach), fx(surface_mach), fx(G)).unwrap();
        assert!(
            (fl(cone.get(Output::SurfaceMachNumber)) - surface_mach).abs() < 1e-6,
            "Mach {} surface Mach {} gave {}",
            mach,
            surface_mach,
            fl(cone.get(Output::SurfaceMachNumber))
        );
    }
}

#[test]
fn searches_refuse_what_no_attached_shock_gives() {
    assert_eq!(
        SupersonicCone::from_mach_and_cone_angle(fx(2.0), fx(1.2), fx(G)).err(),
        Some(IsentropicFlowError::DomainError)
    );
    assert_eq!(
        SupersonicCone::from_mach_and_cone_angle(fx(3.0), fx(0.71), fx(G)).err(),
        Some(IsentropicFlowError::DomainError)
    );
    assert_eq!(
        SupersonicCone::from_mach_and_surface_mach(fx(3.0), fx(0.5), fx(G)).err(),
        Some(IsentropicFlowError::DomainError)
    );
}

#[test]
fn accepted_cones_lie_within_the_slack() {
    let steps = Some(50);
    let tolerance = Some(fx(1e-3));
    let mut accepted = 0;
    for i in 1..30 {
        let target = 0.03 * i as f64;
        let found = SupersonicCone::from_mach_and_cone_angle_with(
            fx(3.0),
            fx(target),
            fx(G),
            steps,
            tolerance,
            None,
        );
        match found {
            Ok(cone) => {
                accepted += 1;
                let slack = search_slack(cone.get(Output::ShockAngle), steps, tolerance);
                assert!(cone.get(Output::ConeAngle).minus(fx(target)).abs().le(slack));
                assert!(fl(slack) < 0.03);
            }
            Err(e) => assert_eq!(e, IsentropicFlowError::DomainError),
        }
    }
    assert!(accepted >= 15);
}
