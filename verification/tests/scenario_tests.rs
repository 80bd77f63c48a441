use compressible_flow::fixed::Fixed;
use compressible_flow::isentropic::{calc_mach_from_prandtl_meyer_angle, IsentropicFlow};
use compressible_flow::normalshock::NormalShock;
use compressible_flow::obliqueshock::{
    calc_deflection_angle, calc_downstream_mach_from_shock_angle, calc_shock_angle, ObliqueShock,
};
use compressible_flow::taylormaccoll::{solve_taylor_maccoll, SupersonicCone};
use std::f64::consts::PI;

const SCALE: f64 = 1099511627776.0;

fn fx(x: f64) -> Fixed {
    Fixed::from_raw((x * SCALE).round() as i64)
}

fn fl(x: Fixed) -> f64 {
    assert!(x.is_defined());
    x.to_raw() as f64 / SCALE
}

#[test]
fn test_calc_mach_from_prandtl_meyer_angle() {
    let prandtl_meyer_angle = PI / 4.0;
    let specific_heat_ratio = 1.4;
    let mach_number_result =
        calc_mach_from_prandtl_meyer_angle(fx(prandtl_meyer_angle), fx(specific_heat_ratio));

    match mach_number_result {
        Ok(mach_number) => {
            println!(
                "mach number is: {} for p-m angle of {}",
                fl(mach_number),
                prandtl_meyer_angle
            );
            assert!((fl(mach_number) - 2.7644521940).abs() < 1e-9);
        }
        Err(error) => {
            panic!("function returned an error: {:?}", error);
        }
    }
}

#[test]
fn test_isentropic() {
    let mach_number = 2.0;
    let specific_heat_ratio = 1.4;

    match IsentropicFlow::from_mach(fx(mach_number), fx(specific_heat_ratio)) {
        Ok(isentropic_flow) => {
            println!("{:?}", isentropic_flow);
        }
        Err(e) => {
            panic!("failed with error: {:?}", e);
        }
    }
}

#[test]
fn test_normal_shock() {
    let upstream_mach = 3.0;
    let specific_heat_ratio = 1.4;

    match NormalShock::from_upstream_mach(fx(upstream_mach), Some(fx(specific_heat_ratio))) {
        Ok(normal_shock) => {
            println!("{:?}", normal_shock);
        }
        Err(e) => {
            panic!("failed with error: {:?}", e);
        }
    }
}

#[test]
fn test_calc_shock_angle_from_deflection_angle() {
    let upstream_mach = 3.0;
    let deflection_angle = PI / 6.0; // 30 deg
    let specific_heat_ratio = 1.4;

    match calc_shock_angle(fx(upstream_mach), fx(deflection_angle), fx(specific_heat_ratio)) {
        Ok(shock_angle) => {
            println!("shock angle: {:?}", fl(shock_angle));
        }
        Err(e) => {
            panic!("no shock angle: {:?}", e);
        }
    }
}

#[test]
fn test_calc_downstream_mach_number() {
    let upstream_mach = 3.0;
    let shock_angle = PI / 4.0;
    let specific_heat_ratio = 1.4;

    match calc_downstream_mach_from_shock_angle(
        fx(upstream_mach),
        fx(shock_angle),
        fx(specific_heat_ratio),
    ) {
        Ok(downstream_mach) => {
            println!("downstream mach: {:?}", fl(downstream_mach));
        }
        Err(e) => {
            panic!("what now: {:?}", e);
        }
    }
}

#[test]
fn test_oblique_shock() {
    let upstream_mach = 3.0;
    let deflection_angle = PI / 6.0; // 30 deg
    let specific_heat_ratio = 1.4;

    match ObliqueShock::from_mach_and_deflection_angle(
        fx(upstream_mach),
        fx(deflection_angle),
        fx(specific_heat_ratio),
    ) {
        Ok(oblique_shock) => {
            println!("{:?}", oblique_shock);
        }
        Err(e) => {
            panic!("no oblique shock: {:?}", e);
        }
    }
}

#[test]
fn test_solve_taylor_maccoll() {
    let mach_number = 4.0;
    let shock_angle = PI / 6.0; // 30 deg
    let specific_heat_ratio = 1.4;

    let deflection_angle = fl(
        calc_deflection_angle(fx(mach_number), fx(shock_angle), fx(specific_heat_ratio))
            .expect("what"),
    );

    let downstream_mach = fl(calc_downstream_mach_from_shock_angle(
        fx(mach_number),
        fx(shock_angle),
        fx(specific_heat_ratio),
    )
    .expect("erm"));
    let radial_downstream_mach = downstream_mach * (shock_angle - deflection_angle).cos();
    let tangential_downstream_mach = -downstream_mach * (shock_angle - deflection_angle).sin();

    assert!(
        (downstream_mach
            - (tangential_downstream_mach.powi(2) + radial_downstream_mach.powi(2)).sqrt())
        .abs()
            < 1e-6
    );

    match solve_taylor_maccoll(
        (fx(radial_downstream_mach), fx(tangential_downstream_mach)),
        fx(shock_angle),
        fx(0.0),
        fx(specific_heat_ratio),
        true,
        Some(20000),
    ) {
        Ok((velocity_components, thetas)) => {
            assert_eq!(velocity_components.len(), thetas.len());
            for ((radial, tangential), theta) in velocity_components.iter().zip(thetas.iter()) {
                let line = format!(
                    "velocity components: ({:.4}, {:.4}), theta: {:.4}",
                    fl(*radial),
                    fl(*tangential),
                    fl(*theta)
                );
                assert!(!line.is_empty());
            }
            println!("{} samples, last theta {}", thetas.len(), fl(thetas[thetas.len() - 1]));
        }
        Err(e) => {
            panic!("please no: {:?}", e);
        }
    }
}

#[test]
fn test_taylor_maccoll() {
    let mach_number = 4.0;
    let shock_angle = PI / 6.0; // 30 deg
    let specific_heat_ratio = 1.4;

    match SupersonicCone::from_mach_and_shock_angle(
        fx(mach_number),
        fx(shock_angle),
        fx(specific_heat_ratio),
    ) {
        Ok(supersonic_cone) => {
            println!("{:?}", supersonic_cone);
        }
        Err(e) => {
            panic!("why, {:?}", e)
        }
    }
}
