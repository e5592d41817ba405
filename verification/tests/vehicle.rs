use fastsim_vehicle::curve::Curve;
use fastsim_vehicle::fixed::Fixed;
use fastsim_vehicle::params::{fc_perc_out_array, mc_perc_out_array, RustPhysicalProperties};
use fastsim_vehicle::vehicle::{
    load_vehicle, IntegrityCheck, IntegrityViolation, RustVehicle, BEV, CONV, HEV,
};

fn fx(x: f64) -> Fixed {
    Fixed::from_raw((x * 1e9).round() as i64)
}

fn f(x: Fixed) -> f64 {
    x.raw as f64 / 1e9
}

fn close(x: Fixed, y: f64, tol: f64) -> bool {
    (f(x) - y).abs() <= tol
}

/// The curve with the number at position `i` replaced by `x`.
fn with_point(curve: &Curve, i: usize, x: Fixed) -> Curve {
    let mut points = curve.to_vec();
    points[i] = x;
    Curve::new(points)
}

/// A conventional vehicle with an engine, fuel and a glider.
fn conventional() -> RustVehicle {
    let mut veh = RustVehicle::default();
    veh.scenario_name = String::from("conventional");
    veh.glider_kg = fx(1000.0);
    veh.veh_cg_m = fx(0.53);
    veh.fs_max_kw = fx(2000.0);
    veh.fs_kwh = fx(504.0);
    veh.fc_max_kw = fx(125.0);
    veh
}

/// A battery-electric vehicle.
fn electric() -> RustVehicle {
    let mut veh = RustVehicle::default();
    veh.scenario_name = String::from("electric");
    veh.veh_pt_type = String::from(BEV);
    veh.glider_kg = fx(1200.0);
    veh.veh_cg_m = fx(-0.53);
    veh.mc_max_kw = fx(150.0);
    veh.ess_max_kw = fx(157.5);
    veh.ess_max_kwh = fx(77.4);
    veh
}

#[test]
fn test_set_derived_via_new() {
    let veh = load_vehicle().unwrap();
    assert!(veh.veh_kg.raw > 0);
}

#[test]
fn loaded_vehicle_has_the_sum_of_its_masses() {
    let veh = load_vehicle().unwrap();
    assert_eq!(veh.scenario_name, "2016 FORD Escape 4cyl 2WD");
    assert_eq!(veh.ess_mass_kg, fx(0.0));
    assert_eq!(veh.mc_mass_kg, fx(0.0));
    assert!(close(veh.fc_mass_kg, (125.0 / 2.13 + 61.0) * 1.4, 1e-6));
    assert!(close(veh.fs_mass_kg, 504.0 / 9.89 * 1.4, 1e-6));
    assert!(close(veh.veh_kg, 1893.6704171330647, 1e-5));
    assert!(close(veh.max_trac_mps2, 0.7 * 0.59 * 9.81 / (1.0 + 0.53 * 0.7 / 2.6), 1e-6));
    assert!(veh.no_elec_sys);
    assert!(veh.no_elec_aux);
}

#[test]
fn loaded_vehicle_has_its_curves() {
    let veh = load_vehicle().unwrap();
    assert_eq!(veh.fc_perc_out_array, fc_perc_out_array());
    assert_eq!(veh.mc_perc_out_array, mc_perc_out_array());
    assert_eq!(veh.fc_kw_out_array.len(), 100);
    assert_eq!(veh.fc_eff_array.len(), 100);
    assert_eq!(veh.mc_full_eff_array.len(), 101);
    assert_eq!(veh.mc_kw_in_array.len(), 101);
    assert_eq!(veh.mc_kw_out_array.len(), 101);
    assert_eq!(veh.input_kw_out_array.len(), 12);
    // At the points of the power map the curve has the values of the map.
    assert_eq!(veh.fc_eff_array[0], fx(0.1));
    assert_eq!(veh.fc_eff_array[5], fx(0.12));
    assert_eq!(veh.fc_eff_array[99], fx(0.3));
    assert_eq!(veh.fc_kw_out_array[99], fx(125.0));
    assert_eq!(veh.fc_peak_eff(), fx(0.36));
    assert_eq!(veh.mc_peak_eff(), fx(0.93));
    // The peak is first reached at 20 % of 125 kW.
    assert_eq!(veh.max_fc_eff_kw(), fx(25.0));
    assert!(close(veh.max_regen_kwh(), 0.5 * 1893.6704171330647 * 729.0 / 3.6e6, 1e-6));
}

#[test]
fn sampling_grids() {
    let fc = fc_perc_out_array();
    assert_eq!(fc.len(), 100);
    assert_eq!(fc[0], fx(0.0));
    assert_eq!(fc[1], fx(0.001));
    assert_eq!(fc[29], fx(0.029));
    assert_eq!(fc[30], fx(0.03));
    assert_eq!(fc[37], fx(0.065));
    assert_eq!(fc[38], fx(0.07));
    assert_eq!(fc[90], fx(0.59));
    assert_eq!(fc[91], fx(0.6));
    assert_eq!(fc[99], fx(1.0));
    let mc = mc_perc_out_array();
    assert_eq!(mc.len(), 101);
    assert_eq!(mc[0], fx(0.0));
    assert_eq!(mc[50], fx(0.5));
    assert_eq!(mc[100], fx(1.0));
}

#[test]
fn physical_properties() {
    let props = RustPhysicalProperties::default();
    assert_eq!(props.a_grav_mps2, fx(9.81));
    assert_eq!(props.air_density_kg_per_m3, fx(1.2));
    assert_eq!(props.kwh_per_gge, fx(33.7));
}

#[test]
fn component_masses_follow_the_capacities() {
    let mut veh = electric();
    veh.set_veh_mass();
    assert!(close(veh.ess_mass_kg, (77.4 * 8.0 + 75.0) * 1.4, 1e-6));
    assert!(close(veh.mc_mass_kg, (21.6 + 0.833 * 150.0) * 1.4, 1e-6));
    assert_eq!(veh.fc_mass_kg, fx(0.0));
    assert_eq!(veh.fs_mass_kg, fx(0.0));
    let expected = 136.0 + 1200.0 + 114.0 * 1.4 + (77.4 * 8.0 + 75.0) * 1.4
        + (21.6 + 0.833 * 150.0) * 1.4;
    assert!(close(veh.veh_kg, expected, 1e-6));
    assert!(close(veh.max_trac_mps2, 0.7 * 0.59 * 9.81 / (1.0 - 0.53 * 0.7 / 2.6), 1e-6));
}

#[test]
fn component_without_capacity_has_no_mass() {
    let mut veh = electric();
    veh.ess_max_kw = fx(0.0);
    veh.set_veh_mass();
    assert_eq!(veh.ess_mass_kg, fx(0.0));
    let mut veh = electric();
    veh.ess_max_kwh = fx(0.0);
    veh.set_veh_mass();
    assert_eq!(veh.ess_mass_kg, fx(0.0));
    let mut veh = conventional();
    veh.fs_max_kw = fx(0.0);
    veh.fc_max_kw = fx(0.0);
    veh.set_veh_mass();
    assert_eq!(veh.fs_mass_kg, fx(0.0));
    assert_eq!(veh.fc_mass_kg, fx(0.0));
    assert_eq!(veh.veh_kg, fx(136.0 + 1000.0 + 114.0 * 1.4));
}

#[test]
fn override_is_the_mass_whatever_the_components() {
    let mut veh = conventional();
    veh.veh_override_kg = fx(1500.0);
    veh.set_veh_mass();
    assert_eq!(veh.veh_kg, fx(1500.0));
    // The component masses are still those of the components.
    assert!(close(veh.fc_mass_kg, (125.0 / 2.13 + 61.0) * 1.4, 1e-6));
    assert!(close(veh.fs_mass_kg, 504.0 / 9.89 * 1.4, 1e-6));
    let mut veh = electric();
    veh.veh_override_kg = fx(1500.0);
    veh.set_veh_mass();
    assert_eq!(veh.veh_kg, fx(1500.0));
    veh.ess_max_kwh = fx(200.0);
    veh.mc_max_kw = fx(400.0);
    veh.set_veh_mass();
    assert_eq!(veh.veh_kg, fx(1500.0));
    // An override that is not positive does not count.
    veh.veh_override_kg = fx(-1.0);
    veh.set_veh_mass();
    assert!(veh.veh_kg.raw > fx(1500.0).raw);
}

#[test]
fn derived_vehicle_with_override_has_the_override() {
    let mut veh = conventional();
    veh.veh_override_kg = fx(1234.5);
    assert_eq!(veh.set_derived(), Ok(()));
    assert_eq!(veh.veh_kg, fx(1234.5));
}

#[test]
fn electric_vehicle_must_have_no_fuel_system() {
    let mut veh = electric();
    assert_eq!(veh.set_derived(), Ok(()));
    let mut veh = electric();
    veh.fs_max_kw = fx(2000.0);
    assert_eq!(
        veh.set_derived(),
        Err(IntegrityViolation {
            check: IntegrityCheck::ElectricFuelStoragePower,
            value: fx(2000.0)
        })
    );
    let mut veh = electric();
    veh.fs_kwh = fx(10.0);
    assert_eq!(
        veh.set_derived(),
        Err(IntegrityViolation { check: IntegrityCheck::ElectricFuelStorageEnergy, value: fx(10.0) })
    );
    let mut veh = electric();
    veh.fc_max_kw = fx(0.001);
    assert_eq!(
        veh.set_derived(),
        Err(IntegrityViolation {
            check: IntegrityCheck::ElectricFuelConverterPower,
            value: fx(0.001)
        })
    );
}

#[test]
fn conventional_vehicle_must_have_no_electric_drive() {
    let mut veh = conventional();
    assert_eq!(veh.set_derived(), Ok(()));
    let mut veh = conventional();
    veh.mc_max_kw = fx(10.0);
    assert_eq!(
        veh.set_derived(),
        Err(IntegrityViolation { check: IntegrityCheck::ConventionalMotorPower, value: fx(10.0) })
    );
    let mut veh = conventional();
    veh.ess_max_kw = fx(10.0);
    assert_eq!(
        veh.set_derived(),
        Err(IntegrityViolation { check: IntegrityCheck::ConventionalBatteryPower, value: fx(10.0) })
    );
    let mut veh = conventional();
    veh.ess_max_kwh = fx(1.0);
    assert_eq!(
        veh.set_derived(),
        Err(IntegrityViolation { check: IntegrityCheck::ConventionalBatteryEnergy, value: fx(1.0) })
    );
    // With stop-start, or as a hybrid, the vehicle may have them.
    let mut veh = conventional();
    veh.mc_max_kw = fx(10.0);
    veh.stop_start = true;
    assert_eq!(veh.set_derived(), Ok(()));
    let mut veh = conventional();
    veh.mc_max_kw = fx(10.0);
    veh.veh_pt_type = String::from(HEV);
    assert_eq!(veh.set_derived(), Ok(()));
    assert_eq!(veh.veh_pt_type, HEV);
    assert_ne!(veh.veh_pt_type, CONV);
}

#[test]
fn efficiencies_must_stay_between_zero_and_one() {
    let mut veh = conventional();
    veh.fc_eff_map = with_point(&veh.fc_eff_map, 3, fx(-0.1));
    assert_eq!(
        veh.set_derived(),
        Err(IntegrityViolation {
            check: IntegrityCheck::FuelConverterEfficiencyBelowZero,
            value: fx(-0.1)
        })
    );
    let mut veh = conventional();
    veh.fc_eff_map = with_point(&veh.fc_eff_map, 7, fx(1.0));
    assert_eq!(
        veh.set_derived(),
        Err(IntegrityViolation { check: IntegrityCheck::FuelConverterPeakEfficiency, value: fx(1.0) })
    );
    let mut veh = electric();
    veh.mc_eff_map = with_point(&Curve::new(vec![fx(0.5); 11]), 4, fx(-0.2));
    assert!(matches!(
        veh.set_derived(),
        Err(IntegrityViolation { check: IntegrityCheck::MotorEfficiencyBelowZero, .. })
    ));
    let mut veh = electric();
    veh.mc_eff_map = with_point(&Curve::new(vec![fx(0.5); 11]), 10, fx(1.5));
    assert_eq!(
        veh.set_derived(),
        Err(IntegrityViolation { check: IntegrityCheck::MotorPeakEfficiency, value: fx(1.5) })
    );
}

#[test]
fn failed_check_leaves_the_vehicle_as_it_was() {
    let mut veh = conventional();
    veh.fc_eff_map = with_point(&veh.fc_eff_map, 7, fx(1.0));
    let before = veh.clone();
    assert!(veh.set_derived().is_err());
    assert_eq!(veh.fc_eff_array, before.fc_eff_array);
    assert_eq!(veh.veh_kg, before.veh_kg);
    assert_eq!(veh.mc_kw_out_array, before.mc_kw_out_array);
}

#[test]
fn motor_map_is_mixed_from_the_baselines_where_none_is_given() {
    // A motor of 75 kW or more has the large baseline, raised to the modern peak.
    let mut veh = electric();
    veh.mc_max_kw = fx(75.0);
    assert_eq!(veh.set_derived(), Ok(()));
    assert_eq!(veh.mc_eff_map.to_vec()[0], fx(0.84));
    assert_eq!(veh.mc_eff_map.to_vec()[7], fx(0.95));
    assert_eq!(veh.mc_eff_map.to_vec()[10], fx(0.93));
    // A motor of 7.5 kW or less has the small baseline.
    let mut veh = electric();
    veh.mc_max_kw = fx(7.5);
    veh.aux_kw = fx(0.25);
    assert_eq!(veh.set_derived(), Ok(()));
    assert_eq!(veh.mc_eff_map.to_vec()[0], fx(0.12));
    assert_eq!(veh.mc_eff_map.to_vec()[10], fx(0.92));
    // Halfway between, the map is the mean of the two.
    let mut veh = electric();
    veh.mc_max_kw = fx(41.25);
    assert_eq!(veh.set_derived(), Ok(()));
    assert_eq!(veh.mc_eff_map.to_vec()[0], fx(0.48));
    assert_eq!(veh.mc_eff_map.to_vec()[6], fx(0.845));
}

#[test]
fn motor_curves_of_an_electric_vehicle() {
    let mut veh = electric();
    veh.mc_max_kw = fx(100.0);
    assert_eq!(veh.set_derived(), Ok(()));
    assert!(!veh.no_elec_sys);
    assert!(!veh.no_elec_aux);
    assert_eq!(veh.mc_kw_out_array[0], fx(0.0));
    assert_eq!(veh.mc_kw_out_array[50], fx(50.0));
    assert_eq!(veh.mc_kw_out_array[100], fx(100.0));
    assert_eq!(veh.mc_full_eff_array[0], fx(0.0));
    assert_eq!(veh.mc_full_eff_array[100], fx(0.93));
    assert_eq!(veh.mc_kw_in_array[0], fx(0.0));
    assert!(close(veh.mc_kw_in_array[100], 100.0 / 0.93, 1e-6));
    assert_eq!(veh.mc_eff_array, veh.mc_eff_map);
    assert!(veh.mc_max_elec_in_kw.raw >= veh.mc_kw_in_array[100].raw);
}

#[test]
fn peak_overrides_scale_the_curves() {
    let mut veh = electric();
    veh.mc_max_kw = fx(100.0);
    veh.mc_peak_eff_override = Some(fx(0.9));
    assert_eq!(veh.set_derived(), Ok(()));
    assert_eq!(veh.mc_peak_eff_override, None);
    assert!(close(veh.mc_peak_eff(), 0.9, 1e-8));
    let mut veh = conventional();
    veh.fc_peak_eff_override = Some(fx(0.4));
    assert_eq!(veh.set_derived(), Ok(()));
    assert_eq!(veh.fc_peak_eff_override, None);
    assert!(close(veh.fc_peak_eff(), 0.4, 1e-8));
    let mut veh = conventional();
    assert_eq!(veh.set_derived(), Ok(()));
    veh.set_fc_peak_eff(fx(0.18));
    assert!(close(veh.fc_peak_eff(), 0.18, 1e-8));
    assert!(close(veh.fc_eff_array[0], 0.05, 1e-8));
}

#[test]
fn curve_keeps_its_numbers_in_order() {
    let numbers = vec![fx(0.1), fx(0.12), fx(0.16)];
    let curve = Curve::new(numbers.clone());
    assert_eq!(curve.to_vec(), numbers);
    assert_eq!(curve.len(), 3);
    assert_eq!(curve.clone(), curve);
    assert_ne!(curve, Curve::new(vec![fx(0.16), fx(0.12), fx(0.1)]));
    assert_ne!(curve, Curve::new(vec![fx(0.1), fx(0.12)]));
    assert_eq!(Curve::new(vec![]).len(), 0);
}
