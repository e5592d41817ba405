use fastsim_vehicle::derive::{
    derive_vehicle, inputs_of_answers, match_and_derive, plan_vehicle, powertrain_of_label,
    powertrain_of_tag, powertrain_policy, powertrain_policy_of_tag, prompts_for, rated_power_kw,
    scenario_name_of, try_make_single_vehicle, vehicle_import, vehicle_import_from_id,
    CurveFamily, MatchError, Powertrain, Prompt, Recipe,
};
use fastsim_vehicle::fixed::Fixed;
use fastsim_vehicle::params::{atkinson_eff, spark_ignition_eff, traction_motor_eff};
use fastsim_vehicle::records::{
    EmissionsInfoFE, EmissionsListFE, OtherVehicleInputs, VehicleDataEPA, VehicleDataFE,
    VehicleInputRecord,
};
use fastsim_vehicle::transmission::ParseError;
use fastsim_vehicle::vehicle::{IntegrityCheck, IntegrityViolation};

fn fx(x: f64) -> Fixed {
    Fixed::from_raw((x * 1e9).round() as i64)
}

fn f(x: Fixed) -> f64 {
    x.raw as f64 / 1e9
}

fn close(x: Fixed, y: f64, tol: f64) -> bool {
    (f(x) - y).abs() <= tol
}

fn vir_to_other_inputs(vir: &VehicleInputRecord) -> OtherVehicleInputs {
    fastsim_vehicle::import::vir_to_other_inputs(vir)
}

fn camry_record() -> VehicleInputRecord {
    VehicleInputRecord {
        make: String::from("Toyota"),
        model: String::from("Camry"),
        year: 2020,
        output_file_name: String::from("2020-toyota-camry.yaml"),
        vehicle_width_in: fx(72.4),
        vehicle_height_in: fx(56.9),
        fuel_tank_gal: fx(15.8),
        ess_max_kwh: fx(0.0),
        mc_max_kw: fx(0.0),
        ess_max_kw: fx(0.0),
        fc_max_kw: None,
    }
}

fn camry_fe() -> VehicleDataFE {
    let emiss_info = vec![
        EmissionsInfoFE {
            efid: String::from("LTYXV03.5M5B"),
            score: fx(5.0),
            smartway_score: -1,
            standard: String::from("L3ULEV70"),
            std_text: String::from("California LEV-III ULEV70"),
        },
        EmissionsInfoFE {
            efid: String::from("LTYXV03.5M5B"),
            score: fx(5.0),
            smartway_score: -1,
            standard: String::from("T3B70"),
            std_text: String::from("Federal Tier 3 Bin 70"),
        },
    ];
    let emiss_list = EmissionsListFE { emissions_info: emiss_info };
    VehicleDataFE {
        id: 32204,
        alt_veh_type: String::from(""),
        city_mpg_fuel1: 22,
        city_mpg_fuel2: 0,
        co2_g_per_mi: 338,
        comb_mpg_fuel1: 26,
        comb_mpg_fuel2: 0,
        cylinders: String::from("6"),
        displ: String::from("3.5"),
        drive: String::from("Front-Wheel Drive"),
        emissions_list: emiss_list,
        eng_dscr: String::from("SIDI & PFI"),
        ev_motor_kw: String::from(""),
        fe_score: 5,
        fuel_type: String::from("Regular"),
        fuel1: String::from("Regular Gasoline"),
        fuel2: String::from(""),
        ghg_score: 5,
        highway_mpg_fuel1: 33,
        highway_mpg_fuel2: 0,
        make: String::from("Toyota"),
        mfr_code: String::from("TYX"),
        model: String::from("Camry"),
        phev_blended: false,
        phev_city_mpge: 0,
        phev_comb_mpge: 0,
        phev_hwy_mpge: 0,
        range_ev: 0,
        start_stop: String::from("N"),
        trany: String::from("Automatic (S8)"),
        veh_class: String::from("Midsize Cars"),
        year: 2020,
        super_charge: String::from(""),
        turbo_charge: String::from(""),
    }
}

fn camry_epa() -> VehicleDataEPA {
    VehicleDataEPA {
        year: 2020,
        mfr_code: String::from("TXY"),
        make: String::from("TOYOTA"),
        model: String::from("CAMRY"),
        test_id: String::from("JTYXV03.5M5B"),
        displ: fx(3.456),
        eng_pwr_hp: 301,
        cylinders: String::from("6"),
        trany_code: String::from("A"),
        trany_type: String::from("Automatic"),
        gears: 8,
        drive_code: String::from("F"),
        drive: String::from("2-Wheel Drive, Front"),
        test_weight_lbs: fx(3875.0),
        test_fuel_type: String::from("61"),
        a_lbf: fx(24.843),
        b_lbf_per_mph: fx(0.40298),
        c_lbf_per_mph2: fx(0.015068),
    }
}

fn corolla_epa() -> VehicleDataEPA {
    let mut epa = camry_epa();
    epa.model = String::from("COROLLA");
    epa.eng_pwr_hp = 169;
    epa.test_weight_lbs = fx(3375.0);
    epa
}

fn hybrid_inputs() -> OtherVehicleInputs {
    OtherVehicleInputs {
        vehicle_width_in: fx(69.3),
        vehicle_height_in: fx(57.9),
        fuel_tank_gal: fx(11.4),
        ess_max_kwh: fx(8.8),
        mc_max_kw: fx(71.0),
        ess_max_kw: fx(19.0),
        fc_max_kw: Some(fx(19.95)),
    }
}

fn electric_inputs() -> OtherVehicleInputs {
    OtherVehicleInputs {
        vehicle_width_in: fx(74.0),
        vehicle_height_in: fx(61.0),
        fuel_tank_gal: fx(0.0),
        ess_max_kwh: fx(77.4),
        mc_max_kw: fx(0.0),
        ess_max_kw: fx(0.0),
        fc_max_kw: None,
    }
}

fn with_type(alt: &str) -> VehicleDataFE {
    let mut fe = camry_fe();
    fe.alt_veh_type = String::from(alt);
    fe
}

#[test]
fn test_create_new_vehicle_from_input_data() {
    let veh_record = camry_record();
    let fegov_data = camry_fe();
    let epatest_data = camry_epa();
    let other_inputs = vir_to_other_inputs(&veh_record);
    let v = try_make_single_vehicle(&fegov_data, &epatest_data, &other_inputs);
    assert!(v.is_some());
    if let Some(vs) = v {
        assert_eq!(vs.scenario_name, String::from("2020 Toyota Camry"));
        assert_eq!(vs.val_comb_mpgge, Some(fx(26.0)));
    }
}

#[test]
fn conventional_power_is_the_rated_power() {
    let kw = rated_power_kw(169);
    assert_eq!(kw, Fixed::from_raw(226_632_694_112));
    assert!(close(kw, 169.0 / 0.7457, 1e-8));
    assert!(close(kw, 226.6, 0.05));
    let veh =
        try_make_single_vehicle(&camry_fe(), &corolla_epa(), &vir_to_other_inputs(&camry_record()))
            .unwrap();
    assert_eq!(veh.fc_max_kw, kw);
    assert_eq!(veh.veh_pt_type, "Conv");
    assert_eq!(veh.mc_max_kw, fx(0.0));
    assert_eq!(veh.ess_max_kw, fx(0.0));
    assert_eq!(veh.ess_max_kwh, fx(0.0));
}

#[test]
fn powertrain_of_the_label_type() {
    assert_eq!(powertrain_of_label(""), Powertrain::Conventional);
    assert_eq!(powertrain_of_label("Hybrid"), Powertrain::Hybrid);
    assert_eq!(powertrain_of_label("Plug-in Hybrid"), Powertrain::PlugInHybrid);
    assert_eq!(powertrain_of_label("EV"), Powertrain::BatteryElectric);
    assert_eq!(powertrain_of_label("FCV"), Powertrain::Conventional);
    assert_eq!(powertrain_of_label("hybrid"), Powertrain::Conventional);
}

#[test]
fn powertrain_of_the_vehicle_tag() {
    assert_eq!(powertrain_of_tag("Conv"), Ok(Powertrain::Conventional));
    assert_eq!(powertrain_of_tag("HEV"), Ok(Powertrain::Hybrid));
    assert_eq!(powertrain_of_tag("PHEV"), Ok(Powertrain::PlugInHybrid));
    assert_eq!(powertrain_of_tag("BEV"), Ok(Powertrain::BatteryElectric));
    assert_eq!(powertrain_of_tag(""), Err(MatchError::InvalidPowertrainTag));
    assert_eq!(powertrain_of_tag("EV"), Err(MatchError::InvalidPowertrainTag));
    assert_eq!(Powertrain::PlugInHybrid.tag(), "PHEV");
    assert_eq!(
        powertrain_policy_of_tag(
            "Diesel",
            &camry_epa(),
            &camry_fe(),
            &hybrid_inputs(),
            Recipe::Listed
        ),
        Err(MatchError::InvalidPowertrainTag)
    );
}

#[test]
fn table_for_a_conventional_vehicle() {
    let p = powertrain_policy(
        Powertrain::Conventional,
        &camry_epa(),
        &camry_fe(),
        &hybrid_inputs(),
        Recipe::Listed,
    );
    assert_eq!(p.fs_max_kw, fx(2000.0));
    assert_eq!(p.fc_max_kw, rated_power_kw(301));
    assert_eq!(p.fc_eff_type, CurveFamily::SparkIgnition);
    assert_eq!(p.mc_max_kw, fx(0.0));
    assert_eq!((p.min_soc, p.max_soc), (fx(0.1), fx(0.95)));
    assert_eq!(p.ess_dischg_to_fc_max_eff_perc, fx(0.0));
    assert_eq!(p.mph_fc_on, fx(55.0));
    assert_eq!(p.kw_demand_fc_on, fx(100.0));
    assert_eq!(p.aux_kw, fx(0.7));
    assert_eq!(p.trans_eff, fx(0.92));
    assert_eq!(p.ess_max_kw, fx(0.0));
    assert_eq!(p.ess_max_kwh, fx(0.0));
    assert_eq!(p.val_range_miles, fx(0.0));
}

#[test]
fn table_for_a_hybrid() {
    let p = powertrain_policy(
        Powertrain::Hybrid,
        &camry_epa(),
        &camry_fe(),
        &hybrid_inputs(),
        Recipe::Listed,
    );
    assert_eq!(p.fs_max_kw, fx(2000.0));
    assert_eq!(p.fc_max_kw, fx(19.95));
    assert_eq!(p.fc_eff_type, CurveFamily::Atkinson);
    assert_eq!(p.mc_max_kw, fx(71.0));
    assert_eq!((p.min_soc, p.max_soc), (fx(0.4), fx(0.8)));
    assert_eq!(p.ess_dischg_to_fc_max_eff_perc, fx(0.0));
    assert_eq!(p.mph_fc_on, fx(1.0));
    assert_eq!(p.kw_demand_fc_on, fx(100.0));
    assert_eq!(p.aux_kw, fx(0.5));
    assert_eq!(p.trans_eff, fx(0.95));
    assert_eq!(p.ess_max_kw, fx(19.0));
    assert_eq!(p.ess_max_kwh, fx(8.8));
    assert_eq!(p.val_range_miles, fx(0.0));
    // Without a stated power, the fuel converter has the rated power.
    let mut inputs = hybrid_inputs();
    inputs.fc_max_kw = None;
    let p =
        powertrain_policy(Powertrain::Hybrid, &camry_epa(), &camry_fe(), &inputs, Recipe::Listed);
    assert_eq!(p.fc_max_kw, rated_power_kw(301));
}

#[test]
fn table_for_a_plug_in_hybrid() {
    let p = powertrain_policy(
        Powertrain::PlugInHybrid,
        &camry_epa(),
        &camry_fe(),
        &hybrid_inputs(),
        Recipe::Listed,
    );
    assert_eq!(p.fs_max_kw, fx(2000.0));
    assert_eq!(p.fc_max_kw, fx(19.95));
    assert_eq!(p.fc_eff_type, CurveFamily::Atkinson);
    assert_eq!(p.mc_max_kw, fx(71.0));
    assert_eq!((p.min_soc, p.max_soc), (fx(0.15), fx(0.9)));
    assert_eq!(p.ess_dischg_to_fc_max_eff_perc, fx(1.0));
    assert_eq!(p.mph_fc_on, fx(85.0));
    assert_eq!(p.kw_demand_fc_on, fx(120.0));
    assert_eq!(p.aux_kw, fx(0.3));
    assert_eq!(p.trans_eff, fx(0.98));
    assert_eq!(p.ess_max_kw, fx(19.0));
    assert_eq!(p.val_range_miles, fx(0.0));
    let p = powertrain_policy(
        Powertrain::PlugInHybrid,
        &camry_epa(),
        &camry_fe(),
        &hybrid_inputs(),
        Recipe::Prompted,
    );
    assert_eq!(p.trans_eff, fx(0.95));
}

#[test]
fn table_for_a_battery_electric_vehicle() {
    let mut fe = camry_fe();
    fe.range_ev = 310;
    let p = powertrain_policy(
        Powertrain::BatteryElectric,
        &camry_epa(),
        &fe,
        &electric_inputs(),
        Recipe::Listed,
    );
    assert_eq!(p.fs_max_kw, fx(0.0));
    assert_eq!(p.fc_max_kw, fx(0.0));
    assert_eq!(p.fc_eff_type, CurveFamily::SparkIgnition);
    assert_eq!(p.mc_max_kw, rated_power_kw(301));
    assert_eq!((p.min_soc, p.max_soc), (fx(0.05), fx(0.98)));
    assert_eq!(p.ess_dischg_to_fc_max_eff_perc, fx(0.0));
    assert_eq!(p.mph_fc_on, fx(1.0));
    assert_eq!(p.kw_demand_fc_on, fx(100.0));
    assert_eq!(p.aux_kw, fx(0.25));
    assert_eq!(p.trans_eff, fx(0.98));
    assert!(close(p.ess_max_kw, 1.05 * 301.0 / 0.7457, 1e-6));
    assert_eq!(p.ess_max_kwh, fx(77.4));
    assert_eq!(p.val_range_miles, fx(310.0));
}

#[test]
fn planned_vehicle_takes_the_records_and_inputs() {
    let inputs = vir_to_other_inputs(&camry_record());
    let veh = plan_vehicle(&camry_fe(), &camry_epa(), &inputs, Recipe::Listed);
    assert_eq!(veh.scenario_name, "2020 Toyota Camry");
    assert_eq!(veh.veh_year, 2020);
    assert_eq!(veh.veh_pt_type, "Conv");
    assert_eq!(veh.fc_eff_type, "SI");
    assert_eq!(veh.fc_eff_map.to_vec(), spark_ignition_eff());
    assert_eq!(veh.mc_eff_map.to_vec(), traction_motor_eff());
    assert_eq!(veh.veh_cg_m, fx(0.53));
    assert!(!veh.stop_start);
    assert_eq!(veh.drag_coef, fx(0.0));
    assert_eq!(veh.wheel_rr_coef, fx(0.0));
    assert_eq!(veh.val_udds_mpgge, Some(fx(22.0)));
    assert_eq!(veh.val_hwy_mpgge, Some(fx(33.0)));
    assert_eq!(veh.val_comb_mpgge, Some(fx(26.0)));
    assert_eq!(veh.val_range_miles, Some(fx(0.0)));
    assert_eq!(veh.val_msrp, None);
    assert_eq!(veh.mc_peak_eff_override, Some(fx(0.95)));
    assert_eq!(veh.fc_peak_eff_override, None);
    assert!(close(veh.frontal_area_m2, 72.4 * 56.9 / (39.37 * 39.37), 1e-7));
    assert!(close(veh.fs_kwh, 15.8 * 33.7, 1e-7));
    assert!(close(veh.idle_fc_kw, 301.0 / 0.7457 / 100.0, 1e-7));
    let fc_max_kw = 301.0 / 0.7457;
    let glider = 3875.0 / 2.2
        - 136.0
        - 114.0
        - 1.4 * (2000.0 / 9.89 + (61.0 + fc_max_kw / 2.13) + 21.6 + 75.0);
    assert!(close(veh.glider_kg, glider, 1e-5));
}

#[test]
fn prompted_vehicle_counts_part_of_the_frontal_area() {
    let inputs = vir_to_other_inputs(&camry_record());
    let veh = plan_vehicle(&camry_fe(), &camry_epa(), &inputs, Recipe::Prompted);
    assert!(close(veh.frontal_area_m2, 0.85 * 72.4 * 56.9 / (39.37 * 39.37), 1e-7));
    assert_eq!(veh.mc_eff_map.to_vec(), vec![fx(0.0); 11]);
    assert_eq!(veh.max_roadway_chg_kw.len(), 0);
}

#[test]
fn centre_of_gravity_is_forward_for_front_wheel_drive_only() {
    let inputs = vir_to_other_inputs(&camry_record());
    let mut fe = camry_fe();
    for drive in ["Rear-Wheel Drive", "All-Wheel Drive", "4-Wheel Drive", ""] {
        fe.drive = String::from(drive);
        let veh = plan_vehicle(&fe, &camry_epa(), &inputs, Recipe::Listed);
        assert_eq!(veh.veh_cg_m, fx(-0.53));
    }
}

#[test]
fn stop_start_comes_from_the_label() {
    let inputs = vir_to_other_inputs(&camry_record());
    let mut fe = camry_fe();
    fe.start_stop = String::from("Y");
    assert!(plan_vehicle(&fe, &camry_epa(), &inputs, Recipe::Listed).stop_start);
}

#[test]
fn hybrid_and_electric_vehicles_derive() {
    let veh = derive_vehicle(&with_type("Hybrid"), &camry_epa(), &hybrid_inputs(), Recipe::Listed)
        .unwrap();
    assert_eq!(veh.veh_pt_type, "HEV");
    assert_eq!(veh.fc_eff_type, "Atkinson");
    assert_eq!(veh.fc_eff_map.to_vec(), atkinson_eff());
    assert!(veh.veh_kg.raw > 0);
    let veh = derive_vehicle(
        &with_type("Plug-in Hybrid"),
        &camry_epa(),
        &hybrid_inputs(),
        Recipe::Listed,
    )
    .unwrap();
    assert_eq!(veh.veh_pt_type, "PHEV");
    assert_eq!(veh.fc_eff_type, "Atkinson");
    assert_eq!(veh.fc_eff_map.to_vec(), atkinson_eff());
    let veh =
        derive_vehicle(&with_type("EV"), &camry_epa(), &electric_inputs(), Recipe::Listed).unwrap();
    assert_eq!(veh.veh_pt_type, "BEV");
    assert_eq!(veh.fc_eff_type, "SI");
    assert_eq!(veh.fc_eff_map.to_vec(), spark_ignition_eff());
    assert_eq!(veh.fs_kwh, fx(0.0));
    assert_eq!(veh.fc_mass_kg, fx(0.0));
    assert!(veh.mc_mass_kg.raw > 0);
    // The test weight is met: the masses sum to 4500 lbs less rounding, as the
    // glider is what is left of it.  Here the test weight is 3875 lbs.
    assert!(close(veh.veh_kg, 3875.0 / 2.2 + 114.0 * 0.4 - 1.4 * (61.0), 1e-4));
}

#[test]
fn electric_vehicle_with_a_fuel_tank_fails_the_check() {
    let mut inputs = electric_inputs();
    inputs.fuel_tank_gal = fx(10.0);
    let r = derive_vehicle(&with_type("EV"), &camry_epa(), &inputs, Recipe::Listed);
    assert_eq!(
        r.err(),
        Some(MatchError::Integrity(IntegrityViolation {
            check: IntegrityCheck::ElectricFuelStorageEnergy,
            value: fx(10.0).times(fx(33.7)),
        }))
    );
    assert!(try_make_single_vehicle(&with_type("EV"), &camry_epa(), &inputs).is_none());
    // Where the caller was asked, an electric vehicle was not asked for a tank.
    assert!(derive_vehicle(&with_type("EV"), &camry_epa(), &inputs, Recipe::Prompted).is_ok());
}

#[test]
fn empty_test_record_gives_no_vehicle() {
    let inputs = vir_to_other_inputs(&camry_record());
    let r = derive_vehicle(&camry_fe(), &VehicleDataEPA::default(), &inputs, Recipe::Listed);
    assert_eq!(r.err(), Some(MatchError::NoCandidates));
    assert!(try_make_single_vehicle(&camry_fe(), &VehicleDataEPA::default(), &inputs).is_none());
}

#[test]
fn match_and_derive_from_the_test_records() {
    let inputs = vir_to_other_inputs(&camry_record());
    // The label says "Automatic (S8)"; the record's type "Automatic" begins it.
    let found = match_and_derive(&camry_fe(), &[camry_epa()], &inputs).unwrap();
    assert_eq!(found.vehicle.scenario_name, "2020 Toyota Camry");
    assert_eq!(found.vehicle.fc_max_kw, rated_power_kw(301));
    assert_eq!(found.test_record, camry_epa());
    // By the code alone the record does not agree.
    assert_eq!(
        vehicle_import_from_id(&camry_fe(), &[camry_epa()], &inputs).err(),
        Some(MatchError::NoCandidates)
    );
    let mut semi = camry_epa();
    semi.trany_code = String::from("SA");
    let found = vehicle_import_from_id(&camry_fe(), &[semi.clone()], &inputs).unwrap();
    assert_eq!(found.vehicle.mc_eff_map.len(), 11);
    assert_eq!(found.test_record, semi);
    let found = vehicle_import(&camry_fe(), &[semi], &inputs).unwrap();
    assert!(close(found.vehicle.frontal_area_m2, 0.85 * 72.4 * 56.9 / (39.37 * 39.37), 1e-7));
}

#[test]
fn match_and_derive_reports_why_there_is_no_vehicle() {
    let inputs = vir_to_other_inputs(&camry_record());
    assert_eq!(
        match_and_derive(&camry_fe(), &[], &inputs).err(),
        Some(MatchError::NoCandidates)
    );
    assert_eq!(
        match_and_derive(&camry_fe(), &[corolla_epa()], &inputs).err(),
        Some(MatchError::NoCandidates)
    );
    let mut fe = camry_fe();
    fe.trany = String::from("Automatic");
    assert_eq!(
        match_and_derive(&fe, &[camry_epa()], &inputs).err(),
        Some(MatchError::Parse(ParseError::Pattern))
    );
    let mut inputs = inputs;
    inputs.ess_max_kw = fx(1.0);
    inputs.ess_max_kwh = fx(1.0);
    inputs.mc_max_kw = fx(1.0);
    // A conventional vehicle takes no battery from the inputs, so it still derives.
    assert!(match_and_derive(&camry_fe(), &[camry_epa()], &inputs).is_ok());
}

#[test]
fn scenario_name_is_year_make_and_model() {
    let mut fe = camry_fe();
    assert_eq!(scenario_name_of(&fe), "2020 Toyota Camry");
    fe.year = 0;
    fe.make = String::new();
    fe.model = String::from("EV6 RWD (Long Range)");
    assert_eq!(scenario_name_of(&fe), "0  EV6 RWD (Long Range)");
    fe.year = 4294967295;
    assert_eq!(scenario_name_of(&fe), "4294967295  EV6 RWD (Long Range)");
}

#[test]
fn prompts_by_kind_of_powertrain() {
    assert_eq!(
        prompts_for(Powertrain::Conventional),
        vec![Prompt::VehicleWidth, Prompt::VehicleHeight, Prompt::FuelTank]
    );
    assert_eq!(
        prompts_for(Powertrain::BatteryElectric),
        vec![Prompt::VehicleWidth, Prompt::VehicleHeight, Prompt::BatteryEnergy]
    );
    let hybrid = vec![
        Prompt::VehicleWidth,
        Prompt::VehicleHeight,
        Prompt::FuelTank,
        Prompt::BatteryEnergy,
        Prompt::FuelConverterPower,
        Prompt::MotorPower,
        Prompt::BatteryPower,
    ];
    assert_eq!(prompts_for(Powertrain::Hybrid), hybrid);
    assert_eq!(prompts_for(Powertrain::PlugInHybrid), hybrid);
    assert_eq!(Prompt::VehicleWidth.words(), "Please enter vehicle width in inches:");
    assert_eq!(Prompt::BatteryPower.words(), "Please enter battery power in kW:");
}

#[test]
fn inputs_from_the_answers_to_the_prompts() {
    let answers: Vec<Fixed> = [69.3, 57.9, 11.4, 8.8, 71.0, 19.0, 19.95].iter().map(|x| fx(*x)).collect();
    assert_eq!(
        inputs_of_answers(Powertrain::PlugInHybrid, &answers),
        Some(OtherVehicleInputs {
            vehicle_width_in: fx(69.3),
            vehicle_height_in: fx(57.9),
            fuel_tank_gal: fx(11.4),
            ess_max_kwh: fx(8.8),
            mc_max_kw: fx(19.0),
            ess_max_kw: fx(19.95),
            fc_max_kw: Some(fx(71.0)),
        })
    );
    let answers: Vec<Fixed> = [74.0, 61.0, 77.4].iter().map(|x| fx(*x)).collect();
    assert_eq!(
        inputs_of_answers(Powertrain::BatteryElectric, &answers),
        Some(OtherVehicleInputs {
            vehicle_width_in: fx(74.0),
            vehicle_height_in: fx(61.0),
            fuel_tank_gal: fx(0.0),
            ess_max_kwh: fx(77.4),
            mc_max_kw: fx(0.0),
            ess_max_kw: fx(0.0),
            fc_max_kw: None,
        })
    );
    let answers: Vec<Fixed> = [72.8, 56.3, 15.9].iter().map(|x| fx(*x)).collect();
    assert_eq!(
        inputs_of_answers(Powertrain::Conventional, &answers),
        Some(OtherVehicleInputs {
            vehicle_width_in: fx(72.8),
            vehicle_height_in: fx(56.3),
            fuel_tank_gal: fx(15.9),
            ess_max_kwh: fx(0.0),
            mc_max_kw: fx(0.0),
            ess_max_kw: fx(0.0),
            fc_max_kw: None,
        })
    );
    assert_eq!(inputs_of_answers(Powertrain::Hybrid, &answers), None);
    assert_eq!(inputs_of_answers(Powertrain::Conventional, &vec![]), None);
}
