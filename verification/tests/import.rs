use fastsim_vehicle::derive::MatchError;
use fastsim_vehicle::fixed::Fixed;
use fastsim_vehicle::import::{
    determine_model_years_of_interest, extract_vehicle, find_by_id,
    get_fuel_economy_gov_data_for_input_record, get_options_for_year_make_model, key_of,
    import_all_vehicles_from_record, listed_name_of, option_index, try_import_vehicles,
    vehicle_import_by_id_and_year, vir_to_other_inputs, write_common_drive,
};
use fastsim_vehicle::records::{
    EmissionsInfoFE, EmissionsListFE, OtherVehicleInputs, VehicleDataEPA, VehicleDataFE,
    VehicleInputRecord,
};
use fastsim_vehicle::vehicle::RustVehicle;
use std::collections::{HashMap, HashSet};

fn fx(x: f64) -> Fixed {
    Fixed::from_raw((x * 1e9).round() as i64)
}

fn c(s: &str) -> Vec<char> {
    s.chars().collect()
}

fn camry_record() -> VehicleInputRecord {
    VehicleInputRecord {
        make: String::from("Toyota"),
        model: String::from("Camry"),
        year: 2020,
        output_file_name: String::from("2020-toyota-camry.yaml"),
        vehicle_width_in: fx(72.4),
        vehicle_height_in: fx(56.9),
        fuel_tank_gal: fx(15.8),
        ess_max_kwh: fx(0.0),
        mc_max_kw: fx(0.0),
        ess_max_kw: fx(0.0),
        fc_max_kw: None,
    }
}

fn camry_fe() -> VehicleDataFE {
    VehicleDataFE {
        id: 32204,
        alt_veh_type: String::from(""),
        city_mpg_fuel1: 22,
        city_mpg_fuel2: 0,
        co2_g_per_mi: 338,
        comb_mpg_fuel1: 26,
        comb_mpg_fuel2: 0,
        cylinders: String::from("6"),
        displ: String::from("3.5"),
        drive: String::from("Front-Wheel Drive"),
        emissions_list: EmissionsListFE {
            emissions_info: vec![EmissionsInfoFE {
                efid: String::from("LTYXV03.5M5B"),
                score: fx(5.0),
                smartway_score: -1,
                standard: String::from("L3ULEV70"),
                std_text: String::from("California LEV-III ULEV70"),
            }],
        },
        eng_dscr: String::from("SIDI & PFI"),
        ev_motor_kw: String::from(""),
        fe_score: 5,
        fuel_type: String::from("Regular"),
        fuel1: String::from("Regular Gasoline"),
        fuel2: String::from(""),
        ghg_score: 5,
        highway_mpg_fuel1: 33,
        highway_mpg_fuel2: 0,
        make: String::from("Toyota"),
        mfr_code: String::from("TYX"),
        model: String::from("Camry"),
        phev_blended: false,
        phev_city_mpge: 0,
        phev_comb_mpge: 0,
        phev_hwy_mpge: 0,
        range_ev: 0,
        start_stop: String::from("N"),
        trany: String::from("Automatic (S8)"),
        veh_class: String::from("Midsize Cars"),
        year: 2020,
        super_charge: String::from(""),
        turbo_charge: String::from(""),
    }
}

fn camry_four_fe() -> VehicleDataFE {
    let mut fe = camry_fe();
    fe.id = 32205;
    fe.emissions_list.emissions_info[0].efid = String::from("LTYXV02.5P3A");
    fe.cylinders = String::from("4");
    fe.displ = String::from("2.5");
    fe
}

fn camry_epa() -> VehicleDataEPA {
    VehicleDataEPA {
        year: 2020,
        mfr_code: String::from("TXY"),
        make: String::from("TOYOTA"),
        model: String::from("CAMRY"),
        test_id: String::from("JTYXV03.5M5B"),
        displ: fx(3.456),
        eng_pwr_hp: 301,
        cylinders: String::from("6"),
        trany_code: String::from("A"),
        trany_type: String::from("Automatic"),
        gears: 8,
        drive_code: String::from("F"),
        drive: String::from("2-Wheel Drive, Front"),
        test_weight_lbs: fx(3875.0),
        test_fuel_type: String::from("61"),
        a_lbf: fx(24.843),
        b_lbf_per_mph: fx(0.40298),
        c_lbf_per_mph2: fx(0.015068),
    }
}

fn camry_four_epa() -> VehicleDataEPA {
    let mut epa = camry_epa();
    epa.test_id = String::from("LTYXV02.5P3A");
    epa.displ = fx(2.487);
    epa.eng_pwr_hp = 203;
    epa.cylinders = String::from("4");
    epa.test_weight_lbs = fx(3625.0);
    epa
}

#[test]
fn other_inputs_of_a_line() {
    let inputs = vir_to_other_inputs(&camry_record());
    assert_eq!(
        inputs,
        OtherVehicleInputs {
            vehicle_width_in: fx(72.4),
            vehicle_height_in: fx(56.9),
            fuel_tank_gal: fx(15.8),
            ess_max_kwh: fx(0.0),
            mc_max_kw: fx(0.0),
            ess_max_kw: fx(0.0),
            fc_max_kw: None,
        }
    );
}

#[test]
fn makes_and_models_compare_in_lower_case_without_outer_space() {
    assert_eq!(key_of("  Toyota "), c("toyota"));
    assert_eq!(key_of("Prius Prime"), c("prius prime"));
    assert_eq!(key_of(" \t\n"), c(""));
    assert_eq!(key_of(""), c(""));
}

#[test]
fn label_records_of_a_line() {
    let mut other_year = camry_fe();
    other_year.year = 2019;
    let mut other_model = camry_fe();
    other_model.model = String::from("Camry Hybrid");
    let mut spelled = camry_fe();
    spelled.make = String::from(" TOYOTA");
    spelled.model = String::from("camry ");
    let fegov = vec![other_year, camry_fe(), other_model, spelled.clone(), camry_four_fe()];
    assert_eq!(
        get_fuel_economy_gov_data_for_input_record(&camry_record(), &fegov),
        vec![camry_fe(), spelled, camry_four_fe()]
    );
    assert_eq!(get_fuel_economy_gov_data_for_input_record(&camry_record(), &[]), vec![]);
}

#[test]
fn options_of_a_make_and_model() {
    let mut spelled = camry_fe();
    spelled.make = String::from("TOYOTA");
    let fegov = vec![camry_fe(), spelled, camry_four_fe()];
    assert_eq!(
        get_options_for_year_make_model(&fegov, "Toyota", "Camry"),
        vec![camry_fe(), camry_four_fe()]
    );
    assert_eq!(get_options_for_year_make_model(&fegov, "Toyota", "Corolla"), vec![]);
}

#[test]
fn names_in_a_list() {
    assert_eq!(
        listed_name_of("2020 Toyota Camry", &camry_fe()),
        "2020 Toyota Camry (  6 cylinders, 3.5 L, Automatic (S8) )"
    );
    let mut hybrid = camry_fe();
    hybrid.alt_veh_type = String::from("Hybrid");
    assert_eq!(
        listed_name_of("2020 Toyota Camry", &hybrid),
        "2020 Toyota Camry ( Hybrid,  6 cylinders, 3.5 L, Automatic (S8) )"
    );
    let mut electric = camry_fe();
    electric.alt_veh_type = String::from("EV");
    assert_eq!(listed_name_of("2022 Kia EV6", &electric), "2022 Kia EV6 (EV)");
}

#[test]
fn vehicles_of_a_line() {
    let fegov = vec![camry_fe(), camry_four_fe()];
    let epa = vec![camry_four_epa(), camry_epa()];
    let vehs = try_import_vehicles(&camry_record(), &fegov, &epa);
    assert_eq!(vehs.len(), 2);
    assert_eq!(
        vehs[0].vehicle.scenario_name,
        "2020 Toyota Camry (  6 cylinders, 3.5 L, Automatic (S8) )"
    );
    assert_eq!(
        vehs[1].vehicle.scenario_name,
        "2020 Toyota Camry (  4 cylinders, 2.5 L, Automatic (S8) )"
    );
    assert!(vehs[0].vehicle.fc_max_kw.raw > vehs[1].vehicle.fc_max_kw.raw);
    assert_eq!(vehs[0].test_record, camry_epa());
    assert_eq!(vehs[1].test_record, camry_four_epa());
}

#[test]
fn vehicle_that_cannot_be_made_is_passed_over() {
    let mut unreadable = camry_fe();
    unreadable.trany = String::from("Automatic");
    let mut unmatched = camry_fe();
    unmatched.cylinders = String::from("8");
    let fegov = vec![unreadable, camry_fe(), unmatched];
    let vehs = try_import_vehicles(&camry_record(), &fegov, &[camry_epa()]);
    assert_eq!(vehs.len(), 1);
    assert_eq!(try_import_vehicles(&camry_record(), &fegov, &[]).len(), 0);
}

#[test]
fn vehicles_of_all_lines() {
    let mut fegov = HashMap::new();
    fegov.insert(2020, vec![camry_fe(), camry_four_fe()]);
    fegov.insert(2021, vec![camry_fe()]);
    let mut epa = HashMap::new();
    epa.insert(2020, vec![camry_epa(), camry_four_epa()]);
    let mut next_year = camry_record();
    next_year.year = 2021;
    let mut no_year = camry_record();
    no_year.year = 2019;
    let mut corolla = camry_record();
    corolla.model = String::from("Corolla");
    let inputs = vec![no_year, camry_record(), next_year, corolla, camry_record()];
    let vehs = import_all_vehicles_from_record(&inputs, &fegov, &epa);
    assert_eq!(vehs.len(), 4);
    assert_eq!(vehs[0].vehicle.scenario_name, vehs[2].vehicle.scenario_name);
    assert_eq!(vehs[1].vehicle.scenario_name, vehs[3].vehicle.scenario_name);
    assert_eq!(vehs[3].test_record, camry_four_epa());
    assert_eq!(import_all_vehicles_from_record(&[], &fegov, &epa).len(), 0);
}

#[test]
fn vehicle_by_identifier() {
    let fegov = vec![camry_fe(), camry_four_fe()];
    let epa = vec![camry_epa(), camry_four_epa()];
    let inputs = vir_to_other_inputs(&camry_record());
    assert_eq!(find_by_id(&fegov, 32205), Some(1));
    assert_eq!(find_by_id(&fegov, 1), None);
    let found = vehicle_import_by_id_and_year(32205, &fegov, &epa, &inputs).unwrap();
    assert_eq!(found.vehicle.scenario_name, "2020 Toyota Camry");
    assert_eq!(found.vehicle.fc_max_kw, fx(203.0).over(fx(0.7457)));
    assert_eq!(found.test_record, camry_four_epa());
    assert_eq!(
        vehicle_import_by_id_and_year(1, &fegov, &epa, &inputs).err(),
        Some(MatchError::NoCandidates)
    );
    // The records of the vehicle's certificate are searched where their best
    // name is the best name overall, so a record of another certificate is lost.
    assert_eq!(
        vehicle_import_by_id_and_year(32204, &fegov, &[camry_four_epa(), camry_epa()], &inputs)
            .map(|found| found.vehicle.fc_max_kw),
        Ok(fx(301.0).over(fx(0.7457)))
    );
    assert_eq!(
        vehicle_import_by_id_and_year(32205, &fegov, &[camry_epa()], &inputs).err(),
        Some(MatchError::NoCandidates)
    );
}

#[test]
fn model_years_of_a_list() {
    let mut next_year = camry_record();
    next_year.year = 2021;
    let years = determine_model_years_of_interest(&[camry_record(), next_year, camry_record()]);
    assert_eq!(years, HashSet::from([2020, 2021]));
    assert!(determine_model_years_of_interest(&[]).is_empty());
}

#[test]
fn extract_gives_the_reference_vehicle() {
    let veh = extract_vehicle(&camry_record(), &[camry_fe()], &[camry_epa()]).unwrap();
    assert_eq!(veh.veh_pt_type, RustVehicle::default().veh_pt_type);
    assert_eq!(veh.cargo_kg, fx(136.0));
    assert!(extract_vehicle(&camry_record(), &[], &[camry_epa()]).is_none());
    assert!(extract_vehicle(&camry_record(), &[camry_fe()], &[]).is_none());
}

#[test]
fn four_wheel_drive_is_written_as_all_wheel_drive() {
    let mut fe = camry_fe();
    fe.drive = String::from("4-Wheel Drive");
    write_common_drive(&mut fe);
    assert_eq!(fe.drive, "All-Wheel Drive");
    fe.drive = String::from("Part-time 4-Wheel Drive");
    write_common_drive(&mut fe);
    assert_eq!(fe.drive, "All-Wheel Drive");
    fe.drive = String::from("Front-Wheel Drive");
    write_common_drive(&mut fe);
    assert_eq!(fe.drive, "Front-Wheel Drive");
}

#[test]
fn option_that_is_asked_for() {
    assert_eq!(option_index(0, 3), Some(0));
    assert_eq!(option_index(2, 3), Some(2));
    assert_eq!(option_index(3, 3), Some(2));
    assert_eq!(option_index(99, 1), Some(0));
    assert_eq!(option_index(0, 0), None);
}
