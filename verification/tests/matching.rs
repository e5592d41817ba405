use fastsim_vehicle::fixed::Fixed;
use fastsim_vehicle::matching::{
    agrees, best_match_group, best_model_name, get_epa_data, match_epatest_with_fegov,
    name_words_of, normalize, reconcile,
};
use fastsim_vehicle::records::{EmissionsInfoFE, EmissionsListFE, VehicleDataEPA, VehicleDataFE};
use fastsim_vehicle::transmission::{ParseError, TransmissionType};

fn fx(x: f64) -> Fixed {
    Fixed::from_raw((x * 1e9).round() as i64)
}

fn c(s: &str) -> Vec<char> {
    s.chars().collect()
}

fn emissions(efid: &str) -> EmissionsListFE {
    EmissionsListFE {
        emissions_info: vec![EmissionsInfoFE {
            efid: String::from(efid),
            score: fx(5.0),
            smartway_score: -1,
            standard: String::from("T3B70"),
            std_text: String::from("Federal Tier 3 Bin 70"),
        }],
    }
}

fn volvo_s60_b5_awd_fe() -> VehicleDataFE {
    VehicleDataFE {
        id: 1,
        alt_veh_type: String::new(),
        city_mpg_fuel1: 25,
        city_mpg_fuel2: 0,
        co2_g_per_mi: 316,
        comb_mpg_fuel1: 28,
        comb_mpg_fuel2: 0,
        cylinders: String::from("4"),
        displ: String::from("2.0"),
        drive: String::from("All-Wheel Drive"),
        emissions_list: emissions("NVVXJ02.0U73"),
        eng_dscr: String::from("SIDI"),
        ev_motor_kw: String::new(),
        fe_score: 6,
        fuel_type: String::from("Premium"),
        fuel1: String::from("Premium Gasoline"),
        fuel2: String::new(),
        ghg_score: 6,
        highway_mpg_fuel1: 33,
        highway_mpg_fuel2: 0,
        make: String::from("Volvo"),
        mfr_code: String::from("VVX"),
        model: String::from("S60 B5 AWD"),
        phev_blended: false,
        phev_city_mpge: 0,
        phev_comb_mpge: 0,
        phev_hwy_mpge: 0,
        range_ev: 0,
        start_stop: String::from("Y"),
        trany: String::from("Automatic (S8)"),
        veh_class: String::from("Compact Cars"),
        year: 2022,
        super_charge: String::new(),
        turbo_charge: String::from("T"),
    }
}

fn corolla_manual_fe() -> VehicleDataFE {
    VehicleDataFE {
        id: 30000,
        alt_veh_type: String::new(),
        city_mpg_fuel1: 29,
        city_mpg_fuel2: 0,
        co2_g_per_mi: 277,
        comb_mpg_fuel1: 32,
        comb_mpg_fuel2: 0,
        cylinders: String::from("4"),
        displ: String::from("2.0"),
        drive: String::from("Front-Wheel Drive"),
        emissions_list: EmissionsListFE {
            emissions_info: vec![EmissionsInfoFE {
                efid: String::from("NTYXV02.0P3A"),
                score: fx(5.0),
                smartway_score: -1,
                standard: String::from("T3B30"),
                std_text: String::from("Federal Tier 3 Bin 30"),
            }],
        },
        eng_dscr: String::from("SIDI & PFI"),
        ev_motor_kw: String::new(),
        fe_score: 7,
        fuel_type: String::from("Regular"),
        fuel1: String::from("Regular Gasoline"),
        fuel2: String::new(),
        ghg_score: 7,
        highway_mpg_fuel1: 36,
        highway_mpg_fuel2: 0,
        make: String::from("Toyota"),
        mfr_code: String::from("TYX"),
        model: String::from("Corolla"),
        phev_blended: false,
        phev_city_mpge: 0,
        phev_comb_mpge: 0,
        phev_hwy_mpge: 0,
        range_ev: 0,
        start_stop: String::from("N"),
        trany: String::from("Manual 6-spd"),
        veh_class: String::from("Compact Cars"),
        year: 2022,
        super_charge: String::new(),
        turbo_charge: String::new(),
    }
}

fn ev6_rwd_long_range_fe() -> VehicleDataFE {
    VehicleDataFE {
        id: 1,
        alt_veh_type: String::from("EV"),
        city_mpg_fuel1: 134,
        city_mpg_fuel2: 0,
        co2_g_per_mi: 0,
        comb_mpg_fuel1: 117,
        comb_mpg_fuel2: 0,
        cylinders: String::new(),
        displ: String::new(),
        drive: String::from("Rear-Wheel Drive"),
        emissions_list: EmissionsListFE {
            emissions_info: vec![EmissionsInfoFE {
                efid: String::from("NKMXV00.0102"),
                score: fx(5.0),
                smartway_score: -1,
                standard: String::from("ZEV"),
                std_text: String::from("California ZEV"),
            }],
        },
        eng_dscr: String::new(),
        ev_motor_kw: String::from("168 kW PMSM"),
        fe_score: 10,
        fuel_type: String::from("Electricity"),
        fuel1: String::from("Electricity"),
        fuel2: String::new(),
        ghg_score: 10,
        highway_mpg_fuel1: 101,
        highway_mpg_fuel2: 0,
        make: String::from("Kia"),
        mfr_code: String::from("KMX"),
        model: String::from("EV6 RWD (Long Range)"),
        phev_blended: false,
        phev_city_mpge: 0,
        phev_comb_mpge: 0,
        phev_hwy_mpge: 0,
        range_ev: 310,
        start_stop: String::from("N"),
        trany: String::from("Automatic (A1)"),
        veh_class: String::from("Small Station Wagons"),
        year: 2022,
        super_charge: String::new(),
        turbo_charge: String::new(),
    }
}

fn volvo_s60_b5_awd_epa_truth() -> VehicleDataEPA {
    VehicleDataEPA {
        year: 2022,
        mfr_code: String::from("VVX"),
        make: String::from("Volvo"),
        model: String::from("S60 B5 AWD"),
        test_id: String::from("NVVXJ02.0U73"),
        displ: fx(1.969),
        eng_pwr_hp: 247,
        cylinders: String::from("4"),
        trany_code: String::from("SA"),
        trany_type: String::from("Semi-Automatic"),
        gears: 8,
        drive_code: String::from("A"),
        drive: String::from("All Wheel Drive"),
        test_weight_lbs: fx(4250.0),
        test_fuel_type: String::from("Tier 2 Cert Gasoline"),
        a_lbf: fx(33.920),
        b_lbf_per_mph: fx(0.15910),
        c_lbf_per_mph2: fx(0.017960),
    }
}

fn corolla_manual_epa_truth() -> VehicleDataEPA {
    VehicleDataEPA {
        year: 2022,
        mfr_code: String::from("TYX"),
        make: String::from("TOYOTA"),
        model: String::from("COROLLA"),
        test_id: String::from("LTYXV02.0N4B"),
        displ: fx(1.987),
        eng_pwr_hp: 169,
        cylinders: String::from("4"),
        trany_code: String::from("M"),
        trany_type: String::from("Manual"),
        gears: 6,
        drive_code: String::from("F"),
        drive: String::from("2-Wheel Drive, Front"),
        test_weight_lbs: fx(3375.0),
        test_fuel_type: String::from("Tier 2 Cert Gasoline"),
        a_lbf: fx(27.071),
        b_lbf_per_mph: fx(0.26485),
        c_lbf_per_mph2: fx(0.017466),
    }
}

fn ev6_rwd_long_range_epa_truth() -> VehicleDataEPA {
    VehicleDataEPA {
        year: 2022,
        mfr_code: String::from("KMX"),
        make: String::from("KIA"),
        model: String::from("EV6"),
        test_id: String::from("NKMXV00.0102"),
        displ: fx(0.001),
        eng_pwr_hp: 225,
        cylinders: String::new(),
        trany_code: String::from("A"),
        trany_type: String::from("Automatic"),
        gears: 1,
        drive_code: String::from("R"),
        drive: String::from("2-Wheel Drive, Rear"),
        test_weight_lbs: fx(4500.0),
        test_fuel_type: String::from("Electricity"),
        a_lbf: fx(23.313),
        b_lbf_per_mph: fx(0.11939),
        c_lbf_per_mph2: fx(0.022206),
    }
}

/// A small test data set of 2022 in which the three vehicles above stand among others.
fn epa_2022() -> Vec<VehicleDataEPA> {
    let mut volvo_raw = volvo_s60_b5_awd_epa_truth();
    volvo_raw.drive_code = String::from("F");
    volvo_raw.drive = String::from("2-Wheel Drive, Front");
    let mut volvo_cold = volvo_raw.clone();
    volvo_cold.test_fuel_type = String::from("Cold CO Premium (Tier 2)");
    let mut volvo_fwd = volvo_raw.clone();
    volvo_fwd.model = String::from("S60 B5");
    let mut corolla_auto = corolla_manual_epa_truth();
    corolla_auto.trany_code = String::from("CVT");
    corolla_auto.trany_type = String::from("Continuously Variable");
    corolla_auto.gears = 1;
    let mut corolla_hatch = corolla_manual_epa_truth();
    corolla_hatch.model = String::from("COROLLA HATCHBACK");
    let mut ev6_awd = ev6_rwd_long_range_epa_truth();
    ev6_awd.model = String::from("EV6 AWD");
    ev6_awd.drive_code = String::from("A");
    ev6_awd.drive = String::from("All Wheel Drive");
    ev6_awd.test_id = String::from("NKMXV00.0103");
    vec![
        volvo_cold,
        volvo_fwd,
        volvo_raw,
        corolla_auto,
        corolla_hatch,
        corolla_manual_epa_truth(),
        ev6_awd,
        ev6_rwd_long_range_epa_truth(),
    ]
}

#[test]
fn test_get_epa_data_awd_veh() {
    let volvo_s60_b5_awd_fe_truth = volvo_s60_b5_awd_fe();
    let volvo_s60_b5_awd_epa_data =
        get_epa_data(&volvo_s60_b5_awd_fe_truth, &epa_2022()).unwrap();
    println!(
        "Output: {} {} {} {}",
        volvo_s60_b5_awd_epa_data.year,
        volvo_s60_b5_awd_epa_data.make,
        volvo_s60_b5_awd_epa_data.model,
        volvo_s60_b5_awd_epa_data.test_id
    );
    assert_eq!(volvo_s60_b5_awd_epa_data, volvo_s60_b5_awd_epa_truth())
}

#[test]
fn test_get_epa_data_diff_test_id() {
    let corolla_manual_fe_truth = corolla_manual_fe();
    let corolla_manual_epa_data = get_epa_data(&corolla_manual_fe_truth, &epa_2022()).unwrap();
    println!(
        "Output: {} {} {} {}",
        corolla_manual_epa_data.year,
        corolla_manual_epa_data.make,
        corolla_manual_epa_data.model,
        corolla_manual_epa_data.test_id
    );
    assert_eq!(corolla_manual_epa_data, corolla_manual_epa_truth())
}

#[test]
fn test_get_epa_data_ev() {
    let ev6_rwd_long_range_fe_truth = ev6_rwd_long_range_fe();
    let ev6_rwd_long_range_epa_data =
        get_epa_data(&ev6_rwd_long_range_fe_truth, &epa_2022()).unwrap();
    println!(
        "Output: {} {} {} {}",
        ev6_rwd_long_range_epa_data.year,
        ev6_rwd_long_range_epa_data.make,
        ev6_rwd_long_range_epa_data.model,
        ev6_rwd_long_range_epa_data.test_id
    );
    assert_eq!(ev6_rwd_long_range_epa_data, ev6_rwd_long_range_epa_truth())
}

#[test]
fn match_agrees_with_get_epa_data_on_the_three_vehicles() {
    let records = epa_2022();
    assert_eq!(
        match_epatest_with_fegov(&volvo_s60_b5_awd_fe(), &records),
        Ok(volvo_s60_b5_awd_epa_truth())
    );
    assert_eq!(
        match_epatest_with_fegov(&corolla_manual_fe(), &records),
        Ok(corolla_manual_epa_truth())
    );
    assert_eq!(
        match_epatest_with_fegov(&ev6_rwd_long_range_fe(), &records),
        Ok(ev6_rwd_long_range_epa_truth())
    );
}

#[test]
fn name_words_are_upper_case_with_awd_for_4wd() {
    assert_eq!(name_words_of("Rav4 4WD"), vec![c("RAV4"), c("AWD")]);
    assert_eq!(name_words_of("S60 B5 AWD"), vec![c("S60"), c("B5"), c("AWD")]);
    assert_eq!(name_words_of(""), vec![c("")]);
}

#[test]
fn best_model_is_the_largest_share_of_matching_words() {
    let records = epa_2022();
    let fe = volvo_s60_b5_awd_fe();
    // "S60 B5 AWD" matches 3 of 3 words: 9/9; "S60 B5" matches 2 of 2: 4/6.
    assert_eq!(best_model_name(&records, &fe, false), c("S60 B5 AWD"));
    assert_eq!(best_model_name(&records, &fe, true), c("S60 B5 AWD"));
    let fe = corolla_manual_fe();
    // "COROLLA" 1/1 beats "COROLLA HATCHBACK" 1/2; no test group ends with the certificate.
    assert_eq!(best_model_name(&records, &fe, false), c("COROLLA"));
    assert_eq!(best_model_name(&records, &fe, true), c(""));
}

#[test]
fn best_model_of_nothing_is_empty() {
    let fe = corolla_manual_fe();
    assert_eq!(best_model_name(&[], &fe, false), c(""));
    let records = vec![ev6_rwd_long_range_epa_truth()];
    assert_eq!(best_model_name(&records, &fe, false), c(""));
    assert_eq!(best_match_group(&records, &fe), vec![]);
}

#[test]
fn first_of_tied_names_wins() {
    let mut a = corolla_manual_epa_truth();
    a.model = String::from("COROLLA SE");
    let mut b = corolla_manual_epa_truth();
    b.model = String::from("COROLLA LE");
    let fe = corolla_manual_fe();
    assert_eq!(best_model_name(&[a.clone(), b.clone()], &fe, false), c("COROLLA SE"));
    assert_eq!(best_model_name(&[b.clone(), a.clone()], &fe, false), c("COROLLA LE"));
    assert_eq!(best_match_group(&[a.clone(), b.clone(), a.clone()], &fe), vec![a.clone(), a]);
}

#[test]
fn certificate_group_is_taken_where_it_agrees_with_the_overall_best() {
    let fe = volvo_s60_b5_awd_fe();
    let with_cert = volvo_s60_b5_awd_epa_truth();
    let mut without_cert = volvo_s60_b5_awd_epa_truth();
    without_cert.test_id = String::from("NVVXJ02.0XXX");
    let records = vec![without_cert.clone(), with_cert.clone(), without_cert.clone()];
    assert_eq!(best_match_group(&records, &fe), vec![with_cert]);
    // Without a record of the certificate, all records of the best name are taken.
    let records = vec![without_cert.clone(), without_cert.clone()];
    assert_eq!(best_match_group(&records, &fe), vec![without_cert.clone(), without_cert]);
}

#[test]
fn first_character_of_the_certificate_is_left_out() {
    let fe = volvo_s60_b5_awd_fe();
    let mut other_first = volvo_s60_b5_awd_epa_truth();
    other_first.test_id = String::from("MVVXJ02.0U73");
    let mut longer = volvo_s60_b5_awd_epa_truth();
    longer.test_id = String::from("XXNVVXJ02.0U73");
    let mut other = volvo_s60_b5_awd_epa_truth();
    other.test_id = String::from("NVVXJ02.0U74");
    let records = vec![other, other_first.clone(), longer.clone()];
    assert_eq!(best_match_group(&records, &fe), vec![other_first, longer]);
}

#[test]
fn vehicle_without_certificate_matches_over_all_records() {
    let mut fe = volvo_s60_b5_awd_fe();
    fe.emissions_list = EmissionsListFE { emissions_info: vec![] };
    let records = epa_2022();
    assert_eq!(best_model_name(&records, &fe, true), c(""));
    assert_eq!(match_epatest_with_fegov(&fe, &records), Ok(volvo_s60_b5_awd_epa_truth()));
}

#[test]
fn normalize_writes_all_wheel_drive() {
    let mut r = corolla_manual_epa_truth();
    assert_eq!(normalize(&r), r);
    r.model = String::from("RAV4 4WD");
    let n = normalize(&r);
    assert_eq!(n.drive_code, "A");
    assert_eq!(n.drive, "All Wheel Drive");
    r.model = String::from("RAV4");
    r.drive = String::from("Part-time 4-Wheel Drive");
    let n = normalize(&r);
    assert_eq!(n.drive_code, "A");
    assert_eq!(n.drive, "All Wheel Drive");
}

#[test]
fn cold_tests_are_never_candidates() {
    let fe = volvo_s60_b5_awd_fe();
    let mut r = volvo_s60_b5_awd_epa_truth();
    assert!(agrees(&r, &fe, TransmissionType::SemiAutomatic, 8, false));
    r.test_fuel_type = String::from("Cold CO Regular (Tier 2)");
    assert!(!agrees(&r, &fe, TransmissionType::SemiAutomatic, 8, false));
    let found = match_epatest_with_fegov(&fe, &[r.clone(), r]).unwrap();
    assert_eq!(found, VehicleDataEPA::default());
}

#[test]
fn candidates_agree_on_transmission_gears_and_drive() {
    let fe = volvo_s60_b5_awd_fe();
    let r = volvo_s60_b5_awd_epa_truth();
    assert!(!agrees(&r, &fe, TransmissionType::Automatic, 8, false));
    assert!(!agrees(&r, &fe, TransmissionType::SemiAutomatic, 6, false));
    let mut automatic = r.clone();
    automatic.trany_code = String::from("A");
    automatic.trany_type = String::from("Automatic");
    // The description "Automatic (S8)" begins with the type of the record.
    assert!(agrees(&automatic, &fe, TransmissionType::SemiAutomatic, 8, false));
    assert!(!agrees(&automatic, &fe, TransmissionType::SemiAutomatic, 8, true));
    let mut rear = r.clone();
    rear.drive_code = String::from("R");
    assert!(!agrees(&rear, &fe, TransmissionType::SemiAutomatic, 8, false));
    let mut no_drive = fe.clone();
    no_drive.drive = String::new();
    assert!(!agrees(&r, &no_drive, TransmissionType::SemiAutomatic, 8, false));
}

#[test]
fn candidates_agree_on_the_engine() {
    let fe = volvo_s60_b5_awd_fe();
    let r = volvo_s60_b5_awd_epa_truth();
    let mut bigger = r.clone();
    bigger.displ = fx(2.05);
    assert!(!agrees(&bigger, &fe, TransmissionType::SemiAutomatic, 8, false));
    let mut six = r.clone();
    six.cylinders = String::from("6");
    assert!(!agrees(&six, &fe, TransmissionType::SemiAutomatic, 8, false));
    // A displacement that cannot be read counts as zero.
    let mut unread = fe.clone();
    unread.displ = String::from("n/a");
    assert!(!agrees(&r, &unread, TransmissionType::SemiAutomatic, 8, false));
    let mut none = r.clone();
    none.displ = fx(0.04);
    assert!(agrees(&none, &unread, TransmissionType::SemiAutomatic, 8, false));
}

#[test]
fn electric_vehicle_rejects_records_with_cylinders() {
    let fe = ev6_rwd_long_range_fe();
    let r = ev6_rwd_long_range_epa_truth();
    assert!(agrees(&r, &fe, TransmissionType::Automatic, 1, false));
    let mut with_cylinders = r.clone();
    with_cylinders.cylinders = String::from("4");
    assert!(!agrees(&with_cylinders, &fe, TransmissionType::Automatic, 1, false));
    // Also where the label record itself states the same cylinders.
    let mut odd = fe.clone();
    odd.cylinders = String::from("4");
    odd.displ = String::from("0.0");
    assert!(!agrees(&with_cylinders, &odd, TransmissionType::Automatic, 1, false));
    let mut with_engine = r.clone();
    with_engine.displ = fx(0.5);
    assert!(!agrees(&with_engine, &fe, TransmissionType::Automatic, 1, false));
    let found = match_epatest_with_fegov(&fe, &[with_cylinders]).unwrap();
    assert_eq!(found, VehicleDataEPA::default());
}

#[test]
fn longest_run_wins_and_the_first_of_equal_runs() {
    let fe = corolla_manual_fe();
    let a = corolla_manual_epa_truth();
    let mut b = corolla_manual_epa_truth();
    b.eng_pwr_hp = 139;
    let pick = |records: Vec<VehicleDataEPA>| reconcile(&records, &fe, TransmissionType::Manual, 6, false);
    assert_eq!(pick(vec![]), VehicleDataEPA::default());
    assert_eq!(pick(vec![a.clone()]), a);
    assert_eq!(pick(vec![a.clone(), b.clone(), b.clone()]), b);
    assert_eq!(pick(vec![a.clone(), b.clone()]), a);
    assert_eq!(pick(vec![b.clone(), a.clone()]), b);
    // Runs count, not totals: three of `a` in runs of one lose to a run of two of `b`.
    assert_eq!(pick(vec![a.clone(), b.clone(), b.clone(), a.clone(), a.clone()]), b);
    assert_eq!(pick(vec![a.clone(), a.clone(), a.clone(), b.clone(), b.clone()]), a);
}

#[test]
fn unreadable_transmission_is_reported() {
    let mut fe = corolla_manual_fe();
    fe.trany = String::from("Manual");
    assert_eq!(match_epatest_with_fegov(&fe, &epa_2022()), Err(ParseError::Pattern));
    fe.trany = String::from("Manual x-spd");
    assert_eq!(get_epa_data(&fe, &epa_2022()), Err(ParseError::Number));
}

fn sorted_ids(records: &[VehicleDataEPA]) -> Vec<String> {
    let mut ids: Vec<String> = records
        .iter()
        .map(|r| format!("{} {} {}", r.model, r.test_id, r.eng_pwr_hp))
        .collect();
    ids.sort();
    ids
}

#[test]
fn group_does_not_depend_on_the_order_where_one_name_is_best() {
    let fe = volvo_s60_b5_awd_fe();
    let records = epa_2022();
    let group = best_match_group(&records, &fe);
    let mut reversed = records.clone();
    reversed.reverse();
    let mut rotated = records.clone();
    rotated.rotate_left(3);
    for other in [reversed, rotated] {
        assert_eq!(best_model_name(&other, &fe, false), best_model_name(&records, &fe, false));
        assert_eq!(best_model_name(&other, &fe, true), best_model_name(&records, &fe, true));
        assert_eq!(sorted_ids(&best_match_group(&other, &fe)), sorted_ids(&group));
    }
}

#[test]
fn searching_the_group_gives_the_group() {
    for fe in [volvo_s60_b5_awd_fe(), corolla_manual_fe(), ev6_rwd_long_range_fe()] {
        let group = best_match_group(&epa_2022(), &fe);
        assert!(!group.is_empty());
        assert_eq!(best_match_group(&group, &fe), group);
    }
    // Also where nothing matches.
    let group = best_match_group(&[ev6_rwd_long_range_epa_truth()], &corolla_manual_fe());
    assert_eq!(best_match_group(&group, &corolla_manual_fe()), group);
}

#[test]
fn one_configuration_wins_in_any_number() {
    let fe = corolla_manual_fe();
    let a = corolla_manual_epa_truth();
    for n in 1..5 {
        let records = vec![a.clone(); n];
        assert_eq!(reconcile(&records, &fe, TransmissionType::Manual, 6, false), a);
    }
}
