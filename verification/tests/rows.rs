use fastsim_vehicle::fixed::Fixed;
use fastsim_vehicle::records::{EmissionsInfoFE, EmissionsListFE};
use fastsim_vehicle::rows::{
    add_emissions, column_of, fault_of, read_flag, read_fuelecon_gov_data_from_row,
    read_fuelecon_gov_emissions_row, read_id, ColumnKind, RowError,
};
use std::collections::HashMap;

fn fx(x: f64) -> Fixed {
    Fixed::from_raw((x * 1e9).round() as i64)
}

fn strings(xs: &[&str]) -> Vec<String> {
    xs.iter().map(|x| String::from(*x)).collect()
}

const VEHICLE_COLUMNS: [&str; 33] = [
    "id", "atvType", "city08", "cityA08", "co2", "comb08", "combA08", "cylinders", "displ",
    "drive", "eng_dscr", "evMotor", "feScore", "fuelType", "fuelType1", "fuelType2", "ghgScore",
    "highway08", "highwayA08", "make", "mfrCode", "model", "phevBlended", "phevCity", "phevComb",
    "phevHwy", "range", "startStop", "trany", "VClass", "year", "sCharger", "tCharger",
];

const PRIUS_PRIME: [&str; 33] = [
    "44362", "Plug-in Hybrid", "55", "145", "78", "54", "133", "4", "1.8", "Front-Wheel Drive",
    "PHEV", "22 and 53 kW AC Induction", "10", "Regular Gas and Electricity", "Regular Gasoline",
    "Electricity", "10", "53", "121", "Toyota", "TYX", "Prius Prime", "true", "83", "78", "72",
    "0", "Y", "Automatic (variable gear ratios)", "Midsize Cars", "2022", "", "",
];

fn prius_emissions() -> Vec<EmissionsInfoFE> {
    vec![
        EmissionsInfoFE {
            efid: String::from("NTYXV01.8P35"),
            score: fx(7.0),
            smartway_score: 1,
            standard: String::from("L3SULEV30"),
            std_text: String::from("California LEV-III SULEV30"),
        },
        EmissionsInfoFE {
            efid: String::from("NTYXV01.8P35"),
            score: fx(7.0),
            smartway_score: 1,
            standard: String::from("T3B30"),
            std_text: String::from("Federal Tier 3 Bin 30"),
        },
    ]
}

#[test]
fn vehicle_row_is_read_column_by_column() {
    let mut emissions = HashMap::new();
    emissions.insert(44362, prius_emissions());
    emissions.insert(1, vec![]);
    let fe = read_fuelecon_gov_data_from_row(
        &strings(&VEHICLE_COLUMNS),
        &strings(&PRIUS_PRIME),
        &emissions,
    )
    .unwrap();
    assert_eq!(fe.id, 44362);
    assert_eq!(fe.alt_veh_type, "Plug-in Hybrid");
    assert_eq!(fe.city_mpg_fuel1, 55);
    assert_eq!(fe.city_mpg_fuel2, 145);
    assert_eq!(fe.co2_g_per_mi, 78);
    assert_eq!(fe.comb_mpg_fuel1, 54);
    assert_eq!(fe.comb_mpg_fuel2, 133);
    assert_eq!(fe.cylinders, "4");
    assert_eq!(fe.displ, "1.8");
    assert_eq!(fe.drive, "Front-Wheel Drive");
    assert_eq!(fe.emissions_list, EmissionsListFE { emissions_info: prius_emissions() });
    assert_eq!(fe.eng_dscr, "PHEV");
    assert_eq!(fe.ev_motor_kw, "22 and 53 kW AC Induction");
    assert_eq!(fe.fe_score, 10);
    assert_eq!(fe.fuel_type, "Regular Gas and Electricity");
    assert_eq!(fe.fuel1, "Regular Gasoline");
    assert_eq!(fe.fuel2, "Electricity");
    assert_eq!(fe.ghg_score, 10);
    assert_eq!(fe.highway_mpg_fuel1, 53);
    assert_eq!(fe.highway_mpg_fuel2, 121);
    assert_eq!(fe.make, "Toyota");
    assert_eq!(fe.mfr_code, "TYX");
    assert_eq!(fe.model, "Prius Prime");
    assert!(fe.phev_blended);
    assert_eq!(fe.phev_city_mpge, 83);
    assert_eq!(fe.phev_comb_mpge, 78);
    assert_eq!(fe.phev_hwy_mpge, 72);
    assert_eq!(fe.range_ev, 0);
    assert_eq!(fe.start_stop, "Y");
    assert_eq!(fe.trany, "Automatic (variable gear ratios)");
    assert_eq!(fe.veh_class, "Midsize Cars");
    assert_eq!(fe.year, 2022);
    assert_eq!(fe.super_charge, "");
    assert_eq!(fe.turbo_charge, "");
}

#[test]
fn vehicle_without_certificates_has_an_empty_list() {
    let emissions = HashMap::new();
    let fe = read_fuelecon_gov_data_from_row(
        &strings(&VEHICLE_COLUMNS),
        &strings(&PRIUS_PRIME),
        &emissions,
    )
    .unwrap();
    assert_eq!(fe.emissions_list, EmissionsListFE { emissions_info: vec![] });
}

#[test]
fn vehicle_row_reports_its_first_fault() {
    let emissions = HashMap::new();
    let columns = strings(&VEHICLE_COLUMNS);
    let mut row = strings(&PRIUS_PRIME);
    row[2] = String::from("fifty-five");
    row[30] = String::from("-2022");
    assert_eq!(
        read_fuelecon_gov_data_from_row(&columns, &row, &emissions),
        Err(RowError::BadValue)
    );
    let mut short = columns.clone();
    short[1] = String::from("atv");
    assert_eq!(
        read_fuelecon_gov_data_from_row(&short, &row, &emissions),
        Err(RowError::MissingColumn)
    );
    let mut row = strings(&PRIUS_PRIME);
    row[22] = String::from("yes");
    assert_eq!(
        read_fuelecon_gov_data_from_row(&columns, &row, &emissions),
        Err(RowError::BadValue)
    );
    let mut row = strings(&PRIUS_PRIME);
    row[0] = String::from("4294967295");
    assert_eq!(
        read_fuelecon_gov_data_from_row(&columns, &row, &emissions),
        Err(RowError::BadValue)
    );
    assert_eq!(
        read_fuelecon_gov_data_from_row(&columns[..32], &row[..32], &emissions),
        Err(RowError::BadValue)
    );
    let row = strings(&PRIUS_PRIME);
    assert_eq!(
        read_fuelecon_gov_data_from_row(&columns[..32], &row[..32], &emissions),
        Err(RowError::MissingColumn)
    );
}

#[test]
fn later_column_of_a_name_counts() {
    let headers = strings(&["a", "b", "a"]);
    let values = strings(&["1", "2", "3"]);
    assert_eq!(column_of(&headers, &values, "a"), Some(2));
    assert_eq!(column_of(&headers, &values, "b"), Some(1));
    assert_eq!(column_of(&headers, &values, "c"), None);
    // A name without a text is no column.
    assert_eq!(column_of(&headers, &values[..2], "a"), Some(0));
}

#[test]
fn kinds_of_columns() {
    let headers = strings(&["n"]);
    let check = |text: &str, kind: ColumnKind| fault_of(&headers, &strings(&[text]), "n", kind);
    assert_eq!(check("", ColumnKind::Text), None);
    assert_eq!(check("-12", ColumnKind::Whole), None);
    assert_eq!(check("2147483647", ColumnKind::Whole), None);
    assert_eq!(check("-2147483648", ColumnKind::Whole), None);
    assert_eq!(check("2147483648", ColumnKind::Whole), Some(RowError::BadValue));
    assert_eq!(check("-2147483649", ColumnKind::Whole), Some(RowError::BadValue));
    assert_eq!(check("1.5", ColumnKind::Whole), Some(RowError::BadValue));
    assert_eq!(check("12", ColumnKind::Count), None);
    assert_eq!(check("-12", ColumnKind::Count), Some(RowError::BadValue));
    assert_eq!(check("2147483647", ColumnKind::Id), None);
    assert_eq!(check("2147483648", ColumnKind::Id), Some(RowError::BadValue));
    assert_eq!(check(" TRUE ", ColumnKind::Flag), None);
    assert_eq!(check("1", ColumnKind::Flag), Some(RowError::BadValue));
    assert_eq!(check("7.0", ColumnKind::Decimal), None);
    assert_eq!(check("seven", ColumnKind::Decimal), Some(RowError::BadValue));
    assert_eq!(fault_of(&headers, &strings(&["1"]), "m", ColumnKind::Text), Some(RowError::MissingColumn));
}

#[test]
fn flags_and_ids() {
    assert_eq!(read_flag("true"), Some(true));
    assert_eq!(read_flag("False"), Some(false));
    assert_eq!(read_flag("  true\n"), Some(true));
    assert_eq!(read_flag("t"), None);
    assert_eq!(read_flag(""), None);
    assert_eq!(read_id("44362"), Some(44362));
    assert_eq!(read_id(" 44362"), None);
    assert_eq!(read_id("-1"), None);
}

#[test]
fn certificate_row_is_read() {
    let headers = strings(&["efid", "id", "salesArea", "score", "smartwayScore", "standard", "stdText"]);
    let values = strings(&["NTYXV01.8P35", "44362", "3", "7.0", "1", "L3SULEV30", "California LEV-III SULEV30"]);
    assert_eq!(
        read_fuelecon_gov_emissions_row(&headers, &values),
        Ok(Some((44362, prius_emissions()[0].clone())))
    );
}

#[test]
fn certificate_row_without_identifier_is_passed_over() {
    let headers = strings(&["efid", "id", "score", "smartwayScore", "standard", "stdText"]);
    let values = strings(&["NTYXV01.8P35", "n/a", "7.0", "1", "L3SULEV30", "x"]);
    assert_eq!(read_fuelecon_gov_emissions_row(&headers, &values), Ok(None));
    assert_eq!(read_fuelecon_gov_emissions_row(&headers[..1], &values[..1]), Ok(None));
}

#[test]
fn certificate_row_reports_its_first_fault() {
    let headers = strings(&["efid", "id", "score", "smartwayScore", "standard", "stdText"]);
    let values = strings(&["NTYXV01.8P35", "44362", "high", "1", "L3SULEV30", "x"]);
    assert_eq!(read_fuelecon_gov_emissions_row(&headers, &values), Err(RowError::BadValue));
    let values = strings(&["NTYXV01.8P35", "44362", "7.0", "1", "L3SULEV30", "x"]);
    assert_eq!(
        read_fuelecon_gov_emissions_row(&headers[..5], &values[..5]),
        Err(RowError::MissingColumn)
    );
}

#[test]
fn certificates_gather_under_their_identifier_in_order() {
    let mut table = HashMap::new();
    let list = prius_emissions();
    add_emissions(&mut table, 44362, list[0].clone());
    add_emissions(&mut table, 7, list[1].clone());
    add_emissions(&mut table, 44362, list[1].clone());
    assert_eq!(table.len(), 2);
    assert_eq!(table[&44362], list);
    assert_eq!(table[&7], vec![list[1].clone()]);
}
