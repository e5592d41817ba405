//! Reading the records of the label data set from the rows of its tables.
//!
//! A row comes as the texts of its columns, with the names of the columns
//! beside it. Where two columns have one name, the later one counts.

use std::collections::HashMap;
use vstd::prelude::*;
use vstd::std_specs::hash::group_hash_axioms;
use crate::fixed::{decimal_of, Fixed};
use crate::text::{chars_equal, same_text};
use crate::records::{
    clone_emissions, views_of, EmissionsInfo, EmissionsInfoFE, EmissionsList, EmissionsListFE,
    LabelRecord, VehicleDataFE,
};
use crate::text::{
    chars_of, lowercase, parse_i32, parse_signed, parse_u32, parse_unsigned, text_of, trim,
    trimmed,
};

verus! {

/// Why a row cannot be read.
#[derive(Clone, Copy, Debug, PartialEq, Eq, Structural)]
pub enum RowError {
    /// The row has no column of the name.
    MissingColumn,
    /// The column does not hold what it should.
    BadValue,
}

/// What a column holds.
#[derive(Clone, Copy, Debug, PartialEq, Eq, Structural)]
pub enum ColumnKind {
    /// Any text.
    Text,
    /// A whole number.
    Whole,
    /// An unsigned whole number.
    Count,
    /// An identifier: an unsigned whole number that is also a whole number.
    Id,
    /// `true` or `false`, in any case and with white space around it.
    Flag,
    /// A decimal number.
    Decimal,
}

/// The text of the last of the first `n` columns that has the name; none
/// where none has it.
pub open spec fn column_in(h: Seq<Seq<char>>, v: Seq<Seq<char>>, name: Seq<char>, n: nat) -> Option<
    Seq<char>,
>
    decreases n,
{
    if n == 0 {
        None
    } else if h[n - 1] == name {
        Some(v[n - 1])
    } else {
        column_in(h, v, name, (n - 1) as nat)
    }
}

/// The number of columns of a row: those that have both a name and a text.
pub open spec fn column_count(h: Seq<Seq<char>>, v: Seq<Seq<char>>) -> nat {
    if h.len() <= v.len() {
        h.len()
    } else {
        v.len()
    }
}

/// The text of the column of the name.
pub open spec fn column(h: Seq<Seq<char>>, v: Seq<Seq<char>>, name: Seq<char>) -> Option<Seq<char>> {
    column_in(h, v, name, column_count(h, v))
}

/// The truth value that a text states.
pub open spec fn flag_of(t: Seq<char>) -> Option<bool> {
    let word = lowercase(trimmed(t));
    if word == "true"@ {
        Some(true)
    } else if word == "false"@ {
        Some(false)
    } else {
        None
    }
}

/// The identifier that a text states.
pub open spec fn id_of(t: Seq<char>) -> Option<int> {
    match parse_unsigned(t) {
        Some(n) => if n <= i32::MAX {
            Some(n)
        } else {
            None
        },
        None => None,
    }
}

/// Whether the text can be read as the kind.
pub open spec fn readable(t: Seq<char>, kind: ColumnKind) -> bool {
    match kind {
        ColumnKind::Text => true,
        ColumnKind::Whole => parse_signed(t) is Some,
        ColumnKind::Count => parse_unsigned(t) is Some,
        ColumnKind::Id => id_of(t) is Some,
        ColumnKind::Flag => flag_of(t) is Some,
        ColumnKind::Decimal => decimal_of(t) is Some,
    }
}

/// The fault of the column of the name, read as the kind; none where it can
/// be read.
pub open spec fn column_fault(
    h: Seq<Seq<char>>,
    v: Seq<Seq<char>>,
    name: Seq<char>,
    kind: ColumnKind,
) -> Option<RowError> {
    match column(h, v, name) {
        None => Some(RowError::MissingColumn),
        Some(t) => if readable(t, kind) {
            None
        } else {
            Some(RowError::BadValue)
        },
    }
}

/// The text of the column; empty where there is none.
pub open spec fn text_at(h: Seq<Seq<char>>, v: Seq<Seq<char>>, name: Seq<char>) -> Seq<char> {
    match column(h, v, name) {
        Some(t) => t,
        None => Seq::empty(),
    }
}

/// The whole number of the column; zero where there is none.
pub open spec fn whole_at(h: Seq<Seq<char>>, v: Seq<Seq<char>>, name: Seq<char>) -> i32 {
    match parse_signed(text_at(h, v, name)) {
        Some(n) => n as i32,
        None => 0,
    }
}

/// The unsigned whole number of the column; zero where there is none.
pub open spec fn count_at(h: Seq<Seq<char>>, v: Seq<Seq<char>>, name: Seq<char>) -> u32 {
    match parse_unsigned(text_at(h, v, name)) {
        Some(n) => n as u32,
        None => 0,
    }
}

/// The identifier of the column; zero where there is none.
pub open spec fn id_at(h: Seq<Seq<char>>, v: Seq<Seq<char>>, name: Seq<char>) -> i32 {
    match id_of(text_at(h, v, name)) {
        Some(n) => n as i32,
        None => 0,
    }
}

/// The truth value of the column; false where there is none.
pub open spec fn flag_at(h: Seq<Seq<char>>, v: Seq<Seq<char>>, name: Seq<char>) -> bool {
    match flag_of(text_at(h, v, name)) {
        Some(b) => b,
        None => false,
    }
}

/// The decimal number of the column; zero where there is none.
pub open spec fn decimal_at(h: Seq<Seq<char>>, v: Seq<Seq<char>>, name: Seq<char>) -> Fixed {
    match decimal_of(text_at(h, v, name)) {
        Some(x) => x,
        None => Fixed { raw: 0 },
    }
}

/// The certificates that the table holds under the identifier; none where
/// it holds none.
pub open spec fn emissions_of(m: Map<u32, Vec<EmissionsInfoFE>>, id: u32) -> Seq<EmissionsInfo> {
    if m.contains_key(id) {
        views_of(m[id]@)
    } else {
        Seq::empty()
    }
}

/// The position of the column of the name.
pub fn column_of(headers: &[String], values: &[String], name: &str) -> (r: Option<usize>)
    ensures
        r matches Some(i) ==> i < values.len() && column(
            views_of(headers@),
            views_of(values@),
            name@,
        ) == Some(values@[i as int]@),
        r is None ==> column(views_of(headers@), views_of(values@), name@) is None,
{
    let n: usize = if headers.len() <= values.len() {
        headers.len()
    } else {
        values.len()
    };
    let ghost h = views_of(headers@);
    let ghost v = views_of(values@);
    let wanted = chars_of(name);
    let mut k: usize = n;
    while k > 0
        invariant
            k <= n,
            n <= headers.len(),
            n <= values.len(),
            n == column_count(h, v),
            h == views_of(headers@),
            v == views_of(values@),
            wanted@ == name@,
            column(h, v, name@) == column_in(h, v, name@, k as nat),
        decreases k,
    {
        assert(h[k - 1] == headers@[k - 1]@);
        assert(v[k - 1] == values@[k - 1]@);
        if chars_equal(&chars_of(headers[k - 1].as_str()), &wanted) {
            return Some(k - 1);
        }
        k -= 1;
    }
    None
}

/// The truth value that a text states.
pub fn read_flag(t: &str) -> (r: Option<bool>)
    ensures
        r == flag_of(t@),
{
    let word = text_of(&trim(&chars_of(t)));
    let low = word.as_str().to_lowercase();
    if same_text(low.as_str(), "true") {
        Some(true)
    } else if same_text(low.as_str(), "false") {
        Some(false)
    } else {
        None
    }
}

/// The identifier that a text states.
pub fn read_id(t: &str) -> (r: Option<i32>)
    ensures
        r matches Some(n) ==> id_of(t@) == Some(n as int) && n >= 0,
        r is None ==> id_of(t@) is None,
{
    match parse_u32(&chars_of(t)) {
        Some(n) => if n <= 0x7fff_ffff {
            Some(n as i32)
        } else {
            None
        },
        None => None,
    }
}

/// The fault of the column of the name, read as the kind.
pub fn fault_of(headers: &[String], values: &[String], name: &str, kind: ColumnKind) -> (r: Option<
    RowError,
>)
    ensures
        r == column_fault(views_of(headers@), views_of(values@), name@, kind),
{
    match column_of(headers, values, name) {
        None => Some(RowError::MissingColumn),
        Some(i) => {
            let t = values[i].as_str();
            let ok = match kind {
                ColumnKind::Text => true,
                ColumnKind::Whole => parse_i32(&chars_of(t)).is_some(),
                ColumnKind::Count => parse_u32(&chars_of(t)).is_some(),
                ColumnKind::Id => read_id(t).is_some(),
                ColumnKind::Flag => read_flag(t).is_some(),
                ColumnKind::Decimal => Fixed::parse(&chars_of(t)).is_some(),
            };
            if ok {
                None
            } else {
                Some(RowError::BadValue)
            }
        },
    }
}

/// The text of the column; empty where there is none.
pub fn text_field(headers: &[String], values: &[String], name: &str) -> (r: String)
    ensures
        r@ == text_at(views_of(headers@), views_of(values@), name@),
{
    match column_of(headers, values, name) {
        Some(i) => values[i].clone(),
        None => String::new(),
    }
}

/// The whole number of the column; zero where there is none.
pub fn whole_field(headers: &[String], values: &[String], name: &str) -> (r: i32)
    ensures
        r == whole_at(views_of(headers@), views_of(values@), name@),
{
    let t = text_field(headers, values, name);
    match parse_i32(&chars_of(t.as_str())) {
        Some(n) => n,
        None => 0,
    }
}

/// The unsigned whole number of the column; zero where there is none.
pub fn count_field(headers: &[String], values: &[String], name: &str) -> (r: u32)
    ensures
        r == count_at(views_of(headers@), views_of(values@), name@),
{
    let t = text_field(headers, values, name);
    match parse_u32(&chars_of(t.as_str())) {
        Some(n) => n,
        None => 0,
    }
}

/// The identifier of the column; zero where there is none.
pub fn id_field(headers: &[String], values: &[String], name: &str) -> (r: i32)
    ensures
        r == id_at(views_of(headers@), views_of(values@), name@),
        r >= 0,
{
    let t = text_field(headers, values, name);
    match read_id(t.as_str()) {
        Some(n) => n,
        None => 0,
    }
}

/// The truth value of the column; false where there is none.
pub fn flag_field(headers: &[String], values: &[String], name: &str) -> (r: bool)
    ensures
        r == flag_at(views_of(headers@), views_of(values@), name@),
{
    let t = text_field(headers, values, name);
    match read_flag(t.as_str()) {
        Some(b) => b,
        None => false,
    }
}

/// The decimal number of the column; zero where there is none.
pub fn decimal_field(headers: &[String], values: &[String], name: &str) -> (r: Fixed)
    ensures
        r == decimal_at(views_of(headers@), views_of(values@), name@),
{
    let t = text_field(headers, values, name);
    match Fixed::parse(&chars_of(t.as_str())) {
        Some(x) => x,
        None => Fixed::zero(),
    }
}

/// The fault of the first column of a vehicle of the label data set that has
/// one, the columns taken in the order of the record.
pub open spec fn label_row_fault(h: Seq<Seq<char>>, v: Seq<Seq<char>>) -> Option<RowError> {
    if column_fault(h, v, "id"@, ColumnKind::Id) is Some {
        column_fault(h, v, "id"@, ColumnKind::Id)
    } else if column_fault(h, v, "atvType"@, ColumnKind::Text) is Some {
        column_fault(h, v, "atvType"@, ColumnKind::Text)
    } else if column_fault(h, v, "city08"@, ColumnKind::Whole) is Some {
        column_fault(h, v, "city08"@, ColumnKind::Whole)
    } else if column_fault(h, v, "cityA08"@, ColumnKind::Whole) is Some {
        column_fault(h, v, "cityA08"@, ColumnKind::Whole)
    } else if column_fault(h, v, "co2"@, ColumnKind::Whole) is Some {
        column_fault(h, v, "co2"@, ColumnKind::Whole)
    } else if column_fault(h, v, "comb08"@, ColumnKind::Whole) is Some {
        column_fault(h, v, "comb08"@, ColumnKind::Whole)
    } else if column_fault(h, v, "combA08"@, ColumnKind::Whole) is Some {
        column_fault(h, v, "combA08"@, ColumnKind::Whole)
    } else if column_fault(h, v, "cylinders"@, ColumnKind::Text) is Some {
        column_fault(h, v, "cylinders"@, ColumnKind::Text)
    } else if column_fault(h, v, "displ"@, ColumnKind::Text) is Some {
        column_fault(h, v, "displ"@, ColumnKind::Text)
    } else if column_fault(h, v, "drive"@, ColumnKind::Text) is Some {
        column_fault(h, v, "drive"@, ColumnKind::Text)
    } else if column_fault(h, v, "eng_dscr"@, ColumnKind::Text) is Some {
        column_fault(h, v, "eng_dscr"@, ColumnKind::Text)
    } else if column_fault(h, v, "evMotor"@, ColumnKind::Text) is Some {
        column_fault(h, v, "evMotor"@, ColumnKind::Text)
    } else if column_fault(h, v, "feScore"@, ColumnKind::Whole) is Some {
        column_fault(h, v, "feScore"@, ColumnKind::Whole)
    } else if column_fault(h, v, "fuelType"@, ColumnKind::Text) is Some {
        column_fault(h, v, "fuelType"@, ColumnKind::Text)
    } else if column_fault(h, v, "fuelType1"@, ColumnKind::Text) is Some {
        column_fault(h, v, "fuelType1"@, ColumnKind::Text)
    } else if column_fault(h, v, "fuelType2"@, ColumnKind::Text) is Some {
        column_fault(h, v, "fuelType2"@, ColumnKind::Text)
    } else if column_fault(h, v, "ghgScore"@, ColumnKind::Whole) is Some {
        column_fault(h, v, "ghgScore"@, ColumnKind::Whole)
    } else if column_fault(h, v, "highway08"@, ColumnKind::Whole) is Some {
        column_fault(h, v, "highway08"@, ColumnKind::Whole)
    } else if column_fault(h, v, "highwayA08"@, ColumnKind::Whole) is Some {
        column_fault(h, v, "highwayA08"@, ColumnKind::Whole)
    } else if column_fault(h, v, "make"@, ColumnKind::Text) is Some {
        column_fault(h, v, "make"@, ColumnKind::Text)
    } else if column_fault(h, v, "mfrCode"@, ColumnKind::Text) is Some {
        column_fault(h, v, "mfrCode"@, ColumnKind::Text)
    } else if column_fault(h, v, "model"@, ColumnKind::Text) is Some {
        column_fault(h, v, "model"@, ColumnKind::Text)
    } else if column_fault(h, v, "phevBlended"@, ColumnKind::Flag) is Some {
        column_fault(h, v, "phevBlended"@, ColumnKind::Flag)
    } else if column_fault(h, v, "phevCity"@, ColumnKind::Whole) is Some {
        column_fault(h, v, "phevCity"@, ColumnKind::Whole)
    } else if column_fault(h, v, "phevComb"@, ColumnKind::Whole) is Some {
        column_fault(h, v, "phevComb"@, ColumnKind::Whole)
    } else if column_fault(h, v, "phevHwy"@, ColumnKind::Whole) is Some {
        column_fault(h, v, "phevHwy"@, ColumnKind::Whole)
    } else if column_fault(h, v, "range"@, ColumnKind::Whole) is Some {
        column_fault(h, v, "range"@, ColumnKind::Whole)
    } else if column_fault(h, v, "startStop"@, ColumnKind::Text) is Some {
        column_fault(h, v, "startStop"@, ColumnKind::Text)
    } else if column_fault(h, v, "trany"@, ColumnKind::Text) is Some {
        column_fault(h, v, "trany"@, ColumnKind::Text)
    } else if column_fault(h, v, "VClass"@, ColumnKind::Text) is Some {
        column_fault(h, v, "VClass"@, ColumnKind::Text)
    } else if column_fault(h, v, "year"@, ColumnKind::Count) is Some {
        column_fault(h, v, "year"@, ColumnKind::Count)
    } else if column_fault(h, v, "sCharger"@, ColumnKind::Text) is Some {
        column_fault(h, v, "sCharger"@, ColumnKind::Text)
    } else if column_fault(h, v, "tCharger"@, ColumnKind::Text) is Some {
        column_fault(h, v, "tCharger"@, ColumnKind::Text)
    } else {
        None
    }
}

/// The vehicle of the label data set that a row states, each column read
/// as its kind and a column that cannot be read counting as empty or zero.
pub open spec fn label_row_record(
    h: Seq<Seq<char>>,
    v: Seq<Seq<char>>,
    emissions: Map<u32, Vec<EmissionsInfoFE>>,
) -> LabelRecord {
    LabelRecord {
        id: id_at(h, v, "id"@),
        alt_veh_type: text_at(h, v, "atvType"@),
        city_mpg_fuel1: whole_at(h, v, "city08"@),
        city_mpg_fuel2: whole_at(h, v, "cityA08"@),
        co2_g_per_mi: whole_at(h, v, "co2"@),
        comb_mpg_fuel1: whole_at(h, v, "comb08"@),
        comb_mpg_fuel2: whole_at(h, v, "combA08"@),
        cylinders: text_at(h, v, "cylinders"@),
        displ: text_at(h, v, "displ"@),
        drive: text_at(h, v, "drive"@),
        emissions_list: EmissionsList { emissions_info: emissions_of(emissions, id_at(h, v, "id"@) as u32) },
        eng_dscr: text_at(h, v, "eng_dscr"@),
        ev_motor_kw: text_at(h, v, "evMotor"@),
        fe_score: whole_at(h, v, "feScore"@),
        fuel_type: text_at(h, v, "fuelType"@),
        fuel1: text_at(h, v, "fuelType1"@),
        fuel2: text_at(h, v, "fuelType2"@),
        ghg_score: whole_at(h, v, "ghgScore"@),
        highway_mpg_fuel1: whole_at(h, v, "highway08"@),
        highway_mpg_fuel2: whole_at(h, v, "highwayA08"@),
        make: text_at(h, v, "make"@),
        mfr_code: text_at(h, v, "mfrCode"@),
        model: text_at(h, v, "model"@),
        phev_blended: flag_at(h, v, "phevBlended"@),
        phev_city_mpge: whole_at(h, v, "phevCity"@),
        phev_comb_mpge: whole_at(h, v, "phevComb"@),
        phev_hwy_mpge: whole_at(h, v, "phevHwy"@),
        range_ev: whole_at(h, v, "range"@),
        start_stop: text_at(h, v, "startStop"@),
        trany: text_at(h, v, "trany"@),
        veh_class: text_at(h, v, "VClass"@),
        year: count_at(h, v, "year"@),
        super_charge: text_at(h, v, "sCharger"@),
        turbo_charge: text_at(h, v, "tCharger"@),
    }
}

/// The vehicle of the label data set that a row states, or the fault of its
/// first column that cannot be read.
pub open spec fn label_row(
    h: Seq<Seq<char>>,
    v: Seq<Seq<char>>,
    emissions: Map<u32, Vec<EmissionsInfoFE>>,
) -> Result<LabelRecord, RowError> {
    match label_row_fault(h, v) {
        Some(e) => Err(e),
        None => Ok(label_row_record(h, v, emissions)),
    }
}

/// Reads a vehicle of the label data set from a row of its table: `values`
/// holds the row, `headers` the names of its columns. The vehicle has the
/// certificates that `emissions` holds under its identifier.
///
/// Fails with the fault of the first column, in the order of the record,
/// that is missing or cannot be read.
pub fn read_fuelecon_gov_data_from_row(
    headers: &[String],
    values: &[String],
    emissions: &HashMap<u32, Vec<EmissionsInfoFE>>,
) -> (r: Result<VehicleDataFE, RowError>)
    ensures
        r matches Ok(fe) ==> label_row(views_of(headers@), views_of(values@), emissions@) == Ok::<
            LabelRecord,
            RowError,
        >(fe@),
        r matches Err(e) ==> label_row(views_of(headers@), views_of(values@), emissions@) == Err::<
            LabelRecord,
            RowError,
        >(e),
{
    broadcast use group_hash_axioms;

    if let Some(e) = fault_of(headers, values, "id", ColumnKind::Id) {
        return Err(e);
    }
    if let Some(e) = fault_of(headers, values, "atvType", ColumnKind::Text) {
        return Err(e);
    }
    if let Some(e) = fault_of(headers, values, "city08", ColumnKind::Whole) {
        return Err(e);
    }
    if let Some(e) = fault_of(headers, values, "cityA08", ColumnKind::Whole) {
        return Err(e);
    }
    if let Some(e) = fault_of(headers, values, "co2", ColumnKind::Whole) {
        return Err(e);
    }
    if let Some(e) = fault_of(headers, values, "comb08", ColumnKind::Whole) {
        return Err(e);
    }
    if let Some(e) = fault_of(headers, values, "combA08", ColumnKind::Whole) {
        return Err(e);
    }
    if let Some(e) = fault_of(headers, values, "cylinders", ColumnKind::Text) {
        return Err(e);
    }
    if let Some(e) = fault_of(headers, values, "displ", ColumnKind::Text) {
        return Err(e);
    }
    if let Some(e) = fault_of(headers, values, "drive", ColumnKind::Text) {
        return Err(e);
    }
    if let Some(e) = fault_of(headers, values, "eng_dscr", ColumnKind::Text) {
        return Err(e);
    }
    if let Some(e) = fault_of(headers, values, "evMotor", ColumnKind::Text) {
        return Err(e);
    }
    if let Some(e) = fault_of(headers, values, "feScore", ColumnKind::Whole) {
        return Err(e);
    }
    if let Some(e) = fault_of(headers, values, "fuelType", ColumnKind::Text) {
        return Err(e);
    }
    if let Some(e) = fault_of(headers, values, "fuelType1", ColumnKind::Text) {
        return Err(e);
    }
    if let Some(e) = fault_of(headers, values, "fuelType2", ColumnKind::Text) {
        return Err(e);
    }
    if let Some(e) = fault_of(headers, values, "ghgScore", ColumnKind::Whole) {
        return Err(e);
    }
    if let Some(e) = fault_of(headers, values, "highway08", ColumnKind::Whole) {
        return Err(e);
    }
    if let Some(e) = fault_of(headers, values, "highwayA08", ColumnKind::Whole) {
        return Err(e);
    }
    if let Some(e) = fault_of(headers, values, "make", ColumnKind::Text) {
        return Err(e);
    }
    if let Some(e) = fault_of(headers, values, "mfrCode", ColumnKind::Text) {
        return Err(e);
    }
    if let Some(e) = fault_of(headers, values, "model", ColumnKind::Text) {
        return Err(e);
    }
    if let Some(e) = fault_of(headers, values, "phevBlended", ColumnKind::Flag) {
        return Err(e);
    }
    if let Some(e) = fault_of(headers, values, "phevCity", ColumnKind::Whole) {
        return Err(e);
    }
    if let Some(e) = fault_of(headers, values, "phevComb", ColumnKind::Whole) {
        return Err(e);
    }
    if let Some(e) = fault_of(headers, values, "phevHwy", ColumnKind::Whole) {
        return Err(e);
    }
    if let Some(e) = fault_of(headers, values, "range", ColumnKind::Whole) {
        return Err(e);
    }
    if let Some(e) = fault_of(headers, values, "startStop", ColumnKind::Text) {
        return Err(e);
    }
    if let Some(e) = fault_of(headers, values, "trany", ColumnKind::Text) {
        return Err(e);
    }
    if let Some(e) = fault_of(headers, values, "VClass", ColumnKind::Text) {
        return Err(e);
    }
    if let Some(e) = fault_of(headers, values, "year", ColumnKind::Count) {
        return Err(e);
    }
    if let Some(e) = fault_of(headers, values, "sCharger", ColumnKind::Text) {
        return Err(e);
    }
    if let Some(e) = fault_of(headers, values, "tCharger", ColumnKind::Text) {
        return Err(e);
    }
    let id = id_field(headers, values, "id");
    let emissions_info = match emissions.get(&(id as u32)) {
        Some(list) => clone_emissions(list),
        None => {
            let none: Vec<EmissionsInfoFE> = Vec::new();
            assert(views_of(none@) =~= Seq::<EmissionsInfo>::empty());
            none
        },
    };
    Ok(
        VehicleDataFE {
            id,
            alt_veh_type: text_field(headers, values, "atvType"),
            city_mpg_fuel1: whole_field(headers, values, "city08"),
            city_mpg_fuel2: whole_field(headers, values, "cityA08"),
            co2_g_per_mi: whole_field(headers, values, "co2"),
            comb_mpg_fuel1: whole_field(headers, values, "comb08"),
            comb_mpg_fuel2: whole_field(headers, values, "combA08"),
            cylinders: text_field(headers, values, "cylinders"),
            displ: text_field(headers, values, "displ"),
            drive: text_field(headers, values, "drive"),
            emissions_list: EmissionsListFE { emissions_info },
            eng_dscr: text_field(headers, values, "eng_dscr"),
            ev_motor_kw: text_field(headers, values, "evMotor"),
            fe_score: whole_field(headers, values, "feScore"),
            fuel_type: text_field(headers, values, "fuelType"),
            fuel1: text_field(headers, values, "fuelType1"),
            fuel2: text_field(headers, values, "fuelType2"),
            ghg_score: whole_field(headers, values, "ghgScore"),
            highway_mpg_fuel1: whole_field(headers, values, "highway08"),
            highway_mpg_fuel2: whole_field(headers, values, "highwayA08"),
            make: text_field(headers, values, "make"),
            mfr_code: text_field(headers, values, "mfrCode"),
            model: text_field(headers, values, "model"),
            phev_blended: flag_field(headers, values, "phevBlended"),
            phev_city_mpge: whole_field(headers, values, "phevCity"),
            phev_comb_mpge: whole_field(headers, values, "phevComb"),
            phev_hwy_mpge: whole_field(headers, values, "phevHwy"),
            range_ev: whole_field(headers, values, "range"),
            start_stop: text_field(headers, values, "startStop"),
            trany: text_field(headers, values, "trany"),
            veh_class: text_field(headers, values, "VClass"),
            year: count_field(headers, values, "year"),
            super_charge: text_field(headers, values, "sCharger"),
            turbo_charge: text_field(headers, values, "tCharger"),
        },
    )
}

/// The fault of the first column of a certificate that has one, after the
/// identifier.
pub open spec fn emissions_row_fault(h: Seq<Seq<char>>, v: Seq<Seq<char>>) -> Option<RowError> {
    if column_fault(h, v, "efid"@, ColumnKind::Text) is Some {
        column_fault(h, v, "efid"@, ColumnKind::Text)
    } else if column_fault(h, v, "score"@, ColumnKind::Decimal) is Some {
        column_fault(h, v, "score"@, ColumnKind::Decimal)
    } else if column_fault(h, v, "smartwayScore"@, ColumnKind::Whole) is Some {
        column_fault(h, v, "smartwayScore"@, ColumnKind::Whole)
    } else if column_fault(h, v, "standard"@, ColumnKind::Text) is Some {
        column_fault(h, v, "standard"@, ColumnKind::Text)
    } else if column_fault(h, v, "stdText"@, ColumnKind::Text) is Some {
        column_fault(h, v, "stdText"@, ColumnKind::Text)
    } else {
        None
    }
}

/// The certificate that a row states.
pub open spec fn emissions_row_record(h: Seq<Seq<char>>, v: Seq<Seq<char>>) -> EmissionsInfo {
    EmissionsInfo {
        efid: text_at(h, v, "efid"@),
        score: decimal_at(h, v, "score"@),
        smartway_score: whole_at(h, v, "smartwayScore"@),
        standard: text_at(h, v, "standard"@),
        std_text: text_at(h, v, "stdText"@),
    }
}

/// The certificate that a row states, with the identifier of its vehicle:
/// nothing for a row without an identifier that can be read, and the fault
/// of the first other column that cannot be read.
pub open spec fn emissions_row(h: Seq<Seq<char>>, v: Seq<Seq<char>>) -> Result<
    Option<(u32, EmissionsInfo)>,
    RowError,
> {
    if column_fault(h, v, "id"@, ColumnKind::Count) is Some {
        Ok(None)
    } else {
        match emissions_row_fault(h, v) {
            Some(e) => Err(e),
            None => Ok(Some((count_at(h, v, "id"@), emissions_row_record(h, v)))),
        }
    }
}

/// Reads a certificate, with the identifier of its vehicle, from a row of
/// the table of certificates.
///
/// Gives nothing for a row without an identifier that can be read, which is
/// to be passed over, and fails with the fault of the first other column
/// that is missing or cannot be read.
pub fn read_fuelecon_gov_emissions_row(headers: &[String], values: &[String]) -> (r: Result<
    Option<(u32, EmissionsInfoFE)>,
    RowError,
>)
    ensures
        r matches Ok(Some(found)) ==> emissions_row(views_of(headers@), views_of(values@)) == Ok::<
            Option<(u32, EmissionsInfo)>,
            RowError,
        >(Some((found.0, found.1@))),
        r matches Ok(None) ==> emissions_row(views_of(headers@), views_of(values@)) == Ok::<
            Option<(u32, EmissionsInfo)>,
            RowError,
        >(None),
        r matches Err(e) ==> emissions_row(views_of(headers@), views_of(values@)) == Err::<
            Option<(u32, EmissionsInfo)>,
            RowError,
        >(e),
{
    if fault_of(headers, values, "id", ColumnKind::Count).is_some() {
        return Ok(None);
    }
    if let Some(e) = fault_of(headers, values, "efid", ColumnKind::Text) {
        return Err(e);
    }
    if let Some(e) = fault_of(headers, values, "score", ColumnKind::Decimal) {
        return Err(e);
    }
    if let Some(e) = fault_of(headers, values, "smartwayScore", ColumnKind::Whole) {
        return Err(e);
    }
    if let Some(e) = fault_of(headers, values, "standard", ColumnKind::Text) {
        return Err(e);
    }
    if let Some(e) = fault_of(headers, values, "stdText", ColumnKind::Text) {
        return Err(e);
    }
    Ok(
        Some(
            (
                count_field(headers, values, "id"),
                EmissionsInfoFE {
                    efid: text_field(headers, values, "efid"),
                    score: decimal_field(headers, values, "score"),
                    smartway_score: whole_field(headers, values, "smartwayScore"),
                    standard: text_field(headers, values, "standard"),
                    std_text: text_field(headers, values, "stdText"),
                },
            ),
        ),
    )
}

/// Adds a certificate to those that the table holds under the identifier,
/// after those that it holds already.
pub fn add_emissions(
    table: &mut HashMap<u32, Vec<EmissionsInfoFE>>,
    id: u32,
    info: EmissionsInfoFE,
)
    ensures
        final(table)@.dom() == old(table)@.dom().insert(id),
        forall|other: u32|
            other != id && old(table)@.contains_key(other) ==> final(table)@[other] == old(
                table,
            )@[other],
        views_of(final(table)@[id]@) == emissions_of(old(table)@, id).push(info@),
{
    broadcast use group_hash_axioms;

    let ghost before = emissions_of(table@, id);
    let mut list = match table.remove(&id) {
        Some(list) => list,
        None => {
            let none: Vec<EmissionsInfoFE> = Vec::new();
            assert(views_of(none@) =~= Seq::<EmissionsInfo>::empty());
            none
        },
    };
    assert(views_of(list@) == before);
    let ghost added = info@;
    list.push(info);
    assert(views_of(list@) =~= before.push(added));
    table.insert(id, list);
    assert(final(table)@.dom() =~= old(table)@.dom().insert(id));
}

} // verus!
