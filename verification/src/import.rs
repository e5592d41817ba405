//! Deriving the vehicles of a list from the records of the two data sets.

use std::collections::HashMap;
use std::collections::HashSet;
use vstd::prelude::*;
use vstd::std_specs::hash::group_hash_axioms;
use crate::derive::{
    match_and_derive, matched_vehicle, Derived, DerivedVehicle, MatchError, Recipe,
};
use crate::text::{chars_equal, same_text};
use crate::records::{
    views_of, EpaRecord, InputRecord, LabelRecord, OtherInputs, OtherVehicleInputs,
    VehicleDataEPA, VehicleDataFE, VehicleInputRecord,
};
use crate::text::{
    chars_of, contains, contains_text, lower_chars, lowercase, push_text, text_of, trim, trimmed,
};
use crate::vehicle::{RustVehicle, Vehicle};

verus! {

/// The physical inputs that a line of a list of vehicles states.
pub open spec fn other_inputs_of(vir: InputRecord) -> OtherInputs {
    OtherInputs {
        vehicle_width_in: vir.vehicle_width_in,
        vehicle_height_in: vir.vehicle_height_in,
        fuel_tank_gal: vir.fuel_tank_gal,
        ess_max_kwh: vir.ess_max_kwh,
        mc_max_kw: vir.mc_max_kw,
        ess_max_kw: vir.ess_max_kw,
        fc_max_kw: vir.fc_max_kw,
    }
}

/// The form in which makes and models are compared: lower case, without
/// white space at the ends.
pub open spec fn key_text(s: Seq<char>) -> Seq<char> {
    trimmed(lowercase(s))
}

/// Whether the label record is of the year, make and model that the line
/// names.
pub open spec fn describes(fe: LabelRecord, vir: InputRecord) -> bool {
    &&& fe.year == vir.year
    &&& key_text(fe.make) == key_text(vir.make)
    &&& key_text(fe.model) == key_text(vir.model)
}

/// The name under which a vehicle of a list goes: its name with `(EV)` for
/// a battery-electric vehicle, and else with its kind, cylinders,
/// displacement and transmission in brackets.
pub open spec fn listed_name(name: Seq<char>, fe: LabelRecord) -> Seq<char> {
    if fe.alt_veh_type == "EV"@ {
        name + " (EV)"@
    } else {
        let kind = if fe.alt_veh_type.len() == 0 {
            Seq::<char>::empty()
        } else {
            fe.alt_veh_type + ", "@
        };
        name + " ( "@ + kind + " "@ + fe.cylinders + " cylinders, "@ + fe.displ + " L, "@
            + fe.trany + " )"@
    }
}

/// The vehicle of the label record `fe` as a list holds it; none where the
/// vehicle cannot be matched or derived.
pub open spec fn listed_vehicle(fe: LabelRecord, records: Seq<EpaRecord>, inputs: OtherInputs) -> Option<
    DerivedVehicle,
> {
    match matched_vehicle(fe, records, inputs, Recipe::Listed, false) {
        Ok(d) => Some(
            DerivedVehicle {
                vehicle: Vehicle {
                    scenario_name: listed_name(d.vehicle.scenario_name, fe),
                    ..d.vehicle
                },
                ..d
            },
        ),
        Err(_) => None,
    }
}

/// The vehicles of the label records `hits` that can be matched and
/// derived, in the order of `hits`.
pub open spec fn listed_vehicles(
    hits: Seq<LabelRecord>,
    records: Seq<EpaRecord>,
    inputs: OtherInputs,
) -> Seq<DerivedVehicle>
    decreases hits.len(),
{
    if hits.len() == 0 {
        Seq::empty()
    } else {
        let before = listed_vehicles(hits.drop_last(), records, inputs);
        match listed_vehicle(hits.last(), records, inputs) {
            Some(v) => before.push(v),
            None => before,
        }
    }
}

/// The vehicles that the line `vir` of a list gives: those of the label
/// records of its year, make and model.
pub open spec fn imported_for(
    vir: InputRecord,
    fegov: Seq<LabelRecord>,
    records: Seq<EpaRecord>,
) -> Seq<DerivedVehicle> {
    listed_vehicles(
        fegov.filter(|fe: LabelRecord| describes(fe, vir)),
        records,
        other_inputs_of(vir),
    )
}

/// The label records of a year.
pub open spec fn label_records(m: Map<u32, Vec<VehicleDataFE>>, year: u32) -> Seq<LabelRecord> {
    views_of(m[year]@)
}

/// The test records of a year.
pub open spec fn test_records(m: Map<u32, Vec<VehicleDataEPA>>, year: u32) -> Seq<EpaRecord> {
    views_of(m[year]@)
}

/// The vehicles that the lines `inputs` give, in their order: each line
/// gives those of its year, and none where a data set lacks the year.
pub open spec fn imported_all(
    inputs: Seq<InputRecord>,
    fegov: Map<u32, Vec<VehicleDataFE>>,
    epa: Map<u32, Vec<VehicleDataEPA>>,
) -> Seq<DerivedVehicle>
    decreases inputs.len(),
{
    if inputs.len() == 0 {
        Seq::empty()
    } else {
        let before = imported_all(inputs.drop_last(), fegov, epa);
        let vir = inputs.last();
        if fegov.contains_key(vir.year) && epa.contains_key(vir.year) {
            before + imported_for(vir, label_records(fegov, vir.year), test_records(epa, vir.year))
        } else {
            before
        }
    }
}

/// Whether `i` is the first position of `fegov` that holds a record of the
/// identifier `id`.
pub open spec fn is_first_with_id(fegov: Seq<LabelRecord>, id: i32, i: int) -> bool {
    &&& 0 <= i < fegov.len()
    &&& fegov[i].id == id
    &&& forall|j: int| 0 <= j < i ==> (#[trigger] fegov[j]).id != id
}

/// The label record with its drive written the common way: a drive that
/// holds `4-Wheel` is written `All-Wheel Drive`.
pub open spec fn with_common_drive(fe: LabelRecord) -> LabelRecord {
    if contains_text(fe.drive, "4-Wheel"@) {
        LabelRecord { drive: "All-Wheel Drive"@, ..fe }
    } else {
        fe
    }
}

/// The physical inputs that a line of a list of vehicles states.
pub fn vir_to_other_inputs(vir: &VehicleInputRecord) -> (r: OtherVehicleInputs)
    ensures
        r@ == other_inputs_of(vir@),
{
    OtherVehicleInputs {
        vehicle_width_in: vir.vehicle_width_in,
        vehicle_height_in: vir.vehicle_height_in,
        fuel_tank_gal: vir.fuel_tank_gal,
        ess_max_kwh: vir.ess_max_kwh,
        mc_max_kw: vir.mc_max_kw,
        ess_max_kw: vir.ess_max_kw,
        fc_max_kw: vir.fc_max_kw,
    }
}

/// The form in which makes and models are compared.
pub fn key_of(s: &str) -> (key: Vec<char>)
    ensures
        key@ == key_text(s@),
{
    trim(&lower_chars(s))
}

/// The label records of the year, make and model that the line names, in
/// the order of `fegov_data`.
pub fn get_fuel_economy_gov_data_for_input_record(
    vir: &VehicleInputRecord,
    fegov_data: &[VehicleDataFE],
) -> (output: Vec<VehicleDataFE>)
    ensures
        views_of(output@) == views_of(fegov_data@).filter(|fe: LabelRecord| describes(fe, vir@)),
{
    let vir_make = key_of(vir.make.as_str());
    let vir_model = key_of(vir.model.as_str());
    let ghost all = views_of(fegov_data@);
    let ghost wanted = |fe: LabelRecord| describes(fe, vir@);
    let mut output: Vec<VehicleDataFE> = Vec::new();
    let mut k: usize = 0;
    proof {
        assert(all.take(0) =~= Seq::<LabelRecord>::empty());
        reveal(Seq::filter);
        assert(views_of(output@) =~= all.take(0).filter(wanted));
    }
    while k < fegov_data.len()
        invariant
            k <= fegov_data.len(),
            all == views_of(fegov_data@),
            wanted == (|fe: LabelRecord| describes(fe, vir@)),
            vir_make@ == key_text(vir.make@),
            vir_model@ == key_text(vir.model@),
            views_of(output@) == all.take(k as int).filter(wanted),
        decreases fegov_data.len() - k,
    {
        let fedat = &fegov_data[k];
        assert(all[k as int] == fedat@);
        let keep = fedat.year == vir.year && chars_equal(&key_of(fedat.make.as_str()), &vir_make)
            && chars_equal(&key_of(fedat.model.as_str()), &vir_model);
        proof {
            assert(keep == wanted(fedat@));
            assert(all.take(k + 1) =~= all.take(k as int).push(fedat@));
            all.take(k as int).lemma_filter_push(fedat@, wanted);
        }
        if keep {
            let ghost before = views_of(output@);
            output.push(fedat.clone());
            assert(views_of(output@) =~= before.push(fedat@));
        }
        k += 1;
    }
    proof {
        assert(all.take(fegov_data.len() as int) =~= all);
    }
    output
}

/// The name under which a vehicle of a list goes.
pub fn listed_name_of(name: &str, fe: &VehicleDataFE) -> (r: String)
    ensures
        r@ == listed_name(name@, fe@),
{
    let mut out: Vec<char> = Vec::new();
    push_text(&mut out, name);
    if same_text(fe.alt_veh_type.as_str(), "EV") {
        push_text(&mut out, " (EV)");
        assert(out@ =~= listed_name(name@, fe@));
    } else {
        push_text(&mut out, " ( ");
        if fe.alt_veh_type.as_str().unicode_len() != 0 {
            push_text(&mut out, fe.alt_veh_type.as_str());
            push_text(&mut out, ", ");
        }
        push_text(&mut out, " ");
        push_text(&mut out, fe.cylinders.as_str());
        push_text(&mut out, " cylinders, ");
        push_text(&mut out, fe.displ.as_str());
        push_text(&mut out, " L, ");
        push_text(&mut out, fe.trany.as_str());
        push_text(&mut out, " )");
        assert(out@ =~= listed_name(name@, fe@));
    }
    text_of(&out)
}

/// The vehicle of the label record `hit` as a list holds it.
fn import_one(hit: &VehicleDataFE, epatest_data: &[VehicleDataEPA], inputs: &OtherVehicleInputs) -> (r:
    Option<Derived>)
    ensures
        r matches Some(veh) ==> listed_vehicle(hit@, views_of(epatest_data@), inputs@) == Some(
            veh@,
        ),
        r is None ==> listed_vehicle(hit@, views_of(epatest_data@), inputs@) is None,
{
    match match_and_derive(hit, epatest_data, inputs) {
        Ok(found) => {
            let mut vehicle = found.vehicle;
            let name = listed_name_of(vehicle.scenario_name.as_str(), hit);
            vehicle.scenario_name = name;
            Some(Derived { vehicle, test_record: found.test_record })
        },
        Err(_) => None,
    }
}

/// `out` followed by `more`.
fn append_vehicles(out: &mut Vec<Derived>, more: Vec<Derived>)
    ensures
        views_of(final(out)@) == views_of(old(out)@) + views_of(more@),
{
    let ghost before = views_of(out@);
    let mut more = more;
    let ghost all = views_of(more@);
    let n = more.len();
    let mut k: usize = 0;
    while k < n
        invariant
            k <= n,
            n == more.len(),
            all == views_of(more@),
            views_of(out@) == before + all.take(k as int),
        decreases n - k,
    {
        let ghost so_far = views_of(out@);
        let v = more[k].clone();
        out.push(v);
        proof {
            assert(views_of(out@) =~= so_far.push(all[k as int]));
            assert(before + all.take(k + 1) =~= (before + all.take(k as int)).push(all[k as int]));
        }
        k += 1;
    }
    proof {
        assert(all.take(n as int) =~= all);
    }
}

/// Derives the vehicles that the line `vir` of a list gives: one for each
/// label record of its year, make and model that can be matched among
/// `epatest_data` and derived, each with the test record that stands for
/// it. A record that cannot is passed over.
pub fn try_import_vehicles(
    vir: &VehicleInputRecord,
    fegov_data: &[VehicleDataFE],
    epatest_data: &[VehicleDataEPA],
) -> (outputs: Vec<Derived>)
    ensures
        views_of(outputs@) == imported_for(vir@, views_of(fegov_data@), views_of(epatest_data@)),
{
    let other_inputs = vir_to_other_inputs(vir);
    let fegov_hits = get_fuel_economy_gov_data_for_input_record(vir, fegov_data);
    let ghost hits = views_of(fegov_hits@);
    let ghost records = views_of(epatest_data@);
    let mut outputs: Vec<Derived> = Vec::new();
    let mut k: usize = 0;
    assert(views_of(outputs@) =~= listed_vehicles(hits.take(0), records, other_inputs@));
    while k < fegov_hits.len()
        invariant
            k <= fegov_hits.len(),
            hits == views_of(fegov_hits@),
            records == views_of(epatest_data@),
            views_of(outputs@) == listed_vehicles(hits.take(k as int), records, other_inputs@),
        decreases fegov_hits.len() - k,
    {
        let hit = &fegov_hits[k];
        proof {
            assert(hits.take(k + 1).drop_last() =~= hits.take(k as int));
            assert(hits.take(k + 1).last() == hit@);
        }
        if let Some(v) = import_one(hit, epatest_data, &other_inputs) {
            let ghost before = views_of(outputs@);
            let ghost added = v@;
            outputs.push(v);
            assert(views_of(outputs@) =~= before.push(added));
        }
        k += 1;
    }
    proof {
        assert(hits.take(fegov_hits.len() as int) =~= hits);
    }
    outputs
}

/// Derives the vehicles that the lines `inputs` of a list give, from the
/// records of the two data sets by year. A line of a year that a data set
/// lacks gives none.
pub fn import_all_vehicles_from_record(
    inputs: &[VehicleInputRecord],
    fegov_data_by_year: &HashMap<u32, Vec<VehicleDataFE>>,
    epatest_data_by_year: &HashMap<u32, Vec<VehicleDataEPA>>,
) -> (vehs: Vec<Derived>)
    ensures
        views_of(vehs@) == imported_all(
            views_of(inputs@),
            fegov_data_by_year@,
            epatest_data_by_year@,
        ),
{
    broadcast use group_hash_axioms;

    let ghost lines = views_of(inputs@);
    let mut vehs: Vec<Derived> = Vec::new();
    let mut k: usize = 0;
    assert(views_of(vehs@) =~= imported_all(
        lines.take(0),
        fegov_data_by_year@,
        epatest_data_by_year@,
    ));
    while k < inputs.len()
        invariant
            k <= inputs.len(),
            lines == views_of(inputs@),
            views_of(vehs@) == imported_all(
                lines.take(k as int),
                fegov_data_by_year@,
                epatest_data_by_year@,
            ),
        decreases inputs.len() - k,
    {
        let vir = &inputs[k];
        proof {
            assert(lines.take(k + 1).drop_last() =~= lines.take(k as int));
            assert(lines.take(k + 1).last() == vir@);
        }
        if let Some(fegov_data) = fegov_data_by_year.get(&vir.year) {
            if let Some(epatest_data) = epatest_data_by_year.get(&vir.year) {
                let vs = try_import_vehicles(vir, fegov_data.as_slice(), epatest_data.as_slice());
                append_vehicles(&mut vehs, vs);
            }
        }
        k += 1;
    }
    proof {
        assert(lines.take(inputs.len() as int) =~= lines);
    }
    vehs
}

/// The first label record of the identifier `vehicle_id`.
pub fn find_by_id(fegov_data: &[VehicleDataFE], vehicle_id: i32) -> (r: Option<usize>)
    ensures
        r matches Some(i) ==> is_first_with_id(views_of(fegov_data@), vehicle_id, i as int),
        r is None ==> forall|j: int|
            0 <= j < fegov_data.len() ==> (#[trigger] views_of(fegov_data@)[j]).id != vehicle_id,
{
    let mut k: usize = 0;
    while k < fegov_data.len()
        invariant
            k <= fegov_data.len(),
            forall|j: int| 0 <= j < k ==> (#[trigger] views_of(fegov_data@)[j]).id != vehicle_id,
        decreases fegov_data.len() - k,
    {
        if fegov_data[k].id == vehicle_id {
            assert(views_of(fegov_data@)[k as int] == fegov_data@[k as int]@);
            return Some(k);
        }
        assert(views_of(fegov_data@)[k as int] == fegov_data@[k as int]@);
        k += 1;
    }
    None
}

/// Derives the vehicle of the identifier `vehicle_id` from the label
/// records `fegov_data` and the test records `epatest_data` of its year.
///
/// Fails with no candidate where no label record has the identifier, and
/// else as [`match_and_derive`] does on the first record that has it.
pub fn vehicle_import_by_id_and_year(
    vehicle_id: i32,
    fegov_data: &[VehicleDataFE],
    epatest_data: &[VehicleDataEPA],
    other_inputs: &OtherVehicleInputs,
) -> (r: Result<Derived, MatchError>)
    ensures
        (forall|j: int|
            0 <= j < fegov_data.len() ==> (#[trigger] views_of(fegov_data@)[j]).id != vehicle_id)
            ==> r.is_err() && r.unwrap_err() == MatchError::NoCandidates,
        forall|i: int|
            is_first_with_id(views_of(fegov_data@), vehicle_id, i) ==> {
                let found = matched_vehicle(
                    views_of(fegov_data@)[i],
                    views_of(epatest_data@),
                    other_inputs@,
                    Recipe::Listed,
                    false,
                );
                &&& r matches Ok(veh) ==> found == Ok::<DerivedVehicle, MatchError>(veh@)
                &&& r matches Err(e) ==> found == Err::<DerivedVehicle, MatchError>(e)
            },
{
    match find_by_id(fegov_data, vehicle_id) {
        Some(i) => {
            assert(views_of(fegov_data@)[i as int] == fegov_data@[i as int]@);
            match_and_derive(&fegov_data[i], epatest_data, other_inputs)
        },
        None => Err(MatchError::NoCandidates),
    }
}

/// The label records of the make and model, in the order of `fegov_db`.
pub fn get_options_for_year_make_model(fegov_db: &[VehicleDataFE], make: &str, model: &str) -> (hits:
    Vec<VehicleDataFE>)
    ensures
        views_of(hits@) == views_of(fegov_db@).filter(
            |fe: LabelRecord| fe.make == make@ && fe.model == model@,
        ),
{
    let ghost all = views_of(fegov_db@);
    let ghost wanted = |fe: LabelRecord| fe.make == make@ && fe.model == model@;
    let mut hits: Vec<VehicleDataFE> = Vec::new();
    let mut k: usize = 0;
    proof {
        assert(all.take(0) =~= Seq::<LabelRecord>::empty());
        reveal(Seq::filter);
        assert(views_of(hits@) =~= all.take(0).filter(wanted));
    }
    while k < fegov_db.len()
        invariant
            k <= fegov_db.len(),
            all == views_of(fegov_db@),
            wanted == (|fe: LabelRecord| fe.make == make@ && fe.model == model@),
            views_of(hits@) == all.take(k as int).filter(wanted),
        decreases fegov_db.len() - k,
    {
        let item = &fegov_db[k];
        assert(all[k as int] == item@);
        let keep = same_text(item.make.as_str(), make) && same_text(item.model.as_str(), model);
        proof {
            assert(keep == wanted(item@));
            assert(all.take(k + 1) =~= all.take(k as int).push(item@));
            all.take(k as int).lemma_filter_push(item@, wanted);
        }
        if keep {
            let ghost before = views_of(hits@);
            hits.push(item.clone());
            assert(views_of(hits@) =~= before.push(item@));
        }
        k += 1;
    }
    proof {
        assert(all.take(fegov_db.len() as int) =~= all);
    }
    hits
}

/// The reference vehicle where both data sets hold a record; none where
/// either is empty.
pub fn extract_vehicle(
    _input: &VehicleInputRecord,
    fegov_data: &[VehicleDataFE],
    epatest_data: &[VehicleDataEPA],
) -> (r: Option<RustVehicle>)
    ensures
        r is None <==> fegov_data.len() == 0 || epatest_data.len() == 0,
        r matches Some(veh) ==> veh@ == Vehicle::reference(),
{
    if fegov_data.len() == 0 || epatest_data.len() == 0 {
        None
    } else {
        Some(RustVehicle::default())
    }
}

/// Writes the drive of the label record the common way.
pub fn write_common_drive(fe: &mut VehicleDataFE)
    ensures
        final(fe)@ == with_common_drive(old(fe)@),
{
    if contains(&chars_of(fe.drive.as_str()), &chars_of("4-Wheel")) {
        fe.drive = "All-Wheel Drive".to_owned();
    }
}

/// The position of the option to take among `available` options, asked for
/// by `vehicle_options_idx`: the last one where the position asked for is
/// past the end, and none where there is no option.
pub fn option_index(vehicle_options_idx: usize, available: usize) -> (r: Option<usize>)
    ensures
        r == if available == 0 {
            None
        } else if vehicle_options_idx >= available {
            Some((available - 1) as usize)
        } else {
            Some(vehicle_options_idx)
        },
{
    if available == 0 {
        None
    } else if vehicle_options_idx >= available {
        Some(available - 1)
    } else {
        Some(vehicle_options_idx)
    }
}

/// The model years that the lines name.
pub open spec fn model_years(virs: Seq<InputRecord>) -> Set<u32> {
    Set::new(|year: u32| exists|i: int| 0 <= i < virs.len() && (#[trigger] virs[i]).year == year)
}

/// The model years that the lines of a list name.
pub fn determine_model_years_of_interest(virs: &[VehicleInputRecord]) -> (years: HashSet<u32>)
    ensures
        years@ == model_years(views_of(virs@)),
{
    broadcast use group_hash_axioms;

    let ghost lines = views_of(virs@);
    let mut years: HashSet<u32> = HashSet::new();
    let mut k: usize = 0;
    assert(years@ =~= model_years(lines.take(0)));
    while k < virs.len()
        invariant
            k <= virs.len(),
            lines == views_of(virs@),
            years@ == model_years(lines.take(k as int)),
        decreases virs.len() - k,
    {
        let ghost before = lines.take(k as int);
        let ghost after = lines.take(k + 1);
        let year = virs[k].year;
        years.insert(year);
        proof {
            assert(lines[k as int] == virs@[k as int]@);
            assert forall|y: u32| model_years(after).contains(y) <==> model_years(
                before,
            ).insert(year).contains(y) by {
                if model_years(after).contains(y) {
                    let i = choose|i: int| 0 <= i < after.len() && (#[trigger] after[i]).year == y;
                    if i < k {
                        assert(before[i] == after[i]);
                    }
                }
                if model_years(before).contains(y) {
                    let i = choose|i: int|
                        0 <= i < before.len() && (#[trigger] before[i]).year == y;
                    assert(after[i] == before[i]);
                }
                if y == year {
                    assert(after[k as int].year == y);
                }
            }
            assert(years@ =~= model_years(after));
        }
        k += 1;
    }
    proof {
        assert(lines.take(virs.len() as int) =~= lines);
    }
    years
}

} // verus!
