//! Deriving the parameters of a vehicle from its two records.
//!
//! The kind of powertrain decides, by a fixed table, which parameters are
//! constants, which come from the rated power of the test record, and which
//! the caller states. From these follow the glider mass, the frontal area
//! and the fuel energy; the vehicle then derives its curves and masses.

use vstd::prelude::*;
use crate::fixed::{Fixed, SCALE};
use crate::matching::{get_epa_data, match_epatest_with_fegov, matched_record};
use crate::params::{
    atkinson_eff, atkinson_map, lemma_curves_within, lemma_within_is_modest, small_baseline,
    spark_ignition_eff, spark_ignition_map, traction_motor_eff, traction_motor_map, HP_PER_KW_RAW,
    IN_PER_M_RAW, LBS_PER_KG_RAW,
};
use crate::records::{
    views_of, EpaRecord, LabelRecord, OtherInputs, OtherVehicleInputs, VehicleDataEPA,
    VehicleDataFE,
};
use crate::text::{number_text, push_number, push_text, same_text, text_of};
use crate::transmission::ParseError;
use crate::curve::{all_within, Curve};
use crate::fixed::{lemma_quotient_not_positive, lemma_zero_and_one};
use crate::vehicle::{
    has_sound_maps, lemma_sound_maps_pass, zeros, IntegrityViolation, RustVehicle, Vehicle,
    ATKINSON, BEV, CONV, HEV, PHEV, SI,
};

verus! {

/// The kinds of powertrain.
#[derive(Clone, Copy, Debug, PartialEq, Eq, Structural)]
pub enum Powertrain {
    Conventional,
    Hybrid,
    PlugInHybrid,
    BatteryElectric,
}

/// The families of fuel converter efficiency curves that the table uses.
#[derive(Clone, Copy, Debug, PartialEq, Eq, Structural)]
pub enum CurveFamily {
    SparkIgnition,
    Atkinson,
}

/// Why no vehicle could be derived.
#[derive(Clone, Copy, Debug, PartialEq, Eq, Structural)]
pub enum MatchError {
    /// The transmission description of the label record cannot be read.
    Parse(ParseError),
    /// No test record stands for the vehicle.
    NoCandidates,
    /// The tag names no kind of powertrain.
    InvalidPowertrainTag,
    /// The derived vehicle fails a check.
    Integrity(IntegrityViolation),
}

/// The ways in which the three entries differ that derive a vehicle.
#[derive(Clone, Copy, Debug, PartialEq, Eq, Structural)]
pub enum Recipe {
    /// The caller was asked for each input in turn.
    Prompted,
    /// The vehicle was asked for by its identifier.
    Requested,
    /// The vehicle comes from a list of vehicles to derive.
    Listed,
}

/// What the table of powertrains settles.
#[derive(Clone, Copy, Debug, PartialEq, Eq, Structural)]
pub struct PowertrainPolicy {
    /// Fuel storage max power in kW
    pub fs_max_kw: Fixed,
    /// Fuel converter max power in kW
    pub fc_max_kw: Fixed,
    /// The family of the fuel converter, whose curve is its efficiency map
    pub fc_eff_type: CurveFamily,
    /// Motor max power in kW
    pub mc_max_kw: Fixed,
    /// Minimum state of charge
    pub min_soc: Fixed,
    /// Maximum state of charge
    pub max_soc: Fixed,
    /// Battery discharge effort toward max fuel converter efficiency
    pub ess_dischg_to_fc_max_eff_perc: Fixed,
    /// Speed at which the fuel converter must turn on in mph
    pub mph_fc_on: Fixed,
    /// Power demand above which the fuel converter must be on in kW
    pub kw_demand_fc_on: Fixed,
    /// Auxiliary load in kW
    pub aux_kw: Fixed,
    /// Transmission efficiency
    pub trans_eff: Fixed,
    /// Range in miles
    pub val_range_miles: Fixed,
    /// Battery max power in kW
    pub ess_max_kw: Fixed,
    /// Battery energy capacity in kWh
    pub ess_max_kwh: Fixed,
}

impl Powertrain {
    /// The tag by which a vehicle names this kind.
    pub open spec fn tag_text(self) -> Seq<char> {
        match self {
            Powertrain::Conventional => "Conv"@,
            Powertrain::Hybrid => "HEV"@,
            Powertrain::PlugInHybrid => "PHEV"@,
            Powertrain::BatteryElectric => "BEV"@,
        }
    }

    /// The tag by which a vehicle names this kind.
    pub fn tag(self) -> (r: &'static str)
        ensures
            r@ == self.tag_text(),
    {
        match self {
            Powertrain::Conventional => CONV,
            Powertrain::Hybrid => HEV,
            Powertrain::PlugInHybrid => PHEV,
            Powertrain::BatteryElectric => BEV,
        }
    }
}

impl CurveFamily {
    /// The tag by which a vehicle names this family.
    pub open spec fn tag_text(self) -> Seq<char> {
        match self {
            CurveFamily::SparkIgnition => "SI"@,
            CurveFamily::Atkinson => "Atkinson"@,
        }
    }

    /// The efficiency curve of this family.
    pub open spec fn curve(self) -> Seq<Fixed> {
        match self {
            CurveFamily::SparkIgnition => spark_ignition_map(),
            CurveFamily::Atkinson => atkinson_map(),
        }
    }
}

impl Recipe {
    /// The share of width times height that counts as frontal area.
    pub open spec fn frontal_share(self) -> Fixed {
        match self {
            Recipe::Prompted => Fixed { raw: 850_000_000 },
            _ => Fixed { raw: SCALE },
        }
    }

    /// The transmission efficiency of a plug-in hybrid.
    pub open spec fn plug_in_trans_eff(self) -> Fixed {
        match self {
            Recipe::Prompted => Fixed { raw: 950_000_000 },
            _ => Fixed { raw: 980_000_000 },
        }
    }

    /// The efficiency map that the motor starts with: that of a traction
    /// motor for a listed vehicle, else the map of zeros that is yet to be
    /// made.
    pub open spec fn motor_map(self) -> Seq<Fixed> {
        match self {
            Recipe::Listed => traction_motor_map(),
            _ => Seq::new(11, |i: int| Fixed { raw: 0 }),
        }
    }

    /// Whether a battery-electric vehicle keeps the fuel tank that the
    /// caller states.
    pub open spec fn electric_keeps_tank(self) -> bool {
        !(self is Prompted)
    }
}

/// The kind of powertrain that the label data set means by `alt`: a hybrid
/// for `Hybrid`, a plug-in hybrid for `Plug-in Hybrid`, battery-electric for
/// `EV`, and conventional for anything else.
pub open spec fn label_powertrain(alt: Seq<char>) -> Powertrain {
    if alt == "Hybrid"@ {
        Powertrain::Hybrid
    } else if alt == "Plug-in Hybrid"@ {
        Powertrain::PlugInHybrid
    } else if alt == "EV"@ {
        Powertrain::BatteryElectric
    } else {
        Powertrain::Conventional
    }
}

/// The kind of powertrain that a vehicle names by `tag`, if it names one.
pub open spec fn tagged_powertrain(tag: Seq<char>) -> Option<Powertrain> {
    if tag == "Conv"@ {
        Some(Powertrain::Conventional)
    } else if tag == "HEV"@ {
        Some(Powertrain::Hybrid)
    } else if tag == "PHEV"@ {
        Some(Powertrain::PlugInHybrid)
    } else if tag == "BEV"@ {
        Some(Powertrain::BatteryElectric)
    } else {
        None
    }
}

/// The power in kW of `hp` horsepower as the table takes it: `hp` divided
/// by 0.7457.
pub open spec fn rated_kw(hp: u32) -> Fixed {
    Fixed::spec_from_int(hp as int).spec_over(Fixed { raw: HP_PER_KW_RAW })
}

/// The whole number `n` where it is known.
pub open spec fn known(n: i32) -> Option<Fixed> {
    Some(Fixed::spec_from_int(n as int))
}

/// What the table of powertrains settles for a vehicle of kind `pt` with the
/// test record `epa`, the label record `fe` and the caller's `inputs`. The
/// fuel converter of a conventional or battery-electric vehicle is of the
/// spark-ignition family, that of a hybrid or plug-in hybrid of the Atkinson
/// family, and its efficiency map is the curve of its family.
pub open spec fn policy(
    pt: Powertrain,
    epa: EpaRecord,
    fe: LabelRecord,
    inputs: OtherInputs,
    recipe: Recipe,
) -> PowertrainPolicy {
    let rated = rated_kw(epa.eng_pwr_hp);
    let stated = match inputs.fc_max_kw {
        Some(kw) => kw,
        None => rated,
    };
    match pt {
        Powertrain::Conventional => PowertrainPolicy {
            fs_max_kw: Fixed { raw: 2_000_000_000_000 },
            fc_max_kw: rated,
            fc_eff_type: CurveFamily::SparkIgnition,
            mc_max_kw: Fixed { raw: 0 },
            min_soc: Fixed { raw: 100_000_000 },
            max_soc: Fixed { raw: 950_000_000 },
            ess_dischg_to_fc_max_eff_perc: Fixed { raw: 0 },
            mph_fc_on: Fixed { raw: 55_000_000_000 },
            kw_demand_fc_on: Fixed { raw: 100_000_000_000 },
            aux_kw: Fixed { raw: 700_000_000 },
            trans_eff: Fixed { raw: 920_000_000 },
            val_range_miles: Fixed { raw: 0 },
            ess_max_kw: Fixed { raw: 0 },
            ess_max_kwh: Fixed { raw: 0 },
        },
        Powertrain::Hybrid => PowertrainPolicy {
            fs_max_kw: Fixed { raw: 2_000_000_000_000 },
            fc_max_kw: stated,
            fc_eff_type: CurveFamily::Atkinson,
            mc_max_kw: inputs.mc_max_kw,
            min_soc: Fixed { raw: 400_000_000 },
            max_soc: Fixed { raw: 800_000_000 },
            ess_dischg_to_fc_max_eff_perc: Fixed { raw: 0 },
            mph_fc_on: Fixed { raw: 1_000_000_000 },
            kw_demand_fc_on: Fixed { raw: 100_000_000_000 },
            aux_kw: Fixed { raw: 500_000_000 },
            trans_eff: Fixed { raw: 950_000_000 },
            val_range_miles: Fixed { raw: 0 },
            ess_max_kw: inputs.ess_max_kw,
            ess_max_kwh: inputs.ess_max_kwh,
        },
        Powertrain::PlugInHybrid => PowertrainPolicy {
            fs_max_kw: Fixed { raw: 2_000_000_000_000 },
            fc_max_kw: stated,
            fc_eff_type: CurveFamily::Atkinson,
            mc_max_kw: inputs.mc_max_kw,
            min_soc: Fixed { raw: 150_000_000 },
            max_soc: Fixed { raw: 900_000_000 },
            ess_dischg_to_fc_max_eff_perc: Fixed { raw: SCALE },
            mph_fc_on: Fixed { raw: 85_000_000_000 },
            kw_demand_fc_on: Fixed { raw: 120_000_000_000 },
            aux_kw: Fixed { raw: 300_000_000 },
            trans_eff: recipe.plug_in_trans_eff(),
            val_range_miles: Fixed { raw: 0 },
            ess_max_kw: inputs.ess_max_kw,
            ess_max_kwh: inputs.ess_max_kwh,
        },
        Powertrain::BatteryElectric => PowertrainPolicy {
            fs_max_kw: Fixed { raw: 0 },
            fc_max_kw: Fixed { raw: 0 },
            fc_eff_type: CurveFamily::SparkIgnition,
            mc_max_kw: rated,
            min_soc: Fixed { raw: 50_000_000 },
            max_soc: Fixed { raw: 980_000_000 },
            ess_dischg_to_fc_max_eff_perc: Fixed { raw: 0 },
            mph_fc_on: Fixed { raw: 1_000_000_000 },
            kw_demand_fc_on: Fixed { raw: 100_000_000_000 },
            aux_kw: Fixed { raw: 250_000_000 },
            trans_eff: Fixed { raw: 980_000_000 },
            val_range_miles: Fixed::spec_from_int(fe.range_ev as int),
            ess_max_kw: Fixed { raw: 1_050_000_000 }.spec_times(rated),
            ess_max_kwh: inputs.ess_max_kwh,
        },
    }
}

/// What the table settles for a vehicle that names its powertrain by `tag`;
/// nothing where the tag names none.
pub open spec fn policy_of_tag(
    tag: Seq<char>,
    epa: EpaRecord,
    fe: LabelRecord,
    inputs: OtherInputs,
    recipe: Recipe,
) -> Result<PowertrainPolicy, MatchError> {
    match tagged_powertrain(tag) {
        Some(pt) => Ok(policy(pt, epa, fe, inputs, recipe)),
        None => Err(MatchError::InvalidPowertrainTag),
    }
}

/// The mass in kg of the vehicle without cargo, transmission and powertrain:
/// the test weight less cargo, transmission and the masses of fuel storage,
/// fuel converter, motor and battery as the reference vehicle weighs them.
pub open spec fn glider_mass(epa: EpaRecord, p: PowertrainPolicy) -> Fixed {
    let base = Vehicle::reference();
    let fuel = p.fs_max_kw.spec_over(base.fs_kwh_per_kg);
    let converter = base.fc_base_kg.spec_plus(p.fc_max_kw.spec_over(base.fc_kw_per_kg));
    let motor = base.mc_pe_base_kg.spec_plus(p.mc_max_kw.spec_times(base.mc_pe_kg_per_kw));
    let battery = base.ess_base_kg.spec_plus(p.ess_max_kwh.spec_times(base.ess_kg_per_kwh));
    epa.test_weight_lbs.spec_over(Fixed { raw: LBS_PER_KG_RAW }).spec_minus(
        base.cargo_kg,
    ).spec_minus(base.trans_kg).spec_minus(
        base.comp_mass_multiplier.spec_times(
            fuel.spec_plus(converter).spec_plus(motor).spec_plus(battery),
        ),
    )
}

/// The frontal area in m^2 of a vehicle of the given width and height in
/// inches.
pub open spec fn frontal_area(inputs: OtherInputs, recipe: Recipe) -> Fixed {
    recipe.frontal_share().spec_times(inputs.vehicle_width_in).spec_times(
        inputs.vehicle_height_in,
    ).spec_over(Fixed { raw: IN_PER_M_RAW }.spec_times(Fixed { raw: IN_PER_M_RAW }))
}

/// The height of the centre of gravity in m: positive for front-wheel drive,
/// negative for any other.
pub open spec fn centre_of_gravity(fe: LabelRecord) -> Fixed {
    if fe.drive == "Front-Wheel Drive"@ {
        Fixed { raw: 530_000_000 }
    } else {
        Fixed { raw: -530_000_000i64 }
    }
}

/// The fuel that the tank holds in gallons.
pub open spec fn tank_gallons(pt: Powertrain, inputs: OtherInputs, recipe: Recipe) -> Fixed {
    if pt is BatteryElectric && !recipe.electric_keeps_tank() {
        Fixed { raw: 0 }
    } else {
        inputs.fuel_tank_gal
    }
}

/// The name of the vehicle: year, make and model with a space between.
pub open spec fn scenario_text(fe: LabelRecord) -> Seq<char> {
    number_text(fe.year as nat) + seq![' '] + fe.make + seq![' '] + fe.model
}

/// The vehicle as the records and inputs state it, nothing derived yet:
/// the reference vehicle with what the table settles, the glider mass, the
/// frontal area, the fuel energy and the reference fuel economy, without
/// roadway charging, and asking for a motor efficiency peak of 0.95.
pub open spec fn planned(fe: LabelRecord, epa: EpaRecord, inputs: OtherInputs, recipe: Recipe) -> Vehicle {
    let pt = label_powertrain(fe.alt_veh_type);
    let p = policy(pt, epa, fe, inputs, recipe);
    let base = Vehicle::reference();
    Vehicle {
        veh_cg_m: centre_of_gravity(fe),
        glider_kg: glider_mass(epa, p),
        scenario_name: scenario_text(fe),
        selection: 0,
        veh_year: fe.year,
        veh_pt_type: pt.tag_text(),
        drag_coef: Fixed { raw: 0 },
        frontal_area_m2: frontal_area(inputs, recipe),
        fs_kwh: tank_gallons(pt, inputs, recipe).spec_times(base.props.kwh_per_gge),
        idle_fc_kw: p.fc_max_kw.spec_over(Fixed { raw: 100_000_000_000 }),
        mc_eff_map: recipe.motor_map(),
        wheel_rr_coef: Fixed { raw: 0 },
        stop_start: fe.start_stop == "Y"@,
        force_aux_on_fc: false,
        val_udds_mpgge: known(fe.city_mpg_fuel1),
        val_hwy_mpgge: known(fe.highway_mpg_fuel1),
        val_comb_mpgge: known(fe.comb_mpg_fuel1),
        fc_peak_eff_override: None,
        mc_peak_eff_override: Some(Fixed { raw: 950_000_000 }),
        fs_max_kw: p.fs_max_kw,
        fc_max_kw: p.fc_max_kw,
        fc_eff_type: p.fc_eff_type.tag_text(),
        fc_eff_map: p.fc_eff_type.curve(),
        mc_max_kw: p.mc_max_kw,
        min_soc: p.min_soc,
        max_soc: p.max_soc,
        ess_dischg_to_fc_max_eff_perc: p.ess_dischg_to_fc_max_eff_perc,
        mph_fc_on: p.mph_fc_on,
        kw_demand_fc_on: p.kw_demand_fc_on,
        aux_kw: p.aux_kw,
        trans_eff: p.trans_eff,
        val_range_miles: Some(p.val_range_miles),
        ess_max_kwh: p.ess_max_kwh,
        ess_max_kw: p.ess_max_kw,
        max_roadway_chg_kw: Seq::new(0, |i: int| Fixed { raw: 0 }),
        ..base
    }
}

/// The vehicle derived from the two records and the inputs, or why there is
/// none: no candidate where the test record is the empty record, and the
/// check that the vehicle fails where it fails one.
pub open spec fn derived_vehicle(
    fe: LabelRecord,
    epa: EpaRecord,
    inputs: OtherInputs,
    recipe: Recipe,
) -> Result<Vehicle, MatchError> {
    if epa == EpaRecord::empty() {
        Err(MatchError::NoCandidates)
    } else {
        match planned(fe, epa, inputs, recipe).derived() {
            Ok(v) => Ok(v),
            Err(e) => Err(MatchError::Integrity(e)),
        }
    }
}

/// The kind of powertrain that the label data set means by `alt`.
pub fn powertrain_of_label(alt: &str) -> (pt: Powertrain)
    ensures
        pt == label_powertrain(alt@),
{
    if same_text(alt, "Hybrid") {
        Powertrain::Hybrid
    } else if same_text(alt, "Plug-in Hybrid") {
        Powertrain::PlugInHybrid
    } else if same_text(alt, "EV") {
        Powertrain::BatteryElectric
    } else {
        Powertrain::Conventional
    }
}

/// The kind of powertrain that a vehicle names by `tag`.
pub fn powertrain_of_tag(tag: &str) -> (r: Result<Powertrain, MatchError>)
    ensures
        r matches Ok(pt) ==> tagged_powertrain(tag@) == Some(pt),
        r matches Err(e) ==> e == MatchError::InvalidPowertrainTag && tagged_powertrain(tag@)
            is None,
{
    if same_text(tag, CONV) {
        Ok(Powertrain::Conventional)
    } else if same_text(tag, HEV) {
        Ok(Powertrain::Hybrid)
    } else if same_text(tag, PHEV) {
        Ok(Powertrain::PlugInHybrid)
    } else if same_text(tag, BEV) {
        Ok(Powertrain::BatteryElectric)
    } else {
        Err(MatchError::InvalidPowertrainTag)
    }
}

/// The power in kW of `hp` horsepower as the table takes it.
pub fn rated_power_kw(hp: u32) -> (kw: Fixed)
    ensures
        kw == rated_kw(hp),
{
    Fixed::from_int(hp as i64).over(Fixed::from_raw(HP_PER_KW_RAW))
}

/// What the table of powertrains settles for a vehicle of kind `pt`.
pub fn powertrain_policy(
    pt: Powertrain,
    epa: &VehicleDataEPA,
    fe: &VehicleDataFE,
    inputs: &OtherVehicleInputs,
    recipe: Recipe,
) -> (p: PowertrainPolicy)
    ensures
        p == policy(pt, epa@, fe@, inputs@, recipe),
{
    let rated = rated_power_kw(epa.eng_pwr_hp);
    let stated = match inputs.fc_max_kw {
        Some(kw) => kw,
        None => rated,
    };
    match pt {
        Powertrain::Conventional => PowertrainPolicy {
            fs_max_kw: Fixed::from_raw(2_000_000_000_000),
            fc_max_kw: rated,
            fc_eff_type: CurveFamily::SparkIgnition,
            mc_max_kw: Fixed::zero(),
            min_soc: Fixed::from_raw(100_000_000),
            max_soc: Fixed::from_raw(950_000_000),
            ess_dischg_to_fc_max_eff_perc: Fixed::zero(),
            mph_fc_on: Fixed::from_raw(55_000_000_000),
            kw_demand_fc_on: Fixed::from_raw(100_000_000_000),
            aux_kw: Fixed::from_raw(700_000_000),
            trans_eff: Fixed::from_raw(920_000_000),
            val_range_miles: Fixed::zero(),
            ess_max_kw: Fixed::zero(),
            ess_max_kwh: Fixed::zero(),
        },
        Powertrain::Hybrid => PowertrainPolicy {
            fs_max_kw: Fixed::from_raw(2_000_000_000_000),
            fc_max_kw: stated,
            fc_eff_type: CurveFamily::Atkinson,
            mc_max_kw: inputs.mc_max_kw,
            min_soc: Fixed::from_raw(400_000_000),
            max_soc: Fixed::from_raw(800_000_000),
            ess_dischg_to_fc_max_eff_perc: Fixed::zero(),
            mph_fc_on: Fixed::from_raw(1_000_000_000),
            kw_demand_fc_on: Fixed::from_raw(100_000_000_000),
            aux_kw: Fixed::from_raw(500_000_000),
            trans_eff: Fixed::from_raw(950_000_000),
            val_range_miles: Fixed::zero(),
            ess_max_kw: inputs.ess_max_kw,
            ess_max_kwh: inputs.ess_max_kwh,
        },
        Powertrain::PlugInHybrid => PowertrainPolicy {
            fs_max_kw: Fixed::from_raw(2_000_000_000_000),
            fc_max_kw: stated,
            fc_eff_type: CurveFamily::Atkinson,
            mc_max_kw: inputs.mc_max_kw,
            min_soc: Fixed::from_raw(150_000_000),
            max_soc: Fixed::from_raw(900_000_000),
            ess_dischg_to_fc_max_eff_perc: Fixed::one(),
            mph_fc_on: Fixed::from_raw(85_000_000_000),
            kw_demand_fc_on: Fixed::from_raw(120_000_000_000),
            aux_kw: Fixed::from_raw(300_000_000),
            trans_eff: match recipe {
                Recipe::Prompted => Fixed::from_raw(950_000_000),
                _ => Fixed::from_raw(980_000_000),
            },
            val_range_miles: Fixed::zero(),
            ess_max_kw: inputs.ess_max_kw,
            ess_max_kwh: inputs.ess_max_kwh,
        },
        Powertrain::BatteryElectric => PowertrainPolicy {
            fs_max_kw: Fixed::zero(),
            fc_max_kw: Fixed::zero(),
            fc_eff_type: CurveFamily::SparkIgnition,
            mc_max_kw: rated,
            min_soc: Fixed::from_raw(50_000_000),
            max_soc: Fixed::from_raw(980_000_000),
            ess_dischg_to_fc_max_eff_perc: Fixed::zero(),
            mph_fc_on: Fixed::from_raw(1_000_000_000),
            kw_demand_fc_on: Fixed::from_raw(100_000_000_000),
            aux_kw: Fixed::from_raw(250_000_000),
            trans_eff: Fixed::from_raw(980_000_000),
            val_range_miles: Fixed::from_int(fe.range_ev as i64),
            ess_max_kw: Fixed::from_raw(1_050_000_000).times(rated),
            ess_max_kwh: inputs.ess_max_kwh,
        },
    }
}

/// What the table settles for a vehicle that names its powertrain by `tag`.
pub fn powertrain_policy_of_tag(
    tag: &str,
    epa: &VehicleDataEPA,
    fe: &VehicleDataFE,
    inputs: &OtherVehicleInputs,
    recipe: Recipe,
) -> (r: Result<PowertrainPolicy, MatchError>)
    ensures
        r == policy_of_tag(tag@, epa@, fe@, inputs@, recipe),
{
    match powertrain_of_tag(tag) {
        Ok(pt) => Ok(powertrain_policy(pt, epa, fe, inputs, recipe)),
        Err(e) => Err(e),
    }
}

/// The name of the vehicle: year, make and model with a space between.
pub fn scenario_name_of(fe: &VehicleDataFE) -> (name: String)
    ensures
        name@ == scenario_text(fe@),
{
    let mut out: Vec<char> = Vec::new();
    push_number(&mut out, fe.year as u64);
    out.push(' ');
    push_text(&mut out, fe.make.as_str());
    out.push(' ');
    push_text(&mut out, fe.model.as_str());
    assert(out@ =~= scenario_text(fe@));
    text_of(&out)
}

/// The mass in kg of the vehicle without cargo, transmission and powertrain.
fn glider_mass_of(epa: &VehicleDataEPA, p: &PowertrainPolicy, base: &RustVehicle) -> (kg: Fixed)
    requires
        base@ == Vehicle::reference(),
    ensures
        kg == glider_mass(epa@, *p),
{
    let fuel = p.fs_max_kw.over(base.fs_kwh_per_kg);
    let converter = base.fc_base_kg.plus(p.fc_max_kw.over(base.fc_kw_per_kg));
    let motor = base.mc_pe_base_kg.plus(p.mc_max_kw.times(base.mc_pe_kg_per_kw));
    let battery = base.ess_base_kg.plus(p.ess_max_kwh.times(base.ess_kg_per_kwh));
    epa.test_weight_lbs.over(Fixed::from_raw(LBS_PER_KG_RAW)).minus(base.cargo_kg).minus(
        base.trans_kg,
    ).minus(base.comp_mass_multiplier.times(fuel.plus(converter).plus(motor).plus(battery)))
}

/// The frontal area in m^2.
fn frontal_area_of(inputs: &OtherVehicleInputs, recipe: Recipe) -> (area: Fixed)
    ensures
        area == frontal_area(inputs@, recipe),
{
    let share = match recipe {
        Recipe::Prompted => Fixed::from_raw(850_000_000),
        _ => Fixed::one(),
    };
    let inch = Fixed::from_raw(IN_PER_M_RAW);
    share.times(inputs.vehicle_width_in).times(inputs.vehicle_height_in).over(inch.times(inch))
}

/// The efficiency curve of the family.
fn curve_of(family: CurveFamily) -> (curve: Vec<Fixed>)
    ensures
        curve@ == family.curve(),
{
    match family {
        CurveFamily::SparkIgnition => spark_ignition_eff(),
        CurveFamily::Atkinson => atkinson_eff(),
    }
}

/// The tag of the family.
fn family_tag(family: CurveFamily) -> (tag: &'static str)
    ensures
        tag@ == family.tag_text(),
{
    match family {
        CurveFamily::SparkIgnition => SI,
        CurveFamily::Atkinson => ATKINSON,
    }
}

/// The vehicle as the records and inputs state it, nothing derived yet.
pub fn plan_vehicle(
    fe: &VehicleDataFE,
    epa: &VehicleDataEPA,
    inputs: &OtherVehicleInputs,
    recipe: Recipe,
) -> (veh: RustVehicle)
    ensures
        veh@ == planned(fe@, epa@, inputs@, recipe),
{
    let pt = powertrain_of_label(fe.alt_veh_type.as_str());
    let p = powertrain_policy(pt, epa, fe, inputs, recipe);
    let mut veh = RustVehicle::default();
    let glider_kg = glider_mass_of(epa, &p, &veh);
    let veh_cg_m = if same_text(fe.drive.as_str(), "Front-Wheel Drive") {
        Fixed::from_raw(530_000_000)
    } else {
        Fixed::from_raw(-530_000_000)
    };
    let tank = match (pt, recipe) {
        (Powertrain::BatteryElectric, Recipe::Prompted) => Fixed::zero(),
        _ => inputs.fuel_tank_gal,
    };
    let fs_kwh = tank.times(veh.props.kwh_per_gge);
    let mc_eff_map = match recipe {
        Recipe::Listed => traction_motor_eff(),
        _ => zeros(11),
    };
    let stop_start = same_text(fe.start_stop.as_str(), "Y");
    veh.veh_cg_m = veh_cg_m;
    veh.glider_kg = glider_kg;
    veh.scenario_name = scenario_name_of(fe);
    veh.selection = 0;
    veh.veh_year = fe.year;
    veh.veh_pt_type = pt.tag().to_owned();
    veh.drag_coef = Fixed::zero();
    veh.frontal_area_m2 = frontal_area_of(inputs, recipe);
    veh.fs_kwh = fs_kwh;
    veh.idle_fc_kw = p.fc_max_kw.over(Fixed::from_raw(100_000_000_000));
    veh.mc_eff_map = Curve::new(mc_eff_map);
    veh.wheel_rr_coef = Fixed::zero();
    veh.stop_start = stop_start;
    veh.force_aux_on_fc = false;
    veh.val_udds_mpgge = Some(Fixed::from_int(fe.city_mpg_fuel1 as i64));
    veh.val_hwy_mpgge = Some(Fixed::from_int(fe.highway_mpg_fuel1 as i64));
    veh.val_comb_mpgge = Some(Fixed::from_int(fe.comb_mpg_fuel1 as i64));
    veh.fc_peak_eff_override = None;
    veh.mc_peak_eff_override = Some(Fixed::from_raw(950_000_000));
    veh.fs_max_kw = p.fs_max_kw;
    veh.fc_max_kw = p.fc_max_kw;
    veh.fc_eff_type = family_tag(p.fc_eff_type).to_owned();
    veh.fc_eff_map = Curve::new(curve_of(p.fc_eff_type));
    veh.mc_max_kw = p.mc_max_kw;
    veh.min_soc = p.min_soc;
    veh.max_soc = p.max_soc;
    veh.ess_dischg_to_fc_max_eff_perc = p.ess_dischg_to_fc_max_eff_perc;
    veh.mph_fc_on = p.mph_fc_on;
    veh.kw_demand_fc_on = p.kw_demand_fc_on;
    veh.aux_kw = p.aux_kw;
    veh.trans_eff = p.trans_eff;
    veh.val_range_miles = Some(p.val_range_miles);
    veh.ess_max_kwh = p.ess_max_kwh;
    veh.ess_max_kw = p.ess_max_kw;
    veh.max_roadway_chg_kw = Curve::new(zeros(0));
    veh
}

/// Derives the vehicle of the label record `fe` from the test record `epa`
/// and the caller's `inputs`. The drag and rolling resistance coefficients
/// are left at zero, to be fitted to the road load of the test record.
pub fn derive_vehicle(
    fe: &VehicleDataFE,
    epa: &VehicleDataEPA,
    inputs: &OtherVehicleInputs,
    recipe: Recipe,
) -> (r: Result<RustVehicle, MatchError>)
    ensures
        r matches Ok(veh) ==> derived_vehicle(fe@, epa@, inputs@, recipe) == Ok::<
            Vehicle,
            MatchError,
        >(veh@),
        r matches Err(e) ==> derived_vehicle(fe@, epa@, inputs@, recipe) == Err::<
            Vehicle,
            MatchError,
        >(e),
        label_powertrain(fe@.alt_veh_type) == Powertrain::Conventional && epa@
            != EpaRecord::empty() ==> (r matches Ok(veh) && veh@.veh_pt_type == "Conv"@
            && veh@.fc_max_kw == rated_kw(epa@.eng_pwr_hp)),
{
    let empty = VehicleDataEPA::default();
    if *epa == empty {
        return Err(MatchError::NoCandidates);
    }
    proof {
        if label_powertrain(fe@.alt_veh_type) == Powertrain::Conventional {
            lemma_conventional_derives(fe@, epa@, inputs@, recipe);
        }
    }
    let mut veh = plan_vehicle(fe, epa, inputs, recipe);
    match veh.set_derived() {
        Ok(()) => Ok(veh),
        Err(e) => Err(MatchError::Integrity(e)),
    }
}

/// Tries to make the vehicle of a list of vehicles to derive from its two
/// records. Gives none where the test record is the empty record or the
/// vehicle fails a check. A conventional vehicle of a test record that is
/// not empty always comes about, with a fuel converter of the rated power of
/// the record.
pub fn try_make_single_vehicle(
    fe_gov_data: &VehicleDataFE,
    epa_data: &VehicleDataEPA,
    other_inputs: &OtherVehicleInputs,
) -> (r: Option<RustVehicle>)
    ensures
        r matches Some(veh) ==> derived_vehicle(
            fe_gov_data@,
            epa_data@,
            other_inputs@,
            Recipe::Listed,
        ) == Ok::<Vehicle, MatchError>(veh@),
        r is None ==> derived_vehicle(fe_gov_data@, epa_data@, other_inputs@, Recipe::Listed)
            is Err,
        label_powertrain(fe_gov_data@.alt_veh_type) == Powertrain::Conventional && epa_data@
            != EpaRecord::empty() ==> (r matches Some(veh) && veh@.veh_pt_type == "Conv"@
            && veh@.fc_max_kw == rated_kw(epa_data@.eng_pwr_hp)),
{
    match derive_vehicle(fe_gov_data, epa_data, other_inputs, Recipe::Listed) {
        Ok(veh) => Some(veh),
        Err(_) => None,
    }
}

/// A derived vehicle with the test record that it was derived from.
#[derive(Debug)]
pub struct Derived {
    /// The vehicle, its drag and rolling resistance coefficients left at zero
    pub vehicle: RustVehicle,
    /// The test record, whose road load the coefficients are to be fitted to
    pub test_record: VehicleDataEPA,
}

/// What a [`Derived`] holds.
pub struct DerivedVehicle {
    pub vehicle: Vehicle,
    pub test_record: EpaRecord,
}

impl View for Derived {
    type V = DerivedVehicle;

    open spec fn view(&self) -> DerivedVehicle {
        DerivedVehicle { vehicle: self.vehicle@, test_record: self.test_record@ }
    }
}

impl Clone for Derived {
    fn clone(&self) -> (r: Derived)
        ensures
            r@ == self@,
    {
        Derived { vehicle: self.vehicle.clone(), test_record: self.test_record.clone() }
    }
}

/// The vehicle that matching and deriving give for the label record `fe`
/// and the test records `records`, with the test record that stands for it,
/// or why there is none.
pub open spec fn matched_vehicle(
    fe: LabelRecord,
    records: Seq<EpaRecord>,
    inputs: OtherInputs,
    recipe: Recipe,
    by_code: bool,
) -> Result<DerivedVehicle, MatchError> {
    match matched_record(records, fe, by_code) {
        Ok(epa) => match derived_vehicle(fe, epa, inputs, recipe) {
            Ok(v) => Ok(DerivedVehicle { vehicle: v, test_record: epa }),
            Err(e) => Err(e),
        },
        Err(e) => Err(MatchError::Parse(e)),
    }
}

/// Derives the vehicle from the test record and keeps the record with it.
fn derive_with_record(
    fe: &VehicleDataFE,
    epa: VehicleDataEPA,
    inputs: &OtherVehicleInputs,
    recipe: Recipe,
) -> (r: Result<Derived, MatchError>)
    ensures
        r matches Ok(d) ==> derived_vehicle(fe@, epa@, inputs@, recipe) == Ok::<Vehicle, MatchError>(
            d@.vehicle,
        ) && d@.test_record == epa@,
        r matches Err(e) ==> derived_vehicle(fe@, epa@, inputs@, recipe) == Err::<
            Vehicle,
            MatchError,
        >(e),
{
    match derive_vehicle(fe, &epa, inputs, recipe) {
        Ok(vehicle) => Ok(Derived { vehicle, test_record: epa }),
        Err(e) => Err(e),
    }
}

/// Finds the test record that stands for the vehicle of the label record
/// among `epa_records` and derives the vehicle from the two.
///
/// Fails where the transmission description cannot be read, where no test
/// record stands for the vehicle, and where the derived vehicle fails a
/// check.
pub fn match_and_derive(
    fe_record: &VehicleDataFE,
    epa_records: &[VehicleDataEPA],
    physical_inputs: &OtherVehicleInputs,
) -> (r: Result<Derived, MatchError>)
    ensures
        r matches Ok(veh) ==> matched_vehicle(
            fe_record@,
            views_of(epa_records@),
            physical_inputs@,
            Recipe::Listed,
            false,
        ) == Ok::<DerivedVehicle, MatchError>(veh@),
        r matches Err(e) ==> matched_vehicle(
            fe_record@,
            views_of(epa_records@),
            physical_inputs@,
            Recipe::Listed,
            false,
        ) == Err::<DerivedVehicle, MatchError>(e),
{
    match match_epatest_with_fegov(fe_record, epa_records) {
        Ok(epa) => derive_with_record(fe_record, epa, physical_inputs, Recipe::Listed),
        Err(e) => Err(MatchError::Parse(e)),
    }
}

/// Derives the vehicle of the label record `fe_gov_data`, for which the
/// caller was asked for each input in turn, from the test records
/// `epa_data`.
pub fn vehicle_import(
    fe_gov_data: &VehicleDataFE,
    epa_data: &[VehicleDataEPA],
    inputs: &OtherVehicleInputs,
) -> (r: Result<Derived, MatchError>)
    ensures
        r matches Ok(veh) ==> matched_vehicle(
            fe_gov_data@,
            views_of(epa_data@),
            inputs@,
            Recipe::Prompted,
            true,
        ) == Ok::<DerivedVehicle, MatchError>(veh@),
        r matches Err(e) ==> matched_vehicle(
            fe_gov_data@,
            views_of(epa_data@),
            inputs@,
            Recipe::Prompted,
            true,
        ) == Err::<DerivedVehicle, MatchError>(e),
{
    match get_epa_data(fe_gov_data, epa_data) {
        Ok(epa) => derive_with_record(fe_gov_data, epa, inputs, Recipe::Prompted),
        Err(e) => Err(MatchError::Parse(e)),
    }
}

/// Derives the vehicle of the label record `fe_gov_data`, which was asked
/// for by its identifier, from the test records `epa_data`.
pub fn vehicle_import_from_id(
    fe_gov_data: &VehicleDataFE,
    epa_data: &[VehicleDataEPA],
    other_inputs: &OtherVehicleInputs,
) -> (r: Result<Derived, MatchError>)
    ensures
        r matches Ok(veh) ==> matched_vehicle(
            fe_gov_data@,
            views_of(epa_data@),
            other_inputs@,
            Recipe::Requested,
            true,
        ) == Ok::<DerivedVehicle, MatchError>(veh@),
        r matches Err(e) ==> matched_vehicle(
            fe_gov_data@,
            views_of(epa_data@),
            other_inputs@,
            Recipe::Requested,
            true,
        ) == Err::<DerivedVehicle, MatchError>(e),
{
    match get_epa_data(fe_gov_data, epa_data) {
        Ok(epa) => derive_with_record(fe_gov_data, epa, other_inputs, Recipe::Requested),
        Err(e) => Err(MatchError::Parse(e)),
    }
}

/// A conventional vehicle has a fuel converter of the rated power of its
/// test record, taken from horsepower to kW, and neither motor nor battery.
pub proof fn lemma_conventional_power(
    fe: LabelRecord,
    epa: EpaRecord,
    inputs: OtherInputs,
    recipe: Recipe,
)
    requires
        label_powertrain(fe.alt_veh_type) == Powertrain::Conventional,
    ensures
        planned(fe, epa, inputs, recipe).fc_max_kw == rated_kw(epa.eng_pwr_hp),
        planned(fe, epa, inputs, recipe).mc_max_kw.raw == 0,
        planned(fe, epa, inputs, recipe).ess_max_kw.raw == 0,
        planned(fe, epa, inputs, recipe).ess_max_kwh.raw == 0,
{
}

/// A battery-electric vehicle has neither fuel converter nor fuel storage
/// power, a motor of the rated power of its test record, and a battery of
/// 1.05 times that power.
pub proof fn lemma_electric_power(
    fe: LabelRecord,
    epa: EpaRecord,
    inputs: OtherInputs,
    recipe: Recipe,
)
    requires
        label_powertrain(fe.alt_veh_type) == Powertrain::BatteryElectric,
    ensures
        planned(fe, epa, inputs, recipe).fc_max_kw.raw == 0,
        planned(fe, epa, inputs, recipe).fs_max_kw.raw == 0,
        planned(fe, epa, inputs, recipe).mc_max_kw == rated_kw(epa.eng_pwr_hp),
        planned(fe, epa, inputs, recipe).ess_max_kw == (Fixed { raw: 1_050_000_000 }).spec_times(
            rated_kw(epa.eng_pwr_hp),
        ),
{
}

/// What a caller is asked for, one at a time.
#[derive(Clone, Copy, Debug, PartialEq, Eq, Structural)]
pub enum Prompt {
    VehicleWidth,
    VehicleHeight,
    FuelTank,
    BatteryEnergy,
    FuelConverterPower,
    MotorPower,
    BatteryPower,
}

impl Prompt {
    /// The words in which the caller is asked.
    pub open spec fn text(self) -> Seq<char> {
        match self {
            Prompt::VehicleWidth => "Please enter vehicle width in inches:"@,
            Prompt::VehicleHeight => "Please enter vehicle height in inches:"@,
            Prompt::FuelTank => "Please enter vehicle's fuel tank capacity in gallons:"@,
            Prompt::BatteryEnergy => "Please enter vehicle's battery energy in kWh:"@,
            Prompt::FuelConverterPower => "Please enter fuel converter power in kW:"@,
            Prompt::MotorPower => "Please enter motor power in kW:"@,
            Prompt::BatteryPower => "Please enter battery power in kW:"@,
        }
    }

    /// The words in which the caller is asked.
    pub fn words(self) -> (r: &'static str)
        ensures
            r@ == self.text(),
    {
        match self {
            Prompt::VehicleWidth => "Please enter vehicle width in inches:",
            Prompt::VehicleHeight => "Please enter vehicle height in inches:",
            Prompt::FuelTank => "Please enter vehicle's fuel tank capacity in gallons:",
            Prompt::BatteryEnergy => "Please enter vehicle's battery energy in kWh:",
            Prompt::FuelConverterPower => "Please enter fuel converter power in kW:",
            Prompt::MotorPower => "Please enter motor power in kW:",
            Prompt::BatteryPower => "Please enter battery power in kW:",
        }
    }
}

/// What a caller is asked for a vehicle of the kind, in this order: width
/// and height; the fuel tank, unless the vehicle is battery-electric; the
/// battery energy, unless it is conventional; and for a hybrid or plug-in
/// hybrid the power of fuel converter, motor and battery.
pub open spec fn prompts(pt: Powertrain) -> Seq<Prompt> {
    match pt {
        Powertrain::Conventional => seq![
            Prompt::VehicleWidth,
            Prompt::VehicleHeight,
            Prompt::FuelTank,
        ],
        Powertrain::Hybrid => seq![
            Prompt::VehicleWidth,
            Prompt::VehicleHeight,
            Prompt::FuelTank,
            Prompt::BatteryEnergy,
            Prompt::FuelConverterPower,
            Prompt::MotorPower,
            Prompt::BatteryPower,
        ],
        Powertrain::PlugInHybrid => seq![
            Prompt::VehicleWidth,
            Prompt::VehicleHeight,
            Prompt::FuelTank,
            Prompt::BatteryEnergy,
            Prompt::FuelConverterPower,
            Prompt::MotorPower,
            Prompt::BatteryPower,
        ],
        Powertrain::BatteryElectric => seq![
            Prompt::VehicleWidth,
            Prompt::VehicleHeight,
            Prompt::BatteryEnergy,
        ],
    }
}

/// The answer to the prompt among the answers to `asked`, given in their
/// order; zero where the prompt was not asked.
pub open spec fn answer_to(asked: Seq<Prompt>, answers: Seq<Fixed>, prompt: Prompt) -> Fixed
    decreases asked.len(),
{
    if asked.len() == 0 || answers.len() < asked.len() {
        Fixed { raw: 0 }
    } else if asked.last() == prompt {
        answers[asked.len() - 1]
    } else {
        answer_to(asked.drop_last(), answers, prompt)
    }
}

/// The physical inputs that the answers state for a vehicle of the kind;
/// none where there are not as many answers as prompts.
pub open spec fn answered(pt: Powertrain, answers: Seq<Fixed>) -> Option<OtherInputs> {
    let asked = prompts(pt);
    if answers.len() != asked.len() {
        None
    } else {
        Some(
            OtherInputs {
                vehicle_width_in: answer_to(asked, answers, Prompt::VehicleWidth),
                vehicle_height_in: answer_to(asked, answers, Prompt::VehicleHeight),
                fuel_tank_gal: answer_to(asked, answers, Prompt::FuelTank),
                ess_max_kwh: answer_to(asked, answers, Prompt::BatteryEnergy),
                mc_max_kw: answer_to(asked, answers, Prompt::MotorPower),
                ess_max_kw: answer_to(asked, answers, Prompt::BatteryPower),
                fc_max_kw: if asked.contains(Prompt::FuelConverterPower) {
                    Some(answer_to(asked, answers, Prompt::FuelConverterPower))
                } else {
                    None
                },
            },
        )
    }
}

/// What a caller is asked for a vehicle of the kind, in their order.
pub fn prompts_for(pt: Powertrain) -> (asked: Vec<Prompt>)
    ensures
        asked@ == prompts(pt),
{
    let mut asked: Vec<Prompt> = Vec::new();
    asked.push(Prompt::VehicleWidth);
    asked.push(Prompt::VehicleHeight);
    match pt {
        Powertrain::Conventional => {
            asked.push(Prompt::FuelTank);
        },
        Powertrain::BatteryElectric => {
            asked.push(Prompt::BatteryEnergy);
        },
        _ => {
            asked.push(Prompt::FuelTank);
            asked.push(Prompt::BatteryEnergy);
            asked.push(Prompt::FuelConverterPower);
            asked.push(Prompt::MotorPower);
            asked.push(Prompt::BatteryPower);
        },
    }
    assert(asked@ =~= prompts(pt));
    asked
}

fn answer_of(asked: &Vec<Prompt>, answers: &Vec<Fixed>, prompt: Prompt) -> (r: (Fixed, bool))
    requires
        answers.len() == asked.len(),
    ensures
        r.0 == answer_to(asked@, answers@, prompt),
        r.1 == asked@.contains(prompt),
{
    let mut k: usize = asked.len();
    proof {
        assert(asked@.take(asked.len() as int) =~= asked@);
    }
    while k > 0
        invariant
            k <= asked.len(),
            answers.len() == asked.len(),
            answer_to(asked@, answers@, prompt) == answer_to(asked@.take(k as int), answers@, prompt),
            forall|j: int| k <= j < asked.len() ==> asked@[j] != prompt,
        decreases k,
    {
        proof {
            assert(asked@.take(k as int).drop_last() =~= asked@.take(k - 1));
            assert(asked@.take(k as int).last() == asked@[k - 1]);
        }
        if asked[k - 1] == prompt {
            return (answers[k - 1], true);
        }
        k -= 1;
    }
    proof {
        assert(asked@.take(0).len() == 0);
    }
    (Fixed::zero(), false)
}

/// The physical inputs that the answers to the prompts state for a vehicle
/// of the kind.
pub fn inputs_of_answers(pt: Powertrain, answers: &Vec<Fixed>) -> (r: Option<OtherVehicleInputs>)
    ensures
        r is Some <==> answered(pt, answers@) is Some,
        r matches Some(inputs) ==> answered(pt, answers@) == Some(inputs@),
{
    let asked = prompts_for(pt);
    if answers.len() != asked.len() {
        return None;
    }
    let (fc_max_kw, stated) = answer_of(&asked, answers, Prompt::FuelConverterPower);
    Some(
        OtherVehicleInputs {
            vehicle_width_in: answer_of(&asked, answers, Prompt::VehicleWidth).0,
            vehicle_height_in: answer_of(&asked, answers, Prompt::VehicleHeight).0,
            fuel_tank_gal: answer_of(&asked, answers, Prompt::FuelTank).0,
            ess_max_kwh: answer_of(&asked, answers, Prompt::BatteryEnergy).0,
            mc_max_kw: answer_of(&asked, answers, Prompt::MotorPower).0,
            ess_max_kw: answer_of(&asked, answers, Prompt::BatteryPower).0,
            fc_max_kw: if stated {
                Some(fc_max_kw)
            } else {
                None
            },
        },
    )
}

/// The efficiency map of a motor without power, mixed from the baselines,
/// is the small baseline.
proof fn lemma_blend_without_power(v: Vehicle)
    requires
        v.mc_max_kw.raw == 0,
        v.small_motor_power_kw.raw == 7_500_000_000,
        v.large_motor_power_kw.raw == 75_000_000_000,
    ensures
        v.blended_map() == small_baseline(),
{
    reveal(Fixed::spec_minus);
    lemma_curves_within();
    let below = v.mc_max_kw.spec_minus(v.small_motor_power_kw);
    let span = v.large_motor_power_kw.spec_minus(v.small_motor_power_kw);
    assert(below.raw == -7_500_000_000);
    assert(span.raw == 67_500_000_000);
    lemma_quotient_not_positive(below, span);
    let share = v.large_share();
    assert(share.raw == 0);
    assert(share == Fixed { raw: 0 });
    let rest = (Fixed { raw: SCALE }).spec_minus(share);
    assert(rest == Fixed { raw: SCALE });
    let modern = v.modern_baseline();
    assert forall|i: int| 0 <= i < 11 implies #[trigger] v.blended_map()[i]
        == small_baseline()[i] by {
        lemma_zero_and_one(modern[i]);
        lemma_zero_and_one(small_baseline()[i]);
        assert(share.spec_times(modern[i]) == Fixed { raw: 0 });
    }
    assert(v.blended_map() =~= small_baseline());
}

/// A conventional vehicle passes its checks: it comes about from every test
/// record, as a vehicle of the conventional kind with a fuel converter of
/// the rated power of the record.
pub proof fn lemma_conventional_derives(
    fe: LabelRecord,
    epa: EpaRecord,
    inputs: OtherInputs,
    recipe: Recipe,
)
    requires
        label_powertrain(fe.alt_veh_type) == Powertrain::Conventional,
    ensures
        planned(fe, epa, inputs, recipe).derived() is Ok,
        planned(fe, epa, inputs, recipe).derived()->Ok_0.veh_pt_type == "Conv"@,
        planned(fe, epa, inputs, recipe).derived()->Ok_0.fc_max_kw == rated_kw(epa.eng_pwr_hp),
{
    let v = planned(fe, epa, inputs, recipe);
    lemma_curves_within();
    lemma_within_is_modest(v.fc_perc_out_array, 0, 1_000_000_000);
    lemma_within_is_modest(v.fc_pwr_out_perc, 0, 1_000_000_000);
    lemma_within_is_modest(v.mc_perc_out_array, 0, 1_000_000_000);
    lemma_within_is_modest(v.mc_pwr_out_perc, 0, 1_000_000_000);
    assert(v.fc_eff_map == spark_ignition_map());
    assert(all_within(v.fc_eff_map, 0, SCALE - 1)) by {
        assert forall|i: int| 0 <= i < v.fc_eff_map.len() implies 0 <= (
        #[trigger] v.fc_eff_map[i]).raw <= SCALE - 1 by {
            assert(100_000_000 <= spark_ignition_map()[i].raw <= 360_000_000);
        }
    }
    assert(v.mc_eff_map == recipe.motor_map());
    let map = v.motor_map();
    assert(all_within(map, 1, SCALE - 1) && map.len() == 11) by {
        if recipe is Listed {
            assert(410_000_000 <= traction_motor_map()[0].raw);
            assert(!crate::vehicle::is_unset_map(v.mc_eff_map));
            assert forall|i: int| 0 <= i < map.len() implies 1 <= (#[trigger] map[i]).raw
                <= SCALE - 1 by {
                assert(410_000_000 <= traction_motor_map()[i].raw <= 940_000_000);
            }
        } else {
            assert(crate::vehicle::is_unset_map(v.mc_eff_map));
            lemma_blend_without_power(v);
            assert forall|i: int| 0 <= i < map.len() implies 1 <= (#[trigger] map[i]).raw
                <= SCALE - 1 by {
                assert(120_000_000 <= small_baseline()[i].raw <= 930_000_000);
            }
        }
    }
    assert(has_sound_maps(v));
    lemma_sound_maps_pass(v);
    reveal_strlit("Conv");
    reveal_strlit("BEV");
    assert("Conv"@.len() != "BEV"@.len());
    assert(v.veh_pt_type == "Conv"@);
    assert(v.powertrain_violation() is None);
    let d = v.with_curves().with_mass();
    assert(v.derived() == Ok::<Vehicle, IntegrityViolation>(d));
    assert(v.with_curves().fc_max_kw == v.fc_max_kw);
    assert(v.with_curves().veh_pt_type == v.veh_pt_type);
}

/// A rated power of 169 horsepower is taken as 226.632694112 kW.
pub proof fn lemma_rated_power_of_169_hp()
    ensures
        rated_kw(169).raw == 226_632_694_112,
{
    reveal(Fixed::spec_over);
    assert(169 * 1_000_000_000 == 169_000_000_000) by (nonlinear_arith);
    assert(169_000_000_000 * 1_000_000_000 == 169_000_000_000_000_000_000) by (nonlinear_arith);
    assert(169_000_000_000_000_000_000int / 745_700_000 == 226_632_694_112) by (nonlinear_arith);
}

} // verus!
