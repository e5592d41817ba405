//! The records that the two data sets provide.

use vstd::prelude::*;
use vstd::std_specs::cmp::PartialEqSpecImpl;
use crate::fixed::Fixed;

verus! {

/// One tested vehicle of the regulatory test data set.
#[derive(Debug)]
pub struct VehicleDataEPA {
    /// Model year
    pub year: u32,
    /// Vehicle manufacturer code
    pub mfr_code: String,
    /// Vehicle make
    pub make: String,
    /// Vehicle model
    pub model: String,
    /// Vehicle test group
    pub test_id: String,
    /// Engine displacement in litres
    pub displ: Fixed,
    /// Engine power in hp
    pub eng_pwr_hp: u32,
    /// Number of cylinders
    pub cylinders: String,
    /// Transmission type code
    pub trany_code: String,
    /// Transmission type
    pub trany_type: String,
    /// Number of gears
    pub gears: u32,
    /// Drive system code
    pub drive_code: String,
    /// Drive system type
    pub drive: String,
    /// Test weight in lbs
    pub test_weight_lbs: Fixed,
    /// Fuel type used for the test
    pub test_fuel_type: String,
    /// Road-load coefficient a in lbf
    pub a_lbf: Fixed,
    /// Road-load coefficient b in lbf/mph
    pub b_lbf_per_mph: Fixed,
    /// Road-load coefficient c in lbf/mph^2
    pub c_lbf_per_mph2: Fixed,
}

/// What a [`VehicleDataEPA`] holds.
pub struct EpaRecord {
    pub year: u32,
    pub mfr_code: Seq<char>,
    pub make: Seq<char>,
    pub model: Seq<char>,
    pub test_id: Seq<char>,
    pub displ: Fixed,
    pub eng_pwr_hp: u32,
    pub cylinders: Seq<char>,
    pub trany_code: Seq<char>,
    pub trany_type: Seq<char>,
    pub gears: u32,
    pub drive_code: Seq<char>,
    pub drive: Seq<char>,
    pub test_weight_lbs: Fixed,
    pub test_fuel_type: Seq<char>,
    pub a_lbf: Fixed,
    pub b_lbf_per_mph: Fixed,
    pub c_lbf_per_mph2: Fixed,
}

impl View for VehicleDataEPA {
    type V = EpaRecord;

    open spec fn view(&self) -> EpaRecord {
        EpaRecord {
            year: self.year,
            mfr_code: self.mfr_code@,
            make: self.make@,
            model: self.model@,
            test_id: self.test_id@,
            displ: self.displ,
            eng_pwr_hp: self.eng_pwr_hp,
            cylinders: self.cylinders@,
            trany_code: self.trany_code@,
            trany_type: self.trany_type@,
            gears: self.gears,
            drive_code: self.drive_code@,
            drive: self.drive@,
            test_weight_lbs: self.test_weight_lbs,
            test_fuel_type: self.test_fuel_type@,
            a_lbf: self.a_lbf,
            b_lbf_per_mph: self.b_lbf_per_mph,
            c_lbf_per_mph2: self.c_lbf_per_mph2,
        }
    }
}

impl EpaRecord {
    /// The record in which every text is empty and every number zero.
    pub open spec fn empty() -> EpaRecord {
        EpaRecord {
            year: 0,
            mfr_code: Seq::empty(),
            make: Seq::empty(),
            model: Seq::empty(),
            test_id: Seq::empty(),
            displ: Fixed { raw: 0 },
            eng_pwr_hp: 0,
            cylinders: Seq::empty(),
            trany_code: Seq::empty(),
            trany_type: Seq::empty(),
            gears: 0,
            drive_code: Seq::empty(),
            drive: Seq::empty(),
            test_weight_lbs: Fixed { raw: 0 },
            test_fuel_type: Seq::empty(),
            a_lbf: Fixed { raw: 0 },
            b_lbf_per_mph: Fixed { raw: 0 },
            c_lbf_per_mph2: Fixed { raw: 0 },
        }
    }
}

impl Default for VehicleDataEPA {
    fn default() -> (r: VehicleDataEPA)
        ensures
            r@ == EpaRecord::empty(),
    {
        VehicleDataEPA {
            year: 0,
            mfr_code: String::new(),
            make: String::new(),
            model: String::new(),
            test_id: String::new(),
            displ: Fixed::zero(),
            eng_pwr_hp: 0,
            cylinders: String::new(),
            trany_code: String::new(),
            trany_type: String::new(),
            gears: 0,
            drive_code: String::new(),
            drive: String::new(),
            test_weight_lbs: Fixed::zero(),
            test_fuel_type: String::new(),
            a_lbf: Fixed::zero(),
            b_lbf_per_mph: Fixed::zero(),
            c_lbf_per_mph2: Fixed::zero(),
        }
    }
}

impl Clone for VehicleDataEPA {
    fn clone(&self) -> (r: VehicleDataEPA)
        ensures
            r@ == self@,
    {
        VehicleDataEPA {
            year: self.year,
            mfr_code: self.mfr_code.clone(),
            make: self.make.clone(),
            model: self.model.clone(),
            test_id: self.test_id.clone(),
            displ: self.displ,
            eng_pwr_hp: self.eng_pwr_hp,
            cylinders: self.cylinders.clone(),
            trany_code: self.trany_code.clone(),
            trany_type: self.trany_type.clone(),
            gears: self.gears,
            drive_code: self.drive_code.clone(),
            drive: self.drive.clone(),
            test_weight_lbs: self.test_weight_lbs,
            test_fuel_type: self.test_fuel_type.clone(),
            a_lbf: self.a_lbf,
            b_lbf_per_mph: self.b_lbf_per_mph,
            c_lbf_per_mph2: self.c_lbf_per_mph2,
        }
    }
}

impl PartialEq for VehicleDataEPA {
    fn eq(&self, other: &VehicleDataEPA) -> (r: bool) {
        self.year == other.year && self.mfr_code == other.mfr_code && self.make == other.make
            && self.model == other.model && self.test_id == other.test_id && self.displ
            == other.displ && self.eng_pwr_hp == other.eng_pwr_hp && self.cylinders
            == other.cylinders && self.trany_code == other.trany_code && self.trany_type
            == other.trany_type && self.gears == other.gears && self.drive_code
            == other.drive_code && self.drive == other.drive && self.test_weight_lbs
            == other.test_weight_lbs && self.test_fuel_type == other.test_fuel_type && self.a_lbf
            == other.a_lbf && self.b_lbf_per_mph == other.b_lbf_per_mph && self.c_lbf_per_mph2
            == other.c_lbf_per_mph2
    }
}

impl PartialEqSpecImpl for VehicleDataEPA {
    open spec fn obeys_eq_spec() -> bool {
        true
    }

    open spec fn eq_spec(&self, other: &VehicleDataEPA) -> bool {
        self@ == other@
    }
}

/// The views of the items of `s`, in their order.
pub open spec fn views_of<T: View>(s: Seq<T>) -> Seq<T::V> {
    Seq::new(s.len(), |i: int| s[i]@)
}

/// The transmission and the identifier of one option that the label data set offers for a vehicle.
#[derive(Debug, PartialEq)]
pub struct OptionFE {
    /// Transmission of vehicle
    pub transmission: String,
    /// Identifier of the vehicle in the label data set
    pub id: String,
}

/// What an [`OptionFE`] holds.
pub struct LabelOption {
    pub transmission: Seq<char>,
    pub id: Seq<char>,
}

impl View for OptionFE {
    type V = LabelOption;

    open spec fn view(&self) -> LabelOption {
        LabelOption {
            transmission: self.transmission@,
            id: self.id@,
        }
    }
}

impl LabelOption {
    /// The record in which every text is empty and every number zero.
    pub open spec fn empty() -> LabelOption {
        LabelOption {
            transmission: Seq::empty(),
            id: Seq::empty(),
        }
    }
}

impl Default for OptionFE {
    fn default() -> (r: OptionFE)
        ensures
            r@ == LabelOption::empty(),
    {
        let r = OptionFE {
            transmission: String::new(),
            id: String::new(),
        };
        r
    }
}

impl Clone for OptionFE {
    fn clone(&self) -> (r: OptionFE)
        ensures
            r@ == self@,
    {
        OptionFE {
            transmission: self.transmission.clone(),
            id: self.id.clone(),
        }
    }
}


/// One emissions certificate of a vehicle of the label data set.
#[derive(Debug, PartialEq)]
pub struct EmissionsInfoFE {
    /// Engine family id / test group
    pub efid: String,
    /// Smog rating
    pub score: Fixed,
    /// SmartWay score
    pub smartway_score: i32,
    /// Vehicle emission standard code
    pub standard: String,
    /// Vehicle emission standard
    pub std_text: String,
}

/// What an [`EmissionsInfoFE`] holds.
pub struct EmissionsInfo {
    pub efid: Seq<char>,
    pub score: Fixed,
    pub smartway_score: i32,
    pub standard: Seq<char>,
    pub std_text: Seq<char>,
}

impl View for EmissionsInfoFE {
    type V = EmissionsInfo;

    open spec fn view(&self) -> EmissionsInfo {
        EmissionsInfo {
            efid: self.efid@,
            score: self.score,
            smartway_score: self.smartway_score,
            standard: self.standard@,
            std_text: self.std_text@,
        }
    }
}

impl EmissionsInfo {
    /// The record in which every text is empty and every number zero.
    pub open spec fn empty() -> EmissionsInfo {
        EmissionsInfo {
            efid: Seq::empty(),
            score: Fixed { raw: 0 },
            smartway_score: 0,
            standard: Seq::empty(),
            std_text: Seq::empty(),
        }
    }
}

impl Default for EmissionsInfoFE {
    fn default() -> (r: EmissionsInfoFE)
        ensures
            r@ == EmissionsInfo::empty(),
    {
        let r = EmissionsInfoFE {
            efid: String::new(),
            score: Fixed::zero(),
            smartway_score: 0,
            standard: String::new(),
            std_text: String::new(),
        };
        r
    }
}

impl Clone for EmissionsInfoFE {
    fn clone(&self) -> (r: EmissionsInfoFE)
        ensures
            r@ == self@,
    {
        EmissionsInfoFE {
            efid: self.efid.clone(),
            score: self.score,
            smartway_score: self.smartway_score,
            standard: self.standard.clone(),
            std_text: self.std_text.clone(),
        }
    }
}


/// A copy of `list`.
pub fn clone_emissions(list: &Vec<EmissionsInfoFE>) -> (r: Vec<EmissionsInfoFE>)
    ensures
        views_of(r@) == views_of(list@),
{
    let mut r: Vec<EmissionsInfoFE> = Vec::new();
    let mut i: usize = 0;
    while i < list.len()
        invariant
            i <= list.len(),
            r.len() == i,
            forall|j: int| 0 <= j < i ==> r@[j]@ == list@[j]@,
        decreases list.len() - i,
    {
        r.push(list[i].clone());
        i += 1;
    }
    assert(views_of(r@) =~= views_of(list@));
    r
}

/// The emissions certificates of a vehicle of the label data set.
#[derive(Debug, PartialEq)]
pub struct EmissionsListFE {
    /// The certificates, in the order of the data set
    pub emissions_info: Vec<EmissionsInfoFE>,
}

/// What an [`EmissionsListFE`] holds.
pub struct EmissionsList {
    pub emissions_info: Seq<EmissionsInfo>,
}

impl View for EmissionsListFE {
    type V = EmissionsList;

    open spec fn view(&self) -> EmissionsList {
        EmissionsList {
            emissions_info: views_of(self.emissions_info@),
        }
    }
}

impl EmissionsList {
    /// The list without a certificate.
    pub open spec fn empty() -> EmissionsList {
        EmissionsList {
            emissions_info: Seq::empty(),
        }
    }
}

impl Default for EmissionsListFE {
    fn default() -> (r: EmissionsListFE)
        ensures
            r@ == EmissionsList::empty(),
    {
        let r = EmissionsListFE {
            emissions_info: Vec::new(),
        };
        assert(views_of(r.emissions_info@) =~= Seq::empty());
        r
    }
}

impl Clone for EmissionsListFE {
    fn clone(&self) -> (r: EmissionsListFE)
        ensures
            r@ == self@,
    {
        EmissionsListFE {
            emissions_info: clone_emissions(&self.emissions_info),
        }
    }
}


/// One vehicle of the fuel-economy label data set.
#[derive(Debug, PartialEq)]
pub struct VehicleDataFE {
    /// Vehicle ID
    pub id: i32,
    /// Type of alternative fuel vehicle (Hybrid, Plug-in Hybrid, EV)
    pub alt_veh_type: String,
    /// City MPG for fuel 1
    pub city_mpg_fuel1: i32,
    /// City MPG for fuel 2
    pub city_mpg_fuel2: i32,
    /// Tailpipe CO2 emissions in grams/mile
    pub co2_g_per_mi: i32,
    /// Combined MPG for fuel 1
    pub comb_mpg_fuel1: i32,
    /// Combined MPG for fuel 2
    pub comb_mpg_fuel2: i32,
    /// Number of engine cylinders
    pub cylinders: String,
    /// Engine displacement in liters
    pub displ: String,
    /// Drive axle type (FWD, RWD, AWD, 4WD)
    pub drive: String,
    /// List of emissions tests
    pub emissions_list: EmissionsListFE,
    /// Description of engine
    pub eng_dscr: String,
    /// Electric motor power (kW)
    pub ev_motor_kw: String,
    /// Fuel economy score
    pub fe_score: i32,
    /// Combined vehicle fuel type (fuel 1 and fuel 2)
    pub fuel_type: String,
    /// Fuel type 1
    pub fuel1: String,
    /// Fuel type 2
    pub fuel2: String,
    /// GHG Score
    pub ghg_score: i32,
    /// Highway MPG for fuel 1
    pub highway_mpg_fuel1: i32,
    /// Highway MPG for fuel 2
    pub highway_mpg_fuel2: i32,
    /// Manufacturer
    pub make: String,
    /// Manufacturer code
    pub mfr_code: String,
    /// Model name
    pub model: String,
    /// Vehicle operates on blend of gasoline and electricity
    pub phev_blended: bool,
    /// Composite gasoline-electricity city MPGe
    pub phev_city_mpge: i32,
    /// Composite gasoline-electricity combined MPGe
    pub phev_comb_mpge: i32,
    /// Composite gasoline-electricity highway MPGe
    pub phev_hwy_mpge: i32,
    /// Range for EV
    pub range_ev: i32,
    /// Stop-start technology
    pub start_stop: String,
    /// transmission
    pub trany: String,
    /// Vehicle size class
    pub veh_class: String,
    /// Model year
    pub year: u32,
    /// Vehicle is supercharged
    pub super_charge: String,
    /// Vehicle is turbocharged
    pub turbo_charge: String,
}

/// What a [`VehicleDataFE`] holds.
pub struct LabelRecord {
    pub id: i32,
    pub alt_veh_type: Seq<char>,
    pub city_mpg_fuel1: i32,
    pub city_mpg_fuel2: i32,
    pub co2_g_per_mi: i32,
    pub comb_mpg_fuel1: i32,
    pub comb_mpg_fuel2: i32,
    pub cylinders: Seq<char>,
    pub displ: Seq<char>,
    pub drive: Seq<char>,
    pub emissions_list: EmissionsList,
    pub eng_dscr: Seq<char>,
    pub ev_motor_kw: Seq<char>,
    pub fe_score: i32,
    pub fuel_type: Seq<char>,
    pub fuel1: Seq<char>,
    pub fuel2: Seq<char>,
    pub ghg_score: i32,
    pub highway_mpg_fuel1: i32,
    pub highway_mpg_fuel2: i32,
    pub make: Seq<char>,
    pub mfr_code: Seq<char>,
    pub model: Seq<char>,
    pub phev_blended: bool,
    pub phev_city_mpge: i32,
    pub phev_comb_mpge: i32,
    pub phev_hwy_mpge: i32,
    pub range_ev: i32,
    pub start_stop: Seq<char>,
    pub trany: Seq<char>,
    pub veh_class: Seq<char>,
    pub year: u32,
    pub super_charge: Seq<char>,
    pub turbo_charge: Seq<char>,
}

impl View for VehicleDataFE {
    type V = LabelRecord;

    open spec fn view(&self) -> LabelRecord {
        LabelRecord {
            id: self.id,
            alt_veh_type: self.alt_veh_type@,
            city_mpg_fuel1: self.city_mpg_fuel1,
            city_mpg_fuel2: self.city_mpg_fuel2,
            co2_g_per_mi: self.co2_g_per_mi,
            comb_mpg_fuel1: self.comb_mpg_fuel1,
            comb_mpg_fuel2: self.comb_mpg_fuel2,
            cylinders: self.cylinders@,
            displ: self.displ@,
            drive: self.drive@,
            emissions_list: self.emissions_list@,
            eng_dscr: self.eng_dscr@,
            ev_motor_kw: self.ev_motor_kw@,
            fe_score: self.fe_score,
            fuel_type: self.fuel_type@,
            fuel1: self.fuel1@,
            fuel2: self.fuel2@,
            ghg_score: self.ghg_score,
            highway_mpg_fuel1: self.highway_mpg_fuel1,
            highway_mpg_fuel2: self.highway_mpg_fuel2,
            make: self.make@,
            mfr_code: self.mfr_code@,
            model: self.model@,
            phev_blended: self.phev_blended,
            phev_city_mpge: self.phev_city_mpge,
            phev_comb_mpge: self.phev_comb_mpge,
            phev_hwy_mpge: self.phev_hwy_mpge,
            range_ev: self.range_ev,
            start_stop: self.start_stop@,
            trany: self.trany@,
            veh_class: self.veh_class@,
            year: self.year,
            super_charge: self.super_charge@,
            turbo_charge: self.turbo_charge@,
        }
    }
}

impl LabelRecord {
    /// The record in which every text is empty and every number zero.
    pub open spec fn empty() -> LabelRecord {
        LabelRecord {
            id: 0,
            alt_veh_type: Seq::empty(),
            city_mpg_fuel1: 0,
            city_mpg_fuel2: 0,
            co2_g_per_mi: 0,
            comb_mpg_fuel1: 0,
            comb_mpg_fuel2: 0,
            cylinders: Seq::empty(),
            displ: Seq::empty(),
            drive: Seq::empty(),
            emissions_list: EmissionsList::empty(),
            eng_dscr: Seq::empty(),
            ev_motor_kw: Seq::empty(),
            fe_score: 0,
            fuel_type: Seq::empty(),
            fuel1: Seq::empty(),
            fuel2: Seq::empty(),
            ghg_score: 0,
            highway_mpg_fuel1: 0,
            highway_mpg_fuel2: 0,
            make: Seq::empty(),
            mfr_code: Seq::empty(),
            model: Seq::empty(),
            phev_blended: false,
            phev_city_mpge: 0,
            phev_comb_mpge: 0,
            phev_hwy_mpge: 0,
            range_ev: 0,
            start_stop: Seq::empty(),
            trany: Seq::empty(),
            veh_class: Seq::empty(),
            year: 0,
            super_charge: Seq::empty(),
            turbo_charge: Seq::empty(),
        }
    }
}

impl Default for VehicleDataFE {
    fn default() -> (r: VehicleDataFE)
        ensures
            r@ == LabelRecord::empty(),
    {
        let r = VehicleDataFE {
            id: 0,
            alt_veh_type: String::new(),
            city_mpg_fuel1: 0,
            city_mpg_fuel2: 0,
            co2_g_per_mi: 0,
            comb_mpg_fuel1: 0,
            comb_mpg_fuel2: 0,
            cylinders: String::new(),
            displ: String::new(),
            drive: String::new(),
            emissions_list: EmissionsListFE::default(),
            eng_dscr: String::new(),
            ev_motor_kw: String::new(),
            fe_score: 0,
            fuel_type: String::new(),
            fuel1: String::new(),
            fuel2: String::new(),
            ghg_score: 0,
            highway_mpg_fuel1: 0,
            highway_mpg_fuel2: 0,
            make: String::new(),
            mfr_code: String::new(),
            model: String::new(),
            phev_blended: false,
            phev_city_mpge: 0,
            phev_comb_mpge: 0,
            phev_hwy_mpge: 0,
            range_ev: 0,
            start_stop: String::new(),
            trany: String::new(),
            veh_class: String::new(),
            year: 0,
            super_charge: String::new(),
            turbo_charge: String::new(),
        };
        r
    }
}

impl Clone for VehicleDataFE {
    fn clone(&self) -> (r: VehicleDataFE)
        ensures
            r@ == self@,
    {
        VehicleDataFE {
            id: self.id,
            alt_veh_type: self.alt_veh_type.clone(),
            city_mpg_fuel1: self.city_mpg_fuel1,
            city_mpg_fuel2: self.city_mpg_fuel2,
            co2_g_per_mi: self.co2_g_per_mi,
            comb_mpg_fuel1: self.comb_mpg_fuel1,
            comb_mpg_fuel2: self.comb_mpg_fuel2,
            cylinders: self.cylinders.clone(),
            displ: self.displ.clone(),
            drive: self.drive.clone(),
            emissions_list: self.emissions_list.clone(),
            eng_dscr: self.eng_dscr.clone(),
            ev_motor_kw: self.ev_motor_kw.clone(),
            fe_score: self.fe_score,
            fuel_type: self.fuel_type.clone(),
            fuel1: self.fuel1.clone(),
            fuel2: self.fuel2.clone(),
            ghg_score: self.ghg_score,
            highway_mpg_fuel1: self.highway_mpg_fuel1,
            highway_mpg_fuel2: self.highway_mpg_fuel2,
            make: self.make.clone(),
            mfr_code: self.mfr_code.clone(),
            model: self.model.clone(),
            phev_blended: self.phev_blended,
            phev_city_mpge: self.phev_city_mpge,
            phev_comb_mpge: self.phev_comb_mpge,
            phev_hwy_mpge: self.phev_hwy_mpge,
            range_ev: self.range_ev,
            start_stop: self.start_stop.clone(),
            trany: self.trany.clone(),
            veh_class: self.veh_class.clone(),
            year: self.year,
            super_charge: self.super_charge.clone(),
            turbo_charge: self.turbo_charge.clone(),
        }
    }
}


/// The physical inputs that neither data set provides.
#[derive(Debug, PartialEq)]
pub struct OtherVehicleInputs {
    /// Vehicle width in inches
    pub vehicle_width_in: Fixed,
    /// Vehicle height in inches
    pub vehicle_height_in: Fixed,
    /// Fuel tank capacity in gallons
    pub fuel_tank_gal: Fixed,
    /// Battery energy capacity in kWh
    pub ess_max_kwh: Fixed,
    /// Motor power in kW
    pub mc_max_kw: Fixed,
    /// Battery power in kW
    pub ess_max_kw: Fixed,
    /// Fuel converter power in kW, where it is known
    pub fc_max_kw: Option<Fixed>,
}

/// What an [`OtherVehicleInputs`] holds.
pub struct OtherInputs {
    pub vehicle_width_in: Fixed,
    pub vehicle_height_in: Fixed,
    pub fuel_tank_gal: Fixed,
    pub ess_max_kwh: Fixed,
    pub mc_max_kw: Fixed,
    pub ess_max_kw: Fixed,
    pub fc_max_kw: Option<Fixed>,
}

impl View for OtherVehicleInputs {
    type V = OtherInputs;

    open spec fn view(&self) -> OtherInputs {
        OtherInputs {
            vehicle_width_in: self.vehicle_width_in,
            vehicle_height_in: self.vehicle_height_in,
            fuel_tank_gal: self.fuel_tank_gal,
            ess_max_kwh: self.ess_max_kwh,
            mc_max_kw: self.mc_max_kw,
            ess_max_kw: self.ess_max_kw,
            fc_max_kw: self.fc_max_kw,
        }
    }
}

impl OtherInputs {
    /// The inputs that are all zero, with no fuel converter power.
    pub open spec fn empty() -> OtherInputs {
        OtherInputs {
            vehicle_width_in: Fixed { raw: 0 },
            vehicle_height_in: Fixed { raw: 0 },
            fuel_tank_gal: Fixed { raw: 0 },
            ess_max_kwh: Fixed { raw: 0 },
            mc_max_kw: Fixed { raw: 0 },
            ess_max_kw: Fixed { raw: 0 },
            fc_max_kw: None,
        }
    }
}

impl Default for OtherVehicleInputs {
    fn default() -> (r: OtherVehicleInputs)
        ensures
            r@ == OtherInputs::empty(),
    {
        let r = OtherVehicleInputs {
            vehicle_width_in: Fixed::zero(),
            vehicle_height_in: Fixed::zero(),
            fuel_tank_gal: Fixed::zero(),
            ess_max_kwh: Fixed::zero(),
            mc_max_kw: Fixed::zero(),
            ess_max_kw: Fixed::zero(),
            fc_max_kw: None,
        };
        r
    }
}

impl Clone for OtherVehicleInputs {
    fn clone(&self) -> (r: OtherVehicleInputs)
        ensures
            r@ == self@,
    {
        OtherVehicleInputs {
            vehicle_width_in: self.vehicle_width_in,
            vehicle_height_in: self.vehicle_height_in,
            fuel_tank_gal: self.fuel_tank_gal,
            ess_max_kwh: self.ess_max_kwh,
            mc_max_kw: self.mc_max_kw,
            ess_max_kw: self.ess_max_kw,
            fc_max_kw: self.fc_max_kw,
        }
    }
}


/// One line of a list of vehicles to derive.
#[derive(Debug)]
pub struct VehicleInputRecord {
    /// Manufacturer
    pub make: String,
    /// Model name
    pub model: String,
    /// Model year
    pub year: u32,
    /// Name of the file to write the vehicle to
    pub output_file_name: String,
    /// Vehicle width in inches
    pub vehicle_width_in: Fixed,
    /// Vehicle height in inches
    pub vehicle_height_in: Fixed,
    /// Fuel tank capacity in gallons
    pub fuel_tank_gal: Fixed,
    /// Battery energy capacity in kWh
    pub ess_max_kwh: Fixed,
    /// Motor power in kW
    pub mc_max_kw: Fixed,
    /// Battery power in kW
    pub ess_max_kw: Fixed,
    /// Fuel converter power in kW, where it is known
    pub fc_max_kw: Option<Fixed>,
}

/// What a [`VehicleInputRecord`] holds.
pub struct InputRecord {
    pub make: Seq<char>,
    pub model: Seq<char>,
    pub year: u32,
    pub output_file_name: Seq<char>,
    pub vehicle_width_in: Fixed,
    pub vehicle_height_in: Fixed,
    pub fuel_tank_gal: Fixed,
    pub ess_max_kwh: Fixed,
    pub mc_max_kw: Fixed,
    pub ess_max_kw: Fixed,
    pub fc_max_kw: Option<Fixed>,
}

impl View for VehicleInputRecord {
    type V = InputRecord;

    open spec fn view(&self) -> InputRecord {
        InputRecord {
            make: self.make@,
            model: self.model@,
            year: self.year,
            output_file_name: self.output_file_name@,
            vehicle_width_in: self.vehicle_width_in,
            vehicle_height_in: self.vehicle_height_in,
            fuel_tank_gal: self.fuel_tank_gal,
            ess_max_kwh: self.ess_max_kwh,
            mc_max_kw: self.mc_max_kw,
            ess_max_kw: self.ess_max_kw,
            fc_max_kw: self.fc_max_kw,
        }
    }
}

impl Clone for VehicleInputRecord {
    fn clone(&self) -> (r: VehicleInputRecord)
        ensures
            r@ == self@,
    {
        VehicleInputRecord {
            make: self.make.clone(),
            model: self.model.clone(),
            year: self.year,
            output_file_name: self.output_file_name.clone(),
            vehicle_width_in: self.vehicle_width_in,
            vehicle_height_in: self.vehicle_height_in,
            fuel_tank_gal: self.fuel_tank_gal,
            ess_max_kwh: self.ess_max_kwh,
            mc_max_kw: self.mc_max_kw,
            ess_max_kw: self.ess_max_kw,
            fc_max_kw: self.fc_max_kw,
        }
    }
}


} // verus!
