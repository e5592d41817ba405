//! The vehicle: its parameters, what is derived from them, and its mass.

use vstd::prelude::*;
use crate::curve::{
    all_modest, all_within, arrmax, arrmin, copy_curve, first_eq, interpolated, is_first_equal,
    lemma_extremes_within, lemma_interpolated_within, lemma_max_of, lemma_resampled_within, max_of,
    min_of, resample, resampled, scale, scaled, shift, shifted, Curve,
};
use crate::fixed::{is_modest, Fixed, SCALE};
use crate::text::same_text;
use crate::params::{
    fc_grid, fc_perc_out_array, fc_power_map, fc_power_points, large_baseline, large_baseline_eff,
    mc_grid, mc_perc_out_array, mc_power_map, mc_power_points, small_baseline, small_baseline_eff,
    spark_ignition_eff, spark_ignition_map, RustPhysicalProperties, MODERN_MAX_RAW,
};

verus! {

/// A vehicle: the parameters of its chassis and powertrain, and what is
/// derived from them.
#[derive(Debug)]
pub struct RustVehicle {
    /// Physical properties
    pub props: RustPhysicalProperties,
    /// Vehicle name
    pub scenario_name: String,
    /// Vehicle database ID
    pub selection: u32,
    /// Vehicle year
    pub veh_year: u32,
    /// Vehicle powertrain type, one of `Conv`, `HEV`, `PHEV`, `BEV`
    pub veh_pt_type: String,
    /// Aerodynamic drag coefficient
    pub drag_coef: Fixed,
    /// Frontal area in m^2
    pub frontal_area_m2: Fixed,
    /// Vehicle mass excluding cargo, passengers, and powertrain components in kg
    pub glider_kg: Fixed,
    /// Vehicle center of mass height in m: positive for front-wheel drive, negative otherwise
    pub veh_cg_m: Fixed,
    /// Fraction of weight on the drive axle while stopped
    pub drive_axle_weight_frac: Fixed,
    /// Wheelbase in m
    pub wheel_base_m: Fixed,
    /// Cargo mass including passengers in kg
    pub cargo_kg: Fixed,
    /// Total vehicle mass in kg; where positive, it overrides the mass calculation
    pub veh_override_kg: Fixed,
    /// Component mass multiplier for vehicle mass calculation
    pub comp_mass_multiplier: Fixed,
    /// Fuel storage max power output in kW
    pub fs_max_kw: Fixed,
    /// Fuel storage time to peak power in s
    pub fs_secs_to_peak_pwr: Fixed,
    /// Fuel storage energy capacity in kWh
    pub fs_kwh: Fixed,
    /// Fuel specific energy in kWh/kg
    pub fs_kwh_per_kg: Fixed,
    /// Fuel converter peak continuous power in kW
    pub fc_max_kw: Fixed,
    /// Fuel converter output power percentage map, x-values of `fc_eff_map`
    pub fc_pwr_out_perc: Curve,
    /// Fuel converter efficiency map
    pub fc_eff_map: Curve,
    /// Fuel converter efficiency type, one of `SI`, `Atkinson`, `Diesel`, `H2FC`, `HD_Diesel`
    pub fc_eff_type: String,
    /// Fuel converter time to peak power in s
    pub fc_sec_to_peak_pwr: Fixed,
    /// Fuel converter base mass in kg
    pub fc_base_kg: Fixed,
    /// Fuel converter specific power (power-to-weight ratio) in kW/kg
    pub fc_kw_per_kg: Fixed,
    /// Minimum time fuel converter must be on before shutoff (for HEV, PHEV)
    pub min_fc_time_on: Fixed,
    /// Fuel converter idle power in kW
    pub idle_fc_kw: Fixed,
    /// Peak continuous electric motor power in kW
    pub mc_max_kw: Fixed,
    /// Electric motor output power percentage map, x-values of `mc_eff_map`
    pub mc_pwr_out_perc: Curve,
    /// Electric motor efficiency map
    pub mc_eff_map: Curve,
    /// Electric motor time to peak power in s
    pub mc_sec_to_peak_pwr: Fixed,
    /// Motor power electronics mass per power output in kg/kW
    pub mc_pe_kg_per_kw: Fixed,
    /// Motor power electronics base mass in kg
    pub mc_pe_base_kg: Fixed,
    /// Traction battery maximum power output in kW
    pub ess_max_kw: Fixed,
    /// Traction battery energy capacity in kWh
    pub ess_max_kwh: Fixed,
    /// Traction battery mass per energy in kg/kWh
    pub ess_kg_per_kwh: Fixed,
    /// Traction battery base mass in kg
    pub ess_base_kg: Fixed,
    /// Traction battery round-trip efficiency
    pub ess_round_trip_eff: Fixed,
    /// Traction battery cycle life coefficient A
    pub ess_life_coef_a: Fixed,
    /// Traction battery cycle life coefficient B
    pub ess_life_coef_b: Fixed,
    /// Traction battery minimum state of charge
    pub min_soc: Fixed,
    /// Traction battery maximum state of charge
    pub max_soc: Fixed,
    /// ESS discharge effort toward max FC efficiency
    pub ess_dischg_to_fc_max_eff_perc: Fixed,
    /// ESS charge effort toward max FC efficiency
    pub ess_chg_to_fc_max_eff_perc: Fixed,
    /// Mass moment of inertia per wheel in kg m^2
    pub wheel_inertia_kg_m2: Fixed,
    /// Number of wheels
    pub num_wheels: Fixed,
    /// Rolling resistance coefficient
    pub wheel_rr_coef: Fixed,
    /// Wheel radius in m
    pub wheel_radius_m: Fixed,
    /// Wheel coefficient of friction
    pub wheel_coef_of_fric: Fixed,
    /// Speed where the battery reserved for accelerating is zero
    pub max_accel_buffer_mph: Fixed,
    /// Percent of usable battery energy reserved to help accelerate
    pub max_accel_buffer_perc_of_useable_soc: Fixed,
    /// Percent SOC buffer for high accessory loads during cycles with long idle time
    pub perc_high_acc_buf: Fixed,
    /// Speed at which the fuel converter must turn on in mph
    pub mph_fc_on: Fixed,
    /// Power demand above which to require fuel converter on in kW
    pub kw_demand_fc_on: Fixed,
    /// Maximum brake regeneration efficiency
    pub max_regen: Fixed,
    /// Stop/start micro-HEV flag
    pub stop_start: bool,
    /// Force auxiliary power load to come from fuel converter
    pub force_aux_on_fc: bool,
    /// Alternator efficiency
    pub alt_eff: Fixed,
    /// Charger efficiency
    pub chg_eff: Fixed,
    /// Auxiliary load power in kW
    pub aux_kw: Fixed,
    /// Transmission mass in kg
    pub trans_kg: Fixed,
    /// Transmission efficiency
    pub trans_eff: Fixed,
    /// Maximum acceptable overall change in ESS energy relative to energy from fuel (HEV SOC balancing only)
    pub ess_to_fuel_ok_error: Fixed,
    /// Power of the motor that the small baseline describes in kW
    pub small_motor_power_kw: Fixed,
    /// Power of the motor that the large baseline describes in kW
    pub large_motor_power_kw: Fixed,
    /// Shares of peak power at which the fuel converter is sampled
    pub fc_perc_out_array: Vec<Fixed>,
    /// First coefficient of the regeneration curve
    pub regen_a: Fixed,
    /// Second coefficient of the regeneration curve
    pub regen_b: Fixed,
    /// Whether roadway charging is on
    pub charging_on: bool,
    /// Whether the vehicle has no electric drive system
    pub no_elec_sys: bool,
    /// Whether the auxiliary load runs off the fuel converter
    pub no_elec_aux: bool,
    /// Roadway charging power by road type in kW
    pub max_roadway_chg_kw: Curve,
    /// Fuel converter power at each point of its power map in kW
    pub input_kw_out_array: Curve,
    /// Fuel converter power at each point of its grid in kW
    pub fc_kw_out_array: Vec<Fixed>,
    /// Fuel converter efficiency at each point of its grid
    pub fc_eff_array: Vec<Fixed>,
    /// Peak efficiency of a modern large motor
    pub modern_max: Fixed,
    /// Motor efficiency at each point of its power map
    pub mc_eff_array: Curve,
    /// Motor input power at each point of its grid in kW
    pub mc_kw_in_array: Vec<Fixed>,
    /// Motor output power at each point of its grid in kW
    pub mc_kw_out_array: Vec<Fixed>,
    /// Largest motor input power in kW
    pub mc_max_elec_in_kw: Fixed,
    /// Motor efficiency at each point of its grid
    pub mc_full_eff_array: Vec<Fixed>,
    /// Total vehicle mass in kg
    pub veh_kg: Fixed,
    /// Largest acceleration that traction allows in m/s^2
    pub max_trac_mps2: Fixed,
    /// Traction battery mass in kg
    pub ess_mass_kg: Fixed,
    /// Motor and power electronics mass in kg
    pub mc_mass_kg: Fixed,
    /// Fuel converter mass in kg
    pub fc_mass_kg: Fixed,
    /// Fuel storage mass in kg
    pub fs_mass_kg: Fixed,
    /// Shares of peak power at which the motor is sampled
    pub mc_perc_out_array: Vec<Fixed>,
    /// Reference city fuel economy in mpgge
    pub val_udds_mpgge: Option<Fixed>,
    /// Reference highway fuel economy in mpgge
    pub val_hwy_mpgge: Option<Fixed>,
    /// Reference combined fuel economy in mpgge
    pub val_comb_mpgge: Option<Fixed>,
    /// Reference city electricity use in kWh/mile
    pub val_udds_kwh_per_mile: Option<Fixed>,
    /// Reference highway electricity use in kWh/mile
    pub val_hwy_kwh_per_mile: Option<Fixed>,
    /// Reference combined electricity use in kWh/mile
    pub val_comb_kwh_per_mile: Option<Fixed>,
    /// Reference charge-depleting range in miles
    pub val_cd_range_mi: Option<Fixed>,
    /// Reference electricity use at 65 mph in kWh/mile
    pub val_const65_mph_kwh_per_mile: Option<Fixed>,
    /// Reference electricity use at 60 mph in kWh/mile
    pub val_const60_mph_kwh_per_mile: Option<Fixed>,
    /// Reference electricity use at 55 mph in kWh/mile
    pub val_const55_mph_kwh_per_mile: Option<Fixed>,
    /// Reference electricity use at 45 mph in kWh/mile
    pub val_const45_mph_kwh_per_mile: Option<Fixed>,
    /// Reference unadjusted city electricity use in kWh/mile
    pub val_unadj_udds_kwh_per_mile: Option<Fixed>,
    /// Reference unadjusted highway electricity use in kWh/mile
    pub val_unadj_hwy_kwh_per_mile: Option<Fixed>,
    /// Reference time from 0 to 60 mph in s
    pub val0_to60_mph: Option<Fixed>,
    /// Reference battery life in miles
    pub val_ess_life_miles: Option<Fixed>,
    /// Reference range in miles
    pub val_range_miles: Option<Fixed>,
    /// Reference base cost
    pub val_veh_base_cost: Option<Fixed>,
    /// Reference price
    pub val_msrp: Option<Fixed>,
    /// Fuel converter efficiency peak override, scales entire curve
    pub fc_peak_eff_override: Option<Fixed>,
    /// Motor efficiency peak override, scales entire curve
    pub mc_peak_eff_override: Option<Fixed>,
    /// Whether the vehicle is held by another record
    pub orphaned: bool,
}

/// What a [`RustVehicle`] holds.
pub struct Vehicle {
    pub props: RustPhysicalProperties,
    pub scenario_name: Seq<char>,
    pub selection: u32,
    pub veh_year: u32,
    pub veh_pt_type: Seq<char>,
    pub drag_coef: Fixed,
    pub frontal_area_m2: Fixed,
    pub glider_kg: Fixed,
    pub veh_cg_m: Fixed,
    pub drive_axle_weight_frac: Fixed,
    pub wheel_base_m: Fixed,
    pub cargo_kg: Fixed,
    pub veh_override_kg: Fixed,
    pub comp_mass_multiplier: Fixed,
    pub fs_max_kw: Fixed,
    pub fs_secs_to_peak_pwr: Fixed,
    pub fs_kwh: Fixed,
    pub fs_kwh_per_kg: Fixed,
    pub fc_max_kw: Fixed,
    pub fc_pwr_out_perc: Seq<Fixed>,
    pub fc_eff_map: Seq<Fixed>,
    pub fc_eff_type: Seq<char>,
    pub fc_sec_to_peak_pwr: Fixed,
    pub fc_base_kg: Fixed,
    pub fc_kw_per_kg: Fixed,
    pub min_fc_time_on: Fixed,
    pub idle_fc_kw: Fixed,
    pub mc_max_kw: Fixed,
    pub mc_pwr_out_perc: Seq<Fixed>,
    pub mc_eff_map: Seq<Fixed>,
    pub mc_sec_to_peak_pwr: Fixed,
    pub mc_pe_kg_per_kw: Fixed,
    pub mc_pe_base_kg: Fixed,
    pub ess_max_kw: Fixed,
    pub ess_max_kwh: Fixed,
    pub ess_kg_per_kwh: Fixed,
    pub ess_base_kg: Fixed,
    pub ess_round_trip_eff: Fixed,
    pub ess_life_coef_a: Fixed,
    pub ess_life_coef_b: Fixed,
    pub min_soc: Fixed,
    pub max_soc: Fixed,
    pub ess_dischg_to_fc_max_eff_perc: Fixed,
    pub ess_chg_to_fc_max_eff_perc: Fixed,
    pub wheel_inertia_kg_m2: Fixed,
    pub num_wheels: Fixed,
    pub wheel_rr_coef: Fixed,
    pub wheel_radius_m: Fixed,
    pub wheel_coef_of_fric: Fixed,
    pub max_accel_buffer_mph: Fixed,
    pub max_accel_buffer_perc_of_useable_soc: Fixed,
    pub perc_high_acc_buf: Fixed,
    pub mph_fc_on: Fixed,
    pub kw_demand_fc_on: Fixed,
    pub max_regen: Fixed,
    pub stop_start: bool,
    pub force_aux_on_fc: bool,
    pub alt_eff: Fixed,
    pub chg_eff: Fixed,
    pub aux_kw: Fixed,
    pub trans_kg: Fixed,
    pub trans_eff: Fixed,
    pub ess_to_fuel_ok_error: Fixed,
    pub small_motor_power_kw: Fixed,
    pub large_motor_power_kw: Fixed,
    pub fc_perc_out_array: Seq<Fixed>,
    pub regen_a: Fixed,
    pub regen_b: Fixed,
    pub charging_on: bool,
    pub no_elec_sys: bool,
    pub no_elec_aux: bool,
    pub max_roadway_chg_kw: Seq<Fixed>,
    pub input_kw_out_array: Seq<Fixed>,
    pub fc_kw_out_array: Seq<Fixed>,
    pub fc_eff_array: Seq<Fixed>,
    pub modern_max: Fixed,
    pub mc_eff_array: Seq<Fixed>,
    pub mc_kw_in_array: Seq<Fixed>,
    pub mc_kw_out_array: Seq<Fixed>,
    pub mc_max_elec_in_kw: Fixed,
    pub mc_full_eff_array: Seq<Fixed>,
    pub veh_kg: Fixed,
    pub max_trac_mps2: Fixed,
    pub ess_mass_kg: Fixed,
    pub mc_mass_kg: Fixed,
    pub fc_mass_kg: Fixed,
    pub fs_mass_kg: Fixed,
    pub mc_perc_out_array: Seq<Fixed>,
    pub val_udds_mpgge: Option<Fixed>,
    pub val_hwy_mpgge: Option<Fixed>,
    pub val_comb_mpgge: Option<Fixed>,
    pub val_udds_kwh_per_mile: Option<Fixed>,
    pub val_hwy_kwh_per_mile: Option<Fixed>,
    pub val_comb_kwh_per_mile: Option<Fixed>,
    pub val_cd_range_mi: Option<Fixed>,
    pub val_const65_mph_kwh_per_mile: Option<Fixed>,
    pub val_const60_mph_kwh_per_mile: Option<Fixed>,
    pub val_const55_mph_kwh_per_mile: Option<Fixed>,
    pub val_const45_mph_kwh_per_mile: Option<Fixed>,
    pub val_unadj_udds_kwh_per_mile: Option<Fixed>,
    pub val_unadj_hwy_kwh_per_mile: Option<Fixed>,
    pub val0_to60_mph: Option<Fixed>,
    pub val_ess_life_miles: Option<Fixed>,
    pub val_range_miles: Option<Fixed>,
    pub val_veh_base_cost: Option<Fixed>,
    pub val_msrp: Option<Fixed>,
    pub fc_peak_eff_override: Option<Fixed>,
    pub mc_peak_eff_override: Option<Fixed>,
    pub orphaned: bool,
}

impl View for RustVehicle {
    type V = Vehicle;

    open spec fn view(&self) -> Vehicle {
        Vehicle {
            props: self.props,
            scenario_name: self.scenario_name@,
            selection: self.selection,
            veh_year: self.veh_year,
            veh_pt_type: self.veh_pt_type@,
            drag_coef: self.drag_coef,
            frontal_area_m2: self.frontal_area_m2,
            glider_kg: self.glider_kg,
            veh_cg_m: self.veh_cg_m,
            drive_axle_weight_frac: self.drive_axle_weight_frac,
            wheel_base_m: self.wheel_base_m,
            cargo_kg: self.cargo_kg,
            veh_override_kg: self.veh_override_kg,
            comp_mass_multiplier: self.comp_mass_multiplier,
            fs_max_kw: self.fs_max_kw,
            fs_secs_to_peak_pwr: self.fs_secs_to_peak_pwr,
            fs_kwh: self.fs_kwh,
            fs_kwh_per_kg: self.fs_kwh_per_kg,
            fc_max_kw: self.fc_max_kw,
            fc_pwr_out_perc: self.fc_pwr_out_perc@,
            fc_eff_map: self.fc_eff_map@,
            fc_eff_type: self.fc_eff_type@,
            fc_sec_to_peak_pwr: self.fc_sec_to_peak_pwr,
            fc_base_kg: self.fc_base_kg,
            fc_kw_per_kg: self.fc_kw_per_kg,
            min_fc_time_on: self.min_fc_time_on,
            idle_fc_kw: self.idle_fc_kw,
            mc_max_kw: self.mc_max_kw,
            mc_pwr_out_perc: self.mc_pwr_out_perc@,
            mc_eff_map: self.mc_eff_map@,
            mc_sec_to_peak_pwr: self.mc_sec_to_peak_pwr,
            mc_pe_kg_per_kw: self.mc_pe_kg_per_kw,
            mc_pe_base_kg: self.mc_pe_base_kg,
            ess_max_kw: self.ess_max_kw,
            ess_max_kwh: self.ess_max_kwh,
            ess_kg_per_kwh: self.ess_kg_per_kwh,
            ess_base_kg: self.ess_base_kg,
            ess_round_trip_eff: self.ess_round_trip_eff,
            ess_life_coef_a: self.ess_life_coef_a,
            ess_life_coef_b: self.ess_life_coef_b,
            min_soc: self.min_soc,
            max_soc: self.max_soc,
            ess_dischg_to_fc_max_eff_perc: self.ess_dischg_to_fc_max_eff_perc,
            ess_chg_to_fc_max_eff_perc: self.ess_chg_to_fc_max_eff_perc,
            wheel_inertia_kg_m2: self.wheel_inertia_kg_m2,
            num_wheels: self.num_wheels,
            wheel_rr_coef: self.wheel_rr_coef,
            wheel_radius_m: self.wheel_radius_m,
            wheel_coef_of_fric: self.wheel_coef_of_fric,
            max_accel_buffer_mph: self.max_accel_buffer_mph,
            max_accel_buffer_perc_of_useable_soc: self.max_accel_buffer_perc_of_useable_soc,
            perc_high_acc_buf: self.perc_high_acc_buf,
            mph_fc_on: self.mph_fc_on,
            kw_demand_fc_on: self.kw_demand_fc_on,
            max_regen: self.max_regen,
            stop_start: self.stop_start,
            force_aux_on_fc: self.force_aux_on_fc,
            alt_eff: self.alt_eff,
            chg_eff: self.chg_eff,
            aux_kw: self.aux_kw,
            trans_kg: self.trans_kg,
            trans_eff: self.trans_eff,
            ess_to_fuel_ok_error: self.ess_to_fuel_ok_error,
            small_motor_power_kw: self.small_motor_power_kw,
            large_motor_power_kw: self.large_motor_power_kw,
            fc_perc_out_array: self.fc_perc_out_array@,
            regen_a: self.regen_a,
            regen_b: self.regen_b,
            charging_on: self.charging_on,
            no_elec_sys: self.no_elec_sys,
            no_elec_aux: self.no_elec_aux,
            max_roadway_chg_kw: self.max_roadway_chg_kw@,
            input_kw_out_array: self.input_kw_out_array@,
            fc_kw_out_array: self.fc_kw_out_array@,
            fc_eff_array: self.fc_eff_array@,
            modern_max: self.modern_max,
            mc_eff_array: self.mc_eff_array@,
            mc_kw_in_array: self.mc_kw_in_array@,
            mc_kw_out_array: self.mc_kw_out_array@,
            mc_max_elec_in_kw: self.mc_max_elec_in_kw,
            mc_full_eff_array: self.mc_full_eff_array@,
            veh_kg: self.veh_kg,
            max_trac_mps2: self.max_trac_mps2,
            ess_mass_kg: self.ess_mass_kg,
            mc_mass_kg: self.mc_mass_kg,
            fc_mass_kg: self.fc_mass_kg,
            fs_mass_kg: self.fs_mass_kg,
            mc_perc_out_array: self.mc_perc_out_array@,
            val_udds_mpgge: self.val_udds_mpgge,
            val_hwy_mpgge: self.val_hwy_mpgge,
            val_comb_mpgge: self.val_comb_mpgge,
            val_udds_kwh_per_mile: self.val_udds_kwh_per_mile,
            val_hwy_kwh_per_mile: self.val_hwy_kwh_per_mile,
            val_comb_kwh_per_mile: self.val_comb_kwh_per_mile,
            val_cd_range_mi: self.val_cd_range_mi,
            val_const65_mph_kwh_per_mile: self.val_const65_mph_kwh_per_mile,
            val_const60_mph_kwh_per_mile: self.val_const60_mph_kwh_per_mile,
            val_const55_mph_kwh_per_mile: self.val_const55_mph_kwh_per_mile,
            val_const45_mph_kwh_per_mile: self.val_const45_mph_kwh_per_mile,
            val_unadj_udds_kwh_per_mile: self.val_unadj_udds_kwh_per_mile,
            val_unadj_hwy_kwh_per_mile: self.val_unadj_hwy_kwh_per_mile,
            val0_to60_mph: self.val0_to60_mph,
            val_ess_life_miles: self.val_ess_life_miles,
            val_range_miles: self.val_range_miles,
            val_veh_base_cost: self.val_veh_base_cost,
            val_msrp: self.val_msrp,
            fc_peak_eff_override: self.fc_peak_eff_override,
            mc_peak_eff_override: self.mc_peak_eff_override,
            orphaned: self.orphaned,
        }
    }
}

impl Clone for RustVehicle {
    fn clone(&self) -> (r: RustVehicle)
        ensures
            r@ == self@,
    {
        RustVehicle {
            props: self.props,
            scenario_name: self.scenario_name.clone(),
            selection: self.selection,
            veh_year: self.veh_year,
            veh_pt_type: self.veh_pt_type.clone(),
            drag_coef: self.drag_coef,
            frontal_area_m2: self.frontal_area_m2,
            glider_kg: self.glider_kg,
            veh_cg_m: self.veh_cg_m,
            drive_axle_weight_frac: self.drive_axle_weight_frac,
            wheel_base_m: self.wheel_base_m,
            cargo_kg: self.cargo_kg,
            veh_override_kg: self.veh_override_kg,
            comp_mass_multiplier: self.comp_mass_multiplier,
            fs_max_kw: self.fs_max_kw,
            fs_secs_to_peak_pwr: self.fs_secs_to_peak_pwr,
            fs_kwh: self.fs_kwh,
            fs_kwh_per_kg: self.fs_kwh_per_kg,
            fc_max_kw: self.fc_max_kw,
            fc_pwr_out_perc: self.fc_pwr_out_perc.clone(),
            fc_eff_map: self.fc_eff_map.clone(),
            fc_eff_type: self.fc_eff_type.clone(),
            fc_sec_to_peak_pwr: self.fc_sec_to_peak_pwr,
            fc_base_kg: self.fc_base_kg,
            fc_kw_per_kg: self.fc_kw_per_kg,
            min_fc_time_on: self.min_fc_time_on,
            idle_fc_kw: self.idle_fc_kw,
            mc_max_kw: self.mc_max_kw,
            mc_pwr_out_perc: self.mc_pwr_out_perc.clone(),
            mc_eff_map: self.mc_eff_map.clone(),
            mc_sec_to_peak_pwr: self.mc_sec_to_peak_pwr,
            mc_pe_kg_per_kw: self.mc_pe_kg_per_kw,
            mc_pe_base_kg: self.mc_pe_base_kg,
            ess_max_kw: self.ess_max_kw,
            ess_max_kwh: self.ess_max_kwh,
            ess_kg_per_kwh: self.ess_kg_per_kwh,
            ess_base_kg: self.ess_base_kg,
            ess_round_trip_eff: self.ess_round_trip_eff,
            ess_life_coef_a: self.ess_life_coef_a,
            ess_life_coef_b: self.ess_life_coef_b,
            min_soc: self.min_soc,
            max_soc: self.max_soc,
            ess_dischg_to_fc_max_eff_perc: self.ess_dischg_to_fc_max_eff_perc,
            ess_chg_to_fc_max_eff_perc: self.ess_chg_to_fc_max_eff_perc,
            wheel_inertia_kg_m2: self.wheel_inertia_kg_m2,
            num_wheels: self.num_wheels,
            wheel_rr_coef: self.wheel_rr_coef,
            wheel_radius_m: self.wheel_radius_m,
            wheel_coef_of_fric: self.wheel_coef_of_fric,
            max_accel_buffer_mph: self.max_accel_buffer_mph,
            max_accel_buffer_perc_of_useable_soc: self.max_accel_buffer_perc_of_useable_soc,
            perc_high_acc_buf: self.perc_high_acc_buf,
            mph_fc_on: self.mph_fc_on,
            kw_demand_fc_on: self.kw_demand_fc_on,
            max_regen: self.max_regen,
            stop_start: self.stop_start,
            force_aux_on_fc: self.force_aux_on_fc,
            alt_eff: self.alt_eff,
            chg_eff: self.chg_eff,
            aux_kw: self.aux_kw,
            trans_kg: self.trans_kg,
            trans_eff: self.trans_eff,
            ess_to_fuel_ok_error: self.ess_to_fuel_ok_error,
            small_motor_power_kw: self.small_motor_power_kw,
            large_motor_power_kw: self.large_motor_power_kw,
            fc_perc_out_array: copy_curve(&self.fc_perc_out_array),
            regen_a: self.regen_a,
            regen_b: self.regen_b,
            charging_on: self.charging_on,
            no_elec_sys: self.no_elec_sys,
            no_elec_aux: self.no_elec_aux,
            max_roadway_chg_kw: self.max_roadway_chg_kw.clone(),
            input_kw_out_array: self.input_kw_out_array.clone(),
            fc_kw_out_array: copy_curve(&self.fc_kw_out_array),
            fc_eff_array: copy_curve(&self.fc_eff_array),
            modern_max: self.modern_max,
            mc_eff_array: self.mc_eff_array.clone(),
            mc_kw_in_array: copy_curve(&self.mc_kw_in_array),
            mc_kw_out_array: copy_curve(&self.mc_kw_out_array),
            mc_max_elec_in_kw: self.mc_max_elec_in_kw,
            mc_full_eff_array: copy_curve(&self.mc_full_eff_array),
            veh_kg: self.veh_kg,
            max_trac_mps2: self.max_trac_mps2,
            ess_mass_kg: self.ess_mass_kg,
            mc_mass_kg: self.mc_mass_kg,
            fc_mass_kg: self.fc_mass_kg,
            fs_mass_kg: self.fs_mass_kg,
            mc_perc_out_array: copy_curve(&self.mc_perc_out_array),
            val_udds_mpgge: self.val_udds_mpgge,
            val_hwy_mpgge: self.val_hwy_mpgge,
            val_comb_mpgge: self.val_comb_mpgge,
            val_udds_kwh_per_mile: self.val_udds_kwh_per_mile,
            val_hwy_kwh_per_mile: self.val_hwy_kwh_per_mile,
            val_comb_kwh_per_mile: self.val_comb_kwh_per_mile,
            val_cd_range_mi: self.val_cd_range_mi,
            val_const65_mph_kwh_per_mile: self.val_const65_mph_kwh_per_mile,
            val_const60_mph_kwh_per_mile: self.val_const60_mph_kwh_per_mile,
            val_const55_mph_kwh_per_mile: self.val_const55_mph_kwh_per_mile,
            val_const45_mph_kwh_per_mile: self.val_const45_mph_kwh_per_mile,
            val_unadj_udds_kwh_per_mile: self.val_unadj_udds_kwh_per_mile,
            val_unadj_hwy_kwh_per_mile: self.val_unadj_hwy_kwh_per_mile,
            val0_to60_mph: self.val0_to60_mph,
            val_ess_life_miles: self.val_ess_life_miles,
            val_range_miles: self.val_range_miles,
            val_veh_base_cost: self.val_veh_base_cost,
            val_msrp: self.val_msrp,
            fc_peak_eff_override: self.fc_peak_eff_override,
            mc_peak_eff_override: self.mc_peak_eff_override,
            orphaned: self.orphaned,
        }
    }
}

/// The checks that a vehicle must pass.
#[derive(Clone, Copy, Debug, PartialEq, Eq, Structural)]
pub enum IntegrityCheck {
    /// A battery-electric vehicle has fuel storage power.
    ElectricFuelStoragePower,
    /// A battery-electric vehicle has fuel storage energy.
    ElectricFuelStorageEnergy,
    /// A battery-electric vehicle has fuel converter power.
    ElectricFuelConverterPower,
    /// A conventional vehicle without stop-start has motor power.
    ConventionalMotorPower,
    /// A conventional vehicle without stop-start has battery power.
    ConventionalBatteryPower,
    /// A conventional vehicle without stop-start has battery energy.
    ConventionalBatteryEnergy,
    /// The fuel converter efficiency falls below zero.
    FuelConverterEfficiencyBelowZero,
    /// The fuel converter efficiency reaches one.
    FuelConverterPeakEfficiency,
    /// The motor efficiency falls below zero.
    MotorEfficiencyBelowZero,
    /// The motor efficiency reaches one.
    MotorPeakEfficiency,
}

/// A check that a vehicle fails, with the value that fails it.
#[derive(Clone, Copy, Debug, PartialEq, Eq, Structural)]
pub struct IntegrityViolation {
    pub check: IntegrityCheck,
    pub value: Fixed,
}

/// The number between zero and one nearest to `x`.
pub open spec fn unit_clamped(x: Fixed) -> Fixed {
    Fixed { raw: 0 }.spec_larger(x.spec_smaller(Fixed { raw: SCALE }))
}

/// Whether the map has the length of the baselines and holds only zeros: the
/// sign that the map is yet to be made.
pub open spec fn is_unset_map(map: Seq<Fixed>) -> bool {
    &&& map.len() == large_baseline().len()
    &&& forall|i: int| 0 <= i < map.len() ==> (#[trigger] map[i]).raw == 0
}

/// `n` numbers in even steps from zero to one.
pub open spec fn even_steps(n: nat) -> Seq<Fixed> {
    Seq::new(n, |i: int| Fixed::spec_from_int(i).spec_over(Fixed::spec_from_int(n - 1)))
}

impl Vehicle {
    /// Mass of the traction battery: nothing where it has no energy or no
    /// power.
    pub open spec fn ess_mass(self) -> Fixed {
        if self.ess_max_kwh.raw == 0 || self.ess_max_kw.raw == 0 {
            Fixed { raw: 0 }
        } else {
            self.ess_max_kwh.spec_times(self.ess_kg_per_kwh).spec_plus(self.ess_base_kg).spec_times(
                self.comp_mass_multiplier,
            )
        }
    }

    /// Mass of motor and power electronics: nothing where the motor has no
    /// power.
    pub open spec fn mc_mass(self) -> Fixed {
        if self.mc_max_kw.raw == 0 {
            Fixed { raw: 0 }
        } else {
            self.mc_pe_base_kg.spec_plus(self.mc_pe_kg_per_kw.spec_times(self.mc_max_kw)).spec_times(
                self.comp_mass_multiplier,
            )
        }
    }

    /// Mass of the fuel converter: nothing where it has no power.
    pub open spec fn fc_mass(self) -> Fixed {
        if self.fc_max_kw.raw == 0 {
            Fixed { raw: 0 }
        } else {
            Fixed { raw: SCALE }.spec_over(self.fc_kw_per_kg).spec_times(self.fc_max_kw).spec_plus(
                self.fc_base_kg,
            ).spec_times(self.comp_mass_multiplier)
        }
    }

    /// Mass of the fuel storage: nothing where it has no power.
    pub open spec fn fs_mass(self) -> Fixed {
        if self.fs_max_kw.raw == 0 {
            Fixed { raw: 0 }
        } else {
            Fixed { raw: SCALE }.spec_over(self.fs_kwh_per_kg).spec_times(self.fs_kwh).spec_times(
                self.comp_mass_multiplier,
            )
        }
    }

    /// Mass of the vehicle as the sum of cargo, glider, transmission and
    /// components.
    pub open spec fn summed_mass(self) -> Fixed {
        self.cargo_kg.spec_plus(self.glider_kg).spec_plus(
            self.trans_kg.spec_times(self.comp_mass_multiplier),
        ).spec_plus(self.ess_mass()).spec_plus(self.mc_mass()).spec_plus(self.fc_mass()).spec_plus(
            self.fs_mass(),
        )
    }

    /// Mass of the vehicle: the override where it is positive, else the sum.
    pub open spec fn total_mass(self) -> Fixed {
        if self.veh_override_kg.raw > 0 {
            self.veh_override_kg
        } else {
            self.summed_mass()
        }
    }

    /// The largest acceleration that traction allows a vehicle of mass `kg`.
    pub open spec fn traction_limit(self, kg: Fixed) -> Fixed {
        let g = self.props.a_grav_mps2;
        let grip = self.wheel_coef_of_fric.spec_times(self.drive_axle_weight_frac).spec_times(
            kg,
        ).spec_times(g);
        let lever = Fixed { raw: SCALE }.spec_plus(
            self.veh_cg_m.spec_times(self.wheel_coef_of_fric).spec_over(self.wheel_base_m),
        );
        grip.spec_over(lever).spec_over(kg.spec_times(g)).spec_times(g)
    }

    /// The vehicle with its masses and its traction limit set.
    pub open spec fn with_mass(self) -> Vehicle {
        Vehicle {
            veh_kg: self.total_mass(),
            max_trac_mps2: self.traction_limit(self.total_mass()),
            ess_mass_kg: self.ess_mass(),
            mc_mass_kg: self.mc_mass(),
            fc_mass_kg: self.fc_mass(),
            fs_mass_kg: self.fs_mass(),
            ..self
        }
    }

    /// The check of the powertrain that the vehicle fails first, if any: a
    /// battery-electric vehicle has no fuel storage power, no fuel storage
    /// energy and no fuel converter power; a conventional vehicle without
    /// stop-start has no motor power, no battery power and no battery energy.
    pub open spec fn powertrain_violation(self) -> Option<IntegrityViolation> {
        if self.veh_pt_type == "BEV"@ {
            if self.fs_max_kw.raw != 0 {
                Some(
                    IntegrityViolation {
                        check: IntegrityCheck::ElectricFuelStoragePower,
                        value: self.fs_max_kw,
                    },
                )
            } else if self.fs_kwh.raw != 0 {
                Some(
                    IntegrityViolation {
                        check: IntegrityCheck::ElectricFuelStorageEnergy,
                        value: self.fs_kwh,
                    },
                )
            } else if self.fc_max_kw.raw != 0 {
                Some(
                    IntegrityViolation {
                        check: IntegrityCheck::ElectricFuelConverterPower,
                        value: self.fc_max_kw,
                    },
                )
            } else {
                None
            }
        } else if self.veh_pt_type == "Conv"@ && !self.stop_start {
            if self.mc_max_kw.raw != 0 {
                Some(
                    IntegrityViolation {
                        check: IntegrityCheck::ConventionalMotorPower,
                        value: self.mc_max_kw,
                    },
                )
            } else if self.ess_max_kw.raw != 0 {
                Some(
                    IntegrityViolation {
                        check: IntegrityCheck::ConventionalBatteryPower,
                        value: self.ess_max_kw,
                    },
                )
            } else if self.ess_max_kwh.raw != 0 {
                Some(
                    IntegrityViolation {
                        check: IntegrityCheck::ConventionalBatteryEnergy,
                        value: self.ess_max_kwh,
                    },
                )
            } else {
                None
            }
        } else {
            None
        }
    }

    /// The check of the efficiency curves that the vehicle fails first, if
    /// any: neither curve falls below zero or reaches one.
    pub open spec fn efficiency_violation(self) -> Option<IntegrityViolation> {
        if min_of(self.fc_eff_array).raw < 0 {
            Some(
                IntegrityViolation {
                    check: IntegrityCheck::FuelConverterEfficiencyBelowZero,
                    value: min_of(self.fc_eff_array),
                },
            )
        } else if max_of(self.fc_eff_array).raw >= SCALE {
            Some(
                IntegrityViolation {
                    check: IntegrityCheck::FuelConverterPeakEfficiency,
                    value: max_of(self.fc_eff_array),
                },
            )
        } else if min_of(self.mc_full_eff_array).raw < 0 {
            Some(
                IntegrityViolation {
                    check: IntegrityCheck::MotorEfficiencyBelowZero,
                    value: min_of(self.mc_full_eff_array),
                },
            )
        } else if max_of(self.mc_full_eff_array).raw >= SCALE {
            Some(
                IntegrityViolation {
                    check: IntegrityCheck::MotorPeakEfficiency,
                    value: max_of(self.mc_full_eff_array),
                },
            )
        } else {
            None
        }
    }

    /// The vehicle with the marks of what runs on electricity set: it has no
    /// electric drive where battery energy, battery power or motor power is
    /// zero; its auxiliary load runs off the fuel converter where it has no
    /// electric drive, where the motor is no stronger than the load, or where
    /// that is forced.
    pub open spec fn with_flags(self) -> Vehicle {
        let no_elec_sys = self.ess_max_kwh.raw == 0 || self.ess_max_kw.raw == 0
            || self.mc_max_kw.raw == 0;
        Vehicle {
            no_elec_sys,
            no_elec_aux: no_elec_sys || self.mc_max_kw.raw <= self.aux_kw.raw
                || self.force_aux_on_fc,
            ..self
        }
    }

    /// The vehicle with the curves of its fuel converter set: its power at
    /// each point of the power map and of the grid, and its efficiency at
    /// each point of the grid.
    pub open spec fn with_fc_curves(self) -> Vehicle {
        Vehicle {
            input_kw_out_array: scaled(self.fc_pwr_out_perc, self.fc_max_kw),
            fc_kw_out_array: scaled(self.fc_perc_out_array, self.fc_max_kw),
            fc_eff_array: resampled(self.fc_perc_out_array, self.fc_pwr_out_perc, self.fc_eff_map),
            ..self
        }
    }

    /// The share of the large baseline in the efficiency map of the motor:
    /// where the motor's power lies between those of the small and the large
    /// motor, kept between zero and one.
    pub open spec fn large_share(self) -> Fixed {
        unit_clamped(
            self.mc_max_kw.spec_minus(self.small_motor_power_kw).spec_over(
                self.large_motor_power_kw.spec_minus(self.small_motor_power_kw),
            ),
        )
    }

    /// The large baseline, raised so that its peak is that of a modern motor.
    pub open spec fn modern_baseline(self) -> Seq<Fixed> {
        shifted(large_baseline(), self.modern_max.spec_minus(max_of(large_baseline())))
    }

    /// The efficiency map of a motor of this power, mixed from the two
    /// baselines.
    pub open spec fn blended_map(self) -> Seq<Fixed> {
        let share = self.large_share();
        let rest = Fixed { raw: SCALE }.spec_minus(share);
        let modern = self.modern_baseline();
        Seq::new(
            large_baseline().len(),
            |i: int| share.spec_times(modern[i]).spec_plus(rest.spec_times(small_baseline()[i])),
        )
    }

    /// The efficiency map of the motor: the one given, or the mixed one where
    /// none is given.
    pub open spec fn motor_map(self) -> Seq<Fixed> {
        if is_unset_map(self.mc_eff_map) {
            self.blended_map()
        } else {
            self.mc_eff_map
        }
    }

    /// The output power of the motor at each point of its grid.
    pub open spec fn motor_output(self) -> Seq<Fixed> {
        scaled(even_steps(self.mc_perc_out_array.len()), self.mc_max_kw)
    }

    /// The efficiency of the motor at each point of its grid, zero at the
    /// first.
    pub open spec fn motor_efficiency(self) -> Seq<Fixed> {
        Seq::new(
            self.mc_perc_out_array.len(),
            |i: int|
                if i == 0 {
                    Fixed { raw: 0 }
                } else {
                    interpolated(self.mc_perc_out_array[i], self.mc_pwr_out_perc, self.motor_map())
                },
        )
    }

    /// The input power of the motor at each point of its grid, zero at the
    /// first.
    pub open spec fn motor_input(self) -> Seq<Fixed> {
        Seq::new(
            self.mc_perc_out_array.len(),
            |i: int|
                if i == 0 {
                    Fixed { raw: 0 }
                } else {
                    self.motor_output()[i].spec_over(self.motor_efficiency()[i])
                },
        )
    }

    /// The vehicle with the curves of its motor set.
    pub open spec fn with_mc_curves(self) -> Vehicle {
        Vehicle {
            mc_eff_map: self.motor_map(),
            mc_eff_array: self.motor_map(),
            mc_kw_out_array: self.motor_output(),
            mc_full_eff_array: self.motor_efficiency(),
            mc_kw_in_array: self.motor_input(),
            mc_max_elec_in_kw: max_of(self.motor_input()),
            ..self
        }
    }

    /// The vehicle with the efficiency of its fuel converter scaled so that
    /// its peak is `peak`.
    pub open spec fn with_fc_peak(self, peak: Fixed) -> Vehicle {
        let on_grid = scaled(self.fc_eff_array, peak.spec_over(max_of(self.fc_eff_array)));
        Vehicle {
            fc_eff_array: on_grid,
            fc_eff_map: scaled(self.fc_eff_map, peak.spec_over(max_of(on_grid))),
            ..self
        }
    }

    /// The vehicle with the efficiency of its motor scaled so that its peak
    /// is `peak`.
    pub open spec fn with_mc_peak(self, peak: Fixed) -> Vehicle {
        Vehicle {
            mc_eff_array: scaled(self.mc_eff_array, peak.spec_over(max_of(self.mc_eff_array))),
            mc_full_eff_array: scaled(
                self.mc_full_eff_array,
                peak.spec_over(max_of(self.mc_full_eff_array)),
            ),
            ..self
        }
    }

    /// The vehicle with the peaks that it asks for applied, and asking for
    /// none any more.
    pub open spec fn with_peak_overrides(self) -> Vehicle {
        let fc_done = match self.fc_peak_eff_override {
            Some(peak) => Vehicle { fc_peak_eff_override: None, ..self.with_fc_peak(peak) },
            None => self,
        };
        match fc_done.mc_peak_eff_override {
            Some(peak) => Vehicle { mc_peak_eff_override: None, ..fc_done.with_mc_peak(peak) },
            None => fc_done,
        }
    }

    /// The vehicle with all its curves set.
    pub open spec fn with_curves(self) -> Vehicle {
        self.with_flags().with_fc_curves().with_mc_curves().with_peak_overrides()
    }

    /// The vehicle with all that follows from its parameters set, or the
    /// check that it fails first: those of the powertrain before any curve is
    /// set, those of the efficiency curves on the curves as set.
    pub open spec fn derived(self) -> Result<Vehicle, IntegrityViolation> {
        match self.powertrain_violation() {
            Some(e) => Err(e),
            None => match self.with_curves().efficiency_violation() {
                Some(e) => Err(e),
                None => Ok(self.with_curves().with_mass()),
            },
        }
    }
}

impl RustVehicle {
    /// Mass of the traction battery.
    pub fn ess_mass(&self) -> (m: Fixed)
        ensures
            m == self@.ess_mass(),
    {
        if self.ess_max_kwh.raw == 0 || self.ess_max_kw.raw == 0 {
            Fixed::zero()
        } else {
            self.ess_max_kwh.times(self.ess_kg_per_kwh).plus(self.ess_base_kg).times(
                self.comp_mass_multiplier,
            )
        }
    }

    /// Mass of motor and power electronics.
    pub fn mc_mass(&self) -> (m: Fixed)
        ensures
            m == self@.mc_mass(),
    {
        if self.mc_max_kw.raw == 0 {
            Fixed::zero()
        } else {
            self.mc_pe_base_kg.plus(self.mc_pe_kg_per_kw.times(self.mc_max_kw)).times(
                self.comp_mass_multiplier,
            )
        }
    }

    /// Mass of the fuel converter.
    pub fn fc_mass(&self) -> (m: Fixed)
        ensures
            m == self@.fc_mass(),
    {
        if self.fc_max_kw.raw == 0 {
            Fixed::zero()
        } else {
            Fixed::one().over(self.fc_kw_per_kg).times(self.fc_max_kw).plus(self.fc_base_kg).times(
                self.comp_mass_multiplier,
            )
        }
    }

    /// Mass of the fuel storage.
    pub fn fs_mass(&self) -> (m: Fixed)
        ensures
            m == self@.fs_mass(),
    {
        if self.fs_max_kw.raw == 0 {
            Fixed::zero()
        } else {
            Fixed::one().over(self.fs_kwh_per_kg).times(self.fs_kwh).times(
                self.comp_mass_multiplier,
            )
        }
    }

    /// Mass of the vehicle: the override where it is positive, else the sum
    /// of cargo, glider, transmission and components.
    pub fn total_mass(&self) -> (m: Fixed)
        ensures
            m == self@.total_mass(),
    {
        if self.veh_override_kg.raw > 0 {
            self.veh_override_kg
        } else {
            self.cargo_kg.plus(self.glider_kg).plus(
                self.trans_kg.times(self.comp_mass_multiplier),
            ).plus(self.ess_mass()).plus(self.mc_mass()).plus(self.fc_mass()).plus(self.fs_mass())
        }
    }

    /// The largest acceleration that traction allows a vehicle of mass `kg`.
    pub fn traction_limit(&self, kg: Fixed) -> (a: Fixed)
        ensures
            a == self@.traction_limit(kg),
    {
        let g = self.props.a_grav_mps2;
        let grip = self.wheel_coef_of_fric.times(self.drive_axle_weight_frac).times(kg).times(g);
        let lever = Fixed::one().plus(
            self.veh_cg_m.times(self.wheel_coef_of_fric).over(self.wheel_base_m),
        );
        grip.over(lever).over(kg.times(g)).times(g)
    }

    /// Sets the masses of the components, the mass of the vehicle and its
    /// traction limit.
    ///
    /// The mass of the vehicle is the override where that is positive; else
    /// the sum of cargo, glider, transmission and components.
    pub fn set_veh_mass(&mut self)
        ensures
            final(self)@ == old(self)@.with_mass(),
            old(self).veh_override_kg.raw > 0 ==> final(self).veh_kg == old(self).veh_override_kg,
    {
        let ess_mass_kg = self.ess_mass();
        let mc_mass_kg = self.mc_mass();
        let fc_mass_kg = self.fc_mass();
        let fs_mass_kg = self.fs_mass();
        let veh_kg = self.total_mass();
        let max_trac_mps2 = self.traction_limit(veh_kg);
        self.veh_kg = veh_kg;
        self.max_trac_mps2 = max_trac_mps2;
        self.ess_mass_kg = ess_mass_kg;
        self.mc_mass_kg = mc_mass_kg;
        self.fc_mass_kg = fc_mass_kg;
        self.fs_mass_kg = fs_mass_kg;
    }

    /// The check of the powertrain that the vehicle fails first, if any.
    pub fn powertrain_check(&self) -> (r: Option<IntegrityViolation>)
        ensures
            r == self@.powertrain_violation(),
    {
        if same_text(self.veh_pt_type.as_str(), BEV) {
            if self.fs_max_kw.raw != 0 {
                Some(
                    IntegrityViolation {
                        check: IntegrityCheck::ElectricFuelStoragePower,
                        value: self.fs_max_kw,
                    },
                )
            } else if self.fs_kwh.raw != 0 {
                Some(
                    IntegrityViolation {
                        check: IntegrityCheck::ElectricFuelStorageEnergy,
                        value: self.fs_kwh,
                    },
                )
            } else if self.fc_max_kw.raw != 0 {
                Some(
                    IntegrityViolation {
                        check: IntegrityCheck::ElectricFuelConverterPower,
                        value: self.fc_max_kw,
                    },
                )
            } else {
                None
            }
        } else if same_text(self.veh_pt_type.as_str(), CONV) && !self.stop_start {
            if self.mc_max_kw.raw != 0 {
                Some(
                    IntegrityViolation {
                        check: IntegrityCheck::ConventionalMotorPower,
                        value: self.mc_max_kw,
                    },
                )
            } else if self.ess_max_kw.raw != 0 {
                Some(
                    IntegrityViolation {
                        check: IntegrityCheck::ConventionalBatteryPower,
                        value: self.ess_max_kw,
                    },
                )
            } else if self.ess_max_kwh.raw != 0 {
                Some(
                    IntegrityViolation {
                        check: IntegrityCheck::ConventionalBatteryEnergy,
                        value: self.ess_max_kwh,
                    },
                )
            } else {
                None
            }
        } else {
            None
        }
    }

    /// The check of the efficiency curves that the vehicle fails first, if
    /// any.
    pub fn efficiency_check(&self) -> (r: Option<IntegrityViolation>)
        ensures
            r == self@.efficiency_violation(),
    {
        let fc_low = arrmin(&self.fc_eff_array);
        let fc_high = arrmax(&self.fc_eff_array);
        let mc_low = arrmin(&self.mc_full_eff_array);
        let mc_high = arrmax(&self.mc_full_eff_array);
        if fc_low.raw < 0 {
            Some(
                IntegrityViolation {
                    check: IntegrityCheck::FuelConverterEfficiencyBelowZero,
                    value: fc_low,
                },
            )
        } else if fc_high.raw >= SCALE {
            Some(
                IntegrityViolation { check: IntegrityCheck::FuelConverterPeakEfficiency, value: fc_high },
            )
        } else if mc_low.raw < 0 {
            Some(
                IntegrityViolation { check: IntegrityCheck::MotorEfficiencyBelowZero, value: mc_low },
            )
        } else if mc_high.raw >= SCALE {
            Some(IntegrityViolation { check: IntegrityCheck::MotorPeakEfficiency, value: mc_high })
        } else {
            None
        }
    }

    /// Sets the marks of what runs on electricity.
    pub fn set_flags(&mut self)
        ensures
            final(self)@ == old(self)@.with_flags(),
    {
        let no_elec_sys = self.ess_max_kwh.raw == 0 || self.ess_max_kw.raw == 0 || self.mc_max_kw.raw
            == 0;
        let no_elec_aux = no_elec_sys || self.mc_max_kw.raw <= self.aux_kw.raw
            || self.force_aux_on_fc;
        self.no_elec_sys = no_elec_sys;
        self.no_elec_aux = no_elec_aux;
    }

    /// Sets the curves of the fuel converter.
    pub fn set_fc_curves(&mut self)
        ensures
            final(self)@ == old(self)@.with_fc_curves(),
    {
        let points = self.fc_pwr_out_perc.to_vec();
        let input_kw_out_array = scale(&points, self.fc_max_kw);
        let fc_kw_out_array = scale(&self.fc_perc_out_array, self.fc_max_kw);
        let fc_eff_array = resample(&self.fc_perc_out_array, &points, &self.fc_eff_map.to_vec());
        self.input_kw_out_array = Curve::new(input_kw_out_array);
        self.fc_kw_out_array = fc_kw_out_array;
        self.fc_eff_array = fc_eff_array;
    }

    /// The share of the large baseline in the efficiency map of the motor.
    pub fn large_share(&self) -> (share: Fixed)
        ensures
            share == self@.large_share(),
    {
        let ratio = self.mc_max_kw.minus(self.small_motor_power_kw).over(
            self.large_motor_power_kw.minus(self.small_motor_power_kw),
        );
        Fixed::zero().larger(ratio.smaller(Fixed::one()))
    }

    /// The efficiency map of a motor of this power, mixed from the two
    /// baselines.
    pub fn blended_map(&self) -> (map: Vec<Fixed>)
        ensures
            map@ == self@.blended_map(),
    {
        let large = large_baseline_eff();
        let small = small_baseline_eff();
        let modern = shift(&large, self.modern_max.minus(arrmax(&large)));
        let share = self.large_share();
        let rest = Fixed::one().minus(share);
        let mut map: Vec<Fixed> = Vec::new();
        let mut i: usize = 0;
        assert(large@.len() == 11 && small@.len() == 11);
        while i < large.len()
            invariant
                i <= large.len(),
                large@ == large_baseline(),
                small@ == small_baseline(),
                large@.len() == 11,
                small@.len() == 11,
                modern@ == self@.modern_baseline(),
                share == self@.large_share(),
                rest == (Fixed { raw: SCALE }).spec_minus(share),
                map.len() == i,
                forall|j: int|
                    0 <= j < i ==> map@[j] == share.spec_times(modern@[j]).spec_plus(
                        rest.spec_times(small@[j]),
                    ),
            decreases large.len() - i,
        {
            map.push(share.times(modern[i]).plus(rest.times(small[i])));
            i += 1;
        }
        assert(map@ =~= self@.blended_map());
        map
    }

    /// The efficiency map of the motor: the one given, or the mixed one where
    /// none is given.
    pub fn motor_map(&self) -> (map: Vec<Fixed>)
        ensures
            map@ == self@.motor_map(),
    {
        let given = self.mc_eff_map.to_vec();
        let mut unset = given.len() == 11;
        assert(large_baseline().len() == 11);
        let mut i: usize = 0;
        while unset && i < given.len()
            invariant
                i <= given.len(),
                given@ == self.mc_eff_map@,
                unset ==> given.len() == 11,
                !unset ==> !is_unset_map(given@),
                unset ==> forall|j: int| 0 <= j < i ==> (#[trigger] given@[j]).raw == 0,
            decreases given.len() - i,
        {
            if given[i].raw != 0 {
                unset = false;
            }
            i += 1;
        }
        if unset {
            self.blended_map()
        } else {
            given
        }
    }

    /// The output power of the motor at each point of its grid.
    pub fn motor_output(&self) -> (out: Vec<Fixed>)
        ensures
            out@ == self@.motor_output(),
    {
        let n = self.mc_perc_out_array.len();
        let mut out: Vec<Fixed> = Vec::new();
        let mut i: usize = 0;
        while i < n
            invariant
                i <= n,
                n == self.mc_perc_out_array.len(),
                out.len() == i,
                forall|j: int|
                    0 <= j < i ==> out@[j] == Fixed::spec_from_int(j).spec_over(
                        Fixed::spec_from_int(n - 1),
                    ).spec_times(self.mc_max_kw),
            decreases n - i,
        {
            out.push(Fixed::from_count(i).over(Fixed::from_count(n - 1)).times(self.mc_max_kw));
            i += 1;
        }
        assert(out@ =~= self@.motor_output());
        out
    }

    /// The efficiency of the motor at each point of its grid, zero at the
    /// first, for the efficiency map `map`.
    fn motor_efficiency(&self, map: &Vec<Fixed>) -> (eff: Vec<Fixed>)
        requires
            map@ == self@.motor_map(),
        ensures
            eff@ == self@.motor_efficiency(),
    {
        let n = self.mc_perc_out_array.len();
        let points = self.mc_pwr_out_perc.to_vec();
        let mut eff: Vec<Fixed> = Vec::new();
        let mut i: usize = 0;
        while i < n
            invariant
                i <= n,
                n == self.mc_perc_out_array.len(),
                points@ == self.mc_pwr_out_perc@,
                eff.len() == i,
                forall|j: int|
                    0 <= j < i ==> eff@[j] == if j == 0 {
                        Fixed { raw: 0 }
                    } else {
                        interpolated(self.mc_perc_out_array@[j], points@, map@)
                    },
            decreases n - i,
        {
            if i == 0 {
                eff.push(Fixed::zero());
            } else {
                eff.push(crate::curve::interpolate(self.mc_perc_out_array[i], &points, map));
            }
            i += 1;
        }
        assert(eff@ =~= self@.motor_efficiency());
        eff
    }

    /// The input power of the motor at each point of its grid, zero at the
    /// first, for output power `out` and efficiency `eff`.
    fn motor_input(&self, out: &Vec<Fixed>, eff: &Vec<Fixed>) -> (inp: Vec<Fixed>)
        requires
            out@ == self@.motor_output(),
            eff@ == self@.motor_efficiency(),
        ensures
            inp@ == self@.motor_input(),
    {
        let n = self.mc_perc_out_array.len();
        let mut inp: Vec<Fixed> = Vec::new();
        let mut i: usize = 0;
        while i < n
            invariant
                i <= n,
                n == self.mc_perc_out_array.len(),
                out.len() == n,
                eff.len() == n,
                inp.len() == i,
                forall|j: int|
                    0 <= j < i ==> inp@[j] == if j == 0 {
                        Fixed { raw: 0 }
                    } else {
                        out@[j].spec_over(eff@[j])
                    },
            decreases n - i,
        {
            if i == 0 {
                inp.push(Fixed::zero());
            } else {
                inp.push(out[i].over(eff[i]));
            }
            i += 1;
        }
        assert(inp@ =~= self@.motor_input());
        inp
    }

    /// Sets the curves of the motor.
    pub fn set_mc_curves(&mut self)
        ensures
            final(self)@ == old(self)@.with_mc_curves(),
    {
        let map = self.motor_map();
        let out = self.motor_output();
        let eff = self.motor_efficiency(&map);
        let inp = self.motor_input(&out, &eff);
        let most = arrmax(&inp);
        self.mc_eff_array = Curve::new(copy_curve(&map));
        self.mc_eff_map = Curve::new(map);
        self.mc_kw_out_array = out;
        self.mc_full_eff_array = eff;
        self.mc_kw_in_array = inp;
        self.mc_max_elec_in_kw = most;
    }

    /// Scales the efficiency of the fuel converter so that its peak is
    /// `new_peak`.
    pub fn set_fc_peak_eff(&mut self, new_peak: Fixed)
        ensures
            final(self)@ == old(self)@.with_fc_peak(new_peak),
    {
        let on_grid = scale(&self.fc_eff_array, new_peak.over(arrmax(&self.fc_eff_array)));
        let map = scale(&self.fc_eff_map.to_vec(), new_peak.over(arrmax(&on_grid)));
        self.fc_eff_array = on_grid;
        self.fc_eff_map = Curve::new(map);
    }

    /// Scales the efficiency of the motor so that its peak is `new_peak`.
    pub fn set_mc_peak_eff(&mut self, new_peak: Fixed)
        ensures
            final(self)@ == old(self)@.with_mc_peak(new_peak),
    {
        let on_map = self.mc_eff_array.to_vec();
        let on_map = scale(&on_map, new_peak.over(arrmax(&on_map)));
        let on_grid = scale(&self.mc_full_eff_array, new_peak.over(arrmax(&self.mc_full_eff_array)));
        self.mc_eff_array = Curve::new(on_map);
        self.mc_full_eff_array = on_grid;
    }

    /// Applies the peaks that the vehicle asks for, after which it asks for
    /// none.
    pub fn apply_peak_overrides(&mut self)
        ensures
            final(self)@ == old(self)@.with_peak_overrides(),
    {
        if let Some(peak) = self.fc_peak_eff_override {
            self.set_fc_peak_eff(peak);
            self.fc_peak_eff_override = None;
        }
        if let Some(peak) = self.mc_peak_eff_override {
            self.set_mc_peak_eff(peak);
            self.mc_peak_eff_override = None;
        }
    }

    /// Sets all that follows from the parameters: the marks of what runs on
    /// electricity, the curves of fuel converter and motor, the masses and
    /// the traction limit.
    ///
    /// Fails, leaving the vehicle as it was, where the vehicle does not pass
    /// a check.
    pub fn set_derived(&mut self) -> (r: Result<(), IntegrityViolation>)
        ensures
            r is Ok ==> old(self)@.derived() == Ok::<Vehicle, IntegrityViolation>(final(self)@),
            r matches Err(e) ==> old(self)@.derived() == Err::<Vehicle, IntegrityViolation>(e)
                && final(self)@ == old(self)@,
            old(self).veh_pt_type@ == "BEV"@ && (old(self).fs_max_kw.raw != 0 || old(
                self,
            ).fs_kwh.raw != 0 || old(self).fc_max_kw.raw != 0) ==> r is Err,
            r is Ok && old(self).veh_override_kg.raw > 0 ==> final(self).veh_kg == old(
                self,
            ).veh_override_kg,
    {
        if let Some(e) = self.powertrain_check() {
            return Err(e);
        }
        let mut work = self.clone();
        work.set_flags();
        work.set_fc_curves();
        work.set_mc_curves();
        work.apply_peak_overrides();
        if let Some(e) = work.efficiency_check() {
            return Err(e);
        }
        work.set_veh_mass();
        *self = work;
        Ok(())
    }

    /// The energy that braking from 60 mph can return, in kWh.
    pub fn max_regen_kwh(&self) -> (e: Fixed)
        ensures
            e == self@.max_regen_kwh(),
    {
        Fixed::from_raw(500_000_000).times(self.veh_kg).times(Fixed::from_int(729)).over(
            Fixed::from_int(3_600_000),
        )
    }

    /// The peak efficiency of the motor.
    pub fn mc_peak_eff(&self) -> (e: Fixed)
        ensures
            e == max_of(self.mc_full_eff_array@),
    {
        arrmax(&self.mc_full_eff_array)
    }

    /// The power at which the fuel converter is most efficient: that of the
    /// first grid point of peak efficiency. Zero where the grid is empty.
    pub fn max_fc_eff_kw(&self) -> (kw: Fixed)
        ensures
            kw == self@.max_fc_eff_kw(),
    {
        let peak = arrmax(&self.fc_eff_array);
        let at: usize = match first_eq(&self.fc_eff_array, peak) {
            Some(i) => {
                proof {
                    lemma_first_equal_is(self.fc_eff_array@, peak, i as int);
                }
                i
            },
            None => 0,
        };
        if at < self.fc_kw_out_array.len() {
            self.fc_kw_out_array[at]
        } else {
            Fixed::zero()
        }
    }

    /// The peak efficiency of the fuel converter.
    pub fn fc_peak_eff(&self) -> (e: Fixed)
        ensures
            e == max_of(self.fc_eff_array@),
    {
        arrmax(&self.fc_eff_array)
    }
}

/// The first position of `s` that holds `x`; zero where none does.
pub open spec fn first_equal_or_zero(s: Seq<Fixed>, x: Fixed) -> int {
    if s.contains(x) {
        choose|i: int| is_first_equal(s, x, i)
    } else {
        0
    }
}

proof fn lemma_first_equal_is(s: Seq<Fixed>, x: Fixed, i: int)
    requires
        is_first_equal(s, x, i),
    ensures
        first_equal_or_zero(s, x) == i,
{
    let k = choose|k: int| is_first_equal(s, x, k);
    assert(s.contains(x));
    assert(is_first_equal(s, x, k));
    if k < i {
    } else if i < k {
    }
}

impl Vehicle {
    /// The energy that braking from 60 mph can return, in kWh: half the mass
    /// times the square of 27 m/s, in kWh.
    pub open spec fn max_regen_kwh(self) -> Fixed {
        Fixed { raw: 500_000_000 }.spec_times(self.veh_kg).spec_times(
            Fixed::spec_from_int(729),
        ).spec_over(Fixed::spec_from_int(3_600_000))
    }

    /// The power at which the fuel converter is most efficient.
    pub open spec fn max_fc_eff_kw(self) -> Fixed {
        let at = first_equal_or_zero(self.fc_eff_array, max_of(self.fc_eff_array));
        if at < self.fc_kw_out_array.len() {
            self.fc_kw_out_array[at]
        } else {
            Fixed { raw: 0 }
        }
    }
}

/// Tag of the conventional powertrain.
pub const CONV: &'static str = "Conv";

/// Tag of the hybrid powertrain.
pub const HEV: &'static str = "HEV";

/// Tag of the plug-in hybrid powertrain.
pub const PHEV: &'static str = "PHEV";

/// Tag of the battery-electric powertrain.
pub const BEV: &'static str = "BEV";

/// Tag of the spark-ignition efficiency curve.
pub const SI: &'static str = "SI";

/// Tag of the Atkinson-cycle efficiency curve.
pub const ATKINSON: &'static str = "Atkinson";

/// `n` zeros.
pub fn zeros(n: usize) -> (r: Vec<Fixed>)
    ensures
        r@ == Seq::new(n as nat, |i: int| Fixed { raw: 0 }),
{
    let mut r: Vec<Fixed> = Vec::new();
    let mut i: usize = 0;
    while i < n
        invariant
            i <= n,
            r.len() == i,
            forall|j: int| 0 <= j < i ==> (#[trigger] r@[j]).raw == 0,
        decreases n - i,
    {
        r.push(Fixed::zero());
        i += 1;
    }
    assert(r@ =~= Seq::new(n as nat, |i: int| Fixed { raw: 0 }));
    r
}

impl Vehicle {
    /// The vehicle with the given parameters and nothing derived yet: no
    /// override of the mass counts as zero, no motor efficiency map as the
    /// map of zeros that is yet to be made; the motors of the baselines have
    /// 7.5 kW and 75 kW, and the grids are the usual ones.
    pub open spec fn assembled(
        scenario_name: Seq<char>,
        selection: u32,
        veh_year: u32,
        veh_pt_type: Seq<char>,
        drag_coef: Fixed,
        frontal_area_m2: Fixed,
        glider_kg: Fixed,
        veh_cg_m: Fixed,
        drive_axle_weight_frac: Fixed,
        wheel_base_m: Fixed,
        cargo_kg: Fixed,
        veh_override_kg: Option<Fixed>,
        comp_mass_multiplier: Fixed,
        fs_max_kw: Fixed,
        fs_secs_to_peak_pwr: Fixed,
        fs_kwh: Fixed,
        fs_kwh_per_kg: Fixed,
        fc_max_kw: Fixed,
        fc_pwr_out_perc: Seq<Fixed>,
        fc_eff_map: Seq<Fixed>,
        fc_eff_type: Seq<char>,
        fc_sec_to_peak_pwr: Fixed,
        fc_base_kg: Fixed,
        fc_kw_per_kg: Fixed,
        min_fc_time_on: Fixed,
        idle_fc_kw: Fixed,
        mc_max_kw: Fixed,
        mc_pwr_out_perc: Seq<Fixed>,
        mc_eff_map: Option<Seq<Fixed>>,
        mc_sec_to_peak_pwr: Fixed,
        mc_pe_kg_per_kw: Fixed,
        mc_pe_base_kg: Fixed,
        ess_max_kw: Fixed,
        ess_max_kwh: Fixed,
        ess_kg_per_kwh: Fixed,
        ess_base_kg: Fixed,
        ess_round_trip_eff: Fixed,
        ess_life_coef_a: Fixed,
        ess_life_coef_b: Fixed,
        min_soc: Fixed,
        max_soc: Fixed,
        ess_dischg_to_fc_max_eff_perc: Fixed,
        ess_chg_to_fc_max_eff_perc: Fixed,
        wheel_inertia_kg_m2: Fixed,
        num_wheels: Fixed,
        wheel_rr_coef: Fixed,
        wheel_radius_m: Fixed,
        wheel_coef_of_fric: Fixed,
        max_accel_buffer_mph: Fixed,
        max_accel_buffer_perc_of_useable_soc: Fixed,
        perc_high_acc_buf: Fixed,
        mph_fc_on: Fixed,
        kw_demand_fc_on: Fixed,
        max_regen: Fixed,
        stop_start: bool,
        force_aux_on_fc: bool,
        alt_eff: Fixed,
        chg_eff: Fixed,
        aux_kw: Fixed,
        trans_kg: Fixed,
        trans_eff: Fixed,
        ess_to_fuel_ok_error: Fixed,
        val_udds_mpgge: Option<Fixed>,
        val_hwy_mpgge: Option<Fixed>,
        val_comb_mpgge: Option<Fixed>,
        val_udds_kwh_per_mile: Option<Fixed>,
        val_hwy_kwh_per_mile: Option<Fixed>,
        val_comb_kwh_per_mile: Option<Fixed>,
        val_cd_range_mi: Option<Fixed>,
        val_const65_mph_kwh_per_mile: Option<Fixed>,
        val_const60_mph_kwh_per_mile: Option<Fixed>,
        val_const55_mph_kwh_per_mile: Option<Fixed>,
        val_const45_mph_kwh_per_mile: Option<Fixed>,
        val_unadj_udds_kwh_per_mile: Option<Fixed>,
        val_unadj_hwy_kwh_per_mile: Option<Fixed>,
        val0_to60_mph: Option<Fixed>,
        val_ess_life_miles: Option<Fixed>,
        val_range_miles: Option<Fixed>,
        val_veh_base_cost: Option<Fixed>,
        val_msrp: Option<Fixed>,
        props: RustPhysicalProperties,
        regen_a: Fixed,
        regen_b: Fixed,
        fc_peak_eff_override: Option<Fixed>,
        mc_peak_eff_override: Option<Fixed>,
    ) -> Vehicle {
        Vehicle {
            props,
            scenario_name,
            selection,
            veh_year,
            veh_pt_type,
            drag_coef,
            frontal_area_m2,
            glider_kg,
            veh_cg_m,
            drive_axle_weight_frac,
            wheel_base_m,
            cargo_kg,
            veh_override_kg: match veh_override_kg {
                Some(kg) => kg,
                None => Fixed { raw: 0 },
            },
            comp_mass_multiplier,
            fs_max_kw,
            fs_secs_to_peak_pwr,
            fs_kwh,
            fs_kwh_per_kg,
            fc_max_kw,
            fc_pwr_out_perc,
            fc_eff_map,
            fc_eff_type,
            fc_sec_to_peak_pwr,
            fc_base_kg,
            fc_kw_per_kg,
            min_fc_time_on,
            idle_fc_kw,
            mc_max_kw,
            mc_pwr_out_perc,
            mc_eff_map: match mc_eff_map {
                Some(map) => map,
                None => Seq::new(11, |i: int| Fixed { raw: 0 }),
            },
            mc_sec_to_peak_pwr,
            mc_pe_kg_per_kw,
            mc_pe_base_kg,
            ess_max_kw,
            ess_max_kwh,
            ess_kg_per_kwh,
            ess_base_kg,
            ess_round_trip_eff,
            ess_life_coef_a,
            ess_life_coef_b,
            min_soc,
            max_soc,
            ess_dischg_to_fc_max_eff_perc,
            ess_chg_to_fc_max_eff_perc,
            wheel_inertia_kg_m2,
            num_wheels,
            wheel_rr_coef,
            wheel_radius_m,
            wheel_coef_of_fric,
            max_accel_buffer_mph,
            max_accel_buffer_perc_of_useable_soc,
            perc_high_acc_buf,
            mph_fc_on,
            kw_demand_fc_on,
            max_regen,
            stop_start,
            force_aux_on_fc,
            alt_eff,
            chg_eff,
            aux_kw,
            trans_kg,
            trans_eff,
            ess_to_fuel_ok_error,
            small_motor_power_kw: Fixed { raw: 7_500_000_000 },
            large_motor_power_kw: Fixed { raw: 75_000_000_000 },
            fc_perc_out_array: fc_grid(),
            regen_a,
            regen_b,
            charging_on: false,
            no_elec_sys: false,
            no_elec_aux: false,
            max_roadway_chg_kw: Seq::new(6, |i: int| Fixed { raw: 0 }),
            input_kw_out_array: Seq::new(1, |i: int| Fixed { raw: 0 }),
            fc_kw_out_array: Seq::new(0, |i: int| Fixed { raw: 0 }),
            fc_eff_array: Seq::new(0, |i: int| Fixed { raw: 0 }),
            modern_max: Fixed { raw: MODERN_MAX_RAW },
            mc_eff_array: Seq::new(1, |i: int| Fixed { raw: 0 }),
            mc_kw_in_array: Seq::new(0, |i: int| Fixed { raw: 0 }),
            mc_kw_out_array: Seq::new(0, |i: int| Fixed { raw: 0 }),
            mc_max_elec_in_kw: Fixed { raw: 0 },
            mc_full_eff_array: Seq::new(0, |i: int| Fixed { raw: 0 }),
            veh_kg: Fixed { raw: 0 },
            max_trac_mps2: Fixed { raw: 0 },
            ess_mass_kg: Fixed { raw: 0 },
            mc_mass_kg: Fixed { raw: 0 },
            fc_mass_kg: Fixed { raw: 0 },
            fs_mass_kg: Fixed { raw: 0 },
            mc_perc_out_array: mc_grid(),
            val_udds_mpgge,
            val_hwy_mpgge,
            val_comb_mpgge,
            val_udds_kwh_per_mile,
            val_hwy_kwh_per_mile,
            val_comb_kwh_per_mile,
            val_cd_range_mi,
            val_const65_mph_kwh_per_mile,
            val_const60_mph_kwh_per_mile,
            val_const55_mph_kwh_per_mile,
            val_const45_mph_kwh_per_mile,
            val_unadj_udds_kwh_per_mile,
            val_unadj_hwy_kwh_per_mile,
            val0_to60_mph,
            val_ess_life_miles,
            val_range_miles,
            val_veh_base_cost,
            val_msrp,
            fc_peak_eff_override,
            mc_peak_eff_override,
            orphaned: false,
        }
    }
}

impl RustVehicle {
    /// Makes the vehicle with the given parameters and nothing derived yet.
    fn assemble(
        scenario_name: String,
        selection: u32,
        veh_year: u32,
        veh_pt_type: String,
        drag_coef: Fixed,
        frontal_area_m2: Fixed,
        glider_kg: Fixed,
        veh_cg_m: Fixed,
        drive_axle_weight_frac: Fixed,
        wheel_base_m: Fixed,
        cargo_kg: Fixed,
        veh_override_kg: Option<Fixed>,
        comp_mass_multiplier: Fixed,
        fs_max_kw: Fixed,
        fs_secs_to_peak_pwr: Fixed,
        fs_kwh: Fixed,
        fs_kwh_per_kg: Fixed,
        fc_max_kw: Fixed,
        fc_pwr_out_perc: Vec<Fixed>,
        fc_eff_map: Vec<Fixed>,
        fc_eff_type: String,
        fc_sec_to_peak_pwr: Fixed,
        fc_base_kg: Fixed,
        fc_kw_per_kg: Fixed,
        min_fc_time_on: Fixed,
        idle_fc_kw: Fixed,
        mc_max_kw: Fixed,
        mc_pwr_out_perc: Vec<Fixed>,
        mc_eff_map: Option<Vec<Fixed>>,
        mc_sec_to_peak_pwr: Fixed,
        mc_pe_kg_per_kw: Fixed,
        mc_pe_base_kg: Fixed,
        ess_max_kw: Fixed,
        ess_max_kwh: Fixed,
        ess_kg_per_kwh: Fixed,
        ess_base_kg: Fixed,
        ess_round_trip_eff: Fixed,
        ess_life_coef_a: Fixed,
        ess_life_coef_b: Fixed,
        min_soc: Fixed,
        max_soc: Fixed,
        ess_dischg_to_fc_max_eff_perc: Fixed,
        ess_chg_to_fc_max_eff_perc: Fixed,
        wheel_inertia_kg_m2: Fixed,
        num_wheels: Fixed,
        wheel_rr_coef: Fixed,
        wheel_radius_m: Fixed,
        wheel_coef_of_fric: Fixed,
        max_accel_buffer_mph: Fixed,
        max_accel_buffer_perc_of_useable_soc: Fixed,
        perc_high_acc_buf: Fixed,
        mph_fc_on: Fixed,
        kw_demand_fc_on: Fixed,
        max_regen: Fixed,
        stop_start: bool,
        force_aux_on_fc: bool,
        alt_eff: Fixed,
        chg_eff: Fixed,
        aux_kw: Fixed,
        trans_kg: Fixed,
        trans_eff: Fixed,
        ess_to_fuel_ok_error: Fixed,
        val_udds_mpgge: Option<Fixed>,
        val_hwy_mpgge: Option<Fixed>,
        val_comb_mpgge: Option<Fixed>,
        val_udds_kwh_per_mile: Option<Fixed>,
        val_hwy_kwh_per_mile: Option<Fixed>,
        val_comb_kwh_per_mile: Option<Fixed>,
        val_cd_range_mi: Option<Fixed>,
        val_const65_mph_kwh_per_mile: Option<Fixed>,
        val_const60_mph_kwh_per_mile: Option<Fixed>,
        val_const55_mph_kwh_per_mile: Option<Fixed>,
        val_const45_mph_kwh_per_mile: Option<Fixed>,
        val_unadj_udds_kwh_per_mile: Option<Fixed>,
        val_unadj_hwy_kwh_per_mile: Option<Fixed>,
        val0_to60_mph: Option<Fixed>,
        val_ess_life_miles: Option<Fixed>,
        val_range_miles: Option<Fixed>,
        val_veh_base_cost: Option<Fixed>,
        val_msrp: Option<Fixed>,
        props: RustPhysicalProperties,
        regen_a: Fixed,
        regen_b: Fixed,
        fc_peak_eff_override: Option<Fixed>,
        mc_peak_eff_override: Option<Fixed>,
    ) -> (veh: RustVehicle)
        ensures
            veh@ == Vehicle::assembled(
                scenario_name@,
                selection,
                veh_year,
                veh_pt_type@,
                drag_coef,
                frontal_area_m2,
                glider_kg,
                veh_cg_m,
                drive_axle_weight_frac,
                wheel_base_m,
                cargo_kg,
                veh_override_kg,
                comp_mass_multiplier,
                fs_max_kw,
                fs_secs_to_peak_pwr,
                fs_kwh,
                fs_kwh_per_kg,
                fc_max_kw,
                fc_pwr_out_perc@,
                fc_eff_map@,
                fc_eff_type@,
                fc_sec_to_peak_pwr,
                fc_base_kg,
                fc_kw_per_kg,
                min_fc_time_on,
                idle_fc_kw,
                mc_max_kw,
                mc_pwr_out_perc@,
                match mc_eff_map {
                    Some(map) => Some(map@),
                    None => None,
                },
                mc_sec_to_peak_pwr,
                mc_pe_kg_per_kw,
                mc_pe_base_kg,
                ess_max_kw,
                ess_max_kwh,
                ess_kg_per_kwh,
                ess_base_kg,
                ess_round_trip_eff,
                ess_life_coef_a,
                ess_life_coef_b,
                min_soc,
                max_soc,
                ess_dischg_to_fc_max_eff_perc,
                ess_chg_to_fc_max_eff_perc,
                wheel_inertia_kg_m2,
                num_wheels,
                wheel_rr_coef,
                wheel_radius_m,
                wheel_coef_of_fric,
                max_accel_buffer_mph,
                max_accel_buffer_perc_of_useable_soc,
                perc_high_acc_buf,
                mph_fc_on,
                kw_demand_fc_on,
                max_regen,
                stop_start,
                force_aux_on_fc,
                alt_eff,
                chg_eff,
                aux_kw,
                trans_kg,
                trans_eff,
                ess_to_fuel_ok_error,
                val_udds_mpgge,
                val_hwy_mpgge,
                val_comb_mpgge,
                val_udds_kwh_per_mile,
                val_hwy_kwh_per_mile,
                val_comb_kwh_per_mile,
                val_cd_range_mi,
                val_const65_mph_kwh_per_mile,
                val_const60_mph_kwh_per_mile,
                val_const55_mph_kwh_per_mile,
                val_const45_mph_kwh_per_mile,
                val_unadj_udds_kwh_per_mile,
                val_unadj_hwy_kwh_per_mile,
                val0_to60_mph,
                val_ess_life_miles,
                val_range_miles,
                val_veh_base_cost,
                val_msrp,
                props,
                regen_a,
                regen_b,
                fc_peak_eff_override,
                mc_peak_eff_override,
            ),
    {
        let veh_override_kg = match veh_override_kg {
            Some(kg) => kg,
            None => Fixed::zero(),
        };
        let mc_eff_map = match mc_eff_map {
            Some(map) => map,
            None => zeros(11),
        };
        RustVehicle {
            props,
            scenario_name,
            selection,
            veh_year,
            veh_pt_type,
            drag_coef,
            frontal_area_m2,
            glider_kg,
            veh_cg_m,
            drive_axle_weight_frac,
            wheel_base_m,
            cargo_kg,
            veh_override_kg,
            comp_mass_multiplier,
            fs_max_kw,
            fs_secs_to_peak_pwr,
            fs_kwh,
            fs_kwh_per_kg,
            fc_max_kw,
            fc_pwr_out_perc: Curve::new(fc_pwr_out_perc),
            fc_eff_map: Curve::new(fc_eff_map),
            fc_eff_type,
            fc_sec_to_peak_pwr,
            fc_base_kg,
            fc_kw_per_kg,
            min_fc_time_on,
            idle_fc_kw,
            mc_max_kw,
            mc_pwr_out_perc: Curve::new(mc_pwr_out_perc),
            mc_eff_map: Curve::new(mc_eff_map),
            mc_sec_to_peak_pwr,
            mc_pe_kg_per_kw,
            mc_pe_base_kg,
            ess_max_kw,
            ess_max_kwh,
            ess_kg_per_kwh,
            ess_base_kg,
            ess_round_trip_eff,
            ess_life_coef_a,
            ess_life_coef_b,
            min_soc,
            max_soc,
            ess_dischg_to_fc_max_eff_perc,
            ess_chg_to_fc_max_eff_perc,
            wheel_inertia_kg_m2,
            num_wheels,
            wheel_rr_coef,
            wheel_radius_m,
            wheel_coef_of_fric,
            max_accel_buffer_mph,
            max_accel_buffer_perc_of_useable_soc,
            perc_high_acc_buf,
            mph_fc_on,
            kw_demand_fc_on,
            max_regen,
            stop_start,
            force_aux_on_fc,
            alt_eff,
            chg_eff,
            aux_kw,
            trans_kg,
            trans_eff,
            ess_to_fuel_ok_error,
            small_motor_power_kw: Fixed::from_raw(7_500_000_000),
            large_motor_power_kw: Fixed::from_raw(75_000_000_000),
            fc_perc_out_array: fc_perc_out_array(),
            regen_a,
            regen_b,
            charging_on: false,
            no_elec_sys: false,
            no_elec_aux: false,
            max_roadway_chg_kw: Curve::new(zeros(6)),
            input_kw_out_array: Curve::new(zeros(1)),
            fc_kw_out_array: zeros(0),
            fc_eff_array: zeros(0),
            modern_max: Fixed::from_raw(MODERN_MAX_RAW),
            mc_eff_array: Curve::new(zeros(1)),
            mc_kw_in_array: zeros(0),
            mc_kw_out_array: zeros(0),
            mc_max_elec_in_kw: Fixed::zero(),
            mc_full_eff_array: zeros(0),
            veh_kg: Fixed::zero(),
            max_trac_mps2: Fixed::zero(),
            ess_mass_kg: Fixed::zero(),
            mc_mass_kg: Fixed::zero(),
            fc_mass_kg: Fixed::zero(),
            fs_mass_kg: Fixed::zero(),
            mc_perc_out_array: mc_perc_out_array(),
            val_udds_mpgge,
            val_hwy_mpgge,
            val_comb_mpgge,
            val_udds_kwh_per_mile,
            val_hwy_kwh_per_mile,
            val_comb_kwh_per_mile,
            val_cd_range_mi,
            val_const65_mph_kwh_per_mile,
            val_const60_mph_kwh_per_mile,
            val_const55_mph_kwh_per_mile,
            val_const45_mph_kwh_per_mile,
            val_unadj_udds_kwh_per_mile,
            val_unadj_hwy_kwh_per_mile,
            val0_to60_mph,
            val_ess_life_miles,
            val_range_miles,
            val_veh_base_cost,
            val_msrp,
            fc_peak_eff_override,
            mc_peak_eff_override,
            orphaned: false,
        }
    }

    /// Makes the vehicle with the given parameters and sets all that follows
    /// from them.
    ///
    /// Fails where the vehicle does not pass a check.
    pub fn new(
        scenario_name: String,
        selection: u32,
        veh_year: u32,
        veh_pt_type: String,
        drag_coef: Fixed,
        frontal_area_m2: Fixed,
        glider_kg: Fixed,
        veh_cg_m: Fixed,
        drive_axle_weight_frac: Fixed,
        wheel_base_m: Fixed,
        cargo_kg: Fixed,
        veh_override_kg: Option<Fixed>,
        comp_mass_multiplier: Fixed,
        fs_max_kw: Fixed,
        fs_secs_to_peak_pwr: Fixed,
        fs_kwh: Fixed,
        fs_kwh_per_kg: Fixed,
        fc_max_kw: Fixed,
        fc_pwr_out_perc: Vec<Fixed>,
        fc_eff_map: Vec<Fixed>,
        fc_eff_type: String,
        fc_sec_to_peak_pwr: Fixed,
        fc_base_kg: Fixed,
        fc_kw_per_kg: Fixed,
        min_fc_time_on: Fixed,
        idle_fc_kw: Fixed,
        mc_max_kw: Fixed,
        mc_pwr_out_perc: Vec<Fixed>,
        mc_eff_map: Option<Vec<Fixed>>,
        mc_sec_to_peak_pwr: Fixed,
        mc_pe_kg_per_kw: Fixed,
        mc_pe_base_kg: Fixed,
        ess_max_kw: Fixed,
        ess_max_kwh: Fixed,
        ess_kg_per_kwh: Fixed,
        ess_base_kg: Fixed,
        ess_round_trip_eff: Fixed,
        ess_life_coef_a: Fixed,
        ess_life_coef_b: Fixed,
        min_soc: Fixed,
        max_soc: Fixed,
        ess_dischg_to_fc_max_eff_perc: Fixed,
        ess_chg_to_fc_max_eff_perc: Fixed,
        wheel_inertia_kg_m2: Fixed,
        num_wheels: Fixed,
        wheel_rr_coef: Fixed,
        wheel_radius_m: Fixed,
        wheel_coef_of_fric: Fixed,
        max_accel_buffer_mph: Fixed,
        max_accel_buffer_perc_of_useable_soc: Fixed,
        perc_high_acc_buf: Fixed,
        mph_fc_on: Fixed,
        kw_demand_fc_on: Fixed,
        max_regen: Fixed,
        stop_start: bool,
        force_aux_on_fc: bool,
        alt_eff: Fixed,
        chg_eff: Fixed,
        aux_kw: Fixed,
        trans_kg: Fixed,
        trans_eff: Fixed,
        ess_to_fuel_ok_error: Fixed,
        val_udds_mpgge: Option<Fixed>,
        val_hwy_mpgge: Option<Fixed>,
        val_comb_mpgge: Option<Fixed>,
        val_udds_kwh_per_mile: Option<Fixed>,
        val_hwy_kwh_per_mile: Option<Fixed>,
        val_comb_kwh_per_mile: Option<Fixed>,
        val_cd_range_mi: Option<Fixed>,
        val_const65_mph_kwh_per_mile: Option<Fixed>,
        val_const60_mph_kwh_per_mile: Option<Fixed>,
        val_const55_mph_kwh_per_mile: Option<Fixed>,
        val_const45_mph_kwh_per_mile: Option<Fixed>,
        val_unadj_udds_kwh_per_mile: Option<Fixed>,
        val_unadj_hwy_kwh_per_mile: Option<Fixed>,
        val0_to60_mph: Option<Fixed>,
        val_ess_life_miles: Option<Fixed>,
        val_range_miles: Option<Fixed>,
        val_veh_base_cost: Option<Fixed>,
        val_msrp: Option<Fixed>,
        props: RustPhysicalProperties,
        regen_a: Fixed,
        regen_b: Fixed,
        fc_peak_eff_override: Option<Fixed>,
        mc_peak_eff_override: Option<Fixed>,
    ) -> (r: Result<RustVehicle, IntegrityViolation>)
        ensures
            r matches Ok(veh) ==> Vehicle::assembled(
                scenario_name@,
                selection,
                veh_year,
                veh_pt_type@,
                drag_coef,
                frontal_area_m2,
                glider_kg,
                veh_cg_m,
                drive_axle_weight_frac,
                wheel_base_m,
                cargo_kg,
                veh_override_kg,
                comp_mass_multiplier,
                fs_max_kw,
                fs_secs_to_peak_pwr,
                fs_kwh,
                fs_kwh_per_kg,
                fc_max_kw,
                fc_pwr_out_perc@,
                fc_eff_map@,
                fc_eff_type@,
                fc_sec_to_peak_pwr,
                fc_base_kg,
                fc_kw_per_kg,
                min_fc_time_on,
                idle_fc_kw,
                mc_max_kw,
                mc_pwr_out_perc@,
                match mc_eff_map {
                    Some(map) => Some(map@),
                    None => None,
                },
                mc_sec_to_peak_pwr,
                mc_pe_kg_per_kw,
                mc_pe_base_kg,
                ess_max_kw,
                ess_max_kwh,
                ess_kg_per_kwh,
                ess_base_kg,
                ess_round_trip_eff,
                ess_life_coef_a,
                ess_life_coef_b,
                min_soc,
                max_soc,
                ess_dischg_to_fc_max_eff_perc,
                ess_chg_to_fc_max_eff_perc,
                wheel_inertia_kg_m2,
                num_wheels,
                wheel_rr_coef,
                wheel_radius_m,
                wheel_coef_of_fric,
                max_accel_buffer_mph,
                max_accel_buffer_perc_of_useable_soc,
                perc_high_acc_buf,
                mph_fc_on,
                kw_demand_fc_on,
                max_regen,
                stop_start,
                force_aux_on_fc,
                alt_eff,
                chg_eff,
                aux_kw,
                trans_kg,
                trans_eff,
                ess_to_fuel_ok_error,
                val_udds_mpgge,
                val_hwy_mpgge,
                val_comb_mpgge,
                val_udds_kwh_per_mile,
                val_hwy_kwh_per_mile,
                val_comb_kwh_per_mile,
                val_cd_range_mi,
                val_const65_mph_kwh_per_mile,
                val_const60_mph_kwh_per_mile,
                val_const55_mph_kwh_per_mile,
                val_const45_mph_kwh_per_mile,
                val_unadj_udds_kwh_per_mile,
                val_unadj_hwy_kwh_per_mile,
                val0_to60_mph,
                val_ess_life_miles,
                val_range_miles,
                val_veh_base_cost,
                val_msrp,
                props,
                regen_a,
                regen_b,
                fc_peak_eff_override,
                mc_peak_eff_override,
            ).derived() == Ok::<Vehicle, IntegrityViolation>(veh@),
            r matches Err(e) ==> Vehicle::assembled(
                scenario_name@,
                selection,
                veh_year,
                veh_pt_type@,
                drag_coef,
                frontal_area_m2,
                glider_kg,
                veh_cg_m,
                drive_axle_weight_frac,
                wheel_base_m,
                cargo_kg,
                veh_override_kg,
                comp_mass_multiplier,
                fs_max_kw,
                fs_secs_to_peak_pwr,
                fs_kwh,
                fs_kwh_per_kg,
                fc_max_kw,
                fc_pwr_out_perc@,
                fc_eff_map@,
                fc_eff_type@,
                fc_sec_to_peak_pwr,
                fc_base_kg,
                fc_kw_per_kg,
                min_fc_time_on,
                idle_fc_kw,
                mc_max_kw,
                mc_pwr_out_perc@,
                match mc_eff_map {
                    Some(map) => Some(map@),
                    None => None,
                },
                mc_sec_to_peak_pwr,
                mc_pe_kg_per_kw,
                mc_pe_base_kg,
                ess_max_kw,
                ess_max_kwh,
                ess_kg_per_kwh,
                ess_base_kg,
                ess_round_trip_eff,
                ess_life_coef_a,
                ess_life_coef_b,
                min_soc,
                max_soc,
                ess_dischg_to_fc_max_eff_perc,
                ess_chg_to_fc_max_eff_perc,
                wheel_inertia_kg_m2,
                num_wheels,
                wheel_rr_coef,
                wheel_radius_m,
                wheel_coef_of_fric,
                max_accel_buffer_mph,
                max_accel_buffer_perc_of_useable_soc,
                perc_high_acc_buf,
                mph_fc_on,
                kw_demand_fc_on,
                max_regen,
                stop_start,
                force_aux_on_fc,
                alt_eff,
                chg_eff,
                aux_kw,
                trans_kg,
                trans_eff,
                ess_to_fuel_ok_error,
                val_udds_mpgge,
                val_hwy_mpgge,
                val_comb_mpgge,
                val_udds_kwh_per_mile,
                val_hwy_kwh_per_mile,
                val_comb_kwh_per_mile,
                val_cd_range_mi,
                val_const65_mph_kwh_per_mile,
                val_const60_mph_kwh_per_mile,
                val_const55_mph_kwh_per_mile,
                val_const45_mph_kwh_per_mile,
                val_unadj_udds_kwh_per_mile,
                val_unadj_hwy_kwh_per_mile,
                val0_to60_mph,
                val_ess_life_miles,
                val_range_miles,
                val_veh_base_cost,
                val_msrp,
                props,
                regen_a,
                regen_b,
                fc_peak_eff_override,
                mc_peak_eff_override,
            ).derived() == Err::<Vehicle, IntegrityViolation>(e),
    {
        let mut veh = RustVehicle::assemble(
            scenario_name,
            selection,
            veh_year,
            veh_pt_type,
            drag_coef,
            frontal_area_m2,
            glider_kg,
            veh_cg_m,
            drive_axle_weight_frac,
            wheel_base_m,
            cargo_kg,
            veh_override_kg,
            comp_mass_multiplier,
            fs_max_kw,
            fs_secs_to_peak_pwr,
            fs_kwh,
            fs_kwh_per_kg,
            fc_max_kw,
            fc_pwr_out_perc,
            fc_eff_map,
            fc_eff_type,
            fc_sec_to_peak_pwr,
            fc_base_kg,
            fc_kw_per_kg,
            min_fc_time_on,
            idle_fc_kw,
            mc_max_kw,
            mc_pwr_out_perc,
            mc_eff_map,
            mc_sec_to_peak_pwr,
            mc_pe_kg_per_kw,
            mc_pe_base_kg,
            ess_max_kw,
            ess_max_kwh,
            ess_kg_per_kwh,
            ess_base_kg,
            ess_round_trip_eff,
            ess_life_coef_a,
            ess_life_coef_b,
            min_soc,
            max_soc,
            ess_dischg_to_fc_max_eff_perc,
            ess_chg_to_fc_max_eff_perc,
            wheel_inertia_kg_m2,
            num_wheels,
            wheel_rr_coef,
            wheel_radius_m,
            wheel_coef_of_fric,
            max_accel_buffer_mph,
            max_accel_buffer_perc_of_useable_soc,
            perc_high_acc_buf,
            mph_fc_on,
            kw_demand_fc_on,
            max_regen,
            stop_start,
            force_aux_on_fc,
            alt_eff,
            chg_eff,
            aux_kw,
            trans_kg,
            trans_eff,
            ess_to_fuel_ok_error,
            val_udds_mpgge,
            val_hwy_mpgge,
            val_comb_mpgge,
            val_udds_kwh_per_mile,
            val_hwy_kwh_per_mile,
            val_comb_kwh_per_mile,
            val_cd_range_mi,
            val_const65_mph_kwh_per_mile,
            val_const60_mph_kwh_per_mile,
            val_const55_mph_kwh_per_mile,
            val_const45_mph_kwh_per_mile,
            val_unadj_udds_kwh_per_mile,
            val_unadj_hwy_kwh_per_mile,
            val0_to60_mph,
            val_ess_life_miles,
            val_range_miles,
            val_veh_base_cost,
            val_msrp,
            props,
            regen_a,
            regen_b,
            fc_peak_eff_override,
            mc_peak_eff_override,
        );
        match veh.set_derived() {
            Ok(()) => Ok(veh),
            Err(e) => Err(e),
        }
    }
}


impl Vehicle {
    /// The vehicle that others start from: a conventional vehicle without
    /// fuel converter, fuel or glider, with the usual chassis, component
    /// masses and controls, and nothing derived yet.
    pub open spec fn reference() -> Vehicle {
        Vehicle {
            props: RustPhysicalProperties::standard(),
            scenario_name: Seq::empty(),
            selection: 0,
            veh_year: 0,
            veh_pt_type: "Conv"@,
            drag_coef: Fixed { raw: 0 },
            frontal_area_m2: Fixed { raw: 0 },
            glider_kg: Fixed { raw: 0 },
            veh_cg_m: Fixed { raw: 0 },
            drive_axle_weight_frac: Fixed { raw: 590_000_000 },
            wheel_base_m: Fixed { raw: 2_600_000_000 },
            cargo_kg: Fixed { raw: 136_000_000_000 },
            veh_override_kg: Fixed { raw: 0 },
            comp_mass_multiplier: Fixed { raw: 1_400_000_000 },
            fs_max_kw: Fixed { raw: 0 },
            fs_secs_to_peak_pwr: Fixed { raw: 1_000_000_000 },
            fs_kwh: Fixed { raw: 0 },
            fs_kwh_per_kg: Fixed { raw: 9_890_000_000 },
            fc_max_kw: Fixed { raw: 0 },
            fc_pwr_out_perc: fc_power_map(),
            fc_eff_map: spark_ignition_map(),
            fc_eff_type: "SI"@,
            fc_sec_to_peak_pwr: Fixed { raw: 6_000_000_000 },
            fc_base_kg: Fixed { raw: 61_000_000_000 },
            fc_kw_per_kg: Fixed { raw: 2_130_000_000 },
            min_fc_time_on: Fixed { raw: 30_000_000_000 },
            idle_fc_kw: Fixed { raw: 0 },
            mc_max_kw: Fixed { raw: 0 },
            mc_pwr_out_perc: mc_power_map(),
            mc_eff_map: Seq::new(11, |i: int| Fixed { raw: 0 }),
            mc_sec_to_peak_pwr: Fixed { raw: 4_000_000_000 },
            mc_pe_kg_per_kw: Fixed { raw: 833_000_000 },
            mc_pe_base_kg: Fixed { raw: 21_600_000_000 },
            ess_max_kw: Fixed { raw: 0 },
            ess_max_kwh: Fixed { raw: 0 },
            ess_kg_per_kwh: Fixed { raw: 8_000_000_000 },
            ess_base_kg: Fixed { raw: 75_000_000_000 },
            ess_round_trip_eff: Fixed { raw: 970_000_000 },
            ess_life_coef_a: Fixed { raw: 110_000_000_000 },
            ess_life_coef_b: Fixed { raw: -681_100_000i64 },
            min_soc: Fixed { raw: 100_000_000 },
            max_soc: Fixed { raw: 950_000_000 },
            ess_dischg_to_fc_max_eff_perc: Fixed { raw: 0 },
            ess_chg_to_fc_max_eff_perc: Fixed { raw: 0 },
            wheel_inertia_kg_m2: Fixed { raw: 815_000_000 },
            num_wheels: Fixed { raw: 4_000_000_000 },
            wheel_rr_coef: Fixed { raw: 0 },
            wheel_radius_m: Fixed { raw: 336_000_000 },
            wheel_coef_of_fric: Fixed { raw: 700_000_000 },
            max_accel_buffer_mph: Fixed { raw: 60_000_000_000 },
            max_accel_buffer_perc_of_useable_soc: Fixed { raw: 200_000_000 },
            perc_high_acc_buf: Fixed { raw: 0 },
            mph_fc_on: Fixed { raw: 55_000_000_000 },
            kw_demand_fc_on: Fixed { raw: 100_000_000_000 },
            max_regen: Fixed { raw: 980_000_000 },
            stop_start: false,
            force_aux_on_fc: false,
            alt_eff: Fixed { raw: 1_000_000_000 },
            chg_eff: Fixed { raw: 860_000_000 },
            aux_kw: Fixed { raw: 700_000_000 },
            trans_kg: Fixed { raw: 114_000_000_000 },
            trans_eff: Fixed { raw: 920_000_000 },
            ess_to_fuel_ok_error: Fixed { raw: 5_000_000 },
            small_motor_power_kw: Fixed { raw: 7_500_000_000 },
            large_motor_power_kw: Fixed { raw: 75_000_000_000 },
            fc_perc_out_array: fc_grid(),
            regen_a: Fixed { raw: 500_000_000_000 },
            regen_b: Fixed { raw: 990_000_000 },
            charging_on: false,
            no_elec_sys: false,
            no_elec_aux: false,
            max_roadway_chg_kw: Seq::new(6, |i: int| Fixed { raw: 0 }),
            input_kw_out_array: Seq::new(1, |i: int| Fixed { raw: 0 }),
            fc_kw_out_array: Seq::new(0, |i: int| Fixed { raw: 0 }),
            fc_eff_array: Seq::new(0, |i: int| Fixed { raw: 0 }),
            modern_max: Fixed { raw: 950_000_000 },
            mc_eff_array: Seq::new(1, |i: int| Fixed { raw: 0 }),
            mc_kw_in_array: Seq::new(0, |i: int| Fixed { raw: 0 }),
            mc_kw_out_array: Seq::new(0, |i: int| Fixed { raw: 0 }),
            mc_max_elec_in_kw: Fixed { raw: 0 },
            mc_full_eff_array: Seq::new(0, |i: int| Fixed { raw: 0 }),
            veh_kg: Fixed { raw: 0 },
            max_trac_mps2: Fixed { raw: 0 },
            ess_mass_kg: Fixed { raw: 0 },
            mc_mass_kg: Fixed { raw: 0 },
            fc_mass_kg: Fixed { raw: 0 },
            fs_mass_kg: Fixed { raw: 0 },
            mc_perc_out_array: mc_grid(),
            val_udds_mpgge: None,
            val_hwy_mpgge: None,
            val_comb_mpgge: None,
            val_udds_kwh_per_mile: None,
            val_hwy_kwh_per_mile: None,
            val_comb_kwh_per_mile: None,
            val_cd_range_mi: None,
            val_const65_mph_kwh_per_mile: None,
            val_const60_mph_kwh_per_mile: None,
            val_const55_mph_kwh_per_mile: None,
            val_const45_mph_kwh_per_mile: None,
            val_unadj_udds_kwh_per_mile: None,
            val_unadj_hwy_kwh_per_mile: None,
            val0_to60_mph: None,
            val_ess_life_miles: None,
            val_range_miles: None,
            val_veh_base_cost: None,
            val_msrp: None,
            fc_peak_eff_override: None,
            mc_peak_eff_override: None,
            orphaned: false,
        }
    }
}

impl Default for RustVehicle {
    fn default() -> (r: RustVehicle)
        ensures
            r@ == Vehicle::reference(),
    {
        RustVehicle {
            props: RustPhysicalProperties::default(),
            scenario_name: String::new(),
            selection: 0,
            veh_year: 0,
            veh_pt_type: "Conv".to_owned(),
            drag_coef: Fixed::from_raw(0),
            frontal_area_m2: Fixed::from_raw(0),
            glider_kg: Fixed::from_raw(0),
            veh_cg_m: Fixed::from_raw(0),
            drive_axle_weight_frac: Fixed::from_raw(590_000_000),
            wheel_base_m: Fixed::from_raw(2_600_000_000),
            cargo_kg: Fixed::from_raw(136_000_000_000),
            veh_override_kg: Fixed::from_raw(0),
            comp_mass_multiplier: Fixed::from_raw(1_400_000_000),
            fs_max_kw: Fixed::from_raw(0),
            fs_secs_to_peak_pwr: Fixed::from_raw(1_000_000_000),
            fs_kwh: Fixed::from_raw(0),
            fs_kwh_per_kg: Fixed::from_raw(9_890_000_000),
            fc_max_kw: Fixed::from_raw(0),
            fc_pwr_out_perc: Curve::new(fc_power_points()),
            fc_eff_map: Curve::new(spark_ignition_eff()),
            fc_eff_type: "SI".to_owned(),
            fc_sec_to_peak_pwr: Fixed::from_raw(6_000_000_000),
            fc_base_kg: Fixed::from_raw(61_000_000_000),
            fc_kw_per_kg: Fixed::from_raw(2_130_000_000),
            min_fc_time_on: Fixed::from_raw(30_000_000_000),
            idle_fc_kw: Fixed::from_raw(0),
            mc_max_kw: Fixed::from_raw(0),
            mc_pwr_out_perc: Curve::new(mc_power_points()),
            mc_eff_map: Curve::new(zeros(11)),
            mc_sec_to_peak_pwr: Fixed::from_raw(4_000_000_000),
            mc_pe_kg_per_kw: Fixed::from_raw(833_000_000),
            mc_pe_base_kg: Fixed::from_raw(21_600_000_000),
            ess_max_kw: Fixed::from_raw(0),
            ess_max_kwh: Fixed::from_raw(0),
            ess_kg_per_kwh: Fixed::from_raw(8_000_000_000),
            ess_base_kg: Fixed::from_raw(75_000_000_000),
            ess_round_trip_eff: Fixed::from_raw(970_000_000),
            ess_life_coef_a: Fixed::from_raw(110_000_000_000),
            ess_life_coef_b: Fixed::from_raw(-681_100_000),
            min_soc: Fixed::from_raw(100_000_000),
            max_soc: Fixed::from_raw(950_000_000),
            ess_dischg_to_fc_max_eff_perc: Fixed::from_raw(0),
            ess_chg_to_fc_max_eff_perc: Fixed::from_raw(0),
            wheel_inertia_kg_m2: Fixed::from_raw(815_000_000),
            num_wheels: Fixed::from_raw(4_000_000_000),
            wheel_rr_coef: Fixed::from_raw(0),
            wheel_radius_m: Fixed::from_raw(336_000_000),
            wheel_coef_of_fric: Fixed::from_raw(700_000_000),
            max_accel_buffer_mph: Fixed::from_raw(60_000_000_000),
            max_accel_buffer_perc_of_useable_soc: Fixed::from_raw(200_000_000),
            perc_high_acc_buf: Fixed::from_raw(0),
            mph_fc_on: Fixed::from_raw(55_000_000_000),
            kw_demand_fc_on: Fixed::from_raw(100_000_000_000),
            max_regen: Fixed::from_raw(980_000_000),
            stop_start: false,
            force_aux_on_fc: false,
            alt_eff: Fixed::from_raw(1_000_000_000),
            chg_eff: Fixed::from_raw(860_000_000),
            aux_kw: Fixed::from_raw(700_000_000),
            trans_kg: Fixed::from_raw(114_000_000_000),
            trans_eff: Fixed::from_raw(920_000_000),
            ess_to_fuel_ok_error: Fixed::from_raw(5_000_000),
            small_motor_power_kw: Fixed::from_raw(7_500_000_000),
            large_motor_power_kw: Fixed::from_raw(75_000_000_000),
            fc_perc_out_array: fc_perc_out_array(),
            regen_a: Fixed::from_raw(500_000_000_000),
            regen_b: Fixed::from_raw(990_000_000),
            charging_on: false,
            no_elec_sys: false,
            no_elec_aux: false,
            max_roadway_chg_kw: Curve::new(zeros(6)),
            input_kw_out_array: Curve::new(zeros(1)),
            fc_kw_out_array: zeros(0),
            fc_eff_array: zeros(0),
            modern_max: Fixed::from_raw(950_000_000),
            mc_eff_array: Curve::new(zeros(1)),
            mc_kw_in_array: zeros(0),
            mc_kw_out_array: zeros(0),
            mc_max_elec_in_kw: Fixed::from_raw(0),
            mc_full_eff_array: zeros(0),
            veh_kg: Fixed::from_raw(0),
            max_trac_mps2: Fixed::from_raw(0),
            ess_mass_kg: Fixed::from_raw(0),
            mc_mass_kg: Fixed::from_raw(0),
            fc_mass_kg: Fixed::from_raw(0),
            fs_mass_kg: Fixed::from_raw(0),
            mc_perc_out_array: mc_perc_out_array(),
            val_udds_mpgge: None,
            val_hwy_mpgge: None,
            val_comb_mpgge: None,
            val_udds_kwh_per_mile: None,
            val_hwy_kwh_per_mile: None,
            val_comb_kwh_per_mile: None,
            val_cd_range_mi: None,
            val_const65_mph_kwh_per_mile: None,
            val_const60_mph_kwh_per_mile: None,
            val_const55_mph_kwh_per_mile: None,
            val_const45_mph_kwh_per_mile: None,
            val_unadj_udds_kwh_per_mile: None,
            val_unadj_hwy_kwh_per_mile: None,
            val0_to60_mph: None,
            val_ess_life_miles: None,
            val_range_miles: None,
            val_veh_base_cost: None,
            val_msrp: None,
            fc_peak_eff_override: None,
            mc_peak_eff_override: None,
            orphaned: false,
        }
    }
}

/// The parameters of a compact sport utility vehicle of 2016 with a
/// four-cylinder engine and front-wheel drive, nothing derived yet.
pub open spec fn escape_2016() -> Vehicle {
    Vehicle::assembled(
        "2016 FORD Escape 4cyl 2WD"@,
        5,
        2016,
        "Conv"@,
        Fixed { raw: 355_000_000 },
        Fixed { raw: 3_066_000_000 },
        Fixed { raw: 1_359_166_000_000 },
        Fixed { raw: 530_000_000 },
        Fixed { raw: 590_000_000 },
        Fixed { raw: 2_600_000_000 },
        Fixed { raw: 136_000_000_000 },
        None,
        Fixed { raw: 1_400_000_000 },
        Fixed { raw: 2_000_000_000_000 },
        Fixed { raw: 1_000_000_000 },
        Fixed { raw: 504_000_000_000 },
        Fixed { raw: 9_890_000_000 },
        Fixed { raw: 125_000_000_000 },
        fc_power_map(),
        spark_ignition_map(),
        "SI"@,
        Fixed { raw: 6_000_000_000 },
        Fixed { raw: 61_000_000_000 },
        Fixed { raw: 2_130_000_000 },
        Fixed { raw: 30_000_000_000 },
        Fixed { raw: 2_500_000_000 },
        Fixed { raw: 0 },
        mc_power_map(),
        Some(small_baseline()),
        Fixed { raw: 4_000_000_000 },
        Fixed { raw: 833_000_000 },
        Fixed { raw: 21_600_000_000 },
        Fixed { raw: 0 },
        Fixed { raw: 0 },
        Fixed { raw: 8_000_000_000 },
        Fixed { raw: 75_000_000_000 },
        Fixed { raw: 970_000_000 },
        Fixed { raw: 110_000_000_000 },
        Fixed { raw: -681_100_000i64 },
        Fixed { raw: 400_000_000 },
        Fixed { raw: 800_000_000 },
        Fixed { raw: 0 },
        Fixed { raw: 0 },
        Fixed { raw: 815_000_000 },
        Fixed { raw: 4_000_000_000 },
        Fixed { raw: 6_000_000 },
        Fixed { raw: 336_000_000 },
        Fixed { raw: 700_000_000 },
        Fixed { raw: 60_000_000_000 },
        Fixed { raw: 200_000_000 },
        Fixed { raw: 0 },
        Fixed { raw: 30_000_000_000 },
        Fixed { raw: 100_000_000_000 },
        Fixed { raw: 980_000_000 },
        false,
        true,
        Fixed { raw: 1_000_000_000 },
        Fixed { raw: 860_000_000 },
        Fixed { raw: 700_000_000 },
        Fixed { raw: 114_000_000_000 },
        Fixed { raw: 920_000_000 },
        Fixed { raw: 5_000_000 },
        Some(Fixed { raw: 23_000_000_000 }),
        Some(Fixed { raw: 32_000_000_000 }),
        Some(Fixed { raw: 26_000_000_000 }),
        None,
        None,
        None,
        None,
        None,
        None,
        None,
        None,
        None,
        None,
        Some(Fixed { raw: 9_900_000_000 }),
        None,
        None,
        None,
        None,
        RustPhysicalProperties::standard(),
        Fixed { raw: 500_000_000_000 },
        Fixed { raw: 990_000_000 },
        None,
        None,
    )
}

/// Makes a compact sport utility vehicle of 2016 with a four-cylinder engine
/// and front-wheel drive.
pub fn load_vehicle() -> (r: Result<RustVehicle, IntegrityViolation>)
    ensures
        r matches Ok(veh) ==> escape_2016().derived() == Ok::<Vehicle, IntegrityViolation>(veh@),
        r matches Err(e) ==> escape_2016().derived() == Err::<Vehicle, IntegrityViolation>(e),
{
    RustVehicle::new(
        "2016 FORD Escape 4cyl 2WD".to_owned(),
        5,
        2016,
        CONV.to_owned(),
        Fixed::from_raw(355_000_000),
        Fixed::from_raw(3_066_000_000),
        Fixed::from_raw(1_359_166_000_000),
        Fixed::from_raw(530_000_000),
        Fixed::from_raw(590_000_000),
        Fixed::from_raw(2_600_000_000),
        Fixed::from_raw(136_000_000_000),
        None,
        Fixed::from_raw(1_400_000_000),
        Fixed::from_raw(2_000_000_000_000),
        Fixed::from_raw(1_000_000_000),
        Fixed::from_raw(504_000_000_000),
        Fixed::from_raw(9_890_000_000),
        Fixed::from_raw(125_000_000_000),
        fc_power_points(),
        spark_ignition_eff(),
        SI.to_owned(),
        Fixed::from_raw(6_000_000_000),
        Fixed::from_raw(61_000_000_000),
        Fixed::from_raw(2_130_000_000),
        Fixed::from_raw(30_000_000_000),
        Fixed::from_raw(2_500_000_000),
        Fixed::from_raw(0),
        mc_power_points(),
        Some(small_baseline_eff()),
        Fixed::from_raw(4_000_000_000),
        Fixed::from_raw(833_000_000),
        Fixed::from_raw(21_600_000_000),
        Fixed::from_raw(0),
        Fixed::from_raw(0),
        Fixed::from_raw(8_000_000_000),
        Fixed::from_raw(75_000_000_000),
        Fixed::from_raw(970_000_000),
        Fixed::from_raw(110_000_000_000),
        Fixed::from_raw(-681_100_000),
        Fixed::from_raw(400_000_000),
        Fixed::from_raw(800_000_000),
        Fixed::from_raw(0),
        Fixed::from_raw(0),
        Fixed::from_raw(815_000_000),
        Fixed::from_raw(4_000_000_000),
        Fixed::from_raw(6_000_000),
        Fixed::from_raw(336_000_000),
        Fixed::from_raw(700_000_000),
        Fixed::from_raw(60_000_000_000),
        Fixed::from_raw(200_000_000),
        Fixed::from_raw(0),
        Fixed::from_raw(30_000_000_000),
        Fixed::from_raw(100_000_000_000),
        Fixed::from_raw(980_000_000),
        false,
        true,
        Fixed::from_raw(1_000_000_000),
        Fixed::from_raw(860_000_000),
        Fixed::from_raw(700_000_000),
        Fixed::from_raw(114_000_000_000),
        Fixed::from_raw(920_000_000),
        Fixed::from_raw(5_000_000),
        Some(Fixed::from_raw(23_000_000_000)),
        Some(Fixed::from_raw(32_000_000_000)),
        Some(Fixed::from_raw(26_000_000_000)),
        None,
        None,
        None,
        None,
        None,
        None,
        None,
        None,
        None,
        None,
        Some(Fixed::from_raw(9_900_000_000)),
        None,
        None,
        None,
        None,
        RustPhysicalProperties::default(),
        Fixed::from_raw(500_000_000_000),
        Fixed::from_raw(990_000_000),
        None,
        None,
    )
}


/// A vehicle with a positive override has the override as its mass, whatever
/// its components are: two vehicles of one positive override have one mass.
pub proof fn lemma_override_is_the_mass(v: Vehicle, w: Vehicle)
    requires
        v.veh_override_kg.raw > 0,
        w.veh_override_kg == v.veh_override_kg,
    ensures
        v.with_mass().veh_kg == v.veh_override_kg,
        w.with_mass().veh_kg == v.with_mass().veh_kg,
        v.derived() matches Ok(d) ==> d.veh_kg == v.veh_override_kg,
{
}

/// A battery-electric vehicle with fuel storage power, fuel storage energy
/// or fuel converter power fails a check.
pub proof fn lemma_electric_has_no_fuel_system(v: Vehicle)
    requires
        v.veh_pt_type == "BEV"@,
        v.fs_max_kw.raw != 0 || v.fs_kwh.raw != 0 || v.fc_max_kw.raw != 0,
    ensures
        v.derived() is Err,
{
}

/// A conventional vehicle without stop-start that has motor power, battery
/// power or battery energy fails a check.
pub proof fn lemma_conventional_has_no_electric_drive(v: Vehicle)
    requires
        v.veh_pt_type == "Conv"@,
        !v.stop_start,
        v.mc_max_kw.raw != 0 || v.ess_max_kw.raw != 0 || v.ess_max_kwh.raw != 0,
    ensures
        v.derived() is Err,
{
    reveal_strlit("Conv");
    reveal_strlit("BEV");
    assert("Conv"@.len() != "BEV"@.len());
}

/// A derived vehicle has efficiencies that stay at or above zero and below
/// one at every point of the grids.
pub proof fn lemma_derived_efficiencies(v: Vehicle)
    requires
        v.derived() is Ok,
    ensures
        forall|i: int|
            0 <= i < v.derived()->Ok_0.fc_eff_array.len() ==> 0 <= (
            #[trigger] v.derived()->Ok_0.fc_eff_array[i]).raw < SCALE,
        forall|i: int|
            0 <= i < v.derived()->Ok_0.mc_full_eff_array.len() ==> 0 <= (
            #[trigger] v.derived()->Ok_0.mc_full_eff_array[i]).raw < SCALE,
{
    let c = v.with_curves();
    crate::curve::lemma_max_of(c.fc_eff_array);
    crate::curve::lemma_min_of(c.fc_eff_array);
    crate::curve::lemma_max_of(c.mc_full_eff_array);
    crate::curve::lemma_min_of(c.mc_full_eff_array);
}

/// Whether the efficiency maps of the vehicle are sound: grids and power
/// maps hold numbers far from the ends of the range, the fuel converter map
/// holds efficiencies from zero to below one, the motor map efficiencies
/// above zero and below one, the vehicle asks for no fuel converter peak,
/// and for a motor peak, if for any, from zero to below one.
pub open spec fn has_sound_maps(v: Vehicle) -> bool {
    &&& v.fc_perc_out_array.len() > 0
    &&& v.fc_pwr_out_perc.len() > 0
    &&& v.fc_eff_map.len() > 0
    &&& all_modest(v.fc_perc_out_array)
    &&& all_modest(v.fc_pwr_out_perc)
    &&& all_within(v.fc_eff_map, 0, SCALE - 1)
    &&& v.fc_peak_eff_override is None
    &&& v.mc_perc_out_array.len() >= 2
    &&& v.mc_pwr_out_perc.len() > 0
    &&& v.motor_map().len() > 0
    &&& all_modest(v.mc_perc_out_array)
    &&& all_modest(v.mc_pwr_out_perc)
    &&& all_within(v.motor_map(), 1, SCALE - 1)
    &&& (v.mc_peak_eff_override matches Some(peak) ==> 0 <= peak.raw < SCALE)
}

/// The efficiency of the motor over its grid lies from zero to below one,
/// and above zero at the second point.
proof fn lemma_motor_efficiency_within(v: Vehicle)
    requires
        v.mc_perc_out_array.len() >= 2,
        v.mc_pwr_out_perc.len() > 0,
        v.motor_map().len() > 0,
        all_modest(v.mc_perc_out_array),
        all_modest(v.mc_pwr_out_perc),
        all_within(v.motor_map(), 1, SCALE - 1),
    ensures
        v.motor_efficiency().len() == v.mc_perc_out_array.len(),
        all_within(v.motor_efficiency(), 0, SCALE - 1),
        v.motor_efficiency()[1].raw >= 1,
{
    let map = v.motor_map();
    crate::params::lemma_within_is_modest(map, 1, SCALE - 1);
    assert forall|i: int| 0 <= i < v.motor_efficiency().len() implies 0 <= (
    #[trigger] v.motor_efficiency()[i]).raw <= SCALE - 1 by {
        if i > 0 {
            assert(is_modest(v.mc_perc_out_array[i]));
            lemma_interpolated_within(
                v.mc_perc_out_array[i],
                v.mc_pwr_out_perc,
                map,
                1,
                SCALE - 1,
            );
        }
    }
    assert(is_modest(v.mc_perc_out_array[1]));
    lemma_interpolated_within(v.mc_perc_out_array[1], v.mc_pwr_out_perc, map, 1, SCALE - 1);
}

/// Efficiencies from zero to below one, scaled to a peak from zero to below
/// one, lie from zero to below one.
proof fn lemma_scaled_within(full: Seq<Fixed>, peak: Fixed)
    requires
        full.len() >= 2,
        all_within(full, 0, SCALE - 1),
        full[1].raw >= 1,
        0 <= peak.raw < SCALE,
    ensures
        all_within(scaled(full, peak.spec_over(max_of(full))), 0, SCALE - 1),
{
    lemma_max_of(full);
    let most = max_of(full);
    assert(full[1].raw <= most.raw);
    assert forall|i: int| 0 <= i < full.len() implies 0 <= (#[trigger] scaled(
        full,
        peak.spec_over(most),
    )[i]).raw <= SCALE - 1 by {
        assert(0 <= full[i].raw <= most.raw);
        crate::fixed::lemma_scaled_to_peak(full[i], most, peak);
    }
}

/// A vehicle with sound efficiency maps passes the checks of its efficiency
/// curves.
pub proof fn lemma_sound_maps_pass(v: Vehicle)
    requires
        has_sound_maps(v),
    ensures
        v.with_curves().efficiency_violation() is None,
        v.powertrain_violation() is None ==> v.derived() is Ok,
{
    let a = v.with_flags().with_fc_curves();
    let b = a.with_mc_curves();
    let c = b.with_peak_overrides();
    assert(c == v.with_curves());
    let fc = resampled(v.fc_perc_out_array, v.fc_pwr_out_perc, v.fc_eff_map);
    assert(a.fc_eff_array == fc);
    assert(b.fc_eff_array == fc);
    assert(b.fc_peak_eff_override is None);
    crate::params::lemma_within_is_modest(v.fc_eff_map, 0, SCALE - 1);
    lemma_resampled_within(v.fc_perc_out_array, v.fc_pwr_out_perc, v.fc_eff_map, 0, SCALE - 1);
    assert(fc.len() == v.fc_perc_out_array.len());
    lemma_extremes_within(fc, 0, SCALE - 1);

    assert(a.motor_map() == v.motor_map());
    assert(a.mc_perc_out_array == v.mc_perc_out_array);
    assert(a.mc_pwr_out_perc == v.mc_pwr_out_perc);
    lemma_motor_efficiency_within(a);
    let full = a.motor_efficiency();
    assert(b.mc_full_eff_array == full);
    assert(b.mc_peak_eff_override == v.mc_peak_eff_override);
    match v.mc_peak_eff_override {
        Some(peak) => {
            lemma_scaled_within(full, peak);
            let on_grid = scaled(full, peak.spec_over(max_of(full)));
            assert(b.with_mc_peak(peak).mc_full_eff_array == on_grid);
            assert(c.mc_full_eff_array == on_grid);
            assert(c.fc_eff_array == fc);
            assert(on_grid.len() == full.len());
            lemma_extremes_within(on_grid, 0, SCALE - 1);
        },
        None => {
            assert(c.mc_full_eff_array == full);
            assert(c.fc_eff_array == fc);
            lemma_extremes_within(full, 0, SCALE - 1);
        },
    }
}

} // verus!
