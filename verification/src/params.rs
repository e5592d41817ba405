//! Physical properties, unit conversions and baseline curves.
//!
//! The constants named `.._RAW` are counts of billionths, the unit in which
//! a [`Fixed`] holds its number.

use vstd::prelude::*;
use crate::curve::{all_modest, all_within};
use crate::fixed::{is_modest, Fixed};

verus! {

/// Horsepower is divided by this to give kilowatts.
pub const HP_PER_KW_RAW: i64 = 745_700_000;

/// Pounds per kilogram.
pub const LBS_PER_KG_RAW: i64 = 2_200_000_000;

/// Inches per metre.
pub const IN_PER_M_RAW: i64 = 39_370_000_000;

/// Newtons per pound-force.
pub const N_PER_LBF_RAW: i64 = 4_448_000_000;

/// Miles per hour per metre per second.
pub const MPH_PER_MPS_RAW: i64 = 2_236_900_000;

/// The peak efficiency of a modern large motor.
pub const MODERN_MAX_RAW: i64 = 950_000_000;

/// Number of points of the fuel converter output grid.
pub const FC_GRID_POINTS: usize = 100;

/// Number of points of the motor output grid.
pub const MC_GRID_POINTS: usize = 101;

/// Properties of air, fuel and gravity.
#[derive(Clone, Copy, Debug, PartialEq, Eq, Structural)]
pub struct RustPhysicalProperties {
    /// Density of air in kg/m^3
    pub air_density_kg_per_m3: Fixed,
    /// Acceleration of gravity in m/s^2
    pub a_grav_mps2: Fixed,
    /// Energy of a gallon of gasoline in kWh
    pub kwh_per_gge: Fixed,
}

impl RustPhysicalProperties {
    /// The properties at sea level: air of 1.2 kg/m^3, gravity of 9.81
    /// m/s^2, and 33.7 kWh in a gallon of gasoline.
    pub open spec fn standard() -> RustPhysicalProperties {
        RustPhysicalProperties {
            air_density_kg_per_m3: Fixed { raw: 1_200_000_000 },
            a_grav_mps2: Fixed { raw: 9_810_000_000 },
            kwh_per_gge: Fixed { raw: 33_700_000_000 },
        }
    }
}

impl Default for RustPhysicalProperties {
    fn default() -> (r: RustPhysicalProperties)
        ensures
            r == RustPhysicalProperties::standard(),
    {
        RustPhysicalProperties {
            air_density_kg_per_m3: Fixed::from_raw(1_200_000_000),
            a_grav_mps2: Fixed::from_raw(9_810_000_000),
            kwh_per_gge: Fixed::from_raw(33_700_000_000),
        }
    }
}

/// The efficiency of a large motor at each point of the motor power map.
pub open spec fn large_baseline() -> Seq<Fixed> {
    seq![
        Fixed { raw: 830_000_000 },
        Fixed { raw: 850_000_000 },
        Fixed { raw: 870_000_000 },
        Fixed { raw: 890_000_000 },
        Fixed { raw: 900_000_000 },
        Fixed { raw: 910_000_000 },
        Fixed { raw: 930_000_000 },
        Fixed { raw: 940_000_000 },
        Fixed { raw: 940_000_000 },
        Fixed { raw: 930_000_000 },
        Fixed { raw: 920_000_000 },
    ]
}

/// The efficiency of a small motor at each point of the motor power map.
pub open spec fn small_baseline() -> Seq<Fixed> {
    seq![
        Fixed { raw: 120_000_000 },
        Fixed { raw: 160_000_000 },
        Fixed { raw: 210_000_000 },
        Fixed { raw: 290_000_000 },
        Fixed { raw: 350_000_000 },
        Fixed { raw: 420_000_000 },
        Fixed { raw: 750_000_000 },
        Fixed { raw: 920_000_000 },
        Fixed { raw: 930_000_000 },
        Fixed { raw: 930_000_000 },
        Fixed { raw: 920_000_000 },
    ]
}

/// The raw value of point `i` of the fuel converter output grid: steps of a
/// thousandth up to 3 %, of half a hundredth up to 7 %, of a hundredth up to
/// 60 %, and of five hundredths up to the whole.
pub open spec fn fc_grid_raw(i: int) -> int {
    if i < 30 {
        i * 1_000_000
    } else if i < 38 {
        30_000_000 + (i - 30) * 5_000_000
    } else if i < 91 {
        70_000_000 + (i - 38) * 10_000_000
    } else {
        600_000_000 + (i - 91) * 50_000_000
    }
}

/// The shares of its peak power at which a fuel converter is sampled.
pub open spec fn fc_grid() -> Seq<Fixed> {
    Seq::new(FC_GRID_POINTS as nat, |i: int| Fixed { raw: fc_grid_raw(i) as i64 })
}

/// The shares of its peak power at which a motor is sampled: the hundredths
/// from zero to one.
pub open spec fn mc_grid() -> Seq<Fixed> {
    Seq::new(MC_GRID_POINTS as nat, |i: int| Fixed { raw: (i * 10_000_000) as i64 })
}

/// The efficiency of a large motor at each point of the motor power map.
pub fn large_baseline_eff() -> (r: Vec<Fixed>)
    ensures
        r@ == large_baseline(),
{
    let r = vec![
        Fixed { raw: 830_000_000 },
        Fixed { raw: 850_000_000 },
        Fixed { raw: 870_000_000 },
        Fixed { raw: 890_000_000 },
        Fixed { raw: 900_000_000 },
        Fixed { raw: 910_000_000 },
        Fixed { raw: 930_000_000 },
        Fixed { raw: 940_000_000 },
        Fixed { raw: 940_000_000 },
        Fixed { raw: 930_000_000 },
        Fixed { raw: 920_000_000 },
    ];
    assert(r@ =~= large_baseline());
    r
}

/// The efficiency of a small motor at each point of the motor power map.
pub fn small_baseline_eff() -> (r: Vec<Fixed>)
    ensures
        r@ == small_baseline(),
{
    let r = vec![
        Fixed { raw: 120_000_000 },
        Fixed { raw: 160_000_000 },
        Fixed { raw: 210_000_000 },
        Fixed { raw: 290_000_000 },
        Fixed { raw: 350_000_000 },
        Fixed { raw: 420_000_000 },
        Fixed { raw: 750_000_000 },
        Fixed { raw: 920_000_000 },
        Fixed { raw: 930_000_000 },
        Fixed { raw: 930_000_000 },
        Fixed { raw: 920_000_000 },
    ];
    assert(r@ =~= small_baseline());
    r
}

/// The shares of its peak power at which a fuel converter is sampled.
pub fn fc_perc_out_array() -> (r: Vec<Fixed>)
    ensures
        r@ == fc_grid(),
{
    let mut r: Vec<Fixed> = Vec::new();
    let mut i: usize = 0;
    while i < FC_GRID_POINTS
        invariant
            i <= FC_GRID_POINTS,
            r.len() == i,
            forall|j: int| 0 <= j < i ==> (#[trigger] r@[j]).raw == fc_grid_raw(j),
        decreases FC_GRID_POINTS - i,
    {
        let k: i64 = i as i64;
        let raw: i64 = if i < 30 {
            k * 1_000_000
        } else if i < 38 {
            30_000_000 + (k - 30) * 5_000_000
        } else if i < 91 {
            70_000_000 + (k - 38) * 10_000_000
        } else {
            600_000_000 + (k - 91) * 50_000_000
        };
        r.push(Fixed { raw });
        i += 1;
    }
    assert(r@ =~= fc_grid());
    r
}

/// The shares of its peak power at which a motor is sampled.
pub fn mc_perc_out_array() -> (r: Vec<Fixed>)
    ensures
        r@ == mc_grid(),
{
    let mut r: Vec<Fixed> = Vec::new();
    let mut i: usize = 0;
    while i < MC_GRID_POINTS
        invariant
            i <= MC_GRID_POINTS,
            r.len() == i,
            forall|j: int| 0 <= j < i ==> (#[trigger] r@[j]).raw == j * 10_000_000,
        decreases MC_GRID_POINTS - i,
    {
        r.push(Fixed { raw: (i as i64) * 10_000_000 });
        i += 1;
    }
    assert(r@ =~= mc_grid());
    r
}

/// The shares of its peak power at which the efficiency of a fuel converter is given.
pub open spec fn fc_power_map() -> Seq<Fixed> {
    seq![
        Fixed { raw: 0 },
        Fixed { raw: 5_000_000 },
        Fixed { raw: 15_000_000 },
        Fixed { raw: 40_000_000 },
        Fixed { raw: 60_000_000 },
        Fixed { raw: 100_000_000 },
        Fixed { raw: 140_000_000 },
        Fixed { raw: 200_000_000 },
        Fixed { raw: 400_000_000 },
        Fixed { raw: 600_000_000 },
        Fixed { raw: 800_000_000 },
        Fixed { raw: 1_000_000_000 },
    ]
}

/// The shares of its peak power at which the efficiency of a fuel converter is given.
pub fn fc_power_points() -> (r: Vec<Fixed>)
    ensures
        r@ == fc_power_map(),
{
    let r = vec![
        Fixed { raw: 0 },
        Fixed { raw: 5_000_000 },
        Fixed { raw: 15_000_000 },
        Fixed { raw: 40_000_000 },
        Fixed { raw: 60_000_000 },
        Fixed { raw: 100_000_000 },
        Fixed { raw: 140_000_000 },
        Fixed { raw: 200_000_000 },
        Fixed { raw: 400_000_000 },
        Fixed { raw: 600_000_000 },
        Fixed { raw: 800_000_000 },
        Fixed { raw: 1_000_000_000 },
    ];
    assert(r@ =~= fc_power_map());
    r
}

/// The shares of its peak power at which the efficiency of a motor is given.
pub open spec fn mc_power_map() -> Seq<Fixed> {
    seq![
        Fixed { raw: 0 },
        Fixed { raw: 20_000_000 },
        Fixed { raw: 40_000_000 },
        Fixed { raw: 60_000_000 },
        Fixed { raw: 80_000_000 },
        Fixed { raw: 100_000_000 },
        Fixed { raw: 200_000_000 },
        Fixed { raw: 400_000_000 },
        Fixed { raw: 600_000_000 },
        Fixed { raw: 800_000_000 },
        Fixed { raw: 1_000_000_000 },
    ]
}

/// The shares of its peak power at which the efficiency of a motor is given.
pub fn mc_power_points() -> (r: Vec<Fixed>)
    ensures
        r@ == mc_power_map(),
{
    let r = vec![
        Fixed { raw: 0 },
        Fixed { raw: 20_000_000 },
        Fixed { raw: 40_000_000 },
        Fixed { raw: 60_000_000 },
        Fixed { raw: 80_000_000 },
        Fixed { raw: 100_000_000 },
        Fixed { raw: 200_000_000 },
        Fixed { raw: 400_000_000 },
        Fixed { raw: 600_000_000 },
        Fixed { raw: 800_000_000 },
        Fixed { raw: 1_000_000_000 },
    ];
    assert(r@ =~= mc_power_map());
    r
}

/// The efficiency of a spark-ignition engine at each point of the fuel converter power map.
pub open spec fn spark_ignition_map() -> Seq<Fixed> {
    seq![
        Fixed { raw: 100_000_000 },
        Fixed { raw: 120_000_000 },
        Fixed { raw: 160_000_000 },
        Fixed { raw: 220_000_000 },
        Fixed { raw: 280_000_000 },
        Fixed { raw: 330_000_000 },
        Fixed { raw: 350_000_000 },
        Fixed { raw: 360_000_000 },
        Fixed { raw: 350_000_000 },
        Fixed { raw: 340_000_000 },
        Fixed { raw: 320_000_000 },
        Fixed { raw: 300_000_000 },
    ]
}

/// The efficiency of a spark-ignition engine at each point of the fuel converter power map.
pub fn spark_ignition_eff() -> (r: Vec<Fixed>)
    ensures
        r@ == spark_ignition_map(),
{
    let r = vec![
        Fixed { raw: 100_000_000 },
        Fixed { raw: 120_000_000 },
        Fixed { raw: 160_000_000 },
        Fixed { raw: 220_000_000 },
        Fixed { raw: 280_000_000 },
        Fixed { raw: 330_000_000 },
        Fixed { raw: 350_000_000 },
        Fixed { raw: 360_000_000 },
        Fixed { raw: 350_000_000 },
        Fixed { raw: 340_000_000 },
        Fixed { raw: 320_000_000 },
        Fixed { raw: 300_000_000 },
    ];
    assert(r@ =~= spark_ignition_map());
    r
}

/// The efficiency of an Atkinson-cycle engine at each point of the fuel converter power map.
pub open spec fn atkinson_map() -> Seq<Fixed> {
    seq![
        Fixed { raw: 100_000_000 },
        Fixed { raw: 120_000_000 },
        Fixed { raw: 280_000_000 },
        Fixed { raw: 350_000_000 },
        Fixed { raw: 380_000_000 },
        Fixed { raw: 390_000_000 },
        Fixed { raw: 400_000_000 },
        Fixed { raw: 400_000_000 },
        Fixed { raw: 380_000_000 },
        Fixed { raw: 370_000_000 },
        Fixed { raw: 360_000_000 },
        Fixed { raw: 350_000_000 },
    ]
}

/// The efficiency of an Atkinson-cycle engine at each point of the fuel converter power map.
pub fn atkinson_eff() -> (r: Vec<Fixed>)
    ensures
        r@ == atkinson_map(),
{
    let r = vec![
        Fixed { raw: 100_000_000 },
        Fixed { raw: 120_000_000 },
        Fixed { raw: 280_000_000 },
        Fixed { raw: 350_000_000 },
        Fixed { raw: 380_000_000 },
        Fixed { raw: 390_000_000 },
        Fixed { raw: 400_000_000 },
        Fixed { raw: 400_000_000 },
        Fixed { raw: 380_000_000 },
        Fixed { raw: 370_000_000 },
        Fixed { raw: 360_000_000 },
        Fixed { raw: 350_000_000 },
    ];
    assert(r@ =~= atkinson_map());
    r
}

/// The efficiency of a traction motor at each point of the motor power map.
pub open spec fn traction_motor_map() -> Seq<Fixed> {
    seq![
        Fixed { raw: 410_000_000 },
        Fixed { raw: 450_000_000 },
        Fixed { raw: 480_000_000 },
        Fixed { raw: 540_000_000 },
        Fixed { raw: 580_000_000 },
        Fixed { raw: 620_000_000 },
        Fixed { raw: 830_000_000 },
        Fixed { raw: 930_000_000 },
        Fixed { raw: 940_000_000 },
        Fixed { raw: 930_000_000 },
        Fixed { raw: 920_000_000 },
    ]
}

/// The efficiency of a traction motor at each point of the motor power map.
pub fn traction_motor_eff() -> (r: Vec<Fixed>)
    ensures
        r@ == traction_motor_map(),
{
    let r = vec![
        Fixed { raw: 410_000_000 },
        Fixed { raw: 450_000_000 },
        Fixed { raw: 480_000_000 },
        Fixed { raw: 540_000_000 },
        Fixed { raw: 580_000_000 },
        Fixed { raw: 620_000_000 },
        Fixed { raw: 830_000_000 },
        Fixed { raw: 930_000_000 },
        Fixed { raw: 940_000_000 },
        Fixed { raw: 930_000_000 },
        Fixed { raw: 920_000_000 },
    ];
    assert(r@ =~= traction_motor_map());
    r
}

/// The grids and power maps hold shares from zero to one, and the efficiency
/// curves hold efficiencies above zero and below one.
pub proof fn lemma_curves_within()
    ensures
        fc_grid().len() == 100,
        mc_grid().len() == 101,
        all_within(fc_grid(), 0, 1_000_000_000),
        all_within(mc_grid(), 0, 1_000_000_000),
        fc_power_map().len() == 12,
        mc_power_map().len() == 11,
        all_within(fc_power_map(), 0, 1_000_000_000),
        all_within(mc_power_map(), 0, 1_000_000_000),
        spark_ignition_map().len() == 12,
        atkinson_map().len() == 12,
        all_within(spark_ignition_map(), 100_000_000, 360_000_000),
        all_within(atkinson_map(), 100_000_000, 400_000_000),
        traction_motor_map().len() == 11,
        small_baseline().len() == 11,
        large_baseline().len() == 11,
        all_within(traction_motor_map(), 410_000_000, 940_000_000),
        all_within(small_baseline(), 120_000_000, 930_000_000),
        all_within(large_baseline(), 830_000_000, 940_000_000),
{
    assert forall|i: int| 0 <= i < fc_grid().len() implies 0 <= (#[trigger] fc_grid()[i]).raw
        <= 1_000_000_000 by {}
    assert forall|i: int| 0 <= i < mc_grid().len() implies 0 <= (#[trigger] mc_grid()[i]).raw
        <= 1_000_000_000 by {}
}

/// Numbers from zero to one are far from the ends of the range.
pub proof fn lemma_within_is_modest(s: Seq<Fixed>, low: int, high: int)
    requires
        all_within(s, low, high),
        -0x2000_0000_0000_0000 <= low,
        high <= 0x2000_0000_0000_0000,
    ensures
        all_modest(s),
{
    assert forall|i: int| 0 <= i < s.len() implies is_modest(#[trigger] s[i]) by {
        assert(low <= s[i].raw <= high);
    }
}

} // verus!
