//! Fitting drag and rolling resistance to the road load of a coast-down test.
//!
//! A coast-down test gives the road load as a polynomial `a + b v + c v^2`,
//! in pound-force, of the speed `v` in miles per hour. The two coefficients
//! follow from it directly, or come from a search that runs a simulation of
//! the test and takes the error of its road load as cost. The search and the
//! simulation are the caller's; the cycle to simulate, the cost of a
//! simulated run and the start of the search are given here.

use vstd::prelude::*;
use crate::curve::Curve;
use crate::fixed::Fixed;
use crate::params::{RustPhysicalProperties, MPH_PER_MPS_RAW, N_PER_LBF_RAW};
use crate::vehicle::{RustVehicle, Vehicle};

verus! {

/// Number of samples of the cycle that a coast-down is simulated on.
pub const COASTDOWN_SAMPLES: usize = 300;

/// The speed in miles per hour from which the coast-down starts.
pub const COASTDOWN_START_MPH: i64 = 70;

/// The largest number of steps that the search takes.
pub const SEARCH_MAX_ITERS: u64 = 100;

/// The speed in m/s below which a simulated run is cut off: one tenth.
pub const CUTOFF_MPS_RAW: i64 = 100_000_000;

/// The difference of each pair of numbers of `model` and `test`, without its
/// sign.
pub open spec fn gaps(model: Seq<Fixed>, test: Seq<Fixed>) -> Seq<Fixed> {
    Seq::new(model.len(), |i: int| model[i].spec_minus(test[i]).spec_abs())
}

/// The area under `y` between the times `t[k]` and `t[k + 1]`, by the
/// trapezoidal rule.
pub open spec fn trapezoid(y: Seq<Fixed>, t: Seq<Fixed>, k: int) -> Fixed {
    Fixed { raw: 500_000_000 }.spec_times(t[k + 1].spec_minus(t[k])).spec_times(
        y[k].spec_plus(y[k + 1]),
    )
}

/// The area under `y` over the first `n` steps of the times `t`.
pub open spec fn area_under(y: Seq<Fixed>, t: Seq<Fixed>, n: nat) -> Fixed
    decreases n,
{
    if n == 0 {
        Fixed { raw: 0 }
    } else {
        area_under(y, t, (n - 1) as nat).spec_plus(trapezoid(y, t, n - 1))
    }
}

/// The time that the times `t` span; zero for no time.
pub open spec fn time_span(t: Seq<Fixed>) -> Fixed {
    if t.len() == 0 {
        Fixed { raw: 0 }
    } else {
        t.last().spec_minus(t[0])
    }
}

/// The error of the signal `model` against the signal `test`, averaged over
/// time: the area under the gap between the two, by the trapezoidal rule,
/// divided by the time spanned.
pub open spec fn time_averaged_error(model: Seq<Fixed>, test: Seq<Fixed>, t: Seq<Fixed>) -> Fixed {
    let steps = if t.len() == 0 {
        0nat
    } else {
        (t.len() - 1) as nat
    };
    area_under(gaps(model, test), t, steps).spec_over(time_span(t))
}

/// The road load in pound-force at `mph` miles per hour.
pub open spec fn road_load_lbf(a: Fixed, b: Fixed, c: Fixed, mph: Fixed) -> Fixed {
    a.spec_plus(b.spec_plus(c.spec_times(mph)).spec_times(mph))
}

/// The rolling resistance coefficient that the constant part `a_lbf` of the
/// road load gives a vehicle of `veh_kg`: the load in newtons over the
/// weight.
pub open spec fn rolling_from_load(a_lbf: Fixed, veh_kg: Fixed, gravity: Fixed) -> Fixed {
    a_lbf.spec_times(Fixed { raw: N_PER_LBF_RAW }).spec_over(veh_kg).spec_over(gravity)
}

/// The drag coefficient that the quadratic part `c_lbf_per_mph2` of the road
/// load gives a vehicle of frontal area `area` in air of density `rho`: the
/// load in newtons per (m/s)^2 over half the area times the density.
pub open spec fn drag_from_load(c_lbf_per_mph2: Fixed, area: Fixed, rho: Fixed) -> Fixed {
    let mph = Fixed { raw: MPH_PER_MPS_RAW };
    c_lbf_per_mph2.spec_times(Fixed { raw: N_PER_LBF_RAW }).spec_times(mph).spec_times(
        mph,
    ).spec_over(Fixed { raw: 500_000_000 }.spec_times(area).spec_times(rho))
}

/// The density of air to fit with: the one given, else the standard one.
pub open spec fn fitting_density(custom_rho: Option<Fixed>) -> Fixed {
    match custom_rho {
        Some(rho) => rho,
        None => RustPhysicalProperties::standard().air_density_kg_per_m3,
    }
}

/// The drag and the rolling resistance coefficient of the vehicle: those
/// that a search found, else those that the road load gives directly, under
/// standard gravity and in air of the density given or else of the standard
/// one. The linear part of the road load plays no part in the direct way,
/// nor do the physical properties that the vehicle itself carries.
pub open spec fn fitted_coefficients(
    veh: Vehicle,
    a_lbf: Fixed,
    c_lbf_per_mph2: Fixed,
    custom_rho: Option<Fixed>,
    searched: Option<(Fixed, Fixed)>,
) -> (Fixed, Fixed) {
    match searched {
        Some(found) => found,
        None => (
            drag_from_load(c_lbf_per_mph2, veh.frontal_area_m2, fitting_density(custom_rho)),
            rolling_from_load(
                a_lbf,
                veh.veh_kg,
                RustPhysicalProperties::standard().a_grav_mps2,
            ),
        ),
    }
}

/// The speed in m/s from which the coast-down starts.
pub open spec fn start_speed() -> Fixed {
    Fixed::spec_from_int(COASTDOWN_START_MPH as int).spec_over(Fixed { raw: MPH_PER_MPS_RAW })
}

/// The change of speed in m/s from one sample of the cycle to the next.
pub open spec fn speed_step() -> Fixed {
    Fixed { raw: 0 }.spec_minus(start_speed()).spec_over(
        Fixed::spec_from_int(COASTDOWN_SAMPLES - 1),
    )
}

/// The times in s of the samples of the coast-down cycle: the whole seconds
/// from zero.
pub open spec fn cycle_times() -> Seq<Fixed> {
    Seq::new(COASTDOWN_SAMPLES as nat, |i: int| Fixed::spec_from_int(i))
}

/// The speeds in m/s of the samples of the coast-down cycle: in even steps
/// from the start speed down to rest.
pub open spec fn cycle_speeds() -> Seq<Fixed> {
    Seq::new(
        COASTDOWN_SAMPLES as nat,
        |i: int| start_speed().spec_plus(speed_step().spec_times(Fixed::spec_from_int(i))),
    )
}

/// The first sample at which the run is slower than the cut-off speed; the
/// number of samples where it never is.
pub open spec fn cutoff_of(mps: Seq<Fixed>, from: int) -> int
    decreases mps.len() - from,
{
    if from < 0 || from >= mps.len() {
        mps.len() as int
    } else if mps[from].raw < CUTOFF_MPS_RAW {
        from
    } else {
        cutoff_of(mps, from + 1)
    }
}

/// The road load in newtons that a simulated run met at each sample: drag
/// and rolling power, taken from kW to W, over the speed.
pub open spec fn simulated_load(drag_kw: Seq<Fixed>, rr_kw: Seq<Fixed>, mps: Seq<Fixed>) -> Seq<
    Fixed,
> {
    Seq::new(
        mps.len(),
        |i: int|
            Fixed::spec_from_int(1000).spec_times(drag_kw[i].spec_plus(rr_kw[i])).spec_over(mps[i]),
    )
}

/// The road load in newtons that the test found at each speed of the run.
pub open spec fn tested_load(a: Fixed, b: Fixed, c: Fixed, mph: Seq<Fixed>) -> Seq<Fixed> {
    Seq::new(
        mph.len(),
        |i: int| road_load_lbf(a, b, c, mph[i]).spec_times(Fixed { raw: N_PER_LBF_RAW }),
    )
}

/// The cost of a simulated run: the time-averaged error of its road load
/// against that of the test, over the samples before the cut-off.
pub open spec fn run_cost(
    mps: Seq<Fixed>,
    mph: Seq<Fixed>,
    drag_kw: Seq<Fixed>,
    rr_kw: Seq<Fixed>,
    time_s: Seq<Fixed>,
    a: Fixed,
    b: Fixed,
    c: Fixed,
) -> Fixed {
    let cut = cutoff_of(mps, 0);
    time_averaged_error(
        simulated_load(drag_kw, rr_kw, mps).take(cut),
        tested_load(a, b, c, mph).take(cut),
        time_s.take(cut),
    )
}

/// Returns the error of the signal `model` against the signal `test`,
/// averaged over the time of the steps `time_steps`.
pub fn get_error_val(model: Curve, test: Curve, time_steps: Curve) -> (err: Fixed)
    requires
        model@.len() == test@.len(),
        test@.len() == time_steps@.len(),
    ensures
        err == time_averaged_error(model@, test@, time_steps@),
{
    let model = model.to_vec();
    let test = test.to_vec();
    let time_steps = time_steps.to_vec();
    let n = time_steps.len();
    if n == 0 {
        return Fixed::zero().over(Fixed::zero());
    }
    let half = Fixed::from_raw(500_000_000);
    let ghost y = gaps(model@, test@);
    let mut err = Fixed::zero();
    let mut k: usize = 0;
    while k < n - 1
        invariant
            k <= n - 1,
            n == time_steps.len(),
            n == model.len(),
            n == test.len(),
            n >= 1,
            half.raw == 500_000_000,
            y == gaps(model@, test@),
            err == area_under(y, time_steps@, k as nat),
        decreases n - 1 - k,
    {
        let left = model[k].minus(test[k]).abs();
        let right = model[k + 1].minus(test[k + 1]).abs();
        let width = time_steps[k + 1].minus(time_steps[k]);
        err = err.plus(half.times(width).times(left.plus(right)));
        k += 1;
    }
    err.over(time_steps[n - 1].minus(time_steps[0]))
}

/// The road load in pound-force at `mph` miles per hour.
pub fn road_load(a: Fixed, b: Fixed, c: Fixed, mph: Fixed) -> (lbf: Fixed)
    ensures
        lbf == road_load_lbf(a, b, c, mph),
{
    a.plus(b.plus(c.times(mph)).times(mph))
}

/// Sets the drag and the rolling resistance coefficient of the vehicle and
/// returns them, in this order.
///
/// The road load of the coast-down test is `a_lbf + b_lbf__mph v +
/// c_lbf__mph2 v^2` pound-force at `v` miles per hour. Where `searched`
/// holds the coefficients that a search found, they are taken. Otherwise the
/// coefficients follow from `a_lbf` and `c_lbf__mph2` directly, under standard
/// gravity and in air of density `custom_rho` or, where none is given, of
/// the standard density; `b_lbf__mph` then plays no part, nor do the physical
/// properties that the vehicle itself carries.
#[allow(non_snake_case)]
pub fn abc_to_drag_coeffs(
    veh: &mut RustVehicle,
    a_lbf: Fixed,
    b_lbf__mph: Fixed,
    c_lbf__mph2: Fixed,
    custom_rho: Option<Fixed>,
    searched: Option<(Fixed, Fixed)>,
) -> (r: (Fixed, Fixed))
    ensures
        r == fitted_coefficients(old(veh)@, a_lbf, c_lbf__mph2, custom_rho, searched),
        final(veh)@ == (Vehicle { drag_coef: r.0, wheel_rr_coef: r.1, ..old(veh)@ }),
{
    let (drag_coef, wheel_rr_coef) = match searched {
        Some(found) => found,
        None => {
            let props = RustPhysicalProperties::default();
            let rho = match custom_rho {
                Some(rho) => rho,
                None => props.air_density_kg_per_m3,
            };
            let newton = Fixed::from_raw(N_PER_LBF_RAW);
            let mph = Fixed::from_raw(MPH_PER_MPS_RAW);
            let half = Fixed::from_raw(500_000_000);
            (
                c_lbf__mph2.times(newton).times(mph).times(mph).over(
                    half.times(veh.frontal_area_m2).times(rho),
                ),
                a_lbf.times(newton).over(veh.veh_kg).over(props.a_grav_mps2),
            )
        },
    };
    veh.drag_coef = drag_coef;
    veh.wheel_rr_coef = wheel_rr_coef;
    (drag_coef, wheel_rr_coef)
}

/// The cycle that a coast-down is simulated on: the times in s and the
/// speeds in m/s of its samples.
pub fn coastdown_cycle() -> (r: (Vec<Fixed>, Vec<Fixed>))
    ensures
        r.0@ == cycle_times(),
        r.1@ == cycle_speeds(),
{
    let start = Fixed::from_int(COASTDOWN_START_MPH).over(Fixed::from_raw(MPH_PER_MPS_RAW));
    let step = Fixed::zero().minus(start).over(Fixed::from_count(COASTDOWN_SAMPLES - 1));
    let mut times: Vec<Fixed> = Vec::new();
    let mut speeds: Vec<Fixed> = Vec::new();
    let mut i: usize = 0;
    while i < COASTDOWN_SAMPLES
        invariant
            i <= COASTDOWN_SAMPLES,
            start == start_speed(),
            step == speed_step(),
            times.len() == i,
            speeds.len() == i,
            forall|j: int| 0 <= j < i ==> times@[j] == Fixed::spec_from_int(j),
            forall|j: int|
                0 <= j < i ==> speeds@[j] == start.spec_plus(
                    step.spec_times(Fixed::spec_from_int(j)),
                ),
        decreases COASTDOWN_SAMPLES - i,
    {
        let at = Fixed::from_count(i);
        times.push(at);
        speeds.push(start.plus(step.times(at)));
        i += 1;
    }
    assert(times@ =~= cycle_times());
    assert(speeds@ =~= cycle_speeds());
    (times, speeds)
}

/// The vertices from which the search for the two coefficients starts, each
/// a drag and a rolling resistance coefficient: `(0, 0)`, `(0.5, 0)` and
/// `(0.5, 0.1)`.
pub fn search_start() -> (r: [(Fixed, Fixed); 3])
    ensures
        r[0] == (Fixed { raw: 0 }, Fixed { raw: 0 }),
        r[1] == (Fixed { raw: 500_000_000 }, Fixed { raw: 0 }),
        r[2] == (Fixed { raw: 500_000_000 }, Fixed { raw: 100_000_000 }),
{
    [
        (Fixed::zero(), Fixed::zero()),
        (Fixed::from_raw(500_000_000), Fixed::zero()),
        (Fixed::from_raw(500_000_000), Fixed::from_raw(100_000_000)),
    ]
}

/// The first `n` numbers of `v`.
fn first_numbers(v: &Vec<Fixed>, n: usize) -> (r: Vec<Fixed>)
    requires
        n <= v.len(),
    ensures
        r@ == v@.take(n as int),
{
    let mut r: Vec<Fixed> = Vec::new();
    let mut i: usize = 0;
    while i < n
        invariant
            i <= n,
            n <= v.len(),
            r.len() == i,
            forall|j: int| 0 <= j < i ==> r@[j] == v@[j],
        decreases n - i,
    {
        r.push(v[i]);
        i += 1;
    }
    assert(r@ =~= v@.take(n as int));
    r
}

/// The cost of a simulated coast-down: the time-averaged error of the road
/// load that the run met against that of the test, over the samples before
/// the run first is slower than a tenth of a m/s.
///
/// The run is given by the speeds that it reached in m/s and in miles per
/// hour, and by the power in kW that drag and rolling resistance took, at
/// the times `time_s` of the cycle.
pub fn coastdown_cost(
    mps_ach: &Vec<Fixed>,
    mph_ach: &Vec<Fixed>,
    drag_kw: &Vec<Fixed>,
    rr_kw: &Vec<Fixed>,
    time_s: &Vec<Fixed>,
    a_lbf: Fixed,
    b_lbf_per_mph: Fixed,
    c_lbf_per_mph2: Fixed,
) -> (cost: Fixed)
    requires
        mph_ach.len() == mps_ach.len(),
        drag_kw.len() == mps_ach.len(),
        rr_kw.len() == mps_ach.len(),
        time_s.len() == mps_ach.len(),
    ensures
        cost == run_cost(
            mps_ach@,
            mph_ach@,
            drag_kw@,
            rr_kw@,
            time_s@,
            a_lbf,
            b_lbf_per_mph,
            c_lbf_per_mph2,
        ),
{
    let n = mps_ach.len();
    let mut cut: usize = 0;
    while cut < n && mps_ach[cut].raw >= CUTOFF_MPS_RAW
        invariant
            cut <= n,
            n == mps_ach.len(),
            cutoff_of(mps_ach@, 0) == cutoff_of(mps_ach@, cut as int),
        decreases n - cut,
    {
        cut += 1;
    }
    let thousand = Fixed::from_int(1000);
    let newton = Fixed::from_raw(N_PER_LBF_RAW);
    let mut model: Vec<Fixed> = Vec::new();
    let mut test: Vec<Fixed> = Vec::new();
    let mut i: usize = 0;
    while i < cut
        invariant
            i <= cut,
            cut <= n,
            n == mps_ach.len(),
            n == mph_ach.len(),
            n == drag_kw.len(),
            n == rr_kw.len(),
            thousand == Fixed::spec_from_int(1000),
            newton.raw == N_PER_LBF_RAW,
            model.len() == i,
            test.len() == i,
            forall|j: int|
                0 <= j < i ==> model@[j] == simulated_load(drag_kw@, rr_kw@, mps_ach@)[j],
            forall|j: int|
                0 <= j < i ==> test@[j] == tested_load(
                    a_lbf,
                    b_lbf_per_mph,
                    c_lbf_per_mph2,
                    mph_ach@,
                )[j],
        decreases cut - i,
    {
        model.push(thousand.times(drag_kw[i].plus(rr_kw[i])).over(mps_ach[i]));
        test.push(road_load(a_lbf, b_lbf_per_mph, c_lbf_per_mph2, mph_ach[i]).times(newton));
        i += 1;
    }
    let times = first_numbers(time_s, cut);
    proof {
        assert(model@ =~= simulated_load(drag_kw@, rr_kw@, mps_ach@).take(cut as int));
        assert(test@ =~= tested_load(a_lbf, b_lbf_per_mph, c_lbf_per_mph2, mph_ach@).take(
            cut as int,
        ));
    }
    get_error_val(Curve::new(model), Curve::new(test), Curve::new(times))
}

/// The coefficients that the road load gives directly depend on the mass
/// and the frontal area of the vehicle alone: two vehicles of one mass and
/// one frontal area get the same, whatever physical properties they carry,
/// and gravity and the density of air are the standard ones.
pub proof fn lemma_direct_coefficients(v: Vehicle, w: Vehicle, a_lbf: Fixed, c_lbf_per_mph2: Fixed)
    requires
        w.veh_kg == v.veh_kg,
        w.frontal_area_m2 == v.frontal_area_m2,
    ensures
        fitted_coefficients(v, a_lbf, c_lbf_per_mph2, None, None) == fitted_coefficients(
            w,
            a_lbf,
            c_lbf_per_mph2,
            None,
            None,
        ),
        fitted_coefficients(v, a_lbf, c_lbf_per_mph2, None, None).0 == drag_from_load(
            c_lbf_per_mph2,
            v.frontal_area_m2,
            Fixed { raw: 1_200_000_000 },
        ),
        fitted_coefficients(v, a_lbf, c_lbf_per_mph2, None, None).1 == rolling_from_load(
            a_lbf,
            v.veh_kg,
            Fixed { raw: 9_810_000_000 },
        ),
{
}

} // verus!
