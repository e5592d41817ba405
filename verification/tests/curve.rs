use fastsim_vehicle::curve::{
    arrmax, arrmin, copy_curve, first_eq, interpolate, resample, same_curve, scale, shift,
};
use fastsim_vehicle::fixed::Fixed;

fn fx(x: f64) -> Fixed {
    Fixed::from_raw((x * 1e9).round() as i64)
}

fn series(xs: &[f64]) -> Vec<Fixed> {
    xs.iter().map(|x| fx(*x)).collect()
}

#[test]
fn largest_and_smallest() {
    let v = series(&[0.1, 0.36, -0.2, 0.36, 0.3]);
    assert_eq!(arrmax(&v), fx(0.36));
    assert_eq!(arrmin(&v), fx(-0.2));
    assert_eq!(arrmax(&vec![]), Fixed::from_raw(i64::MIN));
    assert_eq!(arrmin(&vec![]), Fixed::from_raw(i64::MAX));
}

#[test]
fn first_position_of_a_number() {
    let v = series(&[0.1, 0.36, -0.2, 0.36, 0.3]);
    assert_eq!(first_eq(&v, fx(0.36)), Some(1));
    assert_eq!(first_eq(&v, fx(0.3)), Some(4));
    assert_eq!(first_eq(&v, fx(0.5)), None);
    assert_eq!(first_eq(&vec![], fx(0.0)), None);
}

#[test]
fn scaling_and_shifting() {
    let v = series(&[0.0, 0.5, 1.0]);
    assert_eq!(scale(&v, fx(125.0)), series(&[0.0, 62.5, 125.0]));
    assert_eq!(shift(&v, fx(0.01)), series(&[0.01, 0.51, 1.01]));
    assert_eq!(scale(&vec![], fx(2.0)), vec![]);
    assert_eq!(copy_curve(&v), v);
    assert!(same_curve(&v, &series(&[0.0, 0.5, 1.0])));
    assert!(!same_curve(&v, &series(&[0.0, 0.5])));
    assert!(!same_curve(&v, &series(&[0.0, 0.5, 1.5])));
}

#[test]
fn interpolation_between_points() {
    let xs = series(&[0.0, 0.2, 1.0]);
    let ys = series(&[0.1, 0.3, 0.7]);
    assert_eq!(interpolate(fx(0.0), &xs, &ys), fx(0.1));
    assert_eq!(interpolate(fx(0.1), &xs, &ys), fx(0.2));
    assert_eq!(interpolate(fx(0.2), &xs, &ys), fx(0.3));
    assert_eq!(interpolate(fx(0.6), &xs, &ys), fx(0.5));
    assert_eq!(interpolate(fx(1.0), &xs, &ys), fx(0.7));
}

#[test]
fn interpolation_beyond_the_ends_keeps_the_end_values() {
    let xs = series(&[0.0, 0.2, 1.0]);
    let ys = series(&[0.1, 0.3, 0.7]);
    assert_eq!(interpolate(fx(-1.0), &xs, &ys), fx(0.1));
    assert_eq!(interpolate(fx(2.0), &xs, &ys), fx(0.7));
}

#[test]
fn interpolation_over_few_points() {
    assert_eq!(interpolate(fx(0.5), &vec![], &vec![]), fx(0.0));
    assert_eq!(interpolate(fx(0.5), &series(&[0.0]), &series(&[0.4])), fx(0.4));
    // Points beyond the shorter list play no part.
    assert_eq!(interpolate(fx(0.5), &series(&[0.0, 1.0, 2.0]), &series(&[0.0, 1.0])), fx(0.5));
    assert_eq!(interpolate(fx(1.5), &series(&[0.0, 1.0, 2.0]), &series(&[0.0, 1.0])), fx(1.0));
}

#[test]
fn resampling_a_curve() {
    let xs = series(&[0.0, 1.0]);
    let ys = series(&[0.0, 10.0]);
    let at = series(&[-1.0, 0.0, 0.25, 0.5, 1.0, 3.0]);
    assert_eq!(resample(&at, &xs, &ys), series(&[0.0, 0.0, 2.5, 5.0, 10.0, 10.0]));
    assert_eq!(resample(&vec![], &xs, &ys), vec![]);
}
