use exercises::rational::Rational;
use exercises::stats::max_min_mean;
use exercises::stats::mean_of_three;

#[test]
fn aggregates_a_fixed_sequence() {
    let numbers: Vec<i32> = vec![1, 9, -2, 0, 23, 20, -7, 13, 37, 20, 56, -18, 20, 3];
    let (max, min, mean) = max_min_mean(&numbers);
    assert_eq!(max, 56);
    assert_eq!(min, -18);
    assert_eq!(mean, Rational { num: 175, den: 14 });
    assert_eq!(mean.num as f64 / mean.den as f64, 12.5);
}

#[test]
fn aggregation_is_idempotent() {
    let numbers: Vec<i32> = vec![4, -1, 8, 8, 0];
    let first = max_min_mean(&numbers);
    let second = max_min_mean(&numbers);
    assert_eq!(first, second);
}

#[test]
fn single_element_sequence() {
    let numbers: Vec<i32> = vec![42];
    let (max, min, mean) = max_min_mean(&numbers);
    assert_eq!(max, 42);
    assert_eq!(min, 42);
    assert_eq!(mean, Rational { num: 42, den: 1 });
    assert_eq!(mean.num as f64 / mean.den as f64, 42.0);
}

#[test]
fn duplicated_extremes_change_nothing() {
    let numbers: Vec<i32> = vec![5, 5, -5, -5];
    let (max, min, mean) = max_min_mean(&numbers);
    assert_eq!(max, 5);
    assert_eq!(min, -5);
    assert_eq!(mean.num, 0);
    assert_eq!(mean.den, 4);
    assert_eq!(mean.num as f64 / mean.den as f64, 0.0);
}

#[test]
fn mean_of_three_integers() {
    let a = Rational::from_int(10);
    let b = Rational::from_int(20);
    let c = Rational::from_int(30);
    let mean = mean_of_three(a, b, c);
    assert_eq!(mean.num, 60);
    assert_eq!(mean.den, 3);
    assert_eq!(mean.num as f64 / mean.den as f64, 20.0);
}

#[test]
fn mean_of_three_fractions() {
    let half = Rational::new(1, 2);
    let mean = mean_of_three(half, half, half);
    assert_eq!(mean.num, 12);
    assert_eq!(mean.den, 24);
    assert_eq!(mean.num as f64 / mean.den as f64, 0.5);
}
