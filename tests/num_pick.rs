use gpstrat::{get_function_by_num_pick_operator, Num, NumPickOperator};

fn num(x: f64) -> Num {
    Num::from_units((x * 1_000_000.0).round() as i64)
}

fn pick(operator: NumPickOperator, xs: &[f64]) -> Num {
    get_function_by_num_pick_operator(&operator, xs.iter().map(|x| num(*x)).collect())
}

#[test]
fn median_of_odd_and_even_lengths() {
    assert_eq!(pick(NumPickOperator::Med, &[1.0, 2.0, 3.0]), num(2.0));
    assert_eq!(pick(NumPickOperator::Med, &[3.0, 1.0, 2.0]), num(2.0));
    // Even length n: the mean of sorted positions n/2 and n/2 + 1.
    assert_eq!(pick(NumPickOperator::Med, &[1.0, 2.0, 3.0, 4.0]), num(3.5));
    assert_eq!(pick(NumPickOperator::Med, &[4.0, 3.0, 2.0, 1.0, 6.0, 5.0]), num(4.5));
    // Past the end, the upper position is the last one.
    assert_eq!(pick(NumPickOperator::Med, &[1.0, 2.0]), num(2.0));
    assert_eq!(pick(NumPickOperator::Med, &[]), num(0.0));
}

#[test]
fn sums_means_and_extremes() {
    assert_eq!(pick(NumPickOperator::Sum, &[1.0, 2.5, -0.5]), num(3.0));
    assert_eq!(pick(NumPickOperator::Average, &[1.0, 2.0, 3.0, 4.0, 5.0]), num(3.0));
    assert_eq!(pick(NumPickOperator::Average, &[1.0, 2.0]), num(1.5));
    assert_eq!(pick(NumPickOperator::Max, &[1.0, 7.0, 3.0]), num(7.0));
    assert_eq!(pick(NumPickOperator::Min, &[1.0, -7.0, 3.0]), num(-7.0));
    assert_eq!(pick(NumPickOperator::Length, &[1.0, -7.0, 3.0]), num(3.0));
}

#[test]
fn empty_series_reduce_to_zero() {
    for operator in [
        NumPickOperator::Average,
        NumPickOperator::Sum,
        NumPickOperator::Max,
        NumPickOperator::Min,
        NumPickOperator::Std,
        NumPickOperator::Length,
    ] {
        assert_eq!(pick(operator, &[]), num(0.0));
    }
}

#[test]
fn population_standard_deviation() {
    assert_eq!(pick(NumPickOperator::Std, &[2.0, 4.0, 4.0, 4.0, 5.0, 5.0, 7.0, 9.0]), num(2.0));
    assert_eq!(pick(NumPickOperator::Std, &[1.0, 1.0]), num(0.0));
    assert_eq!(pick(NumPickOperator::Std, &[0.0, 1.0]), num(0.5));
}

#[test]
fn sum_saturates() {
    let big = Num::from_units(i64::MAX);
    assert_eq!(get_function_by_num_pick_operator(&NumPickOperator::Sum, vec![big, big]), big);
    assert_eq!(get_function_by_num_pick_operator(&NumPickOperator::Average, vec![big, big]), big);
}
