use portfolio_log::amount::sum;

#[test]
fn sum_of_nothing_is_zero() {
    let total = sum(&Vec::<f64>::new(), 0.0, &|a: f64, b: f64| a + b);
    assert_eq!(total, 0.0);
    let total = sum(&Vec::<i64>::new(), 7, &|a: i64, b: i64| a + b);
    assert_eq!(total, 7);
}

#[test]
fn sum_adds_first_to_last() {
    let total = sum(&vec![0.1, 0.2, 0.3], 0.0, &|a: f64, b: f64| a + b);
    assert_eq!(total, ((0.0 + 0.1) + 0.2) + 0.3);
    assert_eq!(total, 0.6000000000000001);
    assert_ne!(total, 0.1 + (0.2 + 0.3));
}

#[test]
fn sum_goes_through_the_addition_it_is_given() {
    let total = sum(
        &vec!["a".len(), "bc".len(), "def".len()],
        100,
        &|a: usize, b: usize| a * 10 + b,
    );
    assert_eq!(total, ((100 * 10 + 1) * 10 + 2) * 10 + 3);
}
