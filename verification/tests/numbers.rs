use exercises::adder::add_two;
use exercises::fibonacci::{fibonacci, fibonacci_tco, MAX_INDEX_U32, MAX_INDEX_U64};

#[test]
fn add_two_adds_two() {
    assert_eq!(add_two(3), 5);
    assert_eq!(add_two(0), 2);
    assert_eq!(add_two(-2), 0);
    assert_eq!(add_two(-7), -5);
}

#[test]
fn add_two_at_the_ends_of_the_range() {
    assert_eq!(add_two(i32::MIN), i32::MIN + 2);
    assert_eq!(add_two(i32::MAX - 2), i32::MAX);
}

#[test]
fn fibonacci_first_ten() {
    let expected: [u32; 10] = [1, 1, 2, 3, 5, 8, 13, 21, 34, 55];
    for (i, value) in expected.iter().enumerate() {
        assert_eq!(fibonacci(i as u32 + 1), *value);
    }
}

#[test]
fn fibonacci_of_zero_is_one() {
    assert_eq!(fibonacci(0), 1);
}

#[test]
fn fibonacci_of_thirty() {
    assert_eq!(fibonacci(30), 832040);
}

#[test]
fn fibonacci_tco_first_eleven() {
    let expected: [u64; 11] = [0, 1, 1, 2, 3, 5, 8, 13, 21, 34, 55];
    for (i, value) in expected.iter().enumerate() {
        assert_eq!(fibonacci_tco(i as u64), *value);
    }
}

#[test]
fn fibonacci_tco_at_the_limits() {
    assert_eq!(MAX_INDEX_U32, 47);
    assert_eq!(MAX_INDEX_U64, 93);
    assert_eq!(fibonacci_tco(47), 2971215073);
    assert_eq!(fibonacci_tco(48), 4807526976);
    assert_eq!(fibonacci_tco(93), 12200160415121876738);
}

#[test]
fn both_fibonaccis_agree() {
    for n in 1..=25u32 {
        assert_eq!(fibonacci(n) as u64, fibonacci_tco(n as u64));
    }
}
