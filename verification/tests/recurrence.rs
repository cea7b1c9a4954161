use logistic_map::recurrence::{evaluate, step};

#[test]
fn evaluate_zero_iterations_returns_seed() {
    assert_eq!(evaluate(0, 0, 7, 3), 0);
    assert_eq!(evaluate(5, 0, 7, 3), 5);
    assert_eq!(evaluate(-123, 0, 97, 4), -123);
    assert_eq!(evaluate(i64::MAX, 0, -5, 11), i64::MAX);
    assert_eq!(evaluate(i64::MIN, 0, 1, 1), i64::MIN);
}

#[test]
fn evaluate_negative_iterations_returns_seed() {
    assert_eq!(evaluate(42, -1, 97, 4), 42);
    assert_eq!(evaluate(42, i64::MIN, 97, 4), 42);
}

#[test]
fn evaluate_single_step_composes() {
    for seed in [-9i64, 0, 1, 2, 3, 1000] {
        for n in 0i64..6 {
            let lhs = evaluate(seed, n + 1, 97, 4);
            let rhs = evaluate(evaluate(seed, n, 97, 4), 1, 97, 4);
            assert_eq!(lhs, rhs);
        }
    }
}

#[test]
fn step_matches_formula() {
    // (3 * 5 * 6) % 7 == 90 % 7 == 6
    assert_eq!(step(5, 7, 3), 6);
    // remainder sign follows the dividend
    assert_eq!(step(-3, 7, 1), (-3i64 * -2) % 7);
    assert_eq!(step(2, -7, 1), 6 % -7);
    assert_eq!(evaluate(5, 1, 7, 3), 6);
}

#[test]
fn step_wraps_on_overflow() {
    // mu * x * (x + 1) overflows 64 bits; the recurrence must wrap silently.
    let x = i64::MAX;
    let expected = 3i64.wrapping_mul(x).wrapping_mul(x.wrapping_add(1)) % 12345;
    assert_eq!(step(x, 12345, 3), expected);
    assert_eq!(evaluate(x, 1, 12345, 3), expected);
}

#[test]
fn step_modulus_minus_one_yields_zero() {
    assert_eq!(step(5, -1, 3), 0);
    assert_eq!(evaluate(5, 4, -1, 3), 0);
}
