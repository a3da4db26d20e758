use example_math_tools::{addi, addi_res, multi, multi_res, subi, subi_res, OverflowError};

#[test]
fn add_works() {
    assert_eq!(addi(4, 6).0, 10);
    assert_eq!(addi(-4, -6).0, -10);
    assert_ne!(addi(3, 4).0, 8);
    assert_ne!(addi(-3, -4).0, -8);
}

#[test]
fn add_overflow_and_underflow() {
    assert_eq!(addi(i64::MAX, 1).1, true);
    assert_eq!(addi(i64::MAX, 1).0, i64::MIN);
    assert_eq!(addi(i64::MIN, -1).1, true);
    assert_eq!(addi(i64::MIN, -1).0, i64::MAX);
}

#[test]
fn add_exact_when_representable() {
    assert_eq!(addi(123, -456), (-333, false));
    assert_eq!(addi(i64::MAX, 0), (i64::MAX, false));
    assert_eq!(addi(i64::MIN, 0), (i64::MIN, false));
    assert_eq!(addi(i64::MAX, i64::MIN), (-1, false));
}

#[test]
fn add_value_matches_wrapping_add() {
    let cases = [
        (4i64, 6i64),
        (i64::MAX, 1),
        (i64::MIN, -1),
        (i64::MAX, i64::MAX),
        (i64::MIN, i64::MIN),
        (-7, 7),
    ];
    for (x, y) in cases {
        assert_eq!(addi(x, y).0, x.wrapping_add(y));
    }
}

#[test]
fn add_commutes() {
    let cases = [
        (4i64, 6i64),
        (i64::MAX, 1),
        (i64::MIN, -1),
        (i64::MAX, i64::MIN),
        (-42, 913),
    ];
    for (x, y) in cases {
        assert_eq!(addi(x, y), addi(y, x));
    }
}

#[test]
fn sub_works() {
    assert_eq!(subi(4, 6), (-2, false));
    assert_eq!(subi(12, 34), (-22, false));
    assert_eq!(subi(i64::MIN, 1), (i64::MAX, true));
    assert_eq!(subi(i64::MAX, -1), (i64::MIN, true));
}

#[test]
fn mul_works() {
    assert_eq!(multi(3, 4), (12, false));
    assert_eq!(multi(-3, 4), (-12, false));
    assert_eq!(multi(i64::MAX, 2), (-2, true));
    assert_eq!(multi(i64::MIN, -1), (i64::MIN, true));
}

#[test]
fn add_res_succeeds_exactly_without_overflow() {
    assert_eq!(addi_res(2, 3), Ok(5));
    assert_eq!(addi_res(-4, -6), Ok(-10));
    assert_eq!(addi_res(i64::MAX, 1), Err(OverflowError));
    assert_eq!(addi_res(i64::MIN, -1), Err(OverflowError));
    let probes = [(4i64, 6i64), (i64::MAX, 1), (i64::MIN, -1), (i64::MAX, i64::MIN)];
    for (x, y) in probes {
        assert_eq!(addi_res(x, y).is_ok(), !addi(x, y).1);
    }
}

#[test]
fn sub_res_succeeds_exactly_without_overflow() {
    assert_eq!(subi_res(4, 6), Ok(-2));
    assert_eq!(subi_res(i64::MIN, 1), Err(OverflowError));
    assert_eq!(subi_res(i64::MAX, -1), Err(OverflowError));
}

#[test]
fn mul_res_succeeds_exactly_without_overflow() {
    assert_eq!(multi_res(3, 4), Ok(12));
    assert_eq!(multi_res(i64::MAX, 2), Err(OverflowError));
    assert_eq!(multi_res(i64::MIN, -1), Err(OverflowError));
}

#[test]
fn overflow_error_has_a_message() {
    let err = addi_res(i64::MAX, 1).unwrap_err();
    assert!(!err.message().is_empty());
}
