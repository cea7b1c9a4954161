use logistic_map::input::{decode, input_fits, normalize, EvalError, Input, TermShape};

#[test]
fn normalize_single_element_range() {
    let v = normalize(&Input::Range { first: 5, last: 5 });
    assert_eq!(v, vec![5]);
}

#[test]
fn normalize_empty_range() {
    let v = normalize(&Input::Range { first: 6, last: 5 });
    assert!(v.is_empty());
}

#[test]
fn normalize_range_is_ascending_and_inclusive() {
    let v = normalize(&Input::Range { first: -2, last: 3 });
    assert_eq!(v, vec![-2, -1, 0, 1, 2, 3]);
}

#[test]
fn normalize_list_keeps_order() {
    let v = normalize(&Input::List(vec![3, -1, 3, 0]));
    assert_eq!(v, vec![3, -1, 3, 0]);
}

#[test]
fn normalize_raw_bytes_zero_extends() {
    let v = normalize(&Input::RawBytes(vec![10, 255, 0]));
    assert_eq!(v, vec![10, 255, 0]);
}

#[test]
fn decode_accepts_range_struct() {
    match decode(TermShape::RangeStruct { first: 2, last: 9 }) {
        Ok(Input::Range { first, last }) => {
            assert_eq!(first, 2);
            assert_eq!(last, 9);
        }
        _ => panic!("range struct must decode to a range"),
    }
}

#[test]
fn decode_accepts_int_list() {
    match decode(TermShape::IntList(vec![1, 2, 3])) {
        Ok(Input::List(v)) => assert_eq!(v, vec![1, 2, 3]),
        _ => panic!("integer list must decode to a list"),
    }
}

#[test]
fn decode_rejects_other_shapes() {
    for shape in [TermShape::OtherMap, TermShape::MixedList, TermShape::Other] {
        match decode(shape) {
            Err(e) => assert_eq!(e, EvalError::InvalidInput),
            Ok(_) => panic!("shape must be rejected"),
        }
    }
}

#[test]
fn input_fits_rejects_oversized_range() {
    assert!(!input_fits(&Input::Range { first: i64::MIN, last: i64::MAX }));
    assert!(input_fits(&Input::Range { first: 0, last: 1000 }));
    assert!(input_fits(&Input::Range { first: 1, last: 0 }));
    assert!(input_fits(&Input::List(vec![1, 2, 3])));
}
