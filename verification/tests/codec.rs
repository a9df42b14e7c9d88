use rbfrt::codec::{canonicalize, UNCONSTRAINED_WIDTH};
use rbfrt::error::RBFRTError;

#[test]
fn canonicalize_strips_and_pads() {
    assert_eq!(canonicalize(vec![0, 0, 5], "f", 16).unwrap(), vec![0, 5]);
    assert_eq!(canonicalize(vec![5], "f", 32).unwrap(), vec![0, 0, 0, 5]);
    assert_eq!(canonicalize(vec![10, 0, 0, 2], "f", 32).unwrap(), vec![10, 0, 0, 2]);
}

#[test]
fn canonicalize_refuses_wide_value() {
    match canonicalize(vec![1, 2, 3], "f", 16) {
        Err(RBFRTError::ConvertError { value, name, width }) => {
            assert_eq!(value, vec![1, 2, 3]);
            assert_eq!(name, "f");
            assert_eq!(width, 16);
        }
        other => panic!("unexpected: {:?}", other),
    }
}

#[test]
fn canonicalize_error_carries_stripped_value() {
    match canonicalize(vec![0, 0, 9, 8], "port", 8) {
        Err(RBFRTError::ConvertError { value, name, width }) => {
            assert_eq!(value, vec![9, 8]);
            assert_eq!(name, "port");
            assert_eq!(width, 8);
        }
        other => panic!("unexpected: {:?}", other),
    }
}

#[test]
fn canonicalize_rounds_width_up_to_bytes() {
    assert_eq!(canonicalize(vec![1], "f", 9).unwrap(), vec![0, 1]);
    assert_eq!(canonicalize(vec![1], "f", 1).unwrap(), vec![1]);
    assert_eq!(canonicalize(vec![1, 2], "f", 9).unwrap(), vec![1, 2]);
    assert!(canonicalize(vec![1, 2, 3], "f", 9).is_err());
}

#[test]
fn canonicalize_of_zero_and_empty() {
    assert_eq!(canonicalize(vec![], "f", 16).unwrap(), vec![0, 0]);
    assert_eq!(canonicalize(vec![0, 0, 0, 0, 0], "f", 16).unwrap(), vec![0, 0]);
    assert_eq!(canonicalize(vec![0, 0], "f", 0).unwrap(), Vec::<u8>::new());
    assert!(canonicalize(vec![1], "f", 0).is_err());
}

#[test]
fn canonicalize_leaves_unconstrained_untouched() {
    assert_eq!(
        canonicalize(vec![0, 0, 104, 105], "f", UNCONSTRAINED_WIDTH).unwrap(),
        vec![0, 0, 104, 105]
    );
    assert_eq!(canonicalize(vec![], "f", UNCONSTRAINED_WIDTH).unwrap(), Vec::<u8>::new());
}
