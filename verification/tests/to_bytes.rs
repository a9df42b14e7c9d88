use rbfrt::error::RBFRTError;
use rbfrt::table::to_bytes::{
    be_decode, copy_bytes, to_bool, to_int_arr, to_ipv4, to_ipv6, to_string, to_text, to_u128, to_u32, to_u64,
    try_to_u128, try_to_u32, try_to_u64,
};
use rbfrt::table::ToBytes;

#[test]
fn integers_to_big_endian_bytes() {
    assert_eq!(7u8.to_bytes(), vec![7]);
    assert_eq!(0x1234u16.to_bytes(), vec![0x12, 0x34]);
    assert_eq!(0x0a000002u32.to_bytes(), vec![10, 0, 0, 2]);
    assert_eq!(u32::MAX.to_bytes(), vec![255, 255, 255, 255]);
    assert_eq!(0u32.to_bytes(), vec![0, 0, 0, 0]);
}

#[test]
fn signed_integers_to_twos_complement_bytes() {
    assert_eq!((-1i8).to_bytes(), (-1i8).to_be_bytes().to_vec());
    assert_eq!(i8::MIN.to_bytes(), i8::MIN.to_be_bytes().to_vec());
    assert_eq!(5i8.to_bytes(), vec![5]);
    assert_eq!((-2i16).to_bytes(), vec![0xff, 0xfe]);
    assert_eq!(i16::MIN.to_bytes(), i16::MIN.to_be_bytes().to_vec());
    assert_eq!(20i32.to_bytes(), vec![0, 0, 0, 20]);
    assert_eq!((-20i32).to_bytes(), (-20i32).to_be_bytes().to_vec());
    assert_eq!(i32::MIN.to_bytes(), i32::MIN.to_be_bytes().to_vec());
    assert_eq!(i32::MAX.to_bytes(), i32::MAX.to_be_bytes().to_vec());
}

#[test]
fn bool_text_and_octets_to_bytes() {
    assert_eq!(true.to_bytes(), vec![1]);
    assert_eq!(false.to_bytes(), vec![0]);
    assert_eq!("ab".to_bytes(), vec![97, 98]);
    assert_eq!(String::from("BF_SPEED_100G").to_bytes(), b"BF_SPEED_100G".to_vec());
    assert_eq!("é".to_bytes(), vec![0xc3, 0xa9]);
    assert_eq!([10u8, 0, 0, 2].to_bytes(), vec![10, 0, 0, 2]);
    let v6: [u8; 16] = [255, 0, 0, 0, 0, 0, 0, 0, 0, 0, 0, 0, 0, 0, 0, 1];
    assert_eq!(v6.to_bytes(), v6.to_vec());
    assert_eq!(vec![1u8, 2, 3].to_bytes(), vec![1, 2, 3]);
}

#[test]
fn words_to_bytes_and_back() {
    let words: Vec<u32> = vec![1, 0x01020304, u32::MAX];
    let bytes = words.to_bytes();
    assert_eq!(bytes, vec![0, 0, 0, 1, 1, 2, 3, 4, 255, 255, 255, 255]);
    assert_eq!(to_int_arr(&bytes), words);
    assert_eq!(to_int_arr(&vec![]), Vec::<u32>::new());
    assert_eq!(Vec::<u32>::new().to_bytes(), Vec::<u8>::new());
}

#[test]
fn bytes_to_numbers() {
    assert_eq!(to_u32(&vec![0, 0, 5]), 5);
    assert_eq!(to_u32(&vec![1, 0]), 256);
    assert_eq!(to_u32(&vec![0, 0, 0, 0, 0, 0, 255, 255, 255, 255]), u32::MAX);
    assert_eq!(to_u32(&vec![]), 0);
    assert_eq!(to_u64(&vec![1, 0, 0, 0, 0]), 1u64 << 32);
    assert_eq!(to_u64(&vec![255; 8]), u64::MAX);
    assert_eq!(to_u128(&vec![255; 16]), u128::MAX);
    assert_eq!(to_u128(&vec![0, 1, 0, 0, 0, 0, 0, 0, 0, 0]), 1u128 << 64);
    assert_eq!(be_decode(&vec![1, 2, 3]), 0x010203);
}

#[test]
fn bytes_to_bool() {
    assert!(!to_bool(&vec![]));
    assert!(!to_bool(&vec![0, 0, 0]));
    assert!(to_bool(&vec![0, 0, 4]));
    assert!(to_bool(&vec![1]));
}

#[test]
fn bytes_to_text() {
    assert_eq!(to_string(&b"BF_SPEED_10G".to_vec()), "BF_SPEED_10G");
    assert_eq!(to_text(&vec![0xc3, 0xa9]), Some(String::from("é")));
    assert_eq!(to_text(&vec![0xff, 0xfe]), None);
    assert_eq!(to_text(&vec![]), Some(String::new()));
}

#[test]
fn bytes_to_addresses() {
    assert_eq!(to_ipv4(&vec![192, 168, 0, 1]).unwrap(), [192, 168, 0, 1]);
    match to_ipv4(&vec![192, 168, 0]) {
        Err(RBFRTError::ByteConversionError { target, .. }) => assert_eq!(target, "Ipv4Addr"),
        other => panic!("unexpected: {:?}", other),
    }
    assert!(to_ipv4(&vec![0, 192, 168, 0, 1]).is_err());
    let v6 = vec![255u8, 255, 1, 2, 3, 4, 5, 6, 7, 8, 9, 10, 11, 12, 255, 1];
    assert_eq!(to_ipv6(&v6).unwrap().to_vec(), v6);
    match to_ipv6(&vec![1, 2, 3, 4]) {
        Err(RBFRTError::ByteConversionError { target, .. }) => assert_eq!(target, "Ipv6Addr"),
        other => panic!("unexpected: {:?}", other),
    }
}

#[test]
fn copy_is_equal() {
    assert_eq!(copy_bytes(&vec![3, 1, 4]), vec![3, 1, 4]);
}

#[test]
fn numbers_that_do_not_fit_are_refused() {
    assert_eq!(try_to_u32(&vec![0, 1, 2, 3, 4]).unwrap(), 0x01020304);
    assert_eq!(
        try_to_u32(&vec![1, 0, 0, 0, 0]).unwrap_err(),
        RBFRTError::ConvertError { value: vec![1, 0, 0, 0, 0], name: "to_u32 call".to_string(), width: 32 }
    );
    assert_eq!(try_to_u64(&vec![1; 8]).unwrap(), 0x0101010101010101);
    assert!(try_to_u64(&vec![1; 9]).is_err());
    assert_eq!(try_to_u128(&vec![0; 20]).unwrap(), 0);
    assert!(try_to_u128(&vec![1; 17]).is_err());
}
