use merging_image::float_bits::{F32Bits, F64Bits, F64_1, F64_10, F64_HALF};
use merging_image::text::{
    bool_str, decimal_string, hex_string, i32_decimal_string, join2, join3, str_eq, zero_padded_decimal,
};

#[test]
fn number_formats() {
    for n in [0u64, 7, 10, 1234567890, u64::MAX] {
        assert_eq!(decimal_string(n), format!("{}", n));
    }
    for n in [0u32, 9, 0x1f, 0xdead_beef, u32::MAX] {
        assert_eq!(hex_string(n), format!("{:x}", n));
    }
    for i in [0i32, -1, 42, i32::MIN, i32::MAX] {
        assert_eq!(i32_decimal_string(i), format!("{}", i));
    }
    assert_eq!(zero_padded_decimal(7, 6), "000007");
    assert_eq!(zero_padded_decimal(1234567, 6), "1234567");
    assert_eq!(bool_str(true), "true");
    assert_eq!(bool_str(false), "false");
}

#[test]
fn joins_and_equality() {
    assert_eq!(join2("ab", "cd"), "abcd");
    assert_eq!(join3("a", "", "c"), "ac");
    assert!(str_eq("相机", "相机"));
    assert!(!str_eq("a", "ab"));
}

#[test]
fn float_encodings() {
    assert_eq!(F64_1, 1.0f64.to_bits());
    assert_eq!(F64_10, 10.0f64.to_bits());
    assert_eq!(F64_HALF, 0.5f64.to_bits());
    let one = F64Bits::from_bits(F64_1);
    let ten = F64Bits::from_bits(F64_10);
    let neg = one.negated();
    assert_eq!(f64::from_bits(neg.bits), -1.0);
    assert!(one.less_than(&ten));
    assert!(!ten.less_than(&one));
    assert!(neg.less_than(&one));
    assert!(one.at_most(&one));
    let nan = F64Bits::from_bits(f64::NAN.to_bits());
    assert!(nan.is_nan());
    assert!(!nan.less_than(&one) && !one.less_than(&nan) && !nan.at_most(&nan));
    let zero = F64Bits::zero();
    let negzero = zero.negated();
    assert!(zero.at_most(&negzero) && negzero.at_most(&zero) && !negzero.less_than(&zero));
    assert_eq!(F32Bits::from_bits(0.5f32.to_bits()).bits, 0x3f00_0000);
}
