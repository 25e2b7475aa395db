use num_bigint::BigUint;
use std::cmp::Ordering;
use std::str::FromStr;
use xsd_types::lexical::{UnsignedInteger as Lexical, UnsignedIntegerBuf};
use xsd_types::{
    NonNegativeIntegerDatatype, UnsignedIntDatatype, UnsignedInteger, UnsignedLongDatatype,
    UnsignedShortDatatype,
};

fn v(s: &str) -> UnsignedInteger {
    UnsignedInteger::from_str(s).unwrap()
}

/// A value of any size, through `BigUint`.
fn big(s: &str) -> UnsignedInteger {
    UnsignedInteger::new(BigUint::parse_bytes(s.as_bytes(), 10).unwrap())
}

#[test]
fn parse_and_print() {
    let n = v("+0004294967295");
    assert_eq!(n.lexical_representation().as_str(), "4294967295");
    assert_eq!(v("0").lexical_representation().as_str(), "0");
    assert_eq!(v("+0000").lexical_representation().as_str(), "0");
    assert_eq!(big("123456789012345678901234567890").to_decimal_string(), "123456789012345678901234567890");
    assert_eq!(UnsignedInteger::zero().to_decimal_string(), "0");
    assert!(UnsignedInteger::from_str("-1").is_err());
    assert!(UnsignedInteger::from_str("4294967296").is_err());
    assert!("12x".parse::<UnsignedInteger>().is_err());
    let l = Lexical::new("+0042").unwrap();
    assert_eq!(l.value(), UnsignedInteger::from(42u8));
    assert_eq!(UnsignedInteger::from(&l), UnsignedInteger::from(42u8));
    let b = UnsignedIntegerBuf::from_str("0077").unwrap();
    assert_eq!(b.value(), UnsignedInteger::from(77u32));
    assert_eq!(UnsignedInteger::from(b), UnsignedInteger::from(77u32));
    // Printing the value of a lexical form gives its canonical form.
    let l = Lexical::new("+000907").unwrap();
    assert_eq!(l.value().lexical_representation().as_str(), l.canonical().as_str());
}

#[test]
fn bytes() {
    let n = UnsignedInteger::from_bytes_le(&[0x39, 0x30, 0, 0]);
    assert_eq!(n, UnsignedInteger::from(12345u32));
    assert_eq!(n.to_bytes_le(), vec![0x39, 0x30]);
    assert_eq!(n.to_bytes_be(), vec![0x30, 0x39]);
    assert_eq!(UnsignedInteger::from_bytes_be(&[0, 0, 0x30, 0x39]), n);
    assert_eq!(UnsignedInteger::from_bytes_le(&[]), UnsignedInteger::zero());
    assert_eq!(UnsignedInteger::from_bytes_be(&[0, 0]).to_bytes_le(), vec![0]);
    assert_eq!(UnsignedInteger::zero().to_bytes_be(), vec![0]);
    let large = big("18446744073709551616");
    assert_eq!(large.to_bytes_le(), vec![0, 0, 0, 0, 0, 0, 0, 0, 1]);
    assert_eq!(UnsignedInteger::from_bytes_le(&large.to_bytes_le()), large);
    assert_eq!(UnsignedInteger::from_bytes_be(&large.to_bytes_be()), large);
}

#[test]
fn big_uint_conversions() {
    let n = UnsignedInteger::new(BigUint::from(300u32));
    assert_eq!(n, UnsignedInteger::from(300u16));
    assert_eq!(n.clone().into_big_uint(), BigUint::from(300u32));
    assert_eq!(UnsignedInteger::new_unchecked(BigUint::from(0u8)), UnsignedInteger::zero());
    let b = BigUint::parse_bytes(b"98765432109876543210", 10).unwrap();
    assert_eq!(UnsignedInteger::new(b.clone()).to_decimal_string(), "98765432109876543210");
    assert_eq!(big("98765432109876543210").into_big_uint(), b.clone());
    assert_eq!(BigUint::from(big("98765432109876543210")), b);
}

#[test]
fn zero_and_is_zero() {
    assert!(UnsignedInteger::zero().is_zero());
    assert!(v("+000").is_zero());
    assert!(!v("1").is_zero());
}

#[test]
fn datatypes() {
    let byte = NonNegativeIntegerDatatype::UnsignedLong(UnsignedLongDatatype::UnsignedInt(
        UnsignedIntDatatype::UnsignedShort(UnsignedShortDatatype::UnsignedByte),
    ));
    let short = NonNegativeIntegerDatatype::UnsignedLong(UnsignedLongDatatype::UnsignedInt(
        UnsignedIntDatatype::UnsignedShort(UnsignedShortDatatype::UnsignedShort),
    ));
    let int = NonNegativeIntegerDatatype::UnsignedLong(UnsignedLongDatatype::UnsignedInt(
        UnsignedIntDatatype::UnsignedInt,
    ));
    let long = NonNegativeIntegerDatatype::UnsignedLong(UnsignedLongDatatype::UnsignedLong);
    assert_eq!(v("0").unsigned_integer_type(), NonNegativeIntegerDatatype::NonNegativeInteger);
    assert_eq!(v("1").unsigned_integer_type(), byte);
    assert_eq!(v("255").unsigned_integer_type(), byte);
    assert_eq!(v("256").unsigned_integer_type(), short);
    assert_eq!(v("65535").unsigned_integer_type(), short);
    assert_eq!(v("65536").unsigned_integer_type(), int);
    assert_eq!(v("4294967295").unsigned_integer_type(), int);
    assert_eq!(big("4294967296").unsigned_integer_type(), long);
    assert_eq!(big("18446744073709551615").unsigned_integer_type(), long);
    assert_eq!(
        big("18446744073709551616").unsigned_integer_type(),
        NonNegativeIntegerDatatype::PositiveInteger
    );
}

#[test]
fn arithmetic() {
    assert_eq!(v("2") + v("3"), v("5"));
    assert_eq!(big("18446744073709551615") + v("1"), big("18446744073709551616"));
    assert_eq!(v("10") - v("3"), v("7"));
    assert_eq!(big("18446744073709551616") - v("1"), big("18446744073709551615"));
    assert_eq!(v("5") - v("5"), UnsignedInteger::zero());
    assert_eq!(big("4294967296") * big("4294967296"), big("18446744073709551616"));
    assert_eq!(v("7") * v("0"), UnsignedInteger::zero());
    assert_eq!(v("100") / v("7"), v("14"));
    assert_eq!(v("6") / v("7"), UnsignedInteger::zero());
    assert_eq!(v("2") + 3u8, v("5"));
    assert_eq!(v("2") + 3u16, v("5"));
    assert_eq!(v("2") + 3u32, v("5"));
    assert_eq!(v("2") + u64::MAX, big("18446744073709551617"));
    assert_eq!(v("2") + 3usize, v("5"));
    assert_eq!(v("10") - 4u8, v("6"));
    assert_eq!(v("10") - 4u64, v("6"));
    assert_eq!(v("10") * 4u32, v("40"));
    assert_eq!(v("10") * 0usize, v("0"));
    assert_eq!(v("10") / 4u16, v("2"));
    assert_eq!(v("10") / 11u64, v("0"));
    // Subtracting what was added gives the number back.
    let a = big("123456789123456789123456789");
    let b = big("987654321987654321");
    assert_eq!((a.clone() + b.clone()) - b.clone(), a.clone());
    assert_eq!((a.clone() * b.clone()) / b, a);
}

#[test]
fn order() {
    assert_eq!(v("10").cmp(&v("9")), Ordering::Greater);
    assert_eq!(v("9").cmp(&v("10")), Ordering::Less);
    assert_eq!(v("+09").cmp(&v("9")), Ordering::Equal);
    assert!(v("256") > v("255"));
    assert!(big("18446744073709551616") > big("18446744073709551615"));
    assert_ne!(v("1"), v("2"));
}

#[test]
fn try_into_primitive() {
    assert_eq!(u8::try_from(v("255")).unwrap(), 255u8);
    let err = u8::try_from(v("256")).unwrap_err();
    assert_eq!(err.0, v("256"));
    assert_eq!(i8::try_from(v("127")).unwrap(), 127i8);
    assert!(i8::try_from(v("128")).is_err());
    assert_eq!(u16::try_from(v("65535")).unwrap(), 65535u16);
    assert!(i16::try_from(v("32768")).is_err());
    assert_eq!(u32::try_from(v("4294967295")).unwrap(), u32::MAX);
    assert!(i32::try_from(v("2147483648")).is_err());
    assert_eq!(u64::try_from(big("18446744073709551615")).unwrap(), u64::MAX);
    assert!(u64::try_from(big("18446744073709551616")).is_err());
    assert!(i64::try_from(big("9223372036854775808")).is_err());
    assert_eq!(usize::try_from(v("12")).unwrap(), 12usize);
    assert_eq!(isize::try_from(v("12")).unwrap(), 12isize);
    assert_eq!(u64::try_from(UnsignedInteger::from(77u64)).unwrap(), 77u64);
}
