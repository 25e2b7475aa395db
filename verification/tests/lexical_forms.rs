use std::cmp::Ordering;
use std::collections::hash_map::DefaultHasher;
use std::hash::{Hash, Hasher};
use xsd_types::lexical::{check, check_bytes, Overflow, Sign, UnsignedInteger, UnsignedIntegerBuf};

fn hash_of<T: Hash>(t: &T) -> u64 {
    let mut h = DefaultHasher::new();
    t.hash(&mut h);
    h.finish()
}

#[test]
fn check_accepts_exactly_the_lexical_space() {
    for ok in ["0", "7", "+0", "+42", "007", "+007", "4294967295", "+0004294967295"] {
        assert!(check_bytes(ok.as_bytes()), "{ok}");
        assert!(check(ok.as_bytes()), "{ok}");
    }
    for bad in [
        "", "+", "-", "-0", "-00", "++1", "+-1", "1+", "12a", " 1", "1 ", "1.0", "٣",
        "4294967296", "+04294967296", "18446744073709551616", "99999999999999999999999",
    ] {
        assert!(!check_bytes(bad.as_bytes()), "{bad}");
        assert!(!check(bad.as_bytes()), "{bad}");
    }
}

#[test]
fn new_keeps_the_input_and_reports_it_on_error() {
    assert_eq!(UnsignedInteger::new("+007").unwrap().as_str(), "+007");
    let err = UnsignedInteger::new("-0").unwrap_err();
    assert_eq!(err.0, "-0");
    let err = UnsignedIntegerBuf::new("x1".to_string()).unwrap_err();
    assert_eq!(err.0, "x1");
}

#[test]
fn canonical_strips_sign_and_leading_zeros() {
    assert_eq!(UnsignedInteger::new("+007").unwrap().canonical().as_str(), "7");
    assert_eq!(UnsignedInteger::new("0000").unwrap().canonical().as_str(), "0");
    assert_eq!(UnsignedInteger::new("+0").unwrap().canonical().as_str(), "0");
    assert_eq!(UnsignedInteger::new("100").unwrap().canonical().as_str(), "100");
    assert_eq!(UnsignedInteger::new("+0100").unwrap().canonical().as_str(), "100");
    // Taking the canonical form twice changes nothing.
    let once = UnsignedInteger::new("+000120").unwrap().canonical();
    assert_eq!(once.canonical().as_str(), once.as_str());
}

#[test]
fn zero_positive_and_sign_agree() {
    for s in ["0", "+0", "000", "+000"] {
        let v = UnsignedInteger::new(s).unwrap();
        assert!(v.is_zero());
        assert!(!v.is_positive());
        assert_eq!(v.sign(), Sign::Zero);
    }
    for s in ["1", "+01", "10", "+0900"] {
        let v = UnsignedInteger::new(s).unwrap();
        assert!(!v.is_zero());
        assert!(v.is_positive());
        assert_eq!(v.sign(), Sign::Positive);
    }
}

#[test]
fn order_is_numeric() {
    let a = UnsignedInteger::new("099").unwrap();
    let b = UnsignedInteger::new("+100").unwrap();
    assert_eq!(a.cmp(&b), Ordering::Less);
    assert_eq!(b.cmp(&a), Ordering::Greater);
    assert_eq!(a.partial_cmp(&b), Some(Ordering::Less));
    let c = UnsignedInteger::new("199").unwrap();
    let d = UnsignedInteger::new("191").unwrap();
    assert!(d < c);
    assert!(UnsignedInteger::new("0").unwrap() == UnsignedInteger::new("+0000").unwrap());
    assert!(UnsignedInteger::new("10").unwrap() != UnsignedInteger::new("01").unwrap());
}

#[test]
fn equal_forms_hash_alike() {
    let a = UnsignedInteger::new("+001").unwrap();
    let b = UnsignedInteger::new("1").unwrap();
    assert_eq!(hash_of(&a), hash_of(&b));
    let c = UnsignedIntegerBuf::from_str("0042").unwrap();
    let d = UnsignedIntegerBuf::from_str("42").unwrap();
    assert_eq!(hash_of(&c), hash_of(&d));
}

#[test]
fn owned_forms() {
    let buf = UnsignedIntegerBuf::new("+12".to_string()).unwrap();
    assert_eq!(buf.as_str(), "+12");
    assert_eq!(buf.as_unsigned_integer().canonical().as_str(), "12");
    assert_eq!(buf.into_string(), "+12");
    assert_eq!(UnsignedIntegerBuf::default().as_str(), "0");
    assert!(UnsignedIntegerBuf::zero() < UnsignedIntegerBuf::one());
    assert_eq!(UnsignedIntegerBuf::from_str("+1").unwrap(), UnsignedIntegerBuf::one());
    assert!("abc".parse::<UnsignedIntegerBuf>().is_err());
    assert_eq!("0042".parse::<UnsignedIntegerBuf>().unwrap().as_str(), "0042");
}

#[test]
fn from_primitive_spells_canonically() {
    assert_eq!(UnsignedIntegerBuf::from(0u8).as_str(), "0");
    assert_eq!(UnsignedIntegerBuf::from(7u16).as_str(), "7");
    assert_eq!(UnsignedIntegerBuf::from(1234u32).as_str(), "1234");
    assert_eq!(UnsignedIntegerBuf::from(u32::MAX).as_str(), "4294967295");
    assert_eq!(UnsignedIntegerBuf::try_from(4294967295u64).unwrap().as_str(), "4294967295");
    assert_eq!(UnsignedIntegerBuf::try_from(4294967296u64).unwrap_err(), Overflow);
    assert_eq!(UnsignedIntegerBuf::try_from(u128::MAX).unwrap_err(), Overflow);
    assert_eq!(UnsignedIntegerBuf::try_from(100usize).unwrap().as_str(), "100");
    assert_eq!(UnsignedIntegerBuf::try_from(-1i8).unwrap_err(), Overflow);
    assert_eq!(UnsignedIntegerBuf::try_from(i64::MIN).unwrap_err(), Overflow);
    assert_eq!(UnsignedIntegerBuf::try_from(42i16).unwrap().as_str(), "42");
    assert_eq!(UnsignedIntegerBuf::try_from(0i32).unwrap().as_str(), "0");
    assert_eq!(UnsignedIntegerBuf::try_from(4294967295i64).unwrap().as_str(), "4294967295");
    assert_eq!(UnsignedIntegerBuf::try_from(4294967296i128).unwrap_err(), Overflow);
    assert_eq!(UnsignedIntegerBuf::try_from(9isize).unwrap().as_str(), "9");
}

#[test]
fn try_into_primitive_checks_range() {
    assert_eq!(u8::try_from(&UnsignedInteger::new("255").unwrap()), Ok(255u8));
    assert_eq!(u8::try_from(&UnsignedInteger::new("256").unwrap()), Err(Overflow));
    assert_eq!(i8::try_from(UnsignedInteger::new("+127").unwrap()), Ok(127i8));
    assert_eq!(i8::try_from(UnsignedInteger::new("128").unwrap()), Err(Overflow));
    assert_eq!(u16::try_from(UnsignedIntegerBuf::from_str("+0042").unwrap()), Ok(42u16));
    assert_eq!(u32::try_from(UnsignedIntegerBuf::from(u32::MAX)), Ok(u32::MAX));
    assert_eq!(i32::try_from(UnsignedIntegerBuf::from(u32::MAX)), Err(Overflow));
    assert_eq!(i32::try_from(UnsignedIntegerBuf::from(2147483647u32)), Ok(i32::MAX));
    assert_eq!(u128::try_from(UnsignedIntegerBuf::from(7u8)), Ok(7u128));
    assert_eq!(i128::try_from(UnsignedIntegerBuf::from(u32::MAX)), Ok(4294967295i128));
    assert_eq!(
        u64::try_from(&UnsignedInteger::new("000000000000000000000000000000000000000042").unwrap()),
        Ok(42u64)
    );
    assert_eq!(i64::try_from(UnsignedIntegerBuf::from(u32::MAX)), Ok(4294967295i64));
    assert_eq!(usize::try_from(UnsignedIntegerBuf::from(9u8)), Ok(9usize));
    assert_eq!(isize::try_from(UnsignedIntegerBuf::zero()), Ok(0isize));
    assert_eq!(i16::try_from(UnsignedIntegerBuf::from(32767u16)), Ok(32767i16));
    assert_eq!(i16::try_from(UnsignedIntegerBuf::from(32768u16)), Err(Overflow));
    assert_eq!(u16::try_from(UnsignedIntegerBuf::from(65536u32)), Err(Overflow));
}

#[test]
fn to_u128_reads_the_digits() {
    assert_eq!(UnsignedInteger::new("+00123").unwrap().to_u128(), Some(123));
    assert_eq!(UnsignedInteger::new("4294967295").unwrap().to_u128(), Some(4294967295));
}
