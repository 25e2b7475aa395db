use std::cmp::Ordering;
use xsd_types::lexical::UnsignedInteger;

#[test]
fn parse_01() {
    UnsignedInteger::new("0").unwrap();
}

#[test]
fn parse_02() {
    UnsignedInteger::new("+42").unwrap();
}

#[test]
#[should_panic]
fn parse_03() {
    UnsignedInteger::new("-42").unwrap();
}

#[test]
fn canonical_01() {
    assert_eq!(UnsignedInteger::new("01").unwrap().canonical().as_str(), "1")
}

#[test]
fn canonical_02() {
    assert_eq!(UnsignedInteger::new("00").unwrap().canonical().as_str(), "0")
}

#[test]
fn canonical_03() {
    assert_eq!(
        UnsignedInteger::new("+00000").unwrap().canonical().as_str(),
        "0"
    )
}

#[test]
fn eq_01() {
    assert_eq!(
        UnsignedInteger::new("+001").unwrap(),
        UnsignedInteger::new("1").unwrap()
    )
}

#[test]
fn cmp_01() {
    assert!(UnsignedInteger::new("123").unwrap() < UnsignedInteger::new("456").unwrap())
}

#[test]
fn cmp_02() {
    assert!(UnsignedInteger::new("1230").unwrap() > UnsignedInteger::new("456").unwrap())
}

#[test]
fn cmp_03() {
    assert_eq!(
        UnsignedInteger::new("+123456")
            .unwrap()
            .cmp(&UnsignedInteger::new("0000123456").unwrap()),
        Ordering::Equal
    )
}
