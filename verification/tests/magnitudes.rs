//! Firmware-version parsing, decimal magnitudes under unit checks, and the
//! asset-tag padding strip.

use liebert_mpx::FWVersion;
use liebert_mpx::MPXError;
use liebert_mpx::TableValue;
use liebert_mpx::text::strip_nbsp;
use liebert_mpx::text::u32_to_string;

#[test]
fn fw_version_four_components() {
    assert_eq!(
        FWVersion::from_str("1-2-3-4").unwrap(),
        FWVersion { p0: 1, p1: 2, p2: 3, p3: 4 }
    );
    assert_eq!(
        FWVersion::from_str("0-0-0-0").unwrap(),
        FWVersion { p0: 0, p1: 0, p2: 0, p3: 0 }
    );
    assert_eq!(
        FWVersion::from_str("255-10-0-9").unwrap(),
        FWVersion { p0: 255, p1: 10, p2: 0, p3: 9 }
    );
}

#[test]
fn fw_version_wrong_component_count_fails() {
    assert!(matches!(
        FWVersion::from_str("1-2-3"),
        Err(MPXError::MissingDataError(_))
    ));
    assert!(matches!(
        FWVersion::from_str("1-2-3-4-5"),
        Err(MPXError::MissingDataError(_))
    ));
    assert!(matches!(
        FWVersion::from_str(""),
        Err(MPXError::MissingDataError(_))
    ));
    assert!(matches!(
        FWVersion::from_str("1.2.3.4"),
        Err(MPXError::MissingDataError(_))
    ));
}

#[test]
fn fw_version_non_numeric_component_fails() {
    assert!(matches!(
        FWVersion::from_str("a-b-c-d"),
        Err(MPXError::ParseIntError)
    ));
    assert!(matches!(
        FWVersion::from_str("1-2-3-x"),
        Err(MPXError::ParseIntError)
    ));
    assert!(matches!(
        FWVersion::from_str("256-2-3-4"),
        Err(MPXError::ParseIntError)
    ));
    assert!(matches!(
        FWVersion::from_str("1--3-4"),
        Err(MPXError::ParseIntError)
    ));
}

#[test]
fn fw_version_dotted_rendering() {
    let v = FWVersion { p0: 1, p1: 22, p2: 0, p3: 255 };
    assert_eq!(v.to_string(), "1.22.0.255");
}

#[test]
fn table_value_u32_checks_unit_first() {
    let tv = TableValue { value: "110".to_string(), unit: "%".to_string() };
    assert_eq!(tv.get_u32("%").unwrap(), 110);
    assert!(matches!(tv.get_u32("VAC"), Err(MPXError::EnumParseError(_))));
}

#[test]
fn table_value_u32_rejects_malformed_magnitudes() {
    let bad = TableValue { value: "11x".to_string(), unit: "%".to_string() };
    assert!(matches!(bad.get_u32("%"), Err(MPXError::ParseIntError)));
    let empty = TableValue { value: "".to_string(), unit: "%".to_string() };
    assert!(matches!(empty.get_u32("%"), Err(MPXError::ParseIntError)));
    let frac = TableValue { value: "1.5".to_string(), unit: "%".to_string() };
    assert!(matches!(frac.get_u32("%"), Err(MPXError::ParseIntError)));
    let huge = TableValue { value: "4294967296".to_string(), unit: "%".to_string() };
    assert!(matches!(huge.get_u32("%"), Err(MPXError::ParseIntError)));
    let max = TableValue { value: "4294967295".to_string(), unit: "%".to_string() };
    assert_eq!(max.get_u32("%").unwrap(), u32::MAX);
    let plus = TableValue { value: "+42".to_string(), unit: "%".to_string() };
    assert_eq!(plus.get_u32("%").unwrap(), 42);
}

#[test]
fn table_value_magnitude_hands_text_out() {
    let tv = TableValue { value: "23.42".to_string(), unit: "kWH".to_string() };
    assert_eq!(tv.get_magnitude("kWH").unwrap(), "23.42");
    assert!(matches!(tv.get_magnitude("W"), Err(MPXError::EnumParseError(_))));
}

#[test]
fn nbsp_padding_is_stripped() {
    assert_eq!(strip_nbsp("A-123&nbsp;"), "A-123");
    assert_eq!(strip_nbsp("&nbsp;&nbsp;"), "");
    assert_eq!(strip_nbsp("&nbsp"), "&nbsp");
    assert_eq!(strip_nbsp("a&nbsp;b&nbsp;c"), "abc");
    assert_eq!(strip_nbsp(""), "");
}

#[test]
fn decimal_rendering() {
    assert_eq!(u32_to_string(0), "0");
    assert_eq!(u32_to_string(7), "7");
    assert_eq!(u32_to_string(110), "110");
    assert_eq!(u32_to_string(4294967295), "4294967295");
}
