use meshflash::errors::FlashError;
use meshflash::version::{format_firmware_version, parse_firmware_version, FirmwareVersion};

#[test]
fn parses_plain_version_with_hash() {
    let v = parse_firmware_version(&"2.5.1.abc1234".to_string()).unwrap();
    assert_eq!(v.major_version, 2);
    assert_eq!(v.minor_version, 5);
    assert_eq!(v.patch_version, 1);
    assert_eq!(v.version_hash, "abc1234");
}

#[test]
fn rejects_non_version() {
    let r = parse_firmware_version(&"not-a-version".to_string());
    assert_eq!(
        r,
        Err(FlashError::MalformedVersion { input: "not-a-version".to_string() })
    );
}

#[test]
fn rejects_empty_input() {
    let r = parse_firmware_version(&"".to_string());
    assert_eq!(r, Err(FlashError::MalformedVersion { input: "".to_string() }));
}

#[test]
fn parses_v_prefixed_version() {
    let v = parse_firmware_version(&"v1.2.3.d00d".to_string()).unwrap();
    assert_eq!(v.major_version, 1);
    assert_eq!(v.minor_version, 2);
    assert_eq!(v.patch_version, 3);
    assert_eq!(v.version_hash, "d00d");
}

#[test]
fn finds_leftmost_match_inside_longer_text() {
    let v = parse_firmware_version(&"firmware-2.5.1.abc1234".to_string()).unwrap();
    assert_eq!(v.major_version, 2);
    assert_eq!(v.minor_version, 5);
    assert_eq!(v.patch_version, 1);
    assert_eq!(v.version_hash, "abc1234");
}

#[test]
fn missing_build_suffix_is_a_hard_failure() {
    let r = parse_firmware_version(&"1.2.3".to_string());
    assert_eq!(r, Err(FlashError::MissingBuild { input: "1.2.3".to_string() }));
    let r = parse_firmware_version(&"1.2.3.".to_string());
    assert_eq!(r, Err(FlashError::MissingBuild { input: "1.2.3.".to_string() }));
    let r = parse_firmware_version(&"1.2.3.RC".to_string());
    assert_eq!(r, Err(FlashError::MissingBuild { input: "1.2.3.RC".to_string() }));
}

#[test]
fn numeric_component_overflow_is_reported() {
    let r = parse_firmware_version(&"99999999999.1.2.abc".to_string());
    assert_eq!(
        r,
        Err(FlashError::NumericOverflow { input: "99999999999.1.2.abc".to_string() })
    );
    let v = parse_firmware_version(&"4294967295.0.0.ff".to_string()).unwrap();
    assert_eq!(v.major_version, u32::MAX);
}

#[test]
fn hexadecimal_reading_of_build_wins_over_label() {
    let v = parse_firmware_version(&"2.0.0.alpha-1".to_string()).unwrap();
    assert_eq!(v.version_hash, "a");
}

#[test]
fn label_build_is_captured_when_it_starts_with_a_non_hex_letter() {
    let v = parse_firmware_version(&"2.0.0.rc-one".to_string()).unwrap();
    assert_eq!(v.version_hash, "rc-one");
}

#[test]
fn format_then_parse_round_trips() {
    let v = FirmwareVersion {
        major_version: 2,
        minor_version: 5,
        patch_version: 1,
        version_hash: "abc1234".to_string(),
    };
    let s = format_firmware_version(&v);
    assert_eq!(s, "2.5.1.abc1234");
    let w = parse_firmware_version(&s).unwrap();
    assert_eq!(w, v);
}

#[test]
fn parse_format_parse_is_idempotent_on_v_prefixed_input() {
    let first = parse_firmware_version(&"v2.5.1.abc1234".to_string()).unwrap();
    let formatted = format_firmware_version(&first);
    assert_eq!(formatted, "2.5.1.abc1234");
    let second = parse_firmware_version(&formatted).unwrap();
    assert_eq!(second, first);
    assert_eq!(format_firmware_version(&second), formatted);
}
