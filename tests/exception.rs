use aarch64_rt::{ExceptionLevel, LevelSelection, VectorConfig, VectorError};

fn detect() -> VectorConfig {
    VectorConfig::from_switches(true, false, false, false).unwrap()
}

#[test]
fn single_level_switch_is_accepted() {
    let c = VectorConfig::from_switches(true, true, false, false).unwrap();
    assert_eq!(c.selection, LevelSelection::Fixed(ExceptionLevel::El1));
    let c = VectorConfig::from_switches(true, false, true, false).unwrap();
    assert_eq!(c.selection, LevelSelection::Fixed(ExceptionLevel::El2));
    let c = VectorConfig::from_switches(false, false, false, true).unwrap();
    assert_eq!(c.selection, LevelSelection::Fixed(ExceptionLevel::El3));
    assert!(!c.exceptions);
    assert_eq!(detect().selection, LevelSelection::Detect);
}

#[test]
fn two_or_more_level_switches_are_rejected() {
    for (a, b, c) in [
        (true, true, false),
        (true, false, true),
        (false, true, true),
        (true, true, true),
    ] {
        assert_eq!(
            VectorConfig::from_switches(true, a, b, c),
            Err(VectorError::ConflictingLevels)
        );
        assert_eq!(
            VectorConfig::from_switches(false, a, b, c),
            Err(VectorError::ConflictingLevels)
        );
    }
}

#[test]
fn detected_level_selects_matching_table() {
    let c = detect();
    assert!(c.reads_current_el());
    assert_eq!(c.vector_table(1 << 2), Ok(Some(ExceptionLevel::El1)));
    assert_eq!(c.vector_table(2 << 2), Ok(Some(ExceptionLevel::El2)));
    assert_eq!(c.vector_table(3 << 2), Ok(Some(ExceptionLevel::El3)));
    // Bits outside the EL field are ignored.
    assert_eq!(c.vector_table(0xffff_fff0 | (2 << 2) | 0b11), Ok(Some(ExceptionLevel::El2)));
}

#[test]
fn out_of_range_level_is_fatal() {
    let c = detect();
    assert_eq!(c.vector_table(0), Err(VectorError::UnexpectedLevel(0)));
    assert_eq!(c.vector_table(0b0011), Err(VectorError::UnexpectedLevel(0)));
    assert_eq!(c.vector_table(0x10), Err(VectorError::UnexpectedLevel(0)));
}

#[test]
fn fixed_level_ignores_readout() {
    let c = VectorConfig::from_switches(true, false, true, false).unwrap();
    assert!(!c.reads_current_el());
    assert_eq!(c.vector_table(0), Ok(Some(ExceptionLevel::El2)));
    assert_eq!(c.vector_table(1 << 2), Ok(Some(ExceptionLevel::El2)));
}

#[test]
fn no_table_without_exceptions() {
    let c = VectorConfig::from_switches(false, false, false, false).unwrap();
    assert!(!c.reads_current_el());
    assert_eq!(c.vector_table(0), Ok(None));
    assert_eq!(c.vector_table(1 << 2), Ok(None));
}

#[test]
fn level_from_current_el_and_number() {
    assert_eq!(ExceptionLevel::from_current_el(1 << 2), Some(ExceptionLevel::El1));
    assert_eq!(ExceptionLevel::from_current_el(3 << 2), Some(ExceptionLevel::El3));
    assert_eq!(ExceptionLevel::from_current_el(0), None);
    assert_eq!(ExceptionLevel::from_number(2), Some(ExceptionLevel::El2));
    assert_eq!(ExceptionLevel::from_number(0), None);
    assert_eq!(ExceptionLevel::from_number(4), None);
}
