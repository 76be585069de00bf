use packetmon::config::{device_index_from_choice, validate_options, ConfigError};

#[test]
fn verbose_with_interactive_is_rejected() {
    assert_eq!(
        validate_options(true, true, false, false),
        Err(ConfigError::VerboseWithInteractive)
    );
    assert_eq!(
        validate_options(true, true, true, true),
        Err(ConfigError::VerboseWithInteractive)
    );
}

#[test]
fn clear_without_export_is_rejected() {
    assert_eq!(
        validate_options(false, false, false, true),
        Err(ConfigError::ClearWithoutExport)
    );
    assert_eq!(
        validate_options(true, false, false, true),
        Err(ConfigError::ClearWithoutExport)
    );
}

#[test]
fn valid_option_combinations_pass() {
    assert_eq!(validate_options(false, false, false, false), Ok(()));
    assert_eq!(validate_options(true, false, false, false), Ok(()));
    assert_eq!(validate_options(false, true, false, false), Ok(()));
    assert_eq!(validate_options(false, false, true, true), Ok(()));
    assert_eq!(validate_options(true, false, true, true), Ok(()));
}

#[test]
fn device_choice_must_be_one_based_and_in_range() {
    assert_eq!(device_index_from_choice(0, 3), None);
    assert_eq!(device_index_from_choice(1, 3), Some(0));
    assert_eq!(device_index_from_choice(2, 3), Some(1));
    assert_eq!(device_index_from_choice(3, 3), Some(2));
    assert_eq!(device_index_from_choice(4, 3), None);
    assert_eq!(device_index_from_choice(1, 0), None);
}
