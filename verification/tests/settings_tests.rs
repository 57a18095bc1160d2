use mountain_terrain::settings::{
    validate_erosion_settings, validate_noise_settings, SettingsError,
};

#[test]
fn zero_octaves_are_rejected() {
    assert_eq!(validate_noise_settings(0).unwrap_err(), SettingsError::InvalidOctaves);
}

#[test]
fn one_or_more_octaves_are_accepted() {
    assert!(validate_noise_settings(1).is_ok());
    assert!(validate_noise_settings(8).is_ok());
}

#[test]
fn non_positive_erosion_radius_is_rejected() {
    assert_eq!(validate_erosion_settings(0, true).unwrap_err(), SettingsError::InvalidRadius);
    assert_eq!(validate_erosion_settings(-3, true).unwrap_err(), SettingsError::InvalidRadius);
    // the radius error takes precedence over a speed error
    assert_eq!(validate_erosion_settings(0, false).unwrap_err(), SettingsError::InvalidRadius);
}

#[test]
fn negative_speeds_are_rejected() {
    assert_eq!(validate_erosion_settings(3, false).unwrap_err(), SettingsError::NegativeSpeed);
}

#[test]
fn valid_erosion_settings_are_accepted() {
    assert!(validate_erosion_settings(1, true).is_ok());
    assert!(validate_erosion_settings(3, true).is_ok());
}
