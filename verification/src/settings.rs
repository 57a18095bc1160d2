//! Validation of externally supplied configuration.
//!
//! Invalid configuration (too few octaves, a non-positive erosion radius, a
//! negative speed) is the only class of user-facing error in the core: it is
//! rejected here, before any simulation tick runs.

use vstd::prelude::*;

verus! {

/// Why a configuration value was rejected.
#[derive(Clone, Copy, Debug, PartialEq, Eq, Structural)]
pub enum SettingsError {
    /// Fractal synthesis needs at least one octave.
    InvalidOctaves,
    /// The erosion brush needs a radius of at least one cell.
    InvalidRadius,
    /// Erosion speeds, evaporation and the like must not be negative.
    NegativeSpeed,
}

/// Accepts a fractal-synthesis configuration exactly when it has at least one
/// octave.
pub fn validate_noise_settings(num_octaves: u32) -> (r: Result<(), SettingsError>)
    ensures
        r is Ok <==> num_octaves >= 1,
        r is Err ==> r == Result::<(), SettingsError>::Err(SettingsError::InvalidOctaves),
{
    if num_octaves >= 1 {
        Ok(())
    } else {
        Err(SettingsError::InvalidOctaves)
    }
}

/// Accepts an erosion configuration exactly when the brush radius is at least
/// one and every speed-like quantity is non-negative. The caller evaluates the
/// sign checks on its own scalar fields and passes the conjunction in
/// `speeds_nonnegative`.
pub fn validate_erosion_settings(erosion_radius: i32, speeds_nonnegative: bool) -> (r: Result<
    (),
    SettingsError,
>)
    ensures
        r is Ok <==> erosion_radius >= 1 && speeds_nonnegative,
        erosion_radius < 1 ==> r == Result::<(), SettingsError>::Err(SettingsError::InvalidRadius),
        erosion_radius >= 1 && !speeds_nonnegative ==> r == Result::<(), SettingsError>::Err(
            SettingsError::NegativeSpeed,
        ),
{
    if erosion_radius < 1 {
        Err(SettingsError::InvalidRadius)
    } else if !speeds_nonnegative {
        Err(SettingsError::NegativeSpeed)
    } else {
        Ok(())
    }
}

} // verus!
