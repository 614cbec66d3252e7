//! Player settings. The settings file itself is read and parsed outside
//! this crate; what arrives here are the plain values it contained. A
//! `Config` only exists with a volume on the scale the volume control
//! works with.

use crate::controls::VOLUME_MAX;
use vstd::prelude::*;

verus! {

/// Settings the player starts with: the seed volume for the output device,
/// in hundredths of full scale, and the directory a playlist may be
/// populated from.
pub struct Config {
    pub default_volume: u32,
    pub playlist_directory: String,
}

impl Config {
    /// The default volume lies on the volume scale.
    pub open spec fn well_formed(&self) -> bool {
        self.default_volume <= VOLUME_MAX
    }

    /// Builds a configuration from parsed settings values; a default
    /// volume beyond full scale is rejected.
    pub fn new(default_volume: u32, playlist_directory: String) -> (r: Option<Config>)
        ensures
            default_volume <= VOLUME_MAX ==> r == Some(
                (Config { default_volume, playlist_directory }),
            ),
            default_volume > VOLUME_MAX ==> r is None,
            r is Some ==> r->0.well_formed(),
    {
        if default_volume <= VOLUME_MAX {
            Some(Config { default_volume, playlist_directory })
        } else {
            None
        }
    }
}

} // verus!
