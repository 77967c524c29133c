//! The applet's persistent settings.

use vstd::prelude::*;

verus! {

/// Settings of the applet, as stored in the desktop's configuration.
#[derive(Debug, Clone, Copy, PartialEq, Eq, Structural)]
pub struct Config {
    /// The most characters a panel label line may show before it is cut.
    pub panel_label_max_length: u32,
    /// Show the track title before the artist.
    pub track_first: bool,
}

impl Default for Config {
    /// Labels of up to 30 characters, artist first.
    fn default() -> (c: Self)
        ensures
            c.panel_label_max_length == 30,
            !c.track_first,
    {
        Config { panel_label_max_length: 30, track_first: false }
    }
}

} // verus!
