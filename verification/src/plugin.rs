//! Settings of the spatial audio plugin.

use vstd::prelude::*;

verus! {

/// Settings of the spatial audio plugin: whether the debug gizmos
/// (attenuation spheres, obstruction rays, obstacle boxes) are drawn.
#[derive(Debug, Clone, Copy, PartialEq, Eq, Structural)]
pub struct SonusAudioPlugin {
    pub debug: bool,
}

impl Default for SonusAudioPlugin {
    fn default() -> (plugin: Self)
        ensures
            !plugin.debug,
    {
        SonusAudioPlugin { debug: false }
    }
}

impl SonusAudioPlugin {
    /// The default settings: no debug drawing.
    pub fn new() -> (plugin: Self)
        ensures
            !plugin.debug,
    {
        Self::default()
    }

    /// The same settings with debug drawing switched on.
    pub fn with_debug(self) -> (plugin: Self)
        ensures
            plugin.debug,
    {
        let mut plugin = self;
        plugin.debug = true;
        plugin
    }
}

} // verus!
