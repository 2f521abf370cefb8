//! The engine's speed presets.

use vstd::prelude::*;

verus! {

/// An encoder preset, which should handle most of the configuration.
///
/// From fastest and least thorough to slowest and most thorough.
#[derive(Clone, Copy, Debug, PartialEq, Eq, Hash, Structural)]
pub enum Preset {
    Ultrafast,
    Superfast,
    Veryfast,
    Faster,
    Fast,
    Medium,
    Slow,
    Slower,
    Veryslow,
    Placebo,
}

impl Preset {
    /// The identifier that the engine knows the preset by.
    pub open spec fn spec_name(self) -> Seq<char> {
        match self {
            Preset::Ultrafast => "ultrafast"@,
            Preset::Superfast => "superfast"@,
            Preset::Veryfast => "veryfast"@,
            Preset::Faster => "faster"@,
            Preset::Fast => "fast"@,
            Preset::Medium => "medium"@,
            Preset::Slow => "slow"@,
            Preset::Slower => "slower"@,
            Preset::Veryslow => "veryslow"@,
            Preset::Placebo => "placebo"@,
        }
    }

    /// The identifier that the engine knows the preset by.
    pub fn name(self) -> (name: &'static str)
        ensures
            name@ == self.spec_name(),
    {
        match self {
            Preset::Ultrafast => "ultrafast",
            Preset::Superfast => "superfast",
            Preset::Veryfast => "veryfast",
            Preset::Faster => "faster",
            Preset::Fast => "fast",
            Preset::Medium => "medium",
            Preset::Slow => "slow",
            Preset::Slower => "slower",
            Preset::Veryslow => "veryslow",
            Preset::Placebo => "placebo",
        }
    }
}

} // verus!
