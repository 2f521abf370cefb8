//! The engine's tunings for kinds of source material.

use vstd::prelude::*;

verus! {

/// Specifies what type of video will be encoded, so that the encoder can
/// spend its bits where that kind of material shows them.
#[derive(Clone, Copy, Debug, PartialEq, Eq, Hash, Structural)]
pub enum Tune {
    /// No particular kind of material.
    Untuned,
    /// Live-action film.
    Film,
    /// Hand-drawn or rendered animation.
    Animation,
    /// Grainy material whose grain is to be kept.
    Grain,
    /// A slideshow of still images.
    StillImage,
    /// Best peak signal-to-noise ratio.
    Psnr,
    /// Best structural similarity.
    Ssim,
}

impl Tune {
    /// The identifier that the engine knows the tuning by; empty for
    /// [`Tune::Untuned`].
    pub open spec fn spec_name(self) -> Seq<char> {
        match self {
            Tune::Untuned => ""@,
            Tune::Film => "film"@,
            Tune::Animation => "animation"@,
            Tune::Grain => "grain"@,
            Tune::StillImage => "stillimage"@,
            Tune::Psnr => "psnr"@,
            Tune::Ssim => "ssim"@,
        }
    }

    /// The identifier that the engine knows the tuning by; empty for
    /// [`Tune::Untuned`].
    pub fn name(self) -> (name: &'static str)
        ensures
            name@ == self.spec_name(),
    {
        match self {
            Tune::Untuned => "",
            Tune::Film => "film",
            Tune::Animation => "animation",
            Tune::Grain => "grain",
            Tune::StillImage => "stillimage",
            Tune::Psnr => "psnr",
            Tune::Ssim => "ssim",
        }
    }
}

/// The identifier that the engine knows the tuning for decoders with little
/// computing power by, where that tuning is `on`; empty where it is not.
pub open spec fn spec_fast_decode_name(on: bool) -> Seq<char> {
    if on {
        "fastdecode"@
    } else {
        ""@
    }
}

/// The identifier that the engine knows the tuning for streaming without
/// delay by, where that tuning is `on`; empty where it is not.
pub open spec fn spec_zero_latency_name(on: bool) -> Seq<char> {
    if on {
        "zerolatency"@
    } else {
        ""@
    }
}

/// The identifier that the engine knows the tuning for decoders with little
/// computing power by, where that tuning is `on`; empty where it is not.
pub fn fast_decode_name(on: bool) -> (name: &'static str)
    ensures
        name@ == spec_fast_decode_name(on),
{
    if on {
        "fastdecode"
    } else {
        ""
    }
}

/// The identifier that the engine knows the tuning for streaming without
/// delay by, where that tuning is `on`; empty where it is not.
pub fn zero_latency_name(on: bool) -> (name: &'static str)
    ensures
        name@ == spec_zero_latency_name(on),
{
    if on {
        "zerolatency"
    } else {
        ""
    }
}

} // verus!
