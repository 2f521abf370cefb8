//! The parameter builder: it accumulates an encoder's configuration and
//! finalizes it into the parameters that the engine is opened with.

use vstd::prelude::*;
use crate::colorspace::Encoding;

pub mod preset;
pub mod tune;

pub use self::preset::Preset;
pub use self::tune::{fast_decode_name, zero_latency_name, Tune};

verus! {

/// What a configuration starts from, before any setting is made.
#[derive(Clone, Copy, Debug, PartialEq, Eq, Structural)]
pub enum Base {
    /// The engine's default parameters.
    Default,
    /// The engine's parameters for a preset and a tuning.
    Preset {
        /// The speed preset.
        preset: Preset,
        /// The kind of material to tune for.
        tune: Tune,
        /// Whether to tune for decoders with little computing power.
        fast_decode: bool,
        /// Whether to tune for streaming without delay.
        zero_latency: bool,
    },
}

/// The profiles that a stream can be held to.
#[derive(Clone, Copy, Debug, PartialEq, Eq, Hash, Structural)]
pub enum Profile {
    /// The lowest profile, with guaranteed compatibility with all decoders.
    Baseline,
    /// A middle ground between the baseline and high profiles.
    Main,
    /// The highest profile, which almost all decoders support.
    High,
}

impl Profile {
    /// The identifier that the engine knows the profile by.
    pub open spec fn spec_name(self) -> Seq<char> {
        match self {
            Profile::Baseline => "baseline"@,
            Profile::Main => "main"@,
            Profile::High => "high"@,
        }
    }

    /// The identifier that the engine knows the profile by.
    pub fn name(self) -> (name: &'static str)
        ensures
            name@ == self.spec_name(),
    {
        match self {
            Profile::Baseline => "baseline",
            Profile::Main => "main",
            Profile::High => "high",
        }
    }
}

/// How the encoder spends its bits. The two ways exclude each other.
#[derive(Clone, Copy, Debug, PartialEq, Eq, Hash, Structural)]
pub enum RateControl {
    /// Aim at an average bitrate, in metric kilobits per second.
    Bitrate {
        /// The bitrate aimed at.
        average: i32,
    },
    /// Aim at a constant rate factor. Both numbers are 32-bit IEEE 754 values,
    /// held by their bit patterns.
    Crf {
        /// The rate factor aimed at.
        target: u32,
        /// The largest rate factor that a buffer constraint may force.
        max: u32,
    },
}

/// One setting made on a builder.
///
/// A builder keeps its settings in the order in which they were made, because
/// the engine's own routines (for [`Directive::Profile`] and
/// [`Directive::FastFirstPass`]) read and change what earlier settings wrote.
#[derive(Clone, Copy, Debug, PartialEq, Eq, Hash, Structural)]
pub enum Directive {
    /// Have the engine make the first pass faster.
    FastFirstPass,
    /// The framerate as a fraction, in frames per second.
    Fps { num: u32, den: u32 },
    /// The timebase as a fraction, in seconds per tick.
    Timebase { num: u32, den: u32 },
    /// Whether to write Annex B start codes.
    AnnexB { enabled: bool },
    /// Aim at an average bitrate; see [`RateControl::Bitrate`].
    Bitrate { average: i32 },
    /// Aim at a constant rate factor; see [`RateControl::Crf`].
    Crf { target: u32, max: u32 },
    /// The largest number of consecutive B-frames.
    Bframes { limit: i32 },
    /// The number of frames buffered for threaded lookahead.
    Lookahead { frames: i32 },
    /// Whether a group of pictures may refer to pictures of another.
    OpenGop { enabled: bool },
    /// Have the engine hold the parameters to a profile.
    Profile { profile: Profile },
    /// The largest number of frames between keyframes.
    MaxKeyframeInterval { interval: i32 },
    /// The smallest number of frames between keyframes.
    MinKeyframeInterval { interval: i32 },
    /// The threshold for placing a keyframe at a scene cut.
    ScenecutThreshold { threshold: i32 },
}

impl Directive {
    /// The rate control that the directive chooses, if it chooses one.
    pub open spec fn spec_rate_control(self) -> Option<RateControl> {
        match self {
            Directive::Bitrate { average } => Some(RateControl::Bitrate { average }),
            Directive::Crf { target, max } => Some(RateControl::Crf { target, max }),
            _ => None,
        }
    }

    /// The rate control that the directive chooses, if it chooses one.
    #[verifier::when_used_as_spec(spec_rate_control)]
    pub fn rate_control(self) -> (mode: Option<RateControl>)
        ensures
            mode == self.spec_rate_control(),
    {
        match self {
            Directive::Bitrate { average } => Some(RateControl::Bitrate { average }),
            Directive::Crf { target, max } => Some(RateControl::Crf { target, max }),
            _ => None,
        }
    }
}

/// The rate control in force after `steps`: the one that the last directive
/// to choose any has chosen, and none where no directive chooses one (the
/// base's own then stands).
pub open spec fn rate_control_of(steps: Seq<Directive>) -> Option<RateControl>
    decreases steps.len(),
{
    if steps.len() == 0 {
        None
    } else if steps.last().spec_rate_control() is Some {
        steps.last().spec_rate_control()
    } else {
        rate_control_of(steps.drop_last())
    }
}

/// Builds a new encoder.
#[derive(Debug)]
pub struct Setup {
    base: Base,
    steps: Vec<Directive>,
}

/// What a [`Setup`] stands for: a base and the settings made on it, oldest
/// first.
pub struct SetupView {
    /// What the configuration starts from.
    pub base: Base,
    /// The settings made, oldest first.
    pub steps: Seq<Directive>,
}

impl SetupView {
    /// The configuration with one more setting made.
    pub open spec fn plus(self, directive: Directive) -> SetupView {
        SetupView { base: self.base, steps: self.steps.push(directive) }
    }
}

impl View for Setup {
    type V = SetupView;

    closed spec fn view(&self) -> SetupView {
        SetupView { base: self.base, steps: self.steps@ }
    }
}

/// The finalized configuration that the engine is opened with: a base, the
/// settings to apply to it in order, and last the picture's format and size.
#[derive(Debug)]
pub struct Parameters {
    base: Base,
    steps: Vec<Directive>,
    format: Encoding,
    width: i32,
    height: i32,
}

/// What [`Parameters`] stand for.
pub struct ParametersView {
    /// What the configuration starts from.
    pub base: Base,
    /// The settings to apply, oldest first.
    pub steps: Seq<Directive>,
    /// The format of the pictures to encode.
    pub format: Encoding,
    /// The width of the pictures to encode.
    pub width: i32,
    /// The height of the pictures to encode.
    pub height: i32,
}

impl View for Parameters {
    type V = ParametersView;

    closed spec fn view(&self) -> ParametersView {
        ParametersView {
            base: self.base,
            steps: self.steps@,
            format: self.format,
            width: self.width,
            height: self.height,
        }
    }
}

/// The rate control in force after the settings in `steps`.
fn last_rate_control(steps: &Vec<Directive>) -> (mode: Option<RateControl>)
    ensures
        mode == rate_control_of(steps@),
{
    let mut rest: usize = steps.len();
    assert(steps@.take(rest as int) == steps@);
    while rest > 0
        invariant
            rest <= steps@.len(),
            rate_control_of(steps@) == rate_control_of(steps@.take(rest as int)),
        decreases rest,
    {
        let chosen = steps[rest - 1].rate_control();
        let ghost taken = steps@.take(rest as int);
        if chosen.is_some() {
            return chosen;
        }
        assert(taken.drop_last() == steps@.take(rest - 1));
        rest = rest - 1;
    }
    None
}

impl Setup {
    /// Creates a new builder with the specified preset and tune.
    pub fn preset(preset: Preset, tune: Tune, fast_decode: bool, zero_latency: bool) -> (setup: Setup)
        ensures
            setup@ == (SetupView {
                base: Base::Preset { preset, tune, fast_decode, zero_latency },
                steps: Seq::empty(),
            }),
    {
        Setup { base: Base::Preset { preset, tune, fast_decode, zero_latency }, steps: Vec::new() }
    }

    /// Records one more setting, after all that were made before.
    fn with(self, directive: Directive) -> (setup: Setup)
        ensures
            setup@ == self@.plus(directive),
    {
        let mut setup = self;
        setup.steps.push(directive);
        setup
    }

    /// Makes the first pass faster.
    pub fn fastfirstpass(self) -> (setup: Setup)
        ensures
            setup@ == self@.plus(Directive::FastFirstPass),
    {
        self.with(Directive::FastFirstPass)
    }

    /// The video's framerate, represented as a rational number.
    ///
    /// The value is in frames per second.
    pub fn fps(self, num: u32, den: u32) -> (setup: Setup)
        ensures
            setup@ == self@.plus(Directive::Fps { num, den }),
    {
        self.with(Directive::Fps { num, den })
    }

    /// The encoder's timebase, used in rate control with timestamps.
    ///
    /// The value is in seconds per tick.
    pub fn timebase(self, num: u32, den: u32) -> (setup: Setup)
        ensures
            setup@ == self@.plus(Directive::Timebase { num, den }),
    {
        self.with(Directive::Timebase { num, den })
    }

    /// Enable/disable Annex B start codes. The engine writes them unless told
    /// otherwise.
    ///
    /// Annex B start codes are not used by containers based on the ISO BMFF
    /// (Base Media File Format), such as MP4 and MOV.
    pub fn annexb(self, annexb: bool) -> (setup: Setup)
        ensures
            setup@ == self@.plus(Directive::AnnexB { enabled: annexb }),
    {
        self.with(Directive::AnnexB { enabled: annexb })
    }

    /// Approximately restricts the bitrate.
    ///
    /// The value is in metric kilobits per second. Setting this value also
    /// sets the rate control method to average bitrate, in place of any
    /// rate control chosen before: the last choice is the one in force.
    pub fn bitrate(self, average: i32) -> (setup: Setup)
        ensures
            setup@ == self@.plus(Directive::Bitrate { average }),
            rate_control_of(setup@.steps) == Some(RateControl::Bitrate { average }),
    {
        self.with(Directive::Bitrate { average })
    }

    /// Target a constant rate factor, which gives the best objective quality
    /// per bit.
    ///
    /// Both values are 32-bit IEEE 754 numbers, given by their bit patterns.
    /// Rate factors go from -12 to 51, -12 giving the highest quality.
    /// Setting this value also sets the rate control method to constant rate
    /// factor, in place of any rate control chosen before: the last choice is
    /// the one in force.
    pub fn crf(self, target: u32, max: u32) -> (setup: Setup)
        ensures
            setup@ == self@.plus(Directive::Crf { target, max }),
            rate_control_of(setup@.steps) == Some(RateControl::Crf { target, max }),
    {
        self.with(Directive::Crf { target, max })
    }

    /// Restricts the maximum number of B-frames.
    ///
    /// Setting this to 0 disables B-frames.
    pub fn bframes(self, max: i32) -> (setup: Setup)
        ensures
            setup@ == self@.plus(Directive::Bframes { limit: max }),
    {
        self.with(Directive::Bframes { limit: max })
    }

    /// Sets the number of frames to be used as a buffer for threaded
    /// lookahead.
    ///
    /// 0 disables threaded lookahead, which allows lower latency at the cost
    /// of reduced efficiency.
    pub fn lookahead(self, number: i32) -> (setup: Setup)
        ensures
            setup@ == self@.plus(Directive::Lookahead { frames: number }),
    {
        self.with(Directive::Lookahead { frames: number })
    }

    /// When enabled, allows a group of pictures (GOP) to contain references
    /// to other groups of pictures.
    pub fn open_gop(self, enabled: bool) -> (setup: Setup)
        ensures
            setup@ == self@.plus(Directive::OpenGop { enabled }),
    {
        self.with(Directive::OpenGop { enabled })
    }

    /// The lowest profile, with guaranteed compatibility with all decoders.
    ///
    /// The engine's profile routine is due at this point of the settings.
    pub fn baseline(self) -> (setup: Setup)
        ensures
            setup@ == self@.plus(Directive::Profile { profile: Profile::Baseline }),
    {
        self.with(Directive::Profile { profile: Profile::Baseline })
    }

    /// A middle ground between the baseline and high profiles.
    ///
    /// The engine's profile routine is due at this point of the settings.
    pub fn main(self) -> (setup: Setup)
        ensures
            setup@ == self@.plus(Directive::Profile { profile: Profile::Main }),
    {
        self.with(Directive::Profile { profile: Profile::Main })
    }

    /// The highest profile, which almost all decoders support.
    ///
    /// The engine's profile routine is due at this point of the settings.
    pub fn high(self) -> (setup: Setup)
        ensures
            setup@ == self@.plus(Directive::Profile { profile: Profile::High }),
    {
        self.with(Directive::Profile { profile: Profile::High })
    }

    /// Set the maximum number of frames between keyframes.
    pub fn max_keyframe_interval(self, interval: i32) -> (setup: Setup)
        ensures
            setup@ == self@.plus(Directive::MaxKeyframeInterval { interval }),
    {
        self.with(Directive::MaxKeyframeInterval { interval })
    }

    /// Set the minimum number of frames between keyframes.
    pub fn min_keyframe_interval(self, interval: i32) -> (setup: Setup)
        ensures
            setup@ == self@.plus(Directive::MinKeyframeInterval { interval }),
    {
        self.with(Directive::MinKeyframeInterval { interval })
    }

    /// Set the scenecut threshold. Set this to zero to guarantee a keyframe
    /// every `max_keyframe_interval`.
    pub fn scenecut_threshold(self, threshold: i32) -> (setup: Setup)
        ensures
            setup@ == self@.plus(Directive::ScenecutThreshold { threshold }),
    {
        self.with(Directive::ScenecutThreshold { threshold })
    }

    /// The rate control that the settings made so far leave in force, or
    /// `None` where none was chosen and the base's own stands.
    pub fn rate_control(&self) -> (mode: Option<RateControl>)
        ensures
            mode == rate_control_of(self@.steps),
    {
        last_rate_control(&self.steps)
    }

    /// Finalizes the configuration for pictures of the given format and size.
    ///
    /// The parameters hold all that the builder has accumulated, unchanged,
    /// and the format and size last. The engine is then to be opened with
    /// them; [`Parameters::open`] takes its answer.
    pub fn build(self, csp: Encoding, width: i32, height: i32) -> (parameters: Parameters)
        ensures
            parameters@ == (ParametersView {
                base: self@.base,
                steps: self@.steps,
                format: csp,
                width,
                height,
            }),
    {
        Parameters { base: self.base, steps: self.steps, format: csp, width, height }
    }
}

impl Default for Setup {
    /// A builder that starts from the engine's default parameters.
    fn default() -> (setup: Setup)
        ensures
            setup@ == (SetupView { base: Base::Default, steps: Seq::empty() }),
    {
        Setup { base: Base::Default, steps: Vec::new() }
    }
}

impl Parameters {
    /// What the configuration starts from.
    pub fn base(&self) -> (base: Base)
        ensures
            base == self@.base,
    {
        self.base
    }

    /// The settings to apply to the base, oldest first.
    pub fn steps(&self) -> (steps: &[Directive])
        ensures
            steps@ == self@.steps,
    {
        self.steps.as_slice()
    }

    /// The format of the pictures to encode.
    pub fn encoding(&self) -> (format: Encoding)
        ensures
            format == self@.format,
    {
        self.format
    }

    /// The width of the pictures to encode.
    pub fn width(&self) -> (width: i32)
        ensures
            width == self@.width,
    {
        self.width
    }

    /// The height of the pictures to encode.
    pub fn height(&self) -> (height: i32)
        ensures
            height == self@.height,
    {
        self.height
    }

    /// The rate control in force, or `None` where none was chosen and the
    /// base's own stands.
    pub fn rate_control(&self) -> (mode: Option<RateControl>)
        ensures
            mode == rate_control_of(self@.steps),
    {
        last_rate_control(&self.steps)
    }
}

/// A setting that chooses a rate control puts it in force, whatever was
/// chosen before it.
pub proof fn lemma_rate_control_chosen_last(steps: Seq<Directive>, directive: Directive)
    requires
        directive.spec_rate_control() is Some,
    ensures
        rate_control_of(steps.push(directive)) == directive.spec_rate_control(),
{
}

/// A setting that chooses no rate control leaves in force the one that was.
pub proof fn lemma_rate_control_kept(steps: Seq<Directive>, directive: Directive)
    requires
        directive.spec_rate_control() is None,
    ensures
        rate_control_of(steps.push(directive)) == rate_control_of(steps),
{
    assert(steps.push(directive).drop_last() == steps);
}

/// Of two rate controls chosen one after the other the second is in force,
/// whatever settings stand before them and whichever way round they are.
pub proof fn lemma_last_rate_control_wins(steps: Seq<Directive>, average: i32, target: u32, max: u32)
    ensures
        rate_control_of(
            steps.push(Directive::Bitrate { average }).push(Directive::Crf { target, max }),
        ) == Some(RateControl::Crf { target, max }),
        rate_control_of(
            steps.push(Directive::Crf { target, max }).push(Directive::Bitrate { average }),
        ) == Some(RateControl::Bitrate { average }),
{
    lemma_rate_control_chosen_last(
        steps.push(Directive::Bitrate { average }),
        Directive::Crf { target, max },
    );
    lemma_rate_control_chosen_last(
        steps.push(Directive::Crf { target, max }),
        Directive::Bitrate { average },
    );
}

} // verus!
