//! The session: submitting frames to an open encoder, reading its headers,
//! and draining what it has buffered once the input has ended.
//!
//! The engine is not called from here. Each operation either prepares what is
//! to be handed to the engine or takes what the engine has answered, so that a
//! driver only has to make the calls in between.

use vstd::prelude::*;
use crate::colorspace::Encoding;
use crate::error::Error;
use crate::image::{FrameType, Image, ImageView, RawImage};
use crate::setup::{Base, Parameters, Setup, SetupView};

verus! {

/// The format and size of the pictures that a session takes.
#[derive(Clone, Copy, Debug, PartialEq, Eq, Hash, Structural)]
pub struct Geometry {
    /// The pixel format.
    pub format: Encoding,
    /// The width in pixels.
    pub width: i32,
    /// The height in pixels.
    pub height: i32,
}

/// The encoded data that one engine call has produced.
///
/// The bytes lie in the engine's memory and stay valid only until the next
/// call on the same handle; whoever needs them longer copies them first.
#[derive(Clone, Copy, Debug)]
pub struct Data<'a> {
    /// The encoded bytes; none where the engine has buffered the frame.
    pub bytes: &'a [u8],
}

/// What the engine tells about the picture it has put out.
#[derive(Clone, Copy, Debug, PartialEq, Eq, Hash, Structural)]
pub struct Picture {
    /// The presentation timestamp.
    pub pts: i64,
    /// The decoding timestamp.
    pub dts: i64,
    /// Whether the picture is a keyframe.
    pub keyframe: bool,
    /// The frame type that the engine has chosen.
    pub frame_type: FrameType,
}

/// A picture ready to be handed to the engine.
#[derive(Clone, Copy, Debug)]
pub struct Frame<'a> {
    /// The presentation timestamp.
    pub pts: i64,
    /// The picture's planes.
    pub image: RawImage<'a>,
    /// The frame type asked for.
    pub frame_type: FrameType,
}

/// What the engine has answered to an encode call, with or without a picture.
#[derive(Clone, Copy, Debug)]
pub struct Reply<'a> {
    /// The engine's status: negative for a failure.
    pub status: i32,
    /// The data put out.
    pub data: Data<'a>,
    /// The picture put out.
    pub picture: Picture,
}

impl<'a> Reply<'a> {
    /// Reads the engine's answer: a negative status is a failure, anything else
    /// carries the output, which may be empty where the engine has buffered
    /// the frame.
    pub fn result(self) -> (output: Result<(Data<'a>, Picture), Error>)
        ensures
            self.status < 0 ==> output == Err::<(Data<'a>, Picture), Error>(Error::EncodeFailed),
            self.status >= 0 ==> output == Ok::<(Data<'a>, Picture), Error>(
                (self.data, self.picture),
            ),
    {
        if self.status < 0 {
            Err(Error::EncodeFailed)
        } else {
            Ok((self.data, self.picture))
        }
    }
}

/// Encodes video: a session whose engine handle is open.
#[derive(Debug)]
pub struct Encoder {
    geometry: Geometry,
}

impl View for Encoder {
    type V = Geometry;

    closed spec fn view(&self) -> Geometry {
        self.geometry
    }
}

/// Whether an image has the format and size that a session takes.
pub open spec fn same_geometry(geometry: Geometry, image: ImageView) -> bool {
    &&& image.width == geometry.width
    &&& image.height == geometry.height
    &&& image.format == geometry.format
}

impl Encoder {
    /// Creates a new builder with default options.
    ///
    /// For more options see [`Setup::preset`].
    pub fn builder() -> (setup: Setup)
        ensures
            setup@ == (SetupView { base: Base::Default, steps: Seq::empty() }),
    {
        Setup::default()
    }

    /// The session of a handle that the engine has opened, from the
    /// parameters that the engine reports for it.
    pub fn from_raw(parameters: Geometry) -> (encoder: Encoder)
        ensures
            encoder@ == parameters,
    {
        Encoder { geometry: parameters }
    }

    /// Whether `image` has the width, the height and the encoding that this
    /// session requires. Planes that would do for both do not make up for a
    /// difference in any of the three.
    pub fn accepts(&self, image: &Image) -> (accepted: bool)
        ensures
            accepted == same_geometry(self@, image@),
    {
        image.width() == self.geometry.width && image.height() == self.geometry.height
            && image.encoding() == self.geometry.format
    }

    /// Feeds a frame to the encoder: makes the picture that is to be handed
    /// to the engine. [`Reply::result`] reads the engine's answer.
    ///
    /// The image must have the session's width, height and encoding;
    /// [`Encoder::accepts`] tells.
    pub fn encode<'a>(&mut self, pts: i64, image: Image<'a>) -> (frame: Frame<'a>)
        requires
            same_geometry(old(self)@, image@),
        ensures
            frame.pts == pts,
            frame.frame_type == image@.frame_type,
            frame.image.holds(image@.format, image@.planes),
            final(self)@ == old(self)@,
    {
        self.encode_unchecked(pts, image)
    }

    /// Feeds a frame to the encoder without asking that the image has the
    /// session's width, height and encoding: the caller has made sure of it.
    pub fn encode_unchecked<'a>(&mut self, pts: i64, image: Image<'a>) -> (frame: Frame<'a>)
        ensures
            frame.pts == pts,
            frame.frame_type == image@.frame_type,
            frame.image.holds(image@.format, image@.planes),
            final(self)@ == old(self)@,
    {
        Frame { pts, image: image.raw(), frame_type: *image.frame_type() }
    }

    /// Gets the video headers, which should be sent first, from what the
    /// engine has answered when asked for them: a negative status is a
    /// failure, anything else carries the header bytes.
    pub fn headers<'a>(&mut self, status: i32, data: Data<'a>) -> (headers: Result<Data<'a>, Error>)
        ensures
            status < 0 ==> headers == Err::<Data<'a>, Error>(Error::EncodeFailed),
            status >= 0 ==> headers == Ok::<Data<'a>, Error>(data),
            final(self)@ == old(self)@,
    {
        if status < 0 {
            Err(Error::EncodeFailed)
        } else {
            Ok(data)
        }
    }

    /// Begins flushing the encoder, to handle any delayed frames.
    ///
    /// The session is given up for the flush, so no frame can be fed after.
    pub fn flush(self) -> (flush: Flush)
        ensures
            flush@ == (FlushView { geometry: self@, stage: Stage::Draining }),
    {
        Flush { encoder: self, stage: Stage::Draining }
    }

    /// The width required of any input images.
    pub fn width(&self) -> (width: i32)
        ensures
            width == self@.width,
    {
        self.geometry.width
    }

    /// The height required of any input images.
    pub fn height(&self) -> (height: i32)
        ensures
            height == self@.height,
    {
        self.geometry.height
    }

    /// The encoding required of any input images.
    pub fn encoding(&self) -> (format: Encoding)
        ensures
            format == self@.format,
    {
        self.geometry.format
    }
}

impl Parameters {
    /// Takes the engine's answer to being opened with these parameters, which
    /// are spent on it.
    ///
    /// `None` says that the engine has returned no handle. Otherwise the
    /// answer holds the format and size that the engine reports for the handle,
    /// which may differ from what was asked for; the session goes by them.
    pub fn open(self, answer: Option<Geometry>) -> (opened: Result<Encoder, Error>)
        ensures
            opened is Ok <==> answer is Some,
            opened matches Ok(encoder) ==> answer == Some(encoder@),
            opened matches Err(error) ==> error == Error::EncoderOpenFailed,
    {
        match answer {
            None => Err(Error::EncoderOpenFailed),
            Some(reported) => Ok(Encoder::from_raw(reported)),
        }
    }
}

/// How far a flush has come.
#[derive(Clone, Copy, Debug, PartialEq, Eq, Hash, Structural)]
pub enum Stage {
    /// The engine may still hold delayed frames.
    Draining,
    /// The engine has reported that no frame is left. Nothing follows.
    Exhausted,
    /// The engine's handle has been released.
    Released,
}

impl Stage {
    /// Whether a step at this stage, on the engine reporting `delayed` frames,
    /// draws one more frame from the engine.
    pub open spec fn draws(self, delayed: int) -> bool {
        self == Stage::Draining && delayed != 0
    }

    /// The stage after a step at this stage on the engine reporting `delayed`
    /// frames.
    pub open spec fn after(self, delayed: int) -> Stage {
        if self == Stage::Draining && delayed == 0 {
            Stage::Exhausted
        } else {
            self
        }
    }
}

/// Iterate through any delayed frames.
#[derive(Debug)]
pub struct Flush {
    encoder: Encoder,
    stage: Stage,
}

/// What a [`Flush`] stands for.
pub struct FlushView {
    /// The format and size of the session that is being flushed.
    pub geometry: Geometry,
    /// How far the flush has come.
    pub stage: Stage,
}

impl View for Flush {
    type V = FlushView;

    closed spec fn view(&self) -> FlushView {
        FlushView { geometry: self.encoder@, stage: self.stage }
    }
}

impl Flush {
    /// Keeps flushing: decides, from the number of delayed frames that the
    /// engine reports, whether one more frame is to be drawn from it.
    ///
    /// On `true` the engine is to be called to encode with no picture, and
    /// [`Reply::result`] reads its answer as the next item. On `false` the
    /// sequence has ended. It ends when the engine reports no delayed frame,
    /// and stays ended whatever the engine reports after.
    pub fn next(&mut self, delayed_frames: i32) -> (draw: bool)
        ensures
            draw == old(self)@.stage.draws(delayed_frames as int),
            final(self)@ == (FlushView {
                geometry: old(self)@.geometry,
                stage: old(self)@.stage.after(delayed_frames as int),
            }),
    {
        match self.stage {
            Stage::Draining => {
                if delayed_frames == 0 {
                    self.stage = Stage::Exhausted;
                    false
                } else {
                    true
                }
            },
            _ => false,
        }
    }

    /// How far the flush has come.
    pub fn stage(&self) -> (stage: Stage)
        ensures
            stage == self@.stage,
    {
        self.stage
    }

    /// Gives up the engine's handle. The answer is `true` the first time, when
    /// the handle is to be closed, and `false` ever after, so that a handle is
    /// closed once however often and at whatever stage this is called.
    pub fn release(&mut self) -> (close: bool)
        ensures
            close == (old(self)@.stage != Stage::Released),
            final(self)@ == (FlushView { geometry: old(self)@.geometry, stage: Stage::Released }),
    {
        let close = self.stage != Stage::Released;
        self.stage = Stage::Released;
        close
    }
}

/// The number of frames that a flush at `stage` draws from the engine while
/// the engine reports, step by step, the numbers of delayed frames in
/// `reports`.
pub open spec fn frames_drawn(stage: Stage, reports: Seq<int>) -> nat
    decreases reports.len(),
{
    if reports.len() == 0 {
        0
    } else {
        let rest = frames_drawn(stage.after(reports.first()), reports.drop_first());
        if stage.draws(reports.first()) {
            1 + rest
        } else {
            rest
        }
    }
}

/// The stage that a flush at `stage` has come to after the steps on `reports`.
pub open spec fn stage_reached(stage: Stage, reports: Seq<int>) -> Stage
    decreases reports.len(),
{
    if reports.len() == 0 {
        stage
    } else {
        stage_reached(stage.after(reports.first()), reports.drop_first())
    }
}

/// A flush that is no longer draining draws no frame and stays at its stage,
/// whatever the engine reports.
pub proof fn lemma_ended_flush_stays_ended(stage: Stage, reports: Seq<int>)
    requires
        stage != Stage::Draining,
    ensures
        frames_drawn(stage, reports) == 0,
        stage_reached(stage, reports) == stage,
    decreases reports.len(),
{
    if reports.len() > 0 {
        lemma_ended_flush_stays_ended(stage, reports.drop_first());
    }
}

/// Once the engine has reported no delayed frame, the flush is over: what the
/// engine reports after that report draws no further frame, so that the
/// frames drawn are those drawn before it.
pub proof fn lemma_nothing_drawn_after_exhaustion(reports: Seq<int>, at: int)
    requires
        0 <= at < reports.len(),
        reports[at] == 0,
    ensures
        frames_drawn(Stage::Draining, reports) == frames_drawn(Stage::Draining, reports.take(at)),
        frames_drawn(Stage::Draining, reports) <= at,
        stage_reached(Stage::Draining, reports) == Stage::Exhausted,
    decreases at,
{
    let rest = reports.drop_first();
    if reports[0] == 0 {
        lemma_ended_flush_stays_ended(Stage::Exhausted, rest);
        if at > 0 {
            lemma_ended_flush_stays_ended(Stage::Exhausted, reports.take(at).drop_first());
        }
    } else {
        lemma_nothing_drawn_after_exhaustion(rest, at - 1);
        assert(reports.take(at).drop_first() == rest.take(at - 1));
    }
}

/// Where the engine counts its delayed frames down by one with every frame
/// drawn, from `delayed` to none, the flush draws exactly `delayed` frames
/// and is then over.
pub proof fn lemma_counted_down_frames_all_drawn(delayed: nat, reports: Seq<int>)
    requires
        reports.len() > delayed,
        forall|i: int| 0 <= i <= delayed ==> #[trigger] reports[i] == delayed - i,
    ensures
        frames_drawn(Stage::Draining, reports) == delayed,
        stage_reached(Stage::Draining, reports) == Stage::Exhausted,
    decreases delayed,
{
    let rest = reports.drop_first();
    if delayed == 0 {
        lemma_ended_flush_stays_ended(Stage::Exhausted, rest);
    } else {
        lemma_counted_down_frames_all_drawn((delayed - 1) as nat, rest);
    }
}

/// No frame is lost between feeding and flushing, where the engine keeps
/// count: if of `submitted` frames the engine has put out `put_out` while they
/// were fed, reports the others as delayed when the flush begins, and counts
/// them down by one with every frame drawn, then the frames put out and the
/// frames drawn make up the frames submitted.
pub proof fn lemma_no_frame_lost(submitted: nat, put_out: nat, reports: Seq<int>)
    requires
        put_out <= submitted,
        reports.len() > submitted - put_out,
        forall|i: int|
            0 <= i <= submitted - put_out ==> #[trigger] reports[i] == submitted - put_out - i,
    ensures
        put_out + frames_drawn(Stage::Draining, reports) == submitted,
{
    lemma_counted_down_frames_all_drawn((submitted - put_out) as nat, reports);
}

} // verus!
