//! The catalog of pixel formats: how many planes a format has and how each
//! plane is subsampled against the picture.

use vstd::prelude::*;
use vstd::std_specs::convert::FromSpecImpl;

verus! {

/// The colorspaces an image can be laid out in.
#[derive(Clone, Copy, Debug, PartialEq, Eq, Hash, Structural)]
pub enum Colorspace {
    /// A Y plane followed by 2x2 subsampled U and V planes.
    I420,
    /// A Y plane followed by 2x2 subsampled V and U planes.
    YV12,
    /// A Y plane followed by a packed 2x2 subsampled UV plane.
    NV12,
    /// A Y plane followed by a packed 2x2 subsampled VU plane.
    NV21,
    /// A Y plane followed by 2x1 subsampled U and V planes.
    I422,
    /// A Y plane followed by 2x1 subsampled V and U planes.
    YV16,
    /// A Y plane followed by a packed 2x1 subsampled UV plane.
    NV16,
    /// A single plane whose 32-bit words each hold three 10-bit samples.
    V210,
    /// A Y plane followed by full-resolution U and V planes.
    I444,
    /// A Y plane followed by full-resolution V and U planes.
    YV24,
    /// A single plane of packed 24-bit BGR pixels.
    BGR,
    /// A single plane of packed 32-bit BGR pixels, the fourth byte unused.
    BGRA,
    /// A single plane of packed 24-bit RGB pixels.
    RGB,
}

/// A change to how the samples of a colorspace are stored.
#[derive(Clone, Copy, Debug, PartialEq, Eq, Hash, Structural)]
pub enum Modifier {
    /// The picture is stored bottom row first.
    VerticalFlip,
    /// Each sample takes sixteen bits instead of eight.
    HighDepth,
}

/// A colorspace together with the modifiers applied to it.
#[derive(Clone, Copy, Debug, PartialEq, Eq, Hash, Structural)]
pub struct Encoding {
    /// The colorspace of the picture.
    pub colorspace: Colorspace,
    /// Whether [`Modifier::VerticalFlip`] is applied.
    pub vertical_flip: bool,
    /// Whether [`Modifier::HighDepth`] is applied.
    pub high_depth: bool,
}

impl Colorspace {
    /// The number of planes an image in this colorspace consists of.
    pub open spec fn spec_plane_count(self) -> nat {
        match self {
            Colorspace::I420 | Colorspace::YV12 => 3,
            Colorspace::NV12 | Colorspace::NV21 => 2,
            Colorspace::I422 | Colorspace::YV16 => 3,
            Colorspace::NV16 => 2,
            Colorspace::V210 => 1,
            Colorspace::I444 | Colorspace::YV24 => 3,
            Colorspace::BGR | Colorspace::RGB => 1,
            Colorspace::BGRA => 1,
        }
    }

    /// The number the picture's width must be a multiple of.
    pub open spec fn spec_width_divisor(self) -> int {
        match self {
            Colorspace::I420 | Colorspace::YV12 => 2,
            Colorspace::NV12 | Colorspace::NV21 => 2,
            Colorspace::I422 | Colorspace::YV16 => 2,
            Colorspace::NV16 => 2,
            _ => 1,
        }
    }

    /// The number the picture's height must be a multiple of.
    pub open spec fn spec_height_divisor(self) -> int {
        match self {
            Colorspace::I420 | Colorspace::YV12 => 2,
            Colorspace::NV12 | Colorspace::NV21 => 2,
            _ => 1,
        }
    }

    /// The bytes that plane `plane` spends on each group of
    /// `spec_width_divisor` pixel columns, at eight bits a sample.
    ///
    /// Zero for a plane the colorspace does not have.
    pub open spec fn spec_width_factor(self, plane: int) -> int {
        if 0 <= plane < self.spec_plane_count() {
            match self {
                Colorspace::I420 | Colorspace::YV12 | Colorspace::I422 | Colorspace::YV16 => {
                    if plane == 0 {
                        2
                    } else {
                        1
                    }
                },
                Colorspace::NV12 | Colorspace::NV21 | Colorspace::NV16 => 2,
                Colorspace::V210 => 4,
                Colorspace::I444 | Colorspace::YV24 => 1,
                Colorspace::BGR | Colorspace::RGB => 3,
                Colorspace::BGRA => 4,
            }
        } else {
            0
        }
    }

    /// The rows that plane `plane` holds for each group of
    /// `spec_height_divisor` pixel rows.
    ///
    /// Zero for a plane the colorspace does not have.
    pub open spec fn spec_height_factor(self, plane: int) -> int {
        if 0 <= plane < self.spec_plane_count() {
            match self {
                Colorspace::I420 | Colorspace::YV12 | Colorspace::NV12 | Colorspace::NV21 => {
                    if plane == 0 {
                        2
                    } else {
                        1
                    }
                },
                _ => 1,
            }
        } else {
            0
        }
    }

    /// The number of planes an image in this colorspace consists of.
    pub fn plane_count(self) -> (count: usize)
        ensures
            count == self.spec_plane_count(),
            1 <= count <= 3,
    {
        match self {
            Colorspace::I420 | Colorspace::YV12 => 3,
            Colorspace::NV12 | Colorspace::NV21 => 2,
            Colorspace::I422 | Colorspace::YV16 => 3,
            Colorspace::NV16 => 2,
            Colorspace::V210 => 1,
            Colorspace::I444 | Colorspace::YV24 => 3,
            Colorspace::BGR | Colorspace::RGB => 1,
            Colorspace::BGRA => 1,
        }
    }

    /// The number the picture's width must be a multiple of.
    pub fn width_divisor(self) -> (divisor: i32)
        ensures
            divisor == self.spec_width_divisor(),
            1 <= divisor <= 2,
    {
        match self {
            Colorspace::I420 | Colorspace::YV12 => 2,
            Colorspace::NV12 | Colorspace::NV21 => 2,
            Colorspace::I422 | Colorspace::YV16 => 2,
            Colorspace::NV16 => 2,
            _ => 1,
        }
    }

    /// The number the picture's height must be a multiple of.
    pub fn height_divisor(self) -> (divisor: i32)
        ensures
            divisor == self.spec_height_divisor(),
            1 <= divisor <= 2,
    {
        match self {
            Colorspace::I420 | Colorspace::YV12 => 2,
            Colorspace::NV12 | Colorspace::NV21 => 2,
            _ => 1,
        }
    }

    /// The bytes that plane `plane` spends on each group of `width_divisor`
    /// pixel columns, at eight bits a sample; zero for a plane the colorspace
    /// does not have.
    pub fn width_factor(self, plane: usize) -> (factor: i32)
        ensures
            factor == self.spec_width_factor(plane as int),
            0 <= factor <= 4,
            plane < self.spec_plane_count() ==> 1 <= factor,
    {
        if plane >= self.plane_count() {
            return 0;
        }
        match self {
            Colorspace::I420 | Colorspace::YV12 | Colorspace::I422 | Colorspace::YV16 => {
                if plane == 0 {
                    2
                } else {
                    1
                }
            },
            Colorspace::NV12 | Colorspace::NV21 | Colorspace::NV16 => 2,
            Colorspace::V210 => 4,
            Colorspace::I444 | Colorspace::YV24 => 1,
            Colorspace::BGR | Colorspace::RGB => 3,
            Colorspace::BGRA => 4,
        }
    }

    /// The rows that plane `plane` holds for each group of `height_divisor`
    /// pixel rows; zero for a plane the colorspace does not have.
    pub fn height_factor(self, plane: usize) -> (factor: i32)
        ensures
            factor == self.spec_height_factor(plane as int),
            0 <= factor <= 2,
            plane < self.spec_plane_count() ==> 1 <= factor,
    {
        if plane >= self.plane_count() {
            return 0;
        }
        match self {
            Colorspace::I420 | Colorspace::YV12 | Colorspace::NV12 | Colorspace::NV21 => {
                if plane == 0 {
                    2
                } else {
                    1
                }
            },
            _ => 1,
        }
    }
}

impl Encoding {
    /// The plain encoding of a colorspace, with no modifier applied.
    pub open spec fn plain(colorspace: Colorspace) -> Encoding {
        Encoding { colorspace, vertical_flip: false, high_depth: false }
    }

    /// The bytes one sample takes: two under [`Modifier::HighDepth`], else one.
    pub open spec fn spec_sample_depth(self) -> int {
        if self.high_depth {
            2
        } else {
            1
        }
    }

    /// Whether `modifier` is applied to an encoding.
    pub open spec fn spec_has_modifier(self, modifier: Modifier) -> bool {
        match modifier {
            Modifier::VerticalFlip => self.vertical_flip,
            Modifier::HighDepth => self.high_depth,
        }
    }

    /// The encoding with `modifier` switched to `on` and all else kept.
    pub open spec fn with_modifier(self, modifier: Modifier, on: bool) -> Encoding {
        match modifier {
            Modifier::VerticalFlip => Encoding { vertical_flip: on, ..self },
            Modifier::HighDepth => Encoding { high_depth: on, ..self },
        }
    }

    /// The colorspace of the encoding.
    pub fn colorspace(self) -> (colorspace: Colorspace)
        ensures
            colorspace == self.colorspace,
    {
        self.colorspace
    }

    /// Whether `modifier` is applied to the encoding.
    #[verifier::when_used_as_spec(spec_has_modifier)]
    pub fn has_modifier(self, modifier: Modifier) -> (applied: bool)
        ensures
            applied == self.spec_has_modifier(modifier),
    {
        match modifier {
            Modifier::VerticalFlip => self.vertical_flip,
            Modifier::HighDepth => self.high_depth,
        }
    }

    /// Applies `modifier`; applying it twice is the same as once.
    pub fn add_modifier(self, modifier: Modifier) -> (encoding: Encoding)
        ensures
            encoding == self.with_modifier(modifier, true),
    {
        match modifier {
            Modifier::VerticalFlip => Encoding {
                colorspace: self.colorspace,
                vertical_flip: true,
                high_depth: self.high_depth,
            },
            Modifier::HighDepth => Encoding {
                colorspace: self.colorspace,
                vertical_flip: self.vertical_flip,
                high_depth: true,
            },
        }
    }

    /// Takes `modifier` away; the colorspace and the other modifier stay.
    pub fn remove_modifier(self, modifier: Modifier) -> (encoding: Encoding)
        ensures
            encoding == self.with_modifier(modifier, false),
    {
        match modifier {
            Modifier::VerticalFlip => Encoding {
                colorspace: self.colorspace,
                vertical_flip: false,
                high_depth: self.high_depth,
            },
            Modifier::HighDepth => Encoding {
                colorspace: self.colorspace,
                vertical_flip: self.vertical_flip,
                high_depth: false,
            },
        }
    }

    /// The bytes one sample takes: two under [`Modifier::HighDepth`], else one.
    pub fn sample_depth(self) -> (depth: i32)
        ensures
            depth == self.spec_sample_depth(),
            1 <= depth <= 2,
    {
        if self.high_depth {
            2
        } else {
            1
        }
    }
}

impl From<Colorspace> for Encoding {
    /// The plain encoding of a colorspace, with no modifier applied.
    fn from(colorspace: Colorspace) -> (encoding: Encoding) {
        Encoding { colorspace, vertical_flip: false, high_depth: false }
    }
}

impl FromSpecImpl<Colorspace> for Encoding {
    open spec fn obeys_from_spec() -> bool {
        true
    }

    open spec fn from_spec(colorspace: Colorspace) -> Encoding {
        Encoding::plain(colorspace)
    }
}

} // verus!
