//! Images: caller-owned pixel planes, checked against the layout that their
//! pixel format prescribes before an encoder gets to see them.

use vstd::prelude::*;
use crate::colorspace::{Colorspace, Encoding};
use crate::error::Error;

verus! {

/// A single plane of an image.
#[derive(Clone, Copy, Debug)]
pub struct Plane<'a> {
    /// The plane's stride (the number of bytes for each row).
    pub stride: i32,
    /// The plane's pixel data.
    pub data: &'a [u8],
}

/// The frame type an image asks the encoder for.
#[derive(Clone, Copy, Debug, PartialEq, Eq, Hash, Structural)]
pub enum FrameType {
    /// Allow the encoder to choose the best frame type.
    Auto,
    /// Instantaneous decoding refresh: no later picture refers to one before it.
    IDR,
    /// Intra-coded frame.
    I,
    /// Predicted frame.
    P,
    /// Bi-directional frame that other frames may refer to.
    Bref,
    /// Bi-directional frame.
    B,
    /// An IDR or an intra frame, depending on whether the stream uses open GOPs.
    Keyframe,
}

/// The most planes an image can hold.
pub const MAX_PLANES: usize = 4;

/// The picture layout as the engine takes it: a format, the number of planes in
/// use, and four slots of strides and plane data.
///
/// Slots from `plane_count` on hold a zero stride and no data.
#[derive(Clone, Copy, Debug)]
pub struct RawImage<'a> {
    /// The pixel format.
    pub format: Encoding,
    /// How many of the four slots are in use.
    pub plane_count: usize,
    /// The stride of each plane.
    pub strides: [i32; 4],
    /// The pixel data of each plane.
    pub planes: [&'a [u8]; 4],
}

/// Input image data to be given to the encoder.
#[derive(Debug)]
pub struct Image<'a> {
    raw: RawImage<'a>,
    width: i32,
    height: i32,
    frame_type: FrameType,
}

/// What an [`Image`] stands for.
pub struct ImageView<'a> {
    /// The pixel format.
    pub format: Encoding,
    /// The width in pixels.
    pub width: i32,
    /// The height in pixels.
    pub height: i32,
    /// The frame type asked for.
    pub frame_type: FrameType,
    /// The planes, first plane first.
    pub planes: Seq<Plane<'a>>,
}

/// The quotient of `a` by `b` rounded toward zero, and zero where `b` is zero.
pub open spec fn quotient(a: int, b: int) -> int {
    if b > 0 {
        if a >= 0 {
            a / b
        } else {
            -((-a) / b)
        }
    } else if b < 0 {
        if a >= 0 {
            -(a / (-b))
        } else {
            (-a) / (-b)
        }
    } else {
        0
    }
}

/// The least stride, in bytes, that plane `index` of a picture `width` pixels
/// wide needs.
pub open spec fn min_stride(format: Encoding, width: int, index: int) -> int {
    format.spec_sample_depth() * quotient(width, format.colorspace.spec_width_divisor())
        * format.colorspace.spec_width_factor(index)
}

/// The least number of rows that plane `index` of a picture `height` pixels
/// high needs.
pub open spec fn min_rows(format: Encoding, height: int, index: int) -> int {
    quotient(height, format.colorspace.spec_height_divisor())
        * format.colorspace.spec_height_factor(index)
}

/// The number of whole rows that the data of `plane` holds.
pub open spec fn rows_available(plane: Plane) -> int {
    quotient(plane.data@.len() as int, plane.stride as int)
}

/// Whether `plane` is wide and long enough to be plane `index` of a picture
/// of the given format and size.
pub open spec fn plane_fits(format: Encoding, width: int, height: int, index: int, plane: Plane) -> bool {
    &&& plane.stride != 0
    &&& min_stride(format, width, index) <= plane.stride
    &&& min_rows(format, height, index) <= rows_available(plane)
}

/// Whether `width` and `height` are whole multiples of the format's divisors.
pub open spec fn size_divides(format: Encoding, width: int, height: int) -> bool {
    &&& width % format.colorspace.spec_width_divisor() == 0
    &&& height % format.colorspace.spec_height_divisor() == 0
}

/// Whether `planes` make up a sound picture of the given format and size:
/// there are as many as the format has, the size is a whole multiple of the
/// format's divisors, and every plane fits.
pub open spec fn geometry_ok(format: Encoding, width: int, height: int, planes: Seq<Plane>) -> bool {
    &&& planes.len() == format.colorspace.spec_plane_count()
    &&& size_divides(format, width, height)
    &&& forall|i: int| 0 <= i < planes.len() ==> plane_fits(format, width, height, i, #[trigger] planes[i])
}

/// The stride that the packed constructors give a single plane of `len`
/// bytes in a picture `height` pixels high.
pub open spec fn packed_stride(len: nat, height: int) -> int {
    quotient(len as int, height)
}

/// Whether `data` makes up a sound picture of the single-plane format
/// `colorspace`, with the stride derived from the data's length: the height is
/// not zero, the stride fits a plane, and the one plane passes the check that
/// [`geometry_ok`] makes of every plane.
pub open spec fn packed_ok(colorspace: Colorspace, width: int, height: int, data: &[u8]) -> bool {
    &&& height != 0
    &&& i32::MIN <= packed_stride(data@.len(), height) <= i32::MAX
    &&& plane_fits(
        Encoding::plain(colorspace),
        width,
        height,
        0,
        Plane { stride: packed_stride(data@.len(), height) as i32, data },
    )
}

impl<'a> Plane<'a> {
    /// Whether this plane is wide and long enough to be plane `index` of a
    /// picture of the given format and size.
    pub fn fits(&self, format: Encoding, width: i32, height: i32, index: usize) -> (ok: bool)
        ensures
            ok == plane_fits(format, width as int, height as int, index as int, *self),
    {
        let colorspace = format.colorspace();
        let depth: i64 = format.sample_depth() as i64;
        let columns: i64 = (width / colorspace.width_divisor()) as i64;
        let rows: i64 = (height / colorspace.height_divisor()) as i64;
        let width_factor: i64 = colorspace.width_factor(index) as i64;
        let height_factor: i64 = colorspace.height_factor(index) as i64;
        assert(-0x1_0000_0000 <= depth * columns <= 0x1_0000_0000) by (nonlinear_arith)
            requires
                1 <= depth <= 2,
                -0x8000_0000 <= columns <= 0x8000_0000,
        ;
        let sample_columns: i64 = depth * columns;
        assert(-0x4_0000_0000 <= sample_columns * width_factor <= 0x4_0000_0000)
            by (nonlinear_arith)
            requires
                0 <= width_factor <= 4,
                -0x1_0000_0000 <= sample_columns <= 0x1_0000_0000,
        ;
        let needed_stride: i64 = sample_columns * width_factor;
        assert(-0x1_0000_0000 <= rows * height_factor <= 0x1_0000_0000) by (nonlinear_arith)
            requires
                0 <= height_factor <= 2,
                -0x8000_0000 <= rows <= 0x8000_0000,
        ;
        let needed_rows: i64 = rows * height_factor;
        if self.stride == 0 || needed_stride > self.stride as i64 {
            return false;
        }
        let len: u64 = self.data.len() as u64;
        if self.stride > 0 {
            let available: u64 = len / (self.stride as u64);
            needed_rows <= 0 || needed_rows as u64 <= available
        } else {
            let step: u64 = (-(self.stride as i64)) as u64;
            let held: u64 = len / step;
            needed_rows <= 0 && held <= (-needed_rows) as u64
        }
    }
}

impl<'a> View for Image<'a> {
    type V = ImageView<'a>;

    closed spec fn view(&self) -> ImageView<'a> {
        ImageView {
            format: self.raw.format,
            width: self.width,
            height: self.height,
            frame_type: self.frame_type,
            planes: Seq::new(
                self.raw.plane_count as nat,
                |i: int| Plane { stride: self.raw.strides@[i], data: self.raw.planes@[i] },
            ),
        }
    }
}

impl<'a> RawImage<'a> {
    /// Whether the layout holds exactly `planes` under `format`: the first
    /// slots hold the planes in order and the rest are empty.
    pub open spec fn holds(self, format: Encoding, planes: Seq<Plane<'a>>) -> bool {
        &&& self.format == format
        &&& self.plane_count == planes.len()
        &&& planes.len() <= MAX_PLANES
        &&& forall|i: int|
            0 <= i < planes.len() ==> #[trigger] self.strides@[i] == planes[i].stride
        &&& forall|i: int| 0 <= i < planes.len() ==> #[trigger] self.planes@[i] == planes[i].data
        &&& forall|i: int| planes.len() <= i < MAX_PLANES ==> #[trigger] self.strides@[i] == 0
        &&& forall|i: int| planes.len() <= i < MAX_PLANES ==> (#[trigger] self.planes@[i])@.len() == 0
    }
}

impl<'a> Image<'a> {
    #[verifier::type_invariant]
    spec fn well_formed(self) -> bool {
        &&& self.raw.plane_count <= MAX_PLANES
        &&& forall|i: int| self.raw.plane_count <= i < MAX_PLANES ==> #[trigger] self.raw.strides@[i] == 0
        &&& forall|i: int|
            self.raw.plane_count <= i < MAX_PLANES ==> (#[trigger] self.raw.planes@[i])@.len() == 0
    }

    /// Whether the image's planes fit its format and size.
    pub open spec fn fits(self) -> bool {
        geometry_ok(self@.format, self@.width as int, self@.height as int, self@.planes)
    }

    /// Makes a new image with the given information, the frame type being
    /// [`FrameType::Auto`] where none is given.
    ///
    /// The planes are checked against the format: an image is made exactly
    /// when [`geometry_ok`] holds of them, and is refused with
    /// [`Error::ConstructionViolation`] otherwise.
    pub fn new(
        format: Encoding,
        width: i32,
        height: i32,
        frame_type: Option<FrameType>,
        planes: &[Plane<'a>],
    ) -> (made: Result<Image<'a>, Error>)
        ensures
            made is Ok <==> geometry_ok(format, width as int, height as int, planes@),
            made matches Ok(image) ==> image@ == (ImageView {
                format,
                width,
                height,
                frame_type: match frame_type {
                    Some(chosen) => chosen,
                    None => FrameType::Auto,
                },
                planes: planes@,
            }) && image.fits(),
            made matches Err(error) ==> error == Error::ConstructionViolation,
    {
        let colorspace = format.colorspace();
        // The number of planes is the one the format has.
        if planes.len() != colorspace.plane_count() {
            return Err(Error::ConstructionViolation);
        }
        // The width and the height are multiples of the format's divisors.
        if width % colorspace.width_divisor() != 0 || height % colorspace.height_divisor() != 0 {
            return Err(Error::ConstructionViolation);
        }
        let mut index: usize = 0;
        while index < planes.len()
            invariant
                index <= planes@.len(),
                forall|i: int|
                    0 <= i < index ==> plane_fits(
                        format,
                        width as int,
                        height as int,
                        i,
                        #[trigger] planes@[i],
                    ),
            decreases planes@.len() - index,
        {
            // The plane's stride and its number of rows are large enough.
            if !planes[index].fits(format, width, height, index) {
                return Err(Error::ConstructionViolation);
            }
            index = index + 1;
        }
        let chosen = match frame_type {
            Some(chosen) => chosen,
            None => FrameType::Auto,
        };
        Ok(Image::new_unchecked(format, width, height, chosen, planes))
    }

    /// Makes a new packed BGR image, its stride being the data's length
    /// divided by the height.
    pub fn bgr(width: i32, height: i32, data: &'a [u8]) -> (made: Result<Image<'a>, Error>)
        ensures
            made is Ok <==> packed_ok(Colorspace::BGR, width as int, height as int, data),
            made matches Ok(image) ==> image@ == packed_view(Colorspace::BGR, width, height, data)
                && image.fits(),
            made matches Err(error) ==> error == Error::ConstructionViolation,
    {
        Image::packed(Colorspace::BGR, width, height, data)
    }

    /// Makes a new packed RGB image, its stride being the data's length
    /// divided by the height.
    pub fn rgb(width: i32, height: i32, data: &'a [u8]) -> (made: Result<Image<'a>, Error>)
        ensures
            made is Ok <==> packed_ok(Colorspace::RGB, width as int, height as int, data),
            made matches Ok(image) ==> image@ == packed_view(Colorspace::RGB, width, height, data)
                && image.fits(),
            made matches Err(error) ==> error == Error::ConstructionViolation,
    {
        Image::packed(Colorspace::RGB, width, height, data)
    }

    /// Makes a new packed BGRA image, its stride being the data's length
    /// divided by the height.
    pub fn bgra(width: i32, height: i32, data: &'a [u8]) -> (made: Result<Image<'a>, Error>)
        ensures
            made is Ok <==> packed_ok(Colorspace::BGRA, width as int, height as int, data),
            made matches Ok(image) ==> image@ == packed_view(Colorspace::BGRA, width, height, data)
                && image.fits(),
            made matches Err(error) ==> error == Error::ConstructionViolation,
    {
        Image::packed(Colorspace::BGRA, width, height, data)
    }

    /// Makes a single-plane image of `colorspace` from `data`, deriving the
    /// stride from the data's length and the height.
    fn packed(colorspace: Colorspace, width: i32, height: i32, data: &'a [u8]) -> (made: Result<
        Image<'a>,
        Error,
    >)
        requires
            colorspace.spec_plane_count() == 1,
            colorspace.spec_width_divisor() == 1,
            colorspace.spec_height_divisor() == 1,
        ensures
            made is Ok <==> packed_ok(colorspace, width as int, height as int, data),
            made matches Ok(image) ==> image@ == packed_view(colorspace, width, height, data)
                && image.fits(),
            made matches Err(error) ==> error == Error::ConstructionViolation,
    {
        if height == 0 {
            return Err(Error::ConstructionViolation);
        }
        let len: u64 = data.len() as u64;
        let stride: i32 = if height > 0 {
            let per_row: u64 = len / (height as u64);
            if per_row > 0x7fff_ffff {
                return Err(Error::ConstructionViolation);
            }
            per_row as i32
        } else {
            let per_row: u64 = len / ((-(height as i64)) as u64);
            if per_row > 0x8000_0000 {
                return Err(Error::ConstructionViolation);
            }
            (-(per_row as i64)) as i32
        };
        let planes = [Plane { stride, data }];
        assert(planes@ =~= seq![Plane { stride, data }]);
        Image::new(Encoding::from(colorspace), width, height, None, planes.as_slice())
    }

    /// Set the frame type you would like the encoder to create for only this
    /// image. Set this to [`FrameType::IDR`] for a GOP "refresh".
    pub fn set_frame_type(&mut self, frame_type: FrameType)
        ensures
            final(self)@ == (ImageView { frame_type, ..old(self)@ }),
    {
        proof {
            use_type_invariant(&*self);
        }
        self.frame_type = frame_type;
    }

    /// The frame type asked of the encoder.
    pub fn frame_type(&self) -> (frame_type: &FrameType)
        ensures
            *frame_type == self@.frame_type,
    {
        &self.frame_type
    }

    /// Makes a new image with the given planes and colorspace, without
    /// checking the planes against the format.
    ///
    /// An image has room for [`MAX_PLANES`] planes, so no more can be given.
    pub fn new_unchecked(
        format: Encoding,
        width: i32,
        height: i32,
        frame_type: FrameType,
        planes: &[Plane<'a>],
    ) -> (image: Image<'a>)
        requires
            planes@.len() <= MAX_PLANES,
        ensures
            image@ == (ImageView { format, width, height, frame_type, planes: planes@ }),
    {
        let empty: &'a [u8] = &[];
        let mut strides: [i32; 4] = [0; 4];
        let mut data: [&'a [u8]; 4] = [empty; 4];
        let mut index: usize = 0;
        while index < planes.len()
            invariant
                index <= planes@.len() <= MAX_PLANES,
                forall|i: int| 0 <= i < index ==> #[trigger] strides@[i] == planes@[i].stride,
                forall|i: int| 0 <= i < index ==> #[trigger] data@[i] == planes@[i].data,
                forall|i: int| index <= i < MAX_PLANES ==> #[trigger] strides@[i] == 0,
                forall|i: int| index <= i < MAX_PLANES ==> (#[trigger] data@[i])@.len() == 0,
            decreases planes@.len() - index,
        {
            strides[index] = planes[index].stride;
            data[index] = planes[index].data;
            index = index + 1;
        }
        let raw = RawImage { format, plane_count: planes.len(), strides, planes: data };
        let image = Image { raw, width, height, frame_type };
        assert(image@.planes =~= planes@);
        image
    }

    /// The width of the image.
    pub fn width(&self) -> (width: i32)
        ensures
            width == self@.width,
    {
        self.width
    }

    /// The height of the image.
    pub fn height(&self) -> (height: i32)
        ensures
            height == self@.height,
    {
        self.height
    }

    /// The encoding of the image.
    pub fn encoding(&self) -> (format: Encoding)
        ensures
            format == self@.format,
    {
        self.raw.format
    }

    /// The image's layout as the engine takes it.
    pub fn raw(&self) -> (raw: RawImage<'a>)
        ensures
            raw.holds(self@.format, self@.planes),
    {
        proof {
            use_type_invariant(self);
        }
        self.raw
    }
}

/// What a packed constructor makes of `data`: one plane under the plain
/// encoding of `colorspace`, with the stride derived from the data's length.
pub open spec fn packed_view<'a>(colorspace: Colorspace, width: i32, height: i32, data: &'a [u8]) -> ImageView<'a> {
    ImageView {
        format: Encoding::plain(colorspace),
        width,
        height,
        frame_type: FrameType::Auto,
        planes: seq![Plane { stride: packed_stride(data@.len(), height as int) as i32, data }],
    }
}

/// A picture whose planes are exactly as wide and as long as the format asks
/// is sound: with the right number of planes, a size that the format's
/// divisors divide and a width other than zero, planes that each have the
/// least stride and hold the least number of rows pass the check.
pub proof fn lemma_least_planes_accepted(format: Encoding, width: int, height: int, planes: Seq<Plane>)
    requires
        planes.len() == format.colorspace.spec_plane_count(),
        size_divides(format, width, height),
        width != 0,
        forall|i: int|
            0 <= i < planes.len() ==> (#[trigger] planes[i]).stride == min_stride(format, width, i),
        forall|i: int|
            0 <= i < planes.len() ==> rows_available(#[trigger] planes[i]) == min_rows(
                format,
                height,
                i,
            ),
    ensures
        geometry_ok(format, width, height, planes),
{
    assert forall|i: int| 0 <= i < planes.len() implies plane_fits(
        format,
        width,
        height,
        i,
        #[trigger] planes[i],
    ) by {
        lemma_least_stride_nonzero(format, width, i);
    }
}

/// The least stride of a plane that the format has is not zero, unless the
/// picture's width is: it is positive for a positive width that the format's
/// divisor divides, and negative for a negative one.
pub proof fn lemma_least_stride_nonzero(format: Encoding, width: int, index: int)
    requires
        0 <= index < format.colorspace.spec_plane_count(),
        width % format.colorspace.spec_width_divisor() == 0,
        width != 0,
    ensures
        width > 0 ==> min_stride(format, width, index) > 0,
        width < 0 ==> min_stride(format, width, index) < 0,
{
    let depth = format.spec_sample_depth();
    let columns = quotient(width, format.colorspace.spec_width_divisor());
    let factor = format.colorspace.spec_width_factor(index);
    assert(columns > 0 ==> depth * columns * factor > 0) by (nonlinear_arith)
        requires
            depth >= 1,
            factor >= 1,
    ;
    assert(columns < 0 ==> depth * columns * factor < 0) by (nonlinear_arith)
        requires
            depth >= 1,
            factor >= 1,
    ;
}

/// A plane whose data is exactly `rows` rows of `stride` bytes holds `rows`
/// rows.
pub proof fn lemma_exact_data_rows(plane: Plane, rows: int)
    requires
        plane.stride != 0,
        plane.data@.len() == plane.stride * rows,
    ensures
        rows_available(plane) == rows,
{
    let stride = plane.stride as int;
    let len = plane.data@.len() as int;
    if stride > 0 {
        vstd::arithmetic::div_mod::lemma_div_multiples_vanish(rows, stride);
    } else {
        let step = -stride;
        assert(len == step * (-rows)) by (nonlinear_arith)
            requires
                len == stride * rows,
                step == -stride,
        ;
        vstd::arithmetic::div_mod::lemma_div_multiples_vanish(-rows, step);
    }
}

/// A plane narrower than the format asks spoils the picture: where any plane's
/// stride is below the least stride, by one byte or by more, the check fails.
pub proof fn lemma_short_stride_refused(
    format: Encoding,
    width: int,
    height: int,
    planes: Seq<Plane>,
    index: int,
)
    requires
        0 <= index < planes.len(),
        planes[index].stride < min_stride(format, width, index),
    ensures
        !geometry_ok(format, width, height, planes),
{
}

/// A plane shorter than the format asks spoils the picture: where any plane
/// holds fewer rows than the least number, by one row or by more, the check
/// fails.
pub proof fn lemma_short_rows_refused(
    format: Encoding,
    width: int,
    height: int,
    planes: Seq<Plane>,
    index: int,
)
    requires
        0 <= index < planes.len(),
        rows_available(planes[index]) < min_rows(format, height, index),
    ensures
        !geometry_ok(format, width, height, planes),
{
}

/// A size that the format's divisors do not divide is refused, whatever the
/// planes are.
pub proof fn lemma_indivisible_size_refused(format: Encoding, width: int, height: int, planes: Seq<Plane>)
    requires
        width % format.colorspace.spec_width_divisor() != 0 || height
            % format.colorspace.spec_height_divisor() != 0,
    ensures
        !geometry_ok(format, width, height, planes),
{
}

/// A wrong number of planes is refused, whatever the planes are.
pub proof fn lemma_plane_count_refused(format: Encoding, width: int, height: int, planes: Seq<Plane>)
    requires
        planes.len() != format.colorspace.spec_plane_count(),
    ensures
        !geometry_ok(format, width, height, planes),
{
}

/// The packed constructors check their one plane as [`Image::new`] checks
/// every plane: for a format with a single plane and divisors of one, the
/// plane fits exactly when it makes up a sound picture by itself.
pub proof fn lemma_single_plane_geometry(format: Encoding, width: int, height: int, plane: Plane)
    requires
        format.colorspace.spec_plane_count() == 1,
        format.colorspace.spec_width_divisor() == 1,
        format.colorspace.spec_height_divisor() == 1,
    ensures
        geometry_ok(format, width, height, seq![plane]) <==> plane_fits(
            format,
            width,
            height,
            0,
            plane,
        ),
{
    assert(seq![plane][0] == plane);
}

} // verus!
