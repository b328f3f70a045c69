//! The decisions the codec layer makes around libav*: pixel format
//! descriptors and their chroma alignment, the region of a sub-picture,
//! packet fields, and what a codec's return code means.
use vstd::prelude::*;
use vstd::arithmetic::power2::pow2;
use vstd::bits::lemma_usize_pow2_no_overflow;
use vstd::bits::lemma_usize_shl_is_mul;
use vstd::bits::lemma_usize_shr_is_div;

verus! {

/// The pixel format flag: the palette is in `data[1]`.
pub const AV_PIX_FMT_FLAG_PAL: u64 = 2;
/// The pixel format flag: a hardware-accelerated format.
pub const AV_PIX_FMT_FLAG_HWACCEL: u64 = 8;
/// The pixel format flag: at least one component has a plane of its own.
pub const AV_PIX_FMT_FLAG_PLANAR: u64 = 16;
/// The pixel format flag: the format holds RGB-like components.
pub const AV_PIX_FMT_FLAG_RGB: u64 = 32;
/// The pixel format flag: a format with a fixed, palette-like layout.
pub const AV_PIX_FMT_FLAG_PSEUDOPAL: u64 = 64;

/// The packet flag of a key frame.
pub const AV_PKT_FLAG_KEY: i32 = 1;

/// The error code libav* returns at the end of a stream (`AVERROR_EOF`).
pub const AVERROR_EOF: i32 = -0x20464f45;

/// The libav* code of the YUV 4:2:0 planar format.
pub const AV_PIX_FMT_YUV420P: i32 = 0;
/// The libav* code of the packed RGBA format.
pub const AV_PIX_FMT_RGBA: i32 = 26;

/// The colour model of a pixel format.
#[derive(Debug, Clone, Copy, PartialEq, Eq, Structural)]
pub enum ColorFormat {
    Yuv,
    Rgb,
    Hwaccel,
    Palette,
    PseudoPalette,
}

/// A libav* pixel format.
#[derive(Debug, Clone, Copy, PartialEq, Eq, Structural)]
pub struct PixelFormat(pub i32);

impl PixelFormat {
    /// YUV 4:2:0 with a plane per component.
    pub fn yuv420p() -> (r: Self)
        ensures
            r.0 == AV_PIX_FMT_YUV420P,
    {
        PixelFormat(AV_PIX_FMT_YUV420P)
    }

    /// The format's libav* code.
    pub fn into_raw(self) -> (r: i32)
        ensures
            r == self.0,
    {
        self.0
    }
}

/// The size and pixel format of a picture.
#[derive(Debug, Clone, Copy, PartialEq, Eq, Structural)]
pub struct PictureSettings {
    pub width: usize,
    pub height: usize,
    pub pixel_format: PixelFormat,
}

impl PictureSettings {
    /// A YUV 4:2:0 picture of the given size.
    pub fn yuv420p(width: usize, height: usize) -> (r: Self)
        ensures
            r == (PictureSettings { width, height, pixel_format: PixelFormat(AV_PIX_FMT_YUV420P) }),
    {
        PictureSettings { width, height, pixel_format: PixelFormat::yuv420p() }
    }

    /// An RGBA picture of the given size.
    pub fn rgba(width: usize, height: usize) -> (r: Self)
        ensures
            r == (PictureSettings { width, height, pixel_format: PixelFormat(AV_PIX_FMT_RGBA) }),
    {
        PictureSettings { width, height, pixel_format: PixelFormat(AV_PIX_FMT_RGBA) }
    }
}

/// Where one component of a pixel format lies.
#[derive(Debug, Clone, Copy, PartialEq, Eq, Structural)]
pub struct PlaneInfo {
    pub plane: i32,
    pub step: i32,
    pub offset: i32,
    pub shift: i32,
    pub depth: i32,
}

impl PlaneInfo {
    /// The plane the component is stored in.
    pub fn plane(&self) -> (r: usize)
        requires
            self.plane >= 0,
        ensures
            r == self.plane,
    {
        self.plane as usize
    }

    /// The bytes between two horizontally adjacent pixels of the component.
    pub fn step(&self) -> (r: usize)
        requires
            self.step >= 0,
        ensures
            r == self.step,
    {
        self.step as usize
    }

    /// The bytes before the component's first pixel.
    pub fn offset(&self) -> (r: usize)
        requires
            self.offset >= 0,
        ensures
            r == self.offset,
    {
        self.offset as usize
    }

    /// The bits the component is shifted by within its bytes.
    pub fn shift(&self) -> (r: usize)
        requires
            self.shift >= 0,
        ensures
            r == self.shift,
    {
        self.shift as usize
    }

    /// The bits of the component.
    pub fn depth(&self) -> (r: usize)
        requires
            self.depth >= 0,
        ensures
            r == self.depth,
    {
        self.depth as usize
    }
}

/// What libav* describes of a pixel format.
#[derive(Debug, Clone)]
pub struct PixFmtDescriptor {
    pub flags: u64,
    pub log2_chroma_w: u8,
    pub log2_chroma_h: u8,
    pub components: Vec<PlaneInfo>,
}

/// The colour model that a pixel format's flags give.
pub open spec fn color_of_flags(flags: u64) -> ColorFormat {
    if (flags & AV_PIX_FMT_FLAG_RGB) != 0 {
        ColorFormat::Rgb
    } else if (flags & AV_PIX_FMT_FLAG_HWACCEL) != 0 {
        ColorFormat::Hwaccel
    } else if (flags & AV_PIX_FMT_FLAG_PAL) != 0 {
        ColorFormat::Palette
    } else if (flags & AV_PIX_FMT_FLAG_PSEUDOPAL) != 0 {
        ColorFormat::PseudoPalette
    } else {
        ColorFormat::Yuv
    }
}

/// `value` rounded down to a multiple of two to the power `shift`.
pub open spec fn align_down(value: usize, shift: usize) -> usize {
    ((value >> shift) << shift) as usize
}

/// The `usize` with every bit set.
pub open spec fn all_ones() -> usize {
    !0usize
}

/// The number of pixels in one chroma sample along an axis whose chroma is
/// subsampled by `shift`.
pub open spec fn sample_size(shift: usize) -> usize {
    (1usize << shift) as usize
}

proof fn lemma_align_down(value: usize, other: usize, shift: usize)
    requires
        shift < usize::BITS,
    ensures
        value & (all_ones() << shift) == align_down(value, shift),
        align_down(value, shift) <= value,
        value <= other ==> align_down(value, shift) <= align_down(other, shift),
        sample_size(shift) > 0,
        align_down(value, shift) % sample_size(shift) == 0,
        value - align_down(value, shift) < sample_size(shift),
        align_down(align_down(value, shift), shift) == align_down(value, shift),
{
    assert(value & ((!0usize) << shift) == ((value >> shift) << shift)) by (bit_vector)
        requires shift < usize::BITS;
    assert(((value >> shift) << shift) <= value) by (bit_vector)
        requires shift < usize::BITS;
    assert(value <= other ==> ((value >> shift) << shift) <= ((other >> shift) << shift)) by (bit_vector)
        requires shift < usize::BITS;
    let p = pow2(shift as nat);
    lemma_usize_pow2_no_overflow(shift as nat);
    lemma_usize_shr_is_div(value, shift);
    let q = value >> shift;
    assert(q * p <= value && (q * p) % (p as int) == 0 && value - q * p < p) by (nonlinear_arith)
        requires
            q == value as nat / p,
            p > 0,
    {
        assert(value == (value as nat / p) * p + value as nat % p);
        assert(value as nat % p < p);
    }
    lemma_usize_shl_is_mul(q, shift);
    lemma_usize_shl_is_mul(1usize, shift);
    assert(((((value >> shift) << shift) >> shift) << shift) == ((value >> shift) << shift)) by (bit_vector)
        requires shift < usize::BITS;
}

impl PixFmtDescriptor {
    /// Whether some component has a plane of its own.
    pub fn planar(&self) -> (r: bool)
        ensures
            r == ((self.flags & AV_PIX_FMT_FLAG_PLANAR) != 0),
    {
        (self.flags & AV_PIX_FMT_FLAG_PLANAR) != 0
    }

    /// Whether the format holds RGB-like components.
    pub fn rgb(&self) -> (r: bool)
        ensures
            r == ((self.flags & AV_PIX_FMT_FLAG_RGB) != 0),
    {
        (self.flags & AV_PIX_FMT_FLAG_RGB) != 0
    }

    /// The format's colour model: RGB before hardware before palette before
    /// pseudo-palette, and YUV when no flag says otherwise.
    pub fn color(&self) -> (r: ColorFormat)
        ensures
            r == color_of_flags(self.flags),
    {
        let flags = self.flags;

        if (flags & AV_PIX_FMT_FLAG_RGB) != 0 {
            ColorFormat::Rgb
        } else if (flags & AV_PIX_FMT_FLAG_HWACCEL) != 0 {
            ColorFormat::Hwaccel
        } else if (flags & AV_PIX_FMT_FLAG_PAL) != 0 {
            ColorFormat::Palette
        } else if (flags & AV_PIX_FMT_FLAG_PSEUDOPAL) != 0 {
            ColorFormat::PseudoPalette
        } else {
            ColorFormat::Yuv
        }
    }

    /// Amount to shift the luma (Y) width right to find the chroma (U, V) width
    pub fn log2_chroma_w(&self) -> (r: usize)
        ensures
            r == self.log2_chroma_w,
    {
        self.log2_chroma_w as usize
    }

    /// Amount to shift the luma (Y) height right to find the chroma (U, V) height
    pub fn log2_chroma_h(&self) -> (r: usize)
        ensures
            r == self.log2_chroma_h,
    {
        self.log2_chroma_h as usize
    }

    /// `value` rounded down to a whole number of chroma samples across.
    pub fn align_horizontal(&self, value: usize) -> (r: usize)
        requires
            self.log2_chroma_w < usize::BITS,
        ensures
            r == align_down(value, self.log2_chroma_w as usize),
            r <= value,
            r % sample_size(self.log2_chroma_w as usize) == 0,
            value - r < sample_size(self.log2_chroma_w as usize),
            align_down(r, self.log2_chroma_w as usize) == r,
    {
        proof { lemma_align_down(value, value, self.log2_chroma_w as usize); }
        value & (!0usize << self.log2_chroma_w())
    }

    /// `value` rounded down to a whole number of chroma samples down.
    pub fn align_vertical(&self, value: usize) -> (r: usize)
        requires
            self.log2_chroma_h < usize::BITS,
        ensures
            r == align_down(value, self.log2_chroma_h as usize),
            r <= value,
            r % sample_size(self.log2_chroma_h as usize) == 0,
            value - r < sample_size(self.log2_chroma_h as usize),
            align_down(r, self.log2_chroma_h as usize) == r,
    {
        proof { lemma_align_down(value, value, self.log2_chroma_h as usize); }
        value & (!0usize << self.log2_chroma_h())
    }
}

/// A rectangle of a picture, in pixels.
#[derive(Debug, Clone, Copy, PartialEq, Eq, Structural)]
pub struct Region {
    pub x: usize,
    pub y: usize,
    pub width: usize,
    pub height: usize,
}

/// Whether the rectangle at `x`, `y` of `w` by `h` pixels lies within a
/// picture of `coded_width` by `coded_height` (the frame stops the program
/// otherwise).
pub open spec fn region_within(x: usize, y: usize, w: usize, h: usize, coded_width: usize, coded_height: usize) -> bool {
    x + w <= coded_width && y + h <= coded_height
}

/// The region a sub-picture really covers: its corners rounded down to
/// whole chroma samples, so that every plane starts on a sample.
pub fn subframe_region(desc: &PixFmtDescriptor, x: usize, y: usize, w: usize, h: usize, coded_width: usize, coded_height: usize) -> (r: Region)
    requires
        region_within(x, y, w, h, coded_width, coded_height),
        desc.log2_chroma_w < usize::BITS,
        desc.log2_chroma_h < usize::BITS,
    ensures
        r.x == align_down(x, desc.log2_chroma_w as usize),
        r.y == align_down(y, desc.log2_chroma_h as usize),
        r.x + r.width == align_down((x + w) as usize, desc.log2_chroma_w as usize),
        r.y + r.height == align_down((y + h) as usize, desc.log2_chroma_h as usize),
        r.x + r.width <= coded_width,
        r.y + r.height <= coded_height,
{
    let right = x + w;
    let bottom = y + h;

    // scale x and y to align to log2_chroma boundary
    let ax = desc.align_horizontal(x);
    let ay = desc.align_vertical(y);
    let ar = desc.align_horizontal(right);
    let ab = desc.align_vertical(bottom);
    proof {
        lemma_align_down(x, right, desc.log2_chroma_w as usize);
        lemma_align_down(y, bottom, desc.log2_chroma_h as usize);
    }

    Region { x: ax, y: ay, width: ar - ax, height: ab - ay }
}

/// Whether the component at `index` of a format is a chroma component:
/// every component after the first of a YUV format.
pub open spec fn is_chroma_spec(desc: PixFmtDescriptor, index: usize) -> bool {
    color_of_flags(desc.flags) == ColorFormat::Yuv && index > 0
}

/// The byte offset, within its plane, of the pixel at `x`, `y` of a
/// component, where the plane's rows are `linesize` bytes apart. Chroma
/// components are subsampled, so their coordinates are shifted down.
pub open spec fn component_offset(desc: PixFmtDescriptor, index: usize, component: PlaneInfo, x: usize, y: usize, linesize: i32) -> int {
    let x_off = if is_chroma_spec(desc, index) { x >> desc.log2_chroma_w } else { x };
    let y_off = if is_chroma_spec(desc, index) { y >> desc.log2_chroma_h } else { y };
    x_off * component.step + y_off * linesize
}

/// The byte offset, within its plane, of the pixel at `x`, `y` of the
/// component at `index`.
pub fn plane_offset(desc: &PixFmtDescriptor, index: usize, component: &PlaneInfo, x: usize, y: usize, linesize: i32) -> (r: usize)
    requires
        component.step >= 0,
        linesize >= 0,
        desc.log2_chroma_w < usize::BITS,
        desc.log2_chroma_h < usize::BITS,
        x * component.step + y * linesize <= usize::MAX,
    ensures
        r == component_offset(*desc, index, *component, x, y, linesize),
{
    let is_chroma = match desc.color() {
        ColorFormat::Yuv => index > 0,
        _ => false,
    };

    let x_off = if is_chroma { x >> desc.log2_chroma_w() } else { x };
    let y_off = if is_chroma { y >> desc.log2_chroma_h() } else { y };
    let step = component.step();
    let line = linesize as usize;
    assert(x_off <= x && y_off <= y) by {
        let sw = desc.log2_chroma_w as usize;
        let sh = desc.log2_chroma_h as usize;
        assert((x >> sw) <= x) by (bit_vector);
        assert((y >> sh) <= y) by (bit_vector);
    }
    assert(x_off * step <= x * step) by (nonlinear_arith)
        requires x_off <= x, step >= 0;
    assert(y_off * line <= y * line) by (nonlinear_arith)
        requires y_off <= y, line >= 0;
    x_off * step + y_off * line
}

/// One plane of a blank picture to fill: the plane, the byte to fill it
/// with, and the number of bytes to fill.
#[derive(Debug, Clone, Copy, PartialEq, Eq, Structural)]
pub struct PlaneFill {
    pub plane: usize,
    pub byte: u8,
    pub size: usize,
}

/// Whether the component at `index` is the first one stored in its plane.
pub open spec fn first_in_plane(components: Seq<PlaneInfo>, index: int) -> bool {
    forall|j: int| 0 <= j < index ==> (#[trigger] components[j]).plane != components[index].plane
}

/// How a blank picture fills the plane of the component at `index`: chroma
/// with the middle value 0x80, everything else with 0; the fill stops at the
/// last pixel, since a plane is only padded between its lines.
pub open spec fn plane_fill_spec(desc: PixFmtDescriptor, index: int, width: usize, height: usize, strides: Seq<usize>) -> PlaneFill {
    let comp = desc.components@[index];
    let chroma = is_chroma_spec(desc, index as usize);
    let w = if chroma { width >> desc.log2_chroma_w } else { width };
    let h = if chroma { height >> desc.log2_chroma_h } else { height };
    let rows = if h == 0 { 0 } else { h - 1 };
    PlaneFill {
        plane: comp.plane as usize,
        byte: if chroma { 0x80 } else { 0 },
        size: (strides[comp.plane as int] * rows + comp.step * w) as usize,
    }
}

/// The fills of the first `n` components: one for each plane, made by the
/// first component stored in it.
pub open spec fn plane_fills_spec(desc: PixFmtDescriptor, n: int, width: usize, height: usize, strides: Seq<usize>) -> Seq<PlaneFill>
    decreases n,
{
    if n <= 0 {
        Seq::empty()
    } else {
        let earlier = plane_fills_spec(desc, n - 1, width, height, strides);
        if first_in_plane(desc.components@, n - 1) {
            earlier.push(plane_fill_spec(desc, n - 1, width, height, strides))
        } else {
            earlier
        }
    }
}

/// Whether a blank picture can be planned for a format: planes are numbered
/// below 8 and have a row stride, steps are not negative, and no size
/// overflows.
pub open spec fn blank_plannable(desc: PixFmtDescriptor, width: usize, height: usize, strides: Seq<usize>) -> bool {
    &&& strides.len() == 8
    &&& desc.log2_chroma_w < usize::BITS
    &&& desc.log2_chroma_h < usize::BITS
    &&& forall|i: int| 0 <= i < desc.components@.len() ==> {
        let c = #[trigger] desc.components@[i];
        &&& 0 <= c.plane < 8
        &&& c.step >= 0
        &&& strides[c.plane as int] * height + c.step * width <= usize::MAX
    }
}

/// Plans the filling of a blank picture of `width` by `height` pixels,
/// whose planes have the row strides `strides`.
pub fn blank_plane_fills(desc: &PixFmtDescriptor, width: usize, height: usize, strides: &Vec<usize>) -> (r: Vec<PlaneFill>)
    requires
        blank_plannable(*desc, width, height, strides@),
    ensures
        r@ == plane_fills_spec(*desc, desc.components@.len() as int, width, height, strides@),
{
    let mut fills: Vec<PlaneFill> = Vec::new();
    let mut cleared: Vec<bool> = Vec::new();
    let mut k: usize = 0;
    while k < 8
        invariant
            k <= 8,
            cleared@.len() == k,
            forall|j: int| 0 <= j < k ==> !cleared@[j],
        decreases 8 - k,
    {
        cleared.push(false);
        k = k + 1;
    }
    let color = desc.color();
    let mut idx: usize = 0;
    while idx < desc.components.len()
        invariant
            idx <= desc.components@.len(),
            blank_plannable(*desc, width, height, strides@),
            color == color_of_flags(desc.flags),
            cleared@.len() == 8,
            forall|p: int| 0 <= p < 8 ==> (#[trigger] cleared@[p] <==> exists|j: int| 0 <= j < idx && desc.components@[j].plane == p),
            fills@ == plane_fills_spec(*desc, idx as int, width, height, strides@),
        decreases desc.components@.len() - idx,
    {
        let comp = &desc.components[idx];
        assert(desc.components@[idx as int] == *comp);
        let plane = comp.plane();

        if cleared[plane] {
            proof {
                let j = choose|j: int| 0 <= j < idx && desc.components@[j].plane == plane;
                assert(!first_in_plane(desc.components@, idx as int));
            }
            idx = idx + 1;
            assert(forall|p: int| 0 <= p < 8 ==> (cleared@[p] <==> exists|j: int| 0 <= j < idx && desc.components@[j].plane == p)) by {
                assert forall|p: int| 0 <= p < 8 implies (#[trigger] cleared@[p] <==> exists|j: int| 0 <= j < idx && desc.components@[j].plane == p) by {
                    if exists|j: int| 0 <= j < idx && desc.components@[j].plane == p {
                        let j = choose|j: int| 0 <= j < idx && desc.components@[j].plane == p;
                        if j == idx - 1 {
                            assert(cleared@[p]);
                        } else {
                            assert(0 <= j < idx - 1);
                        }
                    }
                }
            }
            continue;
        }

        proof {
            assert forall|j: int| 0 <= j < idx implies (#[trigger] desc.components@[j]).plane != desc.components@[idx as int].plane by {
                if desc.components@[j].plane == plane {
                    assert(cleared@[plane as int]);
                }
            }
        }
        cleared.set(plane, true);

        let is_chroma = match color {
            ColorFormat::Yuv => idx > 0,
            _ => false,
        };

        let w = if is_chroma { width >> desc.log2_chroma_w() } else { width };
        let h = if is_chroma { height >> desc.log2_chroma_h() } else { height };

        let stride = strides[plane];
        let step = comp.step();
        let rows = h.saturating_sub(1);
        assert(w <= width && h <= height) by {
            let sw = desc.log2_chroma_w as usize;
            let sh = desc.log2_chroma_h as usize;
            assert((width >> sw) <= width) by (bit_vector);
            assert((height >> sh) <= height) by (bit_vector);
        }
        assert(stride * rows <= stride * height) by (nonlinear_arith)
            requires rows <= height;
        assert(step * w <= step * width) by (nonlinear_arith)
            requires w <= width;
        let size = stride * rows + step * w;

        let byte: u8 = if is_chroma { 0x80 } else { 0 };

        fills.push(PlaneFill { plane, byte, size });
        idx = idx + 1;
        proof {
            assert forall|p: int| 0 <= p < 8 implies (#[trigger] cleared@[p] <==> exists|j: int| 0 <= j < idx && desc.components@[j].plane == p) by {
                if p == plane {
                    assert(desc.components@[idx - 1].plane == p);
                } else if exists|j: int| 0 <= j < idx && desc.components@[j].plane == p {
                    let j = choose|j: int| 0 <= j < idx && desc.components@[j].plane == p;
                    assert(j != idx - 1);
                }
            }
        }
    }
    fills
}

/// The zeroed bytes libav* requires after codec extradata.
pub const AV_INPUT_BUFFER_PADDING_SIZE: usize = 64;

/// The sizes used to hand `len` bytes of extradata to a decoder: the length
/// as the codec's `int`, and the size allocated with its padding. The length
/// must fit an `int` (the codec builder stops the program otherwise).
pub fn extradata_sizes(len: usize) -> (r: (i32, usize))
    requires
        len <= i32::MAX,
    ensures
        r.0 == len,
        r.1 == len + AV_INPUT_BUFFER_PADDING_SIZE,
{
    (len as i32, len + AV_INPUT_BUFFER_PADDING_SIZE)
}

/// An error code returned by libav*.
#[derive(Debug, Clone, Copy, PartialEq, Eq, Structural)]
pub struct AvError(pub i32);

/// Why no frame was received from a decoder.
#[derive(Debug, Clone, Copy, PartialEq, Eq, Structural)]
pub enum RecvFrameError {
    NeedMoreInput,
    Eof,
    Codec(AvError),
}

/// What a decoder's receive-frame return code means: 0 is a frame, the
/// negated `EAGAIN` asks for more input, `AVERROR_EOF` ends the stream, and
/// anything else is a codec error. `eagain` is the platform's `EAGAIN`.
pub fn recv_frame_status(rc: i32, eagain: i32) -> (r: Result<(), RecvFrameError>)
    requires
        eagain > 0,
    ensures
        r == (if rc == 0 {
            Ok::<(), RecvFrameError>(())
        } else if rc == -eagain {
            Err(RecvFrameError::NeedMoreInput)
        } else if rc == AVERROR_EOF {
            Err(RecvFrameError::Eof)
        } else {
            Err(RecvFrameError::Codec(AvError(rc)))
        }),
{
    let again = -eagain;
    if rc == 0 {
        Ok(())
    } else if rc == again {
        Err(RecvFrameError::NeedMoreInput)
    } else if rc == AVERROR_EOF {
        Err(RecvFrameError::Eof)
    } else {
        Err(RecvFrameError::Codec(AvError(rc)))
    }
}

/// A call that reports success with 0 and failure with any other code.
pub fn check_zero(rc: i32) -> (r: Result<(), AvError>)
    ensures
        r == (if rc == 0 { Ok::<(), AvError>(()) } else { Err(AvError(rc)) }),
{
    if rc == 0 { Ok(()) } else { Err(AvError(rc)) }
}

/// A call that reports failure with a negative code.
pub fn check_nonnegative(rc: i32) -> (r: Result<(), AvError>)
    ensures
        r == (if rc < 0 { Err(AvError(rc)) } else { Ok::<(), AvError>(()) }),
{
    if rc < 0 { Err(AvError(rc)) } else { Ok(()) }
}

/// A packet's duration, where 0 stands for unknown.
pub fn packet_duration(duration: i64) -> (r: Option<i64>)
    ensures
        r == (if duration == 0 { None } else { Some(duration) }),
{
    if duration == 0 { None } else { Some(duration) }
}

/// Whether a packet's flags mark a key frame.
pub fn is_key_frame(flags: i32) -> (r: bool)
    ensures
        r == ((flags & AV_PKT_FLAG_KEY) != 0),
{
    (flags & AV_PKT_FLAG_KEY) != 0
}

/// The timestamps and data of a packet handed to a decoder.
pub struct PacketInfo<'a> {
    pub pts: i64,
    pub dts: i64,
    pub data: &'a [u8],
}

/// The video media type.
#[derive(Debug)]
pub struct Video;

/// Why a codec could not be set up.
#[derive(Debug, Clone, Copy, PartialEq, Eq, Structural)]
pub enum BuildError {
    MediaTypeMismatch,
    CodecNotFound,
}

} // verus!
