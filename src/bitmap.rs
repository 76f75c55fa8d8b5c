use vstd::prelude::*;

verus! {

/// An RGBA bitmap with 8 bits per channel: rows top to bottom, pixels left to right,
/// four bytes per pixel, no padding.
#[derive(Clone, Debug)]
pub struct Bitmap {
    pub width: u32,
    pub height: u32,
    pub data: Vec<u8>,
}

impl Bitmap {
    /// The buffer holds exactly `width * height` pixels.
    pub open spec fn wf(&self) -> bool {
        self.data@.len() == self.width * self.height * 4
    }

    /// The bitmap as dimensions and bytes.
    pub open spec fn view(&self) -> (nat, nat, Seq<u8>) {
        (self.width as nat, self.height as nat, self.data@)
    }
}

/// One of the five rotate/flip operations that orientation metadata calls for.
#[derive(Clone, Copy, Debug, PartialEq, Eq, Structural)]
pub enum Transform {
    FlipHorizontal,
    FlipVertical,
    Rotate90,
    Rotate180,
    Rotate270,
}

/// Dimensions after `op` on a `w` by `h` bitmap.
pub open spec fn transformed_dims(op: Transform, w: nat, h: nat) -> (nat, nat) {
    match op {
        Transform::Rotate90 | Transform::Rotate270 => (h, w),
        _ => (w, h),
    }
}

/// The source pixel `(x, y)` that lands on output pixel `(ox, oy)` when `op` (rotations
/// clockwise) is applied to a `w` by `h` bitmap.
pub open spec fn source_pixel(op: Transform, w: int, h: int, ox: int, oy: int) -> (int, int) {
    match op {
        Transform::FlipHorizontal => (w - 1 - ox, oy),
        Transform::FlipVertical => (ox, h - 1 - oy),
        Transform::Rotate90 => (oy, h - 1 - ox),
        Transform::Rotate180 => (w - 1 - ox, h - 1 - oy),
        Transform::Rotate270 => (w - 1 - oy, ox),
    }
}

/// The bytes of a `w` by `h` bitmap `d` after `op`: each output byte is the same channel
/// of the source pixel that lands there.
pub open spec fn transformed_data(op: Transform, w: nat, h: nat, d: Seq<u8>) -> Seq<u8> {
    let ow = transformed_dims(op, w, h).0 as int;
    Seq::new(
        d.len(),
        |i: int|
            {
                let p = i / 4;
                let s = source_pixel(op, w as int, h as int, p % ow, p / ow);
                d[(s.1 * w + s.0) * 4 + i % 4]
            },
    )
}

/// The bitmap after `op`.
pub open spec fn transformed(op: Transform, b: (nat, nat, Seq<u8>)) -> (nat, nat, Seq<u8>) {
    let dims = transformed_dims(op, b.0, b.1);
    (dims.0, dims.1, transformed_data(op, b.0, b.1, b.2))
}

/// What the outside codec makes of a file's bytes: width, height and RGBA bytes, or nothing
/// where it cannot decode them.
pub uninterp spec fn decoded_of(file: Seq<u8>) -> Option<(u32, u32, Seq<u8>)>;

/// What the outside codec's thumbnail resampling makes of bitmap `src` when it is fitted,
/// aspect ratio kept, inside `bound`.
pub uninterp spec fn thumbnail_of(src: (u32, u32, Seq<u8>), bound: (u32, u32)) -> (
    u32,
    u32,
    Seq<u8>,
);

/// Relies on image::load_from_memory and DynamicImage::to_rgba8: decodes a file held in
/// memory, its format guessed from its first bytes, into an RGBA8 buffer of width * height
/// pixels.
#[verifier::external_body]
pub(crate) fn decode(file: &[u8]) -> (r: Option<Bitmap>)
    ensures
        match r {
            Some(b) => b.wf() && decoded_of(file@) == Some((b.width, b.height, b.data@)),
            None => decoded_of(file@) is None,
        },
{
    let img = image::load_from_memory(file).ok()?.to_rgba8();
    Some(Bitmap { width: img.width(), height: img.height(), data: img.into_raw() })
}

/// Relies on image::imageops::flip_horizontal: output pixel (x, y) is input pixel
/// (w - 1 - x, y).
#[verifier::external_body]
fn flip_horizontal(b: Bitmap) -> (r: Bitmap)
    requires
        b.wf(),
    ensures
        r.wf(),
        r@ == transformed(Transform::FlipHorizontal, b@),
{
    let img = image::RgbaImage::from_raw(b.width, b.height, b.data).unwrap();
    let out = image::imageops::flip_horizontal(&img);
    Bitmap { width: out.width(), height: out.height(), data: out.into_raw() }
}

/// Relies on image::imageops::flip_vertical: output pixel (x, y) is input pixel
/// (x, h - 1 - y).
#[verifier::external_body]
fn flip_vertical(b: Bitmap) -> (r: Bitmap)
    requires
        b.wf(),
    ensures
        r.wf(),
        r@ == transformed(Transform::FlipVertical, b@),
{
    let img = image::RgbaImage::from_raw(b.width, b.height, b.data).unwrap();
    let out = image::imageops::flip_vertical(&img);
    Bitmap { width: out.width(), height: out.height(), data: out.into_raw() }
}

/// Relies on image::imageops::rotate90: a clockwise quarter turn; input pixel (x, y) lands
/// on (h - 1 - y, x) of an h by w output.
#[verifier::external_body]
fn rotate90(b: Bitmap) -> (r: Bitmap)
    requires
        b.wf(),
    ensures
        r.wf(),
        r@ == transformed(Transform::Rotate90, b@),
{
    let img = image::RgbaImage::from_raw(b.width, b.height, b.data).unwrap();
    let out = image::imageops::rotate90(&img);
    Bitmap { width: out.width(), height: out.height(), data: out.into_raw() }
}

/// Relies on image::imageops::rotate180: input pixel (x, y) lands on (w - 1 - x, h - 1 - y).
#[verifier::external_body]
fn rotate180(b: Bitmap) -> (r: Bitmap)
    requires
        b.wf(),
    ensures
        r.wf(),
        r@ == transformed(Transform::Rotate180, b@),
{
    let img = image::RgbaImage::from_raw(b.width, b.height, b.data).unwrap();
    let out = image::imageops::rotate180(&img);
    Bitmap { width: out.width(), height: out.height(), data: out.into_raw() }
}

/// Relies on image::imageops::rotate270: three clockwise quarter turns; input pixel (x, y)
/// lands on (y, w - 1 - x) of an h by w output.
#[verifier::external_body]
fn rotate270(b: Bitmap) -> (r: Bitmap)
    requires
        b.wf(),
    ensures
        r.wf(),
        r@ == transformed(Transform::Rotate270, b@),
{
    let img = image::RgbaImage::from_raw(b.width, b.height, b.data).unwrap();
    let out = image::imageops::rotate270(&img);
    Bitmap { width: out.width(), height: out.height(), data: out.into_raw() }
}

/// Relies on image::DynamicImage::thumbnail: scales both sides by the smaller of the two
/// ratios bound / side, rounding each side and keeping it at least one pixel, and
/// resamples to that size.
#[verifier::external_body]
fn thumbnail(b: Bitmap, bound_w: u32, bound_h: u32) -> (r: Bitmap)
    requires
        b.wf(),
        b.width >= 1,
        b.height >= 1,
        1 <= bound_w <= b.width,
        1 <= bound_h <= b.height,
    ensures
        r.wf(),
        (r.width, r.height, r.data@) == thumbnail_of((b.width, b.height, b.data@), (bound_w, bound_h)),
{
    let img = image::RgbaImage::from_raw(b.width, b.height, b.data).unwrap();
    let out = image::DynamicImage::ImageRgba8(img).thumbnail(bound_w, bound_h).to_rgba8();
    Bitmap { width: out.width(), height: out.height(), data: out.into_raw() }
}

/// Applies one rotate/flip operation.
pub fn apply_transform(b: Bitmap, op: Transform) -> (r: Bitmap)
    requires
        b.wf(),
    ensures
        r.wf(),
        r@ == transformed(op, b@),
{
    match op {
        Transform::FlipHorizontal => flip_horizontal(b),
        Transform::FlipVertical => flip_vertical(b),
        Transform::Rotate90 => rotate90(b),
        Transform::Rotate180 => rotate180(b),
        Transform::Rotate270 => rotate270(b),
    }
}

/// Shrinks the bitmap to fit inside `bound_w` by `bound_h`, aspect ratio kept. An empty
/// bound, or one that is larger than the bitmap on either side, leaves it as it is.
pub fn fit_inside(b: Bitmap, bound_w: u32, bound_h: u32) -> (r: Bitmap)
    requires
        b.wf(),
    ensures
        r.wf(),
        if 1 <= bound_w <= b.width && 1 <= bound_h <= b.height {
            (r.width, r.height, r.data@) == thumbnail_of((b.width, b.height, b.data@), (bound_w, bound_h))
        } else {
            r@ == b@
        },
{
    if 1 <= bound_w && bound_w <= b.width && 1 <= bound_h && bound_h <= b.height {
        thumbnail(b, bound_w, bound_h)
    } else {
        b
    }
}

} // verus!
