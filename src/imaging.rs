use vstd::prelude::*;
use vstd::arithmetic::div_mod::{lemma_div_is_ordered, lemma_div_multiples_vanish, lemma_fundamental_div_mod};

verus! {

/// An RGB image of 8-bit channels, stored row by row, three bytes a pixel.
#[derive(Clone, Debug)]
pub struct SourceImg {
    pub width: u32,
    pub height: u32,
    pub data: Vec<u8>,
}

impl SourceImg {
    pub open spec fn wf(&self) -> bool {
        self.data@.len() == self.width * self.height * 3
    }

    /// Wraps raw RGB bytes; refuses a buffer of the wrong length.
    pub fn from_raw(width: u32, height: u32, data: Vec<u8>) -> (r: Option<SourceImg>)
        ensures
            r is Some <==> data@.len() == width * height * 3,
            r matches Some(img) ==> img.wf() && img.width == width && img.height == height
                && img.data@ == data@,
    {
        let n = data.len() as u64;
        proof {
            assert((width as u64) * (height as u64) <= u64::MAX) by (nonlinear_arith)
                requires
                    width <= u32::MAX,
                    height <= u32::MAX,
            ;
            lemma_fundamental_div_mod(n as int, 3);
        }
        let wh = (width as u64) * (height as u64);
        if n % 3 == 0 && n / 3 == wh {
            Some(SourceImg { width, height, data })
        } else {
            None
        }
    }

    pub fn dimensions(&self) -> (r: (u32, u32))
        ensures
            r == (self.width, self.height),
    {
        (self.width, self.height)
    }

    /// The colour of the pixel in column `x` and row `y`.
    pub fn pixel(&self, x: u32, y: u32) -> (r: [u8; 3])
        requires
            self.wf(),
            x < self.width,
            y < self.height,
        ensures
            r@ == seq![
                self.data@[pixel_at(self.width as nat, x as nat, y as nat)],
                self.data@[pixel_at(self.width as nat, x as nat, y as nat) + 1],
                self.data@[pixel_at(self.width as nat, x as nat, y as nat) + 2],
            ],
    {
        let len = self.data.len();
        proof {
            lemma_pixel_in_bounds(self.width as nat, self.height as nat, x as nat, y as nat);
        }
        let at = (y as usize * self.width as usize + x as usize) * 3;
        let r = [self.data[at], self.data[at + 1], self.data[at + 2]];
        assert(r@ =~= seq![self.data@[at as int], self.data@[at + 1], self.data@[at + 2]]);
        r
    }
}

/// Offset of the first byte of pixel `(x, y)` in an image `w` pixels wide.
pub open spec fn pixel_at(w: nat, x: nat, y: nat) -> int {
    ((y * w + x) * 3) as int
}

pub proof fn lemma_pixel_in_bounds(w: nat, h: nat, x: nat, y: nat)
    requires
        x < w,
        y < h,
    ensures
        pixel_at(w, x, y) + 2 < w * h * 3,
        y * w + x < w * h,
        y * w <= y * w + x,
{
    assert(y * w + x < w * h) by (nonlinear_arith)
        requires
            x < w,
            y < h,
    ;
}

/// The `side` by `side` square of `data` (an image `w` pixels wide) whose top
/// left corner is `(x0, y0)`.
pub open spec fn cropped_data(data: Seq<u8>, w: nat, x0: nat, y0: nat, side: nat) -> Seq<u8> {
    Seq::new(
        side * side * 3,
        |i: int| data[pixel_at(w, (x0 + (i / 3) % side as int) as nat, (y0 + (i / 3) / side as int) as nat) + i % 3],
    )
}

/// The pixels that a Lanczos-3 resampling of a `width` by `height` image makes
/// at `side` by `side`.
pub uninterp spec fn lanczos3_resized(width: nat, height: nat, data: Seq<u8>, side: nat) -> Seq<u8>;

/// What decoding an encoded image and converting it to 8-bit RGB gives:
/// width, height and pixel bytes.
pub uninterp spec fn decoded_rgb8(bytes: Seq<u8>) -> (u32, u32, Seq<u8>);

#[verifier::external_type_specification]
#[verifier::external_body]
pub struct ExImageError(image::ImageError);

/// Relies on image::imageops::crop_imm and SubImage::to_image: a copy of the
/// square, which lies inside the image, so no clamping happens.
#[verifier::external_body]
pub(crate) fn crop_square(img: &SourceImg, x0: u32, y0: u32, side: u32) -> (r: SourceImg)
    requires
        img.wf(),
        x0 + side <= img.width,
        y0 + side <= img.height,
    ensures
        r.wf(),
        r.width == side,
        r.height == side,
        r.data@ == cropped_data(img.data@, img.width as nat, x0 as nat, y0 as nat, side as nat),
{
    let view = image::RgbImage::from_raw(img.width, img.height, img.data.clone()).unwrap();
    let out = image::imageops::crop_imm(&view, x0, y0, side, side).to_image();
    SourceImg { width: out.width(), height: out.height(), data: out.into_raw() }
}

/// Relies on image::imageops::resize with FilterType::Lanczos3: an image of
/// the requested size, and a plain copy when the size does not change.
#[verifier::external_body]
pub(crate) fn resize_square(img: &SourceImg, side: u32) -> (r: SourceImg)
    requires
        img.wf(),
        side * side * 3 <= usize::MAX,
    ensures
        r.wf(),
        r.width == side,
        r.height == side,
        r.data@ == lanczos3_resized(img.width as nat, img.height as nat, img.data@, side as nat),
        img.width == side && img.height == side ==> r.data@ == img.data@,
{
    let view = image::RgbImage::from_raw(img.width, img.height, img.data.clone()).unwrap();
    let out = image::imageops::resize(&view, side, side, image::imageops::FilterType::Lanczos3);
    SourceImg { width: out.width(), height: out.height(), data: out.into_raw() }
}

/// Relies on image::load_from_memory followed by DynamicImage::to_rgb8.
#[verifier::external_body]
pub(crate) fn decode_rgb(bytes: &[u8]) -> (r: Result<SourceImg, image::ImageError>)
    ensures
        r matches Ok(img) ==> img.wf() && (img.width, img.height, img.data@) == decoded_rgb8(bytes@),
{
    match image::load_from_memory(bytes) {
        Ok(decoded) => {
            let rgb = decoded.to_rgb8();
            Ok(SourceImg { width: rgb.width(), height: rgb.height(), data: rgb.into_raw() })
        },
        Err(e) => Err(e),
    }
}

/// Offsets and scale are counted in thousandths.
pub const CROP_UNIT: i32 = 1000;

/// Where and how much to zoom into an image to make it square: `x` and `y`
/// run from -1000 (left or top edge) over 0 (centred) to 1000 (right or
/// bottom edge), `scale` from 1000 (the largest square) upwards. Values out
/// of range are clamped.
#[derive(Clone, Copy, Debug, PartialEq, Eq, Structural)]
pub struct CropScale {
    pub x: i32,
    pub y: i32,
    pub scale: u32,
}

pub open spec fn clamp_unit(v: int) -> int {
    if v < -CROP_UNIT {
        -CROP_UNIT as int
    } else if v > CROP_UNIT {
        CROP_UNIT as int
    } else {
        v
    }
}

pub open spec fn min_nat(a: nat, b: nat) -> nat {
    if a < b {
        a
    } else {
        b
    }
}

/// Side of the square cut out of a `w` by `h` image at the given scale.
pub open spec fn crop_side(w: nat, h: nat, scale: nat) -> nat {
    let s = if scale < CROP_UNIT { CROP_UNIT as nat } else { scale };
    let base = min_nat(w, h);
    let c = base * (CROP_UNIT as nat) / s;
    min_nat(if c < 1 { 1 } else { c }, base)
}

/// Offset of the square along an axis with `room` pixels to spare.
pub open spec fn crop_offset(v: int, room: nat) -> nat {
    ((clamp_unit(v) + CROP_UNIT) * room / (2 * CROP_UNIT)) as nat
}

impl CropScale {
    pub open spec fn side_for(&self, w: nat, h: nat) -> nat {
        crop_side(w, h, self.scale as nat)
    }

    pub open spec fn origin_for(&self, w: nat, h: nat) -> (nat, nat) {
        let c = self.side_for(w, h);
        (crop_offset(self.x as int, (w - c) as nat), crop_offset(self.y as int, (h - c) as nat))
    }

    /// The pixels that `apply` gives for an image.
    pub open spec fn applied(&self, w: nat, h: nat, data: Seq<u8>, side: nat) -> Seq<u8> {
        let c = self.side_for(w, h);
        let (x0, y0) = self.origin_for(w, h);
        let square = cropped_data(data, w, x0, y0, c);
        if c == side {
            square
        } else {
            lanczos3_resized(c, c, square, side)
        }
    }

    pub fn identity() -> (r: Self)
        ensures
            r == (CropScale { x: 0, y: 0, scale: CROP_UNIT as u32 }),
    {
        CropScale { x: 0, y: 0, scale: CROP_UNIT as u32 }
    }

    /// Cuts the square this describes out of `img` and brings it to `sidelen`
    /// pixels a side, resampling only when the square has another size.
    pub fn apply(&self, img: &SourceImg, sidelen: u32) -> (r: SourceImg)
        requires
            img.wf(),
            sidelen * sidelen * 3 <= usize::MAX,
        ensures
            r.wf(),
            r.width == sidelen,
            r.height == sidelen,
            r.data@ == self.applied(img.width as nat, img.height as nat, img.data@, sidelen as nat),
    {
        let w = img.width as u64;
        let h = img.height as u64;
        let s: u64 = if self.scale < CROP_UNIT as u32 { CROP_UNIT as u64 } else { self.scale as u64 };
        let base: u64 = if w < h { w } else { h };
        let c0 = base * (CROP_UNIT as u64) / s;
        let c1 = if c0 < 1 { 1 } else { c0 };
        let cs: u64 = if c1 < base { c1 } else { base };
        let x0 = offset(self.x, w - cs);
        let y0 = offset(self.y, h - cs);
        let square = crop_square(img, x0 as u32, y0 as u32, cs as u32);
        if cs == sidelen as u64 {
            square
        } else {
            resize_square(&square, sidelen)
        }
    }
}

/// Computes `crop_offset`.
fn offset(v: i32, room: u64) -> (r: u64)
    requires
        room <= u32::MAX,
    ensures
        r == crop_offset(v as int, room as nat),
        r <= room,
{
    let c: i64 = if v < -CROP_UNIT { -CROP_UNIT as i64 } else if v > CROP_UNIT { CROP_UNIT as i64 } else { v as i64 };
    let a = (c + CROP_UNIT as i64) as u64;
    proof {
        assert(a * room <= 2000 * room) by (nonlinear_arith)
            requires
                a <= 2000,
        ;
        lemma_div_is_ordered((a * room) as int, (2000 * room) as int, 2000);
        lemma_div_multiples_vanish(room as int, 2000);
    }
    a * room / (2 * CROP_UNIT as u64)
}

/// An image of side `s` is left as it is by the identity crop at side `s`.
pub proof fn lemma_identity_keeps_square(data: Seq<u8>, s: nat)
    requires
        s > 0,
        data.len() == s * s * 3,
    ensures
        (CropScale { x: 0, y: 0, scale: CROP_UNIT as u32 }).applied(s, s, data, s) == data,
{
    let cs = CropScale { x: 0, y: 0, scale: CROP_UNIT as u32 };
    lemma_div_multiples_vanish(s as int, 1000);
    assert(s * 1000 == 1000 * s);
    assert(cs.side_for(s, s) == s);
    assert(crop_offset(0, 0) == 0);
    assert(cs.origin_for(s, s) == (0nat, 0nat));
    let sq = cropped_data(data, s, 0, 0, s);
    assert forall|i: int| 0 <= i < sq.len() implies sq[i] == data[i] by {
        let p = i / 3;
        let q = p / s as int;
        let m = p % s as int;
        lemma_fundamental_div_mod(i, 3);
        lemma_fundamental_div_mod(p, s as int);
        assert(0 <= p);
        assert(0 <= q && 0 <= m);
        assert(q * s == s * q) by (nonlinear_arith);
        assert(pixel_at(s, (0 + m) as nat, (0 + q) as nat) == (q * s + m) * 3);
        assert((q * s + m) * 3 == p * 3);
        assert(pixel_at(s, (0 + m) as nat, (0 + q) as nat) + i % 3 == i);
        assert(sq[i] == data[pixel_at(s, (0 + m) as nat, (0 + q) as nat) + i % 3]);
    }
    assert(sq =~= data);
}

} // verus!
