use vstd::arithmetic::div_mod::{
    lemma_div_pos_is_pos, lemma_fundamental_div_mod, lemma_mod_pos_bound, lemma_multiply_divide_lt,
};
use vstd::prelude::*;

verus! {

/// An image as a mathematical value: row-major pixels of three channels
/// (red, green, blue), one byte each.
pub struct Raster {
    pub width: nat,
    pub height: nat,
    pub pixels: Seq<u8>,
}

pub open spec fn raster_wf(img: Raster) -> bool {
    img.pixels.len() == 3 * img.width * img.height
}

/// Channel `c` of the pixel in column `x` and row `y`.
pub open spec fn pixel_at(img: Raster, x: int, y: int, c: int) -> u8 {
    img.pixels[3 * (y * img.width + x) + c]
}

/// Where a centred window of `side` starts along an axis of length `total`.
pub open spec fn crop_origin(total: nat, side: nat) -> int {
    (total - side) / 2
}

/// The centred `side` by `side` window of `img`.
pub open spec fn center_cropped(img: Raster, side: nat) -> Raster {
    Raster {
        width: side,
        height: side,
        pixels: Seq::new(
            3 * side * side,
            |i: int|
                pixel_at(
                    img,
                    (i / 3) % (side as int) + crop_origin(img.width, side),
                    (i / 3) / (side as int) + crop_origin(img.height, side),
                    i % 3,
                ),
        ),
    }
}

/// The channels of `img` as three planes one after the other (channel, row,
/// column), instead of interleaved per pixel.
pub open spec fn planar(img: Raster) -> Seq<u8> {
    let area = (img.width * img.height) as int;
    Seq::new(
        3 * img.width * img.height,
        |i: int|
            pixel_at(img, (i % area) % (img.width as int), (i % area) / (img.width as int), i / area),
    )
}

/// An 8-bit RGB image, row-major, three bytes per pixel.
pub struct Rgb8Image {
    pub(crate) width: u32,
    pub(crate) height: u32,
    pub(crate) pixels: Vec<u8>,
}

impl View for Rgb8Image {
    type V = Raster;

    closed spec fn view(&self) -> Raster {
        Raster { width: self.width as nat, height: self.height as nat, pixels: self.pixels@ }
    }
}

impl Rgb8Image {
    pub open spec fn wf(&self) -> bool {
        raster_wf(self@)
    }

    /// An image of the given size over `pixels`, when it holds exactly three
    /// bytes per pixel.
    pub fn from_pixels(width: u32, height: u32, pixels: Vec<u8>) -> (r: Option<Rgb8Image>)
        ensures
            r is Some <==> pixels@.len() == 3 * width * height,
            r matches Some(img) ==> img@ == (Raster {
                width: width as nat,
                height: height as nat,
                pixels: pixels@,
            }),
    {
        proof {
            assert(width as int * height as int <= 0xFFFF_FFFF * 0xFFFF_FFFF) by (nonlinear_arith)
                requires
                    0 <= width <= 0xFFFF_FFFF,
                    0 <= height <= 0xFFFF_FFFF,
            ;
        }
        let area: u64 = width as u64 * height as u64;
        let len = pixels.len();
        proof {
            lemma_fundamental_div_mod(len as int, 3);
            assert(3 * width * height == 3 * (width * height)) by (nonlinear_arith);
        }
        if len % 3 == 0 && (len / 3) as u64 == area {
            Some(Rgb8Image { width, height, pixels })
        } else {
            None
        }
    }

    pub fn width(&self) -> (r: u32)
        ensures
            r == self@.width,
    {
        self.width
    }

    pub fn height(&self) -> (r: u32)
        ensures
            r == self@.height,
    {
        self.height
    }

    pub fn pixels(&self) -> (r: &Vec<u8>)
        ensures
            r@ == self@.pixels,
    {
        &self.pixels
    }
}

/// `p < s * t` splits into a row `p / s < t` and a column `p % s < s`.
proof fn lemma_split(p: int, s: int, t: int)
    requires
        0 <= p < s * t,
        0 < s,
    ensures
        0 <= p % s < s,
        0 <= p / s < t,
        p == s * (p / s) + p % s,
{
    lemma_mod_pos_bound(p, s);
    lemma_div_pos_is_pos(p, s);
    lemma_multiply_divide_lt(p, s, t);
    lemma_fundamental_div_mod(p, s);
}

/// A pixel inside the image has its three bytes inside the buffer.
proof fn lemma_pixel_in_bounds(x: int, y: int, c: int, w: int, h: int)
    requires
        0 <= x < w,
        0 <= y < h,
        0 <= c < 3,
    ensures
        0 <= 3 * (y * w + x) + c < 3 * w * h,
{
    assert(0 <= y * w) by (nonlinear_arith)
        requires
            0 <= y,
            0 <= w,
    ;
    assert(y * w + x < w * h) by (nonlinear_arith)
        requires
            0 <= x < w,
            0 <= y < h,
    ;
    assert(3 * (y * w + x) + c < 3 * w * h) by (nonlinear_arith)
        requires
            y * w + x < w * h,
            0 <= c < 3,
    ;
}

/// Cuts the centred `side` by `side` window out of `img`; the window starts at
/// `(width - side) / 2` and `(height - side) / 2`.
pub fn center_crop(img: &Rgb8Image, side: u32) -> (r: Rgb8Image)
    requires
        img.wf(),
        0 < side <= img@.width,
        side <= img@.height,
    ensures
        r.wf(),
        r@ == center_cropped(img@, side as nat),
{
    let ghost src = img@;
    let len = img.pixels.len();
    let w = img.width as usize;
    let h = img.height as usize;
    let s = side as usize;
    let ox = (w - s) / 2;
    let oy = (h - s) / 2;
    proof {
        assert(s * s <= w * h) by (nonlinear_arith)
            requires
                s <= w,
                s <= h,
        ;
        assert(3 * s * s <= 3 * w * h) by (nonlinear_arith)
            requires
                s * s <= w * h,
        ;
        assert(s * s <= 3 * s * s) by (nonlinear_arith);
        assert(3 * s * s == 3 * (s * s)) by (nonlinear_arith);
    }
    let total = 3 * (s * s);
    let ghost spec_pixels = center_cropped(src, side as nat).pixels;
    let mut out: Vec<u8> = Vec::with_capacity(total);
    let mut j: usize = 0;
    while j < total
        invariant
            img@ == src,
            raster_wf(src),
            src.width == w,
            src.height == h,
            s == side,
            0 < s <= w,
            s <= h,
            ox == crop_origin(src.width, side as nat),
            oy == crop_origin(src.height, side as nat),
            total == 3 * s * s,
            total == 3 * (s * s),
            total <= 3 * w * h,
            len == 3 * w * h,
            spec_pixels == center_cropped(src, side as nat).pixels,
            0 <= j <= total,
            out@.len() == j,
            forall|k: int| 0 <= k < j ==> out@[k] == #[trigger] spec_pixels[k],
        decreases total - j,
    {
        let p = j / 3;
        let c = j % 3;
        proof {
            lemma_split(j as int, 3, s * s);
            lemma_split(p as int, s as int, s as int);
        }
        let y = p / s;
        let x = p % s;
        proof {
            lemma_pixel_in_bounds((x + ox) as int, (y + oy) as int, c as int, w as int, h as int);
        }
        let v = img.pixels[3 * ((y + oy) * w + (x + ox)) + c];
        out.push(v);
        j = j + 1;
    }
    assert(out@ =~= spec_pixels);
    Rgb8Image { width: side, height: side, pixels: out }
}

/// Lays the channels of `img` out as three planes: the result holds channel
/// `c` of the pixel in row `y` and column `x` at `c * width * height + y *
/// width + x`.
pub fn to_planar(img: &Rgb8Image) -> (r: Vec<u8>)
    requires
        img.wf(),
    ensures
        r@ == planar(img@),
{
    let ghost src = img@;
    let w = img.width as usize;
    let h = img.height as usize;
    let total = img.pixels.len();
    if total == 0 {
        assert(planar(src) =~= Seq::<u8>::empty());
        return Vec::new();
    }
    proof {
        assert(w > 0 && h > 0) by (nonlinear_arith)
            requires
                total == 3 * w * h,
                total != 0,
                w >= 0,
                h >= 0,
        ;
        assert(w * h <= 3 * w * h) by (nonlinear_arith)
            requires
                w >= 0,
                h >= 0,
        ;
    }
    let area = w * h;
    let ghost spec_levels = planar(src);
    let mut out: Vec<u8> = Vec::with_capacity(total);
    let mut j: usize = 0;
    while j < total
        invariant
            img@ == src,
            raster_wf(src),
            src.width == w,
            src.height == h,
            w > 0,
            h > 0,
            area == w * h,
            total == 3 * w * h,
            spec_levels == planar(src),
            0 <= j <= total,
            out@.len() == j,
            forall|k: int| 0 <= k < j ==> out@[k] == #[trigger] spec_levels[k],
        decreases total - j,
    {
        proof {
            assert(3 * w * h == area * 3) by (nonlinear_arith)
                requires
                    area == w * h,
            ;
            lemma_split(j as int, area as int, 3);
        }
        let c = j / area;
        let q = j % area;
        proof {
            assert(area == w * h);
            lemma_split(q as int, w as int, h as int);
        }
        let y = q / w;
        let x = q % w;
        proof {
            lemma_pixel_in_bounds(x as int, y as int, c as int, w as int, h as int);
            assert(y * w + x == q) by (nonlinear_arith)
                requires
                    q == w * y + x,
            ;
        }
        let v = img.pixels[3 * q + c];
        out.push(v);
        j = j + 1;
    }
    assert(out@ =~= spec_levels);
    out
}

} // verus!
