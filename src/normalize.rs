use crate::error::PipelineError;
use crate::raster::{center_crop, center_cropped, planar, raster_wf, to_planar, Raster, Rgb8Image};
use vstd::prelude::*;

verus! {

/// Both edges of a decoded image are first scaled to this length.
pub const RESIZE_EDGE: u32 = 256;

/// The centred square of this side is then kept: the model's input size.
pub const INPUT_EDGE: u32 = 224;

#[verifier::external_type_specification]
#[verifier::external_body]
pub struct ExImageError(image::ImageError);

/// The 8-bit RGB image that the `image` crate decodes from `bytes`, if any.
pub uninterp spec fn rgb8_decoding(bytes: Seq<u8>) -> Option<Raster>;

/// The pixels of `img` scaled to `width` by `height` with the triangle
/// (bilinear) filter of the `image` crate.
pub uninterp spec fn triangle_resized(img: Raster, width: nat, height: nat) -> Seq<u8>;

/// Relies on `image::load_from_memory`, which guesses the format from the bytes
/// and decodes them, and on `DynamicImage::to_rgb8`, which converts to 8-bit RGB
/// into a new buffer of exactly three bytes per pixel. The decoded pixels depend
/// on the bytes alone: the JPEG decoder is built with `platform_independent`,
/// which rules out its machine-dependent SIMD paths.
#[verifier::external_body]
fn decode_rgb8(bytes: &[u8]) -> (r: Result<Rgb8Image, image::ImageError>)
    ensures
        r is Ok <==> rgb8_decoding(bytes@) is Some,
        r matches Ok(img) ==> img@ == rgb8_decoding(bytes@)->Some_0 && img.wf(),
{
    let decoded = image::load_from_memory(bytes)?;
    let rgb = decoded.to_rgb8();
    Ok(Rgb8Image { width: rgb.width(), height: rgb.height(), pixels: rgb.into_raw() })
}

/// `img` scaled to `width` by `height` with the triangle filter.
pub open spec fn resized_raster(img: Raster, width: nat, height: nat) -> Raster {
    Raster { width, height, pixels: triangle_resized(img, width, height) }
}

/// Relies on `ImageBuffer::from_raw`, which accepts a buffer of at least three
/// bytes per pixel, and on `image::imageops::resize` with
/// `FilterType::Triangle`, which returns a new buffer of exactly three bytes per
/// pixel of the requested size.
#[verifier::external_body]
fn resize_triangle(img: &Rgb8Image, width: u32, height: u32) -> (r: Option<Rgb8Image>)
    requires
        img.wf(),
        img@.width > 0,
        img@.height > 0,
        width > 0,
        height > 0,
    ensures
        r is Some,
        r matches Some(out) ==> out.wf(),
        r matches Some(out) ==> out@.width == width && out@.height == height,
        r matches Some(out) ==> out@.pixels == triangle_resized(img@, width as nat, height as nat),
{
    let src = image::RgbImage::from_raw(img.width, img.height, img.pixels.clone())?;
    let out = image::imageops::resize(&src, width, height, image::imageops::FilterType::Triangle);
    Some(Rgb8Image { width: out.width(), height: out.height(), pixels: out.into_raw() })
}

/// A decoded image with at least one pixel.
pub open spec fn valid_image(bytes: Seq<u8>) -> bool {
    rgb8_decoding(bytes) matches Some(img) && img.width > 0 && img.height > 0
}

/// The levels of the model input made from `bytes`: decoded, scaled to
/// `RESIZE_EDGE` square, cropped to the centred `INPUT_EDGE` square, and laid
/// out channel by channel.
pub open spec fn normalized(bytes: Seq<u8>) -> Result<Seq<u8>, PipelineError> {
    if valid_image(bytes) {
        let img = rgb8_decoding(bytes)->Some_0;
        let resized = resized_raster(img, RESIZE_EDGE as nat, RESIZE_EDGE as nat);
        Ok(planar(center_cropped(resized, INPUT_EDGE as nat)))
    } else {
        Err(PipelineError::DecodeError)
    }
}

/// The number of elements of a model input.
pub open spec fn input_len() -> nat {
    (3 * INPUT_EDGE * INPUT_EDGE) as nat
}

/// A model input of shape `[1, 3, INPUT_EDGE, INPUT_EDGE]`.
///
/// Each element is a level `v` of one byte, which stands for the value
/// `v / 255` in `[0.0, 1.0]`; the levels are stored channel by channel, then
/// row by row.
pub struct NormalizedTensor {
    levels: Vec<u8>,
}

impl NormalizedTensor {
    /// The levels fill the shape exactly.
    #[verifier::type_invariant]
    spec fn fills_shape(&self) -> bool {
        self.levels@.len() == input_len()
    }
}

impl View for NormalizedTensor {
    type V = Seq<u8>;

    closed spec fn view(&self) -> Seq<u8> {
        self.levels@
    }
}

impl NormalizedTensor {
    /// The shape of the tensor, batch first.
    pub fn shape(&self) -> (r: Vec<i64>)
        ensures
            r@ == seq![1i64, 3i64, INPUT_EDGE as i64, INPUT_EDGE as i64],
            self@.len() == r@[1] * r@[2] * r@[3],
    {
        proof {
            use_type_invariant(self);
        }
        vec![1, 3, INPUT_EDGE as i64, INPUT_EDGE as i64]
    }

    /// The levels, channel by channel, then row by row.
    pub fn levels(&self) -> (r: &Vec<u8>)
        ensures
            r@ == self@,
            r@.len() == input_len(),
    {
        proof {
            use_type_invariant(self);
        }
        &self.levels
    }

    pub fn into_levels(self) -> (r: Vec<u8>)
        ensures
            r@ == self@,
            r@.len() == input_len(),
    {
        proof {
            use_type_invariant(&self);
        }
        self.levels
    }
}

/// Turns encoded image bytes into the model input: decode, convert to RGB,
/// scale both edges to `RESIZE_EDGE` with the triangle filter, keep the centred
/// `INPUT_EDGE` square, and lay the channels out as planes.
pub fn normalize(bytes: &[u8]) -> (r: Result<NormalizedTensor, PipelineError>)
    ensures
        match normalized(bytes@) {
            Ok(levels) => r matches Ok(t) && t@ == levels,
            Err(e) => r == Err::<NormalizedTensor, PipelineError>(e),
        },
        !valid_image(bytes@) ==> r == Err::<NormalizedTensor, PipelineError>(
            PipelineError::DecodeError,
        ),
        r matches Ok(t) ==> t@.len() == input_len(),
{
    let decoded = match decode_rgb8(bytes) {
        Ok(img) => img,
        Err(_) => return Err(PipelineError::DecodeError),
    };
    if decoded.width() == 0 || decoded.height() == 0 {
        return Err(PipelineError::DecodeError);
    }
    let resized = match resize_triangle(&decoded, RESIZE_EDGE, RESIZE_EDGE) {
        Some(img) => img,
        None => return Err(PipelineError::DecodeError),
    };
    let cropped = center_crop(&resized, INPUT_EDGE);
    let levels = to_planar(&cropped);
    assert(levels@.len() == input_len());
    Ok(NormalizedTensor { levels })
}

/// Every valid image becomes a tensor of `3 * INPUT_EDGE * INPUT_EDGE` elements
/// (shape `[1, 3, INPUT_EDGE, INPUT_EDGE]`), each of them in `[0.0, 1.0]`.
pub proof fn lemma_valid_image_normalizes(bytes: Seq<u8>)
    requires
        valid_image(bytes),
    ensures
        normalized(bytes) matches Ok(levels) && levels.len() == input_len() && forall|i: int|
            0 <= i < levels.len() ==> 0 <= #[trigger] levels[i] as int / 255 <= 1
                && levels[i] as int <= 255,
{
}

/// Every byte buffer that is not a valid image is rejected as undecodable.
pub proof fn lemma_invalid_image_rejected(bytes: Seq<u8>)
    requires
        !valid_image(bytes),
    ensures
        normalized(bytes) == Err::<Seq<u8>, PipelineError>(PipelineError::DecodeError),
{
}

} // verus!
