//! From encoded image bytes to ASCII art: decode, size, render.
use vstd::prelude::*;
use crate::dimension::{target_dimension, target_of, Dimension, Sizing};
use crate::raster::{
    copies_pixels_of, decode_rgba, decoded_of, extension_format, format_from_extension, nearest_of,
    resize_fits, resize_nearest, Format, Raster, MAX_RESIZE_BYTES,
};
use crate::render::{ascii_art, render};

verus! {

/// Why encoded bytes gave no ASCII art.
#[derive(Clone, Copy, Debug, PartialEq, Eq, Structural)]
pub enum ConvertError {
    /// The bytes are no image that could be decoded.
    Decode,
    /// Resizing the image would need more than `MAX_RESIZE_BYTES` of buffer.
    TooLarge,
}

/// Width, height and samples of a `width` x `height` image resized to
/// `new_width` x `new_height`; an image that already has that size is kept
/// as it is.
pub open spec fn resized_of(
    width: u32,
    height: u32,
    data: Seq<u8>,
    new_width: u32,
    new_height: u32,
) -> (u32, u32, Seq<u8>) {
    if new_width == width && new_height == height {
        (width, height, data)
    } else {
        (new_width, new_height, nearest_of(width, height, data, new_width, new_height))
    }
}

/// The image after `sizing`.
pub open spec fn sized_of(width: u32, height: u32, data: Seq<u8>, sizing: Sizing) -> (u32, u32, Seq<u8>) {
    resized_of(width, height, data, target_of(width, height, sizing).0, target_of(width, height, sizing).1)
}

/// `sizing` leaves the image as it is, or resizes it within `MAX_RESIZE_BYTES`.
pub open spec fn sizing_fits(width: u32, height: u32, sizing: Sizing) -> bool {
    let (w, h) = target_of(width, height, sizing);
    (w == width && h == height) || resize_fits(width, height, w, h)
}

/// ASCII art of the image after `sizing`.
pub open spec fn sized_art(width: u32, height: u32, data: Seq<u8>, sizing: Sizing) -> Seq<char> {
    let (w, h, d) = sized_of(width, height, data, sizing);
    ascii_art(w, h, d)
}

/// What converting `bytes`, read as `format`, under `sizing` gives.
pub open spec fn conversion_of(bytes: Seq<u8>, format: Format, sizing: Sizing) -> Result<Seq<char>, ConvertError> {
    match decoded_of(bytes, format) {
        None => Err(ConvertError::Decode),
        Some((w, h, d)) => if sizing_fits(w, h, sizing) {
            Ok(sized_art(w, h, d, sizing))
        } else {
            Err(ConvertError::TooLarge)
        },
    }
}

/// Fitting into a box resizes an image only when it is wider or higher than
/// the box, and then to exactly the box; an image that fits within the box
/// is kept as it is.
pub proof fn lemma_fit_resizes_only_oversized(width: u32, height: u32, data: Seq<u8>, target: Dimension)
    ensures
        width <= target.width() && height <= target.height()
            ==> sized_of(width, height, data, Sizing::Fit(target)) == (width, height, data),
        width > target.width() || height > target.height() ==> {
            &&& sized_of(width, height, data, Sizing::Fit(target)).0 == target.width()
            &&& sized_of(width, height, data, Sizing::Fit(target)).1 == target.height()
        },
{
}

/// Scaling by a divisor of one, or by no divisor, keeps the image as it is.
pub proof fn lemma_unit_scale_keeps_image(width: u32, height: u32, data: Seq<u8>, divisor: Option<u32>)
    requires
        divisor == None::<u32> || divisor == Some(1u32),
    ensures
        sized_of(width, height, data, Sizing::Scale(divisor)) == (width, height, data),
{
}

/// `art` is the ASCII art, after `sizing`, of some well-formed image that
/// `sizing` can be applied to.
pub open spec fn is_sized_art(art: Seq<char>, sizing: Sizing) -> bool {
    exists|w: u32, h: u32, d: Seq<u8>|
        d.len() == w * h * 4 && sizing_fits(w, h, sizing) && art == #[trigger] sized_art(w, h, d, sizing)
}

fn resize_within_limit(width: u32, height: u32, new_width: u32, new_height: u32) -> (ok: bool)
    ensures
        ok == resize_fits(width, height, new_width, new_height),
{
    let limit: u64 = MAX_RESIZE_BYTES;
    assert(width as int * new_height as int <= u32::MAX as int * u32::MAX as int) by (nonlinear_arith);
    assert(new_width as int * new_height as int <= u32::MAX as int * u32::MAX as int) by (nonlinear_arith);
    let intermediate: u64 = width as u64 * new_height as u64;
    let result: u64 = new_width as u64 * new_height as u64;
    intermediate <= limit / 16 && result <= limit / 4
}

/// Checks whether `sizing` can be applied to a `width` x `height` image.
pub fn sizing_within_limit(width: u32, height: u32, sizing: &Sizing) -> (ok: bool)
    requires
        sizing.valid(),
    ensures
        ok == sizing_fits(width, height, *sizing),
{
    let target: Dimension = target_dimension(width, height, sizing);
    (target.width() == width && target.height() == height)
        || resize_within_limit(width, height, target.width(), target.height())
}

/// Applies `sizing` to `img`.
pub fn resize(img: Raster, sizing: &Sizing) -> (r: Raster)
    requires
        img.wf(),
        sizing.valid(),
        sizing_fits(img.width, img.height, *sizing),
    ensures
        r.wf(),
        (r.width, r.height, r.data@) == sized_of(img.width, img.height, img.data@, *sizing),
        img.width > 0 && img.height > 0 && (r.width != img.width || r.height != img.height)
            ==> copies_pixels_of(r.data@, r.width * r.height, img.data@, img.width * img.height),
{
    let target: Dimension = target_dimension(img.width, img.height, sizing);
    if target.width() == img.width && target.height() == img.height {
        img
    } else {
        resize_nearest(&img, target.width(), target.height())
    }
}

/// Applies `sizing` to `img` and renders the result as ASCII art.
pub fn convert_raster(img: Raster, sizing: &Sizing) -> (art: String)
    requires
        img.wf(),
        sizing.valid(),
        sizing_fits(img.width, img.height, *sizing),
    ensures
        art@ == sized_art(img.width, img.height, img.data@, *sizing),
{
    let sized: Raster = resize(img, sizing);
    render(&sized)
}

/// The format that a file with extension `ext` is read as.
pub fn format_for_extension(ext: &str) -> (r: Option<Format>)
    ensures
        r == extension_format(ext@),
{
    format_from_extension(ext)
}

/// Decodes `bytes` as an image in `format`.
pub fn decode_image(bytes: &[u8], format: Format) -> (r: Result<Raster, ConvertError>)
    ensures
        match r {
            Ok(img) => img.wf() && (format.is_portable()
                ==> decoded_of(bytes@, format) == Some((img.width, img.height, img.data@))),
            Err(e) => e == ConvertError::Decode && (format.is_portable()
                ==> decoded_of(bytes@, format) is None),
        },
{
    match decode_rgba(bytes, format) {
        Ok(img) => Ok(img),
        Err(_) => Err(ConvertError::Decode),
    }
}

/// Applies `sizing` to the result of a decode and renders the image; a
/// decode error is passed on.
pub fn convert_decoded(decoded: Result<Raster, ConvertError>, sizing: &Sizing) -> (r: Result<String, ConvertError>)
    requires
        sizing.valid(),
        decoded matches Ok(img) ==> img.wf(),
    ensures
        match decoded {
            Err(e) => r matches Err(e2) && e2 == e,
            Ok(img) => if sizing_fits(img.width, img.height, *sizing) {
                r matches Ok(art) && art@ == sized_art(img.width, img.height, img.data@, *sizing)
            } else {
                r matches Err(e) && e == ConvertError::TooLarge
            },
        },
{
    let img: Raster = match decoded {
        Ok(img) => img,
        Err(e) => return Err(e),
    };
    if !sizing_within_limit(img.width, img.height, sizing) {
        return Err(ConvertError::TooLarge);
    }
    Ok(convert_raster(img, sizing))
}

/// Like `convert_decoded`, with every error collapsed into the empty string.
pub fn art_from_decoded(decoded: Result<Raster, ConvertError>, sizing: &Sizing) -> (art: String)
    requires
        sizing.valid(),
        decoded matches Ok(img) ==> img.wf(),
    ensures
        match decoded {
            Err(_) => art@ == Seq::<char>::empty(),
            Ok(img) => art@ == if sizing_fits(img.width, img.height, *sizing) {
                sized_art(img.width, img.height, img.data@, *sizing)
            } else {
                Seq::<char>::empty()
            },
        },
{
    match convert_decoded(decoded, sizing) {
        Ok(art) => art,
        Err(_) => String::new(),
    }
}

/// Decodes `bytes` as `format`, applies `sizing` and renders the image as
/// ASCII art.
pub fn try_convert_bytes(bytes: &[u8], format: Format, sizing: &Sizing) -> (r: Result<String, ConvertError>)
    requires
        sizing.valid(),
    ensures
        format.is_portable() ==> match r {
            Ok(art) => conversion_of(bytes@, format, *sizing) == Ok::<Seq<char>, ConvertError>(art@),
            Err(e) => conversion_of(bytes@, format, *sizing) == Err::<Seq<char>, ConvertError>(e),
        },
        r matches Ok(art) ==> is_sized_art(art@, *sizing),
{
    let decoded: Result<Raster, ConvertError> = decode_image(bytes, format);
    let ghost d = decoded;
    let r: Result<String, ConvertError> = convert_decoded(decoded, sizing);
    proof {
        if let Ok(img) = d {
            if r is Ok {
                assert(img.data@.len() == img.width * img.height * 4);
                assert(r->Ok_0@ == sized_art(img.width, img.height, img.data@, *sizing));
            }
        }
    }
    r
}

/// The sizing that an unset one stands for: the image is kept as it is.
pub open spec fn sizing_or_keep(sizing: Option<Sizing>) -> Sizing {
    match sizing {
        Some(s) => s,
        None => Sizing::Scale(None),
    }
}

/// Decodes `bytes` as `format` and renders them as ASCII art after `sizing`;
/// without a sizing the image keeps its size. No format, or bytes that give
/// no art, give the empty string.
pub fn convert_bytes_to_ascii(bytes: &[u8], format: Option<Format>, sizing: Option<Sizing>) -> (art: String)
    requires
        sizing matches Some(s) ==> s.valid(),
    ensures
        match format {
            Some(f) => f.is_portable() ==> art@ == match conversion_of(bytes@, f, sizing_or_keep(sizing)) {
                Ok(s) => s,
                Err(_) => Seq::<char>::empty(),
            },
            None => art@ == Seq::<char>::empty(),
        },
        sizing is None ==> match format {
            Some(f) => f.is_portable() ==> art@ == match decoded_of(bytes@, f) {
                Some((w, h, d)) => ascii_art(w, h, d),
                None => Seq::<char>::empty(),
            },
            None => true,
        },
        art@ == Seq::<char>::empty() || is_sized_art(art@, sizing_or_keep(sizing)),
{
    let keep: Sizing = match sizing {
        Some(s) => s,
        None => Sizing::Scale(None),
    };
    let f: Format = match format {
        Some(f) => f,
        None => return String::new(),
    };
    let decoded: Result<Raster, ConvertError> = decode_image(bytes, f);
    let ghost d = decoded;
    let art: String = art_from_decoded(decoded, &keep);
    proof {
        if let Ok(img) = d {
            if art@ != Seq::<char>::empty() {
                assert(img.data@.len() == img.width * img.height * 4);
                assert(art@ == sized_art(img.width, img.height, img.data@, keep));
            }
        }
    }
    art
}

} // verus!
