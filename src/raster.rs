//! Decoded images as plain RGBA samples, and the calls into the `image`
//! crate that decode and resize them.
use vstd::prelude::*;

verus! {

/// A decoded image: `width * height` pixels in row-major order, four bytes
/// each (red, green, blue, alpha).
pub struct Raster {
    pub width: u32,
    pub height: u32,
    pub data: Vec<u8>,
}

impl Raster {
    /// The sample buffer holds exactly four bytes for every pixel.
    pub open spec fn wf(&self) -> bool {
        self.data@.len() == self.width as int * self.height as int * 4
    }
}

/// Image formats whose decoders this library is built with.
#[derive(Clone, Copy, Debug, PartialEq, Eq, Structural)]
pub enum Format {
    Png,
    Jpeg,
    Gif,
    Bmp,
}

impl Format {
    /// Decoding gives the same samples for the same bytes on every machine.
    /// Not so for JPEG: its decoder chooses vectorised or scalar colour
    /// conversion and upsampling by the processor at run time, and nothing
    /// promises that the two agree to the byte.
    pub open spec fn is_portable(self) -> bool {
        self != Format::Jpeg
    }
}

/// `c` with ASCII upper case turned to lower case.
pub open spec fn ascii_lower(c: char) -> char {
    if 'A' <= c <= 'Z' {
        ((c as u32) + 32) as char
    } else {
        c
    }
}

/// The format that `image` associates with a file extension, compared without
/// regard to ASCII case, where it is one of `Format`'s.
pub open spec fn extension_format(ext: Seq<char>) -> Option<Format> {
    let e = ext.map_values(|c: char| ascii_lower(c));
    if e == seq!['p', 'n', 'g'] || e == seq!['a', 'p', 'n', 'g'] {
        Some(Format::Png)
    } else if e == seq!['j', 'p', 'g'] || e == seq!['j', 'p', 'e', 'g'] || e == seq!['j', 'f', 'i', 'f'] {
        Some(Format::Jpeg)
    } else if e == seq!['g', 'i', 'f'] {
        Some(Format::Gif)
    } else if e == seq!['b', 'm', 'p'] {
        Some(Format::Bmp)
    } else {
        None
    }
}

/// The four samples of pixel `i`.
pub open spec fn pixel_at(data: Seq<u8>, i: int) -> Seq<u8> {
    data.subrange(4 * i, 4 * i + 4)
}

/// Each of the `count` pixels of `dst` repeats the samples of one of the
/// `src_count` pixels of `src`.
pub open spec fn copies_pixels_of(dst: Seq<u8>, count: int, src: Seq<u8>, src_count: int) -> bool {
    forall|i: int| #![trigger pixel_at(dst, i)] 0 <= i && i < count ==> exists|j: int|
        #![trigger pixel_at(src, j)] 0 <= j && j < src_count && pixel_at(dst, i) == pixel_at(src, j)
}

/// Width, height and RGBA samples of the image that `image` decodes from
/// `bytes` read as `format`, or `None` where it cannot decode them. Only
/// stated of portable formats.
pub uninterp spec fn decoded_of(bytes: Seq<u8>, format: Format) -> Option<(u32, u32, Seq<u8>)>;

/// RGBA samples of the `new_width` x `new_height` image that `image`'s
/// nearest-neighbour resampling makes of a `width` x `height` image.
pub uninterp spec fn nearest_of(
    width: u32,
    height: u32,
    samples: Seq<u8>,
    new_width: u32,
    new_height: u32,
) -> Seq<u8>;

#[verifier::external_type_specification]
#[verifier::external_body]
pub struct ExImageError(image::ImageError);

/// Relies on `image::ImageFormat::from_extension`, which lower-cases the
/// extension's ASCII letters and looks it up in a fixed table: "png" and
/// "apng", "jpg", "jpeg" and "jfif", "gif", "bmp" name the formats of
/// `Format`; the formats that this library is not built with become `None`.
#[verifier::external_body]
pub(crate) fn format_from_extension(ext: &str) -> (r: Option<Format>)
    ensures
        r == extension_format(ext@),
{
    match image::ImageFormat::from_extension(ext) {
        Some(image::ImageFormat::Png) => Some(Format::Png),
        Some(image::ImageFormat::Jpeg) => Some(Format::Jpeg),
        Some(image::ImageFormat::Gif) => Some(Format::Gif),
        Some(image::ImageFormat::Bmp) => Some(Format::Bmp),
        _ => None,
    }
}

/// Relies on `image::load_from_memory_with_format`, which decodes `bytes`
/// with the built-in decoder of the given format (no decoding hook is
/// consulted, since the format is set rather than guessed), and on
/// `DynamicImage::to_rgba8`, which turns the result into 8-bit RGBA samples,
/// one buffer of `width * height * 4` bytes.
#[verifier::external_body]
pub(crate) fn decode_rgba(bytes: &[u8], format: Format) -> (r: Result<Raster, image::ImageError>)
    ensures
        match r {
            Ok(img) => img.wf() && (format.is_portable()
                ==> decoded_of(bytes@, format) == Some((img.width, img.height, img.data@))),
            Err(_) => format.is_portable() ==> decoded_of(bytes@, format) is None,
        },
{
    let outside = match format {
        Format::Png => image::ImageFormat::Png,
        Format::Jpeg => image::ImageFormat::Jpeg,
        Format::Gif => image::ImageFormat::Gif,
        Format::Bmp => image::ImageFormat::Bmp,
    };
    image::load_from_memory_with_format(bytes, outside).map(|decoded| {
        let rgba = decoded.to_rgba8();
        Raster { width: rgba.width(), height: rgba.height(), data: rgba.into_raw() }
    })
}

/// Largest buffer, in bytes, that a resize may allocate: the largest
/// allocation a 32-bit target admits (`isize::MAX` there). The same bound
/// holds on every target, so that whether an image can be resized does not
/// depend on the machine.
pub const MAX_RESIZE_BYTES: u64 = 0x7fff_ffff;

/// Resizing a `width` x `height` image to `new_width` x `new_height` stays
/// within `MAX_RESIZE_BYTES`: the intermediate buffer holds `width *
/// new_height` pixels of four 4-byte floats, the result `new_width *
/// new_height` pixels of four bytes.
pub open spec fn resize_fits(width: u32, height: u32, new_width: u32, new_height: u32) -> bool {
    &&& width as int * new_height as int * 16 <= MAX_RESIZE_BYTES
    &&& new_width as int * new_height as int * 4 <= MAX_RESIZE_BYTES
}

/// Relies on `image::imageops::resize` with `FilterType::Nearest`: the result
/// has exactly the requested dimensions, in a fresh buffer of `new_width *
/// new_height * 4` bytes. `ImageBuffer::from_raw` accepts the samples since
/// they fill the dimensions exactly. The nearest filter is a box kernel with
/// no support: each output pixel is sampled from exactly one source pixel
/// with weight one, first along columns, then along rows, so it repeats that
/// pixel's samples.
#[verifier::external_body]
pub(crate) fn resize_nearest(img: &Raster, new_width: u32, new_height: u32) -> (r: Raster)
    requires
        img.wf(),
        resize_fits(img.width, img.height, new_width, new_height),
    ensures
        r.wf(),
        r.width == new_width,
        r.height == new_height,
        r.data@ == nearest_of(img.width, img.height, img.data@, new_width, new_height),
        img.width > 0 && img.height > 0 ==> copies_pixels_of(
            r.data@,
            new_width * new_height,
            img.data@,
            img.width * img.height,
        ),
{
    let src: image::RgbaImage = image::ImageBuffer::from_raw(img.width, img.height, img.data.clone()).unwrap();
    let out = image::imageops::resize(&src, new_width, new_height, image::imageops::FilterType::Nearest);
    Raster { width: out.width(), height: out.height(), data: out.into_raw() }
}

} // verus!
