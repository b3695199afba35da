use asciifyer::convert::{
    art_from_decoded, convert_bytes_to_ascii, convert_decoded, convert_raster, decode_image, format_for_extension, resize,
    sizing_within_limit, try_convert_bytes, ConvertError,
};
use asciifyer::dimension::{target_dimension, Dimension, Sizing};
use asciifyer::raster::{Format, Raster};

fn uniform(width: u32, height: u32, level: u8) -> Raster {
    let mut data = Vec::new();
    for _ in 0..width * height {
        data.extend_from_slice(&[level, level, level, 255]);
    }
    Raster { width, height, data }
}

fn png(width: u32, height: u32, data: Vec<u8>) -> Vec<u8> {
    let img = image::RgbaImage::from_raw(width, height, data).unwrap();
    let mut out = std::io::Cursor::new(Vec::new());
    img.write_to(&mut out, image::ImageFormat::Png).unwrap();
    out.into_inner()
}

#[test]
fn fit_resizes_to_exact_box_when_exceeding() {
    let d = target_dimension(10, 10, &Sizing::Fit(Dimension::new(5, 20)));
    assert_eq!((d.width(), d.height()), (5, 20));
    let d = target_dimension(10, 30, &Sizing::Fit(Dimension::new(40, 20)));
    assert_eq!((d.width(), d.height()), (40, 20));
}

#[test]
fn fit_keeps_an_image_within_the_box() {
    let d = target_dimension(4, 4, &Sizing::Fit(Dimension::new(5, 5)));
    assert_eq!((d.width(), d.height()), (4, 4));
    let d = target_dimension(5, 5, &Sizing::Fit(Dimension::new(5, 5)));
    assert_eq!((d.width(), d.height()), (5, 5));
    let img = resize(uniform(3, 2, 0), &Sizing::Fit(Dimension::new(3, 9)));
    assert_eq!((img.width, img.height), (3, 2));
}

#[test]
fn scale_divides_and_floors() {
    let d = target_dimension(10, 7, &Sizing::Scale(Some(3)));
    assert_eq!((d.width(), d.height()), (3, 2));
}

#[test]
fn unit_scale_keeps_dimensions() {
    let d = target_dimension(10, 7, &Sizing::Scale(Some(1)));
    assert_eq!((d.width(), d.height()), (10, 7));
    let d = target_dimension(10, 7, &Sizing::Scale(None));
    assert_eq!((d.width(), d.height()), (10, 7));
    let img = uniform(2, 2, 128);
    let data = img.data.clone();
    let same = resize(img, &Sizing::Scale(None));
    assert_eq!(same.data, data);
}

#[test]
fn oversized_raster_is_resized_before_rendering() {
    let art = convert_raster(uniform(4, 2, 0), &Sizing::Fit(Dimension::new(2, 1)));
    assert_eq!(art, "@@");
    let art = convert_raster(uniform(6, 6, 255), &Sizing::Scale(Some(2)));
    assert_eq!(art, "   \n   \n   ");
}

#[test]
fn resize_limit_is_checked() {
    assert!(sizing_within_limit(2, 1, &Sizing::Fit(Dimension::new(1, 100_000))));
    assert!(!sizing_within_limit(2, 1, &Sizing::Fit(Dimension::new(1, 70_000_000))));
    assert!(sizing_within_limit(4_000_000, 4_000_000, &Sizing::Scale(None)));
}

#[test]
fn png_bytes_convert_to_art() {
    let bytes = png(2, 1, vec![0, 0, 0, 255, 255, 255, 255, 255]);
    let img = decode_image(&bytes, Format::Png).unwrap();
    assert_eq!((img.width, img.height), (2, 1));
    assert_eq!(img.data, vec![0, 0, 0, 255, 255, 255, 255, 255]);
    assert_eq!(try_convert_bytes(&bytes, Format::Png, &Sizing::Scale(None)), Ok("@ ".to_string()));
    assert_eq!(convert_bytes_to_ascii(&bytes, Some(Format::Png), None), "@ ");
}

#[test]
fn undecodable_bytes_give_decode_error() {
    let bytes = b"not an image".to_vec();
    assert_eq!(decode_image(&bytes, Format::Png).err(), Some(ConvertError::Decode));
    assert_eq!(try_convert_bytes(&bytes, Format::Png, &Sizing::Scale(None)), Err(ConvertError::Decode));
    assert_eq!(try_convert_bytes(&[], Format::Png, &Sizing::Scale(None)), Err(ConvertError::Decode));
}

#[test]
fn undecodable_bytes_give_empty_art() {
    assert_eq!(convert_bytes_to_ascii(b"not an image", Some(Format::Bmp), None), "");
    assert_eq!(convert_bytes_to_ascii(&[], Some(Format::Gif), Some(Sizing::Fit(Dimension::new(10, 10)))), "");
}

#[test]
fn oversized_resize_gives_too_large() {
    let bytes = png(2, 1, vec![0; 8]);
    let sizing = Sizing::Fit(Dimension::new(1, 70_000_000));
    assert_eq!(try_convert_bytes(&bytes, Format::Png, &sizing), Err(ConvertError::TooLarge));
    assert_eq!(convert_bytes_to_ascii(&bytes, Some(Format::Png), Some(Sizing::Fit(Dimension::new(1, 70_000_000)))), "");
}

#[test]
fn no_sizing_keeps_the_image_size() {
    let bytes = png(300, 2, vec![255; 300 * 2 * 4]);
    let art = convert_bytes_to_ascii(&bytes, Some(Format::Png), None);
    let rows: Vec<&str> = art.split('\n').collect();
    assert_eq!(rows.len(), 2);
    assert!(rows.iter().all(|r| r.len() == 300 && r.chars().all(|c| c == ' ')));
}

#[test]
fn sizing_is_applied_to_decoded_bytes() {
    let bytes = png(4, 4, vec![0; 4 * 4 * 4]);
    let fit = convert_bytes_to_ascii(&bytes, Some(Format::Png), Some(Sizing::Fit(Dimension::new(2, 3))));
    assert_eq!(fit, "@@\n@@\n@@");
    let scaled = convert_bytes_to_ascii(&bytes, Some(Format::Png), Some(Sizing::Scale(Some(4))));
    assert_eq!(scaled, "@");
}

#[test]
fn decode_results_become_art_or_errors() {
    let sizing = Sizing::Scale(None);
    assert_eq!(convert_decoded(Err(ConvertError::Decode), &sizing), Err(ConvertError::Decode));
    assert_eq!(art_from_decoded(Err(ConvertError::Decode), &sizing), "");
    assert_eq!(convert_decoded(Ok(uniform(2, 1, 255)), &sizing), Ok("  ".to_string()));
    assert_eq!(art_from_decoded(Ok(uniform(1, 2, 0)), &sizing), "@\n@");
    let huge = Sizing::Fit(Dimension::new(1, 70_000_000));
    assert_eq!(convert_decoded(Ok(uniform(2, 1, 0)), &huge), Err(ConvertError::TooLarge));
    assert_eq!(art_from_decoded(Ok(uniform(2, 1, 0)), &huge), "");
}

#[test]
fn resized_pixels_repeat_source_pixels() {
    let mut data = Vec::new();
    for level in [0u8, 60, 120, 180, 240, 255] {
        data.extend_from_slice(&[level, level, level, 255]);
    }
    let src = Raster { width: 3, height: 2, data };
    let sources: Vec<Vec<u8>> = src.data.chunks(4).map(|p| p.to_vec()).collect();
    let out = resize(src, &Sizing::Fit(Dimension::new(2, 5)));
    assert_eq!((out.width, out.height), (2, 5));
    assert!(out.data.chunks(4).all(|p| sources.contains(&p.to_vec())));
}

#[test]
fn extensions_name_formats() {
    assert_eq!(format_for_extension("png"), Some(Format::Png));
    assert_eq!(format_for_extension("JPG"), Some(Format::Jpeg));
    assert_eq!(format_for_extension("jpeg"), Some(Format::Jpeg));
    assert_eq!(format_for_extension("gif"), Some(Format::Gif));
    assert_eq!(format_for_extension("bmp"), Some(Format::Bmp));
    assert_eq!(format_for_extension("tiff"), None);
    assert_eq!(format_for_extension("txt"), None);
}

#[test]
fn bytes_are_read_as_the_given_format() {
    let bytes = png(2, 1, vec![0, 0, 0, 255, 255, 255, 255, 255]);
    assert_eq!(try_convert_bytes(&bytes, Format::Gif, &Sizing::Scale(None)), Err(ConvertError::Decode));
    assert_eq!(convert_bytes_to_ascii(&bytes, Some(Format::Bmp), None), "");
    assert_eq!(convert_bytes_to_ascii(&bytes, None, None), "");
}

#[test]
fn jpeg_bytes_convert_to_art_of_their_size() {
    let img = image::RgbImage::from_pixel(5, 3, image::Rgb([0, 0, 0]));
    let mut out = std::io::Cursor::new(Vec::new());
    img.write_to(&mut out, image::ImageFormat::Jpeg).unwrap();
    let art = convert_bytes_to_ascii(&out.into_inner(), Some(Format::Jpeg), None);
    let rows: Vec<&str> = art.split('\n').collect();
    assert_eq!(rows.len(), 3);
    assert!(rows.iter().all(|r| r.chars().count() == 5));
}
