use std::io::Cursor;

use image::{DynamicImage, GrayImage, ImageFormat, Luma, Rgb, RgbImage, Rgba, RgbaImage};
use webp_convert::decoding::{is_image_file, try_decode, ColorKind, DecodedImage};

fn encode_as(image: &DynamicImage, format: ImageFormat) -> Vec<u8> {
    let mut out = Cursor::new(Vec::new());
    image.write_to(&mut out, format).unwrap();
    out.into_inner()
}

fn rgb_sample() -> DynamicImage {
    DynamicImage::ImageRgb8(RgbImage::from_fn(5, 3, |x, y| {
        Rgb([(x * 40) as u8, (y * 80) as u8, (x + y) as u8])
    }))
}

#[test]
fn decodes_a_png_pixel_for_pixel() {
    let source = rgb_sample();
    let decoded = try_decode(&encode_as(&source, ImageFormat::Png)).unwrap();
    assert_eq!(decoded.color(), ColorKind::Rgb8);
    assert_eq!(decoded.width(), 5);
    assert_eq!(decoded.height(), 3);
    assert_eq!(decoded.pixels().len(), 5 * 3 * 3);
    assert_eq!(decoded.pixels().as_slice(), source.as_bytes());
}

#[test]
fn decodes_by_content_in_several_formats() {
    let source = rgb_sample();
    for format in [ImageFormat::Png, ImageFormat::Jpeg, ImageFormat::Bmp, ImageFormat::Gif] {
        let bytes = encode_as(&source, format);
        assert!(is_image_file(&bytes), "{:?}", format);
        let decoded = try_decode(&bytes).unwrap();
        assert_eq!((decoded.width(), decoded.height()), (5, 3), "{:?}", format);
    }
}

#[test]
fn keeps_the_layout_of_the_source() {
    let with_alpha = DynamicImage::ImageRgba8(RgbaImage::from_pixel(2, 2, Rgba([1, 2, 3, 4])));
    let decoded = try_decode(&encode_as(&with_alpha, ImageFormat::Png)).unwrap();
    assert_eq!(decoded.color(), ColorKind::Rgba8);
    assert_eq!(decoded.pixels().as_slice(), &[1u8, 2, 3, 4].repeat(4)[..]);

    let gray = DynamicImage::ImageLuma8(GrayImage::from_pixel(4, 1, Luma([9])));
    let decoded = try_decode(&encode_as(&gray, ImageFormat::Png)).unwrap();
    assert_eq!(decoded.color(), ColorKind::L8);
    assert_eq!(decoded.pixels().as_slice(), &[9u8, 9, 9, 9][..]);

    let deep = DynamicImage::ImageRgb16(image::ImageBuffer::from_pixel(2, 1, Rgb([1u16, 2, 3])));
    let decoded = try_decode(&encode_as(&deep, ImageFormat::Png)).unwrap();
    assert_eq!(decoded.color(), ColorKind::Rgb16);
    assert_eq!(decoded.pixels().len(), 2 * 1 * 6);
}

#[test]
fn text_is_no_image() {
    assert!(!is_image_file(b"just some notes\n"));
    assert!(try_decode(b"just some notes\n").is_none());
    assert!(!is_image_file(b""));
}

#[test]
fn a_truncated_image_is_no_image() {
    let bytes = encode_as(&rgb_sample(), ImageFormat::Png);
    assert!(!is_image_file(&bytes[..bytes.len() / 2]));
    assert!(!is_image_file(&bytes[..8]));
}

#[test]
fn bytes_per_pixel_of_each_kind() {
    let expected = [
        (ColorKind::L8, 1),
        (ColorKind::La8, 2),
        (ColorKind::Rgb8, 3),
        (ColorKind::Rgba8, 4),
        (ColorKind::L16, 2),
        (ColorKind::La16, 4),
        (ColorKind::Rgb16, 6),
        (ColorKind::Rgba16, 8),
        (ColorKind::Rgb32F, 12),
        (ColorKind::Rgba32F, 16),
    ];
    for (kind, bytes) in expected {
        assert_eq!(kind.bytes_per_pixel(), bytes, "{:?}", kind);
    }
}

#[test]
fn an_image_is_made_only_of_a_fitting_buffer() {
    let image = DecodedImage::from_pixels(ColorKind::Rgb8, 2, 2, vec![0; 12]).unwrap();
    assert_eq!(image.width(), 2);
    assert_eq!(image.height(), 2);
    assert_eq!(image.color(), ColorKind::Rgb8);
    assert_eq!(image.pixels().len(), 12);
    assert!(DecodedImage::from_pixels(ColorKind::Rgb8, 2, 2, vec![0; 11]).is_none());
    assert!(DecodedImage::from_pixels(ColorKind::Rgb8, 2, 2, vec![0; 13]).is_none());
    assert!(DecodedImage::from_pixels(ColorKind::Rgba8, 2, 2, vec![0; 12]).is_none());
    assert!(DecodedImage::from_pixels(ColorKind::Rgba8, 0, 7, vec![]).is_some());
    assert!(DecodedImage::from_pixels(ColorKind::L8, u32::MAX, u32::MAX, vec![0; 4]).is_none());
}
