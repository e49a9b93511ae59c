use image::{DynamicImage, ImageOutputFormat, Rgb, RgbImage};
use img_service::key::TransformCfg;
use img_service::transform::{fits, transform, TransformError};
use std::io::Cursor;

fn sample_png(w: u32, h: u32) -> Vec<u8> {
    let mut img = RgbImage::new(w, h);
    for (x, y, p) in img.enumerate_pixels_mut() {
        *p = Rgb([(x * 40) as u8, (y * 40) as u8, 128]);
    }
    let mut out = Cursor::new(Vec::new());
    DynamicImage::ImageRgb8(img)
        .write_to(&mut out, ImageOutputFormat::Png)
        .unwrap();
    out.into_inner()
}

#[test]
fn resizes_to_exact_size() {
    let raw = sample_png(6, 4);
    let out = transform(&raw, TransformCfg::new(3, 5)).unwrap();
    assert_ne!(out, raw);
    let img = image::load_from_memory(&out).unwrap();
    assert_eq!(img.width(), 3);
    assert_eq!(img.height(), 5);
    assert_eq!(&out[1..4], b"PNG");
}

#[test]
fn transform_is_pure() {
    let raw = sample_png(5, 5);
    let a = transform(&raw, TransformCfg::new(2, 2)).unwrap();
    let b = transform(&raw, TransformCfg::new(2, 2)).unwrap();
    assert_eq!(a, b);
}

#[test]
fn corrupt_bytes_fail_to_decode() {
    assert_eq!(
        transform(b"not an image", TransformCfg::new(2, 2)),
        Err(TransformError::Decode)
    );
    assert_eq!(transform(&[], TransformCfg::new(2, 2)), Err(TransformError::Decode));
}

#[test]
fn zero_size_fails_to_encode() {
    let raw = sample_png(4, 4);
    assert_eq!(transform(&raw, TransformCfg::new(0, 3)), Err(TransformError::Encode));
}

#[test]
fn memory_bound() {
    assert!(fits(&TransformCfg::new(800, 800)));
    assert!(fits(&TransformCfg::new(u32::MAX, 1)));
    assert_eq!(
        fits(&TransformCfg::new(u32::MAX, u32::MAX)),
        (u32::MAX as u128) * (u32::MAX as u128) * 4 <= usize::MAX as u128
    );
}
