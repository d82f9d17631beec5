use grim::picture::{frame_qr_data, pixel_at, qr_gif, qr_png};
use image::codecs::png::{CompressionType, FilterType, PngEncoder};
use image::{ExtendedColorType, ImageEncoder};

fn gray_png(pixels: &[u8], width: u32, height: u32) -> Vec<u8> {
    let mut png = vec![];
    let enc = PngEncoder::new_with_quality(&mut png, CompressionType::Best, FilterType::NoFilter);
    enc.write_image(pixels, width, height, ExtendedColorType::L8).unwrap();
    png
}

#[test]
fn pixel_at_reads_rows_and_is_white_outside() {
    let pixels = vec![1u8, 2, 3, 4, 5, 6];
    assert_eq!(pixel_at(&pixels, 3, 0, 0), 1);
    assert_eq!(pixel_at(&pixels, 3, 2, 0), 3);
    assert_eq!(pixel_at(&pixels, 3, 1, 1), 5);
    assert_eq!(pixel_at(&pixels, 3, 3, 0), 255);
    assert_eq!(pixel_at(&pixels, 3, 0, 2), 255);
    assert_eq!(pixel_at(&pixels, 3, 1, usize::MAX), 255);
}

#[test]
fn qr_png_is_png_of_requested_size() {
    let png = qr_png("grim", 512).unwrap();
    assert_eq!(&png[..8], &[137u8, 80, 78, 71, 13, 10, 26, 10]);
    let img = image::load_from_memory(&png).unwrap().to_luma8();
    assert_eq!((img.width(), img.height()), (512, 512));
}

#[test]
fn qr_png_equals_direct_encoding() {
    let qr = qrcodegen::QrCode::encode_text("grim", qrcodegen::QrCodeEcc::Low).unwrap();
    let data = grim::qr_image::qr_to_image_data(&qr, 256).unwrap();
    assert_eq!(qr_png("grim", 256).unwrap(), gray_png(&data, 256, 256));
}

#[test]
fn qr_png_of_too_long_text_is_none() {
    let text = "x".repeat(8000);
    assert!(qr_png(&text, 512).is_none());
}

#[test]
fn frame_qr_data_reads_shared_png() {
    let png = qr_png("grim wallet", 512).unwrap();
    assert_eq!(frame_qr_data(&png), Some(b"grim wallet".to_vec()));
}

#[test]
fn frame_qr_data_without_code_is_none() {
    let white = vec![255u8; 64 * 64];
    assert_eq!(frame_qr_data(&gray_png(&white, 64, 64)), None);
    assert_eq!(frame_qr_data(&[1u8, 2, 3]), None);
}

#[test]
fn qr_gif_is_animated_gif() {
    let text = "a".repeat(250);
    let gif = qr_gif(&text, 256).unwrap();
    assert_eq!(&gif[..6], b"GIF89a");
    assert_eq!(*gif.last().unwrap(), 0x3B);
    let width = u16::from_le_bytes([gif[6], gif[7]]);
    let height = u16::from_le_bytes([gif[8], gif[9]]);
    assert!(width > 0 && width <= 256);
    assert_eq!(width, height);
}
