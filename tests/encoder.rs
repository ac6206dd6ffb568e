use image::{DynamicImage, ImageBuffer};
use webp::encoder::{
    check_config, check_encode_status, expected_len, lossless_switches, picture_import,
    saturating_mul,
};
use webp::{BufferTooSmall, CheckedEncoder, Encoder, PictureImport, PixelLayout, WebPEncodingError};

#[test]
fn test_encoder_new_assigns_fields() {
    let data = [5; 18];
    let enc = Encoder::new(&data, PixelLayout::Rgb, 2, 3);
    assert_eq!(enc.image(), &data);
    assert_eq!(enc.layout(), PixelLayout::Rgb);
    assert_eq!(enc.width(), 2);
    assert_eq!(enc.height(), 3);
}

#[test]
fn test_encoder_from_rgb_and_rgba() {
    let rgb = [10, 20, 30, 40, 50, 60];
    let rgba = [1, 2, 3, 4, 5, 6, 7, 8];
    let enc_rgb = Encoder::from_rgb(&rgb, 2, 1);
    let enc_rgba = Encoder::from_rgba(&rgba, 2, 1);
    assert_eq!(enc_rgb.layout(), PixelLayout::Rgb);
    assert_eq!(enc_rgba.layout(), PixelLayout::Rgba);
    assert_eq!(enc_rgb.image(), &rgb);
    assert_eq!(enc_rgba.image(), &rgba);
    assert_eq!(enc_rgb.width(), 2);
    assert_eq!(enc_rgba.height(), 1);
}

#[test]
fn test_encoder_from_image_error_branches() {
    let luma = DynamicImage::ImageLuma8(ImageBuffer::from_pixel(1, 1, image::Luma([0])));
    let luma_a = DynamicImage::ImageLumaA8(ImageBuffer::from_pixel(1, 1, image::LumaA([0, 0])));
    assert!(Encoder::from_image(&luma).is_err());
    assert!(Encoder::from_image(&luma_a).is_err());

    let rgb = DynamicImage::ImageRgb8(ImageBuffer::from_pixel(2, 2, image::Rgb([1, 2, 3])));
    let rgba =
        DynamicImage::ImageRgba8(ImageBuffer::from_pixel(2, 2, image::Rgba([1, 2, 3, 4])));
    assert!(Encoder::from_image(&rgb).is_ok());
    assert!(Encoder::from_image(&rgba).is_ok());
}

#[test]
fn from_image_keeps_pixels_and_size() {
    let rgba = DynamicImage::ImageRgba8(ImageBuffer::from_pixel(3, 2, image::Rgba([1, 2, 3, 4])));
    let enc = Encoder::from_image(&rgba).unwrap();
    assert_eq!(enc.layout(), PixelLayout::Rgba);
    assert_eq!((enc.width(), enc.height()), (3, 2));
    assert_eq!(enc.image().len(), 24);
    assert_eq!(&enc.image()[..4], &[1, 2, 3, 4]);
    let luma = DynamicImage::ImageLuma8(ImageBuffer::from_pixel(1, 1, image::Luma([0])));
    assert_eq!(Encoder::from_image(&luma).err(), Some("Unimplemented"));
}

#[test]
fn construct_encoder_with_buffer_overflow_is_refused() {
    let r = Encoder::try_new(&[], PixelLayout::Rgb, 16383, 16383);
    assert_eq!(
        r.err(),
        Some(BufferTooSmall { expected: 16383 * 16383 * 3, actual: 0 })
    );
}

#[test]
fn checked_encoder_accepts_exact_and_longer_buffers() {
    let data = [0u8; 25];
    assert!(CheckedEncoder::new(&data[..24], PixelLayout::Rgba, 3, 2).is_ok());
    assert!(CheckedEncoder::new(&data, PixelLayout::Rgba, 3, 2).is_ok());
    let short = CheckedEncoder::new(&data[..23], PixelLayout::Rgba, 3, 2);
    assert_eq!(short.err(), Some(BufferTooSmall { expected: 24, actual: 23 }));
}

#[test]
fn checked_encoder_accepts_zero_sizes() {
    assert!(CheckedEncoder::new(&[], PixelLayout::Rgb, 0, 100).is_ok());
    assert!(CheckedEncoder::new(&[], PixelLayout::Rgba, 100, 0).is_ok());
}

#[test]
fn product_overflowing_u32_is_not_masked() {
    // 65536 * 65536 * 4 wraps to 0 in 32 bits; the check must not be fooled.
    let data = [0u8; 16];
    let r = CheckedEncoder::new(&data, PixelLayout::Rgba, 65536, 65536);
    let err = r.err().unwrap();
    assert_eq!(err.actual, 16);
    assert_eq!(err.expected as u128, 65536u128 * 65536 * 4);
}

#[test]
fn expected_len_saturates() {
    assert_eq!(expected_len(PixelLayout::Rgb, 2, 3), 18);
    assert_eq!(expected_len(PixelLayout::Rgba, 0, 7), 0);
    assert_eq!(expected_len(PixelLayout::Rgba, u32::MAX, u32::MAX), usize::MAX);
    assert_eq!(saturating_mul(usize::MAX, 2), usize::MAX);
    assert_eq!(saturating_mul(6, 7), 42);
    let err = CheckedEncoder::new(&[1, 2, 3], PixelLayout::Rgba, u32::MAX, u32::MAX)
        .err()
        .unwrap();
    assert_eq!(err, BufferTooSmall { expected: usize::MAX, actual: 3 });
}

#[test]
fn picture_import_plans_rows() {
    let data = [0u8; 18];
    let input = CheckedEncoder::new(&data, PixelLayout::Rgb, 2, 3).unwrap();
    assert_eq!(
        picture_import(&input, 2, 3),
        Ok(PictureImport { layout: PixelLayout::Rgb, width: 2, height: 3, stride: 6 })
    );
    let empty = CheckedEncoder::new(&[], PixelLayout::Rgba, 0, 0).unwrap();
    assert_eq!(
        picture_import(&empty, 0, 0),
        Ok(PictureImport { layout: PixelLayout::Rgba, width: 0, height: 0, stride: 0 })
    );
}

#[test]
fn picture_import_refuses_wide_rows() {
    let input = CheckedEncoder::new(&[], PixelLayout::Rgba, 1 << 30, 0).unwrap();
    assert_eq!(
        picture_import(&input, 1 << 30, 0),
        Err(WebPEncodingError::VP8_ENC_ERROR_BAD_DIMENSION)
    );
    let tall = CheckedEncoder::new(&[], PixelLayout::Rgb, 0, u32::MAX).unwrap();
    assert_eq!(
        picture_import(&tall, 0, u32::MAX),
        Err(WebPEncodingError::VP8_ENC_ERROR_BAD_DIMENSION)
    );
}

#[test]
fn picture_import_refuses_a_canvas_larger_than_the_buffer() {
    let data = [0u8; 12];
    let input = CheckedEncoder::new(&data, PixelLayout::Rgba, 1, 3).unwrap();
    assert!(picture_import(&input, 1, 3).is_ok());
    assert_eq!(
        picture_import(&input, 2, 3),
        Err(WebPEncodingError::VP8_ENC_ERROR_BAD_DIMENSION)
    );
}

#[test]
fn config_check_reads_zero_as_rejection() {
    assert_eq!(
        check_config(0),
        Err(WebPEncodingError::VP8_ENC_ERROR_INVALID_CONFIGURATION)
    );
    assert_eq!(check_config(1), Ok(()));
}

#[test]
fn encode_status_reads_nonzero_as_success() {
    assert_eq!(
        check_encode_status(1, WebPEncodingError::VP8_ENC_OK),
        Ok(())
    );
    assert_eq!(
        check_encode_status(0, WebPEncodingError::VP8_ENC_ERROR_BAD_DIMENSION),
        Err(WebPEncodingError::VP8_ENC_ERROR_BAD_DIMENSION)
    );
}

#[test]
fn encoder_from_frame_keeps_the_frame() {
    let data = [1u8, 2, 3, 4, 5, 6];
    let frame = webp::AnimFrame::from_rgb(&data, 2, 1, 5);
    let enc = Encoder::from_frame(&frame);
    assert_eq!(enc.image(), &data);
    assert_eq!((enc.width(), enc.height(), enc.layout()), (2, 1, PixelLayout::Rgb));
}

#[test]
fn lossless_switches_turn_alpha_compression_around() {
    assert_eq!(lossless_switches(true), (1, 0));
    assert_eq!(lossless_switches(false), (0, 1));
}

#[test]
fn length_check_boundary_is_exact() {
    let data = [0u8; 12];
    // 2 x 2 RGB needs exactly 12 bytes.
    assert!(CheckedEncoder::new(&data, PixelLayout::Rgb, 2, 2).is_ok());
    assert_eq!(
        CheckedEncoder::new(&data[..11], PixelLayout::Rgb, 2, 2).err(),
        Some(BufferTooSmall { expected: 12, actual: 11 })
    );
}
