use webp::animation_encoder::{assemble_error, check_frame_added, check_mux_status};
use webp::{
    AnimEncodeError, AnimEncoder, AnimFrame, MuxAnimParams, PixelLayout, WebPConfig,
    WebPEncodingError, WebPMuxError,
};

fn default_config() -> WebPConfig {
    WebPConfig::new().expect("WebPConfig::new failed")
}

#[test]
fn test_animframe_new_and_accessors() {
    let img = [255u8, 0, 0, 255, 0, 255, 0, 255];
    let frame = AnimFrame::new(&img, PixelLayout::Rgba, 2, 1, 42, None);
    assert_eq!(frame.get_image(), &img);
    assert_eq!(frame.get_layout(), PixelLayout::Rgba);
    assert_eq!(frame.width(), 2);
    assert_eq!(frame.height(), 1);
    assert_eq!(frame.get_time_ms(), 42);
}

#[test]
fn test_animframe_from_rgb_and_rgba() {
    let rgb = [1u8, 2, 3, 4, 5, 6];
    let rgba = [1u8, 2, 3, 4, 5, 6, 7, 8];
    let f_rgb = AnimFrame::from_rgb(&rgb, 2, 1, 100);
    let f_rgba = AnimFrame::from_rgba(&rgba, 2, 1, 200);
    assert_eq!(f_rgb.get_layout(), PixelLayout::Rgb);
    assert_eq!(f_rgba.get_layout(), PixelLayout::Rgba);
    assert_eq!(f_rgb.get_time_ms(), 100);
    assert_eq!(f_rgba.get_time_ms(), 200);
}

#[test]
fn test_animencoder_add_and_configure() {
    let config = default_config();
    let mut encoder = AnimEncoder::new(2, 1, &config);
    encoder.set_bgcolor([1, 2, 3, 4]);
    encoder.set_loop_count(3);

    let frame = AnimFrame::from_rgb(&[1, 2, 3, 4, 5, 6], 2, 1, 0);
    encoder.add_frame(frame);

    assert_eq!(encoder.len(), 1);
    assert_eq!(encoder.width(), 2);
    assert_eq!(encoder.height(), 1);
    assert_eq!(encoder.muxparams().loop_count, 3);

    let expected_bg = (4u32 << 24) | (3u32 << 16) | (2u32 << 8) | 1u32;
    assert_eq!(encoder.muxparams().bgcolor, expected_bg);
}

#[test]
fn test_animencoder_encode_error_on_empty() {
    let config = default_config();
    let encoder = AnimEncoder::new(2, 1, &config);
    let result = encoder.plan();
    assert!(
        result.is_err(),
        "Encoding with no frames should fail or error"
    );
}

#[test]
fn empty_animation_is_refused_with_no_frames() {
    let config = default_config();
    let mut encoder = AnimEncoder::new(4, 4, &config);
    encoder.set_loop_count(2);
    assert!(encoder.is_empty());
    assert!(matches!(encoder.plan(), Err(AnimEncodeError::NoFrames)));
}

#[test]
fn bgcolor_packs_alpha_blue_green_red() {
    let config = default_config();
    let mut encoder = AnimEncoder::new(1, 1, &config);
    encoder.set_bgcolor([1, 2, 3, 4]);
    assert_eq!(encoder.muxparams().bgcolor, 0x04030201);
    encoder.set_bgcolor([255, 0, 0, 255]);
    assert_eq!(encoder.muxparams().bgcolor, 0xFF0000FF);
    encoder.set_bgcolor([0, 0, 0, 0]);
    assert_eq!(encoder.muxparams().bgcolor, 0);
}

#[test]
fn new_encoder_has_default_params() {
    let config = default_config();
    let encoder = AnimEncoder::new(5, 6, &config);
    assert_eq!(encoder.muxparams(), MuxAnimParams { bgcolor: 0, loop_count: 0 });
    assert!(std::ptr::eq(encoder.config(), &config));
}

#[test]
fn plan_keeps_frames_in_order_with_their_configs() {
    let config = default_config();
    let other = default_config();
    let a = [0u8; 8];
    let b = [1u8; 6];
    let mut encoder = AnimEncoder::new(2, 1, &config);
    encoder.set_bgcolor([1, 2, 3, 4]);
    encoder.set_loop_count(7);
    encoder.add_frame(AnimFrame::from_rgba(&a, 2, 1, 0));
    encoder.add_frame(AnimFrame::new(&b, PixelLayout::Rgb, 2, 1, 40, Some(&other)));
    let plan = encoder.plan().unwrap();
    assert_eq!((plan.canvas_width, plan.canvas_height), (2, 1));
    assert_eq!(plan.muxparams, MuxAnimParams { bgcolor: 0x04030201, loop_count: 7 });
    assert_eq!(plan.frames.len(), 2);
    assert_eq!(plan.frames[0].timestamp, 0);
    assert_eq!(plan.frames[0].import.stride, 8);
    assert_eq!(plan.frames[0].import.layout, PixelLayout::Rgba);
    assert!(std::ptr::eq(plan.frames[0].config, &config));
    assert_eq!(plan.frames[1].timestamp, 40);
    assert_eq!(plan.frames[1].import.stride, 6);
    assert_eq!(plan.frames[1].input.image(), &b);
    assert!(std::ptr::eq(plan.frames[1].config, &other));
}

#[test]
fn plan_refuses_a_frame_smaller_than_the_canvas() {
    let config = default_config();
    let big = [0u8; 16];
    let small = [0u8; 4];
    let mut encoder = AnimEncoder::new(2, 2, &config);
    encoder.add_frame(AnimFrame::from_rgba(&big, 2, 2, 0));
    // The frame claims 1x1, but it is imported at the 2x2 canvas size.
    encoder.add_frame(AnimFrame::from_rgba(&small, 1, 1, 10));
    match encoder.plan() {
        Err(AnimEncodeError::FrameBufferTooSmall { index, error }) => {
            assert_eq!(index, 1);
            assert_eq!(error.expected, 16);
            assert_eq!(error.actual, 4);
        }
        _ => panic!("expected a buffer error"),
    }
}

#[test]
fn plan_refuses_an_oversized_canvas() {
    let config = default_config();
    let data = [0u8; 4];
    let mut encoder = AnimEncoder::new(u32::MAX, 1, &config);
    encoder.add_frame(AnimFrame::from_rgba(&data, 1, 1, 0));
    assert!(matches!(encoder.plan(), Err(AnimEncodeError::BadCanvas)));
}

#[test]
fn frame_to_image_keeps_pixels() {
    let data = [1u8, 2, 3, 4, 5, 6];
    let image = AnimFrame::from_rgb(&data, 2, 1, 0).to_image().unwrap();
    let enc = webp::Encoder::from_image(&image).unwrap();
    assert_eq!(enc.image(), &data);
    assert_eq!(enc.layout(), PixelLayout::Rgb);
}

#[test]
fn frame_with_a_short_buffer_is_refused() {
    let data = [1u8, 2, 3, 4, 5, 6];
    match AnimFrame::try_new(&data, PixelLayout::Rgba, 2, 1, 0, None) {
        Err(err) => assert_eq!((err.expected, err.actual), (8, 6)),
        Ok(_) => panic!("a 6-byte buffer cannot hold a 2x1 RGBA frame"),
    }
    let frame = AnimFrame::try_new(&data, PixelLayout::Rgb, 2, 1, 9, None).unwrap();
    assert_eq!(frame.get_time_ms(), 9);
    assert!(AnimFrame::try_new(&data, PixelLayout::Rgb, 65536, 65536, 0, None).is_err());
}

#[test]
fn frame_from_image_keeps_timestamp() {
    let img = image::DynamicImage::ImageRgb8(image::ImageBuffer::from_pixel(
        2,
        2,
        image::Rgb([9u8, 8, 7]),
    ));
    let frame = AnimFrame::from_image(&img, 33).unwrap();
    assert_eq!(frame.get_time_ms(), 33);
    assert_eq!(frame.get_layout(), PixelLayout::Rgb);
    assert!(frame.get_config().is_none());
    let luma = image::DynamicImage::ImageLuma8(image::ImageBuffer::from_pixel(
        1,
        1,
        image::Luma([0u8]),
    ));
    assert!(AnimFrame::from_image(&luma, 0).is_err());
}

#[test]
fn native_answers_are_read_as_errors() {
    assert!(check_frame_added(1, WebPEncodingError::VP8_ENC_OK).is_ok());
    assert!(matches!(
        check_frame_added(0, WebPEncodingError::VP8_ENC_ERROR_OUT_OF_MEMORY),
        Err(AnimEncodeError::WebPEncodingError(
            WebPEncodingError::VP8_ENC_ERROR_OUT_OF_MEMORY
        ))
    ));
    assert!(check_mux_status(WebPMuxError::WEBP_MUX_OK).is_ok());
    assert!(matches!(
        check_mux_status(WebPMuxError::WEBP_MUX_BAD_DATA),
        Err(AnimEncodeError::WebPMuxError(WebPMuxError::WEBP_MUX_BAD_DATA))
    ));
    match assemble_error(None) {
        AnimEncodeError::WebPAnimEncoderGetError(m) => assert_eq!(m, "Unknown error"),
        _ => panic!("expected an encoder message"),
    }
    match assemble_error(Some("bad frame".to_string())) {
        AnimEncodeError::WebPAnimEncoderGetError(m) => assert_eq!(m, "bad frame"),
        _ => panic!("expected an encoder message"),
    }
}
