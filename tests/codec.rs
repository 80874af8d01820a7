use jpeg_encoder::{ColorType, Encoder, SamplingFactor};
use limbo::codec::{convert_pixels, decode, encode_params, EncodeParams, Subsampling};
use limbo::error::PipelineError;
use limbo::format::{FrameFormat, PixelLayout, RawFrame};

fn jpeg(pixels: &[u8], width: u16, height: u16, color: ColorType) -> Vec<u8> {
    let mut out = Vec::new();
    let mut enc = Encoder::new(&mut out, 100);
    enc.set_sampling_factor(SamplingFactor::F_1_1);
    enc.encode(pixels, width, height, color).unwrap();
    out
}

fn solid(width: usize, height: usize, px: [u8; 3]) -> Vec<u8> {
    let mut v = Vec::with_capacity(width * height * 3);
    for _ in 0..width * height {
        v.extend_from_slice(&px);
    }
    v
}

fn max_diff(a: &[u8], b: &[u8]) -> u8 {
    assert_eq!(a.len(), b.len());
    a.iter().zip(b).map(|(x, y)| x.abs_diff(*y)).max().unwrap_or(0)
}

#[test]
fn decode_solid_blue_capture_frame() {
    let data = jpeg(&solid(640, 480, [0, 0, 255]), 640, 480, ColorType::Rgb);
    let expected = FrameFormat::new(640, 480, PixelLayout::Rgb).unwrap();
    let frame = decode(&data, expected).unwrap();
    assert_eq!(frame.data.len(), 640 * 480 * 3);
    assert_eq!(frame.format, expected);
    for px in frame.data.chunks(3) {
        assert!(px[0] <= 4 && px[1] <= 4 && px[2] >= 251, "{:?}", px);
    }
}

#[test]
fn round_trip_at_quality_100_stays_close() {
    let (w, h) = (64usize, 48usize);
    let mut src = Vec::with_capacity(w * h * 3);
    for y in 0..h {
        for x in 0..w {
            src.extend_from_slice(&[(x * 4) as u8, (y * 5) as u8, 128]);
        }
    }
    let data = jpeg(&src, w as u16, h as u16, ColorType::Rgb);
    let expected = FrameFormat::new(w as u32, h as u32, PixelLayout::Rgb).unwrap();
    let frame = decode(&data, expected).unwrap();
    assert!(max_diff(&frame.data, &src) <= 8);
}

#[test]
fn decode_into_rgba_adds_opaque_alpha() {
    let data = jpeg(&solid(16, 8, [200, 100, 50]), 16, 8, ColorType::Rgb);
    let expected = FrameFormat::new(16, 8, PixelLayout::Rgba).unwrap();
    let frame = decode(&data, expected).unwrap();
    assert_eq!(frame.data.len(), 16 * 8 * 4);
    assert_eq!(frame.format.stride, 64);
    for px in frame.data.chunks(4) {
        assert_eq!(px[3], 255);
        assert!(px[0].abs_diff(200) <= 4 && px[1].abs_diff(100) <= 4 && px[2].abs_diff(50) <= 4);
    }
}

#[test]
fn decode_grey_stream_spreads_to_three_channels() {
    let grey = vec![90u8; 8 * 8];
    let data = jpeg(&grey, 8, 8, ColorType::Luma);
    let expected = FrameFormat::new(8, 8, PixelLayout::Rgb).unwrap();
    let frame = decode(&data, expected).unwrap();
    assert_eq!(frame.data.len(), 8 * 8 * 3);
    for px in frame.data.chunks(3) {
        assert_eq!(px[0], px[1]);
        assert_eq!(px[1], px[2]);
        assert!(px[0].abs_diff(90) <= 2);
    }
}

#[test]
fn decode_rejects_truncated_stream() {
    let data = jpeg(&solid(32, 32, [10, 20, 30]), 32, 32, ColorType::Rgb);
    let expected = FrameFormat::new(32, 32, PixelLayout::Rgb).unwrap();
    assert_eq!(decode(&data[..20], expected).unwrap_err(), PipelineError::DecodeError);
    assert_eq!(decode(&[], expected).unwrap_err(), PipelineError::DecodeError);
}

#[test]
fn decode_rejects_other_dimensions() {
    let data = jpeg(&solid(32, 16, [10, 20, 30]), 32, 16, ColorType::Rgb);
    let expected = FrameFormat::new(16, 32, PixelLayout::Rgb).unwrap();
    assert_eq!(decode(&data, expected).unwrap_err(), PipelineError::DecodeError);
}

#[test]
fn decode_rejects_compressed_target() {
    let data = jpeg(&solid(8, 8, [10, 20, 30]), 8, 8, ColorType::Rgb);
    let expected = FrameFormat::new(8, 8, PixelLayout::Jpeg).unwrap();
    assert_eq!(decode(&data, expected).unwrap_err(), PipelineError::DecodeError);
}

#[test]
fn convert_pixels_between_layouts() {
    let rgb = vec![200u8, 100, 50, 1, 2, 3];
    assert_eq!(convert_pixels(&rgb, 3, PixelLayout::Rgba, 2), vec![200, 100, 50, 255, 1, 2, 3, 255]);
    let rgba = vec![1u8, 2, 3, 4, 5, 6, 7, 8];
    assert_eq!(convert_pixels(&rgba, 4, PixelLayout::Rgb, 2), vec![1, 2, 3, 5, 6, 7]);
    let grey = vec![7u8, 9];
    assert_eq!(convert_pixels(&grey, 1, PixelLayout::Rgba, 2), vec![7, 7, 7, 255, 9, 9, 9, 255]);
    assert_eq!(convert_pixels(&grey, 1, PixelLayout::Rgb, 2), vec![7, 7, 7, 9, 9, 9]);
}

#[test]
fn encode_params_for_valid_frame() {
    let format = FrameFormat::new(4, 2, PixelLayout::Rgba).unwrap();
    let frame = RawFrame { data: vec![0u8; 32], format };
    let p = encode_params(&frame, 100, Subsampling::Sub420).unwrap();
    assert_eq!(
        p,
        EncodeParams {
            width: 4,
            height: 2,
            pitch: 16,
            layout: PixelLayout::Rgba,
            quality: 100,
            subsampling: Subsampling::Sub420,
        }
    );
}

#[test]
fn encode_params_rejects_quality_over_100() {
    let format = FrameFormat::new(4, 2, PixelLayout::Rgb).unwrap();
    let frame = RawFrame { data: vec![0u8; 24], format };
    assert_eq!(encode_params(&frame, 101, Subsampling::Sub444), Err(PipelineError::EncodeError));
    assert!(encode_params(&frame, 0, Subsampling::Sub444).is_ok());
}

#[test]
fn encode_params_rejects_wrong_buffer_length() {
    let format = FrameFormat::new(4, 2, PixelLayout::Rgb).unwrap();
    let short = RawFrame { data: vec![0u8; 23], format };
    assert_eq!(encode_params(&short, 90, Subsampling::Sub422), Err(PipelineError::EncodeError));
    let jpeg_format = FrameFormat::new(4, 2, PixelLayout::Jpeg).unwrap();
    let compressed = RawFrame { data: vec![], format: jpeg_format };
    assert_eq!(encode_params(&compressed, 90, Subsampling::Sub422), Err(PipelineError::EncodeError));
}
