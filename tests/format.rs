use limbo::error::PipelineError;
use limbo::format::{DeviceFormat, FrameFormat, PixelLayout};

#[test]
fn frame_format_new_packs_rows() {
    let f = FrameFormat::new(640, 480, PixelLayout::Rgb).unwrap();
    assert_eq!(f.stride, 1920);
    assert_eq!(f.byte_len(), 921_600);
    assert_eq!(f.rgba_byte_len(), 1_228_800);
    assert!(f.is_valid());
}

#[test]
fn frame_format_rejects_zero_dimensions() {
    assert_eq!(FrameFormat::new(0, 480, PixelLayout::Rgba), Err(PipelineError::UnsupportedFormat));
    assert_eq!(FrameFormat::new(640, 0, PixelLayout::Rgb), Err(PipelineError::UnsupportedFormat));
}

#[test]
fn frame_format_validity_checks_stride() {
    let f = FrameFormat { width: 4, height: 2, layout: PixelLayout::Rgba, stride: 15 };
    assert!(!f.is_valid());
    let g = FrameFormat { width: 4, height: 2, layout: PixelLayout::Rgba, stride: 20 };
    assert!(g.is_valid());
}

#[test]
fn fourcc_codes_match_device_names() {
    assert_eq!(PixelLayout::Jpeg.fourcc(), u32::from_le_bytes(*b"MJPG"));
    assert_eq!(PixelLayout::Rgb.fourcc(), u32::from_le_bytes(*b"RGB3"));
    assert_eq!(PixelLayout::Rgba.fourcc(), u32::from_le_bytes(*b"AB24"));
    assert_eq!(PixelLayout::from_fourcc(u32::from_le_bytes(*b"MJPG")), Some(PixelLayout::Jpeg));
    assert_eq!(PixelLayout::from_fourcc(u32::from_le_bytes(*b"YUYV")), None);
}

#[test]
fn from_device_maps_layout_and_rejects_unknown() {
    let d = DeviceFormat { width: 640, height: 480, fourcc: u32::from_le_bytes(*b"MJPG") };
    let f = FrameFormat::from_device(d).unwrap();
    assert_eq!(f.layout, PixelLayout::Jpeg);
    assert_eq!((f.width, f.height, f.stride), (640, 480, 0));
    let y = DeviceFormat { width: 640, height: 480, fourcc: u32::from_le_bytes(*b"YUYV") };
    assert_eq!(FrameFormat::from_device(y), Err(PipelineError::UnsupportedFormat));
}

#[test]
fn bytes_per_pixel_by_layout() {
    assert_eq!(PixelLayout::Rgb.bytes_per_pixel(), 3);
    assert_eq!(PixelLayout::Rgba.bytes_per_pixel(), 4);
    assert_eq!(PixelLayout::Jpeg.bytes_per_pixel(), 0);
    assert!(!PixelLayout::Jpeg.is_uncompressed());
}

#[test]
fn only_per_frame_errors_are_recoverable() {
    assert!(PipelineError::DecodeError.is_recoverable());
    assert!(PipelineError::EncodeError.is_recoverable());
    assert!(PipelineError::RenderError.is_recoverable());
    assert!(!PipelineError::UnsupportedFormat.is_recoverable());
    assert!(!PipelineError::DeviceIOError.is_recoverable());
    assert!(!PipelineError::ShaderCompileError(String::from("x")).is_recoverable());
    assert!(!PipelineError::ShaderLinkError(String::from("x")).is_recoverable());
    assert!(!PipelineError::ContextCreationError(String::from("x")).is_recoverable());
}
