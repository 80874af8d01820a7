use vstd::prelude::*;

verus! {

/// How the bytes of a frame are laid out.
#[derive(Debug, Clone, Copy, PartialEq, Eq, Structural)]
pub enum PixelLayout {
    /// Three bytes per pixel: red, green, blue.
    Rgb,
    /// Four bytes per pixel: red, green, blue, alpha.
    Rgba,
    /// A compressed JPEG image.
    Jpeg,
}

/// Bytes per pixel of a layout; zero for a compressed one.
pub open spec fn layout_bpp(l: PixelLayout) -> nat {
    match l {
        PixelLayout::Rgb => 3,
        PixelLayout::Rgba => 4,
        PixelLayout::Jpeg => 0,
    }
}

/// The little-endian four-character code of `a b c d`.
pub open spec fn fourcc_of(a: u8, b: u8, c: u8, d: u8) -> u32 {
    (a as nat + 256 * (b as nat) + 65536 * (c as nat) + 16777216 * (d as nat)) as u32
}

/// The four-character code a device uses for a layout.
pub open spec fn layout_fourcc(l: PixelLayout) -> u32 {
    match l {
        PixelLayout::Rgb => fourcc_of(0x52, 0x47, 0x42, 0x33),  // RGB3
        PixelLayout::Rgba => fourcc_of(0x41, 0x42, 0x32, 0x34),  // AB24
        PixelLayout::Jpeg => fourcc_of(0x4d, 0x4a, 0x50, 0x47),  // MJPG
    }
}

/// The layout a four-character code stands for, if any.
pub open spec fn fourcc_layout(code: u32) -> Option<PixelLayout> {
    if code == layout_fourcc(PixelLayout::Rgb) {
        Some(PixelLayout::Rgb)
    } else if code == layout_fourcc(PixelLayout::Rgba) {
        Some(PixelLayout::Rgba)
    } else if code == layout_fourcc(PixelLayout::Jpeg) {
        Some(PixelLayout::Jpeg)
    } else {
        None
    }
}

impl PixelLayout {
    /// Bytes per pixel; zero for a compressed layout.
    pub fn bytes_per_pixel(&self) -> (r: u32)
        ensures
            r == layout_bpp(*self),
    {
        match self {
            PixelLayout::Rgb => 3,
            PixelLayout::Rgba => 4,
            PixelLayout::Jpeg => 0,
        }
    }

    /// Whether the layout holds one fixed-size record per pixel.
    pub fn is_uncompressed(&self) -> (r: bool)
        ensures
            r == (layout_bpp(*self) > 0),
    {
        !matches!(self, PixelLayout::Jpeg)
    }

    /// The four-character code of this layout.
    pub fn fourcc(&self) -> (r: u32)
        ensures
            r == layout_fourcc(*self),
    {
        match self {
            PixelLayout::Rgb => 0x3342_4752,
            PixelLayout::Rgba => 0x3432_4241,
            PixelLayout::Jpeg => 0x4750_4a4d,
        }
    }

    /// The layout of a four-character code, if this library handles it.
    pub fn from_fourcc(code: u32) -> (r: Option<PixelLayout>)
        ensures
            r == fourcc_layout(code),
    {
        if code == 0x3342_4752 {
            Some(PixelLayout::Rgb)
        } else if code == 0x3432_4241 {
            Some(PixelLayout::Rgba)
        } else if code == 0x4750_4a4d {
            Some(PixelLayout::Jpeg)
        } else {
            None
        }
    }
}

/// What a device reports, or is asked for, as its format.
#[derive(Debug, Clone, Copy, PartialEq, Eq, Structural)]
pub struct DeviceFormat {
    pub width: u32,
    pub height: u32,
    pub fourcc: u32,
}

/// Dimensions and layout of the frames of one stream.
#[derive(Debug, Clone, Copy, PartialEq, Eq, Structural)]
pub struct FrameFormat {
    pub width: u32,
    pub height: u32,
    pub layout: PixelLayout,
    /// Bytes from the start of one row to the start of the next.
    pub stride: u32,
}

/// Largest number of bytes of any frame buffer.
pub open spec fn max_frame_bytes() -> nat {
    usize::MAX as nat
}

/// Bytes of a packed RGBA frame of these dimensions.
pub open spec fn rgba_len(width: nat, height: nat) -> nat {
    width * height * 4
}

impl FrameFormat {
    /// Non-zero dimensions, rows wide enough for their pixels, and every
    /// buffer of the stream, read back as RGBA too, addressable.
    pub open spec fn wf(&self) -> bool {
        &&& self.width > 0
        &&& self.height > 0
        &&& self.stride as nat >= self.width as nat * layout_bpp(self.layout)
        &&& rgba_len(self.width as nat, self.height as nat) <= max_frame_bytes()
        &&& self.stride as nat * self.height as nat <= max_frame_bytes()
    }

    /// Rows hold their pixels with nothing between them.
    pub open spec fn packed(&self) -> bool {
        self.stride as nat == self.width as nat * layout_bpp(self.layout)
    }

    /// Bytes of one uncompressed frame in this format.
    pub open spec fn frame_len(&self) -> nat {
        self.stride as nat * self.height as nat
    }

    /// Number of pixels of a frame.
    pub open spec fn pixels(&self) -> nat {
        self.width as nat * self.height as nat
    }

    /// The packed format of these dimensions and this layout.
    pub open spec fn packed_spec(width: u32, height: u32, layout: PixelLayout) -> FrameFormat {
        FrameFormat {
            width,
            height,
            layout,
            stride: (width as nat * layout_bpp(layout)) as u32,
        }
    }

    /// Whether a packed format of these dimensions exists.
    pub open spec fn packed_ok(width: u32, height: u32, layout: PixelLayout) -> bool {
        &&& width > 0
        &&& height > 0
        &&& width as nat * layout_bpp(layout) <= u32::MAX as nat
        &&& rgba_len(width as nat, height as nat) <= max_frame_bytes()
    }

    /// The packed format of these dimensions and this layout; fails with
    /// `UnsupportedFormat` where a dimension is zero or a frame would not be
    /// addressable.
    pub fn new(width: u32, height: u32, layout: PixelLayout) -> (r: Result<
        FrameFormat,
        crate::error::PipelineError,
    >)
        ensures
            FrameFormat::packed_ok(width, height, layout) ==> r == Ok::<
                FrameFormat,
                crate::error::PipelineError,
            >(FrameFormat::packed_spec(width, height, layout)),
            !FrameFormat::packed_ok(width, height, layout) ==> r == Err::<
                FrameFormat,
                crate::error::PipelineError,
            >(crate::error::PipelineError::UnsupportedFormat),
            r matches Ok(f) ==> f.wf() && f.packed(),
    {
        if width == 0 || height == 0 {
            return Err(crate::error::PipelineError::UnsupportedFormat);
        }
        let bpp = layout.bytes_per_pixel();
        assert((width as u64) * (bpp as u64) <= 4 * (u32::MAX as u64)) by (nonlinear_arith)
            requires
                bpp <= 4,
        ;
        let stride = (width as u64) * (bpp as u64);
        if stride > u32::MAX as u64 {
            return Err(crate::error::PipelineError::UnsupportedFormat);
        }
        let n = (width as u64).checked_mul(height as u64);
        match n {
            None => Err(crate::error::PipelineError::UnsupportedFormat),
            Some(n) => {
                if n > (usize::MAX as u64) / 4 {
                    Err(crate::error::PipelineError::UnsupportedFormat)
                } else {
                    proof {
                        assert(stride as nat * height as nat <= 4 * (width as nat * height as nat))
                            by (nonlinear_arith)
                            requires
                                stride as nat == width as nat * layout_bpp(layout),
                                layout_bpp(layout) <= 4,
                        ;
                    }
                    Ok(FrameFormat { width, height, layout, stride: stride as u32 })
                }
            },
        }
    }

    /// The format a device reported; fails with `UnsupportedFormat` where its
    /// code names no layout of this library or its dimensions are unusable.
    pub fn from_device(d: DeviceFormat) -> (r: Result<FrameFormat, crate::error::PipelineError>)
        ensures
            match fourcc_layout(d.fourcc) {
                Some(l) => if FrameFormat::packed_ok(d.width, d.height, l) {
                    r == Ok::<FrameFormat, crate::error::PipelineError>(
                        FrameFormat::packed_spec(d.width, d.height, l),
                    )
                } else {
                    r == Err::<FrameFormat, crate::error::PipelineError>(
                        crate::error::PipelineError::UnsupportedFormat,
                    )
                },
                None => r == Err::<FrameFormat, crate::error::PipelineError>(
                    crate::error::PipelineError::UnsupportedFormat,
                ),
            },
    {
        match PixelLayout::from_fourcc(d.fourcc) {
            Some(l) => FrameFormat::new(d.width, d.height, l),
            None => Err(crate::error::PipelineError::UnsupportedFormat),
        }
    }

    /// Whether this format holds its invariant.
    pub fn is_valid(&self) -> (r: bool)
        ensures
            r == self.wf(),
    {
        if self.width == 0 || self.height == 0 {
            return false;
        }
        let bpp = self.layout.bytes_per_pixel() as u64;
        assert((self.width as u64) * bpp <= 4 * (u32::MAX as u64)) by (nonlinear_arith)
            requires
                bpp <= 4,
        ;
        if (self.stride as u64) < (self.width as u64) * bpp {
            return false;
        }
        let n = (self.width as u64).checked_mul(self.height as u64);
        let rows = (self.stride as u64).checked_mul(self.height as u64);
        match (n, rows) {
            (Some(n), Some(rows)) => n <= (usize::MAX as u64) / 4 && rows <= usize::MAX as u64,
            _ => false,
        }
    }

    /// Bytes of one frame: rows times stride.
    pub fn byte_len(&self) -> (r: usize)
        requires
            self.wf(),
        ensures
            r as nat == self.frame_len(),
    {
        (self.stride as usize) * (self.height as usize)
    }

    /// Bytes of this frame read back as packed RGBA.
    pub fn rgba_byte_len(&self) -> (r: usize)
        requires
            self.wf(),
        ensures
            r as nat == rgba_len(self.width as nat, self.height as nat),
    {
        (self.width as usize) * (self.height as usize) * 4
    }
}

/// A frame's bytes with the format they are in.
#[derive(Debug, Clone)]
pub struct RawFrame {
    pub data: Vec<u8>,
    pub format: FrameFormat,
}

impl RawFrame {
    /// An uncompressed frame whose buffer holds exactly one frame.
    pub open spec fn wf(&self) -> bool {
        &&& self.format.wf()
        &&& layout_bpp(self.format.layout) > 0
        &&& self.data@.len() == self.format.frame_len()
    }
}

} // verus!
