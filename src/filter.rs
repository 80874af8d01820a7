use vstd::prelude::*;

use crate::codec::{
    convert_pixels, converted, decode, decode_spec, encode_params, EncodeParams, Subsampling,
};
use crate::error::PipelineError;
use crate::format::{layout_bpp, rgba_len, FrameFormat, PixelLayout, RawFrame};
use crate::gpu::{GpuResources, GpuView};

verus! {

/// Texture unit the input frame is bound to.
pub const SAMPLER_UNIT: i32 = 0;

/// Uniform values for one pass of the shader.
#[derive(Debug, Clone, Copy, PartialEq, Eq, Structural)]
pub struct FrameUniforms {
    /// Texture unit of the input sampler.
    pub sampler_unit: i32,
    /// Milliseconds since the filter started.
    pub elapsed_ms: u64,
}

/// Whether an input frame can be uploaded to a texture of these dimensions:
/// an uncompressed, packed frame of exactly those dimensions.
pub open spec fn uploadable(width: u32, height: u32, input: RawFrame) -> bool {
    &&& input.wf()
    &&& input.format.packed()
    &&& input.format.width == width
    &&& input.format.height == height
}

/// The bytes uploaded for an input frame, as RGBA, if the pass can run: the
/// resources must be ready and the frame fit the texture.
pub open spec fn upload_spec(gpu: GpuView, width: u32, height: u32, input: RawFrame) -> Option<Seq<u8>> {
    if gpu.ready() && uploadable(width, height, input) {
        Some(
            converted(
                input.data@,
                layout_bpp(input.format.layout),
                4,
                width as nat * height as nat,
            ),
        )
    } else {
        None
    }
}

/// Whether read-back pixels can be taken as the filtered frame: the resources
/// are ready and the buffer holds exactly one RGBA frame.
pub open spec fn readback_ok(gpu: GpuView, width: u32, height: u32, pixels: Seq<u8>) -> bool {
    gpu.ready() && pixels.len() == rgba_len(width as nat, height as nat)
}

/// Once the resources are torn down, no pass can run: neither an upload nor
/// a read-back is accepted, whatever the frame.
pub proof fn lemma_no_pass_after_teardown(
    gpu: GpuView,
    width: u32,
    height: u32,
    input: RawFrame,
    pixels: Seq<u8>,
)
    ensures
        upload_spec(gpu.torn_down(), width, height, input) is None,
        !readback_ok(gpu.torn_down(), width, height, pixels),
{
}

/// The per-frame side of the GPU filter: the output format, the resources
/// the pass runs on, and the moment the filter started, for animated effects.
pub struct GLFilter {
    /// Packed RGBA, of the stream's dimensions.
    pub format: FrameFormat,
    pub gpu: GpuResources,
    /// Clock reading, in milliseconds, when the filter was made.
    pub start_ms: u64,
}

impl GLFilter {
    pub open spec fn wf(&self) -> bool {
        &&& self.format.wf()
        &&& self.format.packed()
        &&& self.format.layout == PixelLayout::Rgba
        &&& self.gpu@.wf()
    }

    /// A filter for frames of these dimensions, with resources still to be
    /// made; fails with `UnsupportedFormat` where a dimension is zero or a
    /// frame would not be addressable.
    pub fn new(width: u32, height: u32, start_ms: u64) -> (r: Result<GLFilter, PipelineError>)
        ensures
            FrameFormat::packed_ok(width, height, PixelLayout::Rgba) ==> (r matches Ok(f) && f.wf()
                && f.format == FrameFormat::packed_spec(width, height, PixelLayout::Rgba)
                && f.gpu@ == GpuView::initial() && f.start_ms == start_ms),
            !FrameFormat::packed_ok(width, height, PixelLayout::Rgba) ==> r matches Err(
                PipelineError::UnsupportedFormat,
            ),
    {
        match FrameFormat::new(width, height, PixelLayout::Rgba) {
            Ok(format) => Ok(GLFilter { format, gpu: GpuResources::new(), start_ms }),
            Err(e) => Err(e),
        }
    }

    /// Bytes of the host buffer the rendered frame is read back into.
    pub fn readback_len(&self) -> (r: usize)
        requires
            self.wf(),
        ensures
            r as nat == rgba_len(self.format.width as nat, self.format.height as nat),
    {
        self.format.rgba_byte_len()
    }

    /// The bytes to upload into the texture for an input frame, as RGBA: an
    /// RGB frame gets an opaque alpha. Fails with `RenderError` where the
    /// resources are not ready (never made, or torn down), or the frame does
    /// not have the texture's dimensions or is not packed and uncompressed.
    pub fn prepare_upload(&self, input: &RawFrame) -> (r: Result<Vec<u8>, PipelineError>)
        requires
            self.wf(),
        ensures
            match upload_spec(self.gpu@, self.format.width, self.format.height, *input) {
                Some(px) => r matches Ok(v) && v@ == px,
                None => r matches Err(PipelineError::RenderError),
            },
            r matches Ok(v) ==> v@.len() == rgba_len(self.format.width as nat, self.format.height as nat),
    {
        if !self.gpu.is_ready() {
            return Err(PipelineError::RenderError);
        }
        let f = input.format;
        if !f.is_valid() || !f.layout.is_uncompressed() || f.width != self.format.width
            || f.height != self.format.height {
            return Err(PipelineError::RenderError);
        }
        let bpp = f.layout.bytes_per_pixel();
        if f.stride != f.width * bpp || input.data.len() != f.byte_len() {
            return Err(PipelineError::RenderError);
        }
        let n = (f.width as usize) * (f.height as usize);
        proof {
            assert(f.stride as nat * f.height as nat == n * layout_bpp(f.layout)) by (nonlinear_arith)
                requires
                    f.stride as nat == f.width as nat * layout_bpp(f.layout),
                    n == f.width as nat * f.height as nat,
            ;
        }
        Ok(convert_pixels(&input.data, bpp as usize, PixelLayout::Rgba, n))
    }

    /// Uniforms for a pass run at clock reading `now_ms`: the input sampler's
    /// unit and the milliseconds since the filter started (zero if the clock
    /// reads earlier than that).
    pub fn uniforms(&self, now_ms: u64) -> (r: FrameUniforms)
        ensures
            r.sampler_unit == SAMPLER_UNIT,
            r.elapsed_ms == if now_ms >= self.start_ms {
                now_ms - self.start_ms
            } else {
                0
            },
    {
        let elapsed_ms = if now_ms >= self.start_ms {
            now_ms - self.start_ms
        } else {
            0
        };
        FrameUniforms { sampler_unit: SAMPLER_UNIT, elapsed_ms }
    }

    /// Takes the pixels read back after a pass as the filtered RGBA frame.
    /// Fails with `RenderError` where the resources are not ready or the
    /// buffer is not exactly one frame; the frame is then dropped.
    pub fn accept_readback(&self, pixels: Vec<u8>) -> (r: Result<RawFrame, PipelineError>)
        requires
            self.wf(),
        ensures
            readback_ok(self.gpu@, self.format.width, self.format.height, pixels@) ==> (r matches Ok(f)
                && f.data@ == pixels@ && f.format == self.format && f.wf()),
            !readback_ok(self.gpu@, self.format.width, self.format.height, pixels@) ==> r matches Err(
                PipelineError::RenderError,
            ),
    {
        if !self.gpu.is_ready() || pixels.len() != self.readback_len() {
            return Err(PipelineError::RenderError);
        }
        proof {
            let w = self.format.width as nat;
            let h = self.format.height as nat;
            assert(w * 4 * h == w * h * 4) by (nonlinear_arith);
        }
        Ok(RawFrame { data: pixels, format: self.format })
    }

    /// The format a captured frame is decoded into: packed RGB of the
    /// filter's dimensions.
    pub open spec fn capture_format(&self) -> FrameFormat {
        FrameFormat::packed_spec(self.format.width, self.format.height, PixelLayout::Rgb)
    }

    /// First half of a frame's cycle: decodes a captured JPEG frame as RGB of
    /// the filter's dimensions and gives the RGBA bytes to upload. Fails with
    /// `DecodeError` where decoding fails, then with `RenderError` where the
    /// resources are not ready.
    pub fn decode_for_upload(&self, data: &[u8]) -> (r: Result<Vec<u8>, PipelineError>)
        requires
            self.wf(),
        ensures
            match decode_spec(data@, self.capture_format()) {
                None => r matches Err(PipelineError::DecodeError),
                Some(px) => if self.gpu@.ready() {
                    r matches Ok(v) && v@ == converted(px, 3, 4, self.format.pixels())
                } else {
                    r matches Err(PipelineError::RenderError)
                },
            },
    {
        let rgb = FrameFormat {
            width: self.format.width,
            height: self.format.height,
            layout: PixelLayout::Rgb,
            stride: self.format.width * 3,
        };
        proof {
            let w = self.format.width as nat;
            let h = self.format.height as nat;
            assert(w * 3 * h <= w * h * 4) by (nonlinear_arith);
        }
        let frame = decode(data, rgb)?;
        self.prepare_upload(&frame)
    }

    /// Second half of a frame's cycle: takes the read-back pixels as the
    /// filtered RGBA frame and gives what the encoder is to be called with.
    /// Fails with `RenderError` where the read-back is refused, then with
    /// `EncodeError` where the quality is over 100.
    pub fn finish_frame(&self, pixels: Vec<u8>, quality: u8, subsampling: Subsampling) -> (r: Result<
        (RawFrame, EncodeParams),
        PipelineError,
    >)
        requires
            self.wf(),
        ensures
            !readback_ok(self.gpu@, self.format.width, self.format.height, pixels@) ==> r matches Err(
                PipelineError::RenderError,
            ),
            readback_ok(self.gpu@, self.format.width, self.format.height, pixels@) && quality > 100
                ==> r matches Err(PipelineError::EncodeError),
            readback_ok(self.gpu@, self.format.width, self.format.height, pixels@) && quality <= 100
                ==> (r matches Ok((f, p)) && f.data@ == pixels@ && f.format == self.format
                && p == (EncodeParams {
                width: self.format.width as usize,
                height: self.format.height as usize,
                pitch: self.format.stride as usize,
                layout: PixelLayout::Rgba,
                quality,
                subsampling,
            })),
    {
        let frame = self.accept_readback(pixels)?;
        let params = encode_params(&frame, quality, subsampling)?;
        Ok((frame, params))
    }
}

} // verus!
