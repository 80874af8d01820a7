use vstd::prelude::*;

use crate::error::PipelineError;
use crate::format::{layout_bpp, FrameFormat, PixelLayout, RawFrame};

verus! {

#[verifier::external_type_specification]
#[verifier::external_body]
pub struct ExDecodeErrors(zune_jpeg::errors::DecodeErrors);

/// What the JPEG decoder makes of a byte string: the dimensions its headers
/// declare and the packed pixels, or nothing where the stream is malformed.
pub uninterp spec fn jpeg_decoded(data: Seq<u8>) -> Option<(Option<(usize, usize)>, Seq<u8>)>;

/// Relies on zune_jpeg::JpegDecoder::decode for the pixels, and on
/// JpegDecoder::dimensions for the width and height its headers declare.
#[verifier::external_body]
fn jpeg_decode(data: &[u8]) -> (r: Result<(Option<(usize, usize)>, Vec<u8>), zune_jpeg::errors::DecodeErrors>)
    ensures
        r is Ok <==> jpeg_decoded(data@) is Some,
        r matches Ok((dims, px)) ==> jpeg_decoded(data@) == Some((dims, px@)),
{
    let mut decoder = zune_jpeg::JpegDecoder::new(data);
    let pixels = decoder.decode()?;
    Ok((decoder.dimensions(), pixels))
}

/// Channel values (red, green, blue, alpha) of pixel `p` of a packed buffer
/// with `c` bytes per pixel: one byte is grey, three are opaque colour, four
/// carry their own alpha.
pub open spec fn src_pixel(src: Seq<u8>, c: nat, p: nat) -> (u8, u8, u8, u8) {
    let b = (p * c) as int;
    if c == 1 {
        (src[b], src[b], src[b], 255u8)
    } else if c == 3 {
        (src[b], src[b + 1], src[b + 2], 255u8)
    } else {
        (src[b], src[b + 1], src[b + 2], src[b + 3])
    }
}

/// The bytes of one pixel in a layout of `c` bytes per pixel (three or four).
pub open spec fn pixel_bytes(px: (u8, u8, u8, u8), c: nat) -> Seq<u8> {
    if c == 3 {
        seq![px.0, px.1, px.2]
    } else {
        seq![px.0, px.1, px.2, px.3]
    }
}

/// The first `n` pixels of `src` (`sc` bytes each), written with `dc` bytes each.
pub open spec fn converted(src: Seq<u8>, sc: nat, dc: nat, n: nat) -> Seq<u8>
    decreases n,
{
    if n == 0 {
        seq![]
    } else {
        converted(src, sc, dc, (n - 1) as nat) + pixel_bytes(src_pixel(src, sc, (n - 1) as nat), dc)
    }
}

/// Byte counts per pixel that a decoded or uploaded buffer may have.
pub open spec fn known_channels(c: nat) -> bool {
    c == 1 || c == 3 || c == 4
}

pub proof fn lemma_converted_len(src: Seq<u8>, sc: nat, dc: nat, n: nat)
    requires
        dc == 3 || dc == 4,
    ensures
        converted(src, sc, dc, n).len() == n * dc,
    decreases n,
{
    if n > 0 {
        lemma_converted_len(src, sc, dc, (n - 1) as nat);
        assert((n - 1) * dc + dc == n * dc) by (nonlinear_arith);
    }
}

/// Pixel `p` of a conversion is pixel `p` of the source, written in the
/// target layout: channels keep their values, in their order.
pub proof fn lemma_converted_pixel(src: Seq<u8>, sc: nat, dc: nat, n: nat, p: nat)
    requires
        dc == 3 || dc == 4,
        p < n,
    ensures
        converted(src, sc, dc, n).subrange((p * dc) as int, (p * dc + dc) as int) == pixel_bytes(
            src_pixel(src, sc, p),
            dc,
        ),
    decreases n,
{
    let m = (n - 1) as nat;
    lemma_converted_len(src, sc, dc, m);
    let prefix = converted(src, sc, dc, m);
    let whole = converted(src, sc, dc, n);
    assert(whole == prefix + pixel_bytes(src_pixel(src, sc, m), dc));
    if p < m {
        lemma_converted_pixel(src, sc, dc, m, p);
        assert(p * dc + dc <= m * dc) by (nonlinear_arith)
            requires
                p < m,
        ;
        assert(whole.subrange((p * dc) as int, (p * dc + dc) as int) =~= prefix.subrange(
            (p * dc) as int,
            (p * dc + dc) as int,
        ));
    } else {
        assert(whole.subrange((p * dc) as int, (p * dc + dc) as int) =~= pixel_bytes(
            src_pixel(src, sc, m),
            dc,
        ));
    }
}

/// Rewrites `n` packed pixels of `sc` bytes (grey, RGB or RGBA) as packed
/// pixels of the target layout. Grey is copied to all three colours; a missing
/// alpha is opaque; a dropped alpha is discarded.
pub fn convert_pixels(src: &Vec<u8>, sc: usize, target: PixelLayout, n: usize) -> (r: Vec<u8>)
    requires
        known_channels(sc as nat),
        layout_bpp(target) > 0,
        src@.len() == n * sc,
        n * 4 <= usize::MAX,
    ensures
        r@ == converted(src@, sc as nat, layout_bpp(target), n as nat),
        r@.len() == n * layout_bpp(target),
{
    let dc = target.bytes_per_pixel() as usize;
    let mut out: Vec<u8> = Vec::with_capacity(n * dc);
    let mut i: usize = 0;
    let mut off: usize = 0;
    let len = src.len();
    while i < n
        invariant
            len == src@.len(),
            i <= n,
            off == i * sc,
            src@.len() == n * sc,
            known_channels(sc as nat),
            dc == layout_bpp(target),
            dc == 3 || dc == 4,
            out@ == converted(src@, sc as nat, dc as nat, i as nat),
        decreases n - i,
    {
        proof {
            assert(off + sc <= n * sc) by (nonlinear_arith)
                requires
                    off == i * sc,
                    i < n,
            ;
        }
        let px: (u8, u8, u8, u8) = if sc == 1 {
            (src[off], src[off], src[off], 255u8)
        } else if sc == 3 {
            (src[off], src[off + 1], src[off + 2], 255u8)
        } else {
            (src[off], src[off + 1], src[off + 2], src[off + 3])
        };
        proof {
            assert(px == src_pixel(src@, sc as nat, i as nat));
        }
        out.push(px.0);
        out.push(px.1);
        out.push(px.2);
        if dc == 4 {
            out.push(px.3);
        }
        proof {
            assert(out@ =~= converted(src@, sc as nat, dc as nat, (i + 1) as nat));
            assert(off + sc == (i + 1) * sc) by (nonlinear_arith)
                requires
                    off == i * sc,
            ;
        }
        i = i + 1;
        off = off + sc;
    }
    proof {
        lemma_converted_len(src@, sc as nat, dc as nat, n as nat);
    }
    out
}

/// Bytes per pixel of a decoded buffer of `len` bytes holding `n` pixels.
pub open spec fn channels_of(len: nat, n: nat) -> Option<nat> {
    if len == n {
        Some(1nat)
    } else if len == n * 3 {
        Some(3nat)
    } else if len == n * 4 {
        Some(4nat)
    } else {
        None
    }
}

/// The frame that decoding `data` into the expected format gives, if any: the
/// stream must decode, declare the expected width and height, and hold one
/// grey, RGB or RGBA record per pixel; the result is packed in the expected
/// uncompressed layout.
pub open spec fn decode_spec(data: Seq<u8>, expected: FrameFormat) -> Option<Seq<u8>> {
    match jpeg_decoded(data) {
        None => None,
        Some((dims, px)) => {
            let n = expected.pixels();
            if layout_bpp(expected.layout) == 0 {
                None
            } else if dims != Some((expected.width as usize, expected.height as usize)) {
                None
            } else {
                match channels_of(px.len(), n) {
                    None => None,
                    Some(c) => Some(converted(px, c, layout_bpp(expected.layout), n)),
                }
            }
        },
    }
}

/// Decodes one compressed frame into the expected uncompressed layout.
///
/// Fails with `DecodeError` where the stream is malformed, its dimensions
/// differ from the expected ones, its pixel buffer has an unexpected size, or
/// the expected layout is itself compressed. Nothing is truncated or padded.
pub fn decode(data: &[u8], expected: FrameFormat) -> (r: Result<RawFrame, PipelineError>)
    requires
        expected.wf(),
    ensures
        match decode_spec(data@, expected) {
            Some(px) => r matches Ok(f) && f.data@ == px && f.format == FrameFormat::packed_spec(
                expected.width,
                expected.height,
                expected.layout,
            ),
            None => r == Err::<RawFrame, PipelineError>(PipelineError::DecodeError),
        },
        r matches Ok(f) ==> f.wf() && f.format.packed(),
{
    if !expected.layout.is_uncompressed() {
        return Err(PipelineError::DecodeError);
    }
    let (dims, px) = match jpeg_decode(data) {
        Ok(d) => d,
        Err(_) => return Err(PipelineError::DecodeError),
    };
    let w = expected.width as usize;
    let h = expected.height as usize;
    match dims {
        Some((dw, dh)) => {
            if dw != w || dh != h {
                return Err(PipelineError::DecodeError);
            }
        },
        None => return Err(PipelineError::DecodeError),
    }
    proof {
        assert(w * h * 4 <= usize::MAX);
    }
    let n = w * h;
    let sc: usize = if px.len() == n {
        1
    } else if px.len() == n * 3 {
        3
    } else if px.len() == n * 4 {
        4
    } else {
        return Err(PipelineError::DecodeError);
    };
    let bpp = expected.layout.bytes_per_pixel();
    let data = convert_pixels(&px, sc, expected.layout, n);
    let format = FrameFormat {
        width: expected.width,
        height: expected.height,
        layout: expected.layout,
        stride: expected.width * bpp,
    };
    proof {
        let dc = layout_bpp(expected.layout);
        assert(w * dc * h == n * dc) by (nonlinear_arith)
            requires
                n == w * h,
        ;
        assert(n * dc <= n * 4) by (nonlinear_arith)
            requires
                dc <= 4,
        ;
    }
    Ok(RawFrame { data, format })
}

/// Chroma subsampling of the encoder: fixed by the caller, never negotiated.
#[derive(Debug, Clone, Copy, PartialEq, Eq, Structural)]
pub enum Subsampling {
    /// Full chroma resolution.
    Sub444,
    /// Half horizontal chroma resolution.
    Sub422,
    /// Half horizontal and vertical chroma resolution.
    Sub420,
}

/// What the encoder is handed for one frame.
#[derive(Debug, Clone, Copy, PartialEq, Eq, Structural)]
pub struct EncodeParams {
    pub width: usize,
    pub height: usize,
    /// Bytes from one row to the next.
    pub pitch: usize,
    pub layout: PixelLayout,
    /// From 0 to 100; 100 is the most faithful.
    pub quality: u8,
    pub subsampling: Subsampling,
}

/// Whether a frame can be encoded at this quality: quality at most 100, and an
/// uncompressed buffer of exactly the size its format declares.
pub open spec fn encodable(frame: RawFrame, quality: u8) -> bool {
    &&& quality <= 100
    &&& frame.format.wf()
    &&& layout_bpp(frame.format.layout) > 0
    &&& frame.data@.len() == frame.format.frame_len()
}

/// Checks a frame and the encoder's settings before the frame is encoded,
/// and gives what the encoder is to be called with; fails with `EncodeError`
/// where the quality is over 100 or the buffer does not fit its format.
pub fn encode_params(frame: &RawFrame, quality: u8, subsampling: Subsampling) -> (r: Result<
    EncodeParams,
    PipelineError,
>)
    ensures
        encodable(*frame, quality) ==> r == Ok::<EncodeParams, PipelineError>(
            EncodeParams {
                width: frame.format.width as usize,
                height: frame.format.height as usize,
                pitch: frame.format.stride as usize,
                layout: frame.format.layout,
                quality,
                subsampling,
            },
        ),
        !encodable(*frame, quality) ==> r == Err::<EncodeParams, PipelineError>(
            PipelineError::EncodeError,
        ),
{
    let f = frame.format;
    if quality > 100 || !f.is_valid() || !f.layout.is_uncompressed() {
        return Err(PipelineError::EncodeError);
    }
    if frame.data.len() != f.byte_len() {
        return Err(PipelineError::EncodeError);
    }
    Ok(
        EncodeParams {
            width: f.width as usize,
            height: f.height as usize,
            pitch: f.stride as usize,
            layout: f.layout,
            quality,
            subsampling,
        },
    )
}

} // verus!
