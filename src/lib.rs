//! A real-time video effects pipeline: device format negotiation, frame
//! decoding and pixel conversion, the GPU filter's resource lifecycle and
//! per-frame checks, and the pacing and shutdown of the stream loop.

pub mod error;
pub mod format;
pub mod codec;
pub mod negotiate;
pub mod gpu;
pub mod filter;
pub mod stream;
pub mod handoff;
