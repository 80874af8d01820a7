use vstd::prelude::*;

verus! {

/// Everything that can go wrong in the pipeline.
///
/// Per-frame codec and render failures are recoverable: the frame is dropped
/// and the stream goes on. Every other error ends the pipeline.
#[derive(Debug, Clone, PartialEq, Eq)]
pub enum PipelineError {
    /// Device negotiation ran out of candidate formats.
    UnsupportedFormat,
    /// A compressed frame could not be decoded into the expected format.
    DecodeError,
    /// A pixel buffer could not be encoded with the requested parameters.
    EncodeError,
    /// A shader stage failed to compile; carries the compiler's log.
    ShaderCompileError(String),
    /// The shader program failed to link; carries the linker's log.
    ShaderLinkError(String),
    /// No GPU context with the requested version and profile.
    ContextCreationError(String),
    /// A GPU pass could not be run or read back.
    RenderError,
    /// A blocking read or write on a device failed.
    DeviceIOError,
}

/// Whether an error only costs the current frame.
pub open spec fn recoverable(e: PipelineError) -> bool {
    match e {
        PipelineError::DecodeError | PipelineError::EncodeError | PipelineError::RenderError => true,
        _ => false,
    }
}

impl PipelineError {
    /// Whether the stream may drop the frame and go on after this error.
    pub fn is_recoverable(&self) -> (r: bool)
        ensures
            r == recoverable(*self),
    {
        match self {
            PipelineError::DecodeError => true,
            PipelineError::EncodeError => true,
            PipelineError::RenderError => true,
            _ => false,
        }
    }
}

} // verus!
