use vstd::prelude::*;

verus! {

/// Everything that an operation of the renderer can fail with.
#[derive(Debug, Clone, PartialEq, Eq)]
pub enum Error {
    /// A shader source was rejected before it reached the device.
    ShaderCompileFailed { message: String },
    /// A geometry lacks a buffer that the shader bound to it reads.
    MissingAttribute { name: String },
    /// A light slot index beyond the fixed number of slots.
    LightIndexOutOfRange,
    /// A pass was invoked before the pass that produces its input.
    PipelineOutOfOrder,
    /// The render target's size differs from the active viewport's.
    ViewportMismatch,
    /// The context has no handle left for a new GPU object.
    ResourceCreationFailed,
}

impl Error {
    /// Whether this is `MissingAttribute` for the attribute called `name`.
    pub open spec fn is_missing(self, name: Seq<char>) -> bool {
        self matches Error::MissingAttribute { name: n } && n@ == name
    }

    /// Whether this is `ShaderCompileFailed` with the text `message`.
    pub open spec fn is_compile_failure(self, message: Seq<char>) -> bool {
        self matches Error::ShaderCompileFailed { message: m } && m@ == message
    }

    /// An error for a geometry that lacks the attribute `name`.
    pub fn missing_attribute(name: &str) -> (e: Error)
        ensures
            e.is_missing(name@),
    {
        Error::MissingAttribute { name: String::from_str(name) }
    }

    /// An error for a shader source rejected with `message`.
    pub fn shader_compile_failed(message: &str) -> (e: Error)
        ensures
            e.is_compile_failure(message@),
    {
        Error::ShaderCompileFailed { message: String::from_str(message) }
    }
}

} // verus!
