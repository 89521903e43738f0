//! The shader compiler's decisions: which pipeline stage a resource name
//! selects, and what the driver's compile report means. The driver calls
//! themselves are the caller's: it creates and compiles the shader object,
//! reads the compile status and, on failure, the info log, and hands those
//! values in.

use vstd::prelude::*;
use vstd::string::StringExecFns;

use crate::diagnostics::{info_log_message, nul_truncated, spec_log_message};
use crate::errors::PipelineError;
use crate::string_utils::{seq_ends_with, str_ends_with};

verus! {

/// The pipeline stage a shader belongs to.
#[derive(Clone, Copy, Debug, PartialEq, Eq, Structural)]
pub enum ShaderKind {
    Vertex,
    Fragment,
}

impl ShaderKind {
    /// The suffix policy: a resource name ending in `.vert` names a vertex
    /// shader and one ending in `.frag` a fragment shader; any other name
    /// has no known shader kind and is rejected.
    pub fn from_resource_name(name: &str) -> (r: Result<ShaderKind, PipelineError>)
        ensures
            seq_ends_with(name@, ".vert"@) ==> r == Ok::<ShaderKind, PipelineError>(
                ShaderKind::Vertex,
            ),
            !seq_ends_with(name@, ".vert"@) && seq_ends_with(name@, ".frag"@) ==> r == Ok::<
                ShaderKind,
                PipelineError,
            >(ShaderKind::Fragment),
            !seq_ends_with(name@, ".vert"@) && !seq_ends_with(name@, ".frag"@) ==> (r matches Err(e)
                && e matches PipelineError::UnknownShaderKind(m)
                && m@ == "Can not determine shader type for resource "@ + name@),
    {
        if str_ends_with(name, ".vert") {
            Ok(ShaderKind::Vertex)
        } else if str_ends_with(name, ".frag") {
            Ok(ShaderKind::Fragment)
        } else {
            let text = String::from_str("Can not determine shader type for resource ").concat(
                name,
            );
            Err(PipelineError::UnknownShaderKind(text))
        }
    }
}

/// A compiled shader object: the opaque identifier the driver handed out for
/// it. The driver owns the object; the identifier names it in later calls.
pub struct Shader {
    id: u32,
}

impl Shader {
    /// The driver's identifier for the shader object.
    pub closed spec fn spec_id(&self) -> u32 {
        self.id
    }

    pub fn id(&self) -> (r: u32)
        ensures
            r == self.spec_id(),
    {
        self.id
    }

    /// The driver's verdict on a compile: a nonzero compile status accepts
    /// the object and yields its handle; a zero status yields no handle.
    pub fn from_compile_status(id: u32, compile_status: i32) -> (r: Option<Shader>)
        ensures
            compile_status != 0 ==> (r matches Some(s) && s.spec_id() == id),
            compile_status == 0 ==> r is None,
    {
        if compile_status != 0 {
            Some(Shader { id })
        } else {
            None
        }
    }
}

/// The error for a failed compile: the driver's info log, truncated at its
/// NUL terminator and decoded, becomes the diagnostic message. A driver that
/// wrote anything before the terminator yields a non-empty message.
pub fn compile_error_from_log(log: &Vec<u8>) -> (e: PipelineError)
    ensures
        e matches PipelineError::CompileError(m) && m@ == spec_log_message(log@),
        e matches PipelineError::CompileError(m) && (nul_truncated(log@).len() > 0 ==> m@.len()
            > 0),
{
    PipelineError::CompileError(info_log_message(log))
}

} // verus!
