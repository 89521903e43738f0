//! The failures of the pipeline: path resolution, source loading, shader
//! compilation and program linking each report through one variant, and every
//! variant carries its diagnostic text.

use vstd::prelude::*;
use vstd::string::StringExecFns;

verus! {

/// A failure of the shader pipeline, with its diagnostic message.
#[derive(Debug, PartialEq)]
pub enum PipelineError {
    /// A file or path could not be read or resolved.
    IoError(String),
    /// A resource name ends in neither of the recognised shader suffixes.
    UnknownShaderKind(String),
    /// The driver rejected a shader source; the payload is its info log.
    CompileError(String),
    /// The driver rejected a program link; the payload is its info log.
    LinkError(String),
}

impl PipelineError {
    /// The diagnostic text the error carries.
    pub open spec fn spec_message(&self) -> Seq<char> {
        match self {
            PipelineError::IoError(m) => m@,
            PipelineError::UnknownShaderKind(m) => m@,
            PipelineError::CompileError(m) => m@,
            PipelineError::LinkError(m) => m@,
        }
    }

    /// Two errors report the same stage of the pipeline.
    pub open spec fn same_kind(self, other: PipelineError) -> bool {
        match (self, other) {
            (PipelineError::IoError(_), PipelineError::IoError(_)) => true,
            (PipelineError::UnknownShaderKind(_), PipelineError::UnknownShaderKind(_)) => true,
            (PipelineError::CompileError(_), PipelineError::CompileError(_)) => true,
            (PipelineError::LinkError(_), PipelineError::LinkError(_)) => true,
            _ => false,
        }
    }

    pub fn message(&self) -> (r: String)
        ensures
            r@ == self.spec_message(),
    {
        match self {
            PipelineError::IoError(m) => m.clone(),
            PipelineError::UnknownShaderKind(m) => m.clone(),
            PipelineError::CompileError(m) => m.clone(),
            PipelineError::LinkError(m) => m.clone(),
        }
    }

    /// Wraps the diagnostic with the name of the resource being loaded,
    /// keeping the stage the error reports.
    pub fn with_resource_context(self, name: &str) -> (r: PipelineError)
        ensures
            self.same_kind(r),
            r.spec_message() == "Error loading resource "@ + name@ + ": "@
                + self.spec_message(),
    {
        match self {
            PipelineError::IoError(m) => PipelineError::IoError(context_message(name, &m)),
            PipelineError::UnknownShaderKind(m) => PipelineError::UnknownShaderKind(
                context_message(name, &m),
            ),
            PipelineError::CompileError(m) => PipelineError::CompileError(
                context_message(name, &m),
            ),
            PipelineError::LinkError(m) => PipelineError::LinkError(context_message(name, &m)),
        }
    }
}

fn context_message(name: &str, inner: &String) -> (r: String)
    ensures
        r@ == "Error loading resource "@ + name@ + ": "@ + inner@,
{
    let r = String::from_str("Error loading resource ").concat(name).concat(": ").concat(
        inner.as_str(),
    );
    proof {
        assert(r@ =~= "Error loading resource "@ + name@ + ": "@ + inner@);
    }
    r
}

} // verus!
