//! The program linker's decisions: the names of the two stage resources that
//! make up a program, what the driver's link report means, and which program
//! is marked as the one draw calls use. The caller performs the driver calls
//! and hands their outcomes in.

use vstd::prelude::*;
use vstd::string::StringExecFns;

use crate::diagnostics::{info_log_message, nul_truncated, spec_log_message};
use crate::errors::PipelineError;

verus! {

/// The resource names of a program's two stages: the logical name with
/// `.vert` appended names the vertex stage, with `.frag` the fragment stage.
pub fn stage_resource_names(name: &str) -> (r: (String, String))
    ensures
        r.0@ == name@ + ".vert"@,
        r.1@ == name@ + ".frag"@,
{
    let vert = String::from_str(name).concat(".vert");
    let frag = String::from_str(name).concat(".frag");
    (vert, frag)
}

/// A linked program: the opaque identifier the driver handed out for it. It
/// holds the compiled stages together and outlives their shader objects.
pub struct Program {
    id: u32,
}

impl Program {
    /// The driver's identifier for the program object.
    pub closed spec fn spec_id(&self) -> u32 {
        self.id
    }

    pub fn id(&self) -> (r: u32)
        ensures
            r == self.spec_id(),
    {
        self.id
    }

    /// The driver's verdict on a link of the two stages: a nonzero link
    /// status accepts the program and yields its handle; a zero status
    /// yields no handle.
    pub fn from_link_status(id: u32, link_status: i32) -> (r: Option<Program>)
        ensures
            link_status != 0 ==> (r matches Some(p) && p.spec_id() == id),
            link_status == 0 ==> r is None,
    {
        if link_status != 0 {
            Some(Program { id })
        } else {
            None
        }
    }
}

/// The error for a failed link: the driver's info log, truncated at its NUL
/// terminator and decoded, becomes the diagnostic message. A driver that
/// wrote anything before the terminator yields a non-empty message.
pub fn link_error_from_log(log: &Vec<u8>) -> (e: PipelineError)
    ensures
        e matches PipelineError::LinkError(m) && m@ == spec_log_message(log@),
        e matches PipelineError::LinkError(m) && (nul_truncated(log@).len() > 0 ==> m@.len() > 0),
{
    PipelineError::LinkError(info_log_message(log))
}

/// Which program the driver currently uses for draw calls. The caller keeps
/// one of these beside the driver context and records each activation in it.
pub struct ProgramBinding {
    active_program: Option<u32>,
}

impl ProgramBinding {
    /// The identifier of the active program, if one has been activated.
    pub closed spec fn spec_active(&self) -> Option<u32> {
        self.active_program
    }

    /// A fresh context has no active program.
    pub fn new() -> (b: ProgramBinding)
        ensures
            b.spec_active() is None,
    {
        ProgramBinding { active_program: None }
    }

    /// Marks the program as the active one: every draw call issued after
    /// this and before the next activation uses it.
    pub fn mark_as_used(&mut self, program: &Program)
        ensures
            final(self).spec_active() == Some(program.spec_id()),
    {
        self.active_program = Some(program.id());
    }

    /// Whether the program is the active one.
    pub fn is_active(&self, program: &Program) -> (r: bool)
        ensures
            r == (self.spec_active() == Some(program.spec_id())),
    {
        match self.active_program {
            Some(id) => id == program.id(),
            None => false,
        }
    }
}

} // verus!
