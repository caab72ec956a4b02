//! Shader program state and the decisions around it.
//!
//! Compiling and linking happen in the host layer against the GPU; the
//! engine decides here how compile and link status flags are read and,
//! centrally, that a named-uniform upload is silently skipped when the
//! name does not resolve in the program.

use vstd::prelude::*;

verus! {

/// The two source texts a program is built from.
#[derive(Debug, Clone)]
pub struct ShaderSources {
    pub vertex: String,
    pub fragment: String,
}

/// One shader program: the sources it was built from and the id the GPU
/// link step produced; zero means unusable, and callers must tolerate it
/// (uniform uploads on it no-op).
#[derive(Debug)]
pub struct Shader {
    pub program_id: u32,
    pub content: ShaderSources,
}

impl Shader {
    /// A program not yet linked, from its source texts (the host reads
    /// the two files; a missing one is fatal before this point).
    pub fn new(sources: ShaderSources) -> (r: Self)
        ensures
            r.program_id == 0,
            r.content == sources,
    {
        Shader { program_id: 0, content: sources }
    }

    /// Records the id the GPU link step produced, successful or not.
    pub fn record_program(&mut self, id: u32)
        ensures
            final(self).program_id == id,
            final(self).content == old(self).content,
    {
        self.program_id = id;
    }
}

/// A GPU status flag signals success with the value one.
pub open spec fn status_ok(status: i32) -> bool {
    status == 1
}

/// Reads a compile or link status flag: success is the value one; any
/// other value means the step failed, is logged, and execution continues
/// with a possibly unusable program.
pub fn compile_status_succeeded(status: i32) -> (r: bool)
    ensures
        r == status_ok(status),
{
    status == 1
}

/// What to do with one named-uniform upload.
#[derive(Debug, Clone, Copy, PartialEq, Eq, Structural)]
pub enum UniformUpload {
    /// The name does not resolve in the program: skip silently, touching
    /// nothing.
    Skip,
    /// The name resolved to this location: hand the data to the GPU.
    Upload(i32),
}

/// The decision for a resolved uniform location: an absent name comes
/// back as -1 and is skipped without an error.
pub open spec fn uniform_upload_decision(location: i32) -> UniformUpload {
    if location == -1 {
        UniformUpload::Skip
    } else {
        UniformUpload::Upload(location)
    }
}

/// Decides one named-uniform upload from the location the program
/// resolved for the name.
pub fn plan_uniform_upload(location: i32) -> (r: UniformUpload)
    ensures
        r == uniform_upload_decision(location),
{
    if location == -1 {
        UniformUpload::Skip
    } else {
        UniformUpload::Upload(location)
    }
}

/// A name absent from the program never reaches the GPU: the upload is
/// skipped, so every uniform the program holds keeps its value.
pub proof fn lemma_absent_uniform_is_skipped(location: i32)
    requires
        location == -1,
    ensures
        uniform_upload_decision(location) == UniformUpload::Skip,
{
}

/// A name that resolves is uploaded at exactly the resolved location.
pub proof fn lemma_present_uniform_is_uploaded(location: i32)
    requires
        location != -1,
    ensures
        uniform_upload_decision(location) == UniformUpload::Upload(location),
{
}

} // verus!
