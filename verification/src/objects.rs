//! Handles for the GPU buffer objects one drawable owns.
//!
//! The GPU calls that fill these handles live in the host layer; the
//! engine itself only tracks the handle values, where zero means "not
//! created yet".

use vstd::prelude::*;

verus! {

/// The vertex-buffer, vertex-array and element-buffer handles of one
/// drawable; zero means the object has not been generated yet.
#[derive(Debug, Clone)]
pub struct GraphicsObjects {
    pub vbo: u32,
    pub vao: u32,
    pub ebo: u32,
}

impl Default for GraphicsObjects {
    /// All handles start out ungenerated.
    fn default() -> (r: Self)
        ensures
            r.vbo == 0 && r.vao == 0 && r.ebo == 0,
    {
        GraphicsObjects { vbo: 0, vao: 0, ebo: 0 }
    }
}

/// A simple test square: one set of buffer handles, drawn by the host.
#[derive(Debug)]
pub struct TestComponent {
    pub gob: GraphicsObjects,
}

impl Default for TestComponent {
    /// Starts with ungenerated buffer handles.
    fn default() -> (r: Self)
        ensures
            r.gob.vbo == 0 && r.gob.vao == 0 && r.gob.ebo == 0,
    {
        TestComponent { gob: GraphicsObjects { vbo: 0, vao: 0, ebo: 0 } }
    }
}

} // verus!
