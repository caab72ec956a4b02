//! Model loading decisions.
//!
//! Parsing mesh files and uploading geometry are host work; the engine
//! decides here, from the path's extension (the part after the last
//! dot), which loader a model file goes to.  An extension nobody handles
//! falls through to an "unsupported" notice and leaves the resource
//! empty.

use vstd::prelude::*;

use crate::objects::GraphicsObjects;

verus! {

/// The buffer handles a loaded model draws with: one set for the
/// geometry, one for the texture coordinates.
#[derive(Debug)]
pub struct ModelGobs {
    pub default: GraphicsObjects,
    pub texture: GraphicsObjects,
}

/// The loader a model file is routed to.
#[derive(Debug, Clone, Copy, PartialEq, Eq, Structural)]
pub enum ModelFormat {
    /// A `gltf` or `glb` file (parsed and printed for inspection only).
    Gltf,
    /// An `obj` file, triangulated into mesh data.
    Obj,
    /// Anything else: reported as unsupported, the resource stays empty.
    Unsupported,
}

/// The index of the last `.` in a path, or -1 when there is none.
pub open spec fn last_dot(p: Seq<char>) -> int
    decreases p.len(),
{
    if p.len() == 0 {
        -1
    } else if p.last() == '.' {
        p.len() - 1
    } else {
        last_dot(p.drop_last())
    }
}

/// The extension of a path that has a dot: everything after the last
/// one.
pub open spec fn extension_of(p: Seq<char>) -> Seq<char> {
    p.subrange(last_dot(p) + 1, p.len() as int)
}

/// The loader for an extension: `gltf` and `glb` files go to the glTF
/// loader, `obj` files to the OBJ loader, anything else is unsupported.
pub open spec fn format_of(p: Seq<char>) -> ModelFormat {
    if extension_of(p) == "gltf"@ || extension_of(p) == "glb"@ {
        ModelFormat::Gltf
    } else if extension_of(p) == "obj"@ {
        ModelFormat::Obj
    } else {
        ModelFormat::Unsupported
    }
}

proof fn lemma_last_dot_at(p: Seq<char>, i: int)
    requires
        0 <= i < p.len(),
        p[i] == '.',
        forall|j: int| i < j < p.len() ==> p[j] != '.',
    ensures
        last_dot(p) == i,
    decreases p.len(),
{
    if i == p.len() - 1 {
    } else {
        assert(p.last() != '.');
        lemma_last_dot_at(p.drop_last(), i);
    }
}

proof fn lemma_no_dot(p: Seq<char>)
    requires
        forall|j: int| 0 <= j < p.len() ==> p[j] != '.',
    ensures
        last_dot(p) == -1,
    decreases p.len(),
{
    if p.len() > 0 {
        lemma_no_dot(p.drop_last());
    }
}

/// Routes a model path to its loader by the extension after the last
/// dot.  A path without a dot is a caller error the engine does not
/// survive, so it is excluded here.
pub fn model_format(path: &str) -> (r: ModelFormat)
    requires
        last_dot(path@) >= 0,
    ensures
        r == format_of(path@),
{
    let n = path.unicode_len();
    let mut j: usize = n;
    while j > 0 && path.get_char(j - 1) != '.'
        invariant
            0 <= j <= n,
            n == path@.len(),
            forall|t: int| j <= t < n ==> path@[t] != '.',
        decreases j,
    {
        j = j - 1;
    }
    proof {
        if j == 0 {
            lemma_no_dot(path@);
            assert(false);
        } else {
            lemma_last_dot_at(path@, j - 1);
        }
    }
    let ext = path.substring_char(j, n).to_owned();
    if ext == String::from_str("gltf") || ext == String::from_str("glb") {
        ModelFormat::Gltf
    } else if ext == String::from_str("obj") {
        ModelFormat::Obj
    } else {
        ModelFormat::Unsupported
    }
}

} // verus!
