//! Boundary type of the rendering collaborator. Compiling, linking,
//! binding and uniform lookup belong to the rendering layer, which owns
//! the graphics context; the core sees a shader program only as this
//! numeric handle.

use vstd::prelude::*;

verus! {

/// Handle of a shader program owned by the rendering layer.
#[derive(Clone, Copy, PartialEq, Eq, Structural, Debug)]
pub struct Shader {
    pub m_id: u32,
}

} // verus!
