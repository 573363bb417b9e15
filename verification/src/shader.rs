//! The code that a shader component draws with.
use vstd::prelude::*;

verus! {

/// A shader: code in the shape language, or one of the built-in shaders.
#[derive(Clone, Debug)]
pub enum ShaderCode {
    Code(String),
    Built(Built),
}

/// The built-in shaders.
#[derive(Clone, Debug)]
pub enum Built {
    MeshWithLight,
}

} // verus!
