//! A linked pair of vertex and fragment shader, by the program's name.
//!
//! Compiling and linking is the graphics driver's work. What is left for the
//! library is the name of the program that came out of it, and the length of
//! a source text in the width that the driver takes lengths in.

use vstd::prelude::*;

verus! {

/// The name of a program object that a vertex and a fragment shader were
/// linked into.
pub struct ShaderPair {
    program_id: u32,
}

impl ShaderPair {
    /// Takes the name of a linked program object.
    pub fn new(program_id: u32) -> (pair: ShaderPair)
        ensures
            pair.id() == program_id,
    {
        ShaderPair { program_id }
    }

    /// The name of the program object.
    pub closed spec fn id(&self) -> u32 {
        self.program_id
    }

    /// The name of the program object, to bind it with.
    pub fn program_id(&self) -> (id: u32)
        ensures
            id == self.id(),
    {
        self.program_id
    }
}

/// The length of a shader source as a signed 32-bit integer. A source of
/// more than `i32::MAX` bytes has no such length: its length is cut to the
/// low 32 bits, as a cast does.
pub fn source_length(source: &[u8]) -> (length: i32)
    ensures
        length == source@.len() as i32,
        source@.len() <= i32::MAX ==> length == source@.len(),
{
    source.len() as i32
}

} // verus!
