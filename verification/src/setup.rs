//! The checks made on what the driver hands back while the scene is set up.

use vstd::prelude::*;

verus! {

/// The index OpenGL gives for a program resource that does not exist.
pub const GL_INVALID_INDEX: u32 = 0xFFFF_FFFF;

/// A program input the scene needs and the linked program lacks.
#[derive(Debug, PartialEq, Eq)]
pub enum MissingInput {
    /// The texture coordinate attribute `aCoord`.
    Coords,
    /// The vertex position attribute `aPosition`.
    Position,
    /// The uniform block `uBlock`.
    UniformBlock,
}

/// The first of the scene's inputs, in the order coordinates, position,
/// uniform block, whose resource index is `GL_INVALID_INDEX`.
pub open spec fn first_missing(coords: u32, position: u32, block: u32) -> Option<MissingInput> {
    if coords == GL_INVALID_INDEX {
        Some(MissingInput::Coords)
    } else if position == GL_INVALID_INDEX {
        Some(MissingInput::Position)
    } else if block == GL_INVALID_INDEX {
        Some(MissingInput::UniformBlock)
    } else {
        None
    }
}

/// Finds the first input of the scene that the program lacks, given the
/// resource indices the driver returned for them.
pub fn first_missing_input(coords: u32, position: u32, block: u32) -> (res: Option<MissingInput>)
    ensures
        res == first_missing(coords, position, block),
        coords == GL_INVALID_INDEX ==> res == Some(MissingInput::Coords),
        (res == Some(MissingInput::Position)) <==> (coords != GL_INVALID_INDEX && position
            == GL_INVALID_INDEX),
        (res == Some(MissingInput::UniformBlock)) <==> (coords != GL_INVALID_INDEX && position
            != GL_INVALID_INDEX && block == GL_INVALID_INDEX),
        (res is None) <==> (coords != GL_INVALID_INDEX && position != GL_INVALID_INDEX && block
            != GL_INVALID_INDEX),
{
    if coords == GL_INVALID_INDEX {
        Some(MissingInput::Coords)
    } else if position == GL_INVALID_INDEX {
        Some(MissingInput::Position)
    } else if block == GL_INVALID_INDEX {
        Some(MissingInput::UniformBlock)
    } else {
        None
    }
}

/// Whether every buffer name the driver created is a real one (not zero).
pub fn buffers_created(names: &[u32; 4]) -> (ok: bool)
    ensures
        ok == (forall|i: int| 0 <= i < 4 ==> names@[i] != 0),
{
    let ok = names[0] != 0 && names[1] != 0 && names[2] != 0 && names[3] != 0;
    proof {
        assert(ok ==> forall|i: int| 0 <= i < 4 ==> names@[i] != 0);
    }
    ok
}

} // verus!

verus! {

/// An input is reported missing exactly when its index is `GL_INVALID_INDEX`
/// and every input checked before it (coordinates, then position, then the
/// uniform block) was found; nothing is reported only when all three were
/// found.
pub proof fn missing_input_is_the_first_invalid(coords: u32, position: u32, block: u32)
    ensures
        coords == GL_INVALID_INDEX ==> first_missing(coords, position, block) == Some(
            MissingInput::Coords,
        ),
        (first_missing(coords, position, block) == Some(MissingInput::Coords)) <==> coords
            == GL_INVALID_INDEX,
        (first_missing(coords, position, block) == Some(MissingInput::Position)) <==> (coords
            != GL_INVALID_INDEX && position == GL_INVALID_INDEX),
        (first_missing(coords, position, block) == Some(MissingInput::UniformBlock)) <==> (
        coords != GL_INVALID_INDEX && position != GL_INVALID_INDEX && block == GL_INVALID_INDEX),
        (first_missing(coords, position, block) is None) <==> (coords != GL_INVALID_INDEX
            && position != GL_INVALID_INDEX && block != GL_INVALID_INDEX),
{
}

} // verus!
