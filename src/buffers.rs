//! The three buffer recipes. Each fixes a usage and a memory placement; a
//! new shape of buffer is a new recipe, not a new parameter.

use vstd::prelude::*;

verus! {

/// The three kinds of buffer the renderer allocates.
#[derive(Clone, Copy, Debug, PartialEq, Eq, Structural)]
pub enum BufferClass {
    /// Small shader constants that the CPU writes and the GPU reads.
    UniformUpload,
    /// Bulk data that the CPU writes for a copy on the GPU.
    TransferSource,
    /// Results that the GPU writes and the CPU reads back.
    TransferDestination,
}

/// How a buffer is used by the GPU.
#[derive(Clone, Copy, Debug, PartialEq, Eq, Structural)]
pub enum BufferUse {
    Uniform,
    TransferSrc,
    TransferDst,
}

/// Which memory a buffer should preferably live in.
#[derive(Clone, Copy, Debug, PartialEq, Eq, Structural)]
pub enum Placement {
    PreferDevice,
    PreferHost,
}

/// How the host accesses a buffer's memory; either way it is host-visible.
#[derive(Clone, Copy, Debug, PartialEq, Eq, Structural)]
pub enum HostAccess {
    SequentialWrite,
    RandomAccess,
}

/// The usage and memory placement of one kind of buffer.
#[derive(Clone, Copy, Debug, PartialEq, Eq, Structural)]
pub struct BufferRecipe {
    pub usage: BufferUse,
    pub placement: Placement,
    pub host_access: HostAccess,
}

pub open spec fn recipe_spec(class: BufferClass) -> BufferRecipe {
    match class {
        BufferClass::UniformUpload => BufferRecipe {
            usage: BufferUse::Uniform,
            placement: Placement::PreferDevice,
            host_access: HostAccess::SequentialWrite,
        },
        BufferClass::TransferSource => BufferRecipe {
            usage: BufferUse::TransferSrc,
            placement: Placement::PreferHost,
            host_access: HostAccess::SequentialWrite,
        },
        BufferClass::TransferDestination => BufferRecipe {
            usage: BufferUse::TransferDst,
            placement: Placement::PreferHost,
            host_access: HostAccess::RandomAccess,
        },
    }
}

/// The recipe of a kind of buffer.
pub fn recipe(class: BufferClass) -> (r: BufferRecipe)
    ensures
        r == recipe_spec(class),
{
    match class {
        BufferClass::UniformUpload => BufferRecipe {
            usage: BufferUse::Uniform,
            placement: Placement::PreferDevice,
            host_access: HostAccess::SequentialWrite,
        },
        BufferClass::TransferSource => BufferRecipe {
            usage: BufferUse::TransferSrc,
            placement: Placement::PreferHost,
            host_access: HostAccess::SequentialWrite,
        },
        BufferClass::TransferDestination => BufferRecipe {
            usage: BufferUse::TransferDst,
            placement: Placement::PreferHost,
            host_access: HostAccess::RandomAccess,
        },
    }
}

/// No two kinds of buffer share a recipe.
pub proof fn lemma_recipes_distinct(a: BufferClass, b: BufferClass)
    requires
        a != b,
    ensures
        recipe_spec(a) != recipe_spec(b),
{
}

} // verus!
