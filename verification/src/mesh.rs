//! Scene data as the passes read it: where a mesh keeps its attributes and
//! which index ranges its primitives draw.

use vstd::prelude::*;
use std::ops::Range;

verus! {

/// Identifier of a mesh, a material or a camera.
pub type Id = u64;

/// Element type of index buffers.
pub type Index = u32;

/// Extent of a texture in texels.
#[derive(Clone, Copy, Debug, PartialEq, Eq, Structural)]
pub struct Extent3d {
    pub width: u32,
    pub height: u32,
    pub depth_or_array_layers: u32,
}

/// A texture on the device, known by its extent.
#[derive(Clone, Copy, Debug, PartialEq, Eq, Structural)]
pub struct Texture {
    pub size: Extent3d,
}

/// A material: its three textures.
#[derive(Clone, Copy, Debug, PartialEq, Eq, Structural)]
pub struct Material {
    pub diffuse: Texture,
    pub metallic_roughness: Texture,
    pub normal: Texture,
}

/// An index range of a mesh that is drawn with one material.
pub struct Primitive {
    /// Positions in the index buffer, in indices.
    pub index: Range<u32>,
    pub material: Id,
}

/// A mesh: one vertex buffer split into three attribute ranges, and the
/// primitives that index it.
pub struct Mesh {
    /// Byte range of the positions in the vertex buffer.
    pub positions: Range<u64>,
    /// Byte range of the normals and tangents in the vertex buffer.
    pub normals: Range<u64>,
    /// Byte range of the texture coordinates and colours in the vertex buffer.
    pub colors: Range<u64>,
    pub primitives: Vec<Primitive>,
}

impl Primitive {
    /// The index range does not end before it starts.
    pub open spec fn wf(&self) -> bool {
        self.index.start <= self.index.end
    }
}

impl Mesh {
    /// No attribute range and no primitive's index range ends before it
    /// starts.
    pub open spec fn wf(&self) -> bool {
        &&& self.positions.start <= self.positions.end
        &&& self.normals.start <= self.normals.end
        &&& self.colors.start <= self.colors.end
        &&& forall|i: int| 0 <= i < self.primitives.len() ==> (#[trigger] self.primitives[i]).wf()
    }
}

} // verus!
