//! Voxelisation of the scene into the voxel grid: every primitive of every
//! mesh is cut into dispatches that the device accepts.

use vstd::prelude::*;
use std::collections::HashMap;
use crate::dispatch::{
    dispatch_runs, group_limit_spec, runs_spec, DispatchRun, MAX_DISPATCH,
};
use crate::mesh::{Extent3d, Id, Material, Mesh, Primitive, Texture};
use crate::renderer::Renderer;
use crate::resources::{ResourceManager, ResourceSlots};

pub mod meshify;

pub use crate::resources::{VoxelsMeshResource, VoxelsResource};
pub use self::meshify::{MeshifyPass, RenderMeshifyPass};

verus! {

broadcast use vstd::std_specs::hash::group_hash_axioms;

/// Edge length of the voxel grid in texels.
pub const VOXEL_GRID_SIZE: u32 = 512;

/// The meshes of the scene, in the order in which a pass walks them.
pub struct MeshData {
    pub meshes: Vec<Mesh>,
}

/// The materials of the scene by their identifiers.
pub struct MaterialData {
    pub materials: HashMap<Id, Material>,
}

/// A byte range of a buffer as a binding takes it.
#[derive(Clone, Copy, Debug, PartialEq, Eq, Structural)]
pub struct BufferSlice {
    pub offset: u64,
    pub size: u64,
}

/// The dispatches of one primitive.
pub struct PrimitiveRuns {
    /// The material to bind for the primitive.
    pub material: Id,
    /// The slices of the index buffer, one dispatch each, in order.
    pub runs: Vec<DispatchRun>,
}

/// The dispatches of one mesh.
pub struct MeshRuns {
    /// The positions in the vertex buffer.
    pub positions: BufferSlice,
    /// The normals and tangents in the vertex buffer.
    pub normals: BufferSlice,
    /// The texture coordinates and colours in the vertex buffer.
    pub colors: BufferSlice,
    /// The primitives of the mesh, in order.
    pub primitives: Vec<PrimitiveRuns>,
}

/// What the voxelisation pass records: the grid it writes, and for every mesh
/// of the scene its dispatches, in the order of the scene.
pub struct VoxelizationCommands {
    pub grid: Extent3d,
    pub meshes: Vec<MeshRuns>,
}

/// The number of triangles at whose multiples a slice of the index buffer may
/// start, for a device with the given minimum offset alignment of storage
/// buffers.
pub open spec fn alignment_spec(min_storage_buffer_offset_alignment: int) -> int {
    3 * min_storage_buffer_offset_alignment
}

/// Whether a device with this alignment can be dispatched to: a run must be
/// able to hold at least one triangle.
pub open spec fn dispatchable(min_storage_buffer_offset_alignment: int) -> bool {
    0 < alignment_spec(min_storage_buffer_offset_alignment) <= MAX_DISPATCH
}

/// The slice that binds the bytes `start..end`.
pub open spec fn slice_of(start: u64, end: u64) -> BufferSlice {
    BufferSlice { offset: start, size: (end - start) as u64 }
}

/// Whether `out` holds the dispatches of `primitive` under `limit`.
pub open spec fn primitive_recorded(primitive: Primitive, out: PrimitiveRuns, limit: int) -> bool {
    &&& out.material == primitive.material
    &&& out.runs@ == runs_spec(primitive.index.start as int, primitive.index.end as int, limit)
}

/// Whether `out` holds the bindings of `mesh` and the dispatches of each of
/// its primitives under `limit`, in order.
pub open spec fn mesh_recorded(mesh: Mesh, out: MeshRuns, limit: int) -> bool {
    &&& out.positions == slice_of(mesh.positions.start, mesh.positions.end)
    &&& out.normals == slice_of(mesh.normals.start, mesh.normals.end)
    &&& out.colors == slice_of(mesh.colors.start, mesh.colors.end)
    &&& out.primitives.len() == mesh.primitives.len()
    &&& forall|j: int|
        0 <= j < mesh.primitives.len() ==> primitive_recorded(
            #[trigger] mesh.primitives[j],
            out.primitives[j],
            limit,
        )
}

/// Whether every material that a primitive of `meshes` names is among
/// `materials`.
pub open spec fn materials_resolve(meshes: Seq<Mesh>, materials: Map<Id, Material>) -> bool {
    forall|i: int, j: int|
        0 <= i < meshes.len() && 0 <= j < meshes[i].primitives.len() ==> materials.contains_key(
            (#[trigger] meshes[i].primitives[j]).material,
        )
}

/// The alignment in triangles for a device with the given minimum offset
/// alignment, or `None` where no dispatch could be cut to it.
pub fn dispatch_alignment(min_storage_buffer_offset_alignment: u32) -> (alignment: Option<u32>)
    ensures
        alignment.is_some() == dispatchable(min_storage_buffer_offset_alignment as int),
        alignment matches Some(triangles) ==> triangles == alignment_spec(
            min_storage_buffer_offset_alignment as int,
        ),
{
    if min_storage_buffer_offset_alignment == 0 || min_storage_buffer_offset_alignment
        > MAX_DISPATCH / 3 {
        None
    } else {
        Some(3 * min_storage_buffer_offset_alignment)
    }
}

/// The pass that writes every primitive of the scene into the voxel grid.
pub struct VoxelizationPass {}

/// The voxel grid that the pass writes: a cube of `VOXEL_GRID_SIZE` texels
/// along each edge.
pub open spec fn voxel_grid() -> VoxelsResource {
    VoxelsResource {
        color: Texture {
            size: Extent3d {
                width: VOXEL_GRID_SIZE,
                height: VOXEL_GRID_SIZE,
                depth_or_array_layers: VOXEL_GRID_SIZE,
            },
        },
    }
}

impl VoxelizationPass {
    /// Sets the pass up: the voxel grid is published among the shared
    /// resources of `renderer`, in place of any grid that was there.
    pub fn new(renderer: &mut Renderer) -> (pass: Self)
        ensures
            final(renderer).resources() == (ResourceSlots {
                voxels: Some(voxel_grid()),
                ..old(renderer).resources()
            }),
            final(renderer).resolution() == old(renderer).resolution(),
            final(renderer).dirty_settings() == old(renderer).dirty_settings(),
            final(renderer).cameras() == old(renderer).cameras(),
            final(renderer).next_id() == old(renderer).next_id(),
    {
        let voxels = VoxelsResource {
            color: Texture {
                size: Extent3d {
                    width: VOXEL_GRID_SIZE,
                    height: VOXEL_GRID_SIZE,
                    depth_or_array_layers: VOXEL_GRID_SIZE,
                },
            },
        };
        let _ = renderer.insert_resource(voxels);
        VoxelizationPass {  }
    }

    /// Whether every primitive of `meshes` names a material of `materials`.
    pub fn resolves(meshes: &MeshData, materials: &MaterialData) -> (resolved: bool)
        ensures
            resolved == materials_resolve(meshes.meshes@, materials.materials@),
    {
        let mut i: usize = 0;
        while i < meshes.meshes.len()
            invariant
                i <= meshes.meshes.len(),
                forall|a: int, b: int|
                    0 <= a < i && 0 <= b < meshes.meshes[a].primitives.len()
                        ==> materials.materials@.contains_key(
                        (#[trigger] meshes.meshes[a].primitives[b]).material,
                    ),
            decreases meshes.meshes.len() - i,
        {
            let mesh = &meshes.meshes[i];
            let mut j: usize = 0;
            while j < mesh.primitives.len()
                invariant
                    j <= mesh.primitives.len(),
                    i < meshes.meshes.len(),
                    *mesh == meshes.meshes[i as int],
                    forall|b: int|
                        0 <= b < j ==> materials.materials@.contains_key(
                            (#[trigger] mesh.primitives[b]).material,
                        ),
                decreases mesh.primitives.len() - j,
            {
                if !materials.materials.contains_key(&mesh.primitives[j].material) {
                    assert(!materials.materials@.contains_key(
                        meshes.meshes[i as int].primitives[j as int].material,
                    ));
                    return false;
                }
                j = j + 1;
            }
            i = i + 1;
        }
        true
    }

    /// Records the voxelisation of the scene.
    ///
    /// For every mesh, in order, the three attribute ranges of its vertex
    /// buffer are bound, and every primitive is cut into runs that the
    /// dispatch limit allows; each run binds its slice of the index buffer
    /// and dispatches one workgroup per triangle.
    pub fn execute(
        &mut self,
        meshes: &MeshData,
        materials: &MaterialData,
        min_storage_buffer_offset_alignment: u32,
        global_resources: &ResourceManager,
    ) -> (commands: Option<VoxelizationCommands>)
        requires
            global_resources@.voxels.is_some(),
            dispatchable(min_storage_buffer_offset_alignment as int),
            materials_resolve(meshes.meshes@, materials.materials@),
            forall|i: int| 0 <= i < meshes.meshes.len() ==> (#[trigger] meshes.meshes[i]).wf(),
        ensures
            commands matches Some(recorded) && {
                &&& recorded.grid == global_resources@.voxels.unwrap().color.size
                &&& recorded.meshes.len() == meshes.meshes.len()
                &&& forall|i: int|
                    0 <= i < meshes.meshes.len() ==> mesh_recorded(
                        #[trigger] meshes.meshes[i],
                        recorded.meshes[i],
                        group_limit_spec(alignment_spec(min_storage_buffer_offset_alignment as int)),
                    )
            },
    {
        let grid = global_resources.get_resource::<VoxelsResource>().unwrap().color.size;
        let alignment: u32 = 3 * min_storage_buffer_offset_alignment;
        let ghost limit = group_limit_spec(alignment as int);
        let mut recorded: Vec<MeshRuns> = Vec::new();
        let mut i: usize = 0;
        while i < meshes.meshes.len()
            invariant
                i <= meshes.meshes.len(),
                recorded.len() == i,
                0 < alignment <= MAX_DISPATCH,
                limit == group_limit_spec(alignment as int),
                forall|a: int| 0 <= a < meshes.meshes.len() ==> (#[trigger] meshes.meshes[a]).wf(),
                forall|a: int|
                    0 <= a < i ==> mesh_recorded(#[trigger] meshes.meshes[a], recorded[a], limit),
            decreases meshes.meshes.len() - i,
        {
            let mesh = &meshes.meshes[i];
            assert(mesh.wf());
            let mut primitives: Vec<PrimitiveRuns> = Vec::new();
            let mut j: usize = 0;
            while j < mesh.primitives.len()
                invariant
                    j <= mesh.primitives.len(),
                    primitives.len() == j,
                    mesh.wf(),
                    0 < alignment <= MAX_DISPATCH,
                    limit == group_limit_spec(alignment as int),
                    forall|b: int|
                        0 <= b < j ==> primitive_recorded(
                            #[trigger] mesh.primitives[b],
                            primitives[b],
                            limit,
                        ),
                decreases mesh.primitives.len() - j,
            {
                let primitive = &mesh.primitives[j];
                assert(primitive.wf());
                let runs = dispatch_runs(primitive.index.start, primitive.index.end, alignment);
                primitives.push(PrimitiveRuns { material: primitive.material, runs });
                j = j + 1;
            }
            recorded.push(
                MeshRuns {
                    positions: BufferSlice {
                        offset: mesh.positions.start,
                        size: mesh.positions.end - mesh.positions.start,
                    },
                    normals: BufferSlice {
                        offset: mesh.normals.start,
                        size: mesh.normals.end - mesh.normals.start,
                    },
                    colors: BufferSlice {
                        offset: mesh.colors.start,
                        size: mesh.colors.end - mesh.colors.start,
                    },
                    primitives,
                },
            );
            i = i + 1;
        }
        Some(VoxelizationCommands { grid, meshes: recorded })
    }
}

} // verus!
