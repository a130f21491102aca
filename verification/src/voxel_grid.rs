//! The voxel grid on the host, and what the counting and the instancing pass
//! make of it: the number of its occupied voxels, and one cube for each.

use vstd::prelude::*;
use vstd::arithmetic::div_mod::lemma_fundamental_div_mod_converse;
use crate::mesh::Extent3d;

verus! {

/// The colour of a voxel that nothing was written to.
pub const EMPTY: u32 = 0;

/// Whether a voxel of colour `texel` is occupied.
pub open spec fn occupied(texel: u32) -> bool {
    texel != EMPTY
}

/// Number of occupied voxels among `texels`.
pub open spec fn occupied_count(texels: Seq<u32>) -> nat
    decreases texels.len(),
{
    if texels.len() == 0 {
        0
    } else {
        occupied_count(texels.drop_last()) + (if occupied(texels.last()) {
            1nat
        } else {
            0nat
        })
    }
}

/// Number of texels in a grid of `size`.
pub open spec fn texel_count(size: Extent3d) -> int {
    size.width * size.height * size.depth_or_array_layers
}

/// Place of the texel `(x, y, z)` in a grid of `size`: rows follow one
/// another within a layer, and layers follow one another.
pub open spec fn texel_index(size: Extent3d, x: int, y: int, z: int) -> int {
    x + size.width * (y + size.height * z)
}

/// The coordinates of the texel at place `index` in a grid of `size`.
pub open spec fn texel_at(size: Extent3d, index: int) -> (int, int, int) {
    (
        index % (size.width as int),
        (index / (size.width as int)) % (size.height as int),
        index / (size.width as int) / (size.height as int),
    )
}

/// A voxel grid: one packed colour for every texel.
pub struct VoxelGrid {
    size: Extent3d,
    texels: Vec<u32>,
}

impl VoxelGrid {
    /// The extent of the grid.
    pub closed spec fn size(&self) -> Extent3d {
        self.size
    }

    /// The colours of the texels, in the order of `texel_index`.
    pub closed spec fn texels(&self) -> Seq<u32> {
        self.texels@
    }

    /// The grid holds one colour for each of its texels.
    pub open spec fn wf(&self) -> bool {
        self.texels().len() == texel_count(self.size())
    }

    /// Number of occupied voxels of the grid.
    pub open spec fn occupied(&self) -> nat {
        occupied_count(self.texels())
    }
}

/// No prefix holds more occupied voxels than the whole, nor more than it has
/// texels.
pub proof fn lemma_occupied_count_bounds(texels: Seq<u32>, i: int)
    requires
        0 <= i <= texels.len(),
    ensures
        occupied_count(texels.take(i)) <= occupied_count(texels),
        occupied_count(texels.take(i)) <= i,
    decreases texels.len() - i,
{
    if i == texels.len() {
        assert(texels.take(i) =~= texels);
        lemma_occupied_count_le_len(texels);
    } else {
        lemma_occupied_count_bounds(texels, i + 1);
        assert(texels.take(i + 1).drop_last() =~= texels.take(i));
        lemma_occupied_count_le_len(texels.take(i));
    }
}

/// There are no more occupied voxels than texels.
pub proof fn lemma_occupied_count_le_len(texels: Seq<u32>)
    ensures
        occupied_count(texels) <= texels.len(),
    decreases texels.len(),
{
    if texels.len() > 0 {
        lemma_occupied_count_le_len(texels.drop_last());
    }
}

impl VoxelGrid {
    /// A grid of `size` in which no voxel is occupied, or `None` where the
    /// host cannot hold that many texels.
    pub fn new(size: Extent3d) -> (grid: Option<Self>)
        ensures
            grid.is_some() == (texel_count(size) <= usize::MAX),
            grid matches Some(empty) ==> empty.wf() && empty.size() == size && empty.occupied() == 0
                && forall|i: int| 0 <= i < empty.texels().len() ==> empty.texels()[i] == EMPTY,
    {
        assert(size.width * size.height <= 0xFFFF_FFFE_0000_0001) by (nonlinear_arith)
            requires
                size.width <= 0xFFFF_FFFF,
                size.height <= 0xFFFF_FFFF,
        ;
        let rows: u64 = size.width as u64 * size.height as u64;
        assert(rows * size.depth_or_array_layers <= 0xFFFF_FFFE_0000_0001 * 0xFFFF_FFFF)
            by (nonlinear_arith)
            requires
                rows <= 0xFFFF_FFFE_0000_0001,
                size.depth_or_array_layers <= 0xFFFF_FFFF,
        ;
        let total: u128 = rows as u128 * size.depth_or_array_layers as u128;
        if total > usize::MAX as u128 {
            return None;
        }
        let len: usize = total as usize;
        let mut texels: Vec<u32> = Vec::new();
        let mut i: usize = 0;
        while i < len
            invariant
                i <= len,
                texels.len() == i,
                occupied_count(texels@) == 0,
                forall|k: int| 0 <= k < i ==> texels[k] == EMPTY,
            decreases len - i,
        {
            let ghost before = texels@;
            texels.push(EMPTY);
            assert(texels@.drop_last() =~= before);
            i = i + 1;
        }
        Some(VoxelGrid { size, texels })
    }

    /// The extent of the grid.
    pub fn get_size(&self) -> (size: Extent3d)
        ensures
            size == self.size(),
    {
        self.size
    }

    /// The place of the texel `(x, y, z)` among the texels.
    fn index(&self, x: u32, y: u32, z: u32) -> (index: usize)
        requires
            self.wf(),
            x < self.size().width,
            y < self.size().height,
            z < self.size().depth_or_array_layers,
        ensures
            index == texel_index(self.size(), x as int, y as int, z as int),
            index < self.texels().len(),
    {
        let width = self.size.width as usize;
        let height = self.size.height as usize;
        let total = self.texels.len();
        proof {
            let w = self.size.width as int;
            let h = self.size.height as int;
            let d = self.size.depth_or_array_layers as int;
            assert(0 <= h * z <= y + h * z <= w * (y + h * z) && x + w * (y + h * z) < w * h * d)
                by (nonlinear_arith)
                requires
                    0 <= x < w,
                    0 <= y < h,
                    0 <= z < d,
            ;
            assert(w * h * d == total);
        }
        x as usize + width * (y as usize + height * z as usize)
    }

    /// The colour of the voxel `(x, y, z)`.
    pub fn get(&self, x: u32, y: u32, z: u32) -> (texel: u32)
        requires
            self.wf(),
            x < self.size().width,
            y < self.size().height,
            z < self.size().depth_or_array_layers,
        ensures
            texel == self.texels()[texel_index(self.size(), x as int, y as int, z as int)],
    {
        let index = self.index(x, y, z);
        self.texels[index]
    }

    /// Writes `texel` to the voxel `(x, y, z)`; the last writer wins. Every
    /// other voxel keeps its colour.
    pub fn set(&mut self, x: u32, y: u32, z: u32, texel: u32)
        requires
            old(self).wf(),
            x < old(self).size().width,
            y < old(self).size().height,
            z < old(self).size().depth_or_array_layers,
        ensures
            final(self).wf(),
            final(self).size() == old(self).size(),
            final(self).texels() == old(self).texels().update(
                texel_index(old(self).size(), x as int, y as int, z as int),
                texel,
            ),
    {
        let index = self.index(x, y, z);
        self.texels.set(index, texel);
    }

    /// Whether `(x, y, z)` is a voxel of the grid.
    pub fn contains(&self, x: u32, y: u32, z: u32) -> (inside: bool)
        ensures
            inside == (x < self.size().width && y < self.size().height && z
                < self.size().depth_or_array_layers),
    {
        x < self.size.width && y < self.size.height && z < self.size.depth_or_array_layers
    }

    /// What the counting pass leaves in the counter: the number of occupied
    /// voxels. It depends on the grid alone.
    pub fn count(&self) -> (count: usize)
        ensures
            count == self.occupied(),
    {
        let mut count: usize = 0;
        let mut i: usize = 0;
        while i < self.texels.len()
            invariant
                i <= self.texels.len(),
                count == occupied_count(self.texels@.take(i as int)),
                count <= i,
            decreases self.texels.len() - i,
        {
            assert(self.texels@.take(i + 1).drop_last() =~= self.texels@.take(i as int));
            if self.texels[i] != EMPTY {
                count = count + 1;
            }
            i = i + 1;
        }
        assert(self.texels@.take(i as int) =~= self.texels@);
        count
    }
}


/// A vertex of a cube: a corner of its voxel, in voxels, and the colour of
/// the voxel.
#[derive(Clone, Copy, Debug, PartialEq, Eq, Structural)]
pub struct CubeVertex {
    pub x: u32,
    pub y: u32,
    pub z: u32,
    pub color: u32,
}

/// The cubes of a grid: eight vertices and thirty-six indices for each
/// occupied voxel, cube after cube.
pub struct GeneratedMesh {
    pub vertices: Vec<CubeVertex>,
    pub indices: Vec<u32>,
}

/// Corner `corner` of the voxel `(x, y, z)`: the lowest bit of `corner`
/// moves it one voxel along x, the next along y, the third along z.
pub open spec fn corner_spec(x: int, y: int, z: int, color: u32, corner: int) -> CubeVertex {
    CubeVertex {
        x: (x + corner % 2) as u32,
        y: (y + (corner / 2) % 2) as u32,
        z: (z + corner / 4) as u32,
        color,
    }
}

/// The corner of a quad that the `step`-th index of its two triangles names:
/// the triangles are corners 0, 1, 2 and corners 2, 1, 3.
pub open spec fn quad_corner(step: int) -> int {
    if step < 3 {
        step
    } else if step == 3 {
        2
    } else if step == 4 {
        1
    } else {
        3
    }
}

/// The corner of the cube that is corner `quad` of its face `face`. Faces 0
/// and 1 close the cube along x, 2 and 3 along y, 4 and 5 along z.
pub open spec fn face_corner(face: int, quad: int) -> int {
    let side = face % 2;
    let u = quad % 2;
    let v = quad / 2;
    if face / 2 == 0 {
        side + 2 * u + 4 * v
    } else if face / 2 == 1 {
        v + 2 * side + 4 * u
    } else {
        u + 2 * v + 4 * side
    }
}

/// The corner of the cube that the `i`-th of its thirty-six indices names.
pub open spec fn cube_index_spec(i: int) -> int {
    face_corner(i / 6, quad_corner(i % 6))
}

/// The corner of the cube that the `i`-th of its thirty-six indices names.
pub fn cube_index(i: u32) -> (corner: u32)
    requires
        i < 36,
    ensures
        corner == cube_index_spec(i as int),
        corner < 8,
{
    let face = i / 6;
    let step = i % 6;
    let quad: u32 = if step < 3 {
        step
    } else if step == 3 {
        2
    } else if step == 4 {
        1
    } else {
        3
    };
    let side = face % 2;
    let u = quad % 2;
    let v = quad / 2;
    if face / 2 == 0 {
        side + 2 * u + 4 * v
    } else if face / 2 == 1 {
        v + 2 * side + 4 * u
    } else {
        u + 2 * v + 4 * side
    }
}

/// The slot of the cube of the texel at place `index`: the number of
/// occupied voxels before it.
pub open spec fn slot_of(texels: Seq<u32>, index: int) -> int {
    occupied_count(texels.take(index)) as int
}

/// Whether `mesh` holds, in the slot of the texel at place `index`, the cube
/// of that texel: its eight corners in the colour of the voxel, and the
/// thirty-six indices that name them.
pub open spec fn holds_cube(
    vertices: Seq<CubeVertex>,
    indices: Seq<u32>,
    size: Extent3d,
    texels: Seq<u32>,
    index: int,
) -> bool {
    let slot = slot_of(texels, index);
    let (x, y, z) = texel_at(size, index);
    &&& 8 * slot + 8 <= vertices.len()
    &&& 36 * slot + 36 <= indices.len()
    &&& forall|corner: int|
        0 <= corner < 8 ==> #[trigger] vertices[8 * slot + corner] == corner_spec(
            x,
            y,
            z,
            texels[index],
            corner,
        )
    &&& forall|i: int|
        0 <= i < 36 ==> #[trigger] indices[36 * slot + i] == 8 * slot + cube_index_spec(i)
}

/// Appends the cube of the voxel `(x, y, z)` to the mesh, as cube number
/// `slot`.
fn push_cube(
    vertices: &mut Vec<CubeVertex>,
    indices: &mut Vec<u32>,
    x: u32,
    y: u32,
    z: u32,
    color: u32,
    slot: u32,
)
    requires
        x < u32::MAX,
        y < u32::MAX,
        z < u32::MAX,
        8 * slot + 8 <= u32::MAX,
    ensures
        final(vertices)@ == old(vertices)@ + Seq::new(
            8,
            |corner: int| corner_spec(x as int, y as int, z as int, color, corner),
        ),
        final(indices)@ == old(indices)@ + Seq::new(
            36,
            |i: int| (8 * slot + cube_index_spec(i)) as u32,
        ),
{
    let ghost vertices_before = vertices@;
    let ghost indices_before = indices@;
    let mut corner: u32 = 0;
    while corner < 8
        invariant
            corner <= 8,
            x < u32::MAX,
            y < u32::MAX,
            z < u32::MAX,
            vertices@ == vertices_before + Seq::new(
                corner as nat,
                |c: int| corner_spec(x as int, y as int, z as int, color, c),
            ),
        decreases 8 - corner,
    {
        vertices.push(
            CubeVertex { x: x + corner % 2, y: y + (corner / 2) % 2, z: z + corner / 4, color },
        );
        corner = corner + 1;
        assert(vertices@ =~= vertices_before + Seq::new(
            corner as nat,
            |c: int| corner_spec(x as int, y as int, z as int, color, c),
        ));
    }
    let base: u32 = 8 * slot;
    let mut i: u32 = 0;
    while i < 36
        invariant
            i <= 36,
            base == 8 * slot,
            base + 8 <= u32::MAX,
            indices@ == indices_before + Seq::new(
                i as nat,
                |k: int| (8 * slot + cube_index_spec(k)) as u32,
            ),
        decreases 36 - i,
    {
        indices.push(base + cube_index(i));
        i = i + 1;
        assert(indices@ =~= indices_before + Seq::new(
            i as nat,
            |k: int| (8 * slot + cube_index_spec(k)) as u32,
        ));
    }
}

/// The coordinates that make up a place are the coordinates of that place.
proof fn lemma_texel_at_index(size: Extent3d, x: int, y: int, z: int)
    requires
        0 <= x < size.width,
        0 <= y < size.height,
        0 <= z,
    ensures
        texel_at(size, texel_index(size, x, y, z)) == (x, y, z),
{
    let w = size.width as int;
    let h = size.height as int;
    let rows = y + h * z;
    let index = texel_index(size, x, y, z);
    assert(index == rows * w + x && rows == z * h + y) by (nonlinear_arith)
        requires
            index == x + w * (y + h * z),
            rows == y + h * z,
    ;
    lemma_fundamental_div_mod_converse(index, w, rows, x);
    lemma_fundamental_div_mod_converse(rows, h, z, y);
}

impl VoxelGrid {
    /// What the instancing pass writes for the grid: a cube for every
    /// occupied voxel, or `None` if no voxel is occupied.
    ///
    /// The mesh has exactly eight vertices and thirty-six indices for each
    /// occupied voxel. The cubes stand in the order of their texels; on a
    /// device the order is whatever the scheduling makes it, but the cubes
    /// are the same.
    pub fn instance(&self) -> (mesh: Option<GeneratedMesh>)
        requires
            self.wf(),
            8 * self.occupied() <= u32::MAX,
        ensures
            mesh.is_some() == (self.occupied() > 0),
            mesh matches Some(cubes) ==> {
                &&& cubes.vertices.len() == 8 * self.occupied()
                &&& cubes.indices.len() == 36 * self.occupied()
                &&& forall|index: int|
                    0 <= index < self.texels().len() && occupied(#[trigger] self.texels()[index])
                        ==> holds_cube(
                        cubes.vertices@,
                        cubes.indices@,
                        self.size(),
                        self.texels(),
                        index,
                    )
                &&& forall|i: int|
                    0 <= i < cubes.indices.len() ==> #[trigger] cubes.indices[i]
                        < cubes.vertices.len()
            },
    {
        let len = self.texels.len();
        let ghost texels = self.texels@;
        let ghost size = self.size;
        let mut vertices: Vec<CubeVertex> = Vec::new();
        let mut indices: Vec<u32> = Vec::new();
        let mut slot: u32 = 0;
        let mut x: u32 = 0;
        let mut y: u32 = 0;
        let mut z: u32 = 0;
        let mut i: usize = 0;
        proof {
            assert(texels.take(0) =~= Seq::<u32>::empty());
            assert(size.width * (size.height * 0) == 0) by (nonlinear_arith);
            if len > 0 {
                assert(size.width > 0 && size.height > 0 && size.depth_or_array_layers > 0)
                    by (nonlinear_arith)
                    requires
                        size.width * size.height * size.depth_or_array_layers > 0,
                ;
            }
        }
        while i < len
            invariant
                self.wf(),
                texels == self.texels@,
                size == self.size,
                len == texels.len(),
                8 * occupied_count(texels) <= u32::MAX,
                i <= len,
                len > 0 ==> x < size.width && y < size.height,
                i == texel_index(size, x as int, y as int, z as int),
                i < len ==> z < size.depth_or_array_layers,
                slot == slot_of(texels, i as int),
                vertices.len() == 8 * slot,
                indices.len() == 36 * slot,
                forall|index: int|
                    0 <= index < i && occupied(#[trigger] texels[index]) ==> holds_cube(
                        vertices@,
                        indices@,
                        size,
                        texels,
                        index,
                    ),
                forall|k: int| 0 <= k < indices.len() ==> #[trigger] indices[k] < vertices.len(),
            decreases len - i,
        {
            let color = self.texels[i];
            proof {
                assert(texels.take(i + 1).drop_last() =~= texels.take(i as int));
                lemma_occupied_count_bounds(texels, i + 1);
                lemma_texel_at_index(size, x as int, y as int, z as int);
            }
            if color != EMPTY {
                let ghost vertices_before = vertices@;
                let ghost indices_before = indices@;
                push_cube(&mut vertices, &mut indices, x, y, z, color, slot);
                proof {
                    assert forall|index: int|
                        0 <= index < i + 1 && occupied(#[trigger] texels[index]) implies holds_cube(
                        vertices@,
                        indices@,
                        size,
                        texels,
                        index,
                    ) by {
                        if index < i {
                            assert(holds_cube(vertices_before, indices_before, size, texels, index));
                            let s = slot_of(texels, index);
                            assert forall|corner: int| 0 <= corner < 8 implies #[trigger] vertices@[8
                                * s + corner] == vertices_before[8 * s + corner] by {}
                            assert forall|k: int| 0 <= k < 36 implies #[trigger] indices@[36 * s + k]
                                == indices_before[36 * s + k] by {}
                        } else {
                            assert forall|corner: int| 0 <= corner < 8 implies #[trigger] vertices@[8
                                * slot + corner] == corner_spec(
                                x as int,
                                y as int,
                                z as int,
                                color,
                                corner,
                            ) by {}
                            assert forall|k: int| 0 <= k < 36 implies #[trigger] indices@[36 * slot
                                + k] == 8 * slot + cube_index_spec(k) by {
                                assert(0 <= cube_index_spec(k) < 8);
                            }
                        }
                    }
                    assert forall|k: int| 0 <= k < indices@.len() implies #[trigger] indices@[k]
                        < vertices@.len() by {
                        if k < indices_before.len() {
                            assert(indices@[k] == indices_before[k]);
                        } else {
                            let j = k - indices_before.len();
                            assert(0 <= cube_index_spec(j) < 8);
                            assert(indices@[k] == 8 * slot + cube_index_spec(j));
                        }
                    }
                }
                slot = slot + 1;
            }
            let ghost x0 = x as int;
            let ghost y0 = y as int;
            let ghost z0 = z as int;
            let ghost w = size.width as int;
            let ghost h = size.height as int;
            let ghost d = size.depth_or_array_layers as int;
            proof {
                assert(w * (y0 + 1 + h * z0) == w * (y0 + h * z0) + w && h * (z0 + 1) == h * z0
                    + h) by (nonlinear_arith);
            }
            i = i + 1;
            x = x + 1;
            if x == self.size.width {
                x = 0;
                y = y + 1;
                if y == self.size.height {
                    y = 0;
                    z = z + 1;
                    proof {
                        assert(i == w * (h * (z0 + 1)));
                        if i < len {
                            assert(z0 + 1 < d) by (nonlinear_arith)
                                requires
                                    w * (h * (z0 + 1)) < w * h * d,
                                    w > 0,
                                    h > 0,
                                    z0 >= 0,
                                    z0 < d,
                            ;
                        }
                    }
                }
            }
        }
        assert(texels.take(len as int) =~= texels);
        Self::finished(vertices, indices, slot)
    }

    /// The mesh, unless it holds no cube.
    fn finished(vertices: Vec<CubeVertex>, indices: Vec<u32>, cubes: u32) -> (mesh: Option<
        GeneratedMesh,
    >)
        ensures
            mesh.is_some() == (cubes > 0),
            mesh matches Some(found) ==> found.vertices == vertices && found.indices == indices,
    {
        if cubes == 0 {
            None
        } else {
            Some(GeneratedMesh { vertices, indices })
        }
    }
}

} // verus!
