use std::collections::HashMap;
use vct::command_encoder::voxelization::{
    dispatch_alignment, BufferSlice, MaterialData, MeshData, VoxelizationPass,
};
use vct::dispatch::{dispatch_runs, DispatchRun};
use vct::mesh::{Extent3d, Material, Mesh, Primitive, Texture};
use vct::resources::VoxelsResource;
use vct::Renderer;

fn material() -> Material {
    let texture = Texture { size: Extent3d { width: 4, height: 4, depth_or_array_layers: 1 } };
    Material { diffuse: texture, metallic_roughness: texture, normal: texture }
}

fn scene() -> (MeshData, MaterialData) {
    let first = Mesh {
        positions: 0..1200,
        normals: 1280..4080,
        colors: 4096..6096,
        primitives: vec![
            Primitive { index: 0..300, material: 10 },
            Primitive { index: 320..(320 + 3 * 70_000), material: 11 },
        ],
    };
    let second = Mesh {
        positions: 0..0,
        normals: 0..0,
        colors: 0..0,
        primitives: vec![Primitive { index: 0..2, material: 10 }],
    };
    let mut materials = HashMap::new();
    materials.insert(10, material());
    materials.insert(11, material());
    (MeshData { meshes: vec![first, second] }, MaterialData { materials })
}

#[test]
fn alignment_is_three_times_the_offset_alignment() {
    assert_eq!(dispatch_alignment(256), Some(768));
    assert_eq!(dispatch_alignment(1), Some(3));
    assert_eq!(dispatch_alignment(21845), Some(65535));
    assert_eq!(dispatch_alignment(21846), None);
    assert_eq!(dispatch_alignment(0), None);
    assert_eq!(dispatch_alignment(u32::MAX), None);
}

#[test]
fn materials_of_the_scene_resolve() {
    let (meshes, mut materials) = scene();
    assert!(VoxelizationPass::resolves(&meshes, &materials));
    materials.materials.remove(&11);
    assert!(!VoxelizationPass::resolves(&meshes, &materials));
    let nothing = MeshData { meshes: vec![] };
    assert!(VoxelizationPass::resolves(&nothing, &materials));
}

#[test]
fn pass_records_every_primitive() {
    let (meshes, materials) = scene();
    let mut renderer = Renderer::new(800, 600);
    let mut pass = VoxelizationPass::new(&mut renderer);
    let commands =
        pass.execute(&meshes, &materials, 256, renderer.get_resource_manager()).unwrap();

    assert_eq!(commands.grid, Extent3d { width: 512, height: 512, depth_or_array_layers: 512 });
    assert_eq!(commands.meshes.len(), 2);
    let first = &commands.meshes[0];
    assert_eq!(first.positions, BufferSlice { offset: 0, size: 1200 });
    assert_eq!(first.normals, BufferSlice { offset: 1280, size: 2800 });
    assert_eq!(first.colors, BufferSlice { offset: 4096, size: 2000 });
    assert_eq!(first.primitives.len(), 2);
    assert_eq!(first.primitives[0].material, 10);
    assert_eq!(
        first.primitives[0].runs,
        vec![DispatchRun { offset: 0, size: 1200, triangles: 100 }]
    );
    assert_eq!(first.primitives[1].material, 11);
    assert_eq!(
        first.primitives[1].runs,
        vec![
            DispatchRun { offset: 1280, size: 4 * 3 * 65280, triangles: 65280 },
            DispatchRun { offset: 1280 + 4 * 3 * 65280, size: 4 * 3 * 4720, triangles: 4720 },
        ]
    );
    assert_eq!(first.primitives[1].runs, dispatch_runs(320, 320 + 210_000, 768));

    let second = &commands.meshes[1];
    assert_eq!(second.positions, BufferSlice { offset: 0, size: 0 });
    assert_eq!(second.primitives.len(), 1);
    assert!(second.primitives[0].runs.is_empty());
}

#[test]
fn pass_records_the_grid_it_finds() {
    let mut renderer = Renderer::new(800, 600);
    let mut pass = VoxelizationPass::new(&mut renderer);
    let size = Extent3d { width: 16, height: 32, depth_or_array_layers: 64 };
    let displaced = renderer.insert_resource(VoxelsResource { color: Texture { size } });
    assert!(displaced.is_some());
    let nothing = MeshData { meshes: vec![] };
    let materials = MaterialData { materials: HashMap::new() };
    let commands =
        pass.execute(&nothing, &materials, 256, renderer.get_resource_manager()).unwrap();
    assert_eq!(commands.grid, size);
    assert!(commands.meshes.is_empty());
}
