use vct::mesh::{Extent3d, Texture};
use vct::resources::{
    DepthBufferResource, Resource, ResourceManager, VoxelsMeshResource, VoxelsResource,
};

fn texture(width: u32, height: u32, depth: u32) -> Texture {
    Texture { size: Extent3d { width, height, depth_or_array_layers: depth } }
}

#[test]
fn new_store_is_empty() {
    let store = ResourceManager::new();
    assert!(store.get_resource::<VoxelsResource>().is_none());
    assert!(store.get_resource::<VoxelsMeshResource>().is_none());
    assert!(store.get_resource::<DepthBufferResource>().is_none());
}

#[test]
fn insert_returns_what_it_displaced() {
    let mut store = ResourceManager::new();
    let first = VoxelsMeshResource { vertices: 256, indices: 144 };
    let second = VoxelsMeshResource { vertices: 512, indices: 288 };
    assert_eq!(store.insert_resource(first), None);
    assert_eq!(store.get_resource::<VoxelsMeshResource>(), Some(&first));
    assert_eq!(store.insert_resource(second), Some(Box::new(first)));
    assert_eq!(store.get_resource::<VoxelsMeshResource>(), Some(&second));
    assert!(store.get_resource::<VoxelsResource>().is_none());
    assert!(store.get_resource::<DepthBufferResource>().is_none());
}

#[test]
fn types_do_not_displace_one_another() {
    let mut store = ResourceManager::new();
    let voxels = VoxelsResource { color: texture(512, 512, 512) };
    let mesh = VoxelsMeshResource { vertices: 256, indices: 144 };
    let depth = DepthBufferResource { depth_buffer: texture(800, 600, 1) };
    assert!(store.insert_resource(voxels).is_none());
    assert!(store.insert_resource(mesh).is_none());
    assert!(store.insert_resource(depth).is_none());
    assert_eq!(store.get_resource::<VoxelsResource>(), Some(&voxels));
    assert_eq!(store.get_resource::<VoxelsMeshResource>(), Some(&mesh));
    assert_eq!(store.get_resource::<DepthBufferResource>(), Some(&depth));
}

#[test]
fn remove_takes_the_resource_out() {
    let mut store = ResourceManager::new();
    let voxels = VoxelsResource { color: texture(512, 512, 512) };
    let depth = DepthBufferResource { depth_buffer: texture(800, 600, 1) };
    store.insert_resource(voxels);
    store.insert_resource(depth);
    assert_eq!(store.remove::<VoxelsMeshResource>(), None);
    assert_eq!(store.remove::<VoxelsResource>(), Some(voxels));
    assert_eq!(store.remove::<VoxelsResource>(), None);
    assert!(store.get_resource::<VoxelsResource>().is_none());
    assert_eq!(store.remove_box::<DepthBufferResource>(), Some(Box::new(depth)));
    assert_eq!(store.remove_box::<DepthBufferResource>(), None);
}

#[test]
fn only_the_depth_buffer_follows_the_resolution() {
    let mut voxels = VoxelsResource { color: texture(512, 512, 512) };
    voxels.updated_settings([10, 20]);
    assert_eq!(voxels, VoxelsResource { color: texture(512, 512, 512) });
    let mut mesh = VoxelsMeshResource { vertices: 256, indices: 144 };
    mesh.updated_settings([10, 20]);
    assert_eq!(mesh, VoxelsMeshResource { vertices: 256, indices: 144 });
    let mut depth = DepthBufferResource { depth_buffer: texture(800, 600, 1) };
    depth.updated_settings([10, 20]);
    assert_eq!(depth, DepthBufferResource { depth_buffer: texture(10, 20, 1) });

    let mut store = ResourceManager::new();
    store.updated_settings([1, 2]);
    assert!(store.get_resource::<DepthBufferResource>().is_none());
    store.insert_resource(voxels);
    store.insert_resource(DepthBufferResource { depth_buffer: texture(800, 600, 1) });
    store.updated_settings([1, 2]);
    assert_eq!(store.get_resource::<DepthBufferResource>().unwrap().depth_buffer, texture(1, 2, 1));
    assert_eq!(store.get_resource::<VoxelsResource>(), Some(&voxels));
    assert!(store.get_resource::<VoxelsMeshResource>().is_none());
}
