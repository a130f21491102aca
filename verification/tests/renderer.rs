use vct::camera::{Camera, Resolution};
use vct::command_encoder::CommandEncoder;
use vct::mesh::{Extent3d, Texture};
use vct::resources::{DepthBufferResource, VoxelsMeshResource, VoxelsResource};
use vct::Renderer;

fn texture(width: u32, height: u32, depth: u32) -> Texture {
    Texture { size: Extent3d { width, height, depth_or_array_layers: depth } }
}

#[test]
fn new_renderer_has_the_surface_size() {
    let renderer = Renderer::new(800, 600);
    assert_eq!(renderer.get_resolution(), [800, 600]);
    assert!(renderer.camera(0).is_none());
}

#[test]
fn identifiers_count_up() {
    let mut renderer = Renderer::new(1, 1);
    assert_eq!(renderer.new_id(), 0);
    assert_eq!(renderer.new_id(), 1);
    let camera = renderer.new_camera(Resolution::UseGlobalResolution);
    assert_eq!(camera.get_id(), 2);
    assert_eq!(renderer.new_id(), 3);
}

#[test]
fn camera_follows_the_surface_or_its_own_size() {
    let mut renderer = Renderer::new(800, 600);
    let global = renderer.new_camera(Resolution::UseGlobalResolution);
    let custom = renderer.new_camera(Resolution::Custom([320, 200]));
    assert_eq!(global.get_resolution(&renderer), [800, 600]);
    assert_eq!(custom.get_resolution(&renderer), [320, 200]);
    assert!(matches!(global.resolution(&renderer), Resolution::UseGlobalResolution));
    assert!(matches!(custom.resolution(&renderer), Resolution::Custom([320, 200])));

    assert!(renderer.resize(1024, 768));
    assert_eq!(global.get_resolution(&renderer), [1024, 768]);
    assert_eq!(custom.get_resolution(&renderer), [320, 200]);

    global.set_resolution(&mut renderer, Resolution::Custom([64, 48]));
    assert_eq!(global.get_resolution(&renderer), [64, 48]);
    assert_eq!(custom.get_resolution(&renderer), [320, 200]);
    custom.set_resolution(&mut renderer, Resolution::UseGlobalResolution);
    assert_eq!(custom.get_resolution(&renderer), [1024, 768]);
}

#[test]
fn depth_buffer_fits_the_camera() {
    let mut renderer = Renderer::new(800, 600);
    let global = renderer.new_camera(Resolution::UseGlobalResolution);
    let custom = renderer.new_camera(Resolution::Custom([320, 200]));
    assert_eq!(global.new_depth_buffer(&renderer), texture(800, 600, 1));
    assert_eq!(custom.new_depth_buffer(&renderer), texture(320, 200, 1));
}

#[test]
fn resize_reports_a_change_only() {
    let mut renderer = Renderer::new(800, 600);
    renderer.update();
    assert!(!renderer.resize(800, 600));
    assert!(!renderer.update().resources);
    assert!(renderer.resize(800, 601));
    assert_eq!(renderer.get_resolution(), [800, 601]);
    assert!(renderer.update().resources);
    assert!(renderer.resize(801, 601));
    assert!(!renderer.resize(801, 601));
    assert!(renderer.update().resources);
    assert!(!renderer.update().resources);
}

#[test]
fn update_lists_changed_cameras_once() {
    let mut renderer = Renderer::new(800, 600);
    let first = renderer.new_camera(Resolution::UseGlobalResolution);
    let second = renderer.new_camera(Resolution::Custom([1, 2]));
    let third = renderer.new_camera(Resolution::Custom([3, 4]));

    let update = renderer.update();
    let mut listed = update.cameras.clone();
    listed.sort();
    assert_eq!(listed, vec![first.get_id(), second.get_id(), third.get_id()]);
    assert!(update.resources);
    assert!(!renderer.camera(first.get_id()).unwrap().dirty);
    assert!(matches!(
        renderer.camera(second.get_id()).unwrap().resolution,
        Resolution::Custom([1, 2])
    ));

    let update = renderer.update();
    assert!(update.cameras.is_empty());
    assert!(!update.resources);

    second.set_resolution(&mut renderer, Resolution::Custom([5, 6]));
    assert!(renderer.camera(second.get_id()).unwrap().dirty);
    let update = renderer.update();
    assert_eq!(update.cameras, vec![second.get_id()]);
    assert!(!renderer.camera(second.get_id()).unwrap().dirty);
    assert_eq!(second.get_resolution(&renderer), [5, 6]);
    assert_eq!(third.get_resolution(&renderer), [3, 4]);
}

#[test]
fn update_after_resize_remakes_the_depth_buffer() {
    let mut renderer = Renderer::new(800, 600);
    renderer.update();
    let voxels = VoxelsResource { color: texture(512, 512, 512) };
    let mesh = VoxelsMeshResource { vertices: 256, indices: 144 };
    assert!(renderer.insert_resource(voxels).is_none());
    assert!(renderer.insert_resource(mesh).is_none());
    assert!(renderer
        .insert_resource(DepthBufferResource { depth_buffer: texture(800, 600, 1) })
        .is_none());

    renderer.update();
    let store = renderer.get_resource_manager();
    assert_eq!(store.get_resource::<DepthBufferResource>().unwrap().depth_buffer, texture(800, 600, 1));

    renderer.resize(1920, 1080);
    let store = renderer.get_resource_manager();
    assert_eq!(store.get_resource::<DepthBufferResource>().unwrap().depth_buffer, texture(800, 600, 1));
    assert!(renderer.update().resources);
    let store = renderer.get_resource_manager();
    assert_eq!(
        store.get_resource::<DepthBufferResource>().unwrap().depth_buffer,
        texture(1920, 1080, 1)
    );
    assert_eq!(store.get_resource::<VoxelsResource>(), Some(&voxels));
    assert_eq!(store.get_resource::<VoxelsMeshResource>(), Some(&mesh));
}

#[test]
fn frame_keeps_its_camera() {
    let mut renderer = Renderer::new(800, 600);
    let camera = renderer.new_camera(Resolution::UseGlobalResolution);
    let encoder: CommandEncoder<u32> = renderer.new_command_encoder(Some(&camera));
    assert_eq!(encoder.get_camera(), Some(camera.get_id()));
    let encoder: CommandEncoder<u32> = renderer.new_command_encoder(None);
    assert_eq!(encoder.get_camera(), None);
    assert_eq!(Camera::new(17).get_id(), 17);
}

#[test]
fn resolution_of_an_unknown_camera_is_none() {
    let mut renderer = Renderer::new(800, 600);
    assert_eq!(renderer.camera_resolution(0), None);
    let camera = renderer.new_camera(Resolution::Custom([1, 2]));
    assert_eq!(renderer.camera_resolution(camera.get_id()), Some([1, 2]));
    assert_eq!(renderer.camera_resolution(camera.get_id() + 1), None);
    let other = renderer.new_camera(Resolution::UseGlobalResolution);
    assert_eq!(renderer.camera_resolution(other.get_id()), Some([800, 600]));
}
