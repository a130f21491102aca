use vct::camera::Resolution;
use vct::command_encoder::voxelization::meshify::{RenderMeshifyPass, VoxelDraw};
use vct::command_encoder::CommandEncoder;
use vct::mesh::{Extent3d, Texture};
use vct::resources::{DepthBufferResource, VoxelsMeshResource};
use vct::Renderer;

fn texture(width: u32, height: u32) -> Texture {
    Texture { size: Extent3d { width, height, depth_or_array_layers: 1 } }
}

#[test]
fn command_buffers_are_submitted_in_order() {
    let mut encoder: CommandEncoder<&str> = CommandEncoder::new(None);
    encoder.begin_pass(Some("voxelize"));
    encoder.begin_pass(None);
    encoder.begin_pass(Some("forward"));
    let frame = encoder.finish();
    assert_eq!(frame.command_buffers, vec!["voxelize", "forward"]);
    assert!(!frame.present);
}

#[test]
fn surface_is_acquired_once_and_presented() {
    let mut encoder: CommandEncoder<u8> = CommandEncoder::new(Some(3));
    assert!(encoder.get_surface_texture_view());
    assert!(!encoder.get_surface_texture_view());
    assert!(!encoder.get_surface_texture_view());
    encoder.begin_pass(Some(1));
    let frame = encoder.finish();
    assert!(frame.present);
    assert_eq!(frame.command_buffers, vec![1]);
}

#[test]
fn empty_frame_submits_nothing() {
    let encoder: CommandEncoder<u8> = CommandEncoder::new(None);
    let frame = encoder.finish();
    assert!(frame.command_buffers.is_empty());
    assert!(!frame.present);
}

#[test]
fn render_without_mesh_does_nothing() {
    let mut renderer = Renderer::new(800, 600);
    let camera = renderer.new_camera(Resolution::UseGlobalResolution);
    let mut encoder: CommandEncoder<u32> = renderer.new_command_encoder(Some(&camera));
    let mut pass = RenderMeshifyPass::new();
    assert_eq!(pass.execute(&mut encoder, &mut renderer), None);
    assert!(renderer.get_resource_manager().get_resource::<DepthBufferResource>().is_none());
    encoder.begin_pass(None);
    let frame = encoder.finish();
    assert!(frame.command_buffers.is_empty());
    assert!(!frame.present);
}

#[test]
fn render_without_mesh_needs_no_camera() {
    let mut renderer = Renderer::new(800, 600);
    let mut encoder: CommandEncoder<u32> = renderer.new_command_encoder(None);
    let mut pass = RenderMeshifyPass::new();
    assert_eq!(pass.execute(&mut encoder, &mut renderer), None);
}

#[test]
fn render_draws_every_index() {
    let mut renderer = Renderer::new(800, 600);
    let camera = renderer.new_camera(Resolution::Custom([640, 480]));
    renderer.insert_resource(VoxelsMeshResource { vertices: 5 * 256, indices: 5 * 144 });
    let mut pass = RenderMeshifyPass::new();

    let mut encoder: CommandEncoder<u32> = renderer.new_command_encoder(Some(&camera));
    let draw = pass.execute(&mut encoder, &mut renderer);
    assert_eq!(
        draw,
        Some(VoxelDraw {
            acquire_surface: true,
            depth_buffer: texture(640, 480),
            create_depth_buffer: true,
            indices: 180,
        })
    );
    assert_eq!(
        renderer.get_resource_manager().get_resource::<DepthBufferResource>(),
        Some(&DepthBufferResource { depth_buffer: texture(640, 480) })
    );
    let again = pass.execute(&mut encoder, &mut renderer);
    assert_eq!(
        again,
        Some(VoxelDraw {
            acquire_surface: false,
            depth_buffer: texture(640, 480),
            create_depth_buffer: false,
            indices: 180,
        })
    );
    assert!(encoder.finish().present);

    let mut encoder: CommandEncoder<u32> = renderer.new_command_encoder(Some(&camera));
    let next = pass.execute(&mut encoder, &mut renderer).unwrap();
    assert!(next.acquire_surface);
    assert!(!next.create_depth_buffer);
}

#[test]
fn depth_buffer_is_made_for_the_frame_camera() {
    let mut renderer = Renderer::new(800, 600);
    let camera = renderer.new_camera(Resolution::UseGlobalResolution);
    let encoder: CommandEncoder<u32> = renderer.new_command_encoder(Some(&camera));
    assert_eq!(encoder.depth_buffer(&mut renderer), (texture(800, 600), true));
    renderer.resize(1024, 768);
    assert_eq!(encoder.depth_buffer(&mut renderer), (texture(800, 600), false));
}
