use vct::command_encoder::voxelization::meshify::{
    count_commands, count_from_bytes, index_count, instance_commands, mesh_buffers, vertex_count,
    MeshifyAction, MeshifyCommand, MeshifyError, MeshifyEvent, MeshifyPass, MeshifyPhase,
    ReadbackPolicy, ReadbackSignal,
};
use vct::command_encoder::voxelization::VoxelizationPass;
use vct::mesh::{Extent3d, Texture};
use vct::resources::{
    DepthBufferResource, ResourceManager, VoxelsMeshResource, VoxelsResource,
};

fn grid(width: u32, height: u32, depth: u32) -> VoxelsResource {
    VoxelsResource {
        color: Texture { size: Extent3d { width, height, depth_or_array_layers: depth } },
    }
}

fn store_with_grid(width: u32, height: u32, depth: u32) -> ResourceManager {
    let mut store = ResourceManager::new();
    assert!(store.insert_resource(grid(width, height, depth)).is_none());
    store
}

fn step(pass: &mut MeshifyPass, event: MeshifyEvent, store: &mut ResourceManager) -> MeshifyAction {
    assert!(pass.expects(&event, store));
    pass.execute(event, store)
}

#[test]
fn count_is_read_lowest_byte_first() {
    assert_eq!(count_from_bytes([0, 0, 0, 0]), 0);
    assert_eq!(count_from_bytes([1, 0, 0, 0]), 1);
    assert_eq!(count_from_bytes([0, 1, 0, 0]), 256);
    assert_eq!(count_from_bytes([0x78, 0x56, 0x34, 0x12]), 0x1234_5678);
    assert_eq!(count_from_bytes([255, 255, 255, 255]), u32::MAX);
    assert_eq!(count_from_bytes(7u32.to_le_bytes()), 7);
}

#[test]
fn one_voxel_gives_one_cube() {
    let mesh = mesh_buffers(1);
    assert_eq!(mesh, VoxelsMeshResource { vertices: 8 * 32, indices: 36 * 4 });
    assert_eq!(vertex_count(&mesh), 8);
    assert_eq!(index_count(&mesh), 36);
}

#[test]
fn buffers_grow_with_the_count() {
    let mesh = mesh_buffers(1000);
    assert_eq!(mesh.vertices, 1000 * 8 * 32);
    assert_eq!(mesh.indices, 1000 * 36 * 4);
    assert_eq!(vertex_count(&mesh), 8000);
    assert_eq!(index_count(&mesh), 36000);
    let largest = mesh_buffers(u32::MAX);
    assert_eq!(largest.vertices, u32::MAX as u64 * 256);
    assert_eq!(largest.indices, u32::MAX as u64 * 144);
    assert_eq!(mesh_buffers(0), VoxelsMeshResource { vertices: 0, indices: 0 });
}

#[test]
fn counter_is_cleared_before_each_pass() {
    let size = Extent3d { width: 4, height: 5, depth_or_array_layers: 6 };
    assert_eq!(
        count_commands(size),
        vec![
            MeshifyCommand::ClearCounter,
            MeshifyCommand::CountVoxels { x: 4, y: 5, z: 6 },
            MeshifyCommand::CopyCounterToStaging,
        ]
    );
    assert_eq!(
        instance_commands(size),
        vec![MeshifyCommand::ClearCounter, MeshifyCommand::InstanceVoxels { x: 4, y: 5, z: 6 }]
    );
}

#[test]
fn cycle_publishes_the_mesh() {
    let mut store = store_with_grid(512, 512, 512);
    let size = Extent3d { width: 512, height: 512, depth_or_array_layers: 512 };
    let mut pass = MeshifyPass::new(ReadbackPolicy { max_polls: None });
    assert_eq!(pass.get_phase(), MeshifyPhase::Idle);

    assert_eq!(step(&mut pass, MeshifyEvent::Begin, &mut store), MeshifyAction::SubmitCount(size));
    assert_eq!(pass.get_phase(), MeshifyPhase::Counting);
    assert_eq!(step(&mut pass, MeshifyEvent::Submitted, &mut store), MeshifyAction::Poll);
    assert_eq!(pass.get_phase(), MeshifyPhase::AwaitingReadback { polls: 0 });
    assert_eq!(
        step(&mut pass, MeshifyEvent::Polled(ReadbackSignal::Pending), &mut store),
        MeshifyAction::Poll
    );
    assert_eq!(pass.get_phase(), MeshifyPhase::AwaitingReadback { polls: 1 });
    assert!(store.get_resource::<VoxelsMeshResource>().is_none());

    let mesh = VoxelsMeshResource { vertices: 3 * 256, indices: 3 * 144 };
    assert_eq!(
        step(&mut pass, MeshifyEvent::Polled(ReadbackSignal::Mapped([3, 0, 0, 0])), &mut store),
        MeshifyAction::Allocate(mesh)
    );
    assert_eq!(pass.get_phase(), MeshifyPhase::Allocated { count: 3 });
    assert!(store.get_resource::<VoxelsMeshResource>().is_none());
    assert_eq!(
        step(&mut pass, MeshifyEvent::BuffersCreated, &mut store),
        MeshifyAction::SubmitInstance(size)
    );
    assert_eq!(pass.get_phase(), MeshifyPhase::Instancing { count: 3 });
    assert_eq!(step(&mut pass, MeshifyEvent::Submitted, &mut store), MeshifyAction::Publish(mesh));
    assert_eq!(pass.get_phase(), MeshifyPhase::Ready { count: 3 });
    assert_eq!(store.get_resource::<VoxelsMeshResource>(), Some(&mesh));
    assert_eq!(store.get_resource::<VoxelsResource>(), Some(&grid(512, 512, 512)));
}

#[test]
fn new_cycle_replaces_the_mesh() {
    let mut store = store_with_grid(8, 8, 8);
    let mut pass = MeshifyPass::new(ReadbackPolicy { max_polls: None });
    for count in [5u32, 2u32] {
        step(&mut pass, MeshifyEvent::Begin, &mut store);
        step(&mut pass, MeshifyEvent::Submitted, &mut store);
        step(
            &mut pass,
            MeshifyEvent::Polled(ReadbackSignal::Mapped(count.to_le_bytes())),
            &mut store,
        );
        step(&mut pass, MeshifyEvent::BuffersCreated, &mut store);
        step(&mut pass, MeshifyEvent::Submitted, &mut store);
        assert_eq!(store.get_resource::<VoxelsMeshResource>(), Some(&mesh_buffers(count)));
    }
}

#[test]
fn empty_grid_leaves_no_mesh() {
    let mut store = store_with_grid(8, 8, 8);
    store.insert_resource(VoxelsMeshResource { vertices: 256, indices: 144 });
    let depth = DepthBufferResource {
        depth_buffer: Texture { size: Extent3d { width: 2, height: 3, depth_or_array_layers: 1 } },
    };
    store.insert_resource(depth);
    let mut pass = MeshifyPass::new(ReadbackPolicy { max_polls: None });
    step(&mut pass, MeshifyEvent::Begin, &mut store);
    step(&mut pass, MeshifyEvent::Submitted, &mut store);
    let action =
        step(&mut pass, MeshifyEvent::Polled(ReadbackSignal::Mapped([0, 0, 0, 0])), &mut store);
    assert_eq!(action, MeshifyAction::Skip);
    assert_eq!(pass.get_phase(), MeshifyPhase::Idle);
    assert!(store.get_resource::<VoxelsMeshResource>().is_none());
    assert_eq!(store.get_resource::<DepthBufferResource>(), Some(&depth));
    assert_eq!(store.get_resource::<VoxelsResource>(), Some(&grid(8, 8, 8)));
    assert!(!pass.expects(&MeshifyEvent::BuffersCreated, &store));
    assert!(!pass.expects(&MeshifyEvent::Submitted, &store));
    assert!(pass.expects(&MeshifyEvent::Begin, &store));
}

#[test]
fn lost_device_is_fatal() {
    let mut store = store_with_grid(8, 8, 8);
    let mut pass = MeshifyPass::new(ReadbackPolicy { max_polls: None });
    step(&mut pass, MeshifyEvent::Begin, &mut store);
    step(&mut pass, MeshifyEvent::Submitted, &mut store);
    assert_eq!(
        step(&mut pass, MeshifyEvent::Polled(ReadbackSignal::Lost), &mut store),
        MeshifyAction::Abort(MeshifyError::DeviceLost)
    );
    assert_eq!(pass.get_phase(), MeshifyPhase::Failed { error: MeshifyError::DeviceLost });
    assert!(!pass.expects(&MeshifyEvent::Begin, &store));
    assert!(!pass.expects(&MeshifyEvent::Polled(ReadbackSignal::Pending), &store));
}

#[test]
fn wait_ends_at_the_limit() {
    let mut store = store_with_grid(8, 8, 8);
    let mut pass = MeshifyPass::new(ReadbackPolicy { max_polls: Some(3) });
    step(&mut pass, MeshifyEvent::Begin, &mut store);
    step(&mut pass, MeshifyEvent::Submitted, &mut store);
    let pending = MeshifyEvent::Polled(ReadbackSignal::Pending);
    assert_eq!(step(&mut pass, pending, &mut store), MeshifyAction::Poll);
    assert_eq!(step(&mut pass, pending, &mut store), MeshifyAction::Poll);
    assert_eq!(pass.get_phase(), MeshifyPhase::AwaitingReadback { polls: 2 });
    assert_eq!(step(&mut pass, pending, &mut store), MeshifyAction::Abort(MeshifyError::Timeout));
    assert_eq!(pass.get_phase(), MeshifyPhase::Failed { error: MeshifyError::Timeout });
}

#[test]
fn wait_without_limit_goes_on() {
    let mut store = store_with_grid(8, 8, 8);
    let mut pass = MeshifyPass::new(ReadbackPolicy { max_polls: None });
    step(&mut pass, MeshifyEvent::Begin, &mut store);
    step(&mut pass, MeshifyEvent::Submitted, &mut store);
    for polls in 1..=1000u32 {
        let action = step(&mut pass, MeshifyEvent::Polled(ReadbackSignal::Pending), &mut store);
        assert_eq!(action, MeshifyAction::Poll);
        assert_eq!(pass.get_phase(), MeshifyPhase::AwaitingReadback { polls });
    }
}

#[test]
fn events_out_of_turn_are_not_expected() {
    let store = store_with_grid(8, 8, 8);
    let pass = MeshifyPass::new(ReadbackPolicy { max_polls: None });
    assert!(pass.expects(&MeshifyEvent::Begin, &store));
    assert!(!pass.expects(&MeshifyEvent::Submitted, &store));
    assert!(!pass.expects(&MeshifyEvent::BuffersCreated, &store));
    assert!(!pass.expects(&MeshifyEvent::Polled(ReadbackSignal::Pending), &store));
    let empty = ResourceManager::new();
    assert!(!pass.expects(&MeshifyEvent::Begin, &empty));
}

#[test]
fn grid_is_a_cube_of_512() {
    let mut renderer = vct::Renderer::new(800, 600);
    renderer.insert_resource(grid(8, 8, 8));
    let mesh = VoxelsMeshResource { vertices: 256, indices: 144 };
    renderer.insert_resource(mesh);
    VoxelizationPass::new(&mut renderer);
    let store = renderer.get_resource_manager();
    assert_eq!(store.get_resource::<VoxelsResource>(), Some(&grid(512, 512, 512)));
    assert_eq!(store.get_resource::<VoxelsMeshResource>(), Some(&mesh));
    assert!(store.get_resource::<DepthBufferResource>().is_none());
}
