//! Turning the voxel grid into a mesh of cubes: a counting pass, a readback
//! of the count, buffers of exactly the size the count asks for, and an
//! instancing pass that writes one cube per occupied voxel.

use vstd::prelude::*;
use crate::command_encoder::CommandEncoder;
use crate::mesh::{Extent3d, Texture};
use crate::renderer::Renderer;
use crate::resources::{
    DepthBufferResource, Resource, ResourceManager, ResourceSlots, VoxelsMeshResource,
    VoxelsResource,
};

verus! {

/// Bytes of one vertex of the generated mesh: a position and a colour, each
/// padded to sixteen bytes.
pub const VERTEX_SIZE: u64 = 32;

/// Bytes of one index of the generated mesh.
pub const MESH_INDEX_SIZE: u64 = 4;

/// Vertices of one cube.
pub const VERTICES_PER_VOXEL: u64 = 8;

/// Indices of one cube: six faces of two triangles.
pub const INDICES_PER_VOXEL: u64 = 36;

/// Bytes of the counter.
pub const COUNTER_SIZE: u64 = 4;

/// The mesh that holds the cubes of `count` voxels.
pub open spec fn mesh_for(count: u32) -> VoxelsMeshResource {
    VoxelsMeshResource { vertices: (count * 8 * 32) as u64, indices: (count * 36 * 4) as u64 }
}

/// The number that four bytes of the staging buffer stand for, lowest byte
/// first.
pub open spec fn count_of(bytes: [u8; 4]) -> u32 {
    (bytes[0] + 256 * bytes[1] + 65536 * bytes[2] + 16777216 * bytes[3]) as u32
}

/// Reads the count out of the four bytes of the mapped staging buffer.
pub fn count_from_bytes(bytes: [u8; 4]) -> (count: u32)
    ensures
        count == count_of(bytes),
{
    bytes[0] as u32 + 256 * (bytes[1] as u32) + 65536 * (bytes[2] as u32) + 16777216 * (
    bytes[3] as u32)
}

/// Sizes the two buffers for the cubes of `count` voxels: eight vertices and
/// thirty-six indices each.
pub fn mesh_buffers(count: u32) -> (mesh: VoxelsMeshResource)
    ensures
        mesh == mesh_for(count),
        mesh.vertices == count * VERTICES_PER_VOXEL * VERTEX_SIZE,
        mesh.indices == count * INDICES_PER_VOXEL * MESH_INDEX_SIZE,
{
    let cube_vertex_bytes: u64 = VERTICES_PER_VOXEL * VERTEX_SIZE;
    let cube_index_bytes: u64 = INDICES_PER_VOXEL * MESH_INDEX_SIZE;
    assert(cube_vertex_bytes == 256 && cube_index_bytes == 144);
    VoxelsMeshResource {
        vertices: count as u64 * cube_vertex_bytes,
        indices: count as u64 * cube_index_bytes,
    }
}

/// Number of vertices that the vertex buffer of `mesh` holds.
pub fn vertex_count(mesh: &VoxelsMeshResource) -> (count: u64)
    ensures
        count == mesh.vertices / VERTEX_SIZE,
{
    mesh.vertices / VERTEX_SIZE
}

/// Number of indices that the index buffer of `mesh` holds.
pub fn index_count(mesh: &VoxelsMeshResource) -> (count: u64)
    ensures
        count == mesh.indices / MESH_INDEX_SIZE,
{
    mesh.indices / MESH_INDEX_SIZE
}

/// One step of work on the device that touches the shared counter.
#[derive(Clone, Copy, Debug, PartialEq, Eq, Structural)]
pub enum MeshifyCommand {
    /// Copy the constant zero over the counter.
    ClearCounter,
    /// One invocation per texel of the grid; each adds one to the counter if
    /// its texel is occupied.
    CountVoxels { x: u32, y: u32, z: u32 },
    /// Copy the counter into the staging buffer that the host can map.
    CopyCounterToStaging,
    /// One invocation per texel of the grid; each occupied one takes the
    /// counter's value as the slot of its cube, adds one to the counter and
    /// writes the cube into that slot.
    InstanceVoxels { x: u32, y: u32, z: u32 },
}

/// The commands of the counting pass for a grid of `size`, in order.
pub open spec fn count_commands_spec(size: Extent3d) -> Seq<MeshifyCommand> {
    seq![
        MeshifyCommand::ClearCounter,
        MeshifyCommand::CountVoxels { x: size.width, y: size.height, z: size.depth_or_array_layers },
        MeshifyCommand::CopyCounterToStaging,
    ]
}

/// The commands of the instancing pass for a grid of `size`, in order.
pub open spec fn instance_commands_spec(size: Extent3d) -> Seq<MeshifyCommand> {
    seq![
        MeshifyCommand::ClearCounter,
        MeshifyCommand::InstanceVoxels {
            x: size.width,
            y: size.height,
            z: size.depth_or_array_layers,
        },
    ]
}

/// Whether the counter is cleared directly before every pass that adds to
/// it.
pub open spec fn cleared_before_use(commands: Seq<MeshifyCommand>) -> bool {
    forall|i: int|
        0 <= i < commands.len() && (#[trigger] commands[i] is CountVoxels || commands[i]
            is InstanceVoxels) ==> i > 0 && commands[i - 1] is ClearCounter
}

/// The commands that count the occupied voxels of a grid of `size`: clear
/// the counter, count, copy the counter to where the host can read it.
pub fn count_commands(size: Extent3d) -> (commands: Vec<MeshifyCommand>)
    ensures
        commands@ == count_commands_spec(size),
        cleared_before_use(commands@),
{
    let mut commands: Vec<MeshifyCommand> = Vec::new();
    commands.push(MeshifyCommand::ClearCounter);
    commands.push(
        MeshifyCommand::CountVoxels { x: size.width, y: size.height, z: size.depth_or_array_layers },
    );
    commands.push(MeshifyCommand::CopyCounterToStaging);
    assert(commands@ =~= count_commands_spec(size));
    commands
}

/// The commands that write the cubes of a grid of `size`: clear the counter,
/// which now hands out the slots, then instance.
pub fn instance_commands(size: Extent3d) -> (commands: Vec<MeshifyCommand>)
    ensures
        commands@ == instance_commands_spec(size),
        cleared_before_use(commands@),
{
    let mut commands: Vec<MeshifyCommand> = Vec::new();
    commands.push(MeshifyCommand::ClearCounter);
    commands.push(
        MeshifyCommand::InstanceVoxels {
            x: size.width,
            y: size.height,
            z: size.depth_or_array_layers,
        },
    );
    assert(commands@ =~= instance_commands_spec(size));
    commands
}


/// What the device holds while the commands run: the shared counter, the
/// staging copy that the host reads, and the slots of the mesh into which a
/// cube has been written.
pub struct DeviceModel {
    pub counter: nat,
    pub staging: nat,
    pub cubes: Set<nat>,
}

/// The device after `command`, for a grid with `occupied` occupied voxels.
pub open spec fn apply(command: MeshifyCommand, occupied: nat, device: DeviceModel) -> DeviceModel {
    match command {
        MeshifyCommand::ClearCounter => DeviceModel { counter: 0, ..device },
        MeshifyCommand::CountVoxels { .. } => DeviceModel {
            counter: device.counter + occupied,
            ..device
        },
        MeshifyCommand::CopyCounterToStaging => DeviceModel { staging: device.counter, ..device },
        MeshifyCommand::InstanceVoxels { .. } => DeviceModel {
            counter: device.counter + occupied,
            cubes: device.cubes.union(
                Set::new(|slot: nat| device.counter <= slot < device.counter + occupied),
            ),
            ..device
        },
    }
}

/// The device after all of `commands`, first to last.
pub open spec fn apply_all(
    commands: Seq<MeshifyCommand>,
    occupied: nat,
    device: DeviceModel,
) -> DeviceModel
    decreases commands.len(),
{
    if commands.len() == 0 {
        device
    } else {
        apply(commands.last(), occupied, apply_all(commands.drop_last(), occupied, device))
    }
}

/// The counting pass reads back the number of occupied voxels, whatever the
/// counter and the staging buffer held before.
pub proof fn lemma_count_reads_occupied(size: Extent3d, occupied: nat, device: DeviceModel)
    ensures
        apply_all(count_commands_spec(size), occupied, device).staging == occupied,
        apply_all(count_commands_spec(size), occupied, device).cubes == device.cubes,
{
    let commands = count_commands_spec(size);
    let two = commands.drop_last();
    let one = two.drop_last();
    assert(one.drop_last().len() == 0);
    assert(apply_all(one.drop_last(), occupied, device) == device);
    assert(one.last() == MeshifyCommand::ClearCounter);
    assert(apply_all(one, occupied, device).counter == 0);
    assert(two.last() is CountVoxels);
    assert(apply_all(two, occupied, device).counter == occupied);
    assert(commands.last() == MeshifyCommand::CopyCounterToStaging);
}

/// Counting an unchanged grid again gives the same count: neither what the
/// device held before the first count, nor a whole cycle of counting and
/// instancing in between, changes what is read back.
pub proof fn lemma_recount_is_stable(size: Extent3d, occupied: nat, device: DeviceModel)
    ensures
        ({
            let first = apply_all(count_commands_spec(size), occupied, device);
            let cycle = apply_all(instance_commands_spec(size), occupied, first);
            let second = apply_all(count_commands_spec(size), occupied, cycle);
            second.staging == first.staging
        }),
        forall|other: DeviceModel|
            apply_all(count_commands_spec(size), occupied, other).staging == apply_all(
                count_commands_spec(size),
                occupied,
                device,
            ).staging,
{
    let first = apply_all(count_commands_spec(size), occupied, device);
    let cycle = apply_all(instance_commands_spec(size), occupied, first);
    lemma_count_reads_occupied(size, occupied, device);
    lemma_count_reads_occupied(size, occupied, cycle);
    assert forall|other: DeviceModel|
        apply_all(count_commands_spec(size), occupied, other).staging == apply_all(
            count_commands_spec(size),
            occupied,
            device,
        ).staging by {
        lemma_count_reads_occupied(size, occupied, other);
    }
}

/// The instancing pass, run on fresh buffers for a grid with `occupied`
/// occupied voxels, writes a cube into each of the slots `0..occupied` and
/// into no other, whatever the counter held before.
pub proof fn lemma_instance_fills_slots(size: Extent3d, occupied: nat, device: DeviceModel)
    requires
        device.cubes == Set::<nat>::empty(),
    ensures
        apply_all(instance_commands_spec(size), occupied, device).cubes == Set::new(
            |slot: nat| slot < occupied,
        ),
        apply_all(instance_commands_spec(size), occupied, device).counter == occupied,
        apply_all(instance_commands_spec(size), occupied, device).staging == device.staging,
{
    let commands = instance_commands_spec(size);
    let one = commands.drop_last();
    assert(one.drop_last().len() == 0);
    assert(apply_all(one.drop_last(), occupied, device) == device);
    assert(one.last() == MeshifyCommand::ClearCounter);
    let cleared = apply_all(one, occupied, device);
    assert(cleared.counter == 0 && cleared.cubes == device.cubes);
    assert(commands.last() is InstanceVoxels);
    let after = apply_all(commands, occupied, device);
    assert(after.cubes =~= Set::new(|slot: nat| slot < occupied));
}

/// First vertex of the cube in `slot`.
pub open spec fn first_vertex(slot: nat) -> nat {
    8 * slot
}

/// First index of the cube in `slot`.
pub open spec fn first_index(slot: nat) -> nat {
    36 * slot
}

/// For a grid with `count` occupied voxels the instancing pass produces a
/// mesh of exactly `8 * count` vertices and `36 * count` indices. The
/// buffers are sized for just that, every cube lies inside them, every
/// vertex and every index belongs to the cube of one slot that was written,
/// and cubes in different slots share none.
pub proof fn lemma_mesh_is_exact(size: Extent3d, count: u32, device: DeviceModel)
    requires
        device.cubes == Set::<nat>::empty(),
    ensures
        mesh_for(count).vertices / VERTEX_SIZE == 8 * count,
        mesh_for(count).indices / MESH_INDEX_SIZE == 36 * count,
        ({
            let cubes = apply_all(instance_commands_spec(size), count as nat, device).cubes;
            &&& forall|slot: nat| #[trigger]
                cubes.contains(slot) ==> first_vertex(slot) + 8 <= 8 * count && first_index(slot)
                    + 36 <= 36 * count
            &&& forall|vertex: nat|
                vertex < 8 * count ==> #[trigger] cubes.contains(vertex / 8) && first_vertex(
                    vertex / 8,
                ) <= vertex < first_vertex(vertex / 8) + 8
            &&& forall|index: nat|
                index < 36 * count ==> #[trigger] cubes.contains(index / 36) && first_index(
                    index / 36,
                ) <= index < first_index(index / 36) + 36
            &&& forall|a: nat, b: nat|
                a < b ==> #[trigger] first_vertex(a) + 8 <= #[trigger] first_vertex(b)
                    && first_index(a) + 36 <= first_index(b)
        }),
{
    lemma_instance_fills_slots(size, count as nat, device);
}


/// Why a meshify cycle ended without a result.
#[derive(Clone, Copy, Debug, PartialEq, Eq, Structural)]
pub enum MeshifyError {
    /// The device was lost, or the staging buffer could not be mapped.
    DeviceLost,
    /// The count did not arrive within the number of polls allowed.
    Timeout,
}

/// Where a meshify cycle stands.
#[derive(Clone, Copy, Debug, PartialEq, Eq, Structural)]
pub enum MeshifyPhase {
    /// No cycle is under way and no mesh is published.
    Idle,
    /// The counting pass is recorded and on its way to the queue.
    Counting,
    /// The counting pass is submitted; the host waits for the count and has
    /// polled `polls` times in vain.
    AwaitingReadback { polls: u32 },
    /// The count is known and positive; the buffers for it are being created.
    Allocated { count: u32 },
    /// The instancing pass is recorded and on its way to the queue.
    Instancing { count: u32 },
    /// The mesh of `count` cubes is published.
    Ready { count: u32 },
    /// The cycle failed for good.
    Failed { error: MeshifyError },
}

/// What one poll of the device found.
#[derive(Clone, Copy, Debug)]
pub enum ReadbackSignal {
    /// The staging buffer is not mapped yet.
    Pending,
    /// The staging buffer is mapped and holds these four bytes.
    Mapped([u8; 4]),
    /// The wait was cut short: the device is lost or the mapping failed.
    Lost,
}

/// What happened on the device since the last step.
#[derive(Clone, Copy, Debug)]
pub enum MeshifyEvent {
    /// A meshify cycle is asked for.
    Begin,
    /// The commands of the last `Submit` action are on the queue.
    Submitted,
    /// The device was polled, with this outcome.
    Polled(ReadbackSignal),
    /// The buffers of the last `Allocate` action exist.
    BuffersCreated,
}

/// What the caller does next.
#[derive(Clone, Copy, Debug, PartialEq, Eq, Structural)]
pub enum MeshifyAction {
    /// Record `count_commands` for a grid of this size, submit them, ask for
    /// the staging buffer to be mapped, and report `Submitted`.
    SubmitCount(Extent3d),
    /// Poll the device and report what was found.
    Poll,
    /// Unmap the staging buffer, create a vertex and an index buffer of these
    /// sizes, and report `BuffersCreated`.
    Allocate(VoxelsMeshResource),
    /// Record `instance_commands` for a grid of this size on the new buffers,
    /// submit them, and report `Submitted`.
    SubmitInstance(Extent3d),
    /// The mesh is published: keep its buffers, and drop those of the mesh
    /// that it replaced.
    Publish(VoxelsMeshResource),
    /// No voxel is occupied: unmap the staging buffer, create and dispatch
    /// nothing, and drop the buffers of the mesh that was published before.
    Skip,
    /// Give up; the error cannot be recovered from.
    Abort(MeshifyError),
}

/// How long the host waits for the count.
#[derive(Clone, Copy, Debug)]
pub struct ReadbackPolicy {
    /// The number of polls after which the wait is given up, or `None` to
    /// wait without end.
    pub max_polls: Option<u32>,
}

/// Whether a cycle may start in `phase`.
pub open spec fn may_begin(phase: MeshifyPhase) -> bool {
    phase is Idle || phase is Ready
}

/// Whether `event` is what a cycle in `phase` waits for, given the shared
/// resources: a cycle starts only when none is under way, each report
/// answers the action before it, and the passes need the voxel grid.
pub open spec fn accepts(phase: MeshifyPhase, event: MeshifyEvent, slots: ResourceSlots) -> bool {
    match event {
        MeshifyEvent::Begin => may_begin(phase) && slots.voxels.is_some(),
        MeshifyEvent::Submitted => phase is Counting || phase is Instancing,
        MeshifyEvent::Polled(_) => phase is AwaitingReadback,
        MeshifyEvent::BuffersCreated => phase is Allocated && slots.voxels.is_some(),
    }
}

/// Whether a wait that has seen `polls` polls without result is over under
/// `policy`.
pub open spec fn timed_out(policy: ReadbackPolicy, polls: int) -> bool {
    match policy.max_polls {
        Some(limit) => polls >= limit,
        None => false,
    }
}

/// The polls counted after one more: the count stops at the largest value.
pub open spec fn one_more(polls: u32) -> u32 {
    if polls == u32::MAX {
        polls
    } else {
        (polls + 1) as u32
    }
}

/// The phase that follows `phase` on `event`.
pub open spec fn next_phase(
    phase: MeshifyPhase,
    policy: ReadbackPolicy,
    event: MeshifyEvent,
) -> MeshifyPhase {
    match event {
        MeshifyEvent::Begin => MeshifyPhase::Counting,
        MeshifyEvent::Submitted => match phase {
            MeshifyPhase::Instancing { count } => MeshifyPhase::Ready { count },
            _ => MeshifyPhase::AwaitingReadback { polls: 0 },
        },
        MeshifyEvent::Polled(ReadbackSignal::Pending) => match phase {
            MeshifyPhase::AwaitingReadback { polls } => if timed_out(policy, polls + 1) {
                MeshifyPhase::Failed { error: MeshifyError::Timeout }
            } else {
                MeshifyPhase::AwaitingReadback { polls: one_more(polls) }
            },
            _ => phase,
        },
        MeshifyEvent::Polled(ReadbackSignal::Lost) => MeshifyPhase::Failed {
            error: MeshifyError::DeviceLost,
        },
        MeshifyEvent::Polled(ReadbackSignal::Mapped(bytes)) => if count_of(bytes) == 0 {
            MeshifyPhase::Idle
        } else {
            MeshifyPhase::Allocated { count: count_of(bytes) }
        },
        MeshifyEvent::BuffersCreated => match phase {
            MeshifyPhase::Allocated { count } => MeshifyPhase::Instancing { count },
            _ => phase,
        },
    }
}

/// The action that a cycle in `phase` answers `event` with.
pub open spec fn action_for(
    phase: MeshifyPhase,
    policy: ReadbackPolicy,
    event: MeshifyEvent,
    slots: ResourceSlots,
) -> MeshifyAction {
    match event {
        MeshifyEvent::Begin => MeshifyAction::SubmitCount(slots.voxels.unwrap().color.size),
        MeshifyEvent::Submitted => match phase {
            MeshifyPhase::Instancing { count } => MeshifyAction::Publish(mesh_for(count)),
            _ => MeshifyAction::Poll,
        },
        MeshifyEvent::Polled(ReadbackSignal::Pending) => match next_phase(phase, policy, event) {
            MeshifyPhase::Failed { error } => MeshifyAction::Abort(error),
            _ => MeshifyAction::Poll,
        },
        MeshifyEvent::Polled(ReadbackSignal::Lost) => MeshifyAction::Abort(
            MeshifyError::DeviceLost,
        ),
        MeshifyEvent::Polled(ReadbackSignal::Mapped(bytes)) => if count_of(bytes) == 0 {
            MeshifyAction::Skip
        } else {
            MeshifyAction::Allocate(mesh_for(count_of(bytes)))
        },
        MeshifyEvent::BuffersCreated => MeshifyAction::SubmitInstance(
            slots.voxels.unwrap().color.size,
        ),
    }
}

/// The shared resources after a cycle in `phase` took `event`: a finished
/// instancing pass publishes its mesh in place of the one before, a count of
/// zero leaves no mesh, and nothing else touches the store.
pub open spec fn slots_after(
    phase: MeshifyPhase,
    event: MeshifyEvent,
    slots: ResourceSlots,
) -> ResourceSlots {
    match (phase, event) {
        (MeshifyPhase::Instancing { count }, MeshifyEvent::Submitted) => ResourceSlots {
            voxels_mesh: Some(mesh_for(count)),
            ..slots
        },
        (_, MeshifyEvent::Polled(ReadbackSignal::Mapped(bytes))) => if count_of(bytes) == 0 {
            ResourceSlots { voxels_mesh: None, ..slots }
        } else {
            slots
        },
        _ => slots,
    }
}

/// The pass that turns the voxel grid into a mesh of cubes, one step at a
/// time: the caller does the work on the device and reports back.
pub struct MeshifyPass {
    phase: MeshifyPhase,
    policy: ReadbackPolicy,
}

impl MeshifyPass {
    /// Where the cycle stands.
    pub closed spec fn phase(&self) -> MeshifyPhase {
        self.phase
    }

    /// How long the pass waits for the count.
    pub closed spec fn policy(&self) -> ReadbackPolicy {
        self.policy
    }

    /// A pass with no cycle under way.
    pub fn new(policy: ReadbackPolicy) -> (pass: Self)
        ensures
            pass.phase() == MeshifyPhase::Idle,
            pass.policy() == policy,
    {
        MeshifyPass { phase: MeshifyPhase::Idle, policy }
    }

    /// Where the cycle stands.
    pub fn get_phase(&self) -> (phase: MeshifyPhase)
        ensures
            phase == self.phase(),
    {
        self.phase
    }

    /// Whether `event` is what the pass waits for.
    pub fn expects(&self, event: &MeshifyEvent, global_resources: &ResourceManager) -> (expected:
        bool)
        ensures
            expected == accepts(self.phase(), *event, global_resources@),
    {
        let has_grid = global_resources.get_resource::<VoxelsResource>().is_some();
        match event {
            MeshifyEvent::Begin => {
                let free = match self.phase {
                    MeshifyPhase::Idle => true,
                    MeshifyPhase::Ready { .. } => true,
                    _ => false,
                };
                free && has_grid
            },
            MeshifyEvent::Submitted => match self.phase {
                MeshifyPhase::Counting => true,
                MeshifyPhase::Instancing { .. } => true,
                _ => false,
            },
            MeshifyEvent::Polled(_) => match self.phase {
                MeshifyPhase::AwaitingReadback { .. } => true,
                _ => false,
            },
            MeshifyEvent::BuffersCreated => match self.phase {
                MeshifyPhase::Allocated { .. } => has_grid,
                _ => false,
            },
        }
    }

    /// Takes what happened on the device and says what to do next.
    ///
    /// A cycle clears the counter and counts, waits for the count, sizes the
    /// buffers by it, clears the counter again and instances, and publishes
    /// the mesh among the shared resources. A count of zero ends the cycle
    /// at once, with no buffer, no dispatch and no mesh left published. A
    /// lost device or an exhausted wait ends it with an error.
    pub fn execute(&mut self, event: MeshifyEvent, global_resources: &mut ResourceManager) -> (action:
        MeshifyAction)
        requires
            accepts(old(self).phase(), event, old(global_resources)@),
        ensures
            final(self).phase() == next_phase(old(self).phase(), old(self).policy(), event),
            action == action_for(
                old(self).phase(),
                old(self).policy(),
                event,
                old(global_resources)@,
            ),
            final(global_resources)@ == slots_after(
                old(self).phase(),
                event,
                old(global_resources)@,
            ),
            final(self).policy() == old(self).policy(),
    {
        match event {
            MeshifyEvent::Begin => {
                let size = global_resources.get_resource::<VoxelsResource>().unwrap().color.size;
                self.phase = MeshifyPhase::Counting;
                MeshifyAction::SubmitCount(size)
            },
            MeshifyEvent::Submitted => match self.phase {
                MeshifyPhase::Instancing { count } => {
                    let mesh = mesh_buffers(count);
                    let _ = global_resources.insert_resource(mesh);
                    self.phase = MeshifyPhase::Ready { count };
                    MeshifyAction::Publish(mesh)
                },
                _ => {
                    self.phase = MeshifyPhase::AwaitingReadback { polls: 0 };
                    MeshifyAction::Poll
                },
            },
            MeshifyEvent::Polled(ReadbackSignal::Pending) => match self.phase {
                MeshifyPhase::AwaitingReadback { polls } => {
                    let over = match self.policy.max_polls {
                        Some(limit) => polls >= limit || polls + 1 >= limit,
                        None => false,
                    };
                    if over {
                        self.phase = MeshifyPhase::Failed { error: MeshifyError::Timeout };
                        MeshifyAction::Abort(MeshifyError::Timeout)
                    } else {
                        let seen = if polls == u32::MAX {
                            polls
                        } else {
                            polls + 1
                        };
                        self.phase = MeshifyPhase::AwaitingReadback { polls: seen };
                        MeshifyAction::Poll
                    }
                },
                _ => MeshifyAction::Poll,
            },
            MeshifyEvent::Polled(ReadbackSignal::Lost) => {
                self.phase = MeshifyPhase::Failed { error: MeshifyError::DeviceLost };
                MeshifyAction::Abort(MeshifyError::DeviceLost)
            },
            MeshifyEvent::Polled(ReadbackSignal::Mapped(bytes)) => {
                let count = count_from_bytes(bytes);
                if count == 0 {
                    let _ = global_resources.remove::<VoxelsMeshResource>();
                    self.phase = MeshifyPhase::Idle;
                    MeshifyAction::Skip
                } else {
                    self.phase = MeshifyPhase::Allocated { count };
                    MeshifyAction::Allocate(mesh_buffers(count))
                }
            },
            MeshifyEvent::BuffersCreated => match self.phase {
                MeshifyPhase::Allocated { count } => {
                    let size =
                        global_resources.get_resource::<VoxelsResource>().unwrap().color.size;
                    self.phase = MeshifyPhase::Instancing { count };
                    MeshifyAction::SubmitInstance(size)
                },
                _ => MeshifyAction::Poll,
            },
        }
    }
}


/// A count of zero allocates nothing, dispatches nothing and leaves no mesh
/// among the shared resources: the cycle is over and the store holds no
/// generated mesh, whether it held one before or not.
pub proof fn lemma_zero_count_skips(
    polls: u32,
    policy: ReadbackPolicy,
    bytes: [u8; 4],
    slots: ResourceSlots,
)
    requires
        count_of(bytes) == 0,
    ensures
        ({
            let phase = MeshifyPhase::AwaitingReadback { polls };
            let event = MeshifyEvent::Polled(ReadbackSignal::Mapped(bytes));
            &&& accepts(phase, event, slots)
            &&& action_for(phase, policy, event, slots) == MeshifyAction::Skip
            &&& next_phase(phase, policy, event) == MeshifyPhase::Idle
            &&& slots_after(phase, event, slots).voxels_mesh.is_none()
            &&& slots_after(phase, event, slots).voxels == slots.voxels
            &&& slots_after(phase, event, slots).depth_buffer == slots.depth_buffer
        }),
{
}

/// Buffers are asked for only when the count has been read back and is
/// positive, and they are sized by that count; the instancing pass is
/// recorded only once those buffers exist.
pub proof fn lemma_allocation_follows_readback(
    phase: MeshifyPhase,
    policy: ReadbackPolicy,
    event: MeshifyEvent,
    slots: ResourceSlots,
)
    requires
        accepts(phase, event, slots),
    ensures
        action_for(phase, policy, event, slots) matches MeshifyAction::Allocate(mesh) ==> (event
            matches MeshifyEvent::Polled(ReadbackSignal::Mapped(bytes)) && count_of(bytes) > 0
            && mesh == mesh_for(count_of(bytes)) && next_phase(phase, policy, event)
            == (MeshifyPhase::Allocated { count: count_of(bytes) })),
        action_for(phase, policy, event, slots) is SubmitInstance ==> phase is Allocated && event
            is BuffersCreated,
        action_for(phase, policy, event, slots) matches MeshifyAction::Publish(mesh) ==> (phase
            matches MeshifyPhase::Instancing { count } && mesh == mesh_for(count) && slots_after(
            phase,
            event,
            slots,
        ).voxels_mesh == Some(mesh)),
        !(action_for(phase, policy, event, slots) is Publish) && !(action_for(
            phase,
            policy,
            event,
            slots,
        ) is Skip) ==> slots_after(phase, event, slots) == slots,
{
}

/// A whole cycle on a grid whose count reads back as a positive number:
/// count, wait, allocate, instance, publish. It ends with the mesh for that
/// count published in place of whatever mesh was there, and the rest of the
/// store as it was.
pub proof fn lemma_cycle_publishes_mesh(policy: ReadbackPolicy, bytes: [u8; 4], slots: ResourceSlots)
    requires
        slots.voxels.is_some(),
        count_of(bytes) > 0,
    ensures
        ({
            let size = slots.voxels.unwrap().color.size;
            let count = count_of(bytes);
            let mapped = MeshifyEvent::Polled(ReadbackSignal::Mapped(bytes));
            let idle = MeshifyPhase::Idle;
            let counting = next_phase(idle, policy, MeshifyEvent::Begin);
            let awaiting = next_phase(counting, policy, MeshifyEvent::Submitted);
            let allocated = next_phase(awaiting, policy, mapped);
            let instancing = next_phase(allocated, policy, MeshifyEvent::BuffersCreated);
            let ready = next_phase(instancing, policy, MeshifyEvent::Submitted);
            &&& accepts(idle, MeshifyEvent::Begin, slots)
            &&& action_for(idle, policy, MeshifyEvent::Begin, slots) == MeshifyAction::SubmitCount(
                size,
            )
            &&& accepts(counting, MeshifyEvent::Submitted, slots)
            &&& action_for(counting, policy, MeshifyEvent::Submitted, slots) == MeshifyAction::Poll
            &&& accepts(awaiting, mapped, slots)
            &&& action_for(awaiting, policy, mapped, slots) == MeshifyAction::Allocate(mesh_for(count))
            &&& accepts(allocated, MeshifyEvent::BuffersCreated, slots)
            &&& action_for(allocated, policy, MeshifyEvent::BuffersCreated, slots)
                == MeshifyAction::SubmitInstance(size)
            &&& accepts(instancing, MeshifyEvent::Submitted, slots)
            &&& action_for(instancing, policy, MeshifyEvent::Submitted, slots) == MeshifyAction::Publish(
                mesh_for(count),
            )
            &&& ready == (MeshifyPhase::Ready { count })
            &&& slots_after(instancing, MeshifyEvent::Submitted, slots) == (ResourceSlots {
                voxels_mesh: Some(mesh_for(count)),
                ..slots
            })
        }),
{
}

/// A wait under a limit ends: after as many fruitless polls as the policy
/// allows, the cycle has failed with a timeout.
pub proof fn lemma_wait_is_bounded(limit: u32, polls: u32)
    requires
        polls + 1 >= limit,
    ensures
        next_phase(
            MeshifyPhase::AwaitingReadback { polls },
            ReadbackPolicy { max_polls: Some(limit) },
            MeshifyEvent::Polled(ReadbackSignal::Pending),
        ) == (MeshifyPhase::Failed { error: MeshifyError::Timeout }),
{
}


/// The draw of the generated mesh in one frame.
#[derive(Clone, Copy, Debug, PartialEq, Eq, Structural)]
pub struct VoxelDraw {
    /// Whether the surface image has to be acquired for this draw; if not,
    /// the frame has one already.
    pub acquire_surface: bool,
    /// The depth buffer to render with.
    pub depth_buffer: Texture,
    /// Whether that depth buffer has to be created first.
    pub create_depth_buffer: bool,
    /// Number of indices that the one indexed draw covers, from the first.
    pub indices: u32,
}

/// Whether one draw can cover every index of `mesh`.
pub open spec fn drawable(mesh: VoxelsMeshResource) -> bool {
    mesh.indices / MESH_INDEX_SIZE <= u32::MAX
}

/// The pass that rasterises the generated mesh.
pub struct RenderMeshifyPass {}

impl RenderMeshifyPass {
    pub fn new() -> Self {
        RenderMeshifyPass {  }
    }

    /// Prepares the draw of the generated mesh for the frame.
    ///
    /// Without a generated mesh among the shared resources the pass does
    /// nothing at all: it returns `None`, and frame and renderer stay as
    /// they are. With one, the frame's surface image and a depth buffer are
    /// made sure of, and one indexed draw covers every index of the mesh.
    pub fn execute<B>(
        &mut self,
        command_encoder: &mut CommandEncoder<B>,
        renderer: &mut Renderer,
    ) -> (draw: Option<VoxelDraw>)
        requires
            old(renderer).resources().voxels_mesh matches Some(mesh) ==> drawable(mesh)
                && old(command_encoder).has_camera(old(renderer)),
        ensures
            draw.is_some() == old(renderer).resources().voxels_mesh.is_some(),
            draw.is_none() ==> final(renderer).resources() == old(renderer).resources(),
            draw.is_none() ==> final(command_encoder).surface_acquired() == old(
                command_encoder,
            ).surface_acquired(),
            draw matches Some(voxels) ==> {
                &&& voxels.indices == old(renderer).resources().voxels_mesh.unwrap().indices
                    / MESH_INDEX_SIZE
                &&& voxels.acquire_surface == !old(command_encoder).surface_acquired()
                &&& voxels.create_depth_buffer == old(renderer).resources().depth_buffer.is_none()
                &&& voxels.depth_buffer == (match old(renderer).resources().depth_buffer {
                    Some(resource) => resource.depth_buffer,
                    None => old(command_encoder).camera_depth_texture(old(renderer)),
                })
                &&& final(renderer).resources() == (ResourceSlots {
                    depth_buffer: Some(DepthBufferResource { depth_buffer: voxels.depth_buffer }),
                    ..old(renderer).resources()
                })
                &&& final(command_encoder).surface_acquired()
            },
            final(command_encoder).camera() == old(command_encoder).camera(),
            final(command_encoder).recorded() == old(command_encoder).recorded(),
            final(renderer).resolution() == old(renderer).resolution(),
            final(renderer).dirty_settings() == old(renderer).dirty_settings(),
            final(renderer).cameras() == old(renderer).cameras(),
            final(renderer).next_id() == old(renderer).next_id(),
    {
        let bytes = match renderer.get_resource_manager().get_resource::<VoxelsMeshResource>() {
            Some(mesh) => Some(mesh.indices),
            None => None,
        };
        match bytes {
            None => None,
            Some(bytes) => {
                let acquire_surface = command_encoder.get_surface_texture_view();
                let (depth_buffer, create_depth_buffer) = command_encoder.depth_buffer(renderer);
                Some(
                    VoxelDraw {
                        acquire_surface,
                        depth_buffer,
                        create_depth_buffer,
                        indices: (bytes / MESH_INDEX_SIZE) as u32,
                    },
                )
            },
        }
    }
}

} // verus!
