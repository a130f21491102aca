//! The renderer's state on the host: the size of its surface, its cameras,
//! the identifiers it hands out and the resources its passes share.

use vstd::prelude::*;
use dashmap::DashMap;
use crate::camera::{effective_resolution, Camera, InternalCamera, Resolution};
use crate::command_encoder::CommandEncoder;
use crate::mesh::Id;
use crate::resources::{updated_slots, Resource, ResourceManager, ResourceSlots};

verus! {

/// `dashmap::DashMap`, a hash map that can be shared between threads. The
/// renderer keeps its cameras in one; nothing is known of it but what the
/// functions below state.
#[verifier::external_type_specification]
#[verifier::external_body]
#[verifier::reject_recursive_types(K)]
#[verifier::reject_recursive_types(V)]
#[verifier::reject_recursive_types(S)]
pub struct ExDashMap<K, V, S>(DashMap<K, V, S>);

/// The entries of a camera table: each identifier with the camera stored
/// under it.
pub uninterp spec fn camera_entries(cameras: DashMap<Id, InternalCamera>) -> Map<
    Id,
    InternalCamera,
>;

/// `DashMap::new`: a table without entries.
#[verifier::external_body]
fn cameras_new() -> (cameras: DashMap<Id, InternalCamera>)
    ensures
        (camera_entries(cameras) == Map::<Id, InternalCamera>::empty()),
{
    DashMap::new()
}

/// `DashMap::insert`: afterwards `id` maps to `camera` and every other entry
/// is as it was; the value that `id` mapped to before is returned.
#[verifier::external_body]
fn cameras_insert(cameras: &mut DashMap<Id, InternalCamera>, id: Id, camera: InternalCamera) -> (previous:
    Option<InternalCamera>)
    ensures
        camera_entries(*final(cameras)) == camera_entries(*old(cameras)).insert(id, camera),
        previous == (if camera_entries(*old(cameras)).contains_key(id) {
            Some(camera_entries(*old(cameras))[id])
        } else {
            None
        }),
{
    cameras.insert(id, camera)
}

/// `DashMap::get`: a copy of the value stored under `id`, if there is an
/// entry for it.
#[verifier::external_body]
fn cameras_get(cameras: &DashMap<Id, InternalCamera>, id: Id) -> (camera: Option<InternalCamera>)
    ensures
        camera == (if camera_entries(*cameras).contains_key(id) {
            Some(camera_entries(*cameras)[id])
        } else {
            None
        }),
{
    match cameras.get(&id) {
        Some(entry) => Some(*entry.value()),
        None => None,
    }
}

/// `DashMap::iter`: the key of every entry, each once, in the order in
/// which the table happens to be walked.
#[verifier::external_body]
fn cameras_keys(cameras: &DashMap<Id, InternalCamera>) -> (keys: Vec<Id>)
    ensures
        keys@.no_duplicates(),
        forall|id: Id| keys@.contains(id) <==> camera_entries(*cameras).contains_key(id),
{
    cameras.iter().map(|entry| *entry.key()).collect()
}

/// `cameras` with every camera marked as unchanged.
pub open spec fn cleaned(cameras: Map<Id, InternalCamera>) -> Map<Id, InternalCamera> {
    Map::new(
        |id: Id| cameras.contains_key(id),
        |id: Id| InternalCamera { dirty: false, ..cameras[id] },
    )
}

/// The identifier handed out after `id`: the counter starts over when it has
/// run through every value.
pub open spec fn id_after(id: Id) -> Id {
    if id == u64::MAX {
        0
    } else {
        (id + 1) as u64
    }
}

/// What `update` asks of the caller.
pub struct Update {
    /// The cameras whose matrices have to be uploaded again.
    pub cameras: Vec<Id>,
    /// Whether the resolution changed since the last update, so that the
    /// resources were brought in line with it.
    pub resources: bool,
}

/// The state of the renderer.
pub struct Renderer {
    config: [u32; 2],
    dirty_settings: bool,
    cameras: DashMap<Id, InternalCamera>,
    resource_manager: ResourceManager,
    current_id: Id,
}

impl Renderer {
    /// Width and height of the surface.
    pub closed spec fn resolution(&self) -> [u32; 2] {
        self.config
    }

    /// Whether the resolution changed since the resources last followed it.
    pub closed spec fn dirty_settings(&self) -> bool {
        self.dirty_settings
    }

    /// The cameras by their identifiers.
    pub closed spec fn cameras(&self) -> Map<Id, InternalCamera> {
        camera_entries(self.cameras)
    }

    /// The resources that the passes share.
    pub closed spec fn resources(&self) -> ResourceSlots {
        self.resource_manager@
    }

    /// The identifier that `new_id` hands out next.
    pub closed spec fn next_id(&self) -> Id {
        self.current_id
    }

    /// Everything but the cameras is as in `other`.
    pub open spec fn same_but_cameras(&self, other: Self) -> bool {
        &&& self.resolution() == other.resolution()
        &&& self.dirty_settings() == other.dirty_settings()
        &&& self.resources() == other.resources()
        &&& self.next_id() == other.next_id()
    }

    /// A renderer for a surface of `width` by `height` pixels, without
    /// cameras and resources. Its settings count as changed, so that the
    /// first update reaches every resource.
    pub fn new(width: u32, height: u32) -> (renderer: Self)
        ensures
            renderer.resolution()[0] == width,
            renderer.resolution()[1] == height,
            renderer.dirty_settings(),
            (renderer.cameras() == Map::<Id, InternalCamera>::empty()),
            renderer.resources() == (ResourceSlots {
                voxels: None,
                voxels_mesh: None,
                depth_buffer: None,
            }),
            renderer.next_id() == 0,
    {
        Renderer {
            config: [width, height],
            dirty_settings: true,
            cameras: cameras_new(),
            resource_manager: ResourceManager::new(),
            current_id: 0,
        }
    }

    /// Width and height of the surface.
    pub fn get_resolution(&self) -> (size: [u32; 2])
        ensures
            size == self.resolution(),
    {
        self.config
    }

    /// Takes a new size of the surface. Returns whether it differs from the
    /// old one; if so the surface has to be configured anew, and the settings
    /// count as changed until the next update.
    pub fn resize(&mut self, width: u32, height: u32) -> (changed: bool)
        ensures
            changed == (width != old(self).resolution()[0] || height != old(self).resolution()[1]),
            final(self).resolution()[0] == width,
            final(self).resolution()[1] == height,
            final(self).dirty_settings() == (old(self).dirty_settings() || changed),
            final(self).cameras() == old(self).cameras(),
            final(self).resources() == old(self).resources(),
            final(self).next_id() == old(self).next_id(),
    {
        if width != self.config[0] || height != self.config[1] {
            self.config = [width, height];
            self.dirty_settings = true;
            true
        } else {
            false
        }
    }

    /// Hands out an identifier and moves the counter on.
    pub fn new_id(&mut self) -> (id: Id)
        ensures
            id == old(self).next_id(),
            final(self).next_id() == id_after(id),
            final(self).resolution() == old(self).resolution(),
            final(self).dirty_settings() == old(self).dirty_settings(),
            final(self).cameras() == old(self).cameras(),
            final(self).resources() == old(self).resources(),
    {
        let id = self.current_id;
        self.current_id = if id == u64::MAX {
            0
        } else {
            id + 1
        };
        id
    }

    /// Adds a camera with the given resolution setting under a new
    /// identifier and returns the handle to it. The camera starts as changed.
    pub fn new_camera(&mut self, resolution: Resolution) -> (camera: Camera)
        ensures
            camera.id() == old(self).next_id(),
            final(self).cameras() == old(self).cameras().insert(
                camera.id(),
                InternalCamera { resolution, dirty: true },
            ),
            final(self).next_id() == id_after(old(self).next_id()),
            final(self).resolution() == old(self).resolution(),
            final(self).dirty_settings() == old(self).dirty_settings(),
            final(self).resources() == old(self).resources(),
    {
        let id = self.new_id();
        let _ = cameras_insert(&mut self.cameras, id, InternalCamera { resolution, dirty: true });
        Camera::new(id)
    }

    /// Stores `resource` under its type among the shared resources and
    /// returns the resource that it displaced, if there was one.
    pub fn insert_resource<T: Resource>(&mut self, resource: T) -> (displaced: Option<Box<T>>)
        ensures
            final(self).resources() == T::with_slot(old(self).resources(), Some(resource)),
            displaced.is_some() == T::slot(old(self).resources()).is_some(),
            displaced matches Some(boxed) ==> T::slot(old(self).resources()) == Some(*boxed),
            final(self).resolution() == old(self).resolution(),
            final(self).dirty_settings() == old(self).dirty_settings(),
            final(self).cameras() == old(self).cameras(),
            final(self).next_id() == old(self).next_id(),
    {
        self.resource_manager.insert_resource(resource)
    }

    /// Brings the renderer up to date before a frame. Every camera that
    /// changed is listed once, for its matrix to be uploaded, and counts as
    /// unchanged afterwards. If the settings changed, every shared resource
    /// follows the current resolution, and the settings count as unchanged.
    pub fn update(&mut self) -> (update: Update)
        ensures
            update.cameras@.no_duplicates(),
            forall|id: Id|
                update.cameras@.contains(id) <==> old(self).cameras().contains_key(id)
                    && old(self).cameras()[id].dirty,
            final(self).cameras() == cleaned(old(self).cameras()),
            update.resources == old(self).dirty_settings(),
            final(self).resources() == (if old(self).dirty_settings() {
                updated_slots(old(self).resources(), old(self).resolution())
            } else {
                old(self).resources()
            }),
            !final(self).dirty_settings(),
            final(self).resolution() == old(self).resolution(),
            final(self).next_id() == old(self).next_id(),
    {
        let keys = cameras_keys(&self.cameras);
        let ghost before = camera_entries(self.cameras);
        let mut changed: Vec<Id> = Vec::new();
        let mut i: usize = 0;
        while i < keys.len()
            invariant
                i <= keys.len(),
                keys@.no_duplicates(),
                forall|id: Id| keys@.contains(id) <==> before.contains_key(id),
                camera_entries(self.cameras).dom() == before.dom(),
                forall|k: int|
                    0 <= k < i ==> camera_entries(self.cameras)[#[trigger] keys[k]]
                        == (InternalCamera { dirty: false, ..before[keys[k]] }),
                forall|k: int|
                    i <= k < keys.len() ==> camera_entries(self.cameras)[#[trigger] keys[k]]
                        == before[keys[k]],
                changed@.no_duplicates(),
                forall|id: Id|
                    changed@.contains(id) <==> exists|k: int|
                        0 <= k < i && #[trigger] keys[k] == id && before[id].dirty,
                self.config == old(self).config,
                self.dirty_settings == old(self).dirty_settings,
                self.resource_manager == old(self).resource_manager,
                self.current_id == old(self).current_id,
            decreases keys.len() - i,
        {
            let id = keys[i];
            assert(keys@.contains(id));
            let ghost current = camera_entries(self.cameras);
            let camera = cameras_get(&self.cameras, id).unwrap();
            let ghost listed = changed@;
            if camera.dirty {
                changed.push(id);
                assert(!listed.contains(id)) by {
                    if listed.contains(id) {
                        let k = choose|k: int| 0 <= k < i && #[trigger] keys[k] == id;
                        assert(keys@[k] == keys@[i as int]);
                    }
                }
                assert forall|other: Id| changed@.contains(other) <==> exists|k: int|
                    0 <= k < i + 1 && #[trigger] keys[k] == other && before[other].dirty by {
                    if changed@.contains(other) {
                        let j = choose|j: int| 0 <= j < changed@.len() && changed@[j] == other;
                        if j < listed.len() {
                            assert(listed[j] == other);
                            assert(listed.contains(other));
                        } else {
                            assert(keys[i as int] == other);
                        }
                    }
                    if exists|k: int| 0 <= k < i + 1 && #[trigger] keys[k] == other && before[other].dirty {
                        let k = choose|k: int|
                            0 <= k < i + 1 && #[trigger] keys[k] == other && before[other].dirty;
                        if k < i {
                            assert(listed.contains(other));
                            let j = choose|j: int| 0 <= j < listed.len() && listed[j] == other;
                            assert(changed@[j] == other);
                        } else {
                            assert(changed@[listed.len() as int] == other);
                        }
                    }
                }
            } else {
                assert forall|other: Id| changed@.contains(other) <==> exists|k: int|
                    0 <= k < i + 1 && #[trigger] keys[k] == other && before[other].dirty by {
                    if exists|k: int| 0 <= k < i + 1 && #[trigger] keys[k] == other && before[other].dirty {
                        let k = choose|k: int|
                            0 <= k < i + 1 && #[trigger] keys[k] == other && before[other].dirty;
                        assert(k < i);
                    }
                }
            }
            let _ = cameras_insert(
                &mut self.cameras,
                id,
                InternalCamera { resolution: camera.resolution, dirty: false },
            );
            assert(camera_entries(self.cameras).dom() =~= before.dom());
            assert forall|k: int| 0 <= k < i + 1 implies camera_entries(
                self.cameras,
            )[#[trigger] keys[k]] == (InternalCamera { dirty: false, ..before[keys[k]] }) by {
                if k < i {
                    assert(keys@[k] != keys@[i as int]);
                }
            }
            assert forall|k: int| i + 1 <= k < keys.len() implies camera_entries(
                self.cameras,
            )[#[trigger] keys[k]] == before[keys[k]] by {
                assert(keys@[k] != keys@[i as int]);
            }
            i = i + 1;
        }
        proof {
            let after = camera_entries(self.cameras);
            assert forall|id: Id| after.contains_key(id) implies #[trigger] after[id] == cleaned(
                before,
            )[id] by {
                assert(keys@.contains(id));
                let k = choose|k: int| 0 <= k < keys@.len() && keys@[k] == id;
                assert(after[keys[k]] == (InternalCamera { dirty: false, ..before[keys[k]] }));
            }
            assert(after =~= cleaned(before));
            assert forall|id: Id| changed@.contains(id) <==> before.contains_key(id)
                && before[id].dirty by {
                if before.contains_key(id) && before[id].dirty {
                    assert(keys@.contains(id));
                    let k = choose|k: int| 0 <= k < keys@.len() && keys@[k] == id;
                    assert(keys[k] == id);
                }
            }
        }
        let resources = self.dirty_settings;
        if resources {
            self.resource_manager.updated_settings(self.config);
            self.dirty_settings = false;
        }
        Update { cameras: changed, resources }
    }

    /// Starts a frame that is rendered from `camera`, or from no camera.
    pub fn new_command_encoder<B>(&self, camera: Option<&Camera>) -> (encoder: CommandEncoder<B>)
        requires
            camera matches Some(handle) ==> self.cameras().contains_key(handle.id()),
        ensures
            encoder.camera() == (match camera {
                Some(handle) => Some(handle.id()),
                None => None,
            }),
            encoder.recorded() == Seq::<B>::empty(),
            !encoder.surface_acquired(),
    {
        match camera {
            Some(handle) => CommandEncoder::new(Some(handle.get_id())),
            None => CommandEncoder::new(None),
        }
    }

    /// The store of the shared resources, for a pass to read and to change.
    /// The rest of the renderer is out of the pass's reach.
    pub fn get_resource_manager(&mut self) -> (manager: &mut ResourceManager)
        ensures
            manager@ == old(self).resources(),
            final(self).resources() == final(manager)@,
            final(self).resolution() == old(self).resolution(),
            final(self).dirty_settings() == old(self).dirty_settings(),
            final(self).cameras() == old(self).cameras(),
            final(self).next_id() == old(self).next_id(),
    {
        &mut self.resource_manager
    }

    /// The width and height that the camera `id` renders at, if the renderer
    /// has such a camera.
    pub fn camera_resolution(&self, id: Id) -> (size: Option<[u32; 2]>)
        ensures
            size.is_some() == self.cameras().contains_key(id),
            size matches Some(found) ==> found == effective_resolution(
                self.cameras()[id].resolution,
                self.resolution(),
            ),
    {
        match cameras_get(&self.cameras, id) {
            Some(_) => Some(Camera::new(id).get_resolution(self)),
            None => None,
        }
    }

    /// What the renderer keeps of the camera `id`, if it has such a camera.
    pub fn camera(&self, id: Id) -> (camera: Option<InternalCamera>)
        ensures
            camera == (if self.cameras().contains_key(id) {
                Some(self.cameras()[id])
            } else {
                None
            }),
    {
        cameras_get(&self.cameras, id)
    }

    /// Stores `camera` under `id`, in place of what was there.
    pub(crate) fn set_camera(&mut self, id: Id, camera: InternalCamera)
        ensures
            final(self).cameras() == old(self).cameras().insert(id, camera),
            final(self).same_but_cameras(*old(self)),
    {
        let _ = cameras_insert(&mut self.cameras, id, camera);
    }
}

} // verus!
