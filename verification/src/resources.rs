//! Resources that passes publish for one another, and the store that keeps
//! one of each type.

use vstd::prelude::*;
use crate::mesh::{Extent3d, Texture};

verus! {

/// The voxel grid: a three-dimensional colour volume.
#[derive(Clone, Copy, Debug, PartialEq, Eq, Structural)]
pub struct VoxelsResource {
    pub color: Texture,
}

/// The cube mesh generated from the voxel grid, known by the byte sizes of
/// its two buffers.
#[derive(Clone, Copy, Debug, PartialEq, Eq, Structural)]
pub struct VoxelsMeshResource {
    /// Bytes of the vertex buffer.
    pub vertices: u64,
    /// Bytes of the index buffer.
    pub indices: u64,
}

/// The depth buffer that rasterising passes share.
#[derive(Clone, Copy, Debug, PartialEq, Eq, Structural)]
pub struct DepthBufferResource {
    pub depth_buffer: Texture,
}

/// What a store holds: at most one resource of each type.
pub struct ResourceSlots {
    pub voxels: Option<VoxelsResource>,
    pub voxels_mesh: Option<VoxelsMeshResource>,
    pub depth_buffer: Option<DepthBufferResource>,
}

/// The texture that a depth buffer of `resolution` is.
pub open spec fn depth_texture(resolution: [u32; 2]) -> Texture {
    Texture {
        size: Extent3d { width: resolution[0], height: resolution[1], depth_or_array_layers: 1 },
    }
}

/// `slots` after every resource in it followed the renderer to `resolution`.
pub open spec fn updated_slots(slots: ResourceSlots, resolution: [u32; 2]) -> ResourceSlots {
    ResourceSlots {
        voxels: match slots.voxels {
            Some(resource) => Some(resource.updated(resolution)),
            None => None,
        },
        voxels_mesh: match slots.voxels_mesh {
            Some(resource) => Some(resource.updated(resolution)),
            None => None,
        },
        depth_buffer: match slots.depth_buffer {
            Some(resource) => Some(resource.updated(resolution)),
            None => None,
        },
    }
}

/// A type of resource that the store can hold. The type itself is the key:
/// `slot` reads its place in the store and `with_slot` writes it, leaving
/// the places of the other types alone.
pub trait Resource: Sized {
    /// The place of this type in `slots`.
    spec fn slot(slots: ResourceSlots) -> Option<Self>;

    /// `slots` with `value` in the place of this type.
    spec fn with_slot(slots: ResourceSlots, value: Option<Self>) -> ResourceSlots;

    /// The resource as it is after the renderer's resolution became
    /// `resolution`.
    spec fn updated(self, resolution: [u32; 2]) -> Self;

    /// A reference to the resource of this type, if the store holds one.
    fn fetch(manager: &ResourceManager) -> (found: Option<&Self>)
        ensures
            found.is_some() == Self::slot(manager@).is_some(),
            found matches Some(resource) ==> Self::slot(manager@) == Some(*resource),
    ;

    /// A reference through which the resource of this type can be changed
    /// in place, if the store holds one.
    fn fetch_mut(manager: &mut ResourceManager) -> (found: Option<&mut Self>)
        ensures
            found.is_some() == Self::slot(old(manager)@).is_some(),
            found matches Some(resource) ==> Self::slot(old(manager)@) == Some(*resource)
                && final(manager)@ == Self::with_slot(old(manager)@, Some(*final(resource))),
            found.is_none() ==> final(manager)@ == old(manager)@,
    ;

    /// Puts `value` in the place of this type and hands out what was there.
    fn exchange(manager: &mut ResourceManager, value: Option<Self>) -> (old_value: Option<Self>)
        ensures
            old_value == Self::slot(old(manager)@),
            final(manager)@ == Self::with_slot(old(manager)@, value),
    ;

    /// Brings the resource in line with a new resolution of the renderer.
    fn updated_settings(&mut self, resolution: [u32; 2])
        ensures
            *final(self) == old(self).updated(resolution),
    ;
}

/// Keeps at most one resource of each type, keyed by the type.
pub struct ResourceManager {
    voxels: Option<VoxelsResource>,
    voxels_mesh: Option<VoxelsMeshResource>,
    depth_buffer: Option<DepthBufferResource>,
}

impl View for ResourceManager {
    type V = ResourceSlots;

    closed spec fn view(&self) -> ResourceSlots {
        ResourceSlots {
            voxels: self.voxels,
            voxels_mesh: self.voxels_mesh,
            depth_buffer: self.depth_buffer,
        }
    }
}

impl Resource for VoxelsResource {
    open spec fn slot(slots: ResourceSlots) -> Option<Self> {
        slots.voxels
    }

    open spec fn with_slot(slots: ResourceSlots, value: Option<Self>) -> ResourceSlots {
        ResourceSlots { voxels: value, ..slots }
    }

    open spec fn updated(self, resolution: [u32; 2]) -> Self {
        self
    }

    fn fetch(manager: &ResourceManager) -> (found: Option<&Self>) {
        manager.voxels.as_ref()
    }

    fn fetch_mut(manager: &mut ResourceManager) -> (found: Option<&mut Self>) {
        match &mut manager.voxels {
            Some(resource) => Some(resource),
            None => None,
        }
    }

    fn exchange(manager: &mut ResourceManager, value: Option<Self>) -> (old_value: Option<Self>) {
        let old_value = manager.voxels;
        manager.voxels = value;
        old_value
    }

    fn updated_settings(&mut self, resolution: [u32; 2]) {
    }
}

impl Resource for VoxelsMeshResource {
    open spec fn slot(slots: ResourceSlots) -> Option<Self> {
        slots.voxels_mesh
    }

    open spec fn with_slot(slots: ResourceSlots, value: Option<Self>) -> ResourceSlots {
        ResourceSlots { voxels_mesh: value, ..slots }
    }

    open spec fn updated(self, resolution: [u32; 2]) -> Self {
        self
    }

    fn fetch(manager: &ResourceManager) -> (found: Option<&Self>) {
        manager.voxels_mesh.as_ref()
    }

    fn fetch_mut(manager: &mut ResourceManager) -> (found: Option<&mut Self>) {
        match &mut manager.voxels_mesh {
            Some(resource) => Some(resource),
            None => None,
        }
    }

    fn exchange(manager: &mut ResourceManager, value: Option<Self>) -> (old_value: Option<Self>) {
        let old_value = manager.voxels_mesh;
        manager.voxels_mesh = value;
        old_value
    }

    fn updated_settings(&mut self, resolution: [u32; 2]) {
    }
}

impl Resource for DepthBufferResource {
    open spec fn slot(slots: ResourceSlots) -> Option<Self> {
        slots.depth_buffer
    }

    open spec fn with_slot(slots: ResourceSlots, value: Option<Self>) -> ResourceSlots {
        ResourceSlots { depth_buffer: value, ..slots }
    }

    open spec fn updated(self, resolution: [u32; 2]) -> Self {
        DepthBufferResource { depth_buffer: depth_texture(resolution) }
    }

    fn fetch(manager: &ResourceManager) -> (found: Option<&Self>) {
        manager.depth_buffer.as_ref()
    }

    fn fetch_mut(manager: &mut ResourceManager) -> (found: Option<&mut Self>) {
        match &mut manager.depth_buffer {
            Some(resource) => Some(resource),
            None => None,
        }
    }

    fn exchange(manager: &mut ResourceManager, value: Option<Self>) -> (old_value: Option<Self>) {
        let old_value = manager.depth_buffer;
        manager.depth_buffer = value;
        old_value
    }

    /// The depth buffer is made anew at the renderer's resolution.
    fn updated_settings(&mut self, resolution: [u32; 2]) {
        self.depth_buffer = Texture {
            size: Extent3d {
                width: resolution[0],
                height: resolution[1],
                depth_or_array_layers: 1,
            },
        };
    }
}

impl ResourceManager {
    /// A store that holds nothing.
    pub fn new() -> (manager: Self)
        ensures
            manager@ == (ResourceSlots { voxels: None, voxels_mesh: None, depth_buffer: None }),
    {
        ResourceManager { voxels: None, voxels_mesh: None, depth_buffer: None }
    }

    /// The resource of type `T`, if the store holds one.
    pub fn get_resource<T: Resource>(&self) -> (found: Option<&T>)
        ensures
            found.is_some() == T::slot(self@).is_some(),
            found matches Some(resource) ==> T::slot(self@) == Some(*resource),
    {
        T::fetch(self)
    }

    /// The resource of type `T`, to be changed in place, if the store holds
    /// one. Resources of other types stay as they are.
    pub fn get_mut_resource<T: Resource>(&mut self) -> (found: Option<&mut T>)
        ensures
            found.is_some() == T::slot(old(self)@).is_some(),
            found matches Some(resource) ==> T::slot(old(self)@) == Some(*resource)
                && final(self)@ == T::with_slot(old(self)@, Some(*final(resource))),
            found.is_none() ==> final(self)@ == old(self)@,
    {
        T::fetch_mut(self)
    }

    /// Stores `resource` under its type and returns the resource that it
    /// displaced, if there was one.
    pub fn insert_resource<T: Resource>(&mut self, resource: T) -> (displaced: Option<Box<T>>)
        ensures
            final(self)@ == T::with_slot(old(self)@, Some(resource)),
            displaced.is_some() == T::slot(old(self)@).is_some(),
            displaced matches Some(boxed) ==> T::slot(old(self)@) == Some(*boxed),
    {
        match T::exchange(self, Some(resource)) {
            Some(previous) => Some(Box::new(previous)),
            None => None,
        }
    }

    /// Takes the resource of type `T` out of the store, boxed.
    pub fn remove_box<T: Resource>(&mut self) -> (removed: Option<Box<T>>)
        ensures
            final(self)@ == T::with_slot(old(self)@, None),
            removed.is_some() == T::slot(old(self)@).is_some(),
            removed matches Some(boxed) ==> T::slot(old(self)@) == Some(*boxed),
    {
        match T::exchange(self, None) {
            Some(previous) => Some(Box::new(previous)),
            None => None,
        }
    }

    /// Tells every resource in the store that the renderer's resolution is
    /// `resolution` now. What the store holds of each type stays in place.
    pub fn updated_settings(&mut self, resolution: [u32; 2])
        ensures
            final(self)@ == updated_slots(old(self)@, resolution),
    {
        match self.voxels {
            Some(mut resource) => {
                resource.updated_settings(resolution);
                self.voxels = Some(resource);
            },
            None => {},
        }
        match self.voxels_mesh {
            Some(mut resource) => {
                resource.updated_settings(resolution);
                self.voxels_mesh = Some(resource);
            },
            None => {},
        }
        match self.depth_buffer {
            Some(mut resource) => {
                resource.updated_settings(resolution);
                self.depth_buffer = Some(resource);
            },
            None => {},
        }
    }

    /// Takes the resource of type `T` out of the store.
    pub fn remove<T: Resource + Copy>(&mut self) -> (removed: Option<T>)
        ensures
            final(self)@ == T::with_slot(old(self)@, None),
            removed == T::slot(old(self)@),
    {
        T::exchange(self, None)
    }
}

} // verus!
