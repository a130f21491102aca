//! Cameras: handles into the renderer's camera table, and the resolution a
//! camera renders at.

use vstd::prelude::*;
use crate::mesh::{Extent3d, Id, Texture};
use crate::renderer::Renderer;
use crate::resources::depth_texture;

verus! {

/// The resolution that a camera renders at.
#[derive(Clone, Copy, Debug)]
pub enum Resolution {
    /// Whatever the renderer's surface has.
    UseGlobalResolution,
    /// A width and a height of the camera's own.
    Custom([u32; 2]),
}

/// What the renderer keeps of a camera.
#[derive(Clone, Copy, Debug)]
pub struct InternalCamera {
    pub resolution: Resolution,
    /// Set when the camera changed since its matrix was last uploaded.
    pub dirty: bool,
}

/// The resolution that a camera set to `resolution` renders at when the
/// renderer's surface has `global`.
pub open spec fn effective_resolution(resolution: Resolution, global: [u32; 2]) -> [u32; 2] {
    match resolution {
        Resolution::Custom(custom) => custom,
        Resolution::UseGlobalResolution => global,
    }
}

/// A handle to one camera of a renderer.
pub struct Camera {
    id: Id,
}

impl Camera {
    /// The identifier under which the renderer keeps the camera.
    pub closed spec fn id(&self) -> Id {
        self.id
    }

    /// A handle to the camera `id`.
    pub fn new(id: Id) -> (camera: Self)
        ensures
            camera.id() == id,
    {
        Camera { id }
    }

    /// The identifier under which the renderer keeps the camera.
    pub fn get_id(&self) -> (id: Id)
        ensures
            id == self.id(),
    {
        self.id
    }

    /// The width and height that the camera renders at: its own where it has
    /// a custom resolution, else the renderer's.
    pub fn get_resolution(&self, renderer: &Renderer) -> (size: [u32; 2])
        requires
            renderer.cameras().contains_key(self.id()),
        ensures
            size == effective_resolution(
                renderer.cameras()[self.id()].resolution,
                renderer.resolution(),
            ),
    {
        let inner = renderer.camera(self.id).unwrap();
        match inner.resolution {
            Resolution::Custom(res) => res,
            Resolution::UseGlobalResolution => renderer.get_resolution(),
        }
    }

    /// The depth texture that fits the camera: as wide and high as the
    /// camera renders, one layer deep.
    pub fn new_depth_buffer(&self, renderer: &Renderer) -> (texture: Texture)
        requires
            renderer.cameras().contains_key(self.id()),
        ensures
            texture == depth_texture(
                effective_resolution(
                    renderer.cameras()[self.id()].resolution,
                    renderer.resolution(),
                ),
            ),
    {
        let res = self.get_resolution(renderer);
        Texture { size: Extent3d { width: res[0], height: res[1], depth_or_array_layers: 1 } }
    }

    /// The resolution setting of the camera.
    pub fn resolution(&self, renderer: &Renderer) -> (resolution: Resolution)
        requires
            renderer.cameras().contains_key(self.id()),
        ensures
            resolution == renderer.cameras()[self.id()].resolution,
    {
        renderer.camera(self.id).unwrap().resolution
    }

    /// Sets the resolution of the camera and marks the camera as changed.
    /// Nothing else in the renderer changes.
    pub fn set_resolution(&self, renderer: &mut Renderer, resolution: Resolution)
        requires
            old(renderer).cameras().contains_key(self.id()),
        ensures
            final(renderer).cameras() == old(renderer).cameras().insert(
                self.id(),
                InternalCamera { resolution, dirty: true },
            ),
            final(renderer).same_but_cameras(*old(renderer)),
    {
        renderer.set_camera(self.id, InternalCamera { resolution, dirty: true });
    }
}

} // verus!
