//! The frame: passes run against it in order, their command buffers are
//! collected, and at its end everything is submitted and the surface image is
//! presented once.

use vstd::prelude::*;
use crate::camera::{effective_resolution, Camera};
use crate::mesh::{Id, Texture};
use crate::renderer::Renderer;
use crate::resources::{depth_texture, DepthBufferResource, ResourceSlots};

pub mod voxelization;

pub use self::voxelization::{MaterialData, MeshData};

verus! {

/// What the end of a frame hands to the queue.
pub struct Frame<B> {
    /// The command buffers to submit, in the order in which the passes ran.
    pub command_buffers: Vec<B>,
    /// Whether a surface image was acquired in this frame and has to be
    /// presented.
    pub present: bool,
}

/// Collects the command buffers that the passes of one frame produce. `B` is
/// the type of a recorded command buffer.
pub struct CommandEncoder<B> {
    camera: Option<Id>,
    encoders: Vec<B>,
    surface: bool,
}

impl<B> CommandEncoder<B> {
    /// The camera that the frame is rendered from.
    pub closed spec fn camera(&self) -> Option<Id> {
        self.camera
    }

    /// The command buffers collected so far, oldest first.
    pub closed spec fn recorded(&self) -> Seq<B> {
        self.encoders@
    }

    /// Whether the frame has acquired its surface image.
    pub closed spec fn surface_acquired(&self) -> bool {
        self.surface
    }

    /// A frame for `camera` in which no pass has run yet.
    pub fn new(camera: Option<Id>) -> (encoder: Self)
        ensures
            encoder.camera() == camera,
            encoder.recorded() == Seq::<B>::empty(),
            !encoder.surface_acquired(),
    {
        CommandEncoder { camera, encoders: Vec::new(), surface: false }
    }

    /// The camera that the frame is rendered from.
    pub fn get_camera(&self) -> (camera: Option<Id>)
        ensures
            camera == self.camera(),
    {
        self.camera
    }

    /// Notes that a pass needs the surface image of this frame. Returns
    /// `true` when the image has not been acquired yet, so that the caller
    /// acquires it now; later requests in the same frame share it.
    pub fn get_surface_texture_view(&mut self) -> (acquire: bool)
        ensures
            acquire == !old(self).surface_acquired(),
            final(self).surface_acquired(),
            final(self).camera() == old(self).camera(),
            final(self).recorded() == old(self).recorded(),
    {
        let acquire = !self.surface;
        self.surface = true;
        acquire
    }

    /// Whether the frame has a camera that `renderer` knows.
    pub open spec fn has_camera(&self, renderer: &Renderer) -> bool {
        self.camera() matches Some(id) && renderer.cameras().contains_key(id)
    }

    /// The depth texture that fits the frame's camera.
    pub open spec fn camera_depth_texture(&self, renderer: &Renderer) -> Texture {
        depth_texture(
            effective_resolution(
                renderer.cameras()[self.camera().unwrap()].resolution,
                renderer.resolution(),
            ),
        )
    }

    /// The depth buffer that the frame renders with. If the shared resources
    /// hold one, it is used as it is. Otherwise one that fits the frame's
    /// camera is to be created, and it is kept among the shared resources
    /// for the passes and frames that follow. Returns the texture, and
    /// whether it has to be created.
    pub fn depth_buffer(&self, renderer: &mut Renderer) -> (found: (Texture, bool))
        requires
            old(renderer).resources().depth_buffer.is_none() ==> self.has_camera(old(renderer)),
        ensures
            found.1 == old(renderer).resources().depth_buffer.is_none(),
            found.0 == (match old(renderer).resources().depth_buffer {
                Some(resource) => resource.depth_buffer,
                None => self.camera_depth_texture(old(renderer)),
            }),
            final(renderer).resources() == (ResourceSlots {
                depth_buffer: Some(DepthBufferResource { depth_buffer: found.0 }),
                ..old(renderer).resources()
            }),
            final(renderer).resolution() == old(renderer).resolution(),
            final(renderer).dirty_settings() == old(renderer).dirty_settings(),
            final(renderer).cameras() == old(renderer).cameras(),
            final(renderer).next_id() == old(renderer).next_id(),
    {
        let existing = match renderer.get_resource_manager().get_resource::<DepthBufferResource>() {
            Some(resource) => Some(resource.depth_buffer),
            None => None,
        };
        match existing {
            Some(texture) => (texture, false),
            None => {
                let camera = Camera::new(self.camera.unwrap());
                let texture = camera.new_depth_buffer(renderer);
                let _ = renderer.insert_resource(DepthBufferResource { depth_buffer: texture });
                (texture, true)
            },
        }
    }

    /// Takes what a pass produced: a command buffer is appended behind those
    /// of the earlier passes, and a pass that produced none leaves the frame
    /// as it was.
    pub fn begin_pass(&mut self, bundle: Option<B>)
        ensures
            final(self).recorded() == (match bundle {
                Some(buffer) => old(self).recorded().push(buffer),
                None => old(self).recorded(),
            }),
            final(self).camera() == old(self).camera(),
            final(self).surface_acquired() == old(self).surface_acquired(),
    {
        match bundle {
            Some(buffer) => {
                self.encoders.push(buffer);
            },
            None => {},
        }
    }

    /// Ends the frame: every command buffer is handed on in the order in
    /// which it was recorded, and the surface image is presented exactly when
    /// one was acquired.
    pub fn finish(self) -> (frame: Frame<B>)
        ensures
            frame.command_buffers@ == self.recorded(),
            frame.present == self.surface_acquired(),
    {
        Frame { command_buffers: self.encoders, present: self.surface }
    }
}

} // verus!
