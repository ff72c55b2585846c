//! What the renderer asks of a GPU backend.

use vstd::prelude::*;
use image::DynamicImage;
use crate::command::{Command, CommandView};
use crate::geometry::{Color, Vertex};
use crate::scalar::Scalar;
use crate::texture::{ImageFlags, ImageId, TextureType};

verus! {

/// A device that holds textures and draws frames.
///
/// The renderer is written against this trait alone, and assumes nothing
/// of an implementation: whatever a backend answers, the renderer's
/// contracts hold. What a backend owes its users is said in words with
/// each method.
pub trait GpuRendererBackend {
    /// Fills a rectangle of the target with one colour.
    fn clear_rect(&mut self, x: u32, y: u32, width: u32, height: u32, color: Color);

    /// Sets the size of the target, in pixels, and its resolution.
    fn set_size(&mut self, width: u32, height: u32, dpi: Scalar);

    /// Draws `commands` over the vertices `verts`.
    ///
    /// The commands are drawn in their order, since a later command may
    /// rely on what an earlier one left in the stencil buffer, and each as
    /// its [`Flavor`](crate::command::Flavor) says: where a flavor has two
    /// passes, the first is complete before the second begins. A command
    /// without drawables and without triangles draws nothing. Neither slice
    /// is kept beyond the call; every span of a command names vertices of
    /// `verts`.
    fn render(&mut self, verts: &[Vertex], commands: &[Command]);

    /// Creates a texture and returns its handle.
    fn create_texture(
        &mut self,
        texture_type: TextureType,
        width: u32,
        height: u32,
        flags: ImageFlags,
    ) -> ImageId;

    /// Replaces the rectangle at `(x, y)` of size `w` by `h` of the texture
    /// `id` with pixels of `image`.
    fn update_texture(&mut self, id: ImageId, image: &DynamicImage, x: u32, y: u32, w: u32, h: u32);

    /// Deletes the texture `id`.
    fn delete_texture(&mut self, id: ImageId);

    /// The flags of the texture `id`.
    fn texture_flags(&self, id: ImageId) -> ImageFlags;

    /// The size of the texture `id`, as width and height.
    fn texture_size(&self, id: ImageId) -> (u32, u32);

    /// The pixel layout of the texture `id`; `None` if there is no such
    /// texture, be it that none was created under that handle or that it
    /// was deleted.
    fn texture_type(&self, id: ImageId) -> Option<TextureType>;
}

/// One request that a renderer has made of its backend, with what was
/// handed over.
pub enum Request {
    ClearRect { x: u32, y: u32, width: u32, height: u32, color: Color },
    SetSize { width: u32, height: u32, dpi: Scalar },
    Render { verts: Seq<Vertex>, commands: Seq<CommandView> },
    CreateTexture {
        texture_type: TextureType,
        width: u32,
        height: u32,
        flags: ImageFlags,
        created: ImageId,
    },
    UpdateTexture { id: ImageId, image: DynamicImage, x: u32, y: u32, w: u32, h: u32 },
    DeleteTexture { id: ImageId },
}

} // verus!
