//! The scene: what one frame writes and draws.

use vstd::prelude::*;
use crate::effect::Shader;
use crate::geometry::{update_vertex_data, vertex_bytes, vertices_layout};
use crate::geometry::{QuadBounds, QUAD_VERTEX_COUNT, VERTEX_BUFFER_SIZE};
use crate::parameters::{Parameters, PARAMETER_BLOCK_SIZE};
use crate::pipeline::{PARAMETER_SLOT, QUAD_SLOT, TEXTURE_SLOT};
use crate::texture::{cached, load_step, read_bytes};
use crate::texture::{CachedImage, LoadError, RawImage, TextureCache, TextureUpload};

verus! {

/// One of the two bind groups of the pipeline.
#[derive(Debug, Clone, Copy, PartialEq, Eq, Structural)]
pub enum BindGroup {
    /// The live texture and its sampler.
    Texture,
    /// The uniform buffer with the parameter block.
    Parameters,
}

/// One command of the render pass.
#[derive(Debug, Clone, Copy, PartialEq, Eq, Structural)]
pub enum PassCommand {
    SetPipeline,
    SetBindGroup { slot: u32, group: BindGroup },
    /// Binds the whole vertex buffer.
    SetVertexBuffer { slot: u32 },
    Draw { first_vertex: u32, vertex_count: u32, first_instance: u32, instance_count: u32 },
}

/// What the host does for one frame, in this order: overwrite the vertex buffer from
/// its start with `vertex_data`, overwrite the uniform buffer from its start with
/// `parameter_data`, then record `pass` into the render pass.
#[derive(Debug, PartialEq, Eq)]
pub struct Frame {
    pub vertex_data: Vec<u8>,
    pub parameter_data: Vec<u8>,
    pub pass: Vec<PassCommand>,
}

/// Why no frame was drawn.
#[derive(Debug, Clone, Copy, PartialEq, Eq, Structural)]
pub enum RenderError {
    /// No image has been loaded yet, so there is no texture to draw.
    ResourceNotInitialized,
}

/// The commands of every frame: one draw of the quad, once, with the texture at its
/// slot and the parameter block at its own.
pub open spec fn render_pass() -> Seq<PassCommand> {
    seq![
        PassCommand::SetPipeline,
        PassCommand::SetBindGroup { slot: TEXTURE_SLOT, group: BindGroup::Texture },
        PassCommand::SetBindGroup { slot: PARAMETER_SLOT, group: BindGroup::Parameters },
        PassCommand::SetVertexBuffer { slot: QUAD_SLOT },
        PassCommand::Draw {
            first_vertex: 0,
            vertex_count: QUAD_VERTEX_COUNT as u32,
            first_instance: 0,
            instance_count: 1,
        },
    ]
}

/// The state behind the frames: the effect the scene was opened with, and which image
/// is live.
pub struct Scene {
    shader: Shader,
    texture: TextureCache,
}

impl Scene {
    /// The effect the scene was opened with.
    pub closed spec fn shader(&self) -> Shader {
        self.shader
    }

    /// The image whose texture is live, if there is one.
    pub closed spec fn image(&self) -> Option<CachedImage> {
        self.texture@
    }

    /// Whether the live texture was loaded from `image_file`.
    pub open spec fn shows(&self, image_file: Seq<char>) -> bool {
        cached(self.image(), image_file)
    }

    /// Returns the effect the scene was opened with.
    pub fn effect(&self) -> (shader: Shader)
        ensures
            shader == self.shader(),
    {
        self.shader
    }

    /// Opens a scene for `shader`. No image is live until the first one is loaded.
    pub fn new(shader: Option<Shader>) -> (scene: Scene)
        requires
            shader is Some,
        ensures
            scene.shader() == shader->0,
            scene.image() is None,
    {
        Scene { shader: shader.unwrap(), texture: TextureCache::new() }
    }

    /// Tells whether the image at `image_file` has to be read before the next frame.
    pub fn needs_image(&self, image_file: &str) -> (needed: bool)
        ensures
            needed == !self.shows(image_file@),
    {
        !self.texture.is_cached(image_file)
    }

    /// Width and height of the live image, both at least one.
    pub fn image_size(&self) -> (size: Option<(u32, u32)>)
        ensures
            match size {
                Some((width, height)) => self.image() matches Some(image) && image.width
                    == width && image.height == height && width >= 1 && height >= 1,
                None => self.image() is None,
            },
    {
        self.texture.image_size()
    }

    /// Makes `image`, decoded from `image_file`, the live image and returns the upload
    /// from which the host rebuilds the texture bind group.
    ///
    /// An image that cannot be uploaded is refused, and the live image stays.
    pub fn update_texture_bind_group(
        &mut self,
        image_file: &str,
        image: RawImage,
    ) -> (outcome: Result<TextureUpload, LoadError>)
        ensures
            final(self).shader() == old(self).shader(),
            match outcome {
                Ok(upload) => {
                    &&& image.uploadable()
                    &&& upload.describes(&image)
                    &&& final(self).image() == Some(
                        CachedImage { path: image_file@, width: image.width, height: image.height },
                    )
                },
                Err(error) => {
                    &&& !image.uploadable()
                    &&& error == LoadError::DecodeFailed
                    &&& final(self).image() == old(self).image()
                },
            },
    {
        self.texture.replace(image_file, image)
    }

    /// First step of a frame: makes sure that the live image is the one at `image_file`.
    ///
    /// `content` is what the host read from that file, or `None` where it could not be
    /// read. It is looked at only if `needs_image` holds of `image_file`: an image that
    /// is live is neither read nor decoded again. Content that the decoder has no room
    /// for is answered with `DecodeFailed`.
    pub fn ensure_loaded(
        &mut self,
        image_file: &str,
        content: Option<&[u8]>,
    ) -> (outcome: Result<Option<TextureUpload>, LoadError>)
        ensures
            final(self).shader() == old(self).shader(),
            load_step(
                old(self).image(),
                image_file@,
                read_bytes(content),
                outcome,
                final(self).image(),
            ),
    {
        self.texture.ensure_loaded(image_file, content)
    }

    /// The remaining steps of a frame: the quad with the given edges, the parameter
    /// block, and one draw.
    ///
    /// Fails, and draws nothing, as long as no image is live. Which effect `params`
    /// selects changes the bytes of the parameter block and nothing else.
    pub fn draw(
        &self,
        bounds: &QuadBounds,
        params: &Parameters,
    ) -> (frame: Result<Frame, RenderError>)
        ensures
            match frame {
                Ok(frame) => {
                    &&& self.image() is Some
                    &&& frame.vertex_data@ == vertices_layout(bounds.vertices())
                    &&& frame.vertex_data@.len() == VERTEX_BUFFER_SIZE
                    &&& frame.parameter_data@ == params.layout()
                    &&& frame.parameter_data@.len() == PARAMETER_BLOCK_SIZE
                    &&& frame.pass@ == render_pass()
                },
                Err(error) => self.image() is None && error == RenderError::ResourceNotInitialized,
            },
    {
        if self.texture.image_size().is_none() {
            return Err(RenderError::ResourceNotInitialized);
        }
        let vertices = update_vertex_data(bounds);
        let mut pass: Vec<PassCommand> = Vec::new();
        pass.push(PassCommand::SetPipeline);
        pass.push(PassCommand::SetBindGroup { slot: TEXTURE_SLOT, group: BindGroup::Texture });
        pass.push(
            PassCommand::SetBindGroup { slot: PARAMETER_SLOT, group: BindGroup::Parameters },
        );
        pass.push(PassCommand::SetVertexBuffer { slot: QUAD_SLOT });
        pass.push(
            PassCommand::Draw {
                first_vertex: 0,
                vertex_count: QUAD_VERTEX_COUNT as u32,
                first_instance: 0,
                instance_count: 1,
            },
        );
        assert(pass@ =~= render_pass());
        Ok(
            Frame {
                vertex_data: vertex_bytes(vertices.as_slice()),
                parameter_data: params.to_bytes(),
                pass,
            },
        )
    }
}

} // verus!
