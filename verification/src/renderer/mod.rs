//! The renderer's state and the decisions it takes.
//!
//! The renderer owns no GPU object. It keeps what the decisions depend on (the
//! surface size and configuration, the clear color, the texture that is bound)
//! and answers every operation with a description of what is to be done on the
//! device: a configuration to apply, a bind group to build, a frame to record.

pub mod bind_group;
pub mod pipeline;

use vstd::prelude::*;
use image::DynamicImage;
use crate::geo::{
    encodes_indices, index_bytes, quad_indices, quad_vertices, spec_quad_indices,
    spec_quad_vertices, Vertex, QUAD_INDEX_COUNT, QUAD_VERTEX_COUNT, VERTEX_STRIDE,
};
use crate::gpu::{
    BufferInitDescriptor, BufferUsages, Color, CompositeAlphaMode, Extent3d, IndexFormat,
    PhysicalSize, PresentMode, Rgb, SurfaceConfiguration, TextureUsages, CHANNEL_ONE,
};
use crate::gpu::BindGroupEntry;
use crate::renderer::bind_group::{
    binds_decoded_texture, binds_texture, binds_uniform_buffer,
    create_bind_group_for_image_texture, create_bind_group_for_uniform_buffer, fills_layout,
    is_texture_layout, is_uniform_layout, lemma_texture_group_consistent,
    lemma_uniform_group_consistent, spec_texture_group_entries, spec_uniform_group_entries,
    texture_bind_group_layout, uniform_buffer_bind_group_layout, BindGroupLayoutDescriptor,
    BindGroupWithLayout, TextureBindGroup,
};
use crate::renderer::pipeline::{
    create_render_pipeline_for_shader_at_path, describes_pipeline, CreateRenderPipelineArgs,
    RenderPipelineDescriptor,
};
use crate::texture::{acceptable, texture_size, ImageTexture, TextureError};

verus! {

/// Number of bytes of the camera uniform: a 4x4 matrix of 32-bit floats.
pub const CAMERA_UNIFORM_SIZE: u64 = 64;

/// Why a surface did not hand out its next image.
#[derive(Clone, Copy, Debug, PartialEq, Eq, Structural)]
pub enum SurfaceError {
    Timeout,
    Outdated,
    Lost,
    OutOfMemory,
}

/// Why a renderer could not be constructed.
#[derive(Clone, Copy, Debug, PartialEq, Eq, Structural)]
pub enum RendererError {
    /// Adapter, device or surface could not be negotiated.
    StartupFailure,
    /// The shader source was rejected.
    ShaderCompile,
    /// The startup texture could not be loaded.
    Texture(TextureError),
}

/// A step of construction that only the device can take, and that failed.
#[derive(Clone, Copy, Debug, PartialEq, Eq, Structural)]
pub enum DeviceFailure {
    NoAdapter,
    NoDevice,
    ShaderRejected,
}

/// A bind group of the renderer, named by what it binds.
#[derive(Clone, Copy, Debug, PartialEq, Eq, Structural)]
pub enum BoundGroup {
    /// The diffuse texture of the given extent, with its sampler.
    Diffuse { texture_size: Extent3d },
    /// The camera uniform.
    Camera,
}

/// One command of a render pass.
#[derive(Clone, Copy, Debug, PartialEq, Eq, Structural)]
pub enum RenderCommand {
    SetPipeline,
    SetBindGroup { index: u32, group: BoundGroup },
    /// Binds the whole vertex buffer to `slot`.
    SetVertexBuffer { slot: u32 },
    /// Binds the whole index buffer.
    SetIndexBuffer { format: IndexFormat },
    /// Draws the indices `first_index..end_index` for the instances
    /// `first_instance..end_instance`.
    DrawIndexed {
        first_index: u32,
        end_index: u32,
        base_vertex: i32,
        first_instance: u32,
        end_instance: u32,
    },
}

/// What happens to an attachment when a pass begins.
#[derive(Clone, Copy, Debug, PartialEq, Eq, Structural)]
pub enum LoadOp {
    Clear(Color),
    Load,
}

/// One frame: a single render pass on the acquired surface image, to be recorded,
/// submitted and presented.
#[derive(Clone, Debug, PartialEq, Eq)]
pub struct Frame {
    pub encoder_label: &'static str,
    pub pass_label: &'static str,
    /// What the pass does to the color target when it begins.
    pub load: LoadOp,
    /// Whether the pass keeps what it drew.
    pub store: bool,
    /// Whether the pass has a depth-stencil attachment.
    pub depth_stencil: bool,
    pub commands: Vec<RenderCommand>,
}

/// Everything to create on the device when the renderer starts, in this order.
#[derive(Clone, Debug, PartialEq, Eq)]
pub struct Startup<F> {
    pub surface: SurfaceConfiguration<F>,
    pub texture_bind_group: TextureBindGroup,
    pub camera_buffer: BufferInitDescriptor,
    pub camera_bind_group: BindGroupWithLayout,
    pub pipeline: RenderPipelineDescriptor<F>,
    pub vertex_buffer: BufferInitDescriptor,
    pub vertices: Vec<Vertex>,
    pub index_buffer: BufferInitDescriptor,
    pub index_data: Vec<u8>,
}

/// What a renderer knows.
#[derive(Clone, Copy, Debug, PartialEq, Eq)]
pub struct RendererState<F> {
    pub size: PhysicalSize,
    pub config: SurfaceConfiguration<F>,
    /// Number of indices that a frame draws.
    pub indices: u32,
    /// Extent of the texture in the diffuse bind group.
    pub diffuse_texture: Extent3d,
    pub background_color: Color,
}

/// The renderer of the textured quad.
#[derive(Debug)]
pub struct Renderer<F> {
    state: RendererState<F>,
}

impl<F: Copy> Clone for Renderer<F> {
    fn clone(&self) -> (r: Self)
        ensures
            r == *self,
    {
        *self
    }
}

impl<F: Copy> Copy for Renderer<F> {

}

/// The color that a new renderer clears to: (0.1, 0.2, 0.3), opaque.
pub open spec fn spec_initial_background() -> Color {
    Color {
        r: 0x3FB9_9999_9999_999A,
        g: 0x3FC9_9999_9999_999A,
        b: 0x3FD3_3333_3333_3333,
        a: CHANNEL_ONE,
    }
}

/// The surface is a render attachment of the given size and format, presented
/// in step with the display and composited as the platform prefers.
pub open spec fn spec_surface_config<F>(size: PhysicalSize, format: F) -> SurfaceConfiguration<F> {
    SurfaceConfiguration {
        usage: TextureUsages {
            copy_src: false,
            copy_dst: false,
            texture_binding: false,
            storage_binding: false,
            render_attachment: true,
        },
        format,
        width: size.width,
        height: size.height,
        present_mode: PresentMode::Fifo,
        alpha_mode: CompositeAlphaMode::Auto,
    }
}

/// The buffer of the camera uniform: written by copies, read as a uniform.
pub open spec fn spec_camera_buffer() -> BufferInitDescriptor {
    BufferInitDescriptor {
        label: "Uniform Buffer",
        size: CAMERA_UNIFORM_SIZE,
        usage: BufferUsages { uniform: true, copy_dst: true, ..BufferUsages::spec_none() },
    }
}

/// The buffer of the quad's vertices.
pub open spec fn spec_vertex_buffer() -> BufferInitDescriptor {
    BufferInitDescriptor {
        label: "Vertex Buffer",
        size: (QUAD_VERTEX_COUNT * VERTEX_STRIDE) as u64,
        usage: BufferUsages { vertex: true, ..BufferUsages::spec_none() },
    }
}

/// The buffer of the quad's indices, two bytes each.
pub open spec fn spec_index_buffer() -> BufferInitDescriptor {
    BufferInitDescriptor {
        label: "Index Buffer",
        size: (QUAD_INDEX_COUNT * 2) as u64,
        usage: BufferUsages { index: true, ..BufferUsages::spec_none() },
    }
}

impl RendererError {
    /// The construction error that a failed device step amounts to: a missing
    /// adapter or device is a startup failure, a rejected shader its own kind.
    pub open spec fn spec_from_device(failure: DeviceFailure) -> RendererError {
        match failure {
            DeviceFailure::NoAdapter | DeviceFailure::NoDevice => RendererError::StartupFailure,
            DeviceFailure::ShaderRejected => RendererError::ShaderCompile,
        }
    }

    #[verifier::when_used_as_spec(spec_from_device)]
    pub fn from_device(failure: DeviceFailure) -> (r: RendererError)
        ensures
            r == Self::spec_from_device(failure),
    {
        match failure {
            DeviceFailure::NoAdapter => RendererError::StartupFailure,
            DeviceFailure::NoDevice => RendererError::StartupFailure,
            DeviceFailure::ShaderRejected => RendererError::ShaderCompile,
        }
    }
}

impl<F> RendererState<F> {
    /// Size and surface configuration agree, a frame draws the whole quad, and
    /// the clear color is opaque.
    pub open spec fn consistent(self) -> bool {
        &&& self.config.width == self.size.width
        &&& self.config.height == self.size.height
        &&& self.indices == QUAD_INDEX_COUNT
        &&& self.background_color.a == CHANNEL_ONE
    }

    /// The state of a new renderer.
    pub open spec fn initial(size: PhysicalSize, format: F, diffuse_texture: Extent3d) -> Self {
        RendererState {
            size,
            config: spec_surface_config(size, format),
            indices: QUAD_INDEX_COUNT as u32,
            diffuse_texture,
            background_color: spec_initial_background(),
        }
    }

    /// A size with a zero side is ignored; any other becomes the size of the
    /// renderer and of its surface.
    pub open spec fn resize(self, size: PhysicalSize) -> Self {
        if size.width == 0 || size.height == 0 {
            self
        } else {
            RendererState {
                size,
                config: SurfaceConfiguration { width: size.width, height: size.height, ..self.config },
                ..self
            }
        }
    }

    /// The clear color becomes `color`, opaque.
    pub open spec fn set_background_color(self, color: Rgb) -> Self {
        RendererState { background_color: color.spec_opaque(), ..self }
    }

    /// The diffuse bind group becomes one for a texture of the extent `texture_size`.
    pub open spec fn bind_texture(self, texture_size: Extent3d) -> Self {
        RendererState { diffuse_texture: texture_size, ..self }
    }

    /// The commands of a frame: the pipeline, the diffuse bind group at index 0
    /// and the camera's at index 1, the vertex buffer in slot 0, the index buffer
    /// as 16-bit indices, and one indexed draw of all indices for one instance.
    pub open spec fn commands(self) -> Seq<RenderCommand> {
        seq![
            RenderCommand::SetPipeline,
            RenderCommand::SetBindGroup {
                index: 0,
                group: BoundGroup::Diffuse { texture_size: self.diffuse_texture },
            },
            RenderCommand::SetBindGroup { index: 1, group: BoundGroup::Camera },
            RenderCommand::SetVertexBuffer { slot: 0 },
            RenderCommand::SetIndexBuffer { format: IndexFormat::Uint16 },
            RenderCommand::DrawIndexed {
                first_index: 0,
                end_index: self.indices,
                base_vertex: 0,
                first_instance: 0,
                end_instance: 1,
            },
        ]
    }

    /// `frame` is the frame of a renderer in this state: one pass that clears the
    /// color target to the background color, keeps what it draws, has no
    /// depth-stencil attachment, and runs `commands`.
    pub open spec fn draws(self, frame: Frame) -> bool {
        &&& frame.encoder_label == "Render Encoder"
        &&& frame.pass_label == "Render Pass"
        &&& frame.load == LoadOp::Clear(self.background_color)
        &&& frame.store
        &&& !frame.depth_stencil
        &&& frame.commands@ == self.commands()
    }

    /// `startup` is what a renderer in this state, made for a texture from `image`
    /// and the shader text `shader_source`, creates on the device.
    pub open spec fn starts(
        self,
        startup: Startup<F>,
        image: DynamicImage,
        shader_source: Seq<char>,
    ) -> bool {
        &&& startup.surface == self.config
        &&& binds_texture(startup.texture_bind_group, image)
        &&& startup.camera_buffer == spec_camera_buffer()
        &&& binds_uniform_buffer(startup.camera_bind_group)
        &&& describes_pipeline(
            startup.pipeline,
            shader_source,
            startup.pipeline.layout.bind_group_layouts,
            self.config.format,
        )
        &&& startup.pipeline.layout.bind_group_layouts@.len() == 2
        &&& is_texture_layout(startup.pipeline.layout.bind_group_layouts@[0])
        &&& is_uniform_layout(startup.pipeline.layout.bind_group_layouts@[1])
        &&& startup.vertex_buffer == spec_vertex_buffer()
        &&& startup.vertices@ == spec_quad_vertices()
        &&& startup.index_buffer == spec_index_buffer()
        &&& encodes_indices(startup.index_data@, spec_quad_indices())
    }

    /// `startup` is what a renderer in this state creates on the device, for the
    /// shader text `shader_source` and a texture from some acceptable image.
    pub open spec fn starts_decoded(self, startup: Startup<F>, shader_source: Seq<char>) -> bool {
        exists|image: DynamicImage|
            acceptable(image) && #[trigger] self.starts(startup, image, shader_source)
    }
}

/// A resize to a size without a zero side makes that size the renderer's, and the
/// surface configuration's width and height match it.
pub proof fn lemma_resize_takes_size<F>(state: RendererState<F>, size: PhysicalSize)
    requires
        size.width != 0,
        size.height != 0,
    ensures
        state.resize(size).size == size,
        state.resize(size).config.width == size.width,
        state.resize(size).config.height == size.height,
{
}

/// A resize to a size with a zero side changes nothing.
pub proof fn lemma_resize_ignores_zero<F>(state: RendererState<F>, size: PhysicalSize)
    requires
        size.width == 0 || size.height == 0,
    ensures
        state.resize(size) == state,
{
}

/// A resize touches nothing but the size and the surface's width and height, and
/// a second resize to the same size changes nothing more.
pub proof fn lemma_resize_confined<F>(state: RendererState<F>, size: PhysicalSize)
    ensures
        state.resize(size).config.format == state.config.format,
        state.resize(size).config.usage == state.config.usage,
        state.resize(size).config.present_mode == state.config.present_mode,
        state.resize(size).config.alpha_mode == state.config.alpha_mode,
        state.resize(size).indices == state.indices,
        state.resize(size).diffuse_texture == state.diffuse_texture,
        state.resize(size).background_color == state.background_color,
        state.resize(size).resize(size) == state.resize(size),
{
}

/// Size and surface configuration agree in a new renderer and keep agreeing under
/// every operation.
pub proof fn lemma_consistency_kept<F>(
    state: RendererState<F>,
    size: PhysicalSize,
    color: Rgb,
    texture_size: Extent3d,
    format: F,
)
    ensures
        RendererState::initial(size, format, texture_size).consistent(),
        state.consistent() ==> state.resize(size).consistent(),
        state.consistent() ==> state.set_background_color(color).consistent(),
        state.consistent() ==> state.bind_texture(texture_size).consistent(),
{
}

/// Once a background color is set, frames clear to it, opaque. Setting it again
/// changes nothing more, and neither a resize nor a texture swap changes it.
pub proof fn lemma_background_color_lasts<F>(
    state: RendererState<F>,
    color: Rgb,
    frame: Frame,
    size: PhysicalSize,
    texture_size: Extent3d,
)
    ensures
        state.set_background_color(color).draws(frame) ==> frame.load == LoadOp::Clear(
            color.spec_opaque(),
        ),
        state.set_background_color(color).set_background_color(color)
            == state.set_background_color(color),
        state.set_background_color(color).resize(size).background_color == color.spec_opaque(),
        state.set_background_color(color).bind_texture(texture_size).background_color
            == color.spec_opaque(),
{
}

/// After a texture swap, frames bind a diffuse group of the new texture's extent
/// at index 0, and nothing else about the renderer has changed.
pub proof fn lemma_texture_swap_shows<F>(state: RendererState<F>, texture_size: Extent3d)
    ensures
        state.bind_texture(texture_size).commands()[1] == (RenderCommand::SetBindGroup {
            index: 0,
            group: BoundGroup::Diffuse { texture_size },
        }),
        state.bind_texture(texture_size).size == state.size,
        state.bind_texture(texture_size).config == state.config,
        state.bind_texture(texture_size).indices == state.indices,
        state.bind_texture(texture_size).background_color == state.background_color,
{
}

/// The resources that a bind group of the renderer holds.
pub open spec fn group_entries(group: BoundGroup) -> Seq<BindGroupEntry> {
    match group {
        BoundGroup::Diffuse { texture_size } => spec_texture_group_entries(texture_size),
        BoundGroup::Camera => spec_uniform_group_entries(),
    }
}

/// Every bind group that a frame sets fills the layout that the pipeline holds at
/// the same index: the diffuse texture at 0, the camera uniform at 1.
pub proof fn lemma_bind_groups_match_pipeline<F>(
    state: RendererState<F>,
    startup: Startup<F>,
    image: DynamicImage,
    shader_source: Seq<char>,
)
    requires
        state.starts(startup, image, shader_source),
    ensures
        forall|i: int|
            0 <= i < state.commands().len() ==> (
            #[trigger] state.commands()[i] matches RenderCommand::SetBindGroup { index, group }
                ==> index < startup.pipeline.layout.bind_group_layouts@.len() && fills_layout(
                group_entries(group),
                startup.pipeline.layout.bind_group_layouts@[index as int].entries@,
            )),
{
    lemma_texture_group_consistent(state.diffuse_texture);
    lemma_uniform_group_consistent();
}

/// A frame issues one indexed draw that covers all six indices of the quad, once.
pub proof fn lemma_frame_draws_quad<F>(state: RendererState<F>)
    requires
        state.consistent(),
    ensures
        state.commands().len() == 6,
        state.commands().last() == (RenderCommand::DrawIndexed {
            first_index: 0,
            end_index: spec_quad_indices().len() as u32,
            base_vertex: 0,
            first_instance: 0,
            end_instance: 1,
        }),
{
}

impl<F> View for Renderer<F> {
    type V = RendererState<F>;

    closed spec fn view(&self) -> RendererState<F> {
        self.state
    }
}

/// The first of the formats that the surface supports, if it supports any.
pub fn choose_format<F: Copy>(supported: &[F]) -> (r: Option<F>)
    ensures
        supported@.len() == 0 ==> r is None,
        supported@.len() > 0 ==> r == Some(supported@[0]),
{
    if supported.len() == 0 {
        None
    } else {
        Some(supported[0])
    }
}

impl<F> Renderer<F> {
    #[verifier::type_invariant]
    spec fn well_formed(self) -> bool {
        self.state.consistent()
    }
}

impl<F: Copy> Renderer<F> {
    /// Constructs a renderer for a surface of the size `size` that supports the
    /// formats `supported_formats`, with the startup texture decoded from
    /// `texture_bytes` and the shader text `shader_source`.
    ///
    /// Fails with `StartupFailure` exactly where the surface supports no format.
    /// Otherwise the bytes go, unchanged, to the decoder, which decides whether
    /// there is a texture: a texture error is handed on, and with a texture the
    /// result is what `with_texture` gives for the first format and that texture.
    pub fn new(
        size: PhysicalSize,
        supported_formats: &[F],
        texture_bytes: &[u8],
        shader_source: String,
    ) -> (r: Result<(Self, Startup<F>), RendererError>)
        ensures
            match r {
                Ok((renderer, startup)) => {
                    &&& supported_formats@.len() > 0
                    &&& renderer@ == RendererState::initial(
                        size,
                        supported_formats@[0],
                        startup.texture_bind_group.upload.size,
                    )
                    &&& renderer@.starts_decoded(startup, shader_source@)
                },
                Err(RendererError::StartupFailure) => supported_formats@.len() == 0,
                Err(RendererError::Texture(_)) => supported_formats@.len() > 0,
                Err(RendererError::ShaderCompile) => false,
            },
    {
        let format = match choose_format(supported_formats) {
            Some(format) => format,
            None => {
                return Err(RendererError::StartupFailure);
            },
        };
        match ImageTexture::from_bytes(texture_bytes) {
            Ok(texture) => Ok(Self::with_texture(size, format, &texture, shader_source)),
            Err(error) => Err(RendererError::Texture(error)),
        }
    }

    /// Constructs a renderer for a surface of the size `size` and the format
    /// `format`, with the startup texture `texture` and the shader text
    /// `shader_source`.
    pub fn with_texture(
        size: PhysicalSize,
        format: F,
        texture: &ImageTexture,
        shader_source: String,
    ) -> (r: (Self, Startup<F>))
        ensures
            r.0@ == RendererState::initial(size, format, texture_size(texture.spec_image())),
            r.0@.starts(r.1, texture.spec_image(), shader_source@),
            r.0@.starts_decoded(r.1, shader_source@),
    {
        let config = SurfaceConfiguration {
            usage: TextureUsages { render_attachment: true, ..TextureUsages::none() },
            format,
            width: size.width,
            height: size.height,
            present_mode: PresentMode::Fifo,
            alpha_mode: CompositeAlphaMode::Auto,
        };
        let background_color = Color {
            r: 0x3FB9_9999_9999_999A,
            g: 0x3FC9_9999_9999_999A,
            b: 0x3FD3_3333_3333_3333,
            a: CHANNEL_ONE,
        };

        let texture_bind_group = create_bind_group_for_image_texture(texture);
        let camera_buffer = BufferInitDescriptor {
            label: "Uniform Buffer",
            size: CAMERA_UNIFORM_SIZE,
            usage: BufferUsages { uniform: true, copy_dst: true, ..BufferUsages::none() },
        };
        let camera_bind_group = create_bind_group_for_uniform_buffer();

        let mut bind_group_layouts: Vec<BindGroupLayoutDescriptor> = Vec::new();
        bind_group_layouts.push(texture_bind_group_layout());
        bind_group_layouts.push(uniform_buffer_bind_group_layout());
        let pipeline = create_render_pipeline_for_shader_at_path(
            shader_source,
            CreateRenderPipelineArgs { bind_group_layouts, surface_config: &config },
        );

        let vertices = quad_vertices();
        let vertex_buffer = BufferInitDescriptor {
            label: "Vertex Buffer",
            size: vertices.len() as u64 * VERTEX_STRIDE,
            usage: BufferUsages { vertex: true, ..BufferUsages::none() },
        };
        let indices = quad_indices();
        let index_data = index_bytes(indices.as_slice());
        let index_buffer = BufferInitDescriptor {
            label: "Index Buffer",
            size: index_data.len() as u64,
            usage: BufferUsages { index: true, ..BufferUsages::none() },
        };

        let state = RendererState {
            size,
            config,
            indices: QUAD_INDEX_COUNT as u32,
            diffuse_texture: texture_bind_group.upload.size,
            background_color,
        };
        let startup = Startup {
            surface: config,
            texture_bind_group,
            camera_buffer,
            camera_bind_group,
            pipeline,
            vertex_buffer,
            vertices,
            index_buffer,
            index_data,
        };
        assert(state.starts(startup, texture.spec_image(), shader_source@));
        (Renderer { state }, startup)
    }

    /// Hands the image file contents `bytes`, unchanged, to the decoder and makes
    /// the texture that comes of them the diffuse texture. The decoder decides
    /// whether there is one. Where there is, the result describes the bind group to
    /// build and put in the place of the present one, for a texture of the extent
    /// `upload.size`. Where there is none, nothing changes.
    pub fn set_texture(&mut self, bytes: &[u8]) -> (r: Result<TextureBindGroup, TextureError>)
        ensures
            match r {
                Ok(group) => binds_decoded_texture(group) && final(self)@ == old(
                    self,
                )@.bind_texture(group.upload.size),
                Err(_) => final(self)@ == old(self)@,
            },
    {
        match ImageTexture::from_bytes(bytes) {
            Ok(texture) => Ok(self.bind_texture(&texture)),
            Err(error) => Err(error),
        }
    }

    /// Makes `texture` the diffuse texture. The result describes the bind group to
    /// build and put in the place of the present one.
    pub fn bind_texture(&mut self, texture: &ImageTexture) -> (r: TextureBindGroup)
        ensures
            binds_texture(r, texture.spec_image()),
            binds_decoded_texture(r),
            final(self)@ == old(self)@.bind_texture(texture_size(texture.spec_image())),
    {
        proof {
            use_type_invariant(&*self);
        }
        let group = create_bind_group_for_image_texture(texture);
        self.state.diffuse_texture = group.upload.size;
        group
    }

    /// Sets the color that frames clear to, from the next frame on.
    pub fn set_background_color(&mut self, color: Rgb)
        ensures
            final(self)@ == old(self)@.set_background_color(color),
    {
        proof {
            use_type_invariant(&*self);
        }
        self.state.background_color = color.opaque();
    }

    /// The size of the surface.
    pub fn size(&self) -> (r: PhysicalSize)
        ensures
            r == self@.size,
    {
        self.state.size
    }

    /// The configuration of the surface.
    pub fn config(&self) -> (r: SurfaceConfiguration<F>)
        ensures
            r == self@.config,
            r.width == self@.size.width,
            r.height == self@.size.height,
    {
        proof {
            use_type_invariant(self);
        }
        self.state.config
    }

    /// The color that frames clear to.
    pub fn background_color(&self) -> (r: Color)
        ensures
            r == self@.background_color,
            r.a == CHANNEL_ONE,
    {
        proof {
            use_type_invariant(self);
        }
        self.state.background_color
    }

    /// Extent of the texture in the diffuse bind group.
    pub fn diffuse_texture(&self) -> (r: Extent3d)
        ensures
            r == self@.diffuse_texture,
    {
        self.state.diffuse_texture
    }

    /// Takes a new size for the surface. A size with a zero side changes nothing
    /// and the result is `None`; otherwise the result is the configuration with
    /// which the surface is to be configured again.
    pub fn resize(&mut self, size: PhysicalSize) -> (r: Option<SurfaceConfiguration<F>>)
        ensures
            final(self)@ == old(self)@.resize(size),
            r == if size.width == 0 || size.height == 0 {
                None
            } else {
                Some(final(self)@.config)
            },
    {
        proof {
            use_type_invariant(&*self);
        }
        if size.width == 0 || size.height == 0 {
            return None;
        }
        let config = SurfaceConfiguration {
            width: size.width,
            height: size.height,
            ..self.state.config
        };
        self.state = RendererState { size, config, ..self.state };
        Some(config)
    }

    /// Answers the attempt to acquire the next surface image. Where it failed, the
    /// failure is handed on and nothing is drawn; where it succeeded, the result
    /// is the frame to record on the image, submit and present.
    pub fn draw(&self, acquired: Result<(), SurfaceError>) -> (r: Result<Frame, SurfaceError>)
        ensures
            self@.consistent(),
            match acquired {
                Ok(_) => r matches Ok(frame) && self@.draws(frame),
                Err(error) => r == Err::<Frame, SurfaceError>(error),
            },
    {
        proof {
            use_type_invariant(self);
        }
        match acquired {
            Ok(_) => Ok(self.frame()),
            Err(error) => Err(error),
        }
    }

    /// The frame that the renderer draws in its present state.
    pub fn frame(&self) -> (r: Frame)
        ensures
            self@.consistent(),
            self@.draws(r),
    {
        proof {
            use_type_invariant(self);
        }
        let mut commands: Vec<RenderCommand> = Vec::new();
        commands.push(RenderCommand::SetPipeline);
        commands.push(
            RenderCommand::SetBindGroup {
                index: 0,
                group: BoundGroup::Diffuse { texture_size: self.state.diffuse_texture },
            },
        );
        commands.push(RenderCommand::SetBindGroup { index: 1, group: BoundGroup::Camera });
        commands.push(RenderCommand::SetVertexBuffer { slot: 0 });
        commands.push(RenderCommand::SetIndexBuffer { format: IndexFormat::Uint16 });
        commands.push(
            RenderCommand::DrawIndexed {
                first_index: 0,
                end_index: self.state.indices,
                base_vertex: 0,
                first_instance: 0,
                end_instance: 1,
            },
        );
        assert(commands@ =~= self@.commands());
        Frame {
            encoder_label: "Render Encoder",
            pass_label: "Render Pass",
            load: LoadOp::Clear(self.state.background_color),
            store: true,
            depth_stencil: false,
            commands,
        }
    }
}

} // verus!
