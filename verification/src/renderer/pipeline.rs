//! The render pipeline, as a description.

use vstd::prelude::*;
use crate::geo::{quad_triangle_area2, lemma_quad_winding, Vertex, VertexBufferLayout};
use crate::gpu::{
    BlendState, ColorTargetState, ColorWrites, DepthStencilState, Face, FrontFace,
    MultisampleState, PolygonMode, PrimitiveState, PrimitiveTopology, SurfaceConfiguration,
};
use crate::renderer::bind_group::BindGroupLayoutDescriptor;

verus! {

/// Name of the vertex stage's entry point in the shader source.
pub const VERTEX_ENTRY_POINT: &'static str = "vs_main";

/// Name of the fragment stage's entry point in the shader source.
pub const FRAGMENT_ENTRY_POINT: &'static str = "fs_main";

/// A shader program to compile from WGSL source text.
#[derive(Clone, Debug, PartialEq, Eq)]
pub struct ShaderModuleDescriptor {
    pub label: &'static str,
    pub source: String,
}

/// The bind-group layouts of a pipeline. The place of a layout in the list is the
/// group index by which the shader refers to it.
#[derive(Clone, Debug, PartialEq, Eq)]
pub struct PipelineLayoutDescriptor {
    pub label: &'static str,
    pub bind_group_layouts: Vec<BindGroupLayoutDescriptor>,
}

/// The vertex stage: its entry point and the vertex buffers it reads, by slot.
#[derive(Clone, Debug, PartialEq, Eq)]
pub struct VertexState {
    pub entry_point: &'static str,
    pub buffers: Vec<VertexBufferLayout>,
}

/// The fragment stage: its entry point and the color targets it writes.
#[derive(Clone, Debug, PartialEq, Eq)]
pub struct FragmentState<F> {
    pub entry_point: &'static str,
    pub targets: Vec<Option<ColorTargetState<F>>>,
}

/// A render pipeline to compile and assemble.
#[derive(Clone, Debug, PartialEq, Eq)]
pub struct RenderPipelineDescriptor<F> {
    pub label: &'static str,
    pub shader: ShaderModuleDescriptor,
    pub layout: PipelineLayoutDescriptor,
    pub vertex: VertexState,
    pub fragment: Option<FragmentState<F>>,
    pub primitive: PrimitiveState,
    pub depth_stencil: Option<DepthStencilState>,
    pub multisample: MultisampleState,
    pub multiview: Option<u32>,
}

/// What a pipeline is built against: the bind-group layouts, in the order of their
/// group indices, and the configuration of the surface it draws to.
pub struct CreateRenderPipelineArgs<'a, F> {
    pub bind_group_layouts: Vec<BindGroupLayoutDescriptor>,
    pub surface_config: &'a SurfaceConfiguration<F>,
}

/// Triangle lists, counter-clockwise front faces, back faces culled, filled.
pub open spec fn spec_primitive_state() -> PrimitiveState {
    PrimitiveState {
        topology: PrimitiveTopology::TriangleList,
        strip_index_format: None,
        front_face: FrontFace::Ccw,
        cull_mode: Some(Face::Back),
        unclipped_depth: false,
        polygon_mode: PolygonMode::Fill,
        conservative: false,
    }
}

/// One sample per pixel, every sample enabled.
pub open spec fn spec_multisample_state() -> MultisampleState {
    MultisampleState { count: 1, mask: u64::MAX, alpha_to_coverage_enabled: false }
}

/// The fragment's output replaces the target's content in all four channels.
pub open spec fn spec_color_target<F>(format: F) -> ColorTargetState<F> {
    ColorTargetState {
        format,
        blend: Some(BlendState::spec_replace()),
        write_mask: ColorWrites { red: true, green: true, blue: true, alpha: true },
    }
}

/// `pipeline` is the pipeline of the renderer for the shader text `source`, the
/// bind-group layouts `layouts` and a target of the format `format`.
pub open spec fn describes_pipeline<F>(
    pipeline: RenderPipelineDescriptor<F>,
    source: Seq<char>,
    layouts: Vec<BindGroupLayoutDescriptor>,
    format: F,
) -> bool {
    &&& pipeline.label == "Render Pipeline"
    &&& pipeline.shader.label == "Shader Module"
    &&& pipeline.shader.source@ == source
    &&& pipeline.layout.label == "Pipeline Layout"
    &&& pipeline.layout.bind_group_layouts == layouts
    &&& pipeline.vertex.entry_point == VERTEX_ENTRY_POINT
    &&& pipeline.vertex.buffers@.len() == 1
    &&& Vertex::is_layout(pipeline.vertex.buffers@[0])
    &&& pipeline.fragment matches Some(fragment)
    &&& fragment.entry_point == FRAGMENT_ENTRY_POINT
    &&& fragment.targets@ == seq![Some(spec_color_target(format))]
    &&& pipeline.primitive == spec_primitive_state()
    &&& pipeline.depth_stencil is None
    &&& pipeline.multisample == spec_multisample_state()
    &&& pipeline.multiview is None
}

/// A triangle whose doubled signed area, as the camera sees it, is `area2` faces
/// front under `primitive`.
pub open spec fn faces_front(primitive: PrimitiveState, area2: int) -> bool {
    match primitive.front_face {
        FrontFace::Ccw => area2 > 0,
        FrontFace::Cw => area2 < 0,
    }
}

/// Such a triangle is discarded before it is drawn.
pub open spec fn is_culled(primitive: PrimitiveState, area2: int) -> bool {
    match primitive.cull_mode {
        None => false,
        Some(Face::Front) => faces_front(primitive, area2),
        Some(Face::Back) => !faces_front(primitive, area2),
    }
}

/// The pipeline keeps both triangles of the quad: they face the camera.
pub proof fn lemma_quad_not_culled()
    ensures
        !is_culled(spec_primitive_state(), quad_triangle_area2(0)),
        !is_culled(spec_primitive_state(), quad_triangle_area2(1)),
{
    lemma_quad_winding();
}

/// Describes the render pipeline for the shader text `source`.
///
/// The bind-group layouts keep their order, the color target takes the surface's
/// format, and everything else is fixed.
pub fn create_render_pipeline_for_shader_at_path<F: Copy>(
    source: String,
    args: CreateRenderPipelineArgs<'_, F>,
) -> (r: RenderPipelineDescriptor<F>)
    ensures
        describes_pipeline(r, source@, args.bind_group_layouts, args.surface_config.format),
{
    let mut buffers: Vec<VertexBufferLayout> = Vec::new();
    buffers.push(Vertex::layout());
    let mut targets: Vec<Option<ColorTargetState<F>>> = Vec::new();
    targets.push(
        Some(
            ColorTargetState {
                format: args.surface_config.format,
                blend: Some(BlendState::replace()),
                write_mask: ColorWrites { red: true, green: true, blue: true, alpha: true },
            },
        ),
    );
    assert(targets@ =~= seq![Some(spec_color_target(args.surface_config.format))]);
    RenderPipelineDescriptor {
        label: "Render Pipeline",
        shader: ShaderModuleDescriptor { label: "Shader Module", source },
        layout: PipelineLayoutDescriptor {
            label: "Pipeline Layout",
            bind_group_layouts: args.bind_group_layouts,
        },
        vertex: VertexState { entry_point: VERTEX_ENTRY_POINT, buffers },
        fragment: Some(FragmentState { entry_point: FRAGMENT_ENTRY_POINT, targets }),
        primitive: PrimitiveState {
            topology: PrimitiveTopology::TriangleList,
            strip_index_format: None,
            front_face: FrontFace::Ccw,
            cull_mode: Some(Face::Back),
            unclipped_depth: false,
            polygon_mode: PolygonMode::Fill,
            conservative: false,
        },
        depth_stencil: None,
        multisample: MultisampleState { count: 1, mask: u64::MAX, alpha_to_coverage_enabled: false },
        multiview: None,
    }
}

} // verus!
