//! Bind groups and their layouts, as descriptions.

use vstd::prelude::*;
use crate::gpu::{
    AddressMode, BindGroupEntry, BindGroupLayoutEntry, BindingResource, BindingType,
    BufferBindingType, Extent3d, FilterMode, SamplerBindingType, SamplerDescriptor, ShaderStages,
    TextureSampleType, TextureViewDimension,
};
use image::DynamicImage;
use crate::texture::{
    acceptable, texture_size, uploads_image, ImageTexture, TextureError, TextureWrite,
};

verus! {

/// The shape of a bind group: its slots, each with the kind of resource it takes
/// and the shader stages that see it.
#[derive(Clone, Debug, PartialEq, Eq)]
pub struct BindGroupLayoutDescriptor {
    pub label: &'static str,
    pub entries: Vec<BindGroupLayoutEntry>,
}

/// The resources of a bind group, slot by slot.
#[derive(Clone, Debug, PartialEq, Eq)]
pub struct BindGroupDescriptor {
    pub label: &'static str,
    pub entries: Vec<BindGroupEntry>,
}

/// A bind group together with the layout that it is built against.
#[derive(Clone, Debug, PartialEq, Eq)]
pub struct BindGroupWithLayout {
    pub actual: BindGroupDescriptor,
    pub layout: BindGroupLayoutDescriptor,
}

/// A texture to upload and the bind group that hands it to the fragment shader.
#[derive(Clone, Debug, PartialEq, Eq)]
pub struct TextureBindGroup {
    pub upload: TextureWrite,
    pub group: BindGroupWithLayout,
}

/// The resource fits the slot: a texture view in a texture slot, a sampler in a
/// sampler slot, a buffer in a buffer slot.
pub open spec fn resource_fits(resource: BindingResource, ty: BindingType) -> bool {
    match resource {
        BindingResource::TextureView { .. } => ty is Texture,
        BindingResource::Sampler(_) => ty is Sampler,
        BindingResource::Buffer { .. } => ty is Buffer,
    }
}

/// The group fills the layout: slot for slot the same binding number and a
/// resource of the kind that the layout asks for.
pub open spec fn fills_layout(
    group: Seq<BindGroupEntry>,
    layout: Seq<BindGroupLayoutEntry>,
) -> bool {
    &&& group.len() == layout.len()
    &&& forall|i: int|
        0 <= i < group.len() ==> (#[trigger] group[i]).binding == layout[i].binding
            && resource_fits(group[i].resource, layout[i].ty)
}

/// A sampler filters when one of its three filters is linear.
pub open spec fn sampler_filters(sampler: SamplerDescriptor) -> bool {
    ||| sampler.mag_filter == FilterMode::Linear
    ||| sampler.min_filter == FilterMode::Linear
    ||| sampler.mipmap_filter == FilterMode::Linear
}

/// The sampler of the diffuse texture: clamped to the edge on every axis, linear
/// when magnifying, nearest when minifying and between mip levels.
pub open spec fn spec_texture_sampler() -> SamplerDescriptor {
    SamplerDescriptor {
        address_mode_u: AddressMode::ClampToEdge,
        address_mode_v: AddressMode::ClampToEdge,
        address_mode_w: AddressMode::ClampToEdge,
        mag_filter: FilterMode::Linear,
        min_filter: FilterMode::Nearest,
        mipmap_filter: FilterMode::Nearest,
    }
}

/// Only the fragment stage.
pub open spec fn spec_fragment_only() -> ShaderStages {
    ShaderStages { vertex: false, fragment: true, compute: false }
}

/// Only the vertex stage.
pub open spec fn spec_vertex_only() -> ShaderStages {
    ShaderStages { vertex: true, fragment: false, compute: false }
}

/// Layout of the texture bind group: slot 0 a filterable two-dimensional float
/// texture without multisampling, slot 1 a filtering sampler, both for the
/// fragment stage.
pub open spec fn spec_texture_layout_entries() -> Seq<BindGroupLayoutEntry> {
    seq![
        BindGroupLayoutEntry {
            binding: 0,
            visibility: spec_fragment_only(),
            ty: BindingType::Texture {
                sample_type: TextureSampleType::Float { filterable: true },
                view_dimension: TextureViewDimension::D2,
                multisampled: false,
            },
            count: None,
        },
        BindGroupLayoutEntry {
            binding: 1,
            visibility: spec_fragment_only(),
            ty: BindingType::Sampler(SamplerBindingType::Filtering),
            count: None,
        },
    ]
}

/// Resources of the texture bind group: the view of the texture, then its sampler.
pub open spec fn spec_texture_group_entries(texture_size: Extent3d) -> Seq<BindGroupEntry> {
    seq![
        BindGroupEntry { binding: 0, resource: BindingResource::TextureView { texture_size } },
        BindGroupEntry { binding: 1, resource: BindingResource::Sampler(spec_texture_sampler()) },
    ]
}

/// Layout of the uniform bind group: slot 0 a uniform buffer for the vertex stage,
/// without dynamic offset and without a declared minimum size.
pub open spec fn spec_uniform_layout_entries() -> Seq<BindGroupLayoutEntry> {
    seq![
        BindGroupLayoutEntry {
            binding: 0,
            visibility: spec_vertex_only(),
            ty: BindingType::Buffer {
                ty: BufferBindingType::Uniform,
                has_dynamic_offset: false,
                min_binding_size: None,
            },
            count: None,
        },
    ]
}

/// Resources of the uniform bind group: the whole of the uniform buffer.
pub open spec fn spec_uniform_group_entries() -> Seq<BindGroupEntry> {
    seq![BindGroupEntry { binding: 0, resource: BindingResource::Buffer { offset: 0, size: None } }]
}

/// `layout` is the layout of the texture bind group.
pub open spec fn is_texture_layout(layout: BindGroupLayoutDescriptor) -> bool {
    &&& layout.label == "texture_bind_group_layout"
    &&& layout.entries@ == spec_texture_layout_entries()
}

/// `layout` is the layout of the uniform bind group.
pub open spec fn is_uniform_layout(layout: BindGroupLayoutDescriptor) -> bool {
    &&& layout.label == "Uniform Buffer Bind Group Layout"
    &&& layout.entries@ == spec_uniform_layout_entries()
}

/// `group` is the bind group of a diffuse texture made from `image`, with its upload.
pub open spec fn binds_texture(group: TextureBindGroup, image: DynamicImage) -> bool {
    &&& uploads_image(image, group.upload)
    &&& is_texture_layout(group.group.layout)
    &&& group.group.actual.label == "diffuse_bind_group"
    &&& group.group.actual.entries@ == spec_texture_group_entries(texture_size(image))
}

/// `group` is the bind group of a diffuse texture made from some acceptable
/// image, with its upload. The texture has the extent `group.upload.size`.
pub open spec fn binds_decoded_texture(group: TextureBindGroup) -> bool {
    exists|image: DynamicImage| acceptable(image) && #[trigger] binds_texture(group, image)
}

/// `group` is the bind group of the uniform buffer.
pub open spec fn binds_uniform_buffer(group: BindGroupWithLayout) -> bool {
    &&& is_uniform_layout(group.layout)
    &&& group.actual.label == "Uniform Buffer Bind Group"
    &&& group.actual.entries@ == spec_uniform_group_entries()
}

/// In the texture bind group the resources fill the layout, the texture slot is
/// filterable exactly as the sampler slot is filtering, and the sampler, which
/// filters, sits in a filtering slot.
pub proof fn lemma_texture_group_consistent(texture_size: Extent3d)
    ensures
        fills_layout(spec_texture_group_entries(texture_size), spec_texture_layout_entries()),
        spec_texture_layout_entries()[0].ty matches BindingType::Texture {
            sample_type: TextureSampleType::Float { filterable },
            ..
        } && (filterable <==> spec_texture_layout_entries()[1].ty == BindingType::Sampler(
            SamplerBindingType::Filtering,
        )),
        sampler_filters(spec_texture_sampler()),
        spec_texture_layout_entries()[1].ty == BindingType::Sampler(SamplerBindingType::Filtering),
{
}

/// In the uniform bind group the resources fill the layout.
pub proof fn lemma_uniform_group_consistent()
    ensures
        fills_layout(spec_uniform_group_entries(), spec_uniform_layout_entries()),
{
}

/// The layout of the texture bind group, made anew on every call.
pub fn texture_bind_group_layout() -> (r: BindGroupLayoutDescriptor)
    ensures
        is_texture_layout(r),
{
    let fragment = ShaderStages { vertex: false, fragment: true, compute: false };
    let mut entries: Vec<BindGroupLayoutEntry> = Vec::new();
    entries.push(
        BindGroupLayoutEntry {
            binding: 0,
            visibility: fragment,
            ty: BindingType::Texture {
                sample_type: TextureSampleType::Float { filterable: true },
                view_dimension: TextureViewDimension::D2,
                multisampled: false,
            },
            count: None,
        },
    );
    entries.push(
        BindGroupLayoutEntry {
            binding: 1,
            visibility: fragment,
            ty: BindingType::Sampler(SamplerBindingType::Filtering),
            count: None,
        },
    );
    assert(entries@ =~= spec_texture_layout_entries());
    BindGroupLayoutDescriptor { label: "texture_bind_group_layout", entries }
}

/// The layout of the uniform bind group, made anew on every call.
pub fn uniform_buffer_bind_group_layout() -> (r: BindGroupLayoutDescriptor)
    ensures
        is_uniform_layout(r),
{
    let mut entries: Vec<BindGroupLayoutEntry> = Vec::new();
    entries.push(
        BindGroupLayoutEntry {
            binding: 0,
            visibility: ShaderStages { vertex: true, fragment: false, compute: false },
            ty: BindingType::Buffer {
                ty: BufferBindingType::Uniform,
                has_dynamic_offset: false,
                min_binding_size: None,
            },
            count: None,
        },
    );
    BindGroupLayoutDescriptor { label: "Uniform Buffer Bind Group Layout", entries }
}

/// Describes the bind group for the diffuse texture `texture`. Layout and group are
/// made anew on every call.
pub fn create_bind_group_for_image_texture(texture: &ImageTexture) -> (r: TextureBindGroup)
    ensures
        acceptable(texture.spec_image()),
        binds_texture(r, texture.spec_image()),
        binds_decoded_texture(r),
{
    let upload = texture.write();
    let sampler = SamplerDescriptor {
        address_mode_u: AddressMode::ClampToEdge,
        address_mode_v: AddressMode::ClampToEdge,
        address_mode_w: AddressMode::ClampToEdge,
        mag_filter: FilterMode::Linear,
        min_filter: FilterMode::Nearest,
        mipmap_filter: FilterMode::Nearest,
    };
    let mut entries: Vec<BindGroupEntry> = Vec::new();
    entries.push(
        BindGroupEntry {
            binding: 0,
            resource: BindingResource::TextureView { texture_size: upload.size },
        },
    );
    entries.push(BindGroupEntry { binding: 1, resource: BindingResource::Sampler(sampler) });
    assert(entries@ =~= spec_texture_group_entries(texture_size(texture.spec_image())));
    let group = TextureBindGroup {
        upload,
        group: BindGroupWithLayout {
            actual: BindGroupDescriptor { label: "diffuse_bind_group", entries },
            layout: texture_bind_group_layout(),
        },
    };
    assert(binds_texture(group, texture.spec_image()));
    group
}

/// Hands the image file contents `bytes`, unchanged, to the decoder and describes
/// the bind group for the texture that comes of them.
///
/// The decoder decides whether there is one. Where there is, the result is the
/// bind group of a texture of the extent `upload.size` of some acceptable image.
pub fn create_bind_group_for_image_texture_at_path(bytes: &[u8]) -> (r: Result<
    TextureBindGroup,
    TextureError,
>)
    ensures
        r matches Ok(group) ==> binds_decoded_texture(group) && group.group.actual.entries@
            == spec_texture_group_entries(group.upload.size),
{
    match ImageTexture::from_bytes(bytes) {
        Ok(texture) => Ok(create_bind_group_for_image_texture(&texture)),
        Err(error) => Err(error),
    }
}

/// Describes the bind group for the uniform buffer. Layout and group are made anew
/// on every call.
pub fn create_bind_group_for_uniform_buffer() -> (r: BindGroupWithLayout)
    ensures
        binds_uniform_buffer(r),
{
    let mut entries: Vec<BindGroupEntry> = Vec::new();
    entries.push(
        BindGroupEntry { binding: 0, resource: BindingResource::Buffer { offset: 0, size: None } },
    );
    BindGroupWithLayout {
        actual: BindGroupDescriptor { label: "Uniform Buffer Bind Group", entries },
        layout: uniform_buffer_bind_group_layout(),
    }
}

} // verus!
