//! The fixed render pipeline, written down as plain configuration.
use vstd::prelude::*;
use crate::swapchain::{SwapchainConfig, TextureFormat};

verus! {

/// Component type of a vertex attribute.
#[derive(Clone, Copy, Debug, PartialEq, Eq, Structural)]
pub enum VertexFormat {
    /// Three 32-bit floats.
    Float3,
}

/// Size in bytes of one `Float3` attribute.
pub const FLOAT3_SIZE: u64 = 12;

/// Whether the vertex buffer advances per vertex or per instance.
#[derive(Clone, Copy, Debug, PartialEq, Eq, Structural)]
pub enum InputStepMode {
    Vertex,
}

/// One attribute of a vertex: where it lies in the vertex and which shader
/// input receives it.
#[derive(Clone, Copy, Debug, PartialEq, Eq, Structural)]
pub struct VertexAttribute {
    pub offset: u64,
    pub shader_location: u32,
    pub format: VertexFormat,
}

/// How the vertex buffer is read: bytes per vertex and the attributes.
#[derive(Clone, Debug)]
pub struct VertexLayout {
    pub stride: u64,
    pub step_mode: InputStepMode,
    pub attributes: Vec<VertexAttribute>,
}

/// Size in bytes of an attribute of format `f`.
pub open spec fn format_size(f: VertexFormat) -> nat {
    match f {
        VertexFormat::Float3 => FLOAT3_SIZE as nat,
    }
}

/// Every attribute lies inside one vertex, no two attributes share a byte,
/// and no two feed the same shader input.
pub open spec fn layout_well_formed(stride: u64, attrs: Seq<VertexAttribute>) -> bool {
    &&& forall|i: int|
        0 <= i < attrs.len() ==> attrs[i].offset + format_size(attrs[i].format) <= stride
    &&& forall|i: int, j: int|
        0 <= i < attrs.len() && 0 <= j < attrs.len() && i != j ==> {
            &&& (attrs[i].offset + format_size(attrs[i].format) <= attrs[j].offset
                || attrs[j].offset + format_size(attrs[j].format) <= attrs[i].offset)
            &&& attrs[i].shader_location != attrs[j].shader_location
        }
}

/// The layout of one vertex: a position (three floats, shader input 0)
/// followed by a color (three floats, shader input 1).
pub open spec fn vertex_attributes() -> Seq<VertexAttribute> {
    seq![
        VertexAttribute { offset: 0, shader_location: 0, format: VertexFormat::Float3 },
        VertexAttribute { offset: FLOAT3_SIZE, shader_location: 1, format: VertexFormat::Float3 },
    ]
}

/// Bytes per vertex: a position and a color.
pub const VERTEX_STRIDE: u64 = 2 * FLOAT3_SIZE;

/// The vertex buffer layout of the polygon's vertices.
pub fn vertex_desc() -> (r: VertexLayout)
    ensures
        r.stride == VERTEX_STRIDE,
        r.step_mode == InputStepMode::Vertex,
        r.attributes@ == vertex_attributes(),
        layout_well_formed(r.stride, r.attributes@),
{
    let attributes: Vec<VertexAttribute> = vec![
        VertexAttribute { offset: 0, shader_location: 0, format: VertexFormat::Float3 },
        VertexAttribute { offset: FLOAT3_SIZE, shader_location: 1, format: VertexFormat::Float3 },
    ];
    assert(attributes@ =~= vertex_attributes());
    VertexLayout { stride: VERTEX_STRIDE, step_mode: InputStepMode::Vertex, attributes }
}

/// How vertices are grouped into primitives.
#[derive(Clone, Copy, Debug, PartialEq, Eq, Structural)]
pub enum PrimitiveTopology {
    TriangleList,
}

/// Winding order of front-facing triangles.
#[derive(Clone, Copy, Debug, PartialEq, Eq, Structural)]
pub enum FrontFace {
    Ccw,
}

/// Which faces are discarded.
#[derive(Clone, Copy, Debug, PartialEq, Eq, Structural)]
pub enum CullMode {
    Back,
}

/// A factor of the blend equation.
#[derive(Clone, Copy, Debug, PartialEq, Eq, Structural)]
pub enum BlendFactor {
    One,
    SrcAlpha,
    OneMinusSrcAlpha,
}

/// How the weighted source and destination are combined.
#[derive(Clone, Copy, Debug, PartialEq, Eq, Structural)]
pub enum BlendOperation {
    Add,
}

/// One blend equation: `src * src_factor (operation) dst * dst_factor`.
#[derive(Clone, Copy, Debug, PartialEq, Eq, Structural)]
pub struct BlendComponent {
    pub src_factor: BlendFactor,
    pub dst_factor: BlendFactor,
    pub operation: BlendOperation,
}

/// Width of the indices in the index buffer.
#[derive(Clone, Copy, Debug, PartialEq, Eq, Structural)]
pub enum IndexFormat {
    Uint16,
}

/// The fixed-function state and vertex input of the render pipeline.
#[derive(Clone, Debug)]
pub struct PipelineConfig {
    pub topology: PrimitiveTopology,
    pub front_face: FrontFace,
    pub cull_mode: CullMode,
    /// Depth values are clamped instead of clipped.
    pub clamp_depth: bool,
    /// Constant depth bias added to each fragment.
    pub depth_bias: i32,
    /// Depth bias scaled by the fragment's slope, in hundredths.
    pub depth_bias_slope_scale: i32,
    /// Largest depth bias, in hundredths.
    pub depth_bias_clamp: i32,
    /// Format of the single color attachment.
    pub color_format: TextureFormat,
    pub color_blend: BlendComponent,
    pub alpha_blend: BlendComponent,
    /// Every color channel is written.
    pub write_all_channels: bool,
    pub depth_stencil: bool,
    pub index_format: IndexFormat,
    pub vertex_layout: VertexLayout,
    pub sample_count: u32,
    pub sample_mask: u32,
    pub alpha_to_coverage: bool,
}

/// Source-over blending of color, additive blending of alpha.
pub open spec fn alpha_blending() -> (BlendComponent, BlendComponent) {
    (
        BlendComponent {
            src_factor: BlendFactor::SrcAlpha,
            dst_factor: BlendFactor::OneMinusSrcAlpha,
            operation: BlendOperation::Add,
        },
        BlendComponent {
            src_factor: BlendFactor::One,
            dst_factor: BlendFactor::One,
            operation: BlendOperation::Add,
        },
    )
}

/// The pipeline that draws the polygon into a swapchain image of format
/// `format`: triangle lists, back faces culled, no depth bias, alpha blending, no depth or
/// stencil, one sample, 16-bit indices and the polygon's vertex layout.
pub open spec fn pipeline_for(p: PipelineConfig, format: TextureFormat) -> bool {
    &&& p.topology == PrimitiveTopology::TriangleList
    &&& p.front_face == FrontFace::Ccw
    &&& p.cull_mode == CullMode::Back
    &&& !p.clamp_depth
    &&& p.depth_bias == 0
    &&& p.depth_bias_slope_scale == 0
    &&& p.depth_bias_clamp == 0
    &&& p.color_format == format
    &&& (p.color_blend, p.alpha_blend) == alpha_blending()
    &&& p.write_all_channels
    &&& !p.depth_stencil
    &&& p.index_format == IndexFormat::Uint16
    &&& p.vertex_layout.stride == VERTEX_STRIDE
    &&& p.vertex_layout.step_mode == InputStepMode::Vertex
    &&& p.vertex_layout.attributes@ == vertex_attributes()
    &&& p.sample_count == 1
    &&& p.sample_mask == u32::MAX
    &&& !p.alpha_to_coverage
}

/// The render pipeline's configuration for the swapchain `sc_desc`; its color
/// target takes the swapchain's format.
pub fn create_pipeline(sc_desc: &SwapchainConfig) -> (r: PipelineConfig)
    ensures
        pipeline_for(r, sc_desc.format),
        layout_well_formed(r.vertex_layout.stride, r.vertex_layout.attributes@),
{
    PipelineConfig {
        topology: PrimitiveTopology::TriangleList,
        front_face: FrontFace::Ccw,
        cull_mode: CullMode::Back,
        clamp_depth: false,
        depth_bias: 0,
        depth_bias_slope_scale: 0,
        depth_bias_clamp: 0,
        color_format: sc_desc.format,
        color_blend: BlendComponent {
            src_factor: BlendFactor::SrcAlpha,
            dst_factor: BlendFactor::OneMinusSrcAlpha,
            operation: BlendOperation::Add,
        },
        alpha_blend: BlendComponent {
            src_factor: BlendFactor::One,
            dst_factor: BlendFactor::One,
            operation: BlendOperation::Add,
        },
        write_all_channels: true,
        depth_stencil: false,
        index_format: IndexFormat::Uint16,
        vertex_layout: vertex_desc(),
        sample_count: 1,
        sample_mask: u32::MAX,
        alpha_to_coverage: false,
    }
}

} // verus!
