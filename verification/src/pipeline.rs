//! The pipeline build: a fixed vertex record layout, fixed-function state,
//! a small inline per-draw parameter block, and the chain's current color
//! format, all as plain values the caller hands to the backend. A pipeline
//! is rebuilt only when the color format changes structurally; extent
//! changes are absorbed by the dynamic viewport and scissor state.

use vstd::prelude::*;

use crate::shader::{spec_compile, Shader, ShaderCompileError, ShaderSource, ShaderStage};

verus! {

/// Format code of a three-component 32-bit float vertex attribute.
pub const FORMAT_R32G32B32_SFLOAT: u32 = 106;

/// Format code of the preferred presentable-image format.
pub const FORMAT_B8G8R8A8_SRGB: u32 = 50;

/// Color-space code of the preferred presentable-image color space.
pub const COLOR_SPACE_SRGB_NONLINEAR: u32 = 0;

/// Size in bytes of one three-component float vector field.
pub const VEC3_BYTES: u32 = 12;

/// Size in bytes of one four-component float vector field.
pub const VEC4_BYTES: u32 = 16;

/// Size in bytes of one four-by-four float matrix field.
pub const MAT4_BYTES: u32 = 64;

/// Size in bytes of one vertex record: position, normal, and color, each a
/// three-component float vector.
pub const VERTEX_STRIDE: u32 = 36;

/// Byte offset of the position field in a vertex record.
pub const VERTEX_POSITION_OFFSET: u32 = 0;

/// Byte offset of the normal field in a vertex record. The field is present
/// in the record but not wired into the minimal pipeline.
pub const VERTEX_NORMAL_OFFSET: u32 = 12;

/// Byte offset of the color field in a vertex record.
pub const VERTEX_COLOR_OFFSET: u32 = 24;

/// Size in bytes of the inline per-draw parameter block: an auxiliary
/// vector followed by a transform matrix.
pub const MESH_PUSH_CONSTANTS_BYTES: u32 = 80;

/// How vertices are assembled into primitives.
#[derive(Clone, Copy, Debug, PartialEq, Eq, Structural)]
pub enum PrimitiveTopology {
    PointList,
    LineList,
    TriangleList,
}

/// How primitives are rasterized.
#[derive(Clone, Copy, Debug, PartialEq, Eq, Structural)]
pub enum PolygonMode {
    Fill,
    Line,
    Point,
}

/// Which faces are culled.
#[derive(Clone, Copy, Debug, PartialEq, Eq, Structural)]
pub enum CullMode {
    Disabled,
    Front,
    Back,
}

/// Which winding counts as front-facing.
#[derive(Clone, Copy, Debug, PartialEq, Eq, Structural)]
pub enum FrontFace {
    Clockwise,
    CounterClockwise,
}

/// A blend factor of the standard alpha-blend equation.
#[derive(Clone, Copy, Debug, PartialEq, Eq, Structural)]
pub enum BlendFactor {
    Zero,
    One,
    SrcAlpha,
    OneMinusSrcAlpha,
}

/// One vertex buffer binding.
#[derive(Clone, Copy, Debug, PartialEq, Eq, Structural)]
pub struct VertexBinding {
    pub binding: u32,
    /// Bytes from one vertex record to the next.
    pub stride: u32,
}

/// One vertex attribute the pipeline consumes.
#[derive(Clone, Copy, Debug, PartialEq, Eq, Structural)]
pub struct VertexAttribute {
    pub binding: u32,
    pub location: u32,
    pub format: u32,
    pub offset: u32,
}

/// The vertex input layout of a pipeline.
#[derive(Debug)]
pub struct VertexInputDescription {
    pub bindings: Vec<VertexBinding>,
    pub attributes: Vec<VertexAttribute>,
}

/// The vertex record layout this renderer draws: one binding of
/// `VERTEX_STRIDE` bytes; position at location 0 and color at location 2,
/// both three-component floats. The normal field sits between them in the
/// record but is not wired into the minimal pipeline.
pub fn vertex_input_description() -> (r: VertexInputDescription)
    ensures
        r.bindings@ == seq![VertexBinding { binding: 0u32, stride: VERTEX_STRIDE }],
        r.attributes@ == seq![
            VertexAttribute {
                binding: 0u32,
                location: 0u32,
                format: FORMAT_R32G32B32_SFLOAT,
                offset: VERTEX_POSITION_OFFSET,
            },
            VertexAttribute {
                binding: 0u32,
                location: 2u32,
                format: FORMAT_R32G32B32_SFLOAT,
                offset: VERTEX_COLOR_OFFSET,
            },
        ],
{
    let mut bindings: Vec<VertexBinding> = Vec::new();
    bindings.push(VertexBinding { binding: 0, stride: VERTEX_STRIDE });
    let mut attributes: Vec<VertexAttribute> = Vec::new();
    attributes.push(
        VertexAttribute {
            binding: 0,
            location: 0,
            format: FORMAT_R32G32B32_SFLOAT,
            offset: VERTEX_POSITION_OFFSET,
        },
    );
    attributes.push(
        VertexAttribute {
            binding: 0,
            location: 2,
            format: FORMAT_R32G32B32_SFLOAT,
            offset: VERTEX_COLOR_OFFSET,
        },
    );
    assert(bindings@ =~= seq![VertexBinding { binding: 0u32, stride: VERTEX_STRIDE }]);
    assert(attributes@ =~= seq![
        VertexAttribute {
            binding: 0u32,
            location: 0u32,
            format: FORMAT_R32G32B32_SFLOAT,
            offset: VERTEX_POSITION_OFFSET,
        },
        VertexAttribute {
            binding: 0u32,
            location: 2u32,
            format: FORMAT_R32G32B32_SFLOAT,
            offset: VERTEX_COLOR_OFFSET,
        },
    ]);
    VertexInputDescription { bindings, attributes }
}

/// How vertices are assembled.
#[derive(Clone, Copy, Debug, PartialEq, Eq, Structural)]
pub struct InputAssemblyState {
    pub topology: PrimitiveTopology,
    pub primitive_restart: bool,
}

/// Input assembly with the given topology and no primitive restart.
pub fn pipeline_input_assembly_create_info(topology: PrimitiveTopology) -> (r: InputAssemblyState)
    ensures
        r == (InputAssemblyState { topology, primitive_restart: false }),
{
    InputAssemblyState { topology, primitive_restart: false }
}

/// The rasterizer's fixed-function state.
#[derive(Clone, Copy, Debug, PartialEq, Eq, Structural)]
pub struct RasterizationState {
    pub polygon_mode: PolygonMode,
    pub cull_mode: CullMode,
    pub front_face: FrontFace,
    pub depth_clamp: bool,
    pub rasterizer_discard: bool,
    pub depth_bias: bool,
    /// Line width in whole pixels.
    pub line_width: u32,
}

/// Rasterization with the given polygon and cull modes, clockwise front
/// faces, unit line width, and no depth clamp, discard, or bias.
pub fn pipeline_rasterization_state_create_info(
    polygon_mode: PolygonMode,
    cull_mode: CullMode,
) -> (r: RasterizationState)
    ensures
        r == (RasterizationState {
            polygon_mode,
            cull_mode,
            front_face: FrontFace::Clockwise,
            depth_clamp: false,
            rasterizer_discard: false,
            depth_bias: false,
            line_width: 1u32,
        }),
{
    RasterizationState {
        polygon_mode,
        cull_mode,
        front_face: FrontFace::Clockwise,
        depth_clamp: false,
        rasterizer_discard: false,
        depth_bias: false,
        line_width: 1,
    }
}

/// The multisampling state.
#[derive(Clone, Copy, Debug, PartialEq, Eq, Structural)]
pub struct MultisampleState {
    /// Samples per pixel.
    pub rasterization_samples: u32,
    pub sample_shading: bool,
    pub alpha_to_coverage: bool,
    pub alpha_to_one: bool,
}

/// Single-sample rasterization with no sample shading.
pub fn pipeline_multisampling_state_create_info() -> (r: MultisampleState)
    ensures
        r == (MultisampleState {
            rasterization_samples: 1u32,
            sample_shading: false,
            alpha_to_coverage: false,
            alpha_to_one: false,
        }),
{
    MultisampleState {
        rasterization_samples: 1,
        sample_shading: false,
        alpha_to_coverage: false,
        alpha_to_one: false,
    }
}

/// How the color attachment is blended.
#[derive(Clone, Copy, Debug, PartialEq, Eq, Structural)]
pub struct ColorBlendAttachmentState {
    pub blend_enable: bool,
    /// Source factor, for color and alpha alike (non-separable blending).
    pub src_factor: BlendFactor,
    /// Destination factor, for color and alpha alike.
    pub dst_factor: BlendFactor,
    /// Bit mask of the color components written; all four here.
    pub color_write_mask: u32,
}

/// Standard non-separable alpha blending over all four color components.
pub fn pipeline_color_blend_attachment_state() -> (r: ColorBlendAttachmentState)
    ensures
        r == (ColorBlendAttachmentState {
            blend_enable: true,
            src_factor: BlendFactor::SrcAlpha,
            dst_factor: BlendFactor::OneMinusSrcAlpha,
            color_write_mask: 0xfu32,
        }),
{
    ColorBlendAttachmentState {
        blend_enable: true,
        src_factor: BlendFactor::SrcAlpha,
        dst_factor: BlendFactor::OneMinusSrcAlpha,
        color_write_mask: 0xf,
    }
}

/// One shader stage of a pipeline, bound to a backend module handle.
#[derive(Clone, Copy, Debug, PartialEq, Eq, Structural)]
pub struct ShaderStageDesc {
    pub stage: ShaderStage,
    /// The backend shader-module handle built from the stage's bytecode.
    pub module: u64,
}

/// A shader stage record for the given module handle and source.
pub fn pipeline_shader_stage_create_info(
    shader_module: u64,
    shader_source: &ShaderSource,
) -> (r: ShaderStageDesc)
    ensures
        r == (ShaderStageDesc { stage: shader_source.stage, module: shader_module }),
{
    ShaderStageDesc { stage: shader_source.stage, module: shader_module }
}

/// An empty vertex input layout: no bindings, no attributes.
pub fn pipeline_vertex_input_state_create_info() -> (r: VertexInputDescription)
    ensures
        r.bindings@ == Seq::<VertexBinding>::empty(),
        r.attributes@ == Seq::<VertexAttribute>::empty(),
{
    VertexInputDescription { bindings: Vec::new(), attributes: Vec::new() }
}

/// Everything the backend needs to build the one graphics pipeline this
/// renderer draws with, as plain values.
#[derive(Debug)]
pub struct PipelinePlan {
    /// The compiled shaders, in the caller's order.
    pub shaders: Vec<Shader>,
    /// The vertex record layout.
    pub vertex_input: VertexInputDescription,
    /// Triangle-list assembly.
    pub input_assembly: InputAssemblyState,
    /// Filled, uncalled rasterization.
    pub rasterization: RasterizationState,
    /// Single-sample.
    pub multisample: MultisampleState,
    /// Standard alpha blending.
    pub color_blend: ColorBlendAttachmentState,
    /// Viewport and scissor are dynamic, so a resize needs no rebuild.
    pub dynamic_viewport_scissor: bool,
    /// Size of the inline per-draw parameter block, pushed at the vertex
    /// stage.
    pub push_constant_bytes: u32,
    /// The color-attachment format the pipeline targets.
    pub color_format: u32,
}

/// A built pipeline: the backend handles and the color format it was built
/// for.
#[derive(Clone, Copy, Debug, PartialEq, Eq, Structural)]
pub struct GraphicsPipeline {
    pub pipeline: u64,
    pub layout: u64,
    /// The color-attachment format the pipeline was built for; a structural
    /// change here forces a rebuild.
    pub color_format: u32,
}

impl GraphicsPipeline {
    /// Whether presenting to `new_format` requires rebuilding this
    /// pipeline: only a structural format change does, never an extent
    /// change.
    pub open spec fn spec_needs_rebuild(self, new_format: u32) -> bool {
        self.color_format != new_format
    }

    /// Returns whether the pipeline must be rebuilt for the given format.
    pub fn needs_rebuild(&self, new_format: u32) -> (r: bool)
        ensures
            r == self.spec_needs_rebuild(new_format),
    {
        self.color_format != new_format
    }

    /// Compiles the given shader sources and lays out the whole pipeline:
    /// the fixed vertex record layout, triangle-list topology, filled
    /// rasterization without culling, a single sample, standard
    /// non-separable alpha blending, dynamic viewport and scissor, the
    /// inline per-draw parameter block, and the chain's color format. Fails
    /// exactly when some shader's text does not compile in its dialect at
    /// its stage; on success each stage's bytecode is that compilation's
    /// output.
    pub fn create_pipeline(
        color_format: u32,
        shaders: &Vec<ShaderSource>,
        source_texts: &Vec<String>,
    ) -> (r: Result<PipelinePlan, ShaderCompileError>)
        requires
            shaders@.len() == source_texts@.len(),
        ensures
            (r is Ok <==> forall|i: int|
                0 <= i < shaders@.len() ==> (#[trigger] spec_compile(
                    shaders@[i].language,
                    shaders@[i].stage,
                    source_texts@[i]@,
                )) is Some),
            (r matches Ok(plan) ==> {
                &&& plan.shaders@.len() == shaders@.len()
                &&& forall|i: int|
                    0 <= i < shaders@.len() ==> (#[trigger] plan.shaders@[i]).source
                        == shaders@[i] && plan.shaders@[i].code@.len() >= 5 && Some(
                        plan.shaders@[i].code@,
                    ) == spec_compile(
                        shaders@[i].language,
                        shaders@[i].stage,
                        source_texts@[i]@,
                    )
                &&& plan.vertex_input.bindings@ == seq![
                    VertexBinding { binding: 0u32, stride: VERTEX_STRIDE },
                ]
                &&& plan.vertex_input.attributes@ == seq![
                    VertexAttribute {
                        binding: 0u32,
                        location: 0u32,
                        format: FORMAT_R32G32B32_SFLOAT,
                        offset: VERTEX_POSITION_OFFSET,
                    },
                    VertexAttribute {
                        binding: 0u32,
                        location: 2u32,
                        format: FORMAT_R32G32B32_SFLOAT,
                        offset: VERTEX_COLOR_OFFSET,
                    },
                ]
                &&& plan.input_assembly == (InputAssemblyState {
                    topology: PrimitiveTopology::TriangleList,
                    primitive_restart: false,
                })
                &&& plan.rasterization == (RasterizationState {
                    polygon_mode: PolygonMode::Fill,
                    cull_mode: CullMode::Disabled,
                    front_face: FrontFace::Clockwise,
                    depth_clamp: false,
                    rasterizer_discard: false,
                    depth_bias: false,
                    line_width: 1u32,
                })
                &&& plan.multisample == (MultisampleState {
                    rasterization_samples: 1u32,
                    sample_shading: false,
                    alpha_to_coverage: false,
                    alpha_to_one: false,
                })
                &&& plan.color_blend == (ColorBlendAttachmentState {
                    blend_enable: true,
                    src_factor: BlendFactor::SrcAlpha,
                    dst_factor: BlendFactor::OneMinusSrcAlpha,
                    color_write_mask: 0xfu32,
                })
                &&& plan.dynamic_viewport_scissor
                &&& plan.push_constant_bytes == MESH_PUSH_CONSTANTS_BYTES
                &&& plan.color_format == color_format
            }),
    {
        let mut compiled: Vec<Shader> = Vec::new();
        let mut i: usize = 0;
        while i < shaders.len()
            invariant
                shaders@.len() == source_texts@.len(),
                i <= shaders@.len(),
                compiled@.len() == i,
                forall|k: int|
                    0 <= k < i ==> (#[trigger] compiled@[k]).source == shaders@[k]
                        && compiled@[k].code@.len() >= 5 && Some(compiled@[k].code@)
                        == spec_compile(
                        shaders@[k].language,
                        shaders@[k].stage,
                        source_texts@[k]@,
                    ),
            decreases shaders@.len() - i,
        {
            let source = shaders[i].clone();
            let ghost source_snapshot = source;
            assert(source_snapshot == shaders@[i as int]);
            match source.create_shader(source_texts[i].as_str()) {
                Ok(shader) => {
                    compiled.push(shader);
                },
                Err(e) => {
                    assert(spec_compile(
                        shaders@[i as int].language,
                        shaders@[i as int].stage,
                        source_texts@[i as int]@,
                    ) is None);
                    return Err(e);
                },
            }
            i += 1;
        }
        assert forall|k: int| 0 <= k < shaders@.len() implies (#[trigger] spec_compile(
            shaders@[k].language,
            shaders@[k].stage,
            source_texts@[k]@,
        )) is Some by {
            assert(Some(compiled@[k].code@) == spec_compile(
                shaders@[k].language,
                shaders@[k].stage,
                source_texts@[k]@,
            ));
        }
        Ok(
            PipelinePlan {
                shaders: compiled,
                vertex_input: vertex_input_description(),
                input_assembly: pipeline_input_assembly_create_info(
                    PrimitiveTopology::TriangleList,
                ),
                rasterization: pipeline_rasterization_state_create_info(
                    PolygonMode::Fill,
                    CullMode::Disabled,
                ),
                multisample: pipeline_multisampling_state_create_info(),
                color_blend: pipeline_color_blend_attachment_state(),
                dynamic_viewport_scissor: true,
                push_constant_bytes: MESH_PUSH_CONSTANTS_BYTES,
                color_format,
            },
        )
    }
}

} // verus!
