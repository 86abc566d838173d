use poogie::pipeline::{GraphicsPipeline, MESH_PUSH_CONSTANTS_BYTES, VERTEX_STRIDE};
use poogie::shader::{ShaderCompileError, ShaderLanguage, ShaderSource, ShaderStage, SPIRV_MAGIC};

const WGSL_SOURCE: &str = "
@vertex
fn vs_main(@builtin(vertex_index) i: u32) -> @builtin(position) vec4<f32> {
    return vec4<f32>(0.0, 0.0, 0.0, 1.0);
}

@fragment
fn fs_main() -> @location(0) vec4<f32> {
    return vec4<f32>(1.0, 0.0, 0.0, 1.0);
}
";

const GLSL_VERTEX_SOURCE: &str = "#version 450
void main() {
    gl_Position = vec4(0.0, 0.0, 0.0, 1.0);
}
";

fn wgsl_source(stage: ShaderStage, entry: &str) -> ShaderSource {
    ShaderSource::builder().entry(entry.to_string()).build(
        stage,
        ShaderLanguage::WGSL,
        "shader.wgsl".to_string(),
    )
}

#[test]
fn builder_defaults_to_main_entry() {
    let b = ShaderSource::builder();
    assert_eq!(b.entry, "main");
    let source = b.build(ShaderStage::Fragment, ShaderLanguage::GLSL, "a.frag".to_string());
    assert_eq!(source.entry, "main");
    assert_eq!(source.stage, ShaderStage::Fragment);
    assert_eq!(source.language, ShaderLanguage::GLSL);
    assert_eq!(source.path, "a.frag");
}

#[test]
fn builder_entry_overrides() {
    let b = ShaderSource::builder().entry("vs_main".to_string());
    assert_eq!(b.entry, "vs_main");
}

#[test]
fn wgsl_compiles_to_bytecode() {
    let source = wgsl_source(ShaderStage::Vertex, "vs_main");
    let shader = source.create_shader(WGSL_SOURCE).unwrap();
    // The back-end really ran: the output is bytecode, not the text.
    assert!(shader.code.len() >= 5);
    assert_eq!(shader.code[0], SPIRV_MAGIC);
    assert_eq!(shader.source.language, ShaderLanguage::WGSL);
    assert_eq!(shader.source.entry, "vs_main");
}

#[test]
fn glsl_compiles_to_bytecode() {
    let source = ShaderSource::builder().build(
        ShaderStage::Vertex,
        ShaderLanguage::GLSL,
        "tri.vert".to_string(),
    );
    let shader = source.create_shader(GLSL_VERTEX_SOURCE).unwrap();
    assert!(shader.code.len() >= 5);
    assert_eq!(shader.code[0], SPIRV_MAGIC);
}

#[test]
fn bad_wgsl_reports_a_parse_error() {
    let source = wgsl_source(ShaderStage::Vertex, "vs_main");
    let r = source.create_shader("fn { not wgsl");
    match r {
        Err(ShaderCompileError::Parse(msg)) => assert!(!msg.is_empty()),
        other => panic!("unexpected compile result: {other:?}"),
    }
}

#[test]
fn bad_glsl_reports_a_parse_error() {
    let source = ShaderSource::builder().build(
        ShaderStage::Vertex,
        ShaderLanguage::GLSL,
        "bad.vert".to_string(),
    );
    let r = source.create_shader("void main( {");
    assert!(matches!(r, Err(ShaderCompileError::Parse(_))));
}

#[test]
fn pipeline_plan_compiles_both_stages() {
    let shaders = vec![
        wgsl_source(ShaderStage::Vertex, "vs_main"),
        wgsl_source(ShaderStage::Fragment, "fs_main"),
    ];
    let texts = vec![WGSL_SOURCE.to_string(), WGSL_SOURCE.to_string()];
    let plan = GraphicsPipeline::create_pipeline(50, &shaders, &texts).unwrap();
    assert_eq!(plan.shaders.len(), 2);
    assert_eq!(plan.shaders[0].source.stage, ShaderStage::Vertex);
    assert_eq!(plan.shaders[1].source.stage, ShaderStage::Fragment);
    assert_eq!(plan.shaders[0].code[0], SPIRV_MAGIC);
    assert_eq!(plan.color_format, 50);
    assert_eq!(plan.push_constant_bytes, MESH_PUSH_CONSTANTS_BYTES);
    assert!(plan.dynamic_viewport_scissor);
    assert_eq!(plan.vertex_input.bindings.len(), 1);
    assert_eq!(plan.vertex_input.bindings[0].stride, VERTEX_STRIDE);
    assert_eq!(plan.vertex_input.attributes.len(), 2);
    assert_eq!(plan.vertex_input.attributes[0].location, 0);
    assert_eq!(plan.vertex_input.attributes[0].offset, 0);
    assert_eq!(plan.vertex_input.attributes[1].location, 2);
    assert_eq!(plan.vertex_input.attributes[1].offset, 24);
}

#[test]
fn pipeline_plan_fails_on_a_bad_shader() {
    let shaders = vec![wgsl_source(ShaderStage::Vertex, "vs_main")];
    let texts = vec!["not a shader at all {{{".to_string()];
    let r = GraphicsPipeline::create_pipeline(50, &shaders, &texts);
    assert!(matches!(r, Err(ShaderCompileError::Parse(_))));
}

#[test]
fn compilation_is_deterministic() {
    // The same text, stage, and dialect always yield the same bytecode.
    let a = wgsl_source(ShaderStage::Vertex, "vs_main").create_shader(WGSL_SOURCE).unwrap();
    let b = wgsl_source(ShaderStage::Vertex, "vs_main").create_shader(WGSL_SOURCE).unwrap();
    assert_eq!(a.code, b.code);
    let c = ShaderSource::builder()
        .build(ShaderStage::Vertex, ShaderLanguage::GLSL, "tri.vert".to_string())
        .create_shader(GLSL_VERTEX_SOURCE)
        .unwrap();
    let d = ShaderSource::builder()
        .build(ShaderStage::Vertex, ShaderLanguage::GLSL, "tri.vert".to_string())
        .create_shader(GLSL_VERTEX_SOURCE)
        .unwrap();
    assert_eq!(c.code, d.code);
}

#[test]
fn rebuild_only_on_format_change() {
    let p = GraphicsPipeline { pipeline: 1, layout: 2, color_format: 50 };
    assert!(!p.needs_rebuild(50));
    assert!(p.needs_rebuild(44));
}
