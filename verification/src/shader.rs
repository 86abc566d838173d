//! Shader module builds: source text in one of two dialects is routed
//! through that dialect's front-end parser into a common intermediate
//! representation, validated, and emitted as portable bytecode by a back-end
//! chosen independent of dialect.

use vstd::prelude::*;
use vstd::string::StringExecFns;

use naga::back::spv::{write_vec, Options as SpvOptions, PipelineOptions};
use naga::front::glsl::{Frontend, Options as GlslOptions};
use naga::front::wgsl::parse_str;
use naga::valid::{Capabilities, ValidationFlags, Validator};
use naga::ShaderStage as NagaShaderStage;

verus! {

/// First word of any emitted bytecode module: the format's magic number.
pub const SPIRV_MAGIC: u32 = 0x0723_0203;

/// The dialect a shader's source text is written in.
#[derive(Clone, Copy, Debug, PartialEq, Eq, Structural)]
pub enum ShaderLanguage {
    GLSL,
    WGSL,
}

/// The pipeline stage a shader runs at.
#[derive(Clone, Copy, Debug, PartialEq, Eq, Structural)]
pub enum ShaderStage {
    Vertex,
    Fragment,
    Compute,
}

/// Why a shader build failed; fatal at startup.
#[derive(Debug)]
pub enum ShaderCompileError {
    /// The front-end for the source's dialect rejected the text.
    Parse(String),
    /// The parsed module failed validation.
    Validation(String),
    /// The parsed module holds no entry point to emit.
    MissingEntryPoint,
    /// The bytecode back-end failed.
    Emit(String),
}

/// The portable bytecode that compiling the given source text at the given
/// stage in the given dialect yields, or nothing when the text does not
/// parse, validate, and emit. Compilation is a function of these three
/// arguments alone.
pub uninterp spec fn spec_compile(
    language: ShaderLanguage,
    stage: ShaderStage,
    source: Seq<char>,
) -> Option<Seq<u32>>;

/// Relies on naga's WGSL front end (`front::wgsl::parse_str`), validator
/// (`valid::Validator::validate`), and bytecode back-end
/// (`back::spv::write_vec`), run as one step so the validation information
/// is applied to the very module it was computed for. The result depends on
/// the source text alone (the WGSL route carries its own entry points); on
/// success it begins with the format's five-word header, whose first word
/// is the magic number.
#[verifier::external_body]
fn compile_wgsl(source: &str, stage: ShaderStage) -> (r: Result<Vec<u32>, ShaderCompileError>)
    ensures
        (r is Ok <==> spec_compile(ShaderLanguage::WGSL, stage, source@) is Some),
        (r matches Ok(code) ==> Some(code@) == spec_compile(ShaderLanguage::WGSL, stage, source@)
            && code@.len() >= 5 && code@[0] == SPIRV_MAGIC),
{
    let module = parse_str(source)
        .map_err(|e| ShaderCompileError::Parse(e.emit_to_string(source)))?;
    let info = Validator::new(ValidationFlags::empty(), Capabilities::empty())
        .validate(&module)
        .map_err(|e| ShaderCompileError::Validation(format!("{e:?}")))?;
    write_vec(&module, &info, &SpvOptions::default(), None)
        .map_err(|e| ShaderCompileError::Emit(format!("{e:?}")))
}

/// Relies on naga's GLSL front end (`front::glsl::Frontend::parse`,
/// parameterized by the pipeline stage), validator
/// (`valid::Validator::validate`), and bytecode back-end
/// (`back::spv::write_vec`, pointed at the module's first entry point), run
/// as one step so the validation information is applied to the very module
/// it was computed for. The result depends on the source text and the stage
/// alone; on success it begins with the format's five-word header, whose
/// first word is the magic number.
#[verifier::external_body]
fn compile_glsl(source: &str, stage: ShaderStage) -> (r: Result<Vec<u32>, ShaderCompileError>)
    ensures
        (r is Ok <==> spec_compile(ShaderLanguage::GLSL, stage, source@) is Some),
        (r matches Ok(code) ==> Some(code@) == spec_compile(ShaderLanguage::GLSL, stage, source@)
            && code@.len() >= 5 && code@[0] == SPIRV_MAGIC),
{
    let naga_stage = match stage {
        ShaderStage::Vertex => NagaShaderStage::Vertex,
        ShaderStage::Fragment => NagaShaderStage::Fragment,
        ShaderStage::Compute => NagaShaderStage::Compute,
    };
    let module = Frontend::default()
        .parse(&GlslOptions::from(naga_stage), source)
        .map_err(|e| ShaderCompileError::Parse(format!("{e}")))?;
    let info = Validator::new(ValidationFlags::empty(), Capabilities::empty())
        .validate(&module)
        .map_err(|e| ShaderCompileError::Validation(format!("{e:?}")))?;
    let ep = module.entry_points.first().ok_or(ShaderCompileError::MissingEntryPoint)?;
    let po = PipelineOptions { shader_stage: ep.stage, entry_point: ep.name.clone() };
    write_vec(&module, &info, &SpvOptions::default(), Some(&po))
        .map_err(|e| ShaderCompileError::Emit(format!("{e:?}")))
}

/// Builds a description of one shader to compile.
#[derive(Debug)]
pub struct ShaderSourceBuilder {
    pub entry: String,
}

impl ShaderSourceBuilder {
    /// A fresh builder whose entry point is named "main".
    pub fn default() -> (r: Self)
        ensures
            r.entry@ == "main"@,
    {
        ShaderSourceBuilder { entry: String::from_str("main") }
    }

    /// Replaces the entry-point name.
    pub fn entry(self, entry: String) -> (r: Self)
        ensures
            r.entry == entry,
    {
        ShaderSourceBuilder { entry }
    }

    /// Finishes the description.
    pub fn build(self, stage: ShaderStage, language: ShaderLanguage, path: String) -> (r:
        ShaderSource)
        ensures
            r.stage == stage,
            r.language == language,
            r.path == path,
            r.entry == self.entry,
    {
        ShaderSource { stage, language, path, entry: self.entry }
    }
}

/// Where one shader comes from and how to compile it.
#[derive(Debug)]
pub struct ShaderSource {
    pub stage: ShaderStage,
    pub language: ShaderLanguage,
    /// Where the source text lives; the caller reads it.
    pub path: String,
    pub entry: String,
}

impl Clone for ShaderSource {
    /// A clone carries the same stage, dialect, path, and entry point.
    fn clone(&self) -> (r: Self)
        ensures
            r == *self,
    {
        ShaderSource {
            stage: self.stage,
            language: self.language,
            path: self.path.clone(),
            entry: self.entry.clone(),
        }
    }
}

impl ShaderSource {
    /// A fresh builder whose entry point is named "main".
    pub fn builder() -> (r: ShaderSourceBuilder)
        ensures
            r.entry@ == "main"@,
    {
        ShaderSourceBuilder::default()
    }

    /// Compiles the given source text: the dialect's front-end parses it
    /// into the common intermediate representation, validation checks it,
    /// and the back-end emits portable bytecode. Succeeds exactly when the
    /// text compiles in this description's dialect at its stage; the
    /// bytecode is that compilation's output, beginning with the format's
    /// magic word, and the description is kept beside it.
    pub fn create_shader(self, source_text: &str) -> (r: Result<Shader, ShaderCompileError>)
        ensures
            (r is Ok <==> spec_compile(self.language, self.stage, source_text@) is Some),
            (r matches Ok(shader) ==> {
                &&& shader.source == self
                &&& Some(shader.code@) == spec_compile(self.language, self.stage, source_text@)
                &&& shader.code@.len() >= 5
                &&& shader.code@[0] == SPIRV_MAGIC
            }),
    {
        let compiled = match self.language {
            ShaderLanguage::WGSL => compile_wgsl(source_text, self.stage),
            ShaderLanguage::GLSL => compile_glsl(source_text, self.stage),
        };
        match compiled {
            Ok(code) => Ok(Shader { code, source: self }),
            Err(e) => Err(e),
        }
    }
}

/// A compiled shader: portable bytecode together with its description.
#[derive(Debug)]
pub struct Shader {
    pub code: Vec<u32>,
    pub source: ShaderSource,
}

} // verus!
