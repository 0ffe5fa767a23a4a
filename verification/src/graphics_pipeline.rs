//! The two pipelines that all slots share: where their shaders come from and
//! how their fixed-function stages are set up.
use vstd::prelude::*;
use vstd::string::StringExecFns;

verus! {

/// Logical name of the fragment shader.
pub const FRAGMENT_SHADER: &'static str = "frag";

/// Logical name of the vertex shader.
pub const VERTEX_SHADER: &'static str = "vert";

/// Directory that holds the compiled shaders.
pub const SHADER_PATH: &'static str = ".\\src\\shaders";

/// What follows the logical name in a shader's file name.
pub const SHADER_EXTENSION: &'static str = ".spv";

/// Name of the function a shader stage starts in.
pub const SHADER_ENTRY_POINT: &'static str = "main";

/// Colour write mask bits for the red, green, blue and alpha channels.
pub const COLOR_COMPONENT_RGBA: u32 = 0xf;

/// How vertices are assembled into primitives.
#[derive(Clone, Copy, Debug, PartialEq, Eq, Structural)]
pub enum PrimitiveTopology {
    PointList,
    LineList,
    LineStrip,
    TriangleList,
    TriangleStrip,
    TriangleFan,
}

/// How polygons are rasterized.
#[derive(Clone, Copy, Debug, PartialEq, Eq, Structural)]
pub enum PolygonMode {
    Fill,
    Line,
    Point,
}

/// Which faces are discarded before rasterization.
#[derive(Clone, Copy, Debug, PartialEq, Eq, Structural)]
pub enum CullMode {
    Off,
    Front,
    Back,
    FrontAndBack,
}

/// Which winding marks the front of a triangle.
#[derive(Clone, Copy, Debug, PartialEq, Eq, Structural)]
pub enum FrontFace {
    CounterClockwise,
    Clockwise,
}

/// A factor of the blend equation.
#[derive(Clone, Copy, Debug, PartialEq, Eq, Structural)]
pub enum BlendFactor {
    Zero,
    One,
}

/// The operator of the blend equation.
#[derive(Clone, Copy, Debug, PartialEq, Eq, Structural)]
pub enum BlendOp {
    Add,
    Subtract,
    ReverseSubtract,
    Min,
    Max,
}

/// A logical operation between fragment and attachment.
#[derive(Clone, Copy, Debug, PartialEq, Eq, Structural)]
pub enum LogicOp {
    Clear,
    Copy,
    NoOp,
    Invert,
}

/// The fixed-function state of a graphics pipeline with one subpass, as far
/// as it is made of whole numbers and choices.
#[derive(Clone, Copy, Debug, PartialEq, Eq, Structural)]
pub struct FixedFunctionState {
    pub topology: PrimitiveTopology,
    pub primitive_restart: bool,
    pub viewport_count: u32,
    pub scissor_count: u32,
    /// The viewport is set while recording, not baked into the pipeline.
    pub dynamic_viewport: bool,
    /// The scissor is set while recording, not baked into the pipeline.
    pub dynamic_scissor: bool,
    pub depth_clamp: bool,
    pub depth_bias: bool,
    pub rasterizer_discard: bool,
    pub polygon_mode: PolygonMode,
    pub cull_mode: CullMode,
    pub front_face: FrontFace,
    pub rasterization_samples: u32,
    pub sample_shading: bool,
    pub alpha_to_coverage: bool,
    pub alpha_to_one: bool,
    pub blend: bool,
    pub color_write_mask: u32,
    pub src_color_blend_factor: BlendFactor,
    pub dst_color_blend_factor: BlendFactor,
    pub color_blend_op: BlendOp,
    pub src_alpha_blend_factor: BlendFactor,
    pub dst_alpha_blend_factor: BlendFactor,
    pub alpha_blend_op: BlendOp,
    pub logic_op: Option<LogicOp>,
    pub subpass: u32,
}

/// The state both shared pipelines are built with: triangle lists, back faces
/// culled, clockwise front faces, no blending, one viewport and one scissor,
/// both dynamic.
pub open spec fn shared_pipeline_state() -> FixedFunctionState {
    FixedFunctionState {
        topology: PrimitiveTopology::TriangleList,
        primitive_restart: true,
        viewport_count: 1,
        scissor_count: 1,
        dynamic_viewport: true,
        dynamic_scissor: true,
        depth_clamp: false,
        depth_bias: false,
        rasterizer_discard: false,
        polygon_mode: PolygonMode::Fill,
        cull_mode: CullMode::Back,
        front_face: FrontFace::Clockwise,
        rasterization_samples: 1,
        sample_shading: false,
        alpha_to_coverage: false,
        alpha_to_one: false,
        blend: false,
        color_write_mask: COLOR_COMPONENT_RGBA,
        src_color_blend_factor: BlendFactor::One,
        dst_color_blend_factor: BlendFactor::Zero,
        color_blend_op: BlendOp::Add,
        src_alpha_blend_factor: BlendFactor::One,
        dst_alpha_blend_factor: BlendFactor::Zero,
        alpha_blend_op: BlendOp::Add,
        logic_op: Some(LogicOp::Copy),
        subpass: 0,
    }
}

/// Word `index` of shader code: four bytes, the lowest first.
pub open spec fn word_at(code: Seq<u8>, index: int) -> u32 {
    (code[4 * index] + code[4 * index + 1] * 0x100 + code[4 * index + 2] * 0x1_0000 + code[4
        * index + 3] * 0x100_0000) as u32
}

/// The words of shader code whose length is a multiple of four.
pub open spec fn code_words(code: Seq<u8>) -> Seq<u32> {
    Seq::new(code.len() / 4, |index: int| word_at(code, index))
}

/// Why bytes cannot be shader code.
#[derive(Clone, Copy, Debug, PartialEq, Eq, Structural)]
pub enum ShaderError {
    /// No bytes at all.
    Empty,
    /// The length is not a multiple of four bytes.
    Unaligned,
}

/// A built pipeline: the handles of its pipeline objects and of its layout.
/// Read-only once built; every slot's commands may refer to it.
#[derive(Debug)]
pub struct PipelineInfo {
    pub graphics_pipelines: Vec<u64>,
    pub pipeline_layout: u64,
}

impl PipelineInfo {
    /// The pipeline made of the given device objects.
    pub fn new(graphics_pipelines: Vec<u64>, pipeline_layout: u64) -> (r: PipelineInfo)
        ensures
            r.graphics_pipelines == graphics_pipelines,
            r.pipeline_layout == pipeline_layout,
    {
        PipelineInfo { graphics_pipelines, pipeline_layout }
    }

    /// The fixed-function state to build a shared pipeline with.
    pub fn fixed_function_state() -> (r: FixedFunctionState)
        ensures
            r == shared_pipeline_state(),
    {
        FixedFunctionState {
            topology: PrimitiveTopology::TriangleList,
            primitive_restart: true,
            viewport_count: 1,
            scissor_count: 1,
            dynamic_viewport: true,
            dynamic_scissor: true,
            depth_clamp: false,
            depth_bias: false,
            rasterizer_discard: false,
            polygon_mode: PolygonMode::Fill,
            cull_mode: CullMode::Back,
            front_face: FrontFace::Clockwise,
            rasterization_samples: 1,
            sample_shading: false,
            alpha_to_coverage: false,
            alpha_to_one: false,
            blend: false,
            color_write_mask: COLOR_COMPONENT_RGBA,
            src_color_blend_factor: BlendFactor::One,
            dst_color_blend_factor: BlendFactor::Zero,
            color_blend_op: BlendOp::Add,
            src_alpha_blend_factor: BlendFactor::One,
            dst_alpha_blend_factor: BlendFactor::Zero,
            alpha_blend_op: BlendOp::Add,
            logic_op: Some(LogicOp::Copy),
            subpass: 0,
        }
    }

    /// The name of the file that holds the shader `shader_name`, inside
    /// `SHADER_PATH`.
    pub fn shader_file_name(shader_name: &str) -> (r: String)
        ensures
            r@ == shader_name@ + SHADER_EXTENSION@,
    {
        String::from_str(shader_name).concat(SHADER_EXTENSION)
    }

    /// The words to create a shader module from: the bytes of a shader file,
    /// four to a word.
    pub fn create_shader_module(code: &Vec<u8>) -> (r: Result<Vec<u32>, ShaderError>)
        ensures
            code@.len() == 0 ==> r == Err::<Vec<u32>, ShaderError>(ShaderError::Empty),
            code@.len() % 4 != 0 ==> r == Err::<Vec<u32>, ShaderError>(ShaderError::Unaligned),
            code@.len() > 0 && code@.len() % 4 == 0 ==> r is Ok && r->Ok_0@ == code_words(code@),
    {
        let n: usize = code.len();
        if n == 0 {
            return Err(ShaderError::Empty);
        }
        if n % 4 != 0 {
            return Err(ShaderError::Unaligned);
        }
        let count: usize = n / 4;
        let mut words: Vec<u32> = Vec::with_capacity(count);
        let mut index: usize = 0;
        while index < count
            invariant
                index <= count,
                count == n / 4,
                n == code@.len(),
                n % 4 == 0,
                words@.len() == index,
                forall|k: int| 0 <= k < index ==> words@[k] == word_at(code@, k),
            decreases count - index,
        {
            let at: usize = 4 * index;
            let word: u32 = code[at] as u32 + code[at + 1] as u32 * 0x100 + code[at + 2] as u32
                * 0x1_0000 + code[at + 3] as u32 * 0x100_0000;
            words.push(word);
            index += 1;
        }
        assert(words@ =~= code_words(code@));
        Ok(words)
    }
}

} // verus!
