//! The fixed draw pipeline configuration, built once at construction.

use vstd::prelude::*;
use crate::buffer::{Buffer, BufferUsage};
use crate::shader::{is_valid_spirv, read_spirv, spirv_words, ShaderError};

verus! {

/// Initial capacity of the uniform buffer, in 64-byte elements.
pub const UNIFORM_BUFFER_SIZE: usize = 100;

/// Initial capacity of the vertex buffer, in 24-byte vertices.
pub const VERTEX_BUFFER_SIZE: usize = 100_000;

/// Initial capacity of the index buffer, in 4-byte indices.
pub const INDEX_BUFFER_SIZE: usize = 100_000;

/// Size in bytes of one uniform element: a 4x4 matrix of 32-bit floats.
pub const UNIFORM_SIZE_BYTES: usize = 64;

/// Size in bytes of one vertex: a 2-float position and a 4-float color.
pub const VERTEX_SIZE_BYTES: usize = 24;

/// Size in bytes of one index: one unsigned 32-bit integer.
pub const INDEX_SIZE_BYTES: usize = 4;

/// The pixel format of the render target this pipeline draws into.
#[derive(Clone, Copy, PartialEq, Eq, Structural, Debug)]
pub enum TextureFormat {
    /// 8-bit BGRA, sRGB-encoded.
    Bgra8UnormSrgb,
    /// 8-bit BGRA, linear.
    Bgra8Unorm,
    /// 8-bit RGBA, sRGB-encoded.
    Rgba8UnormSrgb,
    /// 8-bit RGBA, linear.
    Rgba8Unorm,
}

/// An antialiasing strategy: multisampling with a fixed sample count.
#[derive(Clone, Copy, PartialEq, Eq, Structural, Debug)]
pub enum Antialiasing {
    /// Multisample antialiasing with 2 samples.
    MSAAx2,
    /// Multisample antialiasing with 4 samples.
    MSAAx4,
    /// Multisample antialiasing with 8 samples.
    MSAAx8,
    /// Multisample antialiasing with 16 samples.
    MSAAx16,
}

impl Antialiasing {
    /// The number of samples of this strategy.
    pub open spec fn spec_sample_count(self) -> u32 {
        match self {
            Antialiasing::MSAAx2 => 2,
            Antialiasing::MSAAx4 => 4,
            Antialiasing::MSAAx8 => 8,
            Antialiasing::MSAAx16 => 16,
        }
    }

    /// Returns the number of samples of this strategy.
    pub fn sample_count(self) -> (r: u32)
        ensures
            r == self.spec_sample_count(),
    {
        match self {
            Antialiasing::MSAAx2 => 2,
            Antialiasing::MSAAx4 => 4,
            Antialiasing::MSAAx8 => 8,
            Antialiasing::MSAAx16 => 16,
        }
    }
}

/// The sample count a pipeline runs at: 1 without antialiasing, the
/// strategy's count with it.
pub open spec fn effective_sample_count(antialiasing: Option<Antialiasing>) -> u32 {
    match antialiasing {
        Option::None => 1,
        Option::Some(a) => a.spec_sample_count(),
    }
}

/// A source or destination factor of the blend equation.
#[derive(Clone, Copy, PartialEq, Eq, Structural, Debug)]
pub enum BlendFactor {
    /// Weight one.
    One,
    /// Weight by the source alpha.
    SrcAlpha,
    /// Weight by one minus the source alpha.
    OneMinusSrcAlpha,
}

/// How weighted source and destination values are combined.
#[derive(Clone, Copy, PartialEq, Eq, Structural, Debug)]
pub enum BlendOperation {
    /// Source plus destination.
    Add,
}

/// One channel's blend equation.
#[derive(Clone, Copy, PartialEq, Eq, Structural, Debug)]
pub struct BlendDescriptor {
    /// The factor applied to the source value.
    pub src_factor: BlendFactor,
    /// The factor applied to the destination value.
    pub dst_factor: BlendFactor,
    /// How the weighted values are combined.
    pub operation: BlendOperation,
}

/// How vertices are assembled into primitives.
#[derive(Clone, Copy, PartialEq, Eq, Structural, Debug)]
pub enum PrimitiveTopology {
    /// Every three consecutive indices form one triangle.
    TriangleList,
}

/// One vertex attribute of the single vertex buffer slot.
#[derive(Clone, Copy, PartialEq, Eq, Structural, Debug)]
pub struct VertexAttribute {
    /// The location the shader reads the attribute at.
    pub shader_location: u32,
    /// How many 32-bit float components the attribute has.
    pub components: u32,
    /// The attribute's byte offset inside one vertex.
    pub offset: u64,
}

/// The fixed GPU pipeline state this core draws with, as plain data.
///
/// Both shader stages enter at `main`; the stages themselves are the
/// SPIR-V words below.
#[derive(Clone, PartialEq, Eq, Debug)]
pub struct PipelineConfig {
    /// The render target's pixel format.
    pub format: TextureFormat,
    /// How vertices form primitives.
    pub topology: PrimitiveTopology,
    /// Whether the front face winds clockwise.
    pub front_face_clockwise: bool,
    /// Whether back or front faces are culled; this core culls none.
    pub culling_enabled: bool,
    /// The blend equation of the color channels.
    pub color_blend: BlendDescriptor,
    /// The blend equation of the alpha channel.
    pub alpha_blend: BlendDescriptor,
    /// Whether the pipeline carries any depth or stencil state; this core
    /// never does.
    pub depth_stencil_enabled: bool,
    /// Byte stride of one vertex in the single vertex buffer slot.
    pub vertex_stride: u64,
    /// The position attribute: two floats at byte 0, location 0.
    pub position_attribute: VertexAttribute,
    /// The color attribute: four floats at byte 8, location 1.
    pub color_attribute: VertexAttribute,
    /// Size in bytes of the dynamically-offset uniform range, visible to
    /// the vertex stage only.
    pub uniform_binding_bytes: u64,
    /// Samples per pixel the pass renders at.
    pub sample_count: u32,
    /// The vertex stage's SPIR-V words.
    pub vertex_shader: Vec<u32>,
    /// The fragment stage's SPIR-V words.
    pub fragment_shader: Vec<u32>,
}

/// The configuration every pipeline of this core is built with, apart from
/// the target format, the sample count and the shader words.
pub open spec fn has_fixed_state(c: PipelineConfig) -> bool {
    &&& c.topology == PrimitiveTopology::TriangleList
    &&& c.front_face_clockwise
    &&& !c.culling_enabled
    &&& c.color_blend == (BlendDescriptor {
        src_factor: BlendFactor::SrcAlpha,
        dst_factor: BlendFactor::OneMinusSrcAlpha,
        operation: BlendOperation::Add,
    })
    &&& c.alpha_blend == (BlendDescriptor {
        src_factor: BlendFactor::One,
        dst_factor: BlendFactor::OneMinusSrcAlpha,
        operation: BlendOperation::Add,
    })
    &&& !c.depth_stencil_enabled
    &&& c.vertex_stride == VERTEX_SIZE_BYTES
    &&& c.position_attribute == (VertexAttribute { shader_location: 0, components: 2, offset: 0 })
    &&& c.color_attribute == (VertexAttribute { shader_location: 1, components: 4, offset: 8 })
    &&& c.uniform_binding_bytes == UNIFORM_SIZE_BYTES
}

/// Why pipeline construction failed.
#[derive(Clone, Copy, PartialEq, Eq, Structural, Debug)]
pub enum CreationError {
    /// The vertex stage's bytecode was rejected.
    VertexShader(ShaderError),
    /// The fragment stage's bytecode was rejected.
    FragmentShader(ShaderError),
}

/// The error `read_spirv` reports for an invalid blob.
pub open spec fn shader_failure(bytes: Seq<u8>) -> ShaderError {
    if bytes.len() % 4 != 0 {
        ShaderError::UnalignedLength
    } else {
        ShaderError::MissingMagicNumber
    }
}

/// The renderer's long-lived state: the fixed pipeline configuration, the
/// optional multisample resolve strategy, and the three growable buffers.
#[derive(Clone, PartialEq, Eq, Debug)]
pub struct Pipeline {
    /// The fixed pipeline state.
    pub config: PipelineConfig,
    /// The multisample strategy, when antialiasing was requested; its
    /// resolve step runs once after every frame drawn through it.
    pub blit: Option<Antialiasing>,
    /// Holds one 64-byte uniform element per draw item.
    pub uniforms_buffer: Buffer,
    /// Holds every item's vertices, back to back.
    pub vertex_buffer: Buffer,
    /// Holds every item's indices, back to back.
    pub index_buffer: Buffer,
}

impl Pipeline {
    /// Well-formedness: the three buffers have the element sizes and usages
    /// the batching algorithm sizes them by, and the pipeline's sample
    /// count matches its multisample strategy.
    pub open spec fn wf(self) -> bool {
        &&& self.uniforms_buffer.element_size == UNIFORM_SIZE_BYTES
        &&& self.uniforms_buffer.usage == BufferUsage::Uniform
        &&& self.vertex_buffer.element_size == VERTEX_SIZE_BYTES
        &&& self.vertex_buffer.usage == BufferUsage::Vertex
        &&& self.index_buffer.element_size == INDEX_SIZE_BYTES
        &&& self.index_buffer.usage == BufferUsage::Index
        &&& self.config.sample_count == effective_sample_count(self.blit)
        &&& has_fixed_state(self.config)
    }

    /// Builds the pipeline: validates both shader stages, fixes the draw
    /// state of every later frame, and creates the three buffers at their
    /// initial capacities.
    ///
    /// Fails exactly when a stage's bytecode is not well-formed SPIR-V, and
    /// names the failing stage; the vertex stage is checked first.
    pub fn new(
        format: TextureFormat,
        antialiasing: Option<Antialiasing>,
        vertex_shader: &Vec<u8>,
        fragment_shader: &Vec<u8>,
    ) -> (r: Result<Pipeline, CreationError>)
        ensures
            r is Ok <==> is_valid_spirv(vertex_shader@) && is_valid_spirv(fragment_shader@),
            !is_valid_spirv(vertex_shader@) ==> r == Err::<Pipeline, CreationError>(
                CreationError::VertexShader(shader_failure(vertex_shader@)),
            ),
            is_valid_spirv(vertex_shader@) && !is_valid_spirv(fragment_shader@) ==> r == Err::<
                Pipeline,
                CreationError,
            >(CreationError::FragmentShader(shader_failure(fragment_shader@))),
            r matches Ok(p) ==> {
                &&& p.wf()
                &&& p.config.format == format
                &&& p.config.sample_count == effective_sample_count(antialiasing)
                &&& p.config.vertex_shader@ == spirv_words(vertex_shader@)
                &&& p.config.fragment_shader@ == spirv_words(fragment_shader@)
                &&& p.blit == antialiasing
                &&& p.uniforms_buffer == (Buffer {
                    element_size: UNIFORM_SIZE_BYTES,
                    size: UNIFORM_BUFFER_SIZE,
                    usage: BufferUsage::Uniform,
                })
                &&& p.vertex_buffer == (Buffer {
                    element_size: VERTEX_SIZE_BYTES,
                    size: VERTEX_BUFFER_SIZE,
                    usage: BufferUsage::Vertex,
                })
                &&& p.index_buffer == (Buffer {
                    element_size: INDEX_SIZE_BYTES,
                    size: INDEX_BUFFER_SIZE,
                    usage: BufferUsage::Index,
                })
            },
    {
        let vertex_words = match read_spirv(vertex_shader) {
            Ok(words) => words,
            Err(e) => {
                return Err(CreationError::VertexShader(e));
            },
        };
        let fragment_words = match read_spirv(fragment_shader) {
            Ok(words) => words,
            Err(e) => {
                return Err(CreationError::FragmentShader(e));
            },
        };
        let sample_count = match antialiasing {
            Some(a) => a.sample_count(),
            None => 1,
        };
        let config = PipelineConfig {
            format,
            topology: PrimitiveTopology::TriangleList,
            front_face_clockwise: true,
            culling_enabled: false,
            color_blend: BlendDescriptor {
                src_factor: BlendFactor::SrcAlpha,
                dst_factor: BlendFactor::OneMinusSrcAlpha,
                operation: BlendOperation::Add,
            },
            alpha_blend: BlendDescriptor {
                src_factor: BlendFactor::One,
                dst_factor: BlendFactor::OneMinusSrcAlpha,
                operation: BlendOperation::Add,
            },
            depth_stencil_enabled: false,
            vertex_stride: 24,
            position_attribute: VertexAttribute { shader_location: 0, components: 2, offset: 0 },
            color_attribute: VertexAttribute { shader_location: 1, components: 4, offset: 8 },
            uniform_binding_bytes: 64,
            sample_count,
            vertex_shader: vertex_words,
            fragment_shader: fragment_words,
        };
        Ok(
            Pipeline {
                config,
                blit: antialiasing,
                uniforms_buffer: Buffer::new(
                    UNIFORM_SIZE_BYTES,
                    UNIFORM_BUFFER_SIZE,
                    BufferUsage::Uniform,
                ),
                vertex_buffer: Buffer::new(
                    VERTEX_SIZE_BYTES,
                    VERTEX_BUFFER_SIZE,
                    BufferUsage::Vertex,
                ),
                index_buffer: Buffer::new(INDEX_SIZE_BYTES, INDEX_BUFFER_SIZE, BufferUsage::Index),
            },
        )
    }
}

} // verus!
