//! Grafiska: a small 3D graphics API whose resources are named by 32-bit
//! handles, kept in generational pools that detect dangling accesses.
pub mod context;
pub mod desc;
pub mod handle;
pub mod metal;
pub mod opengl;
pub mod pool;
pub mod types;

pub use context::Context;
pub use desc::{
    AttachmentDesc, BufferDesc, Config, DepthStencilState, DrawState, ImageContent, PassDesc,
    ShaderDesc, ShaderImageDesc, ShaderStageDesc, ShaderUniformBlockDesc, ShaderUniformDesc,
    StencilAttachmentAction, StencilState, SubimageContent, VertexAttrDesc, VertexLayoutDesc,
    CUBEFACE_NUM, MAX_COLOR_ATTACHMENTS, MAX_MIPMAPS, MAX_SHADERSTAGE_BUFFERS,
    MAX_SHADERSTAGE_IMAGES, MAX_SHADERSTAGE_UBS, MAX_TEXTUREARRAY_LAYERS, MAX_UB_MEMBERS,
    MAX_VERTEX_ATTRIBUTES, NUM_INFLIGHT_FRAMES, NUM_SHADER_STAGES,
};
pub use handle::{
    decode, encode, is_valid, Buffer, Image, Pass, Pipeline, ResourceHandle, Shader,
    INVALID_ID, MAX_POOL_SIZE, SLOT_MASK, SLOT_SHIFT,
};
pub use pool::{Pool, PoolView, ResourceState, Slot};
pub use types::{
    Action, BlendFactor, BlendOp, BufferType, ColorMask, CompareFunc, CullMode, FaceWinding,
    Feature, Filter, ImageType, IndexType, PixelFormat, PrimitiveType, ShaderStage, StencilOp,
    UniformType, Usage, VertexFormat, VertexStep, Wrap,
};
