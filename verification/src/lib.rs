//! Render-resource and blending core for skeletal-animation rigs.
//!
//! The crate turns one frame's list of draw primitives, with mixed blend modes
//! and textures that may still be loading, into the sequence of GPU commands a
//! host issues for that frame, and keeps the texture cache, the deferred
//! delete queue and the animation-event buffer that go with it. Everything
//! here works on plain values; the host performs the I/O.

pub mod animation_event;
pub mod blend_states;
pub mod create_pipeline;
pub mod delete_queue;
pub mod frame_laws;
pub mod load_state;
pub mod paths;
pub mod render;
pub mod renderable;
pub mod runtime;
pub mod shader;
pub mod spine;
pub mod spine_component;
pub mod spine_state;
pub mod texture_cache;
pub mod texture_loader;
pub mod texture_settings;

pub use animation_event::{AnimationEvent, TrackEntry};
pub use blend_states::{
    BlendFactor, BlendMode, BlendState, BlendStates, BlendValue, Equation, GetBlendStates,
};
pub use create_pipeline::{
    create_pipeline, create_pipeline_with_shader, PipelineParams, PipelineRequest, ShaderSource,
    VertexAttribute, VertexFormat,
};
pub use delete_queue::Token;
pub use load_state::LoadState;
pub use paths::{preloaded_texture_path, read_first_line, texture_path};
pub use render::{find_oversized, render_frame, RenderCommand};
pub use renderable::{PageId, Renderable, Vertex, MAX_MESH_INDICES, MAX_MESH_VERTICES};
pub use runtime::{
    add_to_cache, get_cache_item, get_cache_mut, setup_runtime, unchecked_assume_runtime_created,
    HookSetup, RenderRuntime,
};
pub use shader::{meta, ShaderMeta, UniformBlockLayout, UniformDesc, UniformType};
pub use spine::{
    Animation, AnimationOptions, Atlas, AtlasPage, CullFace, DecodedRig, EngineCommand,
    LoadSpineFromBytes, LoadSpineFromFile, SkeletonData, SkeletonFormat, Skin, Spine, SpineError,
    SpineSkeletonBytes, SpineSkeletonPath,
};
pub use spine_component::{AnimationStateWithData, SpineAnimation};
pub use spine_state::{Pipeline, ShaderError, ShaderType, SpineState};
pub use texture_cache::{TextureCache, TextureHandle};
pub use texture_loader::{
    fallback_image, load_texture_or_fallback, AsyncTextureLoader, Image, LoadTicket, LoaderRequest,
};
pub use texture_settings::{
    convert_filter, convert_wrap, prepare_texture, AtlasFilter, AtlasWrap, FilterMode,
    MipmapFilterMode, SamplerSettings, TextureCommand, TextureWrap,
};
