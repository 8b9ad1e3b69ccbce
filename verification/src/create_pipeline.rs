//! What the host needs to make the GPU pipeline of a rig.

use vstd::prelude::*;
use crate::blend_states::BlendState;
use crate::shader::{is_rig_shader_meta, meta, ShaderMeta, FRAGMENT, VERTEX};
use crate::spine::{CullFace, Spine};

verus! {

/// The source of a shader program.
#[derive(Clone, Copy, Debug, PartialEq, Eq)]
pub enum ShaderSource<'a> {
    Glsl { vertex: &'a str, fragment: &'a str },
}

/// The type of a vertex attribute.
#[derive(Clone, Copy, Debug, PartialEq, Eq, Structural)]
pub enum VertexFormat {
    Float1,
    Float2,
    Float3,
    Float4,
}

/// One attribute of a vertex, as the vertex shader names it.
#[derive(Clone, Copy, Debug, PartialEq, Eq)]
pub struct VertexAttribute {
    pub name: &'static str,
    pub format: VertexFormat,
}

impl VertexAttribute {
    pub fn new(name: &'static str, format: VertexFormat) -> (attribute: Self)
        ensures
            attribute.name == name,
            attribute.format == format,
    {
        VertexAttribute { name, format }
    }

    /// Whether this is the attribute of the given name and type.
    pub open spec fn declares(self, name: Seq<char>, format: VertexFormat) -> bool {
        self.name@ == name && self.format == format
    }
}

/// The fixed-function state of a pipeline. A blend state of `None` leaves
/// blending off.
#[derive(Clone, Copy, Debug, PartialEq, Eq)]
pub struct PipelineParams {
    pub cull_face: CullFace,
    pub color_blend: Option<BlendState>,
    pub alpha_blend: Option<BlendState>,
}

/// Everything that one pipeline is made of.
#[derive(Clone, Debug, PartialEq, Eq)]
pub struct PipelineRequest<'a> {
    pub source: ShaderSource<'a>,
    pub meta: ShaderMeta,
    pub attributes: Vec<VertexAttribute>,
    pub params: PipelineParams,
}

/// Whether the attributes are those of a rig vertex: position, texture
/// coordinate, light color and dark color, in the order of the vertex buffer.
pub open spec fn is_rig_vertex_layout(attributes: Seq<VertexAttribute>) -> bool {
    &&& attributes.len() == 4
    &&& attributes[0].declares("position"@, VertexFormat::Float2)
    &&& attributes[1].declares("uv"@, VertexFormat::Float2)
    &&& attributes[2].declares("color"@, VertexFormat::Float4)
    &&& attributes[3].declares("dark_color"@, VertexFormat::Float4)
}

/// The state of a pipeline that culls like the rig and blends with the given
/// pair, alpha state first, or not at all.
pub open spec fn params_of(cull_face: CullFace, blends: Option<(BlendState, BlendState)>)
    -> PipelineParams {
    PipelineParams {
        cull_face,
        alpha_blend: match blends {
            Some(pair) => Some(pair.0),
            None => None,
        },
        color_blend: match blends {
            Some(pair) => Some(pair.1),
            None => None,
        },
    }
}

/// The pipeline of a rig with the rig shaders of this crate.
pub fn create_pipeline(spine: &Spine, blends: Option<(BlendState, BlendState)>) -> (request:
    PipelineRequest<'static>)
    ensures
        request.source == (ShaderSource::Glsl { vertex: VERTEX, fragment: FRAGMENT }),
        is_rig_shader_meta(request.meta),
        is_rig_vertex_layout(request.attributes@),
        request.params == params_of(spine.cull_face, blends),
{
    let source = ShaderSource::Glsl { vertex: VERTEX, fragment: FRAGMENT };
    create_pipeline_with_shader(spine, blends, source)
}

/// The pipeline of a rig with a shader program of the caller, which has to
/// declare what the rig shaders declare.
pub fn create_pipeline_with_shader<'a>(
    spine: &Spine,
    blends: Option<(BlendState, BlendState)>,
    source: ShaderSource<'a>,
) -> (request: PipelineRequest<'a>)
    ensures
        request.source == source,
        is_rig_shader_meta(request.meta),
        is_rig_vertex_layout(request.attributes@),
        request.params == params_of(spine.cull_face, blends),
{
    let mut attributes: Vec<VertexAttribute> = Vec::new();
    attributes.push(VertexAttribute::new("position", VertexFormat::Float2));
    attributes.push(VertexAttribute::new("uv", VertexFormat::Float2));
    attributes.push(VertexAttribute::new("color", VertexFormat::Float4));
    attributes.push(VertexAttribute::new("dark_color", VertexFormat::Float4));
    let params = PipelineParams {
        cull_face: spine.cull_face,
        alpha_blend: match blends {
            Some(pair) => Some(pair.0),
            None => None,
        },
        color_blend: match blends {
            Some(pair) => Some(pair.1),
            None => None,
        },
    };
    PipelineRequest { source, meta: meta(), attributes, params }
}

} // verus!
