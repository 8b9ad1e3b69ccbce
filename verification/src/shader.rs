//! The shader program of every rig pipeline, and what it declares.

use vstd::prelude::*;

verus! {

pub const VERTEX: &'static str = r#"
        #version 100
        attribute vec2 position;
        attribute vec2 uv;
        attribute vec4 color;
        attribute vec4 dark_color;

        uniform mat4 world;
        uniform mat4 view;

        varying lowp vec2 f_texcoord;
        varying lowp vec4 f_color;
        varying lowp vec4 f_dark_color;

        void main() {
            gl_Position = view * world * vec4(position, 0, 1);
            f_texcoord = uv;
            f_color = color;
            f_dark_color = dark_color;
        }
    "#;

/// Tints the texture with the light color and the dark color:
/// `rgb = ((tex.a - 1) * dark.a + 1 - tex.rgb) * dark.rgb + tex.rgb * color.rgb`,
/// `a = tex.a * color.a`.
pub const FRAGMENT: &'static str = r#"
        #version 100
        varying lowp vec2 f_texcoord;
        varying lowp vec4 f_color;
        varying lowp vec4 f_dark_color;

        uniform sampler2D tex;

        void main() {
            lowp vec4 tex_color = texture2D(tex, f_texcoord);
            gl_FragColor = vec4(
                ((tex_color.a - 1.0) * f_dark_color.a + 1.0 - tex_color.rgb) * f_dark_color.rgb + tex_color.rgb * f_color.rgb,
                tex_color.a * f_color.a
            );
        }
    "#;

/// The type of a uniform.
#[derive(Clone, Copy, Debug, PartialEq, Eq, Structural)]
pub enum UniformType {
    Float1,
    Float2,
    Float3,
    Float4,
    Int1,
    Int2,
    Int3,
    Int4,
    Mat4,
}

/// One uniform of a shader: its name, its type, and how many of it there are.
#[derive(Clone, Debug, PartialEq, Eq)]
pub struct UniformDesc {
    pub name: String,
    pub uniform_type: UniformType,
    pub array_count: usize,
}

/// The uniforms of a shader, in the order of the uniform block.
#[derive(Clone, Debug, PartialEq, Eq)]
pub struct UniformBlockLayout {
    pub uniforms: Vec<UniformDesc>,
}

/// What a shader declares: its uniforms and the names of its images.
#[derive(Clone, Debug, PartialEq, Eq)]
pub struct ShaderMeta {
    pub uniforms: UniformBlockLayout,
    pub images: Vec<String>,
}

impl UniformDesc {
    pub fn new(name: &str, uniform_type: UniformType) -> (desc: Self)
        ensures
            desc.name@ == name@,
            desc.uniform_type == uniform_type,
            desc.array_count == 1,
    {
        UniformDesc { name: name.to_owned(), uniform_type, array_count: 1 }
    }

    /// Whether this is one uniform of the given name and type.
    pub open spec fn declares(self, name: Seq<char>, uniform_type: UniformType) -> bool {
        self.name@ == name && self.uniform_type == uniform_type && self.array_count == 1
    }
}

/// Whether `meta` declares what the shaders of this module use: the image
/// `tex`, and the two matrices `world` and `view`, in this order.
pub open spec fn is_rig_shader_meta(meta: ShaderMeta) -> bool {
    &&& meta.images@.len() == 1
    &&& meta.images@[0]@ == "tex"@
    &&& meta.uniforms.uniforms@.len() == 2
    &&& meta.uniforms.uniforms@[0].declares("world"@, UniformType::Mat4)
    &&& meta.uniforms.uniforms@[1].declares("view"@, UniformType::Mat4)
}

pub fn meta() -> (meta: ShaderMeta)
    ensures
        is_rig_shader_meta(meta),
{
    let mut images: Vec<String> = Vec::new();
    images.push("tex".to_owned());
    let mut uniforms: Vec<UniformDesc> = Vec::new();
    uniforms.push(UniformDesc::new("world", UniformType::Mat4));
    uniforms.push(UniformDesc::new("view", UniformType::Mat4));
    ShaderMeta { images, uniforms: UniformBlockLayout { uniforms } }
}

} // verus!
