//! Filter and wrap settings of an atlas page, and the sampler commands that
//! apply them to a texture.

use vstd::prelude::*;
use crate::texture_cache::TextureHandle;

verus! {

/// The texture filter that an atlas page asks for.
#[derive(Clone, Copy, Debug, PartialEq, Eq, Structural)]
pub enum AtlasFilter {
    UnknownFilter,
    Nearest,
    Linear,
    Mipmap,
    MipmapNearestNearest,
    MipmapLinearNearest,
    MipmapNearestLinear,
    MipmapLinearLinear,
}

/// The texture wrap that an atlas page asks for on one axis.
#[derive(Clone, Copy, Debug, PartialEq, Eq, Structural)]
pub enum AtlasWrap {
    MirroredRepeat,
    ClampToEdge,
    Repeat,
    Unknown,
}

/// How a texture is sampled between texels.
#[derive(Clone, Copy, Debug, PartialEq, Eq, Structural)]
pub enum FilterMode {
    Linear,
    Nearest,
}

/// How a texture is sampled between mipmap levels.
#[derive(Clone, Copy, Debug, PartialEq, Eq, Structural)]
pub enum MipmapFilterMode {
    Off,
    Linear,
    Nearest,
}

/// How a texture is sampled outside its own area.
#[derive(Clone, Copy, Debug, PartialEq, Eq, Structural)]
pub enum TextureWrap {
    Repeat,
    Mirror,
    Clamp,
}

/// The sampler settings of one atlas page.
#[derive(Clone, Copy, Debug, PartialEq, Eq, Structural)]
pub struct SamplerSettings {
    pub mag_filter: FilterMode,
    pub min_filter: FilterMode,
    pub x_wrap: TextureWrap,
    pub y_wrap: TextureWrap,
}

/// One sampler call on a texture.
#[derive(Clone, Copy, Debug, PartialEq, Eq, Structural)]
pub enum TextureCommand {
    SetFilter { texture: TextureHandle, filter: FilterMode, mipmap: MipmapFilterMode },
    SetMagFilter { texture: TextureHandle, filter: FilterMode },
    SetMinFilter { texture: TextureHandle, filter: FilterMode, mipmap: MipmapFilterMode },
    SetWrap { texture: TextureHandle, x_wrap: TextureWrap, y_wrap: TextureWrap },
}

/// The filter mode used for an atlas filter. Only the two plain filters are
/// supported; every other one is drawn with linear filtering.
pub open spec fn filter_mode_of(filter: AtlasFilter) -> FilterMode {
    if filter == AtlasFilter::Nearest {
        FilterMode::Nearest
    } else {
        FilterMode::Linear
    }
}

/// The texture wrap used for an atlas wrap. An unknown one clamps.
pub open spec fn texture_wrap_of(wrap: AtlasWrap) -> TextureWrap {
    match wrap {
        AtlasWrap::MirroredRepeat => TextureWrap::Mirror,
        AtlasWrap::Repeat => TextureWrap::Repeat,
        AtlasWrap::ClampToEdge => TextureWrap::Clamp,
        AtlasWrap::Unknown => TextureWrap::Clamp,
    }
}

pub fn convert_filter(filter: AtlasFilter) -> (mode: FilterMode)
    ensures
        mode == filter_mode_of(filter),
{
    match filter {
        AtlasFilter::Linear => FilterMode::Linear,
        AtlasFilter::Nearest => FilterMode::Nearest,
        _ => FilterMode::Linear,
    }
}

pub fn convert_wrap(wrap: AtlasWrap) -> (mode: TextureWrap)
    ensures
        mode == texture_wrap_of(wrap),
{
    match wrap {
        AtlasWrap::ClampToEdge => TextureWrap::Clamp,
        AtlasWrap::MirroredRepeat => TextureWrap::Mirror,
        AtlasWrap::Repeat => TextureWrap::Repeat,
        _ => TextureWrap::Clamp,
    }
}

/// The sampler calls that prepare a texture for drawing, in the order in
/// which they are issued.
pub open spec fn sampler_commands(texture: TextureHandle, settings: SamplerSettings) -> Seq<
    TextureCommand,
> {
    seq![
        TextureCommand::SetFilter {
            texture,
            filter: FilterMode::Linear,
            mipmap: MipmapFilterMode::Off,
        },
        TextureCommand::SetMagFilter { texture, filter: settings.mag_filter },
        TextureCommand::SetMinFilter {
            texture,
            filter: settings.min_filter,
            mipmap: MipmapFilterMode::Off,
        },
        TextureCommand::SetWrap { texture, x_wrap: settings.x_wrap, y_wrap: settings.y_wrap },
    ]
}

/// Resets the texture to linear filtering without mipmaps, then sets the
/// magnification filter, the minification filter and the wrap of both axes.
pub fn prepare_texture(
    texture: TextureHandle,
    mag_filter: FilterMode,
    min_filter: FilterMode,
    x_wrap: TextureWrap,
    y_wrap: TextureWrap,
) -> (commands: Vec<TextureCommand>)
    ensures
        commands@ == sampler_commands(
            texture,
            SamplerSettings { mag_filter, min_filter, x_wrap, y_wrap },
        ),
{
    let mut commands: Vec<TextureCommand> = Vec::new();
    commands.push(
        TextureCommand::SetFilter {
            texture,
            filter: FilterMode::Linear,
            mipmap: MipmapFilterMode::Off,
        },
    );
    commands.push(TextureCommand::SetMagFilter { texture, filter: mag_filter });
    commands.push(
        TextureCommand::SetMinFilter { texture, filter: min_filter, mipmap: MipmapFilterMode::Off },
    );
    commands.push(TextureCommand::SetWrap { texture, x_wrap, y_wrap });
    assert(commands@ =~= sampler_commands(
        texture,
        SamplerSettings { mag_filter, min_filter, x_wrap, y_wrap },
    ));
    commands
}

} // verus!
