//! Blend modes of a slot and the GPU blend states they stand for.

use vstd::prelude::*;

verus! {

/// How a slot's attachment is composited onto what is already drawn.
#[derive(Clone, Copy, Debug, PartialEq, Eq, Structural)]
pub enum BlendMode {
    Normal,
    Additive,
    Multiply,
    Screen,
}

/// How the weighted source and destination values are combined.
#[derive(Clone, Copy, Debug, PartialEq, Eq, Structural)]
pub enum Equation {
    Add,
    Subtract,
    ReverseSubtract,
}

/// A value that a blend factor can be taken from.
#[derive(Clone, Copy, Debug, PartialEq, Eq, Structural)]
pub enum BlendValue {
    SourceColor,
    SourceAlpha,
    DestinationColor,
    DestinationAlpha,
}

/// The weight given to the source or to the destination.
#[derive(Clone, Copy, Debug, PartialEq, Eq, Structural)]
pub enum BlendFactor {
    Zero,
    One,
    Value(BlendValue),
    OneMinusValue(BlendValue),
    SourceAlphaSaturate,
}

/// One blend configuration: `source * sfactor (equation) destination * dfactor`.
#[derive(Clone, Copy, Debug, PartialEq, Eq, Structural)]
pub struct BlendState {
    pub equation: Equation,
    pub sfactor: BlendFactor,
    pub dfactor: BlendFactor,
}

impl BlendState {
    pub fn new(equation: Equation, sfactor: BlendFactor, dfactor: BlendFactor) -> (state: Self)
        ensures
            state == (BlendState { equation, sfactor, dfactor }),
    {
        BlendState { equation, sfactor, dfactor }
    }
}

/// The pair of blend states of a pipeline: one for alpha, one for color.
///
/// Four blend modes and two alpha conventions give eight pairs; see
/// [`blend_table`].
#[derive(Clone, Copy, Debug, PartialEq, Eq, Structural)]
pub struct BlendStates {
    pub alpha_blend: BlendState,
    pub color_blend: BlendState,
}

/// `source * src + destination * dst`, the only form the table uses.
pub open spec fn additive(src: BlendFactor, dst: BlendFactor) -> BlendState {
    BlendState { equation: Equation::Add, sfactor: src, dfactor: dst }
}

/// A pair of additive states, given as (alpha source, alpha destination) and
/// (color source, color destination).
pub open spec fn pair(alpha: (BlendFactor, BlendFactor), color: (BlendFactor, BlendFactor))
    -> BlendStates {
    BlendStates {
        alpha_blend: additive(alpha.0, alpha.1),
        color_blend: additive(color.0, color.1),
    }
}

/// The blend pair of each mode under each alpha convention.
///
/// | mode     | premultiplied | alpha (src, dst)               | color (src, dst)           |
/// |----------|---------------|--------------------------------|----------------------------|
/// | Additive | no            | (1, 1)                         | (src alpha, 1)             |
/// | Additive | yes           | (1, 1)                         | (1, 1)                     |
/// | Multiply | no            | (1 - src alpha, 1 - src alpha) | (dst color, 1 - src alpha) |
/// | Multiply | yes           | (1 - src alpha, 1 - src alpha) | (dst color, 1 - src alpha) |
/// | Normal   | no            | (1, 1 - src alpha)             | (src alpha, 1 - src alpha) |
/// | Normal   | yes           | (1, 1 - src alpha)             | (1, 1 - src alpha)         |
/// | Screen   | no            | (1 - src color, 1 - src alpha) | (1, 1 - src alpha)         |
/// | Screen   | yes           | (1 - src color, 1 - src alpha) | (1, 1 - src alpha)         |
pub open spec fn blend_table(mode: BlendMode, premultiplied_alpha: bool) -> BlendStates {
    let one = BlendFactor::One;
    let src_alpha = BlendFactor::Value(BlendValue::SourceAlpha);
    let dst_color = BlendFactor::Value(BlendValue::DestinationColor);
    let inv_src_alpha = BlendFactor::OneMinusValue(BlendValue::SourceAlpha);
    let inv_src_color = BlendFactor::OneMinusValue(BlendValue::SourceColor);
    match (mode, premultiplied_alpha) {
        (BlendMode::Additive, false) => pair((one, one), (src_alpha, one)),
        (BlendMode::Additive, true) => pair((one, one), (one, one)),
        (BlendMode::Multiply, false) => pair(
            (inv_src_alpha, inv_src_alpha),
            (dst_color, inv_src_alpha),
        ),
        (BlendMode::Multiply, true) => pair(
            (inv_src_alpha, inv_src_alpha),
            (dst_color, inv_src_alpha),
        ),
        (BlendMode::Normal, false) => pair((one, inv_src_alpha), (src_alpha, inv_src_alpha)),
        (BlendMode::Normal, true) => pair((one, inv_src_alpha), (one, inv_src_alpha)),
        (BlendMode::Screen, false) => pair((inv_src_color, inv_src_alpha), (one, inv_src_alpha)),
        (BlendMode::Screen, true) => pair((inv_src_color, inv_src_alpha), (one, inv_src_alpha)),
    }
}

pub trait GetBlendStates {
    /// The blend pair that `get_blend_states` returns.
    spec fn blend_states(&self, premultiplied_alpha: bool) -> BlendStates;

    fn get_blend_states(&self, premultiplied_alpha: bool) -> (states: BlendStates)
        ensures
            states == self.blend_states(premultiplied_alpha),
    ;
}

impl GetBlendStates for BlendMode {
    open spec fn blend_states(&self, premultiplied_alpha: bool) -> BlendStates {
        blend_table(*self, premultiplied_alpha)
    }

    fn get_blend_states(&self, premultiplied_alpha: bool) -> (states: BlendStates) {
        let one = BlendFactor::One;
        let inv_src_alpha = BlendFactor::OneMinusValue(BlendValue::SourceAlpha);
        // A premultiplied source already carries its alpha; a straight one
        // is weighted by it where the mode adds the source color as it is.
        let source = if premultiplied_alpha {
            BlendFactor::One
        } else {
            BlendFactor::Value(BlendValue::SourceAlpha)
        };
        match self {
            BlendMode::Additive => BlendStates {
                alpha_blend: BlendState::new(Equation::Add, one, one),
                color_blend: BlendState::new(Equation::Add, source, one),
            },
            BlendMode::Multiply => BlendStates {
                alpha_blend: BlendState::new(Equation::Add, inv_src_alpha, inv_src_alpha),
                color_blend: BlendState::new(
                    Equation::Add,
                    BlendFactor::Value(BlendValue::DestinationColor),
                    inv_src_alpha,
                ),
            },
            BlendMode::Normal => BlendStates {
                alpha_blend: BlendState::new(Equation::Add, one, inv_src_alpha),
                color_blend: BlendState::new(Equation::Add, source, inv_src_alpha),
            },
            BlendMode::Screen => BlendStates {
                alpha_blend: BlendState::new(
                    Equation::Add,
                    BlendFactor::OneMinusValue(BlendValue::SourceColor),
                    inv_src_alpha,
                ),
                color_blend: BlendState::new(Equation::Add, one, inv_src_alpha),
            },
        }
    }
}

/// Every pair of the table blends by addition, in both states.
pub proof fn lemma_blend_table_adds(mode: BlendMode, premultiplied_alpha: bool)
    ensures
        blend_table(mode, premultiplied_alpha).alpha_blend.equation == Equation::Add,
        blend_table(mode, premultiplied_alpha).color_blend.equation == Equation::Add,
{
}

/// The alpha convention changes the pair of the additive and normal modes
/// only, and there only the source factor of the color state.
pub proof fn lemma_blend_table_premultiplied(mode: BlendMode)
    ensures
        blend_table(mode, true).alpha_blend == blend_table(mode, false).alpha_blend,
        blend_table(mode, true).color_blend.dfactor == blend_table(mode, false).color_blend.dfactor,
        (mode == BlendMode::Multiply || mode == BlendMode::Screen) ==> blend_table(mode, true)
            == blend_table(mode, false),
        (mode == BlendMode::Additive || mode == BlendMode::Normal) ==> blend_table(
            mode,
            true,
        ).color_blend.sfactor == BlendFactor::One && blend_table(
            mode,
            false,
        ).color_blend.sfactor == BlendFactor::Value(BlendValue::SourceAlpha),
{
}

} // verus!
