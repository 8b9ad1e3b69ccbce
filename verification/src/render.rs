//! The commands of one frame.
//!
//! A frame deletes the textures that were queued for deletion, grows the
//! buffer slots to the number of renderables, and then walks the renderables
//! in draw order: it binds a pipeline where the blend pair changes, and
//! uploads and draws every renderable whose texture is there. A renderable
//! without a texture is skipped for this frame.

use vstd::prelude::*;
use crate::blend_states::{blend_table, BlendStates, GetBlendStates};
use crate::delete_queue::drained;
use crate::load_state::LoadState;
use crate::renderable::{PageId, Renderable};
use crate::runtime::RenderRuntime;
use crate::texture_cache::TextureHandle;
use crate::texture_loader::resolved_texture;

verus! {

/// One call that the host makes on the GPU.
#[derive(Clone, Copy, Debug, PartialEq, Eq, Structural)]
pub enum RenderCommand {
    /// Delete a texture.
    DeleteTexture { texture: TextureHandle },
    /// Make the vertex buffer and the index buffer of a new slot, each of
    /// the fixed capacity.
    AllocateSlot { slot: usize },
    /// Make a pipeline for the blend pair and bind it.
    BindPipeline { blend: BlendStates },
    /// Write the vertices and the indices of the renderable at `slot` into
    /// the buffers of that slot.
    Upload { slot: usize },
    /// Bind the buffers of the slot and the texture, and draw `index_count`
    /// indices.
    Draw { slot: usize, texture: TextureHandle, index_count: usize },
    /// End the render pass of the frame.
    EndRenderPass,
}

/// What the frame needs to know of one renderable: its blend pair, the
/// texture to draw it with, if that is there, and the number of its indices.
pub struct DrawItem {
    pub blend: BlendStates,
    pub texture: Option<TextureHandle>,
    pub index_count: usize,
}

/// The draw item of a renderable in a rig with the given alpha convention.
pub open spec fn item_of(
    renderable: Renderable,
    premultiplied_alpha: bool,
    pages: Seq<Option<LoadState<Seq<char>>>>,
    cache: Map<Seq<char>, TextureHandle>,
) -> DrawItem {
    DrawItem {
        blend: blend_table(renderable.blend_mode, premultiplied_alpha),
        texture: resolved_texture(pages, cache, renderable.attachment),
        index_count: renderable.indices.len(),
    }
}

/// The draw items of the renderables of a frame, in draw order.
pub open spec fn items_of(
    renderables: Seq<Renderable>,
    premultiplied_alpha: bool,
    pages: Seq<Option<LoadState<Seq<char>>>>,
    cache: Map<Seq<char>, TextureHandle>,
) -> Seq<DrawItem> {
    Seq::new(
        renderables.len(),
        |i: int| item_of(renderables[i], premultiplied_alpha, pages, cache),
    )
}

/// Whether the item at `i` needs a pipeline of its own: it is the first, or
/// its blend pair differs from that of the item before it.
pub open spec fn switches(items: Seq<DrawItem>, i: int) -> bool {
    i == 0 || items[i - 1].blend != items[i].blend
}

/// The bind of the item at `i`: one where the blend pair changes.
pub open spec fn item_bind(items: Seq<DrawItem>, i: int) -> Seq<RenderCommand> {
    if switches(items, i) {
        seq![RenderCommand::BindPipeline { blend: items[i].blend }]
    } else {
        seq![]
    }
}

/// The upload of the item at `i`: one if its texture is there.
pub open spec fn item_upload(items: Seq<DrawItem>, i: int) -> Seq<RenderCommand> {
    match items[i].texture {
        Some(texture) => seq![RenderCommand::Upload { slot: i as usize }],
        None => seq![],
    }
}

/// The draw call of the item at `i`: one if its texture is there.
pub open spec fn item_draw(items: Seq<DrawItem>, i: int) -> Seq<RenderCommand> {
    match items[i].texture {
        Some(texture) => seq![
            RenderCommand::Draw { slot: i as usize, texture, index_count: items[i].index_count },
        ],
        None => seq![],
    }
}

/// The commands of the item at `i`: its bind, its upload and its draw call.
pub open spec fn item_commands(items: Seq<DrawItem>, i: int) -> Seq<RenderCommand> {
    item_bind(items, i) + item_upload(items, i) + item_draw(items, i)
}

/// The commands of the first `n` items, in draw order.
pub open spec fn draw_commands(items: Seq<DrawItem>, n: int) -> Seq<RenderCommand>
    decreases n,
{
    if n <= 0 {
        seq![]
    } else {
        draw_commands(items, n - 1) + item_commands(items, n - 1)
    }
}

/// One delete command for each handle, in the order of the handles.
pub open spec fn delete_commands(handles: Seq<TextureHandle>) -> Seq<RenderCommand> {
    Seq::new(handles.len(), |i: int| RenderCommand::DeleteTexture { texture: handles[i] })
}

/// The number of slots after a frame of `wanted` renderables, when `held`
/// slots were there before. Slots are never given up.
pub open spec fn slots_after(held: nat, wanted: nat) -> nat {
    if wanted > held {
        wanted
    } else {
        held
    }
}

/// One allocation for each slot that `wanted` renderables need beyond the
/// `held` ones.
pub open spec fn grow_commands(held: nat, wanted: nat) -> Seq<RenderCommand> {
    Seq::new(
        (slots_after(held, wanted) - held) as nat,
        |i: int| RenderCommand::AllocateSlot { slot: (held + i) as usize },
    )
}

/// The commands of a frame: the deletes, the allocations, the commands of
/// every item, and the end of the render pass.
pub open spec fn frame_commands(deletes: Seq<TextureHandle>, held: nat, items: Seq<DrawItem>)
    -> Seq<RenderCommand> {
    delete_commands(deletes) + grow_commands(held, items.len()) + draw_commands(
        items,
        items.len() as int,
    ) + seq![RenderCommand::EndRenderPass]
}

/// Whether every renderable that is drawn fits the buffers of a slot.
pub open spec fn drawn_fit(
    renderables: Seq<Renderable>,
    pages: Seq<Option<LoadState<Seq<char>>>>,
    cache: Map<Seq<char>, TextureHandle>,
) -> bool {
    forall|i: int|
        0 <= i < renderables.len() && resolved_texture(
            pages,
            cache,
            #[trigger] renderables[i].attachment,
        ) is Some ==> renderables[i].fits_slot()
}

/// The index of the first renderable that is drawn and does not fit the
/// buffers of a slot, if there is one.
pub fn find_oversized(runtime: &RenderRuntime, renderables: &Vec<Renderable>) -> (found: Option<
    usize,
>)
    ensures
        found is None <==> drawn_fit(renderables@, runtime.loader@.pages, runtime.cache@),
        match found {
            Some(i) => {
                &&& i < renderables@.len()
                &&& !renderables@[i as int].fits_slot()
                &&& resolved_texture(
                    runtime.loader@.pages,
                    runtime.cache@,
                    renderables@[i as int].attachment,
                ) is Some
                &&& drawn_fit(
                    renderables@.take(i as int),
                    runtime.loader@.pages,
                    runtime.cache@,
                )
            },
            None => true,
        },
{
    let mut i: usize = 0;
    while i < renderables.len()
        invariant
            i <= renderables@.len(),
            drawn_fit(renderables@.take(i as int), runtime.loader@.pages, runtime.cache@),
        decreases renderables.len() - i,
    {
        let texture = runtime.loader.resolve(&runtime.cache, renderables[i].attachment);
        if texture.is_some() && !renderables[i].fits() {
            assert(resolved_texture(
                runtime.loader@.pages,
                runtime.cache@,
                renderables@[i as int].attachment,
            ) is Some);
            return Some(i);
        }
        assert forall|j: int|
            0 <= j < i + 1 && resolved_texture(
                runtime.loader@.pages,
                runtime.cache@,
                #[trigger] renderables@.take(i + 1)[j].attachment,
            ) is Some implies renderables@.take(i + 1)[j].fits_slot() by {
            if j < i {
                assert(renderables@.take(i as int)[j] == renderables@.take(i + 1)[j]);
            }
        }
        i = i + 1;
    }
    assert(renderables@.take(renderables@.len() as int) =~= renderables@);
    None
}

/// The commands of one frame.
///
/// The delete queue is drained into delete commands first, so that no
/// texture is deleted after a texture of this frame was bound. `held` is the
/// number of buffer slots that the rig has.
pub fn render_frame(
    runtime: &mut RenderRuntime,
    held: usize,
    premultiplied_alpha: bool,
    renderables: &Vec<Renderable>,
) -> (commands: Vec<RenderCommand>)
    requires
        drawn_fit(renderables@, old(runtime).loader@.pages, old(runtime).cache@),
    ensures
        commands@ == frame_commands(
            old(runtime).queue@,
            held as nat,
            items_of(
                renderables@,
                premultiplied_alpha,
                old(runtime).loader@.pages,
                old(runtime).cache@,
            ),
        ),
        final(runtime).queue@ == drained(old(runtime).queue@),
        final(runtime).cache == old(runtime).cache,
        final(runtime).loader == old(runtime).loader,
        final(runtime).created == old(runtime).created,
{
    let ghost items = items_of(
        renderables@,
        premultiplied_alpha,
        runtime.loader@.pages,
        runtime.cache@,
    );
    // Delete the textures that are no longer used, before any is bound.
    let ghost deletes = runtime.queue@;
    let mut commands = runtime.queue.delete_previous();
    assert(commands@ =~= delete_commands(deletes) + grow_commands(held as nat, held as nat));

    // Grow the buffer slots to the number of renderables.
    let mut slots: usize = held;
    while renderables.len() > slots
        invariant
            held <= slots,
            slots <= slots_after(held as nat, renderables@.len()),
            commands@ == delete_commands(deletes) + grow_commands(held as nat, slots as nat),
        decreases renderables.len() - slots,
    {
        commands.push(RenderCommand::AllocateSlot { slot: slots });
        assert(grow_commands(held as nat, slots as nat).push(
            RenderCommand::AllocateSlot { slot: slots },
        ) =~= grow_commands(held as nat, (slots + 1) as nat));
        assert(commands@ =~= delete_commands(deletes) + grow_commands(
            held as nat,
            (slots + 1) as nat,
        ));
        slots = slots + 1;
    }
    assert(grow_commands(held as nat, slots as nat) =~= grow_commands(
        held as nat,
        renderables@.len(),
    ));
    let ghost prefix = commands@;

    let mut last_blend_state: Option<BlendStates> = None;
    let mut i: usize = 0;
    while i < renderables.len()
        invariant
            i <= renderables@.len(),
            items == items_of(
                renderables@,
                premultiplied_alpha,
                runtime.loader@.pages,
                runtime.cache@,
            ),
            drawn_fit(renderables@, runtime.loader@.pages, runtime.cache@),
            commands@ == prefix + draw_commands(items, i as int),
            last_blend_state == (if i == 0 {
                None
            } else {
                Some(items[i - 1].blend)
            }),
        decreases renderables.len() - i,
    {
        let renderable = &renderables[i];
        let ghost before = commands@;
        // Set the blend state of this renderable's blend mode.
        let blend = renderable.blend_mode.get_blend_states(premultiplied_alpha);
        let change_pipeline = match last_blend_state {
            None => true,
            Some(previous) => previous != blend,
        };
        if change_pipeline {
            last_blend_state = Some(blend);
            commands.push(RenderCommand::BindPipeline { blend });
        }
        // A renderable without a texture is not drawn in this frame.
        match runtime.loader.resolve(&runtime.cache, renderable.attachment) {
            Some(texture) => {
                commands.push(RenderCommand::Upload { slot: i });
                commands.push(
                    RenderCommand::Draw { slot: i, texture, index_count: renderable.indices.len() },
                );
            },
            None => {},
        }
        proof {
            assert(items[i as int] == item_of(
                renderables@[i as int],
                premultiplied_alpha,
                runtime.loader@.pages,
                runtime.cache@,
            ));
            assert(commands@ =~= before + item_commands(items, i as int));
            assert(commands@ =~= prefix + draw_commands(items, i + 1));
        }
        i = i + 1;
    }

    commands.push(RenderCommand::EndRenderPass);
    commands
}

} // verus!
