//! What holds of the commands of every frame.
//!
//! A frame deletes before it binds, binds a pipeline only where the blend
//! pair changes, draws every renderable whose texture is there exactly once
//! and in draw order, and allocates exactly the slots that it lacks.

use vstd::prelude::*;
use crate::blend_states::BlendStates;
use crate::render::{
    delete_commands, draw_commands, frame_commands, grow_commands, item_bind, item_commands,
    item_draw, item_upload, slots_after, switches, DrawItem, RenderCommand,
};
use crate::texture_cache::TextureHandle;

verus! {

/// Picks the commands that bind a pipeline.
pub open spec fn is_bind() -> spec_fn(RenderCommand) -> bool {
    |command: RenderCommand| command is BindPipeline
}

/// Picks the draw calls.
pub open spec fn is_draw() -> spec_fn(RenderCommand) -> bool {
    |command: RenderCommand| command is Draw
}

/// Picks the draw calls of the renderable at `slot`.
pub open spec fn is_draw_of(slot: int) -> spec_fn(RenderCommand) -> bool {
    |command: RenderCommand| command matches RenderCommand::Draw { slot: s, .. } && s == slot
}

/// Picks the commands that delete a texture.
pub open spec fn is_delete() -> spec_fn(RenderCommand) -> bool {
    |command: RenderCommand| command is DeleteTexture
}

/// Picks the commands that allocate a slot.
pub open spec fn is_allocation() -> spec_fn(RenderCommand) -> bool {
    |command: RenderCommand| command is AllocateSlot
}

/// The blend pairs of the first `n` items, with every pair left out that
/// repeats the pair of the item before it.
pub open spec fn bound_blends(items: Seq<DrawItem>, n: int) -> Seq<BlendStates>
    decreases n,
{
    if n <= 0 {
        seq![]
    } else if switches(items, n - 1) {
        bound_blends(items, n - 1).push(items[n - 1].blend)
    } else {
        bound_blends(items, n - 1)
    }
}

/// One bind command for each blend pair, in the order of the pairs.
pub open spec fn bind_commands(blends: Seq<BlendStates>) -> Seq<RenderCommand> {
    Seq::new(blends.len(), |i: int| RenderCommand::BindPipeline { blend: blends[i] })
}

/// The draw calls of the first `n` items: one for each item with a texture,
/// in draw order.
pub open spec fn draw_calls(items: Seq<DrawItem>, n: int) -> Seq<RenderCommand>
    decreases n,
{
    if n <= 0 {
        seq![]
    } else {
        match items[n - 1].texture {
            Some(texture) => draw_calls(items, n - 1).push(
                RenderCommand::Draw {
                    slot: (n - 1) as usize,
                    texture,
                    index_count: items[n - 1].index_count,
                },
            ),
            None => draw_calls(items, n - 1),
        }
    }
}

/// Filtering a sequence in which nothing is picked leaves nothing.
proof fn lemma_filter_none<A>(s: Seq<A>, pred: spec_fn(A) -> bool)
    requires
        forall|i: int| 0 <= i < s.len() ==> !pred(#[trigger] s[i]),
    ensures
        s.filter(pred) == Seq::<A>::empty(),
    decreases s.len(),
{
    reveal(Seq::filter);
    if s.len() > 0 {
        lemma_filter_none(s.drop_last(), pred);
    }
}

/// Filtering a sequence in which everything is picked leaves it whole.
proof fn lemma_filter_all<A>(s: Seq<A>, pred: spec_fn(A) -> bool)
    requires
        forall|i: int| 0 <= i < s.len() ==> pred(#[trigger] s[i]),
    ensures
        s.filter(pred) == s,
    decreases s.len(),
{
    reveal(Seq::filter);
    if s.len() > 0 {
        lemma_filter_all(s.drop_last(), pred);
        assert(s.drop_last().push(s.last()) =~= s);
    }
}

/// What a filter picks of the commands of the first `n` items, given what it
/// picks of the commands of each item.
proof fn lemma_filter_draw_commands(
    items: Seq<DrawItem>,
    n: int,
    pred: spec_fn(RenderCommand) -> bool,
)
    requires
        0 < n,
    ensures
        draw_commands(items, n).filter(pred) == draw_commands(items, n - 1).filter(pred)
            + item_commands(items, n - 1).filter(pred),
{
    Seq::filter_distributes_over_add(
        draw_commands(items, n - 1),
        item_commands(items, n - 1),
        pred,
    );
}

/// What a filter picks of the commands of a frame, part by part.
proof fn lemma_filter_frame(
    deletes: Seq<TextureHandle>,
    held: nat,
    items: Seq<DrawItem>,
    pred: spec_fn(RenderCommand) -> bool,
)
    ensures
        frame_commands(deletes, held, items).filter(pred) == delete_commands(deletes).filter(pred)
            + grow_commands(held, items.len()).filter(pred) + draw_commands(
            items,
            items.len() as int,
        ).filter(pred) + seq![RenderCommand::EndRenderPass].filter(pred),
{
    let a = delete_commands(deletes);
    let b = grow_commands(held, items.len());
    let c = draw_commands(items, items.len() as int);
    let d = seq![RenderCommand::EndRenderPass];
    Seq::filter_distributes_over_add(a, b, pred);
    Seq::filter_distributes_over_add(a + b, c, pred);
    Seq::filter_distributes_over_add(a + b + c, d, pred);
}

/// A frame deletes first: its commands begin with the deletes of the queue,
/// in the order of the queue, and delete nothing after them. So no texture
/// is deleted once a texture of the frame is bound.
pub proof fn lemma_deletes_come_first(deletes: Seq<TextureHandle>, held: nat, items: Seq<DrawItem>)
    ensures
        frame_commands(deletes, held, items).take(deletes.len() as int) == delete_commands(
            deletes,
        ),
        frame_commands(deletes, held, items).skip(deletes.len() as int) == after_deletes(
            held,
            items,
        ),
        after_deletes(held, items).filter(is_delete()) == Seq::<RenderCommand>::empty(),
{
    let first = delete_commands(deletes);
    let rest = after_deletes(held, items);
    assert(frame_commands(deletes, held, items) =~= first + rest);
    assert((first + rest).take(first.len() as int) =~= first);
    assert((first + rest).skip(first.len() as int) =~= rest);
    lemma_rest_deletes_nothing(held, items);
}

/// The commands of a frame that follow its deletes.
pub open spec fn after_deletes(held: nat, items: Seq<DrawItem>) -> Seq<RenderCommand> {
    grow_commands(held, items.len()) + draw_commands(items, items.len() as int)
        + seq![RenderCommand::EndRenderPass]
}

/// Nothing is deleted after the deletes of the queue.
proof fn lemma_rest_deletes_nothing(held: nat, items: Seq<DrawItem>)
    ensures
        after_deletes(held, items).filter(is_delete()) == Seq::<RenderCommand>::empty(),
{
    let grows = grow_commands(held, items.len());
    let draws = draw_commands(items, items.len() as int);
    let end = seq![RenderCommand::EndRenderPass];
    lemma_no_delete_among_draws(items, items.len() as int);
    lemma_filter_none(grows, is_delete());
    lemma_filter_none(end, is_delete());
    Seq::filter_distributes_over_add(grows, draws, is_delete());
    Seq::filter_distributes_over_add(grows + draws, end, is_delete());
    assert(Seq::<RenderCommand>::empty() + Seq::<RenderCommand>::empty()
        + Seq::<RenderCommand>::empty() =~= Seq::<RenderCommand>::empty());
}

/// What a filter picks of the commands of one item, part by part.
proof fn lemma_filter_item(items: Seq<DrawItem>, i: int, pred: spec_fn(RenderCommand) -> bool)
    ensures
        item_commands(items, i).filter(pred) == item_bind(items, i).filter(pred) + item_upload(
            items,
            i,
        ).filter(pred) + item_draw(items, i).filter(pred),
        forall|k: int|
            0 <= k < item_bind(items, i).len() ==> #[trigger] item_bind(
                items,
                i,
            )[k] is BindPipeline,
        forall|k: int|
            0 <= k < item_upload(items, i).len() ==> #[trigger] item_upload(items, i)[k] is Upload,
        forall|k: int|
            0 <= k < item_draw(items, i).len() ==> #[trigger] item_draw(items, i)[k] is Draw,
{
    Seq::filter_distributes_over_add(item_bind(items, i), item_upload(items, i), pred);
    Seq::filter_distributes_over_add(
        item_bind(items, i) + item_upload(items, i),
        item_draw(items, i),
        pred,
    );
}

/// The commands of the items delete nothing and allocate nothing.
proof fn lemma_no_delete_among_draws(items: Seq<DrawItem>, n: int)
    requires
        0 <= n,
    ensures
        draw_commands(items, n).filter(is_delete()) == Seq::<RenderCommand>::empty(),
        draw_commands(items, n).filter(is_allocation()) == Seq::<RenderCommand>::empty(),
    decreases n,
{
    if n > 0 {
        lemma_no_delete_among_draws(items, n - 1);
        lemma_filter_draw_commands(items, n, is_delete());
        lemma_filter_draw_commands(items, n, is_allocation());
        lemma_filter_item(items, n - 1, is_delete());
        lemma_filter_item(items, n - 1, is_allocation());
        lemma_filter_none(item_bind(items, n - 1), is_delete());
        lemma_filter_none(item_upload(items, n - 1), is_delete());
        lemma_filter_none(item_draw(items, n - 1), is_delete());
        lemma_filter_none(item_bind(items, n - 1), is_allocation());
        lemma_filter_none(item_upload(items, n - 1), is_allocation());
        lemma_filter_none(item_draw(items, n - 1), is_allocation());
    } else {
        lemma_filter_none(draw_commands(items, n), is_delete());
        lemma_filter_none(draw_commands(items, n), is_allocation());
    }
}

/// The binds among the commands of the first `n` items.
proof fn lemma_binds_among_draws(items: Seq<DrawItem>, n: int)
    requires
        0 <= n,
    ensures
        draw_commands(items, n).filter(is_bind()) == bind_commands(bound_blends(items, n)),
    decreases n,
{
    if n > 0 {
        lemma_binds_among_draws(items, n - 1);
        lemma_filter_draw_commands(items, n, is_bind());
        lemma_filter_item(items, n - 1, is_bind());
        let bind = item_bind(items, n - 1);
        lemma_filter_all(bind, is_bind());
        lemma_filter_none(item_upload(items, n - 1), is_bind());
        lemma_filter_none(item_draw(items, n - 1), is_bind());
        assert(bind_commands(bound_blends(items, n)) =~= bind_commands(
            bound_blends(items, n - 1),
        ) + bind);
        assert(bind + Seq::<RenderCommand>::empty() + Seq::<RenderCommand>::empty() =~= bind);
    } else {
        lemma_filter_none(draw_commands(items, n), is_bind());
        assert(bind_commands(bound_blends(items, n)) =~= Seq::<RenderCommand>::empty());
    }
}

/// The draw calls among the commands of the first `n` items.
proof fn lemma_draws_among_draws(items: Seq<DrawItem>, n: int)
    requires
        0 <= n,
    ensures
        draw_commands(items, n).filter(is_draw()) == draw_calls(items, n),
    decreases n,
{
    if n > 0 {
        lemma_draws_among_draws(items, n - 1);
        lemma_filter_draw_commands(items, n, is_draw());
        lemma_filter_item(items, n - 1, is_draw());
        let draws = item_draw(items, n - 1);
        lemma_filter_none(item_bind(items, n - 1), is_draw());
        lemma_filter_none(item_upload(items, n - 1), is_draw());
        lemma_filter_all(draws, is_draw());
        assert(draw_calls(items, n) =~= draw_calls(items, n - 1) + draws);
        assert(Seq::<RenderCommand>::empty() + Seq::<RenderCommand>::empty() + draws =~= draws);
    } else {
        lemma_filter_none(draw_commands(items, n), is_draw());
    }
}

/// A frame binds a pipeline where the blend pair changes, and nowhere else:
/// its binds are, in draw order, the blend pairs of the renderables without
/// those that repeat the pair before them.
pub proof fn lemma_pipeline_binds(deletes: Seq<TextureHandle>, held: nat, items: Seq<DrawItem>)
    ensures
        frame_commands(deletes, held, items).filter(is_bind()) == bind_commands(
            bound_blends(items, items.len() as int),
        ),
{
    lemma_filter_frame(deletes, held, items, is_bind());
    lemma_filter_none(delete_commands(deletes), is_bind());
    lemma_filter_none(grow_commands(held, items.len()), is_bind());
    lemma_filter_none(seq![RenderCommand::EndRenderPass], is_bind());
    lemma_binds_among_draws(items, items.len() as int);
    let binds = bind_commands(bound_blends(items, items.len() as int));
    assert(Seq::<RenderCommand>::empty() + Seq::<RenderCommand>::empty() + binds
        + Seq::<RenderCommand>::empty() =~= binds);
}

/// No pipeline is bound twice in a row: two binds that follow each other
/// are for different blend pairs. And no frame binds more pipelines than it
/// has renderables, while a frame with a renderable binds at least one.
pub proof fn lemma_binds_are_minimal(items: Seq<DrawItem>, n: int)
    requires
        0 <= n <= items.len(),
    ensures
        bound_blends(items, n).len() <= n,
        n > 0 ==> bound_blends(items, n).len() >= 1 && bound_blends(items, n).last() == items[n
            - 1].blend,
        forall|k: int|
            0 <= k < bound_blends(items, n).len() - 1 ==> bound_blends(items, n)[k]
                != #[trigger] bound_blends(items, n)[k + 1],
    decreases n,
{
    if n > 0 {
        lemma_binds_are_minimal(items, n - 1);
        let before = bound_blends(items, n - 1);
        let after = bound_blends(items, n);
        if switches(items, n - 1) {
            assert forall|k: int| 0 <= k < after.len() - 1 implies after[k] != #[trigger] after[k
                + 1] by {
                if k + 1 < before.len() {
                    assert(after[k] == before[k] && after[k + 1] == before[k + 1]);
                }
            }
        }
    }
}

/// A frame draws every renderable whose texture is there exactly once, in
/// draw order, and draws no other.
pub proof fn lemma_draw_calls(deletes: Seq<TextureHandle>, held: nat, items: Seq<DrawItem>)
    ensures
        frame_commands(deletes, held, items).filter(is_draw()) == draw_calls(
            items,
            items.len() as int,
        ),
{
    lemma_filter_frame(deletes, held, items, is_draw());
    lemma_filter_none(delete_commands(deletes), is_draw());
    lemma_filter_none(grow_commands(held, items.len()), is_draw());
    lemma_filter_none(seq![RenderCommand::EndRenderPass], is_draw());
    lemma_draws_among_draws(items, items.len() as int);
    let draws = draw_calls(items, items.len() as int);
    assert(Seq::<RenderCommand>::empty() + Seq::<RenderCommand>::empty() + draws
        + Seq::<RenderCommand>::empty() =~= draws);
}

/// The draw calls of the renderable at `slot` among the commands of the
/// first `n` items: one if the renderable is among them and has a texture,
/// else none.
proof fn lemma_draws_of_slot(items: Seq<DrawItem>, n: int, slot: int)
    requires
        0 <= n <= items.len(),
        n <= usize::MAX,
        0 <= slot,
    ensures
        draw_commands(items, n).filter(is_draw_of(slot)).len() == (if slot < n
            && items[slot].texture is Some {
            1nat
        } else {
            0nat
        }),
    decreases n,
{
    let pred = is_draw_of(slot);
    if n > 0 {
        lemma_draws_of_slot(items, n - 1, slot);
        let binds = item_bind(items, n - 1);
        let uploads = item_upload(items, n - 1);
        let draws = item_draw(items, n - 1);
        assert(binds.filter(pred).len() == 0) by {
            lemma_filter_item(items, n - 1, pred);
            lemma_filter_none(binds, pred);
        }
        assert(uploads.filter(pred).len() == 0) by {
            lemma_filter_item(items, n - 1, pred);
            lemma_filter_none(uploads, pred);
        }
        assert(draws.filter(pred).len() == (if slot == n - 1 && items[slot].texture is Some {
            1nat
        } else {
            0nat
        })) by {
            if items[n - 1].texture is Some {
                assert(draws.len() == 1);
                assert(draws[0] matches RenderCommand::Draw { slot: s, .. } && s == n - 1);
                if slot == n - 1 {
                    assert(pred(draws[0]));
                    lemma_filter_all(draws, pred);
                } else {
                    assert(!pred(draws[0]));
                    lemma_filter_none(draws, pred);
                }
            } else {
                assert(draws.len() == 0);
                lemma_filter_none(draws, pred);
            }
        }
        assert(draw_commands(items, n).filter(pred).len() == draw_commands(items, n - 1).filter(
            pred,
        ).len() + draws.filter(pred).len()) by {
            lemma_filter_draw_commands(items, n, pred);
            lemma_filter_item(items, n - 1, pred);
        }
    } else {
        lemma_filter_none(draw_commands(items, n), pred);
    }
}

/// Skipping is not failing: a renderable whose texture is not there, be it
/// still loading, has no draw call in the frame, and one whose texture is
/// there has exactly one.
pub proof fn lemma_draw_count(
    deletes: Seq<TextureHandle>,
    held: nat,
    items: Seq<DrawItem>,
    slot: int,
)
    requires
        0 <= slot < items.len(),
        items.len() <= usize::MAX,
    ensures
        frame_commands(deletes, held, items).filter(is_draw_of(slot)).len() == (
        if items[slot].texture is Some {
            1nat
        } else {
            0nat
        }),
{
    lemma_filter_frame(deletes, held, items, is_draw_of(slot));
    lemma_filter_none(delete_commands(deletes), is_draw_of(slot));
    lemma_filter_none(grow_commands(held, items.len()), is_draw_of(slot));
    lemma_filter_none(seq![RenderCommand::EndRenderPass], is_draw_of(slot));
    lemma_draws_of_slot(items, items.len() as int, slot);
}

/// The slots grow to the number of renderables and never shrink: after a
/// frame of `wanted` renderables there are `wanted` slots if there were
/// fewer, and a later frame of no more renderables leaves them.
pub proof fn lemma_slots_grow(held: nat, wanted: nat, later: nat)
    ensures
        slots_after(held, wanted) >= held,
        slots_after(held, wanted) >= wanted,
        held < wanted ==> slots_after(held, wanted) == wanted,
        later <= slots_after(held, wanted) ==> slots_after(slots_after(held, wanted), later)
            == slots_after(held, wanted),
        grow_commands(held, wanted).len() == slots_after(held, wanted) - held,
{
}

/// A frame allocates exactly the slots that it lacks, in their order.
pub proof fn lemma_allocations(deletes: Seq<TextureHandle>, held: nat, items: Seq<DrawItem>)
    ensures
        frame_commands(deletes, held, items).filter(is_allocation()) == grow_commands(
            held,
            items.len(),
        ),
{
    lemma_filter_frame(deletes, held, items, is_allocation());
    lemma_filter_none(delete_commands(deletes), is_allocation());
    lemma_filter_all(grow_commands(held, items.len()), is_allocation());
    lemma_filter_none(seq![RenderCommand::EndRenderPass], is_allocation());
    lemma_no_delete_among_draws(items, items.len() as int);
    let grows = grow_commands(held, items.len());
    assert(Seq::<RenderCommand>::empty() + grows + Seq::<RenderCommand>::empty()
        + Seq::<RenderCommand>::empty() =~= grows);
}

} // verus!
