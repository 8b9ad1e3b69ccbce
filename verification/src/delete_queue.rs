//! The queue of textures that wait to be deleted on the GPU.

use vstd::prelude::*;
use crate::render::{delete_commands, RenderCommand};
use crate::texture_cache::TextureHandle;

verus! {

/// What draining leaves of a queue: nothing.
pub open spec fn drained(queue: Seq<TextureHandle>) -> Seq<TextureHandle> {
    Seq::empty()
}

/// The handle to the delete queue of a runtime.
///
/// A texture that is no longer used is queued here and deleted at the start
/// of the next frame, before any texture of that frame is bound.
pub struct Token {
    queue: Vec<TextureHandle>,
}

impl View for Token {
    type V = Seq<TextureHandle>;

    /// The queued handles, oldest first.
    closed spec fn view(&self) -> Seq<TextureHandle> {
        self.queue@
    }
}

impl Token {
    /// An empty queue.
    pub fn new() -> (token: Self)
        ensures
            token@ == Seq::<TextureHandle>::empty(),
    {
        Token { queue: Vec::new() }
    }

    /// Queues `handle` for deletion, behind what is already queued.
    pub fn enqueue_delete(&mut self, handle: TextureHandle)
        ensures
            final(self)@ == old(self)@.push(handle),
    {
        self.queue.push(handle);
    }

    /// Takes every queued handle out, oldest first.
    pub fn drain_deletes(&mut self) -> (handles: Vec<TextureHandle>)
        ensures
            handles@ == old(self)@,
            final(self)@ == drained(old(self)@),
    {
        let mut handles: Vec<TextureHandle> = Vec::new();
        core::mem::swap(&mut self.queue, &mut handles);
        handles
    }

    /// Empties the queue into one delete command for each queued handle,
    /// oldest first.
    pub fn delete_previous(&mut self) -> (commands: Vec<RenderCommand>)
        ensures
            commands@ == delete_commands(old(self)@),
            final(self)@ == drained(old(self)@),
    {
        let deletes = self.drain_deletes();
        let mut commands: Vec<RenderCommand> = Vec::new();
        let mut i: usize = 0;
        while i < deletes.len()
            invariant
                i <= deletes@.len(),
                commands@ == delete_commands(deletes@.take(i as int)),
            decreases deletes.len() - i,
        {
            commands.push(RenderCommand::DeleteTexture { texture: deletes[i] });
            assert(commands@ =~= delete_commands(deletes@.take(i + 1)));
            i = i + 1;
        }
        assert(deletes@.take(deletes@.len() as int) =~= deletes@);
        commands
    }

    /// The number of queued handles.
    pub fn len(&self) -> (count: usize)
        ensures
            count == self@.len(),
    {
        self.queue.len()
    }
}

/// Draining is exhaustive: a second drain finds nothing, and after new
/// handles came a drain returns exactly those, in their order.
pub proof fn lemma_drain_is_exhaustive(queue: Seq<TextureHandle>, later: Seq<TextureHandle>)
    ensures
        drained(queue) == Seq::<TextureHandle>::empty(),
        drained(drained(queue)) == Seq::<TextureHandle>::empty(),
        drained(queue) + later == later,
{
    assert(drained(queue) + later =~= later);
}

} // verus!
