//! The rig as the host drives it: its pipeline, its buffer slots, its event
//! buffer, and the calls that change its animation and its skin.

use vstd::prelude::*;
use std::collections::VecDeque;
use crate::animation_event::{AnimationEvent, TrackEntry};
use crate::load_state::LoadState;
use crate::renderable::{PageId, Renderable};
use crate::runtime::RenderRuntime;
use crate::spine::{
    command_views, contains_name, is_not_found, Animation, EngineCommand, EngineCommandView, Skin,
    Spine, SpineError,
};
use crate::texture_loader::is_pending;

verus! {

/// Names one pipeline on the GPU.
#[derive(Clone, Copy, Debug, PartialEq, Eq, Hash, Structural)]
pub struct Pipeline {
    pub id: usize,
}

/// The stage of a shader program.
#[derive(Clone, Copy, Debug, PartialEq, Eq, Structural)]
pub enum ShaderType {
    Vertex,
    Fragment,
}

/// Why a shader program could not be made.
#[derive(Clone, Debug, PartialEq, Eq)]
pub enum ShaderError {
    CompilationError { shader_type: ShaderType, error_message: String },
    LinkError(String),
    /// The source of a shader held a zero byte.
    FFINulError,
}

/// One rig that is ready to be updated and drawn.
#[derive(Debug, PartialEq, Eq)]
pub struct SpineState {
    pub spine: Spine,
    /// The pipeline that was made with the rig, without blending.
    pub pipeline: Pipeline,
    /// The number of buffer slots that the rig has on the GPU. There is one
    /// for each renderable of the largest frame so far.
    pub bindings: usize,
    /// The events that the animation runtime has reported and that no
    /// callback has seen yet, oldest first.
    pub events: VecDeque<AnimationEvent>,
}

/// The skin in spec code, as the callback of [`SpineState::get_skin`]
/// receives it.
pub open spec fn skin_item(skin: Option<Skin>) -> Option<&'static Skin> {
    match skin {
        Some(skin) => Some(&skin),
        None => None,
    }
}

/// Whether every renderable that has an atlas page has its texture loaded.
pub open spec fn all_loaded(
    pages: Seq<Option<LoadState<Seq<char>>>>,
    renderables: Seq<Renderable>,
) -> bool {
    forall|i: int|
        0 <= i < renderables.len() ==> match (#[trigger] renderables[i]).attachment {
            Some(page) => page.index < pages.len() && pages[page.index as int] matches Some(
                LoadState::Done(_),
            ),
            None => true,
        }
}

/// The pages of the first `n` renderables whose textures are still loading,
/// in draw order, once for each renderable.
pub open spec fn pending_pages(
    pages: Seq<Option<LoadState<Seq<char>>>>,
    renderables: Seq<Renderable>,
    n: int,
) -> Seq<PageId>
    decreases n,
{
    if n <= 0 {
        seq![]
    } else if is_pending(pages, renderables[n - 1].attachment) {
        pending_pages(pages, renderables, n - 1).push(renderables[n - 1].attachment->0)
    } else {
        pending_pages(pages, renderables, n - 1)
    }
}

impl SpineState {
    /// Whether `other` differs from this rig in the commands of its skeleton
    /// at most.
    pub open spec fn same_but_commands(&self, other: SpineState) -> bool {
        &&& self.spine.same_but_commands(other.spine)
        &&& other.pipeline == self.pipeline
        &&& other.bindings == self.bindings
        &&& other.events == self.events
    }

    /// Whether `outcome` is what setting the named animation on the given
    /// track comes to: the track, or the error for an unknown animation.
    pub open spec fn is_animation_outcome(
        &self,
        track_index: usize,
        animation_name: Seq<char>,
        outcome: Result<TrackEntry, SpineError>,
    ) -> bool {
        match outcome {
            Ok(entry) => self.spine.has_animation(animation_name) && entry == (TrackEntry {
                track_index,
            }),
            Err(error) => !self.spine.has_animation(animation_name) && is_not_found(
                error,
                "Animation"@,
                animation_name,
            ),
        }
    }

    /// Whether `after` is this rig after the given animation was set on the
    /// given track: the command for it waits behind the others.
    pub open spec fn animation_set(
        &self,
        after: SpineState,
        track_index: usize,
        animation_name: Seq<char>,
        looping: bool,
    ) -> bool {
        &&& self.same_but_commands(after)
        &&& command_views(after.spine.commands@) == command_views(self.spine.commands@).push(
            EngineCommandView::SetAnimation { track_index, animation_name, looping },
        )
    }

    /// Whether `after` is this rig after the named skin was set: the skin is
    /// current, and the commands that set it and put the slots into the
    /// setup pose wait behind the others.
    pub open spec fn skin_set(&self, after: SpineState, skin_name: Seq<char>) -> bool {
        &&& self.spine.same_but_skin(after.spine)
        &&& after.pipeline == self.pipeline
        &&& after.bindings == self.bindings
        &&& after.events == self.events
        &&& after.spine.skin matches Some(skin)
        &&& skin.name@ == skin_name
        &&& command_views(after.spine.commands@) == command_views(self.spine.commands@).push(
            EngineCommandView::SetSkin { skin_name },
        ).push(EngineCommandView::SetSlotsToSetupPose)
    }

    /// Makes the rig of a loaded skeleton and of what came of making its
    /// pipeline. A shader error is handed on, and no rig is made.
    pub fn new(spine: Spine, pipeline: Result<Pipeline, ShaderError>) -> (result: Result<
        Self,
        ShaderError,
    >)
        ensures
            match pipeline {
                Ok(pipeline) => {
                    &&& result matches Ok(state)
                    &&& state.spine == spine
                    &&& state.pipeline == pipeline
                    &&& state.bindings == 0
                    &&& state.events@ == Seq::<AnimationEvent>::empty()
                },
                Err(error) => result == Err::<Self, ShaderError>(error),
            },
    {
        match pipeline {
            Ok(pipeline) => Ok(SpineState { spine, pipeline, bindings: 0, events: VecDeque::new() }),
            Err(error) => Err(error),
        }
    }

    /// Makes a new rig in place of this one.
    pub fn new_spine(self, spine: Spine, pipeline: Result<Pipeline, ShaderError>) -> (result:
        Result<Self, ShaderError>)
        ensures
            match pipeline {
                Ok(pipeline) => {
                    &&& result matches Ok(state)
                    &&& state.spine == spine
                    &&& state.pipeline == pipeline
                    &&& state.bindings == 0
                    &&& state.events@ == Seq::<AnimationEvent>::empty()
                },
                Err(error) => result == Err::<Self, ShaderError>(error),
            },
    {
        Self::new(spine, pipeline)
    }

    /// Puts an event that the animation runtime has reported behind those
    /// that wait for the callback.
    pub fn push_event(&mut self, event: AnimationEvent)
        ensures
            final(self).events@ == old(self).events@.push(event),
            final(self).spine == old(self).spine,
            final(self).pipeline == old(self).pipeline,
            final(self).bindings == old(self).bindings,
    {
        self.events.push_back(event);
    }

    /// Queues the command that sets `animation_name` on the track, if the
    /// skeleton defines that animation.
    fn queue_animation_by_name(&mut self, track_index: usize, animation_name: &str, looping: bool)
        -> (outcome: Result<TrackEntry, SpineError>)
        ensures
            old(self).is_animation_outcome(track_index, animation_name@, outcome),
            match outcome {
                Ok(_) => old(self).animation_set(
                    *final(self),
                    track_index,
                    animation_name@,
                    looping,
                ),
                Err(_) => *final(self) == *old(self),
            },
    {
        if contains_name(&self.spine.animations, animation_name) {
            self.spine.commands.push(
                EngineCommand::SetAnimation {
                    track_index,
                    animation_name: animation_name.to_owned(),
                    looping,
                },
            );
            assert(command_views(self.spine.commands@) =~= command_views(
                old(self).spine.commands@,
            ).push(
                EngineCommandView::SetAnimation {
                    track_index,
                    animation_name: animation_name@,
                    looping,
                },
            ));
            Ok(TrackEntry { track_index })
        } else {
            Err(
                SpineError::NotFound {
                    what: "Animation".to_owned(),
                    name: animation_name.to_owned(),
                },
            )
        }
    }

    /// Sets the animation of the given track by name.
    ///
    /// Fails, and leaves the rig as it is, if the skeleton defines no
    /// animation of that name.
    pub fn set_animation_by_name(
        &mut self,
        track_index: usize,
        animation_name: &str,
        looping: bool,
    ) -> (result: Result<(), SpineError>)
        ensures
            match result {
                Ok(_) => old(self).spine.has_animation(animation_name@) && old(self).animation_set(
                    *final(self),
                    track_index,
                    animation_name@,
                    looping,
                ),
                Err(error) => !old(self).spine.has_animation(animation_name@) && is_not_found(
                    error,
                    "Animation"@,
                    animation_name@,
                ) && *final(self) == *old(self),
            },
    {
        match self.queue_animation_by_name(track_index, animation_name, looping) {
            Ok(_) => Ok(()),
            Err(error) => Err(error),
        }
    }

    /// Sets the animation of the given track by name and hands what came of
    /// it to `cb`: the track, or the error for an unknown animation, in which
    /// case the rig stays as it is.
    pub fn set_animation_by_name_with_cb<T, E, F: FnOnce(Result<TrackEntry, SpineError>) -> Result<
        T,
        E,
    >>(&mut self, track_index: usize, animation_name: &str, looping: bool, cb: F) -> (result:
        Result<T, E>)
        requires
            forall|outcome: Result<TrackEntry, SpineError>|
                old(self).is_animation_outcome(track_index, animation_name@, outcome)
                    ==> cb.requires((outcome,)),
        ensures
            exists|outcome: Result<TrackEntry, SpineError>|
                old(self).is_animation_outcome(track_index, animation_name@, outcome)
                    && #[trigger] cb.ensures((outcome,), result),
            if old(self).spine.has_animation(animation_name@) {
                old(self).animation_set(*final(self), track_index, animation_name@, looping)
            } else {
                *final(self) == *old(self)
            },
    {
        let outcome = self.queue_animation_by_name(track_index, animation_name, looping);
        cb(outcome)
    }

    /// Sets the animation of the given track.
    pub fn set_animation(&mut self, track_index: usize, animation: &Animation, looping: bool)
        ensures
            old(self).animation_set(*final(self), track_index, animation.name@, looping),
    {
        self.spine.commands.push(
            EngineCommand::SetAnimation {
                track_index,
                animation_name: animation.name.clone(),
                looping,
            },
        );
        assert(command_views(self.spine.commands@) =~= command_views(
            old(self).spine.commands@,
        ).push(
            EngineCommandView::SetAnimation {
                track_index,
                animation_name: animation.name@,
                looping,
            },
        ));
    }

    /// Sets the animation of the given track and hands the track to `cb`.
    pub fn set_animation_with_cb<T, F: FnOnce(TrackEntry) -> T>(
        &mut self,
        track_index: usize,
        animation: &Animation,
        looping: bool,
        cb: F,
    ) -> (result: T)
        requires
            cb.requires((TrackEntry { track_index },)),
        ensures
            cb.ensures((TrackEntry { track_index },), result),
            old(self).animation_set(*final(self), track_index, animation.name@, looping),
    {
        self.set_animation(track_index, animation, looping);
        cb(TrackEntry { track_index })
    }

    /// Sets the skin by name and puts the slots into the setup pose.
    ///
    /// Fails, and leaves the rig as it is, if the skeleton defines no skin of
    /// that name.
    pub fn set_skin_by_name(&mut self, skin_name: &str) -> (result: Result<(), SpineError>)
        ensures
            match result {
                Ok(_) => old(self).spine.has_skin(skin_name@) && old(self).skin_set(
                    *final(self),
                    skin_name@,
                ),
                Err(error) => !old(self).spine.has_skin(skin_name@) && is_not_found(
                    error,
                    "Skin"@,
                    skin_name@,
                ) && *final(self) == *old(self),
            },
    {
        if contains_name(&self.spine.skins, skin_name) {
            self.spine.skin = Some(Skin { name: skin_name.to_owned() });
            self.spine.commands.push(EngineCommand::SetSkin { skin_name: skin_name.to_owned() });
            self.spine.commands.push(EngineCommand::SetSlotsToSetupPose);
            assert(command_views(self.spine.commands@) =~= command_views(
                old(self).spine.commands@,
            ).push(EngineCommandView::SetSkin { skin_name: skin_name@ }).push(
                EngineCommandView::SetSlotsToSetupPose,
            ));
            Ok(())
        } else {
            Err(SpineError::NotFound { what: "Skin".to_owned(), name: skin_name.to_owned() })
        }
    }

    /// Calls `cb` with the current skin.
    pub fn get_skin<T, F: FnOnce(Option<&Skin>) -> T>(&self, cb: F) -> (result: T)
        requires
            cb.requires((skin_item(self.spine.skin),)),
        ensures
            cb.ensures((skin_item(self.spine.skin),), result),
    {
        let skin = match &self.spine.skin {
            Some(skin) => Some(skin),
            None => None,
        };
        cb(skin)
    }

    /// The pages whose loads the host drives on in this update: those of the
    /// renderables whose textures are still loading, in draw order.
    pub fn process_loading(&self, runtime: &RenderRuntime, renderables: &Vec<Renderable>) -> (pages:
        Vec<PageId>)
        ensures
            pages@ == pending_pages(runtime.loader@.pages, renderables@, renderables@.len() as int),
    {
        let mut pages: Vec<PageId> = Vec::new();
        let mut i: usize = 0;
        while i < renderables.len()
            invariant
                i <= renderables@.len(),
                pages@ == pending_pages(runtime.loader@.pages, renderables@, i as int),
            decreases renderables.len() - i,
        {
            if let Some(page) = renderables[i].attachment {
                if runtime.loader.is_loading(page) {
                    pages.push(page);
                }
            }
            i = i + 1;
        }
        pages
    }

    /// Whether every renderable that has an atlas page has its texture
    /// loaded.
    pub fn is_fully_loaded(&self, runtime: &RenderRuntime, renderables: &Vec<Renderable>) -> (loaded:
        bool)
        ensures
            loaded == all_loaded(runtime.loader@.pages, renderables@),
    {
        let mut i: usize = 0;
        while i < renderables.len()
            invariant
                i <= renderables@.len(),
                all_loaded(runtime.loader@.pages, renderables@.take(i as int)),
            decreases renderables.len() - i,
        {
            if let Some(page) = renderables[i].attachment {
                if !runtime.loader.is_loaded(page) {
                    assert(!all_loaded(runtime.loader@.pages, renderables@)) by {
                        assert(renderables@[i as int].attachment == Some(page));
                    }
                    return false;
                }
            }
            assert forall|j: int| 0 <= j < i + 1 implies match (#[trigger] renderables@.take(
                i + 1,
            )[j]).attachment {
                Some(page) => page.index < runtime.loader@.pages.len()
                    && runtime.loader@.pages[page.index as int] matches Some(LoadState::Done(_)),
                None => true,
            } by {
                if j < i {
                    assert(renderables@.take(i as int)[j] == renderables@.take(i + 1)[j]);
                }
            }
            i = i + 1;
        }
        assert(renderables@.take(renderables@.len() as int) =~= renderables@);
        true
    }
}

/// A rig that is fully loaded has no load to drive on.
pub proof fn lemma_loaded_rig_has_no_pending_pages(
    pages: Seq<Option<LoadState<Seq<char>>>>,
    renderables: Seq<Renderable>,
    n: int,
)
    requires
        all_loaded(pages, renderables),
        0 <= n <= renderables.len(),
    ensures
        pending_pages(pages, renderables, n) == Seq::<PageId>::empty(),
    decreases n,
{
    if n > 0 {
        lemma_loaded_rig_has_no_pending_pages(pages, renderables, n - 1);
        assert(!is_pending(pages, renderables[n - 1].attachment));
    }
}

} // verus!
