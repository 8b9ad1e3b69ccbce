//! The two entry points of a frame: handing the events of an update to the
//! host's callback, and rendering.

use vstd::prelude::*;
use std::collections::VecDeque;
use crate::animation_event::AnimationEvent;
use crate::delete_queue::drained;
use crate::render::{
    drawn_fit, frame_commands, items_of, render_frame, slots_after, RenderCommand,
};
use crate::renderable::Renderable;
use crate::runtime::RenderRuntime;
use crate::spine_state::SpineState;

verus! {

/// A rig together with data of the host.
pub struct AnimationStateWithData<T> {
    pub animation_state: SpineState,
    pub extra_data: T,
}

/// Drives a rig: calls `func` for every event of an update, and renders.
pub struct SpineAnimation<Func> {
    func: Func,
}

/// The state with an empty event buffer in place of its own.
pub open spec fn without_events<T>(
    state: AnimationStateWithData<T>,
    emptied: AnimationStateWithData<T>,
) -> bool {
    &&& emptied.animation_state.events@ == Seq::<AnimationEvent>::empty()
    &&& emptied.animation_state.spine == state.animation_state.spine
    &&& emptied.animation_state.pipeline == state.animation_state.pipeline
    &&& emptied.animation_state.bindings == state.animation_state.bindings
    &&& emptied.extra_data == state.extra_data
}

impl<Func> SpineAnimation<Func> {
    /// The callback that `process` calls.
    pub closed spec fn callback(&self) -> Func {
        self.func
    }

    pub fn instantiate(func: Func) -> (component: Self)
        ensures
            component.callback() == func,
    {
        Self { func }
    }

    /// Hands the events that the last update of the animation has left in
    /// the rig's buffer to the callback, oldest first.
    ///
    /// The buffer is taken out of the rig before the first call, so that a
    /// callback that changes the rig does not disturb the walk, and the rig's
    /// buffer is empty when this returns. In the contract, `states` are the
    /// states that the rig goes through and `calls` the calls of the
    /// callback: there is one call for each event, in the order of the
    /// events; the first finds the rig without its events, each other finds
    /// it as the call before left it.
    pub fn process<T>(&mut self, state: &mut AnimationStateWithData<T>) where
        Func: Fn(AnimationEvent, &mut AnimationStateWithData<T>),

        requires
            forall|event: AnimationEvent, rig: &mut AnimationStateWithData<T>|
                #[trigger] old(self).callback().requires((event, rig)),
        ensures
            final(self).callback() == old(self).callback(),
            final(state).animation_state.events@ == Seq::<AnimationEvent>::empty(),
            exists|
                states: Seq<AnimationStateWithData<T>>,
                calls: Seq<&mut AnimationStateWithData<T>>,
            |
                {
                    &&& #[trigger] calls.len() == old(state).animation_state.events@.len()
                    &&& #[trigger] states.len() == calls.len() + 1
                    &&& without_events(*old(state), states.first())
                    &&& forall|i: int|
                        0 <= i < calls.len() ==> {
                            &&& *(#[trigger] calls[i]) == states[i]
                            &&& *final(calls[i]) == states[i + 1]
                            &&& old(self).callback().ensures(
                                (old(state).animation_state.events@[i], calls[i]),
                                (),
                            )
                        }
                    &&& without_events(states.last(), *final(state))
                },
    {
        let mut events: VecDeque<AnimationEvent> = VecDeque::new();
        core::mem::swap(&mut state.animation_state.events, &mut events);
        let ghost all = events@;
        let ghost mut states: Seq<AnimationStateWithData<T>> = seq![*state];
        let ghost mut count: nat = 0;
        assert(old(self).callback() == self.func);
        assert(forall|event: AnimationEvent, rig: &mut AnimationStateWithData<T>|
            #[trigger] self.func.requires((event, rig)));
        assert(exists|calls: Seq<&mut AnimationStateWithData<T>>| #[trigger] calls.len() == 0) by {
            assert(Seq::<&mut AnimationStateWithData<T>>::empty().len() == 0);
        }
        while events.len() > 0
            invariant
                forall|event: AnimationEvent, rig: &mut AnimationStateWithData<T>|
                    #[trigger] self.func.requires((event, rig)),
                self.func == old(self).func,
                count + events@.len() == all.len(),
                events@ == all.skip(count as int),
                states.len() == count + 1,
                without_events(*old(state), states.first()),
                states.last() == *state,
                exists|calls: Seq<&mut AnimationStateWithData<T>>|
                    {
                        &&& #[trigger] calls.len() == count
                        &&& forall|i: int|
                            0 <= i < calls.len() ==> {
                                &&& *(#[trigger] calls[i]) == states[i]
                                &&& *final(calls[i]) == states[i + 1]
                                &&& self.func.ensures((all[i], calls[i]), ())
                            }
                    },
            decreases events.len(),
        {
            let ghost entered = *state;
            let ghost earlier = states;
            let event = events.pop_front().unwrap();
            assert(event == all[count as int]);
            (self.func)(event, state);
            proof {
                states = states.push(*state);
                let before = choose|calls: Seq<&mut AnimationStateWithData<T>>|
                    {
                        &&& #[trigger] calls.len() == count
                        &&& forall|i: int|
                            0 <= i < calls.len() ==> {
                                &&& *(#[trigger] calls[i]) == earlier[i]
                                &&& *final(calls[i]) == earlier[i + 1]
                                &&& self.func.ensures((all[i], calls[i]), ())
                            }
                    };
                let call = choose|rig: &mut AnimationStateWithData<T>|
                    *rig == entered && *final(rig) == *state && #[trigger] self.func.ensures(
                        (event, rig),
                        (),
                    );
                let after = before.push(call);
                assert(after.len() == count + 1);
                assert forall|i: int| 0 <= i < after.len() implies {
                    &&& *(#[trigger] after[i]) == states[i]
                    &&& *final(after[i]) == states[i + 1]
                    &&& self.func.ensures((all[i], after[i]), ())
                } by {
                    if i < count {
                        assert(after[i] == before[i]);
                        assert(states[i] == earlier[i] && states[i + 1] == earlier[i + 1]);
                    }
                }
                assert(events@ =~= all.skip(count as int + 1));
                count = count + 1;
            }
        }
        // The buffer goes back to the rig, drained.
        state.animation_state.events = events;
    }

    /// The commands that render the rig in this frame.
    pub fn render<T>(
        &self,
        props: &mut AnimationStateWithData<T>,
        runtime: &mut RenderRuntime,
        renderables: &Vec<Renderable>,
    ) -> (commands: Vec<RenderCommand>)
        requires
            drawn_fit(renderables@, old(runtime).loader@.pages, old(runtime).cache@),
        ensures
            commands@ == frame_commands(
                old(runtime).queue@,
                old(props).animation_state.bindings as nat,
                items_of(
                    renderables@,
                    old(props).animation_state.spine.premultiplied_alpha,
                    old(runtime).loader@.pages,
                    old(runtime).cache@,
                ),
            ),
            final(props).animation_state.bindings == slots_after(
                old(props).animation_state.bindings as nat,
                renderables@.len(),
            ),
            final(props).animation_state.spine == old(props).animation_state.spine,
            final(props).animation_state.pipeline == old(props).animation_state.pipeline,
            final(props).animation_state.events == old(props).animation_state.events,
            final(props).extra_data == old(props).extra_data,
            final(runtime).queue@ == drained(old(runtime).queue@),
            final(runtime).cache == old(runtime).cache,
            final(runtime).loader == old(runtime).loader,
            final(runtime).created == old(runtime).created,
    {
        let commands = render_frame(
            runtime,
            props.animation_state.bindings,
            props.animation_state.spine.premultiplied_alpha,
            renderables,
        );
        if renderables.len() > props.animation_state.bindings {
            props.animation_state.bindings = renderables.len();
        }
        commands
    }
}

} // verus!
