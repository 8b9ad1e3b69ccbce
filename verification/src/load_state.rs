//! The state of a value that is loaded in the background.

use vstd::prelude::*;

verus! {

/// Either still loading, or done with the loaded value.
///
/// The only way out of `Loading` is [`LoadState::to_done`], and nothing
/// leads back: a state that is done stays done.
#[derive(Debug, PartialEq, Eq)]
pub enum LoadState<T> {
    Loading,
    Done(T),
}

impl<T> LoadState<T> {
    pub fn new_loading() -> (state: Self)
        ensures
            state == LoadState::<T>::Loading,
    {
        LoadState::Loading
    }

    pub fn new_done(value: T) -> (state: Self)
        ensures
            state == LoadState::Done(value),
    {
        LoadState::Done(value)
    }

    pub fn is_loaded(&self) -> (loaded: bool)
        ensures
            loaded == (self is Done),
    {
        match self {
            LoadState::Loading => false,
            LoadState::Done(_) => true,
        }
    }

    /// The loaded value, once there is one.
    pub fn get_value(&self) -> (value: Option<&T>)
        ensures
            match value {
                Some(v) => *self == LoadState::Done(*v),
                None => *self == LoadState::<T>::Loading,
            },
    {
        match self {
            LoadState::Loading => None,
            LoadState::Done(value) => Some(value),
        }
    }

    /// Ends the loading with `value`. A state that is done keeps its value.
    pub fn to_done(&mut self, value: T)
        ensures
            *final(self) == old(self).resolved(value),
            *final(self) is Done,
            *old(self) is Done ==> *final(self) == *old(self),
    {
        if let LoadState::Loading = self {
            *self = LoadState::Done(value);
        }
    }

    /// The state after the loading has ended with `value`.
    pub open spec fn resolved(self, value: T) -> Self {
        match self {
            LoadState::Loading => LoadState::Done(value),
            LoadState::Done(first) => LoadState::Done(first),
        }
    }
}

/// A state that is done never goes back to loading: ending a load leaves a
/// state that is done, and a state that was done before is left as it was,
/// whatever the load ended with.
pub proof fn lemma_done_stays_done<T>(state: LoadState<T>, first: T, second: T)
    ensures
        state.resolved(first) is Done,
        state is Done ==> state.resolved(first) == state,
        state.resolved(first).resolved(second) == state.resolved(first),
{
}

} // verus!
