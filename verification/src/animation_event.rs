//! What the animation runtime reports while it advances a rig.

use vstd::prelude::*;

verus! {

/// Names the track that an event came from.
#[derive(Clone, Copy, Debug, PartialEq, Eq, Hash, Structural)]
pub struct TrackEntry {
    pub track_index: usize,
}

/// One event of an animation. The numbers of a keyed event that are not
/// integers are single-precision numbers, held as their 32 bits.
#[derive(Clone, Debug, PartialEq, Eq)]
pub enum AnimationEvent {
    Start {
        /// The track this event originated from.
        track_entry: TrackEntry,
    },
    Interrupt {
        /// The track this event originated from.
        track_entry: TrackEntry,
    },
    End {
        /// The track this event originated from.
        track_entry: TrackEntry,
    },
    Complete {
        /// The track this event originated from.
        track_entry: TrackEntry,
    },
    Dispose {
        /// The track this event originated from.
        track_entry: TrackEntry,
    },
    Event {
        /// The track this event originated from.
        track_entry: TrackEntry,
        /// The name of the event, which is unique across all events in the skeleton.
        name: String,
        /// The animation time this event was keyed.
        time: u32,
        /// The event's int value.
        int: i32,
        /// The event's float value.
        float: u32,
        /// The event's string value or an empty string.
        string: String,
        /// The event's audio path or an empty string.
        audio_path: String,
        /// The event's audio volume.
        volume: u32,
        /// The event's audio balance.
        balance: u32,
    },
}

impl AnimationEvent {
    /// The track that the event came from.
    pub open spec fn track(self) -> TrackEntry {
        match self {
            AnimationEvent::Start { track_entry } => track_entry,
            AnimationEvent::Interrupt { track_entry } => track_entry,
            AnimationEvent::End { track_entry } => track_entry,
            AnimationEvent::Complete { track_entry } => track_entry,
            AnimationEvent::Dispose { track_entry } => track_entry,
            AnimationEvent::Event { track_entry, .. } => track_entry,
        }
    }

    pub fn track_entry(&self) -> (track_entry: TrackEntry)
        ensures
            track_entry == self.track(),
    {
        match self {
            AnimationEvent::Start { track_entry } => *track_entry,
            AnimationEvent::Interrupt { track_entry } => *track_entry,
            AnimationEvent::End { track_entry } => *track_entry,
            AnimationEvent::Complete { track_entry } => *track_entry,
            AnimationEvent::Dispose { track_entry } => *track_entry,
            AnimationEvent::Event { track_entry, .. } => *track_entry,
        }
    }
}

} // verus!
