//! Animation event notifications.
//!
//! The mixer buffers every notification generated during one advance pass and
//! hands the whole queue to the host afterwards, so a listener never observes
//! track state mid-mutation.

use vstd::prelude::*;

verus! {

/// The kind of a notification emitted by the mixer.
#[derive(Clone, Copy, PartialEq, Eq, Structural, Debug)]
pub enum EventType {
    /// An entry began playing on a track.
    Start,
    /// An entry was cut short by a replacement before it completed.
    Interrupt,
    /// An entry was removed from its track; always the entry's last event.
    End,
    /// An entry's time crossed its animation's duration (once per crossing,
    /// and once per wrap for looping entries).
    Complete,
    /// An entry was discarded together with its queued follower.
    Dispose,
    /// A user-authored event keyframe was crossed.
    UserEvent,
}

/// Immutable definition of a user-authored event, shared by every firing.
#[derive(Clone, Debug)]
pub struct EventData {
    pub name: String,
    pub int_value: i32,
    pub number_value: i64,
    pub string_value: String,
    pub audio_path: String,
    pub volume: i64,
    pub balance: i64,
}

/// A single firing of a user-authored event: the index of its definition
/// plus the keyframe time, in ticks, at which it fired.
#[derive(Clone, Debug)]
pub struct Event {
    pub data_index: usize,
    pub time: u32,
}

/// One buffered notification, ready for delivery to the host's listener.
///
/// `animation` identifies the entry the notification concerns: the index of
/// its animation, or `None` for an empty (setup-pose) entry.
#[derive(Clone, Debug)]
pub struct QueuedEvent {
    pub track_index: usize,
    pub event_type: EventType,
    pub animation: Option<usize>,
    pub user: Option<Event>,
}

} // verus!
