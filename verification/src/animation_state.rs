//! The multi-track animation mixer: track entries, time advance with
//! clamping and looping, crossfades, queued handovers, and the buffered
//! event notifications the host's listener receives after each pass.
//!
//! Every command and the advance step have exact contracts: the new track
//! state and the appended event sequence are given by spec functions of the
//! old state, so event ordering is pinned down completely.

use vstd::prelude::*;
use crate::animation::{keys_between, sample, sample_spec, EventKey, Timeline, TimelineTarget};
use crate::event::{Event, EventType, QueuedEvent};
use crate::fixed::{
    fp_add, fp_add_spec, fp_in_range, fp_mul, fp_mul_spec, lerp_fp, lerp_spec, ratio_trunc,
    scale_ratio, scale_ratio_spec, tdiv, FP_ONE,
};
use crate::skeleton::{locals_of, setup_local_spec, Bone, LocalTransform, Skeleton};
use crate::skeleton_data::{timeline_bone, timeline_bone_spec, SkeletonData};

verus! {

/// Policy for combining an incoming animation's values with the pose
/// already established by lower tracks.
#[derive(Clone, Copy, PartialEq, Eq, Structural, Debug)]
pub enum MixBlend {
    /// Blend from the setup pose toward the timeline value.
    Setup,
    /// Like `Setup`; the conventional blend for the first track.
    First,
    /// Blend from the current pose toward the timeline value.
    Replace,
    /// Accumulate the timeline value's delta from setup onto the pose.
    Add,
}

/// The residue of an entry that is being faded out during a crossfade.
/// Its pose is sampled at the time it held when the fade began, and is
/// blended in with the incoming entry's mix-blend mode.
#[derive(Clone, Copy, PartialEq, Eq, Structural, Debug)]
pub struct FadingEntry {
    pub animation: Option<usize>,
    pub time: u64,
    pub looping: bool,
    pub alpha: i64,
}

/// An animation queued to take a track over.  `start_at` is the absolute
/// unwrapped track time at which the handover happens: the end of the
/// current entry's pass (its duration, or the next wrap boundary for a
/// looping entry) plus the requested delay, fixed when the follower is
/// queued so that later advances cannot push it out.
#[derive(Clone, Copy, PartialEq, Eq, Structural, Debug)]
pub struct QueuedEntry {
    pub animation: Option<usize>,
    pub looping: bool,
    pub start_at: u64,
    pub mix_duration: u32,
}

/// The mutable state of one animation track.  `time` accumulates unwrapped
/// ticks; the looping or clamped track time is derived from it.  `None` in
/// `animation` is the empty entry, which pulls the pose toward setup.
#[derive(Clone, Copy, PartialEq, Eq, Structural, Debug)]
pub struct TrackEntry {
    pub animation: Option<usize>,
    pub looping: bool,
    pub time: u64,
    pub time_scale: u32,
    pub alpha: i64,
    pub mix_blend: MixBlend,
    pub mix_duration: u32,
    pub mix_time: u32,
    pub mix_from: Option<FadingEntry>,
    pub queued: Option<QueuedEntry>,
}

/// An animation reference, when present, points into the definition table.
pub open spec fn animation_ok(a: Option<usize>, data: SkeletonData) -> bool {
    match a {
        Some(x) => x < data.animations@.len(),
        None => true,
    }
}

/// A track entry is valid for a definition: its animation references are in
/// range and its blend weights lie in `[0, FP_ONE]`.
pub open spec fn entry_valid(e: TrackEntry, data: SkeletonData) -> bool {
    &&& animation_ok(e.animation, data)
    &&& 0 <= e.alpha <= FP_ONE
    &&& match e.mix_from {
        Some(f) => animation_ok(f.animation, data) && 0 <= f.alpha <= FP_ONE,
        None => true,
    }
    &&& match e.queued {
        Some(q) => animation_ok(q.animation, data),
        None => true,
    }
}

/// Duration in ticks of an entry's animation; the empty entry has none.
pub open spec fn duration_spec(data: SkeletonData, a: Option<usize>) -> int {
    match a {
        Some(x) => data.animations@[x as int].duration as int,
        None => 0,
    }
}

/// Delta ticks scaled by a per-mille time scale.
pub open spec fn scaled_delta_spec(dt: int, time_scale: int) -> int {
    (dt * time_scale) / 1000
}

/// Unwrapped time accumulation saturates at the top of its range.
pub open spec fn sat_add_spec(t: int, d: int) -> int {
    if t + d > u64::MAX {
        u64::MAX as int
    } else {
        t + d
    }
}

/// The track time derived from unwrapped time: wrapped for looping
/// entries, clamped at the duration otherwise.
pub open spec fn wrapped_time_spec(t: int, duration: int, looping: bool) -> int {
    if duration <= 0 {
        0
    } else if looping {
        t % duration
    } else if t > duration {
        duration
    } else {
        t
    }
}

/// Whether an entry at unwrapped time `t` has passed its duration at least
/// once; an entry without duration counts as completed.
pub open spec fn completed_spec(t: int, duration: int) -> bool {
    t >= duration
}

/// How many completions an advance from unwrapped time `t0` to `t1` fires:
/// one per wrap for looping entries, one at the clamp crossing otherwise.
pub open spec fn completes_between_spec(t0: int, t1: int, duration: int, looping: bool) -> int {
    if duration <= 0 {
        0
    } else if looping {
        t1 / duration - t0 / duration
    } else if t0 < duration && t1 >= duration {
        1
    } else {
        0
    }
}

/// Crossfade weight at mix time `t` over a mix of duration `m`, in fixed
/// point: `clamp(t / m, 0, 1)` scaled by `FP_ONE`; one when `m` is zero.
pub open spec fn mix_weight_spec(t: int, m: int) -> int {
    if m <= 0 {
        FP_ONE as int
    } else {
        scale_ratio_spec(FP_ONE as int, if t < 0 { 0 } else if t > m { m } else { t }, m)
    }
}

/// Crossfade weight is zero at the start of the mix, one at its end,
/// monotonic in between, and always bounded by `[0, 1]`.
pub proof fn lemma_mix_weight_properties(t1: int, t2: int, m: int)
    requires
        m > 0,
    ensures
        mix_weight_spec(0, m) == 0,
        mix_weight_spec(m, m) == FP_ONE,
        t1 <= t2 ==> mix_weight_spec(t1, m) <= mix_weight_spec(t2, m),
        0 <= mix_weight_spec(t1, m) <= FP_ONE,
{
    let f = FP_ONE as int;
    assert(f * 0 == 0) by (nonlinear_arith);
    vstd::arithmetic::div_mod::lemma_div_multiples_vanish(0, m);
    assert(m * 0 == 0) by (nonlinear_arith);
    assert(f * m == m * f) by (nonlinear_arith);
    vstd::arithmetic::div_mod::lemma_div_multiples_vanish(f, m);
    let c1 = if t1 < 0 { 0 } else if t1 > m { m } else { t1 };
    let c2 = if t2 < 0 { 0 } else if t2 > m { m } else { t2 };
    assert(0 <= c1 <= m && 0 <= c2 <= m);
    if c1 <= c2 {
        assert(f * c1 <= f * c2) by (nonlinear_arith)
            requires
                c1 <= c2,
                f > 0,
        ;
        vstd::arithmetic::div_mod::lemma_div_is_ordered(f * c1, f * c2, m);
    }
    assert(0 <= f * c1 <= f * m) by (nonlinear_arith)
        requires
            0 <= c1 <= m,
            f > 0,
    ;
    vstd::arithmetic::div_mod::lemma_div_is_ordered(f * c1, f * m, m);
    vstd::arithmetic::div_mod::lemma_div_pos_is_pos(f * c1, m);
}

/// A non-looping entry's track time clamps at its duration and stays
/// there, and exactly one completion fires, at the crossing and never
/// after it.
pub proof fn lemma_nonloop_clamp(t0: int, d: int, duration: int)
    requires
        0 <= t0,
        0 <= d,
        0 < duration,
    ensures
        t0 + d >= duration ==> wrapped_time_spec(t0 + d, duration, false) == duration,
        t0 < duration && t0 + d >= duration ==> completes_between_spec(
            t0,
            t0 + d,
            duration,
            false,
        ) == 1,
        t0 >= duration ==> wrapped_time_spec(t0 + d, duration, false) == wrapped_time_spec(
            t0,
            duration,
            false,
        ),
        t0 >= duration ==> completes_between_spec(t0, t0 + d, duration, false) == 0,
        t0 + d < duration ==> completes_between_spec(t0, t0 + d, duration, false) == 0,
{
}

/// Advancing a looping entry of duration `D` by `D + x` ticks from time
/// zero wraps the track time to `x` and fires exactly one completion.
pub proof fn lemma_loop_wrap(x: int, duration: int)
    requires
        0 < duration,
        0 <= x < duration,
    ensures
        wrapped_time_spec(duration + x, duration, true) == x,
        completes_between_spec(0, duration + x, duration, true) == 1,
{
    assert((duration + x) % duration == x && (duration + x) / duration == 1) by (nonlinear_arith)
        requires
            0 < duration,
            0 <= x < duration,
    ;
    assert(0int / duration == 0) by (nonlinear_arith)
        requires
            0 < duration,
    ;
}

/// The absolute unwrapped track time at which a follower queued now, with
/// the given delay, takes the track over: the end of the current entry's
/// pass plus the delay.  For a looping entry the pass ends at the next
/// wrap boundary; a clamped entry past its duration, or an entry without
/// one, has no remaining pass.
pub open spec fn start_at_spec(data: SkeletonData, e: TrackEntry, delay: int) -> int {
    let dur = duration_spec(data, e.animation);
    let base = if dur <= 0 {
        e.time as int
    } else if e.looping {
        let b = (e.time as int / dur + 1) * dur;
        if b > u64::MAX {
            u64::MAX as int
        } else {
            b
        }
    } else if e.time >= dur {
        e.time as int
    } else {
        dur
    };
    sat_add_spec(base, delay)
}

/// The handover time for a follower queued now with the given delay.
pub fn start_at_of(data: &SkeletonData, e: &TrackEntry, delay: u32) -> (r: u64)
    requires
        animation_ok(e.animation, *data),
    ensures
        r == start_at_spec(*data, *e, delay as int),
{
    let dur = duration_of(data, e.animation);
    let base: u64 = if dur == 0 {
        e.time
    } else if e.looping {
        let wraps: u64 = e.time / dur;
        proof {
            assert(0 <= (wraps as int + 1) * dur as int
                <= 0x1_0000_0000_0000_0000_0000_0000u128 as int) by (nonlinear_arith)
                requires
                    0 <= wraps as int <= 0xffff_ffff_ffff_ffffu64 as int,
                    0 <= dur as int <= 0xffff_ffffu32 as int,
            ;
        }
        let b: u128 = ((wraps as u128) + 1) * (dur as u128);
        if b > u64::MAX as u128 {
            u64::MAX
        } else {
            b as u64
        }
    } else if e.time >= dur {
        e.time
    } else {
        dur
    };
    if delay as u64 > u64::MAX - base {
        u64::MAX
    } else {
        base + delay as u64
    }
}

/// A fresh entry as a command or a promotion creates it.
pub open spec fn new_entry_spec(
    animation: Option<usize>,
    looping: bool,
    mix_duration: u32,
    mix_from: Option<FadingEntry>,
) -> TrackEntry {
    TrackEntry {
        animation,
        looping,
        time: 0,
        time_scale: 1000,
        alpha: FP_ONE,
        mix_blend: MixBlend::Replace,
        mix_duration,
        mix_time: 0,
        mix_from,
        queued: None,
    }
}

/// One notification without a user payload.
pub open spec fn plain_event(
    track_index: usize,
    event_type: EventType,
    animation: Option<usize>,
) -> QueuedEvent {
    QueuedEvent { track_index, event_type, animation, user: None }
}

/// The notifications fired when `entry` leaves its track and `incoming`
/// (if any) takes over: an interrupt unless the entry had completed, the
/// entry's final end, a dispose for a discarded queued follower, then the
/// newcomer's start.
pub open spec fn replace_events_spec(
    data: SkeletonData,
    track_index: usize,
    entry: Option<TrackEntry>,
    disposed_queued: bool,
    incoming: Option<Option<usize>>,
) -> Seq<QueuedEvent> {
    let out = match entry {
        Some(e) => {
            let interrupt: Seq<QueuedEvent> = if !completed_spec(
                e.time as int,
                duration_spec(data, e.animation),
            ) {
                seq![plain_event(track_index, EventType::Interrupt, e.animation)]
            } else {
                Seq::empty()
            };
            let dispose: Seq<QueuedEvent> = match e.queued {
                Some(q) => if disposed_queued {
                    seq![plain_event(track_index, EventType::Dispose, q.animation)]
                } else {
                    Seq::empty()
                },
                None => Seq::empty(),
            };
            interrupt + seq![plain_event(track_index, EventType::End, e.animation)] + dispose
        },
        None => Seq::empty(),
    };
    match incoming {
        Some(a) => out + seq![plain_event(track_index, EventType::Start, a)],
        None => out,
    }
}

/// The ordered mixer state: a sparse array of tracks, the buffered event
/// queue, and the default crossfade duration for queued handovers.
#[derive(Clone, Debug)]
pub struct AnimationState {
    pub tracks: Vec<Option<TrackEntry>>,
    pub events: Vec<QueuedEvent>,
    pub default_mix: u32,
}

impl AnimationState {
    /// Every occupied track holds a valid entry for `data`.
    pub open spec fn valid_for(self, data: SkeletonData) -> bool {
        forall|i: int|
            0 <= i < self.tracks@.len() ==> match #[trigger] self.tracks@[i] {
                Some(e) => entry_valid(e, data),
                None => true,
            }
    }

    /// A fresh mixer with no tracks, no buffered events, and the given
    /// default crossfade duration.
    pub fn new(default_mix: u32) -> (s: AnimationState)
        ensures
            s.tracks@.len() == 0,
            s.events@.len() == 0,
            s.default_mix == default_mix,
    {
        AnimationState { tracks: Vec::new(), events: Vec::new(), default_mix }
    }

    /// The entry currently on a track, if any.
    pub fn track_entry(&self, track_index: usize) -> (r: Option<TrackEntry>)
        ensures
            r == if track_index < self.tracks@.len() {
                self.tracks@[track_index as int]
            } else {
                Option::<TrackEntry>::None
            },
    {
        if track_index < self.tracks.len() {
            self.tracks[track_index]
        } else {
            None
        }
    }

    /// Grows the sparse track array so that `track_index` exists.
    fn ensure_track(&mut self, track_index: usize)
        ensures
            final(self).tracks@.len() > track_index,
            final(self).tracks@.len() == if old(self).tracks@.len() > track_index {
                old(self).tracks@.len() as int
            } else {
                track_index + 1
            },
            forall|i: int|
                0 <= i < old(self).tracks@.len() ==> final(self).tracks@[i] == old(self).tracks@[i],
            forall|i: int|
                old(self).tracks@.len() <= i < final(self).tracks@.len() ==> final(self).tracks@[i] is None,
            final(self).events@ == old(self).events@,
            final(self).default_mix == old(self).default_mix,
    {
        while self.tracks.len() <= track_index
            invariant
                forall|i: int|
                    0 <= i < old(self).tracks@.len() ==> self.tracks@[i] == old(self).tracks@[i],
                forall|i: int|
                    old(self).tracks@.len() <= i < self.tracks@.len() ==> self.tracks@[i]
                        is None,
                self.tracks@.len() >= old(self).tracks@.len(),
                self.tracks@.len() <= track_index + 1 || self.tracks@.len() == old(self).tracks@.len(),
                self.events@ == old(self).events@,
                self.default_mix == old(self).default_mix,
            decreases track_index + 1 - self.tracks@.len(),
        {
            self.tracks.push(None);
        }
    }

    /// Replaces the track's entry immediately, with no crossfade.  The
    /// outgoing entry's interrupt (unless it had completed), end, and a
    /// dispose for any discarded queued follower fire before the new
    /// entry's start.
    pub fn set_animation(
        &mut self,
        data: &SkeletonData,
        track_index: usize,
        animation: usize,
        looping: bool,
    )
        requires
            old(self).valid_for(*data),
            animation < data.animations@.len(),
        ensures
            final(self).valid_for(*data),
            final(self).default_mix == old(self).default_mix,
            final(self).tracks@.len() >= track_index + 1,
            final(self).tracks@[track_index as int] == Some(
                new_entry_spec(Some(animation), looping, 0, None),
            ),
            forall|i: int|
                0 <= i < final(self).tracks@.len() && i != track_index ==> final(self).tracks@[i] == if i < old(self).tracks@.len() {
                    old(self).tracks@[i]
                } else {
                    Option::<TrackEntry>::None
                },
            final(self).events@ == old(self).events@ + replace_events_spec(
                *data,
                track_index,
                if track_index < old(self).tracks@.len() {
                    old(self).tracks@[track_index as int]
                } else {
                    None
                },
                true,
                Some(Some(animation)),
            ),
    {
        self.replace_track(data, track_index, Some(animation), looping, 0);
    }

    /// Crossfades the track to the setup pose over `mix_duration` ticks by
    /// installing an empty entry that fades the outgoing one out.  Fires
    /// the same interrupt/end/dispose/start sequence as `set_animation`.
    pub fn set_empty_animation(&mut self, data: &SkeletonData, track_index: usize, mix_duration: u32)
        requires
            old(self).valid_for(*data),
        ensures
            final(self).valid_for(*data),
            final(self).default_mix == old(self).default_mix,
            final(self).tracks@.len() >= track_index + 1,
            final(self).tracks@[track_index as int] == Some(
                new_entry_spec(
                    None,
                    false,
                    mix_duration,
                    fading_of_spec(
                        if track_index < old(self).tracks@.len() {
                            old(self).tracks@[track_index as int]
                        } else {
                            None
                        },
                        mix_duration,
                    ),
                ),
            ),
            forall|i: int|
                0 <= i < final(self).tracks@.len() && i != track_index ==> final(self).tracks@[i] == if i < old(self).tracks@.len() {
                    old(self).tracks@[i]
                } else {
                    Option::<TrackEntry>::None
                },
            final(self).events@ == old(self).events@ + replace_events_spec(
                *data,
                track_index,
                if track_index < old(self).tracks@.len() {
                    old(self).tracks@[track_index as int]
                } else {
                    None
                },
                true,
                Some(None),
            ),
    {
        self.replace_track(data, track_index, None, false, mix_duration);
    }

    /// Queues `animation` to take the track over once the current entry
    /// reaches the end of its current pass plus `delay` ticks, crossfading
    /// over the mixer's default mix duration.  A previously queued
    /// follower is disposed.  On an empty track the entry starts at once.
    pub fn add_animation(
        &mut self,
        data: &SkeletonData,
        track_index: usize,
        animation: usize,
        looping: bool,
        delay: u32,
    )
        requires
            old(self).valid_for(*data),
            animation < data.animations@.len(),
        ensures
            final(self).valid_for(*data),
            final(self).default_mix == old(self).default_mix,
            final(self).tracks@.len() >= track_index + 1,
            ({
                let had = track_index < old(self).tracks@.len() && old(self).tracks@[track_index as int] is Some;
                if had {
                    let e = old(self).tracks@[track_index as int]->Some_0;
                    &&& final(self).tracks@[track_index as int] == Some(
                        TrackEntry {
                            queued: Some(
                                QueuedEntry {
                                    animation: Some(animation),
                                    looping,
                                    start_at: start_at_spec(*data, e, delay as int) as u64,
                                    mix_duration: old(self).default_mix,
                                },
                            ),
                            ..e
                        },
                    )
                    &&& final(self).events@ == old(self).events@ + (match e.queued {
                        Some(q) => seq![
                            plain_event(track_index, EventType::Dispose, q.animation),
                        ],
                        None => Seq::<QueuedEvent>::empty(),
                    })
                } else {
                    &&& final(self).tracks@[track_index as int] == Some(
                        new_entry_spec(Some(animation), looping, 0, None),
                    )
                    &&& final(self).events@ == old(self).events@ + seq![
                        plain_event(track_index, EventType::Start, Some(animation)),
                    ]
                }
            }),
            forall|i: int|
                0 <= i < final(self).tracks@.len() && i != track_index ==> final(self).tracks@[i] == if i < old(self).tracks@.len() {
                    old(self).tracks@[i]
                } else {
                    Option::<TrackEntry>::None
                },
    {
        self.ensure_track(track_index);
        let current = self.tracks[track_index];
        match current {
            Some(e) => {
                match e.queued {
                    Some(q) => {
                        self.events.push(
                            QueuedEvent {
                                track_index,
                                event_type: EventType::Dispose,
                                animation: q.animation,
                                user: None,
                            },
                        );
                    },
                    None => {},
                }
                let start_at = start_at_of(data, &e, delay);
                let updated = TrackEntry {
                    queued: Some(
                        QueuedEntry {
                            animation: Some(animation),
                            looping,
                            start_at,
                            mix_duration: self.default_mix,
                        },
                    ),
                    ..e
                };
                self.tracks.set(track_index, Some(updated));
            },
            None => {
                let entry = TrackEntry {
                    animation: Some(animation),
                    looping,
                    time: 0,
                    time_scale: 1000,
                    alpha: FP_ONE,
                    mix_blend: MixBlend::Replace,
                    mix_duration: 0,
                    mix_time: 0,
                    mix_from: None,
                    queued: None,
                };
                self.tracks.set(track_index, Some(entry));
                self.events.push(
                    QueuedEvent {
                        track_index,
                        event_type: EventType::Start,
                        animation: Some(animation),
                        user: None,
                    },
                );
            },
        }
    }

    /// Removes the track's entry.  The outgoing entry's interrupt (unless
    /// completed) and end fire; a queued follower, if present, is promoted
    /// immediately and its start fires last.
    pub fn clear_track(&mut self, data: &SkeletonData, track_index: usize)
        requires
            old(self).valid_for(*data),
        ensures
            final(self).valid_for(*data),
            final(self).default_mix == old(self).default_mix,
            final(self).tracks@.len() == old(self).tracks@.len(),
            forall|i: int|
                0 <= i < final(self).tracks@.len() && i != track_index ==> final(self).tracks@[i] == old(self).tracks@[i],
            ({
                let had = track_index < old(self).tracks@.len() && old(self).tracks@[track_index as int] is Some;
                if had {
                    let e = old(self).tracks@[track_index as int]->Some_0;
                    &&& final(self).tracks@[track_index as int] == (match e.queued {
                        Some(q) => Some(
                            new_entry_spec(q.animation, q.looping, q.mix_duration, None),
                        ),
                        None => Option::<TrackEntry>::None,
                    })
                    &&& final(self).events@ == old(self).events@ + replace_events_spec(
                        *data,
                        track_index,
                        Some(e),
                        false,
                        match e.queued {
                            Some(q) => Some(q.animation),
                            None => None,
                        },
                    )
                } else {
                    &&& (track_index < final(self).tracks@.len() ==> final(self).tracks@[track_index as int] is None)
                    &&& final(self).events@ == old(self).events@
                }
            }),
    {
        if track_index >= self.tracks.len() {
            return ;
        }
        let current = self.tracks[track_index];
        match current {
            Some(e) => {
                let duration = duration_of(data, e.animation);
                if !(e.time >= duration) {
                    self.events.push(
                        QueuedEvent {
                            track_index,
                            event_type: EventType::Interrupt,
                            animation: e.animation,
                            user: None,
                        },
                    );
                }
                self.events.push(
                    QueuedEvent {
                        track_index,
                        event_type: EventType::End,
                        animation: e.animation,
                        user: None,
                    },
                );
                match e.queued {
                    Some(q) => {
                        self.events.push(
                            QueuedEvent {
                                track_index,
                                event_type: EventType::Start,
                                animation: q.animation,
                                user: None,
                            },
                        );
                        let entry = TrackEntry {
                            animation: q.animation,
                            looping: q.looping,
                            time: 0,
                            time_scale: 1000,
                            alpha: FP_ONE,
                            mix_blend: MixBlend::Replace,
                            mix_duration: q.mix_duration,
                            mix_time: 0,
                            mix_from: None,
                            queued: None,
                        };
                        self.tracks.set(track_index, Some(entry));
                    },
                    None => {
                        self.tracks.set(track_index, None);
                    },
                }
            },
            None => {},
        }
    }

    /// Hands the buffered notifications to the host, in the order they
    /// were generated, and clears the queue.
    pub fn drain_events(&mut self) -> (r: Vec<QueuedEvent>)
        ensures
            r@ == old(self).events@,
            final(self).events@.len() == 0,
            final(self).tracks@ == old(self).tracks@,
            final(self).default_mix == old(self).default_mix,
    {
        let mut out: Vec<QueuedEvent> = Vec::new();
        core::mem::swap(&mut self.events, &mut out);
        out
    }

    /// Shared body of `set_animation` and `set_empty_animation`.
    fn replace_track(
        &mut self,
        data: &SkeletonData,
        track_index: usize,
        animation: Option<usize>,
        looping: bool,
        mix_duration: u32,
    )
        requires
            old(self).valid_for(*data),
            animation_ok(animation, *data),
        ensures
            final(self).valid_for(*data),
            final(self).default_mix == old(self).default_mix,
            final(self).tracks@.len() >= track_index + 1,
            final(self).tracks@[track_index as int] == Some(
                new_entry_spec(
                    animation,
                    looping,
                    mix_duration,
                    fading_of_spec(
                        if track_index < old(self).tracks@.len() {
                            old(self).tracks@[track_index as int]
                        } else {
                            None
                        },
                        mix_duration,
                    ),
                ),
            ),
            forall|i: int|
                0 <= i < final(self).tracks@.len() && i != track_index ==> final(self).tracks@[i] == if i < old(self).tracks@.len() {
                    old(self).tracks@[i]
                } else {
                    Option::<TrackEntry>::None
                },
            final(self).events@ == old(self).events@ + replace_events_spec(
                *data,
                track_index,
                if track_index < old(self).tracks@.len() {
                    old(self).tracks@[track_index as int]
                } else {
                    None
                },
                true,
                Some(animation),
            ),
    {
        self.ensure_track(track_index);
        let current = self.tracks[track_index];
        match current {
            Some(e) => {
                let duration = duration_of(data, e.animation);
                if !(e.time >= duration) {
                    self.events.push(
                        QueuedEvent {
                            track_index,
                            event_type: EventType::Interrupt,
                            animation: e.animation,
                            user: None,
                        },
                    );
                }
                self.events.push(
                    QueuedEvent {
                        track_index,
                        event_type: EventType::End,
                        animation: e.animation,
                        user: None,
                    },
                );
                match e.queued {
                    Some(q) => {
                        self.events.push(
                            QueuedEvent {
                                track_index,
                                event_type: EventType::Dispose,
                                animation: q.animation,
                                user: None,
                            },
                        );
                    },
                    None => {},
                }
            },
            None => {},
        }
        let mix_from: Option<FadingEntry> = if mix_duration > 0 {
            match current {
                Some(e) => Some(
                    FadingEntry {
                        animation: e.animation,
                        time: e.time,
                        looping: e.looping,
                        alpha: e.alpha,
                    },
                ),
                None => None,
            }
        } else {
            None
        };
        let entry = TrackEntry {
            animation,
            looping,
            time: 0,
            time_scale: 1000,
            alpha: FP_ONE,
            mix_blend: MixBlend::Replace,
            mix_duration,
            mix_time: 0,
            mix_from,
            queued: None,
        };
        self.tracks.set(track_index, Some(entry));
        self.events.push(
            QueuedEvent {
                track_index,
                event_type: EventType::Start,
                animation,
                user: None,
            },
        );
    }
}

/// The fading residue a replaced entry leaves behind when the replacement
/// crossfades; none when the change is immediate.
pub open spec fn fading_of_spec(entry: Option<TrackEntry>, mix_duration: u32) -> Option<
    FadingEntry,
> {
    if mix_duration > 0 {
        match entry {
            Some(e) => Some(
                FadingEntry { animation: e.animation, time: e.time, looping: e.looping, alpha: e.alpha },
            ),
            None => None,
        }
    } else {
        None
    }
}

/// The entry state after one advance by `dt` ticks: time accumulates the
/// scaled delta, the crossfade progresses and is dropped once it reaches
/// its duration, and a queued follower whose start threshold was reached
/// is promoted, carrying the overshoot as its starting time.
pub open spec fn advance_entry_spec(data: SkeletonData, e: TrackEntry, dt: int) -> TrackEntry {
    let d = scaled_delta_spec(dt, e.time_scale as int);
    let t1 = sat_add_spec(e.time as int, d);
    let mt1 = if e.mix_time as int + d >= e.mix_duration as int {
        e.mix_duration as int
    } else {
        e.mix_time as int + d
    };
    let mf1 = if mt1 >= e.mix_duration as int {
        Option::<FadingEntry>::None
    } else {
        e.mix_from
    };
    let e1 = TrackEntry { time: t1 as u64, mix_time: mt1 as u32, mix_from: mf1, ..e };
    let dur = duration_spec(data, e.animation);
    match e.queued {
        Some(q) => if t1 >= q.start_at {
            TrackEntry {
                animation: q.animation,
                looping: q.looping,
                time: (t1 - q.start_at) as u64,
                time_scale: 1000,
                alpha: FP_ONE,
                mix_blend: MixBlend::Replace,
                mix_duration: q.mix_duration,
                mix_time: 0,
                mix_from: fading_of_spec(Some(e1), q.mix_duration),
                queued: None,
            }
        } else {
            e1
        },
        None => e1,
    }
}

/// The user-event notifications for a sequence of fired keys.
pub open spec fn user_events_of(track_index: usize, a: usize, keys: Seq<EventKey>) -> Seq<
    QueuedEvent,
> {
    keys.map_values(
        |k: EventKey|
            QueuedEvent {
                track_index,
                event_type: EventType::UserEvent,
                animation: Some(a),
                user: Some(Event { data_index: k.event, time: k.time }),
            },
    )
}

/// `n` completion notifications in a row.
pub open spec fn complete_events_of(track_index: usize, a: Option<usize>, n: int) -> Seq<
    QueuedEvent,
> {
    Seq::new(n as nat, |i: int| plain_event(track_index, EventType::Complete, a))
}

/// The notifications one advance generates for one entry, in order: user
/// events crossed before a wrap, completions, user events crossed after
/// the wrap, then the handover block if a queued follower was promoted.
/// A user-event key fires at most once per advance, however large the
/// step; completions fire once per wrap crossed.  The handover's
/// interrupt fires only when the outgoing entry had not completed --
/// `add_animation` always sets the start threshold at or past the
/// duration, so it fires only for a follower whose `start_at` was placed
/// earlier by hand.
pub open spec fn advance_events_spec(
    data: SkeletonData,
    track_index: usize,
    e: TrackEntry,
    dt: int,
) -> Seq<QueuedEvent> {
    let d = scaled_delta_spec(dt, e.time_scale as int);
    let t0 = e.time as int;
    let t1 = sat_add_spec(t0, d);
    let dur = duration_spec(data, e.animation);
    let fired = match e.animation {
        Some(a) => if dur > 0 {
            let keys = data.animations@[a as int].event_keys@;
            if e.looping {
                let w0 = t0 % dur;
                let w1 = t1 % dur;
                let wraps = t1 / dur - t0 / dur;
                if wraps > 0 {
                    user_events_of(track_index, a, keys_between(keys, w0, dur))
                        + complete_events_of(track_index, Some(a), wraps) + user_events_of(
                        track_index,
                        a,
                        keys_between(keys, -1, w1),
                    )
                } else {
                    user_events_of(track_index, a, keys_between(keys, w0, w1))
                }
            } else {
                let w0 = if t0 > dur { dur } else { t0 };
                let w1 = if t1 > dur { dur } else { t1 };
                user_events_of(track_index, a, keys_between(keys, w0, w1)) + (
                    if t0 < dur && t1 >= dur {
                        seq![plain_event(track_index, EventType::Complete, Some(a))]
                    } else {
                        Seq::<QueuedEvent>::empty()
                    }
                )
            }
        } else {
            Seq::<QueuedEvent>::empty()
        },
        None => Seq::<QueuedEvent>::empty(),
    };
    let promo = match e.queued {
        Some(q) => if t1 >= q.start_at {
            (if !completed_spec(t1, dur) {
                seq![plain_event(track_index, EventType::Interrupt, e.animation)]
            } else {
                Seq::<QueuedEvent>::empty()
            }) + seq![plain_event(track_index, EventType::End, e.animation)] + seq![
                plain_event(track_index, EventType::Start, q.animation),
            ]
        } else {
            Seq::<QueuedEvent>::empty()
        },
        None => Seq::<QueuedEvent>::empty(),
    };
    fired + promo
}

/// The notifications one advance generates for an optional entry.
pub open spec fn track_advance_events_spec(
    data: SkeletonData,
    track_index: usize,
    t: Option<TrackEntry>,
    dt: int,
) -> Seq<QueuedEvent> {
    match t {
        Some(e) => advance_events_spec(data, track_index, e, dt),
        None => Seq::empty(),
    }
}

/// The notifications one advance generates across the first `n` tracks,
/// in ascending track order.
pub open spec fn update_events_spec(
    data: SkeletonData,
    tracks: Seq<Option<TrackEntry>>,
    dt: int,
    n: int,
) -> Seq<QueuedEvent>
    decreases n,
{
    if n <= 0 {
        Seq::empty()
    } else {
        update_events_spec(data, tracks, dt, n - 1) + track_advance_events_spec(
            data,
            (n - 1) as usize,
            tracks[n - 1],
            dt,
        )
    }
}

impl AnimationState {
    /// Advances every track by `dt` ticks: times accumulate and clamp or
    /// wrap per the loop flag, crossfades progress, queued followers whose
    /// threshold was reached are promoted, and all notifications of the
    /// pass are buffered in ascending track order.
    pub fn update(&mut self, data: &SkeletonData, dt: u32)
        requires
            old(self).valid_for(*data),
        ensures
            final(self).valid_for(*data),
            final(self).default_mix == old(self).default_mix,
            final(self).tracks@.len() == old(self).tracks@.len(),
            forall|i: int|
                0 <= i < final(self).tracks@.len() ==> final(self).tracks@[i] == (
                match old(self).tracks@[i] {
                    Some(e) => Some(advance_entry_spec(*data, e, dt as int)),
                    None => Option::<TrackEntry>::None,
                }),
            final(self).events@ == old(self).events@ + update_events_spec(
                *data,
                old(self).tracks@,
                dt as int,
                old(self).tracks@.len() as int,
            ),
    {
        let n = self.tracks.len();
        let mut i: usize = 0;
        while i < n
            invariant
                old(self).valid_for(*data),
                n == old(self).tracks@.len(),
                self.tracks@.len() == n,
                self.default_mix == old(self).default_mix,
                0 <= i <= n,
                forall|j: int|
                    0 <= j < i ==> self.tracks@[j] == (match old(self).tracks@[j] {
                        Some(e) => Some(advance_entry_spec(*data, e, dt as int)),
                        None => Option::<TrackEntry>::None,
                    }),
                forall|j: int| i <= j < n ==> self.tracks@[j] == old(self).tracks@[j],
                self.events@ == old(self).events@ + update_events_spec(
                    *data,
                    old(self).tracks@,
                    dt as int,
                    i as int,
                ),
            decreases n - i,
        {
            let ghost events_before = self.events@;
            let entry_opt = self.tracks[i];
            match entry_opt {
                Some(e) => {
                    self.advance_track(data, i, e, dt);
                },
                None => {},
            }
            proof {
                assert(update_events_spec(*data, old(self).tracks@, dt as int, i + 1)
                    == update_events_spec(*data, old(self).tracks@, dt as int, i as int)
                    + track_advance_events_spec(
                    *data,
                    i,
                    old(self).tracks@[i as int],
                    dt as int,
                ));
                if old(self).tracks@[i as int] is None {
                    assert(self.events@ =~= old(self).events@ + update_events_spec(
                        *data,
                        old(self).tracks@,
                        dt as int,
                        i + 1,
                    ));
                } else {
                    assert(self.events@ =~= old(self).events@ + update_events_spec(
                        *data,
                        old(self).tracks@,
                        dt as int,
                        i + 1,
                    ));
                }
            }
            i = i + 1;
        }
    }

    /// Advances one occupied track: the body of `update` for one entry.
    fn advance_track(&mut self, data: &SkeletonData, track_index: usize, e: TrackEntry, dt: u32)
        requires
            entry_valid(e, *data),
            track_index < old(self).tracks@.len(),
        ensures
            final(self).tracks@ == old(self).tracks@.update(
                track_index as int,
                Some(advance_entry_spec(*data, e, dt as int)),
            ),
            final(self).events@ == old(self).events@ + advance_events_spec(
                *data,
                track_index,
                e,
                dt as int,
            ),
            final(self).default_mix == old(self).default_mix,
            entry_valid(advance_entry_spec(*data, e, dt as int), *data),
    {
        proof {
            assert((0 <= dt as int * e.time_scale as int) && (dt as int * e.time_scale as int
                <= 0xffff_fffe_0000_0001u64 as int)) by (nonlinear_arith)
                requires
                    0 <= dt as int <= 0xffff_ffffu32 as int,
                    0 <= e.time_scale as int <= 0xffff_ffffu32 as int,
            ;
        }
        let d: u64 = ((dt as u64) * (e.time_scale as u64)) / 1000;
        let t1: u64 = if d > u64::MAX - e.time {
            u64::MAX
        } else {
            e.time + d
        };
        let mt1: u32 = if e.mix_time >= e.mix_duration {
            e.mix_duration
        } else if d >= (e.mix_duration - e.mix_time) as u64 {
            e.mix_duration
        } else {
            e.mix_time + (d as u32)
        };
        let mf1: Option<FadingEntry> = if mt1 >= e.mix_duration {
            None
        } else {
            e.mix_from
        };
        let e1 = TrackEntry { time: t1, mix_time: mt1, mix_from: mf1, ..e };
        let dur: u64 = duration_of(data, e.animation);
        match e.animation {
            Some(a) => {
                if dur > 0 {
                    let keys = &data.animations[a].event_keys;
                    if e.looping {
                        let w0: u64 = e.time % dur;
                        let w1: u64 = t1 % dur;
                        proof {
                            vstd::arithmetic::div_mod::lemma_div_is_ordered(
                                e.time as int,
                                t1 as int,
                                dur as int,
                            );
                        }
                        let wraps: u64 = t1 / dur - e.time / dur;
                        if wraps > 0 {
                            let ks1 = crate::animation::collect_keys_between(keys, w0, dur);
                            self.push_user_events(track_index, a, &ks1);
                            self.push_completes(track_index, Some(a), wraps);
                            let ks2 = crate::animation::collect_keys_upto(keys, w1);
                            self.push_user_events(track_index, a, &ks2);
                        } else {
                            let ks = crate::animation::collect_keys_between(keys, w0, w1);
                            self.push_user_events(track_index, a, &ks);
                        }
                    } else {
                        let w0: u64 = if e.time > dur {
                            dur
                        } else {
                            e.time
                        };
                        let w1: u64 = if t1 > dur {
                            dur
                        } else {
                            t1
                        };
                        let ks = crate::animation::collect_keys_between(keys, w0, w1);
                        self.push_user_events(track_index, a, &ks);
                        if e.time < dur && t1 >= dur {
                            self.events.push(
                                QueuedEvent {
                                    track_index,
                                    event_type: EventType::Complete,
                                    animation: Some(a),
                                    user: None,
                                },
                            );
                        }
                    }
                }
            },
            None => {},
        }
        match e.queued {
            Some(q) => {
                let threshold: u64 = q.start_at;
                if t1 >= threshold {
                    if !(t1 >= dur) {
                        self.events.push(
                            QueuedEvent {
                                track_index,
                                event_type: EventType::Interrupt,
                                animation: e.animation,
                                user: None,
                            },
                        );
                    }
                    self.events.push(
                        QueuedEvent {
                            track_index,
                            event_type: EventType::End,
                            animation: e.animation,
                            user: None,
                        },
                    );
                    self.events.push(
                        QueuedEvent {
                            track_index,
                            event_type: EventType::Start,
                            animation: q.animation,
                            user: None,
                        },
                    );
                    let mix_from: Option<FadingEntry> = if q.mix_duration > 0 {
                        Some(
                            FadingEntry {
                                animation: e.animation,
                                time: t1,
                                looping: e.looping,
                                alpha: e.alpha,
                            },
                        )
                    } else {
                        None
                    };
                    let promoted = TrackEntry {
                        animation: q.animation,
                        looping: q.looping,
                        time: t1 - threshold,
                        time_scale: 1000,
                        alpha: FP_ONE,
                        mix_blend: MixBlend::Replace,
                        mix_duration: q.mix_duration,
                        mix_time: 0,
                        mix_from,
                        queued: None,
                    };
                    self.tracks.set(track_index, Some(promoted));
                } else {
                    self.tracks.set(track_index, Some(e1));
                }
            },
            None => {
                self.tracks.set(track_index, Some(e1));
            },
        }
    }

    /// Buffers one user-event notification per fired key, in order.
    fn push_user_events(&mut self, track_index: usize, a: usize, keys: &Vec<EventKey>)
        ensures
            final(self).events@ == old(self).events@ + user_events_of(track_index, a, keys@),
            final(self).tracks@ == old(self).tracks@,
            final(self).default_mix == old(self).default_mix,
    {
        let mut j: usize = 0;
        while j < keys.len()
            invariant
                0 <= j <= keys@.len(),
                self.events@ == old(self).events@ + user_events_of(
                    track_index,
                    a,
                    keys@.take(j as int),
                ),
                self.tracks@ == old(self).tracks@,
                self.default_mix == old(self).default_mix,
            decreases keys@.len() - j,
        {
            let k = keys[j];
            self.events.push(
                QueuedEvent {
                    track_index,
                    event_type: EventType::UserEvent,
                    animation: Some(a),
                    user: Some(Event { data_index: k.event, time: k.time }),
                },
            );
            proof {
                assert(keys@.take(j + 1) =~= keys@.take(j as int).push(keys@[j as int]));
                assert(user_events_of(track_index, a, keys@.take(j + 1)) =~= user_events_of(
                    track_index,
                    a,
                    keys@.take(j as int),
                ).push(
                    QueuedEvent {
                        track_index,
                        event_type: EventType::UserEvent,
                        animation: Some(a),
                        user: Some(
                            Event { data_index: keys@[j as int].event, time: keys@[j as int].time },
                        ),
                    },
                ));
                assert(self.events@ =~= old(self).events@ + user_events_of(
                    track_index,
                    a,
                    keys@.take(j + 1),
                ));
            }
            j = j + 1;
        }
        proof {
            assert(keys@.take(keys@.len() as int) =~= keys@);
        }
    }

    /// Buffers `count` completion notifications in a row.
    fn push_completes(&mut self, track_index: usize, a: Option<usize>, count: u64)
        ensures
            final(self).events@ == old(self).events@ + complete_events_of(
                track_index,
                a,
                count as int,
            ),
            final(self).tracks@ == old(self).tracks@,
            final(self).default_mix == old(self).default_mix,
    {
        let mut j: u64 = 0;
        while j < count
            invariant
                0 <= j <= count,
                self.events@ == old(self).events@ + complete_events_of(track_index, a, j as int),
                self.tracks@ == old(self).tracks@,
                self.default_mix == old(self).default_mix,
            decreases count - j,
        {
            self.events.push(
                QueuedEvent { track_index, event_type: EventType::Complete, animation: a, user: None },
            );
            proof {
                assert(complete_events_of(track_index, a, j + 1) =~= complete_events_of(
                    track_index,
                    a,
                    j as int,
                ).push(plain_event(track_index, EventType::Complete, a)));
                assert(self.events@ =~= old(self).events@ + complete_events_of(
                    track_index,
                    a,
                    j + 1,
                ));
            }
            j = j + 1;
        }
    }
}

/// Duration in ticks of an entry's animation.
pub fn duration_of(data: &SkeletonData, a: Option<usize>) -> (d: u64)
    requires
        animation_ok(a, *data),
    ensures
        d == duration_spec(*data, a),
{
    match a {
        Some(x) => data.animations[x].duration as u64,
        None => 0,
    }
}

/// The component of a local transform a timeline target addresses.
pub open spec fn read_prop_spec(l: LocalTransform, target: TimelineTarget) -> int {
    match target {
        TimelineTarget::X(_) => l.x as int,
        TimelineTarget::Y(_) => l.y as int,
        TimelineTarget::Rotation(_) => l.rotation as int,
        TimelineTarget::ScaleX(_) => l.scale_x as int,
        TimelineTarget::ScaleY(_) => l.scale_y as int,
    }
}

/// The local transform with one addressed component replaced.
pub open spec fn write_prop_spec(l: LocalTransform, target: TimelineTarget, v: int) -> LocalTransform {
    match target {
        TimelineTarget::X(_) => LocalTransform { x: v as i64, ..l },
        TimelineTarget::Y(_) => LocalTransform { y: v as i64, ..l },
        TimelineTarget::Rotation(_) => LocalTransform { rotation: v as i64, ..l },
        TimelineTarget::ScaleX(_) => LocalTransform { scale_x: v as i64, ..l },
        TimelineTarget::ScaleY(_) => LocalTransform { scale_y: v as i64, ..l },
    }
}

/// The blended value a timeline writes at weight `w`: a step from the
/// blend's base toward the sampled value, or for `Add` the sampled delta
/// from setup accumulated onto the pose, unclamped across tracks.
pub open spec fn blended_spec(blend: MixBlend, setup: int, cur: int, v: int, w: int) -> int {
    match blend {
        MixBlend::Setup => lerp_spec(setup, v, w, FP_ONE as int),
        MixBlend::First => lerp_spec(setup, v, w, FP_ONE as int),
        MixBlend::Replace => lerp_spec(cur, v, w, FP_ONE as int),
        MixBlend::Add => fp_add_spec(cur, tdiv((v - setup) * w, FP_ONE as int)),
    }
}

/// The local pose after one timeline writes its blended sample.
pub open spec fn apply_timeline_spec(
    data: SkeletonData,
    locals: Seq<LocalTransform>,
    tl: Timeline,
    t: int,
    w: int,
    blend: MixBlend,
) -> Seq<LocalTransform> {
    let b = timeline_bone_spec(tl);
    let v = sample_spec(tl.frames@, t);
    let cur = read_prop_spec(locals[b], tl.target);
    let setup = read_prop_spec(setup_local_spec(data, b), tl.target);
    let nv = blended_spec(blend, setup, cur, v, w);
    locals.update(b, write_prop_spec(locals[b], tl.target, nv))
}

/// The local pose after the first `k` timelines of an animation.
pub open spec fn apply_timelines_spec(
    data: SkeletonData,
    locals: Seq<LocalTransform>,
    tls: Seq<Timeline>,
    k: int,
    t: int,
    w: int,
    blend: MixBlend,
) -> Seq<LocalTransform>
    decreases k,
{
    if k <= 0 {
        locals
    } else {
        apply_timeline_spec(
            data,
            apply_timelines_spec(data, locals, tls, k - 1, t, w, blend),
            tls[k - 1],
            t,
            w,
            blend,
        )
    }
}

/// The local pose after one animation is applied at weight `w`: every
/// timeline sampled at the wrapped track time; the empty entry applies
/// nothing.
pub open spec fn apply_one_spec(
    data: SkeletonData,
    locals: Seq<LocalTransform>,
    anim: Option<usize>,
    time: int,
    looping: bool,
    w: int,
    blend: MixBlend,
) -> Seq<LocalTransform> {
    match anim {
        Some(a) => {
            let an = data.animations@[a as int];
            let t = wrapped_time_spec(time, an.duration as int, looping);
            apply_timelines_spec(data, locals, an.timelines@, an.timelines@.len() as int, t, w, blend)
        },
        None => locals,
    }
}

/// The local pose after one track entry is applied: the fading outgoing
/// animation first at `alpha * (1 - w)`, then the entry's own animation at
/// `alpha * w`, with `w` the crossfade weight.
pub open spec fn apply_entry_spec(
    data: SkeletonData,
    locals: Seq<LocalTransform>,
    e: TrackEntry,
) -> Seq<LocalTransform> {
    let w = if e.mix_from is Some {
        mix_weight_spec(e.mix_time as int, e.mix_duration as int)
    } else {
        FP_ONE as int
    };
    let locals1 = match e.mix_from {
        Some(f) => apply_one_spec(
            data,
            locals,
            f.animation,
            f.time as int,
            f.looping,
            fp_mul_spec(f.alpha as int, FP_ONE - w),
            e.mix_blend,
        ),
        None => locals,
    };
    apply_one_spec(
        data,
        locals1,
        e.animation,
        e.time as int,
        e.looping,
        fp_mul_spec(e.alpha as int, w),
        e.mix_blend,
    )
}

/// The local pose after the first `k` tracks are applied in ascending
/// track order onto a base pose.
pub open spec fn apply_tracks_spec(
    data: SkeletonData,
    tracks: Seq<Option<TrackEntry>>,
    k: int,
    locals: Seq<LocalTransform>,
) -> Seq<LocalTransform>
    decreases k,
{
    if k <= 0 {
        locals
    } else {
        let prev = apply_tracks_spec(data, tracks, k - 1, locals);
        match tracks[k - 1] {
            Some(e) => apply_entry_spec(data, prev, e),
            None => prev,
        }
    }
}

/// The crossfade weight at `t` of `m` ticks, as a fixed-point fraction.
pub fn mix_weight(t: u32, m: u32) -> (w: i64)
    ensures
        w == mix_weight_spec(t as int, m as int),
        0 <= w <= FP_ONE,
{
    if m == 0 {
        FP_ONE
    } else {
        let c: u32 = if t > m {
            m
        } else {
            t
        };
        scale_ratio(FP_ONE, c as u64, m as u64)
    }
}

/// The product of two blend weights in `[0, FP_ONE]` stays in that range.
fn weight_mul(a: i64, b: i64) -> (r: i64)
    requires
        0 <= a <= FP_ONE,
        0 <= b <= FP_ONE,
    ensures
        r == fp_mul_spec(a as int, b as int),
        0 <= r <= FP_ONE,
{
    proof {
        crate::fixed::lemma_nonneg_ratio(a as int, b as int, FP_ONE as int);
        assert(a as int * b as int >= 0) by (nonlinear_arith)
            requires
                a >= 0,
                b >= 0,
        ;
    }
    fp_mul(a, b)
}

/// The track time derived from unwrapped time, as an executable value.
pub fn wrapped_time_of(t: u64, duration: u32, looping: bool) -> (r: u32)
    ensures
        r == wrapped_time_spec(t as int, duration as int, looping),
        r <= duration,
{
    if duration == 0 {
        0
    } else if looping {
        (t % (duration as u64)) as u32
    } else if t > duration as u64 {
        duration
    } else {
        t as u32
    }
}

/// The component of a local transform a timeline target addresses.
fn read_prop(l: LocalTransform, target: TimelineTarget) -> (v: i64)
    ensures
        v == read_prop_spec(l, target),
{
    match target {
        TimelineTarget::X(_) => l.x,
        TimelineTarget::Y(_) => l.y,
        TimelineTarget::Rotation(_) => l.rotation,
        TimelineTarget::ScaleX(_) => l.scale_x,
        TimelineTarget::ScaleY(_) => l.scale_y,
    }
}

/// The local transform with one addressed component replaced.
fn write_prop(l: LocalTransform, target: TimelineTarget, v: i64) -> (r: LocalTransform)
    ensures
        r == write_prop_spec(l, target, v as int),
{
    match target {
        TimelineTarget::X(_) => LocalTransform { x: v, ..l },
        TimelineTarget::Y(_) => LocalTransform { y: v, ..l },
        TimelineTarget::Rotation(_) => LocalTransform { rotation: v, ..l },
        TimelineTarget::ScaleX(_) => LocalTransform { scale_x: v, ..l },
        TimelineTarget::ScaleY(_) => LocalTransform { scale_y: v, ..l },
    }
}

/// The blended value a timeline writes; stays in the fixed-point range.
fn blended(blend: MixBlend, setup: i64, cur: i64, v: i64, w: i64) -> (r: i64)
    requires
        fp_in_range(setup as int),
        fp_in_range(cur as int),
        fp_in_range(v as int),
        0 <= w <= FP_ONE,
    ensures
        r == blended_spec(blend, setup as int, cur as int, v as int, w as int),
        fp_in_range(r as int),
{
    match blend {
        MixBlend::Setup => lerp_fp(setup, v, w as u64, FP_ONE as u64),
        MixBlend::First => lerp_fp(setup, v, w as u64, FP_ONE as u64),
        MixBlend::Replace => lerp_fp(cur, v, w as u64, FP_ONE as u64),
        MixBlend::Add => {
            let delta = ratio_trunc(v - setup, w as u64, FP_ONE as u64);
            fp_add(cur, delta)
        },
    }
}

/// Applies one animation (or nothing, for the empty entry) onto the bone
/// locals at weight `w`.
fn apply_one(
    data: &SkeletonData,
    bones: &mut Vec<Bone>,
    anim: Option<usize>,
    time: u64,
    looping: bool,
    w: i64,
    blend: MixBlend,
)
    requires
        data.wf(),
        animation_ok(anim, *data),
        old(bones)@.len() == data.bones@.len(),
        0 <= w <= FP_ONE,
        forall|i: int|
            0 <= i < old(bones)@.len() ==> (#[trigger] old(bones)@[i]).local.in_range(),
    ensures
        final(bones)@.len() == old(bones)@.len(),
        forall|i: int|
            0 <= i < final(bones)@.len() ==> (#[trigger] final(bones)@[i]).world == old(bones)@[i].world,
        locals_of(final(bones)@) == apply_one_spec(
            *data,
            locals_of(old(bones)@),
            anim,
            time as int,
            looping,
            w as int,
            blend,
        ),
        forall|i: int|
            0 <= i < final(bones)@.len() ==> (#[trigger] final(bones)@[i]).local.in_range(),
{
    let ghost locals0 = locals_of(old(bones)@);
    match anim {
        None => {},
        Some(a) => {
            let an = &data.animations[a];
            let t: u32 = wrapped_time_of(time, an.duration, looping);
            let n = an.timelines.len();
            let mut k: usize = 0;
            while k < n
                invariant
                    data.wf(),
                    a < data.animations@.len(),
                    an.timelines@ == data.animations@[a as int].timelines@,
                    an.duration == data.animations@[a as int].duration,
                    n == an.timelines@.len(),
                    0 <= k <= n,
                    0 <= w <= FP_ONE,
                    t == wrapped_time_spec(
                        time as int,
                        data.animations@[a as int].duration as int,
                        looping,
                    ),
                    bones@.len() == data.bones@.len(),
                    locals0.len() == bones@.len(),
                    forall|i: int|
                        0 <= i < bones@.len() ==> (#[trigger] bones@[i]).world == old(bones)@[i].world,
                    forall|i: int|
                        0 <= i < bones@.len() ==> (#[trigger] bones@[i]).local.in_range(),
                    locals_of(bones@) == apply_timelines_spec(
                        *data,
                        locals0,
                        an.timelines@,
                        k as int,
                        t as int,
                        w as int,
                        blend,
                    ),
                decreases n - k,
            {
                let tl = &an.timelines[k];
                proof {
                    assert(data.indices_ok());
                    assert(crate::skeleton_data::timeline_target_ok(
                        data.animations@[a as int].timelines@[k as int],
                        data.bones@.len() as int,
                    ));
                    assert(data.geometry_ok());
                    assert(crate::skeleton_data::timeline_frames_ok(
                        data.animations@[a as int].timelines@[k as int],
                    ));
                }
                let b = timeline_bone(tl);
                let v = sample(&tl.frames, t);
                let bone = bones[b];
                let cur = read_prop(bone.local, tl.target);
                let bd = &data.bones[b];
                proof {
                    assert(data.bones@[b as int].values_ok());
                }
                let setup_local = LocalTransform {
                    x: bd.x,
                    y: bd.y,
                    rotation: bd.rotation,
                    scale_x: bd.scale_x,
                    scale_y: bd.scale_y,
                    shear_x: bd.shear_x,
                    shear_y: bd.shear_y,
                };
                let setup = read_prop(setup_local, tl.target);
                let nv = blended(blend, setup, cur, v, w);
                let nl = write_prop(bone.local, tl.target, nv);
                bones.set(b, Bone { local: nl, world: bone.world });
                proof {
                    assert(setup_local == setup_local_spec(*data, b as int));
                    assert(locals_of(bones@) =~= apply_timelines_spec(
                        *data,
                        locals0,
                        an.timelines@,
                        k + 1,
                        t as int,
                        w as int,
                        blend,
                    ));
                }
                k = k + 1;
            }
        },
    }
}

/// Applies one track entry: the fading outgoing animation first, then the
/// entry's own, at their crossfade-split weights.
fn apply_entry(data: &SkeletonData, bones: &mut Vec<Bone>, e: TrackEntry)
    requires
        data.wf(),
        entry_valid(e, *data),
        old(bones)@.len() == data.bones@.len(),
        forall|i: int|
            0 <= i < old(bones)@.len() ==> (#[trigger] old(bones)@[i]).local.in_range(),
    ensures
        final(bones)@.len() == old(bones)@.len(),
        forall|i: int|
            0 <= i < final(bones)@.len() ==> (#[trigger] final(bones)@[i]).world == old(bones)@[i].world,
        locals_of(final(bones)@) == apply_entry_spec(*data, locals_of(old(bones)@), e),
        forall|i: int|
            0 <= i < final(bones)@.len() ==> (#[trigger] final(bones)@[i]).local.in_range(),
{
    let w: i64 = match e.mix_from {
        Some(_) => mix_weight(e.mix_time, e.mix_duration),
        None => FP_ONE,
    };
    match e.mix_from {
        Some(f) => {
            let w_out = weight_mul(f.alpha, FP_ONE - w);
            apply_one(data, bones, f.animation, f.time, f.looping, w_out, e.mix_blend);
        },
        None => {},
    }
    let w_in = weight_mul(e.alpha, w);
    apply_one(data, bones, e.animation, e.time, e.looping, w_in, e.mix_blend);
}

impl AnimationState {
    /// Applies the current mix state onto the skeleton's pose: every
    /// bone's local transform is reset to setup, then each occupied track
    /// is applied in ascending order at its own blend and crossfade
    /// weights.  World transforms are untouched; a propagation pass
    /// follows separately.
    pub fn apply(&self, skeleton: &mut Skeleton)
        requires
            old(skeleton).wf(),
            self.valid_for(old(skeleton).data),
        ensures
            final(skeleton).wf(),
            final(skeleton).data == old(skeleton).data,
            final(skeleton).slots@ == old(skeleton).slots@,
            final(skeleton).skin == old(skeleton).skin,
            final(skeleton).bones@.len() == old(skeleton).bones@.len(),
            forall|i: int|
                0 <= i < final(skeleton).bones@.len()
                    ==> (#[trigger] final(skeleton).bones@[i]).world
                    == old(skeleton).bones@[i].world,
            locals_of(final(skeleton).bones@) == apply_tracks_spec(
                old(skeleton).data,
                self.tracks@,
                self.tracks@.len() as int,
                Seq::new(
                    old(skeleton).data.bones@.len(),
                    |i: int| setup_local_spec(old(skeleton).data, i),
                ),
            ),
    {
        skeleton.set_to_setup_pose();
        let ghost base = Seq::new(
            old(skeleton).data.bones@.len(),
            |i: int| setup_local_spec(old(skeleton).data, i),
        );
        proof {
            assert(locals_of(skeleton.bones@) =~= base);
        }
        let n = self.tracks.len();
        let mut i: usize = 0;
        while i < n
            invariant
                old(skeleton).wf(),
                self.valid_for(old(skeleton).data),
                n == self.tracks@.len(),
                0 <= i <= n,
                skeleton.data == old(skeleton).data,
                skeleton.slots@ == old(skeleton).slots@,
                skeleton.skin == old(skeleton).skin,
                skeleton.bones@.len() == old(skeleton).bones@.len(),
                forall|j: int|
                    0 <= j < skeleton.bones@.len() ==> (#[trigger] skeleton.bones@[j]).world
                        == old(skeleton).bones@[j].world,
                forall|j: int|
                    0 <= j < skeleton.bones@.len() ==> (#[trigger] skeleton.bones@[j]).local.in_range(),
                locals_of(skeleton.bones@) == apply_tracks_spec(
                    old(skeleton).data,
                    self.tracks@,
                    i as int,
                    base,
                ),
            decreases n - i,
        {
            let entry_opt = self.tracks[i];
            match entry_opt {
                Some(e) => {
                    apply_entry(&skeleton.data, &mut skeleton.bones, e);
                },
                None => {},
            }
            i = i + 1;
        }
    }
}

} // verus!
