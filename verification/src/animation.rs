//! Animations: timelines of keyframes bound to bone properties, plus
//! user-event keyframes.
//!
//! Sampling a timeline at a time is a pure function of the keyframe
//! sequence: the executable binary search is proved equal to the spec-level
//! definition `sample_spec`.

use vstd::prelude::*;
use crate::fixed::{fp_in_range, lerp_spec, lerp_fp};

verus! {

/// How the value moves from one keyframe to the next.  Curved easing is
/// expected to be lowered by the loader into piecewise-linear keys.
#[derive(Clone, Copy, PartialEq, Eq, Structural, Debug)]
pub enum Curve {
    Linear,
    Stepped,
}

/// One keyframe: a time in ticks, a fixed-point value, and the curve that
/// carries the value toward the next keyframe.
#[derive(Clone, Copy, PartialEq, Eq, Structural, Debug)]
pub struct Keyframe {
    pub time: u32,
    pub value: i64,
    pub curve: Curve,
}

/// The bone property a timeline writes.
#[derive(Clone, Copy, PartialEq, Eq, Structural, Debug)]
pub enum TimelineTarget {
    X(usize),
    Y(usize),
    Rotation(usize),
    ScaleX(usize),
    ScaleY(usize),
}

/// A sequence of keyframes bound to one bone property.
#[derive(Clone, Debug)]
pub struct Timeline {
    pub target: TimelineTarget,
    pub frames: Vec<Keyframe>,
}

/// One firing position of a user-authored event within an animation.
#[derive(Clone, Copy, PartialEq, Eq, Structural, Debug)]
pub struct EventKey {
    pub time: u32,
    pub event: usize,
}

/// An immutable animation: a duration and its timelines.
#[derive(Clone, Debug)]
pub struct Animation {
    pub name: String,
    pub duration: u32,
    pub timelines: Vec<Timeline>,
    pub event_keys: Vec<EventKey>,
}

/// Keyframe times never decrease along a timeline.
pub open spec fn frames_sorted(frames: Seq<Keyframe>) -> bool {
    forall|i: int, j: int|
        0 <= i <= j < frames.len() ==> #[trigger] frames[i].time <= #[trigger] frames[j].time
}

/// Every keyframe value lies in the fixed-point range.
pub open spec fn frames_in_range(frames: Seq<Keyframe>) -> bool {
    forall|i: int| 0 <= i < frames.len() ==> fp_in_range(#[trigger] frames[i].value as int)
}

/// Event keys fire in chronological order along an animation.
pub open spec fn keys_sorted(keys: Seq<EventKey>) -> bool {
    forall|j: int| 0 < j < keys.len() ==> keys[j - 1].time <= #[trigger] keys[j].time
}

/// The value carried between two adjacent keyframes at time `t`.
pub open spec fn interp_spec(f0: Keyframe, f1: Keyframe, t: int) -> int {
    match f0.curve {
        Curve::Stepped => f0.value as int,
        Curve::Linear => if f1.time <= f0.time {
            f0.value as int
        } else {
            lerp_spec(f0.value as int, f1.value as int, t - f0.time, f1.time - f0.time)
        },
    }
}

/// The sampled value of a keyframe sequence at time `t`: the last keyframe's
/// value at or past it, the first keyframe's value before it, and the
/// interpolation of the bracketing pair in between.
pub open spec fn sample_spec(frames: Seq<Keyframe>, t: int) -> int
    recommends
        frames.len() > 0,
    decreases frames.len(),
{
    if frames.len() <= 1 {
        frames[0].value as int
    } else {
        let last = frames.len() - 1;
        if t >= frames[last].time {
            frames[last].value as int
        } else if t >= frames[last - 1].time {
            interp_spec(frames[last - 1], frames[last], t)
        } else {
            sample_spec(frames.drop_last(), t)
        }
    }
}

/// Before the first keyframe the sample is the first keyframe's value.
proof fn lemma_sample_before_first(frames: Seq<Keyframe>, t: int)
    requires
        frames.len() > 0,
        t < frames[0].time,
        frames_sorted(frames),
    ensures
        sample_spec(frames, t) == frames[0].value as int,
    decreases frames.len(),
{
    if frames.len() > 1 {
        assert(frames[0].time <= frames[frames.len() - 1].time);
        lemma_sample_before_first(frames.drop_last(), t);
    }
}

/// At a bracketing index `i` (the last keyframe at or before `t`), the
/// sample is the last value or the interpolation with the next keyframe.
proof fn lemma_sample_at(frames: Seq<Keyframe>, t: int, i: int)
    requires
        frames_sorted(frames),
        0 <= i < frames.len(),
        frames[i].time <= t,
        i < frames.len() - 1 ==> t < frames[i + 1].time,
    ensures
        i == frames.len() - 1 ==> sample_spec(frames, t) == frames[i].value as int,
        i < frames.len() - 1 ==> sample_spec(frames, t) == interp_spec(
            frames[i],
            frames[i + 1],
            t,
        ),
    decreases frames.len(),
{
    if i == frames.len() - 1 {
    } else if i == frames.len() - 2 {
    } else {
        assert(frames[i + 1].time <= frames[frames.len() - 2].time);
        lemma_sample_at(frames.drop_last(), t, i);
    }
}

/// Samples a keyframe sequence at time `t` by binary search for the
/// bracketing pair, then interpolating per the curve of the earlier frame.
pub fn sample(frames: &Vec<Keyframe>, t: u32) -> (r: i64)
    requires
        frames@.len() > 0,
        frames_sorted(frames@),
        frames_in_range(frames@),
    ensures
        r == sample_spec(frames@, t as int),
        fp_in_range(r as int),
{
    if frames[0].time > t {
        proof {
            lemma_sample_before_first(frames@, t as int);
        }
        return frames[0].value;
    }
    // Largest index whose keyframe time is at or before `t`.
    let mut lo: usize = 0;
    let mut hi: usize = frames.len() - 1;
    while lo < hi
        invariant
            0 <= lo <= hi < frames@.len(),
            frames@[lo as int].time <= t,
            hi < frames@.len() - 1 ==> t < frames@[hi + 1].time,
            frames_sorted(frames@),
        decreases hi - lo,
    {
        let mid: usize = hi - (hi - lo) / 2;
        if frames[mid].time <= t {
            lo = mid;
        } else {
            hi = mid - 1;
        }
    }
    proof {
        lemma_sample_at(frames@, t as int, lo as int);
    }
    if lo == frames.len() - 1 {
        frames[lo].value
    } else {
        let f0 = frames[lo];
        let f1 = frames[lo + 1];
        match f0.curve {
            Curve::Stepped => f0.value,
            Curve::Linear => {
                if f1.time <= f0.time {
                    f0.value
                } else {
                    lerp_fp(
                        f0.value,
                        f1.value,
                        (t - f0.time) as u64,
                        (f1.time - f0.time) as u64,
                    )
                }
            },
        }
    }
}

/// Event keys with a firing time in the half-open window `(lo, hi]`, in
/// order of appearance.
pub open spec fn keys_between(keys: Seq<EventKey>, lo: int, hi: int) -> Seq<EventKey>
    decreases keys.len(),
{
    if keys.len() == 0 {
        Seq::empty()
    } else {
        let rest = keys_between(keys.drop_last(), lo, hi);
        let k = keys.last();
        if lo < k.time <= hi {
            rest.push(k)
        } else {
            rest
        }
    }
}

/// Collects the event keys whose time lies in `(lo, hi]`.
pub fn collect_keys_between(keys: &Vec<EventKey>, lo: u64, hi: u64) -> (r: Vec<EventKey>)
    ensures
        r@ == keys_between(keys@, lo as int, hi as int),
{
    let mut r: Vec<EventKey> = Vec::new();
    let mut i: usize = 0;
    while i < keys.len()
        invariant
            0 <= i <= keys@.len(),
            r@ == keys_between(keys@.take(i as int), lo as int, hi as int),
        decreases keys@.len() - i,
    {
        let k = keys[i];
        proof {
            assert(keys@.take(i + 1 as int).drop_last() =~= keys@.take(i as int));
            assert(keys@.take(i + 1 as int).last() == keys@[i as int]);
        }
        if lo < k.time as u64 && k.time as u64 <= hi {
            r.push(k);
        }
        i = i + 1;
    }
    proof {
        assert(keys@.take(keys@.len() as int) =~= keys@);
    }
    r
}

/// Collects the event keys whose time lies in `[0, hi]`; the form of
/// `collect_keys_between` used for the stretch after a loop wrap, where a
/// key at time zero fires too.
pub fn collect_keys_upto(keys: &Vec<EventKey>, hi: u64) -> (r: Vec<EventKey>)
    ensures
        r@ == keys_between(keys@, -1, hi as int),
{
    let mut r: Vec<EventKey> = Vec::new();
    let mut i: usize = 0;
    while i < keys.len()
        invariant
            0 <= i <= keys@.len(),
            r@ == keys_between(keys@.take(i as int), -1, hi as int),
        decreases keys@.len() - i,
    {
        let k = keys[i];
        proof {
            assert(keys@.take(i + 1 as int).drop_last() =~= keys@.take(i as int));
            assert(keys@.take(i + 1 as int).last() == keys@[i as int]);
        }
        if k.time as u64 <= hi {
            r.push(k);
        }
        i = i + 1;
    }
    proof {
        assert(keys@.take(keys@.len() as int) =~= keys@);
    }
    r
}

} // verus!
