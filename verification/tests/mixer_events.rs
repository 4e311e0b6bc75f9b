//! Track mixer scenarios: time clamping, looping, event ordering and
//! crossfade handovers.

use spine_core::animation_state::QueuedEntry;
use spine_core::skeleton_data::SkeletonError;
use spine_core::animation::EventKey;
use spine_core::event::EventData;
use spine_core::animation::Animation;
use spine_core::animation_state::wrapped_time_of;
use spine_core::event::EventType;
use spine_core::skeleton_controller::SkeletonController;
use spine_core::skeleton_data::{BoneData, SkeletonData};

fn bone(name: &str, parent: Option<usize>) -> BoneData {
    BoneData {
        name: name.to_owned(),
        parent,
        x: 0,
        y: 0,
        rotation: 0,
        scale_x: 4096,
        scale_y: 4096,
        shear_x: 0,
        shear_y: 0,
        inherit_rotation: true,
        inherit_scale: true,
    }
}

fn anim(name: &str, duration: u32) -> Animation {
    Animation {
        name: name.to_owned(),
        duration,
        timelines: Vec::new(),
        event_keys: Vec::new(),
    }
}

fn two_anim_controller() -> SkeletonController {
    let data = SkeletonData::new(
        vec![bone("root", None)],
        Vec::new(),
        Vec::new(),
        vec![anim("idle", 1000), anim("wave", 1000)],
        Vec::new(),
    )
    .unwrap();
    SkeletonController::new(data)
}

#[test]
fn test_nonloop_clamps_with_single_complete() {
    let mut c = two_anim_controller();
    c.set_animation_by_name(0, "idle", false).unwrap();
    c.drain_events();

    c.update(600);
    assert!(c.drain_events().is_empty());

    c.update(600);
    let events = c.drain_events();
    assert_eq!(events.len(), 1);
    assert_eq!(events[0].event_type, EventType::Complete);
    assert_eq!(events[0].animation, Some(0));

    // Repeated advances past the duration: time stays clamped, no more
    // completions ever fire.
    c.update(500);
    c.update(500);
    assert!(c.drain_events().is_empty());
    let entry = c.animation_state.track_entry(0).unwrap();
    assert_eq!(wrapped_time_of(entry.time, 1000, false), 1000);
}

#[test]
fn test_loop_wrap_yields_offset_and_single_complete() {
    let mut c = two_anim_controller();
    c.set_animation_by_name(0, "idle", true).unwrap();
    c.drain_events();

    // One advance of D + x from time 0: track time x, exactly one complete.
    c.update(1300);
    let events = c.drain_events();
    assert_eq!(events.len(), 1);
    assert_eq!(events[0].event_type, EventType::Complete);
    let entry = c.animation_state.track_entry(0).unwrap();
    assert_eq!(wrapped_time_of(entry.time, 1000, true), 300);
}

#[test]
fn test_walk_two_half_steps_wraps_to_zero() {
    // A looping one-second walk advanced twice by half a second: one
    // complete at the second advance and a wrapped track time of zero.
    let data = SkeletonData::new(
        vec![
            bone("root", None),
            bone("hip", Some(0)),
            bone("torso", Some(1)),
        ],
        Vec::new(),
        Vec::new(),
        vec![anim("walk", 1000)],
        Vec::new(),
    )
    .unwrap();
    let mut c = SkeletonController::new(data);
    c.set_animation_by_name(0, "walk", true).unwrap();
    c.drain_events();

    c.update(500);
    assert!(c.drain_events().is_empty());

    c.update(500);
    let events = c.drain_events();
    assert_eq!(events.len(), 1);
    assert_eq!(events[0].event_type, EventType::Complete);
    let entry = c.animation_state.track_entry(0).unwrap();
    assert_eq!(wrapped_time_of(entry.time, 1000, true), 0);
}

#[test]
fn test_clear_track_fires_interrupt_end_start() {
    let mut c = two_anim_controller();
    c.set_animation_by_name(0, "idle", false).unwrap();
    c.add_animation_by_name(0, "wave", false, 0).unwrap();
    c.drain_events();

    let data = c.skeleton.data.clone();
    c.animation_state.clear_track(&data, 0);
    let events = c.drain_events();
    assert_eq!(events.len(), 3);
    assert_eq!(events[0].event_type, EventType::Interrupt);
    assert_eq!(events[0].animation, Some(0));
    assert_eq!(events[1].event_type, EventType::End);
    assert_eq!(events[1].animation, Some(0));
    assert_eq!(events[2].event_type, EventType::Start);
    assert_eq!(events[2].animation, Some(1));
}

#[test]
fn test_clear_completed_track_fires_no_interrupt() {
    let mut c = two_anim_controller();
    c.set_animation_by_name(0, "idle", false).unwrap();
    c.update(1200);
    c.drain_events();

    let data = c.skeleton.data.clone();
    c.animation_state.clear_track(&data, 0);
    let events = c.drain_events();
    assert_eq!(events.len(), 1);
    assert_eq!(events[0].event_type, EventType::End);
    assert_eq!(events[0].animation, Some(0));
    assert!(c.animation_state.track_entry(0).is_none());
}

#[test]
fn test_idle_then_wave_end_before_start_no_interrupt() {
    // Queueing "wave" after "idle" with no delay: once idle's duration
    // elapses, End(idle) precedes Start(wave) and no Interrupt fires.
    let mut c = two_anim_controller();
    c.set_animation_by_name(0, "idle", false).unwrap();
    c.add_animation_by_name(0, "wave", false, 0).unwrap();
    c.drain_events();

    c.update(1000);
    let events = c.drain_events();
    assert_eq!(events.len(), 3);
    assert_eq!(events[0].event_type, EventType::Complete);
    assert_eq!(events[0].animation, Some(0));
    assert_eq!(events[1].event_type, EventType::End);
    assert_eq!(events[1].animation, Some(0));
    assert_eq!(events[2].event_type, EventType::Start);
    assert_eq!(events[2].animation, Some(1));
    assert!(events.iter().all(|e| e.event_type != EventType::Interrupt));

    let entry = c.animation_state.track_entry(0).unwrap();
    assert_eq!(entry.animation, Some(1));
    assert_eq!(entry.time, 0);
}

#[test]
fn test_replacing_fires_interrupt_end_then_start() {
    let mut c = two_anim_controller();
    c.set_animation_by_name(0, "idle", false).unwrap();
    c.drain_events();

    c.set_animation_by_name(0, "wave", false).unwrap();
    let events = c.drain_events();
    assert_eq!(events.len(), 3);
    assert_eq!(events[0].event_type, EventType::Interrupt);
    assert_eq!(events[0].animation, Some(0));
    assert_eq!(events[1].event_type, EventType::End);
    assert_eq!(events[1].animation, Some(0));
    assert_eq!(events[2].event_type, EventType::Start);
    assert_eq!(events[2].animation, Some(1));
}

#[test]
fn test_user_event_fires_on_crossing_and_wrap() {
    let mut walk = anim("walk", 1000);
    walk.event_keys.push(EventKey { time: 500, event: 0 });
    let data = SkeletonData::new(
        vec![bone("root", None)],
        Vec::new(),
        Vec::new(),
        vec![walk],
        vec![EventData {
            name: "footstep".to_owned(),
            int_value: 7,
            number_value: 0,
            string_value: String::new(),
            audio_path: String::new(),
            volume: 4096,
            balance: 0,
        }],
    )
    .unwrap();
    let mut c = SkeletonController::new(data);
    c.set_animation_by_name(0, "walk", true).unwrap();
    c.drain_events();

    // Crossing the keyframe forward fires it once.
    c.update(600);
    let events = c.drain_events();
    assert_eq!(events.len(), 1);
    assert_eq!(events[0].event_type, EventType::UserEvent);
    let payload = events[0].user.as_ref().unwrap();
    assert_eq!(payload.data_index, 0);
    assert_eq!(payload.time, 500);

    // Wrapping past the duration fires the complete, then the keyframe
    // again on the next pass through.
    c.update(900);
    let events = c.drain_events();
    assert_eq!(events.len(), 2);
    assert_eq!(events[0].event_type, EventType::Complete);
    assert_eq!(events[1].event_type, EventType::UserEvent);
}

#[test]
fn test_unknown_animation_name_is_not_found() {
    let mut c = two_anim_controller();
    let r = c.set_animation_by_name(0, "missing", false);
    assert_eq!(r, Err(SkeletonError::NotFound));
    assert!(c.animation_state.track_entry(0).is_none());
    assert!(c.drain_events().is_empty());
}

#[test]
fn test_early_handover_fires_interrupt() {
    // A follower whose start threshold is placed by hand before the
    // current entry's duration interrupts it: the outgoing entry had not
    // completed when the handover happened.
    let mut c = two_anim_controller();
    c.set_animation_by_name(0, "idle", false).unwrap();
    c.drain_events();

    let mut entry = c.animation_state.track_entry(0).unwrap();
    entry.queued = Some(QueuedEntry {
        animation: Some(1),
        looping: false,
        start_at: 300,
        mix_duration: 0,
    });
    c.animation_state.tracks[0] = Some(entry);

    c.update(400);
    let events = c.drain_events();
    assert_eq!(events.len(), 3);
    assert_eq!(events[0].event_type, EventType::Interrupt);
    assert_eq!(events[0].animation, Some(0));
    assert_eq!(events[1].event_type, EventType::End);
    assert_eq!(events[2].event_type, EventType::Start);
    assert_eq!(events[2].animation, Some(1));
    let entry = c.animation_state.track_entry(0).unwrap();
    assert_eq!(entry.animation, Some(1));
    assert_eq!(entry.time, 100);
}
