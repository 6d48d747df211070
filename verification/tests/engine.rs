//! End-to-end tests of the animation engine: scheduler coalescing, state
//! machine transitions, additive blending, and target defaults.

use animation_engine::animated::AnimatedValue;
use animation_engine::blend::tween_default;
use animation_engine::easing::Easing;
use animation_engine::scheduler::{AnimationContext, FrameAction, FrameRequestState};
use animation_engine::status::{Animation, AnimationStatus};
use animation_engine::target::{AnimationMode, AnimationTarget, DEFAULT_DURATION_MS};
use animation_engine::clock::Clock;
use animation_engine::{MAX_DURATION_MS, PROGRESS_SCALE, VALUE_LIMIT};

fn start_target(target: i64, duration: u64) -> AnimationTarget {
    AnimationTarget { target, duration, easing: Easing::Linear, mode: AnimationMode::Start }
}

fn mode_target(target: i64, duration: u64, mode: AnimationMode) -> AnimationTarget {
    AnimationTarget { target, duration, easing: Easing::Linear, mode }
}

fn running_queue(status: &AnimationStatus) -> &Vec<Animation> {
    match status {
        AnimationStatus::Running { animations, .. } => animations,
        other => panic!("expected a running status, got {:?}", other),
    }
}

#[test]
fn bare_value_conversion_fills_defaults() {
    let t: AnimationTarget = 42i64.into();
    assert_eq!(t.target, 42);
    assert_eq!(t.duration, DEFAULT_DURATION_MS);
    assert_eq!(t.duration, 500);
    assert_eq!(t.easing, Easing::SineOut);
    assert_eq!(t.mode, AnimationMode::Start);
}

#[test]
fn value_duration_conversion_fills_remaining_defaults() {
    let t: AnimationTarget = (7i64, 1500u64).into();
    assert_eq!(t.target, 7);
    assert_eq!(t.duration, 1500);
    assert_eq!(t.easing, Easing::SineOut);
    assert_eq!(t.mode, AnimationMode::Start);
}

#[test]
fn repeated_requests_issue_one_native_request_and_one_tick() {
    let mut ctx = AnimationContext::provide();
    assert_eq!(ctx.request_animation_frame(), FrameAction::RequestNative);
    assert_eq!(ctx.request_animation_frame(), FrameAction::NoRequest);
    assert_eq!(ctx.request_animation_frame(), FrameAction::NoRequest);
    assert_eq!(ctx.state, FrameRequestState::FrameRequested);
    // The delivered frame publishes exactly one tick...
    assert!(ctx.deliver_frame());
    // ...and an extraneous delivery publishes nothing.
    assert!(!ctx.deliver_frame());
    assert_eq!(ctx.state, FrameRequestState::NoFrameRequested);
}

#[test]
fn custom_host_requests_go_to_the_callback() {
    let mut ctx = AnimationContext::provide_with_custom_request_animation_frame();
    assert_eq!(ctx.request_animation_frame(), FrameAction::RequestCustom);
    assert_eq!(ctx.request_animation_frame(), FrameAction::NoRequest);
    assert!(ctx.deliver_frame());
    assert_eq!(ctx.request_animation_frame(), FrameAction::RequestCustom);
}

#[test]
fn start_from_static_runs_one_animation() {
    let mut status = AnimationStatus::new(0);
    status.apply(&start_target(10, 1000), 0);
    let queue = running_queue(&status);
    assert_eq!(queue.len(), 1);
    assert_eq!(queue[0].from, 0);
    assert_eq!(queue[0].to, 10);
    assert_eq!(queue[0].start, 0);
    assert_eq!(queue[0].duration, 1000);
}

#[test]
fn replace_or_start_mutates_the_newest_animation_in_place() {
    let mut status = AnimationStatus::new(0);
    status.apply(&start_target(10, 1000), 0);
    status.apply(&mode_target(20, 1000, AnimationMode::ReplaceOrStart), 100);
    let queue = running_queue(&status);
    assert_eq!(queue.len(), 1, "retargeting must mutate, not append");
    assert_eq!(queue[0].to, 20);
    assert_eq!(queue[0].from, 0);
    assert_eq!(queue[0].start, 0, "the retargeted animation keeps its start");
    match &status {
        AnimationStatus::Running { to, .. } => assert_eq!(*to, 20),
        other => panic!("expected running, got {:?}", other),
    }
}

#[test]
fn start_on_running_layers_a_second_animation() {
    let mut status = AnimationStatus::new(0);
    status.apply(&start_target(10, 1000), 0);
    status.apply(&mode_target(20, 1000, AnimationMode::ReplaceOrStart), 100);
    status.apply(&start_target(30, 1000), 200);
    let queue = running_queue(&status);
    assert_eq!(queue.len(), 2);
    let newest = queue.last().unwrap();
    assert_eq!(newest.from, 20);
    assert_eq!(newest.to, 30);
    assert_eq!(newest.start, 200);
}

#[test]
fn snap_discards_all_motion_and_settles_next_tick() {
    let mut status = AnimationStatus::new(0);
    status.apply(&start_target(10, 1000), 0);
    status.apply(&start_target(30, 2000), 100);
    status.apply(&mode_target(5, 1000, AnimationMode::Snap), 200);
    assert!(matches!(status, AnimationStatus::Snap(5)));
    status.remove_finished_animations(300);
    assert!(matches!(status, AnimationStatus::Static(5)));
    assert_eq!(status.value_of(300), 5);
}

#[test]
fn replace_or_snap_on_settled_snaps() {
    let mut status = AnimationStatus::new(3);
    status.apply(&mode_target(8, 1000, AnimationMode::ReplaceOrSnap), 0);
    assert!(matches!(status, AnimationStatus::Snap(8)));
}

#[test]
fn finished_animations_settle_in_two_ticks_without_moving() {
    let mut status = AnimationStatus::new(0);
    status.apply(&start_target(10, 1000), 0);
    // Both animations are past their lifetime at time 5000.
    status.apply(&start_target(30, 2000), 100);
    status.remove_finished_animations(5000);
    assert!(matches!(status, AnimationStatus::Snap(30)));
    assert_eq!(status.value_of(5000), 30);
    status.remove_finished_animations(5016);
    assert!(matches!(status, AnimationStatus::Static(30)));
    assert_eq!(status.value_of(5016), 30);
}

#[test]
fn pruning_drops_finished_animations_anywhere_in_the_queue() {
    let mut status = AnimationStatus::new(0);
    status.apply(&start_target(10, 10_000), 0);
    status.apply(&start_target(20, 100), 100);
    status.apply(&start_target(30, 10_000), 300);
    // The middle animation (start 100, duration 100) is finished at 500.
    status.remove_finished_animations(500);
    let queue = running_queue(&status);
    assert_eq!(queue.len(), 2);
    assert_eq!(queue[0].to, 10);
    assert_eq!(queue[1].to, 30);
}

#[test]
fn halfway_linear_blend_is_exact() {
    let mut status = AnimationStatus::new(0);
    status.apply(&start_target(10, 1000), 0);
    // progress 1/2, tween 5, value = 10 - (10 - 5).
    assert_eq!(status.value_of(500), 5);
    assert_eq!(status.value_of(0), 0);
    assert_eq!(status.value_of(1000), 10);
}

#[test]
fn overlapping_animations_blend_additively() {
    let mut status = AnimationStatus::new(0);
    status.apply(&start_target(10, 1000), 0);
    status.apply(&start_target(40, 1000), 500);
    // At 750: first animation at 3/4 (tween 7.5 -> 7, delta 3),
    // second at 1/4 (tween 10 + 30/4 = 17, delta 23); value = 40 - 26.
    assert_eq!(status.value_of(750), 14);
}

#[test]
fn start_mode_retarget_does_not_jump() {
    let mut status = AnimationStatus::new(0);
    status.apply(&start_target(10, 1000), 0);
    let before = status.value_of(500);
    status.apply(&start_target(30, 700), 500);
    let after = status.value_of(500);
    assert_eq!(before, after);
    // And again on top of two running animations.
    let before = status.value_of(800);
    status.apply(&start_target(-20, 400), 800);
    let after = status.value_of(800);
    assert_eq!(before, after);
}

#[test]
fn ticks_notify_unless_settled_before_and_after() {
    let mut ctx = AnimationContext::provide();
    let mut value = AnimatedValue::new(0);

    // A tick on a static value stays silent and requests nothing.
    let out = value.on_tick(&mut ctx, 0);
    assert!(!out.notify);
    assert_eq!(out.action, FrameAction::NoRequest);

    // A fresh target always asks for a frame.
    let action = value.apply_target(&mut ctx, &start_target(10, 1000), 0);
    assert_eq!(action, FrameAction::RequestNative);

    // Still running: notify, keep requesting.
    assert!(ctx.deliver_frame());
    let out = value.on_tick(&mut ctx, 500);
    assert!(out.notify);
    assert_eq!(out.value, 5);
    assert_eq!(out.action, FrameAction::RequestNative);

    // Running -> Snap: notify.
    assert!(ctx.deliver_frame());
    let out = value.on_tick(&mut ctx, 2000);
    assert!(out.notify);
    assert_eq!(out.value, 10);
    assert_eq!(out.action, FrameAction::NoRequest, "a settled value stops requesting frames");
    assert!(matches!(value.status(), AnimationStatus::Snap(10)));

    // Snap -> Static: notify once more, then stay silent.
    let out = value.on_tick(&mut ctx, 2016);
    assert!(out.notify);
    assert_eq!(out.value, 10);
    let out = value.on_tick(&mut ctx, 2032);
    assert!(!out.notify);
    assert!(matches!(value.status(), AnimationStatus::Static(10)));
}

#[test]
fn blending_works_at_the_value_range_extremes() {
    let mut status = AnimationStatus::new(VALUE_LIMIT);
    status.apply(&start_target(-VALUE_LIMIT, 1000), 0);
    assert_eq!(status.value_of(0), VALUE_LIMIT);
    assert_eq!(status.value_of(500), 0);
    assert_eq!(status.value_of(1000), -VALUE_LIMIT);
}

#[test]
fn zero_duration_animation_is_at_full_progress_immediately() {
    // The one retarget that is not seamless: a zero-duration animation jumps
    // to its target the moment it is pushed.
    let mut status = AnimationStatus::new(0);
    status.apply(&start_target(10, 1000), 0);
    assert_eq!(status.value_of(500), 5);
    status.apply(&start_target(30, 0), 500);
    assert_eq!(status.value_of(500), 25);
    // It is finished (and pruned) on the next instant.
    status.remove_finished_animations(501);
    assert_eq!(running_queue(&status).len(), 1);
}

#[test]
fn clock_readings_never_run_backwards() {
    let mut clock = Clock::new();
    let a = clock.now_ms();
    let b = clock.now_ms();
    assert!(a <= b);
}

#[test]
fn clock_driven_value_animates_from_its_baseline() {
    let mut ctx = AnimationContext::provide();
    let mut clock = Clock::new();
    let mut value = AnimatedValue::new(0);
    let target = AnimationTarget {
        target: 1_000,
        duration: MAX_DURATION_MS,
        easing: Easing::Linear,
        mode: AnimationMode::Start,
    };
    let action = value.apply_target_now(&mut ctx, &target, &mut clock);
    assert_eq!(action, FrameAction::RequestNative);
    assert!(ctx.deliver_frame());
    let out = value.on_tick_now(&mut ctx, &mut clock);
    assert!(out.notify);
    // Fixed-point progress is still zero this early in a very long animation.
    assert_eq!(out.value, 0);
    assert_eq!(out.action, FrameAction::RequestNative);
}

#[test]
fn tween_default_interpolates_linearly() {
    assert_eq!(tween_default(0, 10, PROGRESS_SCALE / 2), 5);
    assert_eq!(tween_default(10, 0, PROGRESS_SCALE / 2), 5);
    assert_eq!(tween_default(-10, 10, PROGRESS_SCALE / 4), -5);
    assert_eq!(tween_default(3, 3, 123_456), 3);
    assert_eq!(tween_default(0, 10, 0), 0);
    assert_eq!(tween_default(0, 10, PROGRESS_SCALE), 10);
}
