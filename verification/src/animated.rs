//! The animated value: one target-driven value wired to the shared scheduler.
//!
//! The host owns the reactive plumbing (sources, subscriptions, publishing);
//! this type owns the decisions. On every source change past the first the
//! host calls [`AnimatedValue::apply_target`]; on every published tick it
//! calls [`AnimatedValue::on_tick`], performs the returned frame action, and —
//! when told to notify — republishes the returned value downstream.

use crate::blend::value_model;
use crate::clock::Clock;
use crate::scheduler::{
    request_action_model, request_model, AnimationContext, FrameAction,
};
use crate::status::{apply_model, prune_model, status_wf, AnimationStatus, StatusModel};
use crate::target::{target_wf, AnimationTarget};
use crate::{MAX_QUEUE_LEN, VALUE_LIMIT};
use vstd::prelude::*;

verus! {

/// Whether a status's newest animation started at or before `now` — what a
/// monotone clock guarantees of every status it has driven.
pub open spec fn newest_start_bounded(s: StatusModel, now: u64) -> bool {
    s is Running ==> (s->animations).last().start <= now
}

/// What one tick tells the host to do.
pub struct FrameOutput {
    /// Whether to notify downstream observers. Suppression is a correctness
    /// requirement: a tick that leaves a settled value settled must stay
    /// silent.
    pub notify: bool,
    /// The freshly blended output value.
    pub value: i64,
    /// The frame request to perform — a real one only while still in motion.
    pub action: FrameAction,
}

/// One animated value: its animation status, driven by targets and ticks.
pub struct AnimatedValue {
    status: AnimationStatus,
}

impl View for AnimatedValue {
    type V = StatusModel;

    closed spec fn view(&self) -> StatusModel {
        self.status@
    }
}

impl AnimatedValue {
    /// A freshly created animated value: settled at the target its source
    /// yields on first evaluation, with no motion started.
    pub fn new(initial: i64) -> (v: AnimatedValue)
        requires
            -VALUE_LIMIT <= initial <= VALUE_LIMIT,
        ensures
            v@ == StatusModel::Static(initial),
            status_wf(v@),
    {
        AnimatedValue { status: AnimationStatus::new(initial) }
    }

    /// The current animation status, for inspection.
    pub fn status(&self) -> (s: &AnimationStatus)
        ensures
            s@ == self@,
    {
        &self.status
    }

    /// React to a fresh target from the source at time `now`, and ask the
    /// scheduler for a tick unconditionally — even a pure snap needs one more
    /// tick to settle and notify. The caller performs the returned action.
    pub fn apply_target(
        &mut self,
        ctx: &mut AnimationContext,
        target: &AnimationTarget,
        now: u64,
    ) -> (action: FrameAction)
        requires
            status_wf(old(self)@),
            target_wf(*target),
            old(self)@ is Running && target.mode is Start ==> now >= (old(
                self,
            )@->animations).last().start && (old(self)@->animations).len() < MAX_QUEUE_LEN,
        ensures
            final(self)@ == apply_model(old(self)@, *target, now),
            status_wf(final(self)@),
            *final(ctx) == request_model(*old(ctx)),
            action == request_action_model(*old(ctx)),
    {
        self.status.apply(target, now);
        ctx.request_animation_frame()
    }

    /// React to one published tick at time `now`: prune finished animations,
    /// decide notification suppression, recompute the output, and re-request
    /// a frame while still in motion.
    ///
    /// Law: a tick that finds and leaves the status `Static` does not notify;
    /// a tick transitioning `Running` to `Snap`, `Snap` to `Static`, or
    /// remaining `Running` notifies exactly once.
    pub fn on_tick(&mut self, ctx: &mut AnimationContext, now: u64) -> (out: FrameOutput)
        requires
            status_wf(old(self)@),
        ensures
            final(self)@ == prune_model(old(self)@, now),
            status_wf(final(self)@),
            out.notify == !(old(self)@ is Static),
            out.value == value_model(prune_model(old(self)@, now), now),
            final(self)@ is Running ==> *final(ctx) == request_model(*old(ctx)) && out.action
                == request_action_model(*old(ctx)),
            !(final(self)@ is Running) ==> *final(ctx) == *old(ctx) && out.action
                is NoRequest,
    {
        let was_static = matches!(self.status, AnimationStatus::Static(_));
        self.status.remove_finished_animations(now);
        let value = self.status.value_of(now);
        let action = if matches!(self.status, AnimationStatus::Running { .. }) {
            ctx.request_animation_frame()
        } else {
            FrameAction::NoRequest
        };
        FrameOutput { notify: !was_static, value, action }
    }

    /// React to a fresh target, stamped with the shared clock's current time.
    /// The clock's monotonicity discharges the state machine's demand that
    /// time never run backwards.
    pub fn apply_target_now(
        &mut self,
        ctx: &mut AnimationContext,
        target: &AnimationTarget,
        clock: &mut Clock,
    ) -> (action: FrameAction)
        requires
            status_wf(old(self)@),
            target_wf(*target),
            newest_start_bounded(old(self)@, old(clock).last_ms()),
            old(self)@ is Running && target.mode is Start ==> (old(self)@->animations).len()
                < MAX_QUEUE_LEN,
        ensures
            final(self)@ == apply_model(old(self)@, *target, final(clock).last_ms()),
            status_wf(final(self)@),
            newest_start_bounded(final(self)@, final(clock).last_ms()),
            final(clock).last_ms() >= old(clock).last_ms(),
            *final(ctx) == request_model(*old(ctx)),
            action == request_action_model(*old(ctx)),
    {
        let now = clock.now_ms();
        self.apply_target(ctx, target, now)
    }

    /// React to one published tick, at the shared clock's current time.
    pub fn on_tick_now(&mut self, ctx: &mut AnimationContext, clock: &mut Clock) -> (out:
        FrameOutput)
        requires
            status_wf(old(self)@),
            newest_start_bounded(old(self)@, old(clock).last_ms()),
        ensures
            final(self)@ == prune_model(old(self)@, final(clock).last_ms()),
            status_wf(final(self)@),
            newest_start_bounded(final(self)@, final(clock).last_ms()),
            final(clock).last_ms() >= old(clock).last_ms(),
            out.notify == !(old(self)@ is Static),
            out.value == value_model(
                prune_model(old(self)@, final(clock).last_ms()),
                final(clock).last_ms(),
            ),
            final(self)@ is Running ==> *final(ctx) == request_model(*old(ctx)) && out.action
                == request_action_model(*old(ctx)),
            !(final(self)@ is Running) ==> *final(ctx) == *old(ctx) && out.action
                is NoRequest,
    {
        let now = clock.now_ms();
        let out = self.on_tick(ctx, now);
        proof {
            if old(self)@ is Running {
                crate::status::lemma_prune_queue_wf(old(self)@->animations, now);
            }
        }
        out
    }

    /// The output value of this animated value at time `now`.
    pub fn value_of(&self, now: u64) -> (r: i64)
        requires
            status_wf(self@),
        ensures
            r == value_model(self@, now),
    {
        self.status.value_of(now)
    }
}

} // verus!
