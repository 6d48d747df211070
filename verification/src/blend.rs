//! The additive blend engine: how a status and the current time turn into one
//! output value.
//!
//! Each queued animation contributes an independently decaying delta from its
//! own start towards zero; subtracting the sum of these deltas from the fully
//! settled target lets overlapping, independently timed retargets combine
//! without discontinuity.

use crate::easing::{eval, eval_spec, lemma_eval_endpoints, lemma_eval_in_range};
use crate::math::{lemma_div_le_bound, lemma_mul_le};
use crate::status::{
    finished, prune_model, status_wf, Animation, AnimationStatus, StatusModel,
};
use crate::target::{target_wf, AnimationTarget};
use crate::{MAX_DURATION_MS, MAX_QUEUE_LEN, PROGRESS_SCALE, VALUE_LIMIT};
use vstd::prelude::*;

verus! {

/// Linear interpolation from `from` to `to` at eased fixed-point progress
/// `eased`: the result moves `(to - from) * eased / PROGRESS_SCALE` away from
/// `from`.
pub open spec fn tween_spec(from: i64, to: i64, eased: int) -> int {
    let s = PROGRESS_SCALE as int;
    if to >= from {
        from + (to - from) * eased / s
    } else {
        from - (from - to) * eased / s
    }
}

/// A non-negative distance scaled by a progress in `[0, PROGRESS_SCALE]`
/// stays inside `[0, distance]`.
proof fn lemma_scaled_distance_range(d: int, eased: int)
    requires
        0 <= d,
        0 <= eased <= PROGRESS_SCALE,
    ensures
        0 <= d * eased / (PROGRESS_SCALE as int) <= d,
{
    let s = PROGRESS_SCALE as int;
    lemma_mul_le(eased, s, d);
    lemma_div_le_bound(d * eased, d, s);
}

/// The tween stays between its endpoints.
pub proof fn lemma_tween_range(from: i64, to: i64, eased: int)
    requires
        0 <= eased <= PROGRESS_SCALE,
    ensures
        from <= to ==> from <= tween_spec(from, to, eased) <= to,
        to <= from ==> to <= tween_spec(from, to, eased) <= from,
{
    if to >= from {
        lemma_scaled_distance_range(to - from, eased);
    } else {
        lemma_scaled_distance_range(from - to, eased);
    }
}

/// Tweening a value towards itself yields the value, at any progress.
pub proof fn lemma_tween_self(v: i64, eased: int)
    ensures
        tween_spec(v, v, eased) == v,
{
    let s = PROGRESS_SCALE as int;
    assert((v - v) * eased == 0);
    assert(0int / s == 0);
}

/// At progress zero the tween sits on its starting point.
pub proof fn lemma_tween_at_zero(from: i64, to: i64)
    ensures
        tween_spec(from, to, 0) == from,
{
    let s = PROGRESS_SCALE as int;
    assert((to - from) * 0 == 0);
    assert((from - to) * 0 == 0);
    assert(0int / s == 0);
}

/// At full progress the tween reaches its target.
pub proof fn lemma_tween_at_full(from: i64, to: i64)
    ensures
        tween_spec(from, to, PROGRESS_SCALE as int) == to,
{
    let s = PROGRESS_SCALE as int;
    if to >= from {
        vstd::arithmetic::mul::lemma_mul_is_commutative(to - from, s);
        vstd::arithmetic::div_mod::lemma_div_multiples_vanish(to - from, s);
    } else {
        vstd::arithmetic::mul::lemma_mul_is_commutative(from - to, s);
        vstd::arithmetic::div_mod::lemma_div_multiples_vanish(from - to, s);
    }
}

/// The default tween: executable form of [`tween_spec`].
pub fn tween_default(from: i64, to: i64, eased: u64) -> (r: i64)
    requires
        -VALUE_LIMIT <= from <= VALUE_LIMIT,
        -VALUE_LIMIT <= to <= VALUE_LIMIT,
        eased <= PROGRESS_SCALE,
    ensures
        r == tween_spec(from, to, eased as int),
        from <= to ==> from <= r <= to,
        to <= from ==> to <= r <= from,
        eased == 0 ==> r == from,
        eased == PROGRESS_SCALE ==> r == to,
{
    proof {
        lemma_tween_range(from, to, eased as int);
        lemma_tween_at_zero(from, to);
        lemma_tween_at_full(from, to);
    }
    if to >= from {
        let d: u64 = (to - from) as u64;
        proof {
            lemma_mul_le(d as int, 2 * VALUE_LIMIT, eased as int);
        }
        let step: u64 = d * eased / PROGRESS_SCALE;
        from + (step as i64)
    } else {
        let d: u64 = (from - to) as u64;
        proof {
            lemma_mul_le(d as int, 2 * VALUE_LIMIT, eased as int);
        }
        let step: u64 = d * eased / PROGRESS_SCALE;
        from - (step as i64)
    }
}

/// Raw progress of an animation at time `now`: elapsed time over duration, in
/// fixed point, clamped to `[0, PROGRESS_SCALE]`. A zero-duration animation is
/// at full progress from its start instant on.
pub open spec fn progress_model(a: Animation, now: u64) -> int {
    let s = PROGRESS_SCALE as int;
    if a.duration == 0 {
        s
    } else if now <= a.start {
        0
    } else if now - a.start >= a.duration {
        s
    } else {
        (now - a.start) * s / (a.duration as int)
    }
}

/// Raw progress stays inside `[0, PROGRESS_SCALE]`.
pub proof fn lemma_progress_range(a: Animation, now: u64)
    ensures
        0 <= progress_model(a, now) <= PROGRESS_SCALE,
{
    let s = PROGRESS_SCALE as int;
    if a.duration > 0 && now > a.start && now - a.start < a.duration {
        lemma_mul_le(s, s, now - a.start);
        lemma_div_le_bound((now - a.start) * s, s, a.duration as int);
    }
}

/// The progress an animation feeds to the tween: its easing curve applied to
/// its raw progress.
pub open spec fn eased_progress_model(a: Animation, now: u64) -> int {
    eval_spec(a.easing, progress_model(a, now))
}

/// The decaying delta one animation contributes at time `now`: the distance
/// between its settled output and its tween.
pub open spec fn delta_model(a: Animation, now: u64) -> int {
    a.to_i - tween_spec(a.from, a.to, eased_progress_model(a, now))
}

/// The sum of the deltas of a queue of animations.
pub open spec fn delta_sum(q: Seq<Animation>, now: u64) -> int
    decreases q.len(),
{
    if q.len() == 0 {
        0
    } else {
        delta_sum(q.drop_last(), now) + delta_model(q.last(), now)
    }
}

/// The output value of a status at time `now`: a settled status shows its
/// value; a running status shows the settled target minus the sum of its
/// animations' decaying deltas.
pub open spec fn value_model(s: StatusModel, now: u64) -> int {
    match s {
        StatusModel::Static(v) => v as int,
        StatusModel::Snap(v) => v as int,
        StatusModel::Running { to_i, animations, .. } => to_i - delta_sum(animations, now),
    }
}

/// A well-formed animation's delta has magnitude at most `2 * VALUE_LIMIT`.
pub proof fn lemma_delta_bound(a: Animation, now: u64)
    requires
        crate::status::anim_wf(a),
    ensures
        -2 * VALUE_LIMIT <= delta_model(a, now) <= 2 * VALUE_LIMIT,
{
    lemma_progress_range(a, now);
    lemma_eval_in_range(a.easing, progress_model(a, now));
    lemma_tween_range(a.from, a.to, eased_progress_model(a, now));
}

/// The delta sum of a well-formed queue is bounded by its length.
proof fn lemma_delta_sum_bound(q: Seq<Animation>, now: u64)
    requires
        forall|i: int| 0 <= i < q.len() ==> crate::status::anim_wf(#[trigger] q[i]),
    ensures
        -(2 * VALUE_LIMIT * q.len()) <= delta_sum(q, now) <= 2 * VALUE_LIMIT * q.len(),
    decreases q.len(),
{
    if q.len() > 0 {
        let rest = q.drop_last();
        assert(forall|i: int| 0 <= i < rest.len() ==> rest[i] == q[i]);
        lemma_delta_sum_bound(rest, now);
        lemma_delta_bound(q.last(), now);
        assert(2 * VALUE_LIMIT * q.len() == 2 * VALUE_LIMIT * rest.len() + 2 * VALUE_LIMIT)
            by (nonlinear_arith)
            requires
                rest.len() == q.len() - 1,
        ;
    }
}

impl Animation {
    /// The eased progress of this animation at time `now`.
    pub fn progress(&self, now: u64) -> (r: u64)
        requires
            self.duration <= MAX_DURATION_MS,
        ensures
            r == eased_progress_model(*self, now),
            r <= PROGRESS_SCALE,
    {
        let p: u64 = if self.duration == 0 {
            PROGRESS_SCALE
        } else if now <= self.start {
            0
        } else {
            let elapsed = now - self.start;
            if elapsed >= self.duration {
                PROGRESS_SCALE
            } else {
                proof {
                    lemma_progress_range(*self, now);
                    lemma_mul_le(elapsed as int, MAX_DURATION_MS as int, PROGRESS_SCALE as int);
                }
                elapsed * PROGRESS_SCALE / self.duration
            }
        };
        eval(self.easing, p)
    }
}

impl AnimationStatus {
    /// The output value of this status at time `now`. Callers prune first:
    /// on a running status every animation is expected to still be live.
    pub fn value_of(&self, now: u64) -> (r: i64)
        requires
            status_wf(self@),
        ensures
            r == value_model(self@, now),
    {
        match self {
            AnimationStatus::Static(v) => {
                proof {
                    lemma_tween_self(*v, PROGRESS_SCALE as int);
                }
                tween_default(*v, *v, PROGRESS_SCALE)
            },
            AnimationStatus::Snap(v) => {
                proof {
                    lemma_tween_self(*v, PROGRESS_SCALE as int);
                }
                tween_default(*v, *v, PROGRESS_SCALE)
            },
            AnimationStatus::Running { to_i, animations, .. } => {
                let ghost q = animations@;
                let n = animations.len();
                let mut acc: i64 = *to_i;
                let mut idx: usize = 0;
                while idx < n
                    invariant
                        idx <= n,
                        n == q.len(),
                        animations@ == q,
                        n <= MAX_QUEUE_LEN,
                        forall|i: int|
                            0 <= i < q.len() ==> crate::status::anim_wf(#[trigger] q[i]),
                        -VALUE_LIMIT <= *to_i <= VALUE_LIMIT,
                        acc == *to_i - delta_sum(q.take(idx as int), now),
                    decreases n - idx,
                {
                    let a = animations[idx];
                    let e = a.progress(now);
                    let tw = tween_default(a.from, a.to, e);
                    proof {
                        assert(q.take(idx as int + 1).drop_last() =~= q.take(idx as int));
                        assert(q.take(idx as int + 1).last() == q[idx as int]);
                        assert(forall|i: int|
                            0 <= i < idx as int ==> q.take(idx as int)[i] == q[i]);
                        lemma_delta_sum_bound(q.take(idx as int), now);
                        assert(2 * VALUE_LIMIT * q.take(idx as int).len() <= 2 * VALUE_LIMIT * (
                        MAX_QUEUE_LEN as int)) by (nonlinear_arith)
                            requires
                                0 <= q.take(idx as int).len() <= MAX_QUEUE_LEN as int,
                        ;
                        assert(2 * VALUE_LIMIT * (MAX_QUEUE_LEN as int)
                            == 33_554_432_000_000_000int) by (nonlinear_arith);
                    }
                    acc = acc - (a.to_i - tw);
                    idx = idx + 1;
                }
                proof {
                    assert(q.take(n as int) =~= q);
                }
                acc
            },
        }
    }
}

/// Law: layering a `Start`-mode retarget onto a running status does not move
/// the blended output at the instant of the push — the new animation's
/// progress-zero contribution exactly equals the delta already represented by
/// the prior state. (Excluded: a zero-duration target, which jumps to full
/// progress immediately.)
pub proof fn lemma_start_push_is_seamless(s: StatusModel, t: AnimationTarget, now: u64)
    requires
        status_wf(s),
        target_wf(t),
        s is Running,
        t.mode is Start,
        t.duration >= 1,
    ensures
        value_model(crate::status::apply_model(s, t, now), now) == value_model(s, now),
{
    let q = s->animations;
    let new_anim = crate::status::started_animation(s->to, t, now);
    let pushed = q.push(new_anim);
    assert(pushed.drop_last() =~= q);
    assert(pushed.last() == new_anim);
    assert(progress_model(new_anim, now) == 0);
    lemma_eval_endpoints(new_anim.easing);
    lemma_tween_at_zero(new_anim.from, new_anim.to);
    assert(delta_model(new_anim, now) == t.target - s->to);
}

/// A status after a whole sequence of targets has been applied, all at time
/// `now`.
pub open spec fn apply_all_model(s: StatusModel, ts: Seq<AnimationTarget>, now: u64) -> StatusModel
    decreases ts.len(),
{
    if ts.len() == 0 {
        s
    } else {
        crate::status::apply_model(apply_all_model(s, ts.drop_last(), now), ts.last(), now)
    }
}

/// Law: any sequence of `Start`-mode retargets on a running status leaves the
/// blended output unmoved at the instant they arrive — each newly pushed
/// animation's progress-zero contribution equals the delta already
/// represented by the prior state. (Excluded: zero-duration targets, which
/// jump to full progress immediately.)
pub proof fn lemma_start_retargets_are_seamless(
    s: StatusModel,
    ts: Seq<AnimationTarget>,
    now: u64,
)
    requires
        status_wf(s),
        s is Running,
        now >= (s->animations).last().start,
        (s->animations).len() + ts.len() <= MAX_QUEUE_LEN,
        forall|i: int|
            0 <= i < ts.len() ==> target_wf(#[trigger] ts[i]) && ts[i].mode is Start
                && ts[i].duration >= 1,
    ensures
        status_wf(apply_all_model(s, ts, now)),
        apply_all_model(s, ts, now) is Running,
        value_model(apply_all_model(s, ts, now), now) == value_model(s, now),
        (apply_all_model(s, ts, now)->animations).len() == (s->animations).len() + ts.len(),
        now >= (apply_all_model(s, ts, now)->animations).last().start,
    decreases ts.len(),
{
    if ts.len() > 0 {
        let rest = ts.drop_last();
        assert(forall|i: int| 0 <= i < rest.len() ==> rest[i] == ts[i]);
        lemma_start_retargets_are_seamless(s, rest, now);
        let mid = apply_all_model(s, rest, now);
        crate::status::lemma_apply_start_preserves_wf(mid, ts.last(), now);
        lemma_start_push_is_seamless(mid, ts.last(), now);
    }
}

/// Law: a running status whose every animation has finished settles without
/// moving: one prune makes it `Snap(to)`, one more tick makes it
/// `Static(to)`, and the output value is `to` at both steps.
pub proof fn lemma_finished_animations_settle(s: StatusModel, now: u64, later: u64)
    requires
        status_wf(s),
        s is Running,
        forall|i: int|
            0 <= i < (s->animations).len() ==> finished(#[trigger] (s->animations)[i], now),
    ensures
        prune_model(s, now) == StatusModel::Snap(s->to),
        value_model(prune_model(s, now), now) == s->to,
        prune_model(prune_model(s, now), later) == StatusModel::Static(s->to),
        value_model(prune_model(prune_model(s, now), later), later) == s->to,
{
    lemma_prune_queue_all_finished(s->animations, now);
}

/// A queue of finished animations prunes to nothing.
proof fn lemma_prune_queue_all_finished(q: Seq<Animation>, now: u64)
    requires
        forall|i: int| 0 <= i < q.len() ==> finished(#[trigger] q[i], now),
    ensures
        crate::status::prune_queue(q, now).len() == 0,
    decreases q.len(),
{
    if q.len() > 0 {
        let rest = q.drop_last();
        assert(forall|i: int| 0 <= i < rest.len() ==> rest[i] == q[i]);
        lemma_prune_queue_all_finished(rest, now);
    }
}

/// Law: a `Snap`-mode target on a running status discards all motion at once:
/// the status becomes `Snap(target)` with no animations, its output is the
/// target exactly, and one more tick settles it to `Static(target)` with the
/// same output.
pub proof fn lemma_snap_discards_motion(s: StatusModel, t: AnimationTarget, now: u64, later: u64)
    requires
        status_wf(s),
        target_wf(t),
        s is Running,
        t.mode is Snap,
    ensures
        crate::status::apply_model(s, t, now) == StatusModel::Snap(t.target),
        value_model(crate::status::apply_model(s, t, now), now) == t.target,
        prune_model(crate::status::apply_model(s, t, now), later) == StatusModel::Static(
            t.target,
        ),
        value_model(prune_model(crate::status::apply_model(s, t, now), later), later)
            == t.target,
{
}

} // verus!
