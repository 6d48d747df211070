//! The per-value animation state machine: its status, its ordered animation
//! queue, and the transitions driven by new targets and by ticks.

use crate::easing::Easing;
use crate::target::{AnimationMode, AnimationTarget};
use crate::{MAX_DURATION_MS, MAX_QUEUE_LEN, VALUE_LIMIT};
use vstd::prelude::*;

verus! {

/// One in-flight animation. Only the newest animation of a queue may have
/// `to` / `to_i` mutated in place (by a replace mode); every other field is
/// immutable once created.
#[derive(Clone, Copy, Debug, PartialEq, Eq, Structural)]
pub struct Animation {
    /// The value the animation started from.
    pub from: i64,
    /// The value the animation runs towards.
    pub to: i64,
    /// The settled output value of the animation, precomputed when it is
    /// created: the identity tween of `to` at full progress, which in this
    /// value space is `to` itself (see `blend::lemma_tween_self`).
    pub to_i: i64,
    /// When the animation started, in milliseconds.
    pub start: u64,
    /// How long the animation plays, in milliseconds.
    pub duration: u64,
    /// The easing curve applied over the animation's lifetime.
    pub easing: Easing,
}

/// The status of one animated value.
///
/// The queue of a `Running` status is never empty and is ordered by ascending
/// start time, so its last element is the most recently started animation —
/// the only one a replace mode may mutate.
#[derive(Debug)]
pub enum AnimationStatus {
    /// Settled: no motion.
    Static(i64),
    /// Settled, but the output must still update once on the next tick, then
    /// degrade to `Static`. Distinguishes "just settled, must notify once"
    /// from "already settled".
    Snap(i64),
    /// Animations are in flight.
    Running { to: i64, to_i: i64, animations: Vec<Animation> },
}

/// The mathematical shape of an [`AnimationStatus`]: the queue as a sequence.
pub ghost enum StatusModel {
    Static(i64),
    Snap(i64),
    Running { to: i64, to_i: i64, animations: Seq<Animation> },
}

impl View for AnimationStatus {
    type V = StatusModel;

    open spec fn view(&self) -> StatusModel {
        match self {
            AnimationStatus::Static(v) => StatusModel::Static(*v),
            AnimationStatus::Snap(v) => StatusModel::Snap(*v),
            AnimationStatus::Running { to, to_i, animations } => StatusModel::Running {
                to: *to,
                to_i: *to_i,
                animations: animations@,
            },
        }
    }
}

/// An animation the engine accepts: values in the fixed-point range, the
/// settled output equal to the target, the duration in the supported range.
pub open spec fn anim_wf(a: Animation) -> bool {
    &&& -VALUE_LIMIT <= a.from <= VALUE_LIMIT
    &&& -VALUE_LIMIT <= a.to <= VALUE_LIMIT
    &&& a.to_i == a.to
    &&& a.duration <= MAX_DURATION_MS
}

/// Queue order: ascending start times, newest animation last.
pub open spec fn queue_sorted(q: Seq<Animation>) -> bool {
    forall|i: int, j: int| 0 <= i <= j < q.len() ==> q[i].start <= q[j].start
}

/// The state machine's invariant, established by construction and preserved
/// by every transition.
pub open spec fn status_wf(s: StatusModel) -> bool {
    match s {
        StatusModel::Static(v) => -VALUE_LIMIT <= v <= VALUE_LIMIT,
        StatusModel::Snap(v) => -VALUE_LIMIT <= v <= VALUE_LIMIT,
        StatusModel::Running { to, to_i, animations } => {
            &&& -VALUE_LIMIT <= to <= VALUE_LIMIT
            &&& to_i == to
            &&& 1 <= animations.len() <= MAX_QUEUE_LEN
            &&& forall|i: int| 0 <= i < animations.len() ==> anim_wf(#[trigger] animations[i])
            &&& queue_sorted(animations)
        },
    }
}

/// The animation a target starts at time `now` from the value `from`.
pub open spec fn started_animation(from: i64, t: AnimationTarget, now: u64) -> Animation {
    Animation {
        from,
        to: t.target,
        to_i: t.target,
        start: now,
        duration: t.duration,
        easing: t.easing,
    }
}

/// The most recently started animation, retargeted in place: same start,
/// duration and easing, new target.
pub open spec fn retargeted_animation(a: Animation, target: i64) -> Animation {
    Animation { to: target, to_i: target, ..a }
}

/// How a status reacts to a new target arriving at time `now`.
pub open spec fn apply_model(s: StatusModel, t: AnimationTarget, now: u64) -> StatusModel {
    match s {
        StatusModel::Static(v) | StatusModel::Snap(v) => match t.mode {
            AnimationMode::Start | AnimationMode::ReplaceOrStart => StatusModel::Running {
                to: t.target,
                to_i: t.target,
                animations: seq![started_animation(v, t, now)],
            },
            AnimationMode::ReplaceOrSnap | AnimationMode::Snap => StatusModel::Snap(t.target),
        },
        StatusModel::Running { to, to_i, animations } => match t.mode {
            AnimationMode::Start => StatusModel::Running {
                to: t.target,
                to_i: t.target,
                animations: animations.push(started_animation(to, t, now)),
            },
            AnimationMode::ReplaceOrStart | AnimationMode::ReplaceOrSnap => StatusModel::Running {
                to: t.target,
                to_i: t.target,
                animations: animations.update(
                    animations.len() - 1,
                    retargeted_animation(animations.last(), t.target),
                ),
            },
            AnimationMode::Snap => StatusModel::Snap(t.target),
        },
    }
}

/// A `Start`-mode target on a running status keeps the invariant and grows
/// the queue by one animation, started now.
pub proof fn lemma_apply_start_preserves_wf(s: StatusModel, t: AnimationTarget, now: u64)
    requires
        status_wf(s),
        crate::target::target_wf(t),
        s is Running,
        t.mode is Start,
        now >= (s->animations).last().start,
        (s->animations).len() < MAX_QUEUE_LEN,
    ensures
        status_wf(apply_model(s, t, now)),
        apply_model(s, t, now) is Running,
        (apply_model(s, t, now)->animations).len() == (s->animations).len() + 1,
        (apply_model(s, t, now)->animations).last().start == now,
{
    let q = s->animations;
    let pushed = q.push(started_animation(s->to, t, now));
    assert(forall|i: int| 0 <= i < q.len() ==> pushed[i] == q[i]);
    assert(queue_sorted(pushed)) by {
        assert(forall|i: int| 0 <= i < q.len() ==> #[trigger] q[i].start <= q[q.len() - 1].start);
    }
}

/// An animation is finished once its lifetime has fully elapsed.
pub open spec fn finished(a: Animation, now: u64) -> bool {
    now > a.start + a.duration
}

/// The queue with every finished animation dropped, order kept.
pub open spec fn prune_queue(q: Seq<Animation>, now: u64) -> Seq<Animation>
    decreases q.len(),
{
    if q.len() == 0 {
        Seq::empty()
    } else {
        let rest = prune_queue(q.drop_last(), now);
        if finished(q.last(), now) {
            rest
        } else {
            rest.push(q.last())
        }
    }
}

/// How a status reacts to a tick at time `now`, before the output is
/// recomputed: finished animations are dropped, an emptied queue degrades
/// `Running` to `Snap(to)`, and `Snap` takes its one-tick grace step down to
/// `Static`.
pub open spec fn prune_model(s: StatusModel, now: u64) -> StatusModel {
    match s {
        StatusModel::Static(v) => StatusModel::Static(v),
        StatusModel::Snap(v) => StatusModel::Static(v),
        StatusModel::Running { to, to_i, animations } => {
            let live = prune_queue(animations, now);
            if live.len() == 0 {
                StatusModel::Snap(to)
            } else {
                StatusModel::Running { to, to_i, animations: live }
            }
        },
    }
}

/// Pruning keeps only unfinished animations, keeps their order and
/// well-formedness, and never grows the queue.
pub proof fn lemma_prune_queue_wf(q: Seq<Animation>, now: u64)
    ensures
        prune_queue(q, now).len() <= q.len(),
        forall|i: int|
            0 <= i < prune_queue(q, now).len() ==> !finished(
                #[trigger] prune_queue(q, now)[i],
                now,
            ),
        (forall|i: int| 0 <= i < q.len() ==> anim_wf(#[trigger] q[i])) ==> (forall|i: int|
            0 <= i < prune_queue(q, now).len() ==> anim_wf(#[trigger] prune_queue(q, now)[i])),
        queue_sorted(q) ==> queue_sorted(prune_queue(q, now)),
        (queue_sorted(q) && q.len() > 0) ==> (forall|i: int|
            0 <= i < prune_queue(q, now).len() ==> (#[trigger] prune_queue(q, now)[i]).start
                <= q.last().start),
    decreases q.len(),
{
    if q.len() == 0 {
    } else {
        let rest = q.drop_last();
        lemma_prune_queue_wf(rest, now);
        assert(forall|i: int| 0 <= i < rest.len() ==> rest[i] == q[i]);
    }
}

/// The status a settled value (`Static` or `Snap`) transitions to when a
/// target arrives: both react alike, so they share this step.
fn applied_to_settled(state: i64, target: &AnimationTarget, now: u64) -> (s: AnimationStatus)
    requires
        -VALUE_LIMIT <= state <= VALUE_LIMIT,
        crate::target::target_wf(*target),
    ensures
        s@ == apply_model(StatusModel::Static(state), *target, now),
        s@ == apply_model(StatusModel::Snap(state), *target, now),
        status_wf(s@),
{
    match target.mode {
        AnimationMode::Start | AnimationMode::ReplaceOrStart => {
            let mut animations: Vec<Animation> = Vec::new();
            animations.push(
                Animation {
                    from: state,
                    to: target.target,
                    to_i: target.target,
                    start: now,
                    duration: target.duration,
                    easing: target.easing,
                },
            );
            proof {
                assert(animations@ =~= seq![started_animation(state, *target, now)]);
            }
            AnimationStatus::Running { to: target.target, to_i: target.target, animations }
        },
        AnimationMode::ReplaceOrSnap | AnimationMode::Snap => {
            AnimationStatus::Snap(target.target)
        },
    }
}

impl Animation {
    /// Whether the animation's lifetime has fully elapsed at time `now`.
    pub fn is_finished(&self, now: u64) -> (r: bool)
        ensures
            r == finished(*self, now),
    {
        if now <= self.start {
            false
        } else {
            now - self.start > self.duration
        }
    }
}

impl AnimationStatus {
    /// A freshly created animated value: settled at its initial target, with
    /// no motion started.
    pub fn new(initial: i64) -> (s: AnimationStatus)
        requires
            -VALUE_LIMIT <= initial <= VALUE_LIMIT,
        ensures
            s@ == StatusModel::Static(initial),
            status_wf(s@),
    {
        AnimationStatus::Static(initial)
    }

    /// React to a new target arriving at time `now`, under the target's
    /// conflict-resolution mode:
    ///
    /// * `Start` layers a new animation on top of whatever runs, starting from
    ///   the current settled target, so overlapping retargets compose
    ///   additively;
    /// * `ReplaceOrStart` / `ReplaceOrSnap` retarget the most recently started
    ///   animation in place, and fall back to starting / snapping when no
    ///   animation runs;
    /// * `Snap` discards all motion and adopts the target on the next tick.
    pub fn apply(&mut self, target: &AnimationTarget, now: u64)
        requires
            status_wf(old(self)@),
            crate::target::target_wf(*target),
            old(self)@ is Running && target.mode is Start ==> now >= (old(
                self,
            )@->animations).last().start && (old(self)@->animations).len() < MAX_QUEUE_LEN,
        ensures
            final(self)@ == apply_model(old(self)@, *target, now),
            status_wf(final(self)@),
    {
        match self {
            AnimationStatus::Static(state) => {
                let from = *state;
                *self = applied_to_settled(from, target, now);
            },
            AnimationStatus::Snap(state) => {
                let from = *state;
                *self = applied_to_settled(from, target, now);
            },
            AnimationStatus::Running { to, to_i, animations } => {
                match target.mode {
                    AnimationMode::Start => {
                        let from = *to;
                        animations.push(
                            Animation {
                                from,
                                to: target.target,
                                to_i: target.target,
                                start: now,
                                duration: target.duration,
                                easing: target.easing,
                            },
                        );
                        *to = target.target;
                        *to_i = target.target;
                    },
                    AnimationMode::ReplaceOrStart | AnimationMode::ReplaceOrSnap => {
                        let ghost orig = animations@;
                        let mut newest = animations.pop().unwrap();
                        newest.to = target.target;
                        newest.to_i = target.target;
                        animations.push(newest);
                        *to = target.target;
                        *to_i = target.target;
                        proof {
                            assert(animations@ =~= orig.update(
                                orig.len() - 1,
                                retargeted_animation(orig.last(), target.target),
                            ));
                        }
                    },
                    AnimationMode::Snap => {
                        *self = AnimationStatus::Snap(target.target);
                    },
                }
            },
        }
    }

    /// React to a tick at time `now`: drop every finished animation; an
    /// emptied queue degrades `Running` to `Snap(to)`; `Snap` degrades to
    /// `Static` (the one-tick grace rule); `Static` is untouched.
    pub fn remove_finished_animations(&mut self, now: u64)
        requires
            status_wf(old(self)@),
        ensures
            final(self)@ == prune_model(old(self)@, now),
            status_wf(final(self)@),
    {
        match self {
            AnimationStatus::Static(_) => {},
            AnimationStatus::Snap(value) => {
                let v = *value;
                *self = AnimationStatus::Static(v);
            },
            AnimationStatus::Running { to, to_i, animations } => {
                let ghost orig = animations@;
                let n = animations.len();
                let mut live: Vec<Animation> = Vec::new();
                let mut idx: usize = 0;
                while idx < n
                    invariant
                        idx <= n,
                        n == animations@.len(),
                        animations@ == orig,
                        live@ == prune_queue(orig.take(idx as int), now),
                    decreases n - idx,
                {
                    let a = animations[idx];
                    proof {
                        assert(orig.take(idx as int + 1).drop_last() =~= orig.take(idx as int));
                        assert(orig.take(idx as int + 1).last() == orig[idx as int]);
                    }
                    if !a.is_finished(now) {
                        live.push(a);
                    }
                    idx = idx + 1;
                }
                proof {
                    assert(orig.take(n as int) =~= orig);
                    lemma_prune_queue_wf(orig, now);
                }
                if live.len() == 0 {
                    let t = *to;
                    *self = AnimationStatus::Snap(t);
                } else {
                    *animations = live;
                }
            },
        }
    }
}

} // verus!
