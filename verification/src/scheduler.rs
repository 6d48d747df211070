//! The frame scheduler: a per-domain coordinator that deduplicates "next
//! frame" requests and publishes one shared tick per delivered frame.
//!
//! The engine is host-agnostic: a scheduler call returns the [`FrameAction`]
//! the host must perform (issue the native request, invoke a custom request
//! callback, or nothing), and the host reports a delivered frame back through
//! [`AnimationContext::deliver_frame`], which says whether to publish the tick
//! to the subscribed animated values.

use vstd::prelude::*;

verus! {

/// Whether a frame request is outstanding, and of which kind.
#[derive(Clone, Copy, Debug, PartialEq, Eq, Structural)]
pub enum FrameRequestState {
    /// No request is in flight.
    NoFrameRequested,
    /// A native frame request is in flight; the host holds its handle.
    FrameRequested,
    /// A custom-host frame request is in flight.
    CustomFrameRequested,
}

/// The action a scheduler call asks its host to perform.
#[derive(Clone, Copy, Debug, PartialEq, Eq, Structural)]
pub enum FrameAction {
    /// Issue the native "request animation frame" primitive.
    RequestNative,
    /// Invoke the custom frame-request callback.
    RequestCustom,
    /// Nothing: a request is already outstanding.
    NoRequest,
}

/// The scheduler coordinating one animation domain. Its single invariant:
/// never more than one native request outstanding.
#[derive(Clone, Copy, Debug, PartialEq, Eq, Structural)]
pub struct AnimationContext {
    /// Whether a frame request is outstanding.
    pub state: FrameRequestState,
    /// Whether this context drives a custom (non-native) host.
    pub custom: bool,
}

/// The scheduler after one `request_animation_frame` call: idempotent while a
/// request is outstanding.
pub open spec fn request_model(c: AnimationContext) -> AnimationContext {
    if c.state is NoFrameRequested {
        AnimationContext {
            state: if c.custom {
                FrameRequestState::CustomFrameRequested
            } else {
                FrameRequestState::FrameRequested
            },
            ..c
        }
    } else {
        c
    }
}

/// The host action one `request_animation_frame` call asks for: a real
/// request only when none is outstanding.
pub open spec fn request_action_model(c: AnimationContext) -> FrameAction {
    if c.state is NoFrameRequested {
        if c.custom {
            FrameAction::RequestCustom
        } else {
            FrameAction::RequestNative
        }
    } else {
        FrameAction::NoRequest
    }
}

/// The scheduler after a delivered frame: ready for the next request.
pub open spec fn deliver_model(c: AnimationContext) -> AnimationContext {
    AnimationContext { state: FrameRequestState::NoFrameRequested, ..c }
}

/// Whether a delivered frame publishes the tick: only when a request was
/// outstanding, so extraneous deliveries are tolerated silently.
pub open spec fn deliver_publishes(c: AnimationContext) -> bool {
    !(c.state is NoFrameRequested)
}

impl AnimationContext {
    /// A scheduler for a native host, whose frame requests go to the host's
    /// own "request animation frame" primitive.
    pub fn provide() -> (c: AnimationContext)
        ensures
            c == (AnimationContext { state: FrameRequestState::NoFrameRequested, custom: false }),
    {
        AnimationContext { state: FrameRequestState::NoFrameRequested, custom: false }
    }

    /// A scheduler for a custom host (a desktop event loop, say), whose frame
    /// requests go to a host-supplied callback; the host reports each actual
    /// redraw through [`AnimationContext::deliver_frame`].
    pub fn provide_with_custom_request_animation_frame() -> (c: AnimationContext)
        ensures
            c == (AnimationContext { state: FrameRequestState::NoFrameRequested, custom: true }),
    {
        AnimationContext { state: FrameRequestState::NoFrameRequested, custom: true }
    }

    /// Ask for a new animation frame. Repeated calls while a request is
    /// outstanding are no-ops, so at most one native request is ever in
    /// flight. The caller performs the returned action.
    pub fn request_animation_frame(&mut self) -> (action: FrameAction)
        ensures
            *final(self) == request_model(*old(self)),
            action == request_action_model(*old(self)),
    {
        match self.state {
            FrameRequestState::NoFrameRequested => {
                if self.custom {
                    self.state = FrameRequestState::CustomFrameRequested;
                    FrameAction::RequestCustom
                } else {
                    self.state = FrameRequestState::FrameRequested;
                    FrameAction::RequestNative
                }
            },
            FrameRequestState::FrameRequested => FrameAction::NoRequest,
            FrameRequestState::CustomFrameRequested => FrameAction::NoRequest,
        }
    }

    /// The host reports a delivered frame. Returns whether to publish the
    /// shared tick: exactly once per outstanding request, while extraneous
    /// deliveries (a host may redraw more often than asked) are no-ops.
    pub fn deliver_frame(&mut self) -> (publish: bool)
        ensures
            *final(self) == deliver_model(*old(self)),
            publish == deliver_publishes(*old(self)),
    {
        let outstanding = !matches!(self.state, FrameRequestState::NoFrameRequested);
        self.state = FrameRequestState::NoFrameRequested;
        outstanding
    }
}

/// The scheduler after `n` consecutive `request_animation_frame` calls.
pub open spec fn after_requests(c: AnimationContext, n: nat) -> AnimationContext
    decreases n,
{
    if n == 0 {
        c
    } else {
        request_model(after_requests(c, (n - 1) as nat))
    }
}

/// How many of `n` consecutive `request_animation_frame` calls asked the host
/// for a real frame request.
pub open spec fn issued_requests(c: AnimationContext, n: nat) -> nat
    decreases n,
{
    if n == 0 {
        0
    } else {
        issued_requests(c, (n - 1) as nat) + if request_action_model(
            after_requests(c, (n - 1) as nat),
        ) is NoRequest {
            0nat
        } else {
            1nat
        }
    }
}

/// Requesting is idempotent: any run of requests leaves the scheduler exactly
/// where the first one did.
pub proof fn lemma_requests_idempotent(c: AnimationContext, n: nat)
    requires
        n >= 1,
    ensures
        after_requests(c, n) == request_model(c),
    decreases n,
{
    if n == 1 {
        assert(after_requests(c, 0) == c);
        assert(after_requests(c, 1) == request_model(c));
    } else {
        lemma_requests_idempotent(c, (n - 1) as nat);
        assert(after_requests(c, n) == request_model(after_requests(c, (n - 1) as nat)));
    }
}

/// Law: any number of `request_animation_frame` calls before a tick makes the
/// host issue its frame request exactly once, and the following delivered
/// frame publishes exactly one tick — the delivery publishes, resets the
/// scheduler, and a second delivery without a new request publishes nothing.
pub proof fn lemma_requests_coalesce(c: AnimationContext, n: nat)
    requires
        c.state is NoFrameRequested,
        n >= 1,
    ensures
        issued_requests(c, n) == 1,
        deliver_publishes(after_requests(c, n)),
        !deliver_publishes(deliver_model(after_requests(c, n))),
    decreases n,
{
    if n == 1 {
        assert(after_requests(c, 0) == c);
        assert(issued_requests(c, 0) == 0);
        assert(issued_requests(c, 1) == 1);
        assert(after_requests(c, 1) == request_model(c));
    } else {
        lemma_requests_coalesce(c, (n - 1) as nat);
        lemma_requests_idempotent(c, (n - 1) as nat);
        assert(issued_requests(c, n) == issued_requests(c, (n - 1) as nat));
        assert(after_requests(c, n) == request_model(after_requests(c, (n - 1) as nat)));
    }
}

} // verus!
