//! The render coordinator: what happens to one request, step by step.
//!
//! A request consults the cache, and on a miss waits for admission, borrows a
//! handle, has the page rendered, returns the handle, gives up its permit and
//! stores the document. The waiting, the creation of handles and the rendering
//! are slow and happen elsewhere. So the coordinator is a transition function:
//! given the phase a request is in and the event that just happened, it updates
//! the shared state and answers with the next phase and the action that the
//! caller has to perform. The caller performs it, holding no lock meanwhile, and
//! comes back with the next event.

use vstd::prelude::*;
use crate::admission::{AdmissionGate, GateView};
use crate::cache::{CacheView, ResultCache};
use crate::config::{Config, ConfigView};
use crate::error::{classify, classify_spec, FailureClass, RenderError, RenderFailure};
use crate::fingerprint::{fingerprint_of, hash_url};
use crate::pool::ResourcePool;
use crate::store::EntryView;

verus! {

/// Where a request stands.
#[derive(Clone, Copy, Debug, PartialEq, Eq, Structural)]
pub enum Phase {
    /// New; the cache has not been consulted yet.
    CheckCache,
    /// The cache missed; the request waits for a free slot. It holds nothing.
    Admit,
    /// Admitted, no handle was idle; the request waits for a new handle. It
    /// holds a permit.
    Borrow,
    /// A handle is out rendering the page. The request holds a permit.
    Render,
    /// The document was served.
    Done,
    /// The request failed.
    Failed(RenderError),
}

impl Phase {
    /// The request occupies one slot of the admission gate.
    pub open spec fn holds_permit(self) -> bool {
        self is Borrow || self is Render
    }

    /// Nothing more will happen to the request.
    pub open spec fn is_terminal(self) -> bool {
        self is Done || self is Failed
    }
}

/// One request: the fingerprint of its target and the phase it is in.
#[derive(Clone, Copy, Debug, PartialEq, Eq, Structural)]
pub struct Request {
    pub fingerprint: u64,
    pub phase: Phase,
}

impl Request {
    /// A new request for `target`.
    pub fn new(target: &str) -> (request: Request)
        ensures
            request == (Request { fingerprint: fingerprint_of(target@), phase: Phase::CheckCache }),
    {
        Request { fingerprint: hash_url(target), phase: Phase::CheckCache }
    }

    /// Whether the request occupies a slot of the admission gate.
    pub fn holds_permit(&self) -> (held: bool)
        ensures
            held == self.phase.holds_permit(),
    {
        match self.phase {
            Phase::Borrow => true,
            Phase::Render => true,
            _ => false,
        }
    }

    /// Whether the request is over, one way or the other.
    pub fn is_terminal(&self) -> (over: bool)
        ensures
            over == self.phase.is_terminal(),
    {
        match self.phase {
            Phase::Done => true,
            Phase::Failed(_) => true,
            _ => false,
        }
    }
}

/// What happened since the last step.
#[derive(Debug, PartialEq, Eq)]
pub enum Event<H> {
    /// The request arrived; the clock shows `now`.
    Arrived { now: u64 },
    /// A slot may have become free; try again.
    SlotFreed,
    /// The backend created the handle that was asked for.
    HandleCreated { handle: H },
    /// The backend could not create a handle.
    CreationFailed,
    /// The page was rendered on `handle`; the clock shows `now`.
    Rendered { handle: H, document: String, now: u64 },
    /// Rendering on `handle` failed at the given call.
    RenderFailed { handle: H, failure: RenderFailure },
    /// The caller gave up. `held` is the handle it was holding, if any.
    Cancelled { held: Option<H> },
}

impl<H> Event<H> {
    /// The handle that the event carries, if it carries one.
    pub open spec fn handle(self) -> Option<H> {
        match self {
            Event::HandleCreated { handle } => Some(handle),
            Event::Rendered { handle, .. } => Some(handle),
            Event::RenderFailed { handle, .. } => Some(handle),
            Event::Cancelled { held } => held,
            _ => None,
        }
    }

    /// Takes the handle out of the event; the rest is dropped.
    pub fn into_handle(self) -> (handle: Option<H>)
        ensures
            handle == self.handle(),
    {
        match self {
            Event::HandleCreated { handle } => Some(handle),
            Event::Rendered { handle, .. } => Some(handle),
            Event::RenderFailed { handle, .. } => Some(handle),
            Event::Cancelled { held } => held,
            _ => None,
        }
    }
}

/// What the caller has to do next.
#[derive(Debug, PartialEq, Eq)]
pub enum Action<H> {
    /// Answer the request with this document. The request is done.
    Respond { document: String },
    /// Wait until a slot may be free, then report [`Event::SlotFreed`].
    AwaitSlot,
    /// Ask the backend for a new handle and report the result.
    CreateHandle,
    /// Render the request's target on this handle and report the result,
    /// handing the handle back with it.
    Render { handle: H },
    /// Answer the request with a failure. The request is over.
    Fail { error: RenderError },
    /// The event does not belong to the phase the request is in. Nothing was
    /// changed; the handle that came with the event is handed back.
    Rejected { returned: Option<H> },
}

/// An action with its document as plain text.
pub enum ActionView<H> {
    Respond { document: Seq<char> },
    AwaitSlot,
    CreateHandle,
    Render { handle: H },
    Fail { error: RenderError },
    Rejected { returned: Option<H> },
}

impl<H> View for Action<H> {
    type V = ActionView<H>;

    open spec fn view(&self) -> ActionView<H> {
        match *self {
            Action::Respond { document } => ActionView::Respond { document: document@ },
            Action::AwaitSlot => ActionView::AwaitSlot,
            Action::CreateHandle => ActionView::CreateHandle,
            Action::Render { handle } => ActionView::Render { handle },
            Action::Fail { error } => ActionView::Fail { error },
            Action::Rejected { returned } => ActionView::Rejected { returned },
        }
    }
}

/// What a coordinator is, mathematically: the admission counters, the idle handles
/// from the one released longest ago to the one released last, and the cache.
pub struct CoordinatorView<H> {
    pub gate: GateView,
    pub idle: Seq<H>,
    pub cache: CacheView,
}

impl<H> CoordinatorView<H> {
    /// The admission gate and the cache are within their limits.
    pub open spec fn wf(self) -> bool {
        self.gate.wf() && self.cache.wf()
    }

    /// The state a coordinator starts in: no permit out, no handle idle,
    /// nothing cached.
    pub open spec fn initial(config: ConfigView) -> CoordinatorView<H> {
        CoordinatorView {
            gate: GateView { max_concurrency: config.max_concurrency, outstanding: 0 },
            idle: Seq::empty(),
            cache: CacheView {
                entries: Seq::<EntryView>::empty(),
                capacity: config.capacity,
                ttl: config.ttl,
            },
        }
    }
}

/// The result of one step: the shared state after it, the request after it,
/// and the action handed to the caller.
pub struct Outcome<H> {
    pub coordinator: CoordinatorView<H>,
    pub request: Request,
    pub action: ActionView<H>,
}

/// A request tries to get past the admission gate. With a free slot it takes
/// a permit and borrows the handle that has been idle longest, or asks for a
/// new one if none is idle. Without a free slot it waits, holding nothing.
pub open spec fn enter_spec<H>(c: CoordinatorView<H>, request: Request) -> Outcome<H> {
    if !c.gate.has_free_slot() {
        Outcome {
            coordinator: c,
            request: Request { phase: Phase::Admit, ..request },
            action: ActionView::AwaitSlot,
        }
    } else if c.idle.len() > 0 {
        Outcome {
            coordinator: CoordinatorView { gate: c.gate.acquire(), idle: c.idle.drop_first(), ..c },
            request: Request { phase: Phase::Render, ..request },
            action: ActionView::Render { handle: c.idle.first() },
        }
    } else {
        Outcome {
            coordinator: CoordinatorView { gate: c.gate.acquire(), ..c },
            request: Request { phase: Phase::Borrow, ..request },
            action: ActionView::CreateHandle,
        }
    }
}

/// A request ends in failure. Its permit, if it holds one, is given back. The
/// handle in `returned`, if any, goes back to the pool; a handle that is not
/// in `returned` is gone for good.
pub open spec fn fail_spec<H>(
    c: CoordinatorView<H>,
    request: Request,
    returned: Option<H>,
    error: RenderError,
) -> Outcome<H> {
    Outcome {
        coordinator: CoordinatorView {
            gate: if request.phase.holds_permit() {
                c.gate.release()
            } else {
                c.gate
            },
            idle: match returned {
                Some(handle) => c.idle.push(handle),
                None => c.idle,
            },
            cache: c.cache,
        },
        request: Request { phase: Phase::Failed(error), ..request },
        action: ActionView::Fail { error },
    }
}

/// A render succeeded: the handle goes back to the pool, the permit back to
/// the admission gate, the document into the cache and to the caller.
pub open spec fn complete_spec<H>(
    c: CoordinatorView<H>,
    request: Request,
    handle: H,
    document: Seq<char>,
    now: u64,
) -> Outcome<H> {
    Outcome {
        coordinator: CoordinatorView {
            gate: c.gate.release(),
            idle: c.idle.push(handle),
            cache: c.cache.insert(request.fingerprint, document, now),
        },
        request: Request { phase: Phase::Done, ..request },
        action: ActionView::Respond { document },
    }
}

/// The handle that a failed render leaves behind: the handle itself if the
/// failure was the target's, nothing if it was the handle's.
pub open spec fn salvage<H>(handle: H, failure: RenderFailure) -> Option<H> {
    if classify_spec(failure) is TargetFatal {
        Some(handle)
    } else {
        None
    }
}

/// An event that the phase does not expect changes nothing and is answered
/// with [`Action::Rejected`].
pub open spec fn reject_spec<H>(
    c: CoordinatorView<H>,
    request: Request,
    event: Event<H>,
) -> Outcome<H> {
    Outcome { coordinator: c, request, action: ActionView::Rejected { returned: event.handle() } }
}

/// The transition function. For each phase, the events that belong to it:
///
/// * `CheckCache`: `Arrived`. A fresh cached document is served and counts as
///   used. Otherwise the request goes on to admission at once.
/// * `Admit`: `SlotFreed`. The request tries the admission gate again.
/// * `Borrow`: `HandleCreated` starts the render; `CreationFailed` ends the
///   request with `BackendUnavailable`.
/// * `Render`: `Rendered` completes the request; `RenderFailed` ends it with
///   `RenderFailed`, and the handle is kept or dropped as the policy on
///   failures says.
/// * any of these four: `Cancelled` ends the request with `Cancelled`; the
///   handle that comes with it is returned to the pool.
///
/// A request that is done or has failed accepts no event.
pub open spec fn step_spec<H>(
    c: CoordinatorView<H>,
    request: Request,
    event: Event<H>,
) -> Outcome<H> {
    match request.phase {
        Phase::CheckCache => match event {
            Event::Arrived { now } => if c.cache.hits(request.fingerprint, now) {
                Outcome {
                    coordinator: CoordinatorView {
                        cache: c.cache.after_lookup(request.fingerprint, now),
                        ..c
                    },
                    request: Request { phase: Phase::Done, ..request },
                    action: ActionView::Respond {
                        document: c.cache.lookup(request.fingerprint, now)->0,
                    },
                }
            } else {
                enter_spec(c, request)
            },
            Event::Cancelled { held } => fail_spec(c, request, held, RenderError::Cancelled),
            _ => reject_spec(c, request, event),
        },
        Phase::Admit => match event {
            Event::SlotFreed => enter_spec(c, request),
            Event::Cancelled { held } => fail_spec(c, request, held, RenderError::Cancelled),
            _ => reject_spec(c, request, event),
        },
        Phase::Borrow => match event {
            Event::HandleCreated { handle } => Outcome {
                coordinator: c,
                request: Request { phase: Phase::Render, ..request },
                action: ActionView::Render { handle },
            },
            Event::CreationFailed => fail_spec(c, request, None, RenderError::BackendUnavailable),
            Event::Cancelled { held } => fail_spec(c, request, held, RenderError::Cancelled),
            _ => reject_spec(c, request, event),
        },
        Phase::Render => match event {
            Event::Rendered { handle, document, now } => complete_spec(
                c,
                request,
                handle,
                document@,
                now,
            ),
            Event::RenderFailed { handle, failure } => fail_spec(
                c,
                request,
                salvage(handle, failure),
                RenderError::RenderFailed,
            ),
            Event::Cancelled { held } => fail_spec(c, request, held, RenderError::Cancelled),
            _ => reject_spec(c, request, event),
        },
        Phase::Done => reject_spec(c, request, event),
        Phase::Failed(_) => reject_spec(c, request, event),
    }
}

/// The shared state of the service: the admission gate, the pool of idle
/// handles and the result cache, behind one transition function.
///
/// `H` is the handle type. The coordinator moves handles about and never looks
/// inside one.
pub struct RenderCoordinator<H> {
    gate: AdmissionGate,
    pool: ResourcePool<H>,
    cache: ResultCache,
}

impl<H> View for RenderCoordinator<H> {
    type V = CoordinatorView<H>;

    closed spec fn view(&self) -> CoordinatorView<H> {
        CoordinatorView { gate: self.gate@, idle: self.pool@, cache: self.cache@ }
    }
}

impl<H> RenderCoordinator<H> {
    /// A coordinator with the given settings, in its initial state.
    pub fn new(config: &Config) -> (coordinator: Self)
        ensures
            coordinator@ == CoordinatorView::<H>::initial(config@),
            coordinator@.wf(),
    {
        let max_concurrency: usize = config.max_concurrency();
        let capacity: usize = config.capacity();
        let gate = AdmissionGate::new(max_concurrency).unwrap();
        let cache = ResultCache::new(capacity, config.ttl()).unwrap();
        RenderCoordinator { gate, pool: ResourcePool::new(), cache }
    }

    /// Takes one request one step further. `request` says where the request
    /// stands, `event` what happened. The answer is where the request stands
    /// now and what the caller has to do; the shared state is updated as
    /// [`step_spec`] says.
    pub fn step(&mut self, request: Request, event: Event<H>) -> (next: (Request, Action<H>))
        ensures
            step_spec(old(self)@, request, event) == (Outcome {
                coordinator: final(self)@,
                request: next.0,
                action: next.1@,
            }),
            final(self)@.wf(),
    {
        proof {
            use_type_invariant(&self.gate);
            use_type_invariant(&self.cache);
        }
        match request.phase {
            Phase::CheckCache => match event {
                Event::Arrived { now } => match self.cache.lookup(request.fingerprint, now) {
                    Some(document) => (
                        Request { fingerprint: request.fingerprint, phase: Phase::Done },
                        Action::Respond { document },
                    ),
                    None => self.enter(request),
                },
                Event::Cancelled { held } => self.fail(request, held, RenderError::Cancelled),
                other => (request, Action::Rejected { returned: other.into_handle() }),
            },
            Phase::Admit => match event {
                Event::SlotFreed => self.enter(request),
                Event::Cancelled { held } => self.fail(request, held, RenderError::Cancelled),
                other => (request, Action::Rejected { returned: other.into_handle() }),
            },
            Phase::Borrow => match event {
                Event::HandleCreated { handle } => (
                    Request { fingerprint: request.fingerprint, phase: Phase::Render },
                    Action::Render { handle },
                ),
                Event::CreationFailed => self.fail(request, None, RenderError::BackendUnavailable),
                Event::Cancelled { held } => self.fail(request, held, RenderError::Cancelled),
                other => (request, Action::Rejected { returned: other.into_handle() }),
            },
            Phase::Render => match event {
                Event::Rendered { handle, document, now } => {
                    self.pool.release(handle);
                    self.gate.release();
                    self.cache.insert(request.fingerprint, document.clone(), now);
                    (
                        Request { fingerprint: request.fingerprint, phase: Phase::Done },
                        Action::Respond { document },
                    )
                },
                Event::RenderFailed { handle, failure } => {
                    let returned = match classify(failure) {
                        FailureClass::TargetFatal => Some(handle),
                        FailureClass::ResourceFatal => None,
                    };
                    self.fail(request, returned, RenderError::RenderFailed)
                },
                Event::Cancelled { held } => self.fail(request, held, RenderError::Cancelled),
                other => (request, Action::Rejected { returned: other.into_handle() }),
            },
            Phase::Done => (request, Action::Rejected { returned: event.into_handle() }),
            Phase::Failed(_) => (request, Action::Rejected { returned: event.into_handle() }),
        }
    }

    /// The request tries to get past the admission gate and, if it does, to borrow a
    /// handle.
    fn enter(&mut self, request: Request) -> (next: (Request, Action<H>))
        ensures
            enter_spec(old(self)@, request) == (Outcome {
                coordinator: final(self)@,
                request: next.0,
                action: next.1@,
            }),
            final(self)@.wf(),
    {
        proof {
            use_type_invariant(&self.gate);
            use_type_invariant(&self.cache);
        }
        if !self.gate.try_acquire() {
            (Request { fingerprint: request.fingerprint, phase: Phase::Admit }, Action::AwaitSlot)
        } else {
            match self.pool.acquire() {
                Some(handle) => (
                    Request { fingerprint: request.fingerprint, phase: Phase::Render },
                    Action::Render { handle },
                ),
                None => (
                    Request { fingerprint: request.fingerprint, phase: Phase::Borrow },
                    Action::CreateHandle,
                ),
            }
        }
    }

    /// The request ends in failure: its permit is released if it holds one,
    /// and `returned` goes back to the pool.
    fn fail(&mut self, request: Request, returned: Option<H>, error: RenderError) -> (next: (
        Request,
        Action<H>,
    ))
        ensures
            fail_spec(old(self)@, request, returned, error) == (Outcome {
                coordinator: final(self)@,
                request: next.0,
                action: next.1@,
            }),
            final(self)@.wf(),
    {
        proof {
            use_type_invariant(&self.gate);
            use_type_invariant(&self.cache);
        }
        if let Some(handle) = returned {
            self.pool.release(handle);
        }
        if request.holds_permit() {
            self.gate.release();
        }
        (
            Request { fingerprint: request.fingerprint, phase: Phase::Failed(error) },
            Action::Fail { error },
        )
    }

    /// The number of permits that are out.
    pub fn outstanding(&self) -> (n: usize)
        ensures
            n == self@.gate.outstanding,
            self@.wf(),
    {
        proof {
            use_type_invariant(&self.cache);
        }
        self.gate.outstanding()
    }

    /// The configured concurrency limit.
    pub fn max_concurrency(&self) -> (n: usize)
        ensures
            n == self@.gate.max_concurrency,
            self@.wf(),
    {
        proof {
            use_type_invariant(&self.cache);
        }
        self.gate.max_concurrency()
    }

    /// The number of idle handles.
    pub fn idle_count(&self) -> (n: usize)
        ensures
            n == self@.idle.len(),
    {
        self.pool.idle_count()
    }

    /// The number of documents in the cache, stale ones included.
    pub fn cached_count(&self) -> (n: usize)
        ensures
            n == self@.cache.entries.len(),
            n <= self@.cache.capacity,
    {
        self.cache.len()
    }
}

} // verus!
