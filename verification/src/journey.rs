//! One request after the other.
//!
//! What the transition function means for whole requests that do not overlap:
//! a repeated request is answered from the cache while the document is fresh,
//! handles are reused instead of created anew, and a handle that failed on its
//! own account never comes back.

use vstd::prelude::*;
use crate::cache::{is_fresh, lemma_insert_wf};
use crate::cache_laws::lemma_served_for_ttl;
use crate::coordinator::{
    enter_spec, step_spec, ActionView, CoordinatorView, Event, Phase, Request,
};
use crate::custody::lemma_take_first;
use crate::error::{classify_spec, RenderError, RenderFailure};
use crate::system::lemma_step_keeps_wf;

verus! {

/// A new request for `fingerprint`.
pub open spec fn arrival(fingerprint: u64) -> Request {
    Request { fingerprint, phase: Phase::CheckCache }
}

/// Cache hits at the level of requests. A request is rendered and its document
/// stored at `stored_at`. A second request for the same fingerprint that
/// arrives while the document is fresh, that is before `stored_at + ttl`, is
/// answered with that document at once: no permit is taken, no handle is
/// borrowed or created. A request that arrives at `stored_at + ttl` or later
/// is not answered from the cache and goes on to admission.
pub proof fn lemma_repeat_served_from_cache<H>(
    c: CoordinatorView<H>,
    request: Request,
    handle: H,
    document: String,
    stored_at: u64,
    now: u64,
)
    requires
        c.wf(),
        request.phase is Render,
    ensures
        ({
            let after = step_spec(
                c,
                request,
                Event::Rendered { handle, document, now: stored_at },
            ).coordinator;
            let again = step_spec(after, arrival(request.fingerprint), Event::<H>::Arrived { now });
            &&& is_fresh(stored_at, now, c.cache.ttl) <==> stored_at + c.cache.ttl > now
                && c.cache.ttl > 0
            &&& is_fresh(stored_at, now, c.cache.ttl) ==> {
                &&& again.action == ActionView::<H>::Respond { document: document@ }
                &&& again.request.phase is Done
                &&& again.coordinator.gate == after.gate
                &&& again.coordinator.idle == after.idle
            }
            &&& !is_fresh(stored_at, now, c.cache.ttl) ==> {
                &&& again == enter_spec(after, arrival(request.fingerprint))
                &&& !(again.action is Respond)
                &&& again.coordinator.cache == after.cache
            }
        }),
{
    lemma_served_for_ttl(c.cache, request.fingerprint, document@, stored_at, now);
    lemma_insert_wf(c.cache, request.fingerprint, document@, stored_at);
}

/// A render that fails on the handle's account ends the request, gives the
/// permit back and leaves the idle handles as they are: the handle is not
/// among them.
pub proof fn lemma_resource_failure_drops_handle<H>(
    c: CoordinatorView<H>,
    request: Request,
    handle: H,
    failure: RenderFailure,
)
    requires
        request.phase is Render,
        classify_spec(failure) is ResourceFatal,
    ensures
        ({
            let outcome = step_spec(c, request, Event::RenderFailed { handle, failure });
            &&& outcome.coordinator.idle == c.idle
            &&& outcome.coordinator.gate == c.gate.release()
            &&& outcome.coordinator.cache == c.cache
            &&& outcome.request.phase == Phase::Failed(RenderError::RenderFailed)
            &&& outcome.action == ActionView::<H>::Fail { error: RenderError::RenderFailed }
        }),
{
}

/// A render that fails on the target's account ends the request in the same
/// way, but the handle goes back to the pool, behind all that are idle.
pub proof fn lemma_target_failure_returns_handle<H>(
    c: CoordinatorView<H>,
    request: Request,
    handle: H,
    failure: RenderFailure,
)
    requires
        request.phase is Render,
        classify_spec(failure) is TargetFatal,
    ensures
        ({
            let outcome = step_spec(c, request, Event::RenderFailed { handle, failure });
            &&& outcome.coordinator.idle == c.idle.push(handle)
            &&& outcome.coordinator.gate == c.gate.release()
            &&& outcome.coordinator.cache == c.cache
            &&& outcome.request.phase == Phase::Failed(RenderError::RenderFailed)
            &&& outcome.action == ActionView::<H>::Fail { error: RenderError::RenderFailed }
        }),
{
}

/// Quarantine of an unusable handle. A request misses the cache, is admitted
/// and borrows the handle that was idle longest; the render fails on the
/// handle's account. Then one handle fewer is idle than before, the failed
/// handle is not among them, and the permit is back. If it was the only idle
/// handle, the next request that is admitted asks for a new one.
pub proof fn lemma_unusable_handle_quarantined<H>(
    c: CoordinatorView<H>,
    fingerprint: u64,
    now: u64,
    failure: RenderFailure,
    next: Request,
)
    requires
        c.wf(),
        c.gate.has_free_slot(),
        !c.cache.hits(fingerprint, now),
        c.idle.len() > 0,
        c.idle.no_duplicates(),
        classify_spec(failure) is ResourceFatal,
    ensures
        ({
            let handle = c.idle.first();
            let borrowed = step_spec(c, arrival(fingerprint), Event::<H>::Arrived { now });
            let failed = step_spec(
                borrowed.coordinator,
                borrowed.request,
                Event::RenderFailed { handle, failure },
            );
            &&& borrowed.action == ActionView::Render { handle }
            &&& failed.request.phase == Phase::Failed(RenderError::RenderFailed)
            &&& failed.coordinator.idle == c.idle.drop_first()
            &&& failed.coordinator.idle.len() < c.idle.len()
            &&& !failed.coordinator.idle.contains(handle)
            &&& failed.coordinator.gate == c.gate
            &&& c.idle.len() == 1 ==> enter_spec(failed.coordinator, next).action
                is CreateHandle
        }),
{
    lemma_take_first(c.idle);
}

/// One request that is served from arrival to success with nothing else going
/// on: when it arrived, the handle that the backend creates if asked, the
/// document that the render yields and when it was ready.
pub struct Job<H> {
    pub fingerprint: u64,
    pub arrived: u64,
    pub fresh: H,
    pub document: String,
    pub finished: u64,
}

/// How a run of jobs ended: the coordinator after it, the number of handles
/// that were created, and whether every job was answered with a document.
pub struct Served<H> {
    pub coordinator: CoordinatorView<H>,
    pub created: nat,
    pub all_done: bool,
}

/// The coordinator renders on `handle` for a request that has just got it.
pub open spec fn render_on<H>(
    c: CoordinatorView<H>,
    request: Request,
    handle: H,
    job: Job<H>,
    created: nat,
) -> Served<H> {
    let last = step_spec(
        c,
        request,
        Event::Rendered { handle, document: job.document, now: job.finished },
    );
    Served { coordinator: last.coordinator, created, all_done: last.request.phase is Done }
}

/// Serves one job: every action that the coordinator hands out is performed
/// and succeeds, until the request is over or has to wait.
pub open spec fn serve<H>(c: CoordinatorView<H>, job: Job<H>) -> Served<H> {
    let first = step_spec(c, arrival(job.fingerprint), Event::<H>::Arrived { now: job.arrived });
    match first.action {
        ActionView::Render { handle } => render_on(
            first.coordinator,
            first.request,
            handle,
            job,
            0,
        ),
        ActionView::CreateHandle => {
            let second = step_spec(
                first.coordinator,
                first.request,
                Event::HandleCreated { handle: job.fresh },
            );
            match second.action {
                ActionView::Render { handle } => render_on(
                    second.coordinator,
                    second.request,
                    handle,
                    job,
                    1,
                ),
                _ => Served { coordinator: second.coordinator, created: 1, all_done: false },
            }
        },
        _ => Served {
            coordinator: first.coordinator,
            created: 0,
            all_done: first.request.phase is Done,
        },
    }
}

/// Serves the jobs one after the other, `jobs[0]` first.
pub open spec fn serve_all<H>(c: CoordinatorView<H>, jobs: Seq<Job<H>>) -> Served<H>
    decreases jobs.len(),
{
    if jobs.len() == 0 {
        Served { coordinator: c, created: 0, all_done: true }
    } else {
        let before = serve_all(c, jobs.drop_last());
        let last = serve(before.coordinator, jobs.last());
        Served {
            coordinator: last.coordinator,
            created: before.created + last.created,
            all_done: before.all_done && last.all_done,
        }
    }
}

/// A job served while no permit is out succeeds and leaves no permit out. It
/// creates a handle only if it misses the cache while no handle is idle, and
/// then that handle is idle afterwards. Idle handles never get fewer.
pub proof fn lemma_serve_one<H>(c: CoordinatorView<H>, job: Job<H>)
    requires
        c.wf(),
        c.gate.outstanding == 0,
    ensures
        serve(c, job).all_done,
        serve(c, job).coordinator.wf(),
        serve(c, job).coordinator.gate == c.gate,
        serve(c, job).coordinator.idle.len() >= c.idle.len(),
        serve(c, job).created == if !c.cache.hits(job.fingerprint, job.arrived) && c.idle.len()
            == 0 {
            1nat
        } else {
            0nat
        },
        serve(c, job).created == 1 ==> serve(c, job).coordinator.idle == seq![job.fresh],
{
    let first = step_spec(c, arrival(job.fingerprint), Event::<H>::Arrived { now: job.arrived });
    lemma_step_keeps_wf(c, arrival(job.fingerprint), Event::<H>::Arrived { now: job.arrived });
    match first.action {
        ActionView::Render { handle } => {
            lemma_step_keeps_wf(
                first.coordinator,
                first.request,
                Event::Rendered { handle, document: job.document, now: job.finished },
            );
        },
        ActionView::CreateHandle => {
            let second = step_spec(
                first.coordinator,
                first.request,
                Event::HandleCreated { handle: job.fresh },
            );
            lemma_step_keeps_wf(
                second.coordinator,
                second.request,
                Event::Rendered { handle: job.fresh, document: job.document, now: job.finished },
            );
        },
        _ => {},
    }
}

/// Pool reuse. Any number of requests served one after the other, starting
/// with no permit out, all succeed, and between them at most one handle is
/// created: none at all if a handle was idle at the start. So the number of
/// handles created is within the concurrency limit however many requests
/// there are.
pub proof fn lemma_sequential_requests_reuse<H>(c: CoordinatorView<H>, jobs: Seq<Job<H>>)
    requires
        c.wf(),
        c.gate.outstanding == 0,
    ensures
        serve_all(c, jobs).all_done,
        serve_all(c, jobs).coordinator.wf(),
        serve_all(c, jobs).coordinator.gate == c.gate,
        serve_all(c, jobs).created <= 1,
        serve_all(c, jobs).created <= c.gate.max_concurrency,
        c.idle.len() > 0 ==> serve_all(c, jobs).created == 0,
        serve_all(c, jobs).created == 1 ==> serve_all(c, jobs).coordinator.idle.len() > 0,
        serve_all(c, jobs).coordinator.idle.len() >= c.idle.len(),
    decreases jobs.len(),
{
    if jobs.len() > 0 {
        lemma_sequential_requests_reuse(c, jobs.drop_last());
        lemma_serve_one(serve_all(c, jobs.drop_last()).coordinator, jobs.last());
    }
}

} // verus!
