//! Many requests at once.
//!
//! The coordinator's transition function speaks of one request. This module
//! puts any number of requests beside one coordinator, lets events reach them
//! in any order, and proves what holds of every such run: no more requests
//! render at once than the concurrency limit allows, and every permit that is
//! taken is given back exactly once.

use vstd::prelude::*;
use crate::cache::{index_of, lemma_insert_wf, lemma_moved_to_front_wf};
use crate::config::ConfigView;
use crate::coordinator::{step_spec, CoordinatorView, Event, Phase, Request};

verus! {

/// The number of requests that hold a permit.
pub open spec fn permits_held(requests: Seq<Request>) -> nat
    decreases requests.len(),
{
    if requests.len() == 0 {
        0
    } else {
        permits_held(requests.drop_last()) + if requests.last().phase.holds_permit() {
            1nat
        } else {
            0nat
        }
    }
}

/// The number of requests whose page is being rendered.
pub open spec fn rendering(requests: Seq<Request>) -> nat
    decreases requests.len(),
{
    if requests.len() == 0 {
        0
    } else {
        rendering(requests.drop_last()) + if requests.last().phase is Render {
            1nat
        } else {
            0nat
        }
    }
}

/// Every request is new.
pub open spec fn all_new(requests: Seq<Request>) -> bool {
    forall|i: int| 0 <= i < requests.len() ==> (#[trigger] requests[i]).phase is CheckCache
}

/// Every request is over: done, or failed for whatever reason.
pub open spec fn all_over(requests: Seq<Request>) -> bool {
    forall|i: int| 0 <= i < requests.len() ==> (#[trigger] requests[i]).phase.is_terminal()
}

/// A coordinator and the requests that it serves.
pub struct SystemView<H> {
    pub coordinator: CoordinatorView<H>,
    pub requests: Seq<Request>,
}

impl<H> SystemView<H> {
    /// A coordinator in its initial state, and one new request for each of the
    /// fingerprints.
    pub open spec fn initial(config: ConfigView, fingerprints: Seq<u64>) -> SystemView<H> {
        SystemView {
            coordinator: CoordinatorView::initial(config),
            requests: Seq::new(
                fingerprints.len(),
                |i: int| Request { fingerprint: fingerprints[i], phase: Phase::CheckCache },
            ),
        }
    }

    /// The coordinator is within its limits, and its count of permits that are
    /// out is the number of requests that hold one.
    pub open spec fn consistent(self) -> bool {
        self.coordinator.wf() && self.coordinator.gate.outstanding == permits_held(self.requests)
    }

    /// The system after `event` reached the request at position `target`. An
    /// event for a request that does not exist changes nothing.
    pub open spec fn deliver(self, target: int, event: Event<H>) -> SystemView<H> {
        if 0 <= target < self.requests.len() {
            let outcome = step_spec(self.coordinator, self.requests[target], event);
            SystemView {
                coordinator: outcome.coordinator,
                requests: self.requests.update(target, outcome.request),
            }
        } else {
            self
        }
    }

    /// The system after the events of `schedule` were delivered in order, each
    /// to the request whose position stands beside it.
    pub open spec fn run(self, schedule: Seq<(int, Event<H>)>) -> SystemView<H>
        decreases schedule.len(),
    {
        if schedule.len() == 0 {
            self
        } else {
            self.run(schedule.drop_last()).deliver(schedule.last().0, schedule.last().1)
        }
    }

    /// Delivering `event` to `target` takes a permit.
    pub open spec fn takes_permit(self, target: int, event: Event<H>) -> bool {
        self.deliver(target, event).coordinator.gate.outstanding > self.coordinator.gate.outstanding
    }

    /// Delivering `event` to `target` gives a permit back.
    pub open spec fn returns_permit(self, target: int, event: Event<H>) -> bool {
        self.deliver(target, event).coordinator.gate.outstanding < self.coordinator.gate.outstanding
    }

    /// The number of permits taken in the course of `schedule`.
    pub open spec fn acquires(self, schedule: Seq<(int, Event<H>)>) -> nat
        decreases schedule.len(),
    {
        if schedule.len() == 0 {
            0
        } else {
            self.acquires(schedule.drop_last()) + if self.run(schedule.drop_last()).takes_permit(
                schedule.last().0,
                schedule.last().1,
            ) {
                1nat
            } else {
                0nat
            }
        }
    }

    /// The number of permits given back in the course of `schedule`.
    pub open spec fn releases(self, schedule: Seq<(int, Event<H>)>) -> nat
        decreases schedule.len(),
    {
        if schedule.len() == 0 {
            0
        } else {
            self.releases(schedule.drop_last()) + if self.run(
                schedule.drop_last(),
            ).returns_permit(schedule.last().0, schedule.last().1) {
                1nat
            } else {
                0nat
            }
        }
    }
}

/// Replacing one request changes the number of permits held by what the old
/// request held and the new one holds.
pub proof fn lemma_permits_held_update(requests: Seq<Request>, i: int, request: Request)
    requires
        0 <= i < requests.len(),
    ensures
        permits_held(requests.update(i, request)) + (if requests[i].phase.holds_permit() {
            1int
        } else {
            0int
        }) == permits_held(requests) + (if request.phase.holds_permit() {
            1int
        } else {
            0int
        }),
    decreases requests.len(),
{
    let updated = requests.update(i, request);
    if i == requests.len() - 1 {
        assert(updated.drop_last() =~= requests.drop_last());
    } else {
        assert(updated.drop_last() =~= requests.drop_last().update(i, request));
        lemma_permits_held_update(requests.drop_last(), i, request);
    }
}

/// Every render holds a permit, so there are no more renders than permits
/// held.
pub proof fn lemma_rendering_within_permits(requests: Seq<Request>)
    ensures
        rendering(requests) <= permits_held(requests),
    decreases requests.len(),
{
    if requests.len() > 0 {
        lemma_rendering_within_permits(requests.drop_last());
    }
}

/// Requests that are all new, or all over, hold no permit.
pub proof fn lemma_idle_requests_hold_nothing(requests: Seq<Request>)
    requires
        all_new(requests) || all_over(requests),
    ensures
        permits_held(requests) == 0,
    decreases requests.len(),
{
    if requests.len() > 0 {
        let head = requests.drop_last();
        assert forall|i: int| 0 <= i < head.len() implies (#[trigger] head[i]) == requests[i] by {}
        lemma_idle_requests_hold_nothing(head);
    }
}

/// One step keeps the coordinator within its limits and leaves its settings
/// alone.
pub proof fn lemma_step_keeps_wf<H>(c: CoordinatorView<H>, request: Request, event: Event<H>)
    requires
        c.wf(),
    ensures
        step_spec(c, request, event).coordinator.wf(),
        step_spec(c, request, event).coordinator.gate.max_concurrency == c.gate.max_concurrency,
        step_spec(c, request, event).coordinator.cache.capacity == c.cache.capacity,
        step_spec(c, request, event).coordinator.cache.ttl == c.cache.ttl,
        step_spec(c, request, event).request.fingerprint == request.fingerprint,
{
    match request.phase {
        Phase::CheckCache => match event {
            Event::Arrived { now } => {
                if c.cache.hits(request.fingerprint, now) {
                    lemma_moved_to_front_wf(
                        c.cache.entries,
                        index_of(c.cache.entries, request.fingerprint),
                    );
                }
            },
            _ => {},
        },
        Phase::Render => match event {
            Event::Rendered { handle, document, now } => {
                lemma_insert_wf(c.cache, request.fingerprint, document@, now);
            },
            _ => {},
        },
        _ => {},
    }
}

/// One step changes the count of permits that are out by exactly what the
/// request gains or gives up, provided that a request which holds a permit is
/// counted. No step both takes and gives back.
pub proof fn lemma_step_accounts_for_permit<H>(
    c: CoordinatorView<H>,
    request: Request,
    event: Event<H>,
)
    requires
        c.gate.wf(),
        request.phase.holds_permit() ==> c.gate.outstanding >= 1,
    ensures
        step_spec(c, request, event).coordinator.gate.outstanding + (
        if request.phase.holds_permit() {
            1int
        } else {
            0int
        }) == c.gate.outstanding + (if step_spec(c, request, event).request.phase.holds_permit() {
            1int
        } else {
            0int
        }),
        request.phase.is_terminal() ==> step_spec(c, request, event).request == request,
{
}

/// A consistent system stays consistent, whatever event reaches whatever
/// request.
pub proof fn lemma_deliver_keeps_consistent<H>(s: SystemView<H>, target: int, event: Event<H>)
    requires
        s.consistent(),
    ensures
        s.deliver(target, event).consistent(),
        s.deliver(target, event).coordinator.gate.max_concurrency
            == s.coordinator.gate.max_concurrency,
        s.deliver(target, event).requests.len() == s.requests.len(),
{
    if 0 <= target < s.requests.len() {
        let request = s.requests[target];
        let outcome = step_spec(s.coordinator, request, event);
        lemma_step_keeps_wf(s.coordinator, request, event);
        lemma_permits_held_update(s.requests, target, outcome.request);
        if request.phase.holds_permit() {
            // The request is counted among the holders, so a permit is out.
            lemma_permits_held_update(
                s.requests,
                target,
                Request { phase: Phase::Done, ..request },
            );
        }
        lemma_step_accounts_for_permit(s.coordinator, request, event);
    }
}

/// A consistent system stays consistent through every schedule.
pub proof fn lemma_run_keeps_consistent<H>(s: SystemView<H>, schedule: Seq<(int, Event<H>)>)
    requires
        s.consistent(),
    ensures
        s.run(schedule).consistent(),
        s.run(schedule).coordinator.gate.max_concurrency == s.coordinator.gate.max_concurrency,
        s.run(schedule).requests.len() == s.requests.len(),
    decreases schedule.len(),
{
    if schedule.len() > 0 {
        lemma_run_keeps_consistent(s, schedule.drop_last());
        lemma_deliver_keeps_consistent(
            s.run(schedule.drop_last()),
            schedule.last().0,
            schedule.last().1,
        );
    }
}

/// A system that starts with a fresh coordinator and new requests is
/// consistent.
pub proof fn lemma_initial_consistent<H>(config: ConfigView, fingerprints: Seq<u64>)
    requires
        config.wf(),
    ensures
        SystemView::<H>::initial(config, fingerprints).consistent(),
        all_new(SystemView::<H>::initial(config, fingerprints).requests),
{
    let s = SystemView::<H>::initial(config, fingerprints);
    lemma_idle_requests_hold_nothing(s.requests);
}

/// The concurrency bound. Whatever the requests and in whatever order events
/// reach them, the number of pages being rendered at once never exceeds the
/// concurrency limit, and neither does the number of permits that are out.
pub proof fn lemma_concurrency_bound<H>(s: SystemView<H>, schedule: Seq<(int, Event<H>)>)
    requires
        s.consistent(),
    ensures
        rendering(s.run(schedule).requests) <= s.coordinator.gate.max_concurrency,
        permits_held(s.run(schedule).requests) <= s.coordinator.gate.max_concurrency,
        s.run(schedule).coordinator.gate.outstanding <= s.coordinator.gate.max_concurrency,
{
    lemma_run_keeps_consistent(s, schedule);
    lemma_rendering_within_permits(s.run(schedule).requests);
}

/// The ledger of permits. Over any schedule, the permits that are out at the
/// end are those that were out at the start, plus those taken, minus those
/// given back.
pub proof fn lemma_permit_ledger<H>(s: SystemView<H>, schedule: Seq<(int, Event<H>)>)
    ensures
        s.run(schedule).coordinator.gate.outstanding + s.releases(schedule)
            == s.coordinator.gate.outstanding + s.acquires(schedule),
    decreases schedule.len(),
{
    if schedule.len() > 0 {
        lemma_permit_ledger(s, schedule.drop_last());
        let before = s.run(schedule.drop_last());
        let target = schedule.last().0;
        let event = schedule.last().1;
        if 0 <= target < before.requests.len() {
            lemma_step_moves_one_permit(before.coordinator, before.requests[target], event);
        }
    }
}

/// One step moves the count of permits that are out by at most one.
pub proof fn lemma_step_moves_one_permit<H>(
    c: CoordinatorView<H>,
    request: Request,
    event: Event<H>,
)
    ensures
        c.gate.outstanding - 1 <= step_spec(c, request, event).coordinator.gate.outstanding
            <= c.gate.outstanding + 1,
{
}

/// Permit conservation. Start with requests that hold nothing; deliver events
/// in any order; once every request is over, be it done, failed or cancelled,
/// exactly as many permits were given back as were taken, and none is out.
pub proof fn lemma_permits_conserved<H>(s: SystemView<H>, schedule: Seq<(int, Event<H>)>)
    requires
        s.consistent(),
        permits_held(s.requests) == 0,
        all_over(s.run(schedule).requests),
    ensures
        s.acquires(schedule) == s.releases(schedule),
        s.run(schedule).coordinator.gate.outstanding == 0,
{
    lemma_run_keeps_consistent(s, schedule);
    lemma_idle_requests_hold_nothing(s.run(schedule).requests);
    lemma_permit_ledger(s, schedule);
}

/// No permit is given back twice: in a consistent system, a request that
/// holds a permit finds it out when it gives it back, and a request that is
/// over holds none and is never stepped again.
pub proof fn lemma_no_double_release<H>(s: SystemView<H>, target: int, event: Event<H>)
    requires
        s.consistent(),
        0 <= target < s.requests.len(),
    ensures
        s.requests[target].phase.holds_permit() ==> s.coordinator.gate.outstanding >= 1,
        s.returns_permit(target, event) ==> s.requests[target].phase.holds_permit() && !s.deliver(
            target,
            event,
        ).requests[target].phase.holds_permit(),
        s.requests[target].phase.is_terminal() ==> s.deliver(target, event) == s,
{
    let request = s.requests[target];
    if request.phase.holds_permit() {
        lemma_permits_held_update(s.requests, target, Request { phase: Phase::Done, ..request });
    }
    lemma_step_accounts_for_permit(s.coordinator, request, event);
    if request.phase.is_terminal() {
        assert(s.requests.update(target, request) =~= s.requests);
    }
}

} // verus!
