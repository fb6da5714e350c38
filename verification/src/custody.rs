//! Who has which handle.
//!
//! A handle is idle in the pool, or in the hands of exactly one request that
//! is rendering, or gone. This module follows the handles through any run of
//! any number of requests and proves that no handle is ever in two places.
//!
//! The coordinator cannot know what a caller does with a handle while it is
//! out. The proof therefore speaks of callers that give back the handle they
//! were given, and that report as newly created only handles that are new.

use vstd::prelude::*;
use crate::coordinator::{step_spec, ActionView, Event};
use crate::system::SystemView;

verus! {

/// A system of requests together with the handle that each request has in
/// hand, if any.
pub struct Custody<H> {
    pub system: SystemView<H>,
    pub in_hand: Seq<Option<H>>,
}

impl<H> Custody<H> {
    /// The idle handles.
    pub open spec fn idle(self) -> Seq<H> {
        self.system.coordinator.idle
    }

    /// The handle is neither idle nor in any request's hands.
    pub open spec fn is_new(self, handle: H) -> bool {
        &&& !self.idle().contains(handle)
        &&& forall|i: int| 0 <= i < self.in_hand.len() ==> self.in_hand[i] != Some(handle)
    }

    /// No handle is in two places: the idle handles are distinct, a handle in
    /// a request's hands is not idle and in no other request's hands, and the
    /// requests with a handle in hand are exactly those that are rendering.
    pub open spec fn exclusive(self) -> bool {
        &&& self.in_hand.len() == self.system.requests.len()
        &&& self.idle().no_duplicates()
        &&& forall|i: int|
            0 <= i < self.in_hand.len() ==> ((#[trigger] self.in_hand[i]) is Some
                <==> self.system.requests[i].phase is Render)
        &&& forall|i: int|
            0 <= i < self.in_hand.len() && (#[trigger] self.in_hand[i]) is Some
                ==> !self.idle().contains(self.in_hand[i]->0)
        &&& forall|i: int, j: int|
            0 <= i < j < self.in_hand.len() && (#[trigger] self.in_hand[i]) is Some
                ==> self.in_hand[i] != #[trigger] self.in_hand[j]
    }

    /// The caller plays by the rules when it delivers `event` to `target`: a
    /// request that is rendering gives back, if anything, the handle it has in
    /// hand; any other request brings, if anything, a handle that is new.
    pub open spec fn faithful(self, target: int, event: Event<H>) -> bool {
        0 <= target < self.in_hand.len() ==> match event.handle() {
            None => true,
            Some(handle) => if self.system.requests[target].phase is Render {
                self.in_hand[target] == Some(handle)
            } else {
                self.is_new(handle)
            },
        }
    }

    /// The state after `event` reached the request at `target`. The request has
    /// a handle in hand exactly if it was just told to render on one; an event
    /// that is rejected leaves everything as it is.
    pub open spec fn deliver(self, target: int, event: Event<H>) -> Custody<H> {
        if 0 <= target < self.system.requests.len() && target < self.in_hand.len() {
            let outcome = step_spec(self.system.coordinator, self.system.requests[target], event);
            Custody {
                system: self.system.deliver(target, event),
                in_hand: self.in_hand.update(
                    target,
                    match outcome.action {
                        ActionView::Render { handle } => Some(handle),
                        ActionView::Rejected { .. } => self.in_hand[target],
                        _ => None,
                    },
                ),
            }
        } else {
            self
        }
    }

    /// The state after the events of `schedule` were delivered in order.
    pub open spec fn run(self, schedule: Seq<(int, Event<H>)>) -> Custody<H>
        decreases schedule.len(),
    {
        if schedule.len() == 0 {
            self
        } else {
            self.run(schedule.drop_last()).deliver(schedule.last().0, schedule.last().1)
        }
    }

    /// The caller plays by the rules at every step of `schedule`.
    pub open spec fn faithful_throughout(self, schedule: Seq<(int, Event<H>)>) -> bool
        decreases schedule.len(),
    {
        schedule.len() > 0 ==> self.faithful_throughout(schedule.drop_last()) && self.run(
            schedule.drop_last(),
        ).faithful(schedule.last().0, schedule.last().1)
    }
}

/// Taking the first of distinct handles leaves the others distinct, and the
/// one taken is not among them.
pub proof fn lemma_take_first<H>(idle: Seq<H>)
    requires
        idle.no_duplicates(),
        idle.len() > 0,
    ensures
        idle.drop_first().no_duplicates(),
        !idle.drop_first().contains(idle.first()),
        forall|handle: H| idle.drop_first().contains(handle) ==> idle.contains(handle),
{
}

/// Putting a handle that is not idle behind distinct idle handles leaves them
/// distinct, and adds no handle but that one.
pub proof fn lemma_put_back<H>(idle: Seq<H>, handle: H)
    requires
        idle.no_duplicates(),
        !idle.contains(handle),
    ensures
        idle.push(handle).no_duplicates(),
        forall|other: H|
            idle.push(handle).contains(other) ==> other == handle || idle.contains(other),
{
}

/// One step of a caller that plays by the rules keeps every handle in one
/// place.
pub proof fn lemma_deliver_keeps_exclusive<H>(s: Custody<H>, target: int, event: Event<H>)
    requires
        s.exclusive(),
        s.faithful(target, event),
    ensures
        s.deliver(target, event).exclusive(),
{
    if 0 <= target < s.system.requests.len() {
        // A step takes the first idle handle, puts one back behind the
        // others, or leaves the idle handles alone.
        if s.idle().len() > 0 {
            lemma_take_first(s.idle());
        }
        if event.handle() is Some && !s.idle().contains(event.handle()->0) {
            lemma_put_back(s.idle(), event.handle()->0);
        }
    }
}

/// Exclusive custody. Start with every handle in one place; let events reach
/// the requests in any order, from a caller that plays by the rules. Then
/// every handle is in one place at the end: idle, or in the hands of exactly
/// one request that is rendering, never both.
pub proof fn lemma_run_keeps_exclusive<H>(s: Custody<H>, schedule: Seq<(int, Event<H>)>)
    requires
        s.exclusive(),
        s.faithful_throughout(schedule),
    ensures
        s.run(schedule).exclusive(),
    decreases schedule.len(),
{
    if schedule.len() > 0 {
        lemma_run_keeps_exclusive(s, schedule.drop_last());
        lemma_deliver_keeps_exclusive(
            s.run(schedule.drop_last()),
            schedule.last().0,
            schedule.last().1,
        );
    }
}

/// New requests beside a coordinator whose idle handles are distinct have
/// every handle in one place.
pub proof fn lemma_new_requests_exclusive<H>(system: SystemView<H>)
    requires
        system.coordinator.idle.no_duplicates(),
        forall|i: int|
            0 <= i < system.requests.len() ==> !((#[trigger] system.requests[i]).phase is Render),
    ensures
        (Custody {
            system,
            in_hand: Seq::new(system.requests.len(), |i: int| None::<H>),
        }).exclusive(),
{
}

} // verus!
