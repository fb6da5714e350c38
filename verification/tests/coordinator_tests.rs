use render_pool::config::Config;
use render_pool::coordinator::{Action, Event, Phase, RenderCoordinator, Request};
use render_pool::error::{RenderError, RenderFailure};
use render_pool::fingerprint::hash_url;

fn coordinator(max: usize, capacity: usize, ttl: u64) -> RenderCoordinator<u32> {
    RenderCoordinator::new(&Config::new(max, capacity, ttl).unwrap())
}

fn fresh(fingerprint: u64) -> Request {
    Request { fingerprint, phase: Phase::CheckCache }
}

fn at(fingerprint: u64, phase: Phase) -> Request {
    Request { fingerprint, phase }
}

/// Serves one request to success, creating `new_handle` if the coordinator
/// asks for one. Returns the document and the number of backend calls made
/// (creations, renders).
fn serve(
    c: &mut RenderCoordinator<u32>,
    fingerprint: u64,
    arrived: u64,
    new_handle: u32,
    document: &str,
    finished: u64,
) -> (String, u32, u32) {
    let mut created = 0;
    let mut rendered = 0;
    let (mut request, mut action) = c.step(fresh(fingerprint), Event::Arrived { now: arrived });
    loop {
        let event = match action {
            Action::Respond { document } => {
                assert_eq!(request.phase, Phase::Done);
                return (document, created, rendered);
            }
            Action::CreateHandle => {
                created += 1;
                Event::HandleCreated { handle: new_handle }
            }
            Action::Render { handle } => {
                rendered += 1;
                Event::Rendered { handle, document: String::from(document), now: finished }
            }
            other => panic!("unexpected action {:?}", other),
        };
        let next = c.step(request, event);
        request = next.0;
        action = next.1;
    }
}

#[test]
fn new_coordinator_is_idle() {
    let c = coordinator(3, 10, 100);
    assert_eq!(c.outstanding(), 0);
    assert_eq!(c.max_concurrency(), 3);
    assert_eq!(c.idle_count(), 0);
    assert_eq!(c.cached_count(), 0);
}

#[test]
fn new_request_starts_at_the_cache_with_the_hash_of_its_target() {
    let r = Request::new("https://example.test/a");
    assert_eq!(r.phase, Phase::CheckCache);
    assert_eq!(r.fingerprint, hash_url("https://example.test/a"));
    assert!(!r.holds_permit());
    assert!(!r.is_terminal());
}

#[test]
fn phases_that_hold_a_permit() {
    assert!(!at(1, Phase::CheckCache).holds_permit());
    assert!(!at(1, Phase::Admit).holds_permit());
    assert!(at(1, Phase::Borrow).holds_permit());
    assert!(at(1, Phase::Render).holds_permit());
    assert!(!at(1, Phase::Done).holds_permit());
    assert!(!at(1, Phase::Failed(RenderError::Cancelled)).holds_permit());
}

#[test]
fn terminal_phases() {
    assert!(at(1, Phase::Done).is_terminal());
    assert!(at(1, Phase::Failed(RenderError::RenderFailed)).is_terminal());
    assert!(!at(1, Phase::Render).is_terminal());
    assert!(!at(1, Phase::Admit).is_terminal());
}

#[test]
fn miss_with_empty_pool_asks_for_a_handle() {
    let mut c = coordinator(2, 10, 100);
    let (r, a) = c.step(fresh(5), Event::Arrived { now: 0 });
    assert_eq!(r, at(5, Phase::Borrow));
    assert_eq!(a, Action::CreateHandle);
    assert_eq!(c.outstanding(), 1);
}

#[test]
fn created_handle_goes_to_render() {
    let mut c = coordinator(2, 10, 100);
    let (r, _) = c.step(fresh(5), Event::Arrived { now: 0 });
    let (r, a) = c.step(r, Event::HandleCreated { handle: 41 });
    assert_eq!(r, at(5, Phase::Render));
    assert_eq!(a, Action::Render { handle: 41 });
    assert_eq!(c.outstanding(), 1);
    assert_eq!(c.idle_count(), 0);
}

#[test]
fn success_returns_handle_permit_and_stores_document() {
    let mut c = coordinator(2, 10, 100);
    let (r, _) = c.step(fresh(5), Event::Arrived { now: 0 });
    let (r, _) = c.step(r, Event::HandleCreated { handle: 41 });
    let (r, a) =
        c.step(r, Event::Rendered { handle: 41, document: String::from("<p>x</p>"), now: 7 });
    assert_eq!(r, at(5, Phase::Done));
    assert_eq!(a, Action::Respond { document: String::from("<p>x</p>") });
    assert_eq!(c.outstanding(), 0);
    assert_eq!(c.idle_count(), 1);
    assert_eq!(c.cached_count(), 1);
}

#[test]
fn creation_failure_is_backend_unavailable_and_releases_the_permit() {
    let mut c = coordinator(1, 10, 100);
    let (r, _) = c.step(fresh(5), Event::Arrived { now: 0 });
    assert_eq!(c.outstanding(), 1);
    let (r, a) = c.step(r, Event::CreationFailed);
    assert_eq!(r, at(5, Phase::Failed(RenderError::BackendUnavailable)));
    assert_eq!(a, Action::Fail { error: RenderError::BackendUnavailable });
    assert_eq!(c.outstanding(), 0);
    assert_eq!(c.idle_count(), 0);
    assert_eq!(c.cached_count(), 0);
}

#[test]
fn full_limiter_makes_the_request_wait_without_a_permit() {
    let mut c = coordinator(1, 10, 100);
    let (first, _) = c.step(fresh(1), Event::Arrived { now: 0 });
    let (second, a) = c.step(fresh(2), Event::Arrived { now: 0 });
    assert_eq!(second, at(2, Phase::Admit));
    assert_eq!(a, Action::AwaitSlot);
    assert_eq!(c.outstanding(), 1);
    // Still no slot: waits again.
    let (second, a) = c.step(second, Event::SlotFreed);
    assert_eq!(second, at(2, Phase::Admit));
    assert_eq!(a, Action::AwaitSlot);
    // The first request fails to get a handle; the slot is free again.
    let _ = c.step(first, Event::CreationFailed);
    let (second, a) = c.step(second, Event::SlotFreed);
    assert_eq!(second, at(2, Phase::Borrow));
    assert_eq!(a, Action::CreateHandle);
    assert_eq!(c.outstanding(), 1);
}

#[test]
fn idle_handle_is_reused_oldest_first() {
    let mut c = coordinator(2, 10, 0);
    // Two overlapping requests create two handles and return them 12, then 11.
    let (a, _) = c.step(fresh(1), Event::Arrived { now: 0 });
    let (b, _) = c.step(fresh(2), Event::Arrived { now: 0 });
    let (a, _) = c.step(a, Event::HandleCreated { handle: 11 });
    let (b, _) = c.step(b, Event::HandleCreated { handle: 12 });
    let _ = c.step(b, Event::Rendered { handle: 12, document: String::from("b"), now: 1 });
    let _ = c.step(a, Event::Rendered { handle: 11, document: String::from("a"), now: 2 });
    assert_eq!(c.idle_count(), 2);
    let (r, act) = c.step(fresh(3), Event::Arrived { now: 3 });
    assert_eq!(r, at(3, Phase::Render));
    assert_eq!(act, Action::Render { handle: 12 });
    let (_, act) = c.step(fresh(4), Event::Arrived { now: 3 });
    assert_eq!(act, Action::Render { handle: 11 });
    assert_eq!(c.idle_count(), 0);
}

#[test]
fn hit_is_served_without_permit_or_handle() {
    let mut c = coordinator(1, 10, 100);
    serve(&mut c, 9, 0, 1, "doc", 10);
    // Occupy the only slot with another request.
    let (_, a) = c.step(fresh(8), Event::Arrived { now: 20 });
    assert_eq!(a, Action::Render { handle: 1 });
    assert_eq!(c.outstanding(), 1);
    // The repeat is still answered at once.
    let (r, a) = c.step(fresh(9), Event::Arrived { now: 20 });
    assert_eq!(r, at(9, Phase::Done));
    assert_eq!(a, Action::Respond { document: String::from("doc") });
    assert_eq!(c.outstanding(), 1);
}

#[test]
fn repeat_request_hits_until_ttl_then_renders_again() {
    let ttl = 1000;
    let t0 = 500;
    let mut c = coordinator(1, 10, ttl);
    let (d, created, rendered) = serve(&mut c, 9, 400, 1, "v1", t0);
    assert_eq!((d.as_str(), created, rendered), ("v1", 1, 1));
    let (d, created, rendered) = serve(&mut c, 9, t0 + ttl - 1, 2, "v2", t0 + ttl);
    assert_eq!((d.as_str(), created, rendered), ("v1", 0, 0));
    let (d, created, rendered) = serve(&mut c, 9, t0 + ttl + 1, 2, "v3", t0 + ttl + 5);
    assert_eq!((d.as_str(), created, rendered), ("v3", 0, 1));
    let (d, created, rendered) = serve(&mut c, 9, t0 + ttl + 6, 2, "v4", t0 + ttl + 9);
    assert_eq!((d.as_str(), created, rendered), ("v3", 0, 0));
}

#[test]
fn request_at_exactly_ttl_misses() {
    let mut c = coordinator(1, 10, 1000);
    serve(&mut c, 9, 0, 1, "v1", 500);
    let (d, _, rendered) = serve(&mut c, 9, 1500, 2, "v2", 1600);
    assert_eq!((d.as_str(), rendered), ("v2", 1));
}

#[test]
fn zero_ttl_renders_every_time() {
    let mut c = coordinator(1, 10, 0);
    let (_, created, rendered) = serve(&mut c, 9, 0, 1, "a", 0);
    assert_eq!((created, rendered), (1, 1));
    let (d, created, rendered) = serve(&mut c, 9, 0, 2, "b", 0);
    assert_eq!((d.as_str(), created, rendered), ("b", 0, 1));
}

#[test]
fn end_to_end_scenario() {
    let mut c = coordinator(1, 10, 60_000);
    let target = "https://example.test/a";
    let request = Request::new(target);
    let mut backend_calls = 0;

    let (request, action) = c.step(request, Event::Arrived { now: 0 });
    assert_eq!(action, Action::CreateHandle);
    backend_calls += 1;
    let (request, action) = c.step(request, Event::HandleCreated { handle: 1 });
    assert_eq!(action, Action::Render { handle: 1 });
    backend_calls += 1;
    // The render takes 100 ms.
    let (request, action) = c.step(
        request,
        Event::Rendered { handle: 1, document: String::from("<html>A</html>"), now: 100 },
    );
    assert_eq!(action, Action::Respond { document: String::from("<html>A</html>") });
    assert!(request.is_terminal());
    assert_eq!(backend_calls, 2);

    // A second identical request within 60 s.
    let again = Request::new(target);
    let (again, action) = c.step(again, Event::Arrived { now: 59_000 });
    assert_eq!(action, Action::Respond { document: String::from("<html>A</html>") });
    assert_eq!(again.phase, Phase::Done);
    assert_eq!(backend_calls, 2);
    assert_eq!(c.outstanding(), 0);
}

#[test]
fn sequential_requests_create_one_handle() {
    let max = 4;
    let mut c = coordinator(max, 10, 0);
    let mut created = 0;
    for i in 0..(max as u64) {
        let (doc, made, rendered) = serve(&mut c, i, i, 100 + i as u32, "d", i);
        assert_eq!(doc, "d");
        assert_eq!(rendered, 1);
        created += made;
        assert_eq!(c.outstanding(), 0);
    }
    assert_eq!(created, 1);
    assert!(created as usize <= max);
    assert_eq!(c.idle_count(), 1);
}

#[test]
fn resource_failure_discards_the_handle() {
    for failure in [RenderFailure::NavigationTimeout, RenderFailure::Extraction] {
        let mut c = coordinator(2, 10, 0);
        serve(&mut c, 1, 0, 1, "a", 0);
        assert_eq!(c.idle_count(), 1);
        let (r, a) = c.step(fresh(2), Event::Arrived { now: 1 });
        assert_eq!(a, Action::Render { handle: 1 });
        let (r, a) = c.step(r, Event::RenderFailed { handle: 1, failure });
        assert_eq!(r, at(2, Phase::Failed(RenderError::RenderFailed)));
        assert_eq!(a, Action::Fail { error: RenderError::RenderFailed });
        assert_eq!(c.idle_count(), 0);
        assert_eq!(c.outstanding(), 0);
        assert_eq!(c.cached_count(), 1);
        // The next request does not get the failed handle: a new one is made.
        let (_, a) = c.step(fresh(3), Event::Arrived { now: 2 });
        assert_eq!(a, Action::CreateHandle);
    }
}

#[test]
fn resource_failure_leaves_the_other_idle_handles() {
    let mut c = coordinator(2, 10, 0);
    let (a, _) = c.step(fresh(1), Event::Arrived { now: 0 });
    let (b, _) = c.step(fresh(2), Event::Arrived { now: 0 });
    let (a, _) = c.step(a, Event::HandleCreated { handle: 11 });
    let (b, _) = c.step(b, Event::HandleCreated { handle: 12 });
    let _ = c.step(a, Event::Rendered { handle: 11, document: String::from("a"), now: 1 });
    let _ = c.step(b, Event::Rendered { handle: 12, document: String::from("b"), now: 1 });
    assert_eq!(c.idle_count(), 2);
    let (r, act) = c.step(fresh(3), Event::Arrived { now: 2 });
    assert_eq!(act, Action::Render { handle: 11 });
    let _ = c.step(r, Event::RenderFailed { handle: 11, failure: RenderFailure::Extraction });
    assert_eq!(c.idle_count(), 1);
    let (_, act) = c.step(fresh(4), Event::Arrived { now: 3 });
    assert_eq!(act, Action::Render { handle: 12 });
}

#[test]
fn target_failure_returns_the_handle() {
    let mut c = coordinator(2, 10, 0);
    serve(&mut c, 1, 0, 1, "a", 0);
    let (r, _) = c.step(fresh(2), Event::Arrived { now: 1 });
    let (r, a) =
        c.step(r, Event::RenderFailed { handle: 1, failure: RenderFailure::Navigation });
    assert_eq!(r, at(2, Phase::Failed(RenderError::RenderFailed)));
    assert_eq!(a, Action::Fail { error: RenderError::RenderFailed });
    assert_eq!(c.idle_count(), 1);
    assert_eq!(c.outstanding(), 0);
    let (_, a) = c.step(fresh(3), Event::Arrived { now: 2 });
    assert_eq!(a, Action::Render { handle: 1 });
}

#[test]
fn failed_render_stores_nothing() {
    let mut c = coordinator(1, 10, 100);
    let (r, _) = c.step(fresh(2), Event::Arrived { now: 1 });
    let (r, _) = c.step(r, Event::HandleCreated { handle: 1 });
    let _ = c.step(r, Event::RenderFailed { handle: 1, failure: RenderFailure::Navigation });
    assert_eq!(c.cached_count(), 0);
    let (_, a) = c.step(fresh(2), Event::Arrived { now: 2 });
    assert_eq!(a, Action::Render { handle: 1 });
}

#[test]
fn cancel_while_waiting_never_takes_a_slot() {
    let mut c = coordinator(1, 10, 100);
    let _ = c.step(fresh(1), Event::Arrived { now: 0 });
    let (waiting, _) = c.step(fresh(2), Event::Arrived { now: 0 });
    assert_eq!(waiting.phase, Phase::Admit);
    let (r, a) = c.step(waiting, Event::Cancelled { held: None });
    assert_eq!(r, at(2, Phase::Failed(RenderError::Cancelled)));
    assert_eq!(a, Action::Fail { error: RenderError::Cancelled });
    assert_eq!(c.outstanding(), 1);
}

#[test]
fn cancel_before_the_cache_changes_nothing() {
    let mut c = coordinator(1, 10, 100);
    let (r, a) = c.step(fresh(2), Event::Cancelled { held: None });
    assert_eq!(r.phase, Phase::Failed(RenderError::Cancelled));
    assert_eq!(a, Action::Fail { error: RenderError::Cancelled });
    assert_eq!(c.outstanding(), 0);
    assert_eq!(c.idle_count(), 0);
}

#[test]
fn cancel_while_rendering_returns_handle_and_permit() {
    let mut c = coordinator(1, 10, 100);
    let (r, _) = c.step(fresh(1), Event::Arrived { now: 0 });
    let (r, _) = c.step(r, Event::HandleCreated { handle: 5 });
    let (r, a) = c.step(r, Event::Cancelled { held: Some(5) });
    assert_eq!(r, at(1, Phase::Failed(RenderError::Cancelled)));
    assert_eq!(a, Action::Fail { error: RenderError::Cancelled });
    assert_eq!(c.outstanding(), 0);
    assert_eq!(c.idle_count(), 1);
    assert_eq!(c.cached_count(), 0);
}

#[test]
fn cancel_while_creating_releases_the_permit() {
    let mut c = coordinator(1, 10, 100);
    let (r, _) = c.step(fresh(1), Event::Arrived { now: 0 });
    assert_eq!(r.phase, Phase::Borrow);
    let (r, _) = c.step(r, Event::Cancelled { held: None });
    assert_eq!(r.phase, Phase::Failed(RenderError::Cancelled));
    assert_eq!(c.outstanding(), 0);
    assert_eq!(c.idle_count(), 0);
}

#[test]
fn event_out_of_phase_is_rejected_and_changes_nothing() {
    let mut c = coordinator(1, 10, 100);
    let (r, a) = c.step(
        fresh(1),
        Event::Rendered { handle: 3, document: String::from("x"), now: 0 },
    );
    assert_eq!(r, fresh(1));
    assert_eq!(a, Action::Rejected { returned: Some(3) });
    assert_eq!((c.outstanding(), c.idle_count(), c.cached_count()), (0, 0, 0));

    let (r, a) = c.step(at(1, Phase::Admit), Event::Arrived { now: 0 });
    assert_eq!(r, at(1, Phase::Admit));
    assert_eq!(a, Action::Rejected { returned: None });

    let (r, a) = c.step(at(1, Phase::Borrow), Event::SlotFreed);
    assert_eq!(r, at(1, Phase::Borrow));
    assert_eq!(a, Action::Rejected { returned: None });

    let (r, a) = c.step(at(1, Phase::Render), Event::HandleCreated { handle: 4 });
    assert_eq!(r, at(1, Phase::Render));
    assert_eq!(a, Action::Rejected { returned: Some(4) });
    assert_eq!((c.outstanding(), c.idle_count(), c.cached_count()), (0, 0, 0));
}

#[test]
fn finished_request_accepts_no_event() {
    let mut c = coordinator(1, 10, 100);
    serve(&mut c, 1, 0, 1, "a", 0);
    let done = at(1, Phase::Done);
    let (r, a) = c.step(done, Event::Cancelled { held: Some(9) });
    assert_eq!(r, done);
    assert_eq!(a, Action::Rejected { returned: Some(9) });
    let failed = at(1, Phase::Failed(RenderError::RenderFailed));
    let (r, a) = c.step(failed, Event::Arrived { now: 5 });
    assert_eq!(r, failed);
    assert_eq!(a, Action::Rejected { returned: None });
    assert_eq!((c.outstanding(), c.idle_count(), c.cached_count()), (0, 1, 1));
}

#[test]
fn into_handle_takes_the_handle_out() {
    assert_eq!(Event::<u32>::Arrived { now: 1 }.into_handle(), None);
    assert_eq!(Event::<u32>::SlotFreed.into_handle(), None);
    assert_eq!(Event::<u32>::CreationFailed.into_handle(), None);
    assert_eq!(Event::HandleCreated { handle: 1u32 }.into_handle(), Some(1));
    assert_eq!(
        Event::Rendered { handle: 2u32, document: String::new(), now: 0 }.into_handle(),
        Some(2)
    );
    assert_eq!(
        Event::RenderFailed { handle: 3u32, failure: RenderFailure::Extraction }.into_handle(),
        Some(3)
    );
    assert_eq!(Event::Cancelled { held: Some(4u32) }.into_handle(), Some(4));
    assert_eq!(Event::<u32>::Cancelled { held: None }.into_handle(), None);
}

#[test]
fn cache_eviction_through_the_coordinator() {
    let mut c = coordinator(1, 2, 1000);
    serve(&mut c, 1, 0, 1, "one", 0);
    serve(&mut c, 2, 1, 1, "two", 1);
    // Touch 1, then store 3: 2 is the one that leaves.
    let (d, _, rendered) = serve(&mut c, 1, 2, 1, "x", 2);
    assert_eq!((d.as_str(), rendered), ("one", 0));
    serve(&mut c, 3, 3, 1, "three", 3);
    assert_eq!(c.cached_count(), 2);
    let (d, _, rendered) = serve(&mut c, 1, 4, 1, "x", 4);
    assert_eq!((d.as_str(), rendered), ("one", 0));
    let (d, _, rendered) = serve(&mut c, 2, 5, 1, "two again", 5);
    assert_eq!((d.as_str(), rendered), ("two again", 1));
}

#[test]
fn concurrent_misses_both_render_and_the_later_store_wins() {
    let mut c = coordinator(2, 10, 1000);
    let (a, act_a) = c.step(fresh(7), Event::Arrived { now: 0 });
    let (b, act_b) = c.step(fresh(7), Event::Arrived { now: 0 });
    assert_eq!(act_a, Action::CreateHandle);
    assert_eq!(act_b, Action::CreateHandle);
    assert_eq!(c.outstanding(), 2);
    let (a, _) = c.step(a, Event::HandleCreated { handle: 1 });
    let (b, _) = c.step(b, Event::HandleCreated { handle: 2 });
    let (_, act_b) =
        c.step(b, Event::Rendered { handle: 2, document: String::from("from b"), now: 10 });
    let (_, act_a) =
        c.step(a, Event::Rendered { handle: 1, document: String::from("from a"), now: 20 });
    assert_eq!(act_b, Action::Respond { document: String::from("from b") });
    assert_eq!(act_a, Action::Respond { document: String::from("from a") });
    assert_eq!(c.cached_count(), 1);
    assert_eq!(c.outstanding(), 0);
    let (_, again) = c.step(fresh(7), Event::Arrived { now: 30 });
    assert_eq!(again, Action::Respond { document: String::from("from a") });
    // The later store also restarted the time to live.
    let (_, late) = c.step(fresh(7), Event::Arrived { now: 1015 });
    assert_eq!(late, Action::Respond { document: String::from("from a") });
    let (_, stale) = c.step(fresh(7), Event::Arrived { now: 1020 });
    assert_eq!(stale, Action::Render { handle: 2 });
}
