use render_pool::config::Config;
use render_pool::coordinator::{Action, Event, Phase, RenderCoordinator, Request};
use render_pool::error::RenderFailure;

/// A small deterministic generator, so that the interleavings are the same on
/// every run.
struct Dice(u64);

impl Dice {
    fn roll(&mut self, sides: u64) -> u64 {
        self.0 = self.0.wrapping_mul(6364136223846793005).wrapping_add(1442695040888963407);
        (self.0 >> 33) % sides
    }
}

/// What a request is waiting for, as the caller sees it.
enum Pending {
    Arrive,
    Slot,
    Creation,
    Rendering(u32),
    Over,
}

struct Tally {
    acquires: u64,
    releases: u64,
    peak_renders: usize,
    created: u32,
}

/// Drives `population` requests through one coordinator, delivering one event
/// at a time to a request picked by the dice, with every outcome in the mix.
fn run(max: usize, population: usize, seed: u64) -> (RenderCoordinator<u32>, Tally) {
    let mut c: RenderCoordinator<u32> =
        RenderCoordinator::new(&Config::new(max, 8, 50).unwrap());
    let mut dice = Dice(seed);
    let mut requests: Vec<Request> = (0..population)
        .map(|i| Request { fingerprint: (i % 11) as u64, phase: Phase::CheckCache })
        .collect();
    let mut pending: Vec<Pending> = (0..population).map(|_| Pending::Arrive).collect();
    let mut tally = Tally { acquires: 0, releases: 0, peak_renders: 0, created: 0 };
    let mut clock = 0u64;
    let mut open = population;
    while open > 0 {
        let i = dice.roll(population as u64) as usize;
        clock += dice.roll(7);
        let chance = dice.roll(10);
        let event = match pending[i] {
            Pending::Over => continue,
            Pending::Arrive if chance == 0 => Event::Cancelled { held: None },
            Pending::Arrive => Event::Arrived { now: clock },
            Pending::Slot if chance == 0 => Event::Cancelled { held: None },
            Pending::Slot => Event::SlotFreed,
            Pending::Creation if chance == 0 => Event::Cancelled { held: None },
            Pending::Creation if chance == 1 => Event::CreationFailed,
            Pending::Creation => {
                tally.created += 1;
                Event::HandleCreated { handle: tally.created }
            }
            Pending::Rendering(handle) => match chance {
                0 => Event::Cancelled { held: Some(handle) },
                1 => Event::RenderFailed { handle, failure: RenderFailure::Navigation },
                2 => Event::RenderFailed { handle, failure: RenderFailure::NavigationTimeout },
                3 => Event::RenderFailed { handle, failure: RenderFailure::Extraction },
                _ => Event::Rendered { handle, document: format!("doc-{}", i), now: clock },
            },
        };
        let before = c.outstanding();
        let (next, action) = c.step(requests[i], event);
        let after = c.outstanding();
        if after > before {
            assert_eq!(after, before + 1);
            tally.acquires += 1;
        }
        if after < before {
            assert_eq!(after + 1, before);
            tally.releases += 1;
        }
        requests[i] = next;
        pending[i] = match action {
            Action::Respond { .. } | Action::Fail { .. } => {
                open -= 1;
                Pending::Over
            }
            Action::AwaitSlot => Pending::Slot,
            Action::CreateHandle => Pending::Creation,
            Action::Render { handle } => {
                // A handle goes to one job at a time.
                let busy =
                    pending.iter().any(|p| matches!(p, Pending::Rendering(h) if *h == handle));
                assert!(!busy);
                Pending::Rendering(handle)
            }
            Action::Rejected { .. } => panic!("a well-behaved caller is never rejected"),
        };
        // The backend's view: how many renders are in flight right now.
        let renders = pending.iter().filter(|p| matches!(p, Pending::Rendering(_))).count();
        let holders = requests.iter().filter(|r| r.holds_permit()).count();
        assert!(renders <= max);
        assert_eq!(holders, c.outstanding());
        assert!(c.outstanding() <= c.max_concurrency());
        assert!(c.cached_count() <= 8);
        tally.peak_renders = tally.peak_renders.max(renders);
    }
    (c, tally)
}

#[test]
fn renders_in_flight_never_exceed_the_limit() {
    for (max, seed) in [(1usize, 1u64), (2, 2), (3, 3), (4, 4)] {
        let (_, tally) = run(max, 40, seed);
        assert!(tally.peak_renders <= max);
        assert!(tally.peak_renders >= 1);
    }
}

#[test]
fn the_limit_is_reached_under_load() {
    let (_, tally) = run(2, 60, 99);
    assert_eq!(tally.peak_renders, 2);
}

#[test]
fn every_permit_taken_is_given_back() {
    for seed in 0..20u64 {
        let (c, tally) = run(3, 30, seed);
        assert_eq!(tally.acquires, tally.releases);
        assert!(tally.acquires > 0);
        assert_eq!(c.outstanding(), 0);
    }
}

#[test]
fn handles_created_stay_within_what_the_outcomes_explain() {
    // Every idle handle was created once and is idle at most once.
    let (c, tally) = run(3, 50, 7);
    assert!(c.idle_count() <= tally.created as usize);
    assert!(c.idle_count() <= 3);
}
