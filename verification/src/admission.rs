//! Admission control: a counting limiter on concurrently running jobs.

use vstd::prelude::*;

verus! {

/// Number of jobs admitted at once when nothing else is configured.
pub const DEFAULT_MAX_CONCURRENCY: usize = 4;

/// What a gate is, mathematically: a limit and the number of permits that are
/// out at the moment.
pub struct GateView {
    pub max_concurrency: nat,
    pub outstanding: nat,
}

impl GateView {
    /// The limit is at least one and is never exceeded.
    pub open spec fn wf(self) -> bool {
        1 <= self.max_concurrency && self.outstanding <= self.max_concurrency
    }

    /// Fewer permits are out than the limit allows.
    pub open spec fn has_free_slot(self) -> bool {
        self.outstanding < self.max_concurrency
    }

    /// The limiter after one attempt to take a permit: one more is out if a
    /// slot was free, otherwise nothing changes.
    pub open spec fn acquire(self) -> GateView {
        if self.has_free_slot() {
            GateView { outstanding: self.outstanding + 1, ..self }
        } else {
            self
        }
    }

    /// The limiter after one permit was handed back. Handing back a permit
    /// that is not out changes nothing.
    pub open spec fn release(self) -> GateView {
        if self.outstanding > 0 {
            GateView { outstanding: (self.outstanding - 1) as nat, ..self }
        } else {
            self
        }
    }
}

/// Bounded-concurrency limiter. A caller takes a permit before it borrows a
/// handle and gives it back when the job is over, whatever the outcome.
///
/// An admission gate never blocks: [`AdmissionGate::try_acquire`] says whether
/// a slot was free, and the caller waits and tries again if none was.
pub struct AdmissionGate {
    max_concurrency: usize,
    outstanding: usize,
}

impl View for AdmissionGate {
    type V = GateView;

    closed spec fn view(&self) -> GateView {
        GateView {
            max_concurrency: self.max_concurrency as nat,
            outstanding: self.outstanding as nat,
        }
    }
}

impl AdmissionGate {
    /// Holds of every gate at all times: the limit is at least one, and no more
    /// permits are out than it allows.
    #[verifier::type_invariant]
    pub open spec fn inv(self) -> bool {
        self@.wf()
    }

    /// A gate with no permit out. A limit of zero would admit nobody, ever, and
    /// is refused.
    pub fn new(max_concurrency: usize) -> (gate: Option<AdmissionGate>)
        ensures
            gate is None <==> max_concurrency == 0,
            gate matches Some(g) ==> g@ == (GateView {
                max_concurrency: max_concurrency as nat,
                outstanding: 0,
            }),
    {
        if max_concurrency == 0 {
            None
        } else {
            Some(AdmissionGate { max_concurrency, outstanding: 0 })
        }
    }

    /// Takes a permit if fewer than the limit are out, and says whether it did.
    pub fn try_acquire(&mut self) -> (granted: bool)
        ensures
            granted == old(self)@.has_free_slot(),
            final(self)@ == old(self)@.acquire(),
            final(self)@.wf(),
    {
        proof {
            use_type_invariant(&*self);
        }
        if self.outstanding < self.max_concurrency {
            self.outstanding = self.outstanding + 1;
            true
        } else {
            false
        }
    }

    /// Gives one permit back, and says whether one was out. A release without a
    /// matching acquire is refused and leaves the limiter as it was.
    pub fn release(&mut self) -> (released: bool)
        ensures
            released == (old(self)@.outstanding > 0),
            final(self)@ == old(self)@.release(),
            final(self)@.wf(),
    {
        proof {
            use_type_invariant(&*self);
        }
        if self.outstanding > 0 {
            self.outstanding = self.outstanding - 1;
            true
        } else {
            false
        }
    }

    /// The configured limit.
    pub fn max_concurrency(&self) -> (n: usize)
        ensures
            n == self@.max_concurrency,
            self@.wf(),
    {
        proof {
            use_type_invariant(self);
        }
        self.max_concurrency
    }

    /// The number of permits that are out.
    pub fn outstanding(&self) -> (n: usize)
        ensures
            n == self@.outstanding,
            self@.wf(),
    {
        proof {
            use_type_invariant(self);
        }
        self.outstanding
    }

    /// The number of permits that can still be taken.
    pub fn available(&self) -> (n: usize)
        ensures
            n == self@.max_concurrency - self@.outstanding,
    {
        proof {
            use_type_invariant(self);
        }
        self.max_concurrency - self.outstanding
    }
}

} // verus!
