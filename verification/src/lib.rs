//! Admission-controlled resource pool and result cache for a page-rendering
//! service.
//!
//! A rendering job is expensive: it occupies one browser tab for seconds. This
//! crate holds the logic that shares a small pool of such tabs among many
//! callers and avoids rendering the same page twice:
//!
//! * [`admission::AdmissionGate`] bounds how many jobs run at once,
//! * [`pool::ResourcePool`] hands idle handles out first-in, first-out,
//! * [`cache::ResultCache`] keeps rendered documents for a time-to-live and
//!   evicts the least recently used one when full,
//! * [`coordinator::RenderCoordinator`] drives one request through these,
//!   as a transition function from a phase and an event to the next phase
//!   and the action that the caller has to perform.
//!
//! Nothing in here waits, reads a clock or talks to a browser. The caller does
//! that, and tells the library what time it is and what happened.
//!
//! Every executable function carries a contract that Verus proves; the few
//! calls into code that Verus cannot read are marked as such where they stand.
//! What holds beyond a single call is proved as well: [`cache_laws`] on time to
//! live and eviction, [`journey`] on requests served one after the other, and
//! [`system`] on any number of requests served at once.

pub mod admission;
pub mod cache;
pub mod cache_laws;
pub mod config;
pub mod coordinator;
pub mod custody;
pub mod error;
pub mod fingerprint;
pub mod journey;
pub mod pool;
pub mod store;
pub mod system;
