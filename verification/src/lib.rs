//! Bundling core of an account-abstraction relay node.
//!
//! The library admits user operations through a fail-fast sanity pipeline,
//! models the per-target bundlers and the bundling scheduler as a verified
//! state machine, and exposes the decision logic of the control surface
//! (mode switching, on-demand bundling, receipt polling).  Network transport,
//! task spawning and timers live outside the library; callers drive them and
//! hand the observed values back in.

pub mod receipt;
pub mod sanity;
pub mod service;
pub mod types;
