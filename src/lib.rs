//! State propagation and derivative computation for model-based reconstruction
//! of cardiac electrical activity.
//!
//! A forward model (`model`) is advanced one time step at a time by the host
//! system prediction (`estimation`); per-step gradient contributions are
//! accumulated from measurement residuals (`derivation`). The same recursions
//! run on device-resident mirror buffers behind an in-order command queue
//! (`device`), synchronised with the host only through explicit push and pull.
//! All arithmetic is wrapping two's-complement `i64`, so both paths agree
//! exactly. `laws` states how the operations relate to one another.
//! `scenario` holds the decisions of the scenario data form.

pub mod arith;
pub mod model;
pub mod estimation;
pub mod derivation;
pub mod device;
pub mod laws;
pub mod scenario;
