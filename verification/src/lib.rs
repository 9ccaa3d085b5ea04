//! Deterministic core of a normal-variate sampling benchmark: a seeded
//! bit-stream source with a fully pinned-down draw sequence, the index
//! layout shared by the pair-producing samplers and the quantile plot,
//! and the error signalling of the statistics module.

pub mod layout;
pub mod source;
pub mod stats;
