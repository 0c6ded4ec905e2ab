//! A readiness barrier: shared state that tracks completion of a fixed set
//! of named initialization tasks (a frontend task and a backend task) and
//! decides, exactly once, that the one-time splash-to-main surface
//! transition is due — on the report that completes the set, never before,
//! never twice.

pub mod barrier;
pub mod text;
