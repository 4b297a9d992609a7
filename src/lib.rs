//! Orchestration core of a single-player card-clearing game: the card model,
//! deck construction, the per-card pickup/collection protocol, the collected
//! counter and the top-level game flow.
pub mod animator;
pub mod cards;
pub mod flow;
pub mod state;
