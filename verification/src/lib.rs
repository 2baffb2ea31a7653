//! Presence tracking for one watched identity: a two-valued status, the rules
//! that turn voice-state notifications into status changes, the snapshot
//! scan that seeds the status when the event source becomes ready, and the
//! answer given to a status query.

pub mod presence;
pub mod query;
pub mod reconcile;
pub mod transition;
