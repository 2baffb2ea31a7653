//! The presence store: the current status and the watched identity.

use vstd::prelude::*;

verus! {

/// Whether the watched identity currently occupies a channel.
#[derive(Clone, Copy, Debug, PartialEq, Eq, Structural)]
pub enum Status {
    On,
    Off,
}

/// The single source of truth: the latest known status, and the identity
/// that is tracked. The identity is fixed at construction.
#[derive(Clone, Copy, Debug)]
pub struct PresenceState {
    status: Status,
    watched_identity: u64,
}

/// The mathematical value of a store.
pub struct PresenceModel {
    pub status: Status,
    pub watched_identity: u64,
}

impl View for PresenceState {
    type V = PresenceModel;

    closed spec fn view(&self) -> PresenceModel {
        PresenceModel { status: self.status, watched_identity: self.watched_identity }
    }
}

impl PresenceState {
    /// A store for `watched_identity`, with status `Off`.
    pub fn new(watched_identity: u64) -> (store: PresenceState)
        ensures
            store@.status == Status::Off,
            store@.watched_identity == watched_identity,
    {
        PresenceState { status: Status::Off, watched_identity }
    }

    /// The current status.
    pub fn read(&self) -> (status: Status)
        ensures
            status == self@.status,
    {
        self.status
    }

    /// Replaces the status as a whole; the watched identity stays.
    pub fn write(&mut self, new_status: Status)
        ensures
            final(self)@.status == new_status,
            final(self)@.watched_identity == old(self)@.watched_identity,
    {
        self.status = new_status;
    }

    /// The identity this store tracks.
    pub fn watched_identity(&self) -> (identity: u64)
        ensures
            identity == self@.watched_identity,
    {
        self.watched_identity
    }
}

} // verus!
