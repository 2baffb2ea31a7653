//! The transition classifier: which notifications concern the watched
//! identity, what kind of change each one reports, and what it does to the
//! presence store.

use vstd::prelude::*;
use crate::presence::{PresenceModel, PresenceState, Status};

verus! {

/// The state a subject was in before a change, as the event source recorded it.
#[derive(Clone, Copy, Debug, PartialEq, Eq, Structural)]
pub struct PriorState {
    /// The identity the record belongs to.
    pub subject_identity: u64,
    /// The channel the subject occupied, if any.
    pub channel: Option<u64>,
}

/// One pushed before/after state change.
#[derive(Clone, Copy, Debug, PartialEq, Eq, Structural)]
pub struct VoiceStateNotification {
    /// The identity named by the notification itself.
    pub subject_identity: u64,
    /// The accompanying record of the state before the change, where the
    /// event source had one.
    pub prior: Option<PriorState>,
    /// The channel the subject occupies now, if any.
    pub current_channel: Option<u64>,
}

/// What a notification's channel change amounts to.
#[derive(Clone, Copy, Debug, PartialEq, Eq, Structural)]
pub enum Transition {
    /// No channel before, a channel now.
    Joined,
    /// A channel before, none now.
    Left,
    /// Anything else: a move between channels, a mute or deafen toggle.
    Other,
}

impl VoiceStateNotification {
    /// The channel occupied before the change: that of the prior record, and
    /// absent where there is no record.
    pub open spec fn spec_previous_channel(self) -> Option<u64> {
        match self.prior {
            Some(prior) => prior.channel,
            None => None,
        }
    }

    /// The notification concerns `watched` when its own subject is `watched`,
    /// or, failing that, when a prior record exists and names `watched`.
    pub open spec fn spec_is_relevant(self, watched: u64) -> bool {
        self.subject_identity == watched || match self.prior {
            Some(prior) => prior.subject_identity == watched,
            None => false,
        }
    }

    /// The kind of change, by presence and absence of the two channels alone.
    pub open spec fn spec_classify(self) -> Transition {
        if self.spec_previous_channel() is None && self.current_channel is Some {
            Transition::Joined
        } else if self.spec_previous_channel() is Some && self.current_channel is None {
            Transition::Left
        } else {
            Transition::Other
        }
    }

    /// The status a store watching `watched` is to be given, if any.
    pub open spec fn spec_decide(self, watched: u64) -> Option<Status> {
        if !self.spec_is_relevant(watched) {
            None
        } else {
            match self.spec_classify() {
                Transition::Joined => Some(Status::On),
                Transition::Left => Some(Status::Off),
                Transition::Other => None,
            }
        }
    }

    /// The channel occupied before the change.
    pub fn previous_channel(&self) -> (channel: Option<u64>)
        ensures
            channel == self.spec_previous_channel(),
    {
        match self.prior {
            Some(prior) => prior.channel,
            None => None,
        }
    }

    /// Whether the notification concerns `watched`.
    pub fn is_relevant(&self, watched: u64) -> (relevant: bool)
        ensures
            relevant == self.spec_is_relevant(watched),
    {
        if self.subject_identity != watched {
            match self.prior {
                Some(prior) => prior.subject_identity == watched,
                None => false,
            }
        } else {
            true
        }
    }

    /// The kind of change the notification reports.
    pub fn classify(&self) -> (kind: Transition)
        ensures
            kind == self.spec_classify(),
            kind == Transition::Joined <==> (self.spec_previous_channel() is None
                && self.current_channel is Some),
            kind == Transition::Left <==> (self.spec_previous_channel() is Some
                && self.current_channel is None),
    {
        let previous = self.previous_channel();
        let is_joining = previous.is_none() && self.current_channel.is_some();
        let is_leaving = previous.is_some() && self.current_channel.is_none();
        if is_joining {
            Transition::Joined
        } else if is_leaving {
            Transition::Left
        } else {
            Transition::Other
        }
    }

    /// The one write this notification calls for on a store that watches
    /// `watched`: `On` for a relevant join, `Off` for a relevant leave, and
    /// none for everything else.
    pub fn decide(&self, watched: u64) -> (write: Option<Status>)
        ensures
            write == self.spec_decide(watched),
            write == Some(Status::On) <==> (self.spec_is_relevant(watched)
                && self.spec_classify() == Transition::Joined),
            write == Some(Status::Off) <==> (self.spec_is_relevant(watched)
                && self.spec_classify() == Transition::Left),
    {
        if !self.is_relevant(watched) {
            return None;
        }
        match self.classify() {
            Transition::Joined => Some(Status::On),
            Transition::Left => Some(Status::Off),
            Transition::Other => None,
        }
    }
}

/// The store after it handled `notification`: the status that the
/// notification calls for, or the one it had, and the same watched identity.
pub open spec fn spec_handle(
    store: PresenceModel,
    notification: VoiceStateNotification,
) -> PresenceModel {
    PresenceModel {
        status: match notification.spec_decide(store.watched_identity) {
            Some(status) => status,
            None => store.status,
        },
        watched_identity: store.watched_identity,
    }
}

impl PresenceState {
    /// Handles one notification: resolves the watched identity from the
    /// store, decides, and performs at most one write. Returns whether it
    /// wrote.
    pub fn handle_notification(&mut self, notification: &VoiceStateNotification) -> (wrote: bool)
        ensures
            final(self)@ == spec_handle(old(self)@, *notification),
            wrote == notification.spec_decide(old(self)@.watched_identity).is_some(),
            !wrote ==> final(self)@ == old(self)@,
    {
        let watched = self.watched_identity();
        match notification.decide(watched) {
            Some(status) => {
                self.write(status);
                true
            },
            None => false,
        }
    }
}

/// A notification whose subject is not the watched identity, and whose prior
/// record, if it has one, does not name it either, leaves the store as it was.
pub proof fn lemma_unrelated_notification_changes_nothing(
    store: PresenceModel,
    notification: VoiceStateNotification,
)
    requires
        notification.subject_identity != store.watched_identity,
        notification.prior is Some ==> notification.prior->0.subject_identity
            != store.watched_identity,
    ensures
        !notification.spec_is_relevant(store.watched_identity),
        notification.spec_decide(store.watched_identity) is None,
        spec_handle(store, notification) == store,
{
}

/// A relevant notification that reports a join turns the status `On`,
/// whatever it was.
pub proof fn lemma_join_turns_on(store: PresenceModel, notification: VoiceStateNotification)
    requires
        notification.spec_is_relevant(store.watched_identity),
        notification.spec_classify() == Transition::Joined,
    ensures
        spec_handle(store, notification).status == Status::On,
        spec_handle(store, notification).watched_identity == store.watched_identity,
{
}

/// A relevant notification that reports a leave turns the status `Off`,
/// whatever it was.
pub proof fn lemma_leave_turns_off(store: PresenceModel, notification: VoiceStateNotification)
    requires
        notification.spec_is_relevant(store.watched_identity),
        notification.spec_classify() == Transition::Left,
    ensures
        spec_handle(store, notification).status == Status::Off,
        spec_handle(store, notification).watched_identity == store.watched_identity,
{
}

/// A notification with a channel before and a channel after, the same or
/// another, is neither a join nor a leave, and leaves the store as it was.
pub proof fn lemma_move_changes_nothing(store: PresenceModel, notification: VoiceStateNotification)
    requires
        notification.spec_previous_channel() is Some,
        notification.current_channel is Some,
    ensures
        notification.spec_classify() == Transition::Other,
        spec_handle(store, notification) == store,
{
}

/// Handling a notification a second time changes nothing more: the store
/// after two turns equals the store after one.
pub proof fn lemma_handling_twice_is_handling_once(
    store: PresenceModel,
    notification: VoiceStateNotification,
)
    ensures
        spec_handle(spec_handle(store, notification), notification) == spec_handle(
            store,
            notification,
        ),
{
}

/// Handling never touches the watched identity, and the status afterwards
/// depends on the status before only where the notification calls for no
/// write.
pub proof fn lemma_handling_keeps_watched_identity(
    store: PresenceModel,
    notification: VoiceStateNotification,
)
    ensures
        spec_handle(store, notification).watched_identity == store.watched_identity,
        notification.spec_decide(store.watched_identity) is None ==> spec_handle(
            store,
            notification,
        ) == store,
{
}

} // verus!
