//! The startup reconciler: a snapshot of who occupies which channel, group by
//! group, and the scan that decides from it whether the watched identity is
//! present.

use std::collections::HashMap;
use vstd::prelude::*;
use crate::presence::{PresenceModel, PresenceState, Status};

verus! {

broadcast use vstd::std_specs::hash::group_hash_axioms;

/// The participants of one group: each identity known there, with the
/// channel it occupies, if any.
pub struct GroupSnapshot {
    voice_states: HashMap<u64, Option<u64>>,
}

impl View for GroupSnapshot {
    type V = Map<u64, Option<u64>>;

    closed spec fn view(&self) -> Map<u64, Option<u64>> {
        self.voice_states@
    }
}

/// The participants of every group the event source belongs to.
pub struct ParticipantSnapshot {
    groups: Vec<GroupSnapshot>,
}

impl View for ParticipantSnapshot {
    type V = Seq<Map<u64, Option<u64>>>;

    closed spec fn view(&self) -> Seq<Map<u64, Option<u64>>> {
        Seq::new(self.groups@.len(), |i: int| self.groups@[i]@)
    }
}

/// `identity` is known in `group` and occupies a channel there.
pub open spec fn spec_occupies_channel(group: Map<u64, Option<u64>>, identity: u64) -> bool {
    group.contains_key(identity) && group[identity] is Some
}

/// `identity` occupies a channel in at least one of `groups`.
pub open spec fn spec_is_present(groups: Seq<Map<u64, Option<u64>>>, identity: u64) -> bool {
    exists|i: int| 0 <= i < groups.len() && spec_occupies_channel(#[trigger] groups[i], identity)
}

/// The status that a snapshot implies for `identity`.
pub open spec fn spec_presence_of(groups: Seq<Map<u64, Option<u64>>>, identity: u64) -> Status {
    if spec_is_present(groups, identity) {
        Status::On
    } else {
        Status::Off
    }
}

impl GroupSnapshot {
    /// A group with no participants.
    pub fn new() -> (group: GroupSnapshot)
        ensures
            group@ == Map::<u64, Option<u64>>::empty(),
    {
        GroupSnapshot { voice_states: HashMap::new() }
    }

    /// Records `identity` with its channel, replacing what was recorded for
    /// it before.
    pub fn insert(&mut self, identity: u64, channel: Option<u64>)
        ensures
            final(self)@ == old(self)@.insert(identity, channel),
    {
        self.voice_states.insert(identity, channel);
    }

    /// What the group records for `identity`: nothing, or its channel
    /// membership.
    pub fn channel_of(&self, identity: u64) -> (found: Option<Option<u64>>)
        ensures
            found is Some <==> self@.contains_key(identity),
            found is Some ==> found->0 == self@[identity],
    {
        match self.voice_states.get(&identity) {
            Some(channel) => Some(*channel),
            None => None,
        }
    }

    /// Whether `identity` occupies a channel in this group.
    pub fn occupies_channel(&self, identity: u64) -> (present: bool)
        ensures
            present == spec_occupies_channel(self@, identity),
    {
        match self.channel_of(identity) {
            Some(channel) => channel.is_some(),
            None => false,
        }
    }
}

impl ParticipantSnapshot {
    /// A snapshot without groups.
    pub fn new() -> (snapshot: ParticipantSnapshot)
        ensures
            snapshot@ == Seq::<Map<u64, Option<u64>>>::empty(),
    {
        let snapshot = ParticipantSnapshot { groups: Vec::new() };
        assert(snapshot@ =~= Seq::<Map<u64, Option<u64>>>::empty());
        snapshot
    }

    /// Adds a group after those already there.
    pub fn push_group(&mut self, group: GroupSnapshot)
        ensures
            final(self)@ == old(self)@.push(group@),
    {
        self.groups.push(group);
        assert(self@ =~= old(self)@.push(group@));
    }

    /// The number of groups.
    pub fn group_count(&self) -> (count: usize)
        ensures
            count == self@.len(),
    {
        self.groups.len()
    }

    /// Scans the groups for `identity` and stops at the first one in which
    /// it occupies a channel: `On` if there is such a group, else `Off`.
    pub fn presence_of(&self, identity: u64) -> (status: Status)
        ensures
            status == spec_presence_of(self@, identity),
            status == Status::On <==> spec_is_present(self@, identity),
    {
        let mut i: usize = 0;
        while i < self.groups.len()
            invariant
                i <= self.groups@.len(),
                forall|j: int| 0 <= j < i ==> !spec_occupies_channel(#[trigger] self@[j], identity),
            decreases self.groups@.len() - i,
        {
            if self.groups[i].occupies_channel(identity) {
                assert(spec_occupies_channel(self@[i as int], identity));
                return Status::On;
            }
            i += 1;
        }
        Status::Off
    }
}

/// The store after reconciliation with `groups`: the status that the
/// snapshot implies for the watched identity, and the same watched identity.
pub open spec fn spec_reconcile(
    store: PresenceModel,
    groups: Seq<Map<u64, Option<u64>>>,
) -> PresenceModel {
    PresenceModel {
        status: spec_presence_of(groups, store.watched_identity),
        watched_identity: store.watched_identity,
    }
}

impl PresenceState {
    /// Seeds the store from a snapshot, whatever the status was before: `On`
    /// if the watched identity occupies a channel in some group, else `Off`.
    pub fn reconcile(&mut self, snapshot: &ParticipantSnapshot)
        ensures
            final(self)@ == spec_reconcile(old(self)@, snapshot@),
    {
        let concluded = snapshot.presence_of(self.watched_identity());
        self.write(concluded);
    }
}

/// Where some group records the watched identity with a channel, the store
/// is `On` after reconciliation, whatever it was before.
pub proof fn lemma_reconcile_finds_present(
    store: PresenceModel,
    groups: Seq<Map<u64, Option<u64>>>,
    group: int,
)
    requires
        0 <= group < groups.len(),
        groups[group].contains_key(store.watched_identity),
        groups[group][store.watched_identity] is Some,
    ensures
        spec_reconcile(store, groups).status == Status::On,
        spec_reconcile(store, groups).watched_identity == store.watched_identity,
{
    assert(spec_occupies_channel(groups[group], store.watched_identity));
}

/// Where no group records the watched identity with a channel, the store is
/// `Off` after reconciliation, whatever it was before.
pub proof fn lemma_reconcile_finds_absent(
    store: PresenceModel,
    groups: Seq<Map<u64, Option<u64>>>,
)
    requires
        forall|i: int|
            0 <= i < groups.len() ==> !(#[trigger] groups[i]).contains_key(store.watched_identity)
                || groups[i][store.watched_identity] is None,
    ensures
        spec_reconcile(store, groups).status == Status::Off,
        spec_reconcile(store, groups).watched_identity == store.watched_identity,
{
}

/// The order of the groups does not matter: a snapshot and the same groups
/// in reverse imply the same status.
pub proof fn lemma_presence_ignores_group_order(
    groups: Seq<Map<u64, Option<u64>>>,
    identity: u64,
)
    ensures
        spec_presence_of(groups.reverse(), identity) == spec_presence_of(groups, identity),
{
    let reversed = groups.reverse();
    if spec_is_present(groups, identity) {
        let i = choose|i: int|
            0 <= i < groups.len() && spec_occupies_channel(#[trigger] groups[i], identity);
        assert(reversed[groups.len() - 1 - i] == groups[i]);
        assert(spec_occupies_channel(reversed[groups.len() - 1 - i], identity));
    }
    if spec_is_present(reversed, identity) {
        let i = choose|i: int|
            0 <= i < reversed.len() && spec_occupies_channel(#[trigger] reversed[i], identity);
        assert(reversed[i] == groups[groups.len() - 1 - i]);
        assert(spec_occupies_channel(groups[groups.len() - 1 - i], identity));
    }
}

} // verus!
