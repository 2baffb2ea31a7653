use voice_presence::presence::{PresenceState, Status};
use voice_presence::reconcile::{GroupSnapshot, ParticipantSnapshot};
use voice_presence::transition::{PriorState, VoiceStateNotification};

const WATCHED: u64 = 1001;
const CHANNEL: u64 = 10;

fn started(entries: &[(u64, Option<u64>)]) -> PresenceState {
    let mut group = GroupSnapshot::new();
    for (identity, channel) in entries {
        group.insert(*identity, *channel);
    }
    let mut snapshot = ParticipantSnapshot::new();
    if !entries.is_empty() {
        snapshot.push_group(group);
    }
    let mut store = PresenceState::new(WATCHED);
    store.reconcile(&snapshot);
    store
}

#[test]
fn status_text_is_on_or_off() {
    assert_eq!(Status::On.as_str(), "on");
    assert_eq!(Status::Off.as_str(), "off");
}

#[test]
fn query_does_not_change_the_store() {
    let mut store = PresenceState::new(WATCHED);
    store.write(Status::On);
    assert_eq!(store.query().status, "on");
    assert_eq!(store.query().status, "on");
    assert_eq!(store.read(), Status::On);
    assert_eq!(store.watched_identity(), WATCHED);
}

#[test]
fn startup_with_empty_snapshot_answers_off() {
    let store = started(&[]);
    assert_eq!(store.query().status, "off");
}

#[test]
fn startup_with_watched_identity_in_channel_answers_on() {
    let store = started(&[(WATCHED, Some(CHANNEL))]);
    assert_eq!(store.query().status, "on");
}

#[test]
fn join_while_off_answers_on() {
    let mut store = started(&[]);
    assert_eq!(store.read(), Status::Off);
    store.handle_notification(&VoiceStateNotification {
        subject_identity: WATCHED,
        prior: None,
        current_channel: Some(CHANNEL),
    });
    assert_eq!(store.query().status, "on");
}

#[test]
fn leave_while_on_answers_off() {
    let mut store = started(&[(WATCHED, Some(CHANNEL))]);
    assert_eq!(store.read(), Status::On);
    store.handle_notification(&VoiceStateNotification {
        subject_identity: WATCHED,
        prior: Some(PriorState { subject_identity: WATCHED, channel: Some(CHANNEL) }),
        current_channel: None,
    });
    assert_eq!(store.query().status, "off");
}

#[test]
fn mute_toggle_while_on_still_answers_on() {
    let mut store = started(&[(WATCHED, Some(CHANNEL))]);
    assert_eq!(store.read(), Status::On);
    store.handle_notification(&VoiceStateNotification {
        subject_identity: WATCHED,
        prior: Some(PriorState { subject_identity: WATCHED, channel: Some(CHANNEL) }),
        current_channel: Some(CHANNEL),
    });
    assert_eq!(store.query().status, "on");
}
