use waepic::updates::{stream_step, Announcement, StreamSignal};
use waepic::jid::Jid;
use waepic::stanza::Stanza;
use waepic::update::{ConnectFailure, ConnectFailureReason, Update};
use waepic::updates::{
    announce_disconnect, delivery, node_kind, on_connected, post_connect_plan, ConnectedAction, Delivery,
    EventCounter, Handled, NodeKind,
};

#[test]
fn nodes_go_to_their_handlers() {
    let hs = Stanza::new("notification").with_attr("type", "history_sync_notification");
    assert_eq!(node_kind(&hs), NodeKind::HistorySync);
    let ib_hs = Stanza::new("ib").with_children(vec![Stanza::new("history_sync")]);
    assert_eq!(node_kind(&ib_hs), NodeKind::HistorySync);
    assert_eq!(node_kind(&Stanza::new("ib")), NodeKind::Ib);
    assert_eq!(node_kind(&Stanza::new("message")), NodeKind::Message);
    assert_eq!(node_kind(&Stanza::new("receipt")), NodeKind::Receipt);
    assert_eq!(node_kind(&Stanza::new("presence")), NodeKind::Presence);
    assert_eq!(node_kind(&Stanza::new("chatstate")), NodeKind::ChatState);
    assert_eq!(node_kind(&Stanza::new("notification").with_attr("type", "picture")), NodeKind::Notification);
    assert_eq!(node_kind(&Stanza::new("success")), NodeKind::Success);
    assert_eq!(node_kind(&Stanza::new("failure")), NodeKind::Failure);
    assert_eq!(node_kind(&Stanza::new("stream:error")), NodeKind::Failure);
    assert_eq!(node_kind(&Stanza::new("iq")), NodeKind::PairCodeIq);
    assert_eq!(node_kind(&Stanza::new("call")), NodeKind::Ignored);
}

#[test]
fn connect_failures_are_hidden_after_pairing() {
    let failure = Update::ConnectFailure(ConnectFailure { reason: ConnectFailureReason::from_i32(515), message: String::new() });
    assert_eq!(delivery(&failure, true, false), Delivery::Suppress);
    assert_eq!(delivery(&failure, true, true), Delivery::Suppress);
    assert_eq!(delivery(&failure, false, false), Delivery::Send);
    assert_eq!(delivery(&Update::LoggedOut, false, false), Delivery::ClearDeviceThenSend);
    assert_eq!(delivery(&Update::LoggedOut, true, true), Delivery::Send);
    assert_eq!(delivery(&Update::Connected, true, false), Delivery::Send);
}

#[test]
fn connection_events_in_the_post_pair_window_stay_quiet() {
    assert_eq!(on_connected(true), ConnectedAction::SilentInit);
    assert_eq!(on_connected(false), ConnectedAction::AnnounceAndInit);
    assert!(!announce_disconnect(true));
    assert!(announce_disconnect(false));
}

#[test]
fn state_is_flushed_every_hundred_counted_events() {
    let mut counter = EventCounter::new();
    let counted = Handled::Stanza { kind: NodeKind::Receipt, delivery: Some(Delivery::Send) };
    for i in 1..100 {
        assert!(!counter.record(counted, false), "event {i}");
    }
    assert!(!counter.record(Handled::Stanza { kind: NodeKind::Message, delivery: None }, false));
    assert!(!counter.record(Handled::Connected, true));
    assert!(!counter.record(Handled::Stanza { kind: NodeKind::Failure, delivery: Some(Delivery::Suppress) }, true));
    assert_eq!(counter.counted_events(), 99);
    assert!(counter.record(Handled::Error, true));
    assert_eq!(counter.counted_events(), 100);
}

#[test]
fn post_connect_work_needs_a_paired_device() {
    let plan = post_connect_plan(None, "Me");
    assert!(!plan.prekeys_and_active);
    assert!(plan.device_sync.is_none() && plan.presence.is_none());

    let plan = post_connect_plan(Some(Jid::pn("12345")), "Me");
    assert!(plan.prekeys_and_active);
    assert_eq!(plan.device_sync.map(|j| j.to_text()), Some("12345@s.whatsapp.net".to_string()));
    let presence = plan.presence.expect("announced");
    assert_eq!(presence.tag, "presence");
    assert_eq!(presence.get_attr("type").map(|s| s.as_str()), Some("available"));
    assert_eq!(presence.get_attr("name").map(|s| s.as_str()), Some("Me"));

    let plan = post_connect_plan(Some(Jid::pn("12345")), "");
    assert!(plan.presence.is_none());
}

#[test]
fn the_post_pair_window_closes_on_the_first_connect() {
    let s = stream_step(true, StreamSignal::Connected);
    assert_eq!(s.announce, None);
    assert!(s.post_connect && !s.post_pair_after && !s.stop);
    assert_eq!(stream_step(true, StreamSignal::Disconnected).announce, None);
    assert!(stream_step(true, StreamSignal::Disconnected).post_pair_after);
    assert_eq!(stream_step(false, StreamSignal::Connected).announce, Some(Announcement::Connected));
    assert_eq!(stream_step(false, StreamSignal::Disconnected).announce, Some(Announcement::Disconnected));
    assert_eq!(stream_step(false, StreamSignal::Error).announce, None);
    assert!(stream_step(false, StreamSignal::Closed).stop);
}
