use buffa::Message as _;
use waepic::handlers::{
    handle_failure, handle_pair_code, handle_picture_notification, handle_success, AppStateSyncSpec,
};
use waepic::history::extract_history_sync_payload;
use waepic::jid::{parse_jid, Jid};
use waepic::stanza::{Stanza, StanzaContent};
use waepic::update::{StreamError, TemporaryBan, Update};
use waproto::whatsapp as wa;

fn attr(node: &Stanza, key: &str) -> Option<String> {
    node.get_attr(key).cloned()
}

#[test]
fn success_node_produces_pair_success() {
    let node = Stanza::new("success").with_attr("lid", "12345@lid");

    let update = handle_success(&node);
    assert!(matches!(update, Update::PairSuccess), "expected PairSuccess, got {update:?}");
}

#[test]
fn failure_node_produces_logged_out() {
    let node = Stanza::new("failure");

    let update = handle_failure(&node);
    assert!(matches!(update, Update::LoggedOut), "expected LoggedOut, got {update:?}");
}

#[test]
fn stream_error_with_conflict_produces_stream_replaced() {
    let node = Stanza::new("stream:error").with_children(vec![Stanza::new("conflict")]);

    let update = handle_failure(&node);
    assert!(matches!(update, Update::StreamReplaced), "expected StreamReplaced, got {update:?}");
}

#[test]
fn stream_error_with_code_produces_connect_failure() {
    let node = Stanza::new("stream:error").with_attr("code", "400");

    let update = handle_failure(&node);
    assert!(matches!(update, Update::ConnectFailure(_)), "expected ConnectFailure, got {update:?}");
}

#[test]
fn failure_with_temp_ban_code_produces_temporary_ban() {
    let node = Stanza::new("failure").with_attr("code", "402").with_attr("expire", "86400");

    let update = handle_failure(&node);
    assert!(
        matches!(update, Update::TemporaryBan(TemporaryBan { code: 402, expire: 86400 })),
        "expected TemporaryBan, got {update:?}"
    );
}

#[test]
fn failure_with_client_outdated_code() {
    let node = Stanza::new("failure").with_attr("code", "405");

    let update = handle_failure(&node);
    assert!(matches!(update, Update::ClientOutdated), "expected ClientOutdated, got {update:?}");
}

#[test]
fn bare_stream_error_produces_stream_error() {
    let node = Stanza::new("stream:error");

    let update = handle_failure(&node);
    assert!(
        matches!(update, Update::StreamError(StreamError { ref code }) if code.is_empty()),
        "expected StreamError with empty code, got {update:?}"
    );
}

#[test]
fn picture_notification_remove_produces_picture_update() {
    let node = Stanza::new("notification")
        .with_attr("type", "picture")
        .with_attr("from", "12345@s.whatsapp.net")
        .with_attr("t", "1700000000")
        .with_children(vec![Stanza::new("remove")]);

    let update = handle_picture_notification(&node);

    assert!(update.is_some(), "expected Some(PictureUpdate)");
    match update.unwrap() {
        Update::PictureUpdate(p) => {
            assert!(p.removed, "expected removed=true");
            assert!(p.picture_id.is_none());
        }
        other => panic!("expected PictureUpdate, got {other:?}"),
    }
}

#[test]
fn picture_notification_set_produces_picture_update_with_id() {
    let node = Stanza::new("notification")
        .with_attr("type", "picture")
        .with_attr("from", "12345@s.whatsapp.net")
        .with_attr("t", "1700000000")
        .with_children(vec![Stanza::new("set").with_attr("id", "pic123")]);

    let update = handle_picture_notification(&node);

    assert!(update.is_some());
    match update.unwrap() {
        Update::PictureUpdate(p) => {
            assert!(!p.removed);
            assert_eq!(p.picture_id.as_deref(), Some("pic123"));
        }
        other => panic!("expected PictureUpdate, got {other:?}"),
    }
}

fn make_history_sync_notification_node(inline_payload: Vec<u8>) -> Stanza {
    let notif = wa::message::HistorySyncNotification {
        initial_hist_bootstrap_inline_payload: Some(inline_payload),
        sync_type: Some(wa::message::HistorySyncType::InitialBootstrap),
        ..Default::default()
    };
    let proto_msg = wa::Message {
        protocol_message: wa::message::ProtocolMessage {
            history_sync_notification: Some(notif).into(),
            ..Default::default()
        }
        .into(),
        ..Default::default()
    };
    let encoded = proto_msg.encode_to_vec();

    Stanza::new("notification")
        .with_attr("from", "s.whatsapp.net")
        .with_attr("type", "history_sync_notification")
        .with_attr("id", "hs-notif-1")
        .with_bytes(encoded)
}

fn make_ib_history_sync_node(payload: Vec<u8>) -> Stanza {
    Stanza::new("ib")
        .with_attr("from", "s.whatsapp.net")
        .with_children(vec![Stanza::new("history_sync").with_bytes(payload)])
}

#[test]
fn extract_payload_from_notification_node() {
    let payload = vec![1, 2, 3, 4];
    let node = make_history_sync_notification_node(payload.clone());

    let extracted = extract_history_sync_payload(&node);
    assert_eq!(extracted, Some(payload));
}

#[test]
fn extract_payload_from_ib_node() {
    let payload = vec![5, 6, 7, 8];
    let node = make_ib_history_sync_node(payload.clone());

    let extracted = extract_history_sync_payload(&node);
    assert_eq!(extracted, Some(payload));
}

#[test]
fn extract_payload_returns_none_for_other_nodes() {
    let from = Jid::pn("12345").to_text();
    let node = Stanza::new("message").with_attr("from", &from);

    let extracted = extract_history_sync_payload(&node);
    assert!(extracted.is_none());
}

#[test]
fn extract_payload_returns_none_for_ib_without_history_sync_child() {
    let node = Stanza::new("ib")
        .with_attr("from", "s.whatsapp.net")
        .with_children(vec![Stanza::new("other")]);

    let extracted = extract_history_sync_payload(&node);
    assert!(extracted.is_none());
}

#[test]
fn pair_code_set_iq_produces_pairing_code_update() {
    let node = Stanza::new("iq")
        .with_attr("type", "set")
        .with_attr("id", "server-pc-1")
        .with_attr("from", "s.whatsapp.net")
        .with_children(vec![Stanza::new("pair-code").with_attr("code", "ABCD-EFGH").with_attr("timeout", "120")]);

    let result = handle_pair_code(&node);
    let update = result.expect("should produce an update");

    match update {
        Update::PairingCode { code, timeout } => {
            assert_eq!(code, "ABCD-EFGH");
            assert_eq!(timeout, 120);
        }
        other => panic!("expected PairingCode, got {other:?}"),
    }
}

#[test]
fn pair_code_default_timeout_when_missing() {
    let node = Stanza::new("iq")
        .with_attr("type", "set")
        .with_attr("id", "server-pc-2")
        .with_children(vec![Stanza::new("pair-code").with_attr("code", "WXYZ-1234")]);

    let result = handle_pair_code(&node);
    let update = result.expect("should produce an update");

    match update {
        Update::PairingCode { code, timeout } => {
            assert_eq!(code, "WXYZ-1234");
            assert_eq!(timeout, 120);
        }
        other => panic!("expected PairingCode, got {other:?}"),
    }
}

#[test]
fn pair_code_non_iq_returns_none() {
    let node = Stanza::new("message").with_children(vec![Stanza::new("pair-code").with_attr("code", "TEST")]);

    let result = handle_pair_code(&node);
    assert!(result.is_none());
}

#[test]
fn pair_code_non_set_iq_returns_none() {
    let node = Stanza::new("iq")
        .with_attr("type", "get")
        .with_children(vec![Stanza::new("pair-code").with_attr("code", "TEST")]);

    let result = handle_pair_code(&node);
    assert!(result.is_none());
}

#[test]
fn pair_code_missing_code_attr_returns_none() {
    let node = Stanza::new("iq")
        .with_attr("type", "set")
        .with_children(vec![Stanza::new("pair-code").with_attr("timeout", "60")]);

    let result = handle_pair_code(&node);
    assert!(result.is_none());
}

#[test]
fn pair_code_no_pair_code_child_returns_none() {
    let node = Stanza::new("iq").with_attr("type", "set").with_children(vec![Stanza::new("other")]);

    let result = handle_pair_code(&node);
    assert!(result.is_none());
}

#[test]
fn app_state_sync_spec_new_requests_snapshot() {
    let spec = AppStateSyncSpec::new("critical_block");

    assert!(spec.wants_snapshot(), "version 0 should request snapshot");
    assert_eq!(spec.name, "critical_block");
    assert_eq!(spec.version, 0);
}

#[test]
fn app_state_sync_spec_after_version_does_not_request_snapshot() {
    let spec = AppStateSyncSpec::after_version("regular_high", 42);

    assert!(!spec.wants_snapshot(), "version > 0 should not request snapshot");
    assert_eq!(spec.name, "regular_high");
    assert_eq!(spec.version, 42);
}

#[test]
fn app_state_sync_spec_build_iq_snapshot_has_correct_structure() {
    let spec = AppStateSyncSpec::new("critical_block");
    let iq = spec.build_iq();

    assert_eq!(iq.namespace, "w:sync:app:state");
    let server = parse_jid("s.whatsapp.net").unwrap();
    assert_eq!(iq.to.user, server.user);
    assert_eq!(iq.to.server, server.server);
    assert_eq!(iq.to.agent, server.agent);
    assert_eq!(iq.to.device, server.device);
    match iq.query_type {
        waepic::connection::InfoQueryType::SetQuery => {}
        other => panic!("expected Set, got {other:?}"),
    }

    let nodes = match &iq.content {
        Some(StanzaContent::Nodes(n)) => n,
        other => panic!("expected StanzaContent::Nodes, got {other:?}"),
    };
    assert_eq!(nodes.len(), 1, "should have one <sync> child");
    assert_eq!(nodes[0].tag, "sync");

    let collection = nodes[0].get_optional_child("collection").expect("should have <collection> child");
    assert_eq!(attr(collection, "name"), Some("critical_block".to_string()));
    assert_eq!(attr(collection, "return_snapshot"), Some("true".to_string()));
    assert!(attr(collection, "version").is_none(), "snapshot request should not have version attr");
}

#[test]
fn app_state_sync_spec_build_iq_patch_has_version() {
    let spec = AppStateSyncSpec::after_version("regular", 15);
    let iq = spec.build_iq();

    let nodes = match &iq.content {
        Some(StanzaContent::Nodes(n)) => n,
        _ => panic!("expected StanzaContent::Nodes"),
    };

    let collection = nodes[0].get_optional_child("collection").expect("should have <collection> child");
    assert_eq!(attr(collection, "version"), Some("15".to_string()));
    assert_eq!(attr(collection, "return_snapshot"), Some("false".to_string()));
}

#[test]
fn app_state_sync_spec_parse_response_succeeds_for_result() {
    let spec = AppStateSyncSpec::new("critical_block");
    let response = Stanza::new("iq").with_attr("type", "result");

    let result = spec.parse_response(&response);
    assert!(result.is_ok(), "parse_response should succeed for result IQ");
}
