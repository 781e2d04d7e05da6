use waepic::connection::{
    build_iq_node, check_iq_response, fibonacci_backoff, iq_request_id, iq_timeout_secs, keepalive_ping,
    route_incoming, InfoQuery, IqIdGenerator, RunnerAction, RunnerEvent, RunnerState,
};
use waepic::error::ConnectionError;
use waepic::jid::Jid;
use waepic::stanza::{Stanza, StanzaContent};

#[test]
fn backoff_follows_fibonacci_with_jitter_and_caps() {
    let expected = [2, 2, 4, 6, 11, 16, 26, 40, 60, 60];
    for (attempt, secs) in expected.iter().enumerate() {
        assert_eq!(fibonacci_backoff(attempt as u64), *secs, "attempt {attempt}");
    }
    assert_eq!(fibonacci_backoff(u64::MAX), 60);
}

#[test]
fn runner_reconnects_with_backoff_and_resets_after_success() {
    let mut state = RunnerState::new();
    assert_eq!(state.step(true, false, 0, RunnerEvent::Begin), RunnerAction::Connect);
    assert_eq!(state.step(true, false, 0, RunnerEvent::ConnectFailed), RunnerAction::Wait { secs: 2 });
    assert_eq!(state.step(true, false, 0, RunnerEvent::ConnectFailed), RunnerAction::Wait { secs: 2 });
    assert_eq!(state.step(true, false, 0, RunnerEvent::ConnectFailed), RunnerAction::Wait { secs: 4 });
    assert_eq!(state.attempt, 3);
    assert_eq!(state.step(true, false, 0, RunnerEvent::Connected), RunnerAction::ReadLoop);
    assert_eq!(state.attempt, 0);
    assert_eq!(state.step(true, false, 0, RunnerEvent::ReadLoopEnded { clean: false }), RunnerAction::Wait { secs: 2 });
    assert_eq!(state.step(true, true, 0, RunnerEvent::Begin), RunnerAction::Stop { failed: false });
    assert_eq!(state.step(false, false, 0, RunnerEvent::ConnectFailed), RunnerAction::Stop { failed: true });
    assert_eq!(state.step(true, false, 0, RunnerEvent::ReadLoopEnded { clean: true }), RunnerAction::Stop { failed: false });
}

#[test]
fn runner_stops_after_the_reconnect_limit() {
    let mut state = RunnerState::new();
    assert_eq!(state.step(true, false, 2, RunnerEvent::Begin), RunnerAction::Connect);
    assert_eq!(state.step(true, false, 2, RunnerEvent::ConnectFailed), RunnerAction::Wait { secs: 2 });
    assert_eq!(state.step(true, false, 2, RunnerEvent::ConnectFailed), RunnerAction::Wait { secs: 2 });
    assert_eq!(state.step(true, false, 2, RunnerEvent::ConnectFailed), RunnerAction::Stop { failed: true });
    let mut unlimited = RunnerState::new();
    for _ in 0..20 {
        assert!(matches!(unlimited.step(true, false, 0, RunnerEvent::ConnectFailed), RunnerAction::Wait { .. }));
    }
}

#[test]
fn iq_nodes_carry_id_namespace_type_and_target() {
    let query = InfoQuery::get("w:p", Jid::pn("123"), None);
    let node = build_iq_node(query, "waepic_7");
    assert_eq!(node.tag, "iq");
    let attrs: Vec<(String, String)> = node.attrs.iter().map(|a| (a.key.clone(), a.value.clone())).collect();
    assert_eq!(
        attrs,
        vec![
            ("id".to_string(), "waepic_7".to_string()),
            ("xmlns".to_string(), "w:p".to_string()),
            ("type".to_string(), "get".to_string()),
            ("to".to_string(), "123@s.whatsapp.net".to_string()),
        ]
    );
    assert!(node.content.is_none());
}

#[test]
fn iq_ids_count_up_unless_the_query_has_one() {
    let mut ids = IqIdGenerator::new();
    let q = InfoQuery::set("md", Jid::pn("1"), None);
    assert_eq!(iq_request_id(&q, &mut ids), "waepic_0");
    assert_eq!(iq_request_id(&q, &mut ids), "waepic_1");
    let mut own = InfoQuery::set("md", Jid::pn("1"), Some(StanzaContent::Nodes(vec![])));
    own.id = Some("abc".to_string());
    own.timeout_secs = Some(5);
    assert_eq!(iq_request_id(&own, &mut ids), "abc");
    assert_eq!(ids.next_iq_id(), "waepic_2");
    assert_eq!(iq_timeout_secs(&q), 30);
    assert_eq!(iq_timeout_secs(&own), 5);
}

#[test]
fn iq_error_responses_name_their_text_or_code() {
    let ok = Stanza::new("iq").with_attr("type", "result");
    assert!(check_iq_response(&ok).is_ok());

    let with_text = Stanza::new("iq")
        .with_attr("type", "error")
        .with_children(vec![Stanza::new("error").with_attr("code", "404").with_attr("text", "item-not-found")]);
    assert!(matches!(check_iq_response(&with_text), Err(ConnectionError::Protocol(m)) if m == "IQ error: item-not-found"));

    let with_code = Stanza::new("iq").with_attr("type", "error").with_children(vec![Stanza::new("error").with_attr("code", "500")]);
    assert!(matches!(check_iq_response(&with_code), Err(ConnectionError::Protocol(m)) if m == "IQ error: error code: 500"));

    let bare = Stanza::new("iq").with_attr("type", "error");
    assert!(matches!(check_iq_response(&bare), Err(ConnectionError::Protocol(m)) if m == "IQ error: error code: unknown error"));
}

#[test]
fn keepalive_is_a_get_ping_to_the_server() {
    let ping = keepalive_ping();
    assert_eq!(ping.tag, "iq");
    assert_eq!(ping.get_attr("to").map(|s| s.as_str()), Some("s.whatsapp.net"));
    assert_eq!(ping.get_attr("xmlns").map(|s| s.as_str()), Some("w:p"));
    assert_eq!(ping.get_attr("type").map(|s| s.as_str()), Some("get"));
}

#[test]
fn server_set_iqs_are_acknowledged_unless_pair_success() {
    let success = Stanza::new("iq")
        .with_attr("type", "set")
        .with_attr("id", "srv-1")
        .with_children(vec![Stanza::new("success")]);
    let route = route_incoming(&success);
    assert!(route.announce_connected);
    let ack = route.ack.expect("acknowledged");
    assert_eq!(ack.get_attr("type").map(|s| s.as_str()), Some("result"));
    assert_eq!(ack.get_attr("id").map(|s| s.as_str()), Some("srv-1"));
    assert_eq!(ack.get_attr("to").map(|s| s.as_str()), Some("s.whatsapp.net"));
    assert!(route.resolve_waiter.is_none());

    let pairing = Stanza::new("iq")
        .with_attr("type", "set")
        .with_attr("id", "srv-2")
        .with_children(vec![Stanza::new("pair-success")]);
    let route = route_incoming(&pairing);
    assert!(!route.announce_connected);
    assert!(route.ack.is_none());
}

#[test]
fn responses_go_to_their_waiters_and_failures_log_out() {
    let result = Stanza::new("iq").with_attr("type", "result").with_attr("id", "waepic_3");
    let route = route_incoming(&result);
    assert_eq!(route.resolve_waiter.as_deref(), Some("waepic_3"));
    assert!(route.ack.is_none());
    assert!(!route.mark_logged_out);

    let failure = Stanza::new("failure").with_attr("id", "x");
    let route = route_incoming(&failure);
    assert!(route.mark_logged_out);
    assert!(route.resolve_waiter.is_none());
}
