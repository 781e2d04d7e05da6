use waepic::incoming::{DecryptAttempts, DecryptStep, EncKind};
use waepic::incoming::{timestamp_in_range, CHRONO_MAX_SECS, CHRONO_MIN_SECS};
use waepic::incoming::{enc_payloads, parse_prekey_message, parse_signal_message};
use waepic::incoming::{decode_decrypted, decrypted_message_update, parse_message_header};
use buffa::Message as _;
use waepic::history::{handle_history_sync, history_updates, HistoryConversation, HistoryMessage};
use waepic::incoming::{extract_plaintext_content, message_sender, padding_version, process_incoming_node, IncomingOutcome};
use waepic::jid::Jid;
use waepic::message::ProtoMessage;
use waepic::stanza::{Stanza, StanzaContent};
use waepic::update::Update;
use waproto::whatsapp as wa;

fn encoded_text(text: &str) -> Vec<u8> {
    wa::Message { conversation: Some(text.to_string()), ..Default::default() }.encode_to_vec()
}

#[test]
fn plaintext_messages_become_new_messages() {
    let node = Stanza::new("message")
        .with_attr("from", "12345@s.whatsapp.net")
        .with_attr("id", "MSG_RCV_001")
        .with_attr("type", "text")
        .with_attr("t", "1719000000")
        .with_children(vec![Stanza::new("plaintext").with_bytes(encoded_text("hello from integration test"))]);

    match process_incoming_node(&node, 42) {
        IncomingOutcome::Produced(Update::NewMessage(m)) => {
            assert_eq!(m.id(), "MSG_RCV_001");
            assert_eq!(m.text().map(|s| s.as_str()), Some("hello from integration test"));
            assert!(!m.outgoing());
            assert_eq!(m.info.timestamp, 1719000000);
            assert_eq!(m.info.sender.to_text(), "12345@s.whatsapp.net");
            assert_eq!(m.info.message_type, "text");
        }
        other => panic!("expected a new message, got {other:?}"),
    }
}

#[test]
fn direct_content_and_missing_time_fall_back() {
    let node = Stanza::new("message")
        .with_attr("from", "99999@s.whatsapp.net")
        .with_attr("id", "DIRECT001")
        .with_bytes(encoded_text("direct content"));
    match process_incoming_node(&node, 77) {
        IncomingOutcome::Produced(Update::NewMessage(m)) => {
            assert_eq!(m.text().map(|s| s.as_str()), Some("direct content"));
            assert_eq!(m.info.timestamp, 77);
            assert_eq!(m.info.message_type, "");
        }
        other => panic!("expected a new message, got {other:?}"),
    }
}

#[test]
fn encrypted_and_foreign_stanzas_are_routed_or_ignored() {
    let enc = Stanza::new("message")
        .with_attr("from", "123456789@g.us")
        .with_attr("participant", "555@s.whatsapp.net")
        .with_attr("id", "E1")
        .with_children(vec![Stanza::new("enc").with_attr("v", "3").with_bytes(vec![1, 2])]);
    match process_incoming_node(&enc, 0) {
        IncomingOutcome::Encrypted(h) => {
            assert_eq!(h.id, "E1");
            let sender = message_sender(&enc, &h.from);
            assert_eq!(sender.to_text(), "555@s.whatsapp.net");
        }
        other => panic!("expected an encrypted stanza, got {other:?}"),
    }
    assert_eq!(padding_version(&enc), 3);
    assert_eq!(padding_version(&Stanza::new("message")), 2);

    assert!(matches!(process_incoming_node(&Stanza::new("receipt"), 0), IncomingOutcome::Ignored));
    let no_from = Stanza::new("message").with_bytes(encoded_text("x"));
    assert!(matches!(process_incoming_node(&no_from, 0), IncomingOutcome::Ignored));
    let no_content = Stanza::new("message").with_attr("from", "1@s.whatsapp.net");
    assert!(matches!(process_incoming_node(&no_content, 0), IncomingOutcome::Ignored));
}

#[test]
fn plaintext_child_text_is_taken_as_bytes() {
    let node = Stanza::new("message").with_children(vec![Stanza {
        tag: "plaintext".to_string(),
        attrs: vec![],
        content: Some(StanzaContent::Text("héllo".to_string())),
    }]);
    assert_eq!(extract_plaintext_content(&node), Some("héllo".as_bytes().to_vec()));
}

fn history_message(id: &str, participant: Option<&str>, ts: Option<u64>, text: &str) -> HistoryMessage {
    HistoryMessage {
        id: Some(id.to_string()),
        from_me: None,
        participant: participant.map(|p| p.to_string()),
        timestamp: ts,
        content: ProtoMessage { conversation: Some(text.to_string()), extended_text_message: None, protocol_message: None, reaction_message: None },
    }
}

#[test]
fn history_conversations_become_one_chunk_and_a_completion() {
    let convs = vec![
        HistoryConversation {
            id: "111@s.whatsapp.net".to_string(),
            new_jid: None,
            name: Some(String::new()),
            pinned: Some(3),
            archived: Some(true),
            mute_end_time: Some(0),
            unread_count: Some(4),
            messages: vec![
                history_message("A", None, Some(1700000000), "hi"),
                history_message("B", Some("not a jid@@"), Some(1), "dropped"),
            ],
        },
        HistoryConversation {
            id: "@@@".to_string(),
            new_jid: None,
            name: None,
            pinned: None,
            archived: None,
            mute_end_time: None,
            unread_count: None,
            messages: vec![],
        },
    ];
    let updates = history_updates(&convs, 5);
    assert_eq!(updates.len(), 2);
    assert!(matches!(updates[1], Update::HistorySyncCompleted));
    match &updates[0] {
        Update::HistorySync(chunk) => {
            assert_eq!(chunk.conversations.len(), 1);
            let c = &chunk.conversations[0];
            assert_eq!(c.jid.to_text(), "111@s.whatsapp.net");
            assert!(c.name.is_none());
            assert!(c.pinned && c.archived && !c.muted);
            assert_eq!(c.unread_count, 4);
            assert_eq!(c.messages.len(), 1);
            assert_eq!(c.messages[0].info.id, "A");
            assert_eq!(c.messages[0].info.timestamp, 1700000000);
        }
        other => panic!("expected a history chunk, got {other:?}"),
    }

    let none = history_updates(&vec![], 5);
    assert_eq!(none.len(), 1);
    assert!(matches!(none[0], Update::HistorySyncCompleted));
}

#[test]
fn history_sync_node_without_payload_produces_nothing() {
    assert!(handle_history_sync(&Stanza::new("ib"), 0).is_empty());
    let corrupt = Stanza::new("ib").with_children(vec![Stanza::new("history_sync").with_bytes(vec![1, 2, 3])]);
    assert!(handle_history_sync(&corrupt, 0).is_empty());
    let _ = Jid::pn("1");
}

#[test]
fn decrypted_payloads_are_unpadded_and_decoded() {
    let mut padded = encoded_text("secret hello");
    padded.extend_from_slice(&[3, 3, 3]);
    let d = decode_decrypted(&padded, 2).expect("decodes");
    assert_eq!(d.content.conversation.as_deref(), Some("secret hello"));
    assert!(!d.sender_key_only);
    assert!(d.distribution.is_none());
    assert!(decode_decrypted(&encoded_text("x"), 3).is_some());
    let mut bad = encoded_text("x");
    bad.extend_from_slice(&[2, 3]);
    assert!(decode_decrypted(&bad, 2).is_none());

    let node = Stanza::new("message").with_attr("from", "12345@s.whatsapp.net").with_attr("id", "M1").with_attr("t", "1700000000");
    let header = parse_message_header(&node).expect("header");
    match decrypted_message_update(&header, Jid::pn("12345"), &padded, 2, 5) {
        Some(Update::NewMessage(m)) => {
            assert_eq!(m.content.conversation.as_deref(), Some("secret hello"));
            assert_eq!(m.info.id, "M1");
        }
        other => panic!("unexpected {other:?}"),
    }
    assert!(decrypted_message_update(&header, Jid::pn("12345"), &bad, 2, 5).is_none());
}

#[test]
fn enc_payloads_are_sorted_in_order() {
    let node = Stanza::new("message").with_attr("from", "12345@s.whatsapp.net").with_children(vec![
        Stanza::new("enc").with_attr("type", "skmsg").with_bytes(vec![3]),
        Stanza::new("enc").with_attr("type", "pkmsg").with_bytes(vec![1]),
        Stanza::new("enc").with_attr("type", "msg").with_bytes(vec![2]),
        Stanza::new("enc").with_attr("type", "msmsg").with_bytes(vec![4]),
        Stanza::new("enc").with_attr("type", "msg"),
        Stanza::new("other").with_attr("type", "msg").with_bytes(vec![5]),
    ]);
    let p = enc_payloads(&node);
    let session: Vec<(bool, Vec<u8>)> = p.session.iter().map(|e| (e.prekey, e.ciphertext.clone())).collect();
    assert_eq!(session, vec![(true, vec![1]), (false, vec![2])]);
    let group: Vec<Vec<u8>> = p.group.iter().map(|e| e.ciphertext.clone()).collect();
    assert_eq!(group, vec![vec![3]]);
    assert!(parse_prekey_message(&[0u8, 1, 2]).is_none());
    assert!(parse_signal_message(&[]).is_none());
}

#[test]
fn chrono_range_ends_where_the_contract_says() {
    assert!(timestamp_in_range(CHRONO_MAX_SECS));
    assert!(!timestamp_in_range(CHRONO_MAX_SECS + 1));
    assert!(timestamp_in_range(CHRONO_MIN_SECS));
    assert!(!timestamp_in_range(CHRONO_MIN_SECS - 1));
    assert!(timestamp_in_range(0));
    assert!(!timestamp_in_range(i64::MAX));
    assert!(!timestamp_in_range(i64::MIN));
}

#[test]
fn decryption_stops_at_the_first_opened_payload() {
    let mut attempts = DecryptAttempts::new(2, 1);
    assert!(matches!(attempts.step(None), DecryptStep::Try(EncKind::Session, 0)));
    assert!(matches!(attempts.step(None), DecryptStep::Try(EncKind::Session, 1)));
    assert!(matches!(attempts.step(None), DecryptStep::Try(EncKind::Group, 0)));
    match attempts.step(Some(vec![7, 8])) {
        DecryptStep::Opened(p) => assert_eq!(p, vec![7, 8]),
        other => panic!("unexpected {other:?}"),
    }
    let mut none_open = DecryptAttempts::new(1, 0);
    assert!(matches!(none_open.step(None), DecryptStep::Try(EncKind::Session, 0)));
    assert!(matches!(none_open.step(None), DecryptStep::GiveUp));
}
