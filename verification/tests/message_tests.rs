use waepic::error::ClientError;
use waepic::message::{send_path, SendPath};
use waepic::peer::chat_for_jid;
use waepic::jid::Jid;
use waepic::message::{
    build_edit_proto, build_forward_proto, build_message_node, build_reaction_node, build_reaction_proto,
    build_read_receipt_node, build_read_receipt_node_at, build_revoke_proto, generate_message_id, input_to_proto, InputMessage,
    MessageIdGenerator, ProtoMessage, ProtoMessageKind, RevokeType,
};
use waepic::stanza::{Stanza, StanzaContent};

fn attr(node: &Stanza, key: &str) -> Option<String> {
    node.get_attr(key).cloned()
}

fn text_message(text: &str) -> ProtoMessage {
    ProtoMessage {
        conversation: Some(text.to_string()),
        extended_text_message: None,
        protocol_message: None,
        reaction_message: None,
    }
}

fn empty_message() -> ProtoMessage {
    ProtoMessage { conversation: None, extended_text_message: None, protocol_message: None, reaction_message: None }
}

#[test]
fn generate_message_id_has_correct_prefix() {
    let mut generator = MessageIdGenerator::new();
    let id = generate_message_id(&mut generator);

    assert!(id.starts_with("3EB0"), "message ID should start with 3EB0, got: {id}");
}

#[test]
fn generate_message_id_has_correct_length() {
    let mut generator = MessageIdGenerator::new();
    let id = generate_message_id(&mut generator);

    assert_eq!(id.len(), 22, "message ID should be 22 chars, got {id}: '{id}'");
}

#[test]
fn generate_message_id_is_unique() {
    let mut generator = MessageIdGenerator::new();
    let id1 = generate_message_id(&mut generator);
    let id2 = generate_message_id(&mut generator);

    assert_ne!(id1, id2, "consecutive message IDs should be unique");
}

#[test]
fn input_to_proto_simple_text() {
    let msg = InputMessage::text("hello world".to_string());
    let proto = input_to_proto(&msg);

    assert_eq!(proto.conversation.as_deref(), Some("hello world"));
    assert!(proto.extended_text_message.as_ref().and_then(|e| e.text.as_ref()).is_none());
}

#[test]
fn input_to_proto_empty_text() {
    let msg = InputMessage::empty();
    let proto = input_to_proto(&msg);

    assert!(proto.conversation.is_none());
    assert!(proto.extended_text_message.as_ref().and_then(|e| e.text.as_ref()).is_none());
}

#[test]
fn input_to_proto_reply() {
    let msg = InputMessage::text("a reply".to_string()).reply_to(Some("ORIGINAL_MSG_ID".to_string()));
    let proto = input_to_proto(&msg);
    assert!(proto.conversation.is_none());

    let etm = proto.extended_text_message.as_ref().unwrap();
    assert_eq!(etm.text.as_deref(), Some("a reply"));

    let ctx = etm.context_info.as_ref().unwrap();
    assert_eq!(ctx.stanza_id.as_deref(), Some("ORIGINAL_MSG_ID"));
}

#[test]
fn input_to_proto_reply_without_text() {
    let msg = InputMessage::empty().reply_to(Some("ORIGINAL_MSG_ID".to_string()));
    let proto = input_to_proto(&msg);
    assert!(proto.conversation.is_none());

    let etm = proto.extended_text_message.as_ref().unwrap();
    assert!(etm.text.is_none());

    let ctx = etm.context_info.as_ref().unwrap();
    assert_eq!(ctx.stanza_id.as_deref(), Some("ORIGINAL_MSG_ID"));
}

#[test]
fn build_message_node_has_correct_structure() {
    let jid = Jid::pn("12345");
    let proto = text_message("test");
    let node = build_message_node(&jid, "3EB0TEST", &proto).unwrap();

    assert_eq!(node.tag, "message");
    assert_eq!(attr(&node, "to").as_deref(), Some("12345@s.whatsapp.net"));
    assert_eq!(attr(&node, "type").as_deref(), Some("text"));
    assert_eq!(attr(&node, "id").as_deref(), Some("3EB0TEST"));
}

#[test]
fn build_reaction_proto_has_correct_structure() {
    let jid = Jid::pn("12345");
    let proto = build_reaction_proto(&jid, "TARGET_MSG_ID", ":heart:\u{fe0f}");

    let reaction = proto.reaction_message.as_ref().unwrap();
    assert_eq!(reaction.text.as_deref(), Some(":heart:\u{fe0f}"));

    let key = reaction.key.as_ref().unwrap();
    assert_eq!(key.remote_jid.as_deref(), Some("12345@s.whatsapp.net"));
    assert_eq!(key.from_me, Some(true));
    assert_eq!(key.id.as_deref(), Some("TARGET_MSG_ID"));
    assert!(key.participant.is_none());
    assert!(reaction.sender_timestamp_ms.is_some());
}

#[test]
fn build_reaction_node_has_correct_structure() {
    let jid = Jid::pn("12345");
    let proto = build_reaction_proto(&jid, "TARGET_MSG_ID", ":+1:");
    let node = build_reaction_node(&jid, "3EB0REACT", &proto).unwrap();

    assert_eq!(node.tag, "message");
    assert_eq!(attr(&node, "to").as_deref(), Some("12345@s.whatsapp.net"));
    assert_eq!(attr(&node, "type").as_deref(), Some("text"));
    assert_eq!(attr(&node, "id").as_deref(), Some("3EB0REACT"));

    let plaintext = node.get_optional_child("plaintext").expect("should have plaintext child");
    assert!(plaintext.content.is_some(), "plaintext should have content");
}

#[test]
fn build_read_receipt_node_has_correct_structure() {
    let jid = Jid::pn("12345");
    let node = build_read_receipt_node(&jid, &["MSG_ID_001"]);

    assert_eq!(node.tag, "receipt");
    assert_eq!(attr(&node, "to").as_deref(), Some("12345@s.whatsapp.net"));
    assert_eq!(attr(&node, "type").as_deref(), Some("read"));
    assert_eq!(attr(&node, "id").as_deref(), Some("MSG_ID_001"));
    assert!(attr(&node, "t").is_some(), "should have timestamp");
}

#[test]
fn read_receipt_marks_every_id() {
    let jid = Jid::pn("12345");
    let node = build_read_receipt_node_at(&jid, &["A", "B", "C"], 1700000000);
    assert_eq!(attr(&node, "id").as_deref(), Some("A"));
    assert_eq!(attr(&node, "t").as_deref(), Some("1700000000"));
    let list = match &node.content {
        Some(StanzaContent::Nodes(v)) => &v[0],
        other => panic!("unexpected {other:?}"),
    };
    assert_eq!(list.tag, "list");
    let items = match &list.content {
        Some(StanzaContent::Nodes(v)) => v,
        other => panic!("unexpected {other:?}"),
    };
    let ids: Vec<Option<String>> = items.iter().map(|i| attr(i, "id")).collect();
    assert_eq!(ids, vec![Some("B".to_string()), Some("C".to_string())]);
    assert!(build_read_receipt_node_at(&jid, &["A"], 1).content.is_none());
}

#[test]
fn build_read_receipt_node_for_group() {
    let jid = Jid::group("123456789");
    let node = build_read_receipt_node(&jid, &["GRP_MSG_001"]);

    assert_eq!(node.tag, "receipt");
    assert_eq!(attr(&node, "to").as_deref(), Some("123456789@g.us"));
    assert_eq!(attr(&node, "type").as_deref(), Some("read"));
}

#[test]
fn build_edit_proto_has_correct_protocol_message_type() {
    let jid = Jid::pn("12345");
    let new_content = text_message("edited text");
    let proto = build_edit_proto(&jid, "ORIGINAL_ID", &new_content, 1719000000000);

    let pm = proto.protocol_message.as_ref().unwrap();
    assert_eq!(pm.kind, Some(ProtoMessageKind::MessageEdit));
}

#[test]
fn build_edit_proto_has_correct_key() {
    let jid = Jid::pn("12345");
    let new_content = text_message("edited text");
    let proto = build_edit_proto(&jid, "ORIGINAL_ID", &new_content, 1719000000000);

    let pm = proto.protocol_message.as_ref().unwrap();
    let key = pm.key.as_ref().unwrap();
    assert_eq!(key.remote_jid.as_deref(), Some("12345@s.whatsapp.net"));
    assert_eq!(key.from_me, Some(true));
    assert_eq!(key.id.as_deref(), Some("ORIGINAL_ID"));
    assert!(key.participant.is_none());
}

#[test]
fn build_edit_proto_carries_edited_content() {
    let jid = Jid::pn("12345");
    let new_content = text_message("edited text");
    let proto = build_edit_proto(&jid, "ORIGINAL_ID", &new_content, 1719000000000);

    let pm = proto.protocol_message.as_ref().unwrap();
    let edited = pm.edited_message.as_ref().unwrap();
    assert_eq!(edited.conversation.as_deref(), Some("edited text"));
}

#[test]
fn build_edit_proto_has_timestamp() {
    let jid = Jid::pn("12345");
    let new_content = empty_message();
    let proto = build_edit_proto(&jid, "ORIGINAL_ID", &new_content, 1719000000000);

    let pm = proto.protocol_message.as_ref().unwrap();
    assert_eq!(pm.timestamp_ms, Some(1719000000000));
}

#[test]
fn build_revoke_proto_has_correct_protocol_message_type() {
    let jid = Jid::pn("12345");
    let proto = build_revoke_proto(&jid, "MSG_TO_DELETE", None);

    let pm = proto.protocol_message.as_ref().unwrap();
    assert_eq!(pm.kind, Some(ProtoMessageKind::Revoke));
}

#[test]
fn build_revoke_proto_has_correct_key() {
    let jid = Jid::pn("12345");
    let proto = build_revoke_proto(&jid, "MSG_TO_DELETE", None);

    let pm = proto.protocol_message.as_ref().unwrap();
    let key = pm.key.as_ref().unwrap();
    assert_eq!(key.remote_jid.as_deref(), Some("12345@s.whatsapp.net"));
    assert_eq!(key.from_me, Some(true));
    assert_eq!(key.id.as_deref(), Some("MSG_TO_DELETE"));
    assert!(key.participant.is_none());
}

#[test]
fn build_revoke_proto_sender_has_no_participant() {
    let jid = Jid::pn("12345");
    let proto = build_revoke_proto(&jid, "MSG_TO_DELETE", None);

    let pm = proto.protocol_message.as_ref().unwrap();
    let key = pm.key.as_ref().unwrap();
    assert!(key.participant.is_none());
}

#[test]
fn build_revoke_proto_admin_has_participant() {
    let jid = Jid::pn("12345");
    let proto = build_revoke_proto(&jid, "MSG_TO_DELETE", Some("99999@s.whatsapp.net"));

    let pm = proto.protocol_message.as_ref().unwrap();
    let key = pm.key.as_ref().unwrap();
    assert_eq!(key.participant.as_deref(), Some("99999@s.whatsapp.net"));
}

#[test]
fn build_revoke_proto_has_no_edited_message() {
    let jid = Jid::pn("12345");
    let proto = build_revoke_proto(&jid, "MSG_TO_DELETE", None);

    let pm = proto.protocol_message.as_ref().unwrap();
    assert!(pm.edited_message.is_none());
}

#[test]
fn build_forward_proto_has_forwarding_context() {
    let source_jid = Jid::pn("11111");
    let proto = build_forward_proto(&source_jid, "ORIGINAL_MSG");

    let etm = proto.extended_text_message.as_ref().unwrap();
    let ctx = etm.context_info.as_ref().unwrap();
    assert_eq!(ctx.is_forwarded, Some(true));
    assert_eq!(ctx.forwarding_score, Some(1));
    assert_eq!(ctx.stanza_id.as_deref(), Some("ORIGINAL_MSG"));
    assert_eq!(ctx.remote_jid.as_deref(), Some("11111@s.whatsapp.net"));
}

#[test]
fn build_forward_proto_has_placeholder_text() {
    let source_jid = Jid::pn("11111");
    let proto = build_forward_proto(&source_jid, "ORIGINAL_MSG");

    let etm = proto.extended_text_message.as_ref().unwrap();
    assert_eq!(etm.text.as_deref(), Some("[Forwarded message]"));
}

#[test]
fn build_forward_proto_has_no_conversation_field() {
    let source_jid = Jid::pn("11111");
    let proto = build_forward_proto(&source_jid, "ORIGINAL_MSG");

    assert!(proto.conversation.is_none());
}

#[test]
fn revoke_type_sender_variant() {
    let rt = RevokeType::Sender;
    assert!(matches!(rt, RevokeType::Sender));
}

#[test]
fn revoke_type_admin_variant() {
    let rt = RevokeType::Admin { original_sender: Jid::pn("99999") };
    assert!(matches!(rt, RevokeType::Admin { .. }));
}

#[test]
fn sending_needs_a_connection_first() {
    let chat = chat_for_jid(Jid::pn("12345"));
    assert!(matches!(send_path(&chat, false, None, None), Err(ClientError::NotConnected)));
    assert!(matches!(send_path(&chat, true, None, None), Err(ClientError::NotLoggedIn)));
    assert!(matches!(send_path(&chat, true, Some(Jid::pn("999")), None), Ok(SendPath::Direct { .. })));
}
