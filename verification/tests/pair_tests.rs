use waepic::stanza::Stanza;
use waepic::pair::{
    extract_pair_device_refs, is_pair_device_node, is_pair_success_node, me_chat, paired_device_update,
    parse_pair_success, prekey_upload_ids, qr_timeout_secs, sanitize_phone, pair_request_id,
    parse_pair_code_confirmation, PairEvent, QrAction, QrEvent, QrRotation,
};
use waepic::error::{AuthError, ClientError};
use waepic::jid::{Jid, JidServer};
use waepic::peer::Chat;

#[test]
fn is_pair_success_detects_valid_node() {
    let success_child = Stanza::new("pair-success").with_children(vec![Stanza::new("device-identity").with_bytes(vec![1, 2, 3])]);
    let node = Stanza::new("iq")
        .with_attr("type", "set")
        .with_attr("from", "s.whatsapp.net")
        .with_children(vec![success_child]);
    assert!(is_pair_success_node(&node));
}

#[test]
fn is_pair_success_rejects_non_iq() {
    let node = Stanza::new("message");
    assert!(!is_pair_success_node(&node));
}

#[test]
fn is_pair_success_rejects_non_set_iq() {
    let node = Stanza::new("iq").with_attr("type", "result");
    assert!(!is_pair_success_node(&node));
}

#[test]
fn is_pair_success_rejects_get_iq() {
    let node = Stanza::new("iq").with_attr("type", "get").with_children(vec![Stanza::new("pair-success")]);
    assert!(!is_pair_success_node(&node));
}

#[test]
fn is_pair_success_rejects_iq_without_pair_success_child() {
    let node = Stanza::new("iq").with_attr("type", "set").with_children(vec![Stanza::new("other")]);
    assert!(!is_pair_success_node(&node));
}

fn pair_device_node(refs: Vec<Stanza>) -> Stanza {
    Stanza::new("iq")
        .with_attr("type", "set")
        .with_attr("id", "pd-1")
        .with_children(vec![Stanza::new("pair-device").with_children(refs)])
}

#[test]
fn pair_device_refs_are_read_in_order() {
    let node = pair_device_node(vec![
        Stanza::new("ref").with_bytes(b"ref-one".to_vec()),
        Stanza::new("other").with_bytes(b"ignored".to_vec()),
        Stanza::new("ref").with_bytes(vec![0xff, 0xfe]),
        Stanza::new("ref").with_bytes(b"ref-two".to_vec()),
    ]);
    assert!(is_pair_device_node(&node));
    assert_eq!(extract_pair_device_refs(&node), Some(vec!["ref-one".to_string(), "ref-two".to_string()]));
}

#[test]
fn pair_device_without_valid_refs_gives_none() {
    let node = pair_device_node(vec![Stanza::new("ref").with_bytes(vec![0xc3])]);
    assert_eq!(extract_pair_device_refs(&node), None);
    assert!(!is_pair_device_node(&Stanza::new("iq").with_attr("type", "set")));
}

#[test]
fn qr_codes_time_out_after_60_then_20_seconds() {
    assert_eq!(qr_timeout_secs(0), 60);
    assert_eq!(qr_timeout_secs(1), 20);
    assert_eq!(qr_timeout_secs(5), 20);
}

#[test]
fn qr_rotation_shows_each_code_then_expires() {
    let mut rotation = QrRotation::new(2);
    assert!(matches!(rotation.step(QrEvent::Next, true), QrAction::CheckPaired));
    assert!(matches!(rotation.step(QrEvent::PairedCheck { paired: false }, false), QrAction::Show { index: 0, timeout: 60 }));
    assert!(matches!(rotation.step(QrEvent::Shown { delivered: true }, false), QrAction::Wait));
    assert!(matches!(rotation.step(QrEvent::Other, false), QrAction::Wait));
    assert!(matches!(rotation.step(QrEvent::Next, false), QrAction::CheckPaired));
    assert!(matches!(rotation.step(QrEvent::PairedCheck { paired: false }, false), QrAction::Show { index: 1, timeout: 20 }));
    assert!(matches!(rotation.step(QrEvent::Shown { delivered: true }, false), QrAction::Wait));
    assert!(matches!(
        rotation.step(QrEvent::Next, false),
        QrAction::Finish(Some(PairEvent::Error(ClientError::Auth(AuthError::QrExpired))))
    ));
    assert!(rotation.done);
}

#[test]
fn qr_rotation_ends_on_success_or_lost_connection() {
    let mut rotation = QrRotation::new(3);
    rotation.step(QrEvent::Next, true);
    assert!(matches!(rotation.step(QrEvent::PairedCheck { paired: true }, false), QrAction::Finish(Some(PairEvent::Success))));

    let mut rotation = QrRotation::new(3);
    rotation.step(QrEvent::Next, true);
    rotation.step(QrEvent::PairedCheck { paired: false }, false);
    rotation.step(QrEvent::Shown { delivered: true }, false);
    assert!(matches!(
        rotation.step(QrEvent::ConnectionLost, false),
        QrAction::Finish(Some(PairEvent::Error(ClientError::NotConnected)))
    ));

    let mut rotation = QrRotation::new(0);
    assert!(matches!(
        rotation.step(QrEvent::Next, true),
        QrAction::Finish(Some(PairEvent::Error(ClientError::Auth(AuthError::QrExpired))))
    ));
}

fn pair_success_node() -> Stanza {
    let device = Stanza::new("device").with_attr("jid", "12345@s.whatsapp.net").with_attr("lid", "100000012345678@lid");
    let success = Stanza::new("pair-success").with_children(vec![
        Stanza::new("device-identity").with_bytes(vec![9, 8, 7]),
        Stanza::new("biz").with_attr("name", "Shop"),
        Stanza::new("platform").with_attr("name", "android"),
        device,
    ]);
    Stanza::new("iq").with_attr("type", "set").with_attr("id", "pair-success-1").with_children(vec![success])
}

#[test]
fn pair_success_payload_is_read() {
    let info = parse_pair_success(&pair_success_node()).expect("valid pair-success");
    assert_eq!(info.req_id, "pair-success-1");
    assert_eq!(info.device_identity, vec![9, 8, 7]);
    assert_eq!(info.business_name, "Shop");
    assert_eq!(info.platform, "android");
    assert_eq!(info.jid.to_text(), "12345@s.whatsapp.net");
    assert_eq!(info.lid.to_text(), "100000012345678@lid");

    let update = paired_device_update(&info);
    assert_eq!(update.pn.to_text(), "12345@s.whatsapp.net");
    assert_eq!(update.lid.map(|l| l.to_text()), Some("100000012345678@lid".to_string()));
    assert_eq!(update.push_name.as_deref(), Some("Shop"));
    assert!(!update.server_has_prekeys);
}

#[test]
fn pair_success_errors_name_what_is_missing() {
    let no_id = Stanza::new("iq").with_attr("type", "set");
    assert!(matches!(parse_pair_success(&no_id), Err(ClientError::Protocol(m)) if m == "pair-success missing id attribute"));

    let no_children = Stanza::new("iq").with_attr("id", "x");
    assert!(matches!(parse_pair_success(&no_children), Err(ClientError::Protocol(m)) if m == "pair-success has no children"));

    let no_child = Stanza::new("iq").with_attr("id", "x").with_children(vec![Stanza::new("other")]);
    assert!(matches!(parse_pair_success(&no_child), Err(ClientError::Protocol(m)) if m == "pair-success missing pair-success child"));

    let no_identity = Stanza::new("iq").with_attr("id", "x").with_children(vec![Stanza::new("pair-success")]);
    assert!(matches!(parse_pair_success(&no_identity), Err(ClientError::Protocol(m)) if m == "pair-success missing device-identity bytes"));
}

#[test]
fn pair_success_defaults_missing_device_fields() {
    let success = Stanza::new("pair-success").with_children(vec![Stanza::new("device-identity").with_bytes(vec![1])]);
    let node = Stanza::new("iq").with_attr("id", "y").with_children(vec![success]);
    let info = parse_pair_success(&node).unwrap();
    assert_eq!(info.business_name, "");
    assert_eq!(info.jid.user, "");
    assert_eq!(info.jid.server, JidServer::Pn);
    let update = paired_device_update(&info);
    assert!(update.lid.is_none());
    assert!(update.push_name.is_none());
}

#[test]
fn prekeys_top_up_to_one_hundred() {
    assert_eq!(prekey_upload_ids(100, 7), None);
    assert_eq!(prekey_upload_ids(250, 7), None);
    assert_eq!(prekey_upload_ids(97, 7), Some(vec![7, 8, 9]));
    assert_eq!(prekey_upload_ids(0, 1).map(|v| v.len()), Some(100));
}

#[test]
fn phone_numbers_are_reduced_to_digits_and_checked() {
    assert_eq!(sanitize_phone("+55 (11) 99999-8888").ok(), Some("5511999998888".to_string()));
    assert!(matches!(sanitize_phone("abc"), Err(ClientError::Internal(m)) if m == "phone number must contain at least one digit"));
    assert!(matches!(sanitize_phone("12-34"), Err(ClientError::Internal(m)) if m == "phone number is too short (must be at least 7 digits)"));
    assert!(matches!(sanitize_phone("0123456789"), Err(ClientError::Internal(m)) if m == "phone number must not start with 0 (use international format)"));
}

#[test]
fn pair_request_ids_are_sixteen_hex_digits() {
    assert_eq!(pair_request_id(0xabc), "0000000000000abc");
    assert_eq!(pair_request_id(u64::MAX), "ffffffffffffffff");
}

#[test]
fn pair_code_confirmation_needs_both_keys() {
    let reg = Stanza::new("link_code_companion_reg").with_children(vec![
        Stanza::new("link_code_pairing_wrapped_primary_ephemeral_pub").with_bytes(vec![1u8; 80]),
        Stanza::new("primary_identity_pub").with_bytes(vec![2u8; 32]),
    ]);
    let node = Stanza::new("notification").with_children(vec![reg]);
    let conf = parse_pair_code_confirmation(&node).expect("both keys present");
    assert_eq!(conf.wrapped_ephemeral, vec![1u8; 80]);
    assert_eq!(conf.identity_pub, vec![2u8; 32]);

    let short = Stanza::new("link_code_companion_reg").with_children(vec![
        Stanza::new("link_code_pairing_wrapped_primary_ephemeral_pub").with_bytes(vec![1u8; 79]),
        Stanza::new("primary_identity_pub").with_bytes(vec![2u8; 32]),
    ]);
    assert!(parse_pair_code_confirmation(&Stanza::new("notification").with_children(vec![short])).is_none());
}

#[test]
fn me_is_the_user_chat_with_its_push_name() {
    match me_chat(Some(Jid::pn("12345")), "Me".to_string()) {
        Ok(Chat::User(u)) => assert_eq!(u.push_name.as_deref(), Some("Me")),
        other => panic!("expected a user chat, got {other:?}"),
    }
    assert!(matches!(me_chat(None, "Me".to_string()), Err(ClientError::NotLoggedIn)));
}

#[test]
fn jid_text_shows_agent_and_device_as_the_server_does() {
    let pn = Jid { user: "123".to_string(), server: JidServer::Pn, agent: 1, device: 5, integrator: 0 };
    assert_eq!(pn.to_text(), "123:5@s.whatsapp.net");
    let bot = Jid { user: "bot1".to_string(), server: JidServer::Bot, agent: 2, device: 0, integrator: 0 };
    assert_eq!(bot.to_text(), "bot1.2@bot");
    let both = Jid { user: "u".to_string(), server: JidServer::Messenger, agent: 3, device: 17, integrator: 0 };
    assert_eq!(both.to_text(), "u.3:17@msgr");
    let hosted = Jid { user: "x".to_string(), server: JidServer::HostedLid, agent: 9, device: 12, integrator: 0 };
    assert_eq!(hosted.to_text(), "x:12@hosted.lid");
    let server = Jid { user: String::new(), server: JidServer::Group, agent: 4, device: 2, integrator: 0 };
    assert_eq!(server.to_text(), "g.us");
    let legacy = Jid { user: "555".to_string(), server: JidServer::Legacy, agent: 0, device: 0, integrator: 0 };
    assert_eq!(legacy.to_text(), "555@c.us");
}
