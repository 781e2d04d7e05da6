use rand::rngs::StdRng;
use wacore::libsignal::protocol::KeyPair;
use waepic::connection::InfoQueryType;
use waepic::error::{AuthError, ClientError};
use waepic::jid::{Jid, JidServer};
use waepic::pair::{PairCodeConfirmation, PairSuccessInfo};
use waepic::pairing::{
    PairCodeFailure, PairCodeWaiting, PairCryptoFailure, companion_hello, confirm_pair_code, finish_with_bundle,
    handle_pair_success, pair_success_outcome, pairing_ref, request_pair_code,
};
use waepic::stanza::{Stanza, StanzaContent};

fn key_pair() -> KeyPair {
    KeyPair::generate(&mut rand::make_rng::<StdRng>())
}

fn device_state() -> wacore::pair::DeviceState {
    wacore::pair::DeviceState { identity_key: key_pair(), noise_key: key_pair(), adv_secret_key: [7u8; 32] }
}

fn info(lid_user: &str, business: &str) -> PairSuccessInfo {
    PairSuccessInfo {
        req_id: "req-9".to_string(),
        device_identity: vec![1, 2, 3],
        business_name: business.to_string(),
        platform: "android".to_string(),
        jid: Jid::pn("15551234567"),
        lid: Jid { user: lid_user.to_string(), server: JidServer::Lid, agent: 0, device: 0, integrator: 0 },
    }
}

fn attr<'a>(n: &'a Stanza, key: &str) -> Option<&'a str> {
    n.attrs.iter().find(|a| a.key == key).map(|a| a.value.as_str())
}

fn kids(n: &Stanza) -> &Vec<Stanza> {
    match &n.content {
        Some(StanzaContent::Nodes(v)) => v,
        other => panic!("expected children, got {other:?}"),
    }
}

fn bytes(n: &Stanza) -> &Vec<u8> {
    match &n.content {
        Some(StanzaContent::Bytes(b)) => b,
        other => panic!("expected bytes, got {other:?}"),
    }
}

#[test]
fn pair_success_outcome_names_failed_crypto_step() {
    let r = pair_success_outcome(info("", ""), Err(PairCryptoFailure { code: 401, text: "hmac-mismatch".to_string() }));
    match r {
        Err(ClientError::Auth(AuthError::PairFailed(m))) => assert_eq!(m, "crypto validation failed (401): hmac-mismatch"),
        other => panic!("unexpected {other:?}"),
    }
}

#[test]
fn pair_success_outcome_builds_signed_answer() {
    let o = pair_success_outcome(info("98765", "Shop"), Ok((vec![9, 8, 7], 12))).unwrap();
    assert_eq!(o.response.tag, "iq");
    assert_eq!(attr(&o.response, "to"), Some("s.whatsapp.net"));
    assert_eq!(attr(&o.response, "id"), Some("req-9"));
    assert_eq!(attr(&o.response, "type"), Some("result"));
    let sign = &kids(&o.response)[0];
    assert_eq!(sign.tag, "pair-device-sign");
    let identity = &kids(sign)[0];
    assert_eq!(identity.tag, "device-identity");
    assert_eq!(attr(identity, "key-index"), Some("12"));
    assert_eq!(bytes(identity), &vec![9, 8, 7]);
    assert_eq!(o.update.pn.user, "15551234567");
    assert_eq!(o.update.lid.as_ref().map(|j| j.user.as_str()), Some("98765"));
    assert_eq!(o.update.push_name.as_deref(), Some("Shop"));
    assert!(!o.update.server_has_prekeys);
}

#[test]
fn pair_success_outcome_keeps_device_fields_when_missing() {
    let o = pair_success_outcome(info("", ""), Ok((vec![], 0))).unwrap();
    assert!(o.update.lid.is_none());
    assert!(o.update.push_name.is_none());
    assert_eq!(attr(&kids(&kids(&o.response)[0])[0], "key-index"), Some("0"));
}

#[test]
fn handle_pair_success_rejects_missing_id() {
    let node = Stanza::new("iq").with_attr("type", "set");
    match handle_pair_success(&device_state(), &node) {
        Err(ClientError::Protocol(m)) => assert_eq!(m, "pair-success missing id attribute"),
        other => panic!("unexpected {other:?}"),
    }
}

#[test]
fn handle_pair_success_rejects_forged_identity() {
    let success = Stanza::new("pair-success").with_children(vec![Stanza::new("device-identity").with_bytes(vec![0xff, 0x01, 0x02])]);
    let node = Stanza::new("iq").with_attr("id", "abc").with_attr("type", "set").with_children(vec![success]);
    match handle_pair_success(&device_state(), &node) {
        Err(ClientError::Auth(AuthError::PairFailed(m))) => assert!(m.starts_with("crypto validation failed ("), "{m}"),
        other => panic!("unexpected {other:?}"),
    }
}

#[test]
fn companion_hello_has_registration_shape() {
    let q = companion_hello("15551234567", &[3u8; 32], &[4u8; 80], "1", "Chrome (Linux)", 0xab);
    assert_eq!(q.namespace, "md");
    assert!(matches!(q.query_type, InfoQueryType::SetQuery));
    assert_eq!(q.id.as_deref(), Some("00000000000000ab"));
    assert_eq!(q.timeout_secs, Some(30));
    let reg = match &q.content {
        Some(StanzaContent::Nodes(v)) => &v[0],
        other => panic!("unexpected {other:?}"),
    };
    assert_eq!(reg.tag, "link_code_companion_reg");
    assert_eq!(attr(reg, "jid"), Some("15551234567@s.whatsapp.net"));
    assert_eq!(attr(reg, "stage"), Some("companion_hello"));
    assert_eq!(attr(reg, "should_show_push_notification"), Some("true"));
    let cs = kids(reg);
    assert_eq!(cs.len(), 5);
    assert_eq!(cs[0].tag, "link_code_pairing_wrapped_companion_ephemeral_pub");
    assert_eq!(bytes(&cs[0]), &vec![4u8; 80]);
    assert_eq!(bytes(&cs[1]), &vec![3u8; 32]);
    assert_eq!(bytes(&cs[2]), &b"1".to_vec());
    assert_eq!(bytes(&cs[3]), &b"Chrome (Linux)".to_vec());
    assert_eq!(bytes(&cs[4]), &vec![0u8]);
}

#[test]
fn request_pair_code_checks_phone_first() {
    match request_pair_code("+1 (555)", key_pair().public_key.public_key_bytes(), "1", "Chrome (Linux)") {
        Err(ClientError::Internal(m)) => assert_eq!(m, "phone number is too short (must be at least 7 digits)"),
        Ok(_) => panic!("short phone accepted"),
        Err(e) => panic!("unexpected {e:?}"),
    }
    match request_pair_code("0123456789", key_pair().public_key.public_key_bytes(), "1", "Chrome (Linux)") {
        Err(ClientError::Internal(m)) => assert_eq!(m, "phone number must not start with 0 (use international format)"),
        Ok(_) => panic!("leading zero accepted"),
        Err(e) => panic!("unexpected {e:?}"),
    }
}

#[test]
fn request_pair_code_draws_code_and_hello() {
    let noise = key_pair();
    let p = match request_pair_code("+1 555-123-4567", noise.public_key.public_key_bytes(), "1", "Chrome (Linux)") {
        Ok(p) => p,
        Err(e) => panic!("unexpected {e:?}"),
    };
    assert_eq!(p.phone, "15551234567");
    assert_eq!(p.code.len(), 8);
    assert!(p.code.chars().all(|c| "123456789ABCDEFGHJKLMNPQRSTVWXYZ".contains(c)));
    let id = p.query.id.clone().unwrap();
    assert_eq!(id.len(), 16);
    let reg = match &p.query.content {
        Some(StanzaContent::Nodes(v)) => &v[0],
        other => panic!("unexpected {other:?}"),
    };
    let cs = kids(reg);
    assert_eq!(bytes(&cs[0]).len(), 80);
    assert_eq!(bytes(&cs[1]).as_slice(), noise.public_key.public_key_bytes());
    assert_eq!(p.ephemeral_pub.as_slice(), p.ephemeral.public_key.public_key_bytes());
}

#[test]
fn pair_code_unwraps_the_hello_key() {
    let noise = key_pair();
    let p = request_pair_code("15551234567", noise.public_key.public_key_bytes(), "1", "Chrome (Linux)").unwrap();
    let reg = match &p.query.content {
        Some(StanzaContent::Nodes(v)) => &v[0],
        other => panic!("unexpected {other:?}"),
    };
    let wrapped = bytes(&kids(reg)[0]).clone();
    let unwrapped = wacore::pair_code::PairCodeUtils::decrypt_primary_ephemeral_pub(&wrapped, &p.code).unwrap();
    assert_eq!(unwrapped.as_slice(), p.ephemeral_pub.as_slice());
    let other = wacore::pair_code::PairCodeUtils::decrypt_primary_ephemeral_pub(&wrapped, "ZZZZZZZZ").unwrap();
    assert_ne!(other.as_slice(), p.ephemeral_pub.as_slice());
}

#[test]
fn pairing_ref_reads_hello_answer() {
    let answer = Stanza::new("iq").with_children(vec![Stanza::new("link_code_companion_reg")
        .with_children(vec![Stanza::new("link_code_pairing_ref").with_bytes(b"REF1".to_vec())])]);
    assert_eq!(pairing_ref(&answer), Some(b"REF1".to_vec()));
    assert_eq!(pairing_ref(&Stanza::new("iq")), None);
}

fn waiting() -> PairCodeWaiting {
    PairCodeWaiting { pairing_ref: b"REF1".to_vec(), phone: "15551234567".to_string(), code: "ABCD1234".to_string(), ephemeral: key_pair() }
}

#[test]
fn finish_with_bundle_builds_companion_finish() {
    let f = finish_with_bundle(&waiting(), &[5u8; 32], Ok((vec![6u8; 156], vec![8u8; 32])), 1).unwrap();
    assert_eq!(f.adv_secret, vec![8u8; 32]);
    assert_eq!(attr(&f.iq, "xmlns"), Some("md"));
    assert_eq!(attr(&f.iq, "type"), Some("set"));
    assert_eq!(attr(&f.iq, "id"), Some("0000000000000001"));
    let reg = &kids(&f.iq)[0];
    assert_eq!(attr(reg, "stage"), Some("companion_finish"));
    assert_eq!(attr(reg, "jid"), Some("15551234567@s.whatsapp.net"));
    let ns = kids(reg);
    assert_eq!(bytes(&ns[0]), &vec![6u8; 156]);
    assert_eq!(bytes(&ns[1]), &vec![5u8; 32]);
    assert_eq!(bytes(&ns[2]), &b"REF1".to_vec());
}

#[test]
fn finish_with_bundle_passes_failure_on() {
    match finish_with_bundle(&waiting(), &[5u8; 32], Err("bad key".to_string()), 1) {
        Err(PairCodeFailure::KeyBundle(m)) => assert_eq!(m, "bad key"),
        other => panic!("unexpected {other:?}"),
    }
}

#[test]
fn confirm_pair_code_refuses_short_wrapping() {
    let c = PairCodeConfirmation { wrapped_ephemeral: vec![1u8; 79], identity_pub: vec![2u8; 32] };
    assert!(matches!(confirm_pair_code(&waiting(), &c, &key_pair(), &[9u8; 32]).0, Err(PairCodeFailure::PrimaryEphemeral(_))));
}

#[test]
fn confirm_pair_code_answers_a_real_primary() {
    let primary_identity = key_pair();
    let primary_ephemeral = key_pair();
    let w = waiting();
    let pub_key: [u8; 32] = primary_ephemeral.public_key.public_key_bytes().try_into().unwrap();
    let wrapped = wacore::pair_code::PairCodeUtils::encrypt_ephemeral_pub(&pub_key, &w.code).to_vec();
    let c = PairCodeConfirmation { wrapped_ephemeral: wrapped, identity_pub: primary_identity.public_key.public_key_bytes().to_vec() };
    let identity = key_pair();
    let f = confirm_pair_code(&w, &c, &identity, identity.public_key.public_key_bytes()).0.unwrap();
    assert_eq!(f.adv_secret.len(), 32);
    let ns = kids(&kids(&f.iq)[0]);
    assert_eq!(bytes(&ns[1]).as_slice(), identity.public_key.public_key_bytes());
    assert_eq!(bytes(&ns[2]), &b"REF1".to_vec());
}

#[test]
fn qr_codes_are_the_full_qr_strings() {
    let state = device_state();
    let refs = vec!["2@abc".to_string(), "2@def".to_string()];
    let codes = waepic::pairing::qr_codes(
        state.noise_key.public_key.public_key_bytes(),
        state.identity_key.public_key.public_key_bytes(),
        &state.adv_secret_key,
        &refs,
        waepic::pairing::CompanionClientType::Chrome,
    );
    assert_eq!(codes.len(), 2);
    for (code, r) in codes.iter().zip(refs.iter()) {
        let expected = wacore::pair::PairUtils::make_qr_data(&state, r, wacore::companion_reg::CompanionWebClientType::Chrome);
        assert_eq!(code, &expected);
        assert!(code.starts_with(&format!("{r},")));
        assert!(code.ends_with(",1"));
        assert_eq!(code.split(',').count(), 5);
    }
}

#[test]
fn pair_success_answer_carries_the_identity_key_index() {
    let info = info("", "");
    let o = pair_success_outcome(info, Ok((vec![1], 4))).unwrap();
    assert_eq!(attr(&kids(&kids(&o.response)[0])[0], "key-index"), Some("4"));
}
