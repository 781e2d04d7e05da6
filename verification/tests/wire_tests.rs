use wacore::noise::NoiseCipher;
use waepic::noise::NoiseSocket;
use waepic::stanza::{Stanza, StanzaContent};
use waepic::wire::{decode_stanza, marshal_stanza, process_incoming_frame, seal_stanza, unpack_frame};

fn sample() -> Stanza {
    Stanza::new("iq")
        .with_attr("id", "srv-9")
        .with_attr("type", "set")
        .with_attr("from", "s.whatsapp.net")
        .with_children(vec![Stanza::new("success").with_attr("lid", "12345@lid"), Stanza::new("blob").with_bytes(vec![0, 1, 2, 255])])
}

fn same(a: &Stanza, b: &Stanza) -> bool {
    let attrs = |s: &Stanza| s.attrs.iter().map(|x| (x.key.clone(), x.value.clone())).collect::<Vec<_>>();
    let content_same = match (&a.content, &b.content) {
        (None, None) => true,
        (Some(StanzaContent::Bytes(x)), Some(StanzaContent::Bytes(y))) => x == y,
        (Some(StanzaContent::Text(x)), Some(StanzaContent::Text(y))) => x == y,
        (Some(StanzaContent::Nodes(x)), Some(StanzaContent::Nodes(y))) => {
            x.len() == y.len() && x.iter().zip(y.iter()).all(|(p, q)| same(p, q))
        }
        _ => false,
    };
    a.tag == b.tag && attrs(a) == attrs(b) && content_same
}

#[test]
fn marshalled_stanzas_decode_back() {
    let s = sample();
    let bytes = marshal_stanza(&s).expect("marshal");
    let body = unpack_frame(&bytes).expect("unpack");
    let back = decode_stanza(&body).expect("decode");
    assert!(same(&s, &back), "{back:?}");
}

#[test]
fn sealed_stanzas_arrive_routed() {
    let key = [0x5au8; 32];
    let mut sender = NoiseSocket::new(NoiseCipher::new(&key).unwrap(), NoiseCipher::new(&key).unwrap());
    let mut receiver = NoiseSocket::new(NoiseCipher::new(&key).unwrap(), NoiseCipher::new(&key).unwrap());

    let framed = seal_stanza(&sender, &sample()).expect("sealed").frame;
    sender.commit_send();
    let (stanza, route, _) = process_incoming_frame(&mut receiver, framed[3..].to_vec()).expect("processed");
    assert!(same(&stanza, &sample()));
    assert!(route.announce_connected);
    assert_eq!(route.ack.and_then(|a| a.get_attr("id").cloned()).as_deref(), Some("srv-9"));
    assert_eq!(receiver.read_counter(), 1);
}

#[test]
fn garbage_frames_fail_to_open() {
    let key = [1u8; 32];
    let mut receiver = NoiseSocket::new(NoiseCipher::new(&key).unwrap(), NoiseCipher::new(&key).unwrap());
    let err = match process_incoming_frame(&mut receiver, vec![0u8; 40]) { Err(e) => e, Ok(_) => panic!("garbage opened") };
    assert!(err.to_text().starts_with("decrypt failed: "));
    assert!(decode_stanza(&[]).is_err());
}

#[test]
fn plaintext_is_unpacked_decoded_and_routed() {
    let s = sample();
    let mut plain = marshal_stanza(&s).expect("marshal");
    let (back, route) = waepic::wire::incoming_from_plaintext(&plain).expect("decode");
    assert!(same(&s, &back));
    assert!(route.announce_connected);
    assert_eq!(unpack_frame(&[0u8, 9, 8]).unwrap(), vec![9u8, 8]);
    assert!(unpack_frame(&[]).is_err());
    match waepic::wire::incoming_from_plaintext(&[]) {
        Err(waepic::error::ConnectionError::Protocol(m)) => assert!(m.starts_with("frame unpack failed: ")),
        other => panic!("unexpected {other:?}"),
    }
    plain.truncate(3);
    match waepic::wire::incoming_from_plaintext(&plain) {
        Err(waepic::error::ConnectionError::Protocol(m)) => assert!(m.starts_with("node parse failed: "), "{m}"),
        other => panic!("unexpected {other:?}"),
    }
}
