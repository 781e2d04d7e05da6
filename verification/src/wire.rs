//! The binary protocol: stanzas to and from wacore-binary's nodes, their
//! packing into frames, and the processing of one frame each way.

use vstd::prelude::*;
use vstd::string::*;

use crate::connection::{IncomingRoute, route_incoming, routes};
use crate::error::ConnectionError;
use crate::noise::{NoiseSocket, Sealed, TAG_LEN, cipher_call};
use wacore::noise::NoiseCipher;
use crate::stanza::{Attr, Stanza, StanzaContent};

verus! {

broadcast use vstd::string::group_string_axioms;

/// wacore-binary's protocol node.
#[verifier::external_type_specification]
#[verifier::external_body]
pub struct ExWireNode(wacore_binary::Node);

/// Our stanza for a wacore-binary node: its tag, its attributes in order
/// with each value as text, and its content.
#[verifier::external_body]
pub(crate) fn stanza_from_wire(n: &wacore_binary::Node) -> Stanza {
    Stanza {
        tag: n.tag.to_string(),
        attrs: n.attrs.iter().map(|(k, v)| Attr { key: k.to_string(), value: v.as_str().into_owned() }).collect(),
        content: match &n.content {
            None => None,
            Some(wacore_binary::NodeContent::Bytes(b)) => Some(StanzaContent::Bytes(b.clone())),
            Some(wacore_binary::NodeContent::String(s)) => Some(StanzaContent::Text(s.to_string())),
            Some(wacore_binary::NodeContent::Nodes(v)) => Some(StanzaContent::Nodes(v.iter().map(stanza_from_wire).collect())),
        },
    }
}

/// A wacore-binary node for our stanza, attribute values as strings.
#[verifier::external_body]
pub(crate) fn stanza_to_wire(s: &Stanza) -> wacore_binary::Node {
    let mut attrs = wacore_binary::node::Attrs::with_capacity(s.attrs.len());
    for a in &s.attrs {
        attrs.push(a.key.clone(), a.value.as_str());
    }
    let content = match &s.content {
        None => None,
        Some(StanzaContent::Bytes(b)) => Some(wacore_binary::NodeContent::Bytes(b.clone())),
        Some(StanzaContent::Text(t)) => Some(wacore_binary::NodeContent::String(t.as_str().into())),
        Some(StanzaContent::Nodes(v)) => Some(wacore_binary::NodeContent::Nodes(v.iter().map(stanza_to_wire).collect())),
    };
    wacore_binary::Node::new(s.tag.clone(), attrs, content)
}

/// What wacore-binary's `util::unpack_bytes` makes of a decrypted frame:
/// the binary node bytes (inflated when the frame says so), or `None` on
/// an error.
pub uninterp spec fn unpacked_frame(bytes: Seq<u8>) -> Option<Seq<u8>>;

/// The stanza wacore-binary's `OwnedNodeRef::new` decodes from node bytes,
/// or `None` on an error.
pub uninterp spec fn decoded_stanza(bytes: Seq<u8>) -> Option<Stanza>;

/// The bytes wacore-binary's `marshal` writes for a stanza, or `None` on an
/// error.
pub uninterp spec fn marshalled_stanza(s: Stanza) -> Option<Seq<u8>>;

/// Unpacks a decrypted frame with wacore-binary's `util::unpack_bytes`.
///
/// Trusted: the bytes are wacore-binary's; they are named
/// (`unpacked_frame`).  Its source refuses an empty frame and takes an
/// uncompressed one (flag bit 2 clear) as the bytes after the flag; the
/// inflation of a compressed one is not restated.  The error text is its
/// message.
#[verifier::external_body]
pub fn unpack_frame(frame: &[u8]) -> (r: Result<Vec<u8>, String>)
    ensures
        match unpacked_frame(frame@) {
            Some(b) => r matches Ok(v) && v@ == b,
            None => r is Err,
        },
        match r {
            Ok(v) => frame@.len() > 0 && (frame@[0] & 2u8 == 0 ==> v@ == frame@.subrange(1, frame@.len() as int)),
            Err(_) => frame@.len() == 0 || frame@[0] & 2u8 != 0,
        },
{
    wacore_binary::util::unpack_bytes(bytes::BytesMut::from(frame)).map(|b| b.to_vec()).map_err(|e| format!("{e}"))
}

/// Decodes node bytes with wacore-binary's `OwnedNodeRef::new`.
///
/// Trusted: the stanza is wacore-binary's decoding; it is named
/// (`decoded_stanza`) and not restated.  The error text is its message.
#[verifier::external_body]
pub fn decode_stanza(bytes: &[u8]) -> (r: Result<Stanza, String>)
    ensures
        match decoded_stanza(bytes@) {
            Some(s) => r == Ok::<Stanza, String>(s),
            None => r is Err,
        },
{
    match wacore_binary::OwnedNodeRef::new(bytes.to_vec()) {
        Ok(owned) => Ok(stanza_from_wire(&owned.to_owned_node())),
        Err(e) => Err(format!("{e}")),
    }
}

/// Encodes a stanza with wacore-binary's `marshal`.
///
/// Trusted: the bytes are wacore-binary's encoding; they are named
/// (`marshalled_stanza`) and not restated.  The error text is its message.
#[verifier::external_body]
pub fn marshal_stanza(s: &Stanza) -> (r: Result<Vec<u8>, String>)
    ensures
        match marshalled_stanza(*s) {
            Some(b) => r matches Ok(v) && v@ == b,
            None => r is Err,
        },
{
    wacore_binary::marshal(&stanza_to_wire(s)).map_err(|e| format!("{e}"))
}

/// Unpack, decode and route the plaintext of an incoming frame.  An unpack
/// or decode failure is a protocol error naming the stage.
pub fn incoming_from_plaintext(plain: &[u8]) -> (r: Result<(Stanza, IncomingRoute), ConnectionError>)
    ensures
        match unpacked_frame(plain@) {
            None => r matches Err(ConnectionError::Protocol(m)) && m@.take(21) == "frame unpack failed: "@,
            Some(b) => match decoded_stanza(b) {
                None => r matches Err(ConnectionError::Protocol(m)) && m@.take(19) == "node parse failed: "@,
                Some(s) => r matches Ok((s2, route)) && s2 == s && routes(s, route),
            },
        },
{
    let unpacked = match unpack_frame(plain) {
        Ok(u) => u,
        Err(e) => {
            let mut msg = "frame unpack failed: ".to_string();
            let ghost prefix = msg@;
            msg.append(e.as_str());
            proof {
                reveal_strlit("frame unpack failed: ");
                assert(msg@.take(21) =~= prefix);
            }
            return Err(ConnectionError::Protocol(msg));
        },
    };
    let stanza = match decode_stanza(unpacked.as_slice()) {
        Ok(s) => s,
        Err(e) => {
            let mut msg = "node parse failed: ".to_string();
            let ghost prefix = msg@;
            msg.append(e.as_str());
            proof {
                reveal_strlit("node parse failed: ");
                assert(msg@.take(19) =~= prefix);
            }
            return Err(ConnectionError::Protocol(msg));
        },
    };
    let route = route_incoming(&stanza);
    Ok((stanza, route))
}

/// Decrypt, unpack, and route a single incoming frame.
///
/// The frame is opened with the socket's opening cipher and read counter as
/// nonce (see `NoiseSocket::decrypt_frame`), and a record of what it was
/// opened with comes back with the result; the plaintext goes to
/// `incoming_from_plaintext`.
pub fn process_incoming_frame(socket: &mut NoiseSocket, frame: Vec<u8>) -> (r: Result<(Stanza, IncomingRoute, Ghost<(NoiseCipher, u32, Seq<u8>)>), ConnectionError>)
    ensures
        r matches Ok((_, _, call)) ==> call@ == cipher_call(old(socket).opening_cipher(), old(socket).read_count(), frame@),
        final(socket).write_count() == old(socket).write_count(),
        final(socket).sealing_cipher() == old(socket).sealing_cipher(),
        final(socket).opening_cipher() == old(socket).opening_cipher(),
        (r matches Err(ConnectionError::Decrypt(m)) && m@ == "read counter exhausted"@)
            <==> old(socket).read_count() == u32::MAX,
        old(socket).read_count() == u32::MAX ==> final(socket).read_count() == old(socket).read_count(),
        old(socket).read_count() < u32::MAX ==> final(socket).read_count() == old(socket).read_count() + 1,
        r matches Ok((s, route, _)) ==> exists|plain: Seq<u8>| #![trigger unpacked_frame(plain)] {
            &&& plain.len() + TAG_LEN == frame@.len()
            &&& unpacked_frame(plain) matches Some(b)
            &&& decoded_stanza(b) == Some(s)
        } && routes(s, route),
        r matches Err(ConnectionError::Protocol(m)) ==> (m@.take(21) == "frame unpack failed: "@
            || m@.take(19) == "node parse failed: "@),
{
    let mut buf = frame;
    let call = match socket.decrypt_frame(&mut buf) {
        Ok(c) => c,
        Err(e) => return Err(e),
    };
    match incoming_from_plaintext(buf.as_slice()) {
        Ok((s, route)) => Ok((s, route, call)),
        Err(e) => {
            proof {
                reveal_strlit("read counter exhausted");
            }
            Err(e)
        },
    }
}

/// Marshal a stanza, encrypt it with the socket's sealing cipher and write
/// counter as nonce, and frame it for sending; `NoiseSocket::finish_send` is due once the
/// send's outcome is known.
pub fn seal_stanza(socket: &NoiseSocket, stanza: &Stanza) -> (r: Result<Sealed, ConnectionError>)
    ensures
        r matches Ok(s) ==> s.sealed_with@ == cipher_call(socket.sealing_cipher(), socket.write_count(), marshalled_stanza(*stanza).unwrap()),
        marshalled_stanza(*stanza) is None ==> (r matches Err(ConnectionError::Protocol(m))
            && m@.take(16) == "marshal failed: "@),
        r is Ok ==> socket.write_count() < u32::MAX && marshalled_stanza(*stanza) is Some,
        r matches Ok(s) ==> s.frame@.len() == 3 + marshalled_stanza(*stanza).unwrap().len() + TAG_LEN,
        socket.write_count() == u32::MAX ==> r is Err,
{
    let payload = match marshal_stanza(stanza) {
        Ok(p) => p,
        Err(e) => {
            let mut msg = "marshal failed: ".to_string();
            let ghost prefix = msg@;
            msg.append(e.as_str());
            proof {
                reveal_strlit("marshal failed: ");
                assert(msg@.take(16) =~= prefix);
            }
            return Err(ConnectionError::Protocol(msg));
        },
    };
    socket.prepare_send(payload.as_slice())
}

} // verus!
