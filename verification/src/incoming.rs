//! Incoming message stanzas: their header, the plaintext fallback, the
//! details of the encrypted form, and the message an update carries.

use buffa::Message as _;
use vstd::prelude::*;
use vstd::string::*;

use crate::handlers::attr_jid;
use crate::jid::{Jid, JidView, parse_jid};
use crate::message::{Message, MessageInfo, ProtoContextInfo, ProtoExtendedText, ProtoMessage};
use crate::stanza::{Stanza, StanzaContent, attr_of, child_nodes, child_with_tag, first_tagged, has_child_tagged};
use crate::peer::{chat_for_jid, chat_for_jid_spec};
use crate::text::{parse_i64, parse_signed_spec, parse_u8, parse_unsigned_spec};
use crate::update::Update;

verus! {

broadcast use vstd::string::group_string_axioms;

/// The first Unix time chrono's dates reach: -262143-01-01T00:00:00 UTC.
pub const CHRONO_MIN_SECS: i64 = -8334601228800i64;

/// The last Unix time chrono's dates reach: 262142-12-31T23:59:59 UTC.
pub const CHRONO_MAX_SECS: i64 = 8210266876799i64;

/// Whether chrono's `DateTime::from_timestamp(secs, 0)` accepts `secs`:
/// its dates run from the first day of year -262143 to the last of 262142.
pub open spec fn chrono_accepts_secs(secs: i64) -> bool {
    CHRONO_MIN_SECS <= secs <= CHRONO_MAX_SECS
}

/// Whether chrono can represent the Unix time `secs`
/// (`DateTime::from_timestamp(secs, 0).is_some()`).
///
/// Trusted: chrono's source (`NaiveDate::MIN` and `MAX`, years -262143 to
/// 262142) gives the range the contract states.
#[verifier::external_body]
pub fn timestamp_in_range(secs: i64) -> (r: bool)
    ensures
        r == chrono_accepts_secs(secs),
{
    chrono::DateTime::from_timestamp(secs, 0).is_some()
}

/// The time a message carries: `secs` when chrono can represent it, else
/// the receiving time `now`.
pub open spec fn time_or_now(secs: Option<i64>, now: i64) -> i64 {
    match secs {
        Some(t) => if chrono_accepts_secs(t) { t } else { now },
        None => now,
    }
}

/// The fields of a `whatsapp.Message` protobuf that waproto decodes from
/// `bytes` and that a received message exposes (its text and the context of
/// an extended text), or `None` where decoding fails.
pub uninterp spec fn decoded_message(bytes: Seq<u8>) -> Option<ProtoMessage>;

/// Decodes a `whatsapp.Message` protobuf with waproto's `decode_from_slice`,
/// keeping the conversation text and the extended text with its context.
///
/// Trusted: the decoding is waproto's; it is named (`decoded_message`) and
/// not restated.
#[verifier::external_body]
pub fn decode_message(bytes: &[u8]) -> (r: Option<ProtoMessage>)
    ensures
        r == decoded_message(bytes@),
{
    let m = waproto::whatsapp::Message::decode_from_slice(bytes).ok()?;
    Some(proto_from_parts(m.conversation.clone(), m.extended_text_message.as_option()))
}

/// Our view of a waproto message from its conversation text and its
/// extended text with the context, field for field.
#[verifier::external_body]
pub(crate) fn proto_from_parts(
    conversation: Option<String>,
    extended: Option<&waproto::whatsapp::message::ExtendedTextMessage>,
) -> ProtoMessage {
    ProtoMessage {
        conversation,
        extended_text_message: extended.map(|e| ProtoExtendedText {
            text: e.text.clone(),
            context_info: e.context_info.as_option().map(|c| ProtoContextInfo {
                stanza_id: c.stanza_id.clone(), remote_jid: c.remote_jid.clone(),
                is_forwarded: c.is_forwarded, forwarding_score: c.forwarding_score }),
        }),
        protocol_message: None,
        reaction_message: None,
    }
}

/// The header of a `<message>` stanza.
#[derive(Debug)]
pub struct MessageHeader {
    /// The `from` JID.
    pub from: Jid,
    /// The `id`, or empty.
    pub id: String,
    /// The `type`, or empty.
    pub message_type: String,
    /// The `t` Unix time, when it is a number chrono can represent.
    pub timestamp: Option<i64>,
}

/// An attribute's text, or empty.
pub open spec fn attr_or_empty(n: Stanza, key: Seq<char>) -> Seq<char> {
    match attr_of(n, key) {
        Some(v) => v,
        None => Seq::empty(),
    }
}

/// The `t` attribute as a time chrono can represent.
pub open spec fn stanza_time(n: Stanza) -> Option<i64> {
    match attr_of(n, "t"@) {
        Some(v) => match parse_signed_spec(v, i64::MAX as nat) {
            Some(t) => if chrono_accepts_secs(t as i64) { Some(t as i64) } else { None },
            None => None,
        },
        None => None,
    }
}

fn attr_text_or_empty(n: &Stanza, key: &str) -> (r: String)
    ensures
        r@ == attr_or_empty(*n, key@),
{
    match n.get_attr(key) {
        Some(v) => v.clone(),
        None => String::new(),
    }
}

/// Reads the header of a message stanza: `None` unless the node is a
/// `<message>` with a valid `from` JID.
pub fn parse_message_header(node: &Stanza) -> (r: Option<MessageHeader>)
    ensures
        node.tag@ != "message"@ ==> r is None,
        node.tag@ == "message"@ ==> match attr_jid(*node, "from"@) {
            None => r is None,
            Some(j) => r matches Some(h) && {
                &&& h.from@ == j
                &&& h.id@ == attr_or_empty(*node, "id"@)
                &&& h.message_type@ == attr_or_empty(*node, "type"@)
                &&& h.timestamp == stanza_time(*node)
            },
        },
{
    if !node.tag_is("message") {
        return None;
    }
    let from = match node.get_attr("from") {
        Some(v) => match parse_jid(v.as_str()) {
            Some(j) => j,
            None => return None,
        },
        None => return None,
    };
    let id = attr_text_or_empty(node, "id");
    let message_type = attr_text_or_empty(node, "type");
    let timestamp = match node.get_attr("t") {
        Some(v) => match parse_i64(v.as_str()) {
            Some(t) => if timestamp_in_range(t) { Some(t) } else { None },
            None => None,
        },
        None => None,
    };
    Some(MessageHeader { from, id, message_type, timestamp })
}

/// Whether the stanza carries encrypted `<enc>` children.
pub fn has_enc_children(node: &Stanza) -> (r: bool)
    ensures
        r == has_child_tagged(*node, "enc"@),
{
    node.has_child("enc")
}

/// The padding version of the decrypted payload: the `v` of the first
/// `<enc>` child read as a `u8`, or 2.
pub open spec fn padding_version_spec(n: Stanza) -> u8 {
    match child_with_tag(n, "enc"@) {
        Some(e) => match attr_of(e, "v"@) {
            Some(v) => match parse_unsigned_spec(v, u8::MAX as nat) {
                Some(x) => x as u8,
                None => 2,
            },
            None => 2,
        },
        None => 2,
    }
}

/// The padding version of the decrypted payload.
pub fn padding_version(node: &Stanza) -> (r: u8)
    ensures
        r == padding_version_spec(*node),
{
    match node.get_optional_child("enc") {
        Some(e) => match e.get_attr("v") {
            Some(v) => match parse_u8(v.as_str()) {
                Some(x) => x,
                None => 2,
            },
            None => 2,
        },
        None => 2,
    }
}

/// The sender of a stanza: its `participant` JID (in groups), else `from`.
pub fn message_sender(node: &Stanza, from: &Jid) -> (r: Jid)
    ensures
        match attr_jid(*node, "participant"@) {
            Some(p) => r@ == p,
            None => r == *from,
        },
{
    match node.get_attr("participant") {
        Some(v) => match parse_jid(v.as_str()) {
            Some(j) => j,
            None => from.copy(),
        },
        None => from.copy(),
    }
}

/// The protobuf bytes of a stanza without encryption: the bytes (or text)
/// of its `<plaintext>` child, else its own bytes.
pub open spec fn plaintext_content_spec(n: Stanza) -> Option<Seq<u8>> {
    let own = match n.content {
        Some(StanzaContent::Bytes(b)) => Some(b@),
        _ => None,
    };
    match child_with_tag(n, "plaintext"@) {
        Some(p) => match p.content {
            Some(StanzaContent::Bytes(b)) => Some(b@),
            Some(StanzaContent::Text(t)) => Some(vstd::utf8::encode_utf8(t@)),
            _ => own,
        },
        None => own,
    }
}

/// Extract protobuf bytes from a `<plaintext>` child node, falling back to
/// the node's direct byte content.
pub fn extract_plaintext_content(node: &Stanza) -> (r: Option<Vec<u8>>)
    ensures
        match plaintext_content_spec(*node) {
            Some(b) => r is Some && r.unwrap()@ == b,
            None => r is None,
        },
{
    match node.get_optional_child("plaintext") {
        Some(p) => match &p.content {
            Some(StanzaContent::Bytes(b)) => return Some(b.clone()),
            Some(StanzaContent::Text(t)) => return Some(t.as_str().as_bytes_vec()),
            _ => {},
        },
        None => {},
    }
    match &node.content {
        Some(StanzaContent::Bytes(b)) => Some(b.clone()),
        _ => None,
    }
}

/// The message an incoming stanza becomes: sent by `sender` in the chat of
/// `from`, not by us, at the stanza's time or `now`.
pub open spec fn incoming_message_spec(m: Message, h: MessageHeader, sender: Jid, content: ProtoMessage, now: i64) -> bool {
    &&& m.content == content
    &&& m.info.id == h.id
    &&& m.info.chat == h.from
    &&& m.info.sender == sender
    &&& !m.info.is_from_me
    &&& m.info.timestamp == time_or_now(h.timestamp, now)
    &&& m.info.message_type == h.message_type
    &&& m.chat == chat_for_jid_spec(h.from)
}

/// The message for a decoded stanza.
pub fn incoming_message(header: &MessageHeader, sender: Jid, content: ProtoMessage, now: i64) -> (r: Message)
    ensures
        incoming_message_spec(r, *header, sender, content, now),
{
    let timestamp = match header.timestamp {
        Some(t) => if timestamp_in_range(t) { t } else { now },
        None => now,
    };
    let info = MessageInfo {
        id: header.id.clone(),
        chat: header.from.copy(),
        sender,
        is_from_me: false,
        timestamp,
        message_type: header.message_type.clone(),
    };
    Message::new(content, info, chat_for_jid(header.from.copy()))
}

/// What becomes of an incoming node on the way to a message update.
#[derive(Debug)]
pub enum IncomingOutcome {
    /// Not a message stanza with a valid sender, or nothing decodable in it.
    Ignored,
    /// An encrypted stanza: its header, for the decryption that follows.
    Encrypted(MessageHeader),
    /// The update the stanza produces.
    Produced(Update),
}

/// Process an incoming protocol node and produce an update if applicable.
///
/// A `<message>` with a valid `from` goes to decryption when it has `<enc>`
/// children; otherwise its plaintext bytes are decoded into a new message
/// from `from` (our own sent messages echoed back).  Anything else, or a
/// stanza with no decodable content, is ignored.
pub fn process_incoming_node(node: &Stanza, now: i64) -> (r: IncomingOutcome)
    ensures
        match (if node.tag@ == "message"@ { attr_jid(*node, "from"@) } else { None }) {
            None => r is Ignored,
            Some(from) => if has_child_tagged(*node, "enc"@) {
                r matches IncomingOutcome::Encrypted(h) && h.from@ == from
                    && h.id@ == attr_or_empty(*node, "id"@)
                    && h.message_type@ == attr_or_empty(*node, "type"@)
                    && h.timestamp == stanza_time(*node)
            } else {
                match plaintext_content_spec(*node) {
                    None => r is Ignored,
                    Some(b) => match decoded_message(b) {
                        None => r is Ignored,
                        Some(content) => r matches IncomingOutcome::Produced(Update::NewMessage(m)) && {
                            &&& m.content == content
                            &&& m.info.chat@ == from
                            &&& m.info.sender@ == from
                            &&& m.info.id@ == attr_or_empty(*node, "id"@)
                            &&& m.info.message_type@ == attr_or_empty(*node, "type"@)
                            &&& !m.info.is_from_me
                            &&& m.info.timestamp == time_or_now(stanza_time(*node), now)
                            &&& m.chat == chat_for_jid_spec(m.info.chat)
                        },
                    },
                }
            },
        },
{
    let header = match parse_message_header(node) {
        Some(h) => h,
        None => return IncomingOutcome::Ignored,
    };
    if has_enc_children(node) {
        return IncomingOutcome::Encrypted(header);
    }
    let bytes = match extract_plaintext_content(node) {
        Some(b) => b,
        None => return IncomingOutcome::Ignored,
    };
    let content = match decode_message(bytes.as_slice()) {
        Some(c) => c,
        None => return IncomingOutcome::Ignored,
    };
    let sender = header.from.copy();
    IncomingOutcome::Produced(Update::NewMessage(incoming_message(&header, sender, content, now)))
}

/// The update a decrypted stanza produces.
///
/// `content` is the decrypted payload decoded as a message (`None` when it
/// would not decode); a payload that only distributes a group sender key
/// carries nothing for the application.  Otherwise the message comes from
/// `sender` in the chat of the stanza's `from`.
pub fn decrypted_update(header: &MessageHeader, sender: Jid, content: Option<ProtoMessage>, sender_key_only: bool, now: i64) -> (r: Option<Update>)
    ensures
        content is None || sender_key_only ==> r is None,
        !sender_key_only ==> match content {
            Some(c) => r matches Some(Update::NewMessage(m)) && incoming_message_spec(m, *header, sender, c, now),
            None => r is None,
        },
{
    match content {
        None => None,
        Some(c) => if sender_key_only {
            None
        } else {
            Some(Update::NewMessage(incoming_message(header, sender, c, now)))
        },
    }
}

/// A group sender key a decrypted payload distributes: the group and the
/// serialized distribution message.
#[derive(Debug)]
pub struct SenderKeyDistribution {
    pub group_id: String,
    pub message: Vec<u8>,
}

/// What a decrypted payload holds: the message (after unwrapping a message
/// our own device sent), whether it only distributes a group sender key,
/// and that key when it does.
#[derive(Debug)]
pub struct DecodedPlaintext {
    pub content: ProtoMessage,
    pub sender_key_only: bool,
    pub distribution: Option<SenderKeyDistribution>,
}

/// What wacore makes of a decrypted payload padded with `padding_version`:
/// `messages::decode_plaintext` (unpad, decode the `whatsapp.Message`),
/// then `unwrap_device_sent` and `is_sender_key_distribution_only`; `None`
/// where unpadding or decoding fails.
pub uninterp spec fn decoded_plaintext(plaintext: Seq<u8>, padding_version: u8) -> Option<DecodedPlaintext>;

/// Decodes a decrypted payload with wacore's `messages::decode_plaintext`,
/// unwraps a device-sent message and tells a sender-key-only payload apart.
///
/// Trusted: the result is wacore's; it is named (`decoded_plaintext`) and
/// not restated.
#[verifier::external_body]
pub fn decode_decrypted(plaintext: &[u8], padding_version: u8) -> (r: Option<DecodedPlaintext>)
    ensures
        r == decoded_plaintext(plaintext@, padding_version),
{
    let mut m = wacore::messages::unwrap_device_sent(wacore::messages::decode_plaintext(plaintext, padding_version).ok()?);
    let sender_key_only = wacore::messages::is_sender_key_distribution_only(&mut m);
    let skdm = m.sender_key_distribution_message.as_option();
    let distribution = skdm.and_then(|d| d.axolotl_sender_key_distribution_message.clone().map(|message|
        SenderKeyDistribution { group_id: d.group_id.clone().unwrap_or_default(), message }));
    let content = proto_from_parts(m.conversation.clone(), m.extended_text_message.as_option());
    Some(DecodedPlaintext { content, sender_key_only, distribution })
}

/// The update a decrypted payload produces: its decoding (see
/// `decoded_plaintext`) goes to `decrypted_update`, so nothing comes of a
/// payload that does not decode or only distributes a sender key, and any
/// other becomes a new message from `sender`.
pub fn decrypted_message_update(header: &MessageHeader, sender: Jid, plaintext: &[u8], padding_version: u8, now: i64) -> (r: Option<Update>)
    ensures
        match decoded_plaintext(plaintext@, padding_version) {
            None => r is None,
            Some(d) => if d.sender_key_only {
                r is None
            } else {
                r matches Some(Update::NewMessage(m)) && incoming_message_spec(m, *header, sender, d.content, now)
            },
        },
{
    match decode_decrypted(plaintext, padding_version) {
        None => None,
        Some(d) => decrypted_update(header, sender, Some(d.content), d.sender_key_only, now),
    }
}

/// Which kind of `<enc>` payload a decryption attempt opens.
#[derive(Clone, Copy, Debug, PartialEq, Eq, Structural)]
pub enum EncKind {
    /// A pairwise session message (`pkmsg` or `msg`).
    Session,
    /// A group sender-key message (`skmsg`).
    Group,
}

/// One `<enc>` payload: whether it is a pre-key message (`pkmsg`) and its
/// ciphertext.
#[derive(Debug)]
pub struct EncPayload {
    pub prekey: bool,
    pub ciphertext: Vec<u8>,
}

/// The payloads of a stanza's `<enc>` children, session ones and group
/// ones, each in stanza order.
#[derive(Debug)]
pub struct EncPayloads {
    pub session: Vec<EncPayload>,
    pub group: Vec<EncPayload>,
}

/// The value of a payload.
pub open spec fn payload_view(p: EncPayload) -> (bool, Seq<u8>) {
    (p.prekey, p.ciphertext@)
}

/// What an `<enc>` node carries, as wacore's `categorize_enc_nodes` sorts
/// it: `pkmsg` and `msg` are session payloads (the first a pre-key
/// message), `skmsg` a group payload; a node without a `type` or without
/// bytes, or of another type, carries none of them.
pub open spec fn enc_payload_spec(c: Stanza) -> Option<(EncKind, bool, Seq<u8>)> {
    match (attr_of(c, "type"@), c.content) {
        (Some(t), Some(StanzaContent::Bytes(b))) => if t == "pkmsg"@ {
            Some((EncKind::Session, true, b@))
        } else if t == "msg"@ {
            Some((EncKind::Session, false, b@))
        } else if t == "skmsg"@ {
            Some((EncKind::Group, false, b@))
        } else {
            None
        },
        _ => None,
    }
}

/// The payloads of `kind` among the `<enc>` nodes of `cs`, in order.
pub open spec fn payloads_of(cs: Seq<Stanza>, kind: EncKind) -> Seq<(bool, Seq<u8>)>
    decreases cs.len(),
{
    if cs.len() == 0 {
        Seq::empty()
    } else {
        let before = payloads_of(cs.drop_last(), kind);
        let c = cs.last();
        match enc_payload_spec(c) {
            Some((k, p, b)) => if c.tag@ == "enc"@ && k == kind { before.push((p, b)) } else { before },
            None => before,
        }
    }
}

/// Sorts one `<enc>` node with wacore's `message_processing::categorize_enc_nodes`.
///
/// Trusted: the sorting stated (`enc_payload_spec`) is its source's for the
/// type and bytes of a node; its retry and bot fields are not used.
#[verifier::external_body]
fn categorize_enc(c: &Stanza) -> (r: Option<(EncKind, EncPayload)>)
    ensures
        match enc_payload_spec(*c) {
            None => r is None,
            Some((k, p, b)) => r matches Some((k2, e)) && k2 == k && e.prekey == p && e.ciphertext@ == b,
        },
{
    let wire = crate::wire::stanza_to_wire(c);
    let sorted = wacore::message_processing::categorize_enc_nodes(&[&wire]);
    match sorted.session_enc.first() {
        Some(e) => Some((EncKind::Session, EncPayload { prekey: matches!(e.enc_type, wacore::message_processing::EncType::PreKeyMessage), ciphertext: e.ciphertext.to_vec() })),
        None => sorted.group_enc.first().map(|e| (EncKind::Group, EncPayload { prekey: false, ciphertext: e.ciphertext.to_vec() })),
    }
}

/// The `<enc>` payloads of a stanza, sorted into session and group ones,
/// each in stanza order.
pub fn enc_payloads(node: &Stanza) -> (r: EncPayloads)
    ensures
        r.session@.map_values(|p: EncPayload| payload_view(p)) == payloads_of(child_nodes(*node), EncKind::Session),
        r.group@.map_values(|p: EncPayload| payload_view(p)) == payloads_of(child_nodes(*node), EncKind::Group),
{
    let mut session: Vec<EncPayload> = Vec::new();
    let mut group: Vec<EncPayload> = Vec::new();
    let children = match node.children() {
        Some(c) => c,
        None => {
            assert(child_nodes(*node) =~= Seq::<Stanza>::empty());
            return EncPayloads { session, group };
        },
    };
    let ghost cs = child_nodes(*node);
    let mut i: usize = 0;
    while i < children.len()
        invariant
            cs == children@,
            0 <= i <= children@.len(),
            session@.map_values(|p: EncPayload| payload_view(p)) == payloads_of(cs.take(i as int), EncKind::Session),
            group@.map_values(|p: EncPayload| payload_view(p)) == payloads_of(cs.take(i as int), EncKind::Group),
        decreases children@.len() - i,
    {
        let c = &children[i];
        assert(cs.take(i + 1).drop_last() =~= cs.take(i as int));
        assert(cs.take(i + 1).last() == *c);
        if c.tag_is("enc") {
            match categorize_enc(c) {
                Some((EncKind::Session, e)) => {
                    session.push(e);
                    assert(session@.map_values(|p: EncPayload| payload_view(p)) =~= payloads_of(cs.take(i + 1), EncKind::Session));
                },
                Some((EncKind::Group, e)) => {
                    group.push(e);
                    assert(group@.map_values(|p: EncPayload| payload_view(p)) =~= payloads_of(cs.take(i + 1), EncKind::Group));
                },
                None => {},
            }
        }
        i = i + 1;
    }
    assert(cs.take(cs.len() as int) =~= cs);
    EncPayloads { session, group }
}

/// wacore-libsignal's pre-key Signal message.
#[verifier::external_type_specification]
#[verifier::external_body]
pub struct ExPreKeySignalMessage(wacore::libsignal::protocol::PreKeySignalMessage);

/// wacore-libsignal's Signal message.
#[verifier::external_type_specification]
#[verifier::external_body]
pub struct ExSignalMessage(wacore::libsignal::protocol::SignalMessage);

/// Whether wacore-libsignal's `PreKeySignalMessage::try_from` accepts these
/// bytes.
pub uninterp spec fn prekey_message_parses(bytes: Seq<u8>) -> bool;

/// Whether wacore-libsignal's `SignalMessage::try_from` accepts these bytes.
pub uninterp spec fn signal_message_parses(bytes: Seq<u8>) -> bool;

/// Parses a `pkmsg` payload (`PreKeySignalMessage::try_from`).
///
/// Trusted: which bytes parse is named (`prekey_message_parses`); the
/// parsed message is opaque here.
#[verifier::external_body]
pub fn parse_prekey_message(bytes: &[u8]) -> (r: Option<wacore::libsignal::protocol::PreKeySignalMessage>)
    ensures
        r is Some <==> prekey_message_parses(bytes@),
{
    wacore::libsignal::protocol::PreKeySignalMessage::try_from(bytes).ok()
}

/// Parses a `msg` payload (`SignalMessage::try_from`).
///
/// Trusted: which bytes parse is named (`signal_message_parses`); the
/// parsed message is opaque here.
#[verifier::external_body]
pub fn parse_signal_message(bytes: &[u8]) -> (r: Option<wacore::libsignal::protocol::SignalMessage>)
    ensures
        r is Some <==> signal_message_parses(bytes@),
{
    wacore::libsignal::protocol::SignalMessage::try_from(bytes).ok()
}

/// The order in which the `<enc>` payloads of a stanza are tried: every
/// session payload first, then (only if none of them opened) every group
/// payload; the first one that opens is used.
pub struct DecryptAttempts {
    /// Session payloads tried so far.
    pub session_tried: usize,
    /// Group payloads tried so far.
    pub group_tried: usize,
    /// How many session payloads the stanza holds.
    pub session_total: usize,
    /// How many group payloads the stanza holds.
    pub group_total: usize,
}

/// What comes after a decryption attempt.
#[derive(Debug)]
pub enum DecryptStep {
    /// Try this payload next.
    Try(EncKind, usize),
    /// A payload opened: its plaintext is the message.
    Opened(Vec<u8>),
    /// Every payload failed: the stanza produces nothing.
    GiveUp,
}

impl DecryptAttempts {
    /// No payload tried yet.
    pub fn new(session_total: usize, group_total: usize) -> (r: Self)
        ensures
            r.session_tried == 0 && r.group_tried == 0,
            r.session_total == session_total && r.group_total == group_total,
    {
        DecryptAttempts { session_tried: 0, group_tried: 0, session_total, group_total }
    }

    /// The payload to try next, after the last one failed (or at the start):
    /// the next session payload while any is left, then the next group one;
    /// `None` once all have failed.
    pub fn next_attempt(&mut self) -> (r: Option<(EncKind, usize)>)
        requires
            old(self).session_tried <= old(self).session_total,
            old(self).group_tried <= old(self).group_total,
        ensures
            final(self).session_total == old(self).session_total,
            final(self).group_total == old(self).group_total,
            final(self).session_tried <= final(self).session_total,
            final(self).group_tried <= final(self).group_total,
            old(self).session_tried < old(self).session_total ==> r == Some((EncKind::Session, old(self).session_tried))
                && final(self).session_tried == old(self).session_tried + 1 && final(self).group_tried == old(self).group_tried,
            old(self).session_tried == old(self).session_total && old(self).group_tried < old(self).group_total
                ==> r == Some((EncKind::Group, old(self).group_tried))
                && final(self).group_tried == old(self).group_tried + 1 && final(self).session_tried == old(self).session_tried,
            old(self).session_tried == old(self).session_total && old(self).group_tried == old(self).group_total
                ==> r is None && final(self).session_tried == old(self).session_tried && final(self).group_tried == old(self).group_tried,
    {
        if self.session_tried < self.session_total {
            let i = self.session_tried;
            self.session_tried = i + 1;
            Some((EncKind::Session, i))
        } else if self.group_tried < self.group_total {
            let i = self.group_tried;
            self.group_tried = i + 1;
            Some((EncKind::Group, i))
        } else {
            None
        }
    }

    /// The step after the last attempt, given its plaintext when it opened
    /// (`None` before the first attempt or after a failure): the first
    /// plaintext ends the attempts; otherwise the next payload is tried, and
    /// once every payload has failed the stanza is given up.
    pub fn step(&mut self, last: Option<Vec<u8>>) -> (r: DecryptStep)
        requires
            old(self).session_tried <= old(self).session_total,
            old(self).group_tried <= old(self).group_total,
        ensures
            final(self).session_total == old(self).session_total,
            final(self).group_total == old(self).group_total,
            final(self).session_tried <= final(self).session_total,
            final(self).group_tried <= final(self).group_total,
            last matches Some(p) ==> r matches DecryptStep::Opened(q) && q@ == p@
                && final(self).session_tried == old(self).session_tried && final(self).group_tried == old(self).group_tried,
            last is None && old(self).session_tried < old(self).session_total
                ==> r == DecryptStep::Try(EncKind::Session, old(self).session_tried)
                && final(self).session_tried == old(self).session_tried + 1 && final(self).group_tried == old(self).group_tried,
            last is None && old(self).session_tried == old(self).session_total && old(self).group_tried < old(self).group_total
                ==> r == DecryptStep::Try(EncKind::Group, old(self).group_tried)
                && final(self).group_tried == old(self).group_tried + 1 && final(self).session_tried == old(self).session_tried,
            last is None && old(self).session_tried == old(self).session_total && old(self).group_tried == old(self).group_total
                ==> r is GiveUp && final(self).session_tried == old(self).session_tried && final(self).group_tried == old(self).group_tried,
    {
        match last {
            Some(p) => DecryptStep::Opened(p),
            None => match self.next_attempt() {
                Some((kind, i)) => DecryptStep::Try(kind, i),
                None => DecryptStep::GiveUp,
            },
        }
    }
}

} // verus!
