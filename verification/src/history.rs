//! History sync: the compressed blob a node carries, the conversations it
//! decodes to, and the updates they become.

use buffa::Message as _;
use vstd::prelude::*;

use crate::incoming::{chrono_accepts_secs, proto_from_parts, timestamp_in_range};
use crate::jid::{Jid, JidView, parse_jid, parsed_jid};
use crate::message::{Message, MessageInfo, ProtoMessage};
use crate::stanza::{Stanza, StanzaContent, attr_of, child_with_tag};
use crate::peer::{chat_for_jid, chat_for_jid_spec};
use crate::update::{HistorySyncChunk, SyncedConversation, Update};

verus! {

broadcast use vstd::string::group_string_axioms;

/// Hard ceiling on the decompressed size of a history-sync blob (64 MiB).
pub const MAX_DECOMPRESSED: u64 = 67108864;

/// The `initialHistBootstrapInlinePayload` of the history sync notification
/// in the protocol message of the `whatsapp.Message` that waproto decodes
/// from `bytes`: `None` where decoding fails, `Some(None)` where the field
/// is unset.
pub uninterp spec fn inline_history_payload(bytes: Seq<u8>) -> Option<Option<Seq<u8>>>;

/// Reads the inline history payload of an encoded `whatsapp.Message` with
/// waproto's `decode_from_slice`.
///
/// Trusted: the decoding is waproto's; it is named
/// (`inline_history_payload`) and not restated.
#[verifier::external_body]
pub fn decode_inline_history_payload(bytes: &[u8]) -> (r: Option<Option<Vec<u8>>>)
    ensures
        match inline_history_payload(bytes@) {
            None => r is None,
            Some(None) => r == Some(Option::<Vec<u8>>::None),
            Some(Some(p)) => r matches Some(Some(v)) && v@ == p,
        },
{
    let m = waproto::whatsapp::Message::decode_from_slice(bytes).ok()?;
    Some(m.protocol_message.history_sync_notification.initial_hist_bootstrap_inline_payload.clone())
}

/// The compressed history blob of a node: for a `history_sync_notification`
/// notification, the inline payload its byte content decodes to; for an
/// `<ib>`, the bytes of its `<history_sync>` child.
pub open spec fn history_payload_spec(n: Stanza) -> Option<Seq<u8>> {
    if n.tag@ == "notification"@ && attr_of(n, "type"@) == Some("history_sync_notification"@) {
        match n.content {
            Some(StanzaContent::Bytes(b)) => match inline_history_payload(b@) {
                Some(p) => p,
                None => None,
            },
            _ => None,
        }
    } else if n.tag@ == "ib"@ {
        match child_with_tag(n, "history_sync"@) {
            Some(c) => match c.content {
                Some(StanzaContent::Bytes(b)) => Some(b@),
                _ => None,
            },
            None => None,
        }
    } else {
        None
    }
}

/// Extract the zlib-compressed history sync payload from a node.
pub fn extract_history_sync_payload(node: &Stanza) -> (r: Option<Vec<u8>>)
    ensures
        match history_payload_spec(*node) {
            Some(b) => r is Some && r.unwrap()@ == b,
            None => r is None,
        },
{
    if node.tag_is("notification") && node.attr_is("type", "history_sync_notification") {
        return match &node.content {
            Some(StanzaContent::Bytes(b)) => match decode_inline_history_payload(b.as_slice()) {
                Some(p) => p,
                None => None,
            },
            _ => None,
        };
    }
    if node.tag_is("ib") {
        match node.get_optional_child("history_sync") {
            Some(c) => match &c.content {
                Some(StanzaContent::Bytes(b)) => return Some(b.clone()),
                _ => return None,
            },
            None => return None,
        }
    }
    None
}

/// What wacore-binary's pooled zlib decompression makes of `bytes` with an
/// output ceiling of `max` bytes: the inflated bytes, or `None` on an error
/// (corrupt data, or output past the ceiling).
pub uninterp spec fn zlib_inflated(bytes: Seq<u8>, max: u64) -> Option<Seq<u8>>;

/// Inflates zlib data with wacore-binary's `zlib_pool::decompress_zlib_pooled`.
///
/// Trusted: the output is zlib's; it is named (`zlib_inflated`) and not
/// restated.
#[verifier::external_body]
pub fn inflate(bytes: &[u8], max: u64) -> (r: Option<Vec<u8>>)
    ensures
        match zlib_inflated(bytes@, max) {
            Some(b) => r is Some && r.unwrap()@ == b,
            None => r is None,
        },
{
    wacore_binary::zlib_pool::decompress_zlib_pooled(bytes, max).ok()
}

/// A message of a synced conversation, as the history blob holds it.
#[derive(Clone, Debug)]
pub struct HistoryMessage {
    /// The key's message id.
    pub id: Option<String>,
    /// The key's `from_me`.
    pub from_me: Option<bool>,
    /// The key's participant (the sender in a group).
    pub participant: Option<String>,
    /// The Unix time of the message.
    pub timestamp: Option<u64>,
    /// The message content.
    pub content: ProtoMessage,
}

/// A conversation of a history blob.
#[derive(Clone, Debug)]
pub struct HistoryConversation {
    pub id: String,
    pub new_jid: Option<String>,
    pub name: Option<String>,
    pub pinned: Option<u32>,
    pub archived: Option<bool>,
    pub mute_end_time: Option<u64>,
    pub unread_count: Option<u32>,
    pub messages: Vec<HistoryMessage>,
}

/// The conversations of the `whatsapp.HistorySync` protobuf that waproto
/// decodes from `bytes`, or `None` where decoding fails.
pub uninterp spec fn decoded_history(bytes: Seq<u8>) -> Option<Seq<HistoryConversation>>;

/// waproto's `whatsapp.HistorySyncMsg`.
#[verifier::external_type_specification]
#[verifier::external_body]
pub struct ExWireHistorySyncMsg(waproto::whatsapp::HistorySyncMsg);

/// waproto's `whatsapp.Conversation`.
#[verifier::external_type_specification]
#[verifier::external_body]
pub struct ExWireConversation(waproto::whatsapp::Conversation);

/// Our view of a waproto history message, field for field.
#[verifier::external_body]
fn history_message_from_wire(m: &waproto::whatsapp::HistorySyncMsg) -> HistoryMessage {
    let w = &*m.message;
    HistoryMessage {
        id: w.key.id.clone(),
        from_me: w.key.from_me,
        participant: w.key.participant.clone(),
        timestamp: w.message_timestamp,
        content: proto_from_parts(w.message.conversation.clone(), w.message.extended_text_message.as_option()),
    }
}

/// Our view of a waproto conversation, field for field.
#[verifier::external_body]
fn conversation_from_wire(c: &waproto::whatsapp::Conversation) -> HistoryConversation {
    HistoryConversation {
        id: c.id.clone(),
        new_jid: c.new_jid.clone(),
        name: c.name.clone(),
        pinned: c.pinned,
        archived: c.archived,
        mute_end_time: c.mute_end_time,
        unread_count: c.unread_count,
        messages: c.messages.iter().map(history_message_from_wire).collect(),
    }
}

/// Decodes a `whatsapp.HistorySync` protobuf with waproto's
/// `decode_from_slice`, keeping its conversations.
///
/// Trusted: the decoding is waproto's; it is named (`decoded_history`) and
/// not restated.
#[verifier::external_body]
pub fn decode_history_sync(bytes: &[u8]) -> (r: Option<Vec<HistoryConversation>>)
    ensures
        match decoded_history(bytes@) {
            Some(cs) => r is Some && r.unwrap()@ == cs,
            None => r is None,
        },
{
    let hs = waproto::whatsapp::HistorySync::decode_from_slice(bytes).ok()?;
    Some(hs.conversations.iter().map(conversation_from_wire).collect())
}

/// The JID text of a conversation: its new JID, else its id.
pub open spec fn conversation_jid_text(c: HistoryConversation) -> Seq<char> {
    match c.new_jid {
        Some(j) => j@,
        None => c.id@,
    }
}

/// The sender JID text of a message: its participant, else the chat's.
pub open spec fn sender_jid_text(m: HistoryMessage, chat: Seq<char>) -> Seq<char> {
    match m.participant {
        Some(p) => p@,
        None => chat,
    }
}

/// The time of a history message: its Unix time (0 when missing) taken as
/// an `i64`, when chrono can represent it; otherwise `now`.
pub open spec fn history_time(ts: Option<u64>, now: i64) -> i64 {
    let t = (match ts {
        Some(x) => x,
        None => 0u64,
    }) as i64;
    if chrono_accepts_secs(t) { t } else { now }
}

/// The messages kept from a conversation: those whose sender JID parses.
pub open spec fn kept_messages(ms: Seq<HistoryMessage>, chat: Seq<char>) -> Seq<HistoryMessage>
    decreases ms.len(),
{
    if ms.len() == 0 {
        Seq::empty()
    } else {
        let k = kept_messages(ms.drop_last(), chat);
        if parsed_jid(sender_jid_text(ms.last(), chat)) is Some { k.push(ms.last()) } else { k }
    }
}

/// Whether `msg` is the message a history entry `hm` of the chat `chat`
/// (whose JID text is `chat_text`) becomes.
pub open spec fn history_message_matches(msg: Message, hm: HistoryMessage, chat: Jid, chat_text: Seq<char>, now: i64) -> bool {
    &&& msg.content == hm.content
    &&& msg.info.id@ == (match hm.id { Some(i) => i@, None => Seq::<char>::empty() })
    &&& msg.info.chat == chat
    &&& parsed_jid(sender_jid_text(hm, chat_text)) == Some(msg.info.sender@)
    &&& msg.info.is_from_me == (match hm.from_me { Some(b) => b, None => false })
    &&& msg.info.timestamp == history_time(hm.timestamp, now)
    &&& msg.info.message_type@ == Seq::<char>::empty()
    &&& msg.chat == chat_for_jid_spec(chat)
}

/// A synced history message is ours exactly when its key says it is
/// (`from_me` set to true); it keeps the entry's id (empty when missing) and
/// belongs to the conversation it came from.
pub proof fn lemma_history_message_origin(msg: Message, hm: HistoryMessage, chat: Jid, chat_text: Seq<char>, now: i64)
    requires
        history_message_matches(msg, hm, chat, chat_text, now),
    ensures
        msg.info.is_from_me <==> hm.from_me == Some(true),
        hm.id matches Some(i) ==> msg.info.id@ == i@,
        hm.id is None ==> msg.info.id@.len() == 0,
        msg.info.chat == chat,
        hm.participant is None ==> parsed_jid(chat_text) == Some(msg.info.sender@),
{
}

/// The conversations kept from a blob: those whose JID parses.
pub open spec fn kept_conversations(cs: Seq<HistoryConversation>) -> Seq<HistoryConversation>
    decreases cs.len(),
{
    if cs.len() == 0 {
        Seq::empty()
    } else {
        let k = kept_conversations(cs.drop_last());
        if parsed_jid(conversation_jid_text(cs.last())) is Some { k.push(cs.last()) } else { k }
    }
}

/// Whether `sc` is the synced conversation `c` becomes.
pub open spec fn conversation_matches(sc: SyncedConversation, c: HistoryConversation, now: i64) -> bool {
    let text = conversation_jid_text(c);
    let kept = kept_messages(c.messages@, text);
    &&& parsed_jid(text) == Some(sc.jid@)
    &&& sc.name == (match c.name { Some(n) => if n@.len() > 0 { Some(n) } else { None }, None => None })
    &&& sc.pinned == (match c.pinned { Some(p) => p > 0, None => false })
    &&& sc.archived == (match c.archived { Some(a) => a, None => false })
    &&& sc.muted == (match c.mute_end_time { Some(t) => t > 0, None => false })
    &&& sc.unread_count == (match c.unread_count { Some(u) => u, None => 0u32 })
    &&& sc.messages@.len() == kept.len()
    &&& forall|i: int| 0 <= i < kept.len() ==> history_message_matches(#[trigger] sc.messages@[i], kept[i], sc.jid, text, now)
}

/// The messages of one conversation whose JID is `chat` (text `chat_text`).
fn history_messages(ms: &Vec<HistoryMessage>, chat: &Jid, chat_text: &str, now: i64) -> (r: Vec<Message>)
    ensures
        r@.len() == kept_messages(ms@, chat_text@).len(),
        forall|i: int| 0 <= i < r@.len() ==> history_message_matches(#[trigger] r@[i],
            kept_messages(ms@, chat_text@)[i], *chat, chat_text@, now),
{
    let mut out: Vec<Message> = Vec::new();
    let mut i: usize = 0;
    while i < ms.len()
        invariant
            0 <= i <= ms@.len(),
            out@.len() == kept_messages(ms@.take(i as int), chat_text@).len(),
            forall|j: int| 0 <= j < out@.len() ==> history_message_matches(#[trigger] out@[j],
                kept_messages(ms@.take(i as int), chat_text@)[j], *chat, chat_text@, now),
        decreases ms.len() - i,
    {
        let hm = &ms[i];
        let ghost before = ms@.take(i as int);
        proof {
            assert(ms@.take(i as int + 1).drop_last() =~= before);
            assert(ms@.take(i as int + 1).last() == *hm);
        }
        let sender_text: &str = match &hm.participant {
            Some(p) => p.as_str(),
            None => chat_text,
        };
        match parse_jid(sender_text) {
            Some(sender) => {
                let ts_raw: u64 = match hm.timestamp {
                    Some(x) => x,
                    None => 0,
                };
                let t: i64 = ts_raw as i64;
                let timestamp = if timestamp_in_range(t) { t } else { now };
                let id = match &hm.id {
                    Some(v) => v.clone(),
                    None => String::new(),
                };
                let from_me = match hm.from_me {
                    Some(b) => b,
                    None => false,
                };
                let info = MessageInfo {
                    id,
                    chat: chat.copy(),
                    sender,
                    is_from_me: from_me,
                    timestamp,
                    message_type: String::new(),
                };
                let content = hm.content.copy();
                let msg = Message::new(content, info, chat_for_jid(chat.copy()));
                let ghost old_out = out@;
                out.push(msg);
                proof {
                    let k = kept_messages(ms@.take(i as int + 1), chat_text@);
                    assert(k == kept_messages(before, chat_text@).push(*hm));
                    assert forall|j: int| 0 <= j < out@.len() implies history_message_matches(#[trigger] out@[j],
                        k[j], *chat, chat_text@, now) by {
                        if j < old_out.len() {
                            assert(out@[j] == old_out[j]);
                        }
                    }
                }
            },
            None => {},
        }
        i = i + 1;
    }
    assert(ms@.take(ms@.len() as int) =~= ms@);
    out
}

/// The updates a decoded history blob produces: one chunk with every
/// conversation whose JID parses (when there is one), then the completion
/// marker.
pub fn history_updates(convs: &Vec<HistoryConversation>, now: i64) -> (r: Vec<Update>)
    ensures
        kept_conversations(convs@).len() == 0 ==> r@.len() == 1 && r@[0] is HistorySyncCompleted,
        kept_conversations(convs@).len() > 0 ==> {
            &&& r@.len() == 2
            &&& r@[1] is HistorySyncCompleted
            &&& r@[0] matches Update::HistorySync(chunk)
            &&& chunk.progress is None && chunk.sync_type is None
            &&& chunk.conversations@.len() == kept_conversations(convs@).len()
            &&& forall|i: int| 0 <= i < chunk.conversations@.len() ==> conversation_matches(
                #[trigger] chunk.conversations@[i], kept_conversations(convs@)[i], now)
        },
{
    let mut synced: Vec<SyncedConversation> = Vec::new();
    let mut i: usize = 0;
    while i < convs.len()
        invariant
            0 <= i <= convs@.len(),
            synced@.len() == kept_conversations(convs@.take(i as int)).len(),
            forall|j: int| 0 <= j < synced@.len() ==> conversation_matches(#[trigger] synced@[j],
                kept_conversations(convs@.take(i as int))[j], now),
        decreases convs.len() - i,
    {
        let c = &convs[i];
        let ghost before = convs@.take(i as int);
        proof {
            assert(convs@.take(i as int + 1).drop_last() =~= before);
            assert(convs@.take(i as int + 1).last() == *c);
        }
        let text: &str = match &c.new_jid {
            Some(j) => j.as_str(),
            None => c.id.as_str(),
        };
        match parse_jid(text) {
            Some(jid) => {
                let name = match &c.name {
                    Some(n) => if n.as_str().is_empty() { None } else { Some(n.clone()) },
                    None => None,
                };
                let pinned = match c.pinned {
                    Some(p) => p > 0,
                    None => false,
                };
                let archived = match c.archived {
                    Some(a) => a,
                    None => false,
                };
                let muted = match c.mute_end_time {
                    Some(t) => t > 0,
                    None => false,
                };
                let unread_count = match c.unread_count {
                    Some(u) => u,
                    None => 0,
                };
                let messages = history_messages(&c.messages, &jid, text, now);
                let sc = SyncedConversation { jid, name, messages, pinned, archived, muted, unread_count };
                let ghost old_synced = synced@;
                synced.push(sc);
                proof {
                    let k = kept_conversations(convs@.take(i as int + 1));
                    assert(k == kept_conversations(before).push(*c));
                    assert forall|j: int| 0 <= j < synced@.len() implies conversation_matches(#[trigger] synced@[j],
                        k[j], now) by {
                        if j < old_synced.len() {
                            assert(synced@[j] == old_synced[j]);
                        }
                    }
                }
            },
            None => {},
        }
        i = i + 1;
    }
    assert(convs@.take(convs@.len() as int) =~= convs@);
    let mut updates: Vec<Update> = Vec::new();
    if synced.len() > 0 {
        updates.push(Update::HistorySync(HistorySyncChunk { conversations: synced, progress: None, sync_type: None }));
    }
    updates.push(Update::HistorySyncCompleted);
    updates
}

/// Process an incoming history sync node and produce its updates: the
/// chunk of synced conversations (when any) followed by the completion
/// marker.  A node without a payload, a payload that does not inflate
/// within 64 MiB, or one that does not decode produces nothing.
pub fn handle_history_sync(node: &Stanza, now: i64) -> (r: Vec<Update>)
    ensures
        match history_payload_spec(*node) {
            None => r@.len() == 0,
            Some(p) => match zlib_inflated(p, MAX_DECOMPRESSED) {
                None => r@.len() == 0,
                Some(b) => match decoded_history(b) {
                    None => r@.len() == 0,
                    Some(cs) => (kept_conversations(cs).len() == 0 ==> r@.len() == 1 && r@[0] is HistorySyncCompleted)
                        && (kept_conversations(cs).len() > 0 ==> {
                            &&& r@.len() == 2
                            &&& r@[1] is HistorySyncCompleted
                            &&& r@[0] matches Update::HistorySync(chunk)
                            &&& chunk.conversations@.len() == kept_conversations(cs).len()
                            &&& forall|i: int| 0 <= i < chunk.conversations@.len() ==> conversation_matches(
                                #[trigger] chunk.conversations@[i], kept_conversations(cs)[i], now)
                        }),
                },
            },
        },
{
    let compressed = match extract_history_sync_payload(node) {
        Some(c) => c,
        None => return Vec::new(),
    };
    let decompressed = match inflate(compressed.as_slice(), MAX_DECOMPRESSED) {
        Some(d) => d,
        None => return Vec::new(),
    };
    let convs = match decode_history_sync(decompressed.as_slice()) {
        Some(cs) => cs,
        None => return Vec::new(),
    };
    history_updates(&convs, now)
}

} // verus!
