//! Messages: the outgoing builders, the protobuf content model, message IDs
//! and the stanzas that carry messages, reactions and read receipts.

use buffa::Message as _;
use waproto::whatsapp::message::ProtocolMessage as WireProtocolMessage;
use vstd::prelude::*;

use crate::error::{ClientError, SendError};
use crate::jid::{Jid, JidServer, jid_text};
use crate::peer::{Chat, chat_for_jid, chat_for_jid_spec, chat_jid};
use crate::stanza::{Stanza, StanzaContent};
use crate::text::{hex_string_padded, hex_text, hex_value, lemma_hex_padded, pow16, signed_decimal_string, signed_decimal_text, zero_padded};

verus! {

broadcast use vstd::string::group_string_axioms;

/// Media content to send with a message.
#[derive(Clone, Debug)]
pub enum InputMedia {
    Image { caption: Option<String>, data: Vec<u8>, mime_type: Option<String> },
    Video { caption: Option<String>, data: Vec<u8>, mime_type: Option<String> },
    Audio { data: Vec<u8>, mime_type: Option<String>, ptt: bool },
    Document { data: Vec<u8>, filename: Option<String>, mime_type: Option<String> },
    Sticker { data: Vec<u8>, mime_type: Option<String> },
}

/// The raw file data of a media value.
pub open spec fn media_data(m: InputMedia) -> Seq<u8> {
    match m {
        InputMedia::Image { data, .. } => data@,
        InputMedia::Video { data, .. } => data@,
        InputMedia::Audio { data, .. } => data@,
        InputMedia::Document { data, .. } => data@,
        InputMedia::Sticker { data, .. } => data@,
    }
}

/// The MIME type of a media value.
pub open spec fn media_mime(m: InputMedia) -> Option<String> {
    match m {
        InputMedia::Image { mime_type, .. } => mime_type,
        InputMedia::Video { mime_type, .. } => mime_type,
        InputMedia::Audio { mime_type, .. } => mime_type,
        InputMedia::Document { mime_type, .. } => mime_type,
        InputMedia::Sticker { mime_type, .. } => mime_type,
    }
}

/// The label a media value is displayed with.
pub open spec fn media_label(m: InputMedia) -> Seq<char> {
    match m {
        InputMedia::Image { .. } => seq!['i', 'm', 'a', 'g', 'e'],
        InputMedia::Video { .. } => seq!['v', 'i', 'd', 'e', 'o'],
        InputMedia::Audio { ptt, .. } => if ptt {
            seq!['v', 'o', 'i', 'c', 'e', ' ', 'n', 'o', 't', 'e']
        } else {
            seq!['a', 'u', 'd', 'i', 'o']
        },
        InputMedia::Document { .. } => seq!['d', 'o', 'c', 'u', 'm', 'e', 'n', 't'],
        InputMedia::Sticker { .. } => seq!['s', 't', 'i', 'c', 'k', 'e', 'r'],
    }
}

impl InputMedia {
    pub fn image(data: Vec<u8>) -> (r: Self)
        ensures
            r == (InputMedia::Image { caption: None, data, mime_type: None }),
    {
        InputMedia::Image { caption: None, data, mime_type: None }
    }

    pub fn video(data: Vec<u8>) -> (r: Self)
        ensures
            r == (InputMedia::Video { caption: None, data, mime_type: None }),
    {
        InputMedia::Video { caption: None, data, mime_type: None }
    }

    pub fn audio(data: Vec<u8>) -> (r: Self)
        ensures
            r == (InputMedia::Audio { data, mime_type: None, ptt: false }),
    {
        InputMedia::Audio { data, mime_type: None, ptt: false }
    }

    pub fn document(data: Vec<u8>) -> (r: Self)
        ensures
            r == (InputMedia::Document { data, filename: None, mime_type: None }),
    {
        InputMedia::Document { data, filename: None, mime_type: None }
    }

    pub fn sticker(data: Vec<u8>) -> (r: Self)
        ensures
            r == (InputMedia::Sticker { data, mime_type: None }),
    {
        InputMedia::Sticker { data, mime_type: None }
    }

    /// Sets the caption of an image or video; other media are returned unchanged.
    pub fn with_caption(self, caption: String) -> (r: Self)
        ensures
            r == (match self {
                InputMedia::Image { data, mime_type, .. } => InputMedia::Image { caption: Some(caption), data, mime_type },
                InputMedia::Video { data, mime_type, .. } => InputMedia::Video { caption: Some(caption), data, mime_type },
                _ => self,
            }),
    {
        match self {
            InputMedia::Image { data, mime_type, .. } => InputMedia::Image { caption: Some(caption), data, mime_type },
            InputMedia::Video { data, mime_type, .. } => InputMedia::Video { caption: Some(caption), data, mime_type },
            other => other,
        }
    }

    /// Sets the MIME type of any media.
    pub fn with_mime_type(self, mime_type: String) -> (r: Self)
        ensures
            r == (match self {
                InputMedia::Image { caption, data, .. } => InputMedia::Image { caption, data, mime_type: Some(mime_type) },
                InputMedia::Video { caption, data, .. } => InputMedia::Video { caption, data, mime_type: Some(mime_type) },
                InputMedia::Audio { data, ptt, .. } => InputMedia::Audio { data, mime_type: Some(mime_type), ptt },
                InputMedia::Document { data, filename, .. } => InputMedia::Document { data, filename, mime_type: Some(mime_type) },
                InputMedia::Sticker { data, .. } => InputMedia::Sticker { data, mime_type: Some(mime_type) },
            }),
    {
        match self {
            InputMedia::Image { caption, data, .. } => InputMedia::Image { caption, data, mime_type: Some(mime_type) },
            InputMedia::Video { caption, data, .. } => InputMedia::Video { caption, data, mime_type: Some(mime_type) },
            InputMedia::Audio { data, ptt, .. } => InputMedia::Audio { data, mime_type: Some(mime_type), ptt },
            InputMedia::Document { data, filename, .. } => InputMedia::Document { data, filename, mime_type: Some(mime_type) },
            InputMedia::Sticker { data, .. } => InputMedia::Sticker { data, mime_type: Some(mime_type) },
        }
    }

    /// Sets the file name of a document; other media are returned unchanged.
    pub fn with_filename(self, filename: String) -> (r: Self)
        ensures
            r == (match self {
                InputMedia::Document { data, mime_type, .. } => InputMedia::Document { data, filename: Some(filename), mime_type },
                _ => self,
            }),
    {
        match self {
            InputMedia::Document { data, mime_type, .. } => InputMedia::Document { data, filename: Some(filename), mime_type },
            other => other,
        }
    }

    /// Marks audio as a push-to-talk voice note; other media are returned unchanged.
    pub fn with_ptt(self, ptt: bool) -> (r: Self)
        ensures
            r == (match self {
                InputMedia::Audio { data, mime_type, .. } => InputMedia::Audio { data, mime_type, ptt },
                _ => self,
            }),
    {
        match self {
            InputMedia::Audio { data, mime_type, .. } => InputMedia::Audio { data, mime_type, ptt },
            other => other,
        }
    }

    /// Sets the caption of an image or video (the same as `with_caption`).
    pub fn caption(self, caption: String) -> (r: Self)
        ensures
            r == (match self {
                InputMedia::Image { data, mime_type, .. } => InputMedia::Image { caption: Some(caption), data, mime_type },
                InputMedia::Video { data, mime_type, .. } => InputMedia::Video { caption: Some(caption), data, mime_type },
                _ => self,
            }),
    {
        self.with_caption(caption)
    }

    /// Sets the file name of a document (the same as `with_filename`).
    pub fn filename(self, filename: String) -> (r: Self)
        ensures
            r == (match self {
                InputMedia::Document { data, mime_type, .. } => InputMedia::Document { data, filename: Some(filename), mime_type },
                _ => self,
            }),
    {
        self.with_filename(filename)
    }

    /// Marks audio as a push-to-talk voice note (the same as `with_ptt`).
    pub fn ptt(self, ptt: bool) -> (r: Self)
        ensures
            r == (match self {
                InputMedia::Audio { data, mime_type, .. } => InputMedia::Audio { data, mime_type, ptt },
                _ => self,
            }),
    {
        self.with_ptt(ptt)
    }

    /// The raw file data.
    pub fn data(&self) -> (r: &Vec<u8>)
        ensures
            r@ == media_data(*self),
    {
        match self {
            InputMedia::Image { data, .. } => data,
            InputMedia::Video { data, .. } => data,
            InputMedia::Audio { data, .. } => data,
            InputMedia::Document { data, .. } => data,
            InputMedia::Sticker { data, .. } => data,
        }
    }

    /// The MIME type, if one was set.
    pub fn mime_type(&self) -> (r: Option<&String>)
        ensures
            r matches Some(m) ==> media_mime(*self) == Some(*m),
            r is None <==> media_mime(*self) is None,
    {
        match self {
            InputMedia::Image { mime_type, .. } => mime_type.as_ref(),
            InputMedia::Video { mime_type, .. } => mime_type.as_ref(),
            InputMedia::Audio { mime_type, .. } => mime_type.as_ref(),
            InputMedia::Document { mime_type, .. } => mime_type.as_ref(),
            InputMedia::Sticker { mime_type, .. } => mime_type.as_ref(),
        }
    }

    /// The display label: image, video, audio or voice note, document, sticker.
    pub fn to_text(&self) -> (r: String)
        ensures
            r@ == media_label(*self),
    {
        match self {
            InputMedia::Image { .. } => {
                proof { reveal_strlit("image"); }
                "image".to_string()
            },
            InputMedia::Video { .. } => {
                proof { reveal_strlit("video"); }
                "video".to_string()
            },
            InputMedia::Audio { ptt, .. } => {
                if *ptt {
                    proof { reveal_strlit("voice note"); }
                    "voice note".to_string()
                } else {
                    proof { reveal_strlit("audio"); }
                    "audio".to_string()
                }
            },
            InputMedia::Document { .. } => {
                proof { reveal_strlit("document"); }
                "document".to_string()
            },
            InputMedia::Sticker { .. } => {
                proof { reveal_strlit("sticker"); }
                "sticker".to_string()
            },
        }
    }
}

/// A builder for constructing messages to send.
#[derive(Clone, Debug)]
pub struct InputMessage {
    pub text: Option<String>,
    pub reply_to: Option<String>,
    pub silent: bool,
    pub link_preview: bool,
    pub media: Option<InputMedia>,
}

impl InputMessage {
    /// A message with no text, no reply target, not silent, link previews on.
    pub fn empty() -> (r: Self)
        ensures
            r.text is None && r.reply_to is None && !r.silent && r.link_preview && r.media is None,
    {
        InputMessage { text: None, reply_to: None, silent: false, link_preview: true, media: None }
    }

    /// A message with the given text and the defaults of `empty`.
    pub fn text(text: String) -> (r: Self)
        ensures
            r.text == Some(text) && r.reply_to is None && !r.silent && r.link_preview && r.media is None,
    {
        InputMessage { text: Some(text), reply_to: None, silent: false, link_preview: true, media: None }
    }

    /// Set the media content for this message.
    pub fn media(self, media: InputMedia) -> (r: Self)
        ensures
            r == (InputMessage { media: Some(media), ..self }),
    {
        InputMessage { media: Some(media), ..self }
    }

    /// Set the message ID this message should reply to, if any.
    pub fn reply_to(self, reply_to: Option<String>) -> (r: Self)
        ensures
            r == (InputMessage { reply_to, ..self }),
    {
        InputMessage { reply_to, ..self }
    }

    /// Whether the message should be sent silently (no notification).
    pub fn silent(self, silent: bool) -> (r: Self)
        ensures
            r == (InputMessage { silent, ..self }),
    {
        InputMessage { silent, ..self }
    }

    /// Whether a link preview should be generated for URLs in the text.
    pub fn link_preview(self, link_preview: bool) -> (r: Self)
        ensures
            r == (InputMessage { link_preview, ..self }),
    {
        InputMessage { link_preview, ..self }
    }

    /// A text message made from a string slice.
    pub fn from_text(text: &str) -> (r: Self)
        ensures
            r.text is Some && r.text.unwrap()@ == text@,
            r.reply_to is None && !r.silent && r.link_preview && r.media is None,
    {
        InputMessage::text(text.to_string())
    }
}

impl Default for InputMessage {
    fn default() -> (r: Self)
        ensures
            r.text is None && r.reply_to is None && !r.silent && r.link_preview && r.media is None,
    {
        InputMessage::empty()
    }
}

impl From<String> for InputMessage {
    fn from(text: String) -> (r: Self) {
        InputMessage::text(text)
    }
}

impl vstd::std_specs::convert::FromSpecImpl<String> for InputMessage {
    open spec fn obeys_from_spec() -> bool {
        true
    }

    open spec fn from_spec(text: String) -> Self {
        InputMessage { text: Some(text), reply_to: None, silent: false, link_preview: true, media: None }
    }
}

impl<'a> From<&'a str> for InputMessage {
    fn from(text: &'a str) -> (r: Self) {
        InputMessage::from_text(text)
    }
}

// A `String` cannot be formed from a `&str` in a specification, so this
// conversion makes no claim through `from_spec`; `InputMessage::from_text`,
// which it calls, states the result.
impl<'a> vstd::std_specs::convert::FromSpecImpl<&'a str> for InputMessage {
    open spec fn obeys_from_spec() -> bool {
        false
    }

    open spec fn from_spec(text: &'a str) -> Self {
        arbitrary()
    }
}

/// The key that identifies a message in a protocol or reaction message.
#[derive(Clone, Debug)]
pub struct ProtoKey {
    pub remote_jid: Option<String>,
    pub from_me: Option<bool>,
    pub id: Option<String>,
    pub participant: Option<String>,
}

/// Context attached to a text message: the replied-to message, forwarding.
#[derive(Clone, Debug)]
pub struct ProtoContextInfo {
    pub stanza_id: Option<String>,
    pub remote_jid: Option<String>,
    pub is_forwarded: Option<bool>,
    pub forwarding_score: Option<u32>,
}

/// A text message with optional context.
#[derive(Clone, Debug)]
pub struct ProtoExtendedText {
    pub text: Option<String>,
    pub context_info: Option<ProtoContextInfo>,
}

/// The kind of a protocol message.
#[derive(Clone, Copy, Debug, PartialEq, Eq, Structural)]
pub enum ProtoMessageKind {
    Revoke,
    MessageEdit,
}

/// The replacement content that an edit carries.
#[derive(Clone, Debug)]
pub struct ProtoEditedContent {
    pub conversation: Option<String>,
    pub extended_text_message: Option<ProtoExtendedText>,
}

/// A protocol message: an edit or a revoke of an earlier message.
#[derive(Clone, Debug)]
pub struct ProtoProtocolMessage {
    pub key: Option<ProtoKey>,
    pub kind: Option<ProtoMessageKind>,
    pub edited_message: Option<ProtoEditedContent>,
    pub timestamp_ms: Option<i64>,
}

/// A reaction to a message.
#[derive(Clone, Debug)]
pub struct ProtoReaction {
    pub key: Option<ProtoKey>,
    pub text: Option<String>,
    pub sender_timestamp_ms: Option<i64>,
}

/// The fields of a `whatsapp.Message` protobuf that this client writes.
#[derive(Clone, Debug)]
pub struct ProtoMessage {
    pub conversation: Option<String>,
    pub extended_text_message: Option<ProtoExtendedText>,
    pub protocol_message: Option<ProtoProtocolMessage>,
    pub reaction_message: Option<ProtoReaction>,
}

/// A message with none of the fields set.
pub open spec fn empty_proto() -> ProtoMessage {
    ProtoMessage { conversation: None, extended_text_message: None, protocol_message: None, reaction_message: None }
}

/// The content that an outgoing message builder stands for: a reply becomes
/// an extended text carrying the replied-to ID, anything else a plain
/// conversation text.
pub open spec fn input_proto_spec(msg: InputMessage) -> ProtoMessage {
    match msg.reply_to {
        Some(reply) => ProtoMessage {
            extended_text_message: Some(ProtoExtendedText {
                text: msg.text,
                context_info: Some(ProtoContextInfo { stanza_id: Some(reply), remote_jid: None, is_forwarded: None, forwarding_score: None }),
            }),
            ..empty_proto()
        },
        None => ProtoMessage { conversation: msg.text, ..empty_proto() },
    }
}

/// Converts an `InputMessage` into the protobuf content it sends.
pub fn input_to_proto(msg: &InputMessage) -> (r: ProtoMessage)
    ensures
        r == input_proto_spec(*msg),
{
    match &msg.reply_to {
        Some(reply) => ProtoMessage {
            conversation: None,
            extended_text_message: Some(ProtoExtendedText {
                text: copy_text(&msg.text),
                context_info: Some(ProtoContextInfo { stanza_id: Some(reply.clone()), remote_jid: None, is_forwarded: None, forwarding_score: None }),
            }),
            protocol_message: None,
            reaction_message: None,
        },
        None => ProtoMessage { conversation: copy_text(&msg.text), extended_text_message: None, protocol_message: None, reaction_message: None },
    }
}

/// A copy of an optional text.
fn copy_text(t: &Option<String>) -> (r: Option<String>)
    ensures
        r == *t,
{
    match t {
        Some(s) => Some(s.clone()),
        None => None,
    }
}

/// A copy of optional message context.
fn copy_context(c: &Option<ProtoContextInfo>) -> (r: Option<ProtoContextInfo>)
    ensures
        r == *c,
{
    match c {
        Some(c) => Some(ProtoContextInfo {
            stanza_id: copy_text(&c.stanza_id),
            remote_jid: copy_text(&c.remote_jid),
            is_forwarded: c.is_forwarded,
            forwarding_score: c.forwarding_score,
        }),
        None => None,
    }
}

/// A copy of an optional extended text.
fn copy_extended(e: &Option<ProtoExtendedText>) -> (r: Option<ProtoExtendedText>)
    ensures
        r == *e,
{
    match e {
        Some(e) => Some(ProtoExtendedText { text: copy_text(&e.text), context_info: copy_context(&e.context_info) }),
        None => None,
    }
}

/// A copy of an optional message key.
fn copy_key(k: &Option<ProtoKey>) -> (r: Option<ProtoKey>)
    ensures
        r == *k,
{
    match k {
        Some(k) => Some(ProtoKey {
            remote_jid: copy_text(&k.remote_jid),
            from_me: k.from_me,
            id: copy_text(&k.id),
            participant: copy_text(&k.participant),
        }),
        None => None,
    }
}

impl ProtoMessage {
    /// A copy of this message.
    pub fn copy(&self) -> (r: ProtoMessage)
        ensures
            r == *self,
    {
        let protocol_message = match &self.protocol_message {
            Some(p) => Some(ProtoProtocolMessage {
                key: copy_key(&p.key),
                kind: p.kind,
                edited_message: match &p.edited_message {
                    Some(e) => Some(ProtoEditedContent {
                        conversation: copy_text(&e.conversation),
                        extended_text_message: copy_extended(&e.extended_text_message),
                    }),
                    None => None,
                },
                timestamp_ms: p.timestamp_ms,
            }),
            None => None,
        };
        let reaction_message = match &self.reaction_message {
            Some(r) => Some(ProtoReaction {
                key: copy_key(&r.key),
                text: copy_text(&r.text),
                sender_timestamp_ms: r.sender_timestamp_ms,
            }),
            None => None,
        };
        ProtoMessage {
            conversation: copy_text(&self.conversation),
            extended_text_message: copy_extended(&self.extended_text_message),
            protocol_message,
            reaction_message,
        }
    }
}

/// The text a JID is written as.
pub open spec fn jid_string(j: Jid) -> Seq<char> {
    jid_text(j.user@, j.server, j.agent, j.device)
}

/// `k` names our own message `message_id` in the chat written `chat`, sent
/// by `participant` where one is given.
pub open spec fn is_own_key(k: ProtoKey, chat: Seq<char>, message_id: Seq<char>, participant: Option<Seq<char>>) -> bool {
    &&& k.remote_jid is Some && k.remote_jid.unwrap()@ == chat
    &&& k.from_me == Some(true)
    &&& k.id is Some && k.id.unwrap()@ == message_id
    &&& match participant {
        Some(p) => k.participant is Some && k.participant.unwrap()@ == p,
        None => k.participant is None,
    }
}

/// The key of our own message `message_id` in `chat_jid`.
fn own_key(chat_jid: &Jid, message_id: &str, participant: Option<&str>) -> (r: ProtoKey)
    ensures
        is_own_key(r, jid_string(*chat_jid), message_id@, match participant { Some(p) => Some(p@), None => None }),
{
    ProtoKey {
        remote_jid: Some(chat_jid.to_text()),
        from_me: Some(true),
        id: Some(message_id.to_string()),
        participant: match participant {
            Some(p) => Some(p.to_string()),
            None => None,
        },
    }
}

/// A protocol message that edits our message `message_id` in `chat_jid`: it
/// carries the text fields of `new_content` and the edit time.
pub fn build_edit_proto(chat_jid: &Jid, message_id: &str, new_content: &ProtoMessage, timestamp_ms: i64) -> (r: ProtoMessage)
    ensures
        r.conversation is None && r.extended_text_message is None && r.reaction_message is None,
        r.protocol_message is Some,
        ({
            let p = r.protocol_message.unwrap();
            &&& p.key is Some && is_own_key(p.key.unwrap(), jid_string(*chat_jid), message_id@, None)
            &&& p.kind == Some(ProtoMessageKind::MessageEdit)
            &&& p.edited_message == Some(ProtoEditedContent {
                conversation: new_content.conversation,
                extended_text_message: new_content.extended_text_message,
            })
            &&& p.timestamp_ms == Some(timestamp_ms)
        }),
{
    ProtoMessage {
        conversation: None,
        extended_text_message: None,
        protocol_message: Some(ProtoProtocolMessage {
            key: Some(own_key(chat_jid, message_id, None)),
            kind: Some(ProtoMessageKind::MessageEdit),
            edited_message: Some(ProtoEditedContent {
                conversation: copy_text(&new_content.conversation),
                extended_text_message: copy_extended(&new_content.extended_text_message),
            }),
            timestamp_ms: Some(timestamp_ms),
        }),
        reaction_message: None,
    }
}

/// A protocol message that revokes (deletes for everyone) our message
/// `message_id` in `chat_jid`; an admin revoke names the original sender.
pub fn build_revoke_proto(chat_jid: &Jid, message_id: &str, participant: Option<&str>) -> (r: ProtoMessage)
    ensures
        r.conversation is None && r.extended_text_message is None && r.reaction_message is None,
        r.protocol_message is Some,
        ({
            let p = r.protocol_message.unwrap();
            &&& p.key is Some
            &&& is_own_key(p.key.unwrap(), jid_string(*chat_jid), message_id@, match participant { Some(q) => Some(q@), None => None })
            &&& p.kind == Some(ProtoMessageKind::Revoke)
            &&& p.edited_message is None
            &&& p.timestamp_ms is None
        }),
{
    ProtoMessage {
        conversation: None,
        extended_text_message: None,
        protocol_message: Some(ProtoProtocolMessage {
            key: Some(own_key(chat_jid, message_id, participant)),
            kind: Some(ProtoMessageKind::Revoke),
            edited_message: None,
            timestamp_ms: None,
        }),
        reaction_message: None,
    }
}

/// The placeholder text of a forwarded message.
pub open spec fn forwarded_placeholder() -> Seq<char> {
    seq!['[', 'F', 'o', 'r', 'w', 'a', 'r', 'd', 'e', 'd', ' ', 'm', 'e', 's', 's', 'a', 'g', 'e', ']']
}

/// A forwarded-message reference: a placeholder text whose context names
/// the original message and its chat, marked forwarded once.
pub fn build_forward_proto(source_jid: &Jid, original_msg_id: &str) -> (r: ProtoMessage)
    ensures
        r.conversation is None && r.protocol_message is None && r.reaction_message is None,
        r.extended_text_message is Some,
        ({
            let e = r.extended_text_message.unwrap();
            &&& e.text is Some && e.text.unwrap()@ == forwarded_placeholder()
            &&& e.context_info is Some
            &&& ({
                let c = e.context_info.unwrap();
                &&& c.stanza_id is Some && c.stanza_id.unwrap()@ == original_msg_id@
                &&& c.remote_jid is Some && c.remote_jid.unwrap()@ == jid_string(*source_jid)
                &&& c.is_forwarded == Some(true)
                &&& c.forwarding_score == Some(1u32)
            })
        }),
{
    let text = "[Forwarded message]";
    proof {
        reveal_strlit("[Forwarded message]");
    }
    ProtoMessage {
        conversation: None,
        extended_text_message: Some(ProtoExtendedText {
            text: Some(text.to_string()),
            context_info: Some(ProtoContextInfo {
                stanza_id: Some(original_msg_id.to_string()),
                remote_jid: Some(source_jid.to_text()),
                is_forwarded: Some(true),
                forwarding_score: Some(1),
            }),
        }),
        protocol_message: None,
        reaction_message: None,
    }
}

/// A reaction with `emoji` to our message `message_id` in `chat_jid`, sent
/// at `timestamp_ms`.
pub fn build_reaction_proto_at(chat_jid: &Jid, message_id: &str, emoji: &str, timestamp_ms: i64) -> (r: ProtoMessage)
    ensures
        r.conversation is None && r.extended_text_message is None && r.protocol_message is None,
        r.reaction_message is Some,
        ({
            let m = r.reaction_message.unwrap();
            &&& m.key is Some && is_own_key(m.key.unwrap(), jid_string(*chat_jid), message_id@, None)
            &&& m.text is Some && m.text.unwrap()@ == emoji@
            &&& m.sender_timestamp_ms == Some(timestamp_ms)
        }),
{
    ProtoMessage {
        conversation: None,
        extended_text_message: None,
        protocol_message: None,
        reaction_message: Some(ProtoReaction {
            key: Some(own_key(chat_jid, message_id, None)),
            text: Some(emoji.to_string()),
            sender_timestamp_ms: Some(timestamp_ms),
        }),
    }
}

/// waproto's message key.
#[verifier::external_type_specification]
#[verifier::external_body]
pub struct ExWireMessageKey(waproto::whatsapp::MessageKey);

/// waproto's context info.
#[verifier::external_type_specification]
#[verifier::external_body]
pub struct ExWireContextInfo(waproto::whatsapp::ContextInfo);

/// waproto's extended text message.
#[verifier::external_type_specification]
#[verifier::external_body]
pub struct ExWireExtendedTextMessage(waproto::whatsapp::message::ExtendedTextMessage);

/// waproto's protocol message.
#[verifier::external_type_specification]
#[verifier::external_body]
pub struct ExWireProtocolMessage(waproto::whatsapp::message::ProtocolMessage);

/// waproto's reaction message.
#[verifier::external_type_specification]
#[verifier::external_body]
pub struct ExWireReactionMessage(waproto::whatsapp::message::ReactionMessage);

/// The protobuf encoding that waproto writes for a message (buffa's
/// `try_encode_to_vec`), or `None` when it would exceed the 2 GiB limit.
pub uninterp spec fn encoded_proto(m: ProtoMessage) -> Option<Seq<u8>>;

/// Builds waproto's message key from ours, field for field.
#[verifier::external_body]
fn wire_key(k: &ProtoKey) -> waproto::whatsapp::MessageKey {
    waproto::whatsapp::MessageKey {
        remote_jid: k.remote_jid.clone(),
        from_me: k.from_me,
        id: k.id.clone(),
        participant: k.participant.clone(),
    }
}

/// Builds waproto's context info from ours, field for field.
#[verifier::external_body]
fn wire_context(c: &ProtoContextInfo) -> waproto::whatsapp::ContextInfo {
    waproto::whatsapp::ContextInfo {
        stanza_id: c.stanza_id.clone(),
        remote_jid: c.remote_jid.clone(),
        is_forwarded: c.is_forwarded,
        forwarding_score: c.forwarding_score,
        ..Default::default()
    }
}

/// Builds waproto's extended text message from ours, field for field.
#[verifier::external_body]
fn wire_extended(e: &ProtoExtendedText) -> waproto::whatsapp::message::ExtendedTextMessage {
    waproto::whatsapp::message::ExtendedTextMessage {
        text: e.text.clone(),
        context_info: e.context_info.as_ref().map(wire_context).into(),
        ..Default::default()
    }
}

/// Builds waproto's protocol message from ours, field for field.  The kind
/// is set, one arm per variant, by merging its one-field encoding (field 2,
/// `REVOKE = 0`, `MESSAGE_EDIT = 14`).
#[verifier::external_body]
fn wire_protocol(p: &ProtoProtocolMessage) -> WireProtocolMessage {
    let mut w = match p.kind {
        Some(ProtoMessageKind::Revoke) => WireProtocolMessage::decode_from_slice(&[0x10, 0]).unwrap_or_default(),
        Some(ProtoMessageKind::MessageEdit) => WireProtocolMessage::decode_from_slice(&[0x10, 14]).unwrap_or_default(),
        None => WireProtocolMessage::default(),
    };
    w.key = p.key.as_ref().map(wire_key).into();
    w.edited_message = p.edited_message.as_ref().map(|e| waproto::whatsapp::Message {
        conversation: e.conversation.clone(),
        extended_text_message: e.extended_text_message.as_ref().map(wire_extended).into(),
        ..Default::default()
    }).into();
    w.timestamp_ms = p.timestamp_ms;
    w
}

/// Builds waproto's reaction message from ours, field for field.
#[verifier::external_body]
fn wire_reaction(r: &ProtoReaction) -> waproto::whatsapp::message::ReactionMessage {
    waproto::whatsapp::message::ReactionMessage {
        key: r.key.as_ref().map(wire_key).into(),
        text: r.text.clone(),
        sender_timestamp_ms: r.sender_timestamp_ms,
        ..Default::default()
    }
}

/// Encodes a message as the `whatsapp.Message` protobuf (buffa's
/// `try_encode_to_vec` on waproto's message); `None` when the encoding
/// would exceed the 2 GiB protobuf limit.
///
/// Trusted: the bytes are waproto's encoding of the fields above; they are
/// named (`encoded_proto`) and not restated.
#[verifier::external_body]
pub fn encode_proto(m: &ProtoMessage) -> (r: Option<Vec<u8>>)
    ensures
        match encoded_proto(*m) {
            Some(b) => r matches Some(v) && v@ == b,
            None => r is None,
        },
{
    waproto::whatsapp::Message {
        conversation: m.conversation.clone(),
        extended_text_message: m.extended_text_message.as_ref().map(wire_extended).into(),
        protocol_message: m.protocol_message.as_ref().map(wire_protocol).into(),
        reaction_message: m.reaction_message.as_ref().map(wire_reaction).into(),
        ..Default::default()
    }.try_encode_to_vec().ok()
}

/// The ID of a message sent at `timestamp` as the `count`-th of this process:
/// `3EB0`, the timestamp in lowercase hex padded to 8 digits, then the count
/// in lowercase hex padded to 10 digits.
pub open spec fn message_id_text(timestamp: nat, count: nat) -> Seq<char> {
    seq!['3', 'E', 'B', '0'] + zero_padded(hex_text(timestamp), 8) + zero_padded(hex_text(count), 10)
}

proof fn lemma_pow16_values()
    ensures
        pow16(8) == 4294967296,
        pow16(10) == 1099511627776,
{
    reveal_with_fuel(pow16, 11);
}

/// A message ID made at a timestamp below 2^32 (until the year 2106) with a
/// count below 2^40 is 22 characters long and starts with `3EB0`.
pub proof fn lemma_message_id_shape(timestamp: nat, count: nat)
    requires
        timestamp < 4294967296,
        count < 1099511627776,
    ensures
        message_id_text(timestamp, count).len() == 22,
        message_id_text(timestamp, count).take(4) == seq!['3', 'E', 'B', '0'],
{
    lemma_pow16_values();
    lemma_hex_padded(timestamp, 8);
    lemma_hex_padded(count, 10);
    assert(message_id_text(timestamp, count).take(4) =~= seq!['3', 'E', 'B', '0']);
}

/// Two message IDs made at timestamps below 2^32 with counts below 2^40
/// differ whenever their timestamps or their counts differ; in particular
/// the IDs a generator hands out one after the other (whose counts differ
/// by one) are distinct.
pub proof fn lemma_message_ids_distinct(t1: nat, c1: nat, t2: nat, c2: nat)
    requires
        t1 < 4294967296,
        t2 < 4294967296,
        c1 < 1099511627776,
        c2 < 1099511627776,
        t1 != t2 || c1 != c2,
    ensures
        message_id_text(t1, c1) != message_id_text(t2, c2),
{
    lemma_pow16_values();
    lemma_hex_padded(t1, 8);
    lemma_hex_padded(c1, 10);
    lemma_hex_padded(t2, 8);
    lemma_hex_padded(c2, 10);
    let a = message_id_text(t1, c1);
    let b = message_id_text(t2, c2);
    if a == b {
        assert(a.subrange(4, 12) =~= zero_padded(hex_text(t1), 8));
        assert(b.subrange(4, 12) =~= zero_padded(hex_text(t2), 8));
        assert(a.subrange(12, 22) =~= zero_padded(hex_text(c1), 10));
        assert(b.subrange(12, 22) =~= zero_padded(hex_text(c2), 10));
    }
}

/// Formats a message ID (`format!("3EB0{timestamp:0>8x}{count:0>10x}")`).
pub fn format_message_id(timestamp: u64, count: u64) -> (r: String)
    ensures
        r@ == message_id_text(timestamp as nat, count as nat),
{
    let mut out = String::new();
    proof {
        reveal_strlit("3EB0");
    }
    out.append("3EB0");
    let ts = hex_string_padded(timestamp, 8);
    out.append(ts.as_str());
    let c = hex_string_padded(count, 10);
    out.append(c.as_str());
    out
}

/// The source of message IDs: a counter of the IDs handed out so far.
#[derive(Debug)]
pub struct MessageIdGenerator {
    next_count: u64,
}

impl MessageIdGenerator {
    /// The count the next ID will carry.
    pub closed spec fn count(&self) -> u64 {
        self.next_count
    }

    /// A generator whose first ID carries count 0.
    pub fn new() -> (r: Self)
        ensures
            r.count() == 0,
    {
        MessageIdGenerator { next_count: 0 }
    }

    /// The ID for a message sent at `timestamp`; the counter moves on by one,
    /// wrapping as an atomic `fetch_add` does.
    pub fn next_id(&mut self, timestamp: u64) -> (r: String)
        ensures
            r@ == message_id_text(timestamp as nat, old(self).count() as nat),
            final(self).count() == old(self).count().wrapping_add(1),
    {
        let count = self.next_count;
        self.next_count = count.wrapping_add(1);
        format_message_id(timestamp, count)
    }
}

/// Seconds since the Unix epoch by the system clock, 0 before the epoch.
///
/// Trusted: reads `SystemTime::now`; nothing is stated of the value.
#[verifier::external_body]
pub fn system_time_secs() -> (r: u64) {
    std::time::SystemTime::now().duration_since(std::time::UNIX_EPOCH).unwrap_or_default().as_secs()
}

/// A WhatsApp-format message ID for a message sent now.
pub fn generate_message_id(generator: &mut MessageIdGenerator) -> (r: String)
    ensures
        final(generator).count() == old(generator).count().wrapping_add(1),
        exists|ts: u64| r@ == message_id_text(ts as nat, old(generator).count() as nat),
{
    let ts = system_time_secs();
    generator.next_id(ts)
}

/// `n` is a message stanza to the chat written `to` with ID `id` whose
/// `<plaintext>` child carries `payload`.
pub open spec fn is_message_stanza(n: Stanza, to: Seq<char>, id: Seq<char>, payload: Seq<u8>) -> bool {
    &&& n.tag@ == "message"@
    &&& n.attrs@.len() == 3
    &&& n.attrs@[0].key@ == "to"@ && n.attrs@[0].value@ == to
    &&& n.attrs@[1].key@ == "type"@ && n.attrs@[1].value@ == "text"@
    &&& n.attrs@[2].key@ == "id"@ && n.attrs@[2].value@ == id
    &&& n.content matches Some(StanzaContent::Nodes(children)) && children@.len() == 1 && {
        let p = children@[0];
        &&& p.tag@ == "plaintext"@
        &&& p.attrs@.len() == 0
        &&& p.content matches Some(StanzaContent::Bytes(b)) && b@ == payload
    }
}

/// The error of a message too large to encode.
pub open spec fn too_large_error(e: ClientError) -> bool {
    e matches ClientError::Send(SendError::InvalidRequest(m)) && m@ == "message exceeds the 2 GiB protobuf limit"@
}

/// Builds the stanza that sends `proto` to `to` under the ID `msg_id`; a
/// message whose encoding exceeds the protobuf limit is refused.
pub fn build_message_node(to: &Jid, msg_id: &str, proto: &ProtoMessage) -> (r: Result<Stanza, ClientError>)
    ensures
        match encoded_proto(*proto) {
            Some(b) => r matches Ok(n) && is_message_stanza(n, jid_string(*to), msg_id@, b),
            None => r matches Err(e) && too_large_error(e),
        },
{
    let encoded = match encode_proto(proto) {
        Some(b) => b,
        None => return Err(ClientError::Send(SendError::InvalidRequest("message exceeds the 2 GiB protobuf limit".to_string()))),
    };
    let plaintext = Stanza::new("plaintext").with_bytes(encoded);
    let to_text = to.to_text();
    let node = Stanza::new("message")
        .with_attr("to", to_text.as_str())
        .with_attr("type", "text")
        .with_attr("id", msg_id);
    let mut children: Vec<Stanza> = Vec::new();
    children.push(plaintext);
    let r = node.with_children(children);
    assert(r.attrs@.drop_last().drop_last() =~= seq![r.attrs@[0]]);
    Ok(r)
}

/// Builds the stanza that sends a reaction message; it has the shape of any
/// message stanza.
pub fn build_reaction_node(to: &Jid, msg_id: &str, proto: &ProtoMessage) -> (r: Result<Stanza, ClientError>)
    ensures
        match encoded_proto(*proto) {
            Some(b) => r matches Ok(n) && is_message_stanza(n, jid_string(*to), msg_id@, b),
            None => r matches Err(e) && too_large_error(e),
        },
{
    build_message_node(to, msg_id, proto)
}

/// `n` is an `<item id="{id}"/>` of a receipt's list.
pub open spec fn is_receipt_item(n: Stanza, id: Seq<char>) -> bool {
    &&& n.tag@ == "item"@
    &&& n.attrs@.len() == 1
    &&& n.attrs@[0].key@ == "id"@ && n.attrs@[0].value@ == id
    &&& n.content is None
}

/// The texts of message IDs.
pub open spec fn id_texts(ids: Seq<&str>) -> Seq<Seq<char>> {
    ids.map_values(|s: &str| s@)
}

/// `n` is a read receipt to the chat written `to`, at time `t`, marking
/// every message in `ids` (at least one) read: the first in its `id`, the
/// others, in order, as `<item id=…/>` children of one `<list>`.
pub open spec fn is_read_receipt(n: Stanza, to: Seq<char>, ids: Seq<Seq<char>>, t: int) -> bool {
    &&& n.tag@ == "receipt"@
    &&& n.attrs@.len() == 4
    &&& n.attrs@[0].key@ == "to"@ && n.attrs@[0].value@ == to
    &&& n.attrs@[1].key@ == "type"@ && n.attrs@[1].value@ == "read"@
    &&& n.attrs@[2].key@ == "id"@ && n.attrs@[2].value@ == ids[0]
    &&& n.attrs@[3].key@ == "t"@ && n.attrs@[3].value@ == signed_decimal_text(t)
    &&& if ids.len() == 1 {
        n.content is None
    } else {
        n.content matches Some(StanzaContent::Nodes(cs)) && cs@.len() == 1 && {
            let list = cs@[0];
            &&& list.tag@ == "list"@
            &&& list.attrs@.len() == 0
            &&& list.content matches Some(StanzaContent::Nodes(items)) && items@.len() + 1 == ids.len()
                && forall|k: int| 0 <= k < items@.len() ==> is_receipt_item(#[trigger] items@[k], ids[k + 1])
        }
    }
}

/// Builds a read receipt marking all of `message_ids` read at `timestamp`
/// (Unix seconds).
pub fn build_read_receipt_node_at(to: &Jid, message_ids: &[&str], timestamp: i64) -> (r: Stanza)
    requires
        message_ids@.len() > 0,
    ensures
        is_read_receipt(r, jid_string(*to), id_texts(message_ids@), timestamp as int),
{
    let t = signed_decimal_string(timestamp);
    let to_text = to.to_text();
    let r = Stanza::new("receipt")
        .with_attr("to", to_text.as_str())
        .with_attr("type", "read")
        .with_attr("id", message_ids[0])
        .with_attr("t", t.as_str());
    assert(r.attrs@.drop_last().drop_last().drop_last() =~= seq![r.attrs@[0]]);
    assert(r.attrs@.drop_last().drop_last() =~= seq![r.attrs@[0], r.attrs@[1]]);
    if message_ids.len() == 1 {
        return r;
    }
    let ghost ids = id_texts(message_ids@);
    let mut items: Vec<Stanza> = Vec::new();
    let mut i: usize = 1;
    while i < message_ids.len()
        invariant
            1 <= i <= message_ids@.len(),
            ids == id_texts(message_ids@),
            items@.len() + 1 == i,
            forall|k: int| 0 <= k < items@.len() ==> is_receipt_item(#[trigger] items@[k], ids[k + 1]),
        decreases message_ids@.len() - i,
    {
        let item = Stanza::new("item").with_attr("id", message_ids[i]);
        assert(item.attrs@.len() == 1);
        items.push(item);
        i = i + 1;
    }
    let list = Stanza::new("list").with_children(items);
    let mut children: Vec<Stanza> = Vec::new();
    children.push(list);
    r.with_children(children)
}

/// Builds a read receipt marking all of `message_ids` read, timestamped
/// now.
pub fn build_read_receipt_node(to: &Jid, message_ids: &[&str]) -> (r: Stanza)
    requires
        message_ids@.len() > 0,
    ensures
        exists|t: i64| #[trigger] is_read_receipt(r, jid_string(*to), id_texts(message_ids@), t as int),
{
    let t = unix_time_secs();
    build_read_receipt_node_at(to, message_ids, t)
}

/// Metadata of a received or sent message.
#[derive(Clone, Debug)]
pub struct MessageInfo {
    pub id: String,
    pub chat: Jid,
    pub sender: Jid,
    pub is_from_me: bool,
    /// Unix timestamp (seconds) of the message.
    pub timestamp: i64,
    pub message_type: String,
}

/// A message: its protobuf content, metadata and the chat it belongs to.
#[derive(Debug)]
pub struct Message {
    pub content: ProtoMessage,
    pub info: MessageInfo,
    pub chat: Chat,
}

/// The plain-text body of a message: the conversation text, else the text
/// of an extended text message.
pub open spec fn message_text(m: ProtoMessage) -> Option<String> {
    if m.conversation is Some {
        m.conversation
    } else {
        match m.extended_text_message {
            Some(e) => e.text,
            None => None,
        }
    }
}

/// The ID of the message this one replies to.
pub open spec fn message_reply_to(m: ProtoMessage) -> Option<String> {
    match m.extended_text_message {
        Some(e) => match e.context_info {
            Some(c) => c.stanza_id,
            None => None,
        },
        None => None,
    }
}

impl Message {
    /// A message from its parts.
    pub fn new(content: ProtoMessage, info: MessageInfo, chat: Chat) -> (r: Self)
        ensures
            r.content == content && r.info == info && r.chat == chat,
    {
        Message { content, info, chat }
    }

    /// The server-assigned message ID.
    pub fn id(&self) -> (r: &String)
        ensures
            *r == self.info.id,
    {
        &self.info.id
    }

    /// The plain-text body of the message, if any.
    pub fn text(&self) -> (r: Option<&String>)
        ensures
            r matches Some(t) ==> message_text(self.content) == Some(*t),
            r is None <==> message_text(self.content) is None,
    {
        match &self.content.conversation {
            Some(t) => Some(t),
            None => match &self.content.extended_text_message {
                Some(e) => e.text.as_ref(),
                None => None,
            },
        }
    }

    /// Whether this message was sent by the current user.
    pub fn outgoing(&self) -> (r: bool)
        ensures
            r == self.info.is_from_me,
    {
        self.info.is_from_me
    }

    /// The chat this message belongs to.
    pub fn chat(&self) -> (r: &Chat)
        ensures
            *r == self.chat,
    {
        &self.chat
    }

    /// The sender of this message, as the chat its JID maps to.
    pub fn sender(&self) -> (r: Chat)
        ensures
            r == chat_for_jid_spec(self.info.sender),
    {
        chat_for_jid(self.info.sender.copy())
    }

    /// Unix timestamp (seconds) of the message, as an unsigned number.
    pub fn date(&self) -> (r: u64)
        ensures
            r == self.info.timestamp as u64,
    {
        self.info.timestamp as u64
    }

    /// When the message was last edited; edit times are not tracked, so never.
    pub fn edit_date(&self) -> (r: Option<u64>)
        ensures
            r is None,
    {
        None
    }

    /// The ID of the message this one replies to, if it is a reply.
    pub fn reply_to_id(&self) -> (r: Option<&String>)
        ensures
            r matches Some(t) ==> message_reply_to(self.content) == Some(*t),
            r is None <==> message_reply_to(self.content) is None,
    {
        match &self.content.extended_text_message {
            Some(e) => match &e.context_info {
                Some(c) => c.stanza_id.as_ref(),
                None => None,
            },
            None => None,
        }
    }
}

/// Milliseconds since the Unix epoch by the system clock, 0 before the
/// epoch.
///
/// Trusted: reads `SystemTime::now`; nothing is stated of the value.
#[verifier::external_body]
fn system_time_millis() -> (r: u128) {
    std::time::SystemTime::now().duration_since(std::time::UNIX_EPOCH).unwrap_or_default().as_millis()
}

/// The current time in milliseconds since the Unix epoch (0 before it,
/// `i64::MAX` past what an `i64` holds).
pub fn unix_time_millis() -> (r: i64)
    ensures
        r >= 0,
{
    let ms = system_time_millis();
    if ms > i64::MAX as u128 { i64::MAX } else { ms as i64 }
}

/// The current time in seconds since the Unix epoch (0 before it,
/// `i64::MAX` past what an `i64` holds).
pub fn unix_time_secs() -> (r: i64)
    ensures
        r >= 0,
{
    let s = system_time_secs();
    if s > i64::MAX as u64 { i64::MAX } else { s as i64 }
}

/// A reaction with `emoji` to our message `message_id` in `chat_jid`, sent now.
pub fn build_reaction_proto(chat_jid: &Jid, message_id: &str, emoji: &str) -> (r: ProtoMessage)
    ensures
        r.reaction_message is Some,
        r.reaction_message.unwrap().sender_timestamp_ms is Some,
        ({
            let ts = r.reaction_message.unwrap().sender_timestamp_ms.unwrap();
            &&& r.conversation is None && r.extended_text_message is None && r.protocol_message is None
            &&& r.reaction_message.unwrap().key is Some
            &&& is_own_key(r.reaction_message.unwrap().key.unwrap(), jid_string(*chat_jid), message_id@, None)
            &&& r.reaction_message.unwrap().text is Some
            &&& r.reaction_message.unwrap().text.unwrap()@ == emoji@
        }),
{
    let ts = unix_time_millis();
    build_reaction_proto_at(chat_jid, message_id, emoji, ts)
}

/// Specifies who is revoking (deleting) the message.
#[derive(Debug)]
pub enum RevokeType {
    /// The message sender deleting their own message.
    Sender,
    /// A group admin deleting another user's message.
    Admin { original_sender: Jid },
}

/// The participant a revoke names: none for the sender's own revoke, the
/// original sender's JID text for an admin's.
pub fn revoke_participant(revoke_type: &RevokeType) -> (r: Option<String>)
    ensures
        match revoke_type {
            RevokeType::Sender => r is None,
            RevokeType::Admin { original_sender } => r matches Some(p) && p@ == jid_string(*original_sender),
        },
{
    match revoke_type {
        RevokeType::Sender => None,
        RevokeType::Admin { original_sender } => Some(original_sender.to_text()),
    }
}

/// How an outgoing message is sent.
#[derive(Debug)]
pub enum SendPath {
    /// In plaintext (newsletters).
    Plaintext,
    /// Encrypted for a group, as our phone-number JID and LID.
    Group { own_pn: Jid, own_lid: Jid },
    /// Encrypted for a direct chat, as our phone-number JID (and LID).
    Direct { own_pn: Jid, own_lid: Option<Jid> },
}

/// How a message to `chat` is sent, given whether the connection is up and
/// our stored JIDs.
///
/// Nothing is sent without a connection (`NotConnected`).  Newsletters take
/// plaintext.  Otherwise we must be logged in (have a phone-number JID); a
/// group also needs our LID.
pub fn send_path(chat: &Chat, connected: bool, own_pn: Option<Jid>, own_lid: Option<Jid>) -> (r: Result<SendPath, ClientError>)
    ensures
        !connected ==> r matches Err(ClientError::NotConnected),
        connected && *chat is Newsletter ==> r matches Ok(SendPath::Plaintext),
        connected && !(*chat is Newsletter) && own_pn is None ==> r matches Err(ClientError::NotLoggedIn),
        connected && !(*chat is Newsletter) && own_pn is Some && chat_jid(*chat).server == JidServer::Group ==> match own_lid {
            None => r matches Err(ClientError::Internal(m)) && m@ == "LID not set, cannot send to group"@,
            Some(l) => r matches Ok(SendPath::Group { own_pn: p, own_lid: q }) && Some(p) == own_pn && q == l,
        },
        connected && !(*chat is Newsletter) && own_pn is Some && chat_jid(*chat).server != JidServer::Group
            ==> (r matches Ok(SendPath::Direct { own_pn: p, own_lid: q }) && Some(p) == own_pn && q == own_lid),
{
    if !connected {
        return Err(ClientError::NotConnected);
    }
    if chat.is_newsletter() {
        return Ok(SendPath::Plaintext);
    }
    let pn = match own_pn {
        Some(p) => p,
        None => return Err(ClientError::NotLoggedIn),
    };
    let jid = chat.id();
    match jid.server {
        JidServer::Group => match own_lid {
            Some(l) => Ok(SendPath::Group { own_pn: pn, own_lid: l }),
            None => Err(ClientError::Internal("LID not set, cannot send to group".to_string())),
        },
        _ => Ok(SendPath::Direct { own_pn: pn, own_lid }),
    }
}

/// The message a send produced: our own, in `chat` (sender and chat both
/// the chat's JID), sent at `now`.
pub fn outgoing_message(content: ProtoMessage, msg_id: String, chat: Chat, now: i64) -> (r: Message)
    ensures
        r.content == content,
        r.info.id == msg_id,
        r.info.chat == chat_jid(chat),
        r.info.sender == chat_jid(chat),
        r.info.is_from_me,
        r.info.timestamp == now,
        r.info.message_type@ == Seq::<char>::empty(),
        r.chat == chat,
{
    let jid = chat.id().copy();
    let info = MessageInfo { id: msg_id, chat: jid.copy(), sender: jid, is_from_me: true, timestamp: now, message_type: String::new() };
    Message::new(content, info, chat)
}

} // verus!
