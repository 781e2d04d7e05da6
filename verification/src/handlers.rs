//! Decoding of incoming protocol nodes into application updates, and the
//! IQ requests that some of them trigger.

use vstd::prelude::*;

use crate::connection::{InfoQuery, InfoQueryType};
use crate::error::IqError;
use crate::jid::{Jid, JidServer, JidView, parse_jid, parsed_jid};
use crate::stanza::{Attr, Stanza, StanzaContent, attr_of, attr_pairs, child_nodes, child_with_tag, content_text, has_child_list, has_child_tagged};
use crate::peer::{Chat, chat_for_jid, chat_for_jid_spec, chat_jid};
use crate::text::{decimal_string, decimal_text, parse_i32, parse_signed_spec, parse_u32, parse_u64, parse_unsigned_spec};
use crate::update::{
    ChatPresence, ChatPresenceState, ConnectFailure, ConnectFailureReason, ContactUpdate,
    DisappearingModeChanged, GroupUpdate, PictureUpdate, Presence, PushNameUpdate, Receipt,
    ReceiptType, StreamError, TemporaryBan, Update, reason_for_code,
};

verus! {

broadcast use vstd::string::group_string_axioms;

/// A request for an app state collection sync: the collection name and the
/// local version; version 0 asks for a full snapshot.
#[derive(Clone, Debug)]
pub struct AppStateSyncSpec {
    pub name: String,
    pub version: u64,
}

impl AppStateSyncSpec {
    /// A request for the given collection from version 0 (a snapshot).
    pub fn new(name: &str) -> (r: Self)
        ensures
            r.name@ == name@,
            r.version == 0,
    {
        AppStateSyncSpec { name: name.to_string(), version: 0 }
    }

    /// A request for the patches after `version`.
    pub fn after_version(name: &str, version: u64) -> (r: Self)
        ensures
            r.name@ == name@,
            r.version == version,
    {
        AppStateSyncSpec { name: name.to_string(), version }
    }

    /// Whether this request asks for a full snapshot (version 0).
    pub fn wants_snapshot(&self) -> (r: bool)
        ensures
            r == (self.version == 0),
    {
        self.version == 0
    }

    /// The sync request as an IQ: a `set` in `w:sync:app:state` to the
    /// server, holding `<sync><collection .../></sync>`.
    pub fn build_iq(&self) -> (r: InfoQuery)
        ensures
            r.namespace@ == "w:sync:app:state"@,
            r.query_type == InfoQueryType::SetQuery,
            r.to@ == server_jid_view(),
            r.target is None && r.id is None && r.timeout_secs is None,
            is_app_state_sync_content(r.content, self.name@, self.version),
    {
        let snapshot = self.version == 0;
        let mut attrs: Vec<Attr> = Vec::new();
        attrs.push(Attr { key: "name".to_string(), value: self.name.clone() });
        attrs.push(Attr { key: "return_snapshot".to_string(),
            value: if snapshot { "true".to_string() } else { "false".to_string() } });
        if !snapshot {
            attrs.push(Attr { key: "version".to_string(), value: decimal_string(self.version) });
        }
        let ghost a = attrs@;
        assert(attr_pairs(a) =~= collection_attrs(self.name@, self.version));
        let collection = Stanza { tag: "collection".to_string(), attrs, content: None };
        let sync = Stanza { tag: "sync".to_string(), attrs: Vec::new(), content: Some(StanzaContent::Nodes(vec![collection])) };
        InfoQuery::set("w:sync:app:state", server_jid(), Some(StanzaContent::Nodes(vec![sync])))
    }

    /// Reads the server's answer to the sync request: any answer that got
    /// past the IQ error check is accepted; the patches themselves arrive
    /// separately.
    pub fn parse_response(&self, response: &Stanza) -> (r: Result<(), IqError>)
        ensures
            r is Ok,
    {
        Ok(())
    }
}

/// The app state collections that `<dirty>` notifications name and that a
/// full re-sync requests, in order.
pub open spec fn app_state_collections() -> Seq<Seq<char>> {
    seq!["critical_block"@, "critical_unblock_low"@, "regular_low"@, "regular_high"@, "regular"@]
}

/// The snapshot requests of a full app state re-sync: one per collection.
pub fn app_state_resync_specs() -> (r: Vec<AppStateSyncSpec>)
    ensures
        r@.len() == app_state_collections().len(),
        forall|i: int| 0 <= i < r@.len() ==> #[trigger] r@[i].name@ == app_state_collections()[i]
            && r@[i].version == 0,
{
    let mut r: Vec<AppStateSyncSpec> = Vec::new();
    r.push(AppStateSyncSpec::new("critical_block"));
    r.push(AppStateSyncSpec::new("critical_unblock_low"));
    r.push(AppStateSyncSpec::new("regular_low"));
    r.push(AppStateSyncSpec::new("regular_high"));
    r.push(AppStateSyncSpec::new("regular"));
    r
}

/// The server's JID, `s.whatsapp.net`: no user, phone-number server.
pub open spec fn server_jid_view() -> JidView {
    JidView { user: Seq::empty(), server: JidServer::Pn, agent: 0, device: 0, integrator: 0 }
}

/// The server's JID, `s.whatsapp.net`.
pub fn server_jid() -> (r: Jid)
    ensures
        r@ == server_jid_view(),
{
    Jid { user: String::new(), server: JidServer::Pn, agent: 0, device: 0, integrator: 0 }
}

/// The attributes of the `<collection>` element of an app state sync:
/// `name`, `return_snapshot` (`true` exactly for version 0) and, past
/// version 0, `version`.
pub open spec fn collection_attrs(name: Seq<char>, version: u64) -> Seq<(Seq<char>, Seq<char>)> {
    if version == 0 {
        seq![("name"@, name), ("return_snapshot"@, "true"@)]
    } else {
        seq![("name"@, name), ("return_snapshot"@, "false"@), ("version"@, decimal_text(version as nat))]
    }
}

/// Whether `content` is `<sync><collection .../></sync>` for the given
/// collection and version.
pub open spec fn is_app_state_sync_content(content: Option<StanzaContent>, name: Seq<char>, version: u64) -> bool {
    match content {
        Some(StanzaContent::Nodes(v)) => {
            &&& v@.len() == 1
            &&& v@[0].tag@ == "sync"@
            &&& v@[0].attrs@.len() == 0
            &&& match v@[0].content {
                Some(StanzaContent::Nodes(w)) => {
                    &&& w@.len() == 1
                    &&& w@[0].tag@ == "collection"@
                    &&& attr_pairs(w@[0].attrs@) == collection_attrs(name, version)
                    &&& w@[0].content is None
                },
                _ => false,
            }
        },
        _ => false,
    }
}

/// A number attribute read with `str::parse::<u64>`.
pub open spec fn attr_u64(n: Stanza, key: Seq<char>) -> Option<nat> {
    match attr_of(n, key) {
        Some(v) => parse_unsigned_spec(v, u64::MAX as nat),
        None => None,
    }
}

/// A number attribute read with `str::parse::<u32>`.
pub open spec fn attr_u32(n: Stanza, key: Seq<char>) -> Option<nat> {
    match attr_of(n, key) {
        Some(v) => parse_unsigned_spec(v, u32::MAX as nat),
        None => None,
    }
}

/// A number attribute read with `str::parse::<i32>`.
pub open spec fn attr_i32(n: Stanza, key: Seq<char>) -> Option<int> {
    match attr_of(n, key) {
        Some(v) => parse_signed_spec(v, i32::MAX as nat),
        None => None,
    }
}

/// A JID attribute, parsed.
pub open spec fn attr_jid(n: Stanza, key: Seq<char>) -> Option<JidView> {
    match attr_of(n, key) {
        Some(v) => parsed_jid(v),
        None => None,
    }
}

/// A `u64` attribute of `node`, or `default` when it is absent or not a number.
fn attr_u64_or(node: &Stanza, key: &str, default: u64) -> (r: u64)
    ensures
        r == (match attr_u64(*node, key@) {
            Some(v) => v,
            None => default as nat,
        }),
{
    match node.get_attr(key) {
        Some(v) => match parse_u64(v.as_str()) {
            Some(x) => x,
            None => default,
        },
        None => default,
    }
}

/// A `u32` attribute of `node`, or `default` when it is absent or not a number.
fn attr_u32_or(node: &Stanza, key: &str, default: u32) -> (r: u32)
    ensures
        r == (match attr_u32(*node, key@) {
            Some(v) => v,
            None => default as nat,
        }),
{
    match node.get_attr(key) {
        Some(v) => match parse_u32(v.as_str()) {
            Some(x) => x,
            None => default,
        },
        None => default,
    }
}

/// The JID in attribute `key` of `node`, when present and valid.
fn attr_jid_of(node: &Stanza, key: &str) -> (r: Option<Jid>)
    ensures
        r is None <==> attr_jid(*node, key@) is None,
        r matches Some(j) ==> attr_jid(*node, key@) == Some(j@),
{
    match node.get_attr(key) {
        Some(v) => parse_jid(v.as_str()),
        None => None,
    }
}

/// A text attribute of `node`, or the empty text.
fn attr_text_or_empty(node: &Stanza, key: &str) -> (r: String)
    ensures
        r@ == (match attr_of(*node, key@) {
            Some(v) => v,
            None => Seq::empty(),
        }),
{
    match node.get_attr(key) {
        Some(v) => v.clone(),
        None => String::new(),
    }
}

/// A text attribute of `node`, copied.
fn attr_text(node: &Stanza, key: &str) -> (r: Option<String>)
    ensures
        r is None <==> attr_of(*node, key@) is None,
        r matches Some(t) ==> attr_of(*node, key@) == Some(t@),
{
    match node.get_attr(key) {
        Some(v) => Some(v.clone()),
        None => None,
    }
}

/// The update that a `<success>` node produces: pairing succeeded.
pub fn handle_success(node: &Stanza) -> (r: Update)
    ensures
        r is PairSuccess,
{
    Update::PairSuccess
}

/// The text child's content of a failure node, or the empty text.
pub open spec fn failure_text(n: Stanza) -> Seq<char> {
    match child_with_tag(n, "text"@) {
        Some(t) => match content_text(t) {
            Some(x) => x,
            None => Seq::empty(),
        },
        None => Seq::empty(),
    }
}

/// What a `<failure>` or `<stream:error>` node means.
///
/// A `<stream:error>` with a `<conflict>` child means the connection was
/// replaced; a numeric `code` gives a temporary ban (402, with its `expire`
/// time, 0 when missing), an outdated client (405) or a connection failure
/// with the reason for the code and the `<text>` child's content; a
/// `<stream:error>` without a numeric code is a stream error carrying the
/// `code` text; anything else means the session was logged out.
pub fn handle_failure(node: &Stanza) -> (r: Update)
    ensures
        node.tag@ == "stream:error"@ && has_child_tagged(*node, "conflict"@) ==> r is StreamReplaced,
        !(node.tag@ == "stream:error"@ && has_child_tagged(*node, "conflict"@)) ==> match attr_i32(*node, "code"@) {
            Some(code) => if code == 402 {
                r == Update::TemporaryBan(TemporaryBan {
                    code: 402,
                    expire: match attr_u64(*node, "expire"@) { Some(e) => e as u64, None => 0u64 },
                })
            } else if code == 405 {
                r is ClientOutdated
            } else {
                (r matches Update::ConnectFailure(f) && f.reason == reason_for_code(code as i32)
                    && f.message@ == failure_text(*node))
            },
            None => if node.tag@ == "stream:error"@ {
                (r matches Update::StreamError(e) && e.code@ == (match attr_of(*node, "code"@) {
                    Some(c) => c,
                    None => Seq::empty(),
                }))
            } else {
                r is LoggedOut
            },
        },
{
    if node.tag_is("stream:error") && node.has_child("conflict") {
        return Update::StreamReplaced;
    }
    let code = match node.get_attr("code") {
        Some(v) => parse_i32(v.as_str()),
        None => None,
    };
    match code {
        Some(code) => {
            if code == 402 {
                let expire = attr_u64_or(node, "expire", 0);
                return Update::TemporaryBan(TemporaryBan { code, expire });
            }
            if code == 405 {
                return Update::ClientOutdated;
            }
            let reason = ConnectFailureReason::from_i32(code);
            let message = match node.get_optional_child("text") {
                Some(t) => match t.content_as_string() {
                    Some(x) => x,
                    None => String::new(),
                },
                None => String::new(),
            };
            Update::ConnectFailure(ConnectFailure { reason, message })
        },
        None => {
            if node.tag_is("stream:error") {
                let code = attr_text_or_empty(node, "code");
                Update::StreamError(StreamError { code })
            } else {
                Update::LoggedOut
            }
        },
    }
}

/// The update a server-pushed `<iq type="set"><pair-code code=.. timeout=../>`
/// produces: the pairing code and its timeout (120 seconds when missing or
/// not a number); nothing for other nodes or an empty or missing code.
pub fn handle_pair_code(node: &Stanza) -> (r: Option<Update>)
    ensures
        ({
            let pc = child_with_tag(*node, "pair-code"@);
            let applies = node.tag@ == "iq"@ && attr_of(*node, "type"@) == Some("set"@) && pc is Some
                && attr_of(pc.unwrap(), "code"@) is Some && attr_of(pc.unwrap(), "code"@).unwrap().len() > 0;
            &&& r is Some <==> applies
            &&& applies ==> (r matches Some(Update::PairingCode { code, timeout })
                && code@ == attr_of(pc.unwrap(), "code"@).unwrap()
                && timeout == (match attr_u64(pc.unwrap(), "timeout"@) { Some(t) => t as u64, None => 120u64 }))
        }),
{
    if !node.tag_is("iq") {
        return None;
    }
    if !node.attr_is("type", "set") {
        return None;
    }
    let pair_code = match node.get_optional_child("pair-code") {
        Some(p) => p,
        None => return None,
    };
    let code = attr_text_or_empty(pair_code, "code");
    let timeout = attr_u64_or(pair_code, "timeout", 120);
    if code.as_str().is_empty() {
        return None;
    }
    Some(Update::PairingCode { code, timeout })
}

/// The chat for a parsed JID: the JID decides the variant.
pub open spec fn is_chat_for(c: Chat, j: JidView) -> bool {
    chat_jid(c)@ == j && c == chat_for_jid_spec(chat_jid(c))
}

/// The update a `<presence>` node produces: the contact is online unless
/// the type is `unavailable`; `last` carries the last-seen time.  Nothing
/// without a valid `from` JID.
pub fn handle_presence(node: &Stanza) -> (r: Option<Update>)
    ensures
        r is None <==> attr_jid(*node, "from"@) is None,
        r is Some ==> (r matches Some(Update::Presence(p))
            && is_chat_for(p.chat, attr_jid(*node, "from"@).unwrap())
            && p.available == (attr_of(*node, "type"@) != Some("unavailable"@))
            && p.last_seen == (match attr_u64(*node, "last"@) { Some(t) => Some(t as u64), None => None })),
{
    let from = match attr_jid_of(node, "from") {
        Some(j) => j,
        None => return None,
    };
    let available = !node.attr_is("type", "unavailable");
    let last_seen = match node.get_attr("last") {
        Some(v) => parse_u64(v.as_str()),
        None => None,
    };
    Some(Update::Presence(Presence { chat: chat_for_jid(from), available, last_seen }))
}

/// The update a `<chatstate>` node produces: composing or paused by its
/// child; in groups the `participant` is the sender.  Nothing without a
/// valid `from` JID or without either child.
pub fn handle_chatstate(node: &Stanza) -> (r: Option<Update>)
    ensures
        r is Some <==> attr_jid(*node, "from"@) is Some
            && (has_child_tagged(*node, "composing"@) || has_child_tagged(*node, "paused"@)),
        r is Some ==> (r matches Some(Update::ChatPresence(p))
            && is_chat_for(p.chat, attr_jid(*node, "from"@).unwrap())
            && p.state == (if has_child_tagged(*node, "composing"@) { ChatPresenceState::Composing } else { ChatPresenceState::Paused })
            && is_chat_for(p.sender, match attr_jid(*node, "participant"@) {
                Some(pj) => pj,
                None => attr_jid(*node, "from"@).unwrap(),
            })),
{
    let from = match attr_jid_of(node, "from") {
        Some(j) => j,
        None => return None,
    };
    let state = if node.has_child("composing") {
        ChatPresenceState::Composing
    } else if node.has_child("paused") {
        ChatPresenceState::Paused
    } else {
        return None;
    };
    let sender = match attr_jid_of(node, "participant") {
        Some(p) => chat_for_jid(p),
        None => chat_for_jid(from.copy()),
    };
    Some(Update::ChatPresence(ChatPresence { chat: chat_for_jid(from), sender, state }))
}

/// The `id` attributes of the `<item>` nodes among `s`, in order.
pub open spec fn item_ids(s: Seq<Stanza>) -> Seq<Seq<char>>
    decreases s.len(),
{
    if s.len() == 0 {
        Seq::empty()
    } else {
        let rest = item_ids(s.drop_last());
        let last = s.last();
        if last.tag@ == "item"@ && attr_of(last, "id"@) is Some {
            rest.push(attr_of(last, "id"@).unwrap())
        } else {
            rest
        }
    }
}

/// Item IDs are gathered node by node: the IDs of two runs of nodes side by
/// side are those of the first run followed by those of the second.
pub proof fn lemma_item_ids_concat(s: Seq<Stanza>, t: Seq<Stanza>)
    ensures
        item_ids(s + t) == item_ids(s) + item_ids(t),
    decreases t.len(),
{
    if t.len() == 0 {
        assert(s + t =~= s);
        assert(item_ids(s) + item_ids(t) =~= item_ids(s));
    } else {
        lemma_item_ids_concat(s, t.drop_last());
        assert((s + t).drop_last() =~= s + t.drop_last());
        assert((s + t).last() == t.last());
        let n = t.last();
        if n.tag@ == "item"@ && attr_of(n, "id"@) is Some {
            assert(item_ids(s) + item_ids(t) =~= (item_ids(s) + item_ids(t.drop_last())).push(attr_of(n, "id"@).unwrap()));
        } else {
            assert(item_ids(s) + item_ids(t) =~= item_ids(s) + item_ids(t.drop_last()));
        }
    }
}

/// When every node is an `<item>` with an `id`, each of them is confirmed:
/// one ID per item, the i-th being the i-th item's `id`.
pub proof fn lemma_item_ids_all_items(s: Seq<Stanza>)
    requires
        forall|i: int| 0 <= i < s.len() ==> (#[trigger] s[i]).tag@ == "item"@ && attr_of(s[i], "id"@) is Some,
    ensures
        item_ids(s).len() == s.len(),
        forall|i: int| 0 <= i < s.len() ==> Some(#[trigger] item_ids(s)[i]) == attr_of(s[i], "id"@),
    decreases s.len(),
{
    if s.len() > 0 {
        let rest = s.drop_last();
        assert forall|i: int| 0 <= i < rest.len() implies (#[trigger] rest[i]).tag@ == "item"@ && attr_of(rest[i], "id"@) is Some by {
            assert(rest[i] == s[i]);
        }
        lemma_item_ids_all_items(rest);
        assert(s.last() == s[s.len() - 1]);
        assert forall|i: int| 0 <= i < s.len() implies Some(#[trigger] item_ids(s)[i]) == attr_of(s[i], "id"@) by {
            if i < rest.len() {
                assert(item_ids(s)[i] == item_ids(rest)[i]);
                assert(rest[i] == s[i]);
            }
        }
    }
}

/// The message IDs a receipt confirms: the items of its `<list>` child when
/// it has one, else its `id` attribute.
pub open spec fn receipt_ids(n: Stanza) -> Seq<Seq<char>> {
    match child_with_tag(n, "list"@) {
        Some(l) => item_ids(child_nodes(l)),
        None => match attr_of(n, "id"@) {
            Some(id) => seq![id],
            None => Seq::empty(),
        },
    }
}

/// The `id` attributes of the `<item>` nodes among `nodes`.
fn collect_item_ids(nodes: &Vec<Stanza>) -> (r: Vec<String>)
    ensures
        r@.map_values(|t: String| t@) == item_ids(nodes@),
{
    let mut out: Vec<String> = Vec::new();
    let mut i: usize = 0;
    while i < nodes.len()
        invariant
            0 <= i <= nodes@.len(),
            out@.map_values(|t: String| t@) =~= item_ids(nodes@.take(i as int)),
        decreases nodes.len() - i,
    {
        let ghost before = out@;
        assert(nodes@.take(i as int + 1).drop_last() =~= nodes@.take(i as int));
        if nodes[i].tag_is("item") {
            match nodes[i].get_attr("id") {
                Some(id) => {
                    out.push(id.clone());
                    assert(out@.map_values(|t: String| t@) =~= before.map_values(|t: String| t@).push(id@));
                },
                None => {},
            }
        }
        i = i + 1;
    }
    assert(nodes@.take(nodes@.len() as int) =~= nodes@);
    out
}

/// The update a `<receipt>` node produces: read when its type is `read`,
/// delivered otherwise, with its time (`t`, 0 when missing) and the message
/// IDs it confirms.  Nothing without a valid `from` JID.
pub fn handle_receipt(node: &Stanza) -> (r: Option<Update>)
    ensures
        r is None <==> attr_jid(*node, "from"@) is None,
        r is Some ==> (r matches Some(Update::Receipt(rc))
            && is_chat_for(rc.chat, attr_jid(*node, "from"@).unwrap())
            && rc.receipt_type == (if attr_of(*node, "type"@) == Some("read"@) { ReceiptType::Read } else { ReceiptType::Delivered })
            && rc.timestamp == (match attr_u64(*node, "t"@) { Some(t) => t as u64, None => 0u64 })
            && rc.message_ids@.map_values(|t: String| t@) == receipt_ids(*node)),
{
    let from = match attr_jid_of(node, "from") {
        Some(j) => j,
        None => return None,
    };
    let receipt_type = if node.attr_is("type", "read") { ReceiptType::Read } else { ReceiptType::Delivered };
    let timestamp = attr_u64_or(node, "t", 0);
    let message_ids = match node.get_optional_child("list") {
        Some(list) => match list.children() {
            Some(children) => collect_item_ids(children),
            None => {
                assert(item_ids(child_nodes(*list)) =~= Seq::<Seq<char>>::empty());
                Vec::new()
            },
        },
        None => match node.get_attr("id") {
            Some(id) => {
                let mut v: Vec<String> = Vec::new();
                v.push(id.clone());
                assert(v@.map_values(|t: String| t@) =~= seq![id@]);
                v
            },
            None => {
                let v: Vec<String> = Vec::new();
                assert(v@.map_values(|t: String| t@) =~= Seq::<Seq<char>>::empty());
                v
            },
        },
    };
    Some(Update::Receipt(Receipt { chat: chat_for_jid(from), message_ids, receipt_type, timestamp }))
}

/// Whether `r` is the update a `contacts` notification produces: the `<update>` child's
/// JID with its `name` and `push_name` attributes.
pub open spec fn contacts_update_of(node: Stanza, r: Option<Update>) -> bool {
    let u = child_with_tag(node, "update"@);
    &&& r is Some <==> u is Some && attr_jid(u.unwrap(), "jid"@) is Some
    &&& r is Some ==> (r matches Some(Update::ContactUpdate(c))
        && c.jid@ == attr_jid(u.unwrap(), "jid"@).unwrap()
        && (c.name is Some <==> attr_of(u.unwrap(), "name"@) is Some)
        && (c.name is Some ==> Some(c.name.unwrap()@) == attr_of(u.unwrap(), "name"@))
        && (c.push_name is Some <==> attr_of(u.unwrap(), "push_name"@) is Some)
        && (c.push_name is Some ==> Some(c.push_name.unwrap()@) == attr_of(u.unwrap(), "push_name"@)))
}

/// The update a `contacts` notification produces: the `<update>` child's
/// JID with its `name` and `push_name` attributes.
pub fn handle_contacts_notification(node: &Stanza) -> (r: Option<Update>)
    ensures
        contacts_update_of(*node, r),
{
    let update = match node.get_optional_child("update") {
        Some(u) => u,
        None => return None,
    };
    let jid = match attr_jid_of(update, "jid") {
        Some(j) => j,
        None => return None,
    };
    let name = attr_text(update, "name");
    let push_name = attr_text(update, "push_name");
    Some(Update::ContactUpdate(ContactUpdate { jid, name, push_name }))
}

/// The valid `jid` attributes of the `<participant>` nodes among `s`.
pub open spec fn participant_jids(s: Seq<Stanza>) -> Seq<JidView>
    decreases s.len(),
{
    if s.len() == 0 {
        Seq::empty()
    } else {
        let rest = participant_jids(s.drop_last());
        let last = s.last();
        if last.tag@ == "participant"@ && attr_jid(last, "jid"@) is Some {
            rest.push(attr_jid(last, "jid"@).unwrap())
        } else {
            rest
        }
    }
}

/// The participants named under the `<add>` and `<remove>` nodes among `s`.
pub open spec fn group_participants(s: Seq<Stanza>) -> Seq<JidView>
    decreases s.len(),
{
    if s.len() == 0 {
        Seq::empty()
    } else {
        let rest = group_participants(s.drop_last());
        let last = s.last();
        if (last.tag@ == "add"@ || last.tag@ == "remove"@) && has_child_list(last) {
            rest + participant_jids(child_nodes(last))
        } else {
            rest
        }
    }
}

/// Appends the valid participant JIDs among `nodes` to `out`.
fn push_participants(nodes: &Vec<Stanza>, out: &mut Vec<Jid>)
    ensures
        final(out)@.map_values(|j: Jid| j@) == old(out)@.map_values(|j: Jid| j@) + participant_jids(nodes@),
{
    let ghost start = old(out)@.map_values(|j: Jid| j@);
    let mut i: usize = 0;
    while i < nodes.len()
        invariant
            0 <= i <= nodes@.len(),
            out@.map_values(|j: Jid| j@) =~= start + participant_jids(nodes@.take(i as int)),
        decreases nodes.len() - i,
    {
        let ghost before = out@;
        assert(nodes@.take(i as int + 1).drop_last() =~= nodes@.take(i as int));
        if nodes[i].tag_is("participant") {
            match attr_jid_of(&nodes[i], "jid") {
                Some(j) => {
                    let ghost jv = j@;
                    out.push(j);
                    assert(out@.map_values(|j: Jid| j@) =~= before.map_values(|j: Jid| j@).push(jv));
                },
                None => {},
            }
        }
        i = i + 1;
    }
    assert(nodes@.take(nodes@.len() as int) =~= nodes@);
}

/// Whether `r` is the update a `w:gp2` notification produces: the group, its new subject
/// (the `<subject>` child's text) and the participants added or removed.
/// Nothing without a valid `from` JID.
pub open spec fn group_update_of(node: Stanza, r: Option<Update>) -> bool {
    &&& (r is None <==> attr_jid(node, "from"@) is None)
    &&& (r is Some ==> (r matches Some(Update::GroupUpdate(g))
        && g.jid@ == attr_jid(node, "from"@).unwrap()
        && (g.name is Some <==> (child_with_tag(node, "subject"@) is Some
            && content_text(child_with_tag(node, "subject"@).unwrap()) is Some))
        && (g.name is Some ==> Some(g.name.unwrap()@) == content_text(child_with_tag(node, "subject"@).unwrap()))
        && g.participants@.map_values(|j: Jid| j@) == group_participants(child_nodes(node))))
}

/// The update a `w:gp2` notification produces: the group, its new subject
/// (the `<subject>` child's text) and the participants added or removed.
/// Nothing without a valid `from` JID.
pub fn handle_group_notification(node: &Stanza) -> (r: Option<Update>)
    ensures
        group_update_of(*node, r),
{
    let group_jid = match attr_jid_of(node, "from") {
        Some(j) => j,
        None => return None,
    };
    let name = match node.get_optional_child("subject") {
        Some(s) => s.content_as_string(),
        None => None,
    };
    let mut participants: Vec<Jid> = Vec::new();
    match node.children() {
        Some(children) => {
            let mut i: usize = 0;
            while i < children.len()
                invariant
                    0 <= i <= children@.len(),
                    participants@.map_values(|j: Jid| j@) =~= group_participants(children@.take(i as int)),
                decreases children.len() - i,
            {
                assert(children@.take(i as int + 1).drop_last() =~= children@.take(i as int));
                let child = &children[i];
                if child.tag_is("add") || child.tag_is("remove") {
                    match child.children() {
                        Some(grand) => push_participants(grand, &mut participants),
                        None => {},
                    }
                }
                i = i + 1;
            }
            assert(children@.take(children@.len() as int) =~= children@);
        },
        None => {
            assert(participants@.map_values(|j: Jid| j@) =~= Seq::<JidView>::empty());
        },
    }
    Some(Update::GroupUpdate(GroupUpdate { jid: group_jid, name, participants }))
}

/// The picture ID of a `picture` notification: the `id` of its `<set>`
/// child, or of its `<picture>` child when there is no `<set>`.
pub open spec fn picture_id_spec(n: Stanza) -> Option<Seq<char>> {
    match child_with_tag(n, "set"@) {
        Some(c) => attr_of(c, "id"@),
        None => match child_with_tag(n, "picture"@) {
            Some(c) => attr_of(c, "id"@),
            None => None,
        },
    }
}

/// Whether `r` is the update a `picture` notification produces: removed when it has a
/// `<remove>` child, else set with its picture ID; `t` is the time (0 when
/// missing).  Nothing without a valid `from` JID.
pub open spec fn picture_update_of(node: Stanza, r: Option<Update>) -> bool {
    &&& (r is None <==> attr_jid(node, "from"@) is None)
    &&& (r is Some ==> (r matches Some(Update::PictureUpdate(p))
        && p.jid@ == attr_jid(node, "from"@).unwrap()
        && p.author is None
        && p.timestamp == (match attr_u64(node, "t"@) { Some(t) => t as u64, None => 0u64 })
        && p.removed == has_child_tagged(node, "remove"@)
        && (p.removed ==> p.picture_id is None)
        && (!p.removed ==> (p.picture_id is Some <==> picture_id_spec(node) is Some))
        && (!p.removed && p.picture_id is Some ==> Some(p.picture_id.unwrap()@) == picture_id_spec(node))))
}

/// The update a `picture` notification produces: removed when it has a
/// `<remove>` child, else set with its picture ID; `t` is the time (0 when
/// missing).  Nothing without a valid `from` JID.
pub fn handle_picture_notification(node: &Stanza) -> (r: Option<Update>)
    ensures
        picture_update_of(*node, r),
{
    let from = match attr_jid_of(node, "from") {
        Some(j) => j,
        None => return None,
    };
    let timestamp = attr_u64_or(node, "t", 0);
    if node.has_child("remove") {
        return Some(Update::PictureUpdate(PictureUpdate { jid: from, author: None, timestamp, removed: true, picture_id: None }));
    }
    let picture_id = match node.get_optional_child("set") {
        Some(c) => attr_text(c, "id"),
        None => match node.get_optional_child("picture") {
            Some(c) => attr_text(c, "id"),
            None => None,
        },
    };
    Some(Update::PictureUpdate(PictureUpdate { jid: from, author: None, timestamp, removed: false, picture_id }))
}

/// Whether `r` is the update a push-name notification produces: the `<push>` child's text
/// as the new push name (empty when missing); the old name is not known.
pub open spec fn push_name_update_of(node: Stanza, r: Option<Update>) -> bool {
    &&& (r is None <==> attr_jid(node, "from"@) is None)
    &&& (r is Some ==> (r matches Some(Update::PushNameUpdate(p))
        && p.jid@ == attr_jid(node, "from"@).unwrap()
        && p.old_push_name@ == Seq::<char>::empty()
        && p.new_push_name@ == (match child_with_tag(node, "push"@) {
            Some(c) => match content_text(c) { Some(t) => t, None => Seq::empty() },
            None => Seq::empty(),
        })))
}

/// The update a push-name notification produces: the `<push>` child's text
/// as the new push name (empty when missing); the old name is not known.
pub fn handle_push_name_notification(node: &Stanza) -> (r: Option<Update>)
    ensures
        push_name_update_of(*node, r),
{
    let from = match attr_jid_of(node, "from") {
        Some(j) => j,
        None => return None,
    };
    let push_name = match node.get_optional_child("push") {
        Some(c) => match c.content_as_string() {
            Some(t) => t,
            None => String::new(),
        },
        None => String::new(),
    };
    Some(Update::PushNameUpdate(PushNameUpdate { jid: from, old_push_name: String::new(), new_push_name: push_name }))
}

/// Whether `r` is the update a `disappearing_mode` notification produces: the new
/// `duration` and the setting time `t` (each 0 when missing).
pub open spec fn disappearing_update_of(node: Stanza, r: Option<Update>) -> bool {
    &&& (r is None <==> attr_jid(node, "from"@) is None)
    &&& (r is Some ==> (r matches Some(Update::DisappearingModeChanged(d))
        && d.from@ == attr_jid(node, "from"@).unwrap()
        && d.duration == (match attr_u32(node, "duration"@) { Some(t) => t as u32, None => 0u32 })
        && d.setting_timestamp == (match attr_u64(node, "t"@) { Some(t) => t as u64, None => 0u64 })))
}

/// The update a `disappearing_mode` notification produces: the new
/// `duration` and the setting time `t` (each 0 when missing).
pub fn handle_disappearing_mode_notification(node: &Stanza) -> (r: Option<Update>)
    ensures
        disappearing_update_of(*node, r),
{
    let from = match attr_jid_of(node, "from") {
        Some(j) => j,
        None => return None,
    };
    let duration = attr_u32_or(node, "duration", 0);
    let setting_timestamp = attr_u64_or(node, "t", 0);
    Some(Update::DisappearingModeChanged(DisappearingModeChanged { from, duration, setting_timestamp }))
}

/// Which handler a notification goes to, by its `type` attribute.
#[derive(Clone, Copy, Debug, PartialEq, Eq, Structural)]
pub enum NotificationKind {
    Contacts,
    Group,
    Picture,
    PushName,
    DisappearingMode,
    Other,
}

/// The handler for a notification `type`.
pub open spec fn notification_kind_spec(t: Option<Seq<char>>) -> NotificationKind {
    match t {
        Some(t) => if t == "contacts"@ {
            NotificationKind::Contacts
        } else if t == "w:gp2"@ {
            NotificationKind::Group
        } else if t == "picture"@ {
            NotificationKind::Picture
        } else if t == "w:push"@ || t == "push_name"@ {
            NotificationKind::PushName
        } else if t == "disappearing_mode"@ {
            NotificationKind::DisappearingMode
        } else {
            NotificationKind::Other
        },
        None => NotificationKind::Other,
    }
}

/// Whether `r` is the update a notification produces: that of the handler
/// its type selects, nothing for other types.
pub open spec fn notification_update_of(node: Stanza, r: Option<Update>) -> bool {
    match notification_kind_spec(attr_of(node, "type"@)) {
        NotificationKind::Contacts => contacts_update_of(node, r),
        NotificationKind::Group => group_update_of(node, r),
        NotificationKind::Picture => picture_update_of(node, r),
        NotificationKind::PushName => push_name_update_of(node, r),
        NotificationKind::DisappearingMode => disappearing_update_of(node, r),
        NotificationKind::Other => r is None,
    }
}

/// Each notification type the server sends goes to its own handler:
/// `contacts` to contacts, `w:gp2` to groups, `picture` to pictures,
/// `w:push` and `push_name` to push names, `disappearing_mode` to
/// disappearing-mode settings; a missing type to none.
pub proof fn lemma_notification_types()
    ensures
        notification_kind_spec(Some("contacts"@)) == NotificationKind::Contacts,
        notification_kind_spec(Some("w:gp2"@)) == NotificationKind::Group,
        notification_kind_spec(Some("picture"@)) == NotificationKind::Picture,
        notification_kind_spec(Some("w:push"@)) == NotificationKind::PushName,
        notification_kind_spec(Some("push_name"@)) == NotificationKind::PushName,
        notification_kind_spec(Some("disappearing_mode"@)) == NotificationKind::DisappearingMode,
        notification_kind_spec(None) == NotificationKind::Other,
{
    reveal_strlit("contacts");
    reveal_strlit("w:gp2");
    reveal_strlit("picture");
    reveal_strlit("w:push");
    reveal_strlit("push_name");
    reveal_strlit("disappearing_mode");
    assert("w:gp2"@ != "contacts"@) by { assert("w:gp2"@.len() != "contacts"@.len()); }
    assert("picture"@ != "contacts"@) by { assert("picture"@[0] != "contacts"@[0]); }
    assert("picture"@ != "w:gp2"@) by { assert("picture"@.len() != "w:gp2"@.len()); }
    assert("w:push"@ != "contacts"@) by { assert("w:push"@.len() != "contacts"@.len()); }
    assert("w:push"@ != "w:gp2"@) by { assert("w:push"@.len() != "w:gp2"@.len()); }
    assert("w:push"@ != "picture"@) by { assert("w:push"@.len() != "picture"@.len()); }
    assert("push_name"@ != "contacts"@) by { assert("push_name"@.len() != "contacts"@.len()); }
    assert("push_name"@ != "w:gp2"@) by { assert("push_name"@.len() != "w:gp2"@.len()); }
    assert("push_name"@ != "picture"@) by { assert("push_name"@.len() != "picture"@.len()); }
    assert("disappearing_mode"@ != "contacts"@) by { assert("disappearing_mode"@.len() != "contacts"@.len()); }
    assert("disappearing_mode"@ != "w:gp2"@) by { assert("disappearing_mode"@.len() != "w:gp2"@.len()); }
    assert("disappearing_mode"@ != "picture"@) by { assert("disappearing_mode"@.len() != "picture"@.len()); }
    assert("disappearing_mode"@ != "w:push"@) by { assert("disappearing_mode"@.len() != "w:push"@.len()); }
    assert("disappearing_mode"@ != "push_name"@) by { assert("disappearing_mode"@.len() != "push_name"@.len()); }
}

/// A `w:gp2` notification is a group change: with a valid `from` JID it
/// yields a group update for that group, and nothing without one.
pub proof fn lemma_gp2_notification_is_group_update(node: Stanza, r: Option<Update>)
    requires
        attr_of(node, "type"@) == Some("w:gp2"@),
        notification_update_of(node, r),
    ensures
        attr_jid(node, "from"@) is Some ==> (r matches Some(Update::GroupUpdate(g)) && g.jid@ == attr_jid(node, "from"@).unwrap()),
        attr_jid(node, "from"@) is None ==> r is None,
{
    lemma_notification_types();
}

/// Classifies a notification by its `type` attribute.
pub fn notification_kind(node: &Stanza) -> (r: NotificationKind)
    ensures
        r == notification_kind_spec(attr_of(*node, "type"@)),
{
    if node.attr_is("type", "contacts") {
        NotificationKind::Contacts
    } else if node.attr_is("type", "w:gp2") {
        NotificationKind::Group
    } else if node.attr_is("type", "picture") {
        NotificationKind::Picture
    } else if node.attr_is("type", "w:push") || node.attr_is("type", "push_name") {
        NotificationKind::PushName
    } else if node.attr_is("type", "disappearing_mode") {
        NotificationKind::DisappearingMode
    } else {
        NotificationKind::Other
    }
}

/// The update a `<notification>` node produces, by its type: contact,
/// group, picture, push-name and disappearing-mode changes; nothing for
/// other types.  (A pair-code companion registration is handled before this.)
pub fn handle_notification(node: &Stanza) -> (r: Option<Update>)
    ensures
        notification_update_of(*node, r),
{
    match notification_kind(node) {
        NotificationKind::Contacts => handle_contacts_notification(node),
        NotificationKind::Group => handle_group_notification(node),
        NotificationKind::Picture => handle_picture_notification(node),
        NotificationKind::PushName => handle_push_name_notification(node),
        NotificationKind::DisappearingMode => handle_disappearing_mode_notification(node),
        NotificationKind::Other => None,
    }
}

/// Work an `<ib>` node asks of the client besides its update.
#[derive(Debug)]
pub enum IbAction {
    /// Acknowledge a `<dirty>` notice with a clean-dirty-bits IQ; when the
    /// type is `syncd_app_state`, also re-request every app state collection.
    CleanDirty { dirty_type: String, timestamp: Option<u64>, resync_app_state: bool },
    /// Store edge routing info for the next handshake.
    StoreRoutingInfo(Vec<u8>),
}

/// The mathematical value of an `IbAction`.
pub enum IbActionView {
    CleanDirty { dirty_type: Seq<char>, timestamp: Option<u64>, resync_app_state: bool },
    StoreRoutingInfo(Seq<u8>),
}

pub open spec fn ib_action_view(a: IbAction) -> IbActionView {
    match a {
        IbAction::CleanDirty { dirty_type, timestamp, resync_app_state } =>
            IbActionView::CleanDirty { dirty_type: dirty_type@, timestamp, resync_app_state },
        IbAction::StoreRoutingInfo(b) => IbActionView::StoreRoutingInfo(b@),
    }
}

/// What an `<ib>` node asks for: the work its children request, in order,
/// and the update it produces.
#[derive(Debug)]
pub struct IbOutcome {
    pub actions: Vec<IbAction>,
    pub update: Option<Update>,
}

/// Whether a child ends the processing of an `<ib>` node with an update.
pub open spec fn ib_stops_at(c: Stanza) -> bool {
    c.tag@ == "offline_sync_preview"@ || c.tag@ == "offline"@
}

/// The work one child of an `<ib>` asks for: a `<dirty>` with a `type` and
/// a valid (or no) `timestamp` asks for a clean; an `<edge_routing>` whose
/// `<routing_info>` carries nonempty bytes asks for them to be stored.
pub open spec fn ib_child_action(c: Stanza) -> Option<IbActionView> {
    if c.tag@ == "dirty"@ {
        match attr_of(c, "type"@) {
            Some(t) => match attr_of(c, "timestamp"@) {
                Some(ts) => match parse_unsigned_spec(ts, u64::MAX as nat) {
                    Some(v) => Some(IbActionView::CleanDirty { dirty_type: t, timestamp: Some(v as u64), resync_app_state: t == "syncd_app_state"@ }),
                    None => None,
                },
                None => Some(IbActionView::CleanDirty { dirty_type: t, timestamp: None, resync_app_state: t == "syncd_app_state"@ }),
            },
            None => None,
        }
    } else if c.tag@ == "edge_routing"@ {
        match child_with_tag(c, "routing_info"@) {
            Some(ri) => match ri.content {
                Some(StanzaContent::Bytes(b)) => if b@.len() > 0 { Some(IbActionView::StoreRoutingInfo(b@)) } else { None },
                _ => None,
            },
            None => None,
        }
    } else {
        None
    }
}

/// The work the children `s` ask for, up to the first that stops processing.
pub open spec fn ib_actions_spec(s: Seq<Stanza>) -> Seq<IbActionView>
    decreases s.len(),
{
    if s.len() == 0 {
        Seq::empty()
    } else if ib_stops_at(s[0]) {
        Seq::empty()
    } else {
        let rest = ib_actions_spec(s.drop_first());
        match ib_child_action(s[0]) {
            Some(a) => seq![a] + rest,
            None => rest,
        }
    }
}

/// The first child that stops processing.
pub open spec fn ib_stop(s: Seq<Stanza>) -> Option<Stanza>
    decreases s.len(),
{
    if s.len() == 0 {
        None
    } else if ib_stops_at(s[0]) {
        Some(s[0])
    } else {
        ib_stop(s.drop_first())
    }
}

proof fn lemma_ib_prefix(s: Seq<Stanza>, i: int)
    requires
        0 <= i <= s.len(),
        forall|j: int| 0 <= j < i ==> !ib_stops_at(#[trigger] s[j]),
    ensures
        ib_actions_spec(s) == ib_actions_spec(s.take(i)) + ib_actions_spec(s.skip(i)),
        ib_stop(s) == ib_stop(s.skip(i)),
    decreases i,
{
    if i > 0 {
        assert(!ib_stops_at(s[0]));
        lemma_ib_prefix(s.drop_first(), i - 1);
        assert(s.drop_first().take(i - 1) =~= s.take(i).drop_first());
        assert(s.drop_first().skip(i - 1) =~= s.skip(i));
        assert(s.take(i)[0] == s[0]);
        assert(!ib_stops_at(s.take(i)[0]));
    } else {
        assert(s.skip(0) =~= s);
        assert(s.take(0) =~= Seq::<Stanza>::empty());
    }
}

proof fn lemma_ib_push(s: Seq<Stanza>, i: int)
    requires
        0 <= i < s.len(),
        forall|j: int| 0 <= j <= i ==> !ib_stops_at(#[trigger] s[j]),
    ensures
        ib_actions_spec(s.take(i + 1)) == ib_actions_spec(s.take(i)) + match ib_child_action(s[i]) {
            Some(a) => seq![a],
            None => Seq::<IbActionView>::empty(),
        },
{
    let t = s.take(i + 1);
    assert forall|j: int| 0 <= j < i implies !ib_stops_at(#[trigger] t[j]) by {
        assert(t[j] == s[j]);
    }
    lemma_ib_prefix(t, i);
    assert(t.take(i) =~= s.take(i));
    let u = t.skip(i);
    assert(u =~= seq![s[i]]);
    assert(u.drop_first() =~= Seq::<Stanza>::empty());
    assert(!ib_stops_at(u[0]));
    assert(ib_actions_spec(u.drop_first()) =~= Seq::<IbActionView>::empty());
}

/// The work one child of an `<ib>` asks for.
fn ib_child(c: &Stanza) -> (r: Option<IbAction>)
    ensures
        r is None <==> ib_child_action(*c) is None,
        r matches Some(a) ==> ib_child_action(*c) == Some(ib_action_view(a)),
{
    if c.tag_is("dirty") {
        let t = match attr_text(c, "type") {
            Some(t) => t,
            None => return None,
        };
        let resync = crate::text::str_eq(t.as_str(), "syncd_app_state");
        match c.get_attr("timestamp") {
            Some(ts) => match parse_u64(ts.as_str()) {
                Some(v) => Some(IbAction::CleanDirty { dirty_type: t, timestamp: Some(v), resync_app_state: resync }),
                None => None,
            },
            None => Some(IbAction::CleanDirty { dirty_type: t, timestamp: None, resync_app_state: resync }),
        }
    } else if c.tag_is("edge_routing") {
        match c.get_optional_child("routing_info") {
            Some(ri) => match &ri.content {
                Some(StanzaContent::Bytes(b)) => if b.len() > 0 { Some(IbAction::StoreRoutingInfo(b.clone())) } else { None },
                _ => None,
            },
            None => None,
        }
    } else {
        None
    }
}

/// The update an `<ib>` node produces and the work it asks for.
///
/// Children are taken in order: `<dirty>` and `<edge_routing>` children ask
/// for work; the first `<offline_sync_preview>` or `<offline>` child ends
/// the processing with an offline-sync preview or completion update
/// carrying its `count` (0 when missing); other children are ignored.
pub fn handle_ib(node: &Stanza) -> (r: IbOutcome)
    ensures
        r.actions@.map_values(|a: IbAction| ib_action_view(a)) == ib_actions_spec(child_nodes(*node)),
        match ib_stop(child_nodes(*node)) {
            Some(c) => if c.tag@ == "offline_sync_preview"@ {
                r.update == Some(Update::OfflineSyncPreview { count: match attr_u32(c, "count"@) { Some(v) => v as u32, None => 0u32 } })
            } else {
                r.update == Some(Update::OfflineSyncCompleted { count: match attr_u32(c, "count"@) { Some(v) => v as u32, None => 0u32 } })
            },
            None => r.update is None,
        },
{
    let mut actions: Vec<IbAction> = Vec::new();
    let children = match node.children() {
        Some(c) => c,
        None => {
            assert(actions@.map_values(|a: IbAction| ib_action_view(a)) =~= Seq::<IbActionView>::empty());
            return IbOutcome { actions, update: None };
        },
    };
    let ghost s = children@;
    let mut i: usize = 0;
    while i < children.len()
        invariant
            0 <= i <= s.len(),
            s == children@,
            s == child_nodes(*node),
            forall|j: int| 0 <= j < i ==> !ib_stops_at(#[trigger] s[j]),
            actions@.map_values(|a: IbAction| ib_action_view(a)) =~= ib_actions_spec(s.take(i as int)),
        decreases children.len() - i,
    {
        let c = &children[i];
        if c.tag_is("offline_sync_preview") || c.tag_is("offline") {
            proof {
                lemma_ib_prefix(s, i as int);
                assert(s.skip(i as int)[0] == s[i as int]);
                assert(ib_actions_spec(s.skip(i as int)) =~= Seq::<IbActionView>::empty());
                assert(ib_stop(s.skip(i as int)) == Some(s[i as int]));
            }
            let count = attr_u32_or(c, "count", 0);
            let update = if c.tag_is("offline_sync_preview") {
                Update::OfflineSyncPreview { count }
            } else {
                Update::OfflineSyncCompleted { count }
            };
            return IbOutcome { actions, update: Some(update) };
        }
        let ghost before = actions@;
        proof {
            lemma_ib_push(s, i as int);
        }
        match ib_child(c) {
            Some(a) => {
                let ghost av = ib_action_view(a);
                actions.push(a);
                assert(actions@.map_values(|a: IbAction| ib_action_view(a)) =~= before.map_values(|a: IbAction| ib_action_view(a)) + seq![av]);
            },
            None => {},
        }
        i = i + 1;
    }
    proof {
        lemma_ib_prefix(s, s.len() as int);
        assert(s.take(s.len() as int) =~= s);
        assert(s.skip(s.len() as int) =~= Seq::<Stanza>::empty());
    }
    IbOutcome { actions, update: None }
}

} // verus!
