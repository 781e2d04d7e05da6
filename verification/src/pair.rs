//! QR and pair-code pairing: node recognition, the QR rotation schedule,
//! the `<pair-success>` payload, and the login state derived from a device.

use vstd::prelude::*;
use vstd::utf8::{decode_utf8, valid_utf8};
use vstd::string::*;
use vstd::std_specs::iter::IteratorSpec;

use crate::connection::{InfoQuery, InfoQueryType};
use crate::error::{AuthError, ClientError};
use crate::handlers::{attr_jid, server_jid, server_jid_view};
use crate::jid::{Jid, JidView, parse_jid};
use crate::stanza::{Stanza, StanzaContent, attr_of, child_nodes, child_with_tag, has_child_list, has_child_tagged};
use crate::peer::{Chat, User, chat_for_jid, chat_for_jid_spec};
use crate::text::{digit_str, hex_digit, hex_string_padded, hex_text, is_digit, zero_padded};

verus! {

broadcast use vstd::string::group_string_axioms;

/// Events emitted during the QR pairing flow.
#[derive(Debug)]
pub enum PairEvent {
    /// A QR code to display, with its timeout in seconds.
    QrCode { code: String, timeout: u64 },
    /// Pairing completed successfully.
    Success,
    /// Pairing failed with an error.
    Error(ClientError),
}

/// Whether a node is a server `set` IQ with a child tagged `child`.
pub open spec fn is_set_iq_with(n: Stanza, child: Seq<char>) -> bool {
    &&& n.tag@ == "iq"@
    &&& attr_of(n, "type"@) == Some("set"@)
    &&& has_child_tagged(n, child)
}

/// Check if the node is a `<pair-device>` IQ from the server (type="set").
pub fn is_pair_device_node(node: &Stanza) -> (r: bool)
    ensures
        r == is_set_iq_with(*node, "pair-device"@),
{
    node.tag_is("iq") && node.attr_is("type", "set") && node.has_child("pair-device")
}

/// Check if the node is a `<pair-success>` IQ from the server.
///
/// The server sends pair-success as a `type="set"` IQ (server-initiated),
/// not `type="get"`.
pub fn is_pair_success_node(node: &Stanza) -> (r: bool)
    ensures
        r == is_set_iq_with(*node, "pair-success"@),
{
    node.tag_is("iq") && node.attr_is("type", "set") && node.has_child("pair-success")
}

/// What `std::str::from_utf8` makes of `bytes`: their text, or `None` when
/// they are not valid UTF-8.
pub open spec fn utf8_decoded(bytes: Seq<u8>) -> Option<Seq<char>> {
    if valid_utf8(bytes) {
        Some(decode_utf8(bytes))
    } else {
        None
    }
}

/// Decodes bytes as strict UTF-8 with `std::str::from_utf8`.
///
/// Trusted: std documents that `from_utf8` accepts exactly the valid UTF-8
/// byte sequences (vstd's `valid_utf8`) and returns the text they encode.
#[verifier::external_body]
pub fn utf8_text(bytes: &[u8]) -> (r: Option<String>)
    ensures
        r is None <==> utf8_decoded(bytes@) is None,
        r matches Some(t) ==> utf8_decoded(bytes@) == Some(t@),
{
    match std::str::from_utf8(bytes) {
        Ok(s) => Some(s.to_string()),
        Err(_) => None,
    }
}

/// The refs among `children`: each `<ref>` whose content is bytes of valid
/// UTF-8 gives its text, in order.
pub open spec fn pair_refs(children: Seq<Stanza>) -> Seq<Seq<char>>
    decreases children.len(),
{
    if children.len() == 0 {
        Seq::empty()
    } else {
        let rest = pair_refs(children.drop_first());
        let c = children[0];
        if c.tag@ == "ref"@ {
            match c.content {
                Some(StanzaContent::Bytes(b)) => match utf8_decoded(b@) {
                    Some(t) => seq![t] + rest,
                    None => rest,
                },
                _ => rest,
            }
        } else {
            rest
        }
    }
}

/// The pairing refs of a `<pair-device>` IQ: those of its first
/// `<pair-device>` child, when there is at least one.
pub open spec fn pair_device_refs(n: Stanza) -> Option<Seq<Seq<char>>> {
    if !has_child_list(n) {
        None
    } else {
        match child_with_tag(n, "pair-device"@) {
            Some(pd) => if pair_refs(child_nodes(pd)).len() > 0 { Some(pair_refs(child_nodes(pd))) } else { None },
            None => None,
        }
    }
}

proof fn lemma_pair_refs_step(s: Seq<Stanza>, i: int)
    requires
        0 <= i < s.len(),
    ensures
        pair_refs(s.take(i + 1)) == pair_refs(s.take(i)) + pair_refs(seq![s[i]]),
    decreases i,
{
    let t = s.take(i + 1);
    if i == 0 {
        assert(t =~= seq![s[0]]);
        assert(s.take(0) =~= Seq::<Stanza>::empty());
        assert(pair_refs(Seq::<Stanza>::empty()) =~= Seq::<Seq<char>>::empty());
    } else {
        lemma_pair_refs_step(s.drop_first(), i - 1);
        assert(s.drop_first().take(i) =~= t.drop_first());
        assert(s.drop_first().take(i - 1) =~= s.take(i).drop_first());
        assert(s.drop_first()[i - 1] == s[i]);
        assert(t[0] == s[0] && s.take(i)[0] == s[0]);
        assert(pair_refs(t) =~= pair_refs(s.take(i)) + pair_refs(seq![s[i]]));
    }
}

/// Extract pairing refs from a server-initiated `<pair-device>` IQ.
pub fn extract_pair_device_refs(node: &Stanza) -> (r: Option<Vec<String>>)
    ensures
        match pair_device_refs(*node) {
            Some(refs) => r is Some && r.unwrap()@.map_values(|s: String| s@) == refs,
            None => r is None,
        },
{
    if node.children().is_none() {
        return None;
    }
    let pd = match node.get_optional_child("pair-device") {
        Some(p) => p,
        None => return None,
    };
    let mut refs: Vec<String> = Vec::new();
    match pd.children() {
        Some(chs) => {
            let mut i: usize = 0;
            while i < chs.len()
                invariant
                    0 <= i <= chs@.len(),
                    chs@ == child_nodes(*pd),
                    refs@.map_values(|s: String| s@) == pair_refs(chs@.take(i as int)),
                decreases chs.len() - i,
            {
                let c = &chs[i];
                proof {
                    lemma_pair_refs_step(chs@, i as int);
                    assert(seq![chs@[i as int]].drop_first() =~= Seq::<Stanza>::empty());
                }
                let ghost before = refs@;
                let ghost one = seq![chs@[i as int]];
                assert(pair_refs(one.drop_first()) =~= Seq::<Seq<char>>::empty());
                if c.tag_is("ref") {
                    match &c.content {
                        Some(StanzaContent::Bytes(b)) => match utf8_text(b.as_slice()) {
                            Some(t) => {
                                assert(pair_refs(one) =~= seq![t@]);
                                refs.push(t);
                                assert(refs@.map_values(|s: String| s@) =~= before.map_values(|s: String| s@) + pair_refs(one));
                            },
                            None => {
                                assert(pair_refs(one) =~= Seq::<Seq<char>>::empty());
                                assert(before.map_values(|s: String| s@) + pair_refs(one) =~= before.map_values(|s: String| s@));
                            },
                        },
                        _ => {
                            assert(pair_refs(one) =~= Seq::<Seq<char>>::empty());
                            assert(before.map_values(|s: String| s@) + pair_refs(one) =~= before.map_values(|s: String| s@));
                        },
                    }
                } else {
                    assert(pair_refs(one) =~= Seq::<Seq<char>>::empty());
                    assert(before.map_values(|s: String| s@) + pair_refs(one) =~= before.map_values(|s: String| s@));
                }
                i = i + 1;
                assert(refs@.map_values(|s: String| s@) =~= pair_refs(chs@.take(i as int)));
            }
            assert(chs@.take(chs@.len() as int) =~= chs@);
        },
        None => {
            assert(refs@.map_values(|s: String| s@) =~= pair_refs(child_nodes(*pd)));
        },
    }
    if refs.len() == 0 {
        None
    } else {
        Some(refs)
    }
}

/// How long the QR code at `index` is shown: 60 seconds for the first, 20
/// for each after it.
pub open spec fn qr_timeout_spec(index: nat) -> u64 {
    if index == 0 { 60 } else { 20 }
}

/// How long the QR code at `index` is shown, in seconds.
pub fn qr_timeout_secs(index: usize) -> (r: u64)
    ensures
        r == qr_timeout_spec(index as nat),
{
    if index == 0 { 60 } else { 20 }
}

/// What happened since the QR flow last acted.
#[derive(Debug)]
pub enum QrEvent {
    /// The flow starts, or the code shown last has timed out.
    Next,
    /// The stored device turned out paired (or not) before a code is shown.
    PairedCheck { paired: bool },
    /// A code was handed to the listener, or the listener is gone.
    Shown { delivered: bool },
    /// The server's `<pair-success>` was handled, with the error it raised.
    PairSuccessHandled { error: Option<ClientError> },
    /// The connection dropped or the event stream ended.
    ConnectionLost,
    /// Some other event arrived while a code is shown.
    Other,
}

/// What the QR flow does next.
#[derive(Debug)]
pub enum QrAction {
    /// Check whether the stored device is already paired.
    CheckPaired,
    /// Show the code at `index` for `timeout` seconds.
    Show { index: usize, timeout: u64 },
    /// Wait for the shown code's timeout or a server event.
    Wait,
    /// End the flow, announcing the event if there is one.
    Finish(Option<PairEvent>),
}

/// The QR rotation: the refs the server offered are shown one after the
/// other until pairing succeeds, fails, or every code has expired.
pub struct QrRotation {
    /// The position of the code being shown, or the next to show.
    pub index: usize,
    /// How many codes there are.
    pub codes: usize,
    /// Whether the flow has ended.
    pub done: bool,
}

impl QrRotation {
    /// A rotation over `codes` codes, starting at the first.
    pub fn new(codes: usize) -> (r: Self)
        ensures
            r.index == 0 && r.codes == codes && !r.done,
    {
        QrRotation { index: 0, codes, done: false }
    }

    /// The next step of the flow.
    ///
    /// `Next` moves to the next code (past the first start) and checks the
    /// pairing state, or, with no code left, ends with `QrExpired`.  A
    /// paired device ends with success; otherwise the code is shown with its
    /// timeout.  A code nobody listens for ends the flow quietly.  A handled
    /// `<pair-success>` ends with success or its error; a lost connection
    /// ends with `NotConnected`; anything else keeps waiting.
    pub fn step(&mut self, event: QrEvent, first: bool) -> (r: QrAction)
        requires
            !old(self).done,
            old(self).index <= old(self).codes,
        ensures
            final(self).codes == old(self).codes,
            final(self).index <= final(self).codes,
            final(self).done <==> r is Finish,
            match event {
                QrEvent::Next => {
                    let i = if first { old(self).index as int } else { old(self).index + 1 };
                    if i >= old(self).codes {
                        r matches QrAction::Finish(Some(PairEvent::Error(ClientError::Auth(AuthError::QrExpired))))
                    } else {
                        r is CheckPaired && final(self).index == i
                    }
                },
                QrEvent::PairedCheck { paired } => if paired {
                    r matches QrAction::Finish(Some(PairEvent::Success))
                } else if old(self).index < old(self).codes {
                    r == QrAction::Show { index: old(self).index, timeout: qr_timeout_spec(old(self).index as nat) }
                        && final(self).index == old(self).index
                } else {
                    r matches QrAction::Finish(Some(PairEvent::Error(ClientError::Auth(AuthError::QrExpired))))
                },
                QrEvent::Shown { delivered } => if delivered {
                    r is Wait && final(self).index == old(self).index
                } else {
                    r matches QrAction::Finish(None)
                },
                QrEvent::PairSuccessHandled { error } => match error {
                    None => r matches QrAction::Finish(Some(PairEvent::Success)),
                    Some(e) => r matches QrAction::Finish(Some(PairEvent::Error(x))) && x == e,
                },
                QrEvent::ConnectionLost => r matches QrAction::Finish(Some(PairEvent::Error(ClientError::NotConnected))),
                QrEvent::Other => r is Wait && final(self).index == old(self).index,
            },
    {
        match event {
            QrEvent::Next => {
                let i: usize = if first || self.index >= self.codes { self.index } else { self.index + 1 };
                if i >= self.codes {
                    self.done = true;
                    QrAction::Finish(Some(PairEvent::Error(ClientError::Auth(AuthError::QrExpired))))
                } else {
                    self.index = i;
                    QrAction::CheckPaired
                }
            },
            QrEvent::PairedCheck { paired } => {
                if paired {
                    self.done = true;
                    QrAction::Finish(Some(PairEvent::Success))
                } else if self.index < self.codes {
                    QrAction::Show { index: self.index, timeout: qr_timeout_secs(self.index) }
                } else {
                    self.done = true;
                    QrAction::Finish(Some(PairEvent::Error(ClientError::Auth(AuthError::QrExpired))))
                }
            },
            QrEvent::Shown { delivered } => {
                if delivered {
                    QrAction::Wait
                } else {
                    self.done = true;
                    QrAction::Finish(None)
                }
            },
            QrEvent::PairSuccessHandled { error } => {
                self.done = true;
                match error {
                    None => QrAction::Finish(Some(PairEvent::Success)),
                    Some(e) => QrAction::Finish(Some(PairEvent::Error(e))),
                }
            },
            QrEvent::ConnectionLost => {
                self.done = true;
                QrAction::Finish(Some(PairEvent::Error(ClientError::NotConnected)))
            },
            QrEvent::Other => QrAction::Wait,
        }
    }
}

/// What a `<pair-success>` IQ carries.
#[derive(Debug)]
pub struct PairSuccessInfo {
    /// The IQ's `id`, which the signed response answers.
    pub req_id: String,
    /// The `<device-identity>` bytes.
    pub device_identity: Vec<u8>,
    /// The `name` of `<biz>`, or empty.
    pub business_name: String,
    /// The `name` of `<platform>`, or empty.
    pub platform: String,
    /// The `jid` of `<device>`, or the empty JID when missing or invalid.
    pub jid: Jid,
    /// The `lid` of `<device>`, or the empty JID when missing or invalid.
    pub lid: Jid,
}

/// The bytes content of a node.
pub open spec fn bytes_content(n: Stanza) -> Option<Seq<u8>> {
    match n.content {
        Some(StanzaContent::Bytes(b)) => Some(b@),
        _ => None,
    }
}

/// An attribute of the first `tag` child of `n`, or empty.
pub open spec fn child_attr_or_empty(n: Stanza, tag: Seq<char>, key: Seq<char>) -> Seq<char> {
    match child_with_tag(n, tag) {
        Some(c) => match attr_of(c, key) {
            Some(v) => v,
            None => Seq::empty(),
        },
        None => Seq::empty(),
    }
}

/// A JID attribute of the `<device>` child of `n`, or the empty JID.
pub open spec fn device_jid_or_empty(n: Stanza, key: Seq<char>) -> JidView {
    match child_with_tag(n, "device"@) {
        Some(d) => match attr_jid(d, key) {
            Some(j) => j,
            None => server_jid_view(),
        },
        None => server_jid_view(),
    }
}

/// An attribute of the first `tag` child of `n`, or empty.
fn child_attr_text(n: &Stanza, tag: &str, key: &str) -> (r: String)
    ensures
        r@ == child_attr_or_empty(*n, tag@, key@),
{
    match n.get_optional_child(tag) {
        Some(c) => match c.get_attr(key) {
            Some(v) => v.clone(),
            None => String::new(),
        },
        None => String::new(),
    }
}

/// A JID attribute of the `<device>` child of `n`, or the empty JID.
fn device_jid(n: &Stanza, key: &str) -> (r: Jid)
    ensures
        r@ == device_jid_or_empty(*n, key@),
{
    match n.get_optional_child("device") {
        Some(d) => match d.get_attr(key) {
            Some(v) => match parse_jid(v.as_str()) {
                Some(j) => j,
                None => server_jid(),
            },
            None => server_jid(),
        },
        None => server_jid(),
    }
}

/// Why a `<pair-success>` IQ cannot be read, if it cannot: no `id`, no
/// children, no `<pair-success>` child, or no `<device-identity>` bytes in
/// it.
pub open spec fn pair_success_error(n: Stanza) -> Option<Seq<char>> {
    if attr_of(n, "id"@) is None {
        Some("pair-success missing id attribute"@)
    } else if !has_child_list(n) {
        Some("pair-success has no children"@)
    } else {
        match child_with_tag(n, "pair-success"@) {
            None => Some("pair-success missing pair-success child"@),
            Some(ps) => match child_with_tag(ps, "device-identity"@) {
                Some(di) => if bytes_content(di) is Some { None } else { Some("pair-success missing device-identity bytes"@) },
                None => Some("pair-success missing device-identity bytes"@),
            },
        }
    }
}

/// Whether `info` is what a readable `<pair-success>` IQ `n` carries: its
/// `id`, the `<device-identity>` bytes, the `name` of `<biz>` and of
/// `<platform>` (or empty), and the `jid` and `lid` of `<device>` (or the
/// empty JID).
pub open spec fn pair_success_carries(n: Stanza, info: PairSuccessInfo) -> bool {
    &&& attr_of(n, "id"@) == Some(info.req_id@)
    &&& child_with_tag(n, "pair-success"@) matches Some(ps)
    &&& child_with_tag(ps, "device-identity"@) matches Some(di)
    &&& bytes_content(di) == Some(info.device_identity@)
    &&& info.business_name@ == child_attr_or_empty(ps, "biz"@, "name"@)
    &&& info.platform@ == child_attr_or_empty(ps, "platform"@, "name"@)
    &&& info.jid@ == device_jid_or_empty(ps, "jid"@)
    &&& info.lid@ == device_jid_or_empty(ps, "lid"@)
}

/// Reads a `<pair-success>` IQ.
///
/// It fails with a protocol error when the IQ has no `id`, no children, no
/// `<pair-success>` child, or no `<device-identity>` bytes in it; the
/// business name, platform and device JIDs default when missing.
pub fn parse_pair_success(node: &Stanza) -> (r: Result<PairSuccessInfo, ClientError>)
    ensures
        match pair_success_error(*node) {
            Some(m) => r matches Err(ClientError::Protocol(x)) && x@ == m,
            None => r matches Ok(info) && pair_success_carries(*node, info),
        },
{
    let req_id = match node.get_attr("id") {
        Some(v) => v.clone(),
        None => return Err(ClientError::Protocol("pair-success missing id attribute".to_string())),
    };
    if node.children().is_none() {
        return Err(ClientError::Protocol("pair-success has no children".to_string()));
    }
    let success = match node.get_optional_child("pair-success") {
        Some(s) => s,
        None => return Err(ClientError::Protocol("pair-success missing pair-success child".to_string())),
    };
    let device_identity = match success.get_optional_child("device-identity") {
        Some(di) => match &di.content {
            Some(StanzaContent::Bytes(b)) => b.clone(),
            _ => return Err(ClientError::Protocol("pair-success missing device-identity bytes".to_string())),
        },
        None => return Err(ClientError::Protocol("pair-success missing device-identity bytes".to_string())),
    };
    let business_name = child_attr_text(success, "biz", "name");
    let platform = child_attr_text(success, "platform", "name");
    let jid = device_jid(success, "jid");
    let lid = device_jid(success, "lid");
    Ok(PairSuccessInfo { req_id, device_identity, business_name, platform, jid, lid })
}

/// What a successful pairing changes on the stored device.
#[derive(Debug)]
pub struct PairedDeviceUpdate {
    /// The phone-number JID, always set.
    pub pn: Jid,
    /// The LID, set when it has a user part.
    pub lid: Option<Jid>,
    /// The push name, set when the business name is not empty.
    pub push_name: Option<String>,
    /// Whether the server holds our prekeys: not yet.
    pub server_has_prekeys: bool,
}

/// Whether `u` is the device change pairing with `info` calls for: the
/// phone-number JID always, the LID when it has a user part, the business
/// name as push name when not empty, and no prekeys on the server yet.
pub open spec fn is_paired_update(info: PairSuccessInfo, u: PairedDeviceUpdate) -> bool {
    &&& u.pn == info.jid
    &&& (info.lid.user@.len() > 0 ==> u.lid == Some(info.lid))
    &&& (info.lid.user@.len() == 0 ==> u.lid is None)
    &&& (info.business_name@.len() > 0 ==> u.push_name == Some(info.business_name))
    &&& (info.business_name@.len() == 0 ==> u.push_name is None)
    &&& !u.server_has_prekeys
}

/// The device changes a `<pair-success>` calls for.
pub fn paired_device_update(info: &PairSuccessInfo) -> (r: PairedDeviceUpdate)
    ensures
        is_paired_update(*info, r),
{
    let lid = if !info.lid.user.as_str().is_empty() { Some(info.lid.copy()) } else { None };
    let push_name = if !info.business_name.as_str().is_empty() { Some(info.business_name.clone()) } else { None };
    PairedDeviceUpdate { pn: info.jid.copy(), lid, push_name, server_has_prekeys: false }
}

/// Minimum number of one-time prekeys the server should have.
pub const MIN_PREKEY_COUNT: usize = 100;

/// The ids of the prekeys to upload when the server reports `server_count`:
/// none when it has at least 100, otherwise enough to reach 100, numbered
/// on from `next_id`.
pub fn prekey_upload_ids(server_count: usize, next_id: u32) -> (r: Option<Vec<u32>>)
    requires
        server_count >= MIN_PREKEY_COUNT || next_id + (MIN_PREKEY_COUNT - server_count) <= u32::MAX + 1,
    ensures
        server_count >= MIN_PREKEY_COUNT ==> r is None,
        server_count < MIN_PREKEY_COUNT ==> (r matches Some(ids) && ids@.len() == MIN_PREKEY_COUNT - server_count
            && forall|i: int| 0 <= i < ids@.len() ==> ids@[i] == next_id + i),
{
    if server_count >= MIN_PREKEY_COUNT {
        return None;
    }
    let needed: usize = MIN_PREKEY_COUNT - server_count;
    let mut ids: Vec<u32> = Vec::new();
    let mut i: usize = 0;
    while i < needed
        invariant
            needed == MIN_PREKEY_COUNT - server_count,
            next_id + needed <= u32::MAX + 1,
            0 <= i <= needed,
            ids@.len() == i,
            forall|j: int| 0 <= j < i ==> ids@[j] == next_id + j,
        decreases needed - i,
    {
        ids.push(next_id + i as u32);
        i = i + 1;
    }
    Some(ids)
}

/// Whether the client has an authenticated session.
#[derive(Clone, Debug)]
pub enum LoginStatus {
    /// The client is authorized with a known JID and push name.
    Authorized { jid: Jid, push_name: String },
    /// The client is not paired / not logged in.
    NotAuthorized,
}

/// The login status of a stored device: authorized exactly when it has a
/// phone-number JID.
pub fn login_status(pn: Option<Jid>, push_name: String) -> (r: LoginStatus)
    ensures
        match pn {
            Some(j) => r == LoginStatus::Authorized { jid: j, push_name },
            None => r == LoginStatus::NotAuthorized,
        },
{
    match pn {
        Some(jid) => LoginStatus::Authorized { jid, push_name },
        None => LoginStatus::NotAuthorized,
    }
}

/// The current user as a chat: the chat for the device's phone-number JID,
/// with the device's push name when it is a user; `NotLoggedIn` without one.
pub fn me_chat(pn: Option<Jid>, push_name: String) -> (r: Result<Chat, ClientError>)
    ensures
        pn is None ==> r matches Err(ClientError::NotLoggedIn),
        pn matches Some(j) ==> (r matches Ok(c) && match chat_for_jid_spec(j) {
            Chat::User(u) => c == Chat::User(User { push_name: Some(push_name), ..u }),
            other => c == other,
        }),
{
    match pn {
        Some(jid) => {
            let chat = chat_for_jid(jid);
            match chat {
                Chat::User(u) => {
                    let mut u = u;
                    u.set_push_name(push_name);
                    Ok(Chat::User(u))
                },
                other => Ok(other),
            }
        },
        None => Err(ClientError::NotLoggedIn),
    }
}

/// The ASCII digits of `s`, in order.
pub open spec fn ascii_digits(s: Seq<char>) -> Seq<char>
    decreases s.len(),
{
    if s.len() == 0 {
        Seq::empty()
    } else {
        let r = ascii_digits(s.drop_last());
        if is_digit(s.last()) { r.push(s.last()) } else { r }
    }
}

/// Why a phone number cannot be used for pair-code linking, if it cannot:
/// it must hold at least one digit, at least seven, and not start with 0.
pub open spec fn phone_error(phone_number: Seq<char>) -> Option<Seq<char>> {
    let d = ascii_digits(phone_number);
    if d.len() == 0 {
        Some("phone number must contain at least one digit"@)
    } else if d.len() < 7 {
        Some("phone number is too short (must be at least 7 digits)"@)
    } else if d[0] == '0' {
        Some("phone number must not start with 0 (use international format)"@)
    } else {
        None
    }
}

/// Reduces a phone number to its digits and checks it for pair-code linking.
pub fn sanitize_phone(phone_number: &str) -> (r: Result<String, ClientError>)
    ensures
        match phone_error(phone_number@) {
            Some(m) => r matches Err(ClientError::Internal(x)) && x@ == m,
            None => r matches Ok(d) && d@ == ascii_digits(phone_number@),
        },
{
    let mut digits = String::new();
    let ghost s = phone_number@;
    let mut chars = phone_number.chars();
    assert(chars.remaining() =~= s);
    let ghost mut k: int = 0;
    loop
        invariant
            s == phone_number@,
            chars.obeys_prophetic_iter_laws(),
            0 <= k <= s.len(),
            chars.remaining() =~= s.skip(k),
            digits@ == ascii_digits(s.take(k)),
        ensures
            digits@ == ascii_digits(s),
        decreases s.len() - k,
    {
        match chars.next() {
            None => {
                assert(s.take(k) =~= s);
                break;
            },
            Some(c) => {
                assert(c == s[k]);
                proof {
                    assert(s.take(k + 1).drop_last() =~= s.take(k));
                    assert(s.take(k + 1).last() == c);
                }
                if '0' <= c && c <= '9' {
                    let d: u64 = (c as u32 - '0' as u32) as u64;
                    assert(hex_digit(d as nat) == c);
                    let ghost before = digits@;
                    digits.append(digit_str(d));
                    assert(digits@ =~= before.push(c));
                }
                proof {
                    k = k + 1;
                }
                assert(chars.remaining() =~= s.skip(k));
            },
        }
    }
    let n: usize = digits.as_str().unicode_len();
    if n == 0 {
        return Err(ClientError::Internal("phone number must contain at least one digit".to_string()));
    }
    if n < 7 {
        return Err(ClientError::Internal("phone number is too short (must be at least 7 digits)".to_string()));
    }
    if digits.as_str().get_char(0) == '0' {
        return Err(ClientError::Internal("phone number must not start with 0 (use international format)".to_string()));
    }
    Ok(digits)
}

/// A request id for a pair-code IQ: 16 lowercase hex digits of `v`.
pub fn pair_request_id(v: u64) -> (r: String)
    ensures
        r@ == zero_padded(hex_text(v as nat), 16),
{
    hex_string_padded(v, 16)
}

/// The `companion_hello` request: a `set` IQ in `md` to the server, with
/// the children of the hello node wacore builds, its request id and a
/// 30-second timeout.
pub fn companion_hello_query(children: Vec<Stanza>, req_id: String) -> (r: InfoQuery)
    ensures
        r.namespace@ == "md"@,
        r.query_type == InfoQueryType::SetQuery,
        r.to@ == server_jid_view(),
        r.target is None,
        r.content == Some(StanzaContent::Nodes(children)),
        r.id == Some(req_id),
        r.timeout_secs == Some(30u64),
{
    InfoQuery {
        namespace: "md".to_string(),
        query_type: InfoQueryType::SetQuery,
        to: server_jid(),
        target: None,
        id: Some(req_id),
        content: Some(StanzaContent::Nodes(children)),
        timeout_secs: Some(30),
    }
}

/// What the phone sends once the pair code was entered on it.
#[derive(Debug)]
pub struct PairCodeConfirmation {
    /// The primary device's wrapped ephemeral public key (80 bytes).
    pub wrapped_ephemeral: Vec<u8>,
    /// The primary device's identity public key (32 bytes).
    pub identity_pub: Vec<u8>,
}

/// The bytes of the first `tag` child of `n`, when they have length `len`.
pub open spec fn sized_child_bytes(n: Stanza, tag: Seq<char>, len: nat) -> Option<Seq<u8>> {
    match child_with_tag(n, tag) {
        Some(c) => match bytes_content(c) {
            Some(b) => if b.len() == len { Some(b) } else { None },
            None => None,
        },
        None => None,
    }
}

fn sized_bytes_of(n: &Stanza, tag: &str, len: usize) -> (r: Option<Vec<u8>>)
    ensures
        match sized_child_bytes(*n, tag@, len as nat) {
            Some(b) => r is Some && r.unwrap()@ == b,
            None => r is None,
        },
{
    match n.get_optional_child(tag) {
        Some(c) => match &c.content {
            Some(StanzaContent::Bytes(b)) => if b.len() == len { Some(b.clone()) } else { None },
            _ => None,
        },
        None => None,
    }
}

/// The pair-code confirmation a notification carries: its first
/// `<link_code_companion_reg>` child must hold an 80-byte
/// `<link_code_pairing_wrapped_primary_ephemeral_pub>` and a 32-byte
/// `<primary_identity_pub>`.
pub fn parse_pair_code_confirmation(node: &Stanza) -> (r: Option<PairCodeConfirmation>)
    ensures
        match child_with_tag(*node, "link_code_companion_reg"@) {
            Some(reg) => match (sized_child_bytes(reg, "link_code_pairing_wrapped_primary_ephemeral_pub"@, 80),
                sized_child_bytes(reg, "primary_identity_pub"@, 32)) {
                (Some(w), Some(i)) => r matches Some(c) && c.wrapped_ephemeral@ == w && c.identity_pub@ == i,
                _ => r is None,
            },
            None => r is None,
        },
{
    let reg = match node.get_optional_child("link_code_companion_reg") {
        Some(r) => r,
        None => return None,
    };
    let wrapped = match sized_bytes_of(reg, "link_code_pairing_wrapped_primary_ephemeral_pub", 80) {
        Some(w) => w,
        None => return None,
    };
    let identity = match sized_bytes_of(reg, "primary_identity_pub", 32) {
        Some(i) => i,
        None => return None,
    };
    Some(PairCodeConfirmation { wrapped_ephemeral: wrapped, identity_pub: identity })
}

} // verus!
