//! The policy of the update stream: which handler a node goes to, which
//! updates reach the application during the reconnect that follows pairing,
//! and when the protocol state is flushed.

use vstd::prelude::*;

use crate::jid::Jid;
use crate::stanza::{Attr, Stanza, attr_of, child_with_tag};
use crate::update::Update;

verus! {

broadcast use vstd::string::group_string_axioms;

/// The handler an incoming node goes to.
#[derive(Clone, Copy, Debug, PartialEq, Eq, Structural)]
pub enum NodeKind {
    HistorySync,
    Message,
    Receipt,
    Presence,
    ChatState,
    Notification,
    Success,
    Failure,
    PairCodeIq,
    Ib,
    Ignored,
}

/// Whether a node carries history sync data: a `history_sync_notification`
/// notification, or an `<ib>` with a `<history_sync>` child.
pub open spec fn is_history_sync_node(n: Stanza) -> bool {
    ||| (n.tag@ == "notification"@ && attr_of(n, "type"@) == Some("history_sync_notification"@))
    ||| (n.tag@ == "ib"@ && child_with_tag(n, "history_sync"@) is Some)
}

/// The handler for a node: history sync first, then by tag.
pub open spec fn node_kind_spec(n: Stanza) -> NodeKind {
    if is_history_sync_node(n) {
        NodeKind::HistorySync
    } else if n.tag@ == "message"@ {
        NodeKind::Message
    } else if n.tag@ == "receipt"@ {
        NodeKind::Receipt
    } else if n.tag@ == "presence"@ {
        NodeKind::Presence
    } else if n.tag@ == "chatstate"@ {
        NodeKind::ChatState
    } else if n.tag@ == "notification"@ {
        NodeKind::Notification
    } else if n.tag@ == "success"@ {
        NodeKind::Success
    } else if n.tag@ == "failure"@ || n.tag@ == "stream:error"@ {
        NodeKind::Failure
    } else if n.tag@ == "iq"@ {
        NodeKind::PairCodeIq
    } else if n.tag@ == "ib"@ {
        NodeKind::Ib
    } else {
        NodeKind::Ignored
    }
}

/// Dispatch a node by tag to the appropriate handler.
pub fn node_kind(node: &Stanza) -> (r: NodeKind)
    ensures
        r == node_kind_spec(*node),
{
    let history = (node.tag_is("notification") && node.attr_is("type", "history_sync_notification"))
        || (node.tag_is("ib") && node.get_optional_child("history_sync").is_some());
    if history {
        NodeKind::HistorySync
    } else if node.tag_is("message") {
        NodeKind::Message
    } else if node.tag_is("receipt") {
        NodeKind::Receipt
    } else if node.tag_is("presence") {
        NodeKind::Presence
    } else if node.tag_is("chatstate") {
        NodeKind::ChatState
    } else if node.tag_is("notification") {
        NodeKind::Notification
    } else if node.tag_is("success") {
        NodeKind::Success
    } else if node.tag_is("failure") || node.tag_is("stream:error") {
        NodeKind::Failure
    } else if node.tag_is("iq") {
        NodeKind::PairCodeIq
    } else if node.tag_is("ib") {
        NodeKind::Ib
    } else {
        NodeKind::Ignored
    }
}

/// What becomes of an update a handler produced.
#[derive(Clone, Copy, Debug, PartialEq, Eq, Structural)]
pub enum Delivery {
    /// Not shown to the application.
    Suppress,
    /// Sent to the application.
    Send,
    /// The stored device is cleared, then the update is sent.
    ClearDeviceThenSend,
}

/// The delivery of an update.
///
/// During the reconnect that follows pairing the server forces a reconnect
/// with an error, so a `ConnectFailure` is suppressed then.  A `LoggedOut`
/// decoded from a `<failure>` means the device was removed server-side, so
/// the stored credentials are cleared before it is sent; one that came out
/// of a message stanza is only sent.
pub open spec fn delivery_spec(u: Update, post_pair_reconnect: bool, from_message: bool) -> Delivery {
    if u is ConnectFailure && post_pair_reconnect {
        Delivery::Suppress
    } else if u is LoggedOut && !from_message {
        Delivery::ClearDeviceThenSend
    } else {
        Delivery::Send
    }
}

/// The delivery of an update.
pub fn delivery(update: &Update, post_pair_reconnect: bool, from_message: bool) -> (r: Delivery)
    ensures
        r == delivery_spec(*update, post_pair_reconnect, from_message),
{
    match update {
        Update::ConnectFailure(_) => if post_pair_reconnect { Delivery::Suppress } else { Delivery::Send },
        Update::LoggedOut => if from_message { Delivery::Send } else { Delivery::ClearDeviceThenSend },
        _ => Delivery::Send,
    }
}

/// What the stream does when the connection comes up.
#[derive(Clone, Copy, Debug, PartialEq, Eq, Structural)]
pub enum ConnectedAction {
    /// Post-pair reconnect: run the post-connect work without telling the
    /// application, then leave the post-pair window.
    SilentInit,
    /// Tell the application, then run the post-connect work.
    AnnounceAndInit,
}

/// What the stream does when the connection comes up.
pub fn on_connected(post_pair_reconnect: bool) -> (r: ConnectedAction)
    ensures
        post_pair_reconnect ==> r == ConnectedAction::SilentInit,
        !post_pair_reconnect ==> r == ConnectedAction::AnnounceAndInit,
{
    if post_pair_reconnect { ConnectedAction::SilentInit } else { ConnectedAction::AnnounceAndInit }
}

/// Whether a lost connection is announced: not during the post-pair window.
pub fn announce_disconnect(post_pair_reconnect: bool) -> (r: bool)
    ensures
        r == !post_pair_reconnect,
{
    !post_pair_reconnect
}

/// A connection event other than a node, as the update stream sees it.
#[derive(Clone, Copy, Debug, PartialEq, Eq, Structural)]
pub enum StreamSignal {
    Connected,
    Disconnected,
    Error,
    /// The raw event channel closed.
    Closed,
}

/// What the update stream tells the application about the connection.
#[derive(Clone, Copy, Debug, PartialEq, Eq, Structural)]
pub enum Announcement {
    Connected,
    Disconnected,
}

/// What the update stream does for a connection event.
#[derive(Clone, Copy, Debug, PartialEq, Eq, Structural)]
pub struct StreamStep {
    /// Tell the application this, first.
    pub announce: Option<Announcement>,
    /// Then run the post-connect work.
    pub post_connect: bool,
    /// Whether the post-pair window is open afterwards.
    pub post_pair_after: bool,
    /// End the stream (the application's channel closes with it).
    pub stop: bool,
}

/// What the update stream does for a connection event, with the post-pair
/// window open or not: a connection that comes up is announced (outside
/// the window) and followed by the post-connect work, and it closes the
/// window; a lost connection is announced outside the window; an error is
/// only logged; a closed event channel ends the stream.
pub open spec fn stream_step_spec(post_pair: bool, signal: StreamSignal) -> StreamStep {
    match signal {
        StreamSignal::Connected => StreamStep {
            announce: if post_pair { None } else { Some(Announcement::Connected) },
            post_connect: true,
            post_pair_after: false,
            stop: false,
        },
        StreamSignal::Disconnected => StreamStep {
            announce: if post_pair { None } else { Some(Announcement::Disconnected) },
            post_connect: false,
            post_pair_after: post_pair,
            stop: false,
        },
        StreamSignal::Error => StreamStep { announce: None, post_connect: false, post_pair_after: post_pair, stop: false },
        StreamSignal::Closed => StreamStep { announce: None, post_connect: false, post_pair_after: post_pair, stop: true },
    }
}

/// What the update stream does for a connection event.
pub fn stream_step(post_pair: bool, signal: StreamSignal) -> (r: StreamStep)
    ensures
        r == stream_step_spec(post_pair, signal),
{
    match signal {
        StreamSignal::Connected => {
            let announce = match on_connected(post_pair) {
                ConnectedAction::SilentInit => None,
                ConnectedAction::AnnounceAndInit => Some(Announcement::Connected),
            };
            StreamStep { announce, post_connect: true, post_pair_after: false, stop: false }
        },
        StreamSignal::Disconnected => {
            let announce = if announce_disconnect(post_pair) { Some(Announcement::Disconnected) } else { None };
            StreamStep { announce, post_connect: false, post_pair_after: post_pair, stop: false }
        },
        StreamSignal::Error => StreamStep { announce: None, post_connect: false, post_pair_after: post_pair, stop: false },
        StreamSignal::Closed => StreamStep { announce: None, post_connect: false, post_pair_after: post_pair, stop: true },
    }
}

/// The post-pair window lasts until the connection first comes back: the
/// reconnect that ends it is not announced, only its post-connect work
/// runs, and every later connect or disconnect is announced; while the
/// window stays open nothing about the connection reaches the application.
pub proof fn lemma_post_pair_window_closes(later: StreamSignal)
    ensures
        stream_step_spec(true, StreamSignal::Connected).announce is None,
        stream_step_spec(true, StreamSignal::Connected).post_connect,
        !stream_step_spec(true, StreamSignal::Connected).post_pair_after,
        later == StreamSignal::Connected ==> stream_step_spec(false, later).announce == Some(Announcement::Connected),
        later == StreamSignal::Disconnected ==> stream_step_spec(false, later).announce == Some(Announcement::Disconnected),
        later != StreamSignal::Connected ==> stream_step_spec(true, later).announce is None
            && stream_step_spec(true, later).post_pair_after,
{
}

/// The input the stream handled, as far as counting it goes.
#[derive(Clone, Copy, Debug, PartialEq, Eq, Structural)]
pub enum Handled {
    /// A node of this kind, whose update (if any) had this delivery.
    Stanza { kind: NodeKind, delivery: Option<Delivery> },
    /// The connection came up.
    Connected,
    /// The connection went down.
    Disconnected,
    /// The connection reported an error.
    Error,
}

/// Whether a handled input counts toward the periodic flush of the
/// protocol state: history sync and message nodes, suppressed updates, and
/// the connection events of the post-pair window skip the count.
pub open spec fn counts_spec(h: Handled, post_pair_reconnect: bool) -> bool {
    match h {
        Handled::Stanza { kind, delivery } => {
            &&& kind != NodeKind::HistorySync
            &&& kind != NodeKind::Message
            &&& delivery != Some(Delivery::Suppress)
        },
        Handled::Connected => !post_pair_reconnect,
        Handled::Disconnected => !post_pair_reconnect,
        Handled::Error => true,
    }
}

/// Counts the inputs of the update stream and says when to flush the
/// protocol state: at every hundredth counted input.
pub struct EventCounter {
    count: u64,
}

impl EventCounter {
    /// Inputs counted so far.
    pub closed spec fn counted(&self) -> u64 {
        self.count
    }

    /// A counter at zero.
    pub fn new() -> (r: Self)
        ensures
            r.counted() == 0,
    {
        EventCounter { count: 0 }
    }

    /// Inputs counted so far.
    pub fn counted_events(&self) -> (r: u64)
        ensures
            r == self.counted(),
    {
        self.count
    }

    /// Record a handled input; true when the protocol state is due a flush.
    pub fn record(&mut self, handled: Handled, post_pair_reconnect: bool) -> (flush: bool)
        requires
            old(self).counted() < u64::MAX,
        ensures
            counts_spec(handled, post_pair_reconnect) ==> final(self).counted() == old(self).counted() + 1
                && flush == (final(self).counted() % 100 == 0),
            !counts_spec(handled, post_pair_reconnect) ==> final(self).counted() == old(self).counted() && !flush,
    {
        let counts = match handled {
            Handled::Stanza { kind, delivery } => {
                kind != NodeKind::HistorySync && kind != NodeKind::Message
                    && match delivery {
                        Some(Delivery::Suppress) => false,
                        _ => true,
                    }
            },
            Handled::Connected => !post_pair_reconnect,
            Handled::Disconnected => !post_pair_reconnect,
            Handled::Error => true,
        };
        if !counts {
            return false;
        }
        self.count = self.count + 1;
        self.count % 100 == 0
    }
}

/// The work after a connection comes up, for the stored device.
#[derive(Debug)]
pub struct PostConnectPlan {
    /// Top up the server's prekeys and leave passive mode.
    pub prekeys_and_active: bool,
    /// Sync the device list of this JID.
    pub device_sync: Option<Jid>,
    /// Announce presence with this node.
    pub presence: Option<Stanza>,
}

/// `<presence type="available" name="{push_name}"/>`.
pub fn presence_available(push_name: &str) -> (r: Stanza)
    ensures
        r.tag@ == "presence"@,
        r.attrs@.len() == 2,
        r.attrs@[0].key@ == "type"@ && r.attrs@[0].value@ == "available"@,
        r.attrs@[1].key@ == "name"@ && r.attrs@[1].value@ == push_name@,
        r.content is None,
{
    let attrs = vec![
        Attr { key: "type".to_string(), value: "available".to_string() },
        Attr { key: "name".to_string(), value: push_name.to_string() },
    ];
    Stanza { tag: "presence".to_string(), attrs, content: None }
}

/// The post-connect work for a device: nothing unless it is paired (has a
/// phone-number JID); then the prekeys and active IQ, a device-list sync of
/// that JID, and a presence announcement when the push name is not empty.
pub fn post_connect_plan(pn: Option<Jid>, push_name: &str) -> (r: PostConnectPlan)
    ensures
        pn is None ==> !r.prekeys_and_active && r.device_sync is None && r.presence is None,
        pn matches Some(j) ==> {
            &&& r.prekeys_and_active
            &&& r.device_sync == Some(j)
            &&& (push_name@.len() == 0 ==> r.presence is None)
            &&& (push_name@.len() > 0 ==> (r.presence matches Some(p) && p.tag@ == "presence"@
                && p.attrs@.len() == 2
                && p.attrs@[0].key@ == "type"@ && p.attrs@[0].value@ == "available"@
                && p.attrs@[1].key@ == "name"@ && p.attrs@[1].value@ == push_name@
                && p.content is None))
        },
{
    match pn {
        None => PostConnectPlan { prekeys_and_active: false, device_sync: None, presence: None },
        Some(j) => {
            let presence = if push_name.is_empty() { None } else { Some(presence_available(push_name)) };
            PostConnectPlan { prekeys_and_active: true, device_sync: Some(j), presence }
        },
    }
}

/// During the reconnect that follows pairing no `ConnectFailure` reaches
/// the application, and a `LoggedOut` from a `<failure>` always clears the
/// stored device before the application hears of it.
pub proof fn lemma_post_pair_window(u: Update, from_message: bool)
    ensures
        u is ConnectFailure ==> delivery_spec(u, true, from_message) == Delivery::Suppress,
        u is LoggedOut ==> delivery_spec(u, true, false) == Delivery::ClearDeviceThenSend
            && delivery_spec(u, false, false) == Delivery::ClearDeviceThenSend,
        !(u is ConnectFailure) && !(u is LoggedOut) ==> delivery_spec(u, true, from_message) == Delivery::Send,
{
}

} // verus!
