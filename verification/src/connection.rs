//! Connection-layer configuration, reconnect policy, IQ construction and the
//! routing of incoming nodes.

use vstd::prelude::*;
use vstd::string::*;

use crate::error::ConnectionError;
use crate::jid::{Jid, jid_text};
use crate::stanza::{Attr, Stanza, StanzaContent, attr_of, child_with_tag, has_child_tagged};
use crate::text::{decimal_string, decimal_text, digits_value, lemma_decimal_text};

verus! {

broadcast use vstd::string::group_string_axioms;

/// Configuration for the WebSocket connection layer.  Durations are held in
/// whole seconds.
#[derive(Clone, Debug)]
pub struct ConnectionConfig {
    /// WebSocket endpoint URL.
    pub websocket_url: String,
    /// Whether to automatically reconnect on disconnect.
    pub auto_reconnect: bool,
    /// Interval between keepalive pings, in seconds.
    pub keepalive_interval_secs: u64,
    /// Maximum number of reconnect attempts (0 = unlimited).
    pub max_reconnect_attempts: u32,
}

/// The WhatsApp Web chat endpoint.
pub open spec fn default_websocket_url() -> Seq<char> {
    seq!['w', 's', 's', ':', '/', '/', 'w', 'e', 'b', '.', 'w', 'h', 'a', 't', 's', 'a', 'p', 'p',
        '.', 'c', 'o', 'm', '/', 'w', 's', '/', 'c', 'h', 'a', 't']
}

impl ConnectionConfig {
    /// The default configuration: the WhatsApp Web endpoint, auto-reconnect
    /// on, a keepalive every 20 seconds and at most 10 reconnect attempts.
    pub fn default_config() -> (r: Self)
        ensures
            r.websocket_url@ == default_websocket_url(),
            r.auto_reconnect,
            r.keepalive_interval_secs == 20,
            r.max_reconnect_attempts == 10,
    {
        let url = "wss://web.whatsapp.com/ws/chat";
        proof {
            reveal_strlit("wss://web.whatsapp.com/ws/chat");
        }
        ConnectionConfig {
            websocket_url: url.to_string(),
            auto_reconnect: true,
            keepalive_interval_secs: 20,
            max_reconnect_attempts: 10,
        }
    }
}

impl Default for ConnectionConfig {
    fn default() -> (r: Self)
        ensures
            r.websocket_url@ == default_websocket_url(),
            r.auto_reconnect,
            r.keepalive_interval_secs == 20,
            r.max_reconnect_attempts == 10,
    {
        Self::default_config()
    }
}

/// The endpoint a WebSocket transport dials.
#[derive(Clone, Debug)]
pub struct WebSocketTransportFactory {
    pub url: String,
}

impl WebSocketTransportFactory {
    /// Create a new factory for the given WebSocket URL.
    pub fn new(url: String) -> (r: Self)
        ensures
            r.url == url,
    {
        WebSocketTransportFactory { url }
    }
}

/// The kind of an IQ request.
#[derive(Clone, Copy, Debug, PartialEq, Eq, Structural)]
pub enum InfoQueryType {
    GetQuery,
    SetQuery,
}

/// An IQ (Info Query) request, before it is laid out as a node.  The timeout
/// is in whole seconds.
#[derive(Debug)]
pub struct InfoQuery {
    pub namespace: String,
    pub query_type: InfoQueryType,
    pub to: Jid,
    pub target: Option<Jid>,
    pub id: Option<String>,
    pub content: Option<StanzaContent>,
    pub timeout_secs: Option<u64>,
}

impl InfoQuery {
    /// A `get` query to `to` in `namespace`, with no target, id or timeout.
    pub fn get(namespace: &str, to: Jid, content: Option<StanzaContent>) -> (r: InfoQuery)
        ensures
            r.namespace@ == namespace@,
            r.query_type == InfoQueryType::GetQuery,
            r.to == to,
            r.content == content,
            r.target is None && r.id is None && r.timeout_secs is None,
    {
        InfoQuery { namespace: namespace.to_string(), query_type: InfoQueryType::GetQuery, to, target: None, id: None, content, timeout_secs: None }
    }

    /// A `set` query to `to` in `namespace`, with no target, id or timeout.
    pub fn set(namespace: &str, to: Jid, content: Option<StanzaContent>) -> (r: InfoQuery)
        ensures
            r.namespace@ == namespace@,
            r.query_type == InfoQueryType::SetQuery,
            r.to == to,
            r.content == content,
            r.target is None && r.id is None && r.timeout_secs is None,
    {
        InfoQuery { namespace: namespace.to_string(), query_type: InfoQueryType::SetQuery, to, target: None, id: None, content, timeout_secs: None }
    }
}

/// The `type` attribute of an IQ of the given kind.
pub open spec fn iq_type_text(t: InfoQueryType) -> Seq<char> {
    match t {
        InfoQueryType::GetQuery => "get"@,
        InfoQueryType::SetQuery => "set"@,
    }
}

/// Build an `<iq>` node from a query and an id: the attributes `id`,
/// `xmlns`, `type` and `to` in that order, and the query's content.
pub fn build_iq_node(info_query: InfoQuery, id: &str) -> (r: Stanza)
    ensures
        r.tag@ == "iq"@,
        r.attrs@.len() == 4,
        r.attrs@[0].key@ == "id"@ && r.attrs@[0].value@ == id@,
        r.attrs@[1].key@ == "xmlns"@ && r.attrs@[1].value@ == info_query.namespace@,
        r.attrs@[2].key@ == "type"@ && r.attrs@[2].value@ == iq_type_text(info_query.query_type),
        r.attrs@[3].key@ == "to"@ && r.attrs@[3].value@ == jid_text(info_query.to.user@,
            info_query.to.server, info_query.to.agent, info_query.to.device),
        r.content == info_query.content,
{
    let type_str = match info_query.query_type {
        InfoQueryType::GetQuery => "get",
        InfoQueryType::SetQuery => "set",
    };
    let to = info_query.to.to_text();
    let attrs = vec![
        Attr { key: "id".to_string(), value: id.to_string() },
        Attr { key: "xmlns".to_string(), value: info_query.namespace },
        Attr { key: "type".to_string(), value: type_str.to_string() },
        Attr { key: "to".to_string(), value: to },
    ];
    Stanza { tag: "iq".to_string(), attrs, content: info_query.content }
}

/// The id the connection gives the IQ it numbers `n`.
pub open spec fn iq_id_text(n: nat) -> Seq<char> {
    "waepic_"@ + decimal_text(n)
}

/// IQ ids of different numbers differ, so the ids a generator hands out
/// before its counter wraps are all distinct.
pub proof fn lemma_iq_ids_distinct(a: nat, b: nat)
    requires
        a != b,
    ensures
        iq_id_text(a) != iq_id_text(b),
{
    lemma_decimal_text(a);
    lemma_decimal_text(b);
    reveal_strlit("waepic_");
    if iq_id_text(a) == iq_id_text(b) {
        assert(iq_id_text(a).skip(7) =~= decimal_text(a));
        assert(iq_id_text(b).skip(7) =~= decimal_text(b));
    }
}

/// Hands out the ids of IQs that carry none of their own: `waepic_0`,
/// `waepic_1`, ...; the counter wraps like an atomic `fetch_add`.
pub struct IqIdGenerator {
    next: u64,
}

impl IqIdGenerator {
    /// The number of the next id.
    pub closed spec fn count(&self) -> u64 {
        self.next
    }

    /// A generator that starts at `waepic_0`.
    pub fn new() -> (r: Self)
        ensures
            r.count() == 0,
    {
        IqIdGenerator { next: 0 }
    }

    /// The next IQ id.
    pub fn next_iq_id(&mut self) -> (r: String)
        ensures
            r@ == iq_id_text(old(self).count() as nat),
            final(self).count() == old(self).count().wrapping_add(1),
    {
        let id = self.next;
        self.next = id.wrapping_add(1);
        let mut out = "waepic_".to_string();
        out.append(decimal_string(id).as_str());
        out
    }
}

/// The id an IQ is sent with: its own, or the next generated one.
pub fn iq_request_id(info_query: &InfoQuery, ids: &mut IqIdGenerator) -> (r: String)
    ensures
        match info_query.id {
            Some(i) => r@ == i@ && final(ids).count() == old(ids).count(),
            None => r@ == iq_id_text(old(ids).count() as nat)
                && final(ids).count() == old(ids).count().wrapping_add(1),
        },
{
    match &info_query.id {
        Some(i) => i.clone(),
        None => ids.next_iq_id(),
    }
}

/// Seconds an IQ waits for its response: its own timeout, or 30.
pub fn iq_timeout_secs(info_query: &InfoQuery) -> (r: u64)
    ensures
        r == match info_query.timeout_secs {
            Some(t) => t,
            None => 30u64,
        },
{
    match info_query.timeout_secs {
        Some(t) => t,
        None => 30,
    }
}

/// The text of an `error` IQ response: the first `<error>` child's `text`,
/// else `error code: ` and its `code` (`unknown error` without one).
pub open spec fn iq_error_text(resp: Stanza) -> Seq<char> {
    match child_with_tag(resp, "error"@) {
        Some(e) => match attr_of(e, "text"@) {
            Some(t) => t,
            None => match attr_of(e, "code"@) {
                Some(c) => "error code: "@ + c,
                None => "error code: "@ + "unknown error"@,
            },
        },
        None => "error code: "@ + "unknown error"@,
    }
}

/// Checks an IQ response: one of `type="error"` fails with a protocol
/// error `IQ error: ` and its error text; any other response passes.
pub fn check_iq_response(resp: &Stanza) -> (r: Result<(), ConnectionError>)
    ensures
        attr_of(*resp, "type"@) == Some("error"@) ==> (r matches Err(ConnectionError::Protocol(m))
            && m@ == "IQ error: "@ + iq_error_text(*resp)),
        attr_of(*resp, "type"@) != Some("error"@) ==> r is Ok,
{
    if !resp.attr_is("type", "error") {
        return Ok(());
    }
    let text: String = match resp.get_optional_child("error") {
        Some(e) => match e.get_attr("text") {
            Some(t) => t.clone(),
            None => {
                let mut out = "error code: ".to_string();
                match e.get_attr("code") {
                    Some(c) => out.append(c.as_str()),
                    None => out.append("unknown error"),
                }
                out
            },
        },
        None => {
            let mut out = "error code: ".to_string();
            out.append("unknown error");
            out
        },
    };
    let mut msg = "IQ error: ".to_string();
    msg.append(text.as_str());
    Err(ConnectionError::Protocol(msg))
}

/// The server's JID text.
pub open spec fn server_jid_text() -> Seq<char> {
    "s.whatsapp.net"@
}

/// The keepalive ping: `<iq to="s.whatsapp.net" xmlns="w:p" type="get"/>`.
pub fn keepalive_ping() -> (r: Stanza)
    ensures
        r.tag@ == "iq"@,
        r.attrs@.len() == 3,
        r.attrs@[0].key@ == "to"@ && r.attrs@[0].value@ == server_jid_text(),
        r.attrs@[1].key@ == "xmlns"@ && r.attrs@[1].value@ == "w:p"@,
        r.attrs@[2].key@ == "type"@ && r.attrs@[2].value@ == "get"@,
        r.content is None,
{
    let attrs = vec![
        Attr { key: "to".to_string(), value: "s.whatsapp.net".to_string() },
        Attr { key: "xmlns".to_string(), value: "w:p".to_string() },
        Attr { key: "type".to_string(), value: "get".to_string() },
    ];
    Stanza { tag: "iq".to_string(), attrs, content: None }
}

/// The acknowledgement of a server IQ:
/// `<iq type="result" id="{id}" to="s.whatsapp.net"/>`.
pub fn iq_ack(id: &str) -> (r: Stanza)
    ensures
        r.tag@ == "iq"@,
        r.attrs@.len() == 3,
        r.attrs@[0].key@ == "type"@ && r.attrs@[0].value@ == "result"@,
        r.attrs@[1].key@ == "id"@ && r.attrs@[1].value@ == id@,
        r.attrs@[2].key@ == "to"@ && r.attrs@[2].value@ == server_jid_text(),
        r.content is None,
{
    let attrs = vec![
        Attr { key: "type".to_string(), value: "result".to_string() },
        Attr { key: "id".to_string(), value: id.to_string() },
        Attr { key: "to".to_string(), value: "s.whatsapp.net".to_string() },
    ];
    Stanza { tag: "iq".to_string(), attrs, content: None }
}

/// What the connection does with a decoded incoming node, besides passing
/// it on to the event stream.
#[derive(Debug)]
pub struct IncomingRoute {
    /// Announce that the connection is up (a server `<success>`).
    pub announce_connected: bool,
    /// Acknowledge with this node.
    pub ack: Option<Stanza>,
    /// Hand the node to the IQ waiting under this id.
    pub resolve_waiter: Option<String>,
    /// Mark the session as logged out (a `<failure>`).
    pub mark_logged_out: bool,
}

/// Whether a node is a server-initiated `set` IQ.
pub open spec fn is_server_set_iq(n: Stanza) -> bool {
    n.tag@ == "iq"@ && attr_of(n, "type"@) == Some("set"@)
}

/// Whether `r` is how the connection routes the incoming node `n`.
///
/// A server `set` IQ announces the connection when it holds a `<success>`,
/// and is acknowledged under its `id` unless it holds a `<pair-success>`
/// (the pairing flow answers that one).  Any other IQ with an `id` goes to
/// the request waiting under that id.  A `<failure>` node marks the session
/// as logged out.
pub open spec fn routes(n: Stanza, r: IncomingRoute) -> bool {
    if is_server_set_iq(n) {
        &&& r.announce_connected == has_child_tagged(n, "success"@)
        &&& (r.ack is Some <==> (!has_child_tagged(n, "pair-success"@) && attr_of(n, "id"@) is Some))
        &&& (r.ack matches Some(a) ==> {
            &&& a.tag@ == "iq"@
            &&& a.attrs@.len() == 3
            &&& a.attrs@[0].key@ == "type"@ && a.attrs@[0].value@ == "result"@
            &&& a.attrs@[1].key@ == "id"@ && Some(a.attrs@[1].value@) == attr_of(n, "id"@)
            &&& a.attrs@[2].key@ == "to"@ && a.attrs@[2].value@ == server_jid_text()
            &&& a.content is None
        })
        &&& r.resolve_waiter is None
        &&& !r.mark_logged_out
    } else {
        &&& !r.announce_connected
        &&& r.ack is None
        &&& (r.resolve_waiter is Some <==> (n.tag@ == "iq"@ && attr_of(n, "id"@) is Some))
        &&& (r.resolve_waiter matches Some(i) ==> Some(i@) == attr_of(n, "id"@))
        &&& r.mark_logged_out == (n.tag@ == "failure"@)
    }
}

/// How the connection routes an incoming node (see `routes`).
pub fn route_incoming(node: &Stanza) -> (r: IncomingRoute)
    ensures
        routes(*node, r),
{
    if node.tag_is("iq") && node.attr_is("type", "set") {
        let announce_connected = node.has_child("success");
        let ack = if !node.has_child("pair-success") {
            match node.get_attr("id") {
                Some(id) => Some(iq_ack(id.as_str())),
                None => None,
            }
        } else {
            None
        };
        return IncomingRoute { announce_connected, ack, resolve_waiter: None, mark_logged_out: false };
    }
    let resolve_waiter = if node.tag_is("iq") {
        match node.get_attr("id") {
            Some(id) => Some(id.clone()),
            None => None,
        }
    } else {
        None
    };
    IncomingRoute { announce_connected: false, ack: None, resolve_waiter, mark_logged_out: node.tag_is("failure") }
}

/// The Fibonacci numbers from 2, 2: the reconnect delays before the cap.
pub open spec fn fib2(n: nat) -> nat
    decreases n,
{
    if n <= 1 {
        2
    } else {
        fib2((n - 1) as nat) + fib2((n - 2) as nat)
    }
}

/// Reconnect delay in seconds for a reconnect attempt: Fibonacci steps from
/// 2 seconds, capped at 60; below the cap a jitter of up to a tenth of the
/// delay, chosen from the attempt number, is added or taken away (never
/// below 1 second).
pub open spec fn backoff_secs(attempt: nat) -> nat {
    let s = fib2(attempt);
    if s >= 60 {
        60
    } else {
        let j = s / 10;
        if j > 0 {
            let v = s + ((attempt * 17) % (2 * j + 1)) - j;
            if v >= 1 { v as nat } else { 1 }
        } else {
            s
        }
    }
}

proof fn lemma_fib2_grows(i: nat, j: nat)
    requires
        i <= j,
    ensures
        fib2(i) <= fib2(j),
        fib2(j) >= 2,
    decreases j,
{
    if j > 1 {
        lemma_fib2_grows(0, (j - 1) as nat);
        lemma_fib2_grows(0, (j - 2) as nat);
        if i < j {
            lemma_fib2_grows(i, (j - 1) as nat);
        }
    }
}

proof fn lemma_fib2_small()
    ensures
        fib2(0) == 2 && fib2(1) == 2 && fib2(2) == 4 && fib2(3) == 6 && fib2(4) == 10,
        fib2(5) == 16 && fib2(6) == 26 && fib2(7) == 42 && fib2(8) == 68,
{
    reveal_with_fuel(fib2, 10);
}

/// Fibonacci backoff with small jitter for reconnect delays, in seconds.
///
/// Starts at 2 seconds, caps at 60 seconds.
pub fn fibonacci_backoff(attempt: u64) -> (r: u64)
    ensures
        r == backoff_secs(attempt as nat),
        1 <= r <= 60,
{
    proof {
        lemma_fib2_small();
    }
    let secs: u64 = if attempt <= 1 {
        2
    } else {
        let mut a: u64 = 2;
        let mut b: u64 = 2;
        let mut k: u64 = 1;
        while k < attempt
            invariant
                1 <= k <= attempt,
                a == fib2((k - 1) as nat),
                b == fib2(k as nat),
                b < 60,
            decreases attempt - k,
        {
            let next = a.saturating_add(b);
            a = b;
            b = next;
            k = k + 1;
            if b >= 60 {
                proof {
                    lemma_fib2_grows(k as nat, attempt as nat);
                }
                return 60;
            }
        }
        b
    };
    assert(secs == fib2(attempt as nat));
    proof {
        if attempt >= 8 {
            lemma_fib2_grows(8, attempt as nat);
        }
    }
    assert(attempt < 8);
    let jitter: u64 = secs / 10;
    if jitter > 0 {
        let m: u64 = attempt * 17;
        let offset_up: u64 = m % (jitter * 2 + 1);
        let v: u64 = secs + offset_up - jitter;
        if v >= 1 { v } else { 1 }
    } else {
        secs
    }
}

/// The reconnect delay starts at 2 seconds (first and second attempt),
/// never leaves 1 ..= 60 seconds, and is exactly 60 from the eighth attempt
/// on.
pub proof fn lemma_backoff_bounds(attempt: nat)
    ensures
        attempt <= 1 ==> backoff_secs(attempt) == 2,
        attempt >= 8 ==> backoff_secs(attempt) == 60,
        1 <= backoff_secs(attempt) <= 60,
{
    lemma_fib2_small();
    if attempt >= 8 {
        lemma_fib2_grows(8, attempt);
    } else {
        assert(fib2(attempt) < 60);
        let s = fib2(attempt);
        let j = s / 10;
        assert(s <= 42 && j <= 4);
        assert((attempt * 17) % (2 * j + 1) <= 2 * j);
    }
}

/// What drives the connection runner on.
#[derive(Clone, Copy, Debug, PartialEq, Eq, Structural)]
pub enum RunnerEvent {
    /// The top of the runner loop, before a connect attempt.
    Begin,
    /// A connect attempt succeeded.
    Connected,
    /// A connect attempt failed.
    ConnectFailed,
    /// The read loop ended: cleanly (a disconnect command) or with an error.
    ReadLoopEnded { clean: bool },
}

/// What the connection runner does next.
#[derive(Clone, Copy, Debug, PartialEq, Eq, Structural)]
pub enum RunnerAction {
    /// Try to connect.
    Connect,
    /// Run the read loop.
    ReadLoop,
    /// Wait this many seconds, then begin again.
    Wait { secs: u64 },
    /// Stop, with an error or without.
    Stop { failed: bool },
}

/// The connection runner's state across reconnects.
#[derive(Clone, Copy, Debug)]
pub struct RunnerState {
    /// Reconnect attempts since the last successful connect.
    pub attempt: u64,
}

/// The runner's answer to a failure: stop with the error when
/// auto-reconnect is off, the session is logged out, or `max_attempts`
/// reconnects (a non-zero limit; 0 means unlimited) have already failed;
/// else wait out the backoff for the current attempt and count it.
pub open spec fn after_failure(attempt: u64, auto_reconnect: bool, logged_out: bool, max_attempts: u32) -> (u64, RunnerAction) {
    if !auto_reconnect || logged_out || (max_attempts != 0 && attempt >= max_attempts) {
        (attempt, RunnerAction::Stop { failed: true })
    } else {
        ((if attempt == u64::MAX { u64::MAX } else { (attempt + 1) as u64 }),
            RunnerAction::Wait { secs: backoff_secs(attempt as nat) as u64 })
    }
}

impl RunnerState {
    /// A runner that has not reconnected yet.
    pub fn new() -> (r: Self)
        ensures
            r.attempt == 0,
    {
        RunnerState { attempt: 0 }
    }

    /// The runner's next step.
    ///
    /// At the top of the loop a logged-out session stops cleanly, otherwise
    /// the runner connects.  A successful connect resets the attempt count
    /// and runs the read loop.  A clean end of the read loop stops cleanly.
    /// A failed connect or read loop is handled by `after_failure`, so with
    /// a non-zero `max_attempts` the runner stops once that many reconnects
    /// in a row have failed.
    pub fn step(&mut self, auto_reconnect: bool, logged_out: bool, max_attempts: u32, event: RunnerEvent) -> (r: RunnerAction)
        ensures
            match event {
                RunnerEvent::Begin => (final(self).attempt == old(self).attempt
                    && r == if logged_out { RunnerAction::Stop { failed: false } } else { RunnerAction::Connect }),
                RunnerEvent::Connected => final(self).attempt == 0 && r == RunnerAction::ReadLoop,
                RunnerEvent::ReadLoopEnded { clean: true } => final(self).attempt == old(self).attempt
                    && r == RunnerAction::Stop { failed: false },
                _ => (final(self).attempt, r) == after_failure(old(self).attempt, auto_reconnect, logged_out, max_attempts),
            },
    {
        match event {
            RunnerEvent::Begin => {
                if logged_out {
                    RunnerAction::Stop { failed: false }
                } else {
                    RunnerAction::Connect
                }
            },
            RunnerEvent::Connected => {
                self.attempt = 0;
                RunnerAction::ReadLoop
            },
            RunnerEvent::ReadLoopEnded { clean: true } => RunnerAction::Stop { failed: false },
            _ => {
                if !auto_reconnect || logged_out || (max_attempts != 0 && self.attempt >= max_attempts as u64) {
                    RunnerAction::Stop { failed: true }
                } else {
                    let secs = fibonacci_backoff(self.attempt);
                    self.attempt = self.attempt.saturating_add(1);
                    RunnerAction::Wait { secs }
                }
            },
        }
    }
}

/// What the read loop woke up for.
#[derive(Clone, Copy, Debug, PartialEq, Eq, Structural)]
pub enum LoopEvent {
    /// The transport delivered bytes.
    Data,
    /// The transport reported (again) that it is connected.
    TransportConnected,
    /// The transport reported that it disconnected.
    TransportDisconnected,
    /// The transport's event channel closed.
    EventsClosed,
    /// A node is to be sent.
    SendNode,
    /// A disconnect was asked for.
    DisconnectCommand,
    /// The command channel closed.
    CommandsClosed,
    /// The keepalive interval passed.
    KeepaliveDue,
}

/// What the read loop does about it.
#[derive(Debug)]
pub enum LoopAction {
    /// Feed the bytes to the frame decoder and process each whole frame.
    ProcessFrames,
    /// Send the node and report the result to the sender.
    Send,
    /// Send a keepalive ping.
    Ping,
    /// Keep going.
    Continue,
    /// End cleanly.
    Stop,
    /// End with this error.
    Fail(ConnectionError),
}

/// The read loop's answer to an event: frames are processed, nodes sent and
/// pings made as they come; a lost transport ends the loop with a socket
/// error; a disconnect command or a closed command channel ends it cleanly.
pub fn read_loop_step(event: LoopEvent) -> (r: LoopAction)
    ensures
        event == LoopEvent::Data ==> r is ProcessFrames,
        event == LoopEvent::SendNode ==> r is Send,
        event == LoopEvent::KeepaliveDue ==> r is Ping,
        event == LoopEvent::TransportConnected ==> r is Continue,
        event == LoopEvent::TransportDisconnected ==> (r matches LoopAction::Fail(ConnectionError::Socket(m))
            && m@ == "disconnected"@),
        event == LoopEvent::EventsClosed ==> (r matches LoopAction::Fail(ConnectionError::Socket(m))
            && m@ == "transport event channel closed"@),
        event == LoopEvent::DisconnectCommand || event == LoopEvent::CommandsClosed ==> r is Stop,
{
    match event {
        LoopEvent::Data => LoopAction::ProcessFrames,
        LoopEvent::TransportConnected => LoopAction::Continue,
        LoopEvent::TransportDisconnected => LoopAction::Fail(ConnectionError::Socket("disconnected".to_string())),
        LoopEvent::EventsClosed => LoopAction::Fail(ConnectionError::Socket("transport event channel closed".to_string())),
        LoopEvent::SendNode => LoopAction::Send,
        LoopEvent::DisconnectCommand => LoopAction::Stop,
        LoopEvent::CommandsClosed => LoopAction::Stop,
        LoopEvent::KeepaliveDue => LoopAction::Ping,
    }
}

/// A transport event while connecting or during the handshake.
#[derive(Clone, Copy, Debug, PartialEq, Eq, Structural)]
pub enum TransportSignal {
    Connected,
    Data,
    Disconnected,
    Closed,
}

/// The first transport event after dialing: a disconnect or a closed
/// channel fails the connect; anything else lets it go on.
pub fn check_connect_event(event: TransportSignal) -> (r: Result<(), ConnectionError>)
    ensures
        event == TransportSignal::Disconnected ==> (r matches Err(ConnectionError::Socket(m))
            && m@ == "transport disconnected during connect"@),
        event == TransportSignal::Closed ==> (r matches Err(ConnectionError::Socket(m))
            && m@ == "transport event channel closed during connect"@),
        event == TransportSignal::Connected || event == TransportSignal::Data ==> r is Ok,
{
    match event {
        TransportSignal::Disconnected => Err(ConnectionError::Socket("transport disconnected during connect".to_string())),
        TransportSignal::Closed => Err(ConnectionError::Socket("transport event channel closed during connect".to_string())),
        _ => Ok(()),
    }
}

/// A transport event (or `None` for the timeout) while waiting for the
/// server's handshake frame: data is decoded, a connect notice is skipped,
/// and a disconnect, a closed channel or the timeout fail the handshake.
pub fn check_handshake_event(event: Option<TransportSignal>) -> (r: Result<bool, ConnectionError>)
    ensures
        event == Some(TransportSignal::Data) ==> r == Ok::<bool, ConnectionError>(true),
        event == Some(TransportSignal::Connected) ==> r == Ok::<bool, ConnectionError>(false),
        event == Some(TransportSignal::Disconnected) ==> (r matches Err(ConnectionError::Socket(m))
            && m@ == "disconnected during handshake"@),
        event == Some(TransportSignal::Closed) ==> (r matches Err(ConnectionError::Socket(m))
            && m@ == "transport event channel closed during handshake"@),
        event is None ==> (r matches Err(ConnectionError::Socket(m)) && m@ == "handshake response timed out"@),
{
    match event {
        Some(TransportSignal::Data) => Ok(true),
        Some(TransportSignal::Connected) => Ok(false),
        Some(TransportSignal::Disconnected) => Err(ConnectionError::Socket("disconnected during handshake".to_string())),
        Some(TransportSignal::Closed) => Err(ConnectionError::Socket("transport event channel closed during handshake".to_string())),
        None => Err(ConnectionError::Socket("handshake response timed out".to_string())),
    }
}

} // verus!
