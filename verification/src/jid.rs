//! Jabber identifiers (JIDs) as the WhatsApp protocol uses them.

use vstd::prelude::*;

use crate::text::decimal_text;

verus! {

/// The server part of a JID.
#[derive(Clone, Copy, Debug, PartialEq, Eq, Structural)]
pub enum JidServer {
    Pn,
    Lid,
    Group,
    Broadcast,
    Newsletter,
    Hosted,
    HostedLid,
    Messenger,
    Interop,
    Bot,
    Legacy,
    Call,
}

/// A JID: `user[.agent][:device]@server`.
#[derive(Clone, Debug)]
pub struct Jid {
    pub user: String,
    pub server: JidServer,
    pub agent: u8,
    pub device: u16,
    pub integrator: u16,
}

/// The mathematical value of a JID: its user text and its numeric parts.
pub struct JidView {
    pub user: Seq<char>,
    pub server: JidServer,
    pub agent: u8,
    pub device: u16,
    pub integrator: u16,
}

impl View for Jid {
    type V = JidView;

    open spec fn view(&self) -> JidView {
        JidView {
            user: self.user@,
            server: self.server,
            agent: self.agent,
            device: self.device,
            integrator: self.integrator,
        }
    }
}

/// What `Jid::from_str` of wacore-binary yields for a text: the parsed JID,
/// or `None` where it reports an error.
pub uninterp spec fn parsed_jid(text: Seq<char>) -> Option<JidView>;

/// The name a server kind is written with after the `@`.
pub open spec fn server_text(server: JidServer) -> Seq<char> {
    match server {
        JidServer::Pn => "s.whatsapp.net"@,
        JidServer::Lid => "lid"@,
        JidServer::Group => "g.us"@,
        JidServer::Broadcast => "broadcast"@,
        JidServer::Newsletter => "newsletter"@,
        JidServer::Hosted => "hosted"@,
        JidServer::HostedLid => "hosted.lid"@,
        JidServer::Messenger => "msgr"@,
        JidServer::Interop => "interop"@,
        JidServer::Bot => "bot"@,
        JidServer::Legacy => "c.us"@,
        JidServer::Call => "call"@,
    }
}

/// Whether a JID on this server shows its agent: all but the phone-number
/// and LID servers and their hosted kinds.
pub open spec fn renders_agent(server: JidServer) -> bool {
    !(server is Pn || server is Lid || server is Hosted || server is HostedLid)
}

/// The text of a JID: the server's name alone for an empty user, else
/// `user`, `.agent` where the server shows a nonzero agent, `:device` for a
/// nonzero device, `@` and the server's name.
pub open spec fn jid_text(user: Seq<char>, server: JidServer, agent: u8, device: u16) -> Seq<char> {
    if user.len() == 0 {
        server_text(server)
    } else {
        let agent_part = if agent > 0 && renders_agent(server) { "."@ + decimal_text(agent as nat) } else { Seq::empty() };
        let device_part = if device > 0 { ":"@ + decimal_text(device as nat) } else { Seq::empty() };
        user + agent_part + device_part + "@"@ + server_text(server)
    }
}

/// Converts wacore-binary's server kind into this library's, variant for variant.
#[verifier::external_body]
fn server_from_wire(s: wacore_binary::Server) -> (r: JidServer) {
    match s {
        wacore_binary::Server::Pn => JidServer::Pn,
        wacore_binary::Server::Lid => JidServer::Lid,
        wacore_binary::Server::Group => JidServer::Group,
        wacore_binary::Server::Broadcast => JidServer::Broadcast,
        wacore_binary::Server::Newsletter => JidServer::Newsletter,
        wacore_binary::Server::Hosted => JidServer::Hosted,
        wacore_binary::Server::HostedLid => JidServer::HostedLid,
        wacore_binary::Server::Messenger => JidServer::Messenger,
        wacore_binary::Server::Interop => JidServer::Interop,
        wacore_binary::Server::Bot => JidServer::Bot,
        wacore_binary::Server::Legacy => JidServer::Legacy,
        wacore_binary::Server::Call => JidServer::Call,
    }
}

/// Converts this library's server kind into wacore-binary's, variant for variant.
#[verifier::external_body]
fn server_to_wire(s: JidServer) -> (r: wacore_binary::Server) {
    match s {
        JidServer::Pn => wacore_binary::Server::Pn,
        JidServer::Lid => wacore_binary::Server::Lid,
        JidServer::Group => wacore_binary::Server::Group,
        JidServer::Broadcast => wacore_binary::Server::Broadcast,
        JidServer::Newsletter => wacore_binary::Server::Newsletter,
        JidServer::Hosted => wacore_binary::Server::Hosted,
        JidServer::HostedLid => wacore_binary::Server::HostedLid,
        JidServer::Messenger => wacore_binary::Server::Messenger,
        JidServer::Interop => wacore_binary::Server::Interop,
        JidServer::Bot => wacore_binary::Server::Bot,
        JidServer::Legacy => wacore_binary::Server::Legacy,
        JidServer::Call => wacore_binary::Server::Call,
    }
}

/// wacore-binary's JID server kind.
#[verifier::external_type_specification]
#[verifier::external_body]
pub struct ExWireServer(wacore_binary::Server);

/// Parses a JID text with wacore-binary's `Jid::from_str`.
///
/// Trusted: the result is wacore-binary's parse of `text`, field for field;
/// which texts parse, and to what, is named (`parsed_jid`) and not restated.
#[verifier::external_body]
pub fn parse_jid(text: &str) -> (r: Option<Jid>)
    ensures
        r is None <==> parsed_jid(text@) is None,
        r matches Some(j) ==> parsed_jid(text@) == Some(j@),
{
    match text.parse::<wacore_binary::Jid>() {
        Ok(j) => Some(Jid {
            user: j.user.to_string(),
            server: server_from_wire(j.server),
            agent: j.agent,
            device: j.device,
            integrator: j.integrator,
        }),
        Err(_) => None,
    }
}

impl Jid {
    /// A copy of this JID.
    pub fn copy(&self) -> (r: Jid)
        ensures
            r == *self,
    {
        Jid { user: self.user.clone(), server: self.server, agent: self.agent, device: self.device, integrator: self.integrator }
    }

    /// A phone-number JID (`user@s.whatsapp.net`).
    pub fn pn(user: &str) -> (r: Jid)
        ensures
            r.user@ == user@,
            r.server == JidServer::Pn,
            r.agent == 0 && r.device == 0 && r.integrator == 0,
    {
        Jid { user: user.to_string(), server: JidServer::Pn, agent: 0, device: 0, integrator: 0 }
    }

    /// A group JID (`user@g.us`).
    pub fn group(user: &str) -> (r: Jid)
        ensures
            r.user@ == user@,
            r.server == JidServer::Group,
            r.agent == 0 && r.device == 0 && r.integrator == 0,
    {
        Jid { user: user.to_string(), server: JidServer::Group, agent: 0, device: 0, integrator: 0 }
    }

    /// The JID's text, as wacore-binary writes it with `push_jid_to_string`.
    ///
    /// Trusted: wacore-binary's `write_jid!` writes the parts `jid_text`
    /// lists, with `Server::as_str` for the server and `itoa` for the
    /// numbers.
    #[verifier::external_body]
    pub fn to_text(&self) -> (r: String)
        ensures
            r@ == jid_text(self.user@, self.server, self.agent, self.device),
    {
        let mut buf = String::new();
        wacore_binary::push_jid_to_string(&self.user, server_to_wire(self.server), self.agent, self.device, &mut buf);
        buf
    }
}

broadcast use vstd::string::group_string_axioms;

} // verus!
