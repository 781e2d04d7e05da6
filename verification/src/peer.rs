//! Conversation targets: users, groups, newsletters and other chats.

use vstd::prelude::*;

use crate::jid::{Jid, JidServer};

verus! {

/// A private 1:1 conversation with a WhatsApp user.
#[derive(Clone, Debug)]
pub struct User {
    pub jid: Jid,
    pub name: Option<String>,
    pub push_name: Option<String>,
    pub phone_number: Option<String>,
}

/// A group conversation.
#[derive(Clone, Debug)]
pub struct Group {
    pub jid: Jid,
    pub subject: Option<String>,
}

/// A newsletter (channel) conversation.
#[derive(Clone, Debug)]
pub struct Newsletter {
    pub jid: Jid,
    pub name: Option<String>,
}

/// A conversation with an unrecognised JID server type.
#[derive(Clone, Debug)]
pub struct OtherChat {
    pub jid: Jid,
}

/// The universal conversation target.
#[derive(Clone, Debug)]
pub enum Chat {
    User(User),
    Group(Group),
    Newsletter(Newsletter),
    Other(OtherChat),
}

impl User {
    /// A user with the given JID and no known names.
    pub fn new(jid: Jid) -> (r: Self)
        ensures
            r.jid == jid && r.name is None && r.push_name is None && r.phone_number is None,
    {
        User { jid, name: None, push_name: None, phone_number: None }
    }

    /// The JID of this user.
    pub fn jid(&self) -> (r: &Jid)
        ensures
            *r == self.jid,
    {
        &self.jid
    }

    /// The business name or saved name for this user, if known.
    pub fn name(&self) -> (r: Option<&String>)
        ensures
            r matches Some(n) ==> self.name == Some(*n),
            r is None <==> self.name is None,
    {
        self.name.as_ref()
    }

    /// The push name (display name) the user set for themselves, if known.
    pub fn push_name(&self) -> (r: Option<&String>)
        ensures
            r matches Some(n) ==> self.push_name == Some(*n),
            r is None <==> self.push_name is None,
    {
        self.push_name.as_ref()
    }

    /// The phone number of this user, if known.
    pub fn phone_number(&self) -> (r: Option<&String>)
        ensures
            r matches Some(n) ==> self.phone_number == Some(*n),
            r is None <==> self.phone_number is None,
    {
        self.phone_number.as_ref()
    }

    /// Set the push name.
    pub fn set_push_name(&mut self, name: String)
        ensures
            final(self).push_name == Some(name),
            final(self).jid == old(self).jid,
            final(self).name == old(self).name,
            final(self).phone_number == old(self).phone_number,
    {
        self.push_name = Some(name);
    }
}

impl Group {
    /// A group with the given JID and no known subject.
    pub fn new(jid: Jid) -> (r: Self)
        ensures
            r.jid == jid && r.subject is None,
    {
        Group { jid, subject: None }
    }

    /// The JID of this group.
    pub fn id(&self) -> (r: &Jid)
        ensures
            *r == self.jid,
    {
        &self.jid
    }

    /// The group subject (name), if known.
    pub fn subject(&self) -> (r: Option<&String>)
        ensures
            r matches Some(n) ==> self.subject == Some(*n),
            r is None <==> self.subject is None,
    {
        self.subject.as_ref()
    }
}

impl Newsletter {
    /// A newsletter with the given JID and no known name.
    pub fn new(jid: Jid) -> (r: Self)
        ensures
            r.jid == jid && r.name is None,
    {
        Newsletter { jid, name: None }
    }

    /// The JID of this newsletter.
    pub fn id(&self) -> (r: &Jid)
        ensures
            *r == self.jid,
    {
        &self.jid
    }

    /// The newsletter name, if known.
    pub fn name(&self) -> (r: Option<&String>)
        ensures
            r matches Some(n) ==> self.name == Some(*n),
            r is None <==> self.name is None,
    {
        self.name.as_ref()
    }
}

impl OtherChat {
    /// A chat on an unrecognised server.
    pub fn new(jid: Jid) -> (r: Self)
        ensures
            r.jid == jid,
    {
        OtherChat { jid }
    }

    /// The JID of this chat.
    pub fn id(&self) -> (r: &Jid)
        ensures
            *r == self.jid,
    {
        &self.jid
    }
}

/// The JID of any chat.
pub open spec fn chat_jid(c: Chat) -> Jid {
    match c {
        Chat::User(u) => u.jid,
        Chat::Group(g) => g.jid,
        Chat::Newsletter(n) => n.jid,
        Chat::Other(o) => o.jid,
    }
}

/// The best-effort display name of a chat.
pub open spec fn chat_name(c: Chat) -> Option<String> {
    match c {
        Chat::User(u) => if u.name is Some { u.name } else { u.push_name },
        Chat::Group(g) => g.subject,
        Chat::Newsletter(n) => n.name,
        Chat::Other(_) => None,
    }
}

/// The chat kind a JID's server stands for: phone-number and LID users are
/// users, `g.us` is a group, `newsletter` a newsletter, the rest other chats.
pub open spec fn chat_for_jid_spec(jid: Jid) -> Chat {
    match jid.server {
        JidServer::Pn | JidServer::Lid => Chat::User(User { jid, name: None, push_name: None, phone_number: None }),
        JidServer::Group => Chat::Group(Group { jid, subject: None }),
        JidServer::Newsletter => Chat::Newsletter(Newsletter { jid, name: None }),
        _ => Chat::Other(OtherChat { jid }),
    }
}

/// A chat made for a JID is that JID's chat, and its kind is the JID's
/// server's: `g.us` gives a group, the phone-number and LID servers a user,
/// `newsletter` a newsletter, and only the other servers an other chat.
pub proof fn lemma_chat_kind_follows_server(jid: Jid)
    ensures
        chat_jid(chat_for_jid_spec(jid)) == jid,
        chat_for_jid_spec(jid) is Group <==> jid.server is Group,
        chat_for_jid_spec(jid) is User <==> (jid.server is Pn || jid.server is Lid),
        chat_for_jid_spec(jid) is Newsletter <==> jid.server is Newsletter,
        chat_for_jid_spec(jid) is Other <==> !(jid.server is Group || jid.server is Pn || jid.server is Lid
            || jid.server is Newsletter),
        jid.server is Group ==> chat_for_jid_spec(jid) == Chat::Group(Group { jid, subject: None }),
{
}

/// Maps a JID to the chat variant for its server.
pub fn chat_for_jid(jid: Jid) -> (r: Chat)
    ensures
        r == chat_for_jid_spec(jid),
{
    match jid.server {
        JidServer::Pn | JidServer::Lid => Chat::User(User::new(jid)),
        JidServer::Group => Chat::Group(Group::new(jid)),
        JidServer::Newsletter => Chat::Newsletter(Newsletter::new(jid)),
        _ => Chat::Other(OtherChat::new(jid)),
    }
}

impl Chat {
    /// The JID of this chat, regardless of variant.
    pub fn id(&self) -> (r: &Jid)
        ensures
            *r == chat_jid(*self),
    {
        match self {
            Chat::User(u) => u.jid(),
            Chat::Group(g) => g.id(),
            Chat::Newsletter(n) => n.id(),
            Chat::Other(o) => o.id(),
        }
    }

    /// Best-effort display name: user name or push name, group subject,
    /// newsletter name; none for other chats.
    pub fn name(&self) -> (r: Option<&String>)
        ensures
            r matches Some(n) ==> chat_name(*self) == Some(*n),
            r is None <==> chat_name(*self) is None,
    {
        match self {
            Chat::User(u) => match u.name() {
                Some(n) => Some(n),
                None => u.push_name(),
            },
            Chat::Group(g) => g.subject(),
            Chat::Newsletter(n) => n.name(),
            Chat::Other(_) => None,
        }
    }

    /// Whether this chat is a private 1:1 user conversation.
    pub fn is_user(&self) -> (r: bool)
        ensures
            r == (*self is User),
    {
        match self {
            Chat::User(_) => true,
            _ => false,
        }
    }

    /// Whether this chat is a group conversation.
    pub fn is_group(&self) -> (r: bool)
        ensures
            r == (*self is Group),
    {
        match self {
            Chat::Group(_) => true,
            _ => false,
        }
    }

    /// Whether this chat is a newsletter (channel).
    pub fn is_newsletter(&self) -> (r: bool)
        ensures
            r == (*self is Newsletter),
    {
        match self {
            Chat::Newsletter(_) => true,
            _ => false,
        }
    }
}

} // verus!
