//! The chat and contact cache a session keeps besides its protocol stores.
//!
//! Chats and contacts are keyed by the text of their JID, as the protocol
//! writes it.

use vstd::prelude::*;

use crate::jid::{Jid, jid_text};
use crate::text::str_eq;

verus! {

broadcast use vstd::string::group_string_axioms;

/// A chat entry cached in the session.
#[derive(Clone, Debug)]
pub struct ChatEntry {
    /// The JID of the chat.
    pub jid: Jid,
    /// The display name of the chat, if known.
    pub name: Option<String>,
    /// The chat type: "user", "group", "newsletter", or "other".
    pub kind: String,
}

impl ChatEntry {
    /// A copy of this entry.
    pub fn copy(&self) -> (r: ChatEntry)
        ensures
            r == *self,
    {
        let name = match &self.name {
            Some(n) => Some(n.clone()),
            None => None,
        };
        ChatEntry { jid: self.jid.copy(), name, kind: self.kind.clone() }
    }
}

/// The key a JID is cached under: its text.
pub open spec fn jid_key(j: Jid) -> Seq<char> {
    jid_text(j.user@, j.server, j.agent, j.device)
}

/// Whether no key occurs twice in `keys`.
pub open spec fn keys_unique(keys: Seq<Seq<char>>) -> bool {
    forall|i: int, j: int| 0 <= i < j < keys.len() ==> keys[i] != keys[j]
}

/// Chats keyed by the text of their JID, at most one per key.
pub struct ChatCache {
    keys: Vec<String>,
    entries: Vec<ChatEntry>,
}

impl ChatCache {
    /// The keys, in storage order.
    pub closed spec fn key_seq(&self) -> Seq<Seq<char>> {
        self.keys@.map_values(|k: String| k@)
    }

    /// Keys and entries line up and no key occurs twice.
    pub closed spec fn wf(&self) -> bool {
        &&& self.keys@.len() == self.entries@.len()
        &&& keys_unique(self.key_seq())
        &&& forall|i: int| 0 <= i < self.keys@.len() ==> #[trigger] self.keys@[i]@ == jid_key(self.entries@[i].jid)
    }

    /// The position of key `k`.
    spec fn key_index(&self, k: Seq<char>) -> int {
        choose|i: int| 0 <= i < self.keys@.len() && self.keys@[i]@ == k
    }

    /// The cached chats as a map from key to entry.
    pub closed spec fn view(&self) -> Map<Seq<char>, ChatEntry> {
        Map::new(
            |k: Seq<char>| exists|i: int| 0 <= i < self.keys@.len() && self.keys@[i]@ == k,
            |k: Seq<char>| self.entries@[self.key_index(k)],
        )
    }

    /// The cached entries, in storage order.
    pub closed spec fn entry_seq(&self) -> Seq<ChatEntry> {
        self.entries@
    }

    proof fn lemma_view_at(&self, i: int)
        requires
            self.wf(),
            0 <= i < self.keys@.len(),
        ensures
            self.view().dom().contains(self.keys@[i]@),
            self.view()[self.keys@[i]@] == self.entries@[i],
    {
        let k = self.keys@[i]@;
        assert(exists|j: int| 0 <= j < self.keys@.len() && self.keys@[j]@ == k);
        let c = self.key_index(k);
        assert(0 <= c < self.keys@.len() && self.keys@[c]@ == k);
        assert(self.key_seq()[c] == self.keys@[c]@);
        assert(self.key_seq()[i] == self.keys@[i]@);
        if c != i {
            if c < i {
                assert(self.key_seq()[c] != self.key_seq()[i]);
            } else {
                assert(self.key_seq()[i] != self.key_seq()[c]);
            }
        }
        assert(self.view()[k] == self.entries@[c]);
    }

    /// An empty cache.
    pub fn new() -> (r: Self)
        ensures
            r.wf(),
            r.view() == Map::<Seq<char>, ChatEntry>::empty(),
            r.entry_seq().len() == 0,
    {
        let r = ChatCache { keys: Vec::new(), entries: Vec::new() };
        assert(r.view() =~= Map::<Seq<char>, ChatEntry>::empty());
        r
    }

    /// The position of `key`, if cached.
    fn find(&self, key: &str) -> (r: Option<usize>)
        requires
            self.wf(),
        ensures
            r is None ==> !self.view().dom().contains(key@),
            r matches Some(i) ==> i < self.keys@.len() && self.keys@[i as int]@ == key@,
    {
        let mut i: usize = 0;
        while i < self.keys.len()
            invariant
                self.wf(),
                0 <= i <= self.keys@.len(),
                forall|j: int| 0 <= j < i ==> self.keys@[j]@ != key@,
            decreases self.keys.len() - i,
        {
            if str_eq(self.keys[i].as_str(), key) {
                return Some(i);
            }
            i = i + 1;
        }
        None
    }

    /// The chat cached under `jid`'s text.
    pub fn get_chat(&self, jid: &Jid) -> (r: Option<ChatEntry>)
        requires
            self.wf(),
        ensures
            r is Some <==> self.view().dom().contains(jid_key(*jid)),
            r matches Some(e) ==> e == self.view()[jid_key(*jid)],
    {
        let key = jid.to_text();
        match self.find(key.as_str()) {
            Some(i) => {
                proof {
                    self.lemma_view_at(i as int);
                }
                Some(self.entries[i].copy())
            },
            None => None,
        }
    }

    /// Cache `chat` under its JID's text, replacing any entry there.
    pub fn cache_chat(&mut self, chat: &ChatEntry)
        requires
            old(self).wf(),
        ensures
            final(self).wf(),
            final(self).view() == old(self).view().insert(jid_key(chat.jid), *chat),
    {
        let key = chat.jid.to_text();
        let entry = chat.copy();
        match self.find(key.as_str()) {
            Some(i) => {
                let ghost old_self = *self;
                self.entries.set(i, entry);
                proof {
                    assert(self.keys@ == old_self.keys@);
                    assert(self.key_seq() == old_self.key_seq());
                    old_self.lemma_view_at(i as int);
                    assert forall|j: int| 0 <= j < self.keys@.len() implies
                        #[trigger] self.keys@[j]@ == jid_key(self.entries@[j].jid) by {
                        if j != i {
                            assert(old_self.keys@[j]@ == jid_key(old_self.entries@[j].jid));
                        }
                    }
                    assert(self.wf());
                    assert forall|k: Seq<char>| self.view().dom().contains(k) implies
                        old_self.view().insert(key@, *chat).dom().contains(k)
                        && self.view()[k] == old_self.view().insert(key@, *chat)[k] by {
                        let j = choose|j: int| 0 <= j < self.keys@.len() && self.keys@[j]@ == k;
                        self.lemma_view_at(j);
                        if j != i {
                            old_self.lemma_view_at(j);
                            assert(self.key_seq()[j] == self.keys@[j]@);
                            assert(self.key_seq()[i as int] == self.keys@[i as int]@);
                            if j < i {
                                assert(self.key_seq()[j] != self.key_seq()[i as int]);
                            } else {
                                assert(self.key_seq()[i as int] != self.key_seq()[j]);
                            }
                        }
                    }
                    assert forall|k: Seq<char>| old_self.view().insert(key@, *chat).dom().contains(k) implies
                        self.view().dom().contains(k) by {
                        if k == key@ {
                            assert(self.keys@[i as int]@ == k);
                        } else {
                            let j = choose|j: int| 0 <= j < old_self.keys@.len() && old_self.keys@[j]@ == k;
                            assert(self.keys@[j]@ == k);
                        }
                    }
                    assert(self.view() =~= old_self.view().insert(key@, *chat));
                }
            },
            None => {
                let ghost old_self = *self;
                self.keys.push(key);
                self.entries.push(entry);
                proof {
                    assert(self.key_seq() =~= old_self.key_seq().push(key@));
                    assert forall|a: int, b: int| 0 <= a < b < self.key_seq().len() implies
                        self.key_seq()[a] != self.key_seq()[b] by {
                        if b == old_self.keys@.len() {
                            assert(old_self.key_seq()[a] == old_self.keys@[a]@);
                            assert(!old_self.view().dom().contains(key@));
                            if old_self.key_seq()[a] == key@ {
                                assert(old_self.keys@[a]@ == key@);
                            }
                        }
                    }
                    assert forall|j: int| 0 <= j < self.keys@.len() implies
                        #[trigger] self.keys@[j]@ == jid_key(self.entries@[j].jid) by {
                        if j < old_self.keys@.len() {
                            assert(old_self.keys@[j]@ == jid_key(old_self.entries@[j].jid));
                        }
                    }
                    assert(self.wf());
                    assert forall|k: Seq<char>| self.view().dom().contains(k) implies
                        self.view()[k] == old_self.view().insert(key@, *chat)[k] by {
                        let j = choose|j: int| 0 <= j < self.keys@.len() && self.keys@[j]@ == k;
                        self.lemma_view_at(j);
                        if j < old_self.keys@.len() {
                            old_self.lemma_view_at(j);
                        }
                    }
                    assert forall|k: Seq<char>| old_self.view().insert(key@, *chat).dom().contains(k) implies
                        self.view().dom().contains(k) by {
                        if k != key@ {
                            let j = choose|j: int| 0 <= j < old_self.keys@.len() && old_self.keys@[j]@ == k;
                            assert(self.keys@[j]@ == k);
                        } else {
                            assert(self.keys@[self.keys@.len() - 1]@ == k);
                        }
                    }
                    assert(self.view() =~= old_self.view().insert(key@, *chat));
                }
            },
        }
    }

    /// Drop the chat cached under `jid`'s text, if any.
    pub fn remove_chat(&mut self, jid: &Jid)
        requires
            old(self).wf(),
        ensures
            final(self).wf(),
            final(self).view() == old(self).view().remove(jid_key(*jid)),
    {
        let key = jid.to_text();
        match self.find(key.as_str()) {
            Some(i) => {
                let ghost old_self = *self;
                self.keys.remove(i);
                self.entries.remove(i);
                proof {
                    assert(self.key_seq() =~= old_self.key_seq().remove(i as int));
                    assert forall|a: int, b: int| 0 <= a < b < self.key_seq().len() implies
                        self.key_seq()[a] != self.key_seq()[b] by {
                        let oa = if a < i { a } else { a + 1 };
                        let ob = if b < i { b } else { b + 1 };
                        assert(self.key_seq()[a] == old_self.key_seq()[oa]);
                        assert(self.key_seq()[b] == old_self.key_seq()[ob]);
                    }
                    assert forall|j: int| 0 <= j < self.keys@.len() implies
                        #[trigger] self.keys@[j]@ == jid_key(self.entries@[j].jid) by {
                        let oj = if j < i { j } else { j + 1 };
                        assert(self.keys@[j] == old_self.keys@[oj]);
                        assert(old_self.keys@[oj]@ == jid_key(old_self.entries@[oj].jid));
                    }
                    assert(self.wf());
                    assert forall|k: Seq<char>| #![trigger self.view().dom().contains(k)] self.view().dom().contains(k) implies
                        old_self.view().remove(key@).dom().contains(k)
                        && self.view()[k] == old_self.view().remove(key@)[k] by {
                        let j = choose|j: int| 0 <= j < self.keys@.len() && self.keys@[j]@ == k;
                        self.lemma_view_at(j);
                        let oj = if j < i { j } else { j + 1 };
                        assert(self.keys@[j] == old_self.keys@[oj]);
                        old_self.lemma_view_at(oj);
                        assert(old_self.key_seq()[oj] == old_self.keys@[oj]@);
                        assert(old_self.key_seq()[i as int] == old_self.keys@[i as int]@);
                        if oj < i {
                            assert(old_self.key_seq()[oj] != old_self.key_seq()[i as int]);
                        } else {
                            assert(old_self.key_seq()[i as int] != old_self.key_seq()[oj]);
                        }
                        assert(k != key@);
                    }
                    assert forall|k: Seq<char>| #![trigger old_self.view().remove(key@).dom().contains(k)] old_self.view().remove(key@).dom().contains(k) implies
                        self.view().dom().contains(k) by {
                        assert(old_self.view().dom().contains(k) && k != key@);
                        let oj = choose|j: int| 0 <= j < old_self.keys@.len() && old_self.keys@[j]@ == k;
                        assert(0 <= oj < old_self.keys@.len() && old_self.keys@[oj]@ == k);
                        assert(oj != i);
                        let j = if oj < i { oj } else { oj - 1 };
                        assert(self.keys@[j] == old_self.keys@[oj]);
                        assert(0 <= j < self.keys@.len() && self.keys@[j]@ == k);
                        assert(self.view().dom().contains(k));
                    }
                    assert(self.view().dom() =~= old_self.view().remove(key@).dom());
                    assert(self.view() =~= old_self.view().remove(key@));
                }
            },
            None => {
                assert(self.view() =~= self.view().remove(key@));
            },
        }
    }

    /// All cached chats, each once.
    pub fn get_chats(&self) -> (r: Vec<ChatEntry>)
        requires
            self.wf(),
        ensures
            r@ == self.entry_seq(),
            r@.len() == self.view().len(),
            forall|i: int| 0 <= i < r@.len() ==> self.view()[jid_key(#[trigger] r@[i].jid)] == r@[i]
                && self.view().dom().contains(jid_key(r@[i].jid)),
    {
        let mut out: Vec<ChatEntry> = Vec::new();
        let mut i: usize = 0;
        while i < self.entries.len()
            invariant
                self.wf(),
                0 <= i <= self.entries@.len(),
                out@ == self.entries@.take(i as int),
            decreases self.entries.len() - i,
        {
            out.push(self.entries[i].copy());
            i = i + 1;
            assert(out@ =~= self.entries@.take(i as int));
        }
        assert(self.entries@.take(i as int) =~= self.entries@);
        proof {
            assert forall|i: int| 0 <= i < out@.len() implies self.view()[jid_key(#[trigger] out@[i].jid)] == out@[i]
                && self.view().dom().contains(jid_key(out@[i].jid)) by {
                self.lemma_view_at(i);
            }
            self.lemma_len();
        }
        out
    }

    proof fn lemma_len(&self)
        requires
            self.wf(),
        ensures
            self.view().len() == self.keys@.len(),
    {
        let ks = self.key_seq();
        assert(self.view().dom() =~= ks.to_set()) by {
            assert forall|k: Seq<char>| self.view().dom().contains(k) implies ks.to_set().contains(k) by {
                let j = choose|j: int| 0 <= j < self.keys@.len() && self.keys@[j]@ == k;
                assert(ks[j] == k);
            }
            assert forall|k: Seq<char>| ks.to_set().contains(k) implies self.view().dom().contains(k) by {
                let j = choose|j: int| 0 <= j < ks.len() && ks[j] == k;
                assert(self.keys@[j]@ == k);
            }
        }
        assert(ks.no_duplicates());
        ks.unique_seq_to_set();
    }
}

/// Contact JIDs, keyed by their text, each once.
pub struct ContactSet {
    keys: Vec<String>,
}

impl ContactSet {
    /// The contacts' keys as a set.
    pub closed spec fn view(&self) -> Set<Seq<char>> {
        self.keys@.map_values(|k: String| k@).to_set()
    }

    /// An empty contact set.
    pub fn new() -> (r: Self)
        ensures
            r.view() == Set::<Seq<char>>::empty(),
    {
        let r = ContactSet { keys: Vec::new() };
        assert(r.view() =~= Set::<Seq<char>>::empty());
        r
    }

    fn contains_key(&self, key: &str) -> (r: bool)
        ensures
            r == self.view().contains(key@),
    {
        let ghost ks = self.keys@.map_values(|k: String| k@);
        let mut i: usize = 0;
        while i < self.keys.len()
            invariant
                0 <= i <= self.keys@.len(),
                ks == self.keys@.map_values(|k: String| k@),
                forall|j: int| 0 <= j < i ==> self.keys@[j]@ != key@,
            decreases self.keys.len() - i,
        {
            if str_eq(self.keys[i].as_str(), key) {
                assert(ks[i as int] == key@);
                return true;
            }
            i = i + 1;
        }
        assert(!ks.contains(key@)) by {
            if ks.contains(key@) {
                let j = choose|j: int| 0 <= j < ks.len() && ks[j] == key@;
                assert(self.keys@[j]@ == key@);
            }
        }
        false
    }

    /// Add a contact.
    pub fn add_contact(&mut self, jid: &Jid)
        ensures
            final(self).view() == old(self).view().insert(jid_key(*jid)),
    {
        let key = jid.to_text();
        if !self.contains_key(key.as_str()) {
            let ghost old_ks = self.keys@.map_values(|k: String| k@);
            self.keys.push(key);
            proof {
                assert(self.keys@.map_values(|k: String| k@) =~= old_ks.push(jid_key(*jid)));
                let nk = old_ks.push(jid_key(*jid));
                assert forall|a: Seq<char>| nk.to_set().contains(a) implies old_ks.to_set().insert(jid_key(*jid)).contains(a) by {
                    let j = choose|j: int| 0 <= j < nk.len() && nk[j] == a;
                    if j < old_ks.len() {
                        assert(old_ks[j] == a);
                    }
                }
                assert forall|a: Seq<char>| old_ks.to_set().insert(jid_key(*jid)).contains(a) implies nk.to_set().contains(a) by {
                    if a == jid_key(*jid) {
                        assert(nk[old_ks.len() as int] == a);
                    } else {
                        let j = choose|j: int| 0 <= j < old_ks.len() && old_ks[j] == a;
                        assert(nk[j] == a);
                    }
                }
                assert(nk.to_set() =~= old_ks.to_set().insert(jid_key(*jid)));
            }
        } else {
            assert(self.view() =~= self.view().insert(jid_key(*jid)));
        }
    }

    /// Whether `jid` is a known contact.
    pub fn is_contact(&self, jid: &Jid) -> (r: bool)
        ensures
            r == self.view().contains(jid_key(*jid)),
    {
        let key = jid.to_text();
        self.contains_key(key.as_str())
    }
}

/// In-memory session storage for chats and contacts.  All data is lost when
/// the process exits.
pub struct MemorySession {
    chats: ChatCache,
    contacts: ContactSet,
}

impl MemorySession {
    /// The cached chats, by key.
    pub closed spec fn chats(&self) -> Map<Seq<char>, ChatEntry> {
        self.chats.view()
    }

    /// The contacts' keys.
    pub closed spec fn contacts(&self) -> Set<Seq<char>> {
        self.contacts.view()
    }

    /// The session's internal consistency.
    pub closed spec fn wf(&self) -> bool {
        self.chats.wf()
    }

    /// Create a new empty `MemorySession`.
    pub fn new() -> (r: Self)
        ensures
            r.wf(),
            r.chats() == Map::<Seq<char>, ChatEntry>::empty(),
            r.contacts() == Set::<Seq<char>>::empty(),
    {
        MemorySession { chats: ChatCache::new(), contacts: ContactSet::new() }
    }

    /// Add a contact JID to the contacts set.
    pub fn add_contact(&mut self, jid: &Jid)
        ensures
            final(self).wf() == old(self).wf(),
            final(self).chats() == old(self).chats(),
            final(self).contacts() == old(self).contacts().insert(jid_key(*jid)),
    {
        self.contacts.add_contact(jid);
    }

    /// Look up a cached chat by JID.
    pub fn get_chat(&self, jid: &Jid) -> (r: Option<ChatEntry>)
        requires
            self.wf(),
        ensures
            r is Some <==> self.chats().dom().contains(jid_key(*jid)),
            r matches Some(e) ==> e == self.chats()[jid_key(*jid)],
    {
        self.chats.get_chat(jid)
    }

    /// Cache or update a chat entry.
    pub fn cache_chat(&mut self, chat: &ChatEntry)
        requires
            old(self).wf(),
        ensures
            final(self).wf(),
            final(self).chats() == old(self).chats().insert(jid_key(chat.jid), *chat),
            final(self).contacts() == old(self).contacts(),
    {
        self.chats.cache_chat(chat);
    }

    /// Return all cached chats.
    pub fn get_chats(&self) -> (r: Vec<ChatEntry>)
        requires
            self.wf(),
        ensures
            r@.len() == self.chats().len(),
            forall|i: int| 0 <= i < r@.len() ==> self.chats().dom().contains(jid_key(#[trigger] r@[i].jid))
                && self.chats()[jid_key(r@[i].jid)] == r@[i],
    {
        self.chats.get_chats()
    }

    /// Remove a chat from the cache.
    pub fn remove_chat(&mut self, jid: &Jid)
        requires
            old(self).wf(),
        ensures
            final(self).wf(),
            final(self).chats() == old(self).chats().remove(jid_key(*jid)),
            final(self).contacts() == old(self).contacts(),
    {
        self.chats.remove_chat(jid);
    }

    /// Whether the given JID is a known contact.
    pub fn is_contact(&self, jid: &Jid) -> (r: bool)
        ensures
            r == self.contacts().contains(jid_key(*jid)),
    {
        self.contacts.is_contact(jid)
    }
}

/// Reading after caching: once `entry` is cached, looking up its JID finds
/// it, and every other JID finds what it found before.
pub proof fn lemma_read_after_cache(
    before: Map<Seq<char>, ChatEntry>,
    after: Map<Seq<char>, ChatEntry>,
    entry: ChatEntry,
    other: Jid,
)
    requires
        after == before.insert(jid_key(entry.jid), entry),
    ensures
        after.dom().contains(jid_key(entry.jid)) && after[jid_key(entry.jid)] == entry,
        jid_key(other) != jid_key(entry.jid) ==> (after.dom().contains(jid_key(other)) == before.dom().contains(jid_key(other))
            && (before.dom().contains(jid_key(other)) ==> after[jid_key(other)] == before[jid_key(other)])),
{
}

/// Reading after removing: once a JID's chat is removed, looking it up
/// finds nothing, and every other JID finds what it found before.
pub proof fn lemma_read_after_remove(
    before: Map<Seq<char>, ChatEntry>,
    after: Map<Seq<char>, ChatEntry>,
    removed: Jid,
    other: Jid,
)
    requires
        after == before.remove(jid_key(removed)),
    ensures
        !after.dom().contains(jid_key(removed)),
        jid_key(other) != jid_key(removed) ==> (after.dom().contains(jid_key(other)) == before.dom().contains(jid_key(other))
            && (before.dom().contains(jid_key(other)) ==> after[jid_key(other)] == before[jid_key(other)])),
{
}

/// A contact stays known once added: adding others keeps it.
pub proof fn lemma_contact_stays_known(before: Set<Seq<char>>, after: Set<Seq<char>>, added: Jid, known: Jid)
    requires
        after == before.insert(jid_key(added)),
        before.contains(jid_key(known)) || jid_key(known) == jid_key(added),
    ensures
        after.contains(jid_key(known)),
{
}

} // verus!
