//! Protocol nodes: the XML-like stanzas that the WhatsApp binary protocol
//! carries, with their attributes and content.

use vstd::prelude::*;

use crate::text::str_eq;

verus! {

broadcast use vstd::string::group_string_axioms;

/// One `key="value"` attribute of a node.  A JID value is held as its text.
#[derive(Clone, Debug)]
pub struct Attr {
    pub key: String,
    pub value: String,
}

/// The content of a node: raw bytes, text, or child nodes.
#[derive(Debug)]
pub enum StanzaContent {
    Bytes(Vec<u8>),
    Text(String),
    Nodes(Vec<Stanza>),
}

/// A protocol node: a tag, ordered attributes and optional content.
#[derive(Debug)]
pub struct Stanza {
    pub tag: String,
    pub attrs: Vec<Attr>,
    pub content: Option<StanzaContent>,
}

/// The text that `String::from_utf8_lossy` makes of `bytes`.
pub uninterp spec fn utf8_lossy_text(bytes: Seq<u8>) -> Seq<char>;

/// Decodes bytes as UTF-8, replacing invalid sequences with U+FFFD.
///
/// Trusted: calls `String::from_utf8_lossy`; the text is named
/// (`utf8_lossy_text`) and not restated.
#[verifier::external_body]
pub fn utf8_lossy(bytes: &[u8]) -> (r: String)
    ensures
        r@ == utf8_lossy_text(bytes@),
{
    String::from_utf8_lossy(bytes).into_owned()
}

/// The text content of a node: its text, or its bytes decoded lossily.
pub open spec fn content_text(n: Stanza) -> Option<Seq<char>> {
    match n.content {
        Some(StanzaContent::Text(t)) => Some(t@),
        Some(StanzaContent::Bytes(b)) => Some(utf8_lossy_text(b@)),
        _ => None,
    }
}

/// The value of the first attribute named `key`, as `Attrs::get` finds it.
pub open spec fn attr_lookup(attrs: Seq<Attr>, key: Seq<char>) -> Option<Seq<char>>
    decreases attrs.len(),
{
    if attrs.len() == 0 {
        None
    } else if attrs[0].key@ == key {
        Some(attrs[0].value@)
    } else {
        attr_lookup(attrs.drop_first(), key)
    }
}

/// The children of a node whose content is a list of nodes; empty otherwise.
pub open spec fn child_nodes(n: Stanza) -> Seq<Stanza> {
    match n.content {
        Some(StanzaContent::Nodes(v)) => v@,
        _ => Seq::empty(),
    }
}

/// Whether the node's content is a list of nodes.
pub open spec fn has_child_list(n: Stanza) -> bool {
    n.content matches Some(StanzaContent::Nodes(_))
}

/// The index of the first node in `s` tagged `tag`.
pub open spec fn first_tagged(s: Seq<Stanza>, tag: Seq<char>) -> Option<int>
    decreases s.len(),
{
    if s.len() == 0 {
        None
    } else if s[0].tag@ == tag {
        Some(0)
    } else {
        match first_tagged(s.drop_first(), tag) {
            Some(i) => Some(i + 1),
            None => None,
        }
    }
}

/// The first child of `n` tagged `tag`, as `Stanza::get_optional_child` finds it.
pub open spec fn child_with_tag(n: Stanza, tag: Seq<char>) -> Option<Stanza> {
    match first_tagged(child_nodes(n), tag) {
        Some(i) => Some(child_nodes(n)[i]),
        None => None,
    }
}

/// The attributes as key/value text pairs, in order.
pub open spec fn attr_pairs(attrs: Seq<Attr>) -> Seq<(Seq<char>, Seq<char>)> {
    attrs.map_values(|a: Attr| (a.key@, a.value@))
}

/// The attribute `key` of node `n`.
pub open spec fn attr_of(n: Stanza, key: Seq<char>) -> Option<Seq<char>> {
    attr_lookup(n.attrs@, key)
}

/// Whether some child of `n` is tagged `tag`.
pub open spec fn has_child_tagged(n: Stanza, tag: Seq<char>) -> bool {
    first_tagged(child_nodes(n), tag) is Some
}

pub proof fn lemma_first_tagged(s: Seq<Stanza>, tag: Seq<char>)
    ensures
        first_tagged(s, tag) matches Some(i) ==> 0 <= i < s.len() && s[i].tag@ == tag
            && forall|j: int| 0 <= j < i ==> s[j].tag@ != tag,
        first_tagged(s, tag) is None ==> forall|j: int| 0 <= j < s.len() ==> s[j].tag@ != tag,
    decreases s.len(),
{
    if s.len() > 0 {
        lemma_first_tagged(s.drop_first(), tag);
        if first_tagged(s, tag) is None {
            assert forall|j: int| 0 <= j < s.len() implies s[j].tag@ != tag by {
                if j > 0 {
                    assert(s[j] == s.drop_first()[j - 1]);
                }
            }
        }
        if let Some(i) = first_tagged(s, tag) {
            if i > 0 {
                assert forall|j: int| 0 <= j < i implies s[j].tag@ != tag by {
                    if j > 0 {
                        assert(s[j] == s.drop_first()[j - 1]);
                    }
                }
            }
        }
    }
}

/// Finds the index of the first node in `nodes` tagged `tag`.
pub fn find_tagged(nodes: &Vec<Stanza>, tag: &str) -> (r: Option<usize>)
    ensures
        r is None <==> first_tagged(nodes@, tag@) is None,
        r matches Some(j) ==> first_tagged(nodes@, tag@) == Some(j as int) && j < nodes@.len(),
{
    proof {
        lemma_first_tagged(nodes@, tag@);
    }
    let mut i: usize = 0;
    while i < nodes.len()
        invariant
            0 <= i <= nodes@.len(),
            forall|j: int| 0 <= j < i ==> nodes@[j].tag@ != tag@,
            first_tagged(nodes@, tag@) matches Some(k) ==> 0 <= k < nodes@.len() && nodes@[k].tag@ == tag@
                && forall|j: int| 0 <= j < k ==> nodes@[j].tag@ != tag@,
            first_tagged(nodes@, tag@) is None ==> forall|j: int| 0 <= j < nodes@.len() ==> nodes@[j].tag@ != tag@,
        decreases nodes.len() - i,
    {
        if str_eq(nodes[i].tag.as_str(), tag) {
            return Some(i);
        }
        i = i + 1;
    }
    None
}

proof fn lemma_attr_lookup(attrs: Seq<Attr>, key: Seq<char>, i: int)
    requires
        0 <= i <= attrs.len(),
        forall|j: int| 0 <= j < i ==> attrs[j].key@ != key,
    ensures
        attr_lookup(attrs, key) == attr_lookup(attrs.skip(i), key),
    decreases i,
{
    if i > 0 {
        lemma_attr_lookup(attrs.drop_first(), key, i - 1);
        assert(attrs.drop_first().skip(i - 1) =~= attrs.skip(i));
    } else {
        assert(attrs.skip(0) =~= attrs);
    }
}

impl Stanza {
    /// A node with the given tag, no attributes and no content.
    pub fn new(tag: &str) -> (r: Stanza)
        ensures
            r.tag@ == tag@,
            r.attrs@.len() == 0,
            r.content is None,
    {
        Stanza { tag: tag.to_string(), attrs: Vec::new(), content: None }
    }

    /// This node with `key="value"` appended to its attributes.
    pub fn with_attr(self, key: &str, value: &str) -> (r: Stanza)
        ensures
            r.tag == self.tag,
            r.content == self.content,
            r.attrs@.len() == self.attrs@.len() + 1,
            r.attrs@.drop_last() == self.attrs@,
            r.attrs@.last().key@ == key@,
            r.attrs@.last().value@ == value@,
    {
        let mut n = self;
        n.attrs.push(Attr { key: key.to_string(), value: value.to_string() });
        n
    }

    /// This node with the given child nodes as its content.
    pub fn with_children(self, children: Vec<Stanza>) -> (r: Stanza)
        ensures
            r.tag == self.tag,
            r.attrs == self.attrs,
            r.content == Some(StanzaContent::Nodes(children)),
    {
        Stanza { tag: self.tag, attrs: self.attrs, content: Some(StanzaContent::Nodes(children)) }
    }

    /// This node with the given bytes as its content.
    pub fn with_bytes(self, bytes: Vec<u8>) -> (r: Stanza)
        ensures
            r.tag == self.tag,
            r.attrs == self.attrs,
            r.content == Some(StanzaContent::Bytes(bytes)),
    {
        Stanza { tag: self.tag, attrs: self.attrs, content: Some(StanzaContent::Bytes(bytes)) }
    }

    /// The value of the first attribute named `key`.
    pub fn get_attr(&self, key: &str) -> (r: Option<&String>)
        ensures
            match attr_of(*self, key@) {
                Some(v) => r is Some && r.unwrap()@ == v,
                None => r is None,
            },
    {
        let mut i: usize = 0;
        while i < self.attrs.len()
            invariant
                0 <= i <= self.attrs@.len(),
                forall|j: int| 0 <= j < i ==> self.attrs@[j].key@ != key@,
            decreases self.attrs.len() - i,
        {
            if str_eq(self.attrs[i].key.as_str(), key) {
                proof {
                    lemma_attr_lookup(self.attrs@, key@, i as int);
                }
                return Some(&self.attrs[i].value);
            }
            i = i + 1;
        }
        proof {
            lemma_attr_lookup(self.attrs@, key@, i as int);
        }
        None
    }

    /// Whether the attribute `key` is present and equal to `value`.
    pub fn attr_is(&self, key: &str, value: &str) -> (r: bool)
        ensures
            r == (attr_of(*self, key@) == Some(value@)),
    {
        match self.get_attr(key) {
            Some(v) => str_eq(v.as_str(), value),
            None => false,
        }
    }

    /// The child nodes, when the content is a list of nodes.
    pub fn children(&self) -> (r: Option<&Vec<Stanza>>)
        ensures
            has_child_list(*self) <==> r is Some,
            r matches Some(v) ==> v@ == child_nodes(*self),
    {
        match &self.content {
            Some(StanzaContent::Nodes(v)) => Some(v),
            _ => None,
        }
    }

    /// The first child tagged `tag`.
    pub fn get_optional_child(&self, tag: &str) -> (r: Option<&Stanza>)
        ensures
            match child_with_tag(*self, tag@) {
                Some(c) => r is Some && *r.unwrap() == c,
                None => r is None,
            },
    {
        match &self.content {
            Some(StanzaContent::Nodes(v)) => {
                proof {
                    lemma_first_tagged(v@, tag@);
                }
                let found = find_tagged(v, tag);
                assert(child_nodes(*self) == v@);
                match found {
                    Some(i) => {
                        Some(&v[i])
                    },
                    None => None,
                }
            },
            _ => {
                assert(child_nodes(*self) =~= Seq::<Stanza>::empty());
                None
            },
        }
    }

    /// Whether some child is tagged `tag`.
    pub fn has_child(&self, tag: &str) -> (r: bool)
        ensures
            r == has_child_tagged(*self, tag@),
    {
        match &self.content {
            Some(StanzaContent::Nodes(v)) => find_tagged(v, tag).is_some(),
            _ => false,
        }
    }

    /// The text content: text as is, bytes decoded lossily as UTF-8.
    pub fn content_as_string(&self) -> (r: Option<String>)
        ensures
            r is None <==> content_text(*self) is None,
            r matches Some(t) ==> content_text(*self) == Some(t@),
    {
        match &self.content {
            Some(StanzaContent::Text(t)) => Some(t.clone()),
            Some(StanzaContent::Bytes(b)) => Some(utf8_lossy(b.as_slice())),
            _ => None,
        }
    }

    /// Whether this node's tag is `tag`.
    pub fn tag_is(&self, tag: &str) -> (r: bool)
        ensures
            r == (self.tag@ == tag@),
    {
        str_eq(self.tag.as_str(), tag)
    }
}

} // verus!
