//! The message-body data model: a tree of named elements, each carrying text,
//! CDATA, numeric or boolean content and a list of child elements. This is the
//! shape of every request and reply body; rendering it to wire text and
//! parsing wire text back is the transport's concern, not this library's.

use vstd::prelude::*;
use vstd::string::StrSliceExecFns;

verus! {

/// The content carried by one element, besides its children.
#[derive(Debug, PartialEq)]
pub enum Content {
    Nothing,
    Text(String),
    Cdata(String),
    Int(i64),
    Uint(u64),
    Bool(bool),
}

/// One node of a message tree: a name, content, and child elements.
#[derive(Debug, PartialEq)]
pub struct Element {
    pub name: String,
    pub content: Content,
    pub children: Vec<Element>,
}

/// The element is a leaf named `name` with plain text `text`.
pub open spec fn spec_text_el(e: Element, name: Seq<char>, text: Seq<char>) -> bool {
    &&& e.name@ == name
    &&& match e.content {
        Content::Text(s) => s@ == text,
        _ => false,
    }
    &&& e.children@.len() == 0
}

/// The element is a leaf named `name` with CDATA text `text`.
pub open spec fn spec_cdata_el(e: Element, name: Seq<char>, text: Seq<char>) -> bool {
    &&& e.name@ == name
    &&& match e.content {
        Content::Cdata(s) => s@ == text,
        _ => false,
    }
    &&& e.children@.len() == 0
}

/// The element is a leaf named `name` holding the signed number `v`.
pub open spec fn spec_int_el(e: Element, name: Seq<char>, v: i64) -> bool {
    &&& e.name@ == name
    &&& e.content == Content::Int(v)
    &&& e.children@.len() == 0
}

/// The element is a leaf named `name` holding the unsigned number `v`.
pub open spec fn spec_uint_el(e: Element, name: Seq<char>, v: u64) -> bool {
    &&& e.name@ == name
    &&& e.content == Content::Uint(v)
    &&& e.children@.len() == 0
}

/// The element is a leaf named `name` holding the boolean `v`.
pub open spec fn spec_bool_el(e: Element, name: Seq<char>, v: bool) -> bool {
    &&& e.name@ == name
    &&& e.content == Content::Bool(v)
    &&& e.children@.len() == 0
}

/// The element is named `name` and carries nothing at all.
pub open spec fn spec_empty_el(e: Element, name: Seq<char>) -> bool {
    &&& e.name@ == name
    &&& e.content == Content::Nothing
    &&& e.children@.len() == 0
}

impl Element {
    /// A leaf element with plain text content.
    pub fn text(name: &str, text: String) -> (e: Element)
        ensures
            spec_text_el(e, name@, text@),
    {
        Element { name: name.to_owned(), content: Content::Text(text), children: Vec::new() }
    }

    /// A leaf element with CDATA content.
    pub fn cdata(name: &str, text: String) -> (e: Element)
        ensures
            spec_cdata_el(e, name@, text@),
    {
        Element { name: name.to_owned(), content: Content::Cdata(text), children: Vec::new() }
    }

    /// A leaf element holding a signed number.
    pub fn num(name: &str, v: i64) -> (e: Element)
        ensures
            spec_int_el(e, name@, v),
    {
        Element { name: name.to_owned(), content: Content::Int(v), children: Vec::new() }
    }

    /// A leaf element holding an unsigned number.
    pub fn uint(name: &str, v: u64) -> (e: Element)
        ensures
            spec_uint_el(e, name@, v),
    {
        Element { name: name.to_owned(), content: Content::Uint(v), children: Vec::new() }
    }

    /// A leaf element holding a boolean.
    pub fn flag(name: &str, v: bool) -> (e: Element)
        ensures
            spec_bool_el(e, name@, v),
    {
        Element { name: name.to_owned(), content: Content::Bool(v), children: Vec::new() }
    }

    /// An element with a name and nothing else.
    pub fn empty(name: &str) -> (e: Element)
        ensures
            spec_empty_el(e, name@),
    {
        Element { name: name.to_owned(), content: Content::Nothing, children: Vec::new() }
    }

    /// An element holding the given children.
    pub fn node(name: &str, children: Vec<Element>) -> (e: Element)
        ensures
            e.name@ == name@,
            e.content == Content::Nothing,
            e.children == children,
    {
        Element { name: name.to_owned(), content: Content::Nothing, children }
    }

    /// The first child with the given name, if any.
    pub fn find_child(&self, name: &str) -> (r: Option<&Element>)
        ensures
            match r {
                Some(e) => spec_find_child(self.children@, name@) == Some(*e),
                None => spec_find_child(self.children@, name@) is None,
            },
    {
        find_in(&self.children, name)
    }

    /// The text carried by the first child with the given name, if that child
    /// holds text or CDATA.
    pub fn child_text(&self, name: &str) -> (r: Option<String>)
        ensures
            match r {
                Some(t) => spec_child_text(self.children@, name@) == Some(t@),
                None => spec_child_text(self.children@, name@) is None,
            },
    {
        match find_in(&self.children, name) {
            None => None,
            Some(e) => match &e.content {
                Content::Text(s) => Some(s.clone()),
                Content::Cdata(s) => Some(s.clone()),
                _ => None,
            },
        }
    }

    /// The unsigned number carried by the first child with the given name:
    /// either directly, or as decimal text.
    pub fn child_u64(&self, name: &str) -> (r: Option<u64>)
        ensures
            r == spec_child_u64(self.children@, name@),
    {
        match find_in(&self.children, name) {
            None => None,
            Some(e) => match &e.content {
                Content::Uint(n) => Some(*n),
                Content::Text(s) => parse_u64(s.as_str()),
                _ => None,
            },
        }
    }

    /// The boolean carried by the first child with the given name: either
    /// directly, or as the text `true` / `false`.
    pub fn child_bool(&self, name: &str) -> (r: Option<bool>)
        ensures
            r == spec_child_bool(self.children@, name@),
    {
        match find_in(&self.children, name) {
            None => None,
            Some(e) => match &e.content {
                Content::Bool(b) => Some(*b),
                Content::Text(s) => parse_bool(s.as_str()),
                _ => None,
            },
        }
    }
}

/// The first element of `s` named `name`, front to back.
pub open spec fn spec_find_child(s: Seq<Element>, name: Seq<char>) -> Option<Element>
    decreases s.len(),
{
    if s.len() == 0 {
        None
    } else if s[0].name@ == name {
        Some(s[0])
    } else {
        spec_find_child(s.drop_first(), name)
    }
}

/// The text carried by the first child of `s` named `name`.
pub open spec fn spec_child_text(s: Seq<Element>, name: Seq<char>) -> Option<Seq<char>> {
    match spec_find_child(s, name) {
        None => None,
        Some(e) => match e.content {
            Content::Text(t) => Some(t@),
            Content::Cdata(t) => Some(t@),
            _ => None,
        },
    }
}

/// The unsigned number carried by the first child of `s` named `name`.
pub open spec fn spec_child_u64(s: Seq<Element>, name: Seq<char>) -> Option<u64> {
    match spec_find_child(s, name) {
        None => None,
        Some(e) => match e.content {
            Content::Uint(n) => Some(n),
            Content::Text(t) => spec_parse_u64(t@),
            _ => None,
        },
    }
}

/// The boolean carried by the first child of `s` named `name`.
pub open spec fn spec_child_bool(s: Seq<Element>, name: Seq<char>) -> Option<bool> {
    match spec_find_child(s, name) {
        None => None,
        Some(e) => match e.content {
            Content::Bool(b) => Some(b),
            Content::Text(t) => spec_parse_bool(t@),
            _ => None,
        },
    }
}

/// The first element of a list with the given name, if any.
pub fn find_in<'a>(children: &'a Vec<Element>, name: &str) -> (r: Option<&'a Element>)
    ensures
        match r {
            Some(e) => spec_find_child(children@, name@) == Some(*e),
            None => spec_find_child(children@, name@) is None,
        },
{
    let mut i: usize = 0;
    proof {
        assert(children@.skip(0) =~= children@);
    }
    while i < children.len()
        invariant
            i <= children@.len(),
            spec_find_child(children@, name@) == spec_find_child(
                children@.skip(i as int),
                name@,
            ),
        decreases children@.len() - i,
    {
        if crate::outside::str_eq(children[i].name.as_str(), name) {
            proof {
                assert(children@.skip(i as int)[0] == children@[i as int]);
            }
            return Some(&children[i]);
        }
        proof {
            assert(children@.skip(i as int).drop_first() =~= children@.skip(i + 1 as int));
            assert(children@.skip(i as int)[0] == children@[i as int]);
        }
        i = i + 1;
    }
    proof {
        assert(children@.skip(children@.len() as int).len() == 0);
    }
    None
}

/// Every character of `s` is a decimal digit, and there is at least one.
pub open spec fn is_dec_digits(s: Seq<char>) -> bool {
    s.len() > 0 && forall|i: int| 0 <= i < s.len() ==> '0' <= #[trigger] s[i] <= '9'
}

/// The value of a decimal digit string, most significant digit first.
pub open spec fn dec_val(s: Seq<char>) -> int
    decreases s.len(),
{
    if s.len() == 0 {
        0
    } else {
        dec_val(s.drop_last()) * 10 + (s.last() as int - '0' as int)
    }
}

/// The number denoted by a decimal string, if it is one and fits in `u64`.
pub open spec fn spec_parse_u64(s: Seq<char>) -> Option<u64> {
    if is_dec_digits(s) && dec_val(s) <= u64::MAX {
        Some(dec_val(s) as u64)
    } else {
        None
    }
}

/// The boolean denoted by the text `true` or `false`, if either.
pub open spec fn spec_parse_bool(s: Seq<char>) -> Option<bool> {
    if s == "true"@ {
        Some(true)
    } else if s == "false"@ {
        Some(false)
    } else {
        None
    }
}

/// A digit string's value only grows as digits are appended.
proof fn lemma_dec_val_prefix_le(s: Seq<char>, i: int)
    requires
        0 <= i <= s.len(),
        forall|j: int| 0 <= j < s.len() ==> '0' <= #[trigger] s[j] <= '9',
    ensures
        dec_val(s.take(i)) <= dec_val(s),
        dec_val(s.take(i)) >= 0,
    decreases s.len() - i,
{
    if i == s.len() {
        assert(s.take(i) == s);
        lemma_dec_val_nonneg(s);
    } else {
        assert(s.take(i + 1).drop_last() =~= s.take(i));
        assert(s.take(i + 1).last() == s[i]);
        lemma_dec_val_nonneg(s.take(i));
        lemma_dec_val_prefix_le(s, i + 1);
    }
}

/// A digit string's value is never negative.
proof fn lemma_dec_val_nonneg(s: Seq<char>)
    requires
        forall|j: int| 0 <= j < s.len() ==> '0' <= #[trigger] s[j] <= '9',
    ensures
        dec_val(s) >= 0,
    decreases s.len(),
{
    if s.len() > 0 {
        lemma_dec_val_nonneg(s.drop_last());
    }
}

/// Parses a decimal digit string into a `u64`; anything else, including
/// overflow, yields `None`.
pub fn parse_u64(s: &str) -> (r: Option<u64>)
    ensures
        r == spec_parse_u64(s@),
{
    let n = s.unicode_len();
    if n == 0 {
        return None;
    }
    let mut acc: u64 = 0;
    let mut i: usize = 0;
    while i < n
        invariant
            n == s@.len(),
            0 < n,
            i <= n,
            forall|j: int| 0 <= j < i ==> '0' <= #[trigger] s@[j] <= '9',
            acc == dec_val(s@.take(i as int)),
        decreases n - i,
    {
        let c = s.get_char(i);
        if c < '0' || c > '9' {
            return None;
        }
        let d: u64 = (c as u32 as u64) - ('0' as u32 as u64);
        proof {
            assert(s@.take(i + 1 as int).drop_last() =~= s@.take(i as int));
            assert(s@.take(i + 1 as int).last() == s@[i as int]);
        }
        if acc > (u64::MAX - d) / 10 {
            proof {
                assert(acc * 10 + d > u64::MAX);
                if is_dec_digits(s@) {
                    lemma_dec_val_prefix_le(s@, i + 1);
                }
            }
            return None;
        }
        acc = acc * 10 + d;
        i = i + 1;
    }
    proof {
        assert(s@.take(n as int) == s@);
    }
    Some(acc)
}

/// Parses the text `true` or `false` into a boolean; anything else is `None`.
pub fn parse_bool(s: &str) -> (r: Option<bool>)
    ensures
        r == spec_parse_bool(s@),
{
    if crate::outside::str_eq(s, "true") {
        Some(true)
    } else if crate::outside::str_eq(s, "false") {
        Some(false)
    } else {
        None
    }
}

} // verus!
