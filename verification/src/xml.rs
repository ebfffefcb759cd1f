//! The element trees of compiler and processor specifications, as they come out of
//! an XML parser.

use vstd::prelude::*;
use vstd::string::*;
use vstd::utf8::*;
use crate::error::KunaError;
use crate::text::same_text;

verus! {

/// An element: its name, its attributes in document order, its child elements in
/// document order. Attribute values are the bytes of the document.
#[derive(Debug)]
pub struct Element {
    pub name: String,
    pub attributes: Vec<(String, Vec<u8>)>,
    pub children: Vec<Element>,
}

/// A specification document: none, one that could not be parsed, or its root element.
pub enum SpecDocument {
    Absent,
    Malformed(KunaError),
    Root(Element),
}

/// What reading bytes as text comes to: the text they encode where they are valid
/// UTF-8, else the text in which each ill-formed part is replaced.
pub uninterp spec fn lossy_text(bytes: Seq<u8>) -> Seq<char>;

/// Calls `String::from_utf8_lossy`. Claimed of it: the text depends on the bytes
/// alone, and valid UTF-8 comes out as the text that it encodes. What stands for an
/// ill-formed part is not stated.
#[verifier::external_body]
fn lossy_string(bytes: &Vec<u8>) -> (r: String)
    ensures
        r@ == lossy_text(bytes@),
        valid_utf8(bytes@) ==> r@ == decode_utf8(bytes@),
{
    String::from_utf8_lossy(bytes).into_owned()
}

/// The text that bytes stand for: what they encode where they are valid UTF-8, else what
/// a lossy reading makes of them.
pub open spec fn text_of(bytes: Seq<u8>) -> Seq<char> {
    if valid_utf8(bytes) {
        decode_utf8(bytes)
    } else {
        lossy_text(bytes)
    }
}

/// The text that bytes stand for.
pub fn read_text(bytes: &Vec<u8>) -> (r: String)
    ensures
        r@ == text_of(bytes@),
{
    lossy_string(bytes)
}

/// Calls `String::from_utf8`. Claimed of it: it succeeds exactly on valid UTF-8, and
/// then gives the text that the bytes encode.
#[verifier::external_body]
fn strict_string(bytes: &Vec<u8>) -> (r: Option<String>)
    ensures
        r is Some <==> valid_utf8(bytes@),
        r is Some ==> (r->0)@ == decode_utf8(bytes@),
{
    String::from_utf8(bytes.clone()).ok()
}

/// The first child from `i` on that has this name.
pub open spec fn child_from(el: Element, nm: Seq<char>, i: int) -> Option<int>
    decreases el.children@.len() - i,
{
    if i < 0 || i >= el.children@.len() {
        None
    } else if el.children@[i].name@ == nm {
        Some(i)
    } else {
        child_from(el, nm, i + 1)
    }
}

/// The first child that has this name.
pub open spec fn child_named(el: Element, nm: Seq<char>) -> Option<Element> {
    match child_from(el, nm, 0) {
        Some(i) => Some(el.children@[i]),
        None => None,
    }
}

/// What is found from `i` on is a child of that name, and none between has the name.
pub proof fn law_child_is_the_first(el: Element, nm: Seq<char>, i: int)
    requires
        0 <= i <= el.children@.len(),
    ensures
        match child_from(el, nm, i) {
            Some(k) => i <= k < el.children@.len() && el.children@[k].name@ == nm && forall|j: int|
                i <= j < k ==> (#[trigger] el.children@[j]).name@ != nm,
            None => forall|j: int|
                i <= j < el.children@.len() ==> (#[trigger] el.children@[j]).name@ != nm,
        },
    decreases el.children@.len() - i,
{
    if i < el.children@.len() {
        law_child_is_the_first(el, nm, i + 1);
    }
}

/// The place of the first child, from `from` on, that has this name.
pub fn find_place(el: &Element, nm: &str, from: usize) -> (r: Option<usize>)
    ensures
        match r {
            Some(i) => i < el.children@.len() && child_from(*el, nm@, from as int) == Some(
                i as int,
            ),
            None => child_from(*el, nm@, from as int) is None,
        },
{
    let mut i: usize = from;
    while i < el.children.len()
        invariant
            child_from(*el, nm@, from as int) == child_from(*el, nm@, i as int),
        decreases el.children@.len() - i,
    {
        if same_text(el.children[i].name.as_str(), nm) {
            return Some(i);
        }
        i += 1;
    }
    None
}

/// The first child that has this name.
pub fn find_child<'a>(el: &'a Element, nm: &str) -> (r: Option<&'a Element>)
    ensures
        match r {
            Some(c) => child_named(*el, nm@) == Some(*c),
            None => child_named(*el, nm@) is None,
        },
{
    match find_place(el, nm, 0) {
        Some(i) => Some(&el.children[i]),
        None => None,
    }
}

/// The first attribute from `i` on that has this name.
pub open spec fn attribute_from(el: Element, nm: Seq<char>, i: int) -> Option<int>
    decreases el.attributes@.len() - i,
{
    if i < 0 || i >= el.attributes@.len() {
        None
    } else if el.attributes@[i].0@ == nm {
        Some(i)
    } else {
        attribute_from(el, nm, i + 1)
    }
}

/// The bytes of the attribute with this name.
pub open spec fn attribute_bytes(el: Element, nm: Seq<char>) -> Option<Seq<u8>> {
    match attribute_from(el, nm, 0) {
        Some(i) => Some(el.attributes@[i].1@),
        None => None,
    }
}

/// The text of the attribute with this name.
pub open spec fn attribute_text(el: Element, nm: Seq<char>) -> Option<Seq<char>> {
    match attribute_bytes(el, nm) {
        Some(b) => Some(text_of(b)),
        None => None,
    }
}

/// The text of the attribute with this name, where its bytes are valid UTF-8.
pub open spec fn attribute_strict_text(el: Element, nm: Seq<char>) -> Option<Seq<char>> {
    match attribute_bytes(el, nm) {
        Some(b) => if valid_utf8(b) {
            Some(decode_utf8(b))
        } else {
            None
        },
        None => None,
    }
}

/// The place of the attribute with this name.
pub fn find_attribute(el: &Element, nm: &str) -> (r: Option<usize>)
    ensures
        match r {
            Some(i) => i < el.attributes@.len() && attribute_from(*el, nm@, 0) == Some(i as int),
            None => attribute_from(*el, nm@, 0) is None,
        },
{
    let mut i: usize = 0;
    while i < el.attributes.len()
        invariant
            i <= el.attributes@.len(),
            attribute_from(*el, nm@, 0) == attribute_from(*el, nm@, i as int),
        decreases el.attributes@.len() - i,
    {
        if same_text(el.attributes[i].0.as_str(), nm) {
            return Some(i);
        }
        i += 1;
    }
    None
}

/// The text of the attribute with this name.
pub fn attr_str(el: &Element, nm: &str) -> (r: Option<String>)
    ensures
        match r {
            Some(s) => attribute_text(*el, nm@) == Some(s@),
            None => attribute_text(*el, nm@) is None,
        },
{
    match find_attribute(el, nm) {
        Some(i) => Some(read_text(&el.attributes[i].1)),
        None => None,
    }
}

/// The text of the attribute with this name, where its bytes are valid UTF-8.
pub fn attr_strict(el: &Element, nm: &str) -> (r: Option<String>)
    ensures
        match r {
            Some(s) => attribute_strict_text(*el, nm@) == Some(s@),
            None => attribute_strict_text(*el, nm@) is None,
        },
{
    match find_attribute(el, nm) {
        Some(i) => strict_string(&el.attributes[i].1),
        None => None,
    }
}

/// The truth values of a specification attribute: `true`, `yes` and `1`.
pub open spec fn bool_attr(v: Seq<char>) -> bool {
    v == "true"@ || v == "yes"@ || v == "1"@
}

/// Whether the text of a boolean attribute means true; any other text means false.
pub fn decode_bool_attr(v: &str) -> (r: bool)
    ensures
        r == bool_attr(v@),
{
    same_text(v, "true") || same_text(v, "yes") || same_text(v, "1")
}

/// The places, before `n`, of the children that have this name, in document order.
pub open spec fn places_named(el: Element, nm: Seq<char>, n: int) -> Seq<int>
    decreases n,
{
    if n <= 0 {
        seq![]
    } else if el.children@[n - 1].name@ == nm {
        places_named(el, nm, n - 1).push(n - 1)
    } else {
        places_named(el, nm, n - 1)
    }
}

/// The places of the children that have this name, in document order.
pub fn children_named(el: &Element, nm: &str) -> (r: Vec<usize>)
    ensures
        r@.map_values(|i: usize| i as int) == places_named(
            *el,
            nm@,
            el.children@.len() as int,
        ),
{
    let mut r: Vec<usize> = Vec::new();
    let mut i: usize = 0;
    assert(r@.map_values(|i: usize| i as int) =~= seq![]);
    while i < el.children.len()
        invariant
            i <= el.children@.len(),
            r@.map_values(|i: usize| i as int) == places_named(*el, nm@, i as int),
        decreases el.children@.len() - i,
    {
        if same_text(el.children[i].name.as_str(), nm) {
            r.push(i);
            assert(r@.map_values(|i: usize| i as int) =~= places_named(*el, nm@, i + 1));
        }
        i += 1;
    }
    r
}

} // verus!
