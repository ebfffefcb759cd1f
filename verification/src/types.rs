//! What the configuration hands the data-type factory: the core types, the sizes that a
//! compiler specification gives, and the sizes that follow from the address spaces.

use vstd::prelude::*;
use vstd::string::*;
use crate::cspec::has_stack_space;
use crate::error::{Failure, KunaError};
use crate::space::{engine_wf, space_from, Engine, EngineView};
use crate::text::{i32_value, parse_i32, same_text, trim, trimmed};
use crate::xml::{
    attr_strict, attribute_strict_text, child_named, find_child, Element, SpecDocument,
};

verus! {

/// What kind of value a core type holds.
#[derive(Debug, Clone, Copy, PartialEq, Eq, Structural)]
pub enum TypeMetatype {
    Void,
    Bool,
    Uint,
    Int,
    Float,
    Unknown,
    Code,
}

/// The core types: name, size, kind of value, whether it is a character.
pub const CORE_TYPES: [(&'static str, i32, TypeMetatype, bool); 22] = [
    ("void", 1, TypeMetatype::Void, false),
    ("bool", 1, TypeMetatype::Bool, false),
    ("uint1", 1, TypeMetatype::Uint, false),
    ("uint2", 2, TypeMetatype::Uint, false),
    ("uint4", 4, TypeMetatype::Uint, false),
    ("uint8", 8, TypeMetatype::Uint, false),
    ("int1", 1, TypeMetatype::Int, false),
    ("int2", 2, TypeMetatype::Int, false),
    ("int4", 4, TypeMetatype::Int, false),
    ("int8", 8, TypeMetatype::Int, false),
    ("float4", 4, TypeMetatype::Float, false),
    ("float8", 8, TypeMetatype::Float, false),
    ("float10", 10, TypeMetatype::Float, false),
    ("float16", 16, TypeMetatype::Float, false),
    ("xunknown1", 1, TypeMetatype::Unknown, false),
    ("xunknown2", 2, TypeMetatype::Unknown, false),
    ("xunknown4", 4, TypeMetatype::Unknown, false),
    ("xunknown8", 8, TypeMetatype::Unknown, false),
    ("code", 1, TypeMetatype::Code, false),
    ("char", 1, TypeMetatype::Int, true),
    ("wchar2", 2, TypeMetatype::Int, true),
    ("wchar4", 4, TypeMetatype::Int, true),
];

/// How many core types there are.
pub const CORE_TYPE_COUNT: usize = 22;

/// A core type.
#[derive(Debug, Clone, Copy)]
pub struct CoreType {
    pub name: &'static str,
    pub size: i32,
    pub metatype: TypeMetatype,
    pub is_char: bool,
}

/// What contracts say of a [`CoreType`].
pub struct CoreTypeView {
    pub name: Seq<char>,
    pub size: i32,
    pub metatype: TypeMetatype,
    pub is_char: bool,
}

impl View for CoreType {
    type V = CoreTypeView;

    open spec fn view(&self) -> CoreTypeView {
        CoreTypeView {
            name: self.name@,
            size: self.size,
            metatype: self.metatype,
            is_char: self.is_char,
        }
    }
}

/// What contracts say of a list of core types.
pub open spec fn core_type_views(v: Seq<CoreType>) -> Seq<CoreTypeView> {
    v.map_values(|t: CoreType| t@)
}

/// The core types, in the order in which they are set.
pub open spec fn core_types() -> Seq<CoreTypeView> {
    Seq::new(
        CORE_TYPE_COUNT as nat,
        |i: int|
            CoreTypeView {
                name: CORE_TYPES@[i].0@,
                size: CORE_TYPES@[i].1,
                metatype: CORE_TYPES@[i].2,
                is_char: CORE_TYPES@[i].3,
            },
    )
}

/// The core types to set: none where the host has sent its own.
pub open spec fn types_to_set(from_host: bool) -> Option<Seq<CoreTypeView>> {
    if from_host {
        None
    } else {
        Some(core_types())
    }
}

/// The host's own core types take the place of all others.
pub proof fn law_host_types_replace_all(from_host: bool)
    ensures
        from_host <==> types_to_set(from_host) is None,
        !from_host ==> types_to_set(from_host) == Some(core_types()),
{
}

/// The core types to set, in this order. `None` where the host has sent its own, which
/// are to be decoded instead.
pub fn build_core_types(from_host: bool) -> (r: Option<Vec<CoreType>>)
    ensures
        from_host ==> r is None,
        !from_host ==> r is Some && core_type_views((r->0)@) == core_types(),
        match r {
            Some(v) => types_to_set(from_host) == Some(core_type_views(v@)),
            None => types_to_set(from_host) is None,
        },
{
    if from_host {
        return None;
    }
    let mut r: Vec<CoreType> = Vec::new();
    let mut i: usize = 0;
    while i < CORE_TYPE_COUNT
        invariant
            i <= CORE_TYPE_COUNT,
            core_type_views(r@) == core_types().take(i as int),
        decreases CORE_TYPE_COUNT - i,
    {
        let row = CORE_TYPES[i];
        let t = CoreType { name: row.0, size: row.1, metatype: row.2, is_char: row.3 };
        let ghost was = r@;
        r.push(t);
        assert(core_type_views(r@) =~= core_type_views(was).push(t@));
        assert(core_type_views(r@) =~= core_types().take(i + 1));
        i += 1;
    }
    assert(core_types().take(i as int) =~= core_types());
    Some(r)
}

/// A size that a compiler specification can give.
#[derive(Debug, Clone, Copy, PartialEq, Eq, Structural)]
pub enum SizeOf {
    Int,
    Long,
    Pointer,
    Char,
    WChar,
    Short,
    LongLong,
    Float,
    Double,
    LongDouble,
}

/// Something to tell the data-type factory.
#[derive(Debug)]
pub enum TypeAction {
    /// Set a size.
    Size(SizeOf, i32),
    /// Set the alignment of sizes: pairs of a size and its alignment.
    AlignmentMap(Vec<(i32, i32)>),
}

/// What contracts say of a [`TypeAction`].
pub enum ActionView {
    Size(SizeOf, i32),
    AlignmentMap(Seq<(i32, i32)>),
}

impl View for TypeAction {
    type V = ActionView;

    open spec fn view(&self) -> ActionView {
        match *self {
            TypeAction::Size(which, v) => ActionView::Size(which, v),
            TypeAction::AlignmentMap(pairs) => ActionView::AlignmentMap(pairs@),
        }
    }
}

/// What contracts say of a list of actions.
pub open spec fn action_views(v: Seq<TypeAction>) -> Seq<ActionView> {
    v.map_values(|t: TypeAction| t@)
}

/// The size that an element of this name gives.
pub open spec fn size_named(name: Seq<char>) -> Option<SizeOf> {
    if name == "integer_size"@ {
        Some(SizeOf::Int)
    } else if name == "long_size"@ {
        Some(SizeOf::Long)
    } else if name == "pointer_size"@ {
        Some(SizeOf::Pointer)
    } else if name == "char_size"@ {
        Some(SizeOf::Char)
    } else if name == "wchar_size"@ {
        Some(SizeOf::WChar)
    } else if name == "short_size"@ {
        Some(SizeOf::Short)
    } else if name == "long_long_size"@ {
        Some(SizeOf::LongLong)
    } else if name == "float_size"@ {
        Some(SizeOf::Float)
    } else if name == "double_size"@ {
        Some(SizeOf::Double)
    } else if name == "long_double_size"@ {
        Some(SizeOf::LongDouble)
    } else {
        None
    }
}

fn find_size(name: &str) -> (r: Option<SizeOf>)
    ensures
        r == size_named(name@),
{
    if same_text(name, "integer_size") {
        Some(SizeOf::Int)
    } else if same_text(name, "long_size") {
        Some(SizeOf::Long)
    } else if same_text(name, "pointer_size") {
        Some(SizeOf::Pointer)
    } else if same_text(name, "char_size") {
        Some(SizeOf::Char)
    } else if same_text(name, "wchar_size") {
        Some(SizeOf::WChar)
    } else if same_text(name, "short_size") {
        Some(SizeOf::Short)
    } else if same_text(name, "long_long_size") {
        Some(SizeOf::LongLong)
    } else if same_text(name, "float_size") {
        Some(SizeOf::Float)
    } else if same_text(name, "double_size") {
        Some(SizeOf::Double)
    } else if same_text(name, "long_double_size") {
        Some(SizeOf::LongDouble)
    } else {
        None
    }
}

/// The number that an attribute gives, white space around it aside.
pub open spec fn number_attribute(el: Element, name: Seq<char>) -> Option<i32> {
    match attribute_strict_text(el, name) {
        None => None,
        Some(t) => match i32_value(trimmed(t)) {
            Some(v) => Some(v as i32),
            None => None,
        },
    }
}

fn read_number(el: &Element, name: &str) -> (r: Option<i32>)
    ensures
        r == number_attribute(*el, name@),
{
    match attr_strict(el, name) {
        None => None,
        Some(t) => parse_i32(trim(t.as_str())),
    }
}

/// The pairs that the first `n` children of a `<size_alignment_map>` give; an entry
/// without both numbers gives none.
pub open spec fn alignment_pairs(el: Element, n: int) -> Seq<(i32, i32)>
    decreases n,
{
    if n <= 0 {
        seq![]
    } else {
        let before = alignment_pairs(el, n - 1);
        let entry = el.children@[n - 1];
        if entry.name@ != "entry"@ {
            before
        } else {
            match (number_attribute(entry, "size"@), number_attribute(entry, "alignment"@)) {
                (Some(size), Some(alignment)) => before.push((size, alignment)),
                _ => before,
            }
        }
    }
}

fn read_alignment_pairs(el: &Element) -> (r: Vec<(i32, i32)>)
    ensures
        r@ == alignment_pairs(*el, el.children@.len() as int),
{
    let mut r: Vec<(i32, i32)> = Vec::new();
    let mut i: usize = 0;
    while i < el.children.len()
        invariant
            i <= el.children@.len(),
            r@ == alignment_pairs(*el, i as int),
        decreases el.children@.len() - i,
    {
        let entry = &el.children[i];
        if same_text(entry.name.as_str(), "entry") {
            match (read_number(entry, "size"), read_number(entry, "alignment")) {
                (Some(size), Some(alignment)) => {
                    r.push((size, alignment));
                },
                _ => {},
            }
        }
        i += 1;
    }
    r
}

/// What a child of `<data_organization>` asks for.
pub open spec fn organization_child(child: Element) -> Option<ActionView> {
    match size_named(child.name@) {
        Some(which) => match number_attribute(child, "value"@) {
            Some(v) => Some(ActionView::Size(which, v)),
            None => None,
        },
        None => if child.name@ == "size_alignment_map"@ {
            let pairs = alignment_pairs(child, child.children@.len() as int);
            if pairs.len() > 0 {
                Some(ActionView::AlignmentMap(pairs))
            } else {
                None
            }
        } else {
            None
        },
    }
}

/// What the first `n` children of `<data_organization>` ask for, in order.
pub open spec fn organization_children(el: Element, n: int) -> Seq<ActionView>
    decreases n,
{
    if n <= 0 {
        seq![]
    } else {
        match organization_child(el.children@[n - 1]) {
            None => organization_children(el, n - 1),
            Some(a) => organization_children(el, n - 1).push(a),
        }
    }
}

/// What the specification asks of the data-type factory, in order.
pub open spec fn data_organization(doc: SpecDocument) -> Result<Seq<ActionView>, Failure> {
    match doc {
        SpecDocument::Absent => Ok(seq![]),
        SpecDocument::Malformed(e) => Err(e@),
        SpecDocument::Root(root) => match child_named(root, "data_organization"@) {
            None => Ok(seq![]),
            Some(el) => Ok(organization_children(el, el.children@.len() as int)),
        },
    }
}

fn read_organization_child(child: &Element) -> (r: Option<TypeAction>)
    ensures
        match r {
            Some(a) => organization_child(*child) == Some(a@),
            None => organization_child(*child) is None,
        },
{
    match find_size(child.name.as_str()) {
        Some(which) => match read_number(child, "value") {
            Some(v) => Some(TypeAction::Size(which, v)),
            None => None,
        },
        None => if same_text(child.name.as_str(), "size_alignment_map") {
            let pairs = read_alignment_pairs(child);
            if pairs.len() > 0 {
                Some(TypeAction::AlignmentMap(pairs))
            } else {
                None
            }
        } else {
            None
        },
    }
}

/// What the specification asks of the data-type factory, in order. The caller does it in
/// this order and stops where the factory refuses.
pub fn decode_data_organization(doc: &SpecDocument) -> (r: Result<Vec<TypeAction>, KunaError>)
    ensures
        match r {
            Ok(v) => data_organization(*doc) == Ok::<Seq<ActionView>, Failure>(action_views(v@)),
            Err(e) => data_organization(*doc) == Err::<Seq<ActionView>, Failure>(e@),
        },
{
    let mut out: Vec<TypeAction> = Vec::new();
    assert(action_views(out@) =~= seq![]);
    let root = match doc {
        SpecDocument::Absent => {
            return Ok(out);
        },
        SpecDocument::Malformed(e) => {
            return Err(e.clone());
        },
        SpecDocument::Root(root) => root,
    };
    let el = match find_child(root, "data_organization") {
        None => {
            return Ok(out);
        },
        Some(el) => el,
    };
    let mut i: usize = 0;
    while i < el.children.len()
        invariant
            i <= el.children@.len(),
            action_views(out@) == organization_children(*el, i as int),
        decreases el.children@.len() - i,
    {
        if let Some(a) = read_organization_child(&el.children[i]) {
            let ghost was = out@;
            out.push(a);
            assert(action_views(out@) =~= action_views(was).push(a@));
        }
        i += 1;
    }
    Ok(out)
}

/// The widths and the byte order that the data-type factory is set up with.
#[derive(Debug, Clone, Copy, PartialEq, Eq, Structural)]
pub struct TypeSetup {
    /// The width of the stack pointer, where there is a stack.
    pub stack_pointer_size: Option<i32>,
    /// The width of a data address.
    pub data_addr_size: i32,
    /// The default width.
    pub default_size: i32,
    /// Data is big endian.
    pub big_endian: bool,
    /// The default alignments are to be set, since the specification gave none.
    pub default_alignment: bool,
}

/// What the data-type factory is set up with. `alignment_empty` tells whether it has no
/// alignments yet.
pub open spec fn type_setup(e: EngineView, default_size: i32, alignment_empty: bool) -> TypeSetup {
    TypeSetup {
        stack_pointer_size: if has_stack_space(e) {
            Some(e.spaces[space_from(e.spaces, "stack"@, 0)->0].info.addr_size as i32)
        } else {
            None
        },
        data_addr_size: match e.data_space {
            Some(i) => e.spaces[i as int].info.addr_size as i32,
            None => default_size,
        },
        default_size,
        big_endian: match e.data_space {
            Some(i) => e.spaces[i as int].info.big_endian,
            None => false,
        },
        default_alignment: alignment_empty,
    }
}

impl Engine {
    /// What the data-type factory is set up with, once the specification's sizes are in.
    pub fn finish_typegrp(&self, default_size: i32, alignment_empty: bool) -> (r: TypeSetup)
        requires
            engine_wf(self@),
        ensures
            r == type_setup(self@, default_size, alignment_empty),
    {
        let stack_pointer_size = match self.get_space_by_name("stack") {
            Some(i) => if self.get_stack_space() {
                Some(self.spaces[i].info.addr_size as i32)
            } else {
                None
            },
            None => None,
        };
        let (data_addr_size, big_endian) = match self.data_space {
            Some(i) => {
                let info = self.spaces[i].info;
                (info.addr_size as i32, info.big_endian)
            },
            None => (default_size, false),
        };
        TypeSetup {
            stack_pointer_size,
            data_addr_size,
            default_size,
            big_endian,
            default_alignment: alignment_empty,
        }
    }

    /// The width of a data address and of an addressable unit.
    pub fn data_org(&self) -> (r: (i32, u32))
        requires
            engine_wf(self@),
            self@.data_space is Some,
        ensures
            ({
                let info = self@.spaces[self@.data_space->0 as int].info;
                r == (info.addr_size as i32, info.word_size)
            }),
    {
        match self.data_space {
            Some(i) => {
                let info = self.spaces[i].info;
                (info.addr_size as i32, info.word_size)
            },
            None => (0, 0),
        }
    }
}

/// The last value, among the first `n` children, that can be read for a size.
pub open spec fn last_value(el: Element, which: SizeOf, n: int) -> Option<i32>
    decreases n,
{
    if n <= 0 {
        None
    } else {
        match organization_child(el.children@[n - 1]) {
            Some(ActionView::Size(w, v)) if w == which => Some(v),
            _ => last_value(el, which, n - 1),
        }
    }
}

/// The value of the last action on a size.
pub open spec fn last_set(actions: Seq<ActionView>, which: SizeOf) -> Option<i32>
    decreases actions.len(),
{
    if actions.len() == 0 {
        None
    } else {
        match actions.last() {
            ActionView::Size(w, v) if w == which => Some(v),
            _ => last_set(actions.drop_last(), which),
        }
    }
}

/// A size that the specification gives more than once is set more than once, and the last
/// value that can be read is the one that is set last. A size without such a value is not
/// set.
pub proof fn law_later_size_is_set_last(el: Element, n: int, which: SizeOf)
    ensures
        last_set(organization_children(el, n), which) == last_value(el, which, n),
    decreases n,
{
    if n > 0 {
        law_later_size_is_set_last(el, n - 1, which);
        if let Some(a) = organization_child(el.children@[n - 1]) {
            let before = organization_children(el, n - 1);
            assert(before.push(a).drop_last() =~= before);
        }
    }
}

} // verus!
