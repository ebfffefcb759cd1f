//! What a compiler specification's memory layout comes to: the stack space, the spaces of the
//! analysis, global memory, the spaces for pointers, and the sizes of data.

use vstd::prelude::*;
use vstd::utf8::*;
use crate::cspec::{
    funcptr_effect, global_child, global_children, global_result, has_stack_space, infer_spaces,
    inferable_below, law_infer_spaces_are_the_candidates, law_lowest_bit, lowest_bit,
    law_inferable_spaces_ascend, stack_effect, MemoryRange,
};
use crate::error::{ErrorKind, Failure, KunaError};
use crate::space::{
    kind_from, space_from, spacebase_info, with_call_spaces, CallSpaces, EngineView, SpaceInfo,
    SpaceKind, SpaceView, VarnodeData,
};
use crate::text::{i32_value, offset_value, trimmed};
use crate::types::{
    alignment_pairs, core_types, data_organization, organization_child, organization_children,
    type_setup, ActionView, SizeOf, TypeMetatype,
};
use crate::xml::{
    attribute_bytes, attribute_from, attribute_strict_text, attribute_text, bool_attr, child_from,
    child_named, law_child_is_the_first, lossy_text, Element, SpecDocument,
};

verus! {

// ---- elements -----------------------------------------------------------------------

/// Whether this is the place of the first child with this name.
pub open spec fn is_first_child(el: Element, nm: Seq<char>, k: int) -> bool {
    &&& 0 <= k < el.children@.len()
    &&& el.children@[k].name@ == nm
    &&& forall|j: int| 0 <= j < k ==> (#[trigger] el.children@[j]).name@ != nm
}

/// Whether no child has this name.
pub open spec fn no_child(el: Element, nm: Seq<char>) -> bool {
    forall|j: int| 0 <= j < el.children@.len() ==> (#[trigger] el.children@[j]).name@ != nm
}

/// Whether this is the place of the first attribute with this name.
pub open spec fn is_first_attribute(el: Element, nm: Seq<char>, k: int) -> bool {
    &&& 0 <= k < el.attributes@.len()
    &&& el.attributes@[k].0@ == nm
    &&& forall|j: int| 0 <= j < k ==> (#[trigger] el.attributes@[j]).0@ != nm
}

/// Whether no attribute has this name.
pub open spec fn no_attribute(el: Element, nm: Seq<char>) -> bool {
    forall|j: int| 0 <= j < el.attributes@.len() ==> (#[trigger] el.attributes@[j]).0@ != nm
}

/// A child is found by its name, the first where there are several.
pub proof fn law_child_is_found(el: Element, nm: Seq<char>, k: int)
    ensures
        is_first_child(el, nm, k) ==> child_from(el, nm, 0) == Some(k) && child_named(el, nm)
            == Some(el.children@[k]),
        no_child(el, nm) ==> child_from(el, nm, 0) is None && child_named(el, nm) is None,
{
    law_child_is_the_first(el, nm, 0);
}

proof fn lemma_attribute_from(el: Element, nm: Seq<char>, i: int)
    requires
        0 <= i <= el.attributes@.len(),
    ensures
        match attribute_from(el, nm, i) {
            Some(k) => i <= k < el.attributes@.len() && el.attributes@[k].0@ == nm && forall|j: int|
                i <= j < k ==> (#[trigger] el.attributes@[j]).0@ != nm,
            None => forall|j: int|
                i <= j < el.attributes@.len() ==> (#[trigger] el.attributes@[j]).0@ != nm,
        },
    decreases el.attributes@.len() - i,
{
    if i < el.attributes@.len() {
        lemma_attribute_from(el, nm, i + 1);
    }
}

/// An attribute is found by its name, the first where there are several. Its text is what its
/// bytes encode; where they encode nothing, the strict reading has no text.
pub proof fn law_attribute_is_found(el: Element, nm: Seq<char>, k: int)
    ensures
        is_first_attribute(el, nm, k) ==> {
            let b = el.attributes@[k].1@;
            &&& attribute_bytes(el, nm) == Some(b)
            &&& valid_utf8(b) ==> attribute_text(el, nm) == Some(decode_utf8(b))
                && attribute_strict_text(el, nm) == Some(decode_utf8(b))
            &&& !valid_utf8(b) ==> attribute_text(el, nm) == Some(lossy_text(b))
                && attribute_strict_text(el, nm) is None
        },
        no_attribute(el, nm) ==> attribute_text(el, nm) is None && attribute_strict_text(el, nm)
            is None,
{
    lemma_attribute_from(el, nm, 0);
}

/// Three words mean true, any other text means false.
pub proof fn law_truth_words(v: Seq<char>)
    ensures
        bool_attr(v) <==> v == "true"@ || v == "yes"@ || v == "1"@,
{
}

// ---- spaces -------------------------------------------------------------------------

/// Whether this is the index of the first space with this name.
pub open spec fn is_first_space(e: EngineView, nm: Seq<char>, k: int) -> bool {
    &&& 0 <= k < e.spaces.len()
    &&& e.spaces[k].name == nm
    &&& forall|j: int| 0 <= j < k ==> (#[trigger] e.spaces[j]).name != nm
}

/// Whether no space has this name.
pub open spec fn no_space(spaces: Seq<SpaceView>, nm: Seq<char>) -> bool {
    forall|j: int| 0 <= j < spaces.len() ==> (#[trigger] spaces[j]).name != nm
}

proof fn lemma_space_from(spaces: Seq<SpaceView>, nm: Seq<char>, i: int)
    requires
        0 <= i <= spaces.len(),
    ensures
        match space_from(spaces, nm, i) {
            Some(k) => i <= k < spaces.len() && spaces[k].name == nm && forall|j: int|
                i <= j < k ==> (#[trigger] spaces[j]).name != nm,
            None => forall|j: int| i <= j < spaces.len() ==> (#[trigger] spaces[j]).name != nm,
        },
    decreases spaces.len() - i,
{
    if i < spaces.len() {
        lemma_space_from(spaces, nm, i + 1);
    }
}

proof fn lemma_kind_from(spaces: Seq<SpaceView>, kind: SpaceKind, i: int)
    requires
        0 <= i <= spaces.len(),
    ensures
        match kind_from(spaces, kind, i) {
            Some(k) => i <= k < spaces.len() && spaces[k].info.kind == kind && forall|j: int|
                i <= j < k ==> (#[trigger] spaces[j]).info.kind != kind,
            None => forall|j: int| i <= j < spaces.len() ==> (#[trigger] spaces[j]).info.kind != kind,
        },
    decreases spaces.len() - i,
{
    if i < spaces.len() {
        lemma_kind_from(spaces, kind, i + 1);
    }
}

/// A space is found by its name or its kind, the first where there are several.
pub proof fn law_space_is_found(e: EngineView, nm: Seq<char>, kind: SpaceKind, k: int)
    ensures
        is_first_space(e, nm, k) ==> space_from(e.spaces, nm, 0) == Some(k),
        no_space(e.spaces, nm) ==> space_from(e.spaces, nm, 0) is None,
        0 <= k < e.spaces.len() && e.spaces[k].info.kind == kind && (forall|j: int|
            0 <= j < k ==> (#[trigger] e.spaces[j]).info.kind != kind) ==> kind_from(
            e.spaces,
            kind,
            0,
        ) == Some(k),
        (forall|j: int| 0 <= j < e.spaces.len() ==> (#[trigger] e.spaces[j]).info.kind != kind)
            ==> kind_from(e.spaces, kind, 0) is None,
{
    lemma_space_from(e.spaces, nm, 0);
    lemma_kind_from(e.spaces, kind, 0);
}

/// A space of offsets from a register has the byte order and the word size of the space that it
/// lies in, is as wide as the register is used, and is heritaged one pass after the register's
/// space; it is told what it lies in, what register it hangs on and how it grows.
pub proof fn law_spacebase_is_like_its_base(
    base: SpaceInfo,
    base_index: usize,
    pointer: VarnodeData,
    delay: i32,
    size: i32,
    reverse: bool,
    negative: bool,
    formal: bool,
)
    ensures
        ({
            let s = spacebase_info(
                base,
                base_index,
                pointer,
                delay,
                size,
                reverse,
                negative,
                formal,
            );
            &&& s.kind == SpaceKind::Spacebase
            &&& s.big_endian == base.big_endian
            &&& s.word_size == base.word_size
            &&& size >= 0 ==> s.addr_size == size
            &&& delay < i32::MAX ==> s.delay == delay + 1
            &&& delay == i32::MAX ==> s.delay == delay
            &&& s.contains == Some(base_index)
            &&& s.reverse_justified == reverse
            &&& s.formal == formal
            &&& s.pointer matches Some(p) && p.register == pointer && p.size == size
                && p.grows_negative == negative
            &&& !s.truncated && !s.overlay && !s.other
        }),
{
}

/// What `<stackpointer>` asks for: the name of the space that the stack lies in, and the
/// register, which is nameless where it is not given.
pub open spec fn names_register(sp: Element, name: Seq<char>) -> bool {
    match attribute_text(sp, "register"@) {
        Some(t) => name == t,
        None => name.len() == 0,
    }
}

/// Reading `<stackpointer>` adds a space called `stack` at the end, over the space that is
/// named. It has that space's byte order and word size. The register is used up to the width of
/// an address where the space is truncated. The stack grows downwards unless another growth is
/// given.
pub proof fn law_stack_space_is_as_asked(
    e: EngineView,
    root: Element,
    n: int,
    name: Seq<char>,
    i: int,
    register: Seq<char>,
)
    requires
        is_first_child(root, "stackpointer"@, n),
        attribute_text(root.children@[n], "space"@) == Some(name),
        is_first_space(e, name, i),
        i <= usize::MAX,
        names_register(root.children@[n], register),
        e.registers.contains_key(register),
        e.registers[register].space is Some,
        e.registers[register].size <= i32::MAX,
        e.spaces[i].info.addr_size <= i32::MAX,
        no_space(e.spaces, "stack"@),
    ensures
        ({
            let (after, r) = stack_effect(e, SpecDocument::Root(root));
            let sp = root.children@[n];
            let base = e.spaces[i].info;
            let v = e.registers[register];
            let size = if base.truncated && v.size > base.addr_size {
                base.addr_size
            } else {
                v.size
            };
            let s = after.spaces[e.spaces.len() as int];
            &&& r is Ok
            &&& after.spaces.len() == e.spaces.len() + 1
            &&& forall|j: int| 0 <= j < e.spaces.len() ==> #[trigger] after.spaces[j] == e.spaces[j]
            &&& after == (EngineView { spaces: after.spaces, ..e })
            &&& s.name == "stack"@
            &&& s.info.kind == SpaceKind::Spacebase
            &&& s.info.big_endian == base.big_endian
            &&& s.info.word_size == base.word_size
            &&& s.info.addr_size == size
            &&& s.info.contains == Some(i as usize)
            &&& s.info.formal
            &&& s.info.reverse_justified == (attribute_text(sp, "reversejustify"@) == Some(
                "true"@,
            ))
            &&& s.info.pointer matches Some(p) && p.register == v && p.size == size
                && p.grows_negative == (attribute_text(sp, "growth"@) is None || attribute_text(
                sp,
                "growth"@,
            ) == Some("negative"@))
            &&& e.spaces[v.space->0 as int].info.delay < i32::MAX ==> s.info.delay
                == e.spaces[v.space->0 as int].info.delay + 1
        }),
{
    law_child_is_found(root, "stackpointer"@, n);
    law_space_is_found(e, name, SpaceKind::Join, i);
    law_space_is_found(e, "stack"@, SpaceKind::Join, i);
    if attribute_text(root.children@[n], "register"@) is None {
        assert(register =~= Seq::<char>::empty());
    }
}

/// Where no stack pointer is asked for, or the stack is there, nothing changes. What cannot be
/// read is refused, and nothing changes either.
pub proof fn law_stack_space_is_not_always_made(e: EngineView, root: Element, n: int, err: KunaError)
    ensures
        stack_effect(e, SpecDocument::Absent) == (e, Ok::<(), Failure>(())),
        stack_effect(e, SpecDocument::Malformed(err)) == (e, Err::<(), Failure>(err@)),
        no_child(root, "stackpointer"@) ==> stack_effect(e, SpecDocument::Root(root)) == (
            e,
            Ok::<(), Failure>(()),
        ),
        is_first_child(root, "stackpointer"@, n) ==> {
            let (after, r) = stack_effect(e, SpecDocument::Root(root));
            let sp = root.children@[n];
            let space = attribute_text(sp, "space"@);
            &&& r is Err ==> after == e
            &&& space is None ==> (r matches Err(f) && f.kind == ErrorKind::Lowlevel && f.text
                == "stackpointer element missing \"space\" attribute"@)
            &&& space matches Some(name) ==> (no_space(e.spaces, name) ==> (r matches Err(f)
                && f.kind == ErrorKind::Lowlevel && f.text == "stackpointer space \""@ + name
                + "\" not found"@))
            &&& space matches Some(name) ==> forall|register: Seq<char>| #[trigger]
                names_register(sp, register) && !no_space(e.spaces, name)
                    && !e.registers.contains_key(register) ==> (r matches Err(f) && f.kind
                    == ErrorKind::Lowlevel && f.text == "Unknown register name: "@ + register)
            &&& has_stack_space(e) ==> after == e
        },
{
    law_child_is_found(root, "stackpointer"@, n);
    if is_first_child(root, "stackpointer"@, n) {
        let sp = root.children@[n];
        if let Some(name) = attribute_text(sp, "space"@) {
            lemma_space_from(e.spaces, name, 0);
            assert forall|register: Seq<char>| #[trigger]
                names_register(sp, register) && attribute_text(sp, "register"@) is None
                implies register == Seq::<char>::empty() by {
                assert(register =~= Seq::<char>::empty());
            }
        }
    }
}

/// The stack is there where the first space called `stack` hangs on a base register.
pub proof fn law_stack_is_a_spacebase(e: EngineView, k: int)
    ensures
        is_first_space(e, "stack"@, k) ==> has_stack_space(e) == (e.spaces[k].info.kind
            == SpaceKind::Spacebase),
        no_space(e.spaces, "stack"@) ==> !has_stack_space(e),
{
    law_space_is_found(e, "stack"@, SpaceKind::Join, k);
}

/// The analysis adds three spaces at the end, in this order, with the properties that it was
/// given; values are joined in the byte order of code.
pub proof fn law_call_spaces_are_added_in_order(e: EngineView, c: CallSpaces)
    requires
        forall|j: int|
            0 <= j < e.spaces.len() ==> (#[trigger] e.spaces[j]).info.kind != SpaceKind::Fspec,
        no_space(e.spaces, "fspec"@),
        no_space(e.spaces, "iop"@),
        no_space(e.spaces, "join"@),
    ensures
        ({
            let (after, r) = with_call_spaces(e, c);
            let n = e.spaces.len() as int;
            let big = e.code_space is Some && e.spaces[e.code_space->0 as int].info.big_endian;
            &&& r is Ok
            &&& after.spaces.len() == n + 3
            &&& forall|j: int| 0 <= j < n ==> #[trigger] after.spaces[j] == e.spaces[j]
            &&& after.spaces[n].name == "fspec"@ && after.spaces[n].info == c.fspec
            &&& after.spaces[n + 1].name == "iop"@ && after.spaces[n + 1].info == c.iop
            &&& after.spaces[n + 2].name == "join"@ && after.spaces[n + 2].info == (SpaceInfo {
                big_endian: big,
                ..c.join
            })
            &&& after == (EngineView { spaces: after.spaces, ..e })
        }),
{
    reveal_strlit("fspec");
    reveal_strlit("iop");
    reveal_strlit("join");
    assert("fspec"@.len() == 5 && "iop"@.len() == 3 && "join"@.len() == 4);
    lemma_kind_from(e.spaces, SpaceKind::Fspec, 0);
    lemma_space_from(e.spaces, "fspec"@, 0);
    let s1 = e.spaces.push(SpaceView { name: "fspec"@, info: c.fspec });
    lemma_space_from(s1, "iop"@, 0);
    let s2 = s1.push(SpaceView { name: "iop"@, info: c.iop });
    lemma_space_from(s2, "join"@, 0);
}

// ---- function pointers and pointer spaces -------------------------------------------

/// The alignment of function pointers is the number of low bits that are zero: two to that
/// power divides the alignment that is given, and twice that does not. None is given where
/// the specification gives no number; then the alignment stays.
pub proof fn law_funcptr_align_counts_low_bits(was: i32, root: Element, n: int, a: nat)
    requires
        is_first_child(root, "funcptr"@, n),
        attribute_text(root.children@[n], "align"@) is Some,
        offset_value(attribute_text(root.children@[n], "align"@)->0) == Some(a),
        lowest_bit(a) <= i32::MAX,
    ensures
        ({
            let r = funcptr_effect(was, SpecDocument::Root(root));
            let bits = (r->Ok_0) as nat;
            &&& r is Ok
            &&& a == 0 ==> bits == 0
            &&& a > 0 ==> a % vstd::arithmetic::power2::pow2(bits) == 0 && (a
                / vstd::arithmetic::power2::pow2(bits)) % 2 == 1
        }),
{
    law_child_is_found(root, "funcptr"@, n);
    if a > 0 {
        law_lowest_bit(a);
    }
}

/// The alignment of function pointers stays where the specification does not give one.
pub proof fn law_funcptr_align_stays(was: i32, root: Element, n: int, err: KunaError)
    ensures
        funcptr_effect(was, SpecDocument::Absent) == Ok::<i32, Failure>(was),
        funcptr_effect(was, SpecDocument::Malformed(err)) == Err::<i32, Failure>(err@),
        no_child(root, "funcptr"@) ==> funcptr_effect(was, SpecDocument::Root(root)) == Ok::<
            i32,
            Failure,
        >(was),
        is_first_child(root, "funcptr"@, n) && attribute_text(root.children@[n], "align"@) is None
            ==> funcptr_effect(was, SpecDocument::Root(root)) == Ok::<i32, Failure>(was),
        is_first_child(root, "funcptr"@, n) && (attribute_text(root.children@[n], "align"@)
            matches Some(t) && offset_value(t) is None) ==> funcptr_effect(
            was,
            SpecDocument::Root(root),
        ) == Ok::<i32, Failure>(was),
{
    law_child_is_found(root, "funcptr"@, n);
}

/// Pointers are inferred into a space exactly where the specification named it, or code or data
/// lies in it, and it is memory: heritaged late, no stack, not the catch-all space, no overlay.
pub proof fn law_pointers_go_to_memory(e: EngineView, named: Seq<usize>, i: int)
    requires
        e.spaces.len() <= usize::MAX,
        0 <= i < e.spaces.len(),
    ensures
        ({
            let info = e.spaces[i].info;
            infer_spaces(e, named).contains(i as usize) <==> {
                &&& named.contains(i as usize) || e.code_space == Some(i as usize) || e.data_space
                    == Some(i as usize)
                &&& info.delay != 0
                &&& info.kind != SpaceKind::Spacebase
                &&& !info.other
                &&& !info.overlay
            }
        }),
{
    law_infer_spaces_are_the_candidates(e, named, i);
    if named.contains(i as usize) {
        let k = choose|k: int| 0 <= k < named.len() && named[k] == i as usize;
        assert(named[k] == i);
    }
}

/// The spaces for pointers come by index, but that the data space changed places with the
/// first of them: with the two changed back the list ascends.
pub proof fn law_pointer_spaces_come_by_index(e: EngineView, named: Seq<usize>)
    requires
        e.spaces.len() <= usize::MAX,
    ensures
        ({
            let r = infer_spaces(e, named);
            r.len() > 0 ==> exists|at: int|
                {
                    let back = #[trigger] r.update(0, r[at]).update(at, r[0]);
                    &&& 0 <= at < r.len()
                    &&& forall|a: int, b: int| 0 <= a < b < back.len() ==> back[a] < back[b]
                    &&& at > 0 ==> e.data_space == Some(r[0])
                    &&& e.data_space is Some && r.contains(e.data_space->0) ==> r[0]
                        == e.data_space->0
                }
        }),
{
    let n = e.spaces.len() as int;
    let l = inferable_below(e, named, n);
    let r = infer_spaces(e, named);
    assert forall|a: int, b: int| 0 <= a < b < l.len() implies l[a] < l[b] by {
        law_inferable_spaces_ascend(e, named, a, b);
    }
    if e.data_space is Some && l.contains(e.data_space->0) {
        let data = e.data_space->0;
        let at = l.index_of(data);
        assert(l[at] == data);
        assert(r.update(0, r[at]).update(at, r[0]) =~= l);
        assert(r[0] == data);
    } else {
        assert(r == l);
        if r.len() > 0 {
            assert(r.update(0, r[0]).update(0, r[0]) =~= l);
        }
    }
}

// ---- global memory ------------------------------------------------------------------

/// What a child of `<global>` makes global: a register its own bytes, from its offset to the
/// last, around the end of the space where it must; a range what it was decoded to; another
/// child nothing.
pub proof fn law_global_child_by_name(
    e: EngineView,
    child: Element,
    range: Result<MemoryRange, KunaError>,
    name: Seq<char>,
)
    ensures
        ({
            let r = global_child(e, child, range);
            let v = e.registers[name];
            let named = child.name@ == "register"@ && attribute_text(child, "name"@) == Some(name);
            &&& named && e.registers.contains_key(name) && v.space is Some ==> {
                &&& r matches Ok(Some(g))
                &&& (r->Ok_0->0).space == v.space->0
                &&& (r->Ok_0->0).first == v.offset
                &&& v.size > 0 && v.offset + v.size - 1 <= u64::MAX ==> (r->Ok_0->0).last
                    == v.offset + v.size - 1
                &&& v.size > 0 && v.offset + v.size - 1 > u64::MAX ==> (r->Ok_0->0).last
                    == v.offset + v.size - 1 - u64::MAX - 1
                &&& v.size == 0 && v.offset > 0 ==> (r->Ok_0->0).last == v.offset - 1
            }
            &&& named && e.registers.contains_key(name) && v.space is None ==> r == Ok::<
                Option<MemoryRange>,
                Failure,
            >(None)
            &&& named && !e.registers.contains_key(name) ==> (r matches Err(f) && f.kind
                == ErrorKind::Lowlevel && f.text == "Unknown register name: "@ + name)
            &&& child.name@ == "register"@ && attribute_text(child, "name"@) is None ==> r == Ok::<
                Option<MemoryRange>,
                Failure,
            >(None)
            &&& child.name@ == "range"@ ==> match range {
                Ok(g) => r == Ok::<Option<MemoryRange>, Failure>(Some(g)),
                Err(x) => r == Err::<Option<MemoryRange>, Failure>(x@),
            }
            &&& child.name@ != "register"@ && child.name@ != "range"@ ==> r == Ok::<
                Option<MemoryRange>,
                Failure,
            >(None)
        }),
{
    reveal_strlit("register");
    reveal_strlit("range");
    assert("register"@.len() == 8 && "range"@.len() == 5);
}

/// The global ranges are those of the children in order: each child adds its range at the end,
/// or nothing, and the first that fails fails all.
pub proof fn law_global_children_in_order(
    e: EngineView,
    el: Element,
    ranges: Seq<Result<MemoryRange, KunaError>>,
    n: int,
)
    requires
        0 <= n < el.children@.len(),
    ensures
        global_children(e, el, ranges, 0) matches Ok(l) && l.len() == 0,
        ({
            let before = global_children(e, el, ranges, n);
            let after = global_children(e, el, ranges, n + 1);
            let own = global_child(e, el.children@[n], ranges[n]);
            &&& before is Err ==> after == before
            &&& before is Ok && own is Err ==> after is Err && after->Err_0 == own->Err_0
            &&& before is Ok && own is Ok ==> {
                &&& after is Ok
                &&& own->Ok_0 matches Some(g) ==> after->Ok_0 == before->Ok_0.push(g)
                &&& own->Ok_0 is None ==> after->Ok_0 == before->Ok_0
            }
        }),
{
}

/// Global memory is read from the first `<global>` element, where there is a scope to own it.
pub proof fn law_global_memory_is_read(
    e: EngineView,
    root: Element,
    n: int,
    has_scope: bool,
    ranges: Seq<Result<MemoryRange, KunaError>>,
    err: KunaError,
)
    ensures
        global_result(e, SpecDocument::Malformed(err), has_scope, ranges) == Err::<
            Seq<MemoryRange>,
            Failure,
        >(err@),
        global_result(e, SpecDocument::Absent, has_scope, ranges) == Ok::<
            Seq<MemoryRange>,
            Failure,
        >(seq![]),
        no_child(root, "global"@) ==> global_result(
            e,
            SpecDocument::Root(root),
            has_scope,
            ranges,
        ) == Ok::<Seq<MemoryRange>, Failure>(seq![]),
        is_first_child(root, "global"@, n) ==> {
            let el = root.children@[n];
            let r = global_result(e, SpecDocument::Root(root), has_scope, ranges);
            &&& !has_scope ==> r == Ok::<Seq<MemoryRange>, Failure>(seq![])
            &&& has_scope ==> r == global_children(e, el, ranges, el.children@.len() as int)
        },
{
    reveal(global_result);
    law_child_is_found(root, "global"@, n);
}

// ---- sizes --------------------------------------------------------------------------

/// The sizes by the names of their elements, each with the number that its `value` gives; an
/// element without a number, or of another name, sets no size.
pub proof fn law_sizes_by_name(child: Element, v: int)
    ensures
        ({
            let r = organization_child(child);
            let t = attribute_strict_text(child, "value"@);
            let given = t is Some && i32_value(trimmed(t->0)) == Some(v);
            let none = t is None || i32_value(trimmed(t->0)) is None;
            let nm = child.name@;
            let size = nm == "integer_size"@ || nm == "long_size"@ || nm == "pointer_size"@ || nm
                == "char_size"@ || nm == "wchar_size"@ || nm == "short_size"@ || nm
                == "long_long_size"@ || nm == "float_size"@ || nm == "double_size"@ || nm
                == "long_double_size"@;
            &&& given && nm == "integer_size"@ ==> r == Some(
                ActionView::Size(SizeOf::Int, v as i32),
            )
            &&& given && nm == "long_size"@ ==> r == Some(ActionView::Size(SizeOf::Long, v as i32))
            &&& given && nm == "pointer_size"@ ==> r == Some(
                ActionView::Size(SizeOf::Pointer, v as i32),
            )
            &&& given && nm == "char_size"@ ==> r == Some(ActionView::Size(SizeOf::Char, v as i32))
            &&& given && nm == "wchar_size"@ ==> r == Some(
                ActionView::Size(SizeOf::WChar, v as i32),
            )
            &&& given && nm == "short_size"@ ==> r == Some(
                ActionView::Size(SizeOf::Short, v as i32),
            )
            &&& given && nm == "long_long_size"@ ==> r == Some(
                ActionView::Size(SizeOf::LongLong, v as i32),
            )
            &&& given && nm == "float_size"@ ==> r == Some(
                ActionView::Size(SizeOf::Float, v as i32),
            )
            &&& given && nm == "double_size"@ ==> r == Some(
                ActionView::Size(SizeOf::Double, v as i32),
            )
            &&& given && nm == "long_double_size"@ ==> r == Some(
                ActionView::Size(SizeOf::LongDouble, v as i32),
            )
            &&& none && size ==> r is None
            &&& !size && nm != "size_alignment_map"@ ==> r is None
        }),
{
    lemma_size_names();
}

proof fn lemma_size_names()
    ensures
        "integer_size"@.len() == 12,
        "long_size"@.len() == 9 && "long_size"@[0] == 'l',
        "pointer_size"@.len() == 12 && "pointer_size"@[0] == 'p' && "integer_size"@[0] == 'i',
        "char_size"@.len() == 9 && "char_size"@[0] == 'c',
        "wchar_size"@.len() == 10 && "wchar_size"@[0] == 'w',
        "short_size"@.len() == 10 && "short_size"@[0] == 's',
        "long_long_size"@.len() == 14,
        "float_size"@.len() == 10 && "float_size"@[0] == 'f',
        "double_size"@.len() == 11,
        "long_double_size"@.len() == 16,
        "size_alignment_map"@.len() == 18,
{
    reveal_strlit("integer_size");
    reveal_strlit("long_size");
    reveal_strlit("pointer_size");
    reveal_strlit("char_size");
    reveal_strlit("wchar_size");
    reveal_strlit("short_size");
    reveal_strlit("long_long_size");
    reveal_strlit("float_size");
    reveal_strlit("double_size");
    reveal_strlit("long_double_size");
    reveal_strlit("size_alignment_map");
}

/// An alignment map holds a pair for each entry with two numbers, in order; one without pairs
/// asks for nothing.
pub proof fn law_alignment_map_pairs(child: Element, n: int, size: int, alignment: int)
    requires
        0 <= n < child.children@.len(),
    ensures
        ({
            let entry = child.children@[n];
            let s = attribute_strict_text(entry, "size"@);
            let a = attribute_strict_text(entry, "alignment"@);
            let both = entry.name@ == "entry"@ && s is Some && a is Some && i32_value(
                trimmed(s->0),
            ) == Some(size) && i32_value(trimmed(a->0)) == Some(alignment);
            let lacking = entry.name@ != "entry"@ || s is None || a is None || i32_value(
                trimmed(s->0),
            ) is None || i32_value(trimmed(a->0)) is None;
            &&& alignment_pairs(child, 0).len() == 0
            &&& both ==> alignment_pairs(child, n + 1) == alignment_pairs(child, n).push(
                (size as i32, alignment as i32),
            )
            &&& lacking ==> alignment_pairs(child, n + 1) == alignment_pairs(child, n)
        }),
        child.name@ == "size_alignment_map"@ ==> {
            let pairs = alignment_pairs(child, child.children@.len() as int);
            &&& pairs.len() > 0 ==> organization_child(child) == Some(
                ActionView::AlignmentMap(pairs),
            )
            &&& pairs.len() == 0 ==> organization_child(child) is None
        },
{
    lemma_size_names();
}

/// What the data-type factory is asked comes from the children of the first
/// `<data_organization>`, in order.
pub proof fn law_data_organization_in_order(root: Element, k: int, n: int, err: KunaError)
    ensures
        data_organization(SpecDocument::Absent) == Ok::<Seq<ActionView>, Failure>(seq![]),
        data_organization(SpecDocument::Malformed(err)) == Err::<Seq<ActionView>, Failure>(err@),
        no_child(root, "data_organization"@) ==> data_organization(SpecDocument::Root(root)) == Ok::<
            Seq<ActionView>,
            Failure,
        >(seq![]),
        is_first_child(root, "data_organization"@, k) ==> {
            let el = root.children@[k];
            &&& data_organization(SpecDocument::Root(root)) == Ok::<Seq<ActionView>, Failure>(
                organization_children(el, el.children@.len() as int),
            )
            &&& organization_children(el, 0).len() == 0
            &&& 0 <= n < el.children@.len() ==> organization_children(el, n + 1)
                == match organization_child(el.children@[n]) {
                Some(a) => organization_children(el, n).push(a),
                None => organization_children(el, n),
            }
        },
{
    law_child_is_found(root, "data_organization"@, k);
}

/// The data-type factory is set up with the width of the stack where there is one, with the
/// width and byte order of data where there is a data space, and with the defaults else.
pub proof fn law_types_are_set_up(e: EngineView, default_size: i32, alignment_empty: bool, k: int)
    ensures
        ({
            let t = type_setup(e, default_size, alignment_empty);
            &&& t.default_size == default_size
            &&& t.default_alignment == alignment_empty
            &&& e.data_space matches Some(i) ==> t.data_addr_size
                == e.spaces[i as int].info.addr_size as i32 && t.big_endian
                == e.spaces[i as int].info.big_endian
            &&& e.data_space is None ==> t.data_addr_size == default_size && !t.big_endian
            &&& is_first_space(e, "stack"@, k) && e.spaces[k].info.kind == SpaceKind::Spacebase
                ==> t.stack_pointer_size == Some(e.spaces[k].info.addr_size as i32)
            &&& is_first_space(e, "stack"@, k) && e.spaces[k].info.kind != SpaceKind::Spacebase
                ==> t.stack_pointer_size is None
            &&& no_space(e.spaces, "stack"@) ==> t.stack_pointer_size is None
        }),
{
    law_space_is_found(e, "stack"@, SpaceKind::Join, k);
}

/// The core types: names that end in a number are that many bytes wide, the others one byte,
/// and the kind of value goes by the name.
pub proof fn law_core_types_by_name()
    ensures
        ({
            let t = core_types();
            &&& t.len() == 22
            &&& t[0].name == "void"@ && t[0].metatype == TypeMetatype::Void && t[0].size == 1
            &&& t[1].name == "bool"@ && t[1].metatype == TypeMetatype::Bool && t[1].size == 1
            &&& t[2].name == "uint1"@ && t[2].metatype == TypeMetatype::Uint && t[2].size == 1
            &&& t[3].name == "uint2"@ && t[3].metatype == TypeMetatype::Uint && t[3].size == 2
            &&& t[4].name == "uint4"@ && t[4].metatype == TypeMetatype::Uint && t[4].size == 4
            &&& t[5].name == "uint8"@ && t[5].metatype == TypeMetatype::Uint && t[5].size == 8
            &&& t[6].name == "int1"@ && t[6].metatype == TypeMetatype::Int && t[6].size == 1
            &&& t[7].name == "int2"@ && t[7].metatype == TypeMetatype::Int && t[7].size == 2
            &&& t[8].name == "int4"@ && t[8].metatype == TypeMetatype::Int && t[8].size == 4
            &&& t[9].name == "int8"@ && t[9].metatype == TypeMetatype::Int && t[9].size == 8
            &&& t[10].name == "float4"@ && t[10].metatype == TypeMetatype::Float && t[10].size == 4
            &&& t[11].name == "float8"@ && t[11].metatype == TypeMetatype::Float && t[11].size == 8
            &&& t[12].name == "float10"@ && t[12].metatype == TypeMetatype::Float && t[12].size
                == 10
            &&& t[13].name == "float16"@ && t[13].metatype == TypeMetatype::Float && t[13].size
                == 16
            &&& t[14].name == "xunknown1"@ && t[14].metatype == TypeMetatype::Unknown && t[14].size
                == 1
            &&& t[15].name == "xunknown2"@ && t[15].metatype == TypeMetatype::Unknown && t[15].size
                == 2
            &&& t[16].name == "xunknown4"@ && t[16].metatype == TypeMetatype::Unknown && t[16].size
                == 4
            &&& t[17].name == "xunknown8"@ && t[17].metatype == TypeMetatype::Unknown && t[17].size
                == 8
            &&& t[18].name == "code"@ && t[18].metatype == TypeMetatype::Code && t[18].size == 1
            &&& t[19].name == "char"@ && t[19].metatype == TypeMetatype::Int && t[19].size == 1
            &&& t[20].name == "wchar2"@ && t[20].metatype == TypeMetatype::Int && t[20].size == 2
            &&& t[21].name == "wchar4"@ && t[21].metatype == TypeMetatype::Int && t[21].size == 4
            &&& forall|i: int| 0 <= i < 22 ==> (#[trigger] t[i]).is_char == (i >= 19)
        }),
{
}

} // verus!
