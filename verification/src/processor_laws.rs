//! What reading a processor specification comes to: vector registers, volatile memory, symbols
//! and registers with a known value.

use vstd::prelude::*;
use crate::cspec::MemoryRange;
use crate::error::{ErrorKind, Failure, KunaError};
use crate::layout_laws::{is_first_child, law_child_is_found, no_child};
use crate::pspec::{
    context_use, lane_request, laned_child, laned_children, mask_for, processor_document,
    processor_parts, volatile_children, ContextUse, LaneRequestView, LanedRegister,
};
use crate::pspec_symbols::{
    address_question, symbol_child, symbol_children, symbols_result, tracked_children, tracked_sets,
    with_seeds, AddressQuestionView, SymbolActionView, SymbolEndView, SymbolState, TrackedContext,
    TrackedDecode,
};
use crate::space::{Address, EngineView};
use crate::text::i32_value;
use crate::xml::{attribute_text, Element, SpecDocument};

verus! {

// ---- the document -------------------------------------------------------------------

/// The processor specification is the root of its document, or the first child of that name.
pub proof fn law_processor_spec_is_found(root: Element, n: int, err: KunaError)
    ensures
        processor_document(SpecDocument::Absent) == Ok::<Option<Element>, Failure>(None),
        processor_document(SpecDocument::Malformed(err)) == Err::<Option<Element>, Failure>(err@),
        root.name@ == "processor_spec"@ ==> processor_document(SpecDocument::Root(root)) == Ok::<
            Option<Element>,
            Failure,
        >(Some(root)),
        root.name@ != "processor_spec"@ && is_first_child(root, "processor_spec"@, n)
            ==> processor_document(SpecDocument::Root(root)) == Ok::<Option<Element>, Failure>(
            Some(root.children@[n]),
        ),
        root.name@ != "processor_spec"@ && no_child(root, "processor_spec"@) ==> processor_document(
            SpecDocument::Root(root),
        ) == Ok::<Option<Element>, Failure>(None),
{
    law_child_is_found(root, "processor_spec"@, n);
}

/// The parts of a processor specification are found by their names, the first of each.
pub proof fn law_processor_parts_by_name(pspec: Element, i: int)
    ensures
        is_first_child(pspec, "register_data"@, i) ==> processor_parts(pspec).0 == Some(
            pspec.children@[i],
        ),
        no_child(pspec, "register_data"@) ==> processor_parts(pspec).0 is None,
        is_first_child(pspec, "volatile"@, i) ==> processor_parts(pspec).1 == Some(
            pspec.children@[i],
        ),
        no_child(pspec, "volatile"@) ==> processor_parts(pspec).1 is None,
        is_first_child(pspec, "context_data"@, i) ==> processor_parts(pspec).2 == Some(
            pspec.children@[i],
        ),
        no_child(pspec, "context_data"@) ==> processor_parts(pspec).2 is None,
{
    law_child_is_found(pspec, "register_data"@, i);
    law_child_is_found(pspec, "volatile"@, i);
    law_child_is_found(pspec, "context_data"@, i);
}

/// All context is applied by an engine that decodes here; another takes the registers with a
/// known value only. Without context there is nothing to do.
pub proof fn law_context_use(pspec: Element, n: int, local: bool)
    ensures
        no_child(pspec, "context_data"@) ==> context_use(pspec, local) == ContextUse::Nothing,
        is_first_child(pspec, "context_data"@, n) && local ==> context_use(pspec, local)
            == ContextUse::All,
        is_first_child(pspec, "context_data"@, n) && !local ==> context_use(pspec, local)
            == ContextUse::TrackedOnly,
{
    law_child_is_found(pspec, "context_data"@, n);
}

// ---- vector registers ---------------------------------------------------------------

/// What is asked about a register with lanes: its own size, and the lane sizes as they are
/// written. Nothing is asked about another element, or without lane sizes or a name.
pub proof fn law_lanes_are_asked(e: EngineView, reg: Element, name: Seq<char>, sizes: Seq<char>)
    ensures
        ({
            let r = lane_request(e, reg);
            let register = reg.name@ == "register"@;
            let lanes = attribute_text(reg, "vector_lane_sizes"@);
            let called = attribute_text(reg, "name"@) == Some(name);
            &&& register && lanes == Some(sizes) && sizes.len() > 0 && called
                && e.registers.contains_key(name) ==> (r matches Ok(Some(q)) && q.size
                == e.registers[name].size && q.lane_sizes == sizes)
            &&& register && lanes == Some(sizes) && sizes.len() > 0 && called
                && !e.registers.contains_key(name) ==> (r matches Err(f) && f.kind
                == ErrorKind::Lowlevel && f.text == "Unknown register name: "@ + name)
            &&& !register || lanes is None || (lanes matches Some(t) && t.len() == 0)
                || attribute_text(reg, "name"@) is None ==> r == Ok::<
                Option<LaneRequestView>,
                Failure,
            >(None)
        }),
{
}

/// A register with lanes is recorded with its own size and the mask that was answered.
pub proof fn law_lanes_are_recorded(e: EngineView, reg: Element, mask: Result<u32, KunaError>)
    ensures
        ({
            let q = lane_request(e, reg);
            let r = laned_child(e, reg, mask);
            &&& q matches Err(f) ==> r == Err::<Option<LanedRegister>, Failure>(f)
            &&& q == Ok::<Option<LaneRequestView>, Failure>(None) ==> r == Ok::<
                Option<LanedRegister>,
                Failure,
            >(None)
            &&& q matches Ok(Some(x)) ==> match mask {
                Ok(m) => r matches Ok(Some(l)) && l.mask == m && (x.size <= i32::MAX
                    ==> l.whole_size == x.size),
                Err(err) => r == Err::<Option<LanedRegister>, Failure>(err@),
            }
        }),
{
}

/// The children of `<register_data>` are taken in order; the first that fails fails all.
pub proof fn law_lanes_in_order(
    e: EngineView,
    el: Element,
    masks: Seq<Result<u32, KunaError>>,
    n: int,
)
    requires
        0 <= n < el.children@.len(),
    ensures
        laned_children(e, el, masks, 0) matches Ok(l) && l.len() == 0,
        ({
            let before = laned_children(e, el, masks, n);
            let after = laned_children(e, el, masks, n + 1);
            let own = laned_child(e, el.children@[n], masks[n]);
            &&& before is Err ==> after == before
            &&& before is Ok && own is Err ==> after is Err && after->Err_0 == own->Err_0
            &&& before is Ok ==> (own matches Ok(Some(l)) ==> after is Ok && after->Ok_0
                == before->Ok_0.push(l))
            &&& before is Ok && own == Ok::<Option<LanedRegister>, Failure>(None) ==> after
                == before
        }),
{
}

/// The lane sizes of a register size are those of all registers of that size together: each
/// register's are among them, and each of them is some register's.
pub proof fn law_masks_are_gathered(list: Seq<LanedRegister>, size: int, i: int, bit: u32)
    ensures
        0 <= i < list.len() && list[i].whole_size == size ==> mask_for(list, size) & list[i].mask
            == list[i].mask,
        mask_for(list, size) & bit != 0 ==> exists|j: int|
            0 <= j < list.len() && (#[trigger] list[j]).whole_size == size && list[j].mask & bit
                != 0,
    decreases list.len(),
{
    if list.len() > 0 {
        let rest = list.drop_last();
        let last = list.last();
        let m = mask_for(rest, size);
        law_masks_are_gathered(rest, size, i, bit);
        let x = last.mask;
        if last.whole_size == size {
            assert((m | x) & x == x) by (bit_vector);
            if 0 <= i < rest.len() && list[i].whole_size == size {
                let y = list[i].mask;
                assert(rest[i] == list[i]);
                assert((m | x) & y == y) by (bit_vector)
                    requires
                        m & y == y,
                ;
            }
            if (m | x) & bit != 0 {
                assert(m & bit != 0 || x & bit != 0) by (bit_vector)
                    requires
                        (m | x) & bit != 0,
                ;
                if x & bit != 0 {
                    assert(list[list.len() - 1].mask & bit != 0);
                } else {
                    let j = choose|j: int|
                        0 <= j < rest.len() && (#[trigger] rest[j]).whole_size == size
                            && rest[j].mask & bit != 0;
                    assert(list[j] == rest[j]);
                }
            }
        } else {
            if 0 <= i < rest.len() {
                assert(rest[i] == list[i]);
            }
            if m & bit != 0 {
                let j = choose|j: int|
                    0 <= j < rest.len() && (#[trigger] rest[j]).whole_size == size && rest[j].mask
                        & bit != 0;
                assert(list[j] == rest[j]);
            }
        }
    } else {
        assert(0u32 & bit == 0) by (bit_vector);
    }
}

// ---- volatile memory ----------------------------------------------------------------

/// The ranges of a `<volatile>` element are marked in order; the first that cannot be decoded
/// ends it, and those before it stay marked.
pub proof fn law_volatile_ranges_in_order(
    el: Element,
    ranges: Seq<Result<MemoryRange, KunaError>>,
    n: int,
)
    requires
        0 <= n < el.children@.len(),
    ensures
        volatile_children(el, ranges, 0).ranges.len() == 0,
        volatile_children(el, ranges, 0).failure is None,
        ({
            let before = volatile_children(el, ranges, n);
            let after = volatile_children(el, ranges, n + 1);
            let range = el.children@[n].name@ == "range"@;
            &&& before.failure is Some || !range ==> after == before
            &&& before.failure is None && range ==> match ranges[n] {
                Ok(m) => after.ranges == before.ranges.push(m) && after.failure is None,
                Err(err) => after.ranges == before.ranges && after.failure == Some(err@),
            }
        }),
{
}

// ---- symbols ------------------------------------------------------------------------

/// What is asked about the address of a symbol: the text that it gives, empty where it gives
/// none; but `next` lies behind the symbol before it, by that symbol's size.
pub proof fn law_symbol_address_is_asked(child: Element, st: SymbolState, t: Seq<char>)
    ensures
        attribute_text(child, "address"@) == Some(t) && t != "next"@ ==> address_question(child, st)
            == AddressQuestionView::Parse(t),
        attribute_text(child, "address"@) == Some("next"@) && st.last_size == -1
            ==> address_question(child, st) == AddressQuestionView::Parse("next"@),
        attribute_text(child, "address"@) == Some("next"@) && st.last_size != -1
            ==> address_question(child, st) == AddressQuestionView::After(
            st.last_addr,
            st.last_size,
        ),
        attribute_text(child, "address"@) is None ==> (address_question(child, st)
            matches AddressQuestionView::Parse(x) && x.len() == 0),
{
    reveal_strlit("next");
    assert("next"@.len() == 4);
}

/// The size that a symbol gives, where it gives a number that is not zero.
pub open spec fn gives_size(child: Element, v: int) -> bool {
    attribute_text(child, "size"@) matches Some(t) && i32_value(t) == Some(v) && v != 0
}

/// Whether a symbol gives no size of its own.
pub open spec fn gives_no_size(child: Element) -> bool {
    match attribute_text(child, "size"@) {
        None => true,
        Some(t) => i32_value(t) is None || i32_value(t) == Some(0int),
    }
}

/// A symbol is added where it lies, with its own size or else with that of an addressable unit.
/// Where it says whether it is volatile, its bytes are marked so first. The next symbol follows
/// it.
pub proof fn law_symbol_is_added(
    e: EngineView,
    child: Element,
    a: Seq<Result<Address, Failure>>,
    st: SymbolState,
    name: Seq<char>,
    at: Address,
    v: int,
)
    requires
        child.name@ == "symbol"@,
        attribute_text(child, "name"@) == Some(name),
        name.len() > 0,
        0 <= st.k < a.len(),
        a[st.k] == Ok::<Address, Failure>(at),
        at.space is Some,
    ensures
        ({
            let r = symbol_child(e, child, a, st);
            let after = r->Ok_0;
            let size = after.last_size;
            let n = st.actions.len() as int;
            let mark = attribute_text(child, "volatile"@);
            let on = mark == Some("true"@) || mark == Some("yes"@) || mark == Some("1"@);
            let space = at.space->0;
            &&& r is Ok
            &&& gives_size(child, v) ==> size == v
            &&& gives_no_size(child) && space < e.spaces.len() ==> size
                == e.spaces[space as int].info.word_size as i32
            &&& gives_no_size(child) && space >= e.spaces.len() ==> size == 1
            &&& after.last_addr == at && after.k == st.k + 1
            &&& st.actions.is_prefix_of(after.actions)
            &&& after.actions.last() == SymbolActionView::AddSymbol(name, size, at)
            &&& mark is None ==> after.actions.len() == n + 1
            &&& mark is Some ==> {
                &&& after.actions.len() == n + 2
                &&& after.actions[n] matches SymbolActionView::Volatile(m, b) && b == on && m.space
                    == space && m.first == at.offset && (size > 0 && at.offset + size - 1
                    <= u64::MAX ==> m.last == at.offset + size - 1) && (size > 0 && at.offset + size
                    - 1 > u64::MAX ==> m.last == at.offset + size - 1 - u64::MAX - 1)
            }
        }),
{
    let after = symbol_child(e, child, a, st)->Ok_0;
    let size = after.last_size;
    if size > 0 && at.offset + size - 1 > u64::MAX {
        assert((at.offset + size - 1) % 0x1_0000_0000_0000_0000 == at.offset + size - 1
            - 0x1_0000_0000_0000_0000) by (nonlinear_arith)
            requires
                0x1_0000_0000_0000_0000 <= at.offset + size - 1 < 2 * 0x1_0000_0000_0000_0000,
        ;
    }
}

/// What a symbol cannot do without: a name that is not empty, and an address. A refused address
/// fails it, a missing answer is asked for, and another element is passed over.
pub proof fn law_bad_symbols_fail(
    e: EngineView,
    child: Element,
    a: Seq<Result<Address, Failure>>,
    st: SymbolState,
    name: Seq<char>,
)
    requires
        0 <= st.k,
    ensures
        ({
            let r = symbol_child(e, child, a, st);
            let symbol = child.name@ == "symbol"@;
            let called = attribute_text(child, "name"@) == Some(name) && name.len() > 0;
            let nameless = attribute_text(child, "name"@) is None || (attribute_text(child, "name"@)
                matches Some(t) && t.len() == 0);
            &&& !symbol ==> r == Ok::<SymbolState, SymbolEndView>(st)
            &&& symbol && nameless ==> (r matches Err(SymbolEndView::Fail(f)) && f.kind
                == ErrorKind::Lowlevel && f.text
                == "Missing name attribute in <symbol> element"@)
            &&& symbol && called && st.k >= a.len() ==> r == Err::<SymbolState, SymbolEndView>(
                SymbolEndView::Ask(address_question(child, st)),
            )
            &&& symbol && called && st.k < a.len() ==> (a[st.k] matches Err(f) ==> r == Err::<
                SymbolState,
                SymbolEndView,
            >(SymbolEndView::Fail(f)))
            &&& symbol && called && st.k < a.len() ==> (a[st.k] matches Ok(at) ==> (at.space is None
                ==> (r matches Err(SymbolEndView::Fail(f)) && f.kind == ErrorKind::Lowlevel
                && f.text == "Missing address attribute in <symbol> element"@)))
        }),
{
}

/// The symbols are read in order from an unknown place; the first that fails or asks ends the
/// reading, and what those before it asked for stays.
pub proof fn law_symbols_in_order(e: EngineView, el: Element, a: Seq<Result<Address, Failure>>, n: int)
    requires
        0 <= n < el.children@.len(),
    ensures
        ({
            let (st, end) = symbol_children(e, el, a, 0);
            &&& end is Done
            &&& st.actions.len() == 0 && st.last_size == -1 && st.last_addr.space is None && st.k == 0
        }),
        ({
            let (st, end) = symbol_children(e, el, a, n);
            let after = symbol_children(e, el, a, n + 1);
            &&& !(end is Done) ==> after == (st, end)
            &&& end is Done ==> match symbol_child(e, el.children@[n], a, st) {
                Ok(next) => after.0 == next && after.1 is Done,
                Err(stop) => after.0 == st && after.1 == stop,
            }
        }),
{
}

/// The symbols are those of the first `<default_symbols>` of the processor specification, where
/// there is a scope for them.
pub proof fn law_symbols_are_found(
    e: EngineView,
    root: Element,
    n: int,
    has_scope: bool,
    a: Seq<Result<Address, Failure>>,
    err: KunaError,
)
    requires
        root.name@ == "processor_spec"@,
    ensures
        ({
            let (l, end) = symbols_result(e, SpecDocument::Malformed(err), has_scope, a);
            l.len() == 0 && end == SymbolEndView::Fail(err@)
        }),
        ({
            let (l, end) = symbols_result(e, SpecDocument::Absent, has_scope, a);
            l.len() == 0 && end is Done
        }),
        no_child(root, "default_symbols"@) || !has_scope ==> {
            let (l, end) = symbols_result(e, SpecDocument::Root(root), has_scope, a);
            l.len() == 0 && end is Done
        },
        is_first_child(root, "default_symbols"@, n) && has_scope ==> {
            let el = root.children@[n];
            let (st, end) = symbol_children(e, el, a, el.children@.len() as int);
            symbols_result(e, SpecDocument::Root(root), has_scope, a) == (st.actions, end)
        },
{
    law_child_is_found(root, "default_symbols"@, n);
}

// ---- registers with a known value ---------------------------------------------------

/// Whether the child names a register that the engine knows.
pub open spec fn names_known(e: EngineView, set: Element) -> bool {
    attribute_text(set, "name"@) matches Some(t) && e.registers.contains_key(t)
}

/// Whether the child names a known register and its value can be read.
pub open spec fn is_known_value(
    e: EngineView,
    el: Element,
    values: Seq<Result<u64, KunaError>>,
    i: int,
) -> bool {
    names_known(e, el.children@[i]) && values[i] is Ok
}

/// How many of the first `n` children name a known register with a value.
pub open spec fn known_values(
    e: EngineView,
    el: Element,
    values: Seq<Result<u64, KunaError>>,
    n: int,
) -> nat
    decreases n,
{
    if n <= 0 {
        0
    } else if is_known_value(e, el, values, n - 1) {
        known_values(e, el, values, n - 1) + 1
    } else {
        known_values(e, el, values, n - 1)
    }
}

/// A set holds each register that is known with the value that it was given, whatever that
/// value is, in the order of its children, and nothing else.
pub proof fn law_known_values_are_kept(
    e: EngineView,
    el: Element,
    values: Seq<Result<u64, KunaError>>,
    n: int,
    i: int,
)
    requires
        0 <= n,
    ensures
        ({
            let l = tracked_children(e, el, values, n);
            let name = attribute_text(el.children@[i], "name"@)->0;
            let place = known_values(e, el, values, i) as int;
            &&& l.len() == known_values(e, el, values, n)
            &&& 0 <= i < n && is_known_value(e, el, values, i) ==> place < l.len()
                && l[place].location == e.registers[name] && l[place].value == values[i]->Ok_0
        }),
    decreases n,
{
    if n > 0 {
        law_known_values_are_kept(e, el, values, n - 1, i);
    }
}

/// The range of a set is marked with its registers where it can be decoded and has any; other
/// sets, and other elements, mark nothing, and each set is read whatever became of the others.
pub proof fn law_known_ranges_in_order(
    e: EngineView,
    el: Element,
    decoded: Seq<TrackedDecode>,
    n: int,
)
    requires
        0 <= n < el.children@.len(),
    ensures
        tracked_sets(e, el, decoded, 0).len() == 0,
        ({
            let child = el.children@[n];
            let before = tracked_sets(e, el, decoded, n);
            let after = tracked_sets(e, el, decoded, n + 1);
            let registers = tracked_children(
                e,
                child,
                decoded[n].values@,
                child.children@.len() as int,
            );
            let set = child.name@ == "tracked_set"@;
            &&& set && registers.len() > 0 ==> match decoded[n].range {
                Ok((first, end)) => after.len() == before.len() + 1 && after.drop_last() == before
                    && after.last().first == first && after.last().end == end
                    && after.last().registers == registers,
                Err(_) => after == before,
            }
            &&& !set || registers.len() == 0 ==> after == before
        }),
{
    let before = tracked_sets(e, el, decoded, n);
    let after = tracked_sets(e, el, decoded, n + 1);
    if after.len() > before.len() {
        assert(after.drop_last() =~= before);
    }
}

/// A seed is added at the end where nothing tracks its register yet, and is dropped else.
pub proof fn law_seed_is_added_or_dropped(
    known: Seq<TrackedContext>,
    seeds: Seq<TrackedContext>,
    seed: TrackedContext,
)
    ensures
        with_seeds(known, seeds.take(0)) == known,
        ({
            let before = with_seeds(known, seeds);
            let taken = exists|i: int|
                0 <= i < before.len() && (#[trigger] before[i]).location == seed.location;
            &&& taken ==> with_seeds(known, seeds.push(seed)) == before
            &&& !taken ==> with_seeds(known, seeds.push(seed)) == before.push(seed)
        }),
{
    assert(seeds.push(seed).drop_last() =~= seeds);
}

} // verus!
