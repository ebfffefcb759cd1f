//! What the configuration takes from the elements of a compiler specification that
//! concern address spaces: the stack pointer, the alignment of function pointers,
//! the global memory, the spaces that pointers are inferred into.

use vstd::prelude::*;
use vstd::string::*;
use crate::error::{lowlevel_failure, outcome, Failure, KunaError};
use crate::space::{
    engine_wf, insert_result, register_result, space_from, spacebase_info, Engine, EngineView,
    SpaceInfo, SpaceKind, SpaceView, VarnodeData,
};
use crate::text::{join3, offset_value, parse_int, same_text};
use crate::xml::{attr_str, attribute_text, child_named, find_child, Element, SpecDocument};

verus! {

/// The name of the register that the `<stackpointer>` element names.
pub open spec fn stack_register(sp: Element) -> Seq<char> {
    match attribute_text(sp, "register"@) {
        Some(n) => n,
        None => Seq::empty(),
    }
}

/// Whether the engine has its stack space already.
pub open spec fn has_stack_space(e: EngineView) -> bool {
    match space_from(e.spaces, "stack"@, 0) {
        Some(i) => e.spaces[i].info.kind == SpaceKind::Spacebase,
        None => false,
    }
}

/// The bytes of the stack pointer that are used: those that fit an address, where the
/// space that the stack lives in is truncated.
pub open spec fn stack_pointer_size(base: SpaceInfo, register: VarnodeData) -> i32 {
    if base.truncated && register.size > base.addr_size {
        base.addr_size as i32
    } else {
        register.size as i32
    }
}

/// The stack space that a `<stackpointer>` element asks for.
pub open spec fn stack_space(
    e: EngineView,
    sp: Element,
    base: usize,
    register: VarnodeData,
) -> SpaceView {
    SpaceView {
        name: "stack"@,
        info: spacebase_info(
            e.spaces[base as int].info,
            base,
            register,
            e.spaces[register.space->0 as int].info.delay,
            stack_pointer_size(e.spaces[base as int].info, register),
            attribute_text(sp, "reversejustify"@) == Some("true"@),
            match attribute_text(sp, "growth"@) {
                Some(g) => g == "negative"@,
                None => true,
            },
            true,
        ),
    }
}

/// The engine after a `<stackpointer>` element was read.
pub open spec fn stack_pointer_effect(e: EngineView, sp: Element) -> (
    EngineView,
    Result<(), Failure>,
) {
    match attribute_text(sp, "space"@) {
        None => (
            e,
            Err(lowlevel_failure("stackpointer element missing \"space\" attribute"@)),
        ),
        Some(name) => match space_from(e.spaces, name, 0) {
            None => (
                e,
                Err(lowlevel_failure("stackpointer space \""@ + name + "\" not found"@)),
            ),
            Some(base) => match register_result(e, stack_register(sp)) {
                Err(f) => (e, Err(f)),
                Ok(register) => if has_stack_space(e) {
                    (e, Ok(()))
                } else if register.space is None {
                    (e, Err(lowlevel_failure("stackpointer register has no space"@)))
                } else {
                    let (spaces, r) = insert_result(
                        e.spaces,
                        stack_space(e, sp, base as usize, register),
                    );
                    (EngineView { spaces, ..e }, r)
                },
            },
        },
    }
}

/// The engine after the compiler specification was searched for a stack pointer.
pub open spec fn stack_effect(e: EngineView, doc: SpecDocument) -> (
    EngineView,
    Result<(), Failure>,
) {
    match doc {
        SpecDocument::Absent => (e, Ok(())),
        SpecDocument::Malformed(err) => (e, Err(err@)),
        SpecDocument::Root(root) => match child_named(root, "stackpointer"@) {
            None => (e, Ok(())),
            Some(sp) => stack_pointer_effect(e, sp),
        },
    }
}

impl Engine {
    /// Whether the stack space is there.
    pub fn get_stack_space(&self) -> (r: bool)
        ensures
            r == has_stack_space(self@),
    {
        match self.get_space_by_name("stack") {
            Some(i) => self.spaces[i].info.kind == SpaceKind::Spacebase,
            None => false,
        }
    }

    /// Create the stack space that the compiler specification asks for.
    pub fn decode_stack_pointer(&mut self, doc: &SpecDocument) -> (r: Result<(), KunaError>)
        requires
            engine_wf(old(self)@),
        ensures
            engine_wf(final(self)@),
            (final(self)@, outcome(r)) == stack_effect(old(self)@, *doc),
    {
        let root = match doc {
            SpecDocument::Absent => {
                return Ok(());
            },
            SpecDocument::Malformed(e) => {
                return Err(e.clone());
            },
            SpecDocument::Root(root) => root,
        };
        match find_child(root, "stackpointer") {
            None => Ok(()),
            Some(sp) => self.read_stack_pointer(sp),
        }
    }

    fn read_stack_pointer(&mut self, sp: &Element) -> (r: Result<(), KunaError>)
        requires
            engine_wf(old(self)@),
        ensures
            engine_wf(final(self)@),
            (final(self)@, outcome(r)) == stack_pointer_effect(old(self)@, *sp),
    {
        let register_name = match attr_str(sp, "register") {
            Some(n) => n,
            None => String::new(),
        };
        assert(register_name@ =~= stack_register(*sp));
        let grows_negative = match attr_str(sp, "growth") {
            Some(g) => same_text(g.as_str(), "negative"),
            None => true,
        };
        let reverse = match attr_str(sp, "reversejustify") {
            Some(s) => same_text(s.as_str(), "true"),
            None => false,
        };
        let space_name = match attr_str(sp, "space") {
            Some(n) => n,
            None => {
                return Err(
                    KunaError::lowlevel(
                        String::from_str("stackpointer element missing \"space\" attribute"),
                    ),
                );
            },
        };
        let base: usize = match self.get_space_by_name(space_name.as_str()) {
            Some(i) => i,
            None => {
                return Err(
                    KunaError::lowlevel(
                        join3("stackpointer space \"", space_name.as_str(), "\" not found"),
                    ),
                );
            },
        };
        let register = match self.get_register_varnode(register_name.as_str()) {
            Ok(v) => v,
            Err(e) => {
                return Err(e);
            },
        };
        let base_info = self.spaces[base].info;
        let mut trunc_size: i32 = register.size as i32;
        if base_info.truncated && register.size > base_info.addr_size {
            trunc_size = base_info.addr_size as i32;
        }
        if self.get_stack_space() {
            return Ok(());
        }
        if register.space.is_none() {
            return Err(
                KunaError::lowlevel(String::from_str("stackpointer register has no space")),
            );
        }
        self.add_spacebase(base, "stack", register, trunc_size, reverse, grows_negative, true)
    }
}

/// Reading the specification a second time changes nothing.
pub proof fn law_stack_space_is_created_once(e: EngineView, doc: SpecDocument)
    requires
        stack_effect(e, doc).1 is Ok,
    ensures
        stack_effect(stack_effect(e, doc).0, doc) == (stack_effect(e, doc).0, Ok::<(), Failure>(())),
{
    if let SpecDocument::Root(root) = doc {
        if let Some(sp) = child_named(root, "stackpointer"@) {
            let name = attribute_text(sp, "space"@)->0;
            let base = space_from(e.spaces, name, 0)->0;
            let register = register_result(e, stack_register(sp))->Ok_0;
            let s = stack_space(e, sp, base as usize, register);
            if !has_stack_space(e) {
                lemma_space_from_push(e.spaces, s, "stack"@, 0);
                lemma_space_from_push(e.spaces, s, name, 0);
            }
        }
    }
}

proof fn lemma_space_from_push(spaces: Seq<SpaceView>, s: SpaceView, name: Seq<char>, i: int)
    requires
        0 <= i <= spaces.len(),
    ensures
        match space_from(spaces, name, i) {
            Some(k) => i <= k < spaces.len() && space_from(spaces.push(s), name, i) == Some(k),
            None => space_from(spaces.push(s), name, i) == if s.name == name {
                Some(spaces.len() as int)
            } else {
                None
            },
        },
    decreases spaces.len() - i,
{
    if i < spaces.len() {
        assert(spaces.push(s)[i] == spaces[i]);
        lemma_space_from_push(spaces, s, name, i + 1);
    } else {
        assert(spaces.push(s)[i] == s);
        assert(space_from(spaces.push(s), name, i + 1) is None);
    }
}

/// The place of the lowest set bit.
pub open spec fn lowest_bit(n: nat) -> nat
    decreases n,
{
    if n == 0 || n % 2 == 1 {
        0
    } else {
        1 + lowest_bit(n / 2)
    }
}

/// A number whose lowest set bit is the `k`-th is a multiple of two to the `k`-th, and
/// of no higher power.
pub proof fn law_lowest_bit(n: nat)
    requires
        n > 0,
    ensures
        n % vstd::arithmetic::power2::pow2(lowest_bit(n)) == 0,
        (n / vstd::arithmetic::power2::pow2(lowest_bit(n))) % 2 == 1,
    decreases n,
{
    vstd::arithmetic::power2::lemma2_to64();
    if n % 2 == 0 {
        law_lowest_bit(n / 2);
        let k = lowest_bit(n / 2);
        let p = vstd::arithmetic::power2::pow2(k);
        vstd::arithmetic::power2::lemma_pow2_pos(k);
        vstd::arithmetic::power2::lemma_pow2_unfold(k + 1);
        let m = n / 2;
        let q = m / p;
        assert(n == 2 * m);
        vstd::arithmetic::div_mod::lemma_fundamental_div_mod(m as int, p as int);
        assert(m == p * q);
        assert(n == q * (2 * p)) by (nonlinear_arith)
            requires
                n == 2 * m,
                m == p * q,
        ;
        vstd::arithmetic::div_mod::lemma_fundamental_div_mod_converse(
            n as int,
            (2 * p) as int,
            q as int,
            0,
        );
    } else {
        assert(n / 1 == n);
    }
}

/// The alignment of function pointers after the specification was read: the place of
/// the lowest set bit of `<funcptr align>`, 0 where that is 0. Where the specification
/// says nothing, the alignment stays.
pub open spec fn funcptr_effect(was: i32, doc: SpecDocument) -> Result<i32, Failure> {
    match doc {
        SpecDocument::Absent => Ok(was),
        SpecDocument::Malformed(err) => Err(err@),
        SpecDocument::Root(root) => match child_named(root, "funcptr"@) {
            None => Ok(was),
            Some(fp) => match attribute_text(fp, "align"@) {
                None => Ok(was),
                Some(t) => match offset_value(t) {
                    None => Ok(was),
                    Some(a) => Ok(lowest_bit(a) as i32),
                },
            },
        },
    }
}

/// Read the alignment of function pointers from the specification.
pub fn decode_funcptr_align(was: i32, doc: &SpecDocument) -> (r: Result<i32, KunaError>)
    ensures
        outcome(r) == funcptr_effect(was, *doc),
{
    let root = match doc {
        SpecDocument::Absent => {
            return Ok(was);
        },
        SpecDocument::Malformed(e) => {
            return Err(e.clone());
        },
        SpecDocument::Root(root) => root,
    };
    let fp = match find_child(root, "funcptr") {
        None => {
            return Ok(was);
        },
        Some(fp) => fp,
    };
    let align: u64 = match attr_str(fp, "align") {
        None => {
            return Ok(was);
        },
        Some(t) => match parse_int(t.as_str()) {
            None => {
                return Ok(was);
            },
            Some(a) => a,
        },
    };
    if align == 0 {
        return Ok(0);
    }
    let mut bits: i32 = 0;
    let mut a: u64 = align;
    let ghost mut left: nat = 64;
    assert(align < vstd::arithmetic::power2::pow2(64)) by {
        vstd::arithmetic::power2::lemma2_to64();
    }
    while a % 2 == 0
        invariant
            a > 0,
            bits + left == 64,
            a < vstd::arithmetic::power2::pow2(left),
            0 <= bits,
            lowest_bit(align as nat) == bits + lowest_bit(a as nat),
        decreases a,
    {
        proof {
            vstd::arithmetic::power2::lemma2_to64();
            if left == 0 {
                assert(a < 1);
            }
            vstd::arithmetic::power2::lemma_pow2_unfold(left);
            left = (left - 1) as nat;
        }
        bits += 1;
        a = a / 2;
    }
    Ok(bits)
}

/// Whether constants are tested as pointers into a space: not into registers, not
/// into a stack, not into the catch-all space, not into an overlay.
pub open spec fn inferable(info: SpaceInfo) -> bool {
    info.delay != 0 && info.kind != SpaceKind::Spacebase && !info.other && !info.overlay
}

/// Whether the space of this index is a candidate: one that the specification named,
/// or the space of code or data.
pub open spec fn candidate(e: EngineView, named: Seq<usize>, i: int) -> bool {
    ||| exists|k: int| 0 <= k < named.len() && #[trigger] named[k] == i
    ||| e.code_space is Some && e.code_space->0 == i
    ||| e.data_space is Some && e.data_space->0 == i
}

/// The inferable candidates with an index below `n`, ascending.
pub open spec fn inferable_below(e: EngineView, named: Seq<usize>, n: int) -> Seq<usize>
    decreases n,
{
    if n <= 0 {
        seq![]
    } else {
        let rest = inferable_below(e, named, n - 1);
        if candidate(e, named, n - 1) && inferable(e.spaces[n - 1].info) {
            rest.push((n - 1) as usize)
        } else {
            rest
        }
    }
}

/// The list with the given index, where it is in it, changed places with the first.
pub open spec fn promoted(list: Seq<usize>, index: Option<usize>) -> Seq<usize> {
    match index {
        Some(i) => if list.contains(i) {
            let at = list.index_of(i);
            list.update(0, i).update(at, list[0])
        } else {
            list
        },
        None => list,
    }
}

/// The spaces that pointers are inferred into: the inferable candidates in the order
/// of their index, but that the data space comes first.
pub open spec fn infer_spaces(e: EngineView, named: Seq<usize>) -> Seq<usize> {
    promoted(inferable_below(e, named, e.spaces.len() as int), e.data_space)
}

fn holds(list: &Vec<usize>, i: usize) -> (r: bool)
    ensures
        r == exists|k: int| 0 <= k < list@.len() && #[trigger] list@[k] == i,
{
    let mut k: usize = 0;
    while k < list.len()
        invariant
            k <= list@.len(),
            forall|j: int| 0 <= j < k ==> #[trigger] list@[j] != i,
        decreases list@.len() - k,
    {
        if list[k] == i {
            return true;
        }
        k += 1;
    }
    false
}

/// What `inferable_below` lists ascends and is below the bound.
proof fn lemma_inferable_ascends(e: EngineView, named: Seq<usize>, n: int)
    requires
        0 <= n <= e.spaces.len() <= usize::MAX,
    ensures
        ({
            let l = inferable_below(e, named, n);
            &&& forall|a: int, b: int|
                0 <= a < b < l.len() ==> #[trigger] l[a] < #[trigger] l[b]
            &&& forall|a: int| 0 <= a < l.len() ==> #[trigger] l[a] < n
            &&& forall|i: int|
                0 <= i < n ==> (l.contains(i as usize) <==> (#[trigger] candidate(e, named, i)
                    && inferable(e.spaces[i].info)))
        }),
    decreases n,
{
    if n > 0 {
        lemma_inferable_ascends(e, named, n - 1);
        let rest = inferable_below(e, named, n - 1);
        let l = inferable_below(e, named, n);
        if candidate(e, named, n - 1) && inferable(e.spaces[n - 1].info) {
            assert(l[l.len() - 1] == n - 1);
        }
        assert forall|i: int| 0 <= i < n implies (l.contains(i as usize) <==> (
        #[trigger] candidate(e, named, i) && inferable(e.spaces[i].info))) by {
            if l.contains(i as usize) {
                let a = choose|a: int| 0 <= a < l.len() && l[a] == i as usize;
                if a < rest.len() {
                    assert(rest[a] == i as usize);
                    assert(rest.contains(i as usize));
                }
            }
            if i < n - 1 && rest.contains(i as usize) {
                let a = choose|a: int| 0 <= a < rest.len() && rest[a] == i as usize;
                assert(l[a] == i as usize);
            }
        }
    }
}

impl Engine {
    /// The spaces that pointers are inferred into, in the order in which a constant
    /// is tested: the data space first, the others by index. `named` holds the spaces
    /// that the specification named.
    pub fn cache_addr_space_properties(&self, named: &Vec<usize>) -> (r: Vec<usize>)
        ensures
            r@ == infer_spaces(self@, named@),
    {
        let mut r: Vec<usize> = Vec::new();
        let mut i: usize = 0;
        while i < self.spaces.len()
            invariant
                i <= self.spaces@.len(),
                r@ == inferable_below(self@, named@, i as int),
            decreases self.spaces@.len() - i,
        {
            let wanted = holds(named, i) || self.code_space == Some(i) || self.data_space == Some(
                i,
            );
            let info = self.spaces[i].info;
            if wanted && info.delay != 0 && info.kind != SpaceKind::Spacebase && !info.other
                && !info.overlay {
                r.push(i);
            }
            i += 1;
        }
        proof {
            lemma_inferable_ascends(self@, named@, self@.spaces.len() as int);
        }
        if let Some(data) = self.data_space {
            let mut at: usize = 0;
            while at < r.len() && r[at] != data
                invariant
                    at <= r@.len(),
                    forall|j: int| 0 <= j < at ==> #[trigger] r@[j] != data,
                decreases r@.len() - at,
            {
                at += 1;
            }
            if at < r.len() {
                assert(r@.contains(data));
                assert(r@.index_of(data) == at);
                let first: usize = r[0];
                r[0] = data;
                r[at] = first;
            }
        }
        r
    }
}

/// No space is listed twice, and the listed ones are the inferable candidates.
pub proof fn law_infer_spaces_are_the_candidates(e: EngineView, named: Seq<usize>, i: int)
    requires
        e.spaces.len() <= usize::MAX,
        0 <= i < e.spaces.len(),
    ensures
        infer_spaces(e, named).no_duplicates(),
        infer_spaces(e, named).contains(i as usize) <==> (candidate(e, named, i) && inferable(
            e.spaces[i].info,
        )),
{
    let n = e.spaces.len() as int;
    let l = inferable_below(e, named, n);
    let r = infer_spaces(e, named);
    lemma_inferable_ascends(e, named, n);
    assert(l.no_duplicates());
    assert(l.contains(i as usize) <==> (candidate(e, named, i) && inferable(e.spaces[i].info)));
    if e.data_space is Some && l.contains(e.data_space->0) {
        let data = e.data_space->0;
        let at = l.index_of(data);
        assert(l[at] == data);
        assert(r.len() == l.len());
        assert(r[at] == l[0] && r[0] == data);
        assert(forall|k: int| 0 < k < l.len() && k != at ==> r[k] == l[k]);
        if l.contains(i as usize) {
            let a = choose|a: int| 0 <= a < l.len() && l[a] == i as usize;
            if a == at {
                assert(r[0] == i as usize);
            } else if a == 0 {
                assert(r[at] == i as usize);
            } else {
                assert(r[a] == i as usize);
            }
        }
        if r.contains(i as usize) {
            let a = choose|a: int| 0 <= a < r.len() && r[a] == i as usize;
            if a == 0 {
                assert(l[at] == i as usize);
            } else if a == at {
                assert(l[0] == i as usize);
            } else {
                assert(l[a] == i as usize);
            }
        }
    }
}

/// Before the data space is moved to the front, the listed spaces ascend.
pub proof fn law_inferable_spaces_ascend(e: EngineView, named: Seq<usize>, a: int, b: int)
    requires
        e.spaces.len() <= usize::MAX,
        0 <= a < b < inferable_below(e, named, e.spaces.len() as int).len(),
    ensures
        inferable_below(e, named, e.spaces.len() as int)[a] < inferable_below(
            e,
            named,
            e.spaces.len() as int,
        )[b],
{
    lemma_inferable_ascends(e, named, e.spaces.len() as int);
}

/// The data space, where pointers are inferred into it at all, is tested first.
pub proof fn law_data_space_comes_first(e: EngineView, named: Seq<usize>)
    requires
        e.spaces.len() <= usize::MAX,
        e.data_space is Some,
        e.data_space->0 < e.spaces.len(),
        inferable(e.spaces[e.data_space->0 as int].info),
    ensures
        infer_spaces(e, named).len() > 0,
        infer_spaces(e, named)[0] == e.data_space->0,
{
    let n = e.spaces.len() as int;
    let d = e.data_space->0 as int;
    lemma_inferable_ascends(e, named, n);
    assert(candidate(e, named, d));
    let l = inferable_below(e, named, n);
    assert(l.contains(d as usize));
    let at = l.index_of(d as usize);
    assert(l[at] == d as usize);
}

/// Two lists of named spaces with the same inferable candidates give the same list.
proof fn lemma_same_candidates(e: EngineView, named: Seq<usize>, other: Seq<usize>, n: int)
    requires
        forall|i: int|
            0 <= i < n && inferable(e.spaces[i].info) ==> #[trigger] candidate(e, named, i)
                == candidate(e, other, i),
    ensures
        inferable_below(e, named, n) == inferable_below(e, other, n),
    decreases n,
{
    if n > 0 {
        lemma_same_candidates(e, named, other, n - 1);
        assert(inferable(e.spaces[n - 1].info) ==> candidate(e, named, n - 1) == candidate(
            e,
            other,
            n - 1,
        ));
    }
}

/// The spaces that pointers are inferred into stay what they are when they are noted down
/// a second time.
pub proof fn law_infer_spaces_are_noted_once(e: EngineView, named: Seq<usize>)
    requires
        e.spaces.len() <= usize::MAX,
    ensures
        infer_spaces(e, infer_spaces(e, named)) == infer_spaces(e, named),
{
    let n = e.spaces.len() as int;
    let r = infer_spaces(e, named);
    assert forall|i: int| 0 <= i < n && inferable(e.spaces[i].info) implies #[trigger] candidate(
        e,
        r,
        i,
    ) == candidate(e, named, i) by {
        law_infer_spaces_are_the_candidates(e, named, i);
        if r.contains(i as usize) {
            let k = choose|k: int| 0 <= k < r.len() && r[k] == i as usize;
            assert(r[k] == i);
        }
        if exists|k: int| 0 <= k < r.len() && #[trigger] r[k] == i {
            let k = choose|k: int| 0 <= k < r.len() && #[trigger] r[k] == i;
            assert(r[k] == i as usize);
            assert(r.contains(i as usize));
        }
    }
    lemma_same_candidates(e, r, named, n);
}

/// A range of memory: a space, by index, and the first and last offset.
#[derive(Debug, Clone, Copy, PartialEq, Eq, Structural)]
pub struct MemoryRange {
    pub space: usize,
    pub first: u64,
    pub last: u64,
}

/// What the element of place `i` in `<global>` adds: a register its own bytes, a
/// range what its decoding gave, anything else nothing.
pub open spec fn global_child(
    e: EngineView,
    child: Element,
    range: Result<MemoryRange, KunaError>,
) -> Result<Option<MemoryRange>, Failure> {
    if child.name@ == "register"@ {
        match attribute_text(child, "name"@) {
            None => Ok(None),
            Some(name) => match register_result(e, name) {
                Err(f) => Err(f),
                Ok(v) => match v.space {
                    None => Ok(None),
                    Some(space) => Ok(
                        Some(
                            MemoryRange {
                                space,
                                first: v.offset,
                                last: ((v.offset + v.size + u64::MAX) % 0x1_0000_0000_0000_0000)
                                    as u64,
                            },
                        ),
                    ),
                },
            },
        }
    } else if child.name@ == "range"@ {
        match range {
            Ok(g) => Ok(Some(g)),
            Err(err) => Err(err@),
        }
    } else {
        Ok(None)
    }
}

/// The ranges that the first `n` children of `<global>` add, or the first failure.
pub open spec fn global_children(
    e: EngineView,
    el: Element,
    ranges: Seq<Result<MemoryRange, KunaError>>,
    n: int,
) -> Result<Seq<MemoryRange>, Failure>
    decreases n,
{
    if n <= 0 {
        Ok(seq![])
    } else {
        match global_children(e, el, ranges, n - 1) {
            Err(f) => Err(f),
            Ok(before) => match global_child(e, el.children@[n - 1], ranges[n - 1]) {
                Err(f) => Err(f),
                Ok(None) => Ok(before),
                Ok(Some(g)) => Ok(before.push(g)),
            },
        }
    }
}

/// The element of the specification that lists the global memory.
pub open spec fn global_element(doc: SpecDocument) -> Option<Element> {
    match doc {
        SpecDocument::Root(root) => child_named(root, "global"@),
        _ => None,
    }
}

/// The ranges that the specification makes global. `ranges` holds, for each child of
/// the `<global>` element, what decoding it as a range gave; it is looked at for
/// `<range>` children only.
#[verifier::opaque]
pub open spec fn global_result(
    e: EngineView,
    doc: SpecDocument,
    has_scope: bool,
    ranges: Seq<Result<MemoryRange, KunaError>>,
) -> Result<Seq<MemoryRange>, Failure> {
    match doc {
        SpecDocument::Malformed(err) => Err(err@),
        _ => match global_element(doc) {
            None => Ok(seq![]),
            Some(el) => if has_scope {
                global_children(e, el, ranges, el.children@.len() as int)
            } else {
                Ok(seq![])
            },
        },
    }
}

/// A failure among the first children is the failure of all.
proof fn lemma_global_stops(
    e: EngineView,
    el: Element,
    ranges: Seq<Result<MemoryRange, KunaError>>,
    n: int,
    m: int,
)
    requires
        0 <= n <= m,
        global_children(e, el, ranges, n) is Err,
    ensures
        global_children(e, el, ranges, m) == global_children(e, el, ranges, n),
    decreases m,
{
    if n < m {
        lemma_global_stops(e, el, ranges, n, m - 1);
    }
}

impl Engine {
    /// The ranges that the specification makes global. `has_scope` tells whether
    /// there is a global scope to own them.
    pub fn decode_global(
        &self,
        doc: &SpecDocument,
        has_scope: bool,
        ranges: &Vec<Result<MemoryRange, KunaError>>,
    ) -> (r: Result<Vec<MemoryRange>, KunaError>)
        requires
            global_element(*doc) is Some ==> ranges@.len()
                == (global_element(*doc)->0).children@.len(),
        ensures
            match r {
                Ok(v) => global_result(self@, *doc, has_scope, ranges@) == Ok::<
                    Seq<MemoryRange>,
                    Failure,
                >(v@),
                Err(err) => global_result(self@, *doc, has_scope, ranges@) == Err::<
                    Seq<MemoryRange>,
                    Failure,
                >(err@),
            },
    {
        reveal(global_result);
        let mut out: Vec<MemoryRange> = Vec::new();
        let root = match doc {
            SpecDocument::Absent => {
                return Ok(out);
            },
            SpecDocument::Malformed(e) => {
                return Err(e.clone());
            },
            SpecDocument::Root(root) => root,
        };
        let el = match find_child(root, "global") {
            None => {
                return Ok(out);
            },
            Some(el) => el,
        };
        if !has_scope {
            return Ok(out);
        }
        let mut i: usize = 0;
        while i < el.children.len()
            invariant
                i <= el.children@.len(),
                ranges@.len() == el.children@.len(),
                global_result(self@, *doc, has_scope, ranges@) == global_children(
                    self@,
                    *el,
                    ranges@,
                    el.children@.len() as int,
                ),
                global_children(self@, *el, ranges@, i as int) == Ok::<
                    Seq<MemoryRange>,
                    Failure,
                >(out@),
            decreases el.children@.len() - i,
        {
            match self.read_global_child(&el.children[i], &ranges[i]) {
                Err(err) => {
                    proof {
                        lemma_global_stops(
                            self@,
                            *el,
                            ranges@,
                            i + 1,
                            el.children@.len() as int,
                        );
                    }
                    return Err(err);
                },
                Ok(None) => {},
                Ok(Some(g)) => {
                    out.push(g);
                },
            }
            i += 1;
        }
        Ok(out)
    }

    fn read_global_child(&self, child: &Element, range: &Result<MemoryRange, KunaError>) -> (r:
        Result<Option<MemoryRange>, KunaError>)
        ensures
            outcome(r) == global_child(self@, *child, *range),
    {
        if same_text(child.name.as_str(), "register") {
            match attr_str(child, "name") {
                None => Ok(None),
                Some(name) => match self.get_register_varnode(name.as_str()) {
                    Err(e) => Err(e),
                    Ok(v) => match v.space {
                        None => Ok(None),
                        Some(space) => {
                            let last: u64 = v.offset.wrapping_sub(1).wrapping_add(v.size as u64);
                            Ok(Some(MemoryRange { space, first: v.offset, last }))
                        },
                    },
                },
            }
        } else if same_text(child.name.as_str(), "range") {
            match range {
                Ok(g) => Ok(Some(*g)),
                Err(e) => Err(e.clone()),
            }
        } else {
            Ok(None)
        }
    }
}

} // verus!
