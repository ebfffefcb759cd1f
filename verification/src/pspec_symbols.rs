//! The symbols and the registers with a known value that a processor specification
//! declares.

use vstd::prelude::*;
use vstd::string::*;
use crate::cspec::MemoryRange;
use crate::error::{lowlevel_failure, Failure, KunaError};
use crate::pspec::processor_spec;
use crate::space::{register_result, Address, Engine, EngineView, VarnodeData};
use crate::text::{i32_value, parse_i32, same_text};
use crate::xml::{
    attr_str, attribute_text, bool_attr, child_named, decode_bool_attr, find_child, Element,
    SpecDocument,
};

verus! {

/// A question about an address.
#[derive(Debug)]
pub enum AddressQuestion {
    /// Which address does the text write?
    Parse(String),
    /// Which address lies that many bytes after this one?
    After(Address, i32),
}

/// What contracts say of an [`AddressQuestion`].
pub enum AddressQuestionView {
    Parse(Seq<char>),
    After(Address, i32),
}

impl View for AddressQuestion {
    type V = AddressQuestionView;

    open spec fn view(&self) -> AddressQuestionView {
        match *self {
            AddressQuestion::Parse(s) => AddressQuestionView::Parse(s@),
            AddressQuestion::After(a, n) => AddressQuestionView::After(a, n),
        }
    }
}

/// Something to do to the symbol table.
#[derive(Debug)]
pub enum SymbolAction {
    /// Mark memory as volatile, or as not volatile.
    Volatile(MemoryRange, bool),
    /// Add a symbol of this size without a type.
    AddSymbol(String, i32, Address),
}

/// What contracts say of a [`SymbolAction`].
pub enum SymbolActionView {
    Volatile(MemoryRange, bool),
    AddSymbol(Seq<char>, i32, Address),
}

impl View for SymbolAction {
    type V = SymbolActionView;

    open spec fn view(&self) -> SymbolActionView {
        match *self {
            SymbolAction::Volatile(m, on) => SymbolActionView::Volatile(m, on),
            SymbolAction::AddSymbol(s, n, a) => SymbolActionView::AddSymbol(s@, n, a),
        }
    }
}

/// What contracts say of a list of actions.
pub open spec fn symbol_actions(v: Seq<SymbolAction>) -> Seq<SymbolActionView> {
    v.map_values(|a: SymbolAction| a@)
}

/// How a reading of symbols ends.
#[derive(Debug)]
pub enum SymbolEnd {
    /// All symbols are read.
    Done,
    /// A symbol cannot be read.
    Fail(KunaError),
    /// A question is open.
    Ask(AddressQuestion),
}

/// What contracts say of a [`SymbolEnd`].
pub enum SymbolEndView {
    Done,
    Fail(Failure),
    Ask(AddressQuestionView),
}

impl View for SymbolEnd {
    type V = SymbolEndView;

    open spec fn view(&self) -> SymbolEndView {
        match *self {
            SymbolEnd::Done => SymbolEndView::Done,
            SymbolEnd::Fail(e) => SymbolEndView::Fail(e@),
            SymbolEnd::Ask(q) => SymbolEndView::Ask(q@),
        }
    }
}

/// What contracts say of the answers to questions about addresses.
pub open spec fn address_answers(a: Seq<Result<Address, KunaError>>) -> Seq<
    Result<Address, Failure>,
> {
    a.map_values(
        |r: Result<Address, KunaError>|
            match r {
                Ok(v) => Ok::<Address, Failure>(v),
                Err(e) => Err(e@),
            },
    )
}

/// How far the symbols have been read: what is to be done, where the last symbol lies,
/// how large it is, -1 before the first, and how many questions were answered.
#[verifier::ext_equal]
pub struct SymbolState {
    pub actions: Seq<SymbolActionView>,
    pub last_addr: Address,
    pub last_size: i32,
    pub k: int,
}

/// The question about the address of a symbol: `next` means right after the last one,
/// where there is one.
pub open spec fn address_question(child: Element, st: SymbolState) -> AddressQuestionView {
    let text = match attribute_text(child, "address"@) {
        Some(t) => t,
        None => seq![],
    };
    if text == "next"@ && st.last_size != -1 {
        AddressQuestionView::After(st.last_addr, st.last_size)
    } else {
        AddressQuestionView::Parse(text)
    }
}

/// The size of a symbol: the number that it gives, else the addressable unit of the
/// space that it lies in.
pub open spec fn symbol_size(e: EngineView, child: Element, space: usize) -> i32 {
    let given = match attribute_text(child, "size"@) {
        None => 0,
        Some(t) => match i32_value(t) {
            Some(v) => v as i32,
            None => 0,
        },
    };
    if given != 0 {
        given
    } else if space < e.spaces.len() {
        e.spaces[space as int].info.word_size as i32
    } else {
        1
    }
}

/// The memory that a symbol takes up.
pub open spec fn symbol_range(space: usize, offset: u64, size: i32) -> MemoryRange {
    MemoryRange {
        space,
        first: offset,
        last: ((offset + size - 1) % 0x1_0000_0000_0000_0000) as u64,
    }
}

/// What a symbol at an address asks for.
pub open spec fn symbol_requests(
    child: Element,
    name: Seq<char>,
    size: i32,
    address: Address,
) -> Seq<SymbolActionView> {
    let add = SymbolActionView::AddSymbol(name, size, address);
    match attribute_text(child, "volatile"@) {
        None => seq![add],
        Some(v) => seq![
            SymbolActionView::Volatile(
                symbol_range(address.space->0, address.offset, size),
                bool_attr(v),
            ),
            add,
        ],
    }
}

/// The state after one more child of `<default_symbols>`.
pub open spec fn symbol_child(
    e: EngineView,
    child: Element,
    a: Seq<Result<Address, Failure>>,
    st: SymbolState,
) -> Result<SymbolState, SymbolEndView> {
    if child.name@ != "symbol"@ {
        Ok(st)
    } else {
        match attribute_text(child, "name"@) {
            None => Err(
                SymbolEndView::Fail(
                    lowlevel_failure("Missing name attribute in <symbol> element"@),
                ),
            ),
            Some(name) => if name.len() == 0 {
                Err(
                    SymbolEndView::Fail(
                        lowlevel_failure("Missing name attribute in <symbol> element"@),
                    ),
                )
            } else if st.k >= a.len() {
                Err(SymbolEndView::Ask(address_question(child, st)))
            } else {
                match a[st.k] {
                    Err(f) => Err(SymbolEndView::Fail(f)),
                    Ok(address) => match address.space {
                        None => Err(
                            SymbolEndView::Fail(
                                lowlevel_failure(
                                    "Missing address attribute in <symbol> element"@,
                                ),
                            ),
                        ),
                        Some(space) => {
                            let size = symbol_size(e, child, space);
                            Ok(
                                SymbolState {
                                    actions: st.actions + symbol_requests(
                                        child,
                                        name,
                                        size,
                                        address,
                                    ),
                                    last_addr: address,
                                    last_size: size,
                                    k: st.k + 1,
                                },
                            )
                        },
                    },
                }
            },
        }
    }
}

/// What is to be done, and how the reading of the first `n` children ends. What comes
/// before a failure stays to be done.
pub open spec fn symbol_children(
    e: EngineView,
    el: Element,
    a: Seq<Result<Address, Failure>>,
    n: int,
) -> (SymbolState, SymbolEndView)
    decreases n,
{
    if n <= 0 {
        (
            SymbolState {
                actions: seq![],
                last_addr: Address { space: None, offset: 0 },
                last_size: (-1) as i32,
                k: 0,
            },
            SymbolEndView::Done,
        )
    } else {
        let (st, end) = symbol_children(e, el, a, n - 1);
        if end is Done {
            match symbol_child(e, el.children@[n - 1], a, st) {
                Ok(next) => (next, SymbolEndView::Done),
                Err(stop) => (st, stop),
            }
        } else {
            (st, end)
        }
    }
}

/// The element that lists the symbols of a processor.
pub open spec fn symbols_element(doc: SpecDocument) -> Option<Element> {
    match doc {
        SpecDocument::Root(root) => match processor_spec(root) {
            Some(pspec) => child_named(pspec, "default_symbols"@),
            None => None,
        },
        _ => None,
    }
}

/// What the symbols of a processor specification ask for, and how the reading ends.
pub open spec fn symbols_result(
    e: EngineView,
    doc: SpecDocument,
    has_scope: bool,
    a: Seq<Result<Address, Failure>>,
) -> (Seq<SymbolActionView>, SymbolEndView) {
    match doc {
        SpecDocument::Malformed(err) => (seq![], SymbolEndView::Fail(err@)),
        _ => match symbols_element(doc) {
            None => (seq![], SymbolEndView::Done),
            Some(el) => if has_scope {
                let (st, end) = symbol_children(e, el, a, el.children@.len() as int);
                (st.actions, end)
            } else {
                (seq![], SymbolEndView::Done)
            },
        },
    }
}

proof fn lemma_symbols_stop(
    e: EngineView,
    el: Element,
    a: Seq<Result<Address, Failure>>,
    n: int,
    m: int,
)
    requires
        0 <= n <= m,
        !(symbol_children(e, el, a, n).1 is Done),
    ensures
        symbol_children(e, el, a, m) == symbol_children(e, el, a, n),
    decreases m,
{
    if n < m {
        lemma_symbols_stop(e, el, a, n, m - 1);
    }
}

/// Symbols while they are read.
struct SymbolReader {
    actions: Vec<SymbolAction>,
    last_addr: Address,
    last_size: i32,
    k: usize,
}

impl View for SymbolReader {
    type V = SymbolState;

    closed spec fn view(&self) -> SymbolState {
        SymbolState {
            actions: symbol_actions(self.actions@),
            last_addr: self.last_addr,
            last_size: self.last_size,
            k: self.k as int,
        }
    }
}

impl SymbolReader {
    fn question(&self, child: &Element) -> (q: AddressQuestion)
        ensures
            q@ == address_question(*child, self@),
    {
        let text = match attr_str(child, "address") {
            Some(t) => t,
            None => {
                let t = String::new();
                assert(t@ =~= seq![]);
                t
            },
        };
        if same_text(text.as_str(), "next") && self.last_size != -1 {
            AddressQuestion::After(self.last_addr, self.last_size)
        } else {
            AddressQuestion::Parse(text)
        }
    }

    fn push(&mut self, action: SymbolAction)
        ensures
            final(self)@ == (SymbolState {
                actions: old(self)@.actions.push(action@),
                ..old(self)@
            }),
    {
        let ghost before = self@;
        self.actions.push(action);
        assert(self@.actions =~= before.actions.push(action@));
    }
}

impl Engine {
    fn read_symbol_size(&self, child: &Element, space: usize) -> (r: i32)
        ensures
            r == symbol_size(self@, *child, space),
    {
        let given: i32 = match attr_str(child, "size") {
            None => 0,
            Some(t) => match parse_i32(t.as_str()) {
                Some(v) => v,
                None => 0,
            },
        };
        if given != 0 {
            given
        } else if space < self.spaces.len() {
            self.spaces[space].info.word_size as i32
        } else {
            1
        }
    }

    fn read_symbol(
        &self,
        child: &Element,
        a: &Vec<Result<Address, KunaError>>,
        st: &mut SymbolReader,
    ) -> (r: Result<(), SymbolEnd>)
        ensures
            match r {
                Ok(()) => symbol_child(self@, *child, address_answers(a@), old(st)@) == Ok::<
                    SymbolState,
                    SymbolEndView,
                >(final(st)@),
                Err(end) => symbol_child(self@, *child, address_answers(a@), old(st)@) == Err::<
                    SymbolState,
                    SymbolEndView,
                >(end@) && final(st)@ == old(st)@,
            },
    {
        if !same_text(child.name.as_str(), "symbol") {
            return Ok(());
        }
        let name = match attr_str(child, "name") {
            Some(n) => n,
            None => String::new(),
        };
        if name.as_str().unicode_len() == 0 {
            return Err(
                SymbolEnd::Fail(
                    KunaError::lowlevel(
                        String::from_str("Missing name attribute in <symbol> element"),
                    ),
                ),
            );
        }
        if st.k >= a.len() {
            return Err(SymbolEnd::Ask(st.question(child)));
        }
        let address = match &a[st.k] {
            Ok(v) => *v,
            Err(e) => {
                return Err(SymbolEnd::Fail(e.clone()));
            },
        };
        let space: usize = match address.space {
            Some(s) => s,
            None => {
                return Err(
                    SymbolEnd::Fail(
                        KunaError::lowlevel(
                            String::from_str("Missing address attribute in <symbol> element"),
                        ),
                    ),
                );
            },
        };
        let size: i32 = self.read_symbol_size(child, space);
        let ghost before = st@;
        let ghost text = name@;
        if let Some(v) = attr_str(child, "volatile") {
            let last: u64 = range_end(address.offset, size);
            st.push(
                SymbolAction::Volatile(
                    MemoryRange { space, first: address.offset, last },
                    decode_bool_attr(v.as_str()),
                ),
            );
        }
        st.push(SymbolAction::AddSymbol(name, size, address));
        assert(st@.actions =~= before.actions + symbol_requests(*child, text, size, address));
        st.last_addr = address;
        st.last_size = size;
        st.k = st.k + 1;
        Ok(())
    }

    /// What the symbols of a processor specification ask for, to be done in this order,
    /// and how the reading ends. `has_scope` tells whether there is a global scope for
    /// the symbols; `a` holds the answers to the questions so far.
    pub fn build_symbols(
        &self,
        doc: &SpecDocument,
        has_scope: bool,
        a: &Vec<Result<Address, KunaError>>,
    ) -> (r: (Vec<SymbolAction>, SymbolEnd))
        ensures
            (symbol_actions(r.0@), r.1@) == symbols_result(
                self@,
                *doc,
                has_scope,
                address_answers(a@),
            ),
    {
        let none: Vec<SymbolAction> = Vec::new();
        assert(symbol_actions(none@) =~= seq![]);
        let root = match doc {
            SpecDocument::Absent => {
                return (none, SymbolEnd::Done);
            },
            SpecDocument::Malformed(e) => {
                return (none, SymbolEnd::Fail(e.clone()));
            },
            SpecDocument::Root(root) => root,
        };
        let pspec = if same_text(root.name.as_str(), "processor_spec") {
            root
        } else {
            match find_child(root, "processor_spec") {
                Some(el) => el,
                None => {
                    return (none, SymbolEnd::Done);
                },
            }
        };
        let el = match find_child(pspec, "default_symbols") {
            Some(el) => el,
            None => {
                return (none, SymbolEnd::Done);
            },
        };
        if !has_scope {
            return (none, SymbolEnd::Done);
        }
        let mut st = SymbolReader {
            actions: none,
            last_addr: Address { space: None, offset: 0 },
            last_size: -1,
            k: 0,
        };
        let ghost n = el.children@.len() as int;
        let mut i: usize = 0;
        while i < el.children.len()
            invariant
                i <= el.children@.len(),
                n == el.children@.len(),
                symbol_children(self@, *el, address_answers(a@), i as int) == (
                    st@,
                    SymbolEndView::Done,
                ),
                symbols_result(self@, *doc, has_scope, address_answers(a@)) == ({
                    let (last, end) = symbol_children(self@, *el, address_answers(a@), n);
                    (last.actions, end)
                }),
            decreases el.children@.len() - i,
        {
            match self.read_symbol(&el.children[i], a, &mut st) {
                Ok(()) => {},
                Err(end) => {
                    proof {
                        lemma_symbols_stop(self@, *el, address_answers(a@), i + 1, n);
                    }
                    return (st.actions, end);
                },
            }
            i += 1;
        }
        (st.actions, SymbolEnd::Done)
    }
}

/// The last offset of `size` bytes from `offset` on, modulo the size of a space.
fn range_end(offset: u64, size: i32) -> (r: u64)
    ensures
        r == (offset + size - 1) % 0x1_0000_0000_0000_0000,
{
    if size > 0 {
        offset.wrapping_add((size - 1) as u64)
    } else {
        let back: u64 = (1i64 - size as i64) as u64;
        offset.wrapping_sub(back)
    }
}

/// A symbol that says `next` lies right after the one before it.
pub proof fn law_next_follows_the_last(child: Element, st: SymbolState)
    requires
        attribute_text(child, "address"@) == Some("next"@),
        st.last_size != -1,
    ensures
        address_question(child, st) == AddressQuestionView::After(st.last_addr, st.last_size),
{
}

// ---- registers with a known value ---------------------------------------------------

/// A register and the value that it is known to hold.
#[derive(Debug, Clone, Copy, PartialEq, Eq, Structural)]
pub struct TrackedContext {
    pub location: VarnodeData,
    pub value: u64,
}

/// The registers that hold known values between two addresses.
pub struct TrackedRange {
    pub first: Address,
    pub end: Address,
    pub registers: Vec<TrackedContext>,
}

/// What contracts say of a [`TrackedRange`].
pub struct TrackedView {
    pub first: Address,
    pub end: Address,
    pub registers: Seq<TrackedContext>,
}

impl View for TrackedRange {
    type V = TrackedView;

    open spec fn view(&self) -> TrackedView {
        TrackedView { first: self.first, end: self.end, registers: self.registers@ }
    }
}

/// What contracts say of a list of tracked ranges.
pub open spec fn tracked_views(v: Seq<TrackedRange>) -> Seq<TrackedView> {
    v.map_values(|t: TrackedRange| t@)
}

/// What decoding the attributes of a `<tracked_set>` element gave: the range that it is
/// for, and the value of each of its children.
pub struct TrackedDecode {
    pub range: Result<(Address, Address), KunaError>,
    pub values: Vec<Result<u64, KunaError>>,
}

/// The register that a `<set>` element names, where the engine knows it.
pub open spec fn tracked_register(e: EngineView, set: Element) -> Option<VarnodeData> {
    match attribute_text(set, "name"@) {
        None => None,
        Some(name) => match register_result(e, name) {
            Ok(v) => Some(v),
            Err(_) => None,
        },
    }
}

/// The registers of the first `n` children of a `<tracked_set>`. One that the engine
/// does not know, or whose value cannot be decoded, is left out.
pub open spec fn tracked_children(
    e: EngineView,
    el: Element,
    values: Seq<Result<u64, KunaError>>,
    n: int,
) -> Seq<TrackedContext>
    decreases n,
{
    if n <= 0 {
        seq![]
    } else {
        let before = tracked_children(e, el, values, n - 1);
        match (tracked_register(e, el.children@[n - 1]), values[n - 1]) {
            (Some(location), Ok(value)) => before.push(TrackedContext { location, value }),
            _ => before,
        }
    }
}

/// The ranges that the first `n` children of `<context_data>` declare. A set whose range
/// cannot be decoded declares nothing, nor does one without registers.
pub open spec fn tracked_sets(
    e: EngineView,
    el: Element,
    decoded: Seq<TrackedDecode>,
    n: int,
) -> Seq<TrackedView>
    decreases n,
{
    if n <= 0 {
        seq![]
    } else {
        let before = tracked_sets(e, el, decoded, n - 1);
        let child = el.children@[n - 1];
        let registers = tracked_children(
            e,
            child,
            decoded[n - 1].values@,
            child.children@.len() as int,
        );
        match decoded[n - 1].range {
            Ok((first, end)) if child.name@ == "tracked_set"@ && registers.len() > 0 =>
                before.push(TrackedView { first, end, registers }),
            _ => before,
        }
    }
}

/// Whether there is a decoding for each child, with a value for each of its children.
pub open spec fn decodes_fit(el: Element, decoded: Seq<TrackedDecode>) -> bool {
    &&& decoded.len() == el.children@.len()
    &&& forall|i: int|
        0 <= i < decoded.len() ==> (#[trigger] decoded[i]).values@.len()
            == el.children@[i].children@.len()
}

impl Engine {
    fn read_tracked_children(&self, el: &Element, values: &Vec<Result<u64, KunaError>>) -> (r: Vec<
        TrackedContext,
    >)
        requires
            values@.len() == el.children@.len(),
        ensures
            r@ == tracked_children(self@, *el, values@, el.children@.len() as int),
    {
        let mut out: Vec<TrackedContext> = Vec::new();
        let mut i: usize = 0;
        while i < el.children.len()
            invariant
                i <= el.children@.len(),
                values@.len() == el.children@.len(),
                out@ == tracked_children(self@, *el, values@, i as int),
            decreases el.children@.len() - i,
        {
            let location = match attr_str(&el.children[i], "name") {
                None => None,
                Some(name) => match self.get_register_varnode(name.as_str()) {
                    Ok(v) => Some(v),
                    Err(_) => None,
                },
            };
            if let Some(location) = location {
                if let Ok(value) = &values[i] {
                    out.push(TrackedContext { location, value: *value });
                }
            }
            i += 1;
        }
        out
    }

    /// The registers with a known value that a `<context_data>` element declares, range
    /// by range. `decoded` holds, for each child, what decoding its attributes gave;
    /// what could not be decoded is passed over, and the rest is read all the same.
    pub fn decode_ghidra_tracked_sets(&self, el: &Element, decoded: &Vec<TrackedDecode>) -> (r: Vec<
        TrackedRange,
    >)
        requires
            decodes_fit(*el, decoded@),
        ensures
            tracked_views(r@) == tracked_sets(self@, *el, decoded@, el.children@.len() as int),
    {
        let mut out: Vec<TrackedRange> = Vec::new();
        let mut i: usize = 0;
        assert(tracked_views(out@) =~= seq![]);
        while i < el.children.len()
            invariant
                i <= el.children@.len(),
                decodes_fit(*el, decoded@),
                tracked_views(out@) == tracked_sets(self@, *el, decoded@, i as int),
            decreases el.children@.len() - i,
        {
            let child = &el.children[i];
            if same_text(child.name.as_str(), "tracked_set") {
                if let Ok(range) = &decoded[i].range {
                    let registers = self.read_tracked_children(child, &decoded[i].values);
                    if registers.len() > 0 {
                        let ghost was = out@;
                        let t = TrackedRange { first: range.0, end: range.1, registers };
                        let ghost view = t@;
                        out.push(t);
                        assert(tracked_views(out@) =~= tracked_views(was).push(view));
                    }
                }
            }
            i += 1;
        }
        out
    }
}

/// What comes before a set is declared whatever becomes of the set, and a set that can be
/// decoded is declared whatever came before it.
pub proof fn law_no_set_hinders_another(
    e: EngineView,
    el: Element,
    decoded: Seq<TrackedDecode>,
    n: int,
)
    requires
        0 < n <= el.children@.len(),
        decodes_fit(el, decoded),
    ensures
        ({
            let child = el.children@[n - 1];
            let before = tracked_sets(e, el, decoded, n - 1);
            let after = tracked_sets(e, el, decoded, n);
            let registers = tracked_children(
                e,
                child,
                decoded[n - 1].values@,
                child.children@.len() as int,
            );
            &&& before.is_prefix_of(after)
            &&& child.name@ == "tracked_set"@ && decoded[n - 1].range is Ok && registers.len() > 0
                ==> after.last().registers == registers && after.len() == before.len() + 1
        }),
{
}

/// What a loader knows of the registers at a function's entry is added to what is
/// tracked there, but never replaces it: the registers that are tracked already keep
/// their value.
pub open spec fn with_seeds(known: Seq<TrackedContext>, seeds: Seq<TrackedContext>) -> Seq<
    TrackedContext,
>
    decreases seeds.len(),
{
    if seeds.len() == 0 {
        known
    } else {
        let before = with_seeds(known, seeds.drop_last());
        let seed = seeds.last();
        if tracks(before, seed.location) {
            before
        } else {
            before.push(seed)
        }
    }
}

/// Whether the location is tracked.
pub open spec fn tracks(known: Seq<TrackedContext>, location: VarnodeData) -> bool {
    exists|i: int| 0 <= i < known.len() && (#[trigger] known[i]).location == location
}

/// Add what a loader knows of the registers to what is tracked.
pub fn merge_entry_seeds(known: &Vec<TrackedContext>, seeds: &Vec<TrackedContext>) -> (r: Vec<
    TrackedContext,
>)
    ensures
        r@ == with_seeds(known@, seeds@),
{
    let mut r: Vec<TrackedContext> = Vec::new();
    let mut i: usize = 0;
    while i < known.len()
        invariant
            i <= known@.len(),
            r@ == known@.take(i as int),
        decreases known@.len() - i,
    {
        r.push(known[i]);
        assert(r@ =~= known@.take(i + 1));
        i += 1;
    }
    assert(r@ =~= known@);
    let mut j: usize = 0;
    assert(seeds@.take(0) =~= seq![]);
    while j < seeds.len()
        invariant
            j <= seeds@.len(),
            r@ == with_seeds(known@, seeds@.take(j as int)),
        decreases seeds@.len() - j,
    {
        let seed = seeds[j];
        let mut found: bool = false;
        let mut k: usize = 0;
        while k < r.len()
            invariant
                k <= r@.len(),
                found == exists|i: int|
                    0 <= i < k && (#[trigger] r@[i]).location == seed.location,
            decreases r@.len() - k,
        {
            if r[k].location == seed.location {
                found = true;
            }
            k += 1;
        }
        assert(seeds@.take(j + 1).drop_last() =~= seeds@.take(j as int));
        assert(found == tracks(r@, seed.location));
        if !found {
            r.push(seed);
        }
        j += 1;
    }
    assert(seeds@.take(j as int) =~= seeds@);
    r
}

/// What was tracked stays tracked with its value.
pub proof fn law_seeds_replace_nothing(
    known: Seq<TrackedContext>,
    seeds: Seq<TrackedContext>,
    i: int,
)
    requires
        0 <= i < known.len(),
    ensures
        i < with_seeds(known, seeds).len(),
        with_seeds(known, seeds)[i] == known[i],
    decreases seeds.len(),
{
    if seeds.len() > 0 {
        law_seeds_replace_nothing(known, seeds.drop_last(), i);
    }
}

/// Every register that a seed speaks of is tracked in the end.
pub proof fn law_seeds_are_tracked(known: Seq<TrackedContext>, seeds: Seq<TrackedContext>, j: int)
    requires
        0 <= j < seeds.len(),
    ensures
        tracks(with_seeds(known, seeds), seeds[j].location),
    decreases seeds.len(),
{
    let before = with_seeds(known, seeds.drop_last());
    let after = with_seeds(known, seeds);
    if j == seeds.len() - 1 {
        if !tracks(before, seeds[j].location) {
            assert(after[before.len() as int].location == seeds[j].location);
        }
    } else {
        law_seeds_are_tracked(known, seeds.drop_last(), j);
        assert(seeds.drop_last()[j] == seeds[j]);
        let i = choose|i: int|
            0 <= i < before.len() && (#[trigger] before[i]).location == seeds[j].location;
        assert(after[i].location == seeds[j].location);
    }
}

} // verus!
