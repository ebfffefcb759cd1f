//! What the configuration takes from a processor specification: vector registers,
//! volatile memory, registers with a known value, symbols.

use vstd::prelude::*;
use vstd::string::*;
use crate::cspec::MemoryRange;
use crate::error::{outcome, Failure, KunaError};
use crate::space::{register_result, Engine, EngineView};
use crate::text::same_text;
use crate::xml::{attr_str, attribute_text, child_named, find_child, Element, SpecDocument};

verus! {

// ---- the specification --------------------------------------------------------------

/// The `<processor_spec>` element: the root, or a child of it.
pub open spec fn processor_spec(root: Element) -> Option<Element> {
    if root.name@ == "processor_spec"@ {
        Some(root)
    } else {
        child_named(root, "processor_spec"@)
    }
}

fn find_processor_spec(root: &Element) -> (r: Option<&Element>)
    ensures
        match r {
            Some(el) => processor_spec(*root) == Some(*el),
            None => processor_spec(*root) is None,
        },
{
    if same_text(root.name.as_str(), "processor_spec") {
        Some(root)
    } else {
        find_child(root, "processor_spec")
    }
}

/// What is done with the `<context_data>` element.
#[derive(Debug, Clone, Copy, PartialEq, Eq, Structural)]
pub enum ContextUse {
    /// There is none.
    Nothing,
    /// All of it is applied.
    All,
    /// Only the registers with a known value are taken; the rest is the host's.
    TrackedOnly,
}

/// The parts of a processor specification that are read, in this order.
pub struct ProcessorParts<'a> {
    pub register_data: Option<&'a Element>,
    pub volatile: Option<&'a Element>,
    pub context_data: Option<&'a Element>,
    pub context_use: ContextUse,
}

/// What is done with the `<context_data>` element: an engine that does not decode
/// instructions itself takes the registers with a known value only.
pub open spec fn context_use(pspec: Element, local: bool) -> ContextUse {
    if child_named(pspec, "context_data"@) is None {
        ContextUse::Nothing
    } else if local {
        ContextUse::All
    } else {
        ContextUse::TrackedOnly
    }
}

/// An optional element, without the reference.
pub open spec fn element_option(el: Option<&Element>) -> Option<Element> {
    match el {
        Some(e) => Some(*e),
        None => None,
    }
}

/// The processor specification of a document, or the failure to parse it.
pub open spec fn processor_document(doc: SpecDocument) -> Result<Option<Element>, Failure> {
    match doc {
        SpecDocument::Absent => Ok(None),
        SpecDocument::Malformed(e) => Err(e@),
        SpecDocument::Root(root) => Ok(processor_spec(root)),
    }
}

fn read_processor_document(doc: &SpecDocument) -> (r: Result<Option<&Element>, KunaError>)
    ensures
        match r {
            Ok(el) => processor_document(*doc) == Ok::<Option<Element>, Failure>(
                element_option(el),
            ),
            Err(e) => processor_document(*doc) == Err::<Option<Element>, Failure>(e@),
        },
{
    match doc {
        SpecDocument::Absent => Ok(None),
        SpecDocument::Malformed(e) => Err(e.clone()),
        SpecDocument::Root(root) => Ok(find_processor_spec(root)),
    }
}

/// The parts of a processor specification that are read: the vector registers, the volatile
/// memory and the context.
pub open spec fn processor_parts(pspec: Element) -> (
    Option<Element>,
    Option<Element>,
    Option<Element>,
) {
    (
        child_named(pspec, "register_data"@),
        child_named(pspec, "volatile"@),
        child_named(pspec, "context_data"@),
    )
}

impl Engine {
    /// The parts of the processor specification, in the order in which they are applied.
    pub fn parse_processor_config<'a>(&self, doc: &'a SpecDocument) -> (r: Result<
        ProcessorParts<'a>,
        KunaError,
    >)
        ensures
            match r {
                Err(e) => processor_document(*doc) == Err::<Option<Element>, Failure>(e@),
                Ok(parts) => match processor_document(*doc) {
                    Err(_) => false,
                    Ok(None) => parts.register_data is None && parts.volatile is None
                        && parts.context_data is None && parts.context_use == ContextUse::Nothing,
                    Ok(Some(pspec)) => {
                        &&& element_option(parts.register_data) == child_named(
                            pspec,
                            "register_data"@,
                        )
                        &&& element_option(parts.volatile) == child_named(pspec, "volatile"@)
                        &&& element_option(parts.context_data) == child_named(
                            pspec,
                            "context_data"@,
                        )
                        &&& parts.context_use == context_use(pspec, self@.local)
                        &&& processor_parts(pspec) == (
                            element_option(parts.register_data),
                            element_option(parts.volatile),
                            element_option(parts.context_data),
                        )
                    },
                },
            },
    {
        let pspec = match read_processor_document(doc) {
            Err(e) => {
                return Err(e);
            },
            Ok(None) => {
                return Ok(
                    ProcessorParts {
                        register_data: None,
                        volatile: None,
                        context_data: None,
                        context_use: ContextUse::Nothing,
                    },
                );
            },
            Ok(Some(el)) => el,
        };
        let context_data = find_child(pspec, "context_data");
        let context_use = match context_data {
            None => ContextUse::Nothing,
            Some(_) => if self.local {
                ContextUse::All
            } else {
                ContextUse::TrackedOnly
            },
        };
        Ok(
            ProcessorParts {
                register_data: find_child(pspec, "register_data"),
                volatile: find_child(pspec, "volatile"),
                context_data,
                context_use,
            },
        )
    }
}

// ---- vector registers ---------------------------------------------------------------

/// The ways in which registers of one size divide into lanes: a bit for each lane size.
#[derive(Debug, Clone, Copy, PartialEq, Eq, Structural)]
pub struct LanedRegister {
    pub whole_size: i32,
    pub mask: u32,
}

/// What has to be asked about the lanes of a register: how the lane sizes, as the
/// specification writes them, divide a register of this size.
#[derive(Debug)]
pub struct LaneRequest {
    pub size: u32,
    pub lane_sizes: String,
}

/// What contracts say of a [`LaneRequest`].
pub struct LaneRequestView {
    pub size: u32,
    pub lane_sizes: Seq<char>,
}

impl View for LaneRequest {
    type V = LaneRequestView;

    open spec fn view(&self) -> LaneRequestView {
        LaneRequestView { size: self.size, lane_sizes: self.lane_sizes@ }
    }
}

/// What has to be asked about a child of `<register_data>`: nothing where it declares no
/// lanes, else how its lane sizes divide the register that it names.
pub open spec fn lane_request(e: EngineView, reg: Element) -> Result<
    Option<LaneRequestView>,
    Failure,
> {
    if reg.name@ != "register"@ {
        Ok(None)
    } else {
        match attribute_text(reg, "vector_lane_sizes"@) {
            None => Ok(None),
            Some(lane_sizes) => if lane_sizes.len() == 0 {
                Ok(None)
            } else {
                match attribute_text(reg, "name"@) {
                    None => Ok(None),
                    Some(name) => match register_result(e, name) {
                        Err(f) => Err(f),
                        Ok(v) => Ok(Some(LaneRequestView { size: v.size, lane_sizes })),
                    },
                }
            },
        }
    }
}

/// The lanes that a child of `<register_data>` declares, where it does; `mask` is the
/// answer to what has to be asked about it, a bit for each lane size.
pub open spec fn laned_child(e: EngineView, reg: Element, mask: Result<u32, KunaError>) -> Result<
    Option<LanedRegister>,
    Failure,
> {
    match lane_request(e, reg) {
        Err(f) => Err(f),
        Ok(None) => Ok(None),
        Ok(Some(q)) => match mask {
            Ok(mask) => Ok(Some(LanedRegister { whole_size: q.size as i32, mask })),
            Err(err) => Err(err@),
        },
    }
}

/// Whether there is an answer for each child, and no register that is divided is too large
/// for its size to be counted.
pub open spec fn lanes_fit(e: EngineView, el: Element, masks: Seq<Result<u32, KunaError>>) -> bool {
    &&& masks.len() == el.children@.len()
    &&& forall|i: int|
        0 <= i < masks.len() && (#[trigger] masks[i]) is Ok ==> (lane_request(
            e,
            el.children@[i],
        ) matches Ok(Some(q)) ==> q.size < i32::MAX)
}

/// The lanes that the first `n` children declare, or the first failure.
pub open spec fn laned_children(
    e: EngineView,
    el: Element,
    masks: Seq<Result<u32, KunaError>>,
    n: int,
) -> Result<Seq<LanedRegister>, Failure>
    decreases n,
{
    if n <= 0 {
        Ok(seq![])
    } else {
        match laned_children(e, el, masks, n - 1) {
            Err(f) => Err(f),
            Ok(before) => match laned_child(e, el.children@[n - 1], masks[n - 1]) {
                Err(f) => Err(f),
                Ok(None) => Ok(before),
                Ok(Some(l)) => Ok(before.push(l)),
            },
        }
    }
}

/// All lane sizes that registers of this size are declared with.
pub open spec fn mask_for(list: Seq<LanedRegister>, size: int) -> u32
    decreases list.len(),
{
    if list.len() == 0 {
        0
    } else if list.last().whole_size == size {
        mask_for(list.drop_last(), size) | list.last().mask
    } else {
        mask_for(list.drop_last(), size)
    }
}

/// One more than the largest size in the list.
pub open spec fn size_limit(list: Seq<LanedRegister>) -> int
    decreases list.len(),
{
    if list.len() == 0 {
        0
    } else {
        let before = size_limit(list.drop_last());
        if list.last().whole_size + 1 > before {
            list.last().whole_size + 1
        } else {
            before
        }
    }
}

/// One record for each size below `n` that has lanes, by ascending size.
pub open spec fn records_below(list: Seq<LanedRegister>, n: int) -> Seq<LanedRegister>
    decreases n,
{
    if n <= 0 {
        seq![]
    } else {
        let mask = mask_for(list, n - 1);
        if mask == 0 {
            records_below(list, n - 1)
        } else {
            records_below(list, n - 1).push(
                LanedRegister { whole_size: (n - 1) as i32, mask },
            )
        }
    }
}

/// One record for each size that has lanes, by ascending size.
pub open spec fn lane_records(list: Seq<LanedRegister>) -> Seq<LanedRegister> {
    records_below(list, size_limit(list))
}

/// Whether the records are ordered by size, each size once.
pub open spec fn records_ascend(records: Seq<LanedRegister>) -> bool {
    forall|i: int, j: int|
        0 <= i < j < records.len() ==> (#[trigger] records[i]).whole_size < (
        #[trigger] records[j]).whole_size
}

proof fn lemma_laned_stops(
    e: EngineView,
    el: Element,
    masks: Seq<Result<u32, KunaError>>,
    n: int,
    m: int,
)
    requires
        0 <= n <= m,
        laned_children(e, el, masks, n) is Err,
    ensures
        laned_children(e, el, masks, m) == laned_children(e, el, masks, n),
    decreases m,
{
    if n < m {
        lemma_laned_stops(e, el, masks, n, m - 1);
    }
}

proof fn lemma_mask_beyond(list: Seq<LanedRegister>, size: int)
    requires
        size >= size_limit(list),
    ensures
        mask_for(list, size) == 0,
    decreases list.len(),
{
    if list.len() > 0 {
        lemma_mask_beyond(list.drop_last(), size);
    }
}

proof fn lemma_records_ascend(list: Seq<LanedRegister>, n: int)
    requires
        n <= 0x8000_0000,
    ensures
        records_ascend(records_below(list, n)),
        forall|i: int|
            0 <= i < records_below(list, n).len() ==> 0 <= (#[trigger] records_below(
                list,
                n,
            )[i]).whole_size < n && records_below(list, n)[i].mask == mask_for(
                list,
                records_below(list, n)[i].whole_size as int,
            ) && records_below(list, n)[i].mask != 0,
    decreases n,
{
    if n > 0 {
        lemma_records_ascend(list, n - 1);
    }
}

proof fn lemma_limit(list: Seq<LanedRegister>)
    ensures
        0 <= size_limit(list) <= 0x8000_0000,
    decreases list.len(),
{
    if list.len() > 0 {
        lemma_limit(list.drop_last());
    }
}

/// The records of any list are ordered by size, and each says what its size is declared
/// with.
pub proof fn law_records_are_ordered(list: Seq<LanedRegister>)
    ensures
        records_ascend(lane_records(list)),
        forall|i: int|
            0 <= i < lane_records(list).len() ==> (#[trigger] lane_records(list)[i]).mask
                == mask_for(list, lane_records(list)[i].whole_size as int),
{
    lemma_limit(list);
    lemma_records_ascend(list, size_limit(list));
}

/// The records of any list are ordered by size.
pub proof fn lemma_lane_records_ascend(list: Seq<LanedRegister>)
    ensures
        records_ascend(lane_records(list)),
{
    law_records_are_ordered(list);
}

/// A size has a record exactly where it is declared with lanes.
pub proof fn law_records_are_complete(list: Seq<LanedRegister>, size: int)
    requires
        0 <= size <= i32::MAX,
    ensures
        mask_for(list, size) != 0 <==> exists|i: int|
            0 <= i < lane_records(list).len() && (#[trigger] lane_records(list)[i]).whole_size
                == size,
{
    lemma_limit(list);
    let n = size_limit(list);
    lemma_records_ascend(list, n);
    if size >= n {
        lemma_mask_beyond(list, size);
    } else if mask_for(list, size) != 0 {
        lemma_record_present(list, n, size);
        let r = records_below(list, n);
        let i = choose|i: int| 0 <= i < r.len() && (#[trigger] r[i]).whole_size == size;
        assert(lane_records(list)[i].whole_size == size);
    }
    if exists|i: int|
        0 <= i < lane_records(list).len() && (#[trigger] lane_records(list)[i]).whole_size
            == size {
        let i = choose|i: int|
            0 <= i < lane_records(list).len() && (#[trigger] lane_records(list)[i]).whole_size
                == size;
        assert(records_below(list, n)[i].mask != 0);
    }
}

proof fn lemma_record_present(list: Seq<LanedRegister>, n: int, size: int)
    requires
        0 <= size < n <= 0x8000_0000,
        mask_for(list, size) != 0,
    ensures
        exists|i: int|
            0 <= i < records_below(list, n).len() && (#[trigger] records_below(
                list,
                n,
            )[i]).whole_size == size,
    decreases n,
{
    let r = records_below(list, n);
    if size == n - 1 {
        assert(r[r.len() - 1].whole_size == size);
    } else {
        lemma_record_present(list, n - 1, size);
        let before = records_below(list, n - 1);
        let i = choose|i: int| 0 <= i < before.len() && (#[trigger] before[i]).whole_size == size;
        assert(r[i] == before[i]);
    }
}

impl Engine {
    /// What has to be asked about a child of `<register_data>`.
    pub fn lane_request(&self, reg: &Element) -> (r: Result<Option<LaneRequest>, KunaError>)
        ensures
            match r {
                Ok(Some(q)) => lane_request(self@, *reg) == Ok::<
                    Option<LaneRequestView>,
                    Failure,
                >(Some(q@)),
                Ok(None) => lane_request(self@, *reg) == Ok::<Option<LaneRequestView>, Failure>(
                    None,
                ),
                Err(e) => lane_request(self@, *reg) == Err::<Option<LaneRequestView>, Failure>(
                    e@,
                ),
            },
    {
        if !same_text(reg.name.as_str(), "register") {
            return Ok(None);
        }
        let lane_sizes = match attr_str(reg, "vector_lane_sizes") {
            None => {
                return Ok(None);
            },
            Some(sizes) => sizes,
        };
        if lane_sizes.as_str().unicode_len() == 0 {
            return Ok(None);
        }
        match attr_str(reg, "name") {
            None => Ok(None),
            Some(name) => match self.get_register_varnode(name.as_str()) {
                Err(e) => Err(e),
                Ok(v) => Ok(Some(LaneRequest { size: v.size, lane_sizes })),
            },
        }
    }

    fn read_laned_child(&self, reg: &Element, mask: &Result<u32, KunaError>) -> (r: Result<
        Option<LanedRegister>,
        KunaError,
    >)
        requires
            mask is Ok ==> (lane_request(self@, *reg) matches Ok(Some(q)) ==> q.size < i32::MAX),
        ensures
            outcome(r) == laned_child(self@, *reg, *mask),
            r matches Ok(Some(l)) ==> 0 <= l.whole_size < i32::MAX,
    {
        match self.lane_request(reg) {
            Err(e) => Err(e),
            Ok(None) => Ok(None),
            Ok(Some(q)) => match mask {
                Ok(mask) => Ok(Some(LanedRegister { whole_size: q.size as i32, mask: *mask })),
                Err(e) => Err(e.clone()),
            },
        }
    }

    /// The lane records of a `<register_data>` element. `lanes` holds, for each child, the
    /// answer to what has to be asked about it, a bit for each lane size; it is looked at
    /// where the child declares lanes.
    pub fn decode_register_data(&self, el: &Element, lanes: &Vec<Result<u32, KunaError>>) -> (r:
        Result<Vec<LanedRegister>, KunaError>)
        requires
            lanes_fit(self@, *el, lanes@),
        ensures
            match r {
                Ok(v) => laned_children(self@, *el, lanes@, el.children@.len() as int) is Ok && v@
                    == lane_records(
                    laned_children(self@, *el, lanes@, el.children@.len() as int)->Ok_0,
                ),
                Err(err) => laned_children(self@, *el, lanes@, el.children@.len() as int) == Err::<
                    Seq<LanedRegister>,
                    Failure,
                >(err@),
            },
    {
        let ghost mut list: Seq<LanedRegister> = seq![];
        let mut masks: Vec<u32> = Vec::new();
        let mut i: usize = 0;
        let ghost n = el.children@.len() as int;
        while i < el.children.len()
            invariant
                i <= el.children@.len(),
                n == el.children@.len(),
                lanes_fit(self@, *el, lanes@),
                laned_children(self@, *el, lanes@, i as int) == Ok::<Seq<LanedRegister>, Failure>(
                    list,
                ),
                masks@.len() == size_limit(list),
                forall|s: int| 0 <= s < masks@.len() ==> #[trigger] masks@[s] == mask_for(list, s),
            decreases el.children@.len() - i,
        {
            match self.read_laned_child(&el.children[i], &lanes[i]) {
                Err(err) => {
                    proof {
                        lemma_laned_stops(self@, *el, lanes@, i + 1, n);
                    }
                    return Err(err);
                },
                Ok(None) => {},
                Ok(Some(l)) => {
                    let ghost before = list;
                    proof {
                        list = before.push(l);
                        assert(list.drop_last() =~= before);
                    }
                    let size: usize = l.whole_size as usize;
                    let ghost limit = masks@.len();
                    while masks.len() <= size
                        invariant
                            limit == size_limit(before),
                            limit <= masks@.len(),
                            masks@.len() <= if limit > size + 1 {
                                limit as int
                            } else {
                                size + 1
                            },
                            forall|s: int|
                                0 <= s < masks@.len() ==> #[trigger] masks@[s] == mask_for(
                                    before,
                                    s,
                                ),
                        decreases size + 1 - masks@.len(),
                    {
                        proof {
                            lemma_mask_beyond(before, masks@.len() as int);
                        }
                        masks.push(0);
                    }
                    let m: u32 = masks[size];
                    masks[size] = m | l.mask;
                    assert(forall|s: int|
                        0 <= s < masks@.len() ==> #[trigger] masks@[s] == mask_for(list, s));
                },
            }
            i += 1;
        }
        proof {
            lemma_limit(list);
        }
        let mut out: Vec<LanedRegister> = Vec::new();
        let mut s: usize = 0;
        while s < masks.len()
            invariant
                s <= masks@.len(),
                masks@.len() == size_limit(list),
                size_limit(list) <= 0x8000_0000,
                forall|s: int| 0 <= s < masks@.len() ==> #[trigger] masks@[s] == mask_for(list, s),
                out@ == records_below(list, s as int),
            decreases masks@.len() - s,
        {
            if masks[s] != 0 {
                out.push(LanedRegister { whole_size: s as i32, mask: masks[s] });
            }
            s += 1;
        }
        Ok(out)
    }
}

/// The smallest size that has lanes, -1 where none has.
pub fn get_minimum_laned_register_size(records: &Vec<LanedRegister>) -> (r: i32)
    requires
        records_ascend(records@),
    ensures
        records@.len() == 0 ==> r == -1,
        records@.len() > 0 ==> r == records@[0].whole_size && forall|i: int|
            0 <= i < records@.len() ==> r <= (#[trigger] records@[i]).whole_size,
{
    if records.len() == 0 {
        -1
    } else {
        assert forall|i: int| 0 <= i < records@.len() implies records@[0].whole_size <= (
        #[trigger] records@[i]).whole_size by {
            if i > 0 {
                assert(records@[0].whole_size < records@[i].whole_size);
            }
        }
        records[0].whole_size
    }
}

/// The record for registers of this size.
pub fn get_laned_register(records: &Vec<LanedRegister>, size: i32) -> (r: Option<&LanedRegister>)
    requires
        records_ascend(records@),
    ensures
        match r {
            Some(l) => l.whole_size == size && exists|i: int|
                0 <= i < records@.len() && #[trigger] records@[i] == *l,
            None => forall|i: int|
                0 <= i < records@.len() ==> (#[trigger] records@[i]).whole_size != size,
        },
{
    let mut low: usize = 0;
    let mut high: usize = records.len();
    while low < high
        invariant
            low <= high <= records@.len(),
            records_ascend(records@),
            forall|i: int| 0 <= i < low ==> (#[trigger] records@[i]).whole_size < size,
            forall|i: int|
                high <= i < records@.len() ==> (#[trigger] records@[i]).whole_size > size,
        decreases high - low,
    {
        let mid: usize = low + (high - low) / 2;
        let s: i32 = records[mid].whole_size;
        if s < size {
            assert forall|i: int| 0 <= i < mid + 1 implies (#[trigger] records@[i]).whole_size
                < size by {
                if i < mid {
                    assert(records@[i].whole_size < records@[mid as int].whole_size);
                }
            }
            low = mid + 1;
        } else if size < s {
            assert forall|i: int| mid <= i < records@.len() implies (
            #[trigger] records@[i]).whole_size > size by {
                if i > mid {
                    assert(records@[mid as int].whole_size < records@[i].whole_size);
                }
            }
            high = mid;
        } else {
            return Some(&records[mid]);
        }
    }
    None
}

// ---- volatile memory ----------------------------------------------------------------

/// The ranges that were marked, and the failure that ended it, if one did.
pub struct MarkedRanges {
    pub ranges: Vec<MemoryRange>,
    pub failure: Option<KunaError>,
}

/// What contracts say of [`MarkedRanges`].
pub struct MarkedView {
    pub ranges: Seq<MemoryRange>,
    pub failure: Option<Failure>,
}

impl View for MarkedRanges {
    type V = MarkedView;

    open spec fn view(&self) -> MarkedView {
        MarkedView {
            ranges: self.ranges@,
            failure: match self.failure {
                Some(e) => Some(e@),
                None => None,
            },
        }
    }
}

/// The ranges that the first `n` children of a `<volatile>` element mark; a range that
/// cannot be decoded ends it, and what was marked stays marked.
pub open spec fn volatile_children(
    el: Element,
    ranges: Seq<Result<MemoryRange, KunaError>>,
    n: int,
) -> MarkedView
    decreases n,
{
    if n <= 0 {
        MarkedView { ranges: seq![], failure: None }
    } else {
        let before = volatile_children(el, ranges, n - 1);
        if before.failure is Some || el.children@[n - 1].name@ != "range"@ {
            before
        } else {
            match ranges[n - 1] {
                Ok(m) => MarkedView { ranges: before.ranges.push(m), ..before },
                Err(e) => MarkedView { failure: Some(e@), ..before },
            }
        }
    }
}

proof fn lemma_volatile_stops(
    el: Element,
    ranges: Seq<Result<MemoryRange, KunaError>>,
    n: int,
    m: int,
)
    requires
        0 <= n <= m,
        volatile_children(el, ranges, n).failure is Some,
    ensures
        volatile_children(el, ranges, m) == volatile_children(el, ranges, n),
    decreases m,
{
    if n < m {
        lemma_volatile_stops(el, ranges, n, m - 1);
    }
}

/// The ranges that a `<volatile>` element marks. `ranges` holds, for each child, what
/// decoding it as a range gave; it is looked at for `<range>` children only.
pub fn decode_volatile(el: &Element, ranges: &Vec<Result<MemoryRange, KunaError>>) -> (r:
    MarkedRanges)
    requires
        ranges@.len() == el.children@.len(),
    ensures
        r@ == volatile_children(*el, ranges@, el.children@.len() as int),
{
    let mut out: Vec<MemoryRange> = Vec::new();
    let mut i: usize = 0;
    while i < el.children.len()
        invariant
            i <= el.children@.len(),
            ranges@.len() == el.children@.len(),
            volatile_children(*el, ranges@, i as int) == (MarkedView {
                ranges: out@,
                failure: None,
            }),
        decreases el.children@.len() - i,
    {
        if same_text(el.children[i].name.as_str(), "range") {
            match &ranges[i] {
                Ok(m) => {
                    out.push(*m);
                },
                Err(e) => {
                    proof {
                        lemma_volatile_stops(*el, ranges@, i + 1, el.children@.len() as int);
                    }
                    return MarkedRanges { ranges: out, failure: Some(e.clone()) };
                },
            }
        }
        i += 1;
    }
    MarkedRanges { ranges: out, failure: None }
}

} // verus!
