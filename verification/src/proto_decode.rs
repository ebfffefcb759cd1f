//! Reading prototype models from a compiler specification.
//!
//! Some steps of the reading are decided elsewhere: what a storage class is called,
//! where joined pieces lie, which groups a resource falls into. A reading therefore
//! takes the answers that were given so far, in the order of the questions, and either
//! comes to an end or says what to ask next.

use vstd::prelude::*;
use vstd::string::*;
use crate::error::{lowlevel_failure, outcome, Failure, KunaError};
use crate::proto::{
    copy_values, texts, EffectKind, EffectRecord, Extension, ListRule, ListView, ParamEntry,
    ParamList,
};
use crate::space::{register_result, space_from, Engine, EngineView, SpaceKind, VarnodeData};
use crate::text::{
    begins_with, chars_of, i32_value, join3, offset_value, parse_i32, parse_int, parse_u32,
    same_text, strip_prefix, u32_value,
};
use crate::xml::{attr_str, attribute_text, child_named, find_child, read_text, text_of, Element};

verus! {

/// A question that is decided elsewhere.
#[derive(Debug)]
pub enum Question {
    /// Which storage class has this name?
    TypeClass(String),
    /// At which offset of the join space do these pieces lie, most significant first,
    /// with this logical size?
    Join(Vec<VarnodeData>, u32),
    /// Does the resource fit those that were read before it in its list, and which is its
    /// highest group?
    Seed(Vec<ParamEntry>, ParamEntry),
    /// May these two resources of a group stand in this order?
    Order(ParamEntry, ParamEntry),
    /// Is a `<rule>` element well formed for the list of resources as it stands? The
    /// element is told by its path: the places that lead to it from the root.
    Rule(ParamList, Vec<usize>),
    /// Is there a strategy of this name?
    Strategy(String),
    /// Can the model of this name be merged with those that were merged before it?
    Merge(Vec<String>, String),
    /// Which register is unaffected by calls although the specification is silent on it?
    /// The specification speaks of these.
    Silent(Vec<EffectRecord>),
}

/// What contracts say of a [`Question`].
pub enum QuestionView {
    TypeClass(Seq<char>),
    Join(Seq<VarnodeData>, u32),
    Seed(Seq<ParamEntry>, ParamEntry),
    Order(ParamEntry, ParamEntry),
    Rule(ListView, Seq<usize>),
    Strategy(Seq<char>),
    Merge(Seq<Seq<char>>, Seq<char>),
    Silent(Seq<EffectRecord>),
}

impl View for Question {
    type V = QuestionView;

    open spec fn view(&self) -> QuestionView {
        match *self {
            Question::TypeClass(s) => QuestionView::TypeClass(s@),
            Question::Join(v, n) => QuestionView::Join(v@, n),
            Question::Seed(prev, p) => QuestionView::Seed(prev@, p),
            Question::Order(a, b) => QuestionView::Order(a, b),
            Question::Rule(list, path) => QuestionView::Rule(list@, path@),
            Question::Strategy(s) => QuestionView::Strategy(s@),
            Question::Merge(names, s) => QuestionView::Merge(texts(names@), s@),
            Question::Silent(effects) => QuestionView::Silent(effects@),
        }
    }
}

/// The answer to a question: a refusal, or else what was asked for.
#[derive(Debug)]
pub struct Answer {
    pub failure: Option<KunaError>,
    /// The storage class.
    pub class: u32,
    /// The offset in the join space.
    pub offset: u64,
    /// The highest group of the resource, where it has groups of its own.
    pub last_group: Option<i32>,
    /// The register, where there is one.
    pub location: Option<VarnodeData>,
}

/// What contracts say of an [`Answer`].
pub struct AnswerView {
    pub failure: Option<Failure>,
    pub class: u32,
    pub offset: u64,
    pub last_group: Option<i32>,
    pub location: Option<VarnodeData>,
}

impl View for Answer {
    type V = AnswerView;

    open spec fn view(&self) -> AnswerView {
        AnswerView {
            failure: match self.failure {
                Some(e) => Some(e@),
                None => None,
            },
            class: self.class,
            offset: self.offset,
            last_group: self.last_group,
            location: self.location,
        }
    }
}

/// What contracts say of a list of answers.
pub open spec fn answer_views(v: Seq<Answer>) -> Seq<AnswerView> {
    v.map_values(|a: Answer| a@)
}

/// Why a reading has not come to its end: a question is open, or it failed when that
/// many questions had been answered.
#[derive(Debug)]
pub enum Pause {
    Ask(Question),
    Fail(KunaError, usize),
}

/// What contracts say of a [`Pause`].
pub enum PauseView {
    Ask(QuestionView),
    Fail(Failure, int),
}

impl View for Pause {
    type V = PauseView;

    open spec fn view(&self) -> PauseView {
        match *self {
            Pause::Ask(q) => PauseView::Ask(q@),
            Pause::Fail(e, k) => PauseView::Fail(e@, k as int),
        }
    }
}

/// The failure of a reading, with this text.
pub open spec fn fail<T>(text: Seq<char>, k: int) -> Result<T, PauseView> {
    Err(PauseView::Fail(lowlevel_failure(text), k))
}

pub(crate) fn failed(text: &str, k: usize) -> (r: Pause)
    ensures
        r@ == PauseView::Fail(lowlevel_failure(text@), k as int),
{
    Pause::Fail(KunaError::lowlevel(String::from_str(text)), k)
}

/// The answer to question number `k`.
pub open spec fn answer_to(a: Seq<AnswerView>, k: int, q: QuestionView) -> Result<
    AnswerView,
    PauseView,
> {
    if k >= a.len() {
        Err(PauseView::Ask(q))
    } else {
        match a[k].failure {
            Some(f) => Err(PauseView::Fail(f, k + 1)),
            None => Ok(a[k]),
        }
    }
}

pub(crate) fn ask<'a>(a: &'a Vec<Answer>, k: usize, q: Question) -> (r: Result<&'a Answer, Pause>)
    ensures
        r is Ok ==> k < a@.len() && k < usize::MAX,
        match r {
            Ok(v) => answer_to(answer_views(a@), k as int, q@) == Ok::<AnswerView, PauseView>(v@),
            Err(p) => answer_to(answer_views(a@), k as int, q@) == Err::<AnswerView, PauseView>(
                p@,
            ),
        },
{
    if k >= a.len() {
        return Err(Pause::Ask(q));
    }
    assert(answer_views(a@)[k as int] == a@[k as int]@);
    match &a[k].failure {
        Some(e) => Err(Pause::Fail(e.clone(), k + 1)),
        None => Ok(&a[k]),
    }
}

/// What contracts say of a reading whose value is its own model.
pub open spec fn reading<T>(r: Result<(T, usize), Pause>) -> Result<(T, int), PauseView> {
    match r {
        Ok((v, k)) => Ok((v, k as int)),
        Err(p) => Err(p@),
    }
}

// ---- storage ------------------------------------------------------------------------

/// The offset that an element gives; 0 where it gives none that can be read.
pub open spec fn offset_attribute(el: Element) -> u64 {
    match attribute_text(el, "offset"@) {
        Some(t) => match offset_value(t) {
            Some(v) => v as u64,
            None => 0,
        },
        None => 0,
    }
}

fn read_offset(el: &Element) -> (r: u64)
    ensures
        r == offset_attribute(*el),
{
    match attr_str(el, "offset") {
        Some(t) => match parse_int(t.as_str()) {
            Some(v) => v,
            None => 0,
        },
        None => 0,
    }
}

/// The size that an element gives; 0 where it gives none that can be read.
pub open spec fn size_attribute(el: Element) -> u32 {
    match attribute_text(el, "size"@) {
        Some(t) => match u32_value(t) {
            Some(v) => v as u32,
            None => 0,
        },
        None => 0,
    }
}

fn read_size(el: &Element) -> (r: u32)
    ensures
        r == size_attribute(*el),
{
    match attr_str(el, "size") {
        Some(t) => match parse_u32(t.as_str()) {
            Some(v) => v,
            None => 0,
        },
        None => 0,
    }
}

/// The location that a storage element names: a `<register>`, or a `<varnode>` or
/// `<addr>`. Any other element names none. `what` is for the failure text.
pub open spec fn storage_child(e: EngineView, child: Element, what: Seq<char>) -> Result<
    Option<VarnodeData>,
    Failure,
> {
    if child.name@ == "register"@ {
        match attribute_text(child, "name"@) {
            None => Err(lowlevel_failure("<register> has no name"@)),
            Some(name) => match register_result(e, name) {
                Ok(v) => Ok(Some(v)),
                Err(f) => Err(f),
            },
        }
    } else if child.name@ == "varnode"@ || child.name@ == "addr"@ {
        match attribute_text(child, "space"@) {
            None => Err(lowlevel_failure("<varnode> "@ + what + " has no space"@)),
            Some(name) => match space_from(e.spaces, name, 0) {
                None => Err(lowlevel_failure("<varnode> "@ + what + " unknown space"@)),
                Some(i) => Ok(
                    Some(
                        VarnodeData {
                            space: Some(i as usize),
                            offset: offset_attribute(child),
                            size: size_attribute(child),
                        },
                    ),
                ),
            },
        }
    } else {
        Ok(None)
    }
}

/// The locations that the first `n` storage elements of a block name, or the first
/// failure.
pub open spec fn storage_children(e: EngineView, block: Element, what: Seq<char>, n: int) -> Result<
    Seq<VarnodeData>,
    Failure,
>
    decreases n,
{
    if n <= 0 {
        Ok(seq![])
    } else {
        match storage_children(e, block, what, n - 1) {
            Err(f) => Err(f),
            Ok(before) => match storage_child(e, block.children@[n - 1], what) {
                Err(f) => Err(f),
                Ok(None) => Ok(before),
                Ok(Some(v)) => Ok(before.push(v)),
            },
        }
    }
}

/// The locations that the storage elements of a block name, or the first failure.
pub open spec fn storage_block(e: EngineView, block: Element, what: Seq<char>) -> Result<
    Seq<VarnodeData>,
    Failure,
> {
    storage_children(e, block, what, block.children@.len() as int)
}

proof fn lemma_storage_stops(e: EngineView, block: Element, what: Seq<char>, n: int, m: int)
    requires
        0 <= n <= m,
        storage_children(e, block, what, n) is Err,
    ensures
        storage_children(e, block, what, m) == storage_children(e, block, what, n),
    decreases m,
{
    if n < m {
        lemma_storage_stops(e, block, what, n, m - 1);
    }
}

impl Engine {
    fn read_storage_child(&self, child: &Element, what: &str) -> (r: Result<
        Option<VarnodeData>,
        KunaError,
    >)
        ensures
            outcome(r) == storage_child(self@, *child, what@),
    {
        if same_text(child.name.as_str(), "register") {
            match attr_str(child, "name") {
                None => Err(KunaError::lowlevel(String::from_str("<register> has no name"))),
                Some(name) => match self.get_register_varnode(name.as_str()) {
                    Ok(v) => Ok(Some(v)),
                    Err(e) => Err(e),
                },
            }
        } else if same_text(child.name.as_str(), "varnode") || same_text(
            child.name.as_str(),
            "addr",
        ) {
            match attr_str(child, "space") {
                None => Err(KunaError::lowlevel(join3("<varnode> ", what, " has no space"))),
                Some(name) => match self.get_space_by_name(name.as_str()) {
                    None => Err(KunaError::lowlevel(join3("<varnode> ", what, " unknown space"))),
                    Some(i) => Ok(
                        Some(
                            VarnodeData {
                                space: Some(i),
                                offset: read_offset(child),
                                size: read_size(child),
                            },
                        ),
                    ),
                },
            }
        } else {
            Ok(None)
        }
    }

    fn read_storage_block(&self, block: &Element, what: &str) -> (r: Result<
        Vec<VarnodeData>,
        KunaError,
    >)
        ensures
            match r {
                Ok(v) => storage_block(self@, *block, what@) == Ok::<Seq<VarnodeData>, Failure>(
                    v@,
                ),
                Err(err) => storage_block(self@, *block, what@) == Err::<
                    Seq<VarnodeData>,
                    Failure,
                >(err@),
            },
    {
        let mut out: Vec<VarnodeData> = Vec::new();
        let mut i: usize = 0;
        while i < block.children.len()
            invariant
                i <= block.children@.len(),
                storage_children(self@, *block, what@, i as int) == Ok::<
                    Seq<VarnodeData>,
                    Failure,
                >(out@),
            decreases block.children@.len() - i,
        {
            match self.read_storage_child(&block.children[i], what) {
                Err(err) => {
                    proof {
                        lemma_storage_stops(
                            self@,
                            *block,
                            what@,
                            i + 1,
                            block.children@.len() as int,
                        );
                    }
                    return Err(err);
                },
                Ok(None) => {},
                Ok(Some(v)) => {
                    out.push(v);
                },
            }
            i += 1;
        }
        Ok(out)
    }
}

/// The location that the first storage element, from place `i` on, names. One that
/// names none that is known ends the search.
pub open spec fn return_addr_from(e: EngineView, ra: Element, i: int) -> Option<VarnodeData>
    decreases ra.children@.len() - i,
{
    if i < 0 || i >= ra.children@.len() {
        None
    } else {
        match storage_child(e, ra.children@[i], ""@) {
            Err(_) => None,
            Ok(Some(v)) => Some(v),
            Ok(None) => return_addr_from(e, ra, i + 1),
        }
    }
}

/// Where the specification says that the return address is kept.
pub open spec fn default_return_addr(e: EngineView, root: Element) -> Option<VarnodeData> {
    match child_named(root, "returnaddress"@) {
        None => None,
        Some(ra) => return_addr_from(e, ra, 0),
    }
}

impl Engine {
    /// Where the specification says that the return address is kept.
    pub fn decode_default_return_addr(&self, root: &Element) -> (r: Option<VarnodeData>)
        ensures
            r == default_return_addr(self@, *root),
    {
        let ra = match find_child(root, "returnaddress") {
            None => {
                return None;
            },
            Some(ra) => ra,
        };
        let mut i: usize = 0;
        while i < ra.children.len()
            invariant
                i <= ra.children@.len(),
                default_return_addr(self@, *root) == return_addr_from(self@, *ra, i as int),
            decreases ra.children@.len() - i,
        {
            match self.read_storage_child(&ra.children[i], "") {
                Err(_) => {
                    return None;
                },
                Ok(Some(v)) => {
                    return Some(v);
                },
                Ok(None) => {},
            }
            i += 1;
        }
        None
    }

    /// The effect records of a block.
    pub fn decode_effect_block(&self, block: &Element, effect: EffectKind) -> (r: Result<
        Vec<EffectRecord>,
        KunaError,
    >)
        ensures
            match r {
                Ok(v) => storage_block(self@, *block, "effect"@) is Ok && v@ == effects_of(
                    storage_block(self@, *block, "effect"@)->Ok_0,
                    effect,
                ),
                Err(err) => storage_block(self@, *block, "effect"@) == Err::<
                    Seq<VarnodeData>,
                    Failure,
                >(err@),
            },
    {
        let storage = match self.read_storage_block(block, "effect") {
            Err(err) => {
                return Err(err);
            },
            Ok(v) => v,
        };
        let mut out: Vec<EffectRecord> = Vec::new();
        let mut i: usize = 0;
        while i < storage.len()
            invariant
                i <= storage@.len(),
                out@ == effects_of(storage@, effect).take(i as int),
            decreases storage@.len() - i,
        {
            out.push(EffectRecord { location: storage[i], effect });
            assert(out@ =~= effects_of(storage@, effect).take(i + 1));
            i += 1;
        }
        assert(out@ =~= effects_of(storage@, effect));
        Ok(out)
    }

    /// The locations of a block of internal storage.
    pub fn decode_internal_storage_block(&self, block: &Element) -> (r: Result<
        Vec<VarnodeData>,
        KunaError,
    >)
        ensures
            match r {
                Ok(v) => storage_block(self@, *block, "internal_storage"@) == Ok::<
                    Seq<VarnodeData>,
                    Failure,
                >(v@),
                Err(err) => storage_block(self@, *block, "internal_storage"@) == Err::<
                    Seq<VarnodeData>,
                    Failure,
                >(err@),
            },
    {
        self.read_storage_block(block, "internal_storage")
    }
}

/// The same effect on each location.
pub open spec fn effects_of(storage: Seq<VarnodeData>, effect: EffectKind) -> Seq<EffectRecord> {
    storage.map_values(|v: VarnodeData| EffectRecord { location: v, effect })
}

// ---- joined storage -----------------------------------------------------------------

/// The place of the first colon, from `i` on.
pub open spec fn colon_from(s: Seq<char>, i: int) -> Option<int>
    decreases s.len() - i,
{
    if i < 0 || i >= s.len() {
        None
    } else if s[i] == ':' {
        Some(i)
    } else {
        colon_from(s, i + 1)
    }
}

fn find_colon(s: &str) -> (r: Option<usize>)
    ensures
        match r {
            Some(i) => i < s@.len() && colon_from(s@, 0) == Some(i as int),
            None => colon_from(s@, 0) is None,
        },
{
    let cs = chars_of(s);
    let mut i: usize = 0;
    while i < cs.len()
        invariant
            i <= cs@.len(),
            cs@ == s@,
            colon_from(s@, 0) == colon_from(s@, i as int),
        decreases cs@.len() - i,
    {
        if cs[i] == ':' {
            return Some(i);
        }
        i += 1;
    }
    None
}

/// The number that a text writes, 0 where it writes none.
pub open spec fn offset_or_zero(s: Seq<char>) -> nat {
    match offset_value(s) {
        Some(v) => v,
        None => 0,
    }
}

fn read_offset_or_zero(s: &str) -> (r: u64)
    ensures
        r == offset_or_zero(s@),
{
    match parse_int(s) {
        Some(v) => v,
        None => 0,
    }
}

/// The index of the space of this name, as a storage location holds it.
pub open spec fn space_index(e: EngineView, name: Seq<char>) -> Option<usize> {
    match space_from(e.spaces, name, 0) {
        Some(i) => Some(i as usize),
        None => None,
    }
}

/// The location that a piece of a join names: a register, or `space:offset:size`. A
/// size that does not fit is clamped.
#[verifier::opaque]
pub open spec fn piece_storage(e: EngineView, text: Seq<char>) -> Result<VarnodeData, Failure> {
    match colon_from(text, 0) {
        None => register_result(e, text),
        Some(i) => {
            let rest = text.skip(i + 1);
            match colon_from(rest, 0) {
                None => Err(lowlevel_failure("join address piece attribute is malformed"@)),
                Some(j) => {
                    let size = offset_or_zero(rest.skip(j + 1));
                    Ok(
                        VarnodeData {
                            space: space_index(e, text.take(i)),
                            offset: offset_or_zero(rest.take(j)) as u64,
                            size: if size > u32::MAX {
                                u32::MAX
                            } else {
                                size as u32
                            },
                        },
                    )
                },
            }
        },
    }
}

/// The place of the piece that an attribute names: `piece1` is the first.
pub open spec fn piece_place(name: Seq<char>) -> Option<int> {
    if begins_with(name, "piece"@) {
        match i32_value(name.skip(5)) {
            Some(n) => if n >= 1 {
                Some(n - 1)
            } else {
                None
            },
            None => None,
        }
    } else {
        None
    }
}

/// A piece that nothing is known of.
pub open spec fn no_piece() -> VarnodeData {
    VarnodeData { space: None, offset: 0, size: 0 }
}

/// The list, filled up to a length with unknown pieces.
pub open spec fn padded(pieces: Seq<VarnodeData>, len: int) -> Seq<VarnodeData> {
    if pieces.len() >= len {
        pieces
    } else {
        pieces + Seq::new((len - pieces.len()) as nat, |i: int| no_piece())
    }
}

/// The largest place of a piece.
pub const MAX_PIECE: i32 = 64;

/// The pieces and the logical size after one more attribute of a joined address.
pub open spec fn join_attribute(
    e: EngineView,
    name: Seq<char>,
    text: Seq<char>,
    pieces: Seq<VarnodeData>,
    logical: u32,
) -> Result<(Seq<VarnodeData>, u32), Failure> {
    if name == "logicalsize"@ {
        match offset_value(text) {
            None => Err(lowlevel_failure("bad join logicalsize"@)),
            Some(v) => Ok((pieces, (v % 0x1_0000_0000) as u32)),
        }
    } else {
        match piece_place(name) {
            None => Ok((pieces, logical)),
            Some(at) => if at > MAX_PIECE {
                Ok((pieces, logical))
            } else {
                match piece_storage(e, text) {
                    Err(f) => Err(f),
                    Ok(v) => Ok((padded(pieces, at + 1).update(at, v), logical)),
                }
            },
        }
    }
}

/// The pieces and the logical size that the first `n` attributes of a joined address
/// give, or the first failure.
pub open spec fn join_attributes(e: EngineView, el: Element, n: int) -> Result<
    (Seq<VarnodeData>, u32),
    Failure,
>
    decreases n,
{
    if n <= 0 {
        Ok((seq![], 0))
    } else {
        match join_attributes(e, el, n - 1) {
            Err(f) => Err(f),
            Ok((pieces, logical)) => {
                let a = el.attributes@[n - 1];
                join_attribute(e, a.0@, text_of(a.1@), pieces, logical)
            },
        }
    }
}

/// The offset in the join space of a joined address.
pub open spec fn join_addr(e: EngineView, el: Element, a: Seq<AnswerView>, k: int) -> Result<
    (u64, int),
    PauseView,
> {
    match join_attributes(e, el, el.attributes@.len() as int) {
        Err(f) => Err(PauseView::Fail(f, k)),
        Ok((pieces, logical)) => match answer_to(a, k, QuestionView::Join(pieces, logical)) {
            Err(p) => Err(p),
            Ok(v) => Ok((v.offset, k + 1)),
        },
    }
}

proof fn lemma_join_stops(e: EngineView, el: Element, n: int, m: int)
    requires
        0 <= n <= m,
        join_attributes(e, el, n) is Err,
    ensures
        join_attributes(e, el, m) == join_attributes(e, el, n),
    decreases m,
{
    if n < m {
        lemma_join_stops(e, el, n, m - 1);
    }
}

fn find_piece_place(name: &str) -> (r: Option<i32>)
    ensures
        match r {
            Some(at) => at >= 0 && piece_place(name@) == Some(at as int),
            None => piece_place(name@) is None,
        },
{
    proof {
        reveal_strlit("piece");
    }
    match strip_prefix(name, "piece") {
        None => None,
        Some(rest) => match parse_i32(rest) {
            None => None,
            Some(n) => if n >= 1 {
                Some(n - 1)
            } else {
                None
            },
        },
    }
}

impl Engine {
    fn read_piece(&self, text: &str) -> (r: Result<VarnodeData, KunaError>)
        ensures
            outcome(r) == piece_storage(self@, text@),
    {
        proof {
            reveal(piece_storage);
        }
        let n: usize = text.unicode_len();
        let i: usize = match find_colon(text) {
            None => {
                return self.get_register_varnode(text);
            },
            Some(i) => i,
        };
        let rest = text.substring_char(i + 1, n);
        assert(rest@ =~= text@.skip(i + 1));
        let m: usize = rest.unicode_len();
        let j: usize = match find_colon(rest) {
            None => {
                return Err(
                    KunaError::lowlevel(
                        String::from_str("join address piece attribute is malformed"),
                    ),
                );
            },
            Some(j) => j,
        };
        let name = text.substring_char(0, i);
        assert(name@ =~= text@.take(i as int));
        let space = self.get_space_by_name(name);
        let offset_text = rest.substring_char(0, j);
        assert(offset_text@ =~= rest@.take(j as int));
        let size_text = rest.substring_char(j + 1, m);
        assert(size_text@ =~= rest@.skip(j + 1));
        let offset: u64 = read_offset_or_zero(offset_text);
        let size64: u64 = read_offset_or_zero(size_text);
        let size: u32 = if size64 > u32::MAX as u64 {
            u32::MAX
        } else {
            size64 as u32
        };
        Ok(VarnodeData { space, offset, size })
    }

    fn read_join_attribute(
        &self,
        name: &str,
        text: &str,
        pieces: &mut Vec<VarnodeData>,
        logical: u32,
    ) -> (r: Result<u32, KunaError>)
        ensures
            match r {
                Ok(size) => join_attribute(self@, name@, text@, old(pieces)@, logical) == Ok::<
                    (Seq<VarnodeData>, u32),
                    Failure,
                >((final(pieces)@, size)),
                Err(e) => join_attribute(self@, name@, text@, old(pieces)@, logical) == Err::<
                    (Seq<VarnodeData>, u32),
                    Failure,
                >(e@),
            },
    {
        if same_text(name, "logicalsize") {
            return match parse_int(text) {
                None => Err(KunaError::lowlevel(String::from_str("bad join logicalsize"))),
                Some(v) => Ok((v % 0x1_0000_0000) as u32),
            };
        }
        let at: usize = match find_piece_place(name) {
            None => {
                return Ok(logical);
            },
            Some(at) => {
                if at > MAX_PIECE {
                    return Ok(logical);
                }
                at as usize
            },
        };
        match self.read_piece(text) {
            Err(e) => Err(e),
            Ok(v) => {
                let ghost was = pieces@;
                while pieces.len() <= at
                    invariant
                        pieces@ == padded(was, pieces@.len() as int),
                        pieces@.len() >= was.len(),
                        pieces@.len() <= if was.len() > at + 1 {
                            was.len()
                        } else {
                            (at + 1) as nat
                        },
                    decreases at + 1 - pieces@.len(),
                {
                    pieces.push(VarnodeData { space: None, offset: 0, size: 0 });
                    assert(pieces@ =~= padded(was, pieces@.len() as int));
                }
                assert(pieces@ =~= padded(was, at + 1));
                pieces[at] = v;
                Ok(logical)
            },
        }
    }

    /// The offset in the join space of an address whose pieces the attributes name.
    pub fn decode_join_addr(&self, el: &Element, a: &Vec<Answer>, k: usize) -> (r: Result<
        (u64, usize),
        Pause,
    >)
        ensures
            reading(r) == join_addr(self@, *el, answer_views(a@), k as int),
    {
        let mut pieces: Vec<VarnodeData> = Vec::new();
        let mut logical: u32 = 0;
        let mut i: usize = 0;
        while i < el.attributes.len()
            invariant
                i <= el.attributes@.len(),
                join_attributes(self@, *el, i as int) == Ok::<(Seq<VarnodeData>, u32), Failure>(
                    (pieces@, logical),
                ),
            decreases el.attributes@.len() - i,
        {
            let name = el.attributes[i].0.as_str();
            let text = read_text(&el.attributes[i].1);
            match self.read_join_attribute(name, text.as_str(), &mut pieces, logical) {
                Err(e) => {
                    proof {
                        lemma_join_stops(self@, *el, i + 1, el.attributes@.len() as int);
                    }
                    return Err(Pause::Fail(e, k));
                },
                Ok(size) => {
                    logical = size;
                },
            }
            i += 1;
        }
        match ask(a, k, Question::Join(pieces, logical)) {
            Err(p) => Err(p),
            Ok(v) => Ok((v.offset, k + 1)),
        }
    }
}

/// The attributes of an element: their names and texts.
pub open spec fn attribute_texts(el: Element) -> Seq<(Seq<char>, Seq<char>)> {
    el.attributes@.map_values(|a: (String, Vec<u8>)| (a.0@, text_of(a.1@)))
}

/// What an attribute of a joined address speaks of: -1 stands for the logical size, any
/// other number for the piece at that place.
#[verifier::opaque]
pub open spec fn join_slot(name: Seq<char>) -> Option<int> {
    if name == "logicalsize"@ {
        Some(-1)
    } else {
        match piece_place(name) {
            Some(at) if at <= MAX_PIECE => Some(at),
            _ => None,
        }
    }
}

/// Whether attributes that speak of the same thing say the same of it. It is so wherever
/// each thing is spoken of at most once.
pub open spec fn join_consistent(attrs: Seq<(Seq<char>, Seq<char>)>) -> bool {
    forall|i: int, j: int|
        0 <= i < attrs.len() && 0 <= j < attrs.len() && join_slot(#[trigger] attrs[i].0)
            == join_slot(#[trigger] attrs[j].0) && join_slot(attrs[i].0) is Some ==> attrs[i].1
            == attrs[j].1
}

/// Whether every attribute of the first that matters to a joined address stands in the
/// second.
pub open spec fn join_covered(
    first: Seq<(Seq<char>, Seq<char>)>,
    second: Seq<(Seq<char>, Seq<char>)>,
) -> bool {
    forall|i: int|
        0 <= i < first.len() && join_slot(#[trigger] first[i].0) is Some ==> second.contains(
            first[i],
        )
}

/// Whether the attribute can be read.
pub open spec fn join_readable(e: EngineView, a: (Seq<char>, Seq<char>)) -> bool {
    match join_slot(a.0) {
        None => true,
        Some(at) => if at < 0 {
            offset_value(a.1) is Some
        } else {
            piece_storage(e, a.1) is Ok
        },
    }
}

/// Whether the first `n` attributes can be read and the pieces and the logical size are
/// what they say, and nothing more.
spec fn join_described(
    e: EngineView,
    attrs: Seq<(Seq<char>, Seq<char>)>,
    n: int,
    pieces: Seq<VarnodeData>,
    logical: u32,
) -> bool {
    &&& forall|i: int| 0 <= i < n ==> join_readable(e, #[trigger] attrs[i])
    &&& forall|i: int|
        0 <= i < n ==> (join_slot(#[trigger] attrs[i].0) matches Some(at) ==> if at < 0 {
            logical == (offset_value(attrs[i].1)->0 % 0x1_0000_0000) as u32
        } else {
            at < pieces.len() && pieces[at] == piece_storage(e, attrs[i].1)->Ok_0
        })
    &&& forall|at: int|
        0 <= at < pieces.len() ==> #[trigger] pieces[at] == no_piece() || join_spoken(attrs, n, at)
    &&& logical == 0 || join_spoken(attrs, n, -1)
    &&& pieces.len() == 0 || join_spoken(attrs, n, pieces.len() - 1)
}

/// Whether one of the first `n` attributes speaks of this.
spec fn join_spoken(attrs: Seq<(Seq<char>, Seq<char>)>, n: int, slot: int) -> bool {
    exists|i: int| 0 <= i < n && join_slot(#[trigger] attrs[i].0) == Some(slot)
}

proof fn lemma_join_slot(name: Seq<char>)
    ensures
        join_slot(name) matches Some(at) ==> at >= -1,
{
    reveal(join_slot);
}

/// What an attribute does, by what it speaks of.
proof fn lemma_join_attribute(
    e: EngineView,
    a: (Seq<char>, Seq<char>),
    pieces: Seq<VarnodeData>,
    logical: u32,
)
    ensures
        join_attribute(e, a.0, a.1, pieces, logical) is Ok <==> join_readable(e, a),
        join_readable(e, a) ==> join_attribute(e, a.0, a.1, pieces, logical) == Ok::<
            (Seq<VarnodeData>, u32),
            Failure,
        >(
            match join_slot(a.0) {
                None => (pieces, logical),
                Some(at) => if at < 0 {
                    (pieces, (offset_value(a.1)->0 % 0x1_0000_0000) as u32)
                } else {
                    (padded(pieces, at + 1).update(at, piece_storage(e, a.1)->Ok_0), logical)
                },
            },
        ),
{
    reveal(join_slot);
}

/// One more attribute keeps the description true.
proof fn lemma_join_step(
    e: EngineView,
    attrs: Seq<(Seq<char>, Seq<char>)>,
    n: int,
    before: Seq<VarnodeData>,
    was: u32,
    pieces: Seq<VarnodeData>,
    logical: u32,
)
    requires
        0 < n <= attrs.len(),
        join_consistent(attrs),
        join_described(e, attrs, n - 1, before, was),
        join_readable(e, attrs[n - 1]),
        (pieces, logical) == match join_slot(attrs[n - 1].0) {
            None => (before, was),
            Some(at) => if at < 0 {
                (before, (offset_value(attrs[n - 1].1)->0 % 0x1_0000_0000) as u32)
            } else {
                (
                    padded(before, at + 1).update(at, piece_storage(e, attrs[n - 1].1)->Ok_0),
                    was,
                )
            },
        },
    ensures
        join_described(e, attrs, n, pieces, logical),
{
    let last = attrs[n - 1];
    lemma_join_slot(last.0);
    assert forall|slot: int| #[trigger] join_spoken(attrs, n - 1, slot) implies join_spoken(
        attrs,
        n,
        slot,
    ) by {
        let i = choose|i: int| 0 <= i < n - 1 && join_slot(#[trigger] attrs[i].0) == Some(slot);
        assert(join_slot(attrs[i].0) == Some(slot));
    }
    if let Some(slot) = join_slot(last.0) {
        assert(join_spoken(attrs, n, slot)) by {
            assert(join_slot(attrs[n - 1].0) == Some(slot));
        }
    }
    assert forall|i: int| 0 <= i < n implies (join_slot(#[trigger] attrs[i].0) matches Some(at)
        ==> if at < 0 {
        logical == (offset_value(attrs[i].1)->0 % 0x1_0000_0000) as u32
    } else {
        at < pieces.len() && pieces[at] == piece_storage(e, attrs[i].1)->Ok_0
    }) by {
        lemma_join_slot(attrs[i].0);
        if join_slot(attrs[i].0) is Some && join_slot(attrs[i].0) == join_slot(attrs[n - 1].0) {
            assert(attrs[i].1 == last.1);
        }
    }
    assert forall|at: int| 0 <= at < pieces.len() implies #[trigger] pieces[at] == no_piece()
        || join_spoken(attrs, n, at) by {
        if at < before.len() && join_slot(last.0) != Some(at) {
            assert(pieces[at] == before[at]);
        }
    }
}

proof fn lemma_join_described(e: EngineView, el: Element, n: int)
    requires
        0 <= n <= el.attributes@.len(),
        join_consistent(attribute_texts(el)),
        join_attributes(e, el, n) is Ok,
    ensures
        ({
            let (pieces, logical) = join_attributes(e, el, n)->Ok_0;
            join_described(e, attribute_texts(el), n, pieces, logical)
        }),
    decreases n,
{
    let attrs = attribute_texts(el);
    if n > 0 {
        lemma_join_described(e, el, n - 1);
        let (before, was) = join_attributes(e, el, n - 1)->Ok_0;
        let (pieces, logical) = join_attributes(e, el, n)->Ok_0;
        assert(attrs[n - 1] == (
            el.attributes@[n - 1].0@,
            text_of(el.attributes@[n - 1].1@),
        ));
        lemma_join_attribute(e, attrs[n - 1], before, was);
        lemma_join_step(e, attrs, n, before, was, pieces, logical);
    }
}

proof fn lemma_join_readable(e: EngineView, el: Element, n: int)
    requires
        0 <= n <= el.attributes@.len(),
        forall|i: int| 0 <= i < n ==> join_readable(e, #[trigger] attribute_texts(el)[i]),
    ensures
        join_attributes(e, el, n) is Ok,
    decreases n,
{
    if n > 0 {
        lemma_join_readable(e, el, n - 1);
        let last = attribute_texts(el)[n - 1];
        assert(last == (el.attributes@[n - 1].0@, text_of(el.attributes@[n - 1].1@)));
        let (before, was) = join_attributes(e, el, n - 1)->Ok_0;
        lemma_join_attribute(e, last, before, was);
    }
}

/// Where one of two elements has all that the other says, it fills in all that the other
/// fills in.
proof fn lemma_join_covered(
    e: EngineView,
    first: Seq<(Seq<char>, Seq<char>)>,
    pieces: Seq<VarnodeData>,
    logical: u32,
    second: Seq<(Seq<char>, Seq<char>)>,
    pieces2: Seq<VarnodeData>,
    logical2: u32,
)
    requires
        join_described(e, first, first.len() as int, pieces, logical),
        join_described(e, second, second.len() as int, pieces2, logical2),
        join_covered(first, second),
    ensures
        pieces.len() <= pieces2.len(),
        forall|at: int|
            0 <= at < pieces.len() ==> #[trigger] pieces[at] == no_piece() || pieces[at]
                == pieces2[at],
        logical == 0 || logical == logical2,
{
    assert forall|slot: int| #[trigger] join_spoken(first, first.len() as int, slot) implies {
        &&& slot >= -1
        &&& slot >= 0 ==> slot < pieces2.len() && slot < pieces.len() && pieces[slot]
            == pieces2[slot]
        &&& slot == -1 ==> logical == logical2
    } by {
        let i = choose|i: int|
            0 <= i < first.len() && join_slot(#[trigger] first[i].0) == Some(slot);
        lemma_join_slot(first[i].0);
        assert(second.contains(first[i]));
        let j = choose|j: int| 0 <= j < second.len() && second[j] == first[i];
        assert(join_slot(second[j].0) == Some(slot));
    }
}

/// The order of the attributes of a joined address does not matter, nor do attributes
/// other than its pieces and its logical size: where each piece is named at most once,
/// another element with the same pieces and the same logical size gives the same address.
pub proof fn law_join_attributes_have_no_order(
    e: EngineView,
    first: Element,
    second: Element,
    a: Seq<AnswerView>,
    k: int,
)
    requires
        join_consistent(attribute_texts(first)),
        join_covered(attribute_texts(first), attribute_texts(second)),
        join_covered(attribute_texts(second), attribute_texts(first)),
        join_attributes(e, first, first.attributes@.len() as int) is Ok,
    ensures
        join_attributes(e, second, second.attributes@.len() as int) == join_attributes(
            e,
            first,
            first.attributes@.len() as int,
        ),
        join_addr(e, second, a, k) == join_addr(e, first, a, k),
{
    let x = attribute_texts(first);
    let y = attribute_texts(second);
    lemma_join_described(e, first, x.len() as int);
    assert forall|i: int| 0 <= i < y.len() implies join_readable(e, #[trigger] y[i]) by {
        if join_slot(y[i].0) is Some {
            assert(x.contains(y[i]));
        }
    }
    assert forall|i: int, j: int|
        0 <= i < y.len() && 0 <= j < y.len() && join_slot(#[trigger] y[i].0) == join_slot(
            #[trigger] y[j].0,
        ) && join_slot(y[i].0) is Some implies y[i].1 == y[j].1 by {
        assert(x.contains(y[i]) && x.contains(y[j]));
        let i0 = choose|i0: int| 0 <= i0 < x.len() && x[i0] == y[i];
        let j0 = choose|j0: int| 0 <= j0 < x.len() && x[j0] == y[j];
        assert(join_slot(x[i0].0) == join_slot(x[j0].0));
    }
    lemma_join_readable(e, second, y.len() as int);
    lemma_join_described(e, second, y.len() as int);
    let (pieces, logical) = join_attributes(e, first, x.len() as int)->Ok_0;
    let (pieces2, logical2) = join_attributes(e, second, y.len() as int)->Ok_0;
    lemma_join_covered(e, x, pieces, logical, y, pieces2, logical2);
    lemma_join_covered(e, y, pieces2, logical2, x, pieces, logical);
    assert(pieces =~= pieces2) by {
        assert forall|at: int| 0 <= at < pieces.len() implies pieces[at] == pieces2[at] by {
            assert(pieces[at] == no_piece() || pieces[at] == pieces2[at]);
            assert(pieces2[at] == no_piece() || pieces2[at] == pieces[at]);
        }
    }
}

// ---- parameter resources ------------------------------------------------------------

/// Where the storage of a `<pentry>` lies: its space and its offset, from the first
/// `<register>` or `<addr>` child at place `i` or later.
pub open spec fn pentry_storage_from(
    e: EngineView,
    pentry: Element,
    a: Seq<AnswerView>,
    k: int,
    i: int,
) -> Result<((usize, u64), int), PauseView>
    decreases pentry.children@.len() - i,
{
    if i < 0 || i >= pentry.children@.len() {
        fail("<pentry> has no <register>/<addr> storage"@, k)
    } else {
        let child = pentry.children@[i];
        if child.name@ == "register"@ {
            match attribute_text(child, "name"@) {
                None => fail("<register> has no name"@, k),
                Some(name) => match register_result(e, name) {
                    Err(f) => Err(PauseView::Fail(f, k)),
                    Ok(v) => match v.space {
                        None => fail("register has no space"@, k),
                        Some(space) => Ok(((space, v.offset), k)),
                    },
                },
            }
        } else if child.name@ == "addr"@ {
            match attribute_text(child, "space"@) {
                None => fail("<addr> has no space"@, k),
                Some(name) => match space_from(e.spaces, name, 0) {
                    None => fail("<addr> unknown space"@, k),
                    Some(space) => if e.spaces[space].info.kind == SpaceKind::Join {
                        match join_addr(e, child, a, k) {
                            Err(p) => Err(p),
                            Ok((offset, k2)) => Ok(((space as usize, offset), k2)),
                        }
                    } else {
                        Ok(((space as usize, offset_attribute(child)), k))
                    },
                },
            }
        } else {
            pentry_storage_from(e, pentry, a, k, i + 1)
        }
    }
}

impl Engine {
    /// Where the storage of a `<pentry>` lies: its space and its offset.
    pub fn decode_pentry_storage(&self, pentry: &Element, a: &Vec<Answer>, k: usize) -> (r: Result<
        ((usize, u64), usize),
        Pause,
    >)
        ensures
            reading(r) == pentry_storage_from(self@, *pentry, answer_views(a@), k as int, 0),
    {
        let mut i: usize = 0;
        while i < pentry.children.len()
            invariant
                i <= pentry.children@.len(),
                pentry_storage_from(self@, *pentry, answer_views(a@), k as int, 0)
                    == pentry_storage_from(
                    self@,
                    *pentry,
                    answer_views(a@),
                    k as int,
                    i as int,
                ),
            decreases pentry.children@.len() - i,
        {
            let child = &pentry.children[i];
            if same_text(child.name.as_str(), "register") {
                return match attr_str(child, "name") {
                    None => Err(failed("<register> has no name", k)),
                    Some(name) => match self.get_register_varnode(name.as_str()) {
                        Err(e) => Err(Pause::Fail(e, k)),
                        Ok(v) => match v.space {
                            None => Err(failed("register has no space", k)),
                            Some(space) => Ok(((space, v.offset), k)),
                        },
                    },
                };
            }
            if same_text(child.name.as_str(), "addr") {
                return match attr_str(child, "space") {
                    None => Err(failed("<addr> has no space", k)),
                    Some(name) => match self.get_space_by_name(name.as_str()) {
                        None => Err(failed("<addr> unknown space", k)),
                        Some(space) => if self.spaces[space].info.kind == SpaceKind::Join {
                            match self.decode_join_addr(child, a, k) {
                                Err(p) => Err(p),
                                Ok((offset, k2)) => Ok(((space, offset), k2)),
                            }
                        } else {
                            Ok(((space, read_offset(child)), k))
                        },
                    },
                };
            }
            i += 1;
        }
        Err(failed("<pentry> has no <register>/<addr> storage", k))
    }
}

/// The number that an attribute of a `<pentry>` gives: `missing` where there is none,
/// `None` where it is no number.
pub open spec fn pentry_number(pentry: Element, name: Seq<char>, missing: i32) -> Option<i32> {
    match attribute_text(pentry, name) {
        None => Some(missing),
        Some(t) => match i32_value(t) {
            Some(v) => Some(v as i32),
            None => None,
        },
    }
}

fn read_pentry_number(pentry: &Element, name: &str, missing: i32) -> (r: Option<i32>)
    ensures
        r == pentry_number(*pentry, name@, missing),
{
    match attr_str(pentry, name) {
        None => Some(missing),
        Some(t) => parse_i32(t.as_str()),
    }
}

/// How an extension is called.
pub open spec fn extension_named(name: Seq<char>) -> Option<Extension> {
    if name == "sign"@ {
        Some(Extension::Sign)
    } else if name == "zero"@ {
        Some(Extension::Zero)
    } else if name == "inttype"@ {
        Some(Extension::IntType)
    } else if name == "float"@ {
        Some(Extension::Float)
    } else if name == "none"@ {
        Some(Extension::Unspecified)
    } else {
        None
    }
}

/// How small values are extended in a `<pentry>`; `None` where the attribute is bad.
pub open spec fn pentry_extension(pentry: Element) -> Option<Extension> {
    match attribute_text(pentry, "extension"@) {
        None => Some(Extension::Unspecified),
        Some(t) => extension_named(t),
    }
}

fn read_pentry_extension(pentry: &Element) -> (r: Option<Extension>)
    ensures
        r == pentry_extension(*pentry),
{
    match attr_str(pentry, "extension") {
        None => Some(Extension::Unspecified),
        Some(t) => {
            let t = t.as_str();
            if same_text(t, "sign") {
                Some(Extension::Sign)
            } else if same_text(t, "zero") {
                Some(Extension::Zero)
            } else if same_text(t, "inttype") {
                Some(Extension::IntType)
            } else if same_text(t, "float") {
                Some(Extension::Float)
            } else if same_text(t, "none") {
                Some(Extension::Unspecified)
            } else {
                None
            }
        },
    }
}

/// The name of the storage class of a `<pentry>`, where it gives one.
pub open spec fn pentry_class_name(pentry: Element) -> Option<Seq<char>> {
    match attribute_text(pentry, "storage"@) {
        Some(t) => Some(t),
        None => attribute_text(pentry, "metatype"@),
    }
}

/// The storage class of a `<pentry>`.
pub open spec fn pentry_class(pentry: Element, a: Seq<AnswerView>, k: int) -> Result<
    (Option<u32>, int),
    PauseView,
> {
    match pentry_class_name(pentry) {
        None => Ok((None, k)),
        Some(name) => match answer_to(a, k, QuestionView::TypeClass(name)) {
            Err(p) => Err(p),
            Ok(v) => Ok((Some(v.class), k + 1)),
        },
    }
}

fn read_pentry_class(pentry: &Element, a: &Vec<Answer>, k: usize) -> (r: Result<
    (Option<u32>, usize),
    Pause,
>)
    ensures
        reading(r) == pentry_class(*pentry, answer_views(a@), k as int),
{
    let name = match attr_str(pentry, "storage") {
        Some(t) => t,
        None => match attr_str(pentry, "metatype") {
            Some(t) => t,
            None => {
                return Ok((None, k));
            },
        },
    };
    match ask(a, k, Question::TypeClass(name)) {
        Err(p) => Err(p),
        Ok(v) => Ok((Some(v.class), k + 1)),
    }
}

/// The alignment of a `<pentry>`: `align`, else `size`, else 0; or the failure.
pub open spec fn pentry_alignment(pentry: Element) -> Result<i32, Seq<char>> {
    match pentry_number(pentry, "size"@, 0) {
        None => Err("bad <pentry> size"@),
        Some(size) => match pentry_number(pentry, "align"@, size) {
            None => Err("bad <pentry> align"@),
            Some(align) => Ok(align),
        },
    }
}

/// A resource and its highest group, where it has groups of its own.
#[derive(Debug, Clone, Copy, PartialEq, Eq, Structural)]
pub struct SeededEntry {
    pub entry: ParamEntry,
    pub last_group: Option<i32>,
}

/// The resource that a `<pentry>` describes; `prev` holds those that were read before it
/// in its list.
#[verifier::opaque]
pub open spec fn pentry(
    e: EngineView,
    el: Element,
    group: i32,
    normalstack: bool,
    grouped: bool,
    prev: Seq<ParamEntry>,
    a: Seq<AnswerView>,
    k: int,
) -> Result<(SeededEntry, int), PauseView> {
    match pentry_number(el, "minsize"@, (-1) as i32) {
        None => fail("bad <pentry> minsize"@, k),
        Some(minsize) => match pentry_number(el, "maxsize"@, (-1) as i32) {
            None => fail("bad <pentry> maxsize"@, k),
            Some(size) => match pentry_alignment(el) {
                Err(text) => fail(text, k),
                Ok(alignment) => match pentry_class(el, a, k) {
                    Err(p) => Err(p),
                    Ok((class, k1)) => match pentry_extension(el) {
                        None => fail("Bad <pentry> extension attribute"@, k1),
                        Some(extension) => if size == -1 || minsize == -1 {
                            fail("ParamEntry not fully specified"@, k1)
                        } else {
                            match pentry_storage_from(e, el, a, k1, 0) {
                                Err(p) => Err(p),
                                Ok(((space, offset), k2)) => {
                                    let entry = ParamEntry {
                                        group,
                                        class,
                                        space,
                                        offset,
                                        size,
                                        minsize,
                                        alignment,
                                        extension,
                                        normalstack,
                                        grouped,
                                    };
                                    match answer_to(a, k2, QuestionView::Seed(prev, entry)) {
                                        Err(p) => Err(p),
                                        Ok(v) => Ok(
                                            (
                                                SeededEntry { entry, last_group: v.last_group },
                                                k2 + 1,
                                            ),
                                        ),
                                    }
                                },
                            }
                        },
                    },
                },
            },
        },
    }
}

impl Engine {
    /// The resource that a `<pentry>` describes; `prev` holds those that were read before
    /// it in its list.
    pub fn decode_pentry(
        &self,
        el: &Element,
        group: i32,
        normalstack: bool,
        grouped: bool,
        prev: &Vec<ParamEntry>,
        a: &Vec<Answer>,
        k: usize,
    ) -> (r: Result<(SeededEntry, usize), Pause>)
        ensures
            reading(r) == pentry(
                self@,
                *el,
                group,
                normalstack,
                grouped,
                prev@,
                answer_views(a@),
                k as int,
            ),
            r is Ok ==> ((r->Ok_0).0).entry.group == group,
    {
        reveal(pentry);
        let minsize: i32 = match read_pentry_number(el, "minsize", -1) {
            None => {
                return Err(failed("bad <pentry> minsize", k));
            },
            Some(v) => v,
        };
        let size: i32 = match read_pentry_number(el, "maxsize", -1) {
            None => {
                return Err(failed("bad <pentry> maxsize", k));
            },
            Some(v) => v,
        };
        let old_size: i32 = match read_pentry_number(el, "size", 0) {
            None => {
                return Err(failed("bad <pentry> size", k));
            },
            Some(v) => v,
        };
        let alignment: i32 = match read_pentry_number(el, "align", old_size) {
            None => {
                return Err(failed("bad <pentry> align", k));
            },
            Some(v) => v,
        };
        let (class, k1) = match read_pentry_class(el, a, k) {
            Err(p) => {
                return Err(p);
            },
            Ok(v) => v,
        };
        let extension = match read_pentry_extension(el) {
            None => {
                return Err(failed("Bad <pentry> extension attribute", k1));
            },
            Some(x) => x,
        };
        if size == -1 || minsize == -1 {
            return Err(failed("ParamEntry not fully specified", k1));
        }
        let ((space, offset), k2) = match self.decode_pentry_storage(el, a, k1) {
            Err(p) => {
                return Err(p);
            },
            Ok(v) => v,
        };
        let entry = ParamEntry {
            group,
            class,
            space,
            offset,
            size,
            minsize,
            alignment,
            extension,
            normalstack,
            grouped,
        };
        match ask(a, k2, Question::Seed(copy_values(prev), entry)) {
            Err(p) => Err(p),
            Ok(v) => Ok((SeededEntry { entry, last_group: v.last_group }, k2 + 1)),
        }
    }
}

/// How far a list of resources has been read: the resources, the number of groups, and
/// how many questions were answered.
#[verifier::ext_equal]
pub struct ListState {
    pub entries: Seq<ParamEntry>,
    pub numgroup: i32,
    pub k: int,
}

/// The number after a group number; the largest number stays.
pub open spec fn next_group(g: i32) -> i32 {
    if g == i32::MAX {
        i32::MAX
    } else {
        (g + 1) as i32
    }
}

/// The state after a resource was added whose groups start at `base`: the number of
/// groups reaches past its highest group.
pub open spec fn with_entry(st: ListState, s: SeededEntry, base: i32, k: int) -> ListState {
    let past = next_group(
        match s.last_group {
            Some(g) => g,
            None => base,
        },
    );
    ListState {
        entries: st.entries.push(s.entry),
        numgroup: if past > st.numgroup {
            past
        } else {
            st.numgroup
        },
        k,
    }
}

/// How far a `<group>` has been read, with its last two resources.
#[verifier::ext_equal]
pub struct GroupState {
    pub list: ListState,
    pub prev1: Option<ParamEntry>,
    pub prev2: Option<ParamEntry>,
}

/// The number of answered questions once the order of two resources is approved; where
/// there is no earlier resource there is nothing to ask.
pub open spec fn order_checked(
    a: Seq<AnswerView>,
    k: int,
    prev: Option<ParamEntry>,
    cur: ParamEntry,
) -> Result<int, PauseView> {
    match prev {
        None => Ok(k),
        Some(p) => match answer_to(a, k, QuestionView::Order(p, cur)) {
            Err(pause) => Err(pause),
            Ok(_) => Ok(k + 1),
        },
    }
}

/// The state after one more child of a `<group>`, whose resources all start at group
/// `base`. A resource is held against the two before it.
pub open spec fn group_child(
    e: EngineView,
    child: Element,
    base: i32,
    a: Seq<AnswerView>,
    g: GroupState,
) -> Result<GroupState, PauseView> {
    if child.name@ != "pentry"@ {
        Ok(g)
    } else {
        match pentry(e, child, base, true, true, g.list.entries, a, g.list.k) {
            Err(p) => Err(p),
            Ok((s, k2)) => if e.spaces[s.entry.space as int].info.kind == SpaceKind::Join {
                fail("<pentry> in the join space not allowed in <group> tag"@, k2)
            } else {
                let cur = s.entry;
                match order_checked(a, k2, g.prev1, cur) {
                    Err(p) => Err(p),
                    Ok(k3) => match order_checked(a, k3, g.prev2, cur) {
                        Err(p) => Err(p),
                        Ok(k4) => Ok(
                            GroupState {
                                list: with_entry(g.list, s, base, k4),
                                prev1: Some(cur),
                                prev2: g.prev1,
                            },
                        ),
                    },
                }
            },
        }
    }
}

/// The state after the first `n` children of a `<group>`.
pub open spec fn group_children(
    e: EngineView,
    el: Element,
    a: Seq<AnswerView>,
    st: ListState,
    n: int,
) -> Result<GroupState, PauseView>
    decreases n,
{
    if n <= 0 {
        Ok(GroupState { list: st, prev1: None, prev2: None })
    } else {
        match group_children(e, el, a, st, n - 1) {
            Err(p) => Err(p),
            Ok(g) => group_child(e, el.children@[n - 1], st.numgroup, a, g),
        }
    }
}

/// The state after one more child of an `<input>` or `<output>`.
pub open spec fn list_child(
    e: EngineView,
    child: Element,
    a: Seq<AnswerView>,
    st: ListState,
) -> Result<ListState, PauseView> {
    if child.name@ == "pentry"@ {
        match pentry(e, child, st.numgroup, true, false, st.entries, a, st.k) {
            Err(p) => Err(p),
            Ok((s, k2)) => Ok(with_entry(st, s, st.numgroup, k2)),
        }
    } else if child.name@ == "group"@ {
        match group_children(e, child, a, st, child.children@.len() as int) {
            Err(p) => Err(p),
            Ok(g) => Ok(g.list),
        }
    } else {
        Ok(st)
    }
}

/// The state after the first `n` children of an `<input>` or `<output>`.
pub open spec fn list_children(
    e: EngineView,
    el: Element,
    a: Seq<AnswerView>,
    k: int,
    n: int,
) -> Result<ListState, PauseView>
    decreases n,
{
    if n <= 0 {
        Ok(ListState { entries: seq![], numgroup: 0, k })
    } else {
        match list_children(e, el, a, k, n - 1) {
            Err(p) => Err(p),
            Ok(st) => list_child(e, el.children@[n - 1], a, st),
        }
    }
}

/// The place of an `<input>` or `<output>`: the path of its prototype, and its place in
/// there.
#[verifier::ext_equal]
pub struct ListPlace {
    pub proto: Seq<usize>,
    pub at: usize,
}

/// The rules of the list, with the `<rule>` elements among the first `n` children behind
/// them, each approved for the list as it stands before it; and the number of answered
/// questions.
pub open spec fn list_rules(
    el: Element,
    list: ListView,
    place: ListPlace,
    a: Seq<AnswerView>,
    k: int,
    n: int,
) -> Result<(Seq<ListRule>, int), PauseView>
    decreases n,
{
    if n <= 0 {
        Ok((list.rules, k))
    } else {
        match list_rules(el, list, place, a, k, n - 1) {
            Err(p) => Err(p),
            Ok((rules, k1)) => if el.children@[n - 1].name@ == "rule"@ {
                let i = (n - 1) as usize;
                match answer_to(
                    a,
                    k1,
                    QuestionView::Rule(
                        ListView { rules, ..list },
                        place.proto.push(place.at).push(i),
                    ),
                ) {
                    Err(p) => Err(p),
                    Ok(_) => Ok((rules.push(ListRule::Declared(place.at, i)), k1 + 1)),
                }
            } else {
                Ok((rules, k1))
            },
        }
    }
}

/// The size above which values are passed by pointer; 0 for none.
pub open spec fn pointermax_attribute(el: Element) -> i32 {
    match attribute_text(el, "pointermax"@) {
        None => 0,
        Some(t) => match i32_value(t) {
            Some(v) => if v > 0 {
                v as i32
            } else {
                0
            },
            None => 0,
        },
    }
}

/// The rules of an `<input>` or `<output>`, with the one on pointers behind the others.
pub open spec fn with_pointer_rule(rules: Seq<ListRule>, el: Element) -> Seq<ListRule> {
    if pointermax_attribute(el) > 0 {
        rules.push(ListRule::Pointer(pointermax_attribute(el)))
    } else {
        rules
    }
}

/// The list of resources with those of one more `<input>` or `<output>`: first the
/// resources, which are held against each other but not against those of earlier elements,
/// then the rules.
pub open spec fn pentry_list(
    e: EngineView,
    el: Element,
    before: ListView,
    place: ListPlace,
    a: Seq<AnswerView>,
    k: int,
) -> Result<(ListView, int), PauseView> {
    let n = el.children@.len() as int;
    match list_children(e, el, a, k, n) {
        Err(p) => Err(p),
        Ok(st) => {
            let list = ListView { entries: before.entries + st.entries, ..before };
            match list_rules(el, list, place, a, st.k, n) {
                Err(p) => Err(p),
                Ok((rules, k2)) => Ok(
                    (ListView { rules: with_pointer_rule(rules, el), ..list }, k2),
                ),
            }
        },
    }
}

proof fn lemma_group_stops(
    e: EngineView,
    el: Element,
    a: Seq<AnswerView>,
    st: ListState,
    n: int,
    m: int,
)
    requires
        0 <= n <= m,
        group_children(e, el, a, st, n) is Err,
    ensures
        group_children(e, el, a, st, m) == group_children(e, el, a, st, n),
    decreases m,
{
    if n < m {
        lemma_group_stops(e, el, a, st, n, m - 1);
    }
}

proof fn lemma_list_stops(e: EngineView, el: Element, a: Seq<AnswerView>, k: int, n: int, m: int)
    requires
        0 <= n <= m,
        list_children(e, el, a, k, n) is Err,
    ensures
        list_children(e, el, a, k, m) == list_children(e, el, a, k, n),
    decreases m,
{
    if n < m {
        lemma_list_stops(e, el, a, k, n, m - 1);
    }
}

proof fn lemma_rules_stop(
    el: Element,
    list: ListView,
    place: ListPlace,
    a: Seq<AnswerView>,
    k: int,
    n: int,
    m: int,
)
    requires
        0 <= n <= m,
        list_rules(el, list, place, a, k, n) is Err,
    ensures
        list_rules(el, list, place, a, k, m) == list_rules(el, list, place, a, k, n),
    decreases m,
{
    if n < m {
        lemma_rules_stop(el, list, place, a, k, n, m - 1);
    }
}

/// A list of resources while it is read.
struct PentryReader {
    entries: Vec<ParamEntry>,
    numgroup: i32,
    k: usize,
}

impl View for PentryReader {
    type V = ListState;

    closed spec fn view(&self) -> ListState {
        ListState { entries: self.entries@, numgroup: self.numgroup, k: self.k as int }
    }
}

impl PentryReader {
    fn add(&mut self, s: SeededEntry, base: i32, k: usize)
        ensures
            final(self)@ == with_entry(old(self)@, s, base, k as int),
    {
        let last: i32 = match s.last_group {
            Some(g) => g,
            None => base,
        };
        let past: i32 = if last == i32::MAX {
            i32::MAX
        } else {
            last + 1
        };
        if past > self.numgroup {
            self.numgroup = past;
        }
        self.entries.push(s.entry);
        self.k = k;
    }
}

fn check_order(a: &Vec<Answer>, k: usize, prev: Option<ParamEntry>, cur: ParamEntry) -> (r: Result<
    usize,
    Pause,
>)
    ensures
        match r {
            Ok(k2) => order_checked(answer_views(a@), k as int, prev, cur) == Ok::<
                int,
                PauseView,
            >(k2 as int),
            Err(p) => order_checked(answer_views(a@), k as int, prev, cur) == Err::<
                int,
                PauseView,
            >(p@),
        },
{
    match prev {
        None => Ok(k),
        Some(p) => match ask(a, k, Question::Order(p, cur)) {
            Err(pause) => Err(pause),
            Ok(_) => Ok(k + 1),
        },
    }
}

/// The space of a resource that was read is one of the engine's.
proof fn lemma_pentry_space(
    e: EngineView,
    el: Element,
    group: i32,
    grouped: bool,
    prev: Seq<ParamEntry>,
    a: Seq<AnswerView>,
    k: int,
)
    requires
        crate::space::engine_wf(e),
        pentry(e, el, group, true, grouped, prev, a, k) is Ok,
    ensures
        (pentry(e, el, group, true, grouped, prev, a, k)->Ok_0).0.entry.space < e.spaces.len(),
{
    reveal(pentry);
    let k1 = (pentry_class(el, a, k)->Ok_0).1;
    lemma_storage_space(e, el, a, k1, 0);
}

proof fn lemma_storage_space(e: EngineView, el: Element, a: Seq<AnswerView>, k: int, i: int)
    requires
        crate::space::engine_wf(e),
        pentry_storage_from(e, el, a, k, i) is Ok,
    ensures
        (pentry_storage_from(e, el, a, k, i)->Ok_0).0.0 < e.spaces.len(),
    decreases el.children@.len() - i,
{
    if 0 <= i < el.children@.len() {
        let child = el.children@[i];
        if child.name@ == "register"@ {
        } else if child.name@ == "addr"@ {
            lemma_space_found(e, attribute_text(child, "space"@)->0, 0);
        } else {
            lemma_storage_space(e, el, a, k, i + 1);
        }
    }
}

proof fn lemma_space_found(e: EngineView, name: Seq<char>, i: int)
    requires
        0 <= i,
    ensures
        space_from(e.spaces, name, i) is Some ==> 0 <= space_from(e.spaces, name, i)->0
            < e.spaces.len(),
    decreases e.spaces.len() - i,
{
    if i < e.spaces.len() {
        lemma_space_found(e, name, i + 1);
    }
}

impl Engine {
    fn read_group_child(
        &self,
        child: &Element,
        base: i32,
        a: &Vec<Answer>,
        st: &mut PentryReader,
        prev1: Option<ParamEntry>,
        prev2: Option<ParamEntry>,
    ) -> (r: Result<ParamEntry, Pause>)
        requires
            crate::space::engine_wf(self@),
            child.name@ == "pentry"@,
        ensures
            match r {
                Ok(cur) => group_child(
                    self@,
                    *child,
                    base,
                    answer_views(a@),
                    GroupState { list: old(st)@, prev1, prev2 },
                ) == Ok::<GroupState, PauseView>(
                    GroupState { list: final(st)@, prev1: Some(cur), prev2: prev1 },
                ),
                Err(p) => group_child(
                    self@,
                    *child,
                    base,
                    answer_views(a@),
                    GroupState { list: old(st)@, prev1, prev2 },
                ) == Err::<GroupState, PauseView>(p@),
            },
    {
        let (s, k2) = match self.decode_pentry(child, base, true, true, &st.entries, a, st.k) {
            Err(p) => {
                return Err(p);
            },
            Ok(v) => v,
        };
        proof {
            lemma_pentry_space(
                self@,
                *child,
                base,
                true,
                st.entries@,
                answer_views(a@),
                st.k as int,
            );
        }
        if self.spaces[s.entry.space].info.kind == SpaceKind::Join {
            return Err(failed("<pentry> in the join space not allowed in <group> tag", k2));
        }
        let cur: ParamEntry = s.entry;
        let k3: usize = match check_order(a, k2, prev1, cur) {
            Err(p) => {
                return Err(p);
            },
            Ok(k) => k,
        };
        let k4: usize = match check_order(a, k3, prev2, cur) {
            Err(p) => {
                return Err(p);
            },
            Ok(k) => k,
        };
        st.add(s, base, k4);
        Ok(cur)
    }

    fn read_group(&self, el: &Element, a: &Vec<Answer>, st: &mut PentryReader) -> (r: Result<
        (),
        Pause,
    >)
        requires
            crate::space::engine_wf(self@),
        ensures
            ({
                let g = group_children(
                    self@,
                    *el,
                    answer_views(a@),
                    old(st)@,
                    el.children@.len() as int,
                );
                match r {
                    Ok(()) => g is Ok && (g->Ok_0).list == final(st)@,
                    Err(p) => g == Err::<GroupState, PauseView>(p@),
                }
            }),
    {
        let base: i32 = st.numgroup;
        let mut prev1: Option<ParamEntry> = None;
        let mut prev2: Option<ParamEntry> = None;
        let mut j: usize = 0;
        let ghost n = el.children@.len() as int;
        while j < el.children.len()
            invariant
                j <= el.children@.len(),
                n == el.children@.len(),
                crate::space::engine_wf(self@),
                base == old(st)@.numgroup,
                group_children(self@, *el, answer_views(a@), old(st)@, j as int) == Ok::<
                    GroupState,
                    PauseView,
                >(GroupState { list: st@, prev1, prev2 }),
            decreases el.children@.len() - j,
        {
            let child = &el.children[j];
            if same_text(child.name.as_str(), "pentry") {
                match self.read_group_child(child, base, a, st, prev1, prev2) {
                    Err(p) => {
                        proof {
                            lemma_group_stops(self@, *el, answer_views(a@), old(st)@, j + 1, n);
                        }
                        return Err(p);
                    },
                    Ok(cur) => {
                        prev2 = prev1;
                        prev1 = Some(cur);
                    },
                }
            }
            j += 1;
        }
        Ok(())
    }

    fn read_list_child(&self, child: &Element, a: &Vec<Answer>, st: &mut PentryReader) -> (r:
        Result<(), Pause>)
        requires
            crate::space::engine_wf(self@),
        ensures
            match r {
                Ok(()) => list_child(
                    self@,
                    *child,
                    answer_views(a@),
                    old(st)@,
                ) == Ok::<ListState, PauseView>(final(st)@),
                Err(p) => list_child(self@, *child, answer_views(a@), old(st)@) == Err::<
                    ListState,
                    PauseView,
                >(p@),
            },
    {
        if same_text(child.name.as_str(), "pentry") {
            let base: i32 = st.numgroup;
            match self.decode_pentry(child, base, true, false, &st.entries, a, st.k) {
                Err(p) => Err(p),
                Ok((s, k2)) => {
                    st.add(s, base, k2);
                    Ok(())
                },
            }
        } else if same_text(child.name.as_str(), "group") {
            self.read_group(child, a, st)
        } else {
            Ok(())
        }
    }

    fn read_list(&self, el: &Element, a: &Vec<Answer>, k: usize) -> (r: Result<
        PentryReader,
        Pause,
    >)
        requires
            crate::space::engine_wf(self@),
        ensures
            ({
                let l = list_children(
                    self@,
                    *el,
                    answer_views(a@),
                    k as int,
                    el.children@.len() as int,
                );
                match r {
                    Ok(st) => l == Ok::<ListState, PauseView>(st@),
                    Err(p) => l == Err::<ListState, PauseView>(p@),
                }
            }),
    {
        let mut st = PentryReader { entries: Vec::new(), numgroup: 0, k };
        assert(st@ =~= ListState { entries: seq![], numgroup: 0, k: k as int });
        let ghost n = el.children@.len() as int;
        let mut i: usize = 0;
        while i < el.children.len()
            invariant
                i <= el.children@.len(),
                n == el.children@.len(),
                crate::space::engine_wf(self@),
                list_children(self@, *el, answer_views(a@), k as int, i as int) == Ok::<
                    ListState,
                    PauseView,
                >(st@),
            decreases el.children@.len() - i,
        {
            match self.read_list_child(&el.children[i], a, &mut st) {
                Err(p) => {
                    proof {
                        lemma_list_stops(self@, *el, answer_views(a@), k as int, i + 1, n);
                    }
                    return Err(p);
                },
                Ok(()) => {},
            }
            i += 1;
        }
        Ok(st)
    }

    /// The list of resources with those of one more `<input>` or `<output>`. `before` is
    /// the list so far, `proto` the path of the prototype, `at` the place of the element
    /// in there.
    pub fn decode_pentry_list(
        &self,
        el: &Element,
        before: &ParamList,
        proto: &Vec<usize>,
        at: usize,
        a: &Vec<Answer>,
        k: usize,
    ) -> (r: Result<(ParamList, usize), Pause>)
        requires
            crate::space::engine_wf(self@),
        ensures
            ({
                let place = ListPlace { proto: proto@, at };
                let l = pentry_list(self@, *el, before@, place, answer_views(a@), k as int);
                match r {
                    Ok((list, k2)) => l == Ok::<(ListView, int), PauseView>(
                        (list@, k2 as int),
                    ),
                    Err(p) => l == Err::<(ListView, int), PauseView>(p@),
                }
            }),
    {
        let mut st = match self.read_list(el, a, k) {
            Err(p) => {
                return Err(p);
            },
            Ok(st) => st,
        };
        let ghost own = st@;
        let mut list = before.copied();
        list.entries.append(&mut st.entries);
        assert(list@ =~= (ListView { entries: before@.entries + own.entries, ..before@ }));
        let k2: usize = match read_rules(el, &mut list, proto, at, a, st.k) {
            Err(p) => {
                return Err(p);
            },
            Ok(v) => v,
        };
        let pointermax: i32 = read_pointermax(el);
        if pointermax > 0 {
            list.rules.push(ListRule::Pointer(pointermax));
        }
        Ok((list, k2))
    }
}

fn read_pointermax(el: &Element) -> (r: i32)
    ensures
        r == pointermax_attribute(*el),
{
    match attr_str(el, "pointermax") {
        None => 0,
        Some(t) => match parse_i32(t.as_str()) {
            Some(v) => if v > 0 {
                v
            } else {
                0
            },
            None => 0,
        },
    }
}

fn read_rules(
    el: &Element,
    list: &mut ParamList,
    proto: &Vec<usize>,
    at: usize,
    a: &Vec<Answer>,
    k: usize,
) -> (r: Result<usize, Pause>)
    ensures
        ({
            let place = ListPlace { proto: proto@, at };
            let l = list_rules(
                *el,
                old(list)@,
                place,
                answer_views(a@),
                k as int,
                el.children@.len() as int,
            );
            match r {
                Ok(k2) => l == Ok::<(Seq<ListRule>, int), PauseView>(
                    (final(list)@.rules, k2 as int),
                ) && final(list)@.entries == old(list)@.entries,
                Err(p) => l == Err::<(Seq<ListRule>, int), PauseView>(p@),
            }
        }),
{
    let ghost place = ListPlace { proto: proto@, at };
    let ghost av = answer_views(a@);
    let ghost first = list@;
    let ghost n = el.children@.len() as int;
    let mut k1: usize = k;
    let mut j: usize = 0;
    while j < el.children.len()
        invariant
            j <= el.children@.len(),
            n == el.children@.len(),
            place == (ListPlace { proto: proto@, at }),
            av == answer_views(a@),
            first == old(list)@,
            list@.entries == first.entries,
            list_rules(*el, first, place, av, k as int, j as int) == Ok::<
                (Seq<ListRule>, int),
                PauseView,
            >((list@.rules, k1 as int)),
        decreases el.children@.len() - j,
    {
        if same_text(el.children[j].name.as_str(), "rule") {
            let mut path: Vec<usize> = copy_values(proto);
            path.push(at);
            path.push(j);
            assert(list@ =~= (ListView { rules: list@.rules, ..first }));
            match ask(a, k1, Question::Rule(list.copied(), path)) {
                Err(p) => {
                    proof {
                        lemma_rules_stop(*el, first, place, av, k as int, j + 1, n);
                    }
                    return Err(p);
                },
                Ok(_) => {},
            }
            k1 += 1;
            list.rules.push(ListRule::Declared(at, j));
        }
        j += 1;
    }
    Ok(k1)
}

/// The group of a resource that was read is the one that was asked for.
proof fn lemma_pentry_group(
    e: EngineView,
    el: Element,
    group: i32,
    normalstack: bool,
    grouped: bool,
    prev: Seq<ParamEntry>,
    a: Seq<AnswerView>,
    k: int,
)
    requires
        pentry(e, el, group, normalstack, grouped, prev, a, k) is Ok,
    ensures
        (pentry(e, el, group, normalstack, grouped, prev, a, k)->Ok_0).0.entry.group == group,
{
    reveal(pentry);
}

/// The resources of a `<group>` all start at the group number that was current when the
/// group was opened; what came before them stays.
pub proof fn law_group_members_share_their_group(
    e: EngineView,
    el: Element,
    a: Seq<AnswerView>,
    st: ListState,
    n: int,
    i: int,
)
    requires
        group_children(e, el, a, st, n) is Ok,
        0 <= i < (group_children(e, el, a, st, n)->Ok_0).list.entries.len(),
    ensures
        ({
            let entries = (group_children(e, el, a, st, n)->Ok_0).list.entries;
            &&& st.entries.len() <= entries.len()
            &&& i < st.entries.len() ==> entries[i] == st.entries[i]
            &&& i >= st.entries.len() ==> entries[i].group == st.numgroup
        }),
    decreases n,
{
    if n > 0 {
        let before = group_children(e, el, a, st, n - 1)->Ok_0;
        let child = el.children@[n - 1];
        if before.list.entries.len() > 0 {
            law_group_members_share_their_group(e, el, a, st, n - 1, 0);
        } else {
            lemma_group_grows(e, el, a, st, n - 1);
        }
        if i < before.list.entries.len() {
            law_group_members_share_their_group(e, el, a, st, n - 1, i);
        }
        if child.name@ == "pentry"@ {
            lemma_pentry_group(
                e,
                child,
                st.numgroup,
                true,
                true,
                before.list.entries,
                a,
                before.list.k,
            );
        }
    }
}

proof fn lemma_group_grows(e: EngineView, el: Element, a: Seq<AnswerView>, st: ListState, n: int)
    requires
        group_children(e, el, a, st, n) is Ok,
    ensures
        st.entries.len() <= (group_children(e, el, a, st, n)->Ok_0).list.entries.len(),
        st.numgroup <= (group_children(e, el, a, st, n)->Ok_0).list.numgroup,
    decreases n,
{
    if n > 0 {
        lemma_group_grows(e, el, a, st, n - 1);
    }
}

/// The number of groups never goes down while a list is read.
pub proof fn law_groups_never_shrink(
    e: EngineView,
    el: Element,
    a: Seq<AnswerView>,
    k: int,
    n: int,
    m: int,
)
    requires
        0 <= n <= m <= el.children@.len(),
        list_children(e, el, a, k, m) is Ok,
    ensures
        list_children(e, el, a, k, n) is Ok,
        (list_children(e, el, a, k, n)->Ok_0).numgroup <= (list_children(
            e,
            el,
            a,
            k,
            m,
        )->Ok_0).numgroup,
        (list_children(e, el, a, k, n)->Ok_0).entries.len() <= (list_children(
            e,
            el,
            a,
            k,
            m,
        )->Ok_0).entries.len(),
    decreases m,
{
    if n < m {
        reveal_strlit("pentry");
        reveal_strlit("group");
        assert("pentry"@.len() == 6 && "group"@.len() == 5);
        law_groups_never_shrink(e, el, a, k, n, m - 1);
        let st = list_children(e, el, a, k, m - 1)->Ok_0;
        let child = el.children@[m - 1];
        if child.name@ == "group"@ {
            lemma_group_grows(e, child, a, st, child.children@.len() as int);
        }
    }
}

} // verus!
