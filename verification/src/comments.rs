//! Warnings that the analysis leaves, by address.

use vstd::prelude::*;
use vstd::string::*;
use crate::space::Address;
use crate::text::same_text;

verus! {

/// A warning at an instruction.
pub const WARNING: u32 = 16;

/// A warning in the header of a function.
pub const WARNINGHEADER: u32 = 32;

/// A warning: its type, the function that it belongs to, the instruction that it is
/// attached to, and its text.
#[derive(Debug)]
pub struct ArchWarning {
    pub tp: u32,
    pub func_addr: Address,
    pub addr: Address,
    pub text: String,
}

/// What contracts say of an [`ArchWarning`].
pub struct WarningView {
    pub tp: u32,
    pub func_addr: Address,
    pub addr: Address,
    pub text: Seq<char>,
}

impl View for ArchWarning {
    type V = WarningView;

    open spec fn view(&self) -> WarningView {
        WarningView { tp: self.tp, func_addr: self.func_addr, addr: self.addr, text: self.text@ }
    }
}

/// What contracts say of a list of warnings.
pub open spec fn warning_views(v: Seq<ArchWarning>) -> Seq<WarningView> {
    v.map_values(|w: ArchWarning| w@)
}

/// Whether two warnings say the same thing of the same place; their type does not
/// matter.
pub open spec fn same_warning(a: WarningView, b: WarningView) -> bool {
    a.addr == b.addr && a.func_addr == b.func_addr && a.text == b.text
}

/// Whether the list says already what the warning says.
pub open spec fn has_warning(list: Seq<WarningView>, w: WarningView) -> bool {
    exists|i: int| 0 <= i < list.len() && same_warning(#[trigger] list[i], w)
}

/// The list with one more warning, unless it says the same already.
pub open spec fn with_new_warning(list: Seq<WarningView>, w: WarningView) -> Seq<WarningView> {
    if has_warning(list, w) {
        list
    } else {
        list.push(w)
    }
}

/// The warnings among the first `n` that are kept.
pub open spec fn kept_warnings(list: Seq<WarningView>, keep: Seq<bool>, n: int) -> Seq<WarningView>
    decreases n,
{
    if n <= 0 {
        seq![]
    } else if keep[n - 1] {
        kept_warnings(list, keep, n - 1).push(list[n - 1])
    } else {
        kept_warnings(list, keep, n - 1)
    }
}

/// The warnings, in the order in which they came.
pub struct CommentDatabase {
    comments: Vec<ArchWarning>,
}

impl View for CommentDatabase {
    type V = Seq<WarningView>;

    closed spec fn view(&self) -> Seq<WarningView> {
        warning_views(self.comments@)
    }
}

impl Default for CommentDatabase {
    fn default() -> (r: CommentDatabase)
        ensures
            r@ == Seq::<WarningView>::empty(),
    {
        CommentDatabase::new()
    }
}

impl CommentDatabase {
    /// No warnings.
    pub fn new() -> (r: CommentDatabase)
        ensures
            r@ == Seq::<WarningView>::empty(),
    {
        let r = CommentDatabase { comments: Vec::new() };
        assert(r@ =~= Seq::<WarningView>::empty());
        r
    }

    /// Add a warning, unless one says the same of the same place. Tells whether it was
    /// added.
    pub fn add_comment_no_duplicate(&mut self, tp: u32, fad: &Address, ad: &Address, txt: &str)
        -> (r: bool)
        ensures
            ({
                let w = WarningView { tp, func_addr: *fad, addr: *ad, text: txt@ };
                &&& final(self)@ == with_new_warning(old(self)@, w)
                &&& r == !has_warning(old(self)@, w)
            }),
    {
        let ghost w = WarningView { tp, func_addr: *fad, addr: *ad, text: txt@ };
        let mut i: usize = 0;
        while i < self.comments.len()
            invariant
                i <= self.comments@.len(),
                w == (WarningView { tp, func_addr: *fad, addr: *ad, text: txt@ }),
                forall|j: int| 0 <= j < i ==> !same_warning(#[trigger] self@[j], w),
            decreases self.comments@.len() - i,
        {
            let c = &self.comments[i];
            assert(self@[i as int] == c@);
            if c.addr == *ad && c.func_addr == *fad && same_text(c.text.as_str(), txt) {
                return false;
            }
            i += 1;
        }
        self.add_comment(tp, fad, ad, txt);
        true
    }

    /// Add a warning.
    pub fn add_comment(&mut self, tp: u32, fad: &Address, ad: &Address, txt: &str)
        ensures
            final(self)@ == old(self)@.push(
                WarningView { tp, func_addr: *fad, addr: *ad, text: txt@ },
            ),
    {
        let ghost before = self@;
        self.comments.push(
            ArchWarning { tp, func_addr: *fad, addr: *ad, text: String::from_str(txt) },
        );
        assert(self@ =~= before.push(
            WarningView { tp, func_addr: *fad, addr: *ad, text: txt@ },
        ));
    }

    /// All warnings, in the order in which they came.
    pub fn comments(&self) -> (r: &Vec<ArchWarning>)
        ensures
            warning_views(r@) == self@,
    {
        &self.comments
    }

    /// Keep the warnings for which `keep` is set, in their order.
    pub fn retain_comments(&mut self, keep: &Vec<bool>)
        requires
            keep@.len() == old(self)@.len(),
        ensures
            final(self)@ == kept_warnings(old(self)@, keep@, old(self)@.len() as int),
    {
        let mut kept: Vec<ArchWarning> = Vec::new();
        let mut i: usize = 0;
        assert(warning_views(kept@) =~= seq![]);
        while i < self.comments.len()
            invariant
                i <= self.comments@.len(),
                keep@.len() == self.comments@.len(),
                *self == *old(self),
                warning_views(kept@) == kept_warnings(self@, keep@, i as int),
            decreases self.comments@.len() - i,
        {
            if keep[i] {
                let c = &self.comments[i];
                assert(self@[i as int] == c@);
                let ghost was = kept@;
                let copy = ArchWarning {
                    tp: c.tp,
                    func_addr: c.func_addr,
                    addr: c.addr,
                    text: c.text.clone(),
                };
                kept.push(copy);
                assert(warning_views(kept@) =~= warning_views(was).push(copy@));
            }
            i += 1;
        }
        self.comments = kept;
    }

    /// Drop all warnings.
    pub fn clear(&mut self)
        ensures
            final(self)@ == Seq::<WarningView>::empty(),
    {
        self.comments.clear();
        assert(self@ =~= Seq::<WarningView>::empty());
    }
}

/// Whether no two warnings of the list say the same of the same place.
pub open spec fn warnings_differ(list: Seq<WarningView>) -> bool {
    forall|i: int, j: int|
        0 <= i < j < list.len() ==> !same_warning(#[trigger] list[i], #[trigger] list[j])
}

/// A list whose warnings differ stays so when warnings are added without duplicates.
pub proof fn law_warnings_stay_different(list: Seq<WarningView>, w: WarningView)
    requires
        warnings_differ(list),
    ensures
        warnings_differ(with_new_warning(list, w)),
{
}

/// Every warning that is kept was there.
proof fn lemma_kept_was_there(list: Seq<WarningView>, keep: Seq<bool>, n: int, a: int)
    requires
        0 <= n <= list.len(),
        0 <= a < kept_warnings(list, keep, n).len(),
    ensures
        exists|j: int| 0 <= j < n && list[j] == #[trigger] kept_warnings(list, keep, n)[a],
    decreases n,
{
    let before = kept_warnings(list, keep, n - 1);
    let now = kept_warnings(list, keep, n);
    if a < before.len() {
        lemma_kept_was_there(list, keep, n - 1, a);
        let j = choose|j: int| 0 <= j < n - 1 && list[j] == before[a];
        assert(list[j] == now[a]);
    } else {
        assert(list[n - 1] == now[a]);
    }
}

proof fn lemma_kept_differ(list: Seq<WarningView>, keep: Seq<bool>, n: int)
    requires
        0 <= n <= list.len(),
        warnings_differ(list),
    ensures
        warnings_differ(kept_warnings(list, keep, n)),
    decreases n,
{
    if n > 0 {
        lemma_kept_differ(list, keep, n - 1);
        let before = kept_warnings(list, keep, n - 1);
        assert forall|a: int| 0 <= a < before.len() implies !same_warning(
            #[trigger] before[a],
            list[n - 1],
        ) by {
            lemma_kept_was_there(list, keep, n - 1, a);
            let j = choose|j: int| 0 <= j < n - 1 && list[j] == before[a];
            assert(!same_warning(list[j], list[n - 1]));
        }
    }
}

/// Warnings that differ stay different when some of them are dropped.
pub proof fn law_kept_warnings_stay_different(list: Seq<WarningView>, keep: Seq<bool>)
    requires
        keep.len() == list.len(),
        warnings_differ(list),
    ensures
        warnings_differ(kept_warnings(list, keep, list.len() as int)),
{
    lemma_kept_differ(list, keep, list.len() as int);
}

/// The second of two equal warnings is not added, whatever its type.
pub proof fn law_warning_is_added_once(list: Seq<WarningView>, w: WarningView, tp: u32)
    ensures
        with_new_warning(with_new_warning(list, w), WarningView { tp, ..w }) == with_new_warning(
            list,
            w,
        ),
{
    if !has_warning(list, w) {
        assert(same_warning(list.push(w)[list.len() as int], WarningView { tp, ..w }));
    } else {
        let i = choose|i: int| 0 <= i < list.len() && same_warning(#[trigger] list[i], w);
        assert(same_warning(list[i], WarningView { tp, ..w }));
    }
}

/// What was there stays where it was.
pub proof fn law_warnings_keep_their_order(list: Seq<WarningView>, w: WarningView, i: int)
    requires
        0 <= i < list.len(),
    ensures
        with_new_warning(list, w)[i] == list[i],
{
}

/// A warning is added unless one with the same text stands at the same place of the same
/// function; any difference in one of the three is enough to add it. Nothing else changes.
pub proof fn law_warning_is_told_by_place_and_text(list: Seq<WarningView>, w: WarningView)
    ensures
        (exists|i: int|
            0 <= i < list.len() && (#[trigger] list[i]).addr == w.addr && list[i].func_addr
                == w.func_addr && list[i].text == w.text) ==> with_new_warning(list, w) == list
            && has_warning(list, w),
        (forall|i: int|
            0 <= i < list.len() ==> (#[trigger] list[i]).addr != w.addr || list[i].func_addr
                != w.func_addr || list[i].text != w.text) ==> with_new_warning(list, w)
            == list.push(w) && !has_warning(list, w),
{
    if exists|i: int|
        0 <= i < list.len() && (#[trigger] list[i]).addr == w.addr && list[i].func_addr
            == w.func_addr && list[i].text == w.text {
        let i = choose|i: int|
            0 <= i < list.len() && (#[trigger] list[i]).addr == w.addr && list[i].func_addr
                == w.func_addr && list[i].text == w.text;
        assert(same_warning(list[i], w));
    }
}

/// The warnings that are kept are those that are marked, in their order, and no others.
pub proof fn law_marked_warnings_are_kept(list: Seq<WarningView>, keep: Seq<bool>, n: int)
    requires
        0 <= n < list.len(),
    ensures
        kept_warnings(list, keep, 0).len() == 0,
        keep[n] ==> kept_warnings(list, keep, n + 1) == kept_warnings(list, keep, n).push(list[n]),
        !keep[n] ==> kept_warnings(list, keep, n + 1) == kept_warnings(list, keep, n),
{
}

} // verus!
