//! What reading the parameter resources and the storage of a prototype model comes to.

use vstd::prelude::*;
use crate::error::{ErrorKind, Failure};
use crate::layout_laws::{
    is_first_child, is_first_space, law_child_is_found, law_space_is_found, no_child, no_space,
};
use crate::proto::{EffectKind, Extension, ListRule, ListView, ParamEntry};
use crate::proto_decode::{
    answer_to, attribute_texts, colon_from, default_return_addr, effects_of, group_child, join_addr,
    join_attribute, join_attributes, join_slot, list_child, list_rules, pentry, pentry_class,
    pentry_extension, pentry_list, pentry_number, pentry_storage_from, piece_storage,
    return_addr_from, storage_block, storage_child, storage_children, with_entry, with_pointer_rule,
    AnswerView, GroupState, ListPlace, ListState, PauseView, QuestionView,
};
use crate::space::{EngineView, SpaceKind, VarnodeData};
use crate::text::{begins_with, decimal_text, i32_value, offset_value, u32_value};
use crate::text_laws::law_signed_numbers_read_back;
use crate::xml::{attribute_text, Element};

verus! {

/// Whether a reading failed with this text when so many questions were answered.
pub open spec fn failed_with<T>(r: Result<T, PauseView>, text: Seq<char>, k: int) -> bool {
    r matches Err(PauseView::Fail(f, n)) && f.kind == ErrorKind::Lowlevel && f.text == text && n
        == k
}

/// Whether a reading asks this.
pub open spec fn asks<T>(r: Result<T, PauseView>, q: QuestionView) -> bool {
    r matches Err(PauseView::Ask(p)) && p == q
}

/// An answer is looked for at its number: without one the question is asked, a refusal fails
/// the reading, and anything else is the answer.
pub proof fn law_answers_come_in_order(a: Seq<AnswerView>, k: int, q: QuestionView)
    requires
        0 <= k,
    ensures
        k >= a.len() ==> asks(answer_to(a, k, q), q),
        k < a.len() && a[k].failure is None ==> answer_to(a, k, q) == Ok::<AnswerView, PauseView>(
            a[k],
        ),
        k < a.len() ==> (a[k].failure matches Some(f) ==> answer_to(a, k, q) == Err::<
            AnswerView,
            PauseView,
        >(PauseView::Fail(f, k + 1))),
{
}

// ---- storage classes ----------------------------------------------------------------

/// Whether this is the word for the storage class of a resource: what `storage` says, or else
/// what `metatype` says.
pub open spec fn class_word(el: Element, t: Seq<char>) -> bool {
    ||| attribute_text(el, "storage"@) == Some(t)
    ||| attribute_text(el, "storage"@) is None && attribute_text(el, "metatype"@) == Some(t)
}

/// Whether a resource has no word for its storage class.
pub open spec fn no_class_word(el: Element) -> bool {
    attribute_text(el, "storage"@) is None && attribute_text(el, "metatype"@) is None
}

/// The word for the storage class is asked about, and the class is the answer. A resource
/// without such a word has no class, and nothing is asked.
pub proof fn law_storage_class_is_asked(el: Element, t: Seq<char>, a: Seq<AnswerView>, k: int)
    requires
        0 <= k,
    ensures
        class_word(el, t) && k >= a.len() ==> asks(
            pentry_class(el, a, k),
            QuestionView::TypeClass(t),
        ),
        class_word(el, t) && k < a.len() && a[k].failure is None ==> pentry_class(el, a, k) == Ok::<
            (Option<u32>, int),
            PauseView,
        >((Some(a[k].class), k + 1)),
        class_word(el, t) && k < a.len() ==> (a[k].failure matches Some(f) ==> pentry_class(
            el,
            a,
            k,
        ) == Err::<(Option<u32>, int), PauseView>(PauseView::Fail(f, k + 1))),
        no_class_word(el) ==> pentry_class(el, a, k) == Ok::<(Option<u32>, int), PauseView>(
            (None, k),
        ),
{
}

// ---- resources ----------------------------------------------------------------------

/// Whether the attribute gives this number.
pub open spec fn gives(el: Element, name: Seq<char>, v: int) -> bool {
    attribute_text(el, name) matches Some(t) && i32_value(t) == Some(v)
}

/// Whether the attribute is there and gives no number.
pub open spec fn is_bad(el: Element, name: Seq<char>) -> bool {
    attribute_text(el, name) matches Some(t) && i32_value(t) is None
}

/// Whether small values are extended so, by the word of the resource.
pub open spec fn extends_as(el: Element, x: Extension) -> bool {
    match attribute_text(el, "extension"@) {
        None => x == Extension::Unspecified,
        Some(t) => {
            ||| t == "sign"@ && x == Extension::Sign
            ||| t == "zero"@ && x == Extension::Zero
            ||| t == "inttype"@ && x == Extension::IntType
            ||| t == "float"@ && x == Extension::Float
            ||| t == "none"@ && x == Extension::Unspecified
        },
    }
}

/// The words for how small values are extended; any other word is bad.
pub proof fn law_extension_words(el: Element, x: Extension)
    ensures
        extends_as(el, x) ==> pentry_extension(el) == Some(x),
        (attribute_text(el, "extension"@) matches Some(t) && t != "sign"@ && t != "zero"@ && t
            != "inttype"@ && t != "float"@ && t != "none"@) ==> pentry_extension(el) is None,
{
    reveal_strlit("sign");
    reveal_strlit("zero");
    reveal_strlit("inttype");
    reveal_strlit("float");
    reveal_strlit("none");
    assert("sign"@.len() == 4 && "zero"@.len() == 4 && "inttype"@.len() == 7 && "float"@.len() == 5
        && "none"@.len() == 4);
    assert("sign"@[0] == 's' && "zero"@[0] == 'z' && "none"@[0] == 'n');
}

/// A resource that was read is what its element says: the sizes, the alignment, the extension,
/// the storage class and the place in storage; and it has the group and the marks that it was
/// read with. Its highest group is the answer to the last question.
pub proof fn law_resource_is_as_described(
    e: EngineView,
    el: Element,
    group: i32,
    normalstack: bool,
    grouped: bool,
    prev: Seq<ParamEntry>,
    a: Seq<AnswerView>,
    k: int,
)
    requires
        0 <= k,
        pentry(e, el, group, normalstack, grouped, prev, a, k) is Ok,
    ensures
        ({
            let (s, k2) = pentry(e, el, group, normalstack, grouped, prev, a, k)->Ok_0;
            let p = s.entry;
            &&& p.group == group && p.normalstack == normalstack && p.grouped == grouped
            &&& gives(el, "minsize"@, p.minsize as int) && p.minsize != -1
            &&& gives(el, "maxsize"@, p.size as int) && p.size != -1
            &&& attribute_text(el, "align"@) is Some ==> gives(
                el,
                "align"@,
                p.alignment as int,
            )
            &&& attribute_text(el, "align"@) is None && attribute_text(el, "size"@) is Some
                ==> gives(el, "size"@, p.alignment as int)
            &&& attribute_text(el, "align"@) is None && attribute_text(el, "size"@) is None
                ==> p.alignment == 0
            &&& extends_as(el, p.extension)
            &&& no_class_word(el) ==> p.class is None
            &&& forall|t: Seq<char>| #[trigger]
                class_word(el, t) ==> k < a.len() && p.class == Some(a[k].class)
            &&& k < k2 <= a.len() && a[k2 - 1].failure is None && s.last_group
                == a[k2 - 1].last_group
            &&& exists|k1: int|
                (k1 == k || k1 == k + 1) && #[trigger] pentry_storage_from(e, el, a, k1, 0) == Ok::<
                    ((usize, u64), int),
                    PauseView,
                >(((p.space, p.offset), k2 - 1))
        }),
{
    reveal(pentry);
    reveal_strlit("sign");
    reveal_strlit("zero");
    reveal_strlit("inttype");
    reveal_strlit("float");
    reveal_strlit("none");
    let (s, k2) = pentry(e, el, group, normalstack, grouped, prev, a, k)->Ok_0;
    let (class, k1) = pentry_class(el, a, k)->Ok_0;
    assert(pentry_storage_from(e, el, a, k1, 0) == Ok::<((usize, u64), int), PauseView>(
        ((s.entry.space, s.entry.offset), k2 - 1),
    ));
    lemma_storage_counts(e, el, a, k1, 0);
    if attribute_text(el, "minsize"@) is None {
        assert(pentry_number(el, "minsize"@, -1i32) == Some(-1i32));
    }
    if attribute_text(el, "maxsize"@) is None {
        assert(pentry_number(el, "maxsize"@, -1i32) == Some(-1i32));
    }
}

proof fn lemma_storage_counts(e: EngineView, el: Element, a: Seq<AnswerView>, k: int, i: int)
    requires
        pentry_storage_from(e, el, a, k, i) is Ok,
    ensures
        k <= (pentry_storage_from(e, el, a, k, i)->Ok_0).1 <= k + 1,
    decreases el.children@.len() - i,
{
    if 0 <= i < el.children@.len() {
        let child = el.children@[i];
        if child.name@ != "register"@ && child.name@ != "addr"@ {
            lemma_storage_counts(e, el, a, k, i + 1);
        }
    }
}

proof fn lemma_storage_prefix(
    e: EngineView,
    el: Element,
    a: Seq<AnswerView>,
    k: int,
    i: int,
    n: int,
)
    requires
        0 <= k,
        n <= a.len(),
        pentry_storage_from(e, el, a, k, i) is Ok,
        (pentry_storage_from(e, el, a, k, i)->Ok_0).1 <= n,
    ensures
        pentry_storage_from(e, el, a.take(n), k, i) == pentry_storage_from(e, el, a, k, i),
    decreases el.children@.len() - i,
{
    if 0 <= i < el.children@.len() {
        let child = el.children@[i];
        if child.name@ != "register"@ && child.name@ != "addr"@ {
            lemma_storage_prefix(e, el, a, k, i + 1, n);
        }
    }
}

/// The last thing that is asked about a resource is whether it fits: the question holds the
/// resource itself and those that were read before it.
pub proof fn law_resource_is_seeded(
    e: EngineView,
    el: Element,
    group: i32,
    normalstack: bool,
    grouped: bool,
    prev: Seq<ParamEntry>,
    a: Seq<AnswerView>,
    k: int,
)
    requires
        0 <= k,
        pentry(e, el, group, normalstack, grouped, prev, a, k) is Ok,
    ensures
        ({
            let (s, k2) = pentry(e, el, group, normalstack, grouped, prev, a, k)->Ok_0;
            asks(
                pentry(e, el, group, normalstack, grouped, prev, a.take(k2 - 1), k),
                QuestionView::Seed(prev, s.entry),
            )
        }),
{
    reveal(pentry);
    law_resource_is_as_described(e, el, group, normalstack, grouped, prev, a, k);
    let (s, k2) = pentry(e, el, group, normalstack, grouped, prev, a, k)->Ok_0;
    let (class, k1) = pentry_class(el, a, k)->Ok_0;
    lemma_storage_counts(e, el, a, k1, 0);
    lemma_storage_prefix(e, el, a, k1, 0, k2 - 1);
    assert(pentry_class(el, a.take(k2 - 1), k) == pentry_class(el, a, k));
}

/// What fails a resource: numbers that are none, sizes that are missing, an unknown extension.
pub proof fn law_bad_resources_fail(
    e: EngineView,
    el: Element,
    group: i32,
    normalstack: bool,
    grouped: bool,
    prev: Seq<ParamEntry>,
    a: Seq<AnswerView>,
    k: int,
)
    ensures
        ({
            let r = pentry(e, el, group, normalstack, grouped, prev, a, k);
            let sizes = !is_bad(el, "minsize"@) && !is_bad(el, "maxsize"@);
            let numbers = sizes && !is_bad(el, "size"@) && !is_bad(el, "align"@);
            &&& is_bad(el, "minsize"@) ==> failed_with(r, "bad <pentry> minsize"@, k)
            &&& !is_bad(el, "minsize"@) && is_bad(el, "maxsize"@) ==> failed_with(
                r,
                "bad <pentry> maxsize"@,
                k,
            )
            &&& sizes && is_bad(el, "size"@) ==> failed_with(r, "bad <pentry> size"@, k)
            &&& sizes && !is_bad(el, "size"@) && is_bad(el, "align"@) ==> failed_with(
                r,
                "bad <pentry> align"@,
                k,
            )
            &&& numbers && no_class_word(el) && pentry_extension(el) is None ==> failed_with(
                r,
                "Bad <pentry> extension attribute"@,
                k,
            )
            &&& numbers && no_class_word(el) && pentry_extension(el) is Some && (attribute_text(
                el,
                "minsize"@,
            ) is None || attribute_text(el, "maxsize"@) is None) ==> failed_with(
                r,
                "ParamEntry not fully specified"@,
                k,
            )
            &&& numbers ==> forall|t: Seq<char>| #[trigger]
                class_word(el, t) && k >= a.len() ==> asks(r, QuestionView::TypeClass(t))
        }),
{
    reveal(pentry);
}

/// A resource lies where its first `<register>` or `<addr>` child says.
pub proof fn law_resource_lies_where_it_says(
    e: EngineView,
    el: Element,
    a: Seq<AnswerView>,
    k: int,
    i: int,
    name: Seq<char>,
    sp: int,
)
    requires
        0 <= i < el.children@.len(),
        el.children@[i].name@ == "register"@ || el.children@[i].name@ == "addr"@,
        forall|j: int|
            0 <= j < i ==> (#[trigger] el.children@[j]).name@ != "register"@ && el.children@[j].name@
                != "addr"@,
    ensures
        ({
            let r = pentry_storage_from(e, el, a, k, 0);
            let child = el.children@[i];
            let v = e.registers[name];
            let register = child.name@ == "register"@;
            let here = attribute_text(child, "name"@) == Some(name);
            let there = attribute_text(child, "space"@) == Some(name);
            let known = e.registers.contains_key(name);
            &&& register && attribute_text(child, "name"@) is None ==> failed_with(
                r,
                "<register> has no name"@,
                k,
            )
            &&& register && here && !known ==> failed_with(r, "Unknown register name: "@ + name, k)
            &&& register && here && known && v.space is None ==> failed_with(
                r,
                "register has no space"@,
                k,
            )
            &&& register && here && known && v.space is Some ==> r == Ok::<
                ((usize, u64), int),
                PauseView,
            >(((v.space->0, v.offset), k))
            &&& !register && attribute_text(child, "space"@) is None ==> failed_with(
                r,
                "<addr> has no space"@,
                k,
            )
            &&& !register && there && no_space(e.spaces, name) ==> failed_with(
                r,
                "<addr> unknown space"@,
                k,
            )
            &&& !register && there && is_first_space(e, name, sp) && e.spaces[sp].info.kind
                != SpaceKind::Join ==> {
                &&& r matches Ok(((x, o), n)) && x == sp as usize && n == k && match attribute_text(
                    child,
                    "offset"@,
                ) {
                    Some(t) => match offset_value(t) {
                        Some(v) => o == v as u64,
                        None => o == 0,
                    },
                    None => o == 0,
                }
            }
            &&& !register && there && is_first_space(e, name, sp) && e.spaces[sp].info.kind
                == SpaceKind::Join ==> match join_addr(e, child, a, k) {
                Ok((o, n)) => r == Ok::<((usize, u64), int), PauseView>(((sp as usize, o), n)),
                Err(p) => r == Err::<((usize, u64), int), PauseView>(p),
            }
        }),
{
    reveal_strlit("register");
    reveal_strlit("addr");
    assert("register"@.len() == 8 && "addr"@.len() == 4);
    lemma_storage_skips(e, el, a, k, 0, i);
    law_space_is_found(e, name, SpaceKind::Join, sp);
}

proof fn lemma_storage_skips(
    e: EngineView,
    el: Element,
    a: Seq<AnswerView>,
    k: int,
    from: int,
    i: int,
)
    requires
        0 <= from <= i <= el.children@.len(),
        forall|j: int|
            from <= j < i ==> (#[trigger] el.children@[j]).name@ != "register"@
                && el.children@[j].name@ != "addr"@,
    ensures
        pentry_storage_from(e, el, a, k, from) == pentry_storage_from(e, el, a, k, i),
    decreases i - from,
{
    if from < i {
        lemma_storage_skips(e, el, a, k, from + 1, i);
    }
}

/// A resource without a `<register>` or `<addr>` child lies nowhere, and fails.
pub proof fn law_resource_without_storage_fails(
    e: EngineView,
    el: Element,
    a: Seq<AnswerView>,
    k: int,
)
    requires
        no_child(el, "register"@),
        no_child(el, "addr"@),
    ensures
        failed_with(
            pentry_storage_from(e, el, a, k, 0),
            "<pentry> has no <register>/<addr> storage"@,
            k,
        ),
{
    lemma_storage_skips(e, el, a, k, 0, el.children@.len() as int);
}

// ---- groups and lists ---------------------------------------------------------------

/// A resource that was read on its own is added at the end of the list, at the next group; the
/// groups then reach past its highest one, or past its own where it has no others. It is held
/// against all that stand before it in the list.
pub proof fn law_resource_takes_the_next_group(
    e: EngineView,
    child: Element,
    a: Seq<AnswerView>,
    st: ListState,
)
    requires
        child.name@ == "pentry"@,
    ensures
        ({
            let own = pentry(e, child, st.numgroup, true, false, st.entries, a, st.k);
            let r = list_child(e, child, a, st);
            &&& own is Err ==> r is Err && r->Err_0 == own->Err_0
            &&& own matches Ok((s, k2)) ==> {
                let last = match s.last_group {
                    Some(g) => g,
                    None => st.numgroup,
                };
                &&& r matches Ok(after)
                &&& r->Ok_0.entries == st.entries.push(s.entry)
                &&& r->Ok_0.k == k2
                &&& last < i32::MAX && last + 1 > st.numgroup ==> r->Ok_0.numgroup == last + 1
                &&& last < i32::MAX && last + 1 <= st.numgroup ==> r->Ok_0.numgroup == st.numgroup
                &&& last == i32::MAX ==> r->Ok_0.numgroup == i32::MAX
            }
        }),
{
}

/// Other children of a list than resources and groups are passed over.
pub proof fn law_other_children_are_passed_over(
    e: EngineView,
    child: Element,
    a: Seq<AnswerView>,
    st: ListState,
    base: i32,
    g: GroupState,
)
    ensures
        child.name@ != "pentry"@ && child.name@ != "group"@ ==> list_child(e, child, a, st) == Ok::<
            ListState,
            PauseView,
        >(st),
        child.name@ != "pentry"@ ==> group_child(e, child, base, a, g) == Ok::<
            GroupState,
            PauseView,
        >(g),
{
}

/// A resource of a group is read at the group's number and held against all before it; it may
/// not be joined; and its order is asked against each of the two before it in the group.
pub proof fn law_group_member_is_ordered(
    e: EngineView,
    child: Element,
    base: i32,
    a: Seq<AnswerView>,
    g: GroupState,
)
    requires
        child.name@ == "pentry"@,
        pentry(e, child, base, true, true, g.list.entries, a, g.list.k) is Ok,
    ensures
        ({
            let (s, k2) = pentry(e, child, base, true, true, g.list.entries, a, g.list.k)->Ok_0;
            let r = group_child(e, child, base, a, g);
            let joined = e.spaces[s.entry.space as int].info.kind == SpaceKind::Join;
            let one = if g.prev1 is Some {
                1int
            } else {
                0
            };
            let two = if g.prev2 is Some {
                1int
            } else {
                0
            };
            &&& joined ==> failed_with(
                r,
                "<pentry> in the join space not allowed in <group> tag"@,
                k2,
            )
            &&& !joined && g.prev1 is Some && k2 >= a.len() ==> asks(
                r,
                QuestionView::Order(g.prev1->0, s.entry),
            )
            &&& !joined && g.prev2 is Some && k2 + one == a.len() && (g.prev1 is Some ==> a[k2].failure
                is None) ==> asks(r, QuestionView::Order(g.prev2->0, s.entry))
            &&& r matches Ok(after) ==> {
                &&& !joined
                &&& after.prev1 == Some(s.entry) && after.prev2 == g.prev1
                &&& after.list.entries == g.list.entries.push(s.entry)
                &&& after.list.k == k2 + one + two
                &&& after.list == with_entry(g.list, s, base, k2 + one + two)
            }
        }),
{
}

/// The rules of a list follow those before it, in order; each is asked about with the list as
/// it stands and the path that leads to it. Where the list limits what is passed by value, the
/// rule on pointers comes last.
pub proof fn law_rules_come_in_order(
    el: Element,
    list: ListView,
    place: ListPlace,
    a: Seq<AnswerView>,
    k: int,
    n: int,
)
    requires
        0 <= n < el.children@.len() <= usize::MAX,
        list_rules(el, list, place, a, k, n) is Ok,
    ensures
        list_rules(el, list, place, a, k, 0) == Ok::<(Seq<ListRule>, int), PauseView>(
            (list.rules, k),
        ),
        ({
            let (rules, k1) = list_rules(el, list, place, a, k, n)->Ok_0;
            let r = list_rules(el, list, place, a, k, n + 1);
            let rule = el.children@[n].name@ == "rule"@;
            &&& !rule ==> r == Ok::<(Seq<ListRule>, int), PauseView>((rules, k1))
            &&& rule && k1 >= a.len() ==> asks(
                r,
                QuestionView::Rule(
                    ListView { entries: list.entries, rules },
                    place.proto.push(place.at).push(n as usize),
                ),
            )
            &&& rule && 0 <= k1 < a.len() && a[k1].failure is None ==> r == Ok::<
                (Seq<ListRule>, int),
                PauseView,
            >((rules.push(ListRule::Declared(place.at, n as usize)), k1 + 1))
        }),
{
}

/// A limit above zero adds a rule on pointers behind the others; none, zero, a negative one or
/// one that is no number adds nothing.
pub proof fn law_pointer_rule_comes_last(rules: Seq<ListRule>, el: Element, v: int)
    ensures
        gives(el, "pointermax"@, v) && v > 0 ==> with_pointer_rule(rules, el) == rules.push(
            ListRule::Pointer(v as i32),
        ),
        gives(el, "pointermax"@, v) && v <= 0 ==> with_pointer_rule(rules, el) == rules,
        is_bad(el, "pointermax"@) || attribute_text(el, "pointermax"@) is None
            ==> with_pointer_rule(rules, el) == rules,
{
}

/// An `<input>` or `<output>` adds its resources behind those that the model has, and its rules
/// behind the model's rules; what the model had stays.
pub proof fn law_lists_are_added_behind(
    e: EngineView,
    el: Element,
    before: ListView,
    place: ListPlace,
    a: Seq<AnswerView>,
    k: int,
)
    requires
        pentry_list(e, el, before, place, a, k) is Ok,
    ensures
        ({
            let (after, k2) = pentry_list(e, el, before, place, a, k)->Ok_0;
            let n = el.children@.len() as int;
            let own = crate::proto_decode::list_children(e, el, a, k, n);
            &&& before.entries.is_prefix_of(after.entries)
            &&& before.rules.is_prefix_of(after.rules)
            &&& own is Ok && after.entries == before.entries + own->Ok_0.entries
        }),
{
    let n = el.children@.len() as int;
    let own = crate::proto_decode::list_children(e, el, a, k, n)->Ok_0;
    let list = ListView { entries: before.entries + own.entries, ..before };
    lemma_rules_grow(el, list, place, a, own.k, n);
}

proof fn lemma_rules_grow(
    el: Element,
    list: ListView,
    place: ListPlace,
    a: Seq<AnswerView>,
    k: int,
    n: int,
)
    requires
        list_rules(el, list, place, a, k, n) is Ok,
    ensures
        list.rules.is_prefix_of((list_rules(el, list, place, a, k, n)->Ok_0).0),
    decreases n,
{
    if n > 0 {
        lemma_rules_grow(el, list, place, a, k, n - 1);
    }
}

// ---- storage elements ---------------------------------------------------------------

/// The location that a storage element names: a register by its name, another by its space,
/// offset and size, where what is missing or no number counts as zero.
pub proof fn law_storage_element_by_name(
    e: EngineView,
    child: Element,
    what: Seq<char>,
    name: Seq<char>,
    i: int,
)
    ensures
        ({
            let r = storage_child(e, child, what);
            let register = child.name@ == "register"@;
            let plain = child.name@ == "varnode"@ || child.name@ == "addr"@;
            let here = attribute_text(child, "name"@) == Some(name);
            let there = attribute_text(child, "space"@) == Some(name);
            &&& register && here && e.registers.contains_key(name) ==> r == Ok::<
                Option<VarnodeData>,
                Failure,
            >(Some(e.registers[name]))
            &&& register && here && !e.registers.contains_key(name) ==> (r matches Err(f) && f.text
                == "Unknown register name: "@ + name)
            &&& register && attribute_text(child, "name"@) is None ==> (r matches Err(f) && f.text
                == "<register> has no name"@)
            &&& plain && there && is_first_space(e, name, i) ==> {
                &&& r matches Ok(Some(v)) && v.space == Some(i as usize) && match attribute_text(
                    child,
                    "offset"@,
                ) {
                    Some(t) => match offset_value(t) {
                        Some(o) => v.offset == o as u64,
                        None => v.offset == 0,
                    },
                    None => v.offset == 0,
                } && match attribute_text(child, "size"@) {
                    Some(t) => match u32_value(t) {
                        Some(n) => v.size == n as u32,
                        None => v.size == 0,
                    },
                    None => v.size == 0,
                }
            }
            &&& plain && there && no_space(e.spaces, name) ==> (r matches Err(f) && f.text
                == "<varnode> "@ + what + " unknown space"@)
            &&& plain && attribute_text(child, "space"@) is None ==> (r matches Err(f) && f.text
                == "<varnode> "@ + what + " has no space"@)
            &&& !register && !plain ==> r == Ok::<Option<VarnodeData>, Failure>(None)
            &&& r matches Err(f) ==> f.kind == ErrorKind::Lowlevel
        }),
{
    reveal_strlit("register");
    reveal_strlit("varnode");
    reveal_strlit("addr");
    assert("register"@.len() == 8 && "varnode"@.len() == 7 && "addr"@.len() == 4);
    law_space_is_found(e, name, SpaceKind::Join, i);
}

/// The locations of a block come in the order of its elements; the first that fails fails the
/// block, and an element that names none adds none.
pub proof fn law_storage_block_in_order(e: EngineView, block: Element, what: Seq<char>, n: int)
    requires
        0 <= n < block.children@.len(),
    ensures
        storage_children(e, block, what, 0) matches Ok(l) && l.len() == 0,
        ({
            let before = storage_children(e, block, what, n);
            let after = storage_children(e, block, what, n + 1);
            let own = storage_child(e, block.children@[n], what);
            &&& before is Err ==> after == before
            &&& before is Ok && own is Err ==> after is Err && after->Err_0 == own->Err_0
            &&& before is Ok && own is Ok ==> after is Ok
            &&& before is Ok ==> (own matches Ok(Some(v)) ==> after->Ok_0 == before->Ok_0.push(v))
            &&& before is Ok && own == Ok::<Option<VarnodeData>, Failure>(None) ==> after->Ok_0
                == before->Ok_0
        }),
        storage_block(e, block, what) == storage_children(
            e,
            block,
            what,
            block.children@.len() as int,
        ),
{
}

/// A block has its one effect on each of its locations, in order.
pub proof fn law_block_has_one_effect(storage: Seq<VarnodeData>, effect: EffectKind, i: int)
    requires
        0 <= i < storage.len(),
    ensures
        effects_of(storage, effect).len() == storage.len(),
        effects_of(storage, effect)[i].location == storage[i],
        effects_of(storage, effect)[i].effect == effect,
{
}

/// The return address is kept where the first storage element of the first `<returnaddress>`
/// says; one that cannot be read says nothing.
pub proof fn law_return_address_is_the_first(e: EngineView, root: Element, n: int, i: int)
    ensures
        no_child(root, "returnaddress"@) ==> default_return_addr(e, root) is None,
        is_first_child(root, "returnaddress"@, n) ==> {
            let ra = root.children@[n];
            let before = forall|j: int|
                0 <= j < i ==> storage_child(e, #[trigger] ra.children@[j], ""@) == Ok::<
                    Option<VarnodeData>,
                    Failure,
                >(None);
            let own = storage_child(e, ra.children@[i], ""@);
            &&& 0 <= i < ra.children@.len() && before ==> (own matches Ok(Some(v))
                ==> default_return_addr(e, root) == Some(v))
            &&& 0 <= i < ra.children@.len() && before && own is Err ==> default_return_addr(e, root)
                is None
            &&& i == ra.children@.len() && before ==> default_return_addr(e, root) is None
        },
{
    law_child_is_found(root, "returnaddress"@, n);
    if is_first_child(root, "returnaddress"@, n) {
        let ra = root.children@[n];
        if 0 <= i <= ra.children@.len() && (forall|j: int|
            0 <= j < i ==> storage_child(e, #[trigger] ra.children@[j], ""@) == Ok::<
                Option<VarnodeData>,
                Failure,
            >(None)) {
            lemma_return_addr_skips(e, ra, 0, i);
        }
    }
}

proof fn lemma_return_addr_skips(e: EngineView, ra: Element, from: int, i: int)
    requires
        0 <= from <= i <= ra.children@.len(),
        forall|j: int|
            from <= j < i ==> storage_child(e, #[trigger] ra.children@[j], ""@) == Ok::<
                Option<VarnodeData>,
                Failure,
            >(None),
    ensures
        return_addr_from(e, ra, from) == return_addr_from(e, ra, i),
    decreases i - from,
{
    if from < i {
        assert(storage_child(e, ra.children@[from], ""@) == Ok::<Option<VarnodeData>, Failure>(
            None,
        ));
        lemma_return_addr_skips(e, ra, from + 1, i);
    }
}

// ---- joins --------------------------------------------------------------------------

/// The attributes of a joined address by name: the pieces are numbered from one up to
/// sixty-five, the logical size has its own name, and any other attribute does not matter.
pub proof fn law_pieces_by_name(n: nat, name: Seq<char>)
    ensures
        1 <= n <= 65 ==> join_slot("piece"@ + decimal_text(n)) == Some(n - 1),
        n > 65 ==> join_slot("piece"@ + decimal_text(n)) is None,
        join_slot("piece"@ + decimal_text(0)) is None,
        join_slot("logicalsize"@) == Some(-1int),
        name != "logicalsize"@ && !begins_with(name, "piece"@) ==> join_slot(name) is None,
{
    reveal(join_slot);
    reveal_strlit("piece");
    reveal_strlit("logicalsize");
    law_signed_numbers_read_back(n);
    law_signed_numbers_read_back(0);
    lemma_piece_name(n);
    lemma_piece_name(0);
}

proof fn lemma_piece_name(n: nat)
    ensures
        ({
            let name = "piece"@ + decimal_text(n);
            &&& begins_with(name, "piece"@)
            &&& name.skip(5) == decimal_text(n)
            &&& name != "logicalsize"@
        }),
{
    reveal_strlit("piece");
    reveal_strlit("logicalsize");
    let name = "piece"@ + decimal_text(n);
    assert(name.take(5) =~= "piece"@);
    assert(name.skip(5) =~= decimal_text(n));
    assert(name[0] == 'p');
    assert("logicalsize"@[0] == 'l');
}

/// What an attribute of a joined address gives: a piece is put at its place, whatever was
/// there, and the list is filled up with empty pieces where it is too short; the logical size
/// is taken modulo two to the thirty-second.
pub proof fn law_join_attribute_by_name(
    e: EngineView,
    name: Seq<char>,
    text: Seq<char>,
    pieces: Seq<VarnodeData>,
    logical: u32,
    i: int,
)
    ensures
        ({
            let r = join_attribute(e, name, text, pieces, logical);
            &&& join_slot(name) is None ==> r == Ok::<(Seq<VarnodeData>, u32), Failure>(
                (pieces, logical),
            )
            &&& name == "logicalsize"@ ==> match offset_value(text) {
                Some(v) => r matches Ok((p, l)) && p == pieces && l as int == v % 0x1_0000_0000,
                None => r matches Err(f) && f.kind == ErrorKind::Lowlevel && f.text
                    == "bad join logicalsize"@,
            }
            &&& join_slot(name) matches Some(at) ==> (at >= 0 ==> match piece_storage(e, text) {
                Err(f) => r == Err::<(Seq<VarnodeData>, u32), Failure>(f),
                Ok(v) => {
                    &&& r matches Ok((p, l)) && l == logical && at < p.len() && p[at] == v
                        && p.len() == (if pieces.len() > at {
                        pieces.len() as int
                    } else {
                        at + 1
                    }) && (0 <= i < pieces.len() && i != at ==> p[i] == pieces[i]) && (
                    pieces.len() <= i < at ==> p[i] == (VarnodeData {
                        space: None,
                        offset: 0,
                        size: 0,
                    }))
                },
            })
        }),
{
    reveal(join_slot);
}

/// The attributes of a joined address are taken in turn, and the question about the join holds
/// the pieces and the logical size that they gave.
pub proof fn law_join_is_asked(e: EngineView, el: Element, n: int, a: Seq<AnswerView>, k: int)
    requires
        0 <= n < el.attributes@.len(),
        0 <= k,
    ensures
        join_attributes(e, el, 0) == Ok::<(Seq<VarnodeData>, u32), Failure>((seq![], 0u32)),
        ({
            let before = join_attributes(e, el, n);
            let after = join_attributes(e, el, n + 1);
            let (name, text) = attribute_texts(el)[n];
            &&& before is Err ==> after == before
            &&& before matches Ok((pieces, logical)) ==> after == join_attribute(
                e,
                name,
                text,
                pieces,
                logical,
            )
        }),
        ({
            let all = join_attributes(e, el, el.attributes@.len() as int);
            let r = join_addr(e, el, a, k);
            &&& all matches Err(f) ==> r == Err::<(u64, int), PauseView>(PauseView::Fail(f, k))
            &&& all matches Ok((pieces, logical)) ==> {
                &&& k >= a.len() ==> asks(r, QuestionView::Join(pieces, logical))
                &&& k < a.len() && a[k].failure is None ==> r == Ok::<(u64, int), PauseView>(
                    (a[k].offset, k + 1),
                )
            }
        }),
{
}

proof fn lemma_no_colon(s: Seq<char>, i: int)
    requires
        0 <= i <= s.len(),
    ensures
        match colon_from(s, i) {
            Some(k) => i <= k < s.len() && s[k] == ':' && forall|j: int|
                i <= j < k ==> #[trigger] s[j] != ':',
            None => forall|j: int| i <= j < s.len() ==> #[trigger] s[j] != ':',
        },
    decreases s.len() - i,
{
    if i < s.len() {
        lemma_no_colon(s, i + 1);
    }
}

/// Whether the text holds no colon.
pub open spec fn has_no_colon(s: Seq<char>) -> bool {
    forall|j: int| 0 <= j < s.len() ==> #[trigger] s[j] != ':'
}

proof fn lemma_first_colon(a: Seq<char>, b: Seq<char>)
    requires
        has_no_colon(a),
    ensures
        ({
            let t = a + seq![':'] + b;
            let n = a.len() as int;
            &&& colon_from(t, 0) == Some(n)
            &&& t.take(n) == a
            &&& t.skip(n + 1) == b
            &&& colon_from(a, 0) is None
        }),
{
    let t = a + seq![':'] + b;
    let n = a.len() as int;
    lemma_no_colon(a, 0);
    lemma_no_colon(t, 0);
    assert(t[n] == ':');
    assert forall|j: int| 0 <= j < n implies t[j] != ':' by {
        assert(t[j] == a[j]);
    }
    assert(t.take(n) =~= a);
    assert(t.skip(n + 1) =~= b);
}

/// A piece is a register by its name, or a space, an offset and a size with colons between.
/// A space that is not there is no space; an offset or size that is no number is zero; a size
/// that does not fit is held to the largest.
pub proof fn law_piece_is_read(
    e: EngineView,
    name: Seq<char>,
    offset: Seq<char>,
    size: Seq<char>,
    i: int,
)
    requires
        has_no_colon(name),
        has_no_colon(offset),
    ensures
        e.registers.contains_key(name) ==> piece_storage(e, name) == Ok::<VarnodeData, Failure>(
            e.registers[name],
        ),
        !e.registers.contains_key(name) ==> (piece_storage(e, name) matches Err(f) && f.kind
            == ErrorKind::Lowlevel && f.text == "Unknown register name: "@ + name),
        piece_storage(e, name + seq![':'] + offset) matches Err(f) && f.kind == ErrorKind::Lowlevel
            && f.text == "join address piece attribute is malformed"@,
        ({
            let r = piece_storage(e, name + seq![':'] + offset + seq![':'] + size);
            &&& r matches Ok(v) && (is_first_space(e, name, i) ==> v.space == Some(i as usize)) && (
            no_space(e.spaces, name) ==> v.space is None) && match offset_value(offset) {
                Some(o) => v.offset == o as u64,
                None => v.offset == 0,
            } && match offset_value(size) {
                Some(n) => if n > 0xffff_ffff {
                    v.size == 0xffff_ffff
                } else {
                    v.size == n
                },
                None => v.size == 0,
            }
        }),
{
    reveal(piece_storage);
    law_space_is_found(e, name, SpaceKind::Join, i);
    lemma_first_colon(name, offset);
    lemma_no_colon(offset, 0);
    let rest = offset + seq![':'] + size;
    lemma_first_colon(name, rest);
    lemma_first_colon(offset, size);
    assert(name + seq![':'] + offset + seq![':'] + size =~= name + seq![':'] + rest);
}

} // verus!
