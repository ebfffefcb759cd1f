//! What reading a whole list of options comes to: each option is applied in turn.

use vstd::prelude::*;
use crate::context::OptionState;
use crate::error::Failure;
use crate::option_database::{
    command_effect, RegisteredOption, ELEM_PARAM1, ELEM_PARAM2, ELEM_PARAM3,
};
use crate::option_list::{
    fresh_reader, is_param, lenient_close, lenient_from, lenient_option, lenient_step, looking,
    no_params, one_option, skipped_warning, strict_step, warned, with_content, DecodeView,
    ListPhase, Params, ReaderView, ReplyView, StepView,
};
use crate::xml::text_of;

verus! {

/// An option as it stands in a list: the id of its element, and either its content or
/// the contents of one, two or three parameters.
pub enum ListedOption {
    Bare(u32, Seq<u8>),
    One(u32, Seq<u8>),
    Two(u32, Seq<u8>, Seq<u8>),
    Three(u32, Seq<u8>, Seq<u8>, Seq<u8>),
}

/// The id of the option's element.
pub open spec fn listed_id(o: ListedOption) -> u32 {
    match o {
        ListedOption::Bare(id, _) => id,
        ListedOption::One(id, _) => id,
        ListedOption::Two(id, _, _) => id,
        ListedOption::Three(id, _, _, _) => id,
    }
}

/// The parameters of the option.
pub open spec fn listed_params(o: ListedOption) -> (Seq<char>, Seq<char>, Seq<char>) {
    match o {
        ListedOption::Bare(_, a) => (text_of(a), seq![], seq![]),
        ListedOption::One(_, a) => (text_of(a), seq![], seq![]),
        ListedOption::Two(_, a, b) => (text_of(a), text_of(b), seq![]),
        ListedOption::Three(_, a, b, c) => (text_of(a), text_of(b), text_of(c)),
    }
}

/// What the option does.
pub open spec fn listed_effect(
    db: Map<u32, RegisteredOption>,
    s: OptionState,
    o: ListedOption,
) -> (OptionState, Result<Seq<char>, Failure>) {
    let p = listed_params(o);
    command_effect(db, s, listed_id(o), p.0, p.1, p.2)
}

/// A reply that holds an element id.
pub open spec fn id_reply(id: u32) -> ReplyView {
    ReplyView { failure: None, id, content: seq![] }
}

/// A reply that holds a content.
pub open spec fn text_reply(content: Seq<u8>) -> ReplyView {
    ReplyView { failure: None, id: 0, content }
}

/// The replies about a parameter: it is opened, read and closed.
pub open spec fn param_replies(param: u32, content: Seq<u8>) -> Seq<ReplyView> {
    seq![id_reply(param), text_reply(content), id_reply(0)]
}

/// The replies about an option, from opening its element to closing it, when it is read
/// strictly.
pub open spec fn strict_replies(o: ListedOption) -> Seq<ReplyView> {
    seq![id_reply(listed_id(o))] + match o {
        ListedOption::Bare(_, a) => seq![id_reply(0), text_reply(a), id_reply(0)],
        ListedOption::One(_, a) => param_replies(ELEM_PARAM1, a) + seq![id_reply(0), id_reply(0)],
        ListedOption::Two(_, a, b) => param_replies(ELEM_PARAM1, a) + param_replies(
            ELEM_PARAM2,
            b,
        ) + seq![id_reply(0), id_reply(0)],
        ListedOption::Three(_, a, b, c) => param_replies(ELEM_PARAM1, a) + param_replies(
            ELEM_PARAM2,
            b,
        ) + param_replies(ELEM_PARAM3, c) + seq![id_reply(0)],
    }
}

/// A child of an option that is read leniently: a parameter with its content, or the
/// failure to read it, or another element.
pub enum ListedChild {
    Param(u32, Result<Seq<u8>, Failure>),
    Other(u32),
}

/// How the element of an option comes to its end: it is closed, or an element request
/// fails. That can be the request for the next child, the one that closes a child, or the
/// one that closes the element itself.
pub enum ListedEnd {
    Closed,
    OpenFails(Failure),
    ChildFails(ListedChild, Failure),
    CloseFails(Failure),
}

/// An option as it stands in a list that is read leniently: the id of its element, its
/// children, its content, which matters only where it has no children, and its end. Where
/// an element request fails, `skipped` is the reply to the request that skips the rest.
pub struct LenientOption {
    pub id: u32,
    pub children: Seq<ListedChild>,
    pub content: Result<Seq<u8>, Failure>,
    pub end: ListedEnd,
    pub skipped: ReplyView,
}

/// Whether a child is what it says it is.
pub open spec fn child_wf(c: ListedChild) -> bool {
    match c {
        ListedChild::Param(id, _) => is_param(id),
        ListedChild::Other(id) => id != 0 && !is_param(id),
    }
}

/// Whether an option has an element, and children that are what they say.
pub open spec fn option_wf(o: LenientOption) -> bool {
    &&& o.id != 0
    &&& forall|i: int| 0 <= i < o.children.len() ==> child_wf(#[trigger] o.children[i])
    &&& o.end matches ListedEnd::ChildFails(c, _) ==> child_wf(c)
}

/// A reply that failed.
pub open spec fn failed_reply(f: Failure) -> ReplyView {
    ReplyView { failure: Some(f), id: 0, content: seq![] }
}

/// The reply to a request for a content.
pub open spec fn content_reply(content: Result<Seq<u8>, Failure>) -> ReplyView {
    match content {
        Ok(bytes) => text_reply(bytes),
        Err(f) => failed_reply(f),
    }
}

/// The replies about a child before it is closed.
pub open spec fn opened_child(c: ListedChild) -> Seq<ReplyView> {
    match c {
        ListedChild::Param(id, content) => seq![id_reply(id), content_reply(content)],
        ListedChild::Other(id) => seq![id_reply(id)],
    }
}

/// The replies about the first `n` children.
pub open spec fn children_replies(children: Seq<ListedChild>, n: int) -> Seq<ReplyView>
    decreases n,
{
    if n <= 0 {
        seq![]
    } else {
        children_replies(children, n - 1) + opened_child(children[n - 1]).push(id_reply(0))
    }
}

/// What the first `n` children make of the parameters.
pub open spec fn children_params(children: Seq<ListedChild>, n: int) -> Params
    decreases n,
{
    if n <= 0 {
        no_params()
    } else {
        let before = children_params(children, n - 1);
        match children[n - 1] {
            ListedChild::Param(id, content) => with_content(before, id, content_reply(content)),
            ListedChild::Other(_) => Params { saw_child: true, ..before },
        }
    }
}

/// The reply that says that there are no more children, and the content where there
/// were none.
pub open spec fn children_end(o: LenientOption) -> Seq<ReplyView> {
    if o.children.len() == 0 {
        seq![id_reply(0), content_reply(o.content)]
    } else {
        seq![id_reply(0)]
    }
}

/// The replies after the children.
pub open spec fn end_replies(o: LenientOption) -> Seq<ReplyView> {
    match o.end {
        ListedEnd::Closed => children_end(o).push(id_reply(0)),
        ListedEnd::OpenFails(f) => seq![failed_reply(f), o.skipped],
        ListedEnd::ChildFails(c, f) => opened_child(c).push(failed_reply(f)).push(o.skipped),
        ListedEnd::CloseFails(f) => children_end(o).push(failed_reply(f)).push(o.skipped),
    }
}

/// The replies about an open option, to its end, when it is read leniently.
pub open spec fn lenient_replies(o: LenientOption) -> Seq<ReplyView> {
    children_replies(o.children, o.children.len() as int) + end_replies(o)
}

/// The parameters of the option, and the failure to read a content.
pub open spec fn option_params(o: LenientOption) -> Params {
    let p = children_params(o.children, o.children.len() as int);
    if o.children.len() > 0 {
        p
    } else {
        match o.content {
            Ok(bytes) => Params { p1: text_of(bytes), ..p },
            Err(f) => Params { content_failure: Some(f), ..p },
        }
    }
}

/// Why the option cannot be read, where it cannot: an element request that failed, or
/// else the last content that could not be read.
pub open spec fn unreadable(o: LenientOption) -> Option<Failure> {
    match o.end {
        ListedEnd::Closed => option_params(o).content_failure,
        ListedEnd::OpenFails(f) => Some(f),
        ListedEnd::ChildFails(_, f) => Some(f),
        ListedEnd::CloseFails(f) => Some(f),
    }
}

/// What the option does: nothing, where it cannot be read.
pub open spec fn lenient_effect(
    db: Map<u32, RegisteredOption>,
    s: OptionState,
    o: LenientOption,
) -> (OptionState, Result<Seq<char>, Failure>) {
    let p = option_params(o);
    match unreadable(o) {
        Some(f) => (s, Err(f)),
        None => command_effect(db, s, o.id, p.p1, p.p2, p.p3),
    }
}

/// The option with its parameters as children, as a lenient reading finds it.
pub open spec fn as_lenient(o: ListedOption) -> LenientOption {
    LenientOption {
        id: listed_id(o),
        children: match o {
            ListedOption::Bare(_, _) => seq![],
            ListedOption::One(_, a) => seq![ListedChild::Param(ELEM_PARAM1, Ok(a))],
            ListedOption::Two(_, a, b) => seq![
                ListedChild::Param(ELEM_PARAM1, Ok(a)),
                ListedChild::Param(ELEM_PARAM2, Ok(b)),
            ],
            ListedOption::Three(_, a, b, c) => seq![
                ListedChild::Param(ELEM_PARAM1, Ok(a)),
                ListedChild::Param(ELEM_PARAM2, Ok(b)),
                ListedChild::Param(ELEM_PARAM3, Ok(c)),
            ],
        },
        content: match o {
            ListedOption::Bare(_, a) => Ok(a),
            _ => Ok(seq![]),
        },
        end: ListedEnd::Closed,
        skipped: id_reply(0),
    }
}

/// Where a strict reading is after a row of replies: the reader, the state and, once it
/// has ended, how.
pub open spec fn strict_run(
    db: Map<u32, RegisteredOption>,
    st: ReaderView,
    replies: Seq<ReplyView>,
    s: OptionState,
) -> (ReaderView, OptionState, Option<DecodeView>)
    decreases replies.len(),
{
    if replies.len() == 0 {
        (st, s, None)
    } else {
        let (st1, s1, d) = strict_step(db, st, replies[0], s);
        if d is Done {
            (st1, s1, Some(d))
        } else {
            strict_run(db, st1, replies.drop_first(), s1)
        }
    }
}

/// Where a lenient reading is after a row of replies.
pub open spec fn lenient_run(
    db: Map<u32, RegisteredOption>,
    st: ReaderView,
    replies: Seq<ReplyView>,
    s: OptionState,
) -> (ReaderView, OptionState, Option<DecodeView>)
    decreases replies.len(),
{
    if replies.len() == 0 {
        (st, s, None)
    } else {
        let (st1, s1, d) = lenient_step(db, st, replies[0], s);
        if d is Done {
            (st1, s1, Some(d))
        } else {
            lenient_run(db, st1, replies.drop_first(), s1)
        }
    }
}

/// The replies about the options of a list and its end, when it is read strictly.
pub open spec fn strict_list(options: Seq<ListedOption>) -> Seq<ReplyView>
    decreases options.len(),
{
    if options.len() == 0 {
        seq![id_reply(0), id_reply(0)]
    } else {
        seq![id_reply(listed_id(options[0]))] + strict_replies(options[0]) + strict_list(
            options.drop_first(),
        )
    }
}

/// The replies about the options of a list and its end, when it is read leniently.
pub open spec fn lenient_list(options: Seq<LenientOption>) -> Seq<ReplyView>
    decreases options.len(),
{
    if options.len() == 0 {
        seq![id_reply(0), id_reply(0)]
    } else {
        seq![id_reply(options[0].id), id_reply(options[0].id)] + lenient_replies(options[0])
            + lenient_list(options.drop_first())
    }
}

/// The options of a list, applied one after the other until one is refused: the state,
/// and the refusal.
pub open spec fn all_applied(
    db: Map<u32, RegisteredOption>,
    s: OptionState,
    options: Seq<ListedOption>,
) -> (OptionState, Option<Failure>)
    decreases options.len(),
{
    if options.len() == 0 {
        (s, None)
    } else {
        let (s1, r) = listed_effect(db, s, options[0]);
        match r {
            Err(f) => (s1, Some(f)),
            Ok(_) => all_applied(db, s1, options.drop_first()),
        }
    }
}

/// The options of a list, each applied, with a warning for each that is refused or cannot
/// be read.
pub open spec fn each_applied(
    db: Map<u32, RegisteredOption>,
    s: OptionState,
    options: Seq<LenientOption>,
) -> (OptionState, Seq<Seq<char>>)
    decreases options.len(),
{
    if options.len() == 0 {
        (s, seq![])
    } else {
        let (s1, r) = lenient_effect(db, s, options[0]);
        let (s2, rest) = each_applied(db, s1, options.drop_first());
        (
            s2,
            match r {
                Err(f) => seq![skipped_warning(options[0].id, f)] + rest,
                Ok(_) => rest,
            },
        )
    }
}

// ---- a single option ----------------------------------------------------------------

/// Once an option is ready, further replies do not matter.
proof fn lemma_ready_stays(r: Seq<ReplyView>, k: int)
    requires
        0 <= k <= r.len(),
        one_option(r.take(k)) is Ready,
    ensures
        one_option(r) == one_option(r.take(k)),
{
    let t = r.take(k);
    assert(forall|j: int| 0 <= j < k ==> t[j] == r[j]);
}

/// Where no reply failed, an option is read or being read.
proof fn lemma_no_failure(r: Seq<ReplyView>)
    requires
        forall|j: int| 0 <= j < r.len() ==> (#[trigger] r[j]).failure is None,
    ensures
        !(one_option(r) is Fail),
{
}

/// The replies about an option make it ready, and not before the last of them.
proof fn lemma_strict_replies(o: ListedOption)
    ensures
        ({
            let r = strict_replies(o);
            let p = listed_params(o);
            &&& r.len() > 0
            &&& one_option(r) == StepView::Ready(listed_id(o), p.0, p.1, p.2)
            &&& one_option(r.drop_last()) is Ask
            &&& forall|j: int| 0 <= j < r.len() ==> (#[trigger] r[j]).failure is None
        }),
{
    let r = strict_replies(o);
    let t = r.drop_last();
    assert(forall|j: int| 0 <= j < t.len() ==> t[j] == r[j]);
    match o {
        ListedOption::Bare(id, a) => {
            assert(r =~= seq![id_reply(id), id_reply(0), text_reply(a), id_reply(0)]);
        },
        ListedOption::One(id, a) => {
            assert(r =~= seq![
                id_reply(id),
                id_reply(ELEM_PARAM1),
                text_reply(a),
                id_reply(0),
                id_reply(0),
                id_reply(0),
            ]);
        },
        ListedOption::Two(id, a, b) => {
            assert(r =~= seq![
                id_reply(id),
                id_reply(ELEM_PARAM1),
                text_reply(a),
                id_reply(0),
                id_reply(ELEM_PARAM2),
                text_reply(b),
                id_reply(0),
                id_reply(0),
                id_reply(0),
            ]);
        },
        ListedOption::Three(id, a, b, c) => {
            assert(r =~= seq![
                id_reply(id),
                id_reply(ELEM_PARAM1),
                text_reply(a),
                id_reply(0),
                id_reply(ELEM_PARAM2),
                text_reply(b),
                id_reply(0),
                id_reply(ELEM_PARAM3),
                text_reply(c),
                id_reply(0),
                id_reply(0),
            ]);
        },
    }
}

/// Reading the rest of an option's replies, from number `k` on, applies it.
proof fn lemma_strict_inside(
    db: Map<u32, RegisteredOption>,
    st: ReaderView,
    o: ListedOption,
    k: int,
    rest: Seq<ReplyView>,
    s: OptionState,
)
    requires
        st.phase == ListPhase::InOption,
        0 <= k < strict_replies(o).len(),
        st.replies == strict_replies(o).take(k),
    ensures
        ({
            let (s1, r) = listed_effect(db, s, o);
            let run = strict_run(db, st, strict_replies(o).skip(k) + rest, s);
            match r {
                Ok(_) => run == strict_run(db, looking(st), rest, s1),
                Err(f) => run.1 == s1 && run.2 == Some(DecodeView::Done(Err(f))),
            }
        }),
    decreases strict_replies(o).len() - k,
{
    let all = strict_replies(o);
    let row = all.skip(k) + rest;
    lemma_strict_replies(o);
    assert(row[0] == all[k]);
    assert(all.take(k).push(all[k]) =~= all.take(k + 1));
    if k + 1 < all.len() {
        let prefix = all.take(k + 1);
        if one_option(prefix) is Ready {
            assert(all.drop_last().take(k + 1) =~= prefix);
            lemma_ready_stays(all.drop_last(), k + 1);
        }
        assert(forall|j: int| 0 <= j < prefix.len() ==> prefix[j] == all[j]);
        lemma_no_failure(prefix);
        assert(one_option(prefix) is Ask);
        let next = ReaderView { replies: prefix, ..st };
        assert(row.drop_first() =~= all.skip(k + 1) + rest);
        lemma_strict_inside(db, next, o, k + 1, rest, s);
        assert(looking(next) == looking(st));
    } else {
        assert(all.take(k + 1) =~= all);
        assert(row.drop_first() =~= rest);
        let now = ReaderView { replies: all, ..st };
        assert(looking(now) == looking(st));
    }
}

/// From the first option on, a strict reading applies the options in turn.
proof fn lemma_strict_list(
    db: Map<u32, RegisteredOption>,
    st: ReaderView,
    options: Seq<ListedOption>,
    s: OptionState,
)
    requires
        st.phase == ListPhase::Peek,
        forall|i: int| 0 <= i < options.len() ==> listed_id(#[trigger] options[i]) != 0,
    ensures
        ({
            let run = strict_run(db, st, strict_list(options), s);
            let (after, failure) = all_applied(db, s, options);
            &&& run.1 == after
            &&& run.2 == Some(
                DecodeView::Done(
                    match failure {
                        Some(f) => Err(f),
                        None => Ok(st.warnings),
                    },
                ),
            )
        }),
    decreases options.len(),
{
    let row = strict_list(options);
    if options.len() == 0 {
        let closing = ReaderView { phase: ListPhase::CloseList, ..st };
        assert(row.drop_first() =~= seq![id_reply(0)]);
        assert(strict_run(db, st, row, s) == strict_run(db, closing, row.drop_first(), s));
    } else {
        let o = options[0];
        let rest = strict_list(options.drop_first());
        let inside = ReaderView { phase: ListPhase::InOption, replies: seq![], ..st };
        assert(row[0] == id_reply(listed_id(o)));
        assert(row.drop_first() =~= strict_replies(o).skip(0) + rest);
        assert(strict_replies(o).take(0) =~= seq![]);
        lemma_strict_replies(o);
        lemma_strict_inside(db, inside, o, 0, rest, s);
        let (s1, r) = listed_effect(db, s, o);
        if r is Ok {
            lemma_strict_list(db, looking(inside), options.drop_first(), s1);
        }
    }
}

// ---- the lenient reading ------------------------------------------------------------

/// Once an option that is read leniently is ready or has failed, further replies do not
/// matter.
proof fn lemma_lenient_stays(r: Seq<ReplyView>, n: int, elem: u32, k: int, p: Params)
    requires
        0 <= n <= r.len(),
        0 <= k,
        !(lenient_from(r.take(n), elem, k, p) is Ask),
    ensures
        lenient_from(r, elem, k, p) == lenient_from(r.take(n), elem, k, p),
    decreases n - k,
{
    let t = r.take(n);
    assert(forall|j: int| 0 <= j < n ==> t[j] == r[j]);
    if k < n && t[k].failure is None && t[k].id != 0 {
        let sub = t[k].id;
        if sub == ELEM_PARAM1 || sub == ELEM_PARAM2 || sub == ELEM_PARAM3 {
            if k + 2 < n && t[k + 2].failure is None {
                lemma_lenient_stays(r, n, elem, k + 3, with_content(p, sub, t[k + 1]));
            }
        } else {
            if k + 1 < n && t[k + 1].failure is None {
                lemma_lenient_stays(r, n, elem, k + 2, Params { saw_child: true, ..p });
            }
        }
    }
}

/// Once the replies about the first `n` children are read, the parameters are what these
/// children make of them.
proof fn lemma_children_read(
    children: Seq<ListedChild>,
    n: int,
    tail: Seq<ReplyView>,
    elem: u32,
)
    requires
        0 <= n <= children.len(),
        forall|i: int| 0 <= i < children.len() ==> child_wf(#[trigger] children[i]),
    ensures
        ({
            let row = children_replies(children, n);
            lenient_option(row + tail, elem) == lenient_from(
                row + tail,
                elem,
                row.len() as int,
                children_params(children, n),
            )
        }),
    decreases n,
{
    if n > 0 {
        let c = children[n - 1];
        let before = children_replies(children, n - 1);
        let own = opened_child(c).push(id_reply(0));
        let row = before + own + tail;
        assert(children_replies(children, n) + tail =~= before + (own + tail));
        assert(row =~= before + (own + tail));
        lemma_children_read(children, n - 1, own + tail, elem);
        let k = before.len() as int;
        assert(forall|j: int| 0 <= j < own.len() ==> row[k + j] == #[trigger] own[j]);
        assert(own[0] == row[k]);
        match c {
            ListedChild::Param(id, content) => {
                assert(own =~= seq![id_reply(id), content_reply(content), id_reply(0)]);
                assert(row[k + 1] == own[1]);
                assert(row[k + 2] == own[2]);
            },
            ListedChild::Other(id) => {
                assert(own =~= seq![id_reply(id), id_reply(0)]);
                assert(row[k + 1] == own[1]);
            },
        }
    } else {
        assert(children_replies(children, n) + tail =~= tail);
    }
}

proof fn lemma_children_seen(children: Seq<ListedChild>, n: int)
    requires
        0 <= n,
    ensures
        children_params(children, n).saw_child == (n > 0),
    decreases n,
{
    if n > 0 {
        lemma_children_seen(children, n - 1);
    }
}

/// Whether the replies from number `k` on are those about the end of the option.
spec fn end_stands(o: LenientOption, row: Seq<ReplyView>, k: int) -> bool {
    &&& option_wf(o)
    &&& 0 <= k
    &&& row.len() == k + end_replies(o).len()
    &&& forall|j: int| 0 <= j < end_replies(o).len() ==> row[k + j] == #[trigger] end_replies(o)[j]
}

/// Whether the option comes to its end at the last reply, and not before.
spec fn end_is_read(o: LenientOption, row: Seq<ReplyView>, k: int) -> bool {
    let p = children_params(o.children, o.children.len() as int);
    let q = option_params(o);
    &&& lenient_from(row, o.id, k, p) == match unreadable(o) {
        Some(f) => StepView::Fail(f),
        None => StepView::Ready(o.id, q.p1, q.p2, q.p3),
    }
    &&& lenient_from(row.drop_last(), o.id, k, p) is Ask
}

/// Once there are no more children, what matters is the content or the closing reply.
proof fn lemma_after_children(o: LenientOption, row: Seq<ReplyView>, k: int, p: Params)
    requires
        0 <= k,
        p == children_params(o.children, o.children.len() as int),
        row.len() >= k + children_end(o).len(),
        forall|j: int|
            0 <= j < children_end(o).len() ==> row[k + j] == #[trigger] children_end(o)[j],
    ensures
        lenient_from(row, o.id, k, p) == lenient_close(
            row,
            o.id,
            k + children_end(o).len(),
            option_params(o),
        ),
{
    let end = children_end(o);
    lemma_children_seen(o.children, o.children.len() as int);
    assert(end[0] == row[k + 0]);
    if o.children.len() == 0 {
        assert(end[1] == row[k + 1]);
    }
}

proof fn lemma_end_closed(o: LenientOption, row: Seq<ReplyView>, k: int)
    requires
        end_stands(o, row, k),
        o.end is Closed || o.end is CloseFails,
    ensures
        end_is_read(o, row, k),
{
    let p = children_params(o.children, o.children.len() as int);
    let end = end_replies(o);
    let n = children_end(o).len() as int;
    let t = row.drop_last();
    assert forall|j: int| 0 <= j < n implies row[k + j] == #[trigger] children_end(o)[j] && t[k + j]
        == children_end(o)[j] by {
        assert(end[j] == children_end(o)[j]);
    }
    assert(end[n] == row[k + n]);
    lemma_after_children(o, row, k, p);
    lemma_after_children(o, t, k, p);
}

proof fn lemma_end_open_fails(o: LenientOption, row: Seq<ReplyView>, k: int)
    requires
        end_stands(o, row, k),
        o.end is OpenFails,
    ensures
        end_is_read(o, row, k),
{
    assert(end_replies(o)[0] == row[k + 0]);
    assert(row.drop_last()[k] == row[k]);
}

proof fn lemma_end_child_fails(o: LenientOption, row: Seq<ReplyView>, k: int)
    requires
        end_stands(o, row, k),
        o.end is ChildFails,
    ensures
        end_is_read(o, row, k),
{
    let end = end_replies(o);
    let t = row.drop_last();
    assert(forall|j: int| 0 <= j < t.len() ==> t[j] == row[j]);
    assert(end[0] == row[k + 0] && end[1] == row[k + 1] && end[2] == row[k + 2]);
}

/// What the end of an option makes of the parameters that its children gave.
proof fn lemma_end_read(o: LenientOption, row: Seq<ReplyView>, k: int)
    requires
        end_stands(o, row, k),
    ensures
        end_is_read(o, row, k),
{
    match o.end {
        ListedEnd::Closed => lemma_end_closed(o, row, k),
        ListedEnd::OpenFails(_) => lemma_end_open_fails(o, row, k),
        ListedEnd::ChildFails(_, _) => lemma_end_child_fails(o, row, k),
        ListedEnd::CloseFails(_) => lemma_end_closed(o, row, k),
    }
}

/// The replies about an option bring it to its end, and not before the last of them.
proof fn lemma_lenient_replies(o: LenientOption)
    requires
        option_wf(o),
    ensures
        ({
            let r = lenient_replies(o);
            let p = option_params(o);
            &&& r.len() > 0
            &&& lenient_option(r, o.id) == match unreadable(o) {
                Some(f) => StepView::Fail(f),
                None => StepView::Ready(o.id, p.p1, p.p2, p.p3),
            }
            &&& lenient_option(r.drop_last(), o.id) is Ask
        }),
{
    let n = o.children.len() as int;
    let row = children_replies(o.children, n);
    let end = end_replies(o);
    let r = row + end;
    lemma_children_read(o.children, n, end, o.id);
    lemma_children_read(o.children, n, end.drop_last(), o.id);
    assert(r.drop_last() =~= row + end.drop_last());
    lemma_end_read(o, r, row.len() as int);
}

/// Reading the rest of an option's replies, from number `k` on, applies it or leaves a
/// warning.
proof fn lemma_lenient_inside(
    db: Map<u32, RegisteredOption>,
    st: ReaderView,
    o: LenientOption,
    k: int,
    rest: Seq<ReplyView>,
    s: OptionState,
)
    requires
        st.phase == ListPhase::InOption,
        option_wf(o),
        st.opt_id == o.id,
        0 <= k < lenient_replies(o).len(),
        st.replies == lenient_replies(o).take(k),
    ensures
        ({
            let (s1, r) = lenient_effect(db, s, o);
            let next = match r {
                Ok(_) => looking(st),
                Err(f) => warned(looking(st), f),
            };
            lenient_run(db, st, lenient_replies(o).skip(k) + rest, s) == lenient_run(
                db,
                next,
                rest,
                s1,
            )
        }),
    decreases lenient_replies(o).len() - k,
{
    let all = lenient_replies(o);
    let row = all.skip(k) + rest;
    lemma_lenient_replies(o);
    assert(row[0] == all[k]);
    assert(all.take(k).push(all[k]) =~= all.take(k + 1));
    if k + 1 < all.len() {
        let prefix = all.take(k + 1);
        if !(lenient_option(prefix, st.opt_id) is Ask) {
            assert(all.drop_last().take(k + 1) =~= prefix);
            lemma_lenient_stays(all.drop_last(), k + 1, st.opt_id, 0, no_params());
        }
        let next = ReaderView { replies: prefix, ..st };
        assert(row.drop_first() =~= all.skip(k + 1) + rest);
        lemma_lenient_inside(db, next, o, k + 1, rest, s);
        assert(looking(next) == looking(st));
    } else {
        assert(all.take(k + 1) =~= all);
        assert(row.drop_first() =~= rest);
        let now = ReaderView { replies: all, ..st };
        assert(looking(now) == looking(st));
    }
}

/// From the first option on, a lenient reading applies each option.
proof fn lemma_lenient_list(
    db: Map<u32, RegisteredOption>,
    st: ReaderView,
    options: Seq<LenientOption>,
    s: OptionState,
)
    requires
        st.phase == ListPhase::Peek,
        forall|i: int| 0 <= i < options.len() ==> option_wf(#[trigger] options[i]),
    ensures
        ({
            let run = lenient_run(db, st, lenient_list(options), s);
            let (after, warnings) = each_applied(db, s, options);
            &&& run.1 == after
            &&& run.2 == Some(DecodeView::Done(Ok(st.warnings + warnings)))
        }),
    decreases options.len(),
{
    let row = lenient_list(options);
    if options.len() == 0 {
        let closing = ReaderView { phase: ListPhase::CloseList, ..st };
        assert(row.drop_first() =~= seq![id_reply(0)]);
        assert(lenient_run(db, st, row, s) == lenient_run(db, closing, row.drop_first(), s));
        assert(st.warnings + Seq::<Seq<char>>::empty() =~= st.warnings);
    } else {
        let o = options[0];
        let id = o.id;
        let rest = lenient_list(options.drop_first());
        let opening = ReaderView { phase: ListPhase::OpenOption, ..st };
        let inside = ReaderView {
            phase: ListPhase::InOption,
            opt_id: id,
            replies: seq![],
            ..st
        };
        assert(row[0] == id_reply(id));
        assert(row.drop_first()[0] == id_reply(id));
        assert(row.drop_first().drop_first() =~= lenient_replies(o).skip(0) + rest);
        assert(lenient_run(db, st, row, s) == lenient_run(db, opening, row.drop_first(), s));
        assert(lenient_run(db, opening, row.drop_first(), s) == lenient_run(
            db,
            inside,
            row.drop_first().drop_first(),
            s,
        ));
        assert(lenient_replies(o).take(0) =~= seq![]);
        lemma_lenient_replies(o);
        lemma_lenient_inside(db, inside, o, 0, rest, s);
        let (s1, r) = lenient_effect(db, s, o);
        let next = match r {
            Ok(_) => looking(inside),
            Err(f) => warned(looking(inside), f),
        };
        lemma_lenient_list(db, next, options.drop_first(), s1);
        let tail = each_applied(db, s1, options.drop_first()).1;
        if let Err(f) = r {
            assert(next.warnings + tail =~= st.warnings + (seq![skipped_warning(id, f)] + tail));
        }
    }
}

/// The children of a listed option give its parameters.
proof fn lemma_same_params(o: ListedOption)
    ensures
        ({
            let p = option_params(as_lenient(o));
            &&& (p.p1, p.p2, p.p3) == listed_params(o)
            &&& unreadable(as_lenient(o)) is None
        }),
{
    let children = as_lenient(o).children;
    let p0 = children_params(children, 0);
    assert(p0 == no_params());
    if children.len() > 0 {
        let p1 = children_params(children, 1);
        assert(p1 == with_content(p0, ELEM_PARAM1, content_reply(children[0]->Param_1)));
        if children.len() > 1 {
            let p2 = children_params(children, 2);
            assert(p2 == with_content(p1, ELEM_PARAM2, content_reply(children[1]->Param_1)));
            if children.len() > 2 {
                let p3 = children_params(children, 3);
                assert(p3 == with_content(p2, ELEM_PARAM3, content_reply(children[2]->Param_1)));
            }
        }
    }
}

/// A list in which no option is refused does the same, read strictly or leniently.
pub proof fn law_good_list_is_read_alike(
    db: Map<u32, RegisteredOption>,
    s: OptionState,
    options: Seq<ListedOption>,
)
    requires
        all_applied(db, s, options).1 is None,
    ensures
        ({
            let lenient = options.map_values(|o: ListedOption| as_lenient(o));
            &&& each_applied(db, s, lenient).0 == all_applied(db, s, options).0
            &&& each_applied(db, s, lenient).1.len() == 0
        }),
    decreases options.len(),
{
    if options.len() > 0 {
        let lenient = options.map_values(|o: ListedOption| as_lenient(o));
        let (s1, r) = listed_effect(db, s, options[0]);
        lemma_same_params(options[0]);
        assert(lenient[0] == as_lenient(options[0]));
        assert(lenient.drop_first() =~= options.drop_first().map_values(
            |o: ListedOption| as_lenient(o),
        ));
        law_good_list_is_read_alike(db, s1, options.drop_first());
    }
}

/// A list of options that is read strictly applies its options in turn. It ends with the
/// first refusal, if there is one, and then the options behind it are not applied.
pub proof fn law_strict_list_applies_its_options(
    db: Map<u32, RegisteredOption>,
    list_id: u32,
    options: Seq<ListedOption>,
    s: OptionState,
)
    requires
        forall|i: int| 0 <= i < options.len() ==> listed_id(#[trigger] options[i]) != 0,
    ensures
        ({
            let run = strict_run(
                db,
                fresh_reader(),
                seq![id_reply(list_id)] + strict_list(options),
                s,
            );
            let (after, failure) = all_applied(db, s, options);
            &&& run.1 == after
            &&& run.2 == Some(
                DecodeView::Done(
                    match failure {
                        Some(f) => Err(f),
                        None => Ok(seq![]),
                    },
                ),
            )
        }),
{
    let row = seq![id_reply(list_id)] + strict_list(options);
    let first = strict_step(db, fresh_reader(), id_reply(list_id), s).0;
    assert(row[0] == id_reply(list_id));
    assert(row.drop_first() =~= strict_list(options));
    lemma_strict_list(db, first, options, s);
}

/// A list of options that is read leniently applies each of its options, whatever became
/// of the others. The reading succeeds, and its warnings tell of the options that were
/// refused, in order.
pub proof fn law_lenient_list_applies_each_option(
    db: Map<u32, RegisteredOption>,
    list_id: u32,
    options: Seq<LenientOption>,
    s: OptionState,
)
    requires
        forall|i: int| 0 <= i < options.len() ==> option_wf(#[trigger] options[i]),
    ensures
        ({
            let run = lenient_run(
                db,
                fresh_reader(),
                seq![id_reply(list_id)] + lenient_list(options),
                s,
            );
            let (after, warnings) = each_applied(db, s, options);
            &&& run.1 == after
            &&& run.2 == Some(DecodeView::Done(Ok(warnings)))
        }),
{
    let row = seq![id_reply(list_id)] + lenient_list(options);
    let first = lenient_step(db, fresh_reader(), id_reply(list_id), s).0;
    assert(row[0] == id_reply(list_id));
    assert(row.drop_first() =~= lenient_list(options));
    lemma_lenient_list(db, first, options, s);
    let warnings = each_applied(db, s, options).1;
    assert(first.warnings + warnings =~= warnings);
}

/// Options one after the other are applied one after the other.
proof fn lemma_each_in_two_parts(
    db: Map<u32, RegisteredOption>,
    s: OptionState,
    first: Seq<LenientOption>,
    rest: Seq<LenientOption>,
)
    ensures
        ({
            let a = each_applied(db, s, first);
            let b = each_applied(db, a.0, rest);
            each_applied(db, s, first + rest) == (b.0, a.1 + b.1)
        }),
    decreases first.len(),
{
    let b = each_applied(db, each_applied(db, s, first).0, rest);
    if first.len() == 0 {
        assert(first + rest =~= rest);
        assert(Seq::<Seq<char>>::empty() + b.1 =~= b.1);
    } else {
        let (s1, r) = lenient_effect(db, s, first[0]);
        lemma_each_in_two_parts(db, s1, first.drop_first(), rest);
        assert((first + rest).drop_first() =~= first.drop_first() + rest);
        assert((first + rest)[0] == first[0]);
        let tail = each_applied(db, s1, first.drop_first()).1;
        if let Err(f) = r {
            let w = seq![skipped_warning(first[0].id, f)];
            assert(w + (tail + b.1) =~= (w + tail) + b.1);
        }
    }
}

/// An option that cannot be read costs one warning and nothing else: the other options of
/// the list do what they do without it, and say what they say without it.
pub proof fn law_unreadable_option_costs_a_warning(
    db: Map<u32, RegisteredOption>,
    s: OptionState,
    before: Seq<LenientOption>,
    o: LenientOption,
    after: Seq<LenientOption>,
)
    requires
        unreadable(o) is Some,
    ensures
        ({
            let without = each_applied(db, s, before + after);
            let with = each_applied(db, s, before + seq![o] + after);
            let n = each_applied(db, s, before).1.len() as int;
            &&& with.0 == without.0
            &&& with.1 == without.1.insert(n, skipped_warning(o.id, unreadable(o)->0))
        }),
{
    let one = seq![o];
    let first = each_applied(db, s, before);
    let last = each_applied(db, first.0, after);
    lemma_each_in_two_parts(db, s, before, after);
    lemma_each_in_two_parts(db, s, before, one);
    lemma_each_in_two_parts(db, s, before + one, after);
    assert(one.drop_first() =~= seq![]);
    let w = skipped_warning(o.id, unreadable(o)->0);
    assert(each_applied(db, first.0, one.drop_first()) == (first.0, Seq::<Seq<char>>::empty()));
    assert(each_applied(db, first.0, one).1 =~= seq![w]);
    assert(each_applied(db, s, before + one + after).1 =~= (first.1 + last.1).insert(
        first.1.len() as int,
        w,
    ));
}

} // verus!
