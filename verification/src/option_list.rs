//! Reading a list of options from a stream of elements.
//!
//! The stream is read by a decoder, step by step: a reader here says what to ask of the
//! decoder next, and takes the decoder's reply. What a single option element holds is a
//! function of the replies alone.

use vstd::prelude::*;
use vstd::string::*;
use crate::context::{ArchOptionContext, OptionState};
use crate::error::{Failure, KunaError};
use crate::option_database::{
    command_effect, element_name, option_element_name, OptionDatabase, RegisteredOption,
    ELEM_OPTIONSLIST, ELEM_PARAM1, ELEM_PARAM2, ELEM_PARAM3,
};
use crate::proto::texts;
use crate::text::{decimal, decimal_text, join2, join3};
use crate::xml::{read_text, text_of};

verus! {

/// What to ask of the decoder.
#[derive(Debug, Clone, Copy, PartialEq, Eq, Structural)]
pub enum DecoderRequest {
    /// Open the next child element; the reply holds its id, 0 where there is none.
    OpenElement,
    /// Open the element of this id, which has to come next.
    OpenExpected(u32),
    /// Tell the id of the next child element, 0 where there is none.
    PeekElement,
    /// Read the text content of the open element.
    ReadContent,
    /// Close the element of this id.
    CloseElement(u32),
    /// Close the element of this id and skip what is left of it.
    CloseElementSkipping(u32),
}

/// What the decoder replied: a failure, or else the element id or the content asked for.
#[derive(Debug)]
pub struct DecoderReply {
    pub failure: Option<KunaError>,
    pub id: u32,
    pub content: Vec<u8>,
}

/// What contracts say of a [`DecoderReply`].
pub struct ReplyView {
    pub failure: Option<Failure>,
    pub id: u32,
    pub content: Seq<u8>,
}

impl View for DecoderReply {
    type V = ReplyView;

    open spec fn view(&self) -> ReplyView {
        ReplyView {
            failure: match self.failure {
                Some(e) => Some(e@),
                None => None,
            },
            id: self.id,
            content: self.content@,
        }
    }
}

/// What contracts say of a list of replies.
pub open spec fn reply_views(v: Seq<DecoderReply>) -> Seq<ReplyView> {
    v.map_values(|r: DecoderReply| r@)
}

/// How far an option element has been read.
#[derive(Debug)]
pub enum OptionStep {
    /// The decoder has to be asked.
    Ask(DecoderRequest),
    /// The element cannot be read.
    Fail(KunaError),
    /// The element is read: its id and its parameters.
    Ready(u32, String, String, String),
}

/// What contracts say of an [`OptionStep`].
pub enum StepView {
    Ask(DecoderRequest),
    Fail(Failure),
    Ready(u32, Seq<char>, Seq<char>, Seq<char>),
}

impl View for OptionStep {
    type V = StepView;

    open spec fn view(&self) -> StepView {
        match *self {
            OptionStep::Ask(q) => StepView::Ask(q),
            OptionStep::Fail(e) => StepView::Fail(e@),
            OptionStep::Ready(id, p1, p2, p3) => StepView::Ready(id, p1@, p2@, p3@),
        }
    }
}

/// The reply to request number `k`, or what comes of its absence: the request itself
/// where it has not been answered, the failure where it failed.
pub open spec fn answered(r: Seq<ReplyView>, k: int, q: DecoderRequest) -> Result<
    ReplyView,
    StepView,
> {
    if k >= r.len() {
        Err(StepView::Ask(q))
    } else {
        match r[k].failure {
            Some(f) => Err(StepView::Fail(f)),
            None => Ok(r[k]),
        }
    }
}

/// The end of an option element: closing it makes it ready.
pub open spec fn close_option(
    r: Seq<ReplyView>,
    k: int,
    elem: u32,
    p1: Seq<char>,
    p2: Seq<char>,
    p3: Seq<char>,
) -> StepView {
    match answered(r, k, DecoderRequest::CloseElement(elem)) {
        Err(step) => step,
        Ok(_) => StepView::Ready(elem, p1, p2, p3),
    }
}

/// What the replies make of a parameter element that was just opened: its text and the
/// reply to the next attempt to open a child.
pub open spec fn read_param(r: Seq<ReplyView>, k: int, param: u32) -> Result<Seq<char>, StepView> {
    match answered(r, k, DecoderRequest::ReadContent) {
        Err(step) => Err(step),
        Ok(text) => match answered(r, k + 1, DecoderRequest::CloseElement(param)) {
            Err(step) => Err(step),
            Ok(_) => Ok(text_of(text.content)),
        },
    }
}

/// What the replies make of an option element that is still to be opened. Its
/// parameters are the elements `<param1>`, `<param2>` and `<param3>`, as far as they
/// come in this order; without children its content is the first parameter.
pub open spec fn one_option(r: Seq<ReplyView>) -> StepView {
    match answered(r, 0, DecoderRequest::OpenElement) {
        Err(step) => step,
        Ok(opened) => {
            let elem = opened.id;
            match answered(r, 1, DecoderRequest::OpenElement) {
                Err(step) => step,
                Ok(sub) => if sub.id == ELEM_PARAM1 {
                    match read_param(r, 2, ELEM_PARAM1) {
                        Err(step) => step,
                        Ok(p1) => second_param(r, elem, p1),
                    }
                } else if sub.id == 0 {
                    match answered(r, 2, DecoderRequest::ReadContent) {
                        Err(step) => step,
                        Ok(text) => close_option(
                            r,
                            3,
                            elem,
                            text_of(text.content),
                            seq![],
                            seq![],
                        ),
                    }
                } else {
                    close_option(r, 2, elem, seq![], seq![], seq![])
                },
            }
        },
    }
}

/// What follows the first parameter.
pub open spec fn second_param(r: Seq<ReplyView>, elem: u32, p1: Seq<char>) -> StepView {
    match answered(r, 4, DecoderRequest::OpenElement) {
        Err(step) => step,
        Ok(sub) => if sub.id == ELEM_PARAM2 {
            match read_param(r, 5, ELEM_PARAM2) {
                Err(step) => step,
                Ok(p2) => third_param(r, elem, p1, p2),
            }
        } else {
            close_option(r, 5, elem, p1, seq![], seq![])
        },
    }
}

/// What follows the second parameter.
pub open spec fn third_param(r: Seq<ReplyView>, elem: u32, p1: Seq<char>, p2: Seq<char>) -> StepView {
    match answered(r, 7, DecoderRequest::OpenElement) {
        Err(step) => step,
        Ok(sub) => if sub.id == ELEM_PARAM3 {
            match read_param(r, 8, ELEM_PARAM3) {
                Err(step) => step,
                Ok(p3) => close_option(r, 10, elem, p1, p2, p3),
            }
        } else {
            close_option(r, 8, elem, p1, p2, seq![])
        },
    }
}

fn reply_or_ask<'a>(r: &'a Vec<DecoderReply>, k: usize, q: DecoderRequest) -> (res: Result<
    &'a DecoderReply,
    OptionStep,
>)
    ensures
        res is Ok ==> k < r@.len(),
        match res {
            Ok(v) => answered(reply_views(r@), k as int, q) == Ok::<ReplyView, StepView>(v@),
            Err(step) => answered(reply_views(r@), k as int, q) == Err::<ReplyView, StepView>(
                step@,
            ),
        },
{
    if k >= r.len() {
        return Err(OptionStep::Ask(q));
    }
    assert(reply_views(r@)[k as int] == r@[k as int]@);
    match &r[k].failure {
        Some(e) => Err(OptionStep::Fail(e.clone())),
        None => Ok(&r[k]),
    }
}

fn close_reply(
    r: &Vec<DecoderReply>,
    k: usize,
    elem: u32,
    p1: String,
    p2: String,
    p3: String,
) -> (step: OptionStep)
    ensures
        step@ == close_option(reply_views(r@), k as int, elem, p1@, p2@, p3@),
{
    match reply_or_ask(r, k, DecoderRequest::CloseElement(elem)) {
        Err(step) => step,
        Ok(_) => OptionStep::Ready(elem, p1, p2, p3),
    }
}

fn param_reply(r: &Vec<DecoderReply>, k: usize, param: u32) -> (res: Result<String, OptionStep>)
    requires
        k < usize::MAX,
    ensures
        match res {
            Ok(s) => read_param(reply_views(r@), k as int, param) == Ok::<Seq<char>, StepView>(s@),
            Err(step) => read_param(reply_views(r@), k as int, param) == Err::<
                Seq<char>,
                StepView,
            >(step@),
        },
{
    let text = match reply_or_ask(r, k, DecoderRequest::ReadContent) {
        Err(step) => {
            return Err(step);
        },
        Ok(v) => read_text(&v.content),
    };
    match reply_or_ask(r, k + 1, DecoderRequest::CloseElement(param)) {
        Err(step) => Err(step),
        Ok(_) => Ok(text),
    }
}

fn empty_text() -> (r: String)
    ensures
        r@ == Seq::<char>::empty(),
{
    let r = String::new();
    assert(r@ =~= Seq::<char>::empty());
    r
}

/// Read an option element, as far as the replies go: what to ask next, that it failed,
/// or what it holds.
pub fn read_one_option(r: &Vec<DecoderReply>) -> (step: OptionStep)
    ensures
        step@ == one_option(reply_views(r@)),
{
    let elem: u32 = match reply_or_ask(r, 0, DecoderRequest::OpenElement) {
        Err(step) => {
            return step;
        },
        Ok(v) => v.id,
    };
    let sub: u32 = match reply_or_ask(r, 1, DecoderRequest::OpenElement) {
        Err(step) => {
            return step;
        },
        Ok(v) => v.id,
    };
    if sub == 0 {
        return match reply_or_ask(r, 2, DecoderRequest::ReadContent) {
            Err(step) => step,
            Ok(v) => close_reply(
                r,
                3,
                elem,
                read_text(&v.content),
                empty_text(),
                empty_text(),
            ),
        };
    }
    if sub != ELEM_PARAM1 {
        return close_reply(r, 2, elem, empty_text(), empty_text(), empty_text());
    }
    let p1 = match param_reply(r, 2, ELEM_PARAM1) {
        Err(step) => {
            return step;
        },
        Ok(s) => s,
    };
    let sub: u32 = match reply_or_ask(r, 4, DecoderRequest::OpenElement) {
        Err(step) => {
            return step;
        },
        Ok(v) => v.id,
    };
    if sub != ELEM_PARAM2 {
        return close_reply(r, 5, elem, p1, empty_text(), empty_text());
    }
    let p2 = match param_reply(r, 5, ELEM_PARAM2) {
        Err(step) => {
            return step;
        },
        Ok(s) => s,
    };
    let sub: u32 = match reply_or_ask(r, 7, DecoderRequest::OpenElement) {
        Err(step) => {
            return step;
        },
        Ok(v) => v.id,
    };
    if sub != ELEM_PARAM3 {
        return close_reply(r, 8, elem, p1, p2, empty_text());
    }
    match param_reply(r, 8, ELEM_PARAM3) {
        Err(step) => step,
        Ok(p3) => close_reply(r, 10, elem, p1, p2, p3),
    }
}

/// What is known of an option element while its children are read.
pub struct Params {
    pub p1: Seq<char>,
    pub p2: Seq<char>,
    pub p3: Seq<char>,
    /// A child was seen.
    pub saw_child: bool,
    /// The last failure to read a content.
    pub content_failure: Option<Failure>,
}

/// What is known before any child is read.
pub open spec fn no_params() -> Params {
    Params { p1: seq![], p2: seq![], p3: seq![], saw_child: false, content_failure: None }
}

/// The parameters with the content of a parameter element, or with the failure to read
/// it.
pub open spec fn with_content(p: Params, sub: u32, reply: ReplyView) -> Params {
    let p = Params { saw_child: true, ..p };
    match reply.failure {
        Some(f) => Params { content_failure: Some(f), ..p },
        None => {
            let text = text_of(reply.content);
            if sub == ELEM_PARAM1 {
                Params { p1: text, ..p }
            } else if sub == ELEM_PARAM2 {
                Params { p2: text, ..p }
            } else {
                Params { p3: text, ..p }
            }
        },
    }
}

/// Whether the element is a parameter.
pub open spec fn is_param(id: u32) -> bool {
    id == ELEM_PARAM1 || id == ELEM_PARAM2 || id == ELEM_PARAM3
}

/// The end of an option element that cannot be read on: what is left of it is skipped,
/// and then it fails.
pub open spec fn given_up(r: Seq<ReplyView>, elem: u32, k: int, f: Failure) -> StepView {
    if k >= r.len() {
        StepView::Ask(DecoderRequest::CloseElementSkipping(elem))
    } else {
        StepView::Fail(f)
    }
}

/// The reply to request number `k`, or what comes of its absence: the request itself
/// where it has not been answered, the end of the option element where it failed.
pub open spec fn answered_inside(r: Seq<ReplyView>, elem: u32, k: int, q: DecoderRequest) -> Result<
    ReplyView,
    StepView,
> {
    if k >= r.len() {
        Err(StepView::Ask(q))
    } else {
        match r[k].failure {
            Some(f) => Err(given_up(r, elem, k + 1, f)),
            None => Ok(r[k]),
        }
    }
}

/// What the replies from number `k` on make of an open option element: every child is
/// consumed whole, the parameters are kept, and a content that cannot be read fails the
/// option only when the element has been closed.
pub open spec fn lenient_from(r: Seq<ReplyView>, elem: u32, k: int, p: Params) -> StepView
    decreases r.len() - k,
{
    if k < 0 {
        StepView::Ask(DecoderRequest::OpenElement)
    } else {
        match answered_inside(r, elem, k, DecoderRequest::OpenElement) {
            Err(step) => step,
            Ok(sub) => if sub.id == 0 {
                lenient_end(r, elem, k + 1, p)
            } else if is_param(sub.id) {
                if k + 1 >= r.len() {
                    StepView::Ask(DecoderRequest::ReadContent)
                } else {
                    match answered_inside(r, elem, k + 2, DecoderRequest::CloseElementSkipping(sub.id)) {
                        Err(step) => step,
                        Ok(_) => lenient_from(r, elem, k + 3, with_content(p, sub.id, r[k + 1])),
                    }
                }
            } else {
                match answered_inside(r, elem, k + 1, DecoderRequest::CloseElementSkipping(sub.id)) {
                    Err(step) => step,
                    Ok(_) => lenient_from(r, elem, k + 2, Params { saw_child: true, ..p }),
                }
            },
        }
    }
}

/// What the replies from number `k` on make of an option element whose children have
/// been read.
pub open spec fn lenient_end(r: Seq<ReplyView>, elem: u32, k: int, p: Params) -> StepView {
    if p.saw_child {
        lenient_close(r, elem, k, p)
    } else if k >= r.len() {
        StepView::Ask(DecoderRequest::ReadContent)
    } else {
        lenient_close(
            r,
            elem,
            k + 1,
            match r[k].failure {
                Some(f) => Params { content_failure: Some(f), ..p },
                None => Params { p1: text_of(r[k].content), ..p },
            },
        )
    }
}

/// The end of an option element.
pub open spec fn lenient_close(r: Seq<ReplyView>, elem: u32, k: int, p: Params) -> StepView {
    match answered_inside(r, elem, k, DecoderRequest::CloseElement(elem)) {
        Err(step) => step,
        Ok(_) => match p.content_failure {
            Some(f) => StepView::Fail(f),
            None => StepView::Ready(elem, p.p1, p.p2, p.p3),
        },
    }
}

/// What the replies make of an open option element of a list that is read leniently.
pub open spec fn lenient_option(r: Seq<ReplyView>, elem: u32) -> StepView {
    lenient_from(r, elem, 0, no_params())
}

fn reply_or_give_up<'a>(r: &'a Vec<DecoderReply>, elem: u32, k: usize, q: DecoderRequest) -> (res:
    Result<&'a DecoderReply, OptionStep>)
    requires
        k <= r@.len(),
    ensures
        res is Ok ==> k < r@.len(),
        match res {
            Ok(v) => answered_inside(reply_views(r@), elem, k as int, q) == Ok::<
                ReplyView,
                StepView,
            >(v@),
            Err(step) => answered_inside(reply_views(r@), elem, k as int, q) == Err::<
                ReplyView,
                StepView,
            >(step@),
        },
{
    if k >= r.len() {
        return Err(OptionStep::Ask(q));
    }
    assert(reply_views(r@)[k as int] == r@[k as int]@);
    match &r[k].failure {
        Some(e) => {
            if k + 1 >= r.len() {
                Err(OptionStep::Ask(DecoderRequest::CloseElementSkipping(elem)))
            } else {
                Err(OptionStep::Fail(e.clone()))
            }
        },
        None => Ok(&r[k]),
    }
}

/// Read an open option element, as far as the replies go, skipping what is not a
/// parameter. Whatever comes of it, the element has been closed, or skipped to its end,
/// when there is nothing more to ask.
pub fn read_lenient_option(r: &Vec<DecoderReply>, elem: u32) -> (step: OptionStep)
    ensures
        step@ == lenient_option(reply_views(r@), elem),
{
    let mut p1 = empty_text();
    let mut p2 = empty_text();
    let mut p3 = empty_text();
    let mut saw_child: bool = false;
    let mut failed: Option<KunaError> = None;
    let mut k: usize = 0;
    let n: usize = r.len();
    let ghost views = reply_views(r@);
    let ghost mut p: Params = no_params();
    loop
        invariant_except_break
            lenient_option(views, elem) == lenient_from(views, elem, k as int, p),
        invariant
            k <= n,
            n == r@.len(),
            views == reply_views(r@),
            p.p1 == p1@,
            p.p2 == p2@,
            p.p3 == p3@,
            p.saw_child == saw_child,
            p.content_failure == match failed {
                Some(e) => Some(e@),
                None => None,
            },
        ensures
            lenient_option(views, elem) == lenient_end(views, elem, k as int, p),
        decreases r@.len() - k,
    {
        let sub: u32 = match reply_or_give_up(r, elem, k, DecoderRequest::OpenElement) {
            Err(step) => {
                return step;
            },
            Ok(v) => v.id,
        };
        k += 1;
        if sub == 0 {
            break;
        }
        saw_child = true;
        if sub == ELEM_PARAM1 || sub == ELEM_PARAM2 || sub == ELEM_PARAM3 {
            if k >= n {
                return OptionStep::Ask(DecoderRequest::ReadContent);
            }
            assert(views[k as int] == r@[k as int]@);
            proof {
                p = with_content(p, sub, views[k as int]);
            }
            match &r[k].failure {
                Some(e) => {
                    failed = Some(e.clone());
                },
                None => {
                    let text = read_text(&r[k].content);
                    if sub == ELEM_PARAM1 {
                        p1 = text;
                    } else if sub == ELEM_PARAM2 {
                        p2 = text;
                    } else {
                        p3 = text;
                    }
                },
            }
            k += 1;
        } else {
            proof {
                p = Params { saw_child: true, ..p };
            }
        }
        match reply_or_give_up(r, elem, k, DecoderRequest::CloseElementSkipping(sub)) {
            Err(step) => {
                return step;
            },
            Ok(_) => {},
        }
        k += 1;
    }
    if !saw_child {
        if k >= n {
            return OptionStep::Ask(DecoderRequest::ReadContent);
        }
        assert(views[k as int] == r@[k as int]@);
        match &r[k].failure {
            Some(e) => {
                failed = Some(e.clone());
                proof {
                    p = Params { content_failure: views[k as int].failure, ..p };
                }
            },
            None => {
                p1 = read_text(&r[k].content);
                proof {
                    p = Params { p1: p1@, ..p };
                }
            },
        }
        k += 1;
    }
    match reply_or_give_up(r, elem, k, DecoderRequest::CloseElement(elem)) {
        Err(step) => step,
        Ok(_) => match failed {
            Some(e) => OptionStep::Fail(e),
            None => OptionStep::Ready(elem, p1, p2, p3),
        },
    }
}

/// What comes of a reply: the next request, or the end.
#[derive(Debug)]
pub enum DecodeStep {
    /// The decoder has to be asked.
    Ask(DecoderRequest),
    /// The end: the warnings, or the failure.
    Done(Result<Vec<String>, KunaError>),
}

/// What contracts say of a [`DecodeStep`].
pub enum DecodeView {
    Ask(DecoderRequest),
    Done(Result<Seq<Seq<char>>, Failure>),
}

impl View for DecodeStep {
    type V = DecodeView;

    open spec fn view(&self) -> DecodeView {
        match *self {
            DecodeStep::Ask(q) => DecodeView::Ask(q),
            DecodeStep::Done(Ok(w)) => DecodeView::Done(Ok(texts(w@))),
            DecodeStep::Done(Err(e)) => DecodeView::Done(Err(e@)),
        }
    }
}

/// Where in a list of options its reader is.
#[derive(Debug, Clone, Copy, PartialEq, Eq, Structural)]
pub enum ListPhase {
    /// The list is being opened.
    OpenList,
    /// The next option is being looked for.
    Peek,
    /// An option is being opened.
    OpenOption,
    /// An option is being read.
    InOption,
    /// The list is being closed.
    CloseList,
    /// The list has been read, or reading has failed.
    Finished,
}

/// The reader of a list of options.
#[derive(Debug)]
pub struct ListReader {
    pub phase: ListPhase,
    /// The id under which the list was opened.
    pub list_id: u32,
    /// The id of the option that is being read.
    pub opt_id: u32,
    /// The replies that concern the option that is being read.
    pub replies: Vec<DecoderReply>,
    /// The warnings so far.
    pub warnings: Vec<String>,
}

/// What contracts say of a [`ListReader`].
#[verifier::ext_equal]
pub struct ReaderView {
    pub phase: ListPhase,
    pub list_id: u32,
    pub opt_id: u32,
    pub replies: Seq<ReplyView>,
    pub warnings: Seq<Seq<char>>,
}

impl View for ListReader {
    type V = ReaderView;

    open spec fn view(&self) -> ReaderView {
        ReaderView {
            phase: self.phase,
            list_id: self.list_id,
            opt_id: self.opt_id,
            replies: reply_views(self.replies@),
            warnings: texts(self.warnings@),
        }
    }
}

/// The reader before anything is read.
pub open spec fn fresh_reader() -> ReaderView {
    ReaderView {
        phase: ListPhase::OpenList,
        list_id: 0,
        opt_id: 0,
        replies: seq![],
        warnings: seq![],
    }
}

/// The reader at its end.
pub open spec fn finished(st: ReaderView) -> ReaderView {
    ReaderView { phase: ListPhase::Finished, ..st }
}

/// How a warning names an option: by its element, or by its id.
pub open spec fn shown_element(id: u32) -> Seq<char> {
    match element_name(id) {
        Some(n) => "<"@ + n + ">"@,
        None => "element "@ + decimal_text(id as nat),
    }
}

/// The warning for an option that was not applied.
pub open spec fn skipped_warning(id: u32, f: Failure) -> Seq<char> {
    "Warning: decompiler option "@ + shown_element(id) + " not applied: "@ + f.text
}

fn warning_text(id: u32, e: &KunaError) -> (r: String)
    ensures
        r@ == skipped_warning(id, e@),
{
    let shown = match option_element_name(id) {
        Some(n) => join3("<", n, ">"),
        None => join2("element ", decimal(id as u64).as_str()),
    };
    let mut r = join3("Warning: decompiler option ", shown.as_str(), " not applied: ");
    r.append(e.explain());
    r
}

/// The reader that looks for the next option.
pub open spec fn looking(st: ReaderView) -> ReaderView {
    ReaderView { phase: ListPhase::Peek, replies: seq![], ..st }
}

/// What a reply does to the reader of a list and to the state, where the first option
/// that cannot be read or applied ends the list.
pub open spec fn strict_step(
    db: Map<u32, RegisteredOption>,
    st: ReaderView,
    reply: ReplyView,
    s: OptionState,
) -> (ReaderView, OptionState, DecodeView) {
    if st.phase == ListPhase::InOption {
        let now = ReaderView { replies: st.replies.push(reply), ..st };
        match one_option(now.replies) {
            StepView::Ask(q) => (now, s, DecodeView::Ask(q)),
            StepView::Fail(f) => (finished(now), s, DecodeView::Done(Err(f))),
            StepView::Ready(id, p1, p2, p3) => {
                let (after, r) = command_effect(db, s, id, p1, p2, p3);
                match r {
                    Ok(_) => (looking(now), after, DecodeView::Ask(DecoderRequest::PeekElement)),
                    Err(f) => (finished(now), after, DecodeView::Done(Err(f))),
                }
            },
        }
    } else {
        match reply.failure {
            Some(f) => (finished(st), s, DecodeView::Done(Err(f))),
            None => if st.phase == ListPhase::OpenList {
                (
                    looking(ReaderView { list_id: reply.id, ..st }),
                    s,
                    DecodeView::Ask(DecoderRequest::PeekElement),
                )
            } else if st.phase == ListPhase::Peek && reply.id != 0 {
                (
                    ReaderView { phase: ListPhase::InOption, replies: seq![], ..st },
                    s,
                    DecodeView::Ask(DecoderRequest::OpenElement),
                )
            } else if st.phase == ListPhase::Peek {
                (
                    ReaderView { phase: ListPhase::CloseList, ..st },
                    s,
                    DecodeView::Ask(DecoderRequest::CloseElement(st.list_id)),
                )
            } else {
                (finished(st), s, DecodeView::Done(Ok(st.warnings)))
            },
        }
    }
}

/// What a reply does to the reader of a list and to the state, where an option that
/// cannot be read or applied leaves a warning.
pub open spec fn lenient_step(
    db: Map<u32, RegisteredOption>,
    st: ReaderView,
    reply: ReplyView,
    s: OptionState,
) -> (ReaderView, OptionState, DecodeView) {
    if st.phase == ListPhase::InOption {
        let now = ReaderView { replies: st.replies.push(reply), ..st };
        match lenient_option(now.replies, st.opt_id) {
            StepView::Ask(q) => (now, s, DecodeView::Ask(q)),
            StepView::Fail(f) => (
                warned(looking(now), f),
                s,
                DecodeView::Ask(DecoderRequest::PeekElement),
            ),
            StepView::Ready(id, p1, p2, p3) => {
                let (after, r) = command_effect(db, s, id, p1, p2, p3);
                (
                    match r {
                        Ok(_) => looking(now),
                        Err(f) => warned(looking(now), f),
                    },
                    after,
                    DecodeView::Ask(DecoderRequest::PeekElement),
                )
            },
        }
    } else {
        match reply.failure {
            Some(f) => (finished(st), s, DecodeView::Done(Err(f))),
            None => if st.phase == ListPhase::OpenList {
                (
                    looking(ReaderView { list_id: reply.id, ..st }),
                    s,
                    DecodeView::Ask(DecoderRequest::PeekElement),
                )
            } else if st.phase == ListPhase::Peek && reply.id != 0 {
                (
                    ReaderView { phase: ListPhase::OpenOption, ..st },
                    s,
                    DecodeView::Ask(DecoderRequest::OpenElement),
                )
            } else if st.phase == ListPhase::Peek {
                (
                    ReaderView { phase: ListPhase::CloseList, ..st },
                    s,
                    DecodeView::Ask(DecoderRequest::CloseElement(st.list_id)),
                )
            } else if st.phase == ListPhase::OpenOption {
                (
                    ReaderView {
                        phase: ListPhase::InOption,
                        opt_id: reply.id,
                        replies: seq![],
                        ..st
                    },
                    s,
                    DecodeView::Ask(DecoderRequest::OpenElement),
                )
            } else {
                (finished(st), s, DecodeView::Done(Ok(st.warnings)))
            },
        }
    }
}

/// The reader with one more warning.
pub open spec fn warned(st: ReaderView, f: Failure) -> ReaderView {
    ReaderView { warnings: st.warnings.push(skipped_warning(st.opt_id, f)), ..st }
}

/// A copy of the warnings.
fn copy_warnings(v: &Vec<String>) -> (r: Vec<String>)
    ensures
        texts(r@) == texts(v@),
{
    crate::proto::copy_texts(v)
}

impl ListReader {
    /// The reader before anything is read. The first request is
    /// [`ListReader::first_request`].
    pub fn new() -> (r: ListReader)
        ensures
            r@ == fresh_reader(),
    {
        let r = ListReader {
            phase: ListPhase::OpenList,
            list_id: 0,
            opt_id: 0,
            replies: Vec::new(),
            warnings: Vec::new(),
        };
        assert(r@ =~= fresh_reader());
        r
    }

    /// The request that opens a list of options.
    pub fn first_request() -> (q: DecoderRequest)
        ensures
            q == DecoderRequest::OpenExpected(ELEM_OPTIONSLIST),
    {
        DecoderRequest::OpenExpected(ELEM_OPTIONSLIST)
    }

    fn look(&mut self)
        ensures
            final(self)@ == looking(old(self)@),
    {
        self.phase = ListPhase::Peek;
        self.replies = Vec::new();
        assert(self@ =~= looking(old(self)@));
    }

    fn warn(&mut self, e: &KunaError)
        ensures
            final(self)@ == warned(old(self)@, e@),
    {
        let ghost before = self@;
        self.warnings.push(warning_text(self.opt_id, e));
        assert(self@ =~= warned(before, e@));
    }

    fn take(&mut self, reply: DecoderReply)
        ensures
            final(self)@ == (ReaderView {
                replies: old(self)@.replies.push(reply@),
                ..old(self)@
            }),
    {
        let ghost before = self@;
        self.replies.push(reply);
        assert(self@ =~= (ReaderView { replies: before.replies.push(reply@), ..before }));
    }
}

impl OptionDatabase {
    /// Read a single option element, as far as the replies go, and apply it when it has
    /// been read.
    pub fn decode_one<C: ArchOptionContext>(&self, replies: &Vec<DecoderReply>, glb: &mut C) -> (r:
        DecodeStep)
        requires
            old(glb).wf(),
        ensures
            final(glb).wf(),
            final(glb).rest() == old(glb).rest(),
            match one_option(reply_views(replies@)) {
                StepView::Ask(q) => r@ == DecodeView::Ask(q) && final(glb).state()
                    == old(glb).state(),
                StepView::Fail(f) => r@ == DecodeView::Done(Err(f)) && final(glb).state()
                    == old(glb).state(),
                StepView::Ready(id, p1, p2, p3) => {
                    let (after, res) = command_effect(self@, old(glb).state(), id, p1, p2, p3);
                    &&& final(glb).state() == after
                    &&& r@ == DecodeView::Done(
                        match res {
                            Ok(_) => Ok(seq![]),
                            Err(f) => Err(f),
                        },
                    )
                },
            },
    {
        match read_one_option(replies) {
            OptionStep::Ask(q) => DecodeStep::Ask(q),
            OptionStep::Fail(e) => DecodeStep::Done(Err(e)),
            OptionStep::Ready(id, p1, p2, p3) => {
                match self.set(glb, id, p1.as_str(), p2.as_str(), p3.as_str()) {
                    Err(e) => DecodeStep::Done(Err(e)),
                    Ok(_) => {
                        let none: Vec<String> = Vec::new();
                        assert(texts(none@) =~= seq![]);
                        DecodeStep::Done(Ok(none))
                    },
                }
            },
        }
    }

    /// Take the reply to the last request about a list of options, and say what to ask
    /// next. Each option is applied when it has been read; the first that cannot be
    /// read or applied ends the list.
    pub fn decode<C: ArchOptionContext>(
        &self,
        reader: &mut ListReader,
        reply: DecoderReply,
        glb: &mut C,
    ) -> (r: DecodeStep)
        requires
            old(glb).wf(),
        ensures
            final(glb).wf(),
            final(glb).rest() == old(glb).rest(),
            (final(reader)@, final(glb).state(), r@) == strict_step(
                self@,
                old(reader)@,
                reply@,
                old(glb).state(),
            ),
    {
        if reader.phase == ListPhase::InOption {
            reader.take(reply);
            return match read_one_option(&reader.replies) {
                OptionStep::Ask(q) => DecodeStep::Ask(q),
                OptionStep::Fail(e) => {
                    reader.phase = ListPhase::Finished;
                    DecodeStep::Done(Err(e))
                },
                OptionStep::Ready(id, p1, p2, p3) => {
                    match self.set(glb, id, p1.as_str(), p2.as_str(), p3.as_str()) {
                        Err(e) => {
                            reader.phase = ListPhase::Finished;
                            DecodeStep::Done(Err(e))
                        },
                        Ok(_) => {
                            reader.look();
                            DecodeStep::Ask(DecoderRequest::PeekElement)
                        },
                    }
                },
            };
        }
        if let Some(e) = reply.failure {
            reader.phase = ListPhase::Finished;
            return DecodeStep::Done(Err(e));
        }
        if reader.phase == ListPhase::OpenList {
            reader.list_id = reply.id;
            reader.look();
            DecodeStep::Ask(DecoderRequest::PeekElement)
        } else if reader.phase == ListPhase::Peek {
            if reply.id != 0 {
                reader.look();
                reader.phase = ListPhase::InOption;
                DecodeStep::Ask(DecoderRequest::OpenElement)
            } else {
                reader.phase = ListPhase::CloseList;
                DecodeStep::Ask(DecoderRequest::CloseElement(reader.list_id))
            }
        } else {
            reader.phase = ListPhase::Finished;
            DecodeStep::Done(Ok(copy_warnings(&reader.warnings)))
        }
    }

    /// Take the reply to the last request about a list of options, and say what to ask
    /// next. Each option is applied when it has been read; one that cannot be read or
    /// applied is skipped with a warning.
    pub fn decode_lenient<C: ArchOptionContext>(
        &self,
        reader: &mut ListReader,
        reply: DecoderReply,
        glb: &mut C,
    ) -> (r: DecodeStep)
        requires
            old(glb).wf(),
        ensures
            final(glb).wf(),
            final(glb).rest() == old(glb).rest(),
            (final(reader)@, final(glb).state(), r@) == lenient_step(
                self@,
                old(reader)@,
                reply@,
                old(glb).state(),
            ),
    {
        if reader.phase == ListPhase::InOption {
            return self.decode_one_lenient(reader, reply, glb);
        }
        if let Some(e) = reply.failure {
            reader.phase = ListPhase::Finished;
            return DecodeStep::Done(Err(e));
        }
        if reader.phase == ListPhase::OpenList {
            reader.list_id = reply.id;
            reader.look();
            DecodeStep::Ask(DecoderRequest::PeekElement)
        } else if reader.phase == ListPhase::Peek {
            if reply.id != 0 {
                reader.phase = ListPhase::OpenOption;
                DecodeStep::Ask(DecoderRequest::OpenElement)
            } else {
                reader.phase = ListPhase::CloseList;
                DecodeStep::Ask(DecoderRequest::CloseElement(reader.list_id))
            }
        } else if reader.phase == ListPhase::OpenOption {
            reader.opt_id = reply.id;
            reader.look();
            reader.phase = ListPhase::InOption;
            DecodeStep::Ask(DecoderRequest::OpenElement)
        } else {
            reader.phase = ListPhase::Finished;
            DecodeStep::Done(Ok(copy_warnings(&reader.warnings)))
        }
    }

    /// The reply concerns the option that is being read.
    fn decode_one_lenient<C: ArchOptionContext>(
        &self,
        reader: &mut ListReader,
        reply: DecoderReply,
        glb: &mut C,
    ) -> (r: DecodeStep)
        requires
            old(glb).wf(),
            old(reader).phase == ListPhase::InOption,
        ensures
            final(glb).wf(),
            final(glb).rest() == old(glb).rest(),
            (final(reader)@, final(glb).state(), r@) == lenient_step(
                self@,
                old(reader)@,
                reply@,
                old(glb).state(),
            ),
    {
        reader.take(reply);
        match read_lenient_option(&reader.replies, reader.opt_id) {
            OptionStep::Ask(q) => DecodeStep::Ask(q),
            OptionStep::Fail(e) => {
                reader.look();
                reader.warn(&e);
                DecodeStep::Ask(DecoderRequest::PeekElement)
            },
            OptionStep::Ready(id, p1, p2, p3) => {
                let res = self.set(glb, id, p1.as_str(), p2.as_str(), p3.as_str());
                reader.look();
                if let Err(e) = res {
                    reader.warn(&e);
                }
                DecodeStep::Ask(DecoderRequest::PeekElement)
            },
        }
    }
}

/// Whether a request, with its reply, leaves the option element behind.
pub open spec fn leaves_element(elem: u32, q: DecoderRequest, reply: ReplyView) -> bool {
    ||| q == DecoderRequest::CloseElement(elem) && reply.failure is None
    ||| q == DecoderRequest::CloseElementSkipping(elem)
}

proof fn lemma_element_is_left(r: Seq<ReplyView>, elem: u32, k: int, p: Params, q: DecoderRequest)
    requires
        r.len() > 0,
        0 <= k,
        lenient_from(r.drop_last(), elem, k, p) == StepView::Ask(q),
        !(lenient_from(r, elem, k, p) is Ask),
    ensures
        leaves_element(elem, q, r.last()),
    decreases r.len() - k,
{
    let t = r.drop_last();
    assert(forall|j: int| 0 <= j < t.len() ==> t[j] == r[j]);
    if k < t.len() && t[k].failure is None && t[k].id != 0 {
        if is_param(t[k].id) {
            if k + 2 < t.len() && t[k + 2].failure is None {
                lemma_element_is_left(r, elem, k + 3, with_content(p, t[k].id, t[k + 1]), q);
            }
        } else {
            if k + 1 < t.len() && t[k + 1].failure is None {
                lemma_element_is_left(r, elem, k + 2, Params { saw_child: true, ..p }, q);
            }
        }
    }
}

/// An option of a list that is read leniently is left behind however its reading ends:
/// the last thing that was asked closed its element, or skipped what was left of it.
pub proof fn law_option_element_is_left_behind(r: Seq<ReplyView>, elem: u32, q: DecoderRequest)
    requires
        r.len() > 0,
        lenient_option(r.drop_last(), elem) == StepView::Ask(q),
        !(lenient_option(r, elem) is Ask),
    ensures
        leaves_element(elem, q, r.last()),
{
    lemma_element_is_left(r, elem, 0, no_params(), q);
}

/// An option that cannot be read or applied never ends a list that is read leniently:
/// while an option is read, the next step is always a request.
pub proof fn law_lenient_list_goes_on(
    db: Map<u32, RegisteredOption>,
    st: ReaderView,
    reply: ReplyView,
    s: OptionState,
)
    requires
        st.phase == ListPhase::InOption,
    ensures
        lenient_step(db, st, reply, s).2 is Ask,
{
}

/// Every warning of a list begins with the word "Warning".
pub proof fn law_warnings_say_so(
    db: Map<u32, RegisteredOption>,
    st: ReaderView,
    reply: ReplyView,
    s: OptionState,
    i: int,
)
    requires
        forall|k: int|
            0 <= k < st.warnings.len() ==> crate::text::begins_with(
                #[trigger] st.warnings[k],
                "Warning"@,
            ),
        0 <= i < lenient_step(db, st, reply, s).0.warnings.len(),
    ensures
        crate::text::begins_with(lenient_step(db, st, reply, s).0.warnings[i], "Warning"@),
{
    reveal_strlit("Warning");
    reveal_strlit("Warning: decompiler option ");
    let after = lenient_step(db, st, reply, s).0;
    assert forall|f: Failure| crate::text::begins_with(
        #[trigger] skipped_warning(st.opt_id, f),
        "Warning"@,
    ) by {
        let w = skipped_warning(st.opt_id, f);
        assert(w.take(7) =~= "Warning"@) by {
            assert forall|k: int| 0 <= k < 7 implies w[k] == "Warning"@[k] by {
                assert(w[k] == "Warning: decompiler option "@[k]);
            }
        }
    }
    if i < st.warnings.len() {
        assert(after.warnings[i] == st.warnings[i]);
    }
}

/// What the strict reading of an option finds, the lenient one finds too: both give the
/// same parameters for an element with up to two of them.
pub proof fn law_lenient_reads_what_strict_reads(r: Seq<ReplyView>)
    requires
        one_option(r) is Ready,
        r[1].id == 0 || r[1].id == ELEM_PARAM1 && (r[4].id == 0 || r[4].id == ELEM_PARAM2 && r[7].id
            == 0),
    ensures
        lenient_option(r.skip(1), r[0].id) == one_option(r),
{
    let t = r.skip(1);
    let elem = r[0].id;
    assert(forall|k: int| 0 <= k < t.len() ==> t[k] == r[k + 1]);
    if r[1].id == ELEM_PARAM1 {
        let p1 = Params { p1: text_of(r[2].content), saw_child: true, ..no_params() };
        assert(lenient_from(t, elem, 0, no_params()) == lenient_from(t, elem, 3, p1));
        if r[4].id == ELEM_PARAM2 {
            let p2 = Params { p2: text_of(r[5].content), ..p1 };
            assert(lenient_from(t, elem, 3, p1) == lenient_from(t, elem, 6, p2));
        }
    }
}

/// An option with three parameters is read alike too; the lenient reading looks for a
/// fourth child before it closes the element.
pub proof fn law_lenient_reads_three_params(r: Seq<ReplyView>, none: ReplyView)
    requires
        one_option(r) is Ready,
        r[1].id == ELEM_PARAM1,
        r[4].id == ELEM_PARAM2,
        r[7].id == ELEM_PARAM3,
        none.failure is None,
        none.id == 0,
    ensures
        lenient_option(r.subrange(1, 10).push(none).push(r[10]), r[0].id) == one_option(r),
{
    let t = r.subrange(1, 10).push(none).push(r[10]);
    let elem = r[0].id;
    assert(forall|k: int| 0 <= k < 9 ==> t[k] == r[k + 1]);
    let p1 = Params { p1: text_of(r[2].content), saw_child: true, ..no_params() };
    assert(lenient_from(t, elem, 0, no_params()) == lenient_from(t, elem, 3, p1));
    let p2 = Params { p2: text_of(r[5].content), ..p1 };
    assert(lenient_from(t, elem, 3, p1) == lenient_from(t, elem, 6, p2));
    let p3 = Params { p3: text_of(r[8].content), ..p2 };
    assert(lenient_from(t, elem, 6, p2) == lenient_from(t, elem, 9, p3));
}

/// A list that is read without a failure does the same to the state in either way: the
/// two readings of a list differ only in what they do with a failure.
pub proof fn law_strict_and_lenient_apply_alike(
    db: Map<u32, RegisteredOption>,
    s: OptionState,
    id: u32,
    p1: Seq<char>,
    p2: Seq<char>,
    p3: Seq<char>,
    strict: ReaderView,
    strict_reply: ReplyView,
    lenient: ReaderView,
    lenient_reply: ReplyView,
)
    requires
        strict.phase == ListPhase::InOption,
        lenient.phase == ListPhase::InOption,
        one_option(strict.replies.push(strict_reply)) == StepView::Ready(id, p1, p2, p3),
        lenient_option(lenient.replies.push(lenient_reply), lenient.opt_id) == StepView::Ready(
            id,
            p1,
            p2,
            p3,
        ),
    ensures
        strict_step(db, strict, strict_reply, s).1 == lenient_step(
            db,
            lenient,
            lenient_reply,
            s,
        ).1,
        command_effect(db, s, id, p1, p2, p3).1 is Ok ==> strict_step(
            db,
            strict,
            strict_reply,
            s,
        ).2 == lenient_step(db, lenient, lenient_reply, s).2,
{
}

} // verus!
