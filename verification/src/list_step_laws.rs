//! What single replies do to the reading of a list of options.

use vstd::prelude::*;
use crate::context::OptionState;
use crate::error::Failure;
use crate::option_database::{command_effect, element_name, RegisteredOption};
use crate::option_list::{
    fresh_reader, lenient_option, lenient_step, no_params, one_option, skipped_warning, strict_step,
    with_content, DecodeView, DecoderRequest, ListPhase, Params, ReaderView, ReplyView, StepView,
};
use crate::text::decimal_text;
use crate::xml::text_of;

verus! {

/// A list is opened, then its options are looked for one by one; where there are no more it is
/// closed, under the id that it was opened with. Both readings do so.
pub proof fn law_list_is_walked(
    db: Map<u32, RegisteredOption>,
    st: ReaderView,
    reply: ReplyView,
    s: OptionState,
)
    requires
        reply.failure is None,
    ensures
        fresh_reader().phase == ListPhase::OpenList,
        fresh_reader().warnings.len() == 0,
        st.phase == ListPhase::OpenList ==> {
            let (x, a, p) = strict_step(db, st, reply, s);
            let (y, b, q) = lenient_step(db, st, reply, s);
            &&& x == y && a == s && b == s
            &&& p == DecodeView::Ask(DecoderRequest::PeekElement) && q == p
            &&& x.phase == ListPhase::Peek && x.list_id == reply.id && x.warnings == st.warnings
        },
        st.phase == ListPhase::Peek && reply.id == 0 ==> {
            let (x, a, p) = strict_step(db, st, reply, s);
            let (y, b, q) = lenient_step(db, st, reply, s);
            &&& x == y && a == s && b == s
            &&& p == DecodeView::Ask(DecoderRequest::CloseElement(st.list_id)) && q == p
            &&& x.phase == ListPhase::CloseList && x.warnings == st.warnings
        },
        st.phase == ListPhase::Peek && reply.id != 0 ==> {
            let (x, a, p) = strict_step(db, st, reply, s);
            let (y, b, q) = lenient_step(db, st, reply, s);
            &&& a == s && b == s
            &&& p == DecodeView::Ask(DecoderRequest::OpenElement) && q == p
            &&& x.phase == ListPhase::InOption && x.replies.len() == 0
            &&& y.phase == ListPhase::OpenOption
        },
        st.phase == ListPhase::OpenOption ==> {
            let (y, b, q) = lenient_step(db, st, reply, s);
            &&& y.phase == ListPhase::InOption && y.opt_id == reply.id && y.replies.len() == 0
            &&& b == s && q == DecodeView::Ask(DecoderRequest::OpenElement)
        },
        st.phase == ListPhase::CloseList ==> {
            let (x, a, p) = strict_step(db, st, reply, s);
            let (y, b, q) = lenient_step(db, st, reply, s);
            &&& x == y && a == s && b == s
            &&& p == DecodeView::Done(Ok(st.warnings)) && q == p
            &&& x.phase == ListPhase::Finished
        },
{
}

/// A failure of the decoder ends a strict reading at once with that failure, and leaves the
/// state; outside an option it ends a lenient reading too.
pub proof fn law_decoder_failure_ends(
    db: Map<u32, RegisteredOption>,
    st: ReaderView,
    reply: ReplyView,
    s: OptionState,
    f: Failure,
)
    requires
        reply.failure == Some(f),
        st.phase == ListPhase::InOption ==> st.replies.len() == 0 || one_option(st.replies) is Ask,
    ensures
        ({
            let (x, a, p) = strict_step(db, st, reply, s);
            &&& x.phase == ListPhase::Finished && a == s
            &&& p == DecodeView::Done(Err(f))
        }),
        st.phase != ListPhase::InOption ==> {
            let (y, b, q) = lenient_step(db, st, reply, s);
            &&& y.phase == ListPhase::Finished && b == s
            &&& q == DecodeView::Done(Err(f))
        },
{
    if st.phase == ListPhase::InOption {
        lemma_failure_fails(st.replies, reply, f);
    }
}

proof fn lemma_failure_fails(r: Seq<ReplyView>, reply: ReplyView, f: Failure)
    requires
        reply.failure == Some(f),
        r.len() == 0 || one_option(r) is Ask,
    ensures
        one_option(r.push(reply)) == StepView::Fail(f),
{
    let t = r.push(reply);
    assert(forall|j: int| 0 <= j < r.len() ==> t[j] == r[j]);
    assert(t[r.len() as int] == reply);
}

/// An option that was read is applied with what was read: the next option is looked for where
/// it was accepted, and where it was refused a strict reading ends, a lenient one warns.
pub proof fn law_read_option_is_applied(
    db: Map<u32, RegisteredOption>,
    st: ReaderView,
    reply: ReplyView,
    s: OptionState,
    id: u32,
    p1: Seq<char>,
    p2: Seq<char>,
    p3: Seq<char>,
)
    requires
        st.phase == ListPhase::InOption,
    ensures
        ({
            let now = st.replies.push(reply);
            let (after, r) = command_effect(db, s, id, p1, p2, p3);
            let ready = StepView::Ready(id, p1, p2, p3);
            let (x, a, p) = strict_step(db, st, reply, s);
            let (y, b, q) = lenient_step(db, st, reply, s);
            &&& one_option(now) == ready ==> {
                &&& a == after && x.warnings == st.warnings
                &&& r is Ok ==> x.phase == ListPhase::Peek && p == DecodeView::Ask(
                    DecoderRequest::PeekElement,
                )
                &&& r matches Err(f) ==> x.phase == ListPhase::Finished && p == DecodeView::Done(
                    Err(f),
                )
            }
            &&& lenient_option(now, st.opt_id) == ready ==> {
                &&& b == after && y.phase == ListPhase::Peek
                &&& q == DecodeView::Ask(DecoderRequest::PeekElement)
                &&& r is Ok ==> y.warnings == st.warnings
                &&& r matches Err(f) ==> y.warnings == st.warnings.push(
                    skipped_warning(st.opt_id, f),
                )
            }
            &&& lenient_option(now, st.opt_id) matches StepView::Fail(f) ==> {
                &&& b == s && y.phase == ListPhase::Peek
                &&& q == DecodeView::Ask(DecoderRequest::PeekElement)
                &&& y.warnings == st.warnings.push(skipped_warning(st.opt_id, f))
            }
        }),
{
}

/// A warning tells the option by the name of its element, or by its number where it has none,
/// and then why it was not applied.
pub proof fn law_warning_tells_the_option(id: u32, name: Seq<char>, f: Failure)
    ensures
        element_name(id) == Some(name) ==> skipped_warning(id, f) == "Warning: decompiler option "@
            + ("<"@ + name + ">"@) + " not applied: "@ + f.text,
        element_name(id) is None ==> skipped_warning(id, f) == "Warning: decompiler option "@ + (
        "element "@ + decimal_text(id as nat)) + " not applied: "@ + f.text,
{
}

/// A strict reading takes the parameters as far as they come in order: an element whose first
/// child is something else has no parameters, and what follows the parameters is left.
pub proof fn law_parameters_come_in_order(r: Seq<ReplyView>)
    requires
        forall|j: int| 0 <= j < r.len() ==> (#[trigger] r[j]).failure is None,
    ensures
        r.len() == 3 && r[1].id != 202 && r[1].id != 0 ==> (one_option(r) matches StepView::Ready(
            id,
            p1,
            p2,
            p3,
        ) && id == r[0].id && p1.len() == 0 && p2.len() == 0 && p3.len() == 0),
        r.len() == 4 && r[1].id == 0 ==> (one_option(r) matches StepView::Ready(id, p1, p2, p3)
            && id == r[0].id && p1 == text_of(r[2].content) && p2.len() == 0 && p3.len() == 0),
        r.len() == 6 && r[1].id == 202 && r[4].id != 203 ==> (one_option(r)
            matches StepView::Ready(id, p1, p2, p3) && id == r[0].id && p1 == text_of(r[2].content)
            && p2.len() == 0 && p3.len() == 0),
        r.len() == 9 && r[1].id == 202 && r[4].id == 203 && r[7].id != 204 ==> (one_option(r)
            matches StepView::Ready(id, p1, p2, p3) && id == r[0].id && p1 == text_of(r[2].content)
            && p2 == text_of(r[5].content) && p3.len() == 0),
        r.len() == 11 && r[1].id == 202 && r[4].id == 203 && r[7].id == 204 ==> (one_option(r)
            matches StepView::Ready(id, p1, p2, p3) && id == r[0].id && p1 == text_of(r[2].content)
            && p2 == text_of(r[5].content) && p3 == text_of(r[8].content)),
{
}

/// What is asked while an option is read strictly: to open it, then its children and their
/// contents, each closed in turn, and at last to close it.
pub proof fn law_option_is_asked_for(r: Seq<ReplyView>)
    requires
        forall|j: int| 0 <= j < r.len() ==> (#[trigger] r[j]).failure is None,
    ensures
        r.len() == 0 ==> one_option(r) == StepView::Ask(DecoderRequest::OpenElement),
        r.len() == 1 ==> one_option(r) == StepView::Ask(DecoderRequest::OpenElement),
        r.len() == 2 && (r[1].id == 0 || r[1].id == 202) ==> one_option(r) == StepView::Ask(
            DecoderRequest::ReadContent,
        ),
        r.len() == 2 && r[1].id != 0 && r[1].id != 202 ==> one_option(r) == StepView::Ask(
            DecoderRequest::CloseElement(r[0].id),
        ),
        r.len() == 3 && r[1].id == 0 ==> one_option(r) == StepView::Ask(
            DecoderRequest::CloseElement(r[0].id),
        ),
        r.len() == 3 && r[1].id == 202 ==> one_option(r) == StepView::Ask(
            DecoderRequest::CloseElement(202),
        ),
        r.len() == 4 && r[1].id == 202 ==> one_option(r) == StepView::Ask(
            DecoderRequest::OpenElement,
        ),
        r.len() == 5 && r[1].id == 202 && r[4].id != 203 ==> one_option(r) == StepView::Ask(
            DecoderRequest::CloseElement(r[0].id),
        ),
        r.len() == 6 && r[1].id == 202 && r[4].id == 203 ==> one_option(r) == StepView::Ask(
            DecoderRequest::CloseElement(203),
        ),
        r.len() == 9 && r[1].id == 202 && r[4].id == 203 && r[7].id == 204 ==> one_option(r)
            == StepView::Ask(DecoderRequest::CloseElement(204)),
{
}

/// A lenient reading keeps the last content of each parameter, whatever the order, and the last
/// failure to read one.
pub proof fn law_parameters_are_kept(p: Params, reply: ReplyView)
    ensures
        with_content(p, 202, reply).saw_child,
        reply.failure is None ==> {
            &&& with_content(p, 202, reply) == (Params {
                p1: text_of(reply.content),
                saw_child: true,
                ..p
            })
            &&& with_content(p, 203, reply) == (Params {
                p2: text_of(reply.content),
                saw_child: true,
                ..p
            })
            &&& with_content(p, 204, reply) == (Params {
                p3: text_of(reply.content),
                saw_child: true,
                ..p
            })
        },
        reply.failure matches Some(f) ==> with_content(p, 202, reply) == (Params {
            content_failure: Some(f),
            saw_child: true,
            ..p
        }),
        no_params().p1.len() == 0 && no_params().p2.len() == 0 && no_params().p3.len() == 0,
        !no_params().saw_child && no_params().content_failure is None,
{
}

} // verus!
