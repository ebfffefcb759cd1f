//! What each option of a list does, by the words that it is given.

use vstd::prelude::*;
use crate::actions::RuleState;
use crate::context::OptionState;
use crate::error::{ErrorKind, Failure};
use crate::int_parse::{law_signed_reading_clamps, signed_field};
use crate::options::{
    ArchOption, OptionAliasBlock, OptionAllowContextSet, OptionBraceFormat, OptionCommentHeader,
    OptionCommentIndent, OptionCommentInstruction, OptionCommentStyle, OptionConventionPrinting,
    OptionCurrentAction, OptionDefaultPrototype, OptionErrorReinterpreted,
    OptionErrorTooManyInstructions, OptionErrorUnimplemented, OptionExtraPop, OptionForLoops,
    OptionHideExtensions, OptionIgnoreUnimplemented, OptionInPlaceOps, OptionIndentIncrement,
    OptionInferConstPtr, OptionInline, OptionIntegerFormat, OptionJumpLoad, OptionJumpTableMax,
    OptionMaxInstruction, OptionMaxLineWidth, OptionNamespaceStrategy, OptionNanIgnore,
    OptionNoCastPrinting, OptionNoReturn, OptionNullPrinting, OptionProtoEval, OptionReadOnly,
    OptionSetAction, OptionSetLanguage, OptionSplitDatatypes, OptionToggleRule, OptionWarning,
};
use crate::printer::{BraceCategory, BraceStyle, NamespaceStrategy, PrintSettings, PrintState};
use crate::proto::ModelView;
use crate::setting_laws::says_on;
use crate::symbols::{function_from, FunctionView, TableView};

verus! {

/// Whether the result is this message.
pub open spec fn said(r: Result<Seq<char>, Failure>, text: Seq<char>) -> bool {
    r matches Ok(t) && t == text
}

/// Whether the result is a refusal of this kind and with this text.
pub open spec fn refused_with(
    r: Result<Seq<char>, Failure>,
    kind: ErrorKind,
    text: Seq<char>,
) -> bool {
    r matches Err(f) && f.kind == kind && f.text == text
}

/// Whether a word is neither `on` nor `off`, and the option says so and changes nothing.
pub open spec fn toggle_refused(
    s: OptionState,
    p: Seq<char>,
    e: (OptionState, Result<Seq<char>, Failure>),
) -> bool {
    !says_on(p) && p != "off"@ ==> e.0 == s && refused_with(
        e.1,
        ErrorKind::Parse,
        "Must specify toggle value, on/off"@,
    )
}

/// Whether a language of this name can be printed.
pub open spec fn printable(p: PrintState, name: Seq<char>) -> bool {
    exists|i: int| 0 <= i < p.languages.len() && (#[trigger] p.languages[i]).name@ == name
}

/// Whether this is the first of the printable languages with this name.
pub open spec fn is_first_language(p: PrintState, name: Seq<char>, k: int) -> bool {
    &&& 0 <= k < p.languages.len()
    &&& p.languages[k].name@ == name
    &&& forall|j: int| 0 <= j < k ==> (#[trigger] p.languages[j]).name@ != name
}

/// A language is found at the first place that has its name.
pub proof fn law_language_is_the_first(p: PrintState, name: Seq<char>, i: int)
    requires
        0 <= i <= p.languages.len(),
    ensures
        match crate::printer::language_from(p.languages, name, i) {
            Some(k) => i <= k < p.languages.len() && p.languages[k].name@ == name && forall|j: int|
                i <= j < k ==> (#[trigger] p.languages[j]).name@ != name,
            None => forall|j: int|
                i <= j < p.languages.len() ==> (#[trigger] p.languages[j]).name@ != name,
        },
    decreases p.languages.len() - i,
{
    if i < p.languages.len() {
        law_language_is_the_first(p, name, i + 1);
    }
}

/// Whether this is the first global function with this name.
pub open spec fn is_first_function(t: TableView, name: Seq<char>, k: int) -> bool {
    &&& t.has_global
    &&& 0 <= k < t.functions.len()
    &&& t.functions[k].global && t.functions[k].name == name
    &&& forall|j: int|
        0 <= j < k ==> !((#[trigger] t.functions[j]).global && t.functions[j].name == name)
}

/// Whether there is no global function with this name.
pub open spec fn no_function(t: TableView, name: Seq<char>) -> bool {
    t.has_global ==> forall|j: int|
        0 <= j < t.functions.len() ==> !((#[trigger] t.functions[j]).global && t.functions[j].name
            == name)
}

/// A function is found at the first place that has its name in the global scope.
pub proof fn law_function_is_the_first(t: TableView, name: Seq<char>, i: int)
    requires
        0 <= i <= t.functions.len(),
    ensures
        match function_from(t, name, i) {
            Some(k) => i <= k < t.functions.len() && t.functions[k].global && t.functions[k].name
                == name && forall|j: int|
                i <= j < k ==> !((#[trigger] t.functions[j]).global && t.functions[j].name == name),
            None => forall|j: int|
                i <= j < t.functions.len() ==> !((#[trigger] t.functions[j]).global
                    && t.functions[j].name == name),
        },
    decreases t.functions.len() - i,
{
    if i < t.functions.len() {
        law_function_is_the_first(t, name, i + 1);
    }
}

proof fn lemma_on_and_off()
    ensures
        "on"@.len() == 2,
        "off"@.len() == 3,
{
    reveal_strlit("on");
    reveal_strlit("off");
}

/// Constants are taken for pointers after nothing or `on`, not after `off`.
pub proof fn law_inferconstptr_follows_its_word(
    s: OptionState,
    p1: Seq<char>,
    p2: Seq<char>,
    p3: Seq<char>,
)
    ensures
        ({
            let e = OptionInferConstPtr.effect(s, p1, p2, p3);
            &&& says_on(p1) ==> e.0 == (OptionState { infer_pointers: true, ..s }) && said(
                e.1,
                "Constant pointers are now inferred"@,
            )
            &&& p1 == "off"@ ==> e.0 == (OptionState { infer_pointers: false, ..s }) && said(
                e.1,
                "Constant pointers must now be set explicitly"@,
            )
            &&& toggle_refused(s, p1, e)
        }),
{
    lemma_on_and_off();
}

/// `for` loops are recovered after nothing or `on`, not after `off`.
pub proof fn law_analyzeforloops_follows_its_word(
    s: OptionState,
    p1: Seq<char>,
    p2: Seq<char>,
    p3: Seq<char>,
)
    ensures
        ({
            let e = OptionForLoops.effect(s, p1, p2, p3);
            &&& says_on(p1) ==> e.0 == (OptionState { analyze_for_loops: true, ..s }) && said(
                e.1,
                "Recovery of for-loops is "@ + p1,
            )
            &&& p1 == "off"@ ==> e.0 == (OptionState { analyze_for_loops: false, ..s }) && said(
                e.1,
                "Recovery of for-loops is "@ + p1,
            )
            &&& toggle_refused(s, p1, e)
        }),
{
    lemma_on_and_off();
}

/// The context may be changed after nothing or `on`, not after `off`.
pub proof fn law_allowcontextset_follows_its_word(
    s: OptionState,
    p1: Seq<char>,
    p2: Seq<char>,
    p3: Seq<char>,
)
    ensures
        ({
            let e = OptionAllowContextSet.effect(s, p1, p2, p3);
            &&& says_on(p1) ==> e.0 == (OptionState { context_set_allowed: true, ..s }) && said(
                e.1,
                "Toggled allowcontextset to "@ + "on"@,
            )
            &&& p1 == "off"@ ==> e.0 == (OptionState { context_set_allowed: false, ..s }) && said(
                e.1,
                "Toggled allowcontextset to "@ + "off"@,
            )
            &&& toggle_refused(s, p1, e)
        }),
{
    lemma_on_and_off();
}

/// Read-only memory is propagated after `on`, not after `off`; saying nothing is refused.
pub proof fn law_readonly_follows_its_word(
    s: OptionState,
    p1: Seq<char>,
    p2: Seq<char>,
    p3: Seq<char>,
)
    ensures
        ({
            let e = OptionReadOnly.effect(s, p1, p2, p3);
            &&& p1 == "on"@ ==> e.0 == (OptionState { readonly_propagate: true, ..s }) && said(
                e.1,
                "Read-only memory locations now propagate as constants"@,
            )
            &&& p1 == "off"@ ==> e.0 == (OptionState { readonly_propagate: false, ..s }) && said(
                e.1,
                "Read-only memory locations now do not propagate"@,
            )
            &&& p1.len() == 0 ==> e.0 == s && refused_with(
                e.1,
                ErrorKind::Parse,
                "Read-only option must be set \"on\" or \"off\""@,
            )
            &&& toggle_refused(s, p1, e)
        }),
{
    lemma_on_and_off();
}

/// One flow bit says that unimplemented instructions do nothing; the option decides that bit alone.
pub proof fn law_ignoreunimplemented_follows_its_word(
    s: OptionState,
    p1: Seq<char>,
    p2: Seq<char>,
    p3: Seq<char>,
)
    ensures
        ({
            let e = OptionIgnoreUnimplemented.effect(s, p1, p2, p3);
            let was = s.flow_options;
            let now = e.0.flow_options;
            &&& says_on(p1) ==> now & 2 == 2 && said(
                e.1,
                "Unimplemented instructions are now ignored (treated as nop)"@,
            )
            &&& p1 == "off"@ ==> now & 2 == 0 && said(
                e.1,
                "Unimplemented instructions now generate warnings"@,
            )
            &&& now & !2u32 == was & !2u32
            &&& e.0 == (OptionState { flow_options: now, ..s })
            &&& toggle_refused(s, p1, e)
        }),
{
    lemma_on_and_off();
    let was = s.flow_options;
    assert((was | 2) & 2 == 2 && (was & !2u32) & 2 == 0 && (was | 2)
        & !2u32 == was & !2u32 && (was & !2u32) & !2u32 == was & !2u32)
        by (bit_vector);
}

/// One flow bit says that unimplemented instructions are errors; the option decides that bit alone.
pub proof fn law_errorunimplemented_follows_its_word(
    s: OptionState,
    p1: Seq<char>,
    p2: Seq<char>,
    p3: Seq<char>,
)
    ensures
        ({
            let e = OptionErrorUnimplemented.effect(s, p1, p2, p3);
            let was = s.flow_options;
            let now = e.0.flow_options;
            &&& says_on(p1) ==> now & 8 == 8 && said(
                e.1,
                "Unimplemented instructions are now a fatal error"@,
            )
            &&& p1 == "off"@ ==> now & 8 == 0 && said(
                e.1,
                "Unimplemented instructions now NOT a fatal error"@,
            )
            &&& now & !8u32 == was & !8u32
            &&& e.0 == (OptionState { flow_options: now, ..s })
            &&& toggle_refused(s, p1, e)
        }),
{
    lemma_on_and_off();
    let was = s.flow_options;
    assert((was | 8) & 8 == 8 && (was & !8u32) & 8 == 0 && (was | 8)
        & !8u32 == was & !8u32 && (was & !8u32) & !8u32 == was & !8u32)
        by (bit_vector);
}

/// One flow bit says that reinterpreted instructions are errors; the option decides that bit alone.
pub proof fn law_errorreinterpreted_follows_its_word(
    s: OptionState,
    p1: Seq<char>,
    p2: Seq<char>,
    p3: Seq<char>,
)
    ensures
        ({
            let e = OptionErrorReinterpreted.effect(s, p1, p2, p3);
            let was = s.flow_options;
            let now = e.0.flow_options;
            &&& says_on(p1) ==> now & 0x10 == 0x10 && said(
                e.1,
                "Instruction reinterpretation is now a fatal error"@,
            )
            &&& p1 == "off"@ ==> now & 0x10 == 0 && said(
                e.1,
                "Instruction reinterpretation is now NOT a fatal error"@,
            )
            &&& now & !0x10u32 == was & !0x10u32
            &&& e.0 == (OptionState { flow_options: now, ..s })
            &&& toggle_refused(s, p1, e)
        }),
{
    lemma_on_and_off();
    let was = s.flow_options;
    assert((was | 0x10) & 0x10 == 0x10 && (was & !0x10u32) & 0x10 == 0 && (was | 0x10)
        & !0x10u32 == was & !0x10u32 && (was & !0x10u32) & !0x10u32 == was & !0x10u32)
        by (bit_vector);
}

/// One flow bit says that too many instructions are an error; the option decides that bit alone.
pub proof fn law_errortoomanyinstructions_follows_its_word(
    s: OptionState,
    p1: Seq<char>,
    p2: Seq<char>,
    p3: Seq<char>,
)
    ensures
        ({
            let e = OptionErrorTooManyInstructions.effect(s, p1, p2, p3);
            let was = s.flow_options;
            let now = e.0.flow_options;
            &&& says_on(p1) ==> now & 0x20 == 0x20 && said(
                e.1,
                "Too many instructions are now a fatal error"@,
            )
            &&& p1 == "off"@ ==> now & 0x20 == 0 && said(
                e.1,
                "Too many instructions are now NOT a fatal error"@,
            )
            &&& now & !0x20u32 == was & !0x20u32
            &&& e.0 == (OptionState { flow_options: now, ..s })
            &&& toggle_refused(s, p1, e)
        }),
{
    lemma_on_and_off();
    let was = s.flow_options;
    assert((was | 0x20) & 0x20 == 0x20 && (was & !0x20u32) & 0x20 == 0 && (was | 0x20)
        & !0x20u32 == was & !0x20u32 && (was & !0x20u32) & !0x20u32 == was & !0x20u32)
        by (bit_vector);
}

/// One flow bit says that the loads of jump tables are recorded; the option decides that bit alone.
pub proof fn law_jumpload_follows_its_word(
    s: OptionState,
    p1: Seq<char>,
    p2: Seq<char>,
    p3: Seq<char>,
)
    ensures
        ({
            let e = OptionJumpLoad.effect(s, p1, p2, p3);
            let was = s.flow_options;
            let now = e.0.flow_options;
            &&& says_on(p1) ==> now & 0x4000 == 0x4000 && said(
                e.1,
                "Jumptable analysis will record loads required to calculate jump address"@,
            )
            &&& p1 == "off"@ ==> now & 0x4000 == 0 && said(
                e.1,
                "Jumptable analysis will NOT record loads"@,
            )
            &&& now & !0x4000u32 == was & !0x4000u32
            &&& e.0 == (OptionState { flow_options: now, ..s })
            &&& toggle_refused(s, p1, e)
        }),
{
    lemma_on_and_off();
    let was = s.flow_options;
    assert((was | 0x4000) & 0x4000 == 0x4000 && (was & !0x4000u32) & 0x4000 == 0 && (was | 0x4000)
        & !0x4000u32 == was & !0x4000u32 && (was & !0x4000u32) & !0x4000u32 == was & !0x4000u32)
        by (bit_vector);
}

/// The null option decides how null pointers are printed, where the language is a known one.
pub proof fn law_nullprinting_follows_its_word(
    s: OptionState,
    p1: Seq<char>,
    p2: Seq<char>,
    p3: Seq<char>,
)
    ensures
        ({
            let e = OptionNullPrinting.effect(s, p1, p2, p3);
            let now = e.0.print.settings;
            let known = printable(s.print, s.print.name);
            &&& says_on(p1) && known ==> now.null_printing && said(
                e.1,
                "Null printing turned "@ + "on"@,
            )
            &&& p1 == "off"@ && known ==> !now.null_printing && said(
                e.1,
                "Null printing turned "@ + "off"@,
            )
            &&& (says_on(p1) || p1 == "off"@) && !known ==> e.0 == s && said(
                e.1,
                "Only a known output language accepts the null printing option"@,
            )
            &&& e.0 == (OptionState {
                print: PrintState {
                    settings: PrintSettings { null_printing: now.null_printing, ..s.print.settings },
                    ..s.print
                },
                ..s
            })
            &&& toggle_refused(s, p1, e)
        }),
{
    lemma_on_and_off();
    law_language_is_the_first(s.print, s.print.name, 0);
}

/// The option decides on operators such as `+=`, where the language is a known one.
pub proof fn law_inplaceops_follows_its_word(
    s: OptionState,
    p1: Seq<char>,
    p2: Seq<char>,
    p3: Seq<char>,
)
    ensures
        ({
            let e = OptionInPlaceOps.effect(s, p1, p2, p3);
            let now = e.0.print.settings;
            let known = printable(s.print, s.print.name);
            &&& says_on(p1) && known ==> now.inplace_ops && said(
                e.1,
                "Inplace operators turned "@ + "on"@,
            )
            &&& p1 == "off"@ && known ==> !now.inplace_ops && said(
                e.1,
                "Inplace operators turned "@ + "off"@,
            )
            &&& (says_on(p1) || p1 == "off"@) && !known ==> e.0 == s && said(
                e.1,
                "Can only set inplace operators for a known output language"@,
            )
            &&& e.0 == (OptionState {
                print: PrintState {
                    settings: PrintSettings { inplace_ops: now.inplace_ops, ..s.print.settings },
                    ..s.print
                },
                ..s
            })
            &&& toggle_refused(s, p1, e)
        }),
{
    lemma_on_and_off();
    law_language_is_the_first(s.print, s.print.name, 0);
}

/// The option decides whether conventions are printed, where the language is a known one.
pub proof fn law_conventionprinting_follows_its_word(
    s: OptionState,
    p1: Seq<char>,
    p2: Seq<char>,
    p3: Seq<char>,
)
    ensures
        ({
            let e = OptionConventionPrinting.effect(s, p1, p2, p3);
            let now = e.0.print.settings;
            let known = printable(s.print, s.print.name);
            &&& says_on(p1) && known ==> now.convention_printing && said(
                e.1,
                "Convention printing turned "@ + "on"@,
            )
            &&& p1 == "off"@ && known ==> !now.convention_printing && said(
                e.1,
                "Convention printing turned "@ + "off"@,
            )
            &&& (says_on(p1) || p1 == "off"@) && !known ==> e.0 == s && said(
                e.1,
                "Can only set convention printing for a known output language"@,
            )
            &&& e.0 == (OptionState {
                print: PrintState {
                    settings: PrintSettings { convention_printing: now.convention_printing, ..s.print.settings },
                    ..s.print
                },
                ..s
            })
            &&& toggle_refused(s, p1, e)
        }),
{
    lemma_on_and_off();
    law_language_is_the_first(s.print, s.print.name, 0);
}

/// The option decides whether casts are left out, where the language is a known one.
pub proof fn law_nocastprinting_follows_its_word(
    s: OptionState,
    p1: Seq<char>,
    p2: Seq<char>,
    p3: Seq<char>,
)
    ensures
        ({
            let e = OptionNoCastPrinting.effect(s, p1, p2, p3);
            let now = e.0.print.settings;
            let known = printable(s.print, s.print.name);
            &&& says_on(p1) && known ==> now.no_cast_printing && said(
                e.1,
                "No cast printing turned "@ + "on"@,
            )
            &&& p1 == "off"@ && known ==> !now.no_cast_printing && said(
                e.1,
                "No cast printing turned "@ + "off"@,
            )
            &&& (says_on(p1) || p1 == "off"@) && !known ==> e.0 == s && said(
                e.1,
                "Can only set no cast printing for a known output language"@,
            )
            &&& e.0 == (OptionState {
                print: PrintState {
                    settings: PrintSettings { no_cast_printing: now.no_cast_printing, ..s.print.settings },
                    ..s.print
                },
                ..s
            })
            &&& toggle_refused(s, p1, e)
        }),
{
    lemma_on_and_off();
    law_language_is_the_first(s.print, s.print.name, 0);
}

/// The option decides whether implied extensions are hidden, where the language is known.
pub proof fn law_hideextensions_follows_its_word(
    s: OptionState,
    p1: Seq<char>,
    p2: Seq<char>,
    p3: Seq<char>,
)
    ensures
        ({
            let e = OptionHideExtensions.effect(s, p1, p2, p3);
            let now = e.0.print.settings;
            let known = printable(s.print, s.print.name);
            &&& says_on(p1) && known ==> now.hide_implied_exts && said(
                e.1,
                "Implied extension hiding turned "@ + "on"@,
            )
            &&& p1 == "off"@ && known ==> !now.hide_implied_exts && said(
                e.1,
                "Implied extension hiding turned "@ + "off"@,
            )
            &&& (says_on(p1) || p1 == "off"@) && !known ==> e.0 == s && said(
                e.1,
                "Can only toggle extension hiding for a known output language"@,
            )
            &&& e.0 == (OptionState {
                print: PrintState {
                    settings: PrintSettings { hide_implied_exts: now.hide_implied_exts, ..s.print.settings },
                    ..s.print
                },
                ..s
            })
            &&& toggle_refused(s, p1, e)
        }),
{
    lemma_on_and_off();
    law_language_is_the_first(s.print, s.print.name, 0);
}

/// The first global function of the name is marked: with no second word or `true` the mark is
/// set, with any other it is taken away. Nothing else of the table changes, and without such a
/// function the option is refused.
pub proof fn law_inline_marks_the_function(
    s: OptionState,
    p1: Seq<char>,
    p2: Seq<char>,
    p3: Seq<char>,
    k: int,
)
    requires
        is_first_function(s.symbols, p1, k) || no_function(s.symbols, p1),
    ensures
        ({
            let e = OptionInline.effect(s, p1, p2, p3);
            let t = s.symbols;
            let found = is_first_function(t, p1, k);
            let yes = p2.len() == 0 || p2 == "true"@;
            &&& found ==> {
                &&& e.0.symbols.functions.len() == t.functions.len()
                &&& yes ==> e.0.symbols.functions[k].inline && said(
                    e.1,
                    "Inline property for function "@ + p1 + " = "@ + "true"@,
                )
                &&& !yes ==> !e.0.symbols.functions[k].inline && said(
                    e.1,
                    "Inline property for function "@ + p1 + " = "@ + "false"@,
                )
                &&& e.0.symbols.functions[k] == (FunctionView {
                    inline: e.0.symbols.functions[k].inline,
                    ..t.functions[k]
                })
                &&& forall|j: int|
                    0 <= j < t.functions.len() && j != k ==> #[trigger] e.0.symbols.functions[j]
                        == t.functions[j]
            }
            &&& !found ==> e.0 == s && refused_with(
                e.1,
                ErrorKind::Recov,
                "Unknown function name: "@ + p1,
            )
            &&& e.0 == (OptionState {
                symbols: TableView { functions: e.0.symbols.functions, ..t },
                ..s
            })
        }),
{
    law_function_is_the_first(s.symbols, p1, 0);
}

/// The first global function of the name is marked: with no second word or `true` the mark is
/// set, with any other it is taken away. Nothing else of the table changes, and without such a
/// function the option is refused.
pub proof fn law_noreturn_marks_the_function(
    s: OptionState,
    p1: Seq<char>,
    p2: Seq<char>,
    p3: Seq<char>,
    k: int,
)
    requires
        is_first_function(s.symbols, p1, k) || no_function(s.symbols, p1),
    ensures
        ({
            let e = OptionNoReturn.effect(s, p1, p2, p3);
            let t = s.symbols;
            let found = is_first_function(t, p1, k);
            let yes = p2.len() == 0 || p2 == "true"@;
            &&& found ==> {
                &&& e.0.symbols.functions.len() == t.functions.len()
                &&& yes ==> e.0.symbols.functions[k].no_return && said(
                    e.1,
                    "No return property for function "@ + p1 + " = "@ + "true"@,
                )
                &&& !yes ==> !e.0.symbols.functions[k].no_return && said(
                    e.1,
                    "No return property for function "@ + p1 + " = "@ + "false"@,
                )
                &&& e.0.symbols.functions[k] == (FunctionView {
                    no_return: e.0.symbols.functions[k].no_return,
                    ..t.functions[k]
                })
                &&& forall|j: int|
                    0 <= j < t.functions.len() && j != k ==> #[trigger] e.0.symbols.functions[j]
                        == t.functions[j]
            }
            &&& !found ==> e.0 == s && refused_with(
                e.1,
                ErrorKind::Recov,
                "Unknown function name: "@ + p1,
            )
            &&& e.0 == (OptionState {
                symbols: TableView { functions: e.0.symbols.functions, ..t },
                ..s
            })
        }),
{
    law_function_is_the_first(s.symbols, p1, 0);
}

/// The number of this sign and magnitude, held to the range of a signed 32-bit integer.
pub open spec fn clamped(neg: bool, mag: nat) -> int {
    let v = if neg {
        -(mag as int)
    } else {
        mag as int
    };
    if v < -0x8000_0000 {
        -0x8000_0000
    } else if v > 0x7fff_ffff {
        0x7fff_ffff
    } else {
        v
    }
}

/// The number that an option value begins with, held to the range of its type; a value that
/// is blank stands for `missing`.
pub open spec fn number_in(p: Seq<char>, missing: int) -> int {
    match signed_field(p) {
        Some((neg, mag)) => clamped(neg, mag),
        None => missing,
    }
}

/// `extrapop` without a function sets the number, or the mark for an unknown one, on the
/// default model and on the model that prototypes are evaluated with; with a function it sets
/// it there. Blank values and the one number that stands for them are refused.
pub proof fn law_extrapop_sets_the_number(
    s: OptionState,
    p1: Seq<char>,
    p2: Seq<char>,
    p3: Seq<char>,
)
    ensures
        ({
            let e = OptionExtraPop.effect(s, p1, p2, p3);
            let unknown = p1 == "unknown"@;
            let n = if unknown {
                0x8000
            } else {
                number_in(p1, -300)
            };
            let g = s.models;
            let h = e.0.models;
            &&& n == -300 ==> e.0 == s && refused_with(
                e.1,
                ErrorKind::Parse,
                "Bad extrapop adjustment parameter"@,
            )
            &&& n != -300 && p2.len() == 0 ==> {
                &&& said(e.1, "Global extrapop set"@)
                &&& g.defaultfp matches Some(m) ==> {
                    let d = ModelView { extrapop: n as i32, ..m };
                    h.defaultfp == Some(d) && h.models.contains_pair(d.name, d)
                }
                &&& g.evalfp_current matches Some(m) ==> h.evalfp_current == Some(
                    ModelView { extrapop: n as i32, ..m },
                )
                &&& g.defaultfp is None ==> h.defaultfp is None
                &&& g.evalfp_current is None ==> h.evalfp_current is None
                &&& h.declared == g.declared
                &&& e.0 == (OptionState { models: h, ..s })
            }
            &&& n != -300 && p2.len() > 0 && s.function_extra_pops.contains_key(p2) ==> {
                &&& said(e.1, "ExtraPop set for function "@ + p2)
                &&& e.0 == (OptionState {
                    function_extra_pops: s.function_extra_pops.insert(p2, n as i32),
                    ..s
                })
            }
            &&& n != -300 && p2.len() > 0 && !s.function_extra_pops.contains_key(p2) ==> e.0 == s
                && refused_with(e.1, ErrorKind::Recov, "Unknown function name: "@ + p2)
        }),
{
    if let Some((neg, mag)) = signed_field(p1) {
        law_signed_reading_clamps(neg, mag);
    }
}

/// `defaultprototype` makes a registered model the default one, and refuses a name that is not
/// registered.
pub proof fn law_defaultprototype_selects(
    s: OptionState,
    p1: Seq<char>,
    p2: Seq<char>,
    p3: Seq<char>,
)
    ensures
        ({
            let e = OptionDefaultPrototype.effect(s, p1, p2, p3);
            let known = s.models.models.contains_key(p1);
            &&& known ==> e.0.models.defaultfp == Some(s.models.models[p1]) && said(
                e.1,
                "Set default prototype to "@ + p1,
            )
            &&& known ==> e.0.models.models == s.models.models && e.0.models.evalfp_current
                == s.models.evalfp_current
            &&& !known ==> e.0 == s && refused_with(
                e.1,
                ErrorKind::Lowlevel,
                "Unknown prototype model :"@ + p1,
            )
            &&& e.0 == (OptionState { models: e.0.models, ..s })
        }),
{
}

/// `protoeval` chooses the model that prototypes are evaluated with: the default one by that
/// word, a registered one by its name. Saying nothing and unknown names are refused.
pub proof fn law_protoeval_selects(s: OptionState, p1: Seq<char>, p2: Seq<char>, p3: Seq<char>)
    ensures
        ({
            let e = OptionProtoEval.effect(s, p1, p2, p3);
            let known = s.models.models.contains_key(p1);
            &&& p1.len() == 0 ==> e.0 == s && refused_with(
                e.1,
                ErrorKind::Parse,
                "Must specify prototype model"@,
            )
            &&& p1 == "default"@ ==> e.0.models.evalfp_current == s.models.defaultfp && said(
                e.1,
                "Set current evaluation to "@ + p1,
            )
            &&& p1.len() > 0 && p1 != "default"@ && known ==> e.0.models.evalfp_current == Some(
                s.models.models[p1],
            ) && said(e.1, "Set current evaluation to "@ + p1)
            &&& p1.len() > 0 && p1 != "default"@ && !known ==> e.0 == s && refused_with(
                e.1,
                ErrorKind::Parse,
                "Unknown prototype model: "@ + p1,
            )
            &&& e.0.models.models == s.models.models && e.0.models.defaultfp == s.models.defaultfp
            &&& e.0 == (OptionState { models: e.0.models, ..s })
        }),
{
    reveal_strlit("default");
}

/// Whether the current group has an action or rule of this path.
pub open spec fn in_current_group(s: OptionState, path: Seq<char>) -> bool {
    &&& s.actions.current is Some
    &&& s.actions.groups.contains_key(s.actions.current->0)
    &&& s.actions.groups[s.actions.current->0].contains_key(path)
}

/// Whether `after` is `s` but for one action or rule of the current group.
pub open spec fn one_rule_differs(s: OptionState, after: OptionState, path: Seq<char>) -> bool {
    let group = s.actions.current->0;
    &&& after.actions.current == s.actions.current
    &&& after.actions.toggles == s.actions.toggles
    &&& after.actions.groups.dom() =~= s.actions.groups.dom()
    &&& forall|g: Seq<char>| #[trigger]
        s.actions.groups.contains_key(g) && g != group ==> after.actions.groups[g]
            == s.actions.groups[g]
    &&& forall|q: Seq<char>| #[trigger]
        s.actions.groups[group].contains_key(q) && q != path ==> after.actions.groups[group][q]
            == s.actions.groups[group][q]
    &&& after.actions.groups[group].dom() =~= s.actions.groups[group].dom()
    &&& after == (OptionState { actions: after.actions, ..s })
}

/// `warning` decides whether an action or rule of the current group reports itself; one that
/// is not there is refused.
pub proof fn law_warning_follows_its_word(
    s: OptionState,
    p1: Seq<char>,
    p2: Seq<char>,
    p3: Seq<char>,
)
    ensures
        ({
            let e = OptionWarning.effect(s, p1, p2, p3);
            let group = s.actions.current->0;
            let was = s.actions.groups[group][p1];
            let now = e.0.actions.groups[group][p1];
            let word = says_on(p2) || p2 == "off"@;
            let found = in_current_group(s, p1);
            &&& p1.len() == 0 ==> e.0 == s && refused_with(
                e.1,
                ErrorKind::Parse,
                "No action/rule specified"@,
            )
            &&& p1.len() > 0 && says_on(p2) && found ==> now == (RuleState { warns: true, ..was })
                && said(e.1, "Warnings for "@ + p1 + " turned "@ + "on"@) && one_rule_differs(
                s,
                e.0,
                p1,
            )
            &&& p1.len() > 0 && p2 == "off"@ && found ==> now == (RuleState { warns: false, ..was })
                && said(e.1, "Warnings for "@ + p1 + " turned "@ + "off"@) && one_rule_differs(
                s,
                e.0,
                p1,
            )
            &&& p1.len() > 0 && word && !found ==> e.0 == s && refused_with(
                e.1,
                ErrorKind::Recov,
                "Bad action/rule specifier: "@ + p1,
            )
            &&& p1.len() > 0 ==> toggle_refused(s, p2, e)
        }),
{
    lemma_on_and_off();
}

/// `togglerule` decides whether a rule of the current group runs; the message says whether it
/// was found. Without a current group it is refused.
pub proof fn law_togglerule_follows_its_word(
    s: OptionState,
    p1: Seq<char>,
    p2: Seq<char>,
    p3: Seq<char>,
)
    ensures
        ({
            let e = OptionToggleRule.effect(s, p1, p2, p3);
            let group = s.actions.current->0;
            let was = s.actions.groups[group][p1];
            let now = e.0.actions.groups[group][p1];
            let ready = s.actions.current is Some && s.actions.groups.contains_key(group);
            let found = in_current_group(s, p1);
            let both = p1.len() > 0 && p2.len() > 0;
            &&& p1.len() == 0 ==> e.0 == s && refused_with(
                e.1,
                ErrorKind::Parse,
                "Must specify rule path"@,
            )
            &&& p1.len() > 0 && p2.len() == 0 ==> e.0 == s && refused_with(
                e.1,
                ErrorKind::Parse,
                "Must specify on/off"@,
            )
            &&& both && (p2 == "on"@ || p2 == "off"@) && !ready ==> e.0 == s && refused_with(
                e.1,
                ErrorKind::Lowlevel,
                "Missing current action"@,
            )
            &&& both && p2 == "on"@ && found ==> now == (RuleState { enabled: true, ..was }) && said(
                e.1,
                "Successfully enabled rule"@,
            ) && one_rule_differs(s, e.0, p1)
            &&& both && p2 == "off"@ && found ==> now == (RuleState { enabled: false, ..was })
                && said(e.1, "Successfully disabled rule"@) && one_rule_differs(s, e.0, p1)
            &&& both && p2 == "on"@ && ready && !found ==> e.0 == s && said(
                e.1,
                "Failed to enable rule"@,
            )
            &&& both && p2 == "off"@ && ready && !found ==> e.0 == s && said(
                e.1,
                "Failed to disable rule"@,
            )
            &&& both ==> toggle_refused(s, p2, e)
        }),
{
    lemma_on_and_off();
}

/// `nanignore` by its words: none, those in comparisons, all. The rule that replaces the tests
/// runs where any are replaced.
pub proof fn law_nanignore_follows_its_word(
    s: OptionState,
    p1: Seq<char>,
    p2: Seq<char>,
    p3: Seq<char>,
)
    ensures
        ({
            let e = OptionNanIgnore.effect(s, p1, p2, p3);
            let rule = "ignorenan"@;
            let group = s.actions.current->0;
            let known = p1 == "none"@ || p1 == "compare"@ || p1 == "all"@;
            &&& p1 == "none"@ ==> !e.0.nan_ignore_all && !e.0.nan_ignore_compare
            &&& p1 == "compare"@ ==> !e.0.nan_ignore_all && e.0.nan_ignore_compare
            &&& p1 == "all"@ ==> e.0.nan_ignore_all && e.0.nan_ignore_compare
            &&& known && in_current_group(s, rule) ==> {
                &&& e.0.actions.groups[group][rule].enabled == (p1 != "none"@)
                &&& e.0.actions.groups[group][rule].warns
                    == s.actions.groups[group][rule].warns
            }
            &&& known && !in_current_group(s, rule) ==> e.0.actions == s.actions
            &&& known ==> e.0 == (OptionState {
                nan_ignore_all: e.0.nan_ignore_all,
                nan_ignore_compare: e.0.nan_ignore_compare,
                actions: e.0.actions,
                ..s
            })
            &&& known && e.0.nan_ignore_all == s.nan_ignore_all && e.0.nan_ignore_compare
                == s.nan_ignore_compare ==> said(e.1, "NaN ignore configuration unchanged"@)
            &&& known && (e.0.nan_ignore_all != s.nan_ignore_all || e.0.nan_ignore_compare
                != s.nan_ignore_compare) ==> said(
                e.1,
                "Nan ignore configuration set to: "@ + p1,
            )
            &&& !known ==> e.0 == s && refused_with(
                e.1,
                ErrorKind::Lowlevel,
                "Unknown nanignore option: "@ + p1,
            )
        }),
{
    reveal_strlit("none");
    reveal_strlit("compare");
    reveal_strlit("all");
    assert("none"@.len() == 4 && "compare"@.len() == 7 && "all"@.len() == 3);
}

/// A number that the printer is given is the number that the value begins with; blank values
/// and minus one are refused.
pub proof fn law_printer_numbers_are_read(
    s: OptionState,
    p1: Seq<char>,
    p2: Seq<char>,
    p3: Seq<char>,
)
    ensures
        ({
            let n = number_in(p1, -1);
            let w = OptionMaxLineWidth.effect(s, p1, p2, p3);
            let i = OptionIndentIncrement.effect(s, p1, p2, p3);
            let c = OptionCommentIndent.effect(s, p1, p2, p3);
            &&& n != -1 ==> w.0 == (OptionState {
                print: PrintState { max_line_size: Some(n as i32), ..s.print },
                ..s
            }) && said(w.1, "Maximum line width set to "@ + p1)
            &&& n != -1 ==> i.0 == (OptionState {
                print: PrintState {
                    settings: PrintSettings { indent_increment: n as i32, ..s.print.settings },
                    ..s.print
                },
                ..s
            }) && said(i.1, "Characters per indent level set to "@ + p1)
            &&& n != -1 ==> c.0 == (OptionState {
                print: PrintState {
                    settings: PrintSettings { comment_indent: n as i32, ..s.print.settings },
                    ..s.print
                },
                ..s
            }) && said(c.1, "Comment indent set to "@ + p1)
            &&& n == -1 ==> w.0 == s && i.0 == s && c.0 == s && refused_with(
                w.1,
                ErrorKind::Parse,
                "Must specify integer linewidth"@,
            ) && refused_with(i.1, ErrorKind::Parse, "Must specify integer increment"@)
                && refused_with(c.1, ErrorKind::Parse, "Must specify integer comment indent"@)
        }),
{
    if let Some((neg, mag)) = signed_field(p1) {
        law_signed_reading_clamps(neg, mag);
    }
}

/// The most instructions are the number that the value begins with; blank and negative values
/// are refused.
pub proof fn law_maxinstruction_is_read(s: OptionState, p1: Seq<char>, p2: Seq<char>, p3: Seq<char>)
    ensures
        ({
            let e = OptionMaxInstruction.effect(s, p1, p2, p3);
            let n = number_in(p1, -1);
            &&& p1.len() == 0 ==> e.0 == s && refused_with(
                e.1,
                ErrorKind::Parse,
                "Must specify number of instructions"@,
            )
            &&& p1.len() > 0 && n < 0 ==> e.0 == s && refused_with(
                e.1,
                ErrorKind::Parse,
                "Bad maxinstruction parameter"@,
            )
            &&& p1.len() > 0 && n >= 0 ==> e.0 == (OptionState { max_instructions: n as u32, ..s })
                && said(e.1, "Maximum instructions per function set"@)
        }),
{
    if let Some((neg, mag)) = signed_field(p1) {
        law_signed_reading_clamps(neg, mag);
    }
}

/// The most entries of a jump table are the number that the value begins with: taken modulo
/// two to the thirty-second where it has a minus sign, held to the range where it is too
/// large. Zero and blank values are refused.
pub proof fn law_jumptablemax_is_read(s: OptionState, p1: Seq<char>, p2: Seq<char>, p3: Seq<char>)
    ensures
        ({
            let e = OptionJumpTableMax.effect(s, p1, p2, p3);
            let n: int = match signed_field(p1) {
                None => 0,
                Some((neg, mag)) => if mag > 0xffff_ffff {
                    0xffff_ffff
                } else if neg && mag > 0 {
                    0x1_0000_0000 - mag
                } else {
                    mag as int
                },
            };
            &&& n == 0 ==> e.0 == s && refused_with(
                e.1,
                ErrorKind::Parse,
                "Must specify integer maximum"@,
            )
            &&& n != 0 ==> e.0 == (OptionState { max_jumptable_size: n as u32, ..s }) && said(
                e.1,
                "Maximum jumptable size set to "@ + p1,
            )
        }),
{
}

/// Comment style and integer format are noted down as they are given.
pub proof fn law_printer_texts_are_kept(s: OptionState, p1: Seq<char>, p2: Seq<char>, p3: Seq<char>)
    ensures
        ({
            let c = OptionCommentStyle.effect(s, p1, p2, p3);
            let i = OptionIntegerFormat.effect(s, p1, p2, p3);
            &&& c.0 == (OptionState {
                print: PrintState { comment_style: Some(p1), ..s.print },
                ..s
            })
            &&& said(c.1, "Comment style set to "@ + p1)
            &&& i.0 == (OptionState { print: PrintState { integer_format: p1, ..s.print }, ..s })
            &&& said(i.1, "Integer format set to "@ + p1)
        }),
{
}

/// The bit of a comment type, by its name.
pub open spec fn bit_named(name: Seq<char>, bit: u32) -> bool {
    ||| name == "user1"@ && bit == 1
    ||| name == "user2"@ && bit == 2
    ||| name == "user3"@ && bit == 4
    ||| name == "header"@ && bit == 8
    ||| name == "warning"@ && bit == 16
    ||| name == "warningheader"@ && bit == 32
}

/// Whether no comment type has this name.
pub open spec fn no_comment_type(name: Seq<char>) -> bool {
    name != "user1"@ && name != "user2"@ && name != "user3"@ && name != "header"@ && name
        != "warning"@ && name != "warningheader"@
}

proof fn lemma_comment_type(name: Seq<char>, bit: u32)
    ensures
        bit_named(name, bit) ==> crate::options::comment_type(name) == Ok::<u32, Failure>(bit),
        no_comment_type(name) ==> (crate::options::comment_type(name) matches Err(f) && f.kind
            == ErrorKind::Lowlevel && f.text == "Unknown comment type: "@ + name),
{
    reveal_strlit("user1");
    reveal_strlit("user2");
    reveal_strlit("user3");
    reveal_strlit("header");
    reveal_strlit("warning");
    reveal_strlit("warningheader");
    assert("user1"@.len() == 5 && "user2"@.len() == 5 && "user3"@.len() == 5 && "header"@.len() == 6
        && "warning"@.len() == 7 && "warningheader"@.len() == 13);
    assert("user1"@[4] == '1' && "user2"@[4] == '2' && "user3"@[4] == '3');
}

/// The two comment options decide one bit each of their own set: the bit of the comment type
/// that is named. Other bits, and the other set, stay.
pub proof fn law_comment_types_are_switched(
    s: OptionState,
    p1: Seq<char>,
    p2: Seq<char>,
    p3: Seq<char>,
    bit: u32,
)
    ensures
        ({
            let h = OptionCommentHeader.effect(s, p1, p2, p3);
            let i = OptionCommentInstruction.effect(s, p1, p2, p3);
            let hb = h.0.print.settings.header_comment;
            let ib = i.0.print.settings.instruction_comment;
            let was = s.print.settings;
            let word = says_on(p2) || p2 == "off"@;
            &&& bit_named(p1, bit) && says_on(p2) ==> hb & bit == bit && ib & bit == bit && said(
                h.1,
                "Header comment type "@ + p1 + " turned "@ + "on"@,
            ) && said(i.1, "Instruction comment type "@ + p1 + " turned "@ + "on"@)
            &&& bit_named(p1, bit) && p2 == "off"@ ==> hb & bit == 0 && ib & bit == 0 && said(
                h.1,
                "Header comment type "@ + p1 + " turned "@ + "off"@,
            ) && said(i.1, "Instruction comment type "@ + p1 + " turned "@ + "off"@)
            &&& bit_named(p1, bit) ==> hb & !bit == was.header_comment & !bit && ib & !bit
                == was.instruction_comment & !bit
            &&& no_comment_type(p1) && word ==> h.0 == s && i.0 == s && refused_with(
                h.1,
                ErrorKind::Lowlevel,
                "Unknown comment type: "@ + p1,
            ) && refused_with(i.1, ErrorKind::Lowlevel, "Unknown comment type: "@ + p1)
            &&& toggle_refused(s, p2, h) && toggle_refused(s, p2, i)
            &&& h.0 == (OptionState {
                print: PrintState {
                    settings: PrintSettings { header_comment: hb, ..was },
                    ..s.print
                },
                ..s
            })
            &&& i.0 == (OptionState {
                print: PrintState {
                    settings: PrintSettings { instruction_comment: ib, ..was },
                    ..s.print
                },
                ..s
            })
        }),
{
    lemma_on_and_off();
    lemma_comment_type(p1, bit);
    let a = s.print.settings.header_comment;
    let b = s.print.settings.instruction_comment;
    assert((a | bit) & bit == bit && (a & !bit) & bit == 0 && (a | bit) & !bit == a & !bit && (a
        & !bit) & !bit == a & !bit) by (bit_vector);
    assert((b | bit) & bit == bit && (b & !bit) & bit == 0 && (b | bit) & !bit == b & !bit && (b
        & !bit) & !bit == b & !bit) by (bit_vector);
}

proof fn lemma_namespace_words()
    ensures
        "minimal"@ != "all"@ && "minimal"@ != "none"@ && "all"@ != "none"@,
{
    reveal_strlit("minimal");
    reveal_strlit("all");
    reveal_strlit("none");
    assert("minimal"@.len() == 7 && "all"@.len() == 3 && "none"@.len() == 4);
}

/// `namespacestrategy` by its words: just enough, all, nothing. Other words are refused.
pub proof fn law_namespaces_follow_their_word(
    s: OptionState,
    p1: Seq<char>,
    p2: Seq<char>,
    p3: Seq<char>,
)
    ensures
        ({
            let e = OptionNamespaceStrategy.effect(s, p1, p2, p3);
            let now = e.0.print.settings.namespaces;
            let known = p1 == "minimal"@ || p1 == "all"@ || p1 == "none"@;
            &&& p1 == "minimal"@ ==> now == NamespaceStrategy::Minimal
            &&& p1 == "all"@ ==> now == NamespaceStrategy::All
            &&& p1 == "none"@ ==> now == NamespaceStrategy::Never
            &&& known ==> said(e.1, "Namespace strategy set"@)
            &&& !known ==> e.0 == s && refused_with(
                e.1,
                ErrorKind::Parse,
                "Must specify a valid strategy"@,
            )
            &&& e.0 == (OptionState {
                print: PrintState {
                    settings: PrintSettings { namespaces: now, ..s.print.settings },
                    ..s.print
                },
                ..s
            })
        }),
{
    lemma_namespace_words();
    if p1 == "minimal"@ {
    } else if p1 == "all"@ {
    } else if p1 == "none"@ {
    } else {
    }
}

/// `aliasblock` by its words, and the message tells whether the level changed.
pub proof fn law_aliasblock_follows_its_word(
    s: OptionState,
    p1: Seq<char>,
    p2: Seq<char>,
    p3: Seq<char>,
)
    ensures
        ({
            let e = OptionAliasBlock.effect(s, p1, p2, p3);
            let now = e.0.alias_block_level;
            let known = p1 == "none"@ || p1 == "struct"@ || p1 == "array"@ || p1 == "all"@;
            &&& p1 == "none"@ ==> now == 0
            &&& p1 == "struct"@ ==> now == 1
            &&& p1 == "array"@ ==> now == 2
            &&& p1 == "all"@ ==> now == 3
            &&& known && now == s.alias_block_level ==> said(e.1, "Alias block level unchanged"@)
            &&& known && now != s.alias_block_level ==> said(
                e.1,
                "Alias block level set to "@ + p1,
            )
            &&& p1.len() == 0 ==> e.0 == s && refused_with(
                e.1,
                ErrorKind::Parse,
                "Must specify alias block level"@,
            )
            &&& p1.len() > 0 && !known ==> e.0 == s && refused_with(
                e.1,
                ErrorKind::Parse,
                "Unknown alias block level: "@ + p1,
            )
            &&& e.0 == (OptionState { alias_block_level: now, ..s })
        }),
{
    reveal_strlit("none");
    reveal_strlit("struct");
    reveal_strlit("array");
    reveal_strlit("all");
    assert("none"@.len() == 4 && "struct"@.len() == 6 && "array"@.len() == 5 && "all"@.len() == 3);
}

/// `setlanguage` prints the first language of the name, by the name that the printer gives it;
/// a language that cannot be printed is refused.
pub proof fn law_setlanguage_selects(
    s: OptionState,
    p1: Seq<char>,
    p2: Seq<char>,
    p3: Seq<char>,
    k: int,
)
    requires
        is_first_language(s.print, p1, k) || !printable(s.print, p1),
    ensures
        ({
            let e = OptionSetLanguage.effect(s, p1, p2, p3);
            let name = s.print.languages[k].print_name@;
            &&& is_first_language(s.print, p1, k) ==> e.0 == (OptionState {
                print: PrintState { name, ..s.print },
                ..s
            }) && said(e.1, "Decompiler produces "@ + name)
            &&& !printable(s.print, p1) ==> e.0 == s && refused_with(
                e.1,
                ErrorKind::Parse,
                "Unknown print language: "@ + p1,
            )
        }),
{
    law_language_is_the_first(s.print, p1, 0);
}

proof fn lemma_brace_words(kind: Seq<char>, word: Seq<char>, style: BraceStyle)
    ensures
        ({
            let named = word == "same"@ && style == BraceStyle::SameLine || word == "next"@ && style
                == BraceStyle::NextLine || word == "skip"@ && style == BraceStyle::SkipLine;
            &&& named ==> crate::options::brace_style(word) == Some(style)
            &&& word != "same"@ && word != "next"@ && word != "skip"@
                ==> crate::options::brace_style(word) is None
        }),
        kind == "function"@ ==> crate::options::brace_category(kind) == Some(
            BraceCategory::Function,
        ),
        kind == "ifelse"@ ==> crate::options::brace_category(kind) == Some(BraceCategory::IfElse),
        kind == "loop"@ ==> crate::options::brace_category(kind) == Some(BraceCategory::Loop),
        kind == "switch"@ ==> crate::options::brace_category(kind) == Some(BraceCategory::Switch),
        kind != "function"@ && kind != "ifelse"@ && kind != "loop"@ && kind != "switch"@
            ==> crate::options::brace_category(kind) is None,
        "function"@ != "ifelse"@ && "function"@ != "loop"@ && "function"@ != "switch"@ && "ifelse"@
            != "loop"@ && "ifelse"@ != "switch"@ && "loop"@ != "switch"@,
{
    reveal_strlit("same");
    reveal_strlit("next");
    reveal_strlit("skip");
    reveal_strlit("function");
    reveal_strlit("ifelse");
    reveal_strlit("loop");
    reveal_strlit("switch");
    assert("same"@[1] == 'a' && "next"@[1] == 'e' && "skip"@[1] == 'k');
    assert("function"@.len() == 8 && "ifelse"@[0] == 'i' && "loop"@.len() == 4 && "switch"@[0]
        == 's' && "ifelse"@.len() == 6 && "switch"@.len() == 6);
}

/// `braceformat` sets the style of one kind of block, and the others keep theirs; unknown
/// styles and kinds are refused, the style first. An unknown language takes no braces.
pub proof fn law_braceformat_follows_its_words(
    s: OptionState,
    p1: Seq<char>,
    p2: Seq<char>,
    p3: Seq<char>,
    style: BraceStyle,
)
    ensures
        ({
            let e = OptionBraceFormat.effect(s, p1, p2, p3);
            let was = s.print.settings;
            let now = e.0.print.settings;
            let known = printable(s.print, s.print.name);
            let named = p2 == "same"@ && style == BraceStyle::SameLine || p2 == "next"@ && style
                == BraceStyle::NextLine || p2 == "skip"@ && style == BraceStyle::SkipLine;
            let no_style = p2 != "same"@ && p2 != "next"@ && p2 != "skip"@;
            let kind = p1 == "function"@ || p1 == "ifelse"@ || p1 == "loop"@ || p1 == "switch"@;
            &&& known && named && kind ==> said(
                e.1,
                "Brace formatting for "@ + p1 + " set to "@ + p2,
            )
            &&& known && named && p1 == "function"@ ==> now == (PrintSettings {
                brace_function: style,
                ..was
            })
            &&& known && named && p1 == "ifelse"@ ==> now == (PrintSettings {
                brace_ifelse: style,
                ..was
            })
            &&& known && named && p1 == "loop"@ ==> now == (PrintSettings {
                brace_loop: style,
                ..was
            })
            &&& known && named && p1 == "switch"@ ==> now == (PrintSettings {
                brace_switch: style,
                ..was
            })
            &&& known && no_style ==> e.0 == s && refused_with(
                e.1,
                ErrorKind::Parse,
                "Unknown brace style: "@ + p2,
            )
            &&& known && named && !kind ==> e.0 == s && refused_with(
                e.1,
                ErrorKind::Parse,
                "Unknown brace format category: "@ + p1,
            )
            &&& !known ==> e.0 == s && said(
                e.1,
                "Can only set brace formatting for a known output language"@,
            )
            &&& e.0 == (OptionState { print: PrintState { settings: now, ..s.print }, ..s })
        }),
{
    lemma_brace_words(p1, p2, style);
    law_language_is_the_first(s.print, s.print.name, 0);
}

/// `setaction` makes a group current; with a second name it first copies the group under that
/// name, with all its rules, and makes the copy current. An unknown group is passed over.
pub proof fn law_setaction_selects(s: OptionState, p1: Seq<char>, p2: Seq<char>, p3: Seq<char>)
    ensures
        ({
            let e = OptionSetAction.effect(s, p1, p2, p3);
            let was = s.actions;
            let now = e.0.actions;
            let known = was.groups.contains_key(p1);
            &&& p1.len() == 0 ==> e.0 == s && refused_with(
                e.1,
                ErrorKind::Parse,
                "Must specify preexisting action"@,
            )
            &&& p1.len() > 0 && p2.len() == 0 ==> {
                &&& said(e.1, "Set current action to "@ + p1)
                &&& known ==> now.current == Some(p1)
                &&& !known ==> now.current == was.current
                &&& now.groups == was.groups
            }
            &&& p1.len() > 0 && p2.len() > 0 ==> {
                &&& said(e.1, "Created "@ + p2 + " by cloning "@ + p1 + " and made it current"@)
                &&& known ==> now.current == Some(p2) && now.groups == was.groups.insert(
                    p2,
                    was.groups[p1],
                )
                &&& !known ==> now.groups == was.groups
                &&& !known && was.groups.contains_key(p2) ==> now.current == Some(p2)
                &&& !known && !was.groups.contains_key(p2) ==> now.current == was.current
            }
            &&& now.toggles == was.toggles
            &&& e.0 == (OptionState { actions: now, ..s })
        }),
{
}

/// `currentaction` switches a sub-group: with three words in the group that is named, which
/// becomes current where it is known, with two in the group that is current.
pub proof fn law_currentaction_switches(s: OptionState, p1: Seq<char>, p2: Seq<char>, p3: Seq<char>)
    ensures
        ({
            let e = OptionCurrentAction.effect(s, p1, p2, p3);
            let was = s.actions;
            let now = e.0.actions;
            let three = p1.len() > 0 && p2.len() > 0 && p3.len() > 0;
            let two = p1.len() > 0 && p2.len() > 0 && p3.len() == 0;
            let cur = match was.current {
                Some(n) => n,
                None => seq![],
            };
            &&& p1.len() == 0 || p2.len() == 0 ==> e.0 == s && refused_with(
                e.1,
                ErrorKind::Parse,
                "Must specify subaction, on/off"@,
            )
            &&& three ==> now.current == if was.groups.contains_key(p1) {
                Some(p1)
            } else {
                was.current
            }
            &&& three && (p3 == "on"@ || p3 == "off"@) ==> {
                &&& said(e.1, "Toggled "@ + p2 + " in action "@ + p1)
                &&& now.toggles.len() == was.toggles.len() + 1
                &&& now.toggles.drop_last() == was.toggles
                &&& now.toggles.last().group == p1 && now.toggles.last().sub == p2
                &&& now.toggles.last().on == (p3 == "on"@)
            }
            &&& three && p3 != "on"@ && p3 != "off"@ ==> now.toggles == was.toggles && refused_with(
                e.1,
                ErrorKind::Parse,
                "Must specify toggle value, on/off"@,
            )
            &&& two ==> now.current == was.current
            &&& two && (p2 == "on"@ || p2 == "off"@) ==> {
                &&& said(e.1, "Toggled "@ + p1 + " in action "@ + cur)
                &&& now.toggles.len() == was.toggles.len() + 1
                &&& now.toggles.drop_last() == was.toggles
                &&& now.toggles.last().group == cur && now.toggles.last().sub == p1
                &&& now.toggles.last().on == (p2 == "on"@)
            }
            &&& two ==> toggle_refused(s, p2, e)
            &&& now.groups == was.groups
            &&& e.0 == (OptionState { actions: now, ..s })
        }),
{
    lemma_on_and_off();
    let e = OptionCurrentAction.effect(s, p1, p2, p3);
    let now = e.0.actions;
    if now.toggles.len() > s.actions.toggles.len() {
        assert(now.toggles.drop_last() =~= s.actions.toggles);
    }
}

/// The bit of a kind of splitting, by its name; no name stands for no bit.
pub open spec fn split_named(word: Seq<char>, bit: u32) -> bool {
    ||| word.len() == 0 && bit == 0
    ||| word == "struct"@ && bit == 1
    ||| word == "array"@ && bit == 2
    ||| word == "pointer"@ && bit == 4
}

/// Whether the word names no kind of splitting.
pub open spec fn no_split(word: Seq<char>) -> bool {
    word.len() > 0 && word != "struct"@ && word != "array"@ && word != "pointer"@
}

proof fn lemma_split_bit(word: Seq<char>, bit: u32)
    ensures
        split_named(word, bit) ==> crate::options::split_bit(word) == Ok::<u32, Failure>(bit),
        no_split(word) ==> (crate::options::split_bit(word) matches Err(f) && f.kind
            == ErrorKind::Lowlevel && f.text == "Unknown data-type split option: "@ + word),
{
    reveal_strlit("struct");
    reveal_strlit("array");
    reveal_strlit("pointer");
    assert("struct"@.len() == 6 && "array"@.len() == 5 && "pointer"@.len() == 7);
}

/// `splitdatatype` splits what its three words name, in whatever order they come. Copies are
/// split where structures or arrays are, loads and stores where pointers are too; both are
/// switched in the current group. The first word that names nothing is refused.
pub proof fn law_splitdatatype_follows_its_words(
    s: OptionState,
    p1: Seq<char>,
    p2: Seq<char>,
    p3: Seq<char>,
    a: u32,
    b: u32,
    c: u32,
)
    ensures
        ({
            let e = OptionSplitDatatypes.effect(s, p1, p2, p3);
            let all = split_named(p1, a) && split_named(p2, b) && split_named(p3, c);
            let bits = a | b | c;
            let was = s.actions.toggles;
            let now = e.0.actions.toggles;
            let n = was.len() as int;
            let cur = match s.actions.current {
                Some(g) => g,
                None => seq![],
            };
            let values = a == 1 || a == 2 || b == 1 || b == 2 || c == 1 || c == 2;
            let pointers = a == 4 || b == 4 || c == 4;
            &&& all ==> {
                &&& e.0.split_datatype_config == bits
                &&& now.len() == n + 2
                &&& now.take(n) == was
                &&& now[n].group == cur && now[n].sub == "splitcopy"@ && now[n].on == values
                &&& now[n + 1].group == cur && now[n + 1].sub == "splitpointer"@ && now[n + 1].on
                    == (values && pointers)
                &&& e.0.actions.groups == s.actions.groups && e.0.actions.current
                    == s.actions.current
            }
            &&& all && bits == s.split_datatype_config ==> said(
                e.1,
                "Split data-type configuration unchanged"@,
            )
            &&& all && bits != s.split_datatype_config ==> said(
                e.1,
                "Split data-type configuration set"@,
            )
            &&& no_split(p1) ==> e.0 == s && refused_with(
                e.1,
                ErrorKind::Lowlevel,
                "Unknown data-type split option: "@ + p1,
            )
            &&& split_named(p1, a) && no_split(p2) ==> e.0 == s && refused_with(
                e.1,
                ErrorKind::Lowlevel,
                "Unknown data-type split option: "@ + p2,
            )
            &&& split_named(p1, a) && split_named(p2, b) && no_split(p3) ==> e.0 == s
                && refused_with(
                e.1,
                ErrorKind::Lowlevel,
                "Unknown data-type split option: "@ + p3,
            )
            &&& e.0 == (OptionState {
                split_datatype_config: e.0.split_datatype_config,
                actions: e.0.actions,
                ..s
            })
        }),
{
    lemma_split_bit(p1, a);
    lemma_split_bit(p2, b);
    lemma_split_bit(p3, c);
    if split_named(p1, a) && split_named(p2, b) && split_named(p3, c) {
        let e = OptionSplitDatatypes.effect(s, p1, p2, p3);
        assert(e.0.actions.toggles.take(s.actions.toggles.len() as int) =~= s.actions.toggles);
        assert((a == 0 || a == 1 || a == 2 || a == 4) && (b == 0 || b == 1 || b == 2 || b == 4) && (
        c == 0 || c == 1 || c == 2 || c == 4));
        assert(((a | b | c) & 3 != 0) == (a == 1 || a == 2 || b == 1 || b == 2 || c == 1 || c == 2)
            && ((a | b | c) & 4 != 0) == (a == 4 || b == 4 || c == 4)) by (bit_vector)
            requires
                a == 0 || a == 1 || a == 2 || a == 4,
                b == 0 || b == 1 || b == 2 || b == 4,
                c == 0 || c == 1 || c == 2 || c == 4,
        ;
        assert(1u32 | 2u32 == 3u32) by (bit_vector);
    }
}

} // verus!
