//! What options read and write: the part of an architecture that an option acts on.

use vstd::prelude::*;
use crate::actions::{
    clone_effect, current_name, current_rules, enable_effect, select_effect, toggle_effect,
    warning_effect, ActionState,
};
use crate::error::{outcome, Failure, KunaError};
use crate::printer::{
    language_from, with_brace, BraceCategory, BraceStyle, NamespaceStrategy, PrintSettings,
    PrintState,
};
use crate::proto::{default_effect, eval_effect, with_extra_pop, RegistryView};
use crate::symbols::{global_function, unknown_function, with_function, FunctionView, TableView};

verus! {

/// Everything that an option can read or write.
#[verifier::ext_equal]
pub struct OptionState {
    pub readonly_propagate: bool,
    pub infer_pointers: bool,
    pub analyze_for_loops: bool,
    pub max_jumptable_size: u32,
    pub max_instructions: u32,
    pub alias_block_level: i32,
    pub flow_options: u32,
    pub split_datatype_config: u32,
    pub nan_ignore_all: bool,
    pub nan_ignore_compare: bool,
    pub models: RegistryView,
    pub symbols: TableView,
    /// The functions whose own `extrapop` can be set, with its value.
    pub function_extra_pops: Map<Seq<char>, i32>,
    pub print: PrintState,
    pub actions: ActionState,
    pub context_set_allowed: bool,
}

/// The state after a global function was marked; the mark is made by `change`.
pub open spec fn function_effect(
    s: OptionState,
    name: Seq<char>,
    change: spec_fn(FunctionView) -> FunctionView,
) -> (OptionState, Result<(), Failure>) {
    match global_function(s.symbols, name) {
        Some(i) => (
            OptionState {
                symbols: with_function(s.symbols, i, change(s.symbols.functions[i])),
                ..s
            },
            Ok(()),
        ),
        None => (s, Err(unknown_function(name))),
    }
}

/// The state after a function's own `extrapop` was set.
pub open spec fn function_extra_pop_effect(s: OptionState, name: Seq<char>, expop: i32) -> (
    OptionState,
    Result<(), Failure>,
) {
    if s.function_extra_pops.contains_key(name) {
        (
            OptionState { function_extra_pops: s.function_extra_pops.insert(name, expop), ..s },
            Ok(()),
        )
    } else {
        (s, Err(unknown_function(name)))
    }
}

/// The state with changed printer settings.
pub open spec fn with_print_settings(s: OptionState, settings: PrintSettings) -> OptionState {
    OptionState { print: PrintState { settings, ..s.print }, ..s }
}

/// Whether the active language is one that can be printed.
pub open spec fn language_known(s: OptionState) -> bool {
    language_from(s.print.languages, s.print.name, 0) is Some
}

/// What options act on.
pub trait ArchOptionContext: Sized {
    /// What an option can read or write, as a value.
    spec fn state(&self) -> OptionState;

    /// What holds the rest.
    type Rest;

    /// The rest, which no option reads or writes.
    spec fn rest(&self) -> Self::Rest;

    /// Whether the parts agree with each other.
    spec fn wf(&self) -> bool;

    /// Whether read-only memory is propagated as constants.
    fn set_readonly_propagate(&mut self, val: bool)
        requires
            old(self).wf(),
        ensures
            final(self).wf(),
            final(self).rest() == old(self).rest(),
            final(self).state() == (OptionState { readonly_propagate: val, ..old(self).state() }),
    ;

    /// Whether constants are taken for pointers.
    fn set_infer_pointers(&mut self, val: bool)
        requires
            old(self).wf(),
        ensures
            final(self).wf(),
            final(self).rest() == old(self).rest(),
            final(self).state() == (OptionState { infer_pointers: val, ..old(self).state() }),
    ;

    /// Whether `for` loops are recovered.
    fn set_analyze_for_loops(&mut self, val: bool)
        requires
            old(self).wf(),
        ensures
            final(self).wf(),
            final(self).rest() == old(self).rest(),
            final(self).state() == (OptionState { analyze_for_loops: val, ..old(self).state() }),
    ;

    /// The most entries of a jump table.
    fn set_max_jumptable_size(&mut self, val: u32)
        requires
            old(self).wf(),
        ensures
            final(self).wf(),
            final(self).rest() == old(self).rest(),
            final(self).state() == (OptionState { max_jumptable_size: val, ..old(self).state() }),
    ;

    /// The most instructions of a function.
    fn set_max_instructions(&mut self, val: i32)
        requires
            old(self).wf(),
        ensures
            final(self).wf(),
            final(self).rest() == old(self).rest(),
            final(self).state() == (OptionState {
                max_instructions: val as u32,
                ..old(self).state()
            }),
    ;

    /// Which data-types on the stack block aliases.
    fn alias_block_level(&self) -> (r: i32)
        ensures
            r == self.state().alias_block_level,
    ;

    /// Set which data-types on the stack block aliases.
    fn set_alias_block_level(&mut self, val: i32)
        requires
            old(self).wf(),
        ensures
            final(self).wf(),
            final(self).rest() == old(self).rest(),
            final(self).state() == (OptionState { alias_block_level: val, ..old(self).state() }),
    ;

    /// The bits that steer how flow is followed.
    fn flow_options(&self) -> (r: u32)
        ensures
            r == self.state().flow_options,
    ;

    /// Set the bits that steer how flow is followed.
    fn set_flow_options(&mut self, val: u32)
        requires
            old(self).wf(),
        ensures
            final(self).wf(),
            final(self).rest() == old(self).rest(),
            final(self).state() == (OptionState { flow_options: val, ..old(self).state() }),
    ;

    /// The bits that steer how data-types are split.
    fn split_datatype_config(&self) -> (r: u32)
        ensures
            r == self.state().split_datatype_config,
    ;

    /// Set the bits that steer how data-types are split.
    fn set_split_datatype_config(&mut self, val: u32)
        requires
            old(self).wf(),
        ensures
            final(self).wf(),
            final(self).rest() == old(self).rest(),
            final(self).state() == (OptionState {
                split_datatype_config: val,
                ..old(self).state()
            }),
    ;

    /// Whether every NaN test is replaced.
    fn nan_ignore_all(&self) -> (r: bool)
        ensures
            r == self.state().nan_ignore_all,
    ;

    /// Set whether every NaN test is replaced.
    fn set_nan_ignore_all(&mut self, val: bool)
        requires
            old(self).wf(),
        ensures
            final(self).wf(),
            final(self).rest() == old(self).rest(),
            final(self).state() == (OptionState { nan_ignore_all: val, ..old(self).state() }),
    ;

    /// Whether NaN tests in comparisons are replaced.
    fn nan_ignore_compare(&self) -> (r: bool)
        ensures
            r == self.state().nan_ignore_compare,
    ;

    /// Set whether NaN tests in comparisons are replaced.
    fn set_nan_ignore_compare(&mut self, val: bool)
        requires
            old(self).wf(),
        ensures
            final(self).wf(),
            final(self).rest() == old(self).rest(),
            final(self).state() == (OptionState { nan_ignore_compare: val, ..old(self).state() }),
    ;

    /// Set `extrapop` on the default model and on the one that prototypes are evaluated
    /// with.
    fn set_default_extra_pop(&mut self, expop: i32)
        requires
            old(self).wf(),
        ensures
            final(self).wf(),
            final(self).rest() == old(self).rest(),
            final(self).state() == (OptionState {
                models: with_extra_pop(old(self).state().models, expop),
                ..old(self).state()
            }),
    ;

    /// Set a function's own `extrapop`.
    fn set_function_extra_pop(&mut self, name: &str, expop: i32) -> (r: Result<(), KunaError>)
        requires
            old(self).wf(),
        ensures
            final(self).wf(),
            final(self).rest() == old(self).rest(),
            (final(self).state(), outcome(r)) == function_extra_pop_effect(
                old(self).state(),
                name@,
                expop,
            ),
    ;

    /// Choose the default model.
    fn set_default_model(&mut self, name: &str) -> (r: Result<(), KunaError>)
        requires
            old(self).wf(),
        ensures
            final(self).wf(),
            final(self).rest() == old(self).rest(),
            (final(self).state(), outcome(r)) == ({
                let (g, res) = default_effect(old(self).state().models, name@);
                (OptionState { models: g, ..old(self).state() }, res)
            }),
    ;

    /// Choose the model that prototypes are evaluated with.
    fn set_eval_current_model(&mut self, name: &str) -> (r: Result<(), KunaError>)
        requires
            old(self).wf(),
        ensures
            final(self).wf(),
            final(self).rest() == old(self).rest(),
            (final(self).state(), outcome(r)) == ({
                let (g, res) = eval_effect(old(self).state().models, name@);
                (OptionState { models: g, ..old(self).state() }, res)
            }),
    ;

    /// Mark whether calls of a function are replaced by its body.
    fn set_function_inline(&mut self, name: &str, val: bool) -> (r: Result<(), KunaError>)
        requires
            old(self).wf(),
        ensures
            final(self).wf(),
            final(self).rest() == old(self).rest(),
            (final(self).state(), outcome(r)) == function_effect(
                old(self).state(),
                name@,
                |f: FunctionView| FunctionView { inline: val, ..f },
            ),
    ;

    /// Mark whether calls of a function come back.
    fn set_function_no_return(&mut self, name: &str, val: bool) -> (r: Result<(), KunaError>)
        requires
            old(self).wf(),
        ensures
            final(self).wf(),
            final(self).rest() == old(self).rest(),
            (final(self).state(), outcome(r)) == function_effect(
                old(self).state(),
                name@,
                |f: FunctionView| FunctionView { no_return: val, ..f },
            ),
    ;

    /// Whether the language is C.
    fn print_is_c_language(&self) -> (r: bool)
        ensures
            r == (self.state().print.name == "c-language"@),
    ;

    /// Whether the language is one that can be printed.
    fn print_lang_known(&self) -> (r: bool)
        ensures
            r == language_known(self.state()),
    ;

    /// The name that the printer uses for the language that an option calls by this
    /// name.
    fn print_language_named(&self, name: &str) -> (r: Option<String>)
        ensures
            match language_from(self.state().print.languages, name@, 0) {
                Some(i) => r is Some && (r->0)@ == self.state().print.languages[i].print_name@,
                None => r is None,
            },
    ;

    /// Whether a null pointer is printed as `NULL`.
    fn set_null_printing(&mut self, val: bool)
        requires
            old(self).wf(),
        ensures
            final(self).wf(),
            final(self).rest() == old(self).rest(),
            final(self).state() == with_print_settings(
                old(self).state(),
                PrintSettings { null_printing: val, ..old(self).state().print.settings },
            ),
    ;

    /// Whether operators such as `+=` are used.
    fn set_inplace_ops(&mut self, val: bool)
        requires
            old(self).wf(),
        ensures
            final(self).wf(),
            final(self).rest() == old(self).rest(),
            final(self).state() == with_print_settings(
                old(self).state(),
                PrintSettings { inplace_ops: val, ..old(self).state().print.settings },
            ),
    ;

    /// Whether the calling convention is printed.
    fn set_convention_printing(&mut self, val: bool)
        requires
            old(self).wf(),
        ensures
            final(self).wf(),
            final(self).rest() == old(self).rest(),
            final(self).state() == with_print_settings(
                old(self).state(),
                PrintSettings { convention_printing: val, ..old(self).state().print.settings },
            ),
    ;

    /// Whether casts are left out.
    fn set_no_cast_printing(&mut self, val: bool)
        requires
            old(self).wf(),
        ensures
            final(self).wf(),
            final(self).rest() == old(self).rest(),
            final(self).state() == with_print_settings(
                old(self).state(),
                PrintSettings { no_cast_printing: val, ..old(self).state().print.settings },
            ),
    ;

    /// Whether implied extensions are left out.
    fn set_hide_implied_exts(&mut self, val: bool)
        requires
            old(self).wf(),
        ensures
            final(self).wf(),
            final(self).rest() == old(self).rest(),
            final(self).state() == with_print_settings(
                old(self).state(),
                PrintSettings { hide_implied_exts: val, ..old(self).state().print.settings },
            ),
    ;

    /// The most characters of a line.
    fn set_max_line_size(&mut self, val: i32)
        requires
            old(self).wf(),
        ensures
            final(self).wf(),
            final(self).rest() == old(self).rest(),
            final(self).state() == (OptionState {
                print: PrintState { max_line_size: Some(val), ..old(self).state().print },
                ..old(self).state()
            }),
    ;

    /// Characters of indentation for a nested block.
    fn set_indent_increment(&mut self, val: i32)
        requires
            old(self).wf(),
        ensures
            final(self).wf(),
            final(self).rest() == old(self).rest(),
            final(self).state() == with_print_settings(
                old(self).state(),
                PrintSettings { indent_increment: val, ..old(self).state().print.settings },
            ),
    ;

    /// Characters of indentation for a comment line.
    fn set_line_comment_indent(&mut self, val: i32)
        requires
            old(self).wf(),
        ensures
            final(self).wf(),
            final(self).rest() == old(self).rest(),
            final(self).state() == with_print_settings(
                old(self).state(),
                PrintSettings { comment_indent: val, ..old(self).state().print.settings },
            ),
    ;

    /// The style of comments.
    fn set_comment_style(&mut self, style: &str)
        requires
            old(self).wf(),
        ensures
            final(self).wf(),
            final(self).rest() == old(self).rest(),
            final(self).state() == (OptionState {
                print: PrintState { comment_style: Some(style@), ..old(self).state().print },
                ..old(self).state()
            }),
    ;

    /// The types of comments in a function header.
    fn header_comment_flags(&self) -> (r: u32)
        ensures
            r == self.state().print.settings.header_comment,
    ;

    /// Set the types of comments in a function header.
    fn set_header_comment_flags(&mut self, flags: u32)
        requires
            old(self).wf(),
        ensures
            final(self).wf(),
            final(self).rest() == old(self).rest(),
            final(self).state() == with_print_settings(
                old(self).state(),
                PrintSettings { header_comment: flags, ..old(self).state().print.settings },
            ),
    ;

    /// The types of comments in a function body.
    fn instruction_comment_flags(&self) -> (r: u32)
        ensures
            r == self.state().print.settings.instruction_comment,
    ;

    /// Set the types of comments in a function body.
    fn set_instruction_comment_flags(&mut self, flags: u32)
        requires
            old(self).wf(),
        ensures
            final(self).wf(),
            final(self).rest() == old(self).rest(),
            final(self).state() == with_print_settings(
                old(self).state(),
                PrintSettings { instruction_comment: flags, ..old(self).state().print.settings },
            ),
    ;

    /// The format of integers.
    fn set_integer_format(&mut self, fmt: &str)
        requires
            old(self).wf(),
        ensures
            final(self).wf(),
            final(self).rest() == old(self).rest(),
            final(self).state() == (OptionState {
                print: PrintState { integer_format: fmt@, ..old(self).state().print },
                ..old(self).state()
            }),
    ;

    /// How much of a namespace is printed.
    fn set_namespace_strategy(&mut self, strategy: NamespaceStrategy)
        requires
            old(self).wf(),
        ensures
            final(self).wf(),
            final(self).rest() == old(self).rest(),
            final(self).state() == with_print_settings(
                old(self).state(),
                PrintSettings { namespaces: strategy, ..old(self).state().print.settings },
            ),
    ;

    /// Where the opening brace of a block goes.
    fn set_brace_format(&mut self, category: BraceCategory, style: BraceStyle)
        requires
            old(self).wf(),
        ensures
            final(self).wf(),
            final(self).rest() == old(self).rest(),
            final(self).state() == with_print_settings(
                old(self).state(),
                with_brace(old(self).state().print.settings, category, style),
            ),
    ;

    /// The language that is printed, by the name that the printer goes by.
    fn set_print_language(&mut self, language: &str)
        requires
            old(self).wf(),
        ensures
            final(self).wf(),
            final(self).rest() == old(self).rest(),
            final(self).state() == (OptionState {
                print: PrintState { name: language@, ..old(self).state().print },
                ..old(self).state()
            }),
    ;

    /// Switch the warnings of an action or rule; `false` where there is none of that
    /// name.
    fn set_action_warning(&mut self, val: bool, name: &str) -> (r: bool)
        requires
            old(self).wf(),
        ensures
            final(self).wf(),
            final(self).rest() == old(self).rest(),
            ({
                let (a, found) = warning_effect(old(self).state().actions, name@, val);
                final(self).state() == (OptionState { actions: a, ..old(self).state() }) && r
                    == found
            }),
    ;

    /// Copy a group of actions under a new name and make the copy current.
    fn clone_action_group(&mut self, from: &str, to: &str)
        requires
            old(self).wf(),
        ensures
            final(self).wf(),
            final(self).rest() == old(self).rest(),
            final(self).state() == (OptionState {
                actions: clone_effect(old(self).state().actions, from@, to@),
                ..old(self).state()
            }),
    ;

    /// Make a group of actions current.
    fn set_current_action(&mut self, name: &str)
        requires
            old(self).wf(),
        ensures
            final(self).wf(),
            final(self).rest() == old(self).rest(),
            final(self).state() == (OptionState {
                actions: select_effect(old(self).state().actions, name@),
                ..old(self).state()
            }),
    ;

    /// The name of the current group of actions.
    fn current_action_name(&self) -> (r: String)
        ensures
            r@ == current_name(self.state().actions),
    ;

    /// Switch a sub-group in a group of actions.
    fn toggle_action(&mut self, group: &str, sub: &str, val: bool)
        requires
            old(self).wf(),
        ensures
            final(self).wf(),
            final(self).rest() == old(self).rest(),
            final(self).state() == (OptionState {
                actions: toggle_effect(old(self).state().actions, group@, sub@, val),
                ..old(self).state()
            }),
    ;

    /// Enable a rule of the current group; `false` where there is none of that path.
    fn enable_rule(&mut self, path: &str) -> (r: bool)
        requires
            old(self).wf(),
        ensures
            final(self).wf(),
            final(self).rest() == old(self).rest(),
            ({
                let (a, found) = enable_effect(old(self).state().actions, path@, true);
                final(self).state() == (OptionState { actions: a, ..old(self).state() }) && r
                    == found
            }),
    ;

    /// Disable a rule of the current group; `false` where there is none of that path.
    fn disable_rule(&mut self, path: &str) -> (r: bool)
        requires
            old(self).wf(),
        ensures
            final(self).wf(),
            final(self).rest() == old(self).rest(),
            ({
                let (a, found) = enable_effect(old(self).state().actions, path@, false);
                final(self).state() == (OptionState { actions: a, ..old(self).state() }) && r
                    == found
            }),
    ;

    /// Whether a group of actions is current.
    fn has_current_action(&self) -> (r: bool)
        ensures
            r == (current_rules(self.state().actions) is Some),
    ;

    /// Whether decoding instructions may change the context.
    fn allow_context_set(&mut self, val: bool)
        requires
            old(self).wf(),
        ensures
            final(self).wf(),
            final(self).rest() == old(self).rest(),
            final(self).state() == (OptionState { context_set_allowed: val, ..old(self).state() }),
    ;
}

} // verus!
