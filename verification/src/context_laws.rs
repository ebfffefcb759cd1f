//! What an architecture starts from, what a reset restores, what the analysis of a function
//! is handed, and in which order an architecture is filled in.

use vstd::prelude::*;
use crate::architecture::{
    fresh_basic, image_unknown, is_reset, is_wire_reset, parts_empty, Architecture, EntrySeeds,
    ImageFacts, UserOp,
};
use crate::context::ArchOptionContext;
use crate::error::{ErrorKind, Failure, KunaError};
use crate::handle::{
    carries_settings, carries_tables, declared_models, entry_track, plain_userop, seeds_from,
    userop_from, userop_indices, ArchContext, CalleeModelView, UseropNames,
};
use crate::init::{
    next_userop_step, root_places, stage_number, Builtin, InitStage, UserOpStep, STRING_BUILTINS,
};
use crate::layout_laws::no_child;
use crate::option_effect_laws::{is_first_language, law_language_is_the_first, printable};
use crate::option_table::{FLAG_COUNT, LEVEL_COUNT, PEB_NAMES, REALTYPES, EVALCURRENTPROTO};
use crate::printer::{language_effect, language_names, quoted_text, PrintState, Printer};
use crate::proto::{model_option, ModelView, ProtoModel};
use crate::pspec_symbols::{with_seeds, TrackedContext};
use crate::settings::{fresh_settings, mode_names, Mode, KunaSettings};
use crate::space::{Address, Engine};
use crate::switch_table::SWITCHES;
use crate::symbols::{
    all_callee_protos, callee_protos, function_at_from, function_result, CalleeView, TableView,
    FunctionSymbol,
};
use crate::xml::{places_named, Element, SpecDocument};

verus! {

// ---- defaults -----------------------------------------------------------------------

/// The basic settings that a new architecture has.
pub proof fn law_new_architecture_by_number()
    ensures
        ({
            let b = fresh_basic();
            &&& b.trim_recurse_max == 5 && b.max_basetype_size == 10 && b.min_funcsymbol_size == 1
            &&& b.max_jumptable_size == 1024 && b.max_instructions == 100000
            &&& b.alias_block_level == 2 && b.funcptr_align == 0
            &&& b.flowoptions == 0x20 && b.split_datatype_config == 7
            &&& b.infer_pointers && b.analyze_for_loops && b.nan_ignore_compare
            &&& !b.readonlypropagate && !b.nan_ignore_all && !b.aggressive_ext_trim
        }),
{
    assert(1u32 | 2u32 | 4u32 == 7u32) by (bit_vector);
}

/// A reset gives the basic settings of a new architecture back, but that what the
/// specifications decided stays; it gives back the options' own settings; and it changes
/// nothing else.
pub proof fn law_reset_restores_what_is_new(was: Architecture, now: Architecture)
    requires
        is_reset(was, now),
    ensures
        ({
            let b = now.basic;
            &&& b.trim_recurse_max == 5 && b.max_basetype_size == 10
            &&& b.max_jumptable_size == 1024 && b.max_instructions == 100000
            &&& b.alias_block_level == 2
            &&& b.flowoptions == 0x20 && b.split_datatype_config == 7
            &&& b.infer_pointers && b.analyze_for_loops && b.nan_ignore_compare
            &&& !b.readonlypropagate && !b.nan_ignore_all
            &&& b.min_funcsymbol_size == was.basic.min_funcsymbol_size
            &&& b.aggressive_ext_trim == was.basic.aggressive_ext_trim
            &&& b.funcptr_align == was.basic.funcptr_align
        }),
        now.config@.levels == fresh_settings().levels,
        now.config@.print_flags == was.config@.print_flags,
        now.config@.outline_spec.len() == 0,
        now.config@.symbol_name_bound == Some(256usize),
        forall|f: int| 0 <= f < FLAG_COUNT ==> #[trigger] now.config@.flags[f] == SWITCHES@[f].2,
        now.print == was.print,
        now == (Architecture { config: now.config, basic: now.basic, ..was }),
{
    assert(1u32 | 2u32 | 4u32 == 7u32) by (bit_vector);
}

/// A reset for a new list of options restores the printer too, but not the line width and the
/// comment style that were asked for.
pub proof fn law_wire_reset_restores_the_printer(was: Architecture, now: Architecture)
    requires
        is_wire_reset(was, now),
    ensures
        now.print@.name == was.print@.initial_name,
        now.print@.integer_format == was.print@.initial_format,
        now.print@.settings == was.print@.initial,
        now.print@.max_line_size == was.print@.max_line_size,
        now.print@.comment_style == was.print@.comment_style,
        now.print@.languages == was.print@.languages,
        forall|f: int| 0 <= f < FLAG_COUNT ==> #[trigger] now.config@.flags[f] == SWITCHES@[f].2,
        forall|i: int|
            0 <= i < now.config@.print_flags.len() ==> (#[trigger] now.config@.print_flags[i])
                is None,
        now.basic.max_instructions == 100000 && now.basic.flowoptions == 0x20,
        now.basic.funcptr_align == was.basic.funcptr_align,
        now == (Architecture {
            config: now.config,
            basic: now.basic,
            print: now.print,
            ..was
        }),
{
}

/// Nothing is filled in at first, and nothing is known of the image.
pub proof fn law_new_architecture_is_empty(a: Architecture)
    requires
        parts_empty(a),
        image_unknown(a.image),
    ensures
        a.symbols.table@.has_global,
        a.symbols.table@.functions.len() == 0 && a.symbols.table@.ranges.len() == 0,
        a.userops@.len() == 0 && a.commentdb@.len() == 0 && a.lanerecords@.len() == 0,
        a.models@.models.dom() =~= Set::<Seq<char>>::empty(),
        a.models@.declared.dom() =~= Set::<Seq<char>>::empty(),
        a.models@.defaultfp is None && a.models@.evalfp_current is None
            && a.models@.evalfp_current_spec is None,
        a.specs.cspec is Absent && a.specs.pspec is Absent && !a.specs.coretypes_from_host,
        a.cortexmpriv_inject is None && a.default_return_addr is None && !a.remote_installed,
        a.infer_ptr_spaces@.len() == 0 && a.loader.loader_entry_tracks@.len() == 0,
        a.image == (ImageFacts {
            loadersymbols_parsed: false,
            input_arm_isa_override: false,
            image_windows_user: false,
            mapped_flow_boundary_image: false,
            source_is_rust: false,
            name_style_ghidra: false,
        }),
{
}

/// What options read and write of an architecture is where it says.
pub proof fn law_options_act_on_their_fields(a: Architecture)
    ensures
        ({
            let s = a.state();
            &&& s.readonly_propagate == a.basic.readonlypropagate
            &&& s.infer_pointers == a.basic.infer_pointers
            &&& s.analyze_for_loops == a.basic.analyze_for_loops
            &&& s.max_jumptable_size == a.basic.max_jumptable_size
            &&& s.max_instructions == a.basic.max_instructions
            &&& s.alias_block_level == a.basic.alias_block_level
            &&& s.flow_options == a.basic.flowoptions
            &&& s.split_datatype_config == a.basic.split_datatype_config
            &&& s.nan_ignore_all == a.basic.nan_ignore_all
            &&& s.nan_ignore_compare == a.basic.nan_ignore_compare
            &&& s.models == a.models@ && s.symbols == a.symbols.table@
            &&& s.print == a.print@ && s.actions == a.allacts@
            &&& s.context_set_allowed == a.engine.context_set_allowed
        }),
        ({
            let r = a.rest();
            &&& r.config == a.config && r.image == a.image && r.loader == a.loader
            &&& r.lanerecords == a.lanerecords && r.infer_ptr_spaces == a.infer_ptr_spaces
            &&& r.userops == a.userops && r.specs == a.specs && r.options == a.options
            &&& r.commentdb == a.commentdb && r.inst == a.inst && r.archid == a.archid
            &&& r.default_return_addr == a.default_return_addr
            &&& r.remote_installed == a.remote_installed
            &&& r.cortexmpriv_inject == a.cortexmpriv_inject
            &&& r.basic.trim_recurse_max == a.basic.trim_recurse_max
            &&& r.basic.max_basetype_size == a.basic.max_basetype_size
            &&& r.basic.min_funcsymbol_size == a.basic.min_funcsymbol_size
            &&& r.basic.aggressive_ext_trim == a.basic.aggressive_ext_trim
            &&& r.basic.funcptr_align == a.basic.funcptr_align
            &&& r.engine.spaces == a.engine.spaces && r.engine.registers == a.engine.registers
        }),
{
}

// ---- the context of a function ------------------------------------------------------

/// The analysis of a function is handed the settings as they are: the switches and levels that
/// it reads and no others, and what the image and the printed language decide with them.
pub proof fn law_context_holds_the_settings(
    ctx: ArchContext,
    a: Architecture,
    windows_spec: bool,
    k: int,
)
    requires
        carries_settings(ctx, a, windows_spec),
    ensures
        forall|f: int|
            0 <= f < FLAG_COUNT ==> {
                &&& SWITCHES@[f].3 ==> #[trigger] ctx.flags@[f] == Some(a.config.flags@[f])
                &&& !SWITCHES@[f].3 ==> ctx.flags@[f] is None
            },
        forall|l: int|
            0 <= l < LEVEL_COUNT ==> {
                &&& l <= 6 || l == 8 || l == 10 || l == 12 ==> #[trigger] ctx.levels@[l] == Some(
                    a.config.levels@[l],
                )
                &&& l == 7 || l == 9 || l == 11 || l >= 13 ==> ctx.levels@[l] is None
            },
        ctx.trim_recurse_max == a.basic.trim_recurse_max,
        ctx.source_is_rust == a.image.source_is_rust,
        ctx.name_style_ghidra == a.image.name_style_ghidra,
        ctx.outline_spec@ == a.config@.outline_spec,
        ctx.nan_ignore_all == a.basic.nan_ignore_all,
        ctx.max_jumptable_size == a.basic.max_jumptable_size,
        ctx.alias_block_level == a.basic.alias_block_level,
        ctx.funcptr_align == a.basic.funcptr_align,
        ctx.readonlypropagate == a.basic.readonlypropagate,
        ctx.split_datatype_config == a.basic.split_datatype_config,
        ctx.infer_pointers == a.basic.infer_pointers,
        ctx.infer_ptr_spaces@ == a.infer_ptr_spaces@,
        ctx.dynreloc_const == a.loader.dynreloc_const && ctx.litpool_const == a.loader.litpool_const,
        is_first_language(a.print@, a.print@.name, k) ==> {
            let l = a.print@.languages[k];
            &&& ctx.int_promotion == l.integer_promotion
            &&& ctx.unknown_byte_is_char == (l.is_c && a.config.flags@[REALTYPES as int])
            &&& ctx.analyze_for_loops == (l.c_for && a.basic.analyze_for_loops)
        },
        !printable(a.print@, a.print@.name) ==> {
            &&& ctx.int_promotion
            &&& ctx.unknown_byte_is_char == a.config.flags@[REALTYPES as int]
            &&& ctx.analyze_for_loops == a.basic.analyze_for_loops
        },
        ({
            let level = a.config.levels@[PEB_NAMES as int];
            &&& level == 0 ==> !ctx.peb_names
            &&& level == 1 ==> ctx.peb_names == (windows_spec && a.image.image_windows_user)
            &&& level == 2 ==> ctx.peb_names == windows_spec
        }),
{
    law_language_is_the_first(a.print@, a.print@.name, 0);
}

/// The analysis of a function is handed the tables as they are.
pub proof fn law_context_holds_the_tables(ctx: ArchContext, a: Architecture, names: UseropNames)
    requires
        carries_tables(ctx, a, names),
    ensures
        ctx.lanerecords@ == a.lanerecords@,
        a.lanerecords@.len() == 0 ==> ctx.min_laned_register_size == -1,
        a.lanerecords@.len() > 0 ==> ctx.min_laned_register_size == a.lanerecords@[0].whole_size,
        model_option(ctx.defaultfp) == a.models@.defaultfp,
        a.models@.evalfp_current is Some ==> model_option(ctx.evalfp_current)
            == a.models@.evalfp_current,
        a.models@.evalfp_current is None && a.config.flags@[EVALCURRENTPROTO as int]
            ==> model_option(ctx.evalfp_current) == a.models@.evalfp_current_spec,
        a.models@.evalfp_current is None && !a.config.flags@[EVALCURRENTPROTO as int]
            ==> ctx.evalfp_current is None,
        ctx.default_return_addr == a.default_return_addr,
        (*ctx.global_query)@.ranges == a.symbols.table@.ranges,
        (*ctx.global_query)@.functions.len() == a.symbols.table@.functions.len(),
        forall|i: int|
            0 <= i < a.symbols.table@.functions.len() ==> {
                let f = a.symbols.table@.functions[i];
                let g = #[trigger] (*ctx.global_query)@.functions[i];
                g.address == f.address && g.inline == f.inline && g.no_return == f.no_return
            },
        crate::symbols::callee_views((*ctx.callee_protos)@) == all_callee_protos(a.symbols.table@),
        ctx.simd_shuffle_userops@ == userop_indices(
            a.userops@,
            names.shuffle@,
            names.shuffle@.len() as int,
        ),
        ctx.x64_syscall_userops@ == plain_userop(a.userops@, names.syscall@),
{
}

/// Whether this is the first operation of the name.
pub open spec fn is_first_userop(ops: Seq<UserOp>, name: Seq<char>, k: int) -> bool {
    &&& 0 <= k < ops.len()
    &&& ops[k].name@ == name
    &&& forall|j: int| 0 <= j < k ==> (#[trigger] ops[j]).name@ != name
}

proof fn lemma_userop_from(ops: Seq<UserOp>, name: Seq<char>, i: int)
    requires
        0 <= i <= ops.len(),
    ensures
        match userop_from(ops, name, i) {
            Some(k) => i <= k < ops.len() && ops[k].name@ == name && forall|j: int|
                i <= j < k ==> (#[trigger] ops[j]).name@ != name,
            None => forall|j: int| i <= j < ops.len() ==> (#[trigger] ops[j]).name@ != name,
        },
    decreases ops.len() - i,
{
    if i < ops.len() {
        lemma_userop_from(ops, name, i + 1);
    }
}

/// A system call operation counts unless an injection replaces it; each name of a shuffle that
/// the processor has adds its index, in the order of the names.
pub proof fn law_operations_are_found(ops: Seq<UserOp>, names: Seq<String>, n: int, k: int)
    requires
        0 <= n < names.len(),
    ensures
        ({
            let name = names[n]@;
            let none = forall|j: int| 0 <= j < ops.len() ==> (#[trigger] ops[j]).name@ != name;
            &&& is_first_userop(ops, name, k) && ops[k].inject is None ==> plain_userop(ops, name)
                =~= seq![ops[k].index as u32]
            &&& is_first_userop(ops, name, k) && ops[k].inject is Some ==> plain_userop(ops, name)
                .len() == 0
            &&& none ==> plain_userop(ops, name).len() == 0
            &&& userop_indices(ops, names, 0).len() == 0
            &&& is_first_userop(ops, name, k) ==> userop_indices(ops, names, n + 1)
                == userop_indices(ops, names, n).push(ops[k].index as u32)
            &&& none ==> userop_indices(ops, names, n + 1) == userop_indices(ops, names, n)
        }),
{
    lemma_userop_from(ops, names[n]@, 0);
}

/// A declared prototype is handed on with the entry of its function, in the order of the table;
/// a function without one, or without a place, is not.
pub proof fn law_declared_prototypes_in_order(
    t: TableView,
    declared: Map<Seq<char>, ModelView>,
    n: int,
)
    requires
        0 <= n < t.functions.len(),
    ensures
        callee_protos(t, 0).len() == 0,
        ({
            let f = t.functions[n];
            let before = callee_protos(t, n);
            let after = callee_protos(t, n + 1);
            &&& f.pieces is Some && f.address.space is Some ==> after.len() == before.len() + 1
                && after.drop_last() == before && after.last().space == f.address.space->0
                && after.last().offset == f.address.offset && after.last().pieces == f.pieces->0
            &&& f.pieces is None || f.address.space is None ==> after == before
        }),
        all_callee_protos(t) == callee_protos(t, t.functions.len() as int),
{
    let before = callee_protos(t, n);
    let after = callee_protos(t, n + 1);
    if after.len() > before.len() {
        assert(after.drop_last() =~= before);
    }
}

/// A function that was declared under a convention is handed on with it.
pub proof fn law_declared_conventions_in_order(
    protos: Seq<CalleeView>,
    declared: Map<Seq<char>, ModelView>,
    n: int,
)
    requires
        0 <= n < protos.len(),
    ensures
        declared_models(protos, declared, 0).len() == 0,
        ({
            let c = protos[n];
            let before = declared_models(protos, declared, n);
            let after = declared_models(protos, declared, n + 1);
            &&& declared.contains_key(c.pieces.name) ==> after == before.push(
                CalleeModelView {
                    space: c.space,
                    offset: c.offset,
                    model: declared[c.pieces.name],
                },
            )
            &&& !declared.contains_key(c.pieces.name) ==> after == before
        }),
{
}

proof fn lemma_seeds_from(all: Seq<EntrySeeds>, entry: Address, i: int)
    requires
        0 <= i <= all.len(),
    ensures
        match seeds_from(all, entry, i) {
            Some(k) => i <= k < all.len() && all[k].entry == entry && forall|j: int|
                i <= j < k ==> (#[trigger] all[j]).entry != entry,
            None => forall|j: int| i <= j < all.len() ==> (#[trigger] all[j]).entry != entry,
        },
    decreases all.len() - i,
{
    if i < all.len() {
        lemma_seeds_from(all, entry, i + 1);
    }
}

/// What the loader knows of an entry is merged into what is known there, for that one address.
/// Where it knows nothing, nothing is replaced.
pub proof fn law_entry_is_seeded(
    all: Seq<EntrySeeds>,
    entry: Address,
    known: Seq<TrackedContext>,
    k: int,
)
    ensures
        (forall|j: int| 0 <= j < all.len() ==> (#[trigger] all[j]).entry != entry) ==> entry_track(
            all,
            entry,
            known,
        ) is None,
        entry.offset == u64::MAX ==> entry_track(all, entry, known) is None,
        0 <= k < all.len() && all[k].entry == entry && (forall|j: int|
            0 <= j < k ==> (#[trigger] all[j]).entry != entry) && entry.offset < u64::MAX ==> {
            &&& entry_track(all, entry, known) matches Some((first, end, regs)) && first == entry
                && end.space == entry.space && end.offset == entry.offset + 1 && regs == with_seeds(
                known,
                all[k].registers@,
            )
        },
{
    lemma_seeds_from(all, entry, 0);
}

// ---- symbols ------------------------------------------------------------------------

proof fn lemma_function_at(t: TableView, address: Address, i: int)
    requires
        0 <= i <= t.functions.len(),
    ensures
        match function_at_from(t, address, i) {
            Some(k) => i <= k < t.functions.len() && t.functions[k].address == address && forall|
                j: int,
            |
                i <= j < k ==> (#[trigger] t.functions[j]).address != address,
            None => forall|j: int|
                i <= j < t.functions.len() ==> (#[trigger] t.functions[j]).address != address,
        },
    decreases t.functions.len() - i,
{
    if i < t.functions.len() {
        lemma_function_at(t, address, i + 1);
    }
}

/// A function is found by its address in whatever scope, and by its name in the global one; a
/// name that is not there is told.
pub proof fn law_functions_are_found(t: TableView, address: Address, name: Seq<char>, k: int)
    ensures
        0 <= k < t.functions.len() && t.functions[k].address == address && (forall|j: int|
            0 <= j < k ==> (#[trigger] t.functions[j]).address != address) ==> function_at_from(
            t,
            address,
            0,
        ) == Some(k),
        (forall|j: int| 0 <= j < t.functions.len() ==> (#[trigger] t.functions[j]).address
            != address) ==> function_at_from(t, address, 0) is None,
        crate::option_effect_laws::is_first_function(t, name, k) && k <= usize::MAX
            ==> function_result(t, name) == Ok::<usize, Failure>(k as usize),
        crate::option_effect_laws::no_function(t, name) ==> (function_result(t, name) matches Err(f)
            && f.kind == ErrorKind::Recov && f.text == "Unknown function name: "@ + name),
{
    lemma_function_at(t, address, 0);
    crate::option_effect_laws::law_function_is_the_first(t, name, 0);
}

// ---- the printer --------------------------------------------------------------------

/// Choosing a language prints the first of the name by the printer's own name for it; another
/// is refused with the names that there are.
pub proof fn law_language_is_chosen(p: PrintState, name: Seq<char>, k: int)
    ensures
        is_first_language(p, name, k) ==> {
            let (after, r) = language_effect(p, name);
            r is Ok && after == (PrintState { name: p.languages[k].print_name@, ..p })
        },
        !printable(p, name) ==> {
            let (after, r) = language_effect(p, name);
            &&& after == p
            &&& r matches Err(f) && f.kind == ErrorKind::Parse && f.text
                == "unknown output language "@ + quoted_text(name) + " (expected one of: "@
                + language_names(p.languages, p.languages.len() as int) + ")"@
        },
{
    law_language_is_the_first(p, name, 0);
}

/// The names of languages and of modes are told with commas between them.
pub proof fn law_names_are_told_with_commas(p: PrintState, n: int, modes: Seq<Mode>, m: Mode)
    ensures
        language_names(p.languages, 0).len() == 0,
        p.languages.len() > 0 ==> language_names(p.languages, 1) == p.languages[0].name@,
        1 <= n < p.languages.len() ==> language_names(p.languages, n + 1) == language_names(
            p.languages,
            n,
        ) + ", "@ + p.languages[n].name@,
        mode_names(seq![]).len() == 0,
        mode_names(seq![m]) == m.name@,
        modes.len() > 0 ==> mode_names(modes.push(m)) == mode_names(modes) + ", "@ + m.name@,
{
    assert(seq![m][0] == m);
    assert(modes.push(m).drop_last() =~= modes);
}

// ---- the stages ---------------------------------------------------------------------

/// The stages in the order of their work.
pub proof fn law_stages_in_order()
    ensures
        stage_number(InitStage::CallSpaces) == 0,
        stage_number(InitStage::RegisterData) == 1,
        stage_number(InitStage::VolatileMemory) == 2,
        stage_number(InitStage::ContextData) == 3,
        stage_number(InitStage::FloatFormats) == 4,
        stage_number(InitStage::StackPointer) == 5,
        stage_number(InitStage::FuncptrAlign) == 6,
        stage_number(InitStage::TypeFactory) == 7,
        stage_number(InitStage::TypeSizes) == 8,
        stage_number(InitStage::CoreTypes) == 9,
        stage_number(InitStage::CallFixups) == 10,
        stage_number(InitStage::HelperFixups) == 11,
        stage_number(InitStage::UserOps) == 12,
        stage_number(InitStage::Builtins) == 13,
        stage_number(InitStage::GlobalMemory) == 14,
        stage_number(InitStage::PrototypeModels) == 15,
        stage_number(InitStage::PrototypeContext) == 16,
        stage_number(InitStage::Actions) == 17,
        stage_number(InitStage::PrinterSetup) == 18,
        stage_number(InitStage::AdjustCaches) == 19,
        stage_number(InitStage::Symbols) == 20,
        stage_number(InitStage::Instructions) == 21,
        stage_number(InitStage::FunctionDistance) == 22,
        stage_number(InitStage::InferSpaces) == 23,
{
}

/// Once every `<callotherfixup>` is registered, the test for privileged mode is replaced where
/// nothing else replaces it, and then all is compiled; an engine that does not decode here does
/// neither. A specification that cannot be parsed ends it.
pub proof fn law_steps_after_the_fixups(
    root: Element,
    done: UserOpStep,
    local: bool,
    privileged_op: bool,
    err: KunaError,
)
    requires
        done is Initialize || done is CallOther,
    ensures
        next_userop_step(SpecDocument::Malformed(err), done, local, privileged_op) == Err::<
            Option<UserOpStep>,
            Failure,
        >(err@),
        no_child(root, "callotherfixup"@) || root.children@.len() == 0 ==> {
            let next = next_userop_step(SpecDocument::Root(root), done, local, privileged_op);
            &&& next == next_userop_step(SpecDocument::Absent, done, local, privileged_op)
            &&& local && privileged_op ==> next == Ok::<Option<UserOpStep>, Failure>(
                Some(UserOpStep::Privileged),
            )
            &&& local && !privileged_op ==> next == Ok::<Option<UserOpStep>, Failure>(
                Some(UserOpStep::Compile),
            )
            &&& !local ==> next == Ok::<Option<UserOpStep>, Failure>(None)
        },
        next_userop_step(SpecDocument::Root(root), UserOpStep::Privileged, true, privileged_op)
            == Ok::<Option<UserOpStep>, Failure>(Some(UserOpStep::Compile)),
        next_userop_step(SpecDocument::Root(root), UserOpStep::Compile, local, privileged_op)
            == Ok::<Option<UserOpStep>, Failure>(None),
{
    let from = match done {
        UserOpStep::CallOther(i) => i + 1,
        _ => 0,
    };
    if from <= root.children@.len() {
        crate::xml::law_child_is_the_first(root, "callotherfixup"@, from);
    }
}

/// The places of the children with a name are those children, each once, in order.
pub proof fn law_places_are_the_children(el: Element, nm: Seq<char>, n: int, i: int)
    requires
        0 <= n <= el.children@.len(),
    ensures
        ({
            let l = places_named(el, nm, n);
            &&& forall|a: int, b: int| 0 <= a < b < l.len() ==> l[a] < l[b]
            &&& forall|a: int| 0 <= a < l.len() ==> 0 <= #[trigger] l[a] < n
            &&& 0 <= i < n ==> (l.contains(i) <==> el.children@[i].name@ == nm)
        }),
    decreases n,
{
    if n > 0 {
        law_places_are_the_children(el, nm, n - 1, i);
        let before = places_named(el, nm, n - 1);
        let l = places_named(el, nm, n);
        if el.children@[n - 1].name@ == nm {
            assert(l[before.len() as int] == n - 1);
            if before.contains(i) {
                let a = choose|a: int| 0 <= a < before.len() && before[a] == i;
                assert(l[a] == i);
            }
            if l.contains(i) && i < n - 1 {
                let a = choose|a: int| 0 <= a < l.len() && l[a] == i;
                assert(before[a] == i);
            }
        }
    }
}

/// The places of a specification's children are those of its root; without a specification there
/// are none, and one that cannot be parsed fails.
pub proof fn law_root_places(root: Element, nm: Seq<char>, err: KunaError)
    ensures
        root_places(SpecDocument::Root(root), nm) == Ok::<Seq<int>, Failure>(
            places_named(root, nm, root.children@.len() as int),
        ),
        root_places(SpecDocument::Absent, nm) matches Ok(l) && l.len() == 0,
        root_places(SpecDocument::Malformed(err), nm) == Err::<Seq<int>, Failure>(err@),
{
}

/// The builtin operations that are registered from the start, in order.
pub proof fn law_builtins_in_order()
    ensures
        STRING_BUILTINS@ =~= seq![
            Builtin::StringData,
            Builtin::VolatileRead,
            Builtin::VolatileWrite,
            Builtin::Memcpy,
            Builtin::Strncpy,
            Builtin::Wcsncpy,
            Builtin::Memset,
        ],
{
}

// ---- what contracts see -------------------------------------------------------------

/// Contracts see every part of the printer, of the settings and of a model as it is.
pub proof fn law_parts_are_seen_as_they_are(
    p: Printer,
    c: KunaSettings,
    m: ProtoModel,
    f: FunctionSymbol,
    e: Engine,
)
    ensures
        p@.name == p.name@ && p@.integer_format == p.integer_format@ && p@.settings == p.settings
            && p@.max_line_size == p.max_line_size && p@.languages == p.languages@
            && p@.initial_name == p.initial_name@ && p@.initial_format == p.initial_format@
            && p@.initial == p.initial,
        c@.flags == c.flags@ && c@.levels == c.levels@ && c@.print_flags == c.print_flags@
            && c@.outline_spec == c.outline_spec@ && c@.symbol_name_bound == c.symbol_name_bound,
        m@.name == m.name@ && m@.extrapop == m.extrapop && m@.has_this == m.has_this
            && m@.constructor == m.constructor && m@.strategy == m.strategy@ && m@.effects
            == m.effects@ && m@.internal_storage == m.internal_storage@ && m@.input.entries
            == m.input.entries@ && m@.input.rules == m.input.rules@ && m@.output.entries
            == m.output.entries@ && m@.output.rules == m.output.rules@,
        f@.name == f.name@ && f@.address == f.address && f@.global == f.global && f@.inline
            == f.inline && f@.no_return == f.no_return,
        e@.code_space == e.code_space && e@.data_space == e.data_space && e@.registers
            == e.registers@ && e@.local == e.local && e@.alignment == e.alignment
            && e@.spaces.len() == e.spaces@.len(),
        forall|i: int|
            0 <= i < e.spaces@.len() ==> (#[trigger] e@.spaces[i]).name == e.spaces@[i].name@
                && e@.spaces[i].info == e.spaces@[i].info,
{
}

} // verus!
