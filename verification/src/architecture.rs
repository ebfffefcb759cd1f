//! The architecture: the configuration of one program under analysis, and the parts that
//! the options and the specifications fill in.

use std::rc::Rc;
use vstd::prelude::*;
use vstd::string::*;
use crate::actions::ActionDatabase;
use crate::comments::{CommentDatabase, WarningView};
use crate::context::{ArchOptionContext, OptionState};
use crate::cspec::infer_spaces;
use crate::error::{text_outcome, KunaError};
use crate::option_database::{initial_options, OptionDatabase};
use crate::options::{ERROR_TOOMANYINSTRUCTIONS, SPLIT_ARRAY, SPLIT_POINTER, SPLIT_STRUCT};
use crate::printer::{reset_printer, BraceCategory, BraceStyle, NamespaceStrategy, Printer};
use crate::proto::{empty_registry, ModelRegistry};
use crate::pspec::{records_ascend, LanedRegister};
use crate::pspec_symbols::TrackedContext;
use crate::settings::{
    fresh_settings, mode_effect, option_effect, report_outcome, reset_settings, KunaSettings,
    LoaderSetting, Mode, OptionAnswer, OptionReport,
};
use crate::space::{engine_wf, Address, Engine, VarnodeData};
use crate::symbols::{snapshots_wf, Symbols, TableView};
use crate::text::same_text;
use crate::xml::SpecDocument;

verus! {

/// A user-defined operation of the processor.
pub struct UserOp {
    pub name: String,
    pub index: i32,
    /// The injection that replaces it, where there is one.
    pub inject: Option<i32>,
}

/// What a loader knows of the registers at the entry of a function.
pub struct EntrySeeds {
    pub entry: Address,
    pub registers: Vec<TrackedContext>,
}

/// The properties of an operation code.
#[derive(Debug, Clone, Copy, PartialEq, Eq, Structural)]
pub struct TypeOp {
    pub opcode: u32,
    pub flags: u32,
}

/// The settings that are not switches or levels of the named options.
#[derive(Debug, Clone, Copy, PartialEq, Eq, Structural)]
pub struct BasicSettings {
    /// How deep trimming recurses.
    pub trim_recurse_max: i32,
    /// The largest size of a base type.
    pub max_basetype_size: i32,
    /// The smallest distance of two functions.
    pub min_funcsymbol_size: i32,
    /// The most entries of a jump table.
    pub max_jumptable_size: u32,
    pub aggressive_ext_trim: bool,
    /// Read-only memory is propagated as constants.
    pub readonlypropagate: bool,
    /// Constants are taken for pointers.
    pub infer_pointers: bool,
    /// `for` loops are recovered.
    pub analyze_for_loops: bool,
    /// NaN tests are replaced: all of them, those in comparisons.
    pub nan_ignore_all: bool,
    pub nan_ignore_compare: bool,
    /// How many low bits of a function pointer are not part of the address.
    pub funcptr_align: i32,
    /// The bits that steer how flow is followed.
    pub flowoptions: u32,
    /// The most instructions of a function.
    pub max_instructions: u32,
    /// Which data-types on the stack block aliases.
    pub alias_block_level: i32,
    /// The bits that steer how data-types are split.
    pub split_datatype_config: u32,
}

/// What is known of the image that is analysed.
#[derive(Debug, Clone, Copy, PartialEq, Eq, Structural)]
pub struct ImageFacts {
    /// Its symbols are parsed.
    pub loadersymbols_parsed: bool,
    /// The instruction set was chosen by hand.
    pub input_arm_isa_override: bool,
    /// It is a Windows program.
    pub image_windows_user: bool,
    /// Its flow has mapped boundaries.
    pub mapped_flow_boundary_image: bool,
    /// Its source is Rust.
    pub source_is_rust: bool,
    /// Names follow the host's shape.
    pub name_style_ghidra: bool,
}

/// What the loader leaves behind.
pub struct LoaderFacts {
    /// Constants that relocation and literal pools give: address and value.
    pub dynreloc_const: Rc<Vec<(u64, u64)>>,
    pub litpool_const: Rc<Vec<(u64, u64)>>,
    /// What is known of the registers at function entries.
    pub loader_entry_tracks: Vec<EntrySeeds>,
    /// The language description that the engine was made from.
    pub decode_sla: Option<Rc<Vec<u8>>>,
    /// The spaces that the language truncates: name and size.
    pub decode_truncations: Option<Rc<Vec<(String, u32)>>>,
}

/// The specifications.
pub struct Specifications {
    pub cspec: SpecDocument,
    pub pspec: SpecDocument,
    /// The host has sent its own core types.
    pub coretypes_from_host: bool,
}

/// The configuration of one program under analysis.
pub struct Architecture {
    /// What the architecture is called.
    pub archid: String,
    /// The settings of the named options.
    pub config: KunaSettings,
    pub basic: BasicSettings,
    pub image: ImageFacts,
    pub loader: LoaderFacts,
    /// The spaces that pointers are inferred into.
    pub infer_ptr_spaces: Vec<usize>,
    pub symbols: Symbols,
    pub options: OptionDatabase,
    pub allacts: ActionDatabase,
    pub userops: Vec<UserOp>,
    /// The injection that answers the test for privileged mode, once it is registered.
    pub cortexmpriv_inject: Option<i32>,
    pub commentdb: CommentDatabase,
    pub print: Printer,
    pub models: ModelRegistry,
    /// Where the specification says that the return address is kept.
    pub default_return_addr: Option<VarnodeData>,
    pub specs: Specifications,
    pub lanerecords: Vec<LanedRegister>,
    /// The properties of the operation codes, by code; empty until it is built.
    pub inst: Vec<Option<TypeOp>>,
    /// A host answers questions about symbols and types.
    pub remote_installed: bool,
    pub engine: Engine,
}

/// Whether the parts of an architecture agree with each other.
pub open spec fn architecture_wf(a: Architecture) -> bool {
    &&& snapshots_wf(a.symbols)
    &&& engine_wf(a.engine@)
    &&& records_ascend(a.lanerecords@)
}

/// The basic settings after a reset. The smallest distance of two functions, the
/// trimming of extensions and the alignment of function pointers stay.
pub open spec fn reset_basic(s: BasicSettings) -> BasicSettings {
    BasicSettings {
        trim_recurse_max: 5,
        max_basetype_size: 10,
        flowoptions: ERROR_TOOMANYINSTRUCTIONS,
        max_instructions: 100000,
        infer_pointers: true,
        analyze_for_loops: true,
        readonlypropagate: false,
        nan_ignore_all: false,
        nan_ignore_compare: true,
        alias_block_level: 2,
        split_datatype_config: SPLIT_STRUCT | SPLIT_ARRAY | SPLIT_POINTER,
        max_jumptable_size: 1024,
        ..s
    }
}

/// The basic settings of a new architecture.
pub open spec fn fresh_basic() -> BasicSettings {
    BasicSettings {
        trim_recurse_max: 5,
        max_basetype_size: 10,
        min_funcsymbol_size: 1,
        max_jumptable_size: 1024,
        aggressive_ext_trim: false,
        readonlypropagate: false,
        infer_pointers: true,
        analyze_for_loops: true,
        nan_ignore_all: false,
        nan_ignore_compare: true,
        funcptr_align: 0,
        flowoptions: ERROR_TOOMANYINSTRUCTIONS,
        max_instructions: 100000,
        alias_block_level: 2,
        split_datatype_config: SPLIT_STRUCT | SPLIT_ARRAY | SPLIT_POINTER,
    }
}

/// Whether the architecture is `was` with all options reset.
pub open spec fn is_reset(was: Architecture, now: Architecture) -> bool {
    &&& now == (Architecture { config: now.config, basic: reset_basic(was.basic), ..was })
    &&& now.config@ == reset_settings(was.config@)
}

/// Whether the architecture is `was` with all options and the printer reset.
pub open spec fn is_wire_reset(was: Architecture, now: Architecture) -> bool {
    &&& now == (Architecture {
        config: now.config,
        basic: reset_basic(was.basic),
        print: now.print,
        ..was
    })
    &&& now.config@ == fresh_settings()
    &&& now.print@ == reset_printer(was.print@)
}

/// Whether nothing has been filled in yet.
pub open spec fn parts_empty(a: Architecture) -> bool {
    &&& a.symbols.table@ == (TableView { has_global: true, functions: seq![], ranges: seq![] })
    &&& a.options@ == initial_options()
    &&& a.userops@.len() == 0
    &&& a.cortexmpriv_inject is None
    &&& a.commentdb@ == Seq::<WarningView>::empty()
    &&& a.models@ == empty_registry()
    &&& a.default_return_addr is None
    &&& a.specs.cspec is Absent
    &&& a.specs.pspec is Absent
    &&& !a.specs.coretypes_from_host
    &&& a.lanerecords@.len() == 0
    &&& a.inst@.len() == 0
    &&& !a.remote_installed
    &&& a.infer_ptr_spaces@.len() == 0
    &&& a.loader.dynreloc_const@.len() == 0
    &&& a.loader.litpool_const@.len() == 0
    &&& a.loader.loader_entry_tracks@.len() == 0
    &&& a.loader.decode_sla is None
    &&& a.loader.decode_truncations is None
}

/// Whether nothing is known of the image yet.
pub open spec fn image_unknown(f: ImageFacts) -> bool {
    &&& !f.loadersymbols_parsed
    &&& !f.input_arm_isa_override
    &&& !f.image_windows_user
    &&& !f.mapped_flow_boundary_image
    &&& !f.source_is_rust
    &&& !f.name_style_ghidra
}

impl Architecture {
    /// The architecture over an engine that decodes instructions here.
    pub fn new(
        archid: &str,
        engine: Engine,
        print: Printer,
        allacts: ActionDatabase,
        snapshot_cache: bool,
    ) -> (r: Architecture)
        requires
            engine_wf(engine@),
            engine.local,
        ensures
            architecture_wf(r),
            r.archid@ == archid@,
            r.config@ == fresh_settings(),
            r.basic == fresh_basic(),
            parts_empty(r),
            image_unknown(r.image),
            r.engine == engine,
            r.print == print,
            r.allacts == allacts,
            r.symbols.cache_on == snapshot_cache,
    {
        Architecture::from_engine_translate(archid, engine, print, allacts, snapshot_cache)
    }

    /// The architecture over an engine: every option has its default, and nothing has
    /// been filled in. `snapshot_cache` tells whether views of the symbol table are kept
    /// from function to function.
    pub fn from_engine_translate(
        archid: &str,
        engine: Engine,
        print: Printer,
        allacts: ActionDatabase,
        snapshot_cache: bool,
    ) -> (r: Architecture)
        requires
            engine_wf(engine@),
        ensures
            architecture_wf(r),
            r.archid@ == archid@,
            r.config@ == fresh_settings(),
            r.basic == fresh_basic(),
            parts_empty(r),
            image_unknown(r.image),
            r.engine == engine,
            r.print == print,
            r.allacts == allacts,
            r.symbols.cache_on == snapshot_cache,
    {
        let mut arch = Architecture {
            archid: String::from_str(archid),
            config: KunaSettings::new(),
            basic: BasicSettings {
                trim_recurse_max: 0,
                max_basetype_size: 0,
                min_funcsymbol_size: 1,
                max_jumptable_size: 0,
                aggressive_ext_trim: false,
                readonlypropagate: false,
                infer_pointers: false,
                analyze_for_loops: false,
                nan_ignore_all: false,
                nan_ignore_compare: false,
                funcptr_align: 0,
                flowoptions: 0,
                max_instructions: 0,
                alias_block_level: 0,
                split_datatype_config: 0,
            },
            image: ImageFacts {
                loadersymbols_parsed: false,
                input_arm_isa_override: false,
                image_windows_user: false,
                mapped_flow_boundary_image: false,
                source_is_rust: false,
                name_style_ghidra: false,
            },
            loader: LoaderFacts {
                dynreloc_const: Rc::new(Vec::new()),
                litpool_const: Rc::new(Vec::new()),
                loader_entry_tracks: Vec::new(),
                decode_sla: None,
                decode_truncations: None,
            },
            infer_ptr_spaces: Vec::new(),
            symbols: Symbols::new(snapshot_cache),
            options: OptionDatabase::new(),
            allacts,
            userops: Vec::new(),
            cortexmpriv_inject: None,
            commentdb: CommentDatabase::new(),
            print,
            models: ModelRegistry::new(),
            default_return_addr: None,
            specs: Specifications {
                cspec: SpecDocument::Absent,
                pspec: SpecDocument::Absent,
                coretypes_from_host: false,
            },
            lanerecords: Vec::new(),
            inst: Vec::new(),
            remote_installed: false,
            engine,
        };
        arch.reset_defaults_internal();
        proof {
            crate::option_laws::law_fresh_settings_are_reset();
        }
        arch
    }

    /// Put every option of the architecture back to its default.
    pub fn reset_defaults_internal(&mut self)
        ensures
            is_reset(*old(self), *final(self)),
    {
        self.config.reset();
        self.basic.trim_recurse_max = 5;
        self.basic.max_basetype_size = 10;
        self.basic.flowoptions = ERROR_TOOMANYINSTRUCTIONS;
        self.basic.max_instructions = 100000;
        self.basic.infer_pointers = true;
        self.basic.analyze_for_loops = true;
        self.basic.readonlypropagate = false;
        self.basic.nan_ignore_all = false;
        self.basic.nan_ignore_compare = true;
        self.basic.alias_block_level = 2;
        self.basic.split_datatype_config = SPLIT_STRUCT | SPLIT_ARRAY | SPLIT_POINTER;
        self.basic.max_jumptable_size = 1024;
    }

    /// Put every option of the architecture back to its default.
    pub fn reset_defaults(&mut self)
        ensures
            is_reset(*old(self), *final(self)),
    {
        self.reset_defaults_internal();
    }

    /// Put every option and the printer back to what a new program finds. What was asked
    /// of the actions stays.
    pub fn reset_wire_defaults(&mut self)
        ensures
            is_wire_reset(*old(self), *final(self)),
    {
        self.reset_defaults();
        self.config.reset_all();
        self.print.reset();
    }

    /// Give a named option a value. `answer` is what the option's own parser made of the
    /// value, where it has one. The report says what was done and what the loader has to
    /// be told.
    pub fn set_kuna_option(&mut self, name: &str, p1: &str, answer: &OptionAnswer) -> (r: Result<
        OptionReport,
        KunaError,
    >)
        ensures
            (final(self).config@, report_outcome(r)) == option_effect(
                old(self).config@,
                name@,
                p1@,
                *answer,
            ),
            *final(self) == (Architecture { config: final(self).config, ..*old(self) }),
    {
        self.config.set_kuna_option(name, p1, answer)
    }

    /// Apply the mode of this name: its overrides in order, until one fails. What the
    /// loader is to be told is appended to `loader`.
    pub fn apply_mode(
        &mut self,
        name: &str,
        modes: &Vec<Mode>,
        loader: &mut Vec<LoaderSetting>,
    ) -> (r: Result<String, KunaError>)
        ensures
            ({
                let e = mode_effect(old(self).config@, modes@, name@);
                &&& final(self).config@ == e.0
                &&& final(loader)@ == old(loader)@ + e.1
                &&& text_outcome(r) == e.2
            }),
            *final(self) == (Architecture { config: final(self).config, ..*old(self) }),
    {
        self.config.apply_mode(name, modes, loader)
    }

    /// Note down the spaces that pointers are inferred into, from those that the
    /// specification named.
    pub fn cache_addr_space_properties(&mut self)
        ensures
            final(self).infer_ptr_spaces@ == infer_spaces(
                old(self).engine@,
                old(self).infer_ptr_spaces@,
            ),
            *final(self) == (Architecture {
                infer_ptr_spaces: final(self).infer_ptr_spaces,
                ..*old(self)
            }),
    {
        let spaces = self.engine.cache_addr_space_properties(&self.infer_ptr_spaces);
        self.infer_ptr_spaces = spaces;
    }
}

/// What no option of a list reads or writes of an architecture.
#[verifier::ext_equal]
pub struct ArchRest {
    pub archid: String,
    pub config: KunaSettings,
    /// The basic settings, as if the options had not been set.
    pub basic: BasicSettings,
    pub image: ImageFacts,
    pub loader: LoaderFacts,
    pub infer_ptr_spaces: Vec<usize>,
    pub cache_on: bool,
    pub options: OptionDatabase,
    pub userops: Vec<UserOp>,
    pub cortexmpriv_inject: Option<i32>,
    pub commentdb: CommentDatabase,
    pub default_return_addr: Option<VarnodeData>,
    pub specs: Specifications,
    pub lanerecords: Vec<LanedRegister>,
    pub inst: Vec<Option<TypeOp>>,
    pub remote_installed: bool,
    /// The engine, as if it could not change the context.
    pub engine: Engine,
}

/// The basic settings without those that options of a list write.
pub open spec fn basic_rest(b: BasicSettings) -> BasicSettings {
    BasicSettings {
        max_jumptable_size: 0,
        readonlypropagate: false,
        infer_pointers: false,
        analyze_for_loops: false,
        nan_ignore_all: false,
        nan_ignore_compare: false,
        flowoptions: 0,
        max_instructions: 0,
        alias_block_level: 0,
        split_datatype_config: 0,
        ..b
    }
}

impl ArchOptionContext for Architecture {
    type Rest = ArchRest;

    open spec fn rest(&self) -> ArchRest {
        ArchRest {
            archid: self.archid,
            config: self.config,
            basic: basic_rest(self.basic),
            image: self.image,
            loader: self.loader,
            infer_ptr_spaces: self.infer_ptr_spaces,
            cache_on: self.symbols.cache_on,
            options: self.options,
            userops: self.userops,
            cortexmpriv_inject: self.cortexmpriv_inject,
            commentdb: self.commentdb,
            default_return_addr: self.default_return_addr,
            specs: self.specs,
            lanerecords: self.lanerecords,
            inst: self.inst,
            remote_installed: self.remote_installed,
            engine: Engine { context_set_allowed: false, ..self.engine },
        }
    }

    open spec fn state(&self) -> OptionState {
        OptionState {
            readonly_propagate: self.basic.readonlypropagate,
            infer_pointers: self.basic.infer_pointers,
            analyze_for_loops: self.basic.analyze_for_loops,
            max_jumptable_size: self.basic.max_jumptable_size,
            max_instructions: self.basic.max_instructions,
            alias_block_level: self.basic.alias_block_level,
            flow_options: self.basic.flowoptions,
            split_datatype_config: self.basic.split_datatype_config,
            nan_ignore_all: self.basic.nan_ignore_all,
            nan_ignore_compare: self.basic.nan_ignore_compare,
            models: self.models@,
            symbols: self.symbols.table@,
            function_extra_pops: Map::empty(),
            print: self.print@,
            actions: self.allacts@,
            context_set_allowed: self.engine.context_set_allowed,
        }
    }

    open spec fn wf(&self) -> bool {
        architecture_wf(*self)
    }

    fn set_readonly_propagate(&mut self, val: bool)
        ensures
            *final(self) == (Architecture { basic: final(self).basic, ..*old(self) }),
    {
        self.basic.readonlypropagate = val;
    }

    fn set_infer_pointers(&mut self, val: bool)
        ensures
            *final(self) == (Architecture { basic: final(self).basic, ..*old(self) }),
    {
        self.basic.infer_pointers = val;
    }

    fn set_analyze_for_loops(&mut self, val: bool)
        ensures
            *final(self) == (Architecture { basic: final(self).basic, ..*old(self) }),
    {
        self.basic.analyze_for_loops = val;
    }

    fn set_max_jumptable_size(&mut self, val: u32)
        ensures
            *final(self) == (Architecture { basic: final(self).basic, ..*old(self) }),
    {
        self.basic.max_jumptable_size = val;
    }

    fn set_max_instructions(&mut self, val: i32)
        ensures
            *final(self) == (Architecture { basic: final(self).basic, ..*old(self) }),
    {
        self.basic.max_instructions = val as u32;
    }

    fn alias_block_level(&self) -> (r: i32) {
        self.basic.alias_block_level
    }

    fn set_alias_block_level(&mut self, val: i32)
        ensures
            *final(self) == (Architecture { basic: final(self).basic, ..*old(self) }),
    {
        self.basic.alias_block_level = val;
    }

    fn flow_options(&self) -> (r: u32) {
        self.basic.flowoptions
    }

    fn set_flow_options(&mut self, val: u32)
        ensures
            *final(self) == (Architecture { basic: final(self).basic, ..*old(self) }),
    {
        self.basic.flowoptions = val;
    }

    fn split_datatype_config(&self) -> (r: u32) {
        self.basic.split_datatype_config
    }

    fn set_split_datatype_config(&mut self, val: u32)
        ensures
            *final(self) == (Architecture { basic: final(self).basic, ..*old(self) }),
    {
        self.basic.split_datatype_config = val;
    }

    fn nan_ignore_all(&self) -> (r: bool) {
        self.basic.nan_ignore_all
    }

    fn set_nan_ignore_all(&mut self, val: bool)
        ensures
            *final(self) == (Architecture { basic: final(self).basic, ..*old(self) }),
    {
        self.basic.nan_ignore_all = val;
    }

    fn nan_ignore_compare(&self) -> (r: bool) {
        self.basic.nan_ignore_compare
    }

    fn set_nan_ignore_compare(&mut self, val: bool)
        ensures
            *final(self) == (Architecture { basic: final(self).basic, ..*old(self) }),
    {
        self.basic.nan_ignore_compare = val;
    }

    fn set_default_extra_pop(&mut self, expop: i32)
        ensures
            *final(self) == (Architecture { models: final(self).models, ..*old(self) }),
    {
        self.models.set_extra_pop(expop);
    }

    fn set_function_extra_pop(&mut self, name: &str, expop: i32) -> (r: Result<(), KunaError>)
        ensures
            *final(self) == *old(self),
    {
        Err(KunaError::recov(crate::text::join2("Unknown function name: ", name)))
    }

    fn set_default_model(&mut self, name: &str) -> (r: Result<(), KunaError>)
        ensures
            *final(self) == (Architecture { models: final(self).models, ..*old(self) }),
    {
        self.models.set_default_model(name)
    }

    fn set_eval_current_model(&mut self, name: &str) -> (r: Result<(), KunaError>)
        ensures
            *final(self) == (Architecture { models: final(self).models, ..*old(self) }),
    {
        self.models.set_eval_current_model(name)
    }

    fn set_function_inline(&mut self, name: &str, val: bool) -> (r: Result<(), KunaError>)
        ensures
            *final(self) == (Architecture { symbols: final(self).symbols, ..*old(self) }),
    {
        match self.symbols.table.query_global_function(name) {
            Err(e) => Err(e),
            Ok(i) => {
                self.symbols.set_function_inline(i, val);
                Ok(())
            },
        }
    }

    fn set_function_no_return(&mut self, name: &str, val: bool) -> (r: Result<(), KunaError>)
        ensures
            *final(self) == (Architecture { symbols: final(self).symbols, ..*old(self) }),
    {
        match self.symbols.table.query_global_function(name) {
            Err(e) => Err(e),
            Ok(i) => {
                self.symbols.set_function_no_return(i, val);
                Ok(())
            },
        }
    }

    fn print_is_c_language(&self) -> (r: bool) {
        same_text(self.print.name.as_str(), "c-language")
    }

    fn print_lang_known(&self) -> (r: bool) {
        self.print.find_language(self.print.name.as_str()).is_some()
    }

    fn print_language_named(&self, name: &str) -> (r: Option<String>) {
        match self.print.find_language(name) {
            Some(l) => Some(l.print_name.clone()),
            None => None,
        }
    }

    fn set_null_printing(&mut self, val: bool)
        ensures
            *final(self) == (Architecture { print: final(self).print, ..*old(self) }),
    {
        self.print.settings.null_printing = val;
    }

    fn set_inplace_ops(&mut self, val: bool)
        ensures
            *final(self) == (Architecture { print: final(self).print, ..*old(self) }),
    {
        self.print.settings.inplace_ops = val;
    }

    fn set_convention_printing(&mut self, val: bool)
        ensures
            *final(self) == (Architecture { print: final(self).print, ..*old(self) }),
    {
        self.print.settings.convention_printing = val;
    }

    fn set_no_cast_printing(&mut self, val: bool)
        ensures
            *final(self) == (Architecture { print: final(self).print, ..*old(self) }),
    {
        self.print.settings.no_cast_printing = val;
    }

    fn set_hide_implied_exts(&mut self, val: bool)
        ensures
            *final(self) == (Architecture { print: final(self).print, ..*old(self) }),
    {
        self.print.settings.hide_implied_exts = val;
    }

    fn set_max_line_size(&mut self, val: i32)
        ensures
            *final(self) == (Architecture { print: final(self).print, ..*old(self) }),
    {
        self.print.max_line_size = Some(val);
    }

    fn set_indent_increment(&mut self, val: i32)
        ensures
            *final(self) == (Architecture { print: final(self).print, ..*old(self) }),
    {
        self.print.settings.indent_increment = val;
    }

    fn set_line_comment_indent(&mut self, val: i32)
        ensures
            *final(self) == (Architecture { print: final(self).print, ..*old(self) }),
    {
        self.print.settings.comment_indent = val;
    }

    fn set_comment_style(&mut self, style: &str)
        ensures
            *final(self) == (Architecture { print: final(self).print, ..*old(self) }),
    {
        self.print.comment_style = Some(String::from_str(style));
    }

    fn header_comment_flags(&self) -> (r: u32) {
        self.print.settings.header_comment
    }

    fn set_header_comment_flags(&mut self, flags: u32)
        ensures
            *final(self) == (Architecture { print: final(self).print, ..*old(self) }),
    {
        self.print.settings.header_comment = flags;
    }

    fn instruction_comment_flags(&self) -> (r: u32) {
        self.print.settings.instruction_comment
    }

    fn set_instruction_comment_flags(&mut self, flags: u32)
        ensures
            *final(self) == (Architecture { print: final(self).print, ..*old(self) }),
    {
        self.print.settings.instruction_comment = flags;
    }

    fn set_integer_format(&mut self, fmt: &str)
        ensures
            *final(self) == (Architecture { print: final(self).print, ..*old(self) }),
    {
        self.print.integer_format = String::from_str(fmt);
    }

    fn set_namespace_strategy(&mut self, strategy: NamespaceStrategy)
        ensures
            *final(self) == (Architecture { print: final(self).print, ..*old(self) }),
    {
        self.print.settings.namespaces = strategy;
    }

    fn set_brace_format(&mut self, category: BraceCategory, style: BraceStyle)
        ensures
            *final(self) == (Architecture { print: final(self).print, ..*old(self) }),
    {
        self.print.set_brace_format(category, style);
    }

    fn set_print_language(&mut self, language: &str)
        ensures
            *final(self) == (Architecture { print: final(self).print, ..*old(self) }),
    {
        self.print.name = String::from_str(language);
    }

    fn set_action_warning(&mut self, val: bool, name: &str) -> (r: bool)
        ensures
            *final(self) == (Architecture { allacts: final(self).allacts, ..*old(self) }),
    {
        self.allacts.set_warning(val, name)
    }

    fn clone_action_group(&mut self, from: &str, to: &str)
        ensures
            *final(self) == (Architecture { allacts: final(self).allacts, ..*old(self) }),
    {
        self.allacts.clone_group(from, to);
    }

    fn set_current_action(&mut self, name: &str)
        ensures
            *final(self) == (Architecture { allacts: final(self).allacts, ..*old(self) }),
    {
        self.allacts.set_current(name);
    }

    fn current_action_name(&self) -> (r: String) {
        self.allacts.current_name()
    }

    fn toggle_action(&mut self, group: &str, sub: &str, val: bool)
        ensures
            *final(self) == (Architecture { allacts: final(self).allacts, ..*old(self) }),
    {
        self.allacts.toggle(group, sub, val);
    }

    fn enable_rule(&mut self, path: &str) -> (r: bool)
        ensures
            *final(self) == (Architecture { allacts: final(self).allacts, ..*old(self) }),
    {
        self.allacts.enable(path, true)
    }

    fn disable_rule(&mut self, path: &str) -> (r: bool)
        ensures
            *final(self) == (Architecture { allacts: final(self).allacts, ..*old(self) }),
    {
        self.allacts.enable(path, false)
    }

    fn has_current_action(&self) -> (r: bool) {
        self.allacts.has_current()
    }

    fn allow_context_set(&mut self, val: bool)
        ensures
            *final(self) == (Architecture { engine: final(self).engine, ..*old(self) }),
    {
        self.engine.context_set_allowed = val;
    }
}

/// A reset lands every program on the same ground: whatever options were set before, two
/// architectures that agree on what a reset does not reach agree on all settings after
/// it.
pub proof fn law_wire_reset_reaches_the_baseline(
    a: Architecture,
    a_reset: Architecture,
    b: Architecture,
    b_reset: Architecture,
)
    requires
        is_wire_reset(a, a_reset),
        is_wire_reset(b, b_reset),
        a.basic.min_funcsymbol_size == b.basic.min_funcsymbol_size,
        a.basic.aggressive_ext_trim == b.basic.aggressive_ext_trim,
        a.basic.funcptr_align == b.basic.funcptr_align,
        a.print@.initial_name == b.print@.initial_name,
        a.print@.initial_format == b.print@.initial_format,
        a.print@.initial == b.print@.initial,
    ensures
        a_reset.config@ == b_reset.config@,
        a_reset.config@ == fresh_settings(),
        a_reset.basic == b_reset.basic,
        a_reset.print@.name == b_reset.print@.name,
        a_reset.print@.integer_format == b_reset.print@.integer_format,
        a_reset.print@.settings == b_reset.print@.settings,
{
}

/// A second reset changes no setting.
pub proof fn law_reset_is_final(a: Architecture, once: Architecture, twice: Architecture)
    requires
        is_reset(a, once),
        is_reset(once, twice),
    ensures
        twice.config@ == once.config@,
        twice.basic == once.basic,
{
    crate::option_laws::law_reset_twice_is_reset_once(a.config@);
}

/// A new architecture is what a reset makes of it.
pub proof fn law_new_architecture_is_reset(a: Architecture)
    requires
        a.config@ == fresh_settings(),
        a.basic == fresh_basic(),
    ensures
        reset_settings(a.config@) == a.config@,
        reset_basic(a.basic) == a.basic,
{
    crate::option_laws::law_fresh_settings_are_reset();
}

} // verus!
