//! The context that the analysis of one function works with: what it reads of the
//! architecture, gathered once.

use std::rc::Rc;
use vstd::prelude::*;
use vstd::string::*;
use crate::architecture::{architecture_wf, Architecture, EntrySeeds, UserOp};
use crate::option_table::{
    EVALCURRENTPROTO, FLAG_CARRIED, FLAG_COUNT, LEVEL_CARRIED, LEVEL_COUNT, PEB_NAMES, REALTYPES,
};
use crate::printer::{printed_language, PrintState};
use crate::proto::{model_option, ModelView, ProtoModel, RegistryView};
use crate::pspec::{get_minimum_laned_register_size, LanedRegister};
use crate::pspec_symbols::{merge_entry_seeds, with_seeds, TrackedContext};
use crate::space::{Address, VarnodeData};
use crate::symbols::{
    all_callee_protos, callee_views, global_query, CalleeProto, CalleeView, GlobalQuery,
};
use crate::text::same_text;

verus! {

/// The names of the user-defined operations that the analysis looks for.
pub struct UseropNames {
    /// Byte shuffles.
    pub shuffle: Vec<String>,
    /// The system call.
    pub syscall: String,
}

/// The registers that are known at the entry of the function.
#[derive(Debug)]
pub struct EntryTrack {
    pub first: Address,
    pub end: Address,
    pub registers: Vec<TrackedContext>,
}

/// A function that was declared under a calling convention, by its entry address.
pub struct CalleeModel {
    pub space: usize,
    pub offset: u64,
    pub model: Rc<ProtoModel>,
}

/// What contracts say of a [`CalleeModel`].
pub struct CalleeModelView {
    pub space: usize,
    pub offset: u64,
    pub model: ModelView,
}

impl View for CalleeModel {
    type V = CalleeModelView;

    open spec fn view(&self) -> CalleeModelView {
        CalleeModelView { space: self.space, offset: self.offset, model: (*self.model)@ }
    }
}

/// What contracts say of a list of callee models.
pub open spec fn callee_model_views(v: Seq<CalleeModel>) -> Seq<CalleeModelView> {
    v.map_values(|c: CalleeModel| c@)
}

/// What the analysis of one function reads of the architecture.
pub struct ArchContext {
    pub min_laned_register_size: i32,
    pub lanerecords: Vec<LanedRegister>,
    pub defaultfp: Option<Rc<ProtoModel>>,
    pub evalfp_current: Option<Rc<ProtoModel>>,
    pub default_return_addr: Option<VarnodeData>,
    pub trim_recurse_max: i32,
    /// The switches that the analysis reads; `None` for the others.
    pub flags: [Option<bool>; FLAG_COUNT],
    /// The levels that the analysis reads; `None` for the others.
    pub levels: [Option<i32>; LEVEL_COUNT],
    pub source_is_rust: bool,
    pub name_style_ghidra: bool,
    /// The indices of the byte shuffles and of the system call.
    pub simd_shuffle_userops: Vec<u32>,
    pub x64_syscall_userops: Vec<u32>,
    /// A byte of unknown type is printed as a character.
    pub unknown_byte_is_char: bool,
    /// Small integers are promoted in arithmetic.
    pub int_promotion: bool,
    /// The thread environment block is typed.
    pub peb_names: bool,
    pub outline_spec: String,
    pub analyze_for_loops: bool,
    pub nan_ignore_all: bool,
    pub max_jumptable_size: u32,
    pub alias_block_level: i32,
    pub funcptr_align: i32,
    pub readonlypropagate: bool,
    pub dynreloc_const: Rc<Vec<(u64, u64)>>,
    pub litpool_const: Rc<Vec<(u64, u64)>>,
    pub split_datatype_config: u32,
    pub global_query: Rc<GlobalQuery>,
    pub callee_protos: Rc<Vec<CalleeProto>>,
    pub callee_proto_models: Vec<CalleeModel>,
    pub infer_pointers: bool,
    pub infer_ptr_spaces: Vec<usize>,
    /// What replaces the known registers at the entry of the function.
    pub entry_track: Option<EntryTrack>,
}

/// The first operation, from `i` on, that has this name.
pub open spec fn userop_from(ops: Seq<UserOp>, name: Seq<char>, i: int) -> Option<int>
    decreases ops.len() - i,
{
    if i < 0 || i >= ops.len() {
        None
    } else if ops[i].name@ == name {
        Some(i)
    } else {
        userop_from(ops, name, i + 1)
    }
}

/// The indices of the operations that the first `n` names stand for; a name that the
/// processor does not have stands for none.
pub open spec fn userop_indices(ops: Seq<UserOp>, names: Seq<String>, n: int) -> Seq<u32>
    decreases n,
{
    if n <= 0 {
        seq![]
    } else {
        match userop_from(ops, names[n - 1]@, 0) {
            Some(i) => userop_indices(ops, names, n - 1).push(ops[i].index as u32),
            None => userop_indices(ops, names, n - 1),
        }
    }
}

/// The index of the operation of this name, unless an injection replaces it.
pub open spec fn plain_userop(ops: Seq<UserOp>, name: Seq<char>) -> Seq<u32> {
    match userop_from(ops, name, 0) {
        Some(i) => if ops[i].inject is None {
            seq![ops[i].index as u32]
        } else {
            seq![]
        },
        None => seq![],
    }
}

/// What the printed language can do. A language that is not known is printed as C.
pub struct LanguageCaps {
    pub is_c: bool,
    pub c_for: bool,
    pub integer_promotion: bool,
}

/// What the printed language can do.
pub open spec fn language_caps(p: PrintState) -> LanguageCaps {
    match printed_language(p) {
        Some(l) => LanguageCaps {
            is_c: l.is_c,
            c_for: l.c_for,
            integer_promotion: l.integer_promotion,
        },
        None => LanguageCaps { is_c: true, c_for: true, integer_promotion: true },
    }
}

/// Whether the thread environment block is typed: never, wherever the compiler
/// specification is one for Windows and the image is known to be a Windows program, or
/// wherever the compiler specification is one for Windows.
pub open spec fn peb_names_fire(level: i32, windows_spec: bool, windows_image: bool) -> bool {
    if level == 1 {
        windows_spec && windows_image
    } else if level == 2 {
        windows_spec
    } else {
        false
    }
}

/// The model that unknown prototypes are evaluated with: the one that was chosen, else
/// the specification's choice where that is honoured. Without one the default model is
/// used.
pub open spec fn handle_eval_model(g: RegistryView, honour_spec: bool) -> Option<ModelView> {
    match g.evalfp_current {
        Some(m) => Some(m),
        None => if honour_spec {
            g.evalfp_current_spec
        } else {
            None
        },
    }
}

/// The conventions that the first `n` declared functions were declared under.
pub open spec fn declared_models(
    protos: Seq<CalleeView>,
    declared: Map<Seq<char>, ModelView>,
    n: int,
) -> Seq<CalleeModelView>
    decreases n,
{
    if n <= 0 {
        seq![]
    } else {
        let before = declared_models(protos, declared, n - 1);
        let c = protos[n - 1];
        if declared.contains_key(c.pieces.name) {
            before.push(
                CalleeModelView {
                    space: c.space,
                    offset: c.offset,
                    model: declared[c.pieces.name],
                },
            )
        } else {
            before
        }
    }
}

/// What the loader knows of the first entry, from `i` on, that is this one.
pub open spec fn seeds_from(all: Seq<EntrySeeds>, entry: Address, i: int) -> Option<int>
    decreases all.len() - i,
{
    if i < 0 || i >= all.len() {
        None
    } else if all[i].entry == entry {
        Some(i)
    } else {
        seeds_from(all, entry, i + 1)
    }
}

/// What replaces the known registers at an entry: those that are known there, and what
/// the loader knows besides. Where the loader knows nothing, or the entry is the last
/// address, nothing is replaced.
pub open spec fn entry_track(all: Seq<EntrySeeds>, entry: Address, known: Seq<TrackedContext>) -> Option<
    (Address, Address, Seq<TrackedContext>),
> {
    match seeds_from(all, entry, 0) {
        Some(i) => if entry.offset < u64::MAX {
            Some(
                (
                    entry,
                    Address { space: entry.space, offset: (entry.offset + 1) as u64 },
                    with_seeds(known, all[i].registers@),
                ),
            )
        } else {
            None
        },
        None => None,
    }
}

/// What contracts say of an optional [`EntryTrack`].
pub open spec fn track_view(t: Option<EntryTrack>) -> Option<
    (Address, Address, Seq<TrackedContext>),
> {
    match t {
        Some(e) => Some((e.first, e.end, e.registers@)),
        None => None,
    }
}

/// Whether the context holds what the analysis reads of the architecture's settings.
pub open spec fn carries_settings(ctx: ArchContext, a: Architecture, windows_spec: bool) -> bool {
    let caps = language_caps(a.print@);
    &&& forall|f: int|
        0 <= f < FLAG_COUNT ==> #[trigger] ctx.flags@[f] == if FLAG_CARRIED@[f] {
            Some(a.config.flags@[f])
        } else {
            None
        }
    &&& forall|l: int|
        0 <= l < LEVEL_COUNT ==> #[trigger] ctx.levels@[l] == if LEVEL_CARRIED@[l] {
            Some(a.config.levels@[l])
        } else {
            None
        }
    &&& ctx.trim_recurse_max == a.basic.trim_recurse_max
    &&& ctx.source_is_rust == a.image.source_is_rust
    &&& ctx.name_style_ghidra == a.image.name_style_ghidra
    &&& ctx.unknown_byte_is_char == (a.config.flags@[REALTYPES as int] && caps.is_c)
    &&& ctx.int_promotion == caps.integer_promotion
    &&& ctx.peb_names == peb_names_fire(
        a.config.levels@[PEB_NAMES as int],
        windows_spec,
        a.image.image_windows_user,
    )
    &&& ctx.outline_spec@ == a.config.outline_spec@
    &&& ctx.analyze_for_loops == (a.basic.analyze_for_loops && caps.c_for)
    &&& ctx.nan_ignore_all == a.basic.nan_ignore_all
    &&& ctx.max_jumptable_size == a.basic.max_jumptable_size
    &&& ctx.alias_block_level == a.basic.alias_block_level
    &&& ctx.funcptr_align == a.basic.funcptr_align
    &&& ctx.readonlypropagate == a.basic.readonlypropagate
    &&& ctx.dynreloc_const == a.loader.dynreloc_const
    &&& ctx.litpool_const == a.loader.litpool_const
    &&& ctx.split_datatype_config == a.basic.split_datatype_config
    &&& ctx.infer_pointers == a.basic.infer_pointers
    &&& ctx.infer_ptr_spaces@ == a.infer_ptr_spaces@
}

/// Whether the context holds what the analysis reads of the architecture's tables.
pub open spec fn carries_tables(ctx: ArchContext, a: Architecture, names: UseropNames) -> bool {
    &&& ctx.lanerecords@ == a.lanerecords@
    &&& ctx.min_laned_register_size == if a.lanerecords@.len() == 0 {
        (-1) as i32
    } else {
        a.lanerecords@[0].whole_size
    }
    &&& model_option(ctx.defaultfp) == a.models@.defaultfp
    &&& model_option(ctx.evalfp_current) == handle_eval_model(
        a.models@,
        a.config.flags@[EVALCURRENTPROTO as int],
    )
    &&& ctx.default_return_addr == a.default_return_addr
    &&& ctx.simd_shuffle_userops@ == userop_indices(
        a.userops@,
        names.shuffle@,
        names.shuffle@.len() as int,
    )
    &&& ctx.x64_syscall_userops@ == plain_userop(a.userops@, names.syscall@)
    &&& (*ctx.global_query)@ == global_query(a.symbols.table@)
    &&& callee_views((*ctx.callee_protos)@) == all_callee_protos(a.symbols.table@)
    &&& callee_model_views(ctx.callee_proto_models@) == declared_models(
        all_callee_protos(a.symbols.table@),
        a.models@.declared,
        all_callee_protos(a.symbols.table@).len() as int,
    )
}

fn find_userop(ops: &Vec<UserOp>, name: &str) -> (r: Option<usize>)
    ensures
        match r {
            Some(i) => i < ops@.len() && userop_from(ops@, name@, 0) == Some(i as int),
            None => userop_from(ops@, name@, 0) is None,
        },
{
    let mut i: usize = 0;
    while i < ops.len()
        invariant
            i <= ops@.len(),
            userop_from(ops@, name@, 0) == userop_from(ops@, name@, i as int),
        decreases ops@.len() - i,
    {
        if same_text(ops[i].name.as_str(), name) {
            return Some(i);
        }
        i += 1;
    }
    None
}

fn find_userop_indices(ops: &Vec<UserOp>, names: &Vec<String>) -> (r: Vec<u32>)
    ensures
        r@ == userop_indices(ops@, names@, names@.len() as int),
{
    let mut r: Vec<u32> = Vec::new();
    let mut i: usize = 0;
    while i < names.len()
        invariant
            i <= names@.len(),
            r@ == userop_indices(ops@, names@, i as int),
        decreases names@.len() - i,
    {
        if let Some(k) = find_userop(ops, names[i].as_str()) {
            r.push(ops[k].index as u32);
        }
        i += 1;
    }
    r
}

fn find_plain_userop(ops: &Vec<UserOp>, name: &str) -> (r: Vec<u32>)
    ensures
        r@ == plain_userop(ops@, name@),
{
    let mut r: Vec<u32> = Vec::new();
    if let Some(i) = find_userop(ops, name) {
        if ops[i].inject.is_none() {
            r.push(ops[i].index as u32);
        }
    }
    assert(r@ =~= plain_userop(ops@, name@));
    r
}

impl Architecture {
    fn caps(&self) -> (r: LanguageCaps)
        ensures
            r == language_caps(self.print@),
    {
        match self.print.find_language(self.print.name.as_str()) {
            Some(l) => LanguageCaps {
                is_c: l.is_c,
                c_for: l.c_for,
                integer_promotion: l.integer_promotion,
            },
            None => LanguageCaps { is_c: true, c_for: true, integer_promotion: true },
        }
    }

    fn carried_flags(&self) -> (r: [Option<bool>; FLAG_COUNT])
        ensures
            forall|f: int|
                0 <= f < FLAG_COUNT ==> #[trigger] r@[f] == if FLAG_CARRIED@[f] {
                    Some(self.config.flags@[f])
                } else {
                    None
                },
    {
        let mut r: [Option<bool>; FLAG_COUNT] = [None; 198];
        let mut i: usize = 0;
        while i < FLAG_COUNT
            invariant
                i <= FLAG_COUNT,
                forall|f: int| i <= f < FLAG_COUNT ==> #[trigger] r@[f] is None,
                forall|f: int|
                    0 <= f < i ==> #[trigger] r@[f] == if FLAG_CARRIED@[f] {
                        Some(self.config.flags@[f])
                    } else {
                        None
                    },
            decreases FLAG_COUNT - i,
        {
            if FLAG_CARRIED[i] {
                r[i] = Some(self.config.flags[i]);
            }
            i += 1;
        }
        r
    }

    fn carried_levels(&self) -> (r: [Option<i32>; LEVEL_COUNT])
        ensures
            forall|l: int|
                0 <= l < LEVEL_COUNT ==> #[trigger] r@[l] == if LEVEL_CARRIED@[l] {
                    Some(self.config.levels@[l])
                } else {
                    None
                },
    {
        let mut r: [Option<i32>; LEVEL_COUNT] = [None; 17];
        let mut i: usize = 0;
        while i < LEVEL_COUNT
            invariant
                i <= LEVEL_COUNT,
                forall|l: int| i <= l < LEVEL_COUNT ==> #[trigger] r@[l] is None,
                forall|l: int|
                    0 <= l < i ==> #[trigger] r@[l] == if LEVEL_CARRIED@[l] {
                        Some(self.config.levels@[l])
                    } else {
                        None
                    },
            decreases LEVEL_COUNT - i,
        {
            if LEVEL_CARRIED[i] {
                r[i] = Some(self.config.levels[i]);
            }
            i += 1;
        }
        r
    }

    fn eval_model_for_handle(&self) -> (r: Option<Rc<ProtoModel>>)
        ensures
            model_option(r) == handle_eval_model(
                self.models@,
                self.config.flags@[EVALCURRENTPROTO as int],
            ),
    {
        match &self.models.evalfp_current {
            Some(m) => Some(Rc::clone(m)),
            None => if self.config.flags[EVALCURRENTPROTO] {
                match &self.models.evalfp_current_spec {
                    Some(m) => Some(Rc::clone(m)),
                    None => None,
                }
            } else {
                None
            },
        }
    }

    fn declared_callee_models(&self, protos: &Vec<CalleeProto>) -> (r: Vec<CalleeModel>)
        ensures
            callee_model_views(r@) == declared_models(
                callee_views(protos@),
                self.models@.declared,
                protos@.len() as int,
            ),
    {
        let mut r: Vec<CalleeModel> = Vec::new();
        let mut i: usize = 0;
        assert(callee_model_views(r@) =~= seq![]);
        while i < protos.len()
            invariant
                i <= protos@.len(),
                callee_model_views(r@) == declared_models(
                    callee_views(protos@),
                    self.models@.declared,
                    i as int,
                ),
            decreases protos@.len() - i,
        {
            let c = &protos[i];
            assert(callee_views(protos@)[i as int] == c@);
            if let Some(m) = self.models.declared.get(c.pieces.name.as_str()) {
                let ghost was = r@;
                let found = CalleeModel {
                    space: c.space,
                    offset: c.offset,
                    model: Rc::clone(m),
                };
                let ghost view = found@;
                r.push(found);
                assert(callee_model_views(r@) =~= callee_model_views(was).push(view));
            }
            i += 1;
        }
        r
    }

    fn track_for_entry(&self, entry: Address, known: &Vec<TrackedContext>) -> (r: Option<
        EntryTrack,
    >)
        ensures
            track_view(r) == entry_track(self.loader.loader_entry_tracks@, entry, known@),
    {
        let mut i: usize = 0;
        while i < self.loader.loader_entry_tracks.len() && self.loader.loader_entry_tracks[i].entry != entry
            invariant
                i <= self.loader.loader_entry_tracks@.len(),
                seeds_from(self.loader.loader_entry_tracks@, entry, 0) == seeds_from(
                    self.loader.loader_entry_tracks@,
                    entry,
                    i as int,
                ),
            decreases self.loader.loader_entry_tracks@.len() - i,
        {
            i += 1;
        }
        if i == self.loader.loader_entry_tracks.len() || entry.offset == u64::MAX {
            return None;
        }
        let registers = merge_entry_seeds(known, &self.loader.loader_entry_tracks[i].registers);
        Some(
            EntryTrack {
                first: entry,
                end: Address { space: entry.space, offset: entry.offset + 1 },
                registers,
            },
        )
    }

    /// The context for an analysis. `windows_spec` tells whether the compiler
    /// specification is one for Windows.
    pub fn build_arch_handle(&mut self, names: &UseropNames, windows_spec: bool) -> (r: ArchContext)
        requires
            architecture_wf(*old(self)),
        ensures
            architecture_wf(*final(self)),
            final(self).symbols.table == old(self).symbols.table,
            *final(self) == (Architecture { symbols: final(self).symbols, ..*old(self) }),
            carries_settings(r, *old(self), windows_spec),
            carries_tables(r, *old(self), *names),
            r.entry_track is None,
    {
        self.build_arch_handle_for_entry(None, names, windows_spec)
    }

    /// The context for the analysis of a function. `entry` holds the address of the
    /// function, where there is one, and the registers that are known there.
    pub fn build_arch_handle_for_entry(
        &mut self,
        entry: Option<(Address, &Vec<TrackedContext>)>,
        names: &UseropNames,
        windows_spec: bool,
    ) -> (r: ArchContext)
        requires
            architecture_wf(*old(self)),
        ensures
            architecture_wf(*final(self)),
            final(self).symbols.table == old(self).symbols.table,
            *final(self) == (Architecture { symbols: final(self).symbols, ..*old(self) }),
            carries_settings(r, *old(self), windows_spec),
            carries_tables(r, *old(self), *names),
            track_view(r.entry_track) == match entry {
                Some((at, known)) => entry_track(old(self).loader.loader_entry_tracks@, at, known@),
                None => None,
            },
    {
        let (query, callees) = self.symbols.symbol_snapshots();
        let callee_proto_models = self.declared_callee_models(&callees);
        let caps = self.caps();
        let peb_level: i32 = self.config.levels[PEB_NAMES];
        let peb_names = if peb_level == 1 {
            windows_spec && self.image.image_windows_user
        } else if peb_level == 2 {
            windows_spec
        } else {
            false
        };
        let mut lanerecords: Vec<LanedRegister> = Vec::new();
        let mut i: usize = 0;
        while i < self.lanerecords.len()
            invariant
                i <= self.lanerecords@.len(),
                lanerecords@ == self.lanerecords@.take(i as int),
            decreases self.lanerecords@.len() - i,
        {
            lanerecords.push(self.lanerecords[i]);
            assert(lanerecords@ =~= self.lanerecords@.take(i + 1));
            i += 1;
        }
        assert(lanerecords@ =~= self.lanerecords@);
        let mut infer_ptr_spaces: Vec<usize> = Vec::new();
        let mut j: usize = 0;
        while j < self.infer_ptr_spaces.len()
            invariant
                j <= self.infer_ptr_spaces@.len(),
                infer_ptr_spaces@ == self.infer_ptr_spaces@.take(j as int),
            decreases self.infer_ptr_spaces@.len() - j,
        {
            infer_ptr_spaces.push(self.infer_ptr_spaces[j]);
            assert(infer_ptr_spaces@ =~= self.infer_ptr_spaces@.take(j + 1));
            j += 1;
        }
        assert(infer_ptr_spaces@ =~= self.infer_ptr_spaces@);
        let entry_track = match entry {
            Some((at, known)) => self.track_for_entry(at, known),
            None => None,
        };
        ArchContext {
            min_laned_register_size: get_minimum_laned_register_size(&self.lanerecords),
            lanerecords,
            defaultfp: match &self.models.defaultfp {
                Some(m) => Some(Rc::clone(m)),
                None => None,
            },
            evalfp_current: self.eval_model_for_handle(),
            default_return_addr: self.default_return_addr,
            trim_recurse_max: self.basic.trim_recurse_max,
            flags: self.carried_flags(),
            levels: self.carried_levels(),
            source_is_rust: self.image.source_is_rust,
            name_style_ghidra: self.image.name_style_ghidra,
            simd_shuffle_userops: find_userop_indices(&self.userops, &names.shuffle),
            x64_syscall_userops: find_plain_userop(&self.userops, names.syscall.as_str()),
            unknown_byte_is_char: self.config.flags[REALTYPES] && caps.is_c,
            int_promotion: caps.integer_promotion,
            peb_names,
            outline_spec: self.config.outline_spec.clone(),
            analyze_for_loops: self.basic.analyze_for_loops && caps.c_for,
            nan_ignore_all: self.basic.nan_ignore_all,
            max_jumptable_size: self.basic.max_jumptable_size,
            alias_block_level: self.basic.alias_block_level,
            funcptr_align: self.basic.funcptr_align,
            readonlypropagate: self.basic.readonlypropagate,
            dynreloc_const: Rc::clone(&self.loader.dynreloc_const),
            litpool_const: Rc::clone(&self.loader.litpool_const),
            split_datatype_config: self.basic.split_datatype_config,
            global_query: query,
            callee_protos: callees,
            callee_proto_models,
            infer_pointers: self.basic.infer_pointers,
            infer_ptr_spaces,
            entry_track,
        }
    }
}

/// Two contexts that are built one after the other hold the same tables, whether or not
/// views of the symbol table are kept in between.
pub proof fn law_contexts_agree(
    first: ArchContext,
    second: ArchContext,
    a: Architecture,
    b: Architecture,
    names: UseropNames,
)
    requires
        carries_tables(first, a, names),
        carries_tables(second, b, names),
        b == (Architecture { symbols: b.symbols, ..a }),
        b.symbols.table == a.symbols.table,
    ensures
        (*first.global_query)@ == (*second.global_query)@,
        callee_views((*first.callee_protos)@) == callee_views((*second.callee_protos)@),
        callee_model_views(first.callee_proto_models@) == callee_model_views(
            second.callee_proto_models@,
        ),
        model_option(first.evalfp_current) == model_option(second.evalfp_current),
{
}

} // verus!
