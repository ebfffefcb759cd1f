//! Reading and writing single parts of an architecture.

use std::rc::Rc;
use vstd::prelude::*;
use vstd::string::*;
use crate::actions::{select_effect, ActionDatabase, ActionState};
use crate::architecture::{architecture_wf, Architecture, LoaderFacts, Specifications, TypeOp};
use crate::comments::WarningView;
use crate::error::{outcome, KunaError};
use crate::option_table::NAME_STYLE_ANGR;
use crate::printer::{language_effect, Printer};
use crate::proto::{eval_model, model_option, with_model, ModelView, ProtoModel, RegistryView};
use crate::pspec::{get_laned_register, get_minimum_laned_register_size, LanedRegister};
use crate::space::{register_result, Address, Engine, VarnodeData};
use crate::symbols::{
    function_at_from, function_result, global_function, global_query, with_function, FunctionView,
    GlobalQuery, PiecesView, PrototypePieces, TableView,
};
use crate::text::{join2, text_before};
use crate::xml::SpecDocument;

verus! {

/// The vocabulary of names that are made up.
#[derive(Debug, Clone, Copy, PartialEq, Eq, Structural)]
pub enum KunaNameStyle {
    /// The host's.
    Ghidra,
    /// `sub_` and the address.
    Angr,
    /// `func_` and the address.
    Func,
}

/// What a host's provider starts from.
pub struct RemoteParts {
    /// The models, in the order of their names.
    pub models: Vec<(String, Rc<ProtoModel>)>,
    pub defaultfp: Option<Rc<ProtoModel>>,
    /// What is known of the symbols.
    pub base: GlobalQuery,
}

/// Whether the list holds the models of the registry, in the order of their names.
pub open spec fn names_of(list: Seq<(String, Rc<ProtoModel>)>, models: Map<Seq<char>, ModelView>)
    -> bool {
    &&& forall|i: int, j: int|
        0 <= i < j < list.len() ==> text_before(#[trigger] list[i].0@, #[trigger] list[j].0@)
    &&& forall|i: int|
        0 <= i < list.len() ==> models.contains_pair(
            (#[trigger] list[i]).0@,
            (*list[i].1)@,
        )
    &&& forall|name: Seq<char>| #[trigger]
        models.contains_key(name) ==> exists|i: int|
            0 <= i < list.len() && (#[trigger] list[i]).0@ == name
}

/// A cache of what a host has said.
#[derive(Debug, Clone, Copy, PartialEq, Eq, Structural)]
pub enum RemoteCache {
    /// Symbols and the properties of memory.
    Symbols,
    /// Data-types other than the core types.
    Types,
    /// Decoded strings.
    Strings,
}

/// What is needed to build an engine that decodes alike.
pub struct EngineRecipe {
    pub archid: String,
    pub sla: Rc<Vec<u8>>,
    pub truncations: Rc<Vec<(String, u32)>>,
}

/// The names that a function at an address can get, one for each vocabulary: the whole
/// name in the first two, the address alone in the last.
pub struct AddressNames<'a> {
    pub ghidra: &'a str,
    pub angr: &'a str,
    pub raw: &'a str,
}

/// The vocabulary of names that are made up: the host's where that is asked for, else the one
/// that the switch chooses.
pub open spec fn name_style(host: bool, angr: bool) -> KunaNameStyle {
    if host {
        KunaNameStyle::Ghidra
    } else if angr {
        KunaNameStyle::Angr
    } else {
        KunaNameStyle::Func
    }
}

/// The name of a function that has none, in a vocabulary.
pub open spec fn made_up_name(
    style: KunaNameStyle,
    ghidra: Seq<char>,
    angr: Seq<char>,
    raw: Seq<char>,
) -> Seq<char> {
    match style {
        KunaNameStyle::Ghidra => ghidra,
        KunaNameStyle::Angr => angr,
        KunaNameStyle::Func => "func_"@ + raw,
    }
}

/// The host's vocabulary comes before the other two, and the switch decides between those; in
/// the last the name is `func_` and the address.
pub proof fn law_names_by_style(
    host: bool,
    angr: bool,
    a: Seq<char>,
    b: Seq<char>,
    c: Seq<char>,
)
    ensures
        host ==> made_up_name(name_style(host, angr), a, b, c) == a,
        !host && angr ==> made_up_name(name_style(host, angr), a, b, c) == b,
        !host && !angr ==> made_up_name(name_style(host, angr), a, b, c) == "func_"@ + c,
        host ==> name_style(host, angr) == KunaNameStyle::Ghidra,
        !host && angr ==> name_style(host, angr) == KunaNameStyle::Angr,
        !host && !angr ==> name_style(host, angr) == KunaNameStyle::Func,
{
}

/// The types of comments that are printed: in the header or at instructions.
pub open spec fn comment_filter(header: u32, instruction: u32) -> u32 {
    header | instruction
}

/// A type of comment is printed where the header or an instruction shows it, and not else.
pub proof fn law_comments_are_printed_somewhere(header: u32, instruction: u32, bit: u32)
    ensures
        comment_filter(header, instruction) & bit == (header & bit) | (instruction & bit),
{
    assert((header | instruction) & bit == (header & bit) | (instruction & bit)) by (bit_vector);
}

/// The properties of an operation code: those of the table, else the canonical ones.
pub open spec fn typeop_at(inst: Seq<Option<TypeOp>>, opc: int, canonical: TypeOp) -> TypeOp {
    if opc < inst.len() && inst[opc] is Some {
        inst[opc]->0
    } else {
        canonical
    }
}

/// What the table says of an operation code counts; where it says nothing, or does not reach so
/// far, the canonical properties do.
pub proof fn law_table_of_operations_counts(
    inst: Seq<Option<TypeOp>>,
    opc: int,
    canonical: TypeOp,
    t: TypeOp,
)
    requires
        0 <= opc,
    ensures
        opc < inst.len() && inst[opc] == Some(t) ==> typeop_at(inst, opc, canonical) == t,
        opc < inst.len() && inst[opc] is None ==> typeop_at(inst, opc, canonical) == canonical,
        opc >= inst.len() ==> typeop_at(inst, opc, canonical) == canonical,
{
}

/// The caches to drop for a fresh start, in order.
pub open spec fn caches_to_drop(remote: bool) -> Seq<RemoteCache> {
    if remote {
        seq![RemoteCache::Symbols, RemoteCache::Types, RemoteCache::Strings]
    } else {
        seq![RemoteCache::Types, RemoteCache::Strings]
    }
}

/// Types are dropped before strings, always; symbols before both, where a host is installed.
pub proof fn law_caches_are_dropped_in_order(remote: bool)
    ensures
        ({
            let l = caches_to_drop(remote);
            let n = l.len() as int;
            &&& n == if remote {
                3int
            } else {
                2
            }
            &&& l[n - 1] == RemoteCache::Strings && l[n - 2] == RemoteCache::Types
            &&& remote ==> l[0] == RemoteCache::Symbols
        }),
{
}

/// The table with a declared prototype parked on the function at a place; without a place
/// nothing happens.
pub open spec fn with_pieces(t: TableView, at: Option<int>, pieces: PiecesView) -> TableView {
    match at {
        Some(i) => with_function(
            t,
            i,
            FunctionView { pieces: Some(pieces), ..t.functions[i] },
        ),
        None => t,
    }
}

/// A declared prototype is parked on one function, and nothing else of the table changes.
pub proof fn law_prototype_is_parked(t: TableView, at: Option<int>, pieces: PiecesView, j: int)
    requires
        at matches Some(i) ==> 0 <= i < t.functions.len(),
        0 <= j < t.functions.len(),
    ensures
        ({
            let after = with_pieces(t, at, pieces);
            &&& after.functions.len() == t.functions.len()
            &&& after.ranges == t.ranges && after.has_global == t.has_global
            &&& at == Some(j) ==> after.functions[j].pieces == Some(pieces) && after.functions[j]
                == (FunctionView { pieces: Some(pieces), ..t.functions[j] })
            &&& at != Some(j) ==> after.functions[j] == t.functions[j]
        }),
{
}

/// A tree of actions with its `decompile` group current, where it has one.
pub open spec fn installed_actions(tree: ActionState) -> ActionState {
    select_effect(tree, "decompile"@)
}

/// The `decompile` group is current once the actions are installed; a tree without it keeps its
/// own. The groups are those of the tree.
pub proof fn law_decompile_is_current(tree: ActionState)
    ensures
        tree.groups.contains_key("decompile"@) ==> installed_actions(tree).current == Some(
            "decompile"@,
        ),
        !tree.groups.contains_key("decompile"@) ==> installed_actions(tree).current == tree.current,
        installed_actions(tree).groups == tree.groups,
        installed_actions(tree).toggles == tree.toggles,
{
}

/// Whether an engine that decodes alike can be built.
pub open spec fn recipe_known(loader: LoaderFacts, local: bool) -> bool {
    loader.decode_sla is Some && loader.decode_truncations is Some && local
}

/// A recipe needs the language description, the truncations, and an engine that decodes here.
pub proof fn law_recipe_needs_all(loader: LoaderFacts)
    ensures
        !recipe_known(loader, false),
        loader.decode_sla is None ==> !recipe_known(loader, true),
        loader.decode_truncations is None ==> !recipe_known(loader, true),
        loader.decode_sla is Some && loader.decode_truncations is Some ==> recipe_known(
            loader,
            true,
        ),
{
}

impl Architecture {
    // ---- the engine -----------------------------------------------------------------

    /// The engine, for its address spaces.
    pub fn manage(&self) -> (r: &Engine)
        ensures
            *r == self.engine,
    {
        &self.engine
    }

    /// The engine.
    pub fn translate(&self) -> (r: &Engine)
        ensures
            *r == self.engine,
    {
        &self.engine
    }

    /// The engine, to change it.
    pub fn translate_mut(&mut self) -> (r: &mut Engine)
        ensures
            *r == old(self).engine,
            *final(self) == (Architecture { engine: *final(r), ..*old(self) }),
    {
        &mut self.engine
    }

    /// The storage of the register with this name.
    pub fn get_register_varnode(&self, name: &str) -> (r: Result<VarnodeData, KunaError>)
        ensures
            outcome(r) == register_result(self.engine@, name@),
    {
        self.engine.get_register_varnode(name)
    }

    /// Whether decoding instructions may change the context.
    pub fn context_allow_set(&mut self, val: bool)
        ensures
            *final(self) == (Architecture {
                engine: Engine { context_set_allowed: val, ..old(self).engine },
                ..*old(self)
            }),
    {
        self.engine.context_set_allowed = val;
    }

    /// The width of a data address and of an addressable unit.
    pub fn data_org(&self) -> (r: (i32, u32))
        requires
            architecture_wf(*self),
            self.engine@.data_space is Some,
        ensures
            ({
                let info = self.engine@.spaces[self.engine@.data_space->0 as int].info;
                r == (info.addr_size as i32, info.word_size)
            }),
    {
        self.engine.data_org()
    }

    /// Note down the language description that the engine was made from.
    pub fn set_decode_sla(&mut self, sla: Rc<Vec<u8>>)
        ensures
            *final(self) == (Architecture {
                loader: LoaderFacts { decode_sla: Some(sla), ..old(self).loader },
                ..*old(self)
            }),
    {
        self.loader.decode_sla = Some(sla);
    }

    /// Note down the spaces that the language truncates.
    pub fn set_decode_truncations(&mut self, truncations: Vec<(String, u32)>)
        ensures
            final(self).loader.decode_truncations is Some,
            *(final(self).loader.decode_truncations->0) == truncations,
            *final(self) == (Architecture {
                loader: LoaderFacts {
                    decode_truncations: final(self).loader.decode_truncations,
                    ..old(self).loader
                },
                ..*old(self)
            }),
    {
        self.loader.decode_truncations = Some(Rc::new(truncations));
    }

    /// What is needed to build an engine that decodes alike: there is no such thing for
    /// an engine that does not decode instructions itself, nor before both the language
    /// description and the truncations are known.
    pub fn decode_recipe(&self) -> (r: Option<EngineRecipe>)
        ensures
            r is Some <==> self.loader.decode_sla is Some && self.loader.decode_truncations is Some
                && self.engine.local,
            r is Some <==> recipe_known(self.loader, self.engine.local),
            r is Some ==> (r->0).archid@ == self.archid@ && (r->0).sla == self.loader.decode_sla->0
                && (r->0).truncations == self.loader.decode_truncations->0,
    {
        let sla = match &self.loader.decode_sla {
            Some(s) => Rc::clone(s),
            None => {
                return None;
            },
        };
        let truncations = match &self.loader.decode_truncations {
            Some(t) => Rc::clone(t),
            None => {
                return None;
            },
        };
        if !self.engine.local {
            return None;
        }
        Some(EngineRecipe { archid: self.archid.clone(), sla, truncations })
    }

    // ---- vector registers -----------------------------------------------------------

    /// The smallest size that has lanes, -1 where none has.
    pub fn get_minimum_laned_register_size(&self) -> (r: i32)
        requires
            architecture_wf(*self),
        ensures
            self.lanerecords@.len() == 0 ==> r == -1,
            self.lanerecords@.len() > 0 ==> r == self.lanerecords@[0].whole_size && forall|i: int|
                0 <= i < self.lanerecords@.len() ==> r <= (
                #[trigger] self.lanerecords@[i]).whole_size,
    {
        get_minimum_laned_register_size(&self.lanerecords)
    }

    /// The record for registers of this size; where the register lies does not matter.
    pub fn get_laned_register(&self, loc: &Address, size: i32) -> (r: Option<&LanedRegister>)
        requires
            architecture_wf(*self),
        ensures
            match r {
                Some(l) => l.whole_size == size && exists|i: int|
                    0 <= i < self.lanerecords@.len() && #[trigger] self.lanerecords@[i] == *l,
                None => forall|i: int|
                    0 <= i < self.lanerecords@.len() ==> (
                    #[trigger] self.lanerecords@[i]).whole_size != size,
            },
    {
        get_laned_register(&self.lanerecords, size)
    }

    // ---- names ----------------------------------------------------------------------

    /// What the architecture is called.
    pub fn get_description(&self) -> (r: &str)
        ensures
            r@ == self.archid@,
    {
        self.archid.as_str()
    }

    /// The vocabulary of names that are made up: the host's where that is asked for.
    pub fn kuna_name_style(&self) -> (r: KunaNameStyle)
        ensures
            r == name_style(
                self.image.name_style_ghidra,
                self.config.flags@[NAME_STYLE_ANGR as int],
            ),
    {
        if self.image.name_style_ghidra {
            KunaNameStyle::Ghidra
        } else if self.config.flags[NAME_STYLE_ANGR] {
            KunaNameStyle::Angr
        } else {
            KunaNameStyle::Func
        }
    }

    /// The name of a function that has none, from what its address is called.
    pub fn name_function(&self, names: &AddressNames) -> (r: String)
        ensures
            r@ == made_up_name(
                name_style(
                    self.image.name_style_ghidra,
                    self.config.flags@[NAME_STYLE_ANGR as int],
                ),
                names.ghidra@,
                names.angr@,
                names.raw@,
            ),
    {
        match self.kuna_name_style() {
            KunaNameStyle::Ghidra => String::from_str(names.ghidra),
            KunaNameStyle::Angr => String::from_str(names.angr),
            KunaNameStyle::Func => join2("func_", names.raw),
        }
    }

    // ---- symbols --------------------------------------------------------------------

    /// The function of the global scope that has this name.
    pub fn query_global_function(&self, name: &str) -> (r: Result<usize, KunaError>)
        ensures
            outcome(r) == function_result(self.symbols.table@, name@),
    {
        self.symbols.table.query_global_function(name)
    }

    /// Park a declared prototype on the global function of this name; without one nothing
    /// happens.
    pub fn set_function_prototype_pieces(&mut self, name: &str, pieces: PrototypePieces)
        requires
            architecture_wf(*old(self)),
        ensures
            architecture_wf(*final(self)),
            final(self).symbols.table@ == with_pieces(
                old(self).symbols.table@,
                global_function(old(self).symbols.table@, name@),
                pieces@,
            ),
            *final(self) == (Architecture { symbols: final(self).symbols, ..*old(self) }),
    {
        self.symbols.set_function_prototype_pieces(name, pieces);
    }

    /// Park a declared prototype on the function that starts at the address; without one
    /// nothing happens.
    pub fn set_function_prototype_pieces_at(&mut self, addr: &Address, pieces: PrototypePieces)
        requires
            architecture_wf(*old(self)),
        ensures
            architecture_wf(*final(self)),
            final(self).symbols.table@ == with_pieces(
                old(self).symbols.table@,
                function_at_from(old(self).symbols.table@, *addr, 0),
                pieces@,
            ),
            *final(self) == (Architecture { symbols: final(self).symbols, ..*old(self) }),
    {
        self.symbols.set_function_prototype_pieces_at(*addr, pieces);
    }

    /// Keep views of the symbol table for the next function, or do not.
    pub fn set_symbol_snapshot_cache(&mut self, on: bool)
        requires
            architecture_wf(*old(self)),
        ensures
            architecture_wf(*final(self)),
            final(self).symbols.table == old(self).symbols.table,
            final(self).symbols.cache_on == on,
            *final(self) == (Architecture { symbols: final(self).symbols, ..*old(self) }),
    {
        self.symbols.set_symbol_snapshot_cache(on);
    }

    // ---- the printer ----------------------------------------------------------------

    /// The printer.
    pub fn print(&self) -> (r: &Printer)
        ensures
            *r == self.print,
    {
        &self.print
    }

    /// The printer, to change it.
    pub fn print_mut(&mut self) -> (r: &mut Printer)
        ensures
            *r == old(self).print,
            *final(self) == (Architecture { print: *final(r), ..*old(self) }),
    {
        &mut self.print
    }

    /// Take the printer out and leave another one in its place.
    pub fn take_print(&mut self, fresh: Printer) -> (r: Printer)
        ensures
            r == old(self).print,
            *final(self) == (Architecture { print: fresh, ..*old(self) }),
    {
        let mut p = fresh;
        core::mem::swap(&mut self.print, &mut p);
        p
    }

    /// Put a printer back.
    pub fn put_print(&mut self, print: Printer)
        ensures
            *final(self) == (Architecture { print, ..*old(self) }),
    {
        self.print = print;
    }

    /// The types of comments that are printed at all.
    pub fn printer_comment_filter(&self) -> (r: u32)
        ensures
            r == comment_filter(
                self.print.settings.header_comment,
                self.print.settings.instruction_comment,
            ),
    {
        self.print.settings.header_comment | self.print.settings.instruction_comment
    }

    /// Choose the language that is printed; one that cannot be printed is refused.
    pub fn set_print_language_checked(&mut self, name: &str) -> (r: Result<(), KunaError>)
        ensures
            (final(self).print@, outcome(r)) == language_effect(old(self).print@, name@),
            *final(self) == (Architecture { print: final(self).print, ..*old(self) }),
    {
        self.print.choose_language(name)
    }

    // ---- a host ---------------------------------------------------------------------

    /// What a host's provider starts from: the models by name, the default model, and
    /// what is known of the symbols. From then on a host is installed.
    pub fn install_remote_provider(&mut self) -> (r: RemoteParts)
        ensures
            names_of(r.models@, old(self).models@.models),
            model_option(r.defaultfp) == old(self).models@.defaultfp,
            r.base@ == global_query(old(self).symbols.table@),
            *final(self) == (Architecture { remote_installed: true, ..*old(self) }),
    {
        let names = self.models.models.names();
        let mut models: Vec<(String, Rc<ProtoModel>)> = Vec::new();
        let ghost known = self.models.models@;
        let mut i: usize = 0;
        while i < names.len()
            invariant
                i <= names@.len(),
                known == self.models.models@,
                *self == *old(self),
                forall|k: int|
                    0 <= k < names@.len() ==> known.contains_key((#[trigger] names@[k])@),
                models@.len() == i,
                forall|k: int|
                    0 <= k < i ==> (#[trigger] models@[k]).0@ == names@[k]@ && models@[k].1
                        == known[names@[k]@],
            decreases names@.len() - i,
        {
            assert(known.contains_key(names@[i as int]@));
            match self.models.models.get(names[i].as_str()) {
                Some(m) => {
                    models.push((names[i].clone(), Rc::clone(m)));
                },
                None => {},
            }
            i += 1;
        }
        proof {
            let all = self.models@.models;
            assert forall|a: int, b: int| 0 <= a < b < models@.len() implies text_before(
                #[trigger] models@[a].0@,
                #[trigger] models@[b].0@,
            ) by {
                assert(text_before(names@[a]@, names@[b]@));
            }
            assert forall|k: int| 0 <= k < models@.len() implies all.contains_pair(
                (#[trigger] models@[k]).0@,
                (*models@[k].1)@,
            ) by {
                assert(known.contains_key(names@[k]@));
            }
            assert forall|name: Seq<char>| #[trigger] all.contains_key(name) implies exists|k: int|
                0 <= k < models@.len() && (#[trigger] models@[k]).0@ == name by {
                assert(known.contains_key(name));
                let k = choose|k: int| 0 <= k < names@.len() && (#[trigger] names@[k])@ == name;
                assert(models@[k].0@ == name);
            }
        }
        let base = self.symbols.table.build_global_query();
        let defaultfp = match &self.models.defaultfp {
            Some(m) => Some(Rc::clone(m)),
            None => None,
        };
        self.remote_installed = true;
        RemoteParts { models, defaultfp, base }
    }

    /// Drop the warnings, as when the host asks for a fresh start, and say which other
    /// caches have to be dropped, in this order.
    pub fn flush_remote_caches(&mut self) -> (r: Vec<RemoteCache>)
        ensures
            final(self).commentdb@ == Seq::<WarningView>::empty(),
            *final(self) == (Architecture { commentdb: final(self).commentdb, ..*old(self) }),
            r@ == caches_to_drop(old(self).remote_installed),
    {
        let mut r: Vec<RemoteCache> = Vec::new();
        if self.remote_installed {
            r.push(RemoteCache::Symbols);
        }
        r.push(RemoteCache::Types);
        r.push(RemoteCache::Strings);
        self.commentdb.clear();
        assert(r@ =~= caches_to_drop(self.remote_installed));
        r
    }

    // ---- operation codes ------------------------------------------------------------

    /// Install the properties of the operation codes.
    pub fn build_instructions(&mut self, inst: Vec<Option<TypeOp>>)
        ensures
            *final(self) == (Architecture { inst, ..*old(self) }),
    {
        self.inst = inst;
    }

    /// The properties of an operation code; `canonical` where the table has none.
    pub fn resolve_typeop(&self, opc: usize, canonical: TypeOp) -> (r: TypeOp)
        ensures
            r == typeop_at(self.inst@, opc as int, canonical),
    {
        if opc < self.inst.len() {
            match self.inst[opc] {
                Some(t) => t,
                None => canonical,
            }
        } else {
            canonical
        }
    }

    /// The largest size of a base type, which a new data-type factory is told.
    pub fn build_typegrp(&self) -> (r: i32)
        ensures
            r == self.basic.max_basetype_size,
    {
        self.basic.max_basetype_size
    }

    // ---- prototype models -----------------------------------------------------------

    /// The model of this name.
    pub fn get_model(&self, nm: &str) -> (r: Option<&Rc<ProtoModel>>)
        ensures
            match r {
                Some(p) => self.models@.models.contains_key(nm@) && self.models@.models[nm@]
                    == (**p)@,
                None => !self.models@.models.contains_key(nm@),
            },
    {
        self.models.get_model(nm)
    }

    /// Whether there is a model of this name.
    pub fn has_model(&self, nm: &str) -> (r: bool)
        ensures
            r == self.models@.models.contains_key(nm@),
    {
        self.models.models.contains(nm)
    }

    /// How many models there are.
    pub fn num_proto_models(&self) -> (r: usize)
        ensures
            self.models@.models.dom().finite(),
            r == self.models@.models.len(),
    {
        assert(self.models@.models.dom() =~= self.models.models@.dom());
        self.models.models.len()
    }

    /// The names of the models, in order.
    pub fn proto_model_names(&self) -> (r: Vec<String>)
        ensures
            forall|i: int, j: int|
                0 <= i < j < r@.len() ==> text_before(#[trigger] r@[i]@, #[trigger] r@[j]@),
            forall|i: int|
                0 <= i < r@.len() ==> self.models@.models.contains_key((#[trigger] r@[i])@),
            forall|name: Seq<char>| #[trigger]
                self.models@.models.contains_key(name) ==> exists|i: int|
                    0 <= i < r@.len() && (#[trigger] r@[i])@ == name,
    {
        let r = self.models.models.names();
        assert forall|i: int| 0 <= i < r@.len() implies self.models@.models.contains_key(
            (#[trigger] r@[i])@,
        ) by {
            assert(self.models.models@.contains_key(r@[i]@));
        }
        assert forall|name: Seq<char>| #[trigger]
            self.models@.models.contains_key(name) implies exists|i: int|
            0 <= i < r@.len() && (#[trigger] r@[i])@ == name by {
            assert(self.models.models@.contains_key(name));
        }
        r
    }

    /// The default model.
    pub fn default_fp(&self) -> (r: Option<&Rc<ProtoModel>>)
        ensures
            match r {
                Some(p) => self.models@.defaultfp == Some((**p)@),
                None => self.models@.defaultfp is None,
            },
    {
        match &self.models.defaultfp {
            Some(m) => Some(m),
            None => None,
        }
    }

    /// The model that unknown prototypes are evaluated with; the default one where none
    /// was chosen.
    pub fn eval_fp_current(&self) -> (r: Option<&Rc<ProtoModel>>)
        ensures
            match r {
                Some(p) => eval_model(self.models@) == Some((**p)@),
                None => eval_model(self.models@) is None,
            },
    {
        self.models.eval_fp_current()
    }

    /// Note down the convention that a function was declared under.
    pub fn set_function_prototype_model(&mut self, name: &str, model: Rc<ProtoModel>)
        ensures
            final(self).models@ == (RegistryView {
                declared: old(self).models@.declared.insert(name@, (*model)@),
                ..old(self).models@
            }),
            *final(self) == (Architecture { models: final(self).models, ..*old(self) }),
    {
        let ghost before = self.models@;
        let ghost view = (*model)@;
        self.models.declared.insert(name, model);
        assert(self.models@.declared =~= before.declared.insert(name@, view));
    }

    /// The convention that a function was declared under.
    pub fn function_prototype_model(&self, name: &str) -> (r: Option<&Rc<ProtoModel>>)
        ensures
            match r {
                Some(p) => self.models@.declared.contains_key(name@)
                    && self.models@.declared[name@] == (**p)@,
                None => !self.models@.declared.contains_key(name@),
            },
    {
        self.models.declared.get(name)
    }

    /// Register a model under its name; one that has the name is replaced.
    pub fn register_model(&mut self, model: Rc<ProtoModel>)
        ensures
            final(self).models@ == with_model(old(self).models@, (*model)@),
            *final(self) == (Architecture { models: final(self).models, ..*old(self) }),
    {
        self.models.register_model(model);
    }

    /// Choose the default model.
    pub fn set_default_model_rc(&mut self, model: Rc<ProtoModel>)
        ensures
            final(self).models@ == (RegistryView {
                defaultfp: Some((*model)@),
                ..old(self).models@
            }),
            *final(self) == (Architecture { models: final(self).models, ..*old(self) }),
    {
        self.models.defaultfp = Some(model);
    }

    // ---- specifications -------------------------------------------------------------

    /// Note down the compiler specification.
    pub fn set_cspec_xml(&mut self, doc: SpecDocument)
        ensures
            *final(self) == (Architecture {
                specs: Specifications { cspec: doc, ..old(self).specs },
                ..*old(self)
            }),
    {
        self.specs.cspec = doc;
    }

    /// Note down the processor specification.
    pub fn set_pspec_xml(&mut self, doc: SpecDocument)
        ensures
            *final(self) == (Architecture {
                specs: Specifications { pspec: doc, ..old(self).specs },
                ..*old(self)
            }),
    {
        self.specs.pspec = doc;
    }

    /// Note down that the host has sent its own core types.
    pub fn set_coretypes_xml(&mut self)
        ensures
            *final(self) == (Architecture {
                specs: Specifications { coretypes_from_host: true, ..old(self).specs },
                ..*old(self)
            }),
    {
        self.specs.coretypes_from_host = true;
    }

    /// Install the tree of actions and make `decompile` current.
    pub fn build_action(&mut self, tree: ActionDatabase)
        ensures
            final(self).allacts@ == installed_actions(tree@),
            *final(self) == (Architecture { allacts: final(self).allacts, ..*old(self) }),
    {
        self.allacts = tree;
        self.allacts.set_current("decompile");
    }
}

/// What was declared for a function is what is found for it, and nothing else changes.
pub proof fn law_declared_model_is_found(g: RegistryView, name: Seq<char>, m: ModelView, other: Seq<char>)
    ensures
        ({
            let after = RegistryView { declared: g.declared.insert(name, m), ..g };
            &&& after.declared.contains_key(name)
            &&& after.declared[name] == m
            &&& other != name ==> after.declared.contains_key(other) == g.declared.contains_key(
                other,
            )
        }),
{
}

} // verus!
