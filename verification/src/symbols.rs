//! The symbol table, as far as the configuration reads and writes it, and the two
//! whole-table views that every function under analysis is given.

use std::rc::Rc;
use vstd::prelude::*;
use vstd::string::*;
use crate::cspec::MemoryRange;
use crate::error::{outcome, recov_failure, Failure, KunaError};
use crate::space::Address;
use crate::text::{join2, same_text};

verus! {

/// A declared prototype: the name of the function and a handle to its parts.
#[derive(Debug)]
pub struct PrototypePieces {
    pub name: String,
    pub handle: u64,
}

/// What contracts say of [`PrototypePieces`].
pub struct PiecesView {
    pub name: Seq<char>,
    pub handle: u64,
}

impl View for PrototypePieces {
    type V = PiecesView;

    open spec fn view(&self) -> PiecesView {
        PiecesView { name: self.name@, handle: self.handle }
    }
}

/// A function symbol.
#[derive(Debug)]
pub struct FunctionSymbol {
    pub name: String,
    pub address: Address,
    /// It lies in the global scope.
    pub global: bool,
    pub inline: bool,
    pub no_return: bool,
    /// Its declared prototype.
    pub pieces: Option<PrototypePieces>,
}

/// What contracts say of a [`FunctionSymbol`].
pub struct FunctionView {
    pub name: Seq<char>,
    pub address: Address,
    pub global: bool,
    pub inline: bool,
    pub no_return: bool,
    pub pieces: Option<PiecesView>,
}

impl View for FunctionSymbol {
    type V = FunctionView;

    open spec fn view(&self) -> FunctionView {
        FunctionView {
            name: self.name@,
            address: self.address,
            global: self.global,
            inline: self.inline,
            no_return: self.no_return,
            pieces: match self.pieces {
                Some(p) => Some(p@),
                None => None,
            },
        }
    }
}

/// The symbol table. The generation goes up with every change.
pub struct SymbolTable {
    /// There is a global scope.
    pub has_global: bool,
    pub functions: Vec<FunctionSymbol>,
    /// The memory that the global scope owns.
    pub ranges: Vec<MemoryRange>,
    pub generation: u64,
}

/// What contracts say of a [`SymbolTable`]; the generation is told apart.
#[verifier::ext_equal]
pub struct TableView {
    pub has_global: bool,
    pub functions: Seq<FunctionView>,
    pub ranges: Seq<MemoryRange>,
}

impl View for SymbolTable {
    type V = TableView;

    open spec fn view(&self) -> TableView {
        TableView {
            has_global: self.has_global,
            functions: self.functions@.map_values(|f: FunctionSymbol| f@),
            ranges: self.ranges@,
        }
    }
}

/// The first function of the global scope, from `i` on, that has this name.
pub open spec fn function_from(t: TableView, name: Seq<char>, i: int) -> Option<int>
    decreases t.functions.len() - i,
{
    if i < 0 || i >= t.functions.len() {
        None
    } else if t.functions[i].global && t.functions[i].name == name {
        Some(i)
    } else {
        function_from(t, name, i + 1)
    }
}

/// The function of the global scope that has this name.
pub open spec fn global_function(t: TableView, name: Seq<char>) -> Option<int> {
    if t.has_global {
        function_from(t, name, 0)
    } else {
        None
    }
}

/// The first function, from `i` on, that starts at the address.
pub open spec fn function_at_from(t: TableView, address: Address, i: int) -> Option<int>
    decreases t.functions.len() - i,
{
    if i < 0 || i >= t.functions.len() {
        None
    } else if t.functions[i].address == address {
        Some(i)
    } else {
        function_at_from(t, address, i + 1)
    }
}

/// The failure for a function that is not there.
pub open spec fn unknown_function(name: Seq<char>) -> Failure {
    recov_failure("Unknown function name: "@ + name)
}

/// The place of the global function of this name, or the failure.
pub open spec fn function_result(t: TableView, name: Seq<char>) -> Result<usize, Failure> {
    match global_function(t, name) {
        Some(i) => Ok(i as usize),
        None => Err(unknown_function(name)),
    }
}

/// The table with one function changed.
pub open spec fn with_function(t: TableView, i: int, f: FunctionView) -> TableView {
    TableView { functions: t.functions.update(i, f), ..t }
}

/// What the analysis of a function sees of the whole table.
pub struct GlobalQuery {
    pub ranges: Vec<MemoryRange>,
    pub functions: Vec<FunctionEntry>,
}

/// A function as others see it: where it starts and what a call of it does.
#[derive(Debug, Clone, Copy, PartialEq, Eq, Structural)]
pub struct FunctionEntry {
    pub address: Address,
    pub inline: bool,
    pub no_return: bool,
}

/// What contracts say of a [`GlobalQuery`].
#[verifier::ext_equal]
pub struct QueryView {
    pub ranges: Seq<MemoryRange>,
    pub functions: Seq<FunctionEntry>,
}

impl View for GlobalQuery {
    type V = QueryView;

    open spec fn view(&self) -> QueryView {
        QueryView { ranges: self.ranges@, functions: self.functions@ }
    }
}

/// A function as others see it.
pub open spec fn function_entry(f: FunctionView) -> FunctionEntry {
    FunctionEntry { address: f.address, inline: f.inline, no_return: f.no_return }
}

/// What the analysis of a function sees of the table.
pub open spec fn global_query(t: TableView) -> QueryView {
    QueryView {
        ranges: t.ranges,
        functions: t.functions.map_values(|f: FunctionView| function_entry(f)),
    }
}

/// A declared prototype, by the entry address of its function.
#[derive(Debug)]
pub struct CalleeProto {
    pub space: usize,
    pub offset: u64,
    pub pieces: PrototypePieces,
}

/// What contracts say of a [`CalleeProto`].
pub struct CalleeView {
    pub space: usize,
    pub offset: u64,
    pub pieces: PiecesView,
}

impl View for CalleeProto {
    type V = CalleeView;

    open spec fn view(&self) -> CalleeView {
        CalleeView { space: self.space, offset: self.offset, pieces: self.pieces@ }
    }
}

/// What contracts say of a list of declared prototypes.
pub open spec fn callee_views(v: Seq<CalleeProto>) -> Seq<CalleeView> {
    v.map_values(|c: CalleeProto| c@)
}

/// The declared prototypes of the first `n` functions, in the order of the table.
pub open spec fn callee_protos(t: TableView, n: int) -> Seq<CalleeView>
    decreases n,
{
    if n <= 0 {
        seq![]
    } else {
        let rest = callee_protos(t, n - 1);
        let f = t.functions[n - 1];
        match (f.pieces, f.address.space) {
            (Some(pieces), Some(space)) => rest.push(
                CalleeView { space, offset: f.address.offset, pieces },
            ),
            _ => rest,
        }
    }
}

/// All declared prototypes.
pub open spec fn all_callee_protos(t: TableView) -> Seq<CalleeView> {
    callee_protos(t, t.functions.len() as int)
}

impl SymbolTable {
    /// The function of the global scope that has this name.
    pub fn query_global_function(&self, name: &str) -> (r: Result<usize, KunaError>)
        ensures
            outcome(r) == function_result(self@, name@),
            r is Ok ==> r->Ok_0 < self@.functions.len() && global_function(self@, name@) == Some(
                r->Ok_0 as int,
            ),
    {
        if self.has_global {
            let mut i: usize = 0;
            while i < self.functions.len()
                invariant
                    i <= self.functions@.len(),
                    function_from(self@, name@, 0) == function_from(self@, name@, i as int),
                    self.has_global,
                decreases self.functions@.len() - i,
            {
                if self.functions[i].global && same_text(self.functions[i].name.as_str(), name) {
                    return Ok(i);
                }
                i += 1;
            }
        }
        Err(KunaError::recov(join2("Unknown function name: ", name)))
    }

    /// The function that starts at the address, in whatever scope.
    pub fn find_function_across_scopes(&self, address: Address) -> (r: Option<usize>)
        ensures
            match r {
                Some(i) => i < self@.functions.len() && function_at_from(self@, address, 0) == Some(
                    i as int,
                ),
                None => function_at_from(self@, address, 0) is None,
            },
    {
        let mut i: usize = 0;
        while i < self.functions.len()
            invariant
                i <= self.functions@.len(),
                function_at_from(self@, address, 0) == function_at_from(self@, address, i as int),
            decreases self.functions@.len() - i,
        {
            if self.functions[i].address == address {
                return Some(i);
            }
            i += 1;
        }
        None
    }

    /// What the analysis of a function sees of the table.
    pub fn build_global_query(&self) -> (r: GlobalQuery)
        ensures
            r@ == global_query(self@),
    {
        let mut ranges: Vec<MemoryRange> = Vec::new();
        let mut i: usize = 0;
        while i < self.ranges.len()
            invariant
                i <= self.ranges@.len(),
                ranges@ == self.ranges@.take(i as int),
            decreases self.ranges@.len() - i,
        {
            ranges.push(self.ranges[i]);
            assert(ranges@ =~= self.ranges@.take(i + 1));
            i += 1;
        }
        let mut functions: Vec<FunctionEntry> = Vec::new();
        let mut j: usize = 0;
        while j < self.functions.len()
            invariant
                j <= self.functions@.len(),
                functions@ == global_query(self@).functions.take(j as int),
            decreases self.functions@.len() - j,
        {
            let f = &self.functions[j];
            functions.push(
                FunctionEntry { address: f.address, inline: f.inline, no_return: f.no_return },
            );
            assert(functions@ =~= global_query(self@).functions.take(j + 1));
            j += 1;
        }
        let r = GlobalQuery { ranges, functions };
        assert(r@ =~= global_query(self@));
        r
    }

    fn build_callee_proto_pieces(&self) -> (r: Vec<CalleeProto>)
        ensures
            callee_views(r@) == all_callee_protos(self@),
    {
        let mut r: Vec<CalleeProto> = Vec::new();
        let mut i: usize = 0;
        assert(callee_views(r@) =~= seq![]);
        while i < self.functions.len()
            invariant
                i <= self.functions@.len(),
                callee_views(r@) == callee_protos(self@, i as int),
            decreases self.functions@.len() - i,
        {
            let f = &self.functions[i];
            assert(self@.functions[i as int] == f@);
            let ghost was = r@;
            if let Some(p) = &f.pieces {
                if let Some(space) = f.address.space {
                    let c = CalleeProto {
                        space,
                        offset: f.address.offset,
                        pieces: PrototypePieces { name: p.name.clone(), handle: p.handle },
                    };
                    r.push(c);
                    assert(callee_views(r@) =~= callee_views(was).push(c@));
                }
            }
            i += 1;
        }
        r
    }
}

/// The views of the table as they were taken at one generation of it.
pub struct SymbolSnapshots {
    pub generation: Option<u64>,
    pub global_query: Option<Rc<GlobalQuery>>,
    pub callee_protos: Option<Rc<Vec<CalleeProto>>>,
}

/// The symbol table with the views that were taken of it.
pub struct Symbols {
    pub table: SymbolTable,
    pub snapshots: SymbolSnapshots,
    /// Views are kept for the next function.
    pub cache_on: bool,
}

/// Whether the views that are kept are those of the table, or of an earlier
/// generation of it.
pub open spec fn snapshots_wf(s: Symbols) -> bool {
    match s.snapshots.generation {
        None => s.snapshots.global_query is None && s.snapshots.callee_protos is None,
        Some(g) => {
            &&& g <= s.table.generation
            &&& g == s.table.generation ==> {
                &&& s.snapshots.global_query is Some ==> (*(s.snapshots.global_query->0))@
                    == global_query(s.table@)
                &&& s.snapshots.callee_protos is Some ==> callee_views(
                    (*(s.snapshots.callee_protos->0))@,
                ) == all_callee_protos(s.table@)
            }
        },
    }
}

impl Symbols {
    /// An empty table with a global scope.
    pub fn new(cache_on: bool) -> (r: Symbols)
        ensures
            snapshots_wf(r),
            r.table@ == (TableView { has_global: true, functions: seq![], ranges: seq![] }),
            r.table.generation == 0,
            r.cache_on == cache_on,
    {
        let r = Symbols {
            table: SymbolTable {
                has_global: true,
                functions: Vec::new(),
                ranges: Vec::new(),
                generation: 0,
            },
            snapshots: SymbolSnapshots {
                generation: None,
                global_query: None,
                callee_protos: None,
            },
            cache_on,
        };
        assert(r.table@ =~= (TableView { has_global: true, functions: seq![], ranges: seq![] }));
        r
    }

    /// The two views of the table: those that were kept, where the table has not
    /// changed since, else fresh ones. What comes out depends on the table alone.
    pub fn symbol_snapshots(&mut self) -> (r: (Rc<GlobalQuery>, Rc<Vec<CalleeProto>>))
        requires
            snapshots_wf(*old(self)),
        ensures
            (*r.0)@ == global_query(old(self).table@),
            callee_views((*r.1)@) == all_callee_protos(old(self).table@),
            final(self).table == old(self).table,
            final(self).cache_on == old(self).cache_on,
            snapshots_wf(*final(self)),
    {
        if !self.cache_on {
            return (
                Rc::new(self.table.build_global_query()),
                Rc::new(self.table.build_callee_proto_pieces()),
            );
        }
        let generation: u64 = self.table.generation;
        if self.snapshots.generation != Some(generation) {
            self.snapshots = SymbolSnapshots {
                generation: Some(generation),
                global_query: None,
                callee_protos: None,
            };
        }
        let query = match &self.snapshots.global_query {
            Some(q) => Rc::clone(q),
            None => Rc::new(self.table.build_global_query()),
        };
        self.snapshots.global_query = Some(Rc::clone(&query));
        let callees = match &self.snapshots.callee_protos {
            Some(c) => Rc::clone(c),
            None => Rc::new(self.table.build_callee_proto_pieces()),
        };
        self.snapshots.callee_protos = Some(Rc::clone(&callees));
        (query, callees)
    }

    /// Keep views for the next function, or do not; what was kept is dropped.
    pub fn set_symbol_snapshot_cache(&mut self, on: bool)
        ensures
            snapshots_wf(*final(self)),
            final(self).table == old(self).table,
            final(self).cache_on == on,
    {
        self.cache_on = on;
        self.snapshots = SymbolSnapshots {
            generation: None,
            global_query: None,
            callee_protos: None,
        };
    }

    /// Start the next generation. Where the count is used up it starts anew, and what
    /// was kept is dropped.
    fn advance(&mut self)
        requires
            match old(self).snapshots.generation {
                None => old(self).snapshots.global_query is None
                    && old(self).snapshots.callee_protos is None,
                Some(g) => g <= old(self).table.generation,
            },
        ensures
            snapshots_wf(*final(self)),
            final(self).table@ == old(self).table@,
            final(self).cache_on == old(self).cache_on,
    {
        if self.table.generation == u64::MAX {
            self.table.generation = 0;
            self.snapshots = SymbolSnapshots {
                generation: None,
                global_query: None,
                callee_protos: None,
            };
        } else {
            self.table.generation = self.table.generation + 1;
        }
    }

    /// Change one function of the table.
    fn replace_function(&mut self, i: usize, f: FunctionSymbol)
        requires
            snapshots_wf(*old(self)),
            i < old(self).table@.functions.len(),
        ensures
            snapshots_wf(*final(self)),
            final(self).table@ == with_function(old(self).table@, i as int, f@),
            final(self).cache_on == old(self).cache_on,
    {
        let ghost before = self.table@;
        self.table.functions[i] = f;
        assert(self.table@ =~= with_function(before, i as int, f@));
        self.advance();
    }

    /// Mark whether calls of the function are replaced by its body.
    pub fn set_function_inline(&mut self, i: usize, val: bool)
        requires
            snapshots_wf(*old(self)),
            i < old(self).table@.functions.len(),
        ensures
            snapshots_wf(*final(self)),
            final(self).table@ == with_function(
                old(self).table@,
                i as int,
                FunctionView { inline: val, ..old(self).table@.functions[i as int] },
            ),
            final(self).cache_on == old(self).cache_on,
    {
        let f = copy_function(&self.table.functions[i]);
        self.replace_function(i, FunctionSymbol { inline: val, ..f });
    }

    /// Mark whether calls of the function come back.
    pub fn set_function_no_return(&mut self, i: usize, val: bool)
        requires
            snapshots_wf(*old(self)),
            i < old(self).table@.functions.len(),
        ensures
            snapshots_wf(*final(self)),
            final(self).table@ == with_function(
                old(self).table@,
                i as int,
                FunctionView { no_return: val, ..old(self).table@.functions[i as int] },
            ),
            final(self).cache_on == old(self).cache_on,
    {
        let f = copy_function(&self.table.functions[i]);
        self.replace_function(i, FunctionSymbol { no_return: val, ..f });
    }

    /// Park a declared prototype on the function.
    pub fn set_function_proto_pieces(&mut self, i: usize, pieces: PrototypePieces)
        requires
            snapshots_wf(*old(self)),
            i < old(self).table@.functions.len(),
        ensures
            snapshots_wf(*final(self)),
            final(self).table@ == with_function(
                old(self).table@,
                i as int,
                FunctionView { pieces: Some(pieces@), ..old(self).table@.functions[i as int] },
            ),
            final(self).cache_on == old(self).cache_on,
    {
        let f = copy_function(&self.table.functions[i]);
        self.replace_function(i, FunctionSymbol { pieces: Some(pieces), ..f });
    }

    /// Park a declared prototype on the global function of this name; without one
    /// nothing happens.
    pub fn set_function_prototype_pieces(&mut self, name: &str, pieces: PrototypePieces)
        requires
            snapshots_wf(*old(self)),
        ensures
            snapshots_wf(*final(self)),
            final(self).table@ == match global_function(old(self).table@, name@) {
                Some(i) => with_function(
                    old(self).table@,
                    i,
                    FunctionView { pieces: Some(pieces@), ..old(self).table@.functions[i] },
                ),
                None => old(self).table@,
            },
            final(self).cache_on == old(self).cache_on,
    {
        if let Ok(i) = self.table.query_global_function(name) {
            self.set_function_proto_pieces(i, pieces);
        }
    }

    /// Park a declared prototype on the function that starts at the address; without
    /// one nothing happens.
    pub fn set_function_prototype_pieces_at(&mut self, address: Address, pieces: PrototypePieces)
        requires
            snapshots_wf(*old(self)),
        ensures
            snapshots_wf(*final(self)),
            final(self).table@ == match function_at_from(old(self).table@, address, 0) {
                Some(i) => with_function(
                    old(self).table@,
                    i,
                    FunctionView { pieces: Some(pieces@), ..old(self).table@.functions[i] },
                ),
                None => old(self).table@,
            },
            final(self).cache_on == old(self).cache_on,
    {
        if let Some(i) = self.table.find_function_across_scopes(address) {
            self.set_function_proto_pieces(i, pieces);
        }
    }

    /// Let the global scope own a range of memory.
    pub fn add_range(&mut self, range: MemoryRange)
        requires
            snapshots_wf(*old(self)),
        ensures
            snapshots_wf(*final(self)),
            final(self).table@ == (TableView {
                ranges: old(self).table@.ranges.push(range),
                ..old(self).table@
            }),
            final(self).cache_on == old(self).cache_on,
    {
        self.table.ranges.push(range);
        self.advance();
    }

    /// Add a function to the table.
    pub fn add_function(&mut self, f: FunctionSymbol)
        requires
            snapshots_wf(*old(self)),
        ensures
            snapshots_wf(*final(self)),
            final(self).table@ == (TableView {
                functions: old(self).table@.functions.push(f@),
                ..old(self).table@
            }),
            final(self).cache_on == old(self).cache_on,
    {
        let ghost before = self.table@;
        self.table.functions.push(f);
        assert(self.table@ =~= (TableView { functions: before.functions.push(f@), ..before }));
        self.advance();
    }
}

fn copy_function(f: &FunctionSymbol) -> (r: FunctionSymbol)
    ensures
        r@ == f@,
{
    FunctionSymbol {
        name: f.name.clone(),
        address: f.address,
        global: f.global,
        inline: f.inline,
        no_return: f.no_return,
        pieces: match &f.pieces {
            Some(p) => Some(PrototypePieces { name: p.name.clone(), handle: p.handle }),
            None => None,
        },
    }
}

} // verus!
