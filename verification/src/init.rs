//! Filling in an architecture from its specifications, stage by stage.

use vstd::prelude::*;
use vstd::string::*;
use crate::architecture::{architecture_wf, Architecture, BasicSettings, Specifications};
use crate::cspec::{
    decode_funcptr_align, funcptr_effect, global_element, global_result, stack_effect, MemoryRange,
};
use crate::error::{outcome, Failure, KunaError};
use crate::proto_decode::{answer_views, Answer, Question};
use crate::proto_registry::default_proto_effect;
use crate::pspec::{
    lane_records, laned_children, lanes_fit, lemma_lane_records_ascend, LanedRegister,
};
use crate::space::{engine_wf, with_call_spaces, CallSpaces, EngineView};
use crate::symbols::TableView;
use crate::xml::{
    child_from, children_named, find_place, law_child_is_the_first, places_named, Element,
    SpecDocument,
};

verus! {

/// The stages in which an architecture is filled in, in the order of their work.
#[derive(Debug, Clone, Copy, PartialEq, Eq, Structural)]
pub enum InitStage {
    /// Add the spaces that the analysis needs.
    CallSpaces,
    /// Read the vector registers of the processor specification.
    RegisterData,
    /// Read its volatile memory.
    VolatileMemory,
    /// Apply its context.
    ContextData,
    /// Install the default floating-point formats.
    FloatFormats,
    /// Create the stack space.
    StackPointer,
    /// Read the alignment of function pointers.
    FuncptrAlign,
    /// Build the data-type factory.
    TypeFactory,
    /// Set it up with sizes.
    TypeSizes,
    /// Set the core types.
    CoreTypes,
    /// Register the call fixups of the compiler specification.
    CallFixups,
    /// Register the helpers' call fixups.
    HelperFixups,
    /// Initialise the user-defined operations and compile the fixups.
    UserOps,
    /// Register the builtin operations.
    Builtins,
    /// Give the global scope its memory.
    GlobalMemory,
    /// Read the prototype models.
    PrototypeModels,
    /// Tell the data-type factory of the default model.
    PrototypeContext,
    /// Build the actions.
    Actions,
    /// Initialise the printer.
    PrinterSetup,
    /// Fit the symbol table to the spaces.
    AdjustCaches,
    /// Add the symbols of the processor specification.
    Symbols,
    /// Build the table of instructions.
    Instructions,
    /// Set the smallest distance of two functions.
    FunctionDistance,
    /// Note down the spaces that pointers are inferred into.
    InferSpaces,
}

/// The place of a stage in the order.
pub open spec fn stage_number(s: InitStage) -> int {
    match s {
        InitStage::CallSpaces => 0,
        InitStage::RegisterData => 1,
        InitStage::VolatileMemory => 2,
        InitStage::ContextData => 3,
        InitStage::FloatFormats => 4,
        InitStage::StackPointer => 5,
        InitStage::FuncptrAlign => 6,
        InitStage::TypeFactory => 7,
        InitStage::TypeSizes => 8,
        InitStage::CoreTypes => 9,
        InitStage::CallFixups => 10,
        InitStage::HelperFixups => 11,
        InitStage::UserOps => 12,
        InitStage::Builtins => 13,
        InitStage::GlobalMemory => 14,
        InitStage::PrototypeModels => 15,
        InitStage::PrototypeContext => 16,
        InitStage::Actions => 17,
        InitStage::PrinterSetup => 18,
        InitStage::AdjustCaches => 19,
        InitStage::Symbols => 20,
        InitStage::Instructions => 21,
        InitStage::FunctionDistance => 22,
        InitStage::InferSpaces => 23,
    }
}

/// How many stages there are.
pub const STAGE_COUNT: usize = 24;

/// What comes of a stage that has ended: the next stage, none after the last; a failure
/// ends it all. The first stage is `CallSpaces`.
pub fn init_post_engine(done: InitStage, result: Result<(), KunaError>) -> (r: Result<
    Option<InitStage>,
    KunaError,
>)
    ensures
        match result {
            Err(e) => r is Err && (r->Err_0)@ == e@,
            Ok(()) => match r {
                Err(_) => false,
                Ok(Some(next)) => stage_number(next) == stage_number(done) + 1,
                Ok(None) => stage_number(done) == STAGE_COUNT - 1,
            },
        },
{
    match result {
        Err(e) => Err(e),
        Ok(()) => Ok(
            match done {
                InitStage::CallSpaces => Some(InitStage::RegisterData),
                InitStage::RegisterData => Some(InitStage::VolatileMemory),
                InitStage::VolatileMemory => Some(InitStage::ContextData),
                InitStage::ContextData => Some(InitStage::FloatFormats),
                InitStage::FloatFormats => Some(InitStage::StackPointer),
                InitStage::StackPointer => Some(InitStage::FuncptrAlign),
                InitStage::FuncptrAlign => Some(InitStage::TypeFactory),
                InitStage::TypeFactory => Some(InitStage::TypeSizes),
                InitStage::TypeSizes => Some(InitStage::CoreTypes),
                InitStage::CoreTypes => Some(InitStage::CallFixups),
                InitStage::CallFixups => Some(InitStage::HelperFixups),
                InitStage::HelperFixups => Some(InitStage::UserOps),
                InitStage::UserOps => Some(InitStage::Builtins),
                InitStage::Builtins => Some(InitStage::GlobalMemory),
                InitStage::GlobalMemory => Some(InitStage::PrototypeModels),
                InitStage::PrototypeModels => Some(InitStage::PrototypeContext),
                InitStage::PrototypeContext => Some(InitStage::Actions),
                InitStage::Actions => Some(InitStage::PrinterSetup),
                InitStage::PrinterSetup => Some(InitStage::AdjustCaches),
                InitStage::AdjustCaches => Some(InitStage::Symbols),
                InitStage::Symbols => Some(InitStage::Instructions),
                InitStage::Instructions => Some(InitStage::FunctionDistance),
                InitStage::FunctionDistance => Some(InitStage::InferSpaces),
                InitStage::InferSpaces => None,
            },
        ),
    }
}

/// The steps in which the user-defined operations are initialised and the fixups are
/// compiled.
#[derive(Debug, Clone, Copy, PartialEq, Eq, Structural)]
pub enum UserOpStep {
    /// Give every operation of the processor its plain description.
    Initialize,
    /// Register the `<callotherfixup>` element at this place of the specification's root.
    CallOther(usize),
    /// Replace the test for privileged mode.
    Privileged,
    /// Compile what was registered.
    Compile,
}

/// The step after all `<callotherfixup>` elements: the test for privileged mode is
/// replaced where nothing else replaces it, and only an engine that decodes here compiles.
pub open spec fn step_after_fixups(local: bool, privileged_op: bool) -> Option<UserOpStep> {
    if local && privileged_op {
        Some(UserOpStep::Privileged)
    } else if local {
        Some(UserOpStep::Compile)
    } else {
        None
    }
}

/// The step from the children of the specification's root at place `i` and later: the
/// `<callotherfixup>` elements come in the order of the document.
pub open spec fn step_from(doc: SpecDocument, i: int, local: bool, privileged_op: bool) -> Result<
    Option<UserOpStep>,
    Failure,
> {
    match doc {
        SpecDocument::Malformed(e) => Err(e@),
        SpecDocument::Absent => Ok(step_after_fixups(local, privileged_op)),
        SpecDocument::Root(root) => match child_from(root, "callotherfixup"@, i) {
            Some(j) => Ok(Some(UserOpStep::CallOther(j as usize))),
            None => Ok(step_after_fixups(local, privileged_op)),
        },
    }
}

/// The step after `done`, or the failure to read the specification.
pub open spec fn next_userop_step(
    doc: SpecDocument,
    done: UserOpStep,
    local: bool,
    privileged_op: bool,
) -> Result<Option<UserOpStep>, Failure> {
    match done {
        UserOpStep::Initialize => step_from(doc, 0, local, privileged_op),
        UserOpStep::CallOther(i) => step_from(doc, i + 1, local, privileged_op),
        UserOpStep::Privileged => Ok(
            if local {
                Some(UserOpStep::Compile)
            } else {
                None
            },
        ),
        UserOpStep::Compile => Ok(None),
    }
}

/// The places of the children of the specification's root that have this name; a
/// specification that cannot be parsed is a failure.
pub open spec fn root_places(doc: SpecDocument, nm: Seq<char>) -> Result<Seq<int>, Failure> {
    match doc {
        SpecDocument::Root(root) => Ok(places_named(root, nm, root.children@.len() as int)),
        SpecDocument::Absent => Ok(seq![]),
        SpecDocument::Malformed(e) => Err(e@),
    }
}

fn find_root_places(doc: &SpecDocument, nm: &str) -> (r: Result<Vec<usize>, KunaError>)
    ensures
        match r {
            Ok(v) => root_places(*doc, nm@) == Ok::<Seq<int>, Failure>(
                v@.map_values(|i: usize| i as int),
            ),
            Err(e) => root_places(*doc, nm@) == Err::<Seq<int>, Failure>(e@),
        },
{
    match doc {
        SpecDocument::Root(root) => Ok(children_named(root, nm)),
        SpecDocument::Absent => {
            let r: Vec<usize> = Vec::new();
            assert(r@.map_values(|i: usize| i as int) =~= seq![]);
            Ok(r)
        },
        SpecDocument::Malformed(e) => Err(e.clone()),
    }
}

/// The builtin operations that are registered from the start.
#[derive(Debug, Clone, Copy, PartialEq, Eq, Structural)]
pub enum Builtin {
    StringData,
    VolatileRead,
    VolatileWrite,
    Memcpy,
    Strncpy,
    Wcsncpy,
    Memset,
}

/// The builtin operations that are registered from the start, in this order.
pub const STRING_BUILTINS: [Builtin; 7] = [
    Builtin::StringData,
    Builtin::VolatileRead,
    Builtin::VolatileWrite,
    Builtin::Memcpy,
    Builtin::Strncpy,
    Builtin::Wcsncpy,
    Builtin::Memset,
];

/// The smallest distance of two functions after it was set from the alignment of instructions.
pub open spec fn function_distance(was: i32, alignment: i32) -> i32 {
    if alignment <= 8 {
        alignment
    } else {
        was
    }
}

/// An alignment of up to eight bytes is the distance; a larger one leaves the distance.
pub proof fn law_function_distance(was: i32, alignment: i32)
    ensures
        alignment <= 8 ==> function_distance(was, alignment) == alignment,
        alignment >= 9 ==> function_distance(was, alignment) == was,
{
}

/// The width of an address of a space, where there is the space.
pub open spec fn width_of(e: EngineView, space: Option<usize>, missing: i32) -> i32 {
    match space {
        Some(i) => e.spaces[i as int].info.addr_size as i32,
        None => missing,
    }
}

/// The addressable unit of a space, where there is the space.
pub open spec fn unit_of(e: EngineView, space: Option<usize>, missing: i32) -> i32 {
    match space {
        Some(i) => e.spaces[i as int].info.word_size as i32,
        None => missing,
    }
}

/// A width is that of addresses and a unit that of words, each of the space itself; without a
/// space they are what was given instead.
pub proof fn law_widths_and_units(e: EngineView, i: usize, missing: i32)
    ensures
        width_of(e, None, missing) == missing,
        unit_of(e, None, missing) == missing,
        e.spaces[i as int].info.addr_size <= i32::MAX ==> width_of(e, Some(i), missing)
            == e.spaces[i as int].info.addr_size,
        e.spaces[i as int].info.word_size <= i32::MAX ==> unit_of(e, Some(i), missing)
            == e.spaces[i as int].info.word_size,
{
}

/// The spaces for pointers and the global memory after ranges were made global.
pub open spec fn with_global(
    spaces: Seq<usize>,
    t: TableView,
    list: Seq<MemoryRange>,
) -> (Seq<usize>, TableView) {
    (
        spaces + list.map_values(|m: MemoryRange| m.space),
        TableView { ranges: t.ranges + list, ..t },
    )
}

/// Each range that becomes global is the scope's, behind those that it had, and its space is
/// noted down for pointers; functions stay.
pub proof fn law_global_ranges_are_noted(
    spaces: Seq<usize>,
    t: TableView,
    list: Seq<MemoryRange>,
    i: int,
)
    ensures
        ({
            let (s, u) = with_global(spaces, t, list);
            &&& s.len() == spaces.len() + list.len() && u.ranges.len() == t.ranges.len()
                + list.len()
            &&& 0 <= i < spaces.len() ==> s[i] == spaces[i]
            &&& 0 <= i < t.ranges.len() ==> u.ranges[i] == t.ranges[i]
            &&& 0 <= i < list.len() ==> s[spaces.len() + i] == list[i].space
                && u.ranges[t.ranges.len() + i] == list[i]
            &&& u.functions == t.functions && u.has_global == t.has_global
        }),
{
}

/// The injection for privileged mode after it was registered, or was not.
pub open spec fn noted_injection(
    was: Option<i32>,
    local: bool,
    privileged_op: bool,
    registered: Result<i32, KunaError>,
) -> Option<i32> {
    match registered {
        Ok(id) => if local && privileged_op {
            Some(id)
        } else {
            was
        },
        Err(_) => was,
    }
}

/// An injection is noted where an engine decodes here, the test is a plain one, and it could be
/// registered; else what was noted stays.
pub proof fn law_injection_is_noted(
    was: Option<i32>,
    local: bool,
    privileged_op: bool,
    registered: Result<i32, KunaError>,
    id: i32,
)
    ensures
        registered == Ok::<i32, KunaError>(id) && local && privileged_op ==> noted_injection(
            was,
            local,
            privileged_op,
            registered,
        ) == Some(id),
        registered is Err || !local || !privileged_op ==> noted_injection(
            was,
            local,
            privileged_op,
            registered,
        ) == was,
{
}

/// Whether the helpers' call fixups are registered.
pub open spec fn helpers_apply(local: bool, x86_32: bool) -> bool {
    local && x86_32
}

/// The helpers' fixups need both: an engine that decodes here, and 32-bit x86.
pub proof fn law_helpers_need_both(local: bool, x86_32: bool)
    ensures
        helpers_apply(true, true),
        !local || !x86_32 ==> !helpers_apply(local, x86_32),
{
}

impl Architecture {
    /// Add the spaces that the analysis needs.
    pub fn insert_ir_call_spaces(&mut self, c: CallSpaces) -> (r: Result<(), KunaError>)
        requires
            architecture_wf(*old(self)),
        ensures
            architecture_wf(*final(self)),
            (final(self).engine@, outcome(r)) == with_call_spaces(old(self).engine@, c),
            *final(self) == (Architecture { engine: final(self).engine, ..*old(self) }),
    {
        let ghost before = self.engine@;
        let r = self.engine.insert_ir_call_spaces(c);
        proof {
            lemma_call_spaces_keep_wf(before, c);
        }
        r
    }

    /// Read the vector registers of the processor specification. `lanes` holds, for each
    /// child of `<register_data>`, the answer to what has to be asked about it.
    pub fn decode_register_data(
        &mut self,
        el: &Element,
        lanes: &Vec<Result<u32, KunaError>>,
    ) -> (r: Result<(), KunaError>)
        requires
            architecture_wf(*old(self)),
            lanes_fit(old(self).engine@, *el, lanes@),
        ensures
            architecture_wf(*final(self)),
            ({
                let list = laned_children(
                    old(self).engine@,
                    *el,
                    lanes@,
                    el.children@.len() as int,
                );
                match r {
                    Ok(()) => list is Ok && final(self).lanerecords@ == lane_records(list->Ok_0),
                    Err(e) => list == Err::<Seq<LanedRegister>, Failure>(e@)
                        && final(self).lanerecords == old(self).lanerecords,
                }
            }),
            *final(self) == (Architecture { lanerecords: final(self).lanerecords, ..*old(self) }),
    {
        match self.engine.decode_register_data(el, lanes) {
            Err(e) => Err(e),
            Ok(records) => {
                proof {
                    lemma_lane_records_ascend(
                        laned_children(
                            self.engine@,
                            *el,
                            lanes@,
                            el.children@.len() as int,
                        )->Ok_0,
                    );
                }
                self.lanerecords = records;
                Ok(())
            },
        }
    }

    /// Create the stack space that the compiler specification asks for.
    pub fn decode_stack_pointer(&mut self) -> (r: Result<(), KunaError>)
        requires
            architecture_wf(*old(self)),
        ensures
            architecture_wf(*final(self)),
            (final(self).engine@, outcome(r)) == stack_effect(
                old(self).engine@,
                old(self).specs.cspec,
            ),
            *final(self) == (Architecture { engine: final(self).engine, ..*old(self) }),
    {
        self.engine.decode_stack_pointer(&self.specs.cspec)
    }

    /// Read the alignment of function pointers.
    pub fn decode_funcptr_align(&mut self) -> (r: Result<(), KunaError>)
        ensures
            match funcptr_effect(old(self).basic.funcptr_align, old(self).specs.cspec) {
                Ok(v) => r is Ok && *final(self) == (Architecture {
                    basic: BasicSettings { funcptr_align: v, ..old(self).basic },
                    ..*old(self)
                }),
                Err(f) => r is Err && (r->Err_0)@ == f && *final(self) == *old(self),
            },
    {
        match decode_funcptr_align(self.basic.funcptr_align, &self.specs.cspec) {
            Err(e) => Err(e),
            Ok(v) => {
                self.basic.funcptr_align = v;
                Ok(())
            },
        }
    }

    /// Give the global scope the memory that the compiler specification makes global, and
    /// note its spaces down as ones that pointers are inferred into. `ranges` holds, for
    /// each child of `<global>`, what decoding it as a range gave.
    pub fn decode_global(&mut self, ranges: &Vec<Result<MemoryRange, KunaError>>) -> (r: Result<
        (),
        KunaError,
    >)
        requires
            architecture_wf(*old(self)),
            global_element(old(self).specs.cspec) is Some ==> ranges@.len() == (global_element(
                old(self).specs.cspec,
            )->0).children@.len(),
        ensures
            architecture_wf(*final(self)),
            match global_result(
                old(self).engine@,
                old(self).specs.cspec,
                old(self).symbols.table.has_global,
                ranges@,
            ) {
                Ok(list) => {
                    &&& r is Ok
                    &&& (final(self).infer_ptr_spaces@, final(self).symbols.table@) == with_global(
                        old(self).infer_ptr_spaces@,
                        old(self).symbols.table@,
                        list,
                    )
                },
                Err(f) => r is Err && (r->Err_0)@ == f && *final(self) == *old(self),
            },
            *final(self) == (Architecture {
                symbols: final(self).symbols,
                infer_ptr_spaces: final(self).infer_ptr_spaces,
                ..*old(self)
            }),
    {
        let list = match self.engine.decode_global(
            &self.specs.cspec,
            self.symbols.table.has_global,
            ranges,
        ) {
            Err(e) => {
                return Err(e);
            },
            Ok(list) => list,
        };
        let ghost spaces = list@.map_values(|m: MemoryRange| m.space);
        let mut i: usize = 0;
        assert(spaces.take(0) =~= seq![]);
        assert(list@.take(0) =~= seq![]);
        assert(self.infer_ptr_spaces@ =~= old(self).infer_ptr_spaces@ + spaces.take(0));
        assert(self.symbols.table@.ranges =~= old(self).symbols.table@.ranges + list@.take(0));
        while i < list.len()
            invariant
                i <= list@.len(),
                architecture_wf(*self),
                spaces == list@.map_values(|m: MemoryRange| m.space),
                self.infer_ptr_spaces@ == old(self).infer_ptr_spaces@ + spaces.take(i as int),
                self.symbols.table@ == (TableView {
                    ranges: old(self).symbols.table@.ranges + list@.take(i as int),
                    ..old(self).symbols.table@
                }),
                *self == (Architecture {
                    symbols: self.symbols,
                    infer_ptr_spaces: self.infer_ptr_spaces,
                    ..*old(self)
                }),
            decreases list@.len() - i,
        {
            let m = list[i];
            self.infer_ptr_spaces.push(m.space);
            self.symbols.add_range(m);
            assert(spaces.take(i + 1) =~= spaces.take(i as int).push(m.space));
            assert(list@.take(i + 1) =~= list@.take(i as int).push(m));
            assert(self.infer_ptr_spaces@ =~= old(self).infer_ptr_spaces@ + spaces.take(i + 1));
            assert(self.symbols.table@.ranges =~= old(self).symbols.table@.ranges + list@.take(
                i + 1,
            ));
            i += 1;
        }
        assert(spaces.take(i as int) =~= spaces);
        assert(list@.take(i as int) =~= list@);
        Ok(())
    }

    /// The places, in the specification's root, of the call fixups to register, in this
    /// order.
    pub fn decode_call_fixups(&self) -> (r: Result<Vec<usize>, KunaError>)
        ensures
            match r {
                Ok(v) => root_places(self.specs.cspec, "callfixup"@) == Ok::<Seq<int>, Failure>(
                    v@.map_values(|i: usize| i as int),
                ),
                Err(e) => root_places(self.specs.cspec, "callfixup"@) == Err::<
                    Seq<int>,
                    Failure,
                >(e@),
            },
    {
        find_root_places(&self.specs.cspec, "callfixup")
    }

    /// The width of a code address, by which 32-bit x86 is told; 0 without a code space.
    pub fn code_addr_size(&self) -> (r: i32)
        requires
            architecture_wf(*self),
        ensures
            r == width_of(self.engine@, self.engine@.code_space, 0),
    {
        match self.engine.code_space {
            Some(i) => self.engine.spaces[i].info.addr_size as i32,
            None => 0,
        }
    }

    /// Whether the helpers' call fixups are registered: for 32-bit x86, and only where an
    /// engine that decodes here can compile them.
    pub fn decode_kuna_call_fixups(&self, x86_32: bool) -> (r: bool)
        ensures
            r == helpers_apply(self.engine.local, x86_32),
    {
        self.engine.local && x86_32
    }

    /// What comes of a step of the user-defined operations that has ended: the next step,
    /// none after the last; a failure ends them. The first step is `Initialize`.
    /// `privileged_op` tells whether the processor's test for privileged mode is one that
    /// nothing replaces yet. A compiler specification that cannot be parsed is a failure.
    pub fn init_userops_and_fixups(
        &self,
        done: UserOpStep,
        result: Result<(), KunaError>,
        privileged_op: bool,
    ) -> (r: Result<Option<UserOpStep>, KunaError>)
        ensures
            outcome(r) == match result {
                Err(e) => Err::<Option<UserOpStep>, Failure>(e@),
                Ok(()) => next_userop_step(
                    self.specs.cspec,
                    done,
                    self.engine.local,
                    privileged_op,
                ),
            },
    {
        if let Err(e) = result {
            return Err(e);
        }
        let local = self.engine.local;
        let from: usize = match done {
            UserOpStep::Initialize => 0,
            UserOpStep::CallOther(i) => if i < usize::MAX {
                i + 1
            } else {
                i
            },
            UserOpStep::Privileged => {
                return Ok(
                    if local {
                        Some(UserOpStep::Compile)
                    } else {
                        None
                    },
                );
            },
            UserOpStep::Compile => {
                return Ok(None);
            },
        };
        match &self.specs.cspec {
            SpecDocument::Malformed(e) => {
                return Err(e.clone());
            },
            SpecDocument::Absent => {},
            SpecDocument::Root(root) => {
                let count: usize = root.children.len();
                assert(count == root.children@.len());
                if let Some(j) = find_place(root, "callotherfixup", from) {
                    return Ok(Some(UserOpStep::CallOther(j)));
                }
            },
        }
        Ok(
            if local && privileged_op {
                Some(UserOpStep::Privileged)
            } else if local {
                Some(UserOpStep::Compile)
            } else {
                None
            },
        )
    }

    /// Note the injection that answers the test for privileged mode. `privileged_op` tells
    /// whether that test is one that nothing replaces yet, `registered` what came of
    /// registering the injection. Without an engine that decodes here, or without such a
    /// test, nothing is noted.
    pub fn register_cortexmpriv_fixup(
        &mut self,
        privileged_op: bool,
        registered: Result<i32, KunaError>,
    ) -> (r: Result<(), KunaError>)
        ensures
            if old(self).engine.local && privileged_op {
                match registered {
                    Ok(id) => {
                        &&& r is Ok
                        &&& *final(self) == (Architecture {
                            cortexmpriv_inject: Some(id),
                            ..*old(self)
                        })
                    },
                    Err(e) => {
                        &&& r == Err::<(), KunaError>(e)
                        &&& *final(self) == *old(self)
                    },
                }
            } else {
                &&& r is Ok
                &&& *final(self) == *old(self)
            },
            final(self).cortexmpriv_inject == noted_injection(
                old(self).cortexmpriv_inject,
                old(self).engine.local,
                privileged_op,
                registered,
            ),
    {
        if !self.engine.local || !privileged_op {
            return Ok(());
        }
        match registered {
            Ok(id) => {
                self.cortexmpriv_inject = Some(id);
                Ok(())
            },
            Err(e) => Err(e),
        }
    }

    /// The builtin operations to register, in order, and the addressable unit of data
    /// that their signatures are built with.
    pub fn register_string_builtins(&self) -> (r: ([Builtin; 7], i32))
        requires
            architecture_wf(*self),
        ensures
            r.0@ == STRING_BUILTINS@,
            r.1 == unit_of(self.engine@, self.engine@.data_space, 1),
    {
        let unit: i32 = match self.engine.data_space {
            Some(i) => self.engine.spaces[i].info.word_size as i32,
            None => 1,
        };
        (STRING_BUILTINS, unit)
    }

    /// Read the prototype models of the compiler specification, which is used up by it.
    /// Nothing changes while a question is open.
    pub fn build_default_proto(&mut self, nominated: Option<&str>, a: &Vec<Answer>) -> (r: Result<
        (),
        Question,
    >)
        requires
            architecture_wf(*old(self)),
        ensures
            architecture_wf(*final(self)),
            match default_proto_effect(
                old(self).engine@,
                old(self).specs.cspec,
                match nominated {
                    Some(n) => Some(n@),
                    None => None,
                },
                old(self).models@,
                old(self).default_return_addr,
                answer_views(a@),
            ) {
                Ok((models, ra)) => {
                    &&& r is Ok
                    &&& final(self).models@ == models
                    &&& *final(self) == (Architecture {
                        models: final(self).models,
                        default_return_addr: ra,
                        specs: Specifications {
                            cspec: SpecDocument::Absent,
                            ..old(self).specs
                        },
                        ..*old(self)
                    })
                },
                Err(q) => {
                    &&& r is Err
                    &&& (r->Err_0)@ == q
                    &&& final(self).models@ == old(self).models@
                    &&& *final(self) == (Architecture {
                        models: final(self).models,
                        ..*old(self)
                    })
                },
            },
    {
        match self.models.build_default_proto(
            &self.engine,
            &self.specs.cspec,
            nominated,
            self.default_return_addr,
            a,
        ) {
            Err(q) => Err(q),
            Ok(ra) => {
                self.default_return_addr = ra;
                self.specs.cspec = SpecDocument::Absent;
                Ok(())
            },
        }
    }

    /// The smallest distance of two functions is the alignment of instructions, unless
    /// that is larger than 8.
    pub fn set_function_distance(&mut self)
        ensures
            *final(self) == (Architecture {
                basic: BasicSettings {
                    min_funcsymbol_size: function_distance(
                        old(self).basic.min_funcsymbol_size,
                        old(self).engine.alignment,
                    ),
                    ..old(self).basic
                },
                ..*old(self)
            }),
    {
        let align: i32 = self.engine.alignment;
        if align <= 8 {
            self.basic.min_funcsymbol_size = align;
        }
    }
}

/// Adding spaces at the end keeps every index valid.
proof fn lemma_call_spaces_keep_wf(e: EngineView, c: CallSpaces)
    requires
        engine_wf(e),
    ensures
        engine_wf(with_call_spaces(e, c).0),
{
    let after = with_call_spaces(e, c).0;
    assert(after.spaces.len() >= e.spaces.len());
}

/// Every stage is reached from the first one: the stages before it are as many as its
/// number says.
pub proof fn law_stages_are_numbered(s: InitStage, t: InitStage)
    ensures
        0 <= stage_number(s) < STAGE_COUNT,
        stage_number(s) == stage_number(t) ==> s == t,
        stage_number(InitStage::CallSpaces) == 0,
{
}

/// The specification's stages stand in the order that they need: the stack space exists
/// before sizes and models are read, the models come after everything else that reads the
/// compiler specification, and the spaces that pointers are inferred into come last.
pub proof fn law_stage_order(s: InitStage)
    ensures
        stage_number(InitStage::StackPointer) < stage_number(InitStage::TypeSizes),
        stage_number(InitStage::TypeSizes) < stage_number(InitStage::CoreTypes),
        stage_number(InitStage::StackPointer) < stage_number(InitStage::GlobalMemory),
        stage_number(InitStage::CallFixups) < stage_number(InitStage::PrototypeModels),
        stage_number(InitStage::UserOps) < stage_number(InitStage::PrototypeModels),
        stage_number(InitStage::GlobalMemory) < stage_number(InitStage::PrototypeModels),
        stage_number(InitStage::AdjustCaches) < stage_number(InitStage::Symbols),
        s != InitStage::InferSpaces ==> stage_number(s) < stage_number(InitStage::InferSpaces),
{
}

/// The `<callotherfixup>` elements are registered in the order of the document, each once:
/// a step goes to the first of them that stands behind those that are done.
pub proof fn law_callother_fixups_come_in_turn(
    root: Element,
    done: UserOpStep,
    local: bool,
    privileged_op: bool,
)
    requires
        root.children@.len() <= usize::MAX,
        done is Initialize || done is CallOther,
    ensures
        ({
            let from = match done {
                UserOpStep::CallOther(i) => i + 1,
                _ => 0,
            };
            let next = next_userop_step(SpecDocument::Root(root), done, local, privileged_op);
            match next {
                Ok(Some(UserOpStep::CallOther(j))) => {
                    &&& from <= j < root.children@.len()
                    &&& root.children@[j as int].name@ == "callotherfixup"@
                    &&& forall|m: int|
                        from <= m < j ==> (#[trigger] root.children@[m]).name@
                            != "callotherfixup"@
                },
                _ => forall|m: int|
                    from <= m < root.children@.len() ==> (#[trigger] root.children@[m]).name@
                        != "callotherfixup"@,
            }
        }),
{
    let from = match done {
        UserOpStep::CallOther(i) => i + 1,
        _ => 0,
    };
    if from <= root.children@.len() {
        law_child_is_the_first(root, "callotherfixup"@, from);
    }
}

/// Nothing is compiled before every `<callotherfixup>` element is registered, and nothing
/// comes after it.
pub proof fn law_fixups_are_compiled_last(
    root: Element,
    done: UserOpStep,
    local: bool,
    privileged_op: bool,
)
    requires
        root.children@.len() <= usize::MAX,
        next_userop_step(SpecDocument::Root(root), done, local, privileged_op) == Ok::<
            Option<UserOpStep>,
            Failure,
        >(Some(UserOpStep::Compile)),
    ensures
        local,
        done matches UserOpStep::CallOther(i) ==> forall|m: int|
            i < m < root.children@.len() ==> (#[trigger] root.children@[m]).name@
                != "callotherfixup"@,
        next_userop_step(SpecDocument::Root(root), UserOpStep::Compile, local, privileged_op)
            == Ok::<Option<UserOpStep>, Failure>(None),
{
    if done is CallOther {
        law_callother_fixups_come_in_turn(root, done, local, privileged_op);
    }
}

} // verus!
