//! Address spaces, storage locations and registers: what the configuration reads of
//! the disassembly engine.

use vstd::prelude::*;
use vstd::string::*;
use crate::error::{lowlevel_failure, outcome, Failure, KunaError};
use crate::name_map::NameMap;
use crate::text::{join2, join3, same_text};

verus! {

/// What an address space is for.
#[derive(Debug, Clone, Copy, PartialEq, Eq, Structural)]
pub enum SpaceKind {
    /// Constants.
    Constant,
    /// Memory or registers of the processor.
    Processor,
    /// Offsets from a base register, such as a stack.
    Spacebase,
    /// Temporaries.
    Internal,
    /// References to call specifications.
    Fspec,
    /// References to operations.
    Iop,
    /// Values joined from several pieces.
    Join,
}

/// A location: a space, by index, and an offset. No space marks an invalid address.
#[derive(Debug, Clone, Copy, PartialEq, Eq, Structural)]
pub struct Address {
    pub space: Option<usize>,
    pub offset: u64,
}

/// A storage location: a space, by index, an offset and a size in bytes.
#[derive(Debug, Clone, Copy, PartialEq, Eq, Structural)]
pub struct VarnodeData {
    pub space: Option<usize>,
    pub offset: u64,
    pub size: u32,
}

/// A register that points into a space.
#[derive(Debug, Clone, Copy, PartialEq, Eq, Structural)]
pub struct SpacebasePointer {
    pub register: VarnodeData,
    pub size: i32,
    pub grows_negative: bool,
}

/// The properties of an address space, besides its name.
#[derive(Debug, Clone, Copy, PartialEq, Eq, Structural)]
pub struct SpaceInfo {
    pub kind: SpaceKind,
    /// Bytes in an address.
    pub addr_size: u32,
    /// Bytes in an addressable unit.
    pub word_size: u32,
    /// Heritage delay; 0 for a register space.
    pub delay: i32,
    pub big_endian: bool,
    /// Addresses are truncated to `addr_size` bytes.
    pub truncated: bool,
    /// A memory that overlays another space.
    pub overlay: bool,
    /// The catch-all space of other sections.
    pub other: bool,
    /// Small values are justified against the endianness.
    pub reverse_justified: bool,
    /// The space that a base register points into, for `Spacebase`.
    pub contains: Option<usize>,
    /// The formal stack space.
    pub formal: bool,
    /// The base register, for `Spacebase`.
    pub pointer: Option<SpacebasePointer>,
}

/// An address space.
#[derive(Debug)]
pub struct AddrSpace {
    pub name: String,
    pub info: SpaceInfo,
}

/// What contracts say of an [`AddrSpace`].
pub struct SpaceView {
    pub name: Seq<char>,
    pub info: SpaceInfo,
}

impl View for AddrSpace {
    type V = SpaceView;

    open spec fn view(&self) -> SpaceView {
        SpaceView { name: self.name@, info: self.info }
    }
}

/// The spaces, by index.
pub open spec fn space_views(spaces: Seq<AddrSpace>) -> Seq<SpaceView> {
    spaces.map_values(|s: AddrSpace| s@)
}

/// The first space, from `i` on, that has this name.
pub open spec fn space_from(spaces: Seq<SpaceView>, name: Seq<char>, i: int) -> Option<int>
    decreases spaces.len() - i,
{
    if i < 0 || i >= spaces.len() {
        None
    } else if spaces[i].name == name {
        Some(i)
    } else {
        space_from(spaces, name, i + 1)
    }
}

/// The first space, from `i` on, of this kind.
pub open spec fn kind_from(spaces: Seq<SpaceView>, kind: SpaceKind, i: int) -> Option<int>
    decreases spaces.len() - i,
{
    if i < 0 || i >= spaces.len() {
        None
    } else if spaces[i].info.kind == kind {
        Some(i)
    } else {
        kind_from(spaces, kind, i + 1)
    }
}

/// The disassembly engine, as far as the configuration reads it: its address spaces
/// and its registers.
pub struct Engine {
    /// The spaces; the index of a space is its place.
    pub spaces: Vec<AddrSpace>,
    /// The space that code lives in.
    pub code_space: Option<usize>,
    /// The space that data lives in.
    pub data_space: Option<usize>,
    /// The registers, by name.
    pub registers: NameMap<VarnodeData>,
    /// Instructions are aligned to this many bytes.
    pub alignment: i32,
    /// Instructions are decoded here, from a language description, not by a host.
    pub local: bool,
    /// Decoding instructions may change the context.
    pub context_set_allowed: bool,
}

/// What contracts say of an [`Engine`].
#[verifier::ext_equal]
pub struct EngineView {
    pub spaces: Seq<SpaceView>,
    pub code_space: Option<usize>,
    pub data_space: Option<usize>,
    pub registers: Map<Seq<char>, VarnodeData>,
    pub alignment: i32,
    pub local: bool,
    pub context_set_allowed: bool,
}

impl View for Engine {
    type V = EngineView;

    open spec fn view(&self) -> EngineView {
        EngineView {
            spaces: space_views(self.spaces@),
            code_space: self.code_space,
            data_space: self.data_space,
            registers: self.registers@,
            alignment: self.alignment,
            local: self.local,
            context_set_allowed: self.context_set_allowed,
        }
    }
}

/// Whether every index that the engine holds is the index of a space.
pub open spec fn engine_wf(e: EngineView) -> bool {
    &&& e.code_space is Some ==> e.code_space->0 < e.spaces.len()
    &&& e.data_space is Some ==> e.data_space->0 < e.spaces.len()
    &&& forall|name: Seq<char>| #[trigger]
        e.registers.contains_key(name) ==> (e.registers[name].space is Some
            ==> e.registers[name].space->0 < e.spaces.len())
}

/// The error for a register that the engine does not have.
pub open spec fn unknown_register(name: Seq<char>) -> Failure {
    lowlevel_failure("Unknown register name: "@ + name)
}

/// The register of this name.
pub open spec fn register_result(e: EngineView, name: Seq<char>) -> Result<VarnodeData, Failure> {
    if e.registers.contains_key(name) {
        Ok(e.registers[name])
    } else {
        Err(unknown_register(name))
    }
}

/// The spaces with one more at the end; a name that is taken is refused.
pub open spec fn insert_result(spaces: Seq<SpaceView>, s: SpaceView) -> (
    Seq<SpaceView>,
    Result<(), Failure>,
) {
    if space_from(spaces, s.name, 0) is Some {
        (spaces, Err(lowlevel_failure("Space "@ + s.name + " was initialized twice"@)))
    } else {
        (spaces.push(s), Ok(()))
    }
}

/// The properties that an engine gives the spaces that the analysis adds; whether the
/// `join` space is big endian follows the code space.
#[derive(Debug, Clone, Copy, PartialEq, Eq, Structural)]
pub struct CallSpaces {
    pub fspec: SpaceInfo,
    pub iop: SpaceInfo,
    pub join: SpaceInfo,
}

/// Whether each of the three has the kind of its name.
pub open spec fn call_spaces_wf(c: CallSpaces) -> bool {
    c.fspec.kind == SpaceKind::Fspec && c.iop.kind == SpaceKind::Iop && c.join.kind
        == SpaceKind::Join
}

/// Whether the default code space is big endian; without one, it counts as little.
pub open spec fn code_is_big_endian(e: EngineView) -> bool {
    e.code_space is Some && e.spaces[e.code_space->0 as int].info.big_endian
}

/// The engine after the analysis spaces went in: `fspec`, `iop` and `join`, in this
/// order, at the end. An engine that has an `fspec` space already is left alone. A
/// name that is taken ends it.
pub open spec fn with_call_spaces(e: EngineView, c: CallSpaces) -> (
    EngineView,
    Result<(), Failure>,
) {
    if kind_from(e.spaces, SpaceKind::Fspec, 0) is Some {
        (e, Ok(()))
    } else {
        let join = SpaceInfo { big_endian: code_is_big_endian(e), ..c.join };
        let (s1, r1) = insert_result(e.spaces, SpaceView { name: "fspec"@, info: c.fspec });
        let (s2, r2) = insert_result(s1, SpaceView { name: "iop"@, info: c.iop });
        let (s3, r3) = insert_result(s2, SpaceView { name: "join"@, info: join });
        if r1 is Err {
            (EngineView { spaces: s1, ..e }, r1)
        } else if r2 is Err {
            (EngineView { spaces: s2, ..e }, r2)
        } else {
            (EngineView { spaces: s3, ..e }, r3)
        }
    }
}

/// One more than a heritage delay; the largest one stays.
pub open spec fn next_delay(delay: i32) -> i32 {
    if delay == i32::MAX {
        delay
    } else {
        (delay + 1) as i32
    }
}

/// The properties of a stack-like space over the space `base`. It is heritaged one pass
/// after the space of its base register.
pub open spec fn spacebase_info(
    base: SpaceInfo,
    base_index: usize,
    pointer: VarnodeData,
    pointer_delay: i32,
    trunc_size: i32,
    reverse_justified: bool,
    grows_negative: bool,
    formal: bool,
) -> SpaceInfo {
    SpaceInfo {
        kind: SpaceKind::Spacebase,
        addr_size: trunc_size as u32,
        word_size: base.word_size,
        delay: next_delay(pointer_delay),
        big_endian: base.big_endian,
        truncated: false,
        overlay: false,
        other: false,
        reverse_justified,
        contains: Some(base_index),
        formal,
        pointer: Some(
            SpacebasePointer { register: pointer, size: trunc_size, grows_negative },
        ),
    }
}

impl Engine {
    /// How many spaces there are.
    pub fn num_spaces(&self) -> (r: usize)
        ensures
            r == self@.spaces.len(),
    {
        self.spaces.len()
    }

    /// The index of the space with this name.
    pub fn get_space_by_name(&self, name: &str) -> (r: Option<usize>)
        ensures
            match r {
                Some(i) => i < self@.spaces.len() && space_from(self@.spaces, name@, 0) == Some(
                    i as int,
                ),
                None => space_from(self@.spaces, name@, 0) is None,
            },
    {
        let mut i: usize = 0;
        while i < self.spaces.len()
            invariant
                i <= self.spaces@.len(),
                space_from(self@.spaces, name@, 0) == space_from(self@.spaces, name@, i as int),
            decreases self.spaces@.len() - i,
        {
            if same_text(self.spaces[i].name.as_str(), name) {
                return Some(i);
            }
            i += 1;
        }
        None
    }

    /// The index of the first space of this kind.
    pub fn get_space_by_kind(&self, kind: SpaceKind) -> (r: Option<usize>)
        ensures
            match r {
                Some(i) => i < self@.spaces.len() && kind_from(self@.spaces, kind, 0) == Some(
                    i as int,
                ),
                None => kind_from(self@.spaces, kind, 0) is None,
            },
    {
        let mut i: usize = 0;
        while i < self.spaces.len()
            invariant
                i <= self.spaces@.len(),
                kind_from(self@.spaces, kind, 0) == kind_from(self@.spaces, kind, i as int),
            decreases self.spaces@.len() - i,
        {
            if self.spaces[i].info.kind == kind {
                return Some(i);
            }
            i += 1;
        }
        None
    }

    /// The storage of the register with this name.
    pub fn get_register_varnode(&self, name: &str) -> (r: Result<VarnodeData, KunaError>)
        ensures
            outcome(r) == register_result(self@, name@),
    {
        match self.registers.get(name) {
            Some(v) => Ok(*v),
            None => Err(KunaError::lowlevel(join2("Unknown register name: ", name))),
        }
    }

    /// Add a space at the end; a name that is taken is refused.
    pub fn insert_space(&mut self, name: &str, info: SpaceInfo) -> (r: Result<(), KunaError>)
        ensures
            (final(self)@.spaces, outcome(r)) == insert_result(
                old(self)@.spaces,
                SpaceView { name: name@, info },
            ),
            final(self)@ == (EngineView { spaces: final(self)@.spaces, ..old(self)@ }),
    {
        match self.get_space_by_name(name) {
            Some(_) => Err(KunaError::lowlevel(join3("Space ", name, " was initialized twice"))),
            None => {
                let ghost was = self.spaces@;
                self.spaces.push(AddrSpace { name: String::from_str(name), info });
                assert(space_views(self.spaces@) =~= space_views(was).push(
                    SpaceView { name: name@, info },
                ));
                Ok(())
            },
        }
    }

    /// Add the spaces that the analysis needs: `fspec`, `iop` and `join`.
    pub fn insert_ir_call_spaces(&mut self, c: CallSpaces) -> (r: Result<(), KunaError>)
        requires
            engine_wf(old(self)@),
        ensures
            (final(self)@, outcome(r)) == with_call_spaces(old(self)@, c),
    {
        let big_end = match self.code_space {
            Some(i) => self.spaces[i].info.big_endian,
            None => false,
        };
        if self.get_space_by_kind(SpaceKind::Fspec).is_some() {
            return Ok(());
        }
        match self.insert_space("fspec", c.fspec) {
            Err(e) => {
                return Err(e);
            },
            Ok(()) => {},
        }
        match self.insert_space("iop", c.iop) {
            Err(e) => {
                return Err(e);
            },
            Ok(()) => {},
        }
        self.insert_space("join", SpaceInfo { big_endian: big_end, ..c.join })
    }

    /// Add a space of offsets from the register `pointer` into the space `base`.
    pub fn add_spacebase(
        &mut self,
        base: usize,
        name: &str,
        pointer: VarnodeData,
        trunc_size: i32,
        reverse_justified: bool,
        grows_negative: bool,
        formal: bool,
    ) -> (r: Result<(), KunaError>)
        requires
            base < old(self)@.spaces.len(),
            pointer.space is Some,
            pointer.space->0 < old(self)@.spaces.len(),
        ensures
            (final(self)@.spaces, outcome(r)) == insert_result(
                old(self)@.spaces,
                SpaceView {
                    name: name@,
                    info: spacebase_info(
                        old(self)@.spaces[base as int].info,
                        base,
                        pointer,
                        old(self)@.spaces[pointer.space->0 as int].info.delay,
                        trunc_size,
                        reverse_justified,
                        grows_negative,
                        formal,
                    ),
                },
            ),
            final(self)@ == (EngineView { spaces: final(self)@.spaces, ..old(self)@ }),
    {
        let base_info = self.spaces[base].info;
        let delay: i32 = match pointer.space {
            Some(i) => {
                let d: i32 = self.spaces[i].info.delay;
                if d == i32::MAX {
                    d
                } else {
                    d + 1
                }
            },
            None => 0,
        };
        let info = SpaceInfo {
            kind: SpaceKind::Spacebase,
            addr_size: trunc_size as u32,
            word_size: base_info.word_size,
            delay,
            big_endian: base_info.big_endian,
            truncated: false,
            overlay: false,
            other: false,
            reverse_justified,
            contains: Some(base),
            formal,
            pointer: Some(
                SpacebasePointer { register: pointer, size: trunc_size, grows_negative },
            ),
        };
        self.insert_space(name, info)
    }
}

/// What is found under a kind stays where it is when spaces are added at the end.
proof fn lemma_kind_from_push(spaces: Seq<SpaceView>, s: SpaceView, kind: SpaceKind, i: int)
    requires
        0 <= i <= spaces.len(),
    ensures
        match kind_from(spaces, kind, i) {
            Some(k) => kind_from(spaces.push(s), kind, i) == Some(k),
            None => kind_from(spaces.push(s), kind, i) == if s.info.kind == kind {
                Some(spaces.len() as int)
            } else {
                None
            },
        },
    decreases spaces.len() - i,
{
    if i < spaces.len() {
        assert(spaces.push(s)[i] == spaces[i]);
        lemma_kind_from_push(spaces, s, kind, i + 1);
    } else {
        assert(spaces.push(s)[i] == s);
        assert(kind_from(spaces.push(s), kind, i + 1) is None);
    }
}

/// Adding the analysis spaces to an engine that has them changes nothing.
pub proof fn law_call_spaces_are_added_once(e: EngineView, c: CallSpaces)
    requires
        call_spaces_wf(c),
        with_call_spaces(e, c).1 is Ok,
    ensures
        with_call_spaces(with_call_spaces(e, c).0, c) == (
            with_call_spaces(e, c).0,
            Ok::<(), Failure>(()),
        ),
{
    if kind_from(e.spaces, SpaceKind::Fspec, 0) is None {
        let f = SpaceView { name: "fspec"@, info: c.fspec };
        let p = SpaceView { name: "iop"@, info: c.iop };
        let j = SpaceView {
            name: "join"@,
            info: SpaceInfo { big_endian: code_is_big_endian(e), ..c.join },
        };
        lemma_kind_from_push(e.spaces, f, SpaceKind::Fspec, 0);
        lemma_kind_from_push(e.spaces.push(f), p, SpaceKind::Fspec, 0);
        lemma_kind_from_push(e.spaces.push(f).push(p), j, SpaceKind::Fspec, 0);
    }
}

/// Adding a space leaves the spaces before it, and so their indices, as they were.
pub proof fn law_spaces_keep_their_index(spaces: Seq<SpaceView>, s: SpaceView, i: int)
    requires
        0 <= i < spaces.len(),
    ensures
        insert_result(spaces, s).0[i] == spaces[i],
{
}

} // verus!
