//! Prototype models: the calling conventions that a compiler specification declares,
//! and the registry that holds them.

use std::rc::Rc;
use vstd::prelude::*;
use vstd::string::*;
use crate::error::{lowlevel_failure, parse_failure, Failure, KunaError, outcome};
use crate::name_map::NameMap;
use crate::space::VarnodeData;
use crate::text::{join2, same_text};

verus! {

/// The `extrapop` value that asks for recovery by analysis.
pub const EXTRAPOP_UNKNOWN: i32 = 0x8000;

/// What a call does to a storage location.
#[derive(Debug, Clone, Copy, PartialEq, Eq, Structural)]
pub enum EffectKind {
    /// The value survives the call.
    Unaffected,
    /// The value is lost.
    KilledByCall,
    /// The return address is kept there.
    ReturnAddress,
}

/// A storage location and what a call does to it.
#[derive(Debug, Clone, Copy, PartialEq, Eq, Structural)]
pub struct EffectRecord {
    pub location: VarnodeData,
    pub effect: EffectKind,
}

/// How a value that is smaller than its resource is extended.
#[derive(Debug, Clone, Copy, PartialEq, Eq, Structural)]
pub enum Extension {
    Unspecified,
    Sign,
    Zero,
    /// As the integer type asks.
    IntType,
    Float,
}

/// A resource that can hold a parameter.
#[derive(Debug, Clone, Copy, PartialEq, Eq, Structural)]
pub struct ParamEntry {
    /// The group that it belongs to.
    pub group: i32,
    /// The storage class; the general one where there is none.
    pub class: Option<u32>,
    pub space: usize,
    pub offset: u64,
    /// The largest and the smallest size that it takes.
    pub size: i32,
    pub minsize: i32,
    /// 0 for a resource that holds one parameter.
    pub alignment: i32,
    pub extension: Extension,
    pub normalstack: bool,
    /// It shares its group with others.
    pub grouped: bool,
}

/// A rule that refines the assignment of resources.
#[derive(Debug, Clone, Copy, PartialEq, Eq, Structural)]
pub enum ListRule {
    /// A `<rule>` element: the place of its `<input>` or `<output>` in the prototype, and
    /// its own place in there.
    Declared(usize, usize),
    /// Values larger than this are passed by pointer.
    Pointer(i32),
}

/// The resources for parameters or for return values.
#[derive(Debug)]
pub struct ParamList {
    pub entries: Vec<ParamEntry>,
    /// The rules, in the order in which they apply.
    pub rules: Vec<ListRule>,
}

/// What contracts say of a [`ParamList`].
#[verifier::ext_equal]
pub struct ListView {
    pub entries: Seq<ParamEntry>,
    pub rules: Seq<ListRule>,
}

impl View for ParamList {
    type V = ListView;

    open spec fn view(&self) -> ListView {
        ListView { entries: self.entries@, rules: self.rules@ }
    }
}

/// A prototype model.
#[derive(Debug)]
pub struct ProtoModel {
    pub name: String,
    pub extrapop: i32,
    pub has_this: bool,
    pub constructor: bool,
    /// The model that this one is a named copy of.
    pub alias_parent: Option<String>,
    /// The models that this one merges.
    pub merged: Option<Vec<String>>,
    pub strategy: String,
    pub input: ParamList,
    pub output: ParamList,
    pub effects: Vec<EffectRecord>,
    /// Registers that may be saved across a call.
    pub internal_storage: Vec<VarnodeData>,
}

/// What contracts say of a [`ProtoModel`].
#[verifier::ext_equal]
pub struct ModelView {
    pub name: Seq<char>,
    pub extrapop: i32,
    pub has_this: bool,
    pub constructor: bool,
    pub alias_parent: Option<Seq<char>>,
    pub merged: Option<Seq<Seq<char>>>,
    pub strategy: Seq<char>,
    pub input: ListView,
    pub output: ListView,
    pub effects: Seq<EffectRecord>,
    pub internal_storage: Seq<VarnodeData>,
}

/// The texts of a list of strings.
pub open spec fn texts(v: Seq<String>) -> Seq<Seq<char>> {
    v.map_values(|s: String| s@)
}

impl View for ProtoModel {
    type V = ModelView;

    open spec fn view(&self) -> ModelView {
        ModelView {
            name: self.name@,
            extrapop: self.extrapop,
            has_this: self.has_this,
            constructor: self.constructor,
            alias_parent: match self.alias_parent {
                Some(n) => Some(n@),
                None => None,
            },
            merged: match self.merged {
                Some(v) => Some(texts(v@)),
                None => None,
            },
            strategy: self.strategy@,
            input: self.input@,
            output: self.output@,
            effects: self.effects@,
            internal_storage: self.internal_storage@,
        }
    }
}

/// The empty resource list.
pub open spec fn empty_list() -> ListView {
    ListView { entries: seq![], rules: seq![] }
}

/// A model that knows nothing yet.
pub open spec fn blank_model() -> ModelView {
    ModelView {
        name: seq![],
        extrapop: 0,
        has_this: false,
        constructor: false,
        alias_parent: None,
        merged: None,
        strategy: seq![],
        input: empty_list(),
        output: empty_list(),
        effects: seq![],
        internal_storage: seq![],
    }
}

/// Whether a storage location comes before another: by space, then by offset, and of two
/// at one place the larger first.
pub open spec fn stored_before(a: VarnodeData, b: VarnodeData) -> bool {
    let x = space_rank(a.space);
    let y = space_rank(b.space);
    x < y || x == y && (a.offset < b.offset || a.offset == b.offset && a.size > b.size)
}

/// The rank of a space: no space comes before all spaces.
pub open spec fn space_rank(space: Option<usize>) -> int {
    match space {
        None => -1,
        Some(i) => i as int,
    }
}

/// The first place, from `i` on, whose location comes after `v`.
pub open spec fn storage_slot(list: Seq<VarnodeData>, v: VarnodeData, i: int) -> int
    decreases list.len() - i,
{
    if i >= list.len() || stored_before(v, list[i]) {
        i
    } else {
        storage_slot(list, v, i + 1)
    }
}

/// The list with one more location, in its place.
pub open spec fn with_location(list: Seq<VarnodeData>, v: VarnodeData) -> Seq<VarnodeData> {
    list.insert(storage_slot(list, v, 0), v)
}

/// The list with more locations, each in its place.
pub open spec fn with_locations(list: Seq<VarnodeData>, more: Seq<VarnodeData>) -> Seq<VarnodeData>
    decreases more.len(),
{
    if more.len() == 0 {
        list
    } else {
        with_location(with_locations(list, more.drop_last()), more.last())
    }
}

/// Whether no location comes after one that follows it in the list.
pub open spec fn storage_sorted(list: Seq<VarnodeData>) -> bool {
    forall|i: int, j: int| 0 <= i < j < list.len() ==> !stored_before(list[j], list[i])
}

/// The model with a name; `__thiscall` is for methods, whatever was said before.
pub open spec fn named(m: ModelView, name: Seq<char>) -> ModelView {
    ModelView { name, has_this: m.has_this || name == "__thiscall"@, ..m }
}

impl ParamList {
    /// The empty list.
    pub fn new() -> (r: ParamList)
        ensures
            r@ == empty_list(),
    {
        let r = ParamList { entries: Vec::new(), rules: Vec::new() };
        assert(r@ =~= empty_list());
        r
    }

    /// A copy of the list.
    pub fn copied(&self) -> (r: ParamList)
        ensures
            r@ == self@,
    {
        ParamList { entries: copy_values(&self.entries), rules: copy_values(&self.rules) }
    }
}

/// A copy of a list of plain values.
pub(crate) fn copy_values<T: Copy>(v: &Vec<T>) -> (r: Vec<T>)
    ensures
        r@ == v@,
{
    let mut r: Vec<T> = Vec::new();
    let mut i: usize = 0;
    while i < v.len()
        invariant
            i <= v@.len(),
            r@ == v@.take(i as int),
        decreases v@.len() - i,
    {
        r.push(v[i]);
        assert(r@ =~= v@.take(i + 1));
        i += 1;
    }
    assert(r@ =~= v@);
    r
}

fn comes_before(a: &VarnodeData, b: &VarnodeData) -> (r: bool)
    ensures
        r == stored_before(*a, *b),
{
    let earlier: bool = a.offset < b.offset || a.offset == b.offset && a.size > b.size;
    match (a.space, b.space) {
        (None, None) => earlier,
        (None, Some(_)) => true,
        (Some(_), None) => false,
        (Some(x), Some(y)) => x < y || x == y && earlier,
    }
}

/// A copy of a list of strings.
pub fn copy_texts(v: &Vec<String>) -> (r: Vec<String>)
    ensures
        texts(r@) == texts(v@),
{
    let mut r: Vec<String> = Vec::new();
    let mut i: usize = 0;
    while i < v.len()
        invariant
            i <= v@.len(),
            texts(r@) == texts(v@).take(i as int),
        decreases v@.len() - i,
    {
        let ghost was = r@;
        r.push(v[i].clone());
        assert(texts(r@) =~= texts(was).push(v@[i as int]@));
        assert(texts(r@) =~= texts(v@).take(i + 1));
        i += 1;
    }
    assert(texts(v@).take(i as int) =~= texts(v@));
    r
}

impl ProtoModel {
    /// A model that knows nothing yet.
    pub fn new() -> (r: ProtoModel)
        ensures
            r@ == blank_model(),
    {
        let r = ProtoModel {
            name: String::new(),
            extrapop: 0,
            has_this: false,
            constructor: false,
            alias_parent: None,
            merged: None,
            strategy: String::new(),
            input: ParamList::new(),
            output: ParamList::new(),
            effects: Vec::new(),
            internal_storage: Vec::new(),
        };
        assert(r@ =~= blank_model());
        r
    }

    /// Give the model its name.
    pub fn set_name(&mut self, name: &str)
        ensures
            final(self)@ == named(old(self)@, name@),
    {
        if same_text(name, "__thiscall") {
            self.has_this = true;
        }
        self.name = String::from_str(name);
    }

    /// Put a location into the internal storage, in its place.
    pub fn push_internal_storage(&mut self, v: VarnodeData)
        ensures
            final(self)@ == (ModelView {
                internal_storage: with_location(old(self)@.internal_storage, v),
                ..old(self)@
            }),
    {
        let ghost before = self@;
        let mut i: usize = 0;
        while i < self.internal_storage.len() && !comes_before(&v, &self.internal_storage[i])
            invariant
                i <= self.internal_storage@.len(),
                self@ == before,
                storage_slot(self.internal_storage@, v, 0) == storage_slot(
                    self.internal_storage@,
                    v,
                    i as int,
                ),
            decreases self.internal_storage@.len() - i,
        {
            i += 1;
        }
        self.internal_storage.insert(i, v);
        assert(self@ =~= (ModelView {
            internal_storage: with_location(before.internal_storage, v),
            ..before
        }));
    }

    /// A copy of the model.
    pub fn copied(&self) -> (r: ProtoModel)
        ensures
            r@ == self@,
    {
        ProtoModel {
            name: self.name.clone(),
            extrapop: self.extrapop,
            has_this: self.has_this,
            constructor: self.constructor,
            alias_parent: match &self.alias_parent {
                Some(n) => Some(n.clone()),
                None => None,
            },
            merged: match &self.merged {
                Some(v) => Some(copy_texts(v)),
                None => None,
            },
            strategy: self.strategy.clone(),
            input: self.input.copied(),
            output: self.output.copied(),
            effects: copy_values(&self.effects),
            internal_storage: copy_values(&self.internal_storage),
        }
    }

    /// A copy of the model with another `extrapop`.
    pub fn with_extra_pop(&self, extrapop: i32) -> (r: ProtoModel)
        ensures
            r@ == (ModelView { extrapop, ..self@ }),
    {
        let mut r = self.copied();
        r.extrapop = extrapop;
        r
    }
}

/// What a named copy of a model is; a merged model and a copy are not copied.
pub open spec fn alias_result(alias: Seq<char>, parent: ModelView) -> Result<ModelView, Failure> {
    if parent.merged is Some {
        Err(lowlevel_failure("Cannot make alias of merged model: "@ + parent.name))
    } else if parent.alias_parent is Some {
        Err(lowlevel_failure("Cannot make alias of an alias: "@ + parent.name))
    } else {
        Ok(ModelView { alias_parent: Some(parent.name), ..named(parent, alias) })
    }
}

/// What contracts say of a result that carries a model.
pub open spec fn model_outcome(r: Result<ProtoModel, KunaError>) -> Result<ModelView, Failure> {
    match r {
        Ok(m) => Ok(m@),
        Err(e) => Err(e@),
    }
}

/// Build a named copy of a model.
pub fn create_model_alias(alias: &str, parent: &ProtoModel) -> (r: Result<ProtoModel, KunaError>)
    ensures
        model_outcome(r) == alias_result(alias@, parent@),
{
    if parent.merged.is_some() {
        return Err(
            KunaError::lowlevel(
                join2("Cannot make alias of merged model: ", parent.name.as_str()),
            ),
        );
    }
    if parent.alias_parent.is_some() {
        return Err(
            KunaError::lowlevel(join2("Cannot make alias of an alias: ", parent.name.as_str())),
        );
    }
    let mut m = parent.copied();
    m.set_name(alias);
    m.alias_parent = Some(parent.name.clone());
    Ok(m)
}

/// The models that an architecture knows: those of the specification by name, those
/// that functions were declared under by the function's name, the default one, the
/// one that unknown prototypes are evaluated with, and the specification's choice of
/// that one.
pub struct ModelRegistry {
    pub models: NameMap<Rc<ProtoModel>>,
    pub declared: NameMap<Rc<ProtoModel>>,
    pub defaultfp: Option<Rc<ProtoModel>>,
    pub evalfp_current: Option<Rc<ProtoModel>>,
    pub evalfp_current_spec: Option<Rc<ProtoModel>>,
}

/// What contracts say of a [`ModelRegistry`].
#[verifier::ext_equal]
pub struct RegistryView {
    pub models: Map<Seq<char>, ModelView>,
    pub declared: Map<Seq<char>, ModelView>,
    pub defaultfp: Option<ModelView>,
    pub evalfp_current: Option<ModelView>,
    pub evalfp_current_spec: Option<ModelView>,
}

/// The models of a map.
pub open spec fn model_map(m: Map<Seq<char>, Rc<ProtoModel>>) -> Map<Seq<char>, ModelView> {
    m.map_values(|p: Rc<ProtoModel>| (*p)@)
}

/// An optional model.
pub open spec fn model_option(m: Option<Rc<ProtoModel>>) -> Option<ModelView> {
    match m {
        Some(p) => Some((*p)@),
        None => None,
    }
}

impl View for ModelRegistry {
    type V = RegistryView;

    open spec fn view(&self) -> RegistryView {
        RegistryView {
            models: model_map(self.models@),
            declared: model_map(self.declared@),
            defaultfp: model_option(self.defaultfp),
            evalfp_current: model_option(self.evalfp_current),
            evalfp_current_spec: model_option(self.evalfp_current_spec),
        }
    }
}

/// The registry that knows no model.
pub open spec fn empty_registry() -> RegistryView {
    RegistryView {
        models: Map::empty(),
        declared: Map::empty(),
        defaultfp: None,
        evalfp_current: None,
        evalfp_current_spec: None,
    }
}

/// The registry with a model under its name.
pub open spec fn with_model(g: RegistryView, m: ModelView) -> RegistryView {
    RegistryView { models: g.models.insert(m.name, m), ..g }
}

/// The registry after `extrapop` was set on the default model and on the one that
/// prototypes are evaluated with. Both become the models of their names; where they
/// share a name, it stands for the default model.
pub open spec fn with_extra_pop(g: RegistryView, extrapop: i32) -> RegistryView {
    let g1 = match g.evalfp_current {
        Some(m) => {
            let d = ModelView { extrapop, ..m };
            RegistryView { evalfp_current: Some(d), ..with_model(g, d) }
        },
        None => g,
    };
    match g1.defaultfp {
        Some(m) => {
            let d = ModelView { extrapop, ..m };
            RegistryView { defaultfp: Some(d), ..with_model(g1, d) }
        },
        None => g1,
    }
}

/// The registry after the model of this name became the default one.
pub open spec fn default_effect(g: RegistryView, name: Seq<char>) -> (
    RegistryView,
    Result<(), Failure>,
) {
    if g.models.contains_key(name) {
        (RegistryView { defaultfp: Some(g.models[name]), ..g }, Ok(()))
    } else {
        (g, Err(lowlevel_failure("Unknown prototype model :"@ + name)))
    }
}

/// The registry after the model of this name became the one that prototypes are
/// evaluated with; `default` stands for the default model.
pub open spec fn eval_effect(g: RegistryView, name: Seq<char>) -> (
    RegistryView,
    Result<(), Failure>,
) {
    if name == "default"@ {
        (RegistryView { evalfp_current: g.defaultfp, ..g }, Ok(()))
    } else if g.models.contains_key(name) {
        (RegistryView { evalfp_current: Some(g.models[name]), ..g }, Ok(()))
    } else {
        (g, Err(parse_failure("Unknown prototype model: "@ + name)))
    }
}

/// The model that unknown prototypes are evaluated with: the one that was chosen,
/// else the default one.
pub open spec fn eval_model(g: RegistryView) -> Option<ModelView> {
    match g.evalfp_current {
        Some(m) => Some(m),
        None => g.defaultfp,
    }
}

impl ModelRegistry {
    /// The registry that knows no model.
    pub fn new() -> (r: ModelRegistry)
        ensures
            r@ == empty_registry(),
    {
        let r = ModelRegistry {
            models: NameMap::new(),
            declared: NameMap::new(),
            defaultfp: None,
            evalfp_current: None,
            evalfp_current_spec: None,
        };
        assert(r@ =~= empty_registry());
        r
    }

    /// The model of this name.
    pub fn get_model(&self, name: &str) -> (r: Option<&Rc<ProtoModel>>)
        ensures
            match r {
                Some(p) => self@.models.contains_key(name@) && self@.models[name@] == (**p)@,
                None => !self@.models.contains_key(name@),
            },
    {
        self.models.get(name)
    }

    /// Register a model under its name; one that has the name is replaced.
    pub fn register_model(&mut self, model: Rc<ProtoModel>)
        ensures
            final(self)@ == with_model(old(self)@, (*model)@),
    {
        let ghost before = self@;
        let ghost m = (*model)@;
        let name = model.name.clone();
        self.models.insert(name.as_str(), model);
        assert(self@ =~= with_model(before, m));
    }

    /// Set `extrapop` on the default model and on the one that prototypes are
    /// evaluated with.
    pub fn set_extra_pop(&mut self, extrapop: i32)
        ensures
            final(self)@ == with_extra_pop(old(self)@, extrapop),
    {
        let changed = match &self.evalfp_current {
            Some(m) => Some(Rc::new(m.with_extra_pop(extrapop))),
            None => None,
        };
        if let Some(d) = changed {
            self.register_model(Rc::clone(&d));
            self.evalfp_current = Some(d);
        }
        let changed = match &self.defaultfp {
            Some(m) => Some(Rc::new(m.with_extra_pop(extrapop))),
            None => None,
        };
        if let Some(d) = changed {
            self.register_model(Rc::clone(&d));
            self.defaultfp = Some(d);
        }
    }

    /// Make the model of this name the default one.
    pub fn set_default_model(&mut self, name: &str) -> (r: Result<(), KunaError>)
        ensures
            (final(self)@, outcome(r)) == default_effect(old(self)@, name@),
    {
        let found = match self.models.get(name) {
            Some(m) => Rc::clone(m),
            None => {
                return Err(KunaError::lowlevel(join2("Unknown prototype model :", name)));
            },
        };
        self.defaultfp = Some(found);
        Ok(())
    }

    /// Make the model of this name the one that prototypes are evaluated with.
    pub fn set_eval_current_model(&mut self, name: &str) -> (r: Result<(), KunaError>)
        ensures
            (final(self)@, outcome(r)) == eval_effect(old(self)@, name@),
    {
        if same_text(name, "default") {
            self.evalfp_current = match &self.defaultfp {
                Some(m) => Some(Rc::clone(m)),
                None => None,
            };
            return Ok(());
        }
        let found = match self.models.get(name) {
            Some(m) => Rc::clone(m),
            None => {
                return Err(KunaError::parse(join2("Unknown prototype model: ", name)));
            },
        };
        self.evalfp_current = Some(found);
        Ok(())
    }

    /// The model that unknown prototypes are evaluated with.
    pub fn eval_fp_current(&self) -> (r: Option<&Rc<ProtoModel>>)
        ensures
            match r {
                Some(p) => eval_model(self@) == Some((**p)@),
                None => eval_model(self@) is None,
            },
    {
        match &self.evalfp_current {
            Some(m) => Some(m),
            None => match &self.defaultfp {
                Some(m) => Some(m),
                None => None,
            },
        }
    }
}

/// The place of a location is one of the list, or its end.
pub proof fn lemma_slot_in_range(list: Seq<VarnodeData>, v: VarnodeData, i: int)
    requires
        0 <= i <= list.len(),
    ensures
        i <= storage_slot(list, v, i) <= list.len(),
    decreases list.len() - i,
{
    if i < list.len() && !stored_before(v, list[i]) {
        lemma_slot_in_range(list, v, i + 1);
    }
}

proof fn lemma_storage_slot(list: Seq<VarnodeData>, v: VarnodeData, i: int)
    requires
        0 <= i <= list.len(),
        forall|j: int| 0 <= j < i ==> !stored_before(v, #[trigger] list[j]),
    ensures
        ({
            let slot = storage_slot(list, v, i);
            &&& i <= slot <= list.len()
            &&& forall|j: int| 0 <= j < slot ==> !stored_before(v, #[trigger] list[j])
            &&& slot < list.len() ==> stored_before(v, list[slot])
        }),
    decreases list.len() - i,
{
    if i < list.len() && !stored_before(v, list[i]) {
        lemma_storage_slot(list, v, i + 1);
    }
}

/// Locations that are put in their place leave a sorted list sorted, and nothing else
/// comes or goes.
pub proof fn law_storage_stays_sorted(list: Seq<VarnodeData>, more: Seq<VarnodeData>)
    requires
        storage_sorted(list),
    ensures
        storage_sorted(with_locations(list, more)),
        with_locations(list, more).to_multiset() == list.to_multiset().add(more.to_multiset()),
    decreases more.len(),
{
    broadcast use vstd::seq_lib::group_to_multiset_ensures;

    if more.len() == 0 {
        assert(more =~= Seq::empty());
        assert(list.to_multiset() =~= list.to_multiset().add(more.to_multiset()));
    } else {
        let before = with_locations(list, more.drop_last());
        let v = more.last();
        law_storage_stays_sorted(list, more.drop_last());
        lemma_storage_slot(before, v, 0);
        let slot = storage_slot(before, v, 0);
        let after = before.insert(slot, v);
        assert forall|i: int, j: int| 0 <= i < j < after.len() implies !stored_before(
            after[j],
            after[i],
        ) by {
            if i == slot {
                assert(after[j] == before[j - 1]);
                if j - 1 > slot {
                    assert(!stored_before(before[j - 1], before[slot]));
                }
            } else if j == slot {
                assert(after[i] == before[i]);
            } else {
                let i0 = if i < slot { i } else { i - 1 };
                let j0 = if j < slot { j } else { j - 1 };
                assert(after[i] == before[i0] && after[j] == before[j0]);
            }
        }
        assert(more =~= more.drop_last().push(v));
        after.to_multiset_ensures();
        assert(after.remove(slot) =~= before);
        assert(after[slot] == v && after.contains(v));
        assert(after.to_multiset() =~= before.to_multiset().insert(v));
        assert(after.to_multiset() =~= list.to_multiset().add(more.to_multiset()));
    }
}

/// After `extrapop` is set, what the default model's name stands for is the default
/// model, and both it and the model that prototypes are evaluated with have it.
pub proof fn law_default_model_stays_registered(g: RegistryView, extrapop: i32)
    requires
        g.defaultfp is Some,
    ensures
        ({
            let after = with_extra_pop(g, extrapop);
            let d = after.defaultfp->0;
            &&& d == (ModelView { extrapop, ..g.defaultfp->0 })
            &&& after.models.contains_key(d.name)
            &&& after.models[d.name] == d
            &&& eval_model(after) == Some(ModelView { extrapop, ..eval_model(g)->0 })
        }),
{
}

/// A copy is never copied again, whatever the names.
pub proof fn law_alias_is_not_aliased(alias: Seq<char>, parent: ModelView, again: Seq<char>)
    requires
        alias_result(alias, parent) is Ok,
    ensures
        alias_result(again, alias_result(alias, parent)->Ok_0) is Err,
{
}

/// A copy differs from its model in name and parentage only, and in that `__thiscall` is
/// for methods.
pub proof fn law_alias_keeps_the_convention(alias: Seq<char>, parent: ModelView)
    requires
        alias_result(alias, parent) is Ok,
    ensures
        ({
            let m = alias_result(alias, parent)->Ok_0;
            &&& m.name == alias
            &&& m.extrapop == parent.extrapop
            &&& m.constructor == parent.constructor
            &&& m.input == parent.input
            &&& m.output == parent.output
            &&& m.effects == parent.effects
            &&& m.internal_storage == parent.internal_storage
            &&& alias != "__thiscall"@ ==> m.has_this == parent.has_this
        }),
{
}

} // verus!
