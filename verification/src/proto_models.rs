//! The prototype models of a compiler specification: the default one and the named
//! ones.

use std::rc::Rc;
use vstd::prelude::*;
use vstd::string::*;
use crate::error::KunaError;
use crate::name_map::NameMap;
use crate::proto::{
    alias_result, blank_model, copy_texts, copy_values, create_model_alias,
    law_storage_stays_sorted, model_map, named, storage_sorted, texts, with_locations, EffectKind,
    EffectRecord, ModelView, ProtoModel, EXTRAPOP_UNKNOWN,
};
use crate::proto_decode::{
    answer_to, answer_views, ask, effects_of, fail, failed, pentry_list, storage_block, Answer,
    AnswerView, ListPlace, Pause, PauseView, Question, QuestionView,
};
use crate::space::{engine_wf, Engine, EngineView, VarnodeData};
use crate::text::{i32_value, join2, parse_i32, same_text};
use crate::xml::{
    attr_str, attribute_text, bool_attr, child_named, decode_bool_attr, find_child, Element,
};

verus! {

impl ProtoModel {
    fn push_all_internal_storage(&mut self, storage: &Vec<VarnodeData>)
        ensures
            final(self)@ == (ModelView {
                internal_storage: with_locations(old(self)@.internal_storage, storage@),
                ..old(self)@
            }),
    {
        let ghost before = self@;
        let mut i: usize = 0;
        assert(storage@.take(0) =~= seq![]);
        while i < storage.len()
            invariant
                i <= storage@.len(),
                self@ == (ModelView {
                    internal_storage: with_locations(
                        before.internal_storage,
                        storage@.take(i as int),
                    ),
                    ..before
                }),
            decreases storage@.len() - i,
        {
            self.push_internal_storage(storage[i]);
            assert(storage@.take(i + 1).drop_last() =~= storage@.take(i as int));
            i += 1;
        }
        assert(storage@.take(i as int) =~= storage@);
    }
}

/// How far a model has been read.
#[verifier::ext_equal]
pub struct ModelState {
    pub model: ModelView,
    /// The model says itself where the return address is.
    pub saw_retaddr: bool,
    /// How many questions were answered.
    pub k: int,
}

/// The `extrapop` that a model gives; one that is no number counts as none.
pub open spec fn extrapop_attribute(proto: Element) -> i32 {
    match attribute_text(proto, "extrapop"@) {
        None => 0,
        Some(t) => if t == "unknown"@ {
            EXTRAPOP_UNKNOWN
        } else {
            match i32_value(t) {
                Some(v) => v as i32,
                None => 0,
            }
        },
    }
}

/// Whether an attribute of a model is set.
pub open spec fn flag_attribute(proto: Element, name: Seq<char>) -> bool {
    match attribute_text(proto, name) {
        None => false,
        Some(t) => bool_attr(t),
    }
}

/// The name of a model; `__stdcall` where it gives none.
pub open spec fn model_name(proto: Element) -> Seq<char> {
    match attribute_text(proto, "name"@) {
        None => "__stdcall"@,
        Some(t) => t,
    }
}

/// The name of a model's strategy; empty where it gives none.
pub open spec fn strategy_name(proto: Element) -> Seq<char> {
    match attribute_text(proto, "strategy"@) {
        None => seq![],
        Some(t) => t,
    }
}

/// What the attributes of a `<prototype>` say: its name last, so that `__thiscall` is
/// for methods whatever `hasthis` says.
pub open spec fn model_header(proto: Element) -> ModelView {
    named(
        ModelView {
            extrapop: extrapop_attribute(proto),
            has_this: flag_attribute(proto, "hasthis"@),
            constructor: flag_attribute(proto, "constructor"@),
            strategy: strategy_name(proto),
            ..blank_model()
        },
        model_name(proto),
    )
}

/// The effect that a block of this name declares.
pub open spec fn block_effect(name: Seq<char>) -> Option<EffectKind> {
    if name == "unaffected"@ {
        Some(EffectKind::Unaffected)
    } else if name == "killedbycall"@ {
        Some(EffectKind::KilledByCall)
    } else if name == "returnaddress"@ {
        Some(EffectKind::ReturnAddress)
    } else {
        None
    }
}

/// The model with the effects that a block declares.
pub open spec fn with_effects(
    e: EngineView,
    st: ModelState,
    block: Element,
    effect: EffectKind,
) -> Result<ModelState, PauseView> {
    match storage_block(e, block, "effect"@) {
        Err(f) => Err(PauseView::Fail(f, st.k)),
        Ok(storage) => Ok(
            ModelState {
                model: ModelView {
                    effects: st.model.effects + effects_of(storage, effect),
                    ..st.model
                },
                saw_retaddr: st.saw_retaddr || effect == EffectKind::ReturnAddress,
                ..st
            },
        ),
    }
}

/// The state after one more child of a `<prototype>`, which stands at this place.
pub open spec fn proto_child(
    e: EngineView,
    child: Element,
    place: ListPlace,
    a: Seq<AnswerView>,
    st: ModelState,
) -> Result<ModelState, PauseView> {
    if child.name@ == "input"@ {
        match pentry_list(e, child, st.model.input, place, a, st.k) {
            Err(p) => Err(p),
            Ok((input, k)) => Ok(ModelState { model: ModelView { input, ..st.model }, k, ..st }),
        }
    } else if child.name@ == "output"@ {
        match pentry_list(e, child, st.model.output, place, a, st.k) {
            Err(p) => Err(p),
            Ok((output, k)) => Ok(ModelState { model: ModelView { output, ..st.model }, k, ..st }),
        }
    } else if child.name@ == "internal_storage"@ {
        match storage_block(e, child, "internal_storage"@) {
            Err(f) => Err(PauseView::Fail(f, st.k)),
            Ok(storage) => Ok(
                ModelState {
                    model: ModelView {
                        internal_storage: with_locations(st.model.internal_storage, storage),
                        ..st.model
                    },
                    ..st
                },
            ),
        }
    } else {
        match block_effect(child.name@) {
            None => Ok(st),
            Some(effect) => with_effects(e, st, child, effect),
        }
    }
}

/// The state after the first `n` children of a `<prototype>` with this path.
pub open spec fn proto_children(
    e: EngineView,
    proto: Element,
    path: Seq<usize>,
    a: Seq<AnswerView>,
    st: ModelState,
    n: int,
) -> Result<ModelState, PauseView>
    decreases n,
{
    if n <= 0 {
        Ok(st)
    } else {
        match proto_children(e, proto, path, a, st, n - 1) {
            Err(p) => Err(p),
            Ok(s) => proto_child(
                e,
                proto.children@[n - 1],
                ListPlace { proto: path, at: (n - 1) as usize },
                a,
                s,
            ),
        }
    }
}

/// The state once the return address is known: where the model is silent on it, the
/// specification's own word counts.
pub open spec fn with_return_address(e: EngineView, st: ModelState, root: Element) -> Result<
    ModelState,
    PauseView,
> {
    if st.saw_retaddr {
        Ok(st)
    } else {
        match child_named(root, "returnaddress"@) {
            None => Ok(st),
            Some(block) => with_effects(e, st, block, EffectKind::ReturnAddress),
        }
    }
}

/// Whether the effect of calls on the location is given.
pub open spec fn effect_given(effects: Seq<EffectRecord>, location: VarnodeData) -> bool {
    exists|i: int| 0 <= i < effects.len() && (#[trigger] effects[i]).location == location
}

/// The effects with a register that is unaffected, unless its effect is given.
pub open spec fn with_unaffected(effects: Seq<EffectRecord>, location: Option<VarnodeData>) -> Seq<
    EffectRecord,
> {
    match location {
        Some(location) if !effect_given(effects, location) => effects.push(
            EffectRecord { location, effect: EffectKind::Unaffected },
        ),
        _ => effects,
    }
}

/// The model once what the specification is silent on has been added.
pub open spec fn with_silent(a: Seq<AnswerView>, st: ModelState) -> Result<
    (ModelView, int),
    PauseView,
> {
    match answer_to(a, st.k, QuestionView::Silent(st.model.effects)) {
        Err(p) => Err(p),
        Ok(v) => Ok(
            (
                ModelView {
                    effects: with_unaffected(st.model.effects, v.location),
                    ..st.model
                },
                st.k + 1,
            ),
        ),
    }
}

/// What the specification says of a location is not overridden: the effects that it gives
/// stay, and one that is added is of a location that it does not speak of.
pub proof fn law_given_effects_stay(effects: Seq<EffectRecord>, location: Option<VarnodeData>)
    ensures
        ({
            let after = with_unaffected(effects, location);
            &&& effects.is_prefix_of(after)
            &&& after.len() <= effects.len() + 1
            &&& after.len() > effects.len() ==> !effect_given(effects, after.last().location)
                && after.last().effect == EffectKind::Unaffected
        }),
{
}

/// The model that a `<prototype>` with this path describes; `root` is the specification
/// that it stands in.
pub open spec fn proto_model(
    e: EngineView,
    proto: Element,
    path: Seq<usize>,
    root: Element,
    a: Seq<AnswerView>,
    k: int,
) -> Result<(ModelView, int), PauseView> {
    match answer_to(a, k, QuestionView::Strategy(strategy_name(proto))) {
        Err(p) => Err(p),
        Ok(_) => {
            let st = ModelState { model: model_header(proto), saw_retaddr: false, k: k + 1 };
            match proto_children(e, proto, path, a, st, proto.children@.len() as int) {
                Err(p) => Err(p),
                Ok(st1) => match with_return_address(e, st1, root) {
                    Err(p) => Err(p),
                    Ok(st2) => with_silent(a, st2),
                },
            }
        },
    }
}

proof fn lemma_storage_sorted(
    e: EngineView,
    proto: Element,
    path: Seq<usize>,
    a: Seq<AnswerView>,
    st: ModelState,
    n: int,
)
    requires
        storage_sorted(st.model.internal_storage),
    ensures
        proto_children(e, proto, path, a, st, n) matches Ok(s) ==> storage_sorted(
            s.model.internal_storage,
        ),
    decreases n,
{
    if n > 0 {
        lemma_storage_sorted(e, proto, path, a, st, n - 1);
        if let Ok(s) = proto_children(e, proto, path, a, st, n - 1) {
            let child = proto.children@[n - 1];
            if let Ok(storage) = storage_block(e, child, "internal_storage"@) {
                law_storage_stays_sorted(s.model.internal_storage, storage);
            }
        }
    }
}

/// The internal storage of a model is sorted, in whatever order the specification
/// declares it.
pub proof fn law_internal_storage_is_sorted(
    e: EngineView,
    proto: Element,
    path: Seq<usize>,
    root: Element,
    a: Seq<AnswerView>,
    k: int,
)
    ensures
        proto_model(e, proto, path, root, a, k) matches Ok((m, _)) ==> storage_sorted(
            m.internal_storage,
        ),
{
    let st = ModelState { model: model_header(proto), saw_retaddr: false, k: k + 1 };
    lemma_storage_sorted(e, proto, path, a, st, proto.children@.len() as int);
}

proof fn lemma_proto_stops(
    e: EngineView,
    proto: Element,
    path: Seq<usize>,
    a: Seq<AnswerView>,
    st: ModelState,
    n: int,
    m: int,
)
    requires
        0 <= n <= m,
        proto_children(e, proto, path, a, st, n) is Err,
    ensures
        proto_children(e, proto, path, a, st, m) == proto_children(e, proto, path, a, st, n),
    decreases m,
{
    if n < m {
        lemma_proto_stops(e, proto, path, a, st, n, m - 1);
    }
}

/// A model while it is read.
struct ModelReader {
    model: ProtoModel,
    saw_retaddr: bool,
    k: usize,
}

impl View for ModelReader {
    type V = ModelState;

    closed spec fn view(&self) -> ModelState {
        ModelState { model: self.model@, saw_retaddr: self.saw_retaddr, k: self.k as int }
    }
}

fn read_header(proto: &Element) -> (r: ProtoModel)
    ensures
        r@ == model_header(*proto),
{
    let mut m = ProtoModel::new();
    match attr_str(proto, "extrapop") {
        None => {},
        Some(t) => {
            if same_text(t.as_str(), "unknown") {
                m.extrapop = EXTRAPOP_UNKNOWN;
            } else if let Some(v) = parse_i32(t.as_str()) {
                m.extrapop = v;
            }
        },
    }
    if let Some(t) = attr_str(proto, "hasthis") {
        m.has_this = decode_bool_attr(t.as_str());
    }
    if let Some(t) = attr_str(proto, "constructor") {
        m.constructor = decode_bool_attr(t.as_str());
    }
    if let Some(t) = attr_str(proto, "strategy") {
        m.strategy = t;
    }
    match attr_str(proto, "name") {
        None => {
            m.set_name("__stdcall");
        },
        Some(t) => {
            m.set_name(t.as_str());
        },
    }
    assert(m@ =~= model_header(*proto));
    m
}

/// What contracts say of a reading whose value is a model.
pub open spec fn model_reading(r: Result<(ProtoModel, usize), Pause>) -> Result<
    (ModelView, int),
    PauseView,
> {
    match r {
        Ok((m, k)) => Ok((m@, k as int)),
        Err(p) => Err(p@),
    }
}

impl Engine {
    fn read_effects(&self, block: &Element, effect: EffectKind, st: &mut ModelReader) -> (r: Result<
        (),
        Pause,
    >)
        ensures
            match r {
                Ok(()) => with_effects(self@, old(st)@, *block, effect) == Ok::<
                    ModelState,
                    PauseView,
                >(final(st)@),
                Err(p) => with_effects(self@, old(st)@, *block, effect) == Err::<
                    ModelState,
                    PauseView,
                >(p@),
            },
    {
        match self.decode_effect_block(block, effect) {
            Err(e) => Err(Pause::Fail(e, st.k)),
            Ok(mut effects) => {
                st.model.effects.append(&mut effects);
                if effect == EffectKind::ReturnAddress {
                    st.saw_retaddr = true;
                }
                Ok(())
            },
        }
    }

    fn read_proto_child(
        &self,
        child: &Element,
        path: &Vec<usize>,
        at: usize,
        a: &Vec<Answer>,
        st: &mut ModelReader,
    ) -> (r: Result<(), Pause>)
        requires
            engine_wf(self@),
        ensures
            ({
                let place = ListPlace { proto: path@, at };
                let s = proto_child(self@, *child, place, answer_views(a@), old(st)@);
                match r {
                    Ok(()) => s == Ok::<ModelState, PauseView>(final(st)@),
                    Err(p) => s == Err::<ModelState, PauseView>(p@),
                }
            }),
    {
        let name = child.name.as_str();
        if same_text(name, "input") {
            match self.decode_pentry_list(child, &st.model.input, path, at, a, st.k) {
                Err(p) => Err(p),
                Ok((list, k)) => {
                    st.model.input = list;
                    st.k = k;
                    Ok(())
                },
            }
        } else if same_text(name, "output") {
            match self.decode_pentry_list(child, &st.model.output, path, at, a, st.k) {
                Err(p) => Err(p),
                Ok((list, k)) => {
                    st.model.output = list;
                    st.k = k;
                    Ok(())
                },
            }
        } else if same_text(name, "internal_storage") {
            match self.decode_internal_storage_block(child) {
                Err(e) => Err(Pause::Fail(e, st.k)),
                Ok(storage) => {
                    st.model.push_all_internal_storage(&storage);
                    Ok(())
                },
            }
        } else if same_text(name, "unaffected") {
            self.read_effects(child, EffectKind::Unaffected, st)
        } else if same_text(name, "killedbycall") {
            self.read_effects(child, EffectKind::KilledByCall, st)
        } else if same_text(name, "returnaddress") {
            self.read_effects(child, EffectKind::ReturnAddress, st)
        } else {
            Ok(())
        }
    }

    /// The model that a `<prototype>` describes; `path` leads to it from `root`, the
    /// specification that it stands in.
    pub fn decode_proto_model(
        &self,
        proto: &Element,
        path: &Vec<usize>,
        root: &Element,
        a: &Vec<Answer>,
        k: usize,
    ) -> (r: Result<(ProtoModel, usize), Pause>)
        requires
            engine_wf(self@),
        ensures
            model_reading(r) == proto_model(
                self@,
                *proto,
                path@,
                *root,
                answer_views(a@),
                k as int,
            ),
    {
        let model = read_header(proto);
        match ask(a, k, Question::Strategy(model.strategy.clone())) {
            Err(p) => {
                return Err(p);
            },
            Ok(_) => {},
        }
        let mut st = ModelReader { model, saw_retaddr: false, k: k + 1 };
        let ghost st0 = st@;
        let ghost n = proto.children@.len() as int;
        let mut i: usize = 0;
        while i < proto.children.len()
            invariant
                i <= proto.children@.len(),
                n == proto.children@.len(),
                engine_wf(self@),
                answer_to(
                    answer_views(a@),
                    k as int,
                    QuestionView::Strategy(strategy_name(*proto)),
                ) is Ok,
                st0 == (ModelState {
                    model: model_header(*proto),
                    saw_retaddr: false,
                    k: k + 1,
                }),
                proto_children(self@, *proto, path@, answer_views(a@), st0, i as int) == Ok::<
                    ModelState,
                    PauseView,
                >(st@),
            decreases proto.children@.len() - i,
        {
            match self.read_proto_child(&proto.children[i], path, i, a, &mut st) {
                Err(p) => {
                    proof {
                        lemma_proto_stops(self@, *proto, path@, answer_views(a@), st0, i + 1, n);
                    }
                    return Err(p);
                },
                Ok(()) => {},
            }
            i += 1;
        }
        if !st.saw_retaddr {
            if let Some(block) = find_child(root, "returnaddress") {
                match self.read_effects(block, EffectKind::ReturnAddress, &mut st) {
                    Err(p) => {
                        return Err(p);
                    },
                    Ok(()) => {},
                }
            }
        }
        match ask(a, st.k, Question::Silent(copy_values(&st.model.effects))) {
            Err(p) => Err(p),
            Ok(v) => {
                let ModelReader { mut model, saw_retaddr: _, k: k2 } = st;
                if let Some(location) = v.location {
                    if !is_effect_given(&model.effects, location) {
                        model.effects.push(
                            EffectRecord { location, effect: EffectKind::Unaffected },
                        );
                    }
                }
                Ok((model, k2 + 1))
            },
        }
    }
}

fn is_effect_given(effects: &Vec<EffectRecord>, location: VarnodeData) -> (r: bool)
    ensures
        r == effect_given(effects@, location),
{
    let mut i: usize = 0;
    while i < effects.len()
        invariant
            i <= effects@.len(),
            forall|j: int| 0 <= j < i ==> (#[trigger] effects@[j]).location != location,
        decreases effects@.len() - i,
    {
        if effects[i].location == location {
            return true;
        }
        i += 1;
    }
    false
}

/// A model that a `<prototype>` describes is neither merged nor a copy.
pub proof fn lemma_model_is_plain(
    e: EngineView,
    proto: Element,
    path: Seq<usize>,
    root: Element,
    a: Seq<AnswerView>,
    k: int,
)
    requires
        proto_model(e, proto, path, root, a, k) is Ok,
    ensures
        (proto_model(e, proto, path, root, a, k)->Ok_0).0.merged is None,
        (proto_model(e, proto, path, root, a, k)->Ok_0).0.alias_parent is None,
{
    let st = ModelState { model: model_header(proto), saw_retaddr: false, k: k + 1 };
    lemma_children_are_plain(e, proto, path, a, st, proto.children@.len() as int);
}

proof fn lemma_children_are_plain(
    e: EngineView,
    proto: Element,
    path: Seq<usize>,
    a: Seq<AnswerView>,
    st: ModelState,
    n: int,
)
    requires
        st.model.merged is None,
        st.model.alias_parent is None,
        proto_children(e, proto, path, a, st, n) is Ok,
    ensures
        (proto_children(e, proto, path, a, st, n)->Ok_0).model.merged is None,
        (proto_children(e, proto, path, a, st, n)->Ok_0).model.alias_parent is None,
    decreases n,
{
    if n > 0 {
        lemma_children_are_plain(e, proto, path, a, st, n - 1);
    }
}

// ---- merged models ------------------------------------------------------------------

/// The names of the models that the first `n` children of a `<resolveprototype>` merge,
/// with the number of answered questions.
pub open spec fn merged_names(
    el: Element,
    byname: Map<Seq<char>, ModelView>,
    a: Seq<AnswerView>,
    k: int,
    n: int,
) -> Result<(Seq<Seq<char>>, int), PauseView>
    decreases n,
{
    if n <= 0 {
        Ok((seq![], k))
    } else {
        match merged_names(el, byname, a, k, n - 1) {
            Err(p) => Err(p),
            Ok((names, k1)) => {
                let child = el.children@[n - 1];
                if child.name@ != "model"@ {
                    Ok((names, k1))
                } else {
                    match attribute_text(child, "name"@) {
                        None => fail("<model> has no name"@, k1),
                        Some(sub) => if !byname.contains_key(sub) {
                            fail("Missing prototype model: "@ + sub, k1)
                        } else {
                            match answer_to(a, k1, QuestionView::Merge(names, sub)) {
                                Err(p) => Err(p),
                                Ok(_) => Ok((names.push(sub), k1 + 1)),
                            }
                        },
                    }
                }
            },
        }
    }
}

/// The model that a `<resolveprototype>` describes: it merges models that are known.
pub open spec fn resolve_proto(
    el: Element,
    byname: Map<Seq<char>, ModelView>,
    a: Seq<AnswerView>,
    k: int,
) -> Result<(ModelView, int), PauseView> {
    match attribute_text(el, "name"@) {
        None => fail("<resolveprototype> has no name"@, k),
        Some(name) => match merged_names(el, byname, a, k, el.children@.len() as int) {
            Err(p) => Err(p),
            Ok((names, k2)) => if names.len() == 0 {
                fail("<resolveprototype> has no <model>"@, k2)
            } else {
                Ok((ModelView { merged: Some(names), ..named(blank_model(), name) }, k2))
            },
        },
    }
}

proof fn lemma_merged_stops(
    el: Element,
    byname: Map<Seq<char>, ModelView>,
    a: Seq<AnswerView>,
    k: int,
    n: int,
    m: int,
)
    requires
        0 <= n <= m,
        merged_names(el, byname, a, k, n) is Err,
    ensures
        merged_names(el, byname, a, k, m) == merged_names(el, byname, a, k, n),
    decreases m,
{
    if n < m {
        lemma_merged_stops(el, byname, a, k, n, m - 1);
    }
}

fn read_merged_names(
    el: &Element,
    byname: &NameMap<Rc<ProtoModel>>,
    a: &Vec<Answer>,
    k: usize,
) -> (r: Result<(Vec<String>, usize), Pause>)
    ensures
        ({
            let l = merged_names(
                *el,
                model_map(byname@),
                answer_views(a@),
                k as int,
                el.children@.len() as int,
            );
            match r {
                Ok((names, k2)) => l == Ok::<(Seq<Seq<char>>, int), PauseView>(
                    (texts(names@), k2 as int),
                ),
                Err(p) => l == Err::<(Seq<Seq<char>>, int), PauseView>(p@),
            }
        }),
{
    let ghost known = model_map(byname@);
    let ghost av = answer_views(a@);
    let ghost n = el.children@.len() as int;
    let mut names: Vec<String> = Vec::new();
    let mut at: usize = k;
    let mut i: usize = 0;
    assert(texts(names@) =~= seq![]);
    while i < el.children.len()
        invariant
            i <= el.children@.len(),
            n == el.children@.len(),
            known == model_map(byname@),
            av == answer_views(a@),
            merged_names(*el, known, av, k as int, i as int) == Ok::<
                (Seq<Seq<char>>, int),
                PauseView,
            >((texts(names@), at as int)),
        decreases el.children@.len() - i,
    {
        let child = &el.children[i];
        if same_text(child.name.as_str(), "model") {
            let sub = match attr_str(child, "name") {
                None => {
                    proof {
                        lemma_merged_stops(*el, known, av, k as int, i + 1, n);
                    }
                    return Err(failed("<model> has no name", at));
                },
                Some(s) => s,
            };
            if !byname.contains(sub.as_str()) {
                proof {
                    lemma_merged_stops(*el, known, av, k as int, i + 1, n);
                }
                return Err(
                    Pause::Fail(
                        KunaError::lowlevel(join2("Missing prototype model: ", sub.as_str())),
                        at,
                    ),
                );
            }
            match ask(a, at, Question::Merge(copy_texts(&names), sub.clone())) {
                Err(p) => {
                    proof {
                        lemma_merged_stops(*el, known, av, k as int, i + 1, n);
                    }
                    return Err(p);
                },
                Ok(_) => {},
            }
            at += 1;
            let ghost was = names@;
            names.push(sub);
            assert(texts(names@) =~= texts(was).push(sub@));
        }
        i += 1;
    }
    Ok((names, at))
}

/// The model that a `<resolveprototype>` describes; `byname` holds the models that are
/// known.
pub fn decode_resolve_proto(
    el: &Element,
    byname: &NameMap<Rc<ProtoModel>>,
    a: &Vec<Answer>,
    k: usize,
) -> (r: Result<(ProtoModel, usize), Pause>)
    ensures
        model_reading(r) == resolve_proto(*el, model_map(byname@), answer_views(a@), k as int),
{
    let name = match attr_str(el, "name") {
        None => {
            return Err(failed("<resolveprototype> has no name", k));
        },
        Some(n) => n,
    };
    let (names, k2) = match read_merged_names(el, byname, a, k) {
        Err(p) => {
            return Err(p);
        },
        Ok(v) => v,
    };
    if names.len() == 0 {
        return Err(failed("<resolveprototype> has no <model>", k2));
    }
    let mut model = ProtoModel::new();
    model.set_name(name.as_str());
    model.merged = Some(names);
    Ok((model, k2))
}

// ---- the models of a specification --------------------------------------------------

/// How far the named models have been read: all that are known by name, those that are
/// new in the order of the document, and the number of answered questions.
#[verifier::ext_equal]
pub struct NamedState {
    pub byname: Map<Seq<char>, ModelView>,
    pub out: Seq<ModelView>,
    pub k: int,
}

/// The state with one more model, unless its name is taken.
pub open spec fn with_named(st: NamedState, m: ModelView, k: int) -> NamedState {
    if st.byname.contains_key(m.name) {
        NamedState { k, ..st }
    } else {
        NamedState { byname: st.byname.insert(m.name, m), out: st.out.push(m), k }
    }
}

/// The state after a reading of a model: a model that cannot be read is left out.
pub open spec fn after_reading(st: NamedState, r: Result<(ModelView, int), PauseView>) -> Result<
    NamedState,
    QuestionView,
> {
    match r {
        Ok((m, k)) => Ok(with_named(st, m, k)),
        Err(PauseView::Fail(_, k)) => Ok(NamedState { k, ..st }),
        Err(PauseView::Ask(q)) => Err(q),
    }
}

/// The state after one more child of the specification, which stands at this place.
pub open spec fn named_child(
    e: EngineView,
    child: Element,
    at: usize,
    root: Element,
    a: Seq<AnswerView>,
    st: NamedState,
) -> Result<NamedState, QuestionView> {
    if child.name@ == "prototype"@ {
        after_reading(st, proto_model(e, child, seq![at], root, a, st.k))
    } else if child.name@ == "resolveprototype"@ {
        after_reading(st, resolve_proto(child, st.byname, a, st.k))
    } else if child.name@ == "modelalias"@ {
        match (attribute_text(child, "name"@), attribute_text(child, "parent"@)) {
            (Some(name), Some(parent)) => if st.byname.contains_key(parent) {
                match alias_result(name, st.byname[parent]) {
                    Ok(m) => Ok(with_named(st, m, st.k)),
                    Err(_) => Ok(st),
                }
            } else {
                Ok(st)
            },
            _ => Ok(st),
        }
    } else {
        Ok(st)
    }
}

/// The state after the first `n` children of the specification.
pub open spec fn named_children(
    e: EngineView,
    root: Element,
    default: ModelView,
    a: Seq<AnswerView>,
    k: int,
    n: int,
) -> Result<NamedState, QuestionView>
    decreases n,
{
    if n <= 0 {
        Ok(
            NamedState {
                byname: Map::empty().insert(default.name, default),
                out: seq![],
                k,
            },
        )
    } else {
        match named_children(e, root, default, a, k, n - 1) {
            Err(q) => Err(q),
            Ok(st) => named_child(e, root.children@[n - 1], (n - 1) as usize, root, a, st),
        }
    }
}

/// The models with `__thiscall` among them: where the specification has none, it is a
/// copy of the default model.
pub open spec fn with_thiscall(st: NamedState, default: ModelView) -> Seq<ModelView> {
    if st.byname.contains_key("__thiscall"@) {
        st.out
    } else {
        match alias_result("__thiscall"@, default) {
            Ok(m) => st.out.push(m),
            Err(_) => st.out,
        }
    }
}

/// The models that the specification declares besides the default one, in the order of
/// registration.
pub open spec fn named_protos(
    e: EngineView,
    root: Element,
    default: ModelView,
    a: Seq<AnswerView>,
    k: int,
) -> Result<Seq<ModelView>, QuestionView> {
    match named_children(e, root, default, a, k, root.children@.len() as int) {
        Err(q) => Err(q),
        Ok(st) => Ok(with_thiscall(st, default)),
    }
}

proof fn lemma_named_stops(
    e: EngineView,
    root: Element,
    default: ModelView,
    a: Seq<AnswerView>,
    k: int,
    n: int,
    m: int,
)
    requires
        0 <= n <= m,
        named_children(e, root, default, a, k, n) is Err,
    ensures
        named_children(e, root, default, a, k, m) == named_children(e, root, default, a, k, n),
    decreases m,
{
    if n < m {
        lemma_named_stops(e, root, default, a, k, n, m - 1);
    }
}

/// The models of a list.
pub open spec fn model_list(v: Seq<Rc<ProtoModel>>) -> Seq<ModelView> {
    v.map_values(|p: Rc<ProtoModel>| (*p)@)
}

/// The named models while they are read.
struct NamedReader {
    byname: NameMap<Rc<ProtoModel>>,
    out: Vec<Rc<ProtoModel>>,
    k: usize,
}

impl View for NamedReader {
    type V = NamedState;

    closed spec fn view(&self) -> NamedState {
        NamedState {
            byname: model_map(self.byname@),
            out: model_list(self.out@),
            k: self.k as int,
        }
    }
}

impl NamedReader {
    fn add(&mut self, m: ProtoModel, k: usize)
        ensures
            final(self)@ == with_named(old(self)@, m@, k as int),
    {
        let ghost before = self@;
        let ghost view = m@;
        self.k = k;
        if !self.byname.contains(m.name.as_str()) {
            let name = m.name.clone();
            let rc = Rc::new(m);
            let ghost was = self.out@;
            self.byname.insert(name.as_str(), Rc::clone(&rc));
            self.out.push(rc);
            assert(model_list(self.out@) =~= model_list(was).push(view));
            assert(self@.byname =~= before.byname.insert(view.name, view));
        }
    }

    fn take_reading(&mut self, r: Result<(ProtoModel, usize), Pause>) -> (res: Result<
        (),
        Question,
    >)
        ensures
            match res {
                Ok(()) => after_reading(old(self)@, model_reading(r)) == Ok::<
                    NamedState,
                    QuestionView,
                >(final(self)@),
                Err(q) => after_reading(old(self)@, model_reading(r)) == Err::<
                    NamedState,
                    QuestionView,
                >(q@),
            },
    {
        match r {
            Ok((m, k)) => {
                self.add(m, k);
                Ok(())
            },
            Err(Pause::Fail(_, k)) => {
                self.k = k;
                Ok(())
            },
            Err(Pause::Ask(q)) => Err(q),
        }
    }
}

impl Engine {
    fn read_named_child(
        &self,
        child: &Element,
        at: usize,
        root: &Element,
        a: &Vec<Answer>,
        st: &mut NamedReader,
    ) -> (r: Result<(), Question>)
        requires
            engine_wf(self@),
        ensures
            ({
                let s = named_child(self@, *child, at, *root, answer_views(a@), old(st)@);
                match r {
                    Ok(()) => s == Ok::<NamedState, QuestionView>(final(st)@),
                    Err(q) => s == Err::<NamedState, QuestionView>(q@),
                }
            }),
    {
        let name = child.name.as_str();
        if same_text(name, "prototype") {
            let path: Vec<usize> = vec![at];
            assert(path@ =~= seq![at]);
            let r = self.decode_proto_model(child, &path, root, a, st.k);
            st.take_reading(r)
        } else if same_text(name, "resolveprototype") {
            let r = decode_resolve_proto(child, &st.byname, a, st.k);
            st.take_reading(r)
        } else if same_text(name, "modelalias") {
            let alias = match attr_str(child, "name") {
                None => {
                    return Ok(());
                },
                Some(n) => n,
            };
            let parent = match attr_str(child, "parent") {
                None => {
                    return Ok(());
                },
                Some(n) => n,
            };
            let made = match st.byname.get(parent.as_str()) {
                None => {
                    return Ok(());
                },
                Some(p) => create_model_alias(alias.as_str(), p),
            };
            if let Ok(m) = made {
                let k: usize = st.k;
                st.add(m, k);
            }
            Ok(())
        } else {
            Ok(())
        }
    }

    /// The models that the specification declares besides the default one, in the order
    /// of registration. One that cannot be read is left out; of two with one name the
    /// first counts; `__thiscall` is always among them, or is the default one.
    pub fn decode_named_protos(
        &self,
        root: &Element,
        default: &Rc<ProtoModel>,
        a: &Vec<Answer>,
        k: usize,
    ) -> (r: Result<Vec<Rc<ProtoModel>>, Question>)
        requires
            engine_wf(self@),
        ensures
            ({
                let l = named_protos(self@, *root, (**default)@, answer_views(a@), k as int);
                match r {
                    Ok(v) => l == Ok::<Seq<ModelView>, QuestionView>(model_list(v@)),
                    Err(q) => l == Err::<Seq<ModelView>, QuestionView>(q@),
                }
            }),
    {
        let ghost d = (**default)@;
        let ghost av = answer_views(a@);
        let ghost n = root.children@.len() as int;
        let mut byname: NameMap<Rc<ProtoModel>> = NameMap::new();
        byname.insert(default.name.as_str(), Rc::clone(default));
        let mut st = NamedReader { byname, out: Vec::new(), k };
        assert(st@.byname =~= Map::empty().insert(d.name, d));
        assert(st@.out =~= seq![]);
        let mut i: usize = 0;
        while i < root.children.len()
            invariant
                i <= root.children@.len(),
                n == root.children@.len(),
                engine_wf(self@),
                d == (**default)@,
                av == answer_views(a@),
                named_children(self@, *root, d, av, k as int, i as int) == Ok::<
                    NamedState,
                    QuestionView,
                >(st@),
            decreases root.children@.len() - i,
        {
            match self.read_named_child(&root.children[i], i, root, a, &mut st) {
                Err(q) => {
                    proof {
                        lemma_named_stops(self@, *root, d, av, k as int, i + 1, n);
                    }
                    return Err(q);
                },
                Ok(()) => {},
            }
            i += 1;
        }
        let ghost end = st@;
        let NamedReader { byname, mut out, k: _ } = st;
        if !byname.contains("__thiscall") {
            if let Ok(m) = create_model_alias("__thiscall", default) {
                let ghost was = out@;
                let ghost view = m@;
                out.push(Rc::new(m));
                assert(model_list(out@) =~= model_list(was).push(view));
            }
        }
        assert(model_list(out@) == with_thiscall(end, d));
        Ok(out)
    }
}

} // verus!
