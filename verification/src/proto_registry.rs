//! Filling the model registry from a compiler specification.

use std::rc::Rc;
use vstd::prelude::*;
use vstd::string::*;
use crate::proto::{
    alias_result, blank_model, named, with_model, ModelRegistry, ModelView, ProtoModel,
    RegistryView,
};
use crate::proto_decode::{
    answer_views, default_return_addr, fail, failed, Answer, AnswerView, Pause, PauseView, Question,
    QuestionView,
};
use crate::proto_models::{
    model_list, model_reading, named_children, named_protos, proto_model, resolve_proto, with_named,
    NamedState,
};
use crate::space::{engine_wf, Engine, EngineView, VarnodeData};
use crate::xml::{attribute_text, child_from, find_place, Element, SpecDocument};

verus! {

/// The default model of a specification.
pub open spec fn default_proto(e: EngineView, root: Element, a: Seq<AnswerView>) -> Result<
    (ModelView, int),
    PauseView,
> {
    match child_from(root, "default_proto"@, 0) {
        None => fail("cspec has no <default_proto>"@, 0),
        Some(i) => {
            let dp = root.children@[i];
            match child_from(dp, "prototype"@, 0) {
                None => fail("<default_proto> has no <prototype>"@, 0),
                Some(j) => proto_model(
                    e,
                    dp.children@[j],
                    seq![i as usize, j as usize],
                    root,
                    a,
                    0,
                ),
            }
        },
    }
}

/// The model that stands in where the specification gives no default one.
pub open spec fn fallback_model() -> ModelView {
    ModelView { strategy: "standard"@, ..named(blank_model(), "unknown"@) }
}

/// The registry with the model as the default one.
pub open spec fn with_default(g: RegistryView, m: ModelView) -> RegistryView {
    RegistryView { defaultfp: Some(m), ..with_model(g, m) }
}

/// The registry with the models of a list, registered in turn.
pub open spec fn with_models(g: RegistryView, list: Seq<ModelView>) -> RegistryView
    decreases list.len(),
{
    if list.len() == 0 {
        g
    } else {
        with_model(with_models(g, list.drop_last()), list.last())
    }
}

/// The registry with the specification's choice of the model that prototypes are
/// evaluated with; a name that is not registered counts as no choice.
pub open spec fn with_nominated(g: RegistryView, nominated: Option<Seq<char>>) -> RegistryView {
    RegistryView {
        evalfp_current_spec: match nominated {
            Some(name) => if g.models.contains_key(name) {
                Some(g.models[name])
            } else {
                None
            },
            None => None,
        },
        ..g
    }
}

/// The registry, and where the return address is kept, after the models of the
/// specification were read; or the question that is open.
#[verifier::opaque]
pub open spec fn default_proto_effect(
    e: EngineView,
    doc: SpecDocument,
    nominated: Option<Seq<char>>,
    g: RegistryView,
    return_addr: Option<VarnodeData>,
    a: Seq<AnswerView>,
) -> Result<(RegistryView, Option<VarnodeData>), QuestionView> {
    match doc {
        SpecDocument::Root(root) => {
            let ra = default_return_addr(e, root);
            match default_proto(e, root, a) {
                Err(PauseView::Ask(q)) => Err(q),
                Err(PauseView::Fail(_, _)) => Ok((with_default(g, fallback_model()), ra)),
                Ok((m, k)) => match named_protos(e, root, m, a, k) {
                    Err(q) => Err(q),
                    Ok(list) => Ok(
                        (with_nominated(with_models(with_default(g, m), list), nominated), ra),
                    ),
                },
            }
        },
        _ => Ok((with_default(g, fallback_model()), return_addr)),
    }
}

impl Engine {
    /// The default model of a specification.
    pub fn decode_default_proto(&self, root: &Element, a: &Vec<Answer>) -> (r: Result<
        (ProtoModel, usize),
        Pause,
    >)
        requires
            engine_wf(self@),
        ensures
            model_reading(r) == default_proto(self@, *root, answer_views(a@)),
    {
        let i: usize = match find_place(root, "default_proto", 0) {
            None => {
                return Err(failed("cspec has no <default_proto>", 0));
            },
            Some(i) => i,
        };
        let dp = &root.children[i];
        let j: usize = match find_place(dp, "prototype", 0) {
            None => {
                return Err(failed("<default_proto> has no <prototype>", 0));
            },
            Some(j) => j,
        };
        let path: Vec<usize> = vec![i, j];
        assert(path@ =~= seq![i, j]);
        self.decode_proto_model(&dp.children[j], &path, root, a, 0)
    }
}

impl ModelRegistry {
    fn make_default(&mut self, m: Rc<ProtoModel>)
        ensures
            final(self)@ == with_default(old(self)@, (*m)@),
    {
        self.register_model(Rc::clone(&m));
        self.defaultfp = Some(m);
    }

    fn register_all(&mut self, list: Vec<Rc<ProtoModel>>)
        ensures
            final(self)@ == with_models(old(self)@, model_list(list@)),
    {
        let ghost views = model_list(list@);
        let mut i: usize = 0;
        assert(views.take(0) =~= seq![]);
        while i < list.len()
            invariant
                i <= list@.len(),
                views == model_list(list@),
                self@ == with_models(old(self)@, views.take(i as int)),
            decreases list@.len() - i,
        {
            self.register_model(Rc::clone(&list[i]));
            assert(views.take(i + 1).drop_last() =~= views.take(i as int));
            assert(views.take(i + 1).last() == (*list@[i as int])@);
            i += 1;
        }
        assert(views.take(i as int) =~= views);
    }

    fn nominate(&mut self, nominated: Option<&str>)
        ensures
            final(self)@ == with_nominated(
                old(self)@,
                match nominated {
                    Some(n) => Some(n@),
                    None => None,
                },
            ),
    {
        self.evalfp_current_spec = match nominated {
            Some(name) => match self.models.get(name) {
                Some(m) => Some(Rc::clone(m)),
                None => None,
            },
            None => None,
        };
    }

    /// Read the models of the specification: the default one, which always exists in the
    /// end, and the named ones. `nominated` is the specification's choice of the model
    /// that prototypes are evaluated with. Nothing changes while a question is open.
    pub fn build_default_proto(
        &mut self,
        engine: &Engine,
        doc: &SpecDocument,
        nominated: Option<&str>,
        return_addr: Option<VarnodeData>,
        a: &Vec<Answer>,
    ) -> (r: Result<Option<VarnodeData>, Question>)
        requires
            engine_wf(engine@),
        ensures
            ({
                let effect = default_proto_effect(
                    engine@,
                    *doc,
                    match nominated {
                        Some(n) => Some(n@),
                        None => None,
                    },
                    old(self)@,
                    return_addr,
                    answer_views(a@),
                );
                match r {
                    Ok(ra) => effect == Ok::<(RegistryView, Option<VarnodeData>), QuestionView>(
                        (final(self)@, ra),
                    ),
                    Err(q) => effect == Err::<(RegistryView, Option<VarnodeData>), QuestionView>(
                        q@,
                    ) && final(self)@ == old(self)@,
                }
            }),
    {
        reveal(default_proto_effect);
        let mut ra = return_addr;
        if let SpecDocument::Root(root) = doc {
            ra = engine.decode_default_return_addr(root);
            match engine.decode_default_proto(root, a) {
                Err(Pause::Ask(q)) => {
                    return Err(q);
                },
                Err(Pause::Fail(_, _)) => {},
                Ok((m, k)) => {
                    let rc = Rc::new(m);
                    let list = match engine.decode_named_protos(root, &rc, a, k) {
                        Err(q) => {
                            return Err(q);
                        },
                        Ok(list) => list,
                    };
                    self.make_default(rc);
                    self.register_all(list);
                    self.nominate(nominated);
                    return Ok(ra);
                },
            }
        }
        let mut model = ProtoModel::new();
        model.set_name("unknown");
        model.strategy = String::from_str("standard");
        self.make_default(Rc::new(model));
        Ok(ra)
    }
}

// ---- laws ---------------------------------------------------------------------------

/// Registering models keeps what has another name, and makes every name known.
proof fn lemma_with_models(g: RegistryView, list: Seq<ModelView>, name: Seq<char>)
    ensures
        (forall|i: int| 0 <= i < list.len() ==> (#[trigger] list[i]).name != name) ==> {
            &&& with_models(g, list).models.contains_key(name) == g.models.contains_key(name)
            &&& g.models.contains_key(name) ==> with_models(g, list).models[name]
                == g.models[name]
        },
        g.models.contains_key(name) ==> with_models(g, list).models.contains_key(name),
        (exists|i: int| 0 <= i < list.len() && (#[trigger] list[i]).name == name)
            ==> with_models(g, list).models.contains_key(name),
        with_models(g, list).defaultfp == g.defaultfp,
    decreases list.len(),
{
    if list.len() > 0 {
        let rest = list.drop_last();
        lemma_with_models(g, rest, name);
        if forall|i: int| 0 <= i < list.len() ==> (#[trigger] list[i]).name != name {
            assert forall|i: int| 0 <= i < rest.len() implies (#[trigger] rest[i]).name != name by {
                assert(list[i] == rest[i]);
            }
            assert(list[list.len() - 1].name != name);
        }
        if exists|i: int| 0 <= i < list.len() && (#[trigger] list[i]).name == name {
            let i = choose|i: int| 0 <= i < list.len() && (#[trigger] list[i]).name == name;
            if i < rest.len() {
                assert(rest[i].name == name);
            }
        }
    }
}

/// Whether the known names are that of the default model and those of the new models,
/// which differ from it.
spec fn names_agree(st: NamedState, default: ModelView) -> bool {
    &&& st.byname.contains_key(default.name)
    &&& forall|i: int| 0 <= i < st.out.len() ==> (#[trigger] st.out[i]).name != default.name
    &&& forall|name: Seq<char>| #[trigger]
        st.byname.contains_key(name) ==> name == default.name || exists|i: int|
            0 <= i < st.out.len() && (#[trigger] st.out[i]).name == name
}

proof fn lemma_with_named_agrees(st: NamedState, default: ModelView, m: ModelView, k: int)
    requires
        names_agree(st, default),
    ensures
        names_agree(with_named(st, m, k), default),
{
    let after = with_named(st, m, k);
    assert forall|name: Seq<char>| #[trigger] after.byname.contains_key(name) implies name
        == default.name || exists|i: int|
        0 <= i < after.out.len() && (#[trigger] after.out[i]).name == name by {
        if !st.byname.contains_key(m.name) && name == m.name {
            assert(after.out[st.out.len() as int].name == name);
        } else if name != default.name {
            assert(st.byname.contains_key(name));
            let i = choose|i: int| 0 <= i < st.out.len() && (#[trigger] st.out[i]).name == name;
            assert(after.out[i].name == name);
        }
    }
}

proof fn lemma_names_agree(
    e: EngineView,
    root: Element,
    default: ModelView,
    a: Seq<AnswerView>,
    k: int,
    n: int,
)
    requires
        named_children(e, root, default, a, k, n) is Ok,
    ensures
        names_agree(named_children(e, root, default, a, k, n)->Ok_0, default),
    decreases n,
{
    if n > 0 {
        lemma_names_agree(e, root, default, a, k, n - 1);
        let st = named_children(e, root, default, a, k, n - 1)->Ok_0;
        let child = root.children@[n - 1];
        if child.name@ == "prototype"@ {
            if let Ok((m, k2)) = proto_model(e, child, seq![(n - 1) as usize], root, a, st.k) {
                lemma_with_named_agrees(st, default, m, k2);
            }
        } else if child.name@ == "resolveprototype"@ {
            if let Ok((m, k2)) = resolve_proto(child, st.byname, a, st.k) {
                lemma_with_named_agrees(st, default, m, k2);
            }
        } else if child.name@ == "modelalias"@ {
            if let (Some(name), Some(parent)) = (
                attribute_text(child, "name"@),
                attribute_text(child, "parent"@),
            ) {
                if st.byname.contains_key(parent) {
                    if let Ok(m) = alias_result(name, st.byname[parent]) {
                        lemma_with_named_agrees(st, default, m, st.k);
                    }
                }
            }
        }
    }
}

/// Once the specification has been read there is a default model, and it is the one that
/// its name stands for.
pub proof fn law_default_model_is_registered(
    e: EngineView,
    doc: SpecDocument,
    nominated: Option<Seq<char>>,
    g: RegistryView,
    return_addr: Option<VarnodeData>,
    a: Seq<AnswerView>,
)
    requires
        default_proto_effect(e, doc, nominated, g, return_addr, a) is Ok,
    ensures
        ({
            let after = (default_proto_effect(e, doc, nominated, g, return_addr, a)->Ok_0).0;
            &&& after.defaultfp is Some
            &&& after.models.contains_key((after.defaultfp->0).name)
            &&& after.models[(after.defaultfp->0).name] == after.defaultfp->0
        }),
{
    reveal(default_proto_effect);
    if let SpecDocument::Root(root) = doc {
        if let Ok((m, k)) = default_proto(e, root, a) {
            let n = root.children@.len() as int;
            let list = named_protos(e, root, m, a, k)->Ok_0;
            lemma_names_agree(e, root, m, a, k, n);
            let st = named_children(e, root, m, a, k, n)->Ok_0;
            assert forall|i: int| 0 <= i < list.len() implies (#[trigger] list[i]).name
                != m.name by {
                if i < st.out.len() {
                    assert(list[i] == st.out[i]);
                }
            }
            lemma_with_models(with_default(g, m), list, m.name);
        }
    }
}

/// Where the specification has a default model that can be copied, `__thiscall` stands
/// for a model in the end.
pub proof fn law_thiscall_is_registered(
    e: EngineView,
    root: Element,
    nominated: Option<Seq<char>>,
    g: RegistryView,
    return_addr: Option<VarnodeData>,
    a: Seq<AnswerView>,
)
    requires
        default_proto(e, root, a) is Ok,
        default_proto_effect(e, SpecDocument::Root(root), nominated, g, return_addr, a) is Ok,
    ensures
        (default_proto_effect(
            e,
            SpecDocument::Root(root),
            nominated,
            g,
            return_addr,
            a,
        )->Ok_0).0.models.contains_key("__thiscall"@),
{
    reveal(default_proto_effect);
    let (m, k) = default_proto(e, root, a)->Ok_0;
    let n = root.children@.len() as int;
    let list = named_protos(e, root, m, a, k)->Ok_0;
    lemma_names_agree(e, root, m, a, k, n);
    let st = named_children(e, root, m, a, k, n)->Ok_0;
    lemma_default_is_plain(e, root, a);
    lemma_with_models(with_default(g, m), list, "__thiscall"@);
    if st.byname.contains_key("__thiscall"@) {
        if "__thiscall"@ != m.name {
            let i = choose|i: int|
                0 <= i < st.out.len() && (#[trigger] st.out[i]).name == "__thiscall"@;
            assert(list[i].name == "__thiscall"@);
        }
    } else {
        assert(list[st.out.len() as int].name == "__thiscall"@);
    }
}

/// The default model of a specification is neither merged nor a copy.
proof fn lemma_default_is_plain(e: EngineView, root: Element, a: Seq<AnswerView>)
    requires
        default_proto(e, root, a) is Ok,
    ensures
        (default_proto(e, root, a)->Ok_0).0.merged is None,
        (default_proto(e, root, a)->Ok_0).0.alias_parent is None,
{
    let i = child_from(root, "default_proto"@, 0)->0;
    let dp = root.children@[i];
    let j = child_from(dp, "prototype"@, 0)->0;
    let path = seq![i as usize, j as usize];
    crate::proto_models::lemma_model_is_plain(e, dp.children@[j], path, root, a, 0);
}

/// No two of the named models have one name, and none has the name of the default model.
pub proof fn law_named_models_have_distinct_names(
    e: EngineView,
    root: Element,
    default: ModelView,
    a: Seq<AnswerView>,
    k: int,
)
    requires
        named_protos(e, root, default, a, k) is Ok,
    ensures
        ({
            let list = named_protos(e, root, default, a, k)->Ok_0;
            &&& forall|i: int| 0 <= i < list.len() ==> (#[trigger] list[i]).name != default.name
            &&& forall|i: int, j: int|
                0 <= i < j < list.len() ==> (#[trigger] list[i]).name != (#[trigger] list[j]).name
        }),
{
    let n = root.children@.len() as int;
    let st = named_children(e, root, default, a, k, n)->Ok_0;
    let list = named_protos(e, root, default, a, k)->Ok_0;
    lemma_names_agree(e, root, default, a, k, n);
    lemma_names_known(e, root, default, a, k, n);
    assert forall|i: int| 0 <= i < list.len() implies (#[trigger] list[i]).name != default.name by {
        if i < st.out.len() {
            assert(list[i] == st.out[i]);
        }
    }
    assert forall|i: int, j: int| 0 <= i < j < list.len() implies (#[trigger] list[i]).name != (
    #[trigger] list[j]).name by {
        assert(list[i] == st.out[i]);
        if j < st.out.len() {
            assert(list[j] == st.out[j]);
        } else {
            assert(st.byname.contains_key(st.out[i].name));
        }
    }
}

/// Whether every new model is known by its name, and no name is new twice.
spec fn names_known(st: NamedState) -> bool {
    &&& forall|i: int|
        0 <= i < st.out.len() ==> st.byname.contains_key((#[trigger] st.out[i]).name)
    &&& forall|i: int, j: int|
        0 <= i < j < st.out.len() ==> (#[trigger] st.out[i]).name != (#[trigger] st.out[j]).name
}

proof fn lemma_with_named_known(st: NamedState, m: ModelView, k: int)
    requires
        names_known(st),
    ensures
        names_known(with_named(st, m, k)),
{
}

proof fn lemma_names_known(
    e: EngineView,
    root: Element,
    default: ModelView,
    a: Seq<AnswerView>,
    k: int,
    n: int,
)
    requires
        named_children(e, root, default, a, k, n) is Ok,
    ensures
        names_known(named_children(e, root, default, a, k, n)->Ok_0),
    decreases n,
{
    if n > 0 {
        lemma_names_known(e, root, default, a, k, n - 1);
        let st = named_children(e, root, default, a, k, n - 1)->Ok_0;
        let child = root.children@[n - 1];
        if child.name@ == "prototype"@ {
            if let Ok((m, k2)) = proto_model(e, child, seq![(n - 1) as usize], root, a, st.k) {
                lemma_with_named_known(st, m, k2);
            }
        } else if child.name@ == "resolveprototype"@ {
            if let Ok((m, k2)) = resolve_proto(child, st.byname, a, st.k) {
                lemma_with_named_known(st, m, k2);
            }
        } else if child.name@ == "modelalias"@ {
            if let (Some(name), Some(parent)) = (
                attribute_text(child, "name"@),
                attribute_text(child, "parent"@),
            ) {
                if st.byname.contains_key(parent) {
                    if let Ok(m) = alias_result(name, st.byname[parent]) {
                        lemma_with_named_known(st, m, st.k);
                    }
                }
            }
        }
    }
}

} // verus!
