//! What reading and registering prototype models comes to.

use vstd::prelude::*;
use crate::error::{ErrorKind, KunaError};
use crate::layout_laws::{is_first_child, law_child_is_found, no_child};
use crate::proto::{
    alias_result, empty_list, eval_model, named, with_model, EffectKind, EffectRecord, ModelView,
    RegistryView,
};
use crate::proto_decode::{
    default_return_addr, effects_of, pentry_list, storage_block, AnswerView, ListPlace, PauseView,
    QuestionView,
};
use crate::proto_models::{
    merged_names, model_header, named_child, named_protos, proto_child, proto_children, proto_model,
    resolve_proto, with_return_address, with_silent, with_thiscall, ModelState, NamedState,
};
use crate::proto_registry::{
    default_proto, default_proto_effect, with_default, with_models, with_nominated,
};
use crate::resource_laws::{asks, failed_with, gives, is_bad};
use crate::space::{EngineView, VarnodeData};
use crate::xml::{attribute_text, Element, SpecDocument};

verus! {

/// What the attributes of a `<prototype>` say: its name, which is `__stdcall` where none is
/// given; how far a call moves the stack, a number, unknown, or nothing; whether it is for
/// methods or constructors. `__thiscall` is always for methods.
pub proof fn law_model_header_by_attribute(proto: Element, t: Seq<char>, v: int)
    ensures
        ({
            let m = model_header(proto);
            let this = attribute_text(proto, "hasthis"@);
            let cons = attribute_text(proto, "constructor"@);
            &&& attribute_text(proto, "name"@) == Some(t) ==> m.name == t
            &&& attribute_text(proto, "name"@) is None ==> m.name == "__stdcall"@
            &&& attribute_text(proto, "strategy"@) == Some(t) ==> m.strategy == t
            &&& attribute_text(proto, "strategy"@) is None ==> m.strategy.len() == 0
            &&& attribute_text(proto, "extrapop"@) == Some("unknown"@) ==> m.extrapop == 0x8000
            &&& gives(proto, "extrapop"@, v) && attribute_text(proto, "extrapop"@) != Some(
                "unknown"@,
            ) ==> m.extrapop == v
            &&& is_bad(proto, "extrapop"@) && attribute_text(proto, "extrapop"@) != Some(
                "unknown"@,
            ) ==> m.extrapop == 0
            &&& attribute_text(proto, "extrapop"@) is None ==> m.extrapop == 0
            &&& m.has_this <==> m.name == "__thiscall"@ || this == Some("true"@) || this == Some(
                "yes"@,
            ) || this == Some("1"@)
            &&& m.constructor <==> cons == Some("true"@) || cons == Some("yes"@) || cons == Some(
                "1"@,
            )
            &&& m.input == empty_list() && m.output == empty_list()
            &&& m.input.entries.len() == 0 && m.input.rules.len() == 0
            &&& m.effects.len() == 0 && m.internal_storage.len() == 0
            &&& m.merged is None && m.alias_parent is None
        }),
{
}

/// A name changes nothing of a model but that `__thiscall` makes it one for methods.
pub proof fn law_naming_a_model(m: ModelView, name: Seq<char>)
    ensures
        named(m, name).name == name,
        name == "__thiscall"@ ==> named(m, name).has_this,
        name != "__thiscall"@ ==> named(m, name).has_this == m.has_this,
        named(m, name) == (ModelView { name, has_this: named(m, name).has_this, ..m }),
{
}

/// A copy of a model has the alias for a name and the model for a parent, and is like it
/// else. Merged models and copies are not copied.
pub proof fn law_alias_of_a_model(alias: Seq<char>, parent: ModelView)
    ensures
        parent.merged is Some ==> (alias_result(alias, parent) matches Err(f) && f.kind
            == ErrorKind::Lowlevel && f.text == "Cannot make alias of merged model: "@
            + parent.name),
        parent.merged is None && parent.alias_parent is Some ==> (alias_result(alias, parent)
            matches Err(f) && f.kind == ErrorKind::Lowlevel && f.text
            == "Cannot make alias of an alias: "@ + parent.name),
        parent.merged is None && parent.alias_parent is None ==> {
            &&& alias_result(alias, parent) matches Ok(m) && m.name == alias && m.alias_parent
                == Some(parent.name) && m.has_this == (parent.has_this || alias
                == "__thiscall"@) && m == (ModelView {
                name: m.name,
                alias_parent: m.alias_parent,
                has_this: m.has_this,
                ..parent
            })
        },
{
}

/// What a child of a `<prototype>` adds to the model, by its name: resources for parameters or
/// for return values, internal storage, effects of calls. Another child adds nothing.
pub proof fn law_prototype_child_by_name(
    e: EngineView,
    child: Element,
    place: ListPlace,
    a: Seq<AnswerView>,
    st: ModelState,
)
    ensures
        ({
            let r = proto_child(e, child, place, a, st);
            let nm = child.name@;
            let m = st.model;
            let effects = storage_block(e, child, "effect"@);
            let storage = storage_block(e, child, "internal_storage"@);
            &&& nm == "input"@ ==> match pentry_list(e, child, m.input, place, a, st.k) {
                Ok((l, k)) => r matches Ok(s) && s.model == (ModelView { input: l, ..m }) && s.k
                    == k && s.saw_retaddr == st.saw_retaddr,
                Err(p) => r == Err::<ModelState, PauseView>(p),
            }
            &&& nm == "output"@ ==> match pentry_list(e, child, m.output, place, a, st.k) {
                Ok((l, k)) => r matches Ok(s) && s.model == (ModelView { output: l, ..m }) && s.k
                    == k && s.saw_retaddr == st.saw_retaddr,
                Err(p) => r == Err::<ModelState, PauseView>(p),
            }
            &&& nm == "internal_storage"@ ==> match storage {
                Ok(v) => r matches Ok(s) && s.model.internal_storage.to_multiset()
                    == m.internal_storage.to_multiset().add(v.to_multiset()) && s.model == (
                ModelView { internal_storage: s.model.internal_storage, ..m }) && s.k == st.k
                    && s.saw_retaddr == st.saw_retaddr,
                Err(f) => r == Err::<ModelState, PauseView>(PauseView::Fail(f, st.k)),
            }
            &&& nm == "unaffected"@ || nm == "killedbycall"@ || nm == "returnaddress"@
                ==> match effects {
                Ok(v) => r matches Ok(s) && s.model == (ModelView {
                    effects: m.effects + effects_of(
                        v,
                        if nm == "unaffected"@ {
                            EffectKind::Unaffected
                        } else if nm == "killedbycall"@ {
                            EffectKind::KilledByCall
                        } else {
                            EffectKind::ReturnAddress
                        },
                    ),
                    ..m
                }) && s.k == st.k && s.saw_retaddr == (st.saw_retaddr || nm == "returnaddress"@),
                Err(f) => r == Err::<ModelState, PauseView>(PauseView::Fail(f, st.k)),
            }
            &&& nm != "input"@ && nm != "output"@ && nm != "internal_storage"@ && nm
                != "unaffected"@ && nm != "killedbycall"@ && nm != "returnaddress"@ ==> r == Ok::<
                ModelState,
                PauseView,
            >(st)
        }),
{
    reveal_strlit("input");
    reveal_strlit("output");
    reveal_strlit("internal_storage");
    reveal_strlit("unaffected");
    reveal_strlit("killedbycall");
    reveal_strlit("returnaddress");
    assert("input"@.len() == 5 && "output"@.len() == 6 && "internal_storage"@.len() == 16
        && "unaffected"@.len() == 10 && "killedbycall"@.len() == 12 && "returnaddress"@.len()
        == 13);
    if let Ok(v) = storage_block(e, child, "internal_storage"@) {
        lemma_locations_stay(st.model.internal_storage, v);
    }
}

proof fn lemma_locations_stay(list: Seq<VarnodeData>, more: Seq<VarnodeData>)
    ensures
        crate::proto::with_locations(list, more).to_multiset() == list.to_multiset().add(
            more.to_multiset(),
        ),
    decreases more.len(),
{
    broadcast use vstd::seq_lib::group_to_multiset_ensures;

    if more.len() == 0 {
        assert(more =~= Seq::empty());
        assert(list.to_multiset() =~= list.to_multiset().add(more.to_multiset()));
    } else {
        let before = crate::proto::with_locations(list, more.drop_last());
        let v = more.last();
        lemma_locations_stay(list, more.drop_last());
        crate::proto::lemma_slot_in_range(before, v, 0);
        let slot = crate::proto::storage_slot(before, v, 0);
        let after = before.insert(slot, v);
        after.to_multiset_ensures();
        assert(after.remove(slot) =~= before);
        assert(after[slot] == v && after.contains(v));
        assert(after.to_multiset() =~= before.to_multiset().insert(v));
        assert(more =~= more.drop_last().push(v));
        assert(after.to_multiset() =~= list.to_multiset().add(more.to_multiset()));
    }
}

/// The children of a `<prototype>` are read in order, each at its place.
pub proof fn law_prototype_children_in_order(
    e: EngineView,
    proto: Element,
    path: Seq<usize>,
    a: Seq<AnswerView>,
    st: ModelState,
    n: int,
)
    requires
        0 <= n < proto.children@.len(),
    ensures
        proto_children(e, proto, path, a, st, 0) == Ok::<ModelState, PauseView>(st),
        ({
            let before = proto_children(e, proto, path, a, st, n);
            let after = proto_children(e, proto, path, a, st, n + 1);
            &&& before is Err ==> after == before
            &&& before matches Ok(s) ==> after == proto_child(
                e,
                proto.children@[n],
                ListPlace { proto: path, at: n as usize },
                a,
                s,
            )
        }),
{
}

/// Where a model is silent on the return address, the specification's own word counts.
pub proof fn law_return_address_of_a_model(e: EngineView, st: ModelState, root: Element, n: int)
    ensures
        st.saw_retaddr || no_child(root, "returnaddress"@) ==> with_return_address(e, st, root)
            == Ok::<ModelState, PauseView>(st),
        !st.saw_retaddr && is_first_child(root, "returnaddress"@, n) ==> match storage_block(
            e,
            root.children@[n],
            "effect"@,
        ) {
            Ok(v) => with_return_address(e, st, root) matches Ok(s) && s.model == (ModelView {
                effects: st.model.effects + effects_of(v, EffectKind::ReturnAddress),
                ..st.model
            }) && s.k == st.k,
            Err(f) => with_return_address(e, st, root) == Err::<ModelState, PauseView>(
                PauseView::Fail(f, st.k),
            ),
        },
{
    law_child_is_found(root, "returnaddress"@, n);
}

/// The register on which the specification is silent is asked for with the effects that are
/// given; it counts as unaffected where none of them speaks of it.
pub proof fn law_silence_is_filled(a: Seq<AnswerView>, st: ModelState)
    requires
        0 <= st.k,
    ensures
        ({
            let r = with_silent(a, st);
            let m = st.model;
            &&& st.k >= a.len() ==> asks(r, QuestionView::Silent(m.effects))
            &&& st.k < a.len() && a[st.k].failure is None && a[st.k].location is None ==> r == Ok::<
                (ModelView, int),
                PauseView,
            >((m, st.k + 1))
            &&& st.k < a.len() && a[st.k].failure is None ==> (a[st.k].location matches Some(v) ==> {
                let given = exists|i: int|
                    0 <= i < m.effects.len() && (#[trigger] m.effects[i]).location == v;
                &&& given ==> r == Ok::<(ModelView, int), PauseView>((m, st.k + 1))
                &&& !given ==> r == Ok::<(ModelView, int), PauseView>(
                    (
                        ModelView {
                            effects: m.effects.push(
                                EffectRecord { location: v, effect: EffectKind::Unaffected },
                            ),
                            ..m
                        },
                        st.k + 1,
                    ),
                )
            })
        }),
{
}

/// A model is its header, then its children, then the return address, then what is silent; its
/// strategy is asked about first.
pub proof fn law_model_is_read_in_steps(
    e: EngineView,
    proto: Element,
    path: Seq<usize>,
    root: Element,
    a: Seq<AnswerView>,
    k: int,
)
    requires
        0 <= k,
    ensures
        ({
            let r = proto_model(e, proto, path, root, a, k);
            let head = model_header(proto);
            let st = ModelState { model: head, saw_retaddr: false, k: k + 1 };
            let read = proto_children(e, proto, path, a, st, proto.children@.len() as int);
            &&& k >= a.len() ==> asks(r, QuestionView::Strategy(head.strategy))
            &&& k < a.len() ==> (a[k].failure matches Some(f) ==> r == Err::<
                (ModelView, int),
                PauseView,
            >(PauseView::Fail(f, k + 1)))
            &&& k < a.len() && a[k].failure is None ==> {
                &&& read is Err ==> r is Err && r->Err_0 == read->Err_0
                &&& read matches Ok(s) ==> match with_return_address(e, s, root) {
                    Err(p) => r == Err::<(ModelView, int), PauseView>(p),
                    Ok(t) => r == with_silent(a, t),
                }
            }
        }),
{
    let head = model_header(proto);
    assert(head.strategy == crate::proto_models::strategy_name(proto));
}

// ---- merged and named models --------------------------------------------------------

/// The models that a `<resolveprototype>` merges are those that its `<model>` children name, in
/// order; each must be known and is asked about with those before it.
pub proof fn law_merged_models_in_order(
    el: Element,
    byname: Map<Seq<char>, ModelView>,
    a: Seq<AnswerView>,
    k: int,
    n: int,
    t: Seq<char>,
)
    requires
        0 <= n < el.children@.len(),
        merged_names(el, byname, a, k, n) is Ok,
    ensures
        merged_names(el, byname, a, k, 0) matches Ok((l, j)) && l.len() == 0 && j == k,
        ({
            let (names, k1) = merged_names(el, byname, a, k, n)->Ok_0;
            let r = merged_names(el, byname, a, k, n + 1);
            let child = el.children@[n];
            let model = child.name@ == "model"@;
            let called = attribute_text(child, "name"@) == Some(t);
            &&& !model ==> r == Ok::<(Seq<Seq<char>>, int), PauseView>((names, k1))
            &&& model && attribute_text(child, "name"@) is None ==> failed_with(
                r,
                "<model> has no name"@,
                k1,
            )
            &&& model && called && !byname.contains_key(t) ==> failed_with(
                r,
                "Missing prototype model: "@ + t,
                k1,
            )
            &&& model && called && byname.contains_key(t) && k1 >= a.len() ==> asks(
                r,
                QuestionView::Merge(names, t),
            )
            &&& model && called && byname.contains_key(t) && 0 <= k1 < a.len() && a[k1].failure
                is None ==> r == Ok::<(Seq<Seq<char>>, int), PauseView>((names.push(t), k1 + 1))
        }),
{
}

/// A merged model has its name and the names that it merges, and nothing else; it must merge
/// something.
pub proof fn law_merged_model(
    el: Element,
    byname: Map<Seq<char>, ModelView>,
    a: Seq<AnswerView>,
    k: int,
    name: Seq<char>,
)
    ensures
        ({
            let r = resolve_proto(el, byname, a, k);
            let all = merged_names(el, byname, a, k, el.children@.len() as int);
            let called = attribute_text(el, "name"@) == Some(name);
            &&& attribute_text(el, "name"@) is None ==> failed_with(
                r,
                "<resolveprototype> has no name"@,
                k,
            )
            &&& called ==> (all matches Err(p) ==> r == Err::<(ModelView, int), PauseView>(p))
            &&& called ==> (all matches Ok((names, k2)) ==> {
                &&& names.len() == 0 ==> failed_with(r, "<resolveprototype> has no <model>"@, k2)
                &&& names.len() > 0 ==> (r matches Ok((m, k3)) && m.name == name && m.merged
                    == Some(names) && m.has_this == (name == "__thiscall"@) && m.extrapop == 0
                    && m.effects.len() == 0 && m.input.entries.len() == 0
                    && m.output.entries.len() == 0 && m.alias_parent is None && k3 == k2)
            })
        }),
{
}

/// What a child of the specification declares is added under its name unless the name is taken:
/// a model, a merged model, or a copy of a model that is known. What cannot be read is left out.
pub proof fn law_named_child_by_name(
    e: EngineView,
    child: Element,
    at: usize,
    root: Element,
    a: Seq<AnswerView>,
    st: NamedState,
    m: ModelView,
    k: int,
)
    requires
        ({
            ||| child.name@ == "prototype"@ && proto_model(e, child, seq![at], root, a, st.k) == Ok::<
                (ModelView, int),
                PauseView,
            >((m, k))
            ||| child.name@ == "resolveprototype"@ && resolve_proto(child, st.byname, a, st.k)
                == Ok::<(ModelView, int), PauseView>((m, k))
        }),
    ensures
        ({
            let r = named_child(e, child, at, root, a, st);
            &&& r is Ok
            &&& st.byname.contains_key(m.name) ==> r->Ok_0 == (NamedState { k, ..st })
            &&& !st.byname.contains_key(m.name) ==> r->Ok_0.byname == st.byname.insert(m.name, m)
                && r->Ok_0.out == st.out.push(m) && r->Ok_0.k == k
        }),
{
    reveal_strlit("prototype");
    reveal_strlit("resolveprototype");
    assert("prototype"@.len() == 9 && "resolveprototype"@.len() == 16);
}

/// A `<modelalias>` adds a copy of a known model under a new name.
pub proof fn law_model_alias_is_added(
    e: EngineView,
    child: Element,
    at: usize,
    root: Element,
    a: Seq<AnswerView>,
    st: NamedState,
    name: Seq<char>,
    parent: Seq<char>,
)
    requires
        child.name@ == "modelalias"@,
        attribute_text(child, "name"@) == Some(name),
        attribute_text(child, "parent"@) == Some(parent),
    ensures
        ({
            let r = named_child(e, child, at, root, a, st);
            let made = alias_result(name, st.byname[parent]);
            let known = st.byname.contains_key(parent);
            &&& r is Ok && r->Ok_0.k == st.k
            &&& !known || made is Err ==> r->Ok_0 == st
            &&& known && made is Ok && st.byname.contains_key(name) ==> r->Ok_0 == st
            &&& known && made is Ok && !st.byname.contains_key(name) ==> r->Ok_0.byname
                == st.byname.insert(name, made->Ok_0) && r->Ok_0.out == st.out.push(made->Ok_0)
        }),
{
    reveal_strlit("prototype");
    reveal_strlit("resolveprototype");
    reveal_strlit("modelalias");
    assert("prototype"@.len() == 9 && "resolveprototype"@.len() == 16 && "modelalias"@.len() == 10);
}

/// A model that cannot be read is left out and the next is read; an open question stops it; any
/// other child declares nothing.
pub proof fn law_unreadable_models_are_left_out(
    e: EngineView,
    child: Element,
    at: usize,
    root: Element,
    a: Seq<AnswerView>,
    st: NamedState,
)
    ensures
        ({
            let r = named_child(e, child, at, root, a, st);
            let nm = child.name@;
            let read = if nm == "prototype"@ {
                proto_model(e, child, seq![at], root, a, st.k)
            } else {
                resolve_proto(child, st.byname, a, st.k)
            };
            &&& nm == "prototype"@ || nm == "resolveprototype"@ ==> {
                &&& read matches Err(PauseView::Fail(f, k)) ==> r == Ok::<NamedState, QuestionView>(
                    NamedState { k, ..st },
                )
                &&& read matches Err(PauseView::Ask(q)) ==> r == Err::<NamedState, QuestionView>(q)
            }
            &&& nm != "prototype"@ && nm != "resolveprototype"@ && nm != "modelalias"@ ==> r == Ok::<
                NamedState,
                QuestionView,
            >(st)
            &&& nm == "modelalias"@ && (attribute_text(child, "name"@) is None || attribute_text(
                child,
                "parent"@,
            ) is None) ==> r == Ok::<NamedState, QuestionView>(st)
        }),
{
    reveal_strlit("prototype");
    reveal_strlit("resolveprototype");
    reveal_strlit("modelalias");
    assert("prototype"@.len() == 9 && "resolveprototype"@.len() == 16 && "modelalias"@.len() == 10);
}

/// Where no model is called `__thiscall`, a copy of the default one is, and comes last.
pub proof fn law_thiscall_comes_last(st: NamedState, default: ModelView)
    ensures
        st.byname.contains_key("__thiscall"@) ==> with_thiscall(st, default) == st.out,
        !st.byname.contains_key("__thiscall"@) && default.merged is None && default.alias_parent
            is None ==> {
            let l = with_thiscall(st, default);
            &&& l.len() == st.out.len() + 1
            &&& l.drop_last() == st.out
            &&& l.last().name == "__thiscall"@ && l.last().has_this && l.last().alias_parent
                == Some(default.name)
        },
{
    if !st.byname.contains_key("__thiscall"@) && default.merged is None && default.alias_parent
        is None {
        assert(with_thiscall(st, default).drop_last() =~= st.out);
    }
}

// ---- the registry -------------------------------------------------------------------

/// The default model is the first `<prototype>` of the first `<default_proto>`.
pub proof fn law_default_model_is_the_first(
    e: EngineView,
    root: Element,
    a: Seq<AnswerView>,
    i: int,
    j: int,
)
    ensures
        no_child(root, "default_proto"@) ==> failed_with(
            default_proto(e, root, a),
            "cspec has no <default_proto>"@,
            0,
        ),
        is_first_child(root, "default_proto"@, i) && no_child(root.children@[i], "prototype"@)
            ==> failed_with(default_proto(e, root, a), "<default_proto> has no <prototype>"@, 0),
        is_first_child(root, "default_proto"@, i) && is_first_child(
            root.children@[i],
            "prototype"@,
            j,
        ) ==> default_proto(e, root, a) == proto_model(
            e,
            root.children@[i].children@[j],
            seq![i as usize, j as usize],
            root,
            a,
            0,
        ),
{
    law_child_is_found(root, "default_proto"@, i);
    if is_first_child(root, "default_proto"@, i) {
        law_child_is_found(root.children@[i], "prototype"@, j);
    }
}

/// A registered model is found under its name; others stay. The default model and the one for
/// evaluation are not touched.
pub proof fn law_registering_a_model(g: RegistryView, m: ModelView, name: Seq<char>)
    ensures
        with_model(g, m).models.contains_pair(m.name, m),
        name != m.name ==> with_model(g, m).models.contains_key(name) == g.models.contains_key(name),
        name != m.name && g.models.contains_key(name) ==> with_model(g, m).models[name]
            == g.models[name],
        with_model(g, m) == (RegistryView { models: with_model(g, m).models, ..g }),
        with_default(g, m).defaultfp == Some(m),
        with_default(g, m).models == with_model(g, m).models,
        with_default(g, m).evalfp_current == g.evalfp_current,
{
}

/// The model for evaluation is the one that was chosen, else the default one.
pub proof fn law_evaluation_falls_back(g: RegistryView)
    ensures
        g.evalfp_current is Some ==> eval_model(g) == g.evalfp_current,
        g.evalfp_current is None ==> eval_model(g) == g.defaultfp,
{
}

/// The specification's own choice counts where it is a registered model.
pub proof fn law_nominated_model(g: RegistryView, name: Seq<char>)
    ensures
        g.models.contains_key(name) ==> with_nominated(g, Some(name)).evalfp_current_spec == Some(
            g.models[name],
        ),
        !g.models.contains_key(name) ==> with_nominated(g, Some(name)).evalfp_current_spec is None,
        with_nominated(g, None).evalfp_current_spec is None,
        with_nominated(g, Some(name)).models == g.models && with_nominated(g, Some(name)).defaultfp
            == g.defaultfp && with_nominated(g, Some(name)).evalfp_current == g.evalfp_current,
{
}

/// The registry of a specification: its default model, then its named models in turn, then its
/// choice for evaluation. Without a default model that can be read, a nameless standard one
/// called `unknown` takes its place.
pub proof fn law_specification_fills_the_registry(
    e: EngineView,
    root: Element,
    nominated: Option<Seq<char>>,
    g: RegistryView,
    ra: Option<VarnodeData>,
    a: Seq<AnswerView>,
    err: KunaError,
)
    ensures
        ({
            let r = default_proto_effect(e, SpecDocument::Root(root), nominated, g, ra, a);
            let d = default_proto(e, root, a);
            &&& d matches Err(PauseView::Ask(q)) ==> r == Err::<
                (RegistryView, Option<VarnodeData>),
                QuestionView,
            >(q)
            &&& d matches Err(PauseView::Fail(f, k)) ==> {
                &&& r matches Ok((h, v)) && v == default_return_addr(e, root) && (h.defaultfp
                    matches Some(m) && m.name == "unknown"@ && m.strategy == "standard"@
                    && m.extrapop == 0 && m.input.entries.len() == 0)
            }
            &&& d matches Ok((m, k)) ==> match named_protos(e, root, m, a, k) {
                Err(q) => r == Err::<(RegistryView, Option<VarnodeData>), QuestionView>(q),
                Ok(l) => r == Ok::<(RegistryView, Option<VarnodeData>), QuestionView>(
                    (
                        with_nominated(with_models(with_default(g, m), l), nominated),
                        default_return_addr(e, root),
                    ),
                ),
            }
        }),
        ({
            let r = default_proto_effect(e, SpecDocument::Absent, nominated, g, ra, a);
            r matches Ok((h, v)) && v == ra && (h.defaultfp matches Some(m) && m.name
                == "unknown"@)
        }),
        ({
            let r = default_proto_effect(e, SpecDocument::Malformed(err), nominated, g, ra, a);
            r matches Ok((h, v)) && v == ra && (h.defaultfp matches Some(m) && m.name
                == "unknown"@)
        }),
{
    reveal(default_proto_effect);
}

/// Storage is ordered by space, then by offset, and of two locations at one place the larger
/// comes first; what has no space comes before all else.
pub proof fn law_storage_order(a: VarnodeData, b: VarnodeData)
    ensures
        ({
            let before = crate::proto::stored_before(a, b);
            &&& a.space is None && b.space is Some ==> before
            &&& a.space is Some && b.space is None ==> !before
            &&& a.space is Some && b.space is Some && a.space->0 != b.space->0 ==> before == (
            a.space->0 < b.space->0)
            &&& a.space == b.space && a.offset != b.offset ==> before == (a.offset < b.offset)
            &&& a.space == b.space && a.offset == b.offset ==> before == (a.size > b.size)
        }),
{
}

/// A list of models is registered one after the other.
pub proof fn law_models_are_registered_in_turn(g: RegistryView, list: Seq<ModelView>, m: ModelView)
    ensures
        with_models(g, seq![]) == g,
        with_models(g, list.push(m)).models == with_models(g, list).models.insert(m.name, m),
        with_models(g, list.push(m)).defaultfp == with_models(g, list).defaultfp,
{
    assert(list.push(m).drop_last() =~= list);
}

} // verus!
