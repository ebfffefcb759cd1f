use kuna_decomp::error::KunaError;
use kuna_decomp::name_map::NameMap;
use kuna_decomp::proto::{
    create_model_alias, EffectKind, Extension, ListRule, ModelRegistry, ParamList,
    ProtoModel, EXTRAPOP_UNKNOWN,
};
use kuna_decomp::proto_decode::{Answer, Pause, Question};
use kuna_decomp::proto_models::decode_resolve_proto;
use kuna_decomp::space::{AddrSpace, Engine, SpaceInfo, SpaceKind, VarnodeData};
use kuna_decomp::xml::{Element, SpecDocument};
use std::rc::Rc;

fn element(name: &str, attributes: &[(&str, &str)], children: Vec<Element>) -> Element {
    Element {
        name: name.to_string(),
        attributes: attributes
            .iter()
            .map(|(n, v)| (n.to_string(), v.as_bytes().to_vec()))
            .collect(),
        children,
    }
}

fn info(kind: SpaceKind, delay: i32) -> SpaceInfo {
    SpaceInfo {
        kind,
        addr_size: 8,
        word_size: 1,
        delay,
        big_endian: false,
        truncated: false,
        overlay: false,
        other: false,
        reverse_justified: false,
        contains: None,
        formal: false,
        pointer: None,
    }
}

fn space(name: &str, kind: SpaceKind, delay: i32) -> AddrSpace {
    AddrSpace { name: name.to_string(), info: info(kind, delay) }
}

fn engine() -> Engine {
    let mut registers = NameMap::new();
    registers.insert("RSP", VarnodeData { space: Some(2), offset: 0x20, size: 8 });
    registers.insert("RAX", VarnodeData { space: Some(2), offset: 0, size: 8 });
    registers.insert("RDX", VarnodeData { space: Some(2), offset: 0x10, size: 8 });
    registers.insert("XMM0", VarnodeData { space: Some(2), offset: 0x1200, size: 16 });
    Engine {
        spaces: vec![
            space("const", SpaceKind::Constant, 0),
            space("ram", SpaceKind::Processor, 1),
            space("register", SpaceKind::Processor, 0),
            space("unique", SpaceKind::Internal, 0),
            space("rom", SpaceKind::Processor, 1),
        ],
        code_space: Some(4),
        data_space: Some(1),
        registers,
        alignment: 1,
        local: true,
        context_set_allowed: true,
    }
}

fn yes() -> Answer {
    Answer { failure: None, class: 0, offset: 0, last_group: None, location: None }
}

fn no(text: &str) -> Answer {
    Answer { failure: Some(KunaError::lowlevel(text.to_string())), ..yes() }
}

fn join_engine() -> Engine {
    let mut e = engine();
    e.spaces.push(space("join", SpaceKind::Join, 0));
    e
}

fn register(name: &str) -> Element {
    element("register", &[("name", name)], vec![])
}

fn pentry(name: &str) -> Element {
    element("pentry", &[("minsize", "1"), ("maxsize", "8")], vec![register(name)])
}

fn fail_text(p: Pause) -> String {
    match p {
        Pause::Fail(e, _) => e.text,
        Pause::Ask(q) => panic!("{q:?}"),
    }
}

/// Answers every question with `answer`, and lists the questions.
fn answer_all(
    e: &Engine,
    root: &Element,
    answer: impl Fn(&Question) -> Answer,
) -> (Vec<String>, ModelRegistry) {
    let doc = SpecDocument::Root(element("compiler_spec", &[], copy_all(&root.children)));
    let mut answers: Vec<Answer> = Vec::new();
    let mut asked: Vec<String> = Vec::new();
    loop {
        let mut g = ModelRegistry::new();
        match g.build_default_proto(e, &doc, Some("merged"), None, &answers) {
            Ok(_) => return (asked, g),
            Err(q) => {
                asked.push(format!("{q:?}"));
                answers.push(answer(&q));
            }
        }
    }
}

fn copy(el: &Element) -> Element {
    Element {
        name: el.name.clone(),
        attributes: el.attributes.clone(),
        children: copy_all(&el.children),
    }
}

fn copy_all(v: &[Element]) -> Vec<Element> {
    v.iter().map(copy).collect()
}

#[test]
fn a_copy_of_a_model_knows_its_parent() {
    let mut m = ProtoModel::new();
    m.set_name("__stdcall");
    m.extrapop = 8;
    let c = create_model_alias("__thiscall", &m).unwrap();
    assert_eq!(c.name, "__thiscall");
    assert_eq!(c.alias_parent, Some("__stdcall".to_string()));
    assert_eq!(c.extrapop, 8);
    assert!(c.has_this);
    assert_eq!(
        create_model_alias("again", &c).unwrap_err().explain(),
        "Cannot make alias of an alias: __thiscall"
    );
    m.merged = Some(vec!["a".to_string()]);
    assert_eq!(
        create_model_alias("x", &m).unwrap_err().explain(),
        "Cannot make alias of merged model: __stdcall"
    );
}

#[test]
fn the_return_address_is_looked_up() {
    let e = engine();
    let at = |children: Vec<Element>| {
        let root = element("compiler_spec", &[], vec![element("returnaddress", &[], children)]);
        e.decode_default_return_addr(&root)
    };
    assert_eq!(at(vec![register("RAX")]).unwrap().size, 8);
    assert_eq!(
        at(vec![
            element("comment", &[], vec![]),
            element("varnode", &[("space", "ram"), ("offset", "0x10"), ("size", "4")], vec![]),
        ]),
        Some(VarnodeData { space: Some(1), offset: 16, size: 4 })
    );
    assert_eq!(
        at(vec![element("addr", &[("space", "ram"), ("size", "x")], vec![])]),
        Some(VarnodeData { space: Some(1), offset: 0, size: 0 })
    );
    assert_eq!(at(vec![register("R99"), register("RAX")]), None);
    assert_eq!(at(vec![element("register", &[], vec![])]), None);
    assert_eq!(at(vec![element("addr", &[("space", "flash")], vec![])]), None);
    assert_eq!(at(vec![]), None);
    assert_eq!(e.decode_default_return_addr(&element("compiler_spec", &[], vec![])), None);
}

#[test]
fn effect_blocks_list_locations() {
    let e = engine();
    let block = element(
        "unaffected",
        &[],
        vec![
            register("RSP"),
            element("note", &[], vec![]),
            element("varnode", &[("space", "ram"), ("offset", "32"), ("size", "2")], vec![]),
        ],
    );
    let got = e.decode_effect_block(&block, EffectKind::Unaffected).unwrap();
    assert_eq!(got.len(), 2);
    assert_eq!(got[0].location.offset, 0x20);
    assert_eq!(got[1].location, VarnodeData { space: Some(1), offset: 32, size: 2 });
    assert_eq!(got[1].effect, EffectKind::Unaffected);
    let text = |el: Element| {
        let b = element("b", &[], vec![el]);
        (
            e.decode_effect_block(&b, EffectKind::KilledByCall).unwrap_err().text,
            e.decode_internal_storage_block(&b).unwrap_err().text,
        )
    };
    assert_eq!(
        text(element("register", &[], vec![])),
        ("<register> has no name".to_string(), "<register> has no name".to_string())
    );
    assert_eq!(
        text(element("addr", &[], vec![])),
        (
            "<varnode> effect has no space".to_string(),
            "<varnode> internal_storage has no space".to_string()
        )
    );
    assert_eq!(
        text(element("varnode", &[("space", "flash")], vec![])),
        (
            "<varnode> effect unknown space".to_string(),
            "<varnode> internal_storage unknown space".to_string()
        )
    );
    assert_eq!(text(register("R99")).0, "Unknown register name: R99");
    assert_eq!(e.decode_internal_storage_block(&block).unwrap().len(), 2);
}

#[test]
fn joined_addresses_collect_their_pieces() {
    let e = join_engine();
    let el = element(
        "addr",
        &[
            ("space", "join"),
            ("piece2", "RAX"),
            ("piece1", "ram:0x10:4"),
            ("piece4", "nowhere:zz:0x1ffffffff"),
            ("piece0", "ignored"),
            ("piece66", "ignored"),
            ("piecex", "ignored"),
            ("logicalsize", "0x10000000a"),
        ],
        vec![],
    );
    match e.decode_join_addr(&el, &vec![], 0).unwrap_err() {
        Pause::Ask(Question::Join(pieces, logical)) => {
            assert_eq!(logical, 10);
            assert_eq!(
                pieces,
                vec![
                    VarnodeData { space: Some(1), offset: 16, size: 4 },
                    VarnodeData { space: Some(2), offset: 0, size: 8 },
                    VarnodeData { space: None, offset: 0, size: 0 },
                    VarnodeData { space: None, offset: 0, size: u32::MAX },
                ]
            );
        }
        other => panic!("{other:?}"),
    }
    let answers = vec![yes(), Answer { offset: 77, ..yes() }];
    assert_eq!(e.decode_join_addr(&el, &answers, 1).unwrap(), (77, 2));
    let text = |n: &str, v: &str| {
        fail_text(e.decode_join_addr(&element("addr", &[(n, v)], vec![]), &vec![], 0).unwrap_err())
    };
    assert_eq!(text("logicalsize", "big"), "bad join logicalsize");
    assert_eq!(text("piece1", "ram:4"), "join address piece attribute is malformed");
    assert_eq!(text("piece1", "R99"), "Unknown register name: R99");
    assert!(matches!(
        e.decode_join_addr(&element("addr", &[("piece65", "RAX")], vec![]), &vec![], 0),
        Err(Pause::Ask(Question::Join(p, 0))) if p.len() == 65
    ));
}

#[test]
fn a_resource_has_its_attributes_and_storage() {
    let e = join_engine();
    let el = element(
        "pentry",
        &[
            ("minsize", "1"),
            ("maxsize", "8"),
            ("size", "4"),
            ("align", "8"),
            ("metatype", "float"),
            ("extension", "sign"),
        ],
        vec![element("addr", &[("space", "ram"), ("offset", "8")], vec![])],
    );
    assert!(matches!(
        e.decode_pentry(&el, 3, true, false, &vec![], &vec![], 0),
        Err(Pause::Ask(Question::TypeClass(c))) if c == "float"
    ));
    let answers = vec![Answer { class: 9, ..yes() }];
    let seed = match e.decode_pentry(&el, 3, true, false, &vec![], &answers, 0) {
        Err(Pause::Ask(Question::Seed(prev, p))) if prev.is_empty() => p,
        other => panic!("{other:?}"),
    };
    assert_eq!((seed.group, seed.class, seed.space, seed.offset), (3, Some(9), 1, 8));
    assert_eq!((seed.size, seed.minsize, seed.alignment), (8, 1, 8));
    assert_eq!(seed.extension, Extension::Sign);
    assert!(seed.normalstack && !seed.grouped);
    let answers =
        vec![Answer { class: 9, ..yes() }, Answer { last_group: Some(5), ..yes() }];
    let (s, k) = e.decode_pentry(&el, 3, true, false, &vec![], &answers, 0).unwrap();
    assert_eq!((s.last_group, k), (Some(5), 2));
    assert_eq!(s.entry, seed);
}

#[test]
fn a_bad_resource_is_refused() {
    let e = join_engine();
    let text = |attributes: &[(&str, &str)], children: Vec<Element>| {
        fail_text(
            e.decode_pentry(
                &element("pentry", attributes, children),
                0,
                true,
                false,
                &vec![],
                &vec![],
                0,
            )
                .unwrap_err(),
        )
    };
    assert_eq!(text(&[("minsize", "x")], vec![]), "bad <pentry> minsize");
    assert_eq!(text(&[("maxsize", "")], vec![]), "bad <pentry> maxsize");
    assert_eq!(text(&[("size", "1.5")], vec![]), "bad <pentry> size");
    assert_eq!(text(&[("align", "-")], vec![]), "bad <pentry> align");
    assert_eq!(text(&[("extension", "odd")], vec![]), "Bad <pentry> extension attribute");
    assert_eq!(text(&[("minsize", "1")], vec![]), "ParamEntry not fully specified");
    let sizes = [("minsize", "1"), ("maxsize", "4"), ("extension", "none")];
    assert_eq!(text(&sizes, vec![]), "<pentry> has no <register>/<addr> storage");
    assert_eq!(text(&sizes, vec![element("register", &[], vec![])]), "<register> has no name");
    assert_eq!(text(&sizes, vec![element("addr", &[], vec![])]), "<addr> has no space");
    assert_eq!(
        text(&sizes, vec![element("addr", &[("space", "flash")], vec![])]),
        "<addr> unknown space"
    );
    for (name, want) in [
        ("zero", Extension::Zero),
        ("inttype", Extension::IntType),
        ("float", Extension::Float),
        ("none", Extension::Unspecified),
    ] {
        let el = element(
            "pentry",
            &[("minsize", "1"), ("maxsize", "4"), ("extension", name)],
            vec![register("RAX")],
        );
        let (s, _) = e.decode_pentry(&el, 0, true, false, &vec![], &vec![yes()], 0).unwrap();
        assert_eq!(s.entry.extension, want);
    }
}

#[test]
fn a_register_without_a_space_holds_nothing() {
    let mut e = join_engine();
    e.registers.insert("LOST", VarnodeData { space: None, offset: 0, size: 4 });
    let el = element("pentry", &[], vec![register("LOST")]);
    assert_eq!(
        fail_text(e.decode_pentry_storage(&el, &vec![], 0).unwrap_err()),
        "register has no space"
    );
    let el = element(
        "pentry",
        &[],
        vec![element("addr", &[("space", "join"), ("piece1", "RDX"), ("piece2", "RAX")], vec![])],
    );
    let answers = vec![Answer { offset: 5, ..yes() }];
    assert_eq!(e.decode_pentry_storage(&el, &answers, 0).unwrap(), ((5, 5), 1));
}

#[test]
fn resources_are_counted_in_groups() {
    let e = join_engine();
    let list = element(
        "input",
        &[("pointermax", "16")],
        vec![
            pentry("RAX"),
            element("group", &[], vec![pentry("RDX"), element("x", &[], vec![]), pentry("XMM0"), pentry("RAX")]),
            element("rule", &[], vec![]),
            pentry("RSP"),
            element("rule", &[], vec![]),
        ],
    );
    let mut answers: Vec<Answer> = Vec::new();
    let mut asked: Vec<String> = Vec::new();
    let (l, used) = loop {
        match e.decode_pentry_list(&list, &ParamList::new(), &vec![7], 1, &answers, 0) {
            Ok(v) => break v,
            Err(Pause::Fail(err, _)) => panic!("{err:?}"),
            Err(Pause::Ask(q)) => {
                asked.push(match &q {
                    Question::Seed(prev, p) => {
                        format!("seed {} {} after {}", p.group, p.grouped, prev.len())
                    }
                    Question::Order(p, q) => format!("order {} {}", p.offset, q.offset),
                    Question::Rule(list, path) => {
                        format!("rule {} {} at {path:?}", list.entries.len(), list.rules.len())
                    }
                    other => format!("{other:?}"),
                });
                let first = matches!(&q, Question::Seed(_, p) if p.group == 0);
                answers.push(if first { Answer { last_group: Some(2), ..yes() } } else { yes() });
            }
        }
    };
    assert_eq!(
        asked,
        vec![
            "seed 0 false after 0",
            "seed 3 true after 1",
            "seed 3 true after 2",
            "order 16 4608",
            "seed 3 true after 3",
            "order 4608 0",
            "order 16 0",
            "seed 4 false after 4",
            "rule 5 0 at [7, 1, 2]",
            "rule 5 1 at [7, 1, 4]",
        ]
    );
    assert_eq!(used, 10);
    let groups: Vec<i32> = l.entries.iter().map(|p| p.group).collect();
    assert_eq!(groups, vec![0, 3, 3, 3, 4]);
    assert_eq!(
        l.rules,
        vec![ListRule::Declared(1, 2), ListRule::Declared(1, 4), ListRule::Pointer(16)]
    );
    let refused = vec![yes(), yes(), yes(), no("out of order")];
    match e.decode_pentry_list(&list, &ParamList::new(), &vec![], 0, &refused, 0).unwrap_err() {
        Pause::Fail(err, k) => assert_eq!((err.explain(), k), ("out of order", 4)),
        other => panic!("{other:?}"),
    }
}

#[test]
fn joined_storage_has_no_place_in_a_group() {
    let e = join_engine();
    let joined = element(
        "pentry",
        &[("minsize", "1"), ("maxsize", "16")],
        vec![element("addr", &[("space", "join"), ("piece1", "RDX"), ("piece2", "RAX")], vec![])],
    );
    let list = element("output", &[("pointermax", "-1")], vec![element("group", &[], vec![copy(&joined)])]);
    assert_eq!(
        fail_text(
            e.decode_pentry_list(&list, &ParamList::new(), &vec![], 0, &vec![yes(), yes()], 0)
                .unwrap_err()
        ),
        "<pentry> in the join space not allowed in <group> tag"
    );
    let list = element("output", &[("pointermax", "-1")], vec![joined]);
    let (l, _) = e
        .decode_pentry_list(&list, &ParamList::new(), &vec![], 0, &vec![yes(), yes()], 0)
        .unwrap();
    assert!(l.rules.is_empty());
    assert_eq!(l.entries[0].space, 5);
}

fn prototype(name: &str, attributes: &[(&str, &str)], children: Vec<Element>) -> Element {
    let mut all = vec![("name", name)];
    all.extend_from_slice(attributes);
    element("prototype", &all, children)
}

fn spec(children: Vec<Element>) -> Element {
    let mut all = vec![
        element("returnaddress", &[], vec![register("RSP")]),
        element(
            "default_proto",
            &[],
            vec![prototype(
                "__stdcall",
                &[("extrapop", "8"), ("strategy", "standard")],
                vec![
                    element("input", &[], vec![pentry("RAX")]),
                    element("output", &[], vec![pentry("RDX")]),
                    element("unaffected", &[], vec![register("RSP")]),
                    element("killedbycall", &[], vec![register("RAX")]),
                    element("internal_storage", &[], vec![register("XMM0")]),
                ],
            )],
        ),
    ];
    all.extend(children);
    element("compiler_spec", &[], all)
}

#[test]
fn a_model_is_read_with_its_blocks() {
    let e = join_engine();
    let (asked, g) = answer_all(&e, &spec(vec![]), |_| yes());
    let m = g.defaultfp.clone().unwrap();
    assert_eq!((m.name.as_str(), m.extrapop, m.strategy.as_str()), ("__stdcall", 8, "standard"));
    assert!(!m.has_this && !m.constructor);
    assert_eq!((m.input.entries.len(), m.output.entries.len()), (1, 1));
    let effects: Vec<EffectKind> = m.effects.iter().map(|r| r.effect).collect();
    assert_eq!(
        effects,
        vec![EffectKind::Unaffected, EffectKind::KilledByCall, EffectKind::ReturnAddress]
    );
    assert_eq!(m.internal_storage.len(), 1);
    assert_eq!(asked[0], "Strategy(\"standard\")");
    assert!(asked.last().unwrap().starts_with("Silent([EffectRecord"));
    assert_eq!(g.models.names(), vec!["__stdcall", "__thiscall"]);
    let this = g.get_model("__thiscall").unwrap();
    assert_eq!(this.alias_parent, Some("__stdcall".to_string()));
    assert!(this.has_this);
}

#[test]
fn a_model_can_name_its_own_return_address() {
    let e = join_engine();
    let own = prototype(
        "own",
        &[("extrapop", "unknown"), ("hasthis", "yes"), ("constructor", "true")],
        vec![element("returnaddress", &[], vec![register("RAX")])],
    );
    let df = VarnodeData { space: Some(2), offset: 0x300, size: 1 };
    let (_, g) = answer_all(&e, &spec(vec![own]), |q| match q {
        Question::Silent(_) => Answer { location: Some(df), ..yes() },
        _ => yes(),
    });
    let m = g.get_model("own").unwrap();
    assert_eq!(m.extrapop, EXTRAPOP_UNKNOWN);
    assert!(m.has_this && m.constructor);
    assert_eq!(m.effects.len(), 2);
    assert_eq!(m.effects[0].location.offset, 0);
    assert_eq!(m.effects[1].location, df);
    assert_eq!(m.effects[1].effect, EffectKind::Unaffected);
}

#[test]
fn models_that_cannot_be_read_are_left_out() {
    let e = join_engine();
    let children = vec![
        prototype("__stdcall", &[("extrapop", "99")], vec![]),
        prototype("broken", &[], vec![element("unaffected", &[], vec![register("R99")])]),
        prototype("__cdecl", &[("hasthis", "no")], vec![]),
        prototype("odd", &[("strategy", "odd")], vec![]),
        element("modelalias", &[("name", "copy"), ("parent", "__cdecl")], vec![]),
        element("modelalias", &[("name", "copy2"), ("parent", "copy")], vec![]),
        element("modelalias", &[("name", "copy3"), ("parent", "broken")], vec![]),
        element("modelalias", &[("name", "copy4")], vec![]),
        element(
            "resolveprototype",
            &[("name", "merged")],
            vec![
                element("model", &[("name", "__stdcall")], vec![]),
                element("model", &[("name", "__cdecl")], vec![]),
            ],
        ),
        element(
            "resolveprototype",
            &[("name", "lost")],
            vec![element("model", &[("name", "broken")], vec![])],
        ),
        prototype("__thiscall", &[("hasthis", "false")], vec![]),
    ];
    let (_, g) = answer_all(&e, &spec(children), |q| match q {
        Question::Strategy(s) if s == "odd" => no("Unknown strategy"),
        _ => yes(),
    });
    assert_eq!(
        g.models.names(),
        vec!["__cdecl", "__stdcall", "__thiscall", "copy", "merged"]
    );
    assert_eq!(g.defaultfp.clone().unwrap().extrapop, 8);
    assert_eq!(
        g.get_model("merged").unwrap().merged,
        Some(vec!["__stdcall".to_string(), "__cdecl".to_string()])
    );
    let this = g.get_model("__thiscall").unwrap();
    assert!(this.has_this);
    assert_eq!(this.alias_parent, None);
    assert_eq!(g.evalfp_current_spec.clone().unwrap().name, "merged");
}

#[test]
fn a_merged_model_needs_known_models() {
    let mut byname: NameMap<Rc<ProtoModel>> = NameMap::new();
    let mut m = ProtoModel::new();
    m.set_name("a");
    byname.insert("a", Rc::new(m));
    let text = |attributes: &[(&str, &str)], children: Vec<Element>| {
        fail_text(
            decode_resolve_proto(&element("resolveprototype", attributes, children), &byname, &vec![yes()], 0)
                .unwrap_err(),
        )
    };
    let named = [("name", "m")];
    assert_eq!(text(&[], vec![]), "<resolveprototype> has no name");
    assert_eq!(text(&named, vec![]), "<resolveprototype> has no <model>");
    assert_eq!(text(&named, vec![element("model", &[], vec![])]), "<model> has no name");
    assert_eq!(
        text(&named, vec![element("model", &[("name", "b")], vec![])]),
        "Missing prototype model: b"
    );
    let el = element("resolveprototype", &named, vec![element("model", &[("name", "a")], vec![])]);
    assert!(matches!(
        decode_resolve_proto(&el, &byname, &vec![], 0),
        Err(Pause::Ask(Question::Merge(before, n))) if before.is_empty() && n == "a"
    ));
    let (m, k) = decode_resolve_proto(&el, &byname, &vec![yes()], 0).unwrap();
    assert_eq!((m.name.as_str(), k), ("m", 1));
}

#[test]
fn without_a_default_model_there_is_a_fallback() {
    let e = join_engine();
    for (doc, text) in [
        (element("compiler_spec", &[], vec![]), "cspec has no <default_proto>"),
        (
            element("compiler_spec", &[], vec![element("default_proto", &[], vec![])]),
            "<default_proto> has no <prototype>",
        ),
    ] {
        assert_eq!(fail_text(e.decode_default_proto(&doc, &vec![]).unwrap_err()), text);
        let mut g = ModelRegistry::new();
        let ra = g
            .build_default_proto(&e, &SpecDocument::Root(doc), None, None, &vec![])
            .unwrap();
        assert_eq!(ra, None);
        assert_eq!(g.defaultfp.clone().unwrap().name, "unknown");
        assert_eq!(g.models.names(), vec!["unknown"]);
    }
    let kept = Some(VarnodeData { space: Some(2), offset: 1, size: 1 });
    let mut g = ModelRegistry::new();
    assert_eq!(
        g.build_default_proto(&e, &SpecDocument::Absent, None, kept, &vec![]).unwrap(),
        kept
    );
    assert_eq!(g.defaultfp.clone().unwrap().strategy, "standard");
}

#[test]
fn the_order_of_the_pieces_does_not_matter() {
    let e = join_engine();
    let pieces = |attributes: &[(&str, &str)]| {
        match e.decode_join_addr(&element("addr", attributes, vec![]), &vec![], 0).unwrap_err() {
            Pause::Ask(Question::Join(pieces, logical)) => (pieces, logical),
            other => panic!("{other:?}"),
        }
    };
    let expected = pieces(&[("piece1", "RDX"), ("piece3", "RAX"), ("logicalsize", "10")]);
    assert_eq!(expected.0.len(), 3);
    assert_eq!(expected.1, 10);
    assert_eq!(
        pieces(&[("logicalsize", "10"), ("piece3", "RAX"), ("space", "join"), ("piece1", "RDX")]),
        expected
    );
}

#[test]
fn internal_storage_is_kept_in_order() {
    let at = |space, offset, size| VarnodeData { space, offset, size };
    let mut m = ProtoModel::new();
    for v in [
        at(Some(2), 8, 4),
        at(Some(1), 99, 1),
        at(Some(2), 8, 8),
        at(None, 5, 1),
        at(Some(2), 0, 4),
    ] {
        m.push_internal_storage(v);
    }
    assert_eq!(
        m.internal_storage,
        vec![
            at(None, 5, 1),
            at(Some(1), 99, 1),
            at(Some(2), 0, 4),
            at(Some(2), 8, 8),
            at(Some(2), 8, 4),
        ]
    );
}

#[test]
fn each_list_has_its_own_pointer_rule() {
    let e = join_engine();
    let list = |pointermax: &str, name: &str| {
        element(
            "input",
            &[("pointermax", pointermax)],
            vec![element("rule", &[], vec![]), pentry(name)],
        )
    };
    let doc = element(
        "compiler_spec",
        &[],
        vec![element(
            "default_proto",
            &[],
            vec![prototype(
                "both",
                &[],
                vec![
                    list("8", "RAX"),
                    list("16", "RDX"),
                    element("internal_storage", &[], vec![register("RDX"), register("RAX")]),
                ],
            )],
        )],
    );
    let (asked, g) = answer_all(&e, &doc, |_| yes());
    let paths: Vec<&str> = asked
        .iter()
        .filter(|q| q.starts_with("Rule"))
        .map(|q| &q[q.rfind('[').unwrap()..])
        .collect();
    assert_eq!(paths, vec!["[0, 0, 0, 0])", "[0, 0, 1, 0])"]);
    assert_eq!(asked.iter().filter(|q| q.starts_with("Seed([],")).count(), 2);
    let m = g.defaultfp.clone().unwrap();
    assert_eq!(m.input.entries.len(), 2);
    assert_eq!(
        m.input.rules,
        vec![
            ListRule::Declared(0, 0),
            ListRule::Pointer(8),
            ListRule::Declared(1, 0),
            ListRule::Pointer(16),
        ]
    );
    let offsets: Vec<u64> = m.internal_storage.iter().map(|v| v.offset).collect();
    assert_eq!(offsets, vec![0, 0x10]);
}

#[test]
fn the_default_model_keeps_its_name() {
    let model = |strategy: &str| {
        let mut m = ProtoModel::new();
        m.set_name("n");
        m.strategy = strategy.to_string();
        Rc::new(m)
    };
    let mut g = ModelRegistry::new();
    g.register_model(model("evaluation"));
    g.set_eval_current_model("n").unwrap();
    g.register_model(model("default"));
    g.set_default_model("n").unwrap();
    g.set_extra_pop(12);
    let named = g.get_model("n").unwrap();
    assert_eq!((named.strategy.as_str(), named.extrapop), ("default", 12));
    assert!(Rc::ptr_eq(named, g.defaultfp.as_ref().unwrap()));
    let eval = g.eval_fp_current().unwrap();
    assert_eq!((eval.strategy.as_str(), eval.extrapop), ("evaluation", 12));
}

#[test]
fn a_given_effect_is_not_overridden() {
    let e = join_engine();
    let (_, g) = answer_all(&e, &spec(vec![]), |q| match q {
        Question::Silent(effects) => {
            let killed = effects.iter().find(|r| r.effect == EffectKind::KilledByCall);
            Answer { location: killed.map(|r| r.location), ..yes() }
        }
        _ => yes(),
    });
    let m = g.defaultfp.clone().unwrap();
    assert_eq!(m.effects.len(), 3);
    assert_eq!(m.effects[1].effect, EffectKind::KilledByCall);
}

#[test]
fn a_model_is_merged_with_those_before_it() {
    let mut byname: NameMap<Rc<ProtoModel>> = NameMap::new();
    for name in ["a", "b"] {
        let mut m = ProtoModel::new();
        m.set_name(name);
        byname.insert(name, Rc::new(m));
    }
    let part = |name: &str| element("model", &[("name", name)], vec![]);
    let el = element("resolveprototype", &[("name", "m")], vec![part("b"), part("a")]);
    match decode_resolve_proto(&el, &byname, &vec![yes()], 0).unwrap_err() {
        Pause::Ask(Question::Merge(before, name)) => {
            assert_eq!(before, vec!["b"]);
            assert_eq!(name, "a");
        }
        other => panic!("{other:?}"),
    }
}
