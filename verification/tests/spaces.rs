use kuna_decomp::cspec::{decode_funcptr_align, MemoryRange};
use kuna_decomp::error::{ErrorKind, KunaError};
use kuna_decomp::name_map::NameMap;
use kuna_decomp::space::{AddrSpace, CallSpaces, Engine, SpaceInfo, SpaceKind, VarnodeData};
use kuna_decomp::types::{
    build_core_types, decode_data_organization, SizeOf, TypeAction, TypeMetatype, TypeSetup,
};
use kuna_decomp::xml::{
    attr_str, attr_strict, children_named, decode_bool_attr, find_child, Element, SpecDocument,
};

fn element(name: &str, attributes: &[(&str, &str)], children: Vec<Element>) -> Element {
    Element {
        name: name.to_string(),
        attributes: attributes
            .iter()
            .map(|(n, v)| (n.to_string(), v.as_bytes().to_vec()))
            .collect(),
        children,
    }
}

fn info(kind: SpaceKind, delay: i32) -> SpaceInfo {
    SpaceInfo {
        kind,
        addr_size: 8,
        word_size: 1,
        delay,
        big_endian: false,
        truncated: false,
        overlay: false,
        other: false,
        reverse_justified: false,
        contains: None,
        formal: false,
        pointer: None,
    }
}

fn space(name: &str, kind: SpaceKind, delay: i32) -> AddrSpace {
    AddrSpace { name: name.to_string(), info: info(kind, delay) }
}

fn engine() -> Engine {
    let mut registers = NameMap::new();
    registers.insert("RSP", VarnodeData { space: Some(2), offset: 0x20, size: 8 });
    registers.insert("RAX", VarnodeData { space: Some(2), offset: 0, size: 8 });
    registers.insert("RDX", VarnodeData { space: Some(2), offset: 0x10, size: 8 });
    registers.insert("XMM0", VarnodeData { space: Some(2), offset: 0x1200, size: 16 });
    Engine {
        spaces: vec![
            space("const", SpaceKind::Constant, 0),
            space("ram", SpaceKind::Processor, 1),
            space("register", SpaceKind::Processor, 0),
            space("unique", SpaceKind::Internal, 0),
            space("rom", SpaceKind::Processor, 1),
        ],
        code_space: Some(4),
        data_space: Some(1),
        registers,
        alignment: 1,
        local: true,
        context_set_allowed: true,
    }
}

fn call_spaces() -> CallSpaces {
    CallSpaces {
        fspec: info(SpaceKind::Fspec, 1),
        iop: info(SpaceKind::Iop, 1),
        join: info(SpaceKind::Join, 0),
    }
}

fn root(children: Vec<Element>) -> SpecDocument {
    SpecDocument::Root(element("compiler_spec", &[], children))
}

fn bad_document() -> SpecDocument {
    SpecDocument::Malformed(KunaError::parse("bad xml".to_string()))
}

#[test]
fn children_and_attributes_are_found_by_name() {
    let mut el = element(
        "a",
        &[("x", "1"), ("y", "2"), ("x", "3")],
        vec![
            element("b", &[("n", "first")], vec![]),
            element("c", &[], vec![]),
            element("b", &[("n", "second")], vec![]),
        ],
    );
    assert_eq!(attr_str(find_child(&el, "b").unwrap(), "n").unwrap(), "first");
    assert!(find_child(&el, "d").is_none());
    assert_eq!(attr_str(&el, "x").unwrap(), "1");
    assert_eq!(attr_str(&el, "z"), None);
    assert_eq!(children_named(&el, "b"), vec![0, 2]);
    assert_eq!(children_named(&el, "d"), Vec::<usize>::new());
    el.attributes.push(("bad".to_string(), vec![b'o', 0xff]));
    assert_eq!(attr_str(&el, "bad").unwrap(), "o\u{fffd}");
    assert_eq!(attr_strict(&el, "bad"), None);
    assert_eq!(attr_strict(&el, "y").unwrap(), "2");
}

#[test]
fn boolean_attributes_have_three_spellings() {
    for v in ["true", "yes", "1"] {
        assert!(decode_bool_attr(v));
    }
    for v in ["false", "no", "0", "", "True", "2"] {
        assert!(!decode_bool_attr(v));
    }
}

#[test]
fn analysis_spaces_are_added_once() {
    let mut e = engine();
    e.spaces[4].info.big_endian = true;
    e.insert_ir_call_spaces(call_spaces()).unwrap();
    let names: Vec<&str> = e.spaces.iter().map(|s| s.name.as_str()).collect();
    assert_eq!(
        names,
        vec!["const", "ram", "register", "unique", "rom", "fspec", "iop", "join"]
    );
    assert!(e.spaces[7].info.big_endian);
    e.insert_ir_call_spaces(call_spaces()).unwrap();
    assert_eq!(e.num_spaces(), 8);
}

#[test]
fn a_taken_space_name_is_refused() {
    let mut e = engine();
    e.spaces.push(space("iop", SpaceKind::Processor, 1));
    let err = e.insert_ir_call_spaces(call_spaces()).unwrap_err();
    assert_eq!(err.kind, ErrorKind::Lowlevel);
    assert_eq!(err.explain(), "Space iop was initialized twice");
    assert_eq!(e.spaces[6].name, "fspec");
    assert_eq!(e.num_spaces(), 7);
}

#[test]
fn registers_are_found_by_name() {
    let e = engine();
    assert_eq!(e.get_register_varnode("RSP").unwrap().offset, 0x20);
    let err = e.get_register_varnode("R99").unwrap_err();
    assert_eq!(err.explain(), "Unknown register name: R99");
    assert_eq!(e.get_space_by_name("rom"), Some(4));
    assert_eq!(e.get_space_by_name("nosuch"), None);
}

#[test]
fn the_stack_space_follows_the_specification() {
    let mut e = engine();
    let doc = root(vec![element(
        "stackpointer",
        &[("register", "RSP"), ("space", "ram"), ("reversejustify", "true")],
        vec![],
    )]);
    e.decode_stack_pointer(&doc).unwrap();
    assert!(e.get_stack_space());
    let s = &e.spaces[5];
    assert_eq!(s.name, "stack");
    assert_eq!(s.info.kind, SpaceKind::Spacebase);
    assert_eq!(s.info.contains, Some(1));
    assert_eq!(s.info.delay, 1);
    assert_eq!(s.info.addr_size, 8);
    assert!(s.info.formal && s.info.reverse_justified);
    let p = s.info.pointer.unwrap();
    assert!(p.grows_negative);
    assert_eq!(p.register.offset, 0x20);
    e.decode_stack_pointer(&doc).unwrap();
    assert_eq!(e.num_spaces(), 6);
}

#[test]
fn a_truncated_space_truncates_the_stack_pointer() {
    let mut e = engine();
    e.spaces[1].info.truncated = true;
    e.spaces[1].info.addr_size = 4;
    let doc = root(vec![element(
        "stackpointer",
        &[("register", "RSP"), ("space", "ram"), ("growth", "positive")],
        vec![],
    )]);
    e.decode_stack_pointer(&doc).unwrap();
    let p = e.spaces[5].info.pointer.unwrap();
    assert_eq!(p.size, 4);
    assert!(!p.grows_negative);
    assert!(!e.spaces[5].info.reverse_justified);
}

#[test]
fn a_bad_stack_pointer_is_refused() {
    let mut e = engine();
    let none = root(vec![element("stackpointer", &[("register", "RSP")], vec![])]);
    assert_eq!(
        e.decode_stack_pointer(&none).unwrap_err().explain(),
        "stackpointer element missing \"space\" attribute"
    );
    let unknown = root(vec![element("stackpointer", &[("space", "flash")], vec![])]);
    assert_eq!(
        e.decode_stack_pointer(&unknown).unwrap_err().explain(),
        "stackpointer space \"flash\" not found"
    );
    let register = root(vec![element("stackpointer", &[("space", "ram")], vec![])]);
    assert_eq!(
        e.decode_stack_pointer(&register).unwrap_err().explain(),
        "Unknown register name: "
    );
    assert_eq!(e.decode_stack_pointer(&bad_document()).unwrap_err().explain(), "bad xml");
    e.decode_stack_pointer(&SpecDocument::Absent).unwrap();
    e.decode_stack_pointer(&root(vec![])).unwrap();
    assert!(!e.get_stack_space());
    assert_eq!(e.num_spaces(), 5);
}

#[test]
fn function_pointers_are_aligned_to_a_bit() {
    let with = |v: &str| root(vec![element("funcptr", &[("align", v)], vec![])]);
    assert_eq!(decode_funcptr_align(7, &with("2")).unwrap(), 1);
    assert_eq!(decode_funcptr_align(7, &with("4")).unwrap(), 2);
    assert_eq!(decode_funcptr_align(7, &with("1")).unwrap(), 0);
    assert_eq!(decode_funcptr_align(7, &with("0x30")).unwrap(), 4);
    assert_eq!(decode_funcptr_align(7, &with("0x8000000000000000")).unwrap(), 63);
    assert_eq!(decode_funcptr_align(7, &with("0")).unwrap(), 0);
    assert_eq!(decode_funcptr_align(7, &with("two")).unwrap(), 7);
    assert_eq!(decode_funcptr_align(7, &root(vec![])).unwrap(), 7);
    assert_eq!(decode_funcptr_align(7, &SpecDocument::Absent).unwrap(), 7);
    assert!(decode_funcptr_align(7, &bad_document()).is_err());
}

#[test]
fn pointers_are_inferred_into_the_data_space_first() {
    let mut e = engine();
    e.spaces.push(space("other", SpaceKind::Processor, 1));
    e.spaces[5].info.other = true;
    e.spaces.push(space("overlay", SpaceKind::Processor, 1));
    e.spaces[6].info.overlay = true;
    e.spaces.push(space("stack", SpaceKind::Spacebase, 1));
    e.spaces.push(space("flash", SpaceKind::Processor, 2));
    assert_eq!(e.cache_addr_space_properties(&vec![]), vec![1, 4]);
    assert_eq!(e.cache_addr_space_properties(&vec![8, 7, 6, 5, 2, 8, 1]), vec![1, 4, 8]);
    e.data_space = Some(8);
    assert_eq!(e.cache_addr_space_properties(&vec![1]), vec![8, 4, 1]);
    assert_eq!(e.cache_addr_space_properties(&vec![8, 4, 1]), vec![8, 4, 1]);
    e.data_space = Some(2);
    assert_eq!(e.cache_addr_space_properties(&vec![1, 1]), vec![1, 4]);
    e.data_space = None;
    e.code_space = None;
    assert_eq!(e.cache_addr_space_properties(&vec![]), Vec::<usize>::new());
}

#[test]
fn global_memory_is_made_of_ranges_and_registers() {
    let e = engine();
    let doc = root(vec![element(
        "global",
        &[],
        vec![
            element("range", &[("space", "ram")], vec![]),
            element("register", &[("name", "RAX")], vec![]),
            element("register", &[], vec![]),
            element("comment", &[], vec![]),
        ],
    )]);
    let whole = MemoryRange { space: 1, first: 0, last: u64::MAX };
    let answers = || -> Vec<Result<MemoryRange, KunaError>> {
        vec![
            Ok(whole),
            Err(KunaError::parse("not asked".to_string())),
            Err(KunaError::parse("not asked".to_string())),
            Err(KunaError::parse("not asked".to_string())),
        ]
    };
    assert_eq!(
        e.decode_global(&doc, true, &answers()).unwrap(),
        vec![whole, MemoryRange { space: 2, first: 0, last: 7 }]
    );
    assert!(e.decode_global(&doc, false, &answers()).unwrap().is_empty());
    let mut bad = answers();
    bad[0] = Err(KunaError::lowlevel("no such space".to_string()));
    assert_eq!(e.decode_global(&doc, true, &bad).unwrap_err().explain(), "no such space");
    assert!(e.decode_global(&root(vec![]), true, &vec![]).unwrap().is_empty());
    assert!(e.decode_global(&bad_document(), true, &vec![]).is_err());
    let unknown = root(vec![element(
        "global",
        &[],
        vec![element("register", &[("name", "R99")], vec![])],
    )]);
    assert_eq!(
        e.decode_global(&unknown, true, &vec![Ok(whole)]).unwrap_err().explain(),
        "Unknown register name: R99"
    );
}

#[test]
fn an_empty_register_wraps_around() {
    let mut e = engine();
    e.registers.insert("NIL", VarnodeData { space: Some(2), offset: 0, size: 0 });
    e.registers.insert("LOST", VarnodeData { space: None, offset: 0, size: 4 });
    let doc = root(vec![element(
        "global",
        &[],
        vec![
            element("register", &[("name", "NIL")], vec![]),
            element("register", &[("name", "LOST")], vec![]),
        ],
    )]);
    let none = || Err(KunaError::parse(String::new()));
    assert_eq!(
        e.decode_global(&doc, true, &vec![none(), none()]).unwrap(),
        vec![MemoryRange { space: 2, first: 0, last: u64::MAX }]
    );
}

#[test]
fn core_types_come_in_order() {
    let t = build_core_types(false).unwrap();
    assert_eq!(t.len(), 22);
    assert_eq!((t[0].name, t[0].size, t[0].metatype), ("void", 1, TypeMetatype::Void));
    assert_eq!((t[12].name, t[12].size, t[12].metatype), ("float10", 10, TypeMetatype::Float));
    assert_eq!((t[21].name, t[21].size, t[21].is_char), ("wchar4", 4, true));
    assert!(build_core_types(true).is_none());
}

#[test]
fn the_data_organization_gives_sizes() {
    let size = |n: &str, v: &str| element(n, &[("value", v)], vec![]);
    let entry = |s: &str, a: &str| element("entry", &[("size", s), ("alignment", a)], vec![]);
    let doc = root(vec![element(
        "data_organization",
        &[],
        vec![
            size("integer_size", " 4 "),
            size("long_size", "8"),
            size("pointer_size", "eight"),
            size("pointer_size", "8"),
            size("char_size", "1"),
            size("wchar_size", "4"),
            size("short_size", "2"),
            size("long_long_size", "8"),
            size("float_size", "4"),
            size("double_size", "8"),
            size("long_double_size", "16"),
            size("machine_alignment", "2"),
            element(
                "size_alignment_map",
                &[],
                vec![
                    entry("1", "1"),
                    entry("10", "16"),
                    element("entry", &[("size", "3")], vec![]),
                    element("other", &[("size", "3"), ("alignment", "3")], vec![]),
                ],
            ),
            element("size_alignment_map", &[], vec![]),
        ],
    )]);
    let got = decode_data_organization(&doc).unwrap();
    let sizes: Vec<(SizeOf, i32)> = got
        .iter()
        .filter_map(|a| match a {
            TypeAction::Size(w, v) => Some((*w, *v)),
            TypeAction::AlignmentMap(_) => None,
        })
        .collect();
    assert_eq!(
        sizes,
        vec![
            (SizeOf::Int, 4),
            (SizeOf::Long, 8),
            (SizeOf::Pointer, 8),
            (SizeOf::Char, 1),
            (SizeOf::WChar, 4),
            (SizeOf::Short, 2),
            (SizeOf::LongLong, 8),
            (SizeOf::Float, 4),
            (SizeOf::Double, 8),
            (SizeOf::LongDouble, 16),
        ]
    );
    assert_eq!(got.len(), 11);
    assert!(matches!(&got[10], TypeAction::AlignmentMap(p) if *p == vec![(1, 1), (10, 16)]));
    assert!(decode_data_organization(&root(vec![])).unwrap().is_empty());
    assert!(decode_data_organization(&SpecDocument::Absent).unwrap().is_empty());
    assert_eq!(decode_data_organization(&bad_document()).unwrap_err().explain(), "bad xml");
}

#[test]
fn the_type_factory_is_set_up_from_the_spaces() {
    let mut e = engine();
    assert_eq!(
        e.finish_typegrp(4, true),
        TypeSetup {
            stack_pointer_size: None,
            data_addr_size: 8,
            default_size: 4,
            big_endian: false,
            default_alignment: true,
        }
    );
    assert_eq!(e.data_org(), (8, 1));
    e.spaces[1].info.big_endian = true;
    let doc = root(vec![element(
        "stackpointer",
        &[("register", "RSP"), ("space", "ram")],
        vec![],
    )]);
    e.decode_stack_pointer(&doc).unwrap();
    let s = e.finish_typegrp(4, false);
    assert_eq!(s.stack_pointer_size, Some(8));
    assert!(s.big_endian && !s.default_alignment);
    e.data_space = None;
    let s = e.finish_typegrp(4, false);
    assert_eq!((s.data_addr_size, s.big_endian), (4, false));
}

#[test]
fn the_last_readable_size_is_set_last() {
    let size = |n: &str, v: &str| element(n, &[("value", v)], vec![]);
    let doc = root(vec![element(
        "data_organization",
        &[],
        vec![
            size("long_size", "4"),
            size("long_size", "8"),
            size("long_size", "wide"),
            size("char_size", "1"),
        ],
    )]);
    let last = decode_data_organization(&doc)
        .unwrap()
        .iter()
        .filter_map(|a| match a {
            TypeAction::Size(SizeOf::Long, v) => Some(*v),
            _ => None,
        })
        .last();
    assert_eq!(last, Some(8));
}
