use kuna_decomp::cspec::MemoryRange;
use kuna_decomp::error::KunaError;
use kuna_decomp::name_map::NameMap;
use kuna_decomp::pspec::{
    decode_volatile, get_laned_register, get_minimum_laned_register_size, ContextUse,
    LanedRegister,
};
use kuna_decomp::pspec_symbols::{
    merge_entry_seeds, AddressQuestion, SymbolAction, SymbolEnd, TrackedContext, TrackedDecode,
};
use kuna_decomp::space::{AddrSpace, Address, Engine, SpaceInfo, SpaceKind, VarnodeData};
use kuna_decomp::xml::{Element, SpecDocument};

fn element(name: &str, attributes: &[(&str, &str)], children: Vec<Element>) -> Element {
    Element {
        name: name.to_string(),
        attributes: attributes
            .iter()
            .map(|(n, v)| (n.to_string(), v.as_bytes().to_vec()))
            .collect(),
        children,
    }
}

fn info(kind: SpaceKind, delay: i32) -> SpaceInfo {
    SpaceInfo {
        kind,
        addr_size: 8,
        word_size: 1,
        delay,
        big_endian: false,
        truncated: false,
        overlay: false,
        other: false,
        reverse_justified: false,
        contains: None,
        formal: false,
        pointer: None,
    }
}

fn space(name: &str, kind: SpaceKind, delay: i32) -> AddrSpace {
    AddrSpace { name: name.to_string(), info: info(kind, delay) }
}

fn engine() -> Engine {
    let mut registers = NameMap::new();
    registers.insert("RSP", VarnodeData { space: Some(2), offset: 0x20, size: 8 });
    registers.insert("RAX", VarnodeData { space: Some(2), offset: 0, size: 8 });
    registers.insert("RDX", VarnodeData { space: Some(2), offset: 0x10, size: 8 });
    registers.insert("XMM0", VarnodeData { space: Some(2), offset: 0x1200, size: 16 });
    Engine {
        spaces: vec![
            space("const", SpaceKind::Constant, 0),
            space("ram", SpaceKind::Processor, 1),
            space("register", SpaceKind::Processor, 0),
            space("unique", SpaceKind::Internal, 0),
            space("rom", SpaceKind::Processor, 1),
        ],
        code_space: Some(4),
        data_space: Some(1),
        registers,
        alignment: 1,
        local: true,
        context_set_allowed: true,
    }
}

fn at(offset: u64) -> Address {
    Address { space: Some(1), offset }
}

fn spec(children: Vec<Element>) -> SpecDocument {
    SpecDocument::Root(element("processor_spec", &[], children))
}

fn not_asked<T>() -> Result<T, KunaError> {
    Err(KunaError::parse("not asked".to_string()))
}

#[test]
fn the_parts_of_a_specification_are_found() {
    let mut e = engine();
    let doc = spec(vec![
        element("context_data", &[], vec![]),
        element("volatile", &[], vec![]),
        element("register_data", &[], vec![]),
    ]);
    let parts = e.parse_processor_config(&doc).unwrap();
    assert_eq!(parts.register_data.unwrap().name, "register_data");
    assert_eq!(parts.volatile.unwrap().name, "volatile");
    assert_eq!(parts.context_data.unwrap().name, "context_data");
    assert_eq!(parts.context_use, ContextUse::All);
    e.local = false;
    assert_eq!(
        e.parse_processor_config(&doc).unwrap().context_use,
        ContextUse::TrackedOnly
    );
    let wrapped = SpecDocument::Root(element(
        "specs",
        &[],
        vec![element("processor_spec", &[], vec![element("volatile", &[], vec![])])],
    ));
    let parts = e.parse_processor_config(&wrapped).unwrap();
    assert!(parts.volatile.is_some() && parts.register_data.is_none());
    assert_eq!(parts.context_use, ContextUse::Nothing);
    let none = SpecDocument::Root(element("specs", &[], vec![]));
    assert!(e.parse_processor_config(&none).unwrap().volatile.is_none());
    assert!(e.parse_processor_config(&SpecDocument::Absent).unwrap().volatile.is_none());
    let bad = SpecDocument::Malformed(KunaError::parse("bad xml".to_string()));
    assert!(e.parse_processor_config(&bad).is_err());
}

#[test]
fn lane_records_are_ordered_by_size() {
    let e = engine();
    let reg = |name: &str, sizes: &str| {
        element("register", &[("name", name), ("vector_lane_sizes", sizes)], vec![])
    };
    let el = element(
        "register_data",
        &[],
        vec![
            reg("XMM0", "1,2,4,8"),
            reg("RAX", "4"),
            element("register", &[("name", "RDX")], vec![]),
            reg("RDX", ""),
            element("register", &[("vector_lane_sizes", "4")], vec![]),
            element("note", &[("name", "R99"), ("vector_lane_sizes", "4")], vec![]),
            reg("XMM0", "16"),
            reg("RSP", "none"),
        ],
    );
    let answers = vec![
        Ok(0x116),
        Ok(0x10),
        not_asked(),
        not_asked(),
        not_asked(),
        not_asked(),
        Ok(0x10000),
        Ok(0),
    ];
    let asked: Vec<Option<(u32, String)>> = el
        .children
        .iter()
        .map(|c| e.lane_request(c).unwrap().map(|q| (q.size, q.lane_sizes)))
        .collect();
    assert_eq!(asked[0], Some((16, "1,2,4,8".to_string())));
    assert_eq!(asked[1], Some((8, "4".to_string())));
    assert!(asked[2..6].iter().all(|q| q.is_none()));
    let records = e.decode_register_data(&el, &answers).unwrap();
    assert_eq!(
        records,
        vec![
            LanedRegister { whole_size: 8, mask: 0x10 },
            LanedRegister { whole_size: 16, mask: 0x10116 },
        ]
    );
    assert_eq!(get_minimum_laned_register_size(&records), 8);
    assert_eq!(get_laned_register(&records, 16).unwrap().mask, 0x10116);
    assert_eq!(get_laned_register(&records, 8).unwrap().mask, 0x10);
    assert!(get_laned_register(&records, 12).is_none());
    assert!(get_laned_register(&records, 32).is_none());
    assert_eq!(get_minimum_laned_register_size(&vec![]), -1);
    assert!(get_laned_register(&vec![], 8).is_none());
}

#[test]
fn bad_lanes_are_refused() {
    let e = engine();
    let el = element(
        "register_data",
        &[],
        vec![element("register", &[("name", "R99"), ("vector_lane_sizes", "4")], vec![])],
    );
    assert_eq!(
        e.decode_register_data(&el, &vec![Ok(1)]).unwrap_err().explain(),
        "Unknown register name: R99"
    );
    let el = element(
        "register_data",
        &[],
        vec![element("register", &[("name", "RAX"), ("vector_lane_sizes", "x")], vec![])],
    );
    assert_eq!(
        e.decode_register_data(&el, &vec![not_asked()]).unwrap_err().explain(),
        "not asked"
    );
}

#[test]
fn the_records_are_searched_for_every_size() {
    let records: Vec<LanedRegister> =
        (1..40).map(|i| LanedRegister { whole_size: i * 3, mask: i as u32 }).collect();
    for size in 0..130 {
        match get_laned_register(&records, size) {
            Some(l) => assert!(size % 3 == 0 && l.mask as i32 == size / 3),
            None => assert!(size % 3 != 0 || size == 0 || size > 117),
        }
    }
}

#[test]
fn volatile_ranges_stay_marked_before_a_failure() {
    let range = || element("range", &[("space", "ram")], vec![]);
    let el = element("volatile", &[], vec![range(), element("note", &[], vec![]), range(), range()]);
    let m = |first| MemoryRange { space: 1, first, last: first + 1 };
    let all = decode_volatile(&el, &vec![Ok(m(0)), not_asked(), Ok(m(8)), Ok(m(16))]);
    assert_eq!(all.ranges, vec![m(0), m(8), m(16)]);
    assert!(all.failure.is_none());
    let some = decode_volatile(
        &el,
        &vec![Ok(m(0)), not_asked(), Err(KunaError::lowlevel("bad".to_string())), Ok(m(16))],
    );
    assert_eq!(some.ranges, vec![m(0)]);
    assert_eq!(some.failure.unwrap().explain(), "bad");
}

#[test]
fn symbols_are_added_at_their_addresses() {
    let mut e = engine();
    e.spaces[1].info.word_size = 2;
    let symbol = |attributes: &[(&str, &str)]| element("symbol", attributes, vec![]);
    let doc = spec(vec![element(
        "default_symbols",
        &[],
        vec![
            symbol(&[("name", "P0"), ("address", "ram:80"), ("volatile", "true")]),
            element("note", &[], vec![]),
            symbol(&[("name", "P1"), ("address", "next"), ("size", "4")]),
            symbol(&[("name", "P2"), ("address", "next"), ("volatile", "no"), ("size", "x")]),
        ],
    )]);
    let mut answers: Vec<Result<Address, KunaError>> = Vec::new();
    let (actions, end) = e.build_symbols(&doc, true, &answers);
    assert!(actions.is_empty());
    assert!(matches!(end, SymbolEnd::Ask(AddressQuestion::Parse(t)) if t == "ram:80"));
    answers.push(Ok(at(0x80)));
    let (_, end) = e.build_symbols(&doc, true, &answers);
    assert!(matches!(end, SymbolEnd::Ask(AddressQuestion::After(a, 2)) if a == at(0x80)));
    answers.push(Ok(at(0x82)));
    let (_, end) = e.build_symbols(&doc, true, &answers);
    assert!(matches!(end, SymbolEnd::Ask(AddressQuestion::After(a, 4)) if a == at(0x82)));
    answers.push(Ok(at(0x86)));
    let (actions, end) = e.build_symbols(&doc, true, &answers);
    assert!(matches!(end, SymbolEnd::Done));
    let said: Vec<String> = actions
        .iter()
        .map(|a| match a {
            SymbolAction::Volatile(m, on) => format!("{:x}-{:x} {on}", m.first, m.last),
            SymbolAction::AddSymbol(n, size, a) => format!("{n} {size} {:x}", a.offset),
        })
        .collect();
    assert_eq!(
        said,
        vec!["80-81 true", "P0 2 80", "P1 4 82", "86-87 false", "P2 2 86"]
    );
    assert!(e.build_symbols(&doc, false, &answers).0.is_empty());
}

#[test]
fn bad_symbols_end_the_reading() {
    let e = engine();
    let symbol = |attributes: &[(&str, &str)]| element("symbol", attributes, vec![]);
    let good = || symbol(&[("name", "A"), ("address", "ram:0")]);
    let end = |bad: Element, second: Result<Address, KunaError>| {
        let doc = spec(vec![element("default_symbols", &[], vec![good(), bad])]);
        let (actions, end) = e.build_symbols(&doc, true, &vec![Ok(at(0)), second]);
        assert_eq!(actions.len(), 1);
        match end {
            SymbolEnd::Fail(err) => err.text,
            other => panic!("{other:?}"),
        }
    };
    assert_eq!(
        end(symbol(&[("address", "ram:1")]), Ok(at(1))),
        "Missing name attribute in <symbol> element"
    );
    assert_eq!(
        end(symbol(&[("name", ""), ("address", "ram:1")]), Ok(at(1))),
        "Missing name attribute in <symbol> element"
    );
    assert_eq!(
        end(symbol(&[("name", "B")]), Ok(Address { space: None, offset: 0 })),
        "Missing address attribute in <symbol> element"
    );
    assert_eq!(
        end(symbol(&[("name", "B"), ("address", "?")]), Err(KunaError::parse("bad address".to_string()))),
        "bad address"
    );
    let bad = SpecDocument::Malformed(KunaError::parse("bad xml".to_string()));
    assert!(matches!(e.build_symbols(&bad, true, &vec![]).1, SymbolEnd::Fail(_)));
    for doc in [SpecDocument::Absent, spec(vec![]), SpecDocument::Root(element("x", &[], vec![]))] {
        let (actions, end) = e.build_symbols(&doc, true, &vec![]);
        assert!(actions.is_empty() && matches!(end, SymbolEnd::Done));
    }
}

#[test]
fn the_first_symbol_follows_nothing() {
    let e = engine();
    let doc = spec(vec![element(
        "default_symbols",
        &[],
        vec![element("symbol", &[("name", "A"), ("address", "next"), ("size", "-1"), ("volatile", "1")], vec![])],
    )]);
    let (_, end) = e.build_symbols(&doc, true, &vec![]);
    assert!(matches!(end, SymbolEnd::Ask(AddressQuestion::Parse(t)) if t == "next"));
    let (actions, _) = e.build_symbols(&doc, true, &vec![Ok(at(8))]);
    assert!(matches!(
        actions[0],
        SymbolAction::Volatile(MemoryRange { space: 1, first: 8, last: 6 }, true)
    ));
}

#[test]
fn known_registers_are_read_range_by_range() {
    let e = engine();
    let set = |name: &str| element("set", &[("name", name)], vec![]);
    let el = element(
        "context_data",
        &[],
        vec![
            element("context_set", &[], vec![set("RAX")]),
            element("tracked_set", &[], vec![set("RAX"), set("R99"), element("set", &[], vec![]), set("RDX")]),
            element("tracked_set", &[], vec![set("R99")]),
            element("tracked_set", &[], vec![set("RSP")]),
        ],
    );
    let decode = |range: Result<(Address, Address), KunaError>, values: Vec<Result<u64, KunaError>>| {
        TrackedDecode { range, values }
    };
    let decoded = vec![
        decode(not_asked(), vec![not_asked()]),
        decode(Ok((at(0), at(100))), vec![Ok(1), not_asked(), not_asked(), Ok(4)]),
        decode(Ok((at(0), at(100))), vec![not_asked()]),
        decode(Ok((at(200), at(300))), vec![Ok(9)]),
    ];
    let ranges = e.decode_ghidra_tracked_sets(&el, &decoded);
    assert_eq!(ranges.len(), 2);
    assert_eq!((ranges[0].first, ranges[0].end), (at(0), at(100)));
    let values: Vec<(u64, u64)> =
        ranges[0].registers.iter().map(|t| (t.location.offset, t.value)).collect();
    assert_eq!(values, vec![(0, 1), (0x10, 4)]);
    let mut bad = decoded;
    bad[1] = decode(Ok((at(0), at(100))), vec![not_asked(), not_asked(), not_asked(), Ok(4)]);
    let ranges = e.decode_ghidra_tracked_sets(&el, &bad);
    assert_eq!(ranges.len(), 2);
    assert_eq!(ranges[0].registers.len(), 1);
    assert_eq!(ranges[0].registers[0].value, 4);
    bad[1] = decode(not_asked(), vec![Ok(1), Ok(1), Ok(1), Ok(1)]);
    let ranges = e.decode_ghidra_tracked_sets(&el, &bad);
    assert_eq!(ranges.len(), 1);
    assert_eq!((ranges[0].first, ranges[0].end), (at(200), at(300)));
    bad[3] = decode(Ok((at(200), at(300))), vec![not_asked()]);
    assert!(e.decode_ghidra_tracked_sets(&el, &bad).is_empty());
}

#[test]
fn a_loader_adds_to_what_is_known() {
    let reg = |offset, value| TrackedContext {
        location: VarnodeData { space: Some(2), offset, size: 8 },
        value,
    };
    let merged = merge_entry_seeds(&vec![reg(0, 1), reg(8, 2)], &vec![reg(8, 9), reg(16, 3), reg(16, 4)]);
    assert_eq!(merged, vec![reg(0, 1), reg(8, 2), reg(16, 3)]);
}
