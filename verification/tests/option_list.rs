use kuna_decomp::actions::{ActionDatabase, RuleState};
use kuna_decomp::architecture::Architecture;
use kuna_decomp::name_map::NameMap;
use kuna_decomp::printer::{BraceStyle, Language, NamespaceStrategy, PrintSettings, Printer};
use kuna_decomp::settings::OptionAnswer;
use kuna_decomp::space::{AddrSpace, Address, Engine, SpaceInfo, SpaceKind, VarnodeData};
use kuna_decomp::symbols::FunctionSymbol;
use kuna_decomp::error::{ErrorKind, KunaError};
use kuna_decomp::option_database::{
    OptionDatabase, ELEM_ALIASBLOCK, ELEM_JUMPTABLEMAX, ELEM_OPTIONSLIST, ELEM_PARAM1, ELEM_PARAM2,
    ELEM_PARAM3, ELEM_READONLY, ELEM_SPLITDATATYPE,
};
use kuna_decomp::option_list::{
    read_lenient_option, read_one_option, DecodeStep, DecoderReply, DecoderRequest, ListReader,
    OptionStep,
};

fn info(kind: SpaceKind, delay: i32) -> SpaceInfo {
    SpaceInfo {
        kind,
        addr_size: 8,
        word_size: 1,
        delay,
        big_endian: false,
        truncated: false,
        overlay: false,
        other: false,
        reverse_justified: false,
        contains: None,
        formal: false,
        pointer: None,
    }
}

fn space(name: &str, kind: SpaceKind, delay: i32) -> AddrSpace {
    AddrSpace { name: name.to_string(), info: info(kind, delay) }
}

fn engine() -> Engine {
    let mut registers = NameMap::new();
    registers.insert("RSP", VarnodeData { space: Some(2), offset: 0x20, size: 8 });
    registers.insert("RAX", VarnodeData { space: Some(2), offset: 0, size: 8 });
    registers.insert("RDX", VarnodeData { space: Some(2), offset: 0x10, size: 8 });
    registers.insert("XMM0", VarnodeData { space: Some(2), offset: 0x1200, size: 16 });
    Engine {
        spaces: vec![
            space("const", SpaceKind::Constant, 0),
            space("ram", SpaceKind::Processor, 1),
            space("register", SpaceKind::Processor, 0),
            space("unique", SpaceKind::Internal, 0),
            space("rom", SpaceKind::Processor, 1),
        ],
        code_space: Some(4),
        data_space: Some(1),
        registers,
        alignment: 1,
        local: true,
        context_set_allowed: true,
    }
}

fn print_settings() -> PrintSettings {
    PrintSettings {
        comment_indent: 20,
        header_comment: 40,
        instruction_comment: 18,
        namespaces: NamespaceStrategy::Minimal,
        null_printing: false,
        inplace_ops: false,
        convention_printing: true,
        no_cast_printing: false,
        hide_implied_exts: false,
        brace_function: BraceStyle::SkipLine,
        brace_ifelse: BraceStyle::SameLine,
        brace_loop: BraceStyle::SameLine,
        brace_switch: BraceStyle::SameLine,
        indent_increment: 2,
    }
}

fn language(name: &str, print_name: &str, is_c: bool) -> Language {
    Language {
        name: name.to_string(),
        print_name: print_name.to_string(),
        is_c,
        c_for: is_c,
        integer_promotion: is_c,
    }
}

fn printer() -> Printer {
    Printer {
        name: "c-language".to_string(),
        integer_format: "best".to_string(),
        settings: print_settings(),
        max_line_size: None,
        comment_style: None,
        languages: vec![
            language("c-language", "c-language", true),
            language("rust", "rust-language", false),
            language("rust-language", "rust-language", false),
        ],
        initial_name: "c-language".to_string(),
        initial_format: "best".to_string(),
        initial: print_settings(),
    }
}

fn actions() -> ActionDatabase {
    let mut rules = NameMap::new();
    rules.insert("ignorenan", RuleState { enabled: true, warns: false });
    rules.insert("earlyremoval", RuleState { enabled: true, warns: false });
    let mut groups = NameMap::new();
    groups.insert("decompile", rules);
    groups.insert("jumptable", NameMap::new());
    ActionDatabase { groups, current: Some("decompile".to_string()), toggles: Vec::new() }
}

fn arch() -> Architecture {
    let mut a = Architecture::new("x86:LE:64", engine(), printer(), actions(), true);
    a.symbols.add_function(FunctionSymbol {
        name: "main".to_string(),
        address: Address { space: Some(1), offset: 0x1000 },
        global: true,
        inline: false,
        no_return: false,
        pieces: None,
    });
    a.symbols.add_function(FunctionSymbol {
        name: "local".to_string(),
        address: Address { space: Some(1), offset: 0x2000 },
        global: false,
        inline: false,
        no_return: false,
        pieces: None,
    });
    a
}

struct Node {
    id: u32,
    content: Vec<u8>,
    children: Vec<Node>,
}

fn node(id: u32, content: &str, children: Vec<Node>) -> Node {
    Node { id, content: content.as_bytes().to_vec(), children }
}

/// A decoder over a tree: the open elements and how many children of each were opened.
struct TreeDecoder<'a> {
    root: &'a Node,
    open: Vec<(&'a Node, usize)>,
    asked: Vec<DecoderRequest>,
}

fn ok(id: u32) -> DecoderReply {
    DecoderReply { failure: None, id, content: Vec::new() }
}

fn failed(text: &str) -> DecoderReply {
    DecoderReply { failure: Some(KunaError::lowlevel(text.to_string())), id: 0, content: Vec::new() }
}

impl<'a> TreeDecoder<'a> {
    fn new(root: &'a Node) -> TreeDecoder<'a> {
        TreeDecoder { root, open: Vec::new(), asked: Vec::new() }
    }

    fn next_child(&self) -> Option<&'a Node> {
        let (n, k) = self.open.last().unwrap();
        n.children.get(*k)
    }

    fn reply(&mut self, q: DecoderRequest) -> DecoderReply {
        self.asked.push(q);
        match q {
            DecoderRequest::OpenExpected(id) => {
                if self.root.id != id {
                    return failed("unexpected element");
                }
                self.open.push((self.root, 0));
                ok(id)
            }
            DecoderRequest::PeekElement => ok(self.next_child().map_or(0, |c| c.id)),
            DecoderRequest::OpenElement => match self.next_child() {
                None => ok(0),
                Some(c) => {
                    self.open.last_mut().unwrap().1 += 1;
                    self.open.push((c, 0));
                    ok(c.id)
                }
            },
            DecoderRequest::ReadContent => {
                let n = self.open.last().unwrap().0;
                if n.content == b"!" {
                    return failed("no content");
                }
                DecoderReply { failure: None, id: 0, content: n.content.clone() }
            }
            DecoderRequest::CloseElement(id) => {
                let (n, k) = *self.open.last().unwrap();
                if n.id != id || k != n.children.len() {
                    return failed("bad close");
                }
                self.open.pop();
                ok(0)
            }
            DecoderRequest::CloseElementSkipping(id) => {
                assert_eq!(self.open.last().unwrap().0.id, id);
                self.open.pop();
                ok(0)
            }
        }
    }
}

fn run(root: &Node, a: &mut Architecture, lenient: bool) -> (Result<Vec<String>, KunaError>, usize) {
    let db = OptionDatabase::new();
    let mut reader = ListReader::new();
    let mut decoder = TreeDecoder::new(root);
    let mut q = ListReader::first_request();
    loop {
        let reply = decoder.reply(q);
        let step = if lenient {
            db.decode_lenient(&mut reader, reply, a)
        } else {
            db.decode(&mut reader, reply, a)
        };
        match step {
            DecodeStep::Ask(next) => q = next,
            DecodeStep::Done(r) => return (r, decoder.open.len()),
        }
    }
}

fn good_list() -> Node {
    node(
        ELEM_OPTIONSLIST,
        "",
        vec![
            node(ELEM_READONLY, "on", vec![]),
            node(ELEM_JUMPTABLEMAX, "", vec![node(ELEM_PARAM1, "77", vec![])]),
            node(
                ELEM_SPLITDATATYPE,
                "",
                vec![
                    node(ELEM_PARAM1, "struct", vec![]),
                    node(ELEM_PARAM2, "array", vec![]),
                ],
            ),
            node(
                ELEM_SPLITDATATYPE,
                "",
                vec![
                    node(ELEM_PARAM1, "", vec![]),
                    node(ELEM_PARAM2, "", vec![]),
                    node(ELEM_PARAM3, "pointer", vec![]),
                ],
            ),
        ],
    )
}

#[test]
fn a_good_list_is_applied_whole() {
    for lenient in [false, true] {
        let mut a = arch();
        let (r, open) = run(&good_list(), &mut a, lenient);
        assert!(r.unwrap().is_empty());
        assert_eq!(open, 0);
        assert!(a.basic.readonlypropagate);
        assert_eq!(a.basic.max_jumptable_size, 77);
        assert_eq!(a.basic.split_datatype_config, 4);
        assert_eq!(a.allacts.toggles.len(), 4);
    }
}

#[test]
fn an_empty_list_is_no_failure() {
    let mut a = arch();
    let (r, open) = run(&node(ELEM_OPTIONSLIST, "", vec![]), &mut a, false);
    assert!(r.unwrap().is_empty());
    assert_eq!(open, 0);
}

#[test]
fn another_element_is_no_list() {
    let mut a = arch();
    let (r, _) = run(&node(ELEM_READONLY, "", vec![]), &mut a, true);
    assert_eq!(r.unwrap_err().explain(), "unexpected element");
}

#[test]
fn a_strict_list_ends_at_the_first_failure() {
    let list = node(
        ELEM_OPTIONSLIST,
        "",
        vec![
            node(ELEM_JUMPTABLEMAX, "5", vec![]),
            node(290, "7", vec![]),
            node(ELEM_READONLY, "on", vec![]),
        ],
    );
    let mut a = arch();
    let (r, _) = run(&list, &mut a, false);
    let e = r.unwrap_err();
    assert_eq!(e.kind, ErrorKind::Parse);
    assert_eq!(e.explain(), "Unknown option");
    assert_eq!(a.basic.max_jumptable_size, 5);
    assert!(!a.basic.readonlypropagate);
}

#[test]
fn a_lenient_list_skips_what_it_does_not_know() {
    let list = node(
        ELEM_OPTIONSLIST,
        "",
        vec![
            node(290, "7", vec![]),
            node(ELEM_ALIASBLOCK, "sometimes", vec![]),
            node(
                ELEM_JUMPTABLEMAX,
                "",
                vec![
                    node(900, "", vec![node(901, "", vec![])]),
                    node(ELEM_PARAM1, "9", vec![]),
                ],
            ),
            node(ELEM_READONLY, "", vec![node(ELEM_PARAM1, "!", vec![])]),
            node(ELEM_READONLY, "on", vec![]),
        ],
    );
    let mut a = arch();
    let (r, open) = run(&list, &mut a, true);
    let warnings = r.unwrap();
    assert_eq!(
        warnings,
        vec![
            "Warning: decompiler option element 290 not applied: Unknown option",
            "Warning: decompiler option <aliasblock> not applied: Unknown alias block level: sometimes",
            "Warning: decompiler option <readonly> not applied: no content",
        ]
    );
    assert!(warnings.iter().all(|w| w.starts_with("Warning")));
    assert_eq!(open, 0);
    assert_eq!(a.basic.max_jumptable_size, 9);
    assert!(a.basic.readonlypropagate);
}

#[test]
fn an_option_asks_for_its_parts_in_turn() {
    let mut r: Vec<DecoderReply> = Vec::new();
    assert!(matches!(read_one_option(&r), OptionStep::Ask(DecoderRequest::OpenElement)));
    r.push(ok(ELEM_READONLY));
    assert!(matches!(read_one_option(&r), OptionStep::Ask(DecoderRequest::OpenElement)));
    r.push(ok(ELEM_PARAM1));
    assert!(matches!(read_one_option(&r), OptionStep::Ask(DecoderRequest::ReadContent)));
    r.push(DecoderReply { failure: None, id: 0, content: b"o\xffn".to_vec() });
    assert!(matches!(
        read_one_option(&r),
        OptionStep::Ask(DecoderRequest::CloseElement(ELEM_PARAM1))
    ));
    r.push(ok(0));
    assert!(matches!(read_one_option(&r), OptionStep::Ask(DecoderRequest::OpenElement)));
    r.push(ok(0));
    assert!(matches!(
        read_one_option(&r),
        OptionStep::Ask(DecoderRequest::CloseElement(ELEM_READONLY))
    ));
    r.push(ok(0));
    match read_one_option(&r) {
        OptionStep::Ready(id, p1, p2, p3) => {
            assert_eq!(id, ELEM_READONLY);
            assert_eq!(p1, "o\u{fffd}n");
            assert_eq!((p2.as_str(), p3.as_str()), ("", ""));
        }
        other => panic!("{other:?}"),
    }
    let rest = r.split_off(1);
    match read_lenient_option(&rest, ELEM_READONLY) {
        OptionStep::Ready(id, p1, _, _) => {
            assert_eq!(id, ELEM_READONLY);
            assert_eq!(p1, "o\u{fffd}n");
        }
        other => panic!("{other:?}"),
    }
}

#[test]
fn an_unexpected_child_leaves_the_parameters_empty() {
    let r = vec![ok(ELEM_READONLY), ok(900), ok(0)];
    assert!(matches!(
        read_one_option(&r),
        OptionStep::Ready(ELEM_READONLY, p1, _, _) if p1.is_empty()
    ));
    let r = vec![ok(ELEM_READONLY), failed("broken")];
    assert!(matches!(read_one_option(&r), OptionStep::Fail(e) if e.explain() == "broken"));
}

#[test]
fn a_single_option_is_applied_when_it_is_read() {
    let db = OptionDatabase::new();
    let mut a = arch();
    let mut r = vec![ok(ELEM_JUMPTABLEMAX), ok(0)];
    assert!(matches!(
        db.decode_one(&r, &mut a),
        DecodeStep::Ask(DecoderRequest::ReadContent)
    ));
    r.push(DecoderReply { failure: None, id: 0, content: b"31".to_vec() });
    r.push(ok(0));
    assert!(matches!(db.decode_one(&r, &mut a), DecodeStep::Done(Ok(w)) if w.is_empty()));
    assert_eq!(a.basic.max_jumptable_size, 31);
    r[2].content = b"none".to_vec();
    match db.decode_one(&r, &mut a) {
        DecodeStep::Done(Err(e)) => assert_eq!(e.explain(), "Must specify integer maximum"),
        other => panic!("{other:?}"),
    }
}

#[test]
fn a_broken_option_is_skipped_to_its_end() {
    let skip = DecoderRequest::CloseElementSkipping(ELEM_READONLY);
    for broken in [
        vec![failed("broken")],
        vec![ok(900), failed("broken")],
        vec![ok(ELEM_PARAM1), ok(0), failed("broken")],
        vec![ok(ELEM_PARAM1), failed("no content"), failed("broken")],
        vec![ok(0), ok(0), failed("broken")],
    ] {
        let db = OptionDatabase::new();
        let mut a = arch();
        let mut reader = ListReader::new();
        let mut step = DecodeStep::Ask(ListReader::first_request());
        for reply in [ok(ELEM_OPTIONSLIST), ok(ELEM_READONLY), ok(ELEM_READONLY)] {
            step = db.decode_lenient(&mut reader, reply, &mut a);
        }
        assert!(matches!(step, DecodeStep::Ask(DecoderRequest::OpenElement)));
        for reply in broken {
            step = db.decode_lenient(&mut reader, reply, &mut a);
        }
        assert!(matches!(step, DecodeStep::Ask(q) if q == skip));
        assert!(reader.warnings.is_empty());
        step = db.decode_lenient(&mut reader, ok(0), &mut a);
        assert!(matches!(step, DecodeStep::Ask(DecoderRequest::PeekElement)));
        assert_eq!(
            reader.warnings,
            vec!["Warning: decompiler option <readonly> not applied: broken"]
        );
        for reply in [
            ok(ELEM_JUMPTABLEMAX),
            ok(ELEM_JUMPTABLEMAX),
            ok(0),
            DecoderReply { failure: None, id: 0, content: b"12".to_vec() },
            ok(0),
        ] {
            step = db.decode_lenient(&mut reader, reply, &mut a);
        }
        assert!(matches!(step, DecodeStep::Ask(DecoderRequest::PeekElement)));
        assert_eq!(a.basic.max_jumptable_size, 12);
        assert_eq!(reader.warnings.len(), 1);
    }
}

#[test]
fn an_option_touches_nothing_else() {
    let mut a = arch();
    a.infer_ptr_spaces = vec![1, 4];
    a.set_kuna_option("charptr", "on", &OptionAnswer::NotAsked).unwrap();
    let before = a.config.flags;
    let (r, _) = run(&good_list(), &mut a, true);
    assert!(r.unwrap().is_empty());
    assert_eq!(a.config.flags, before);
    assert_eq!(a.infer_ptr_spaces, vec![1, 4]);
    assert_eq!(a.basic.max_basetype_size, 10);
}
