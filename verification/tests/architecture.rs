use kuna_decomp::actions::{ActionDatabase, RuleState};
use kuna_decomp::architecture::Architecture;
use kuna_decomp::name_map::NameMap;
use kuna_decomp::printer::{BraceStyle, Language, NamespaceStrategy, PrintSettings, Printer};
use kuna_decomp::space::{AddrSpace, Address, Engine, SpaceInfo, SpaceKind, VarnodeData};
use kuna_decomp::symbols::FunctionSymbol;
use kuna_decomp::accessors::{AddressNames, KunaNameStyle, RemoteCache};
use kuna_decomp::architecture::{EntrySeeds, TypeOp, UserOp};
use kuna_decomp::comments::WARNING;
use kuna_decomp::cspec::MemoryRange;
use kuna_decomp::error::{ErrorKind, KunaError};
use kuna_decomp::handle::UseropNames;
use kuna_decomp::init::{init_post_engine, Builtin, InitStage, UserOpStep};
use kuna_decomp::option_table::{
    CHAR_PTR, INFER_FUNCENTRY, INT3_PAD, MAX_IMPLIED_REF, NAME_STYLE_ANGR, PEB_NAMES, REALTYPES,
};
use kuna_decomp::proto::ProtoModel;
use kuna_decomp::proto_decode::Question;
use kuna_decomp::pspec::LanedRegister;
use kuna_decomp::pspec_symbols::TrackedContext;
use kuna_decomp::settings::{Mode, ModeOverride, OptionAnswer};
use kuna_decomp::space::CallSpaces;
use kuna_decomp::symbols::PrototypePieces;
use kuna_decomp::xml::{Element, SpecDocument};
use std::rc::Rc;

fn element(name: &str, attributes: &[(&str, &str)], children: Vec<Element>) -> Element {
    Element {
        name: name.to_string(),
        attributes: attributes
            .iter()
            .map(|(n, v)| (n.to_string(), v.as_bytes().to_vec()))
            .collect(),
        children,
    }
}

fn info(kind: SpaceKind, delay: i32) -> SpaceInfo {
    SpaceInfo {
        kind,
        addr_size: 8,
        word_size: 1,
        delay,
        big_endian: false,
        truncated: false,
        overlay: false,
        other: false,
        reverse_justified: false,
        contains: None,
        formal: false,
        pointer: None,
    }
}

fn space(name: &str, kind: SpaceKind, delay: i32) -> AddrSpace {
    AddrSpace { name: name.to_string(), info: info(kind, delay) }
}

fn engine() -> Engine {
    let mut registers = NameMap::new();
    registers.insert("RSP", VarnodeData { space: Some(2), offset: 0x20, size: 8 });
    registers.insert("RAX", VarnodeData { space: Some(2), offset: 0, size: 8 });
    registers.insert("RDX", VarnodeData { space: Some(2), offset: 0x10, size: 8 });
    registers.insert("XMM0", VarnodeData { space: Some(2), offset: 0x1200, size: 16 });
    Engine {
        spaces: vec![
            space("const", SpaceKind::Constant, 0),
            space("ram", SpaceKind::Processor, 1),
            space("register", SpaceKind::Processor, 0),
            space("unique", SpaceKind::Internal, 0),
            space("rom", SpaceKind::Processor, 1),
        ],
        code_space: Some(4),
        data_space: Some(1),
        registers,
        alignment: 1,
        local: true,
        context_set_allowed: true,
    }
}

fn print_settings() -> PrintSettings {
    PrintSettings {
        comment_indent: 20,
        header_comment: 40,
        instruction_comment: 18,
        namespaces: NamespaceStrategy::Minimal,
        null_printing: false,
        inplace_ops: false,
        convention_printing: true,
        no_cast_printing: false,
        hide_implied_exts: false,
        brace_function: BraceStyle::SkipLine,
        brace_ifelse: BraceStyle::SameLine,
        brace_loop: BraceStyle::SameLine,
        brace_switch: BraceStyle::SameLine,
        indent_increment: 2,
    }
}

fn language(name: &str, print_name: &str, is_c: bool) -> Language {
    Language {
        name: name.to_string(),
        print_name: print_name.to_string(),
        is_c,
        c_for: is_c,
        integer_promotion: is_c,
    }
}

fn printer() -> Printer {
    Printer {
        name: "c-language".to_string(),
        integer_format: "best".to_string(),
        settings: print_settings(),
        max_line_size: None,
        comment_style: None,
        languages: vec![
            language("c-language", "c-language", true),
            language("rust", "rust-language", false),
            language("rust-language", "rust-language", false),
        ],
        initial_name: "c-language".to_string(),
        initial_format: "best".to_string(),
        initial: print_settings(),
    }
}

fn actions() -> ActionDatabase {
    let mut rules = NameMap::new();
    rules.insert("ignorenan", RuleState { enabled: true, warns: false });
    rules.insert("earlyremoval", RuleState { enabled: true, warns: false });
    let mut groups = NameMap::new();
    groups.insert("decompile", rules);
    groups.insert("jumptable", NameMap::new());
    ActionDatabase { groups, current: Some("decompile".to_string()), toggles: Vec::new() }
}

fn arch() -> Architecture {
    let mut a = Architecture::new("x86:LE:64", engine(), printer(), actions(), true);
    a.symbols.add_function(FunctionSymbol {
        name: "main".to_string(),
        address: Address { space: Some(1), offset: 0x1000 },
        global: true,
        inline: false,
        no_return: false,
        pieces: None,
    });
    a.symbols.add_function(FunctionSymbol {
        name: "local".to_string(),
        address: Address { space: Some(1), offset: 0x2000 },
        global: false,
        inline: false,
        no_return: false,
        pieces: None,
    });
    a
}

fn model(name: &str) -> Rc<ProtoModel> {
    let mut m = ProtoModel::new();
    m.set_name(name);
    Rc::new(m)
}

fn names() -> UseropNames {
    UseropNames {
        shuffle: vec!["pshufb".to_string(), "vperm".to_string(), "tbl".to_string()],
        syscall: "syscall".to_string(),
    }
}

fn cspec(children: Vec<Element>) -> SpecDocument {
    SpecDocument::Root(element("compiler_spec", &[], children))
}

#[test]
fn a_new_architecture_has_its_defaults() {
    let a = Architecture::from_engine_translate("ARM:LE:32", engine(), printer(), actions(), false);
    assert_eq!(a.get_description(), "ARM:LE:32");
    let b = a.basic;
    assert_eq!((b.trim_recurse_max, b.max_basetype_size, b.min_funcsymbol_size), (5, 10, 1));
    assert_eq!((b.max_jumptable_size, b.max_instructions), (1024, 100000));
    assert_eq!((b.alias_block_level, b.split_datatype_config, b.flowoptions), (2, 7, 0x20));
    assert!(b.infer_pointers && b.analyze_for_loops && b.nan_ignore_compare);
    assert!(!b.readonlypropagate && !b.nan_ignore_all && !b.aggressive_ext_trim);
    assert_eq!(b.funcptr_align, 0);
    assert!(a.config.flags[INFER_FUNCENTRY]);
    assert!(!a.symbols.cache_on);
    assert!(a.default_fp().is_none() && a.eval_fp_current().is_none());
    assert_eq!(a.num_proto_models(), 0);
    assert_eq!(a.build_typegrp(), 10);
}

#[test]
fn a_reset_restores_the_defaults() {
    let mut a = arch();
    a.basic.max_instructions = 7;
    a.basic.funcptr_align = 1;
    a.basic.flowoptions = 0;
    a.set_kuna_option("inferfuncentry", "off", &OptionAnswer::NotAsked).unwrap();
    a.set_kuna_option("charptr", "on", &OptionAnswer::NotAsked).unwrap();
    a.set_kuna_option("structdefs", "on", &OptionAnswer::Flag(true, String::new())).unwrap();
    a.print.settings.indent_increment = 9;
    a.print.name = "rust-language".to_string();
    a.print.max_line_size = Some(5);
    a.reset_defaults();
    assert_eq!((a.basic.max_instructions, a.basic.flowoptions), (100000, 0x20));
    assert_eq!(a.basic.funcptr_align, 1);
    assert!(a.config.flags[INFER_FUNCENTRY]);
    assert!(!a.config.flags[CHAR_PTR]);
    assert_eq!(a.config.print_flags.iter().filter(|f| f.is_some()).count(), 1);
    assert_eq!(a.print.settings.indent_increment, 9);
    a.reset_wire_defaults();
    assert!(a.config.print_flags.iter().all(|f| f.is_none()));
    assert_eq!(a.print.settings, print_settings());
    assert_eq!(a.print.name, "c-language");
    assert_eq!(a.print.max_line_size, Some(5));
    assert_eq!(a.basic.funcptr_align, 1);
}

#[test]
fn options_and_modes_reach_the_settings() {
    let mut a = arch();
    let r = a.set_kuna_option("charptr", "on", &OptionAnswer::NotAsked).unwrap();
    assert_eq!(r.message, "character-pointer evidence turned on");
    assert!(a.config.flags[CHAR_PTR]);
    let modes = vec![Mode {
        name: "fast".to_string(),
        overrides: vec![ModeOverride {
            option: "charptr".to_string(),
            value: "off".to_string(),
            answer: OptionAnswer::NotAsked,
        }],
    }];
    let mut loader = Vec::new();
    assert_eq!(
        a.apply_mode("fast", &modes, &mut loader).unwrap(),
        "mode fast applied (1 option override)"
    );
    assert!(!a.config.flags[CHAR_PTR]);
}

#[test]
fn names_follow_the_style() {
    let mut a = arch();
    let n = AddressNames { ghidra: "FUN_00001000", angr: "sub_1000", raw: "0x00001000" };
    a.config.flags[NAME_STYLE_ANGR] = false;
    assert_eq!(a.kuna_name_style(), KunaNameStyle::Func);
    assert_eq!(a.name_function(&n), "func_0x00001000");
    a.config.flags[NAME_STYLE_ANGR] = true;
    assert_eq!(a.kuna_name_style(), KunaNameStyle::Angr);
    assert_eq!(a.name_function(&n), "sub_1000");
    a.image.name_style_ghidra = true;
    assert_eq!(a.kuna_name_style(), KunaNameStyle::Ghidra);
    assert_eq!(a.name_function(&n), "FUN_00001000");
}

#[test]
fn functions_are_found_by_name() {
    let mut a = arch();
    assert_eq!(a.query_global_function("main").unwrap(), 0);
    let e = a.query_global_function("local").unwrap_err();
    assert_eq!((e.kind, e.explain()), (ErrorKind::Recov, "Unknown function name: local"));
    a.symbols.table.has_global = false;
    assert!(a.query_global_function("main").is_err());
}

#[test]
fn prototypes_are_parked_on_functions() {
    let mut a = arch();
    let pieces = |name: &str, handle| PrototypePieces { name: name.to_string(), handle };
    a.set_function_prototype_pieces("main", pieces("main", 7));
    a.set_function_prototype_pieces("local", pieces("local", 8));
    a.set_function_prototype_pieces_at(
        &Address { space: Some(1), offset: 0x2000 },
        pieces("local", 9),
    );
    a.set_function_prototype_pieces_at(&Address { space: Some(1), offset: 1 }, pieces("x", 1));
    let handles: Vec<Option<u64>> = a
        .symbols
        .table
        .functions
        .iter()
        .map(|f| f.pieces.as_ref().map(|p| p.handle))
        .collect();
    assert_eq!(handles, vec![Some(7), Some(9)]);
}

#[test]
fn views_of_the_symbols_follow_the_table() {
    for cache in [true, false] {
        let mut a = arch();
        a.set_symbol_snapshot_cache(cache);
        let first = a.build_arch_handle(&names(), false);
        assert_eq!(first.global_query.functions.len(), 2);
        assert!(first.callee_protos.is_empty());
        let again = a.build_arch_handle(&names(), false);
        assert_eq!(Rc::ptr_eq(&first.global_query, &again.global_query), cache);
        a.set_function_prototype_pieces(
            "main",
            PrototypePieces { name: "main".to_string(), handle: 3 },
        );
        let after = a.build_arch_handle(&names(), false);
        assert_eq!(after.callee_protos.len(), 1);
        assert_eq!(after.callee_protos[0].offset, 0x1000);
        assert_eq!(after.callee_protos[0].pieces.handle, 3);
        a.symbols.add_range(MemoryRange { space: 1, first: 0, last: 9 });
        assert_eq!(a.build_arch_handle(&names(), false).global_query.ranges.len(), 1);
    }
}

#[test]
fn a_context_carries_what_the_analysis_reads() {
    let mut a = arch();
    a.lanerecords = vec![LanedRegister { whole_size: 16, mask: 4 }];
    a.infer_ptr_spaces = vec![1, 4];
    a.userops = vec![
        UserOp { name: "tbl".to_string(), index: 3, inject: None },
        UserOp { name: "pshufb".to_string(), index: 5, inject: None },
        UserOp { name: "syscall".to_string(), index: 7, inject: None },
    ];
    let c = a.build_arch_handle(&names(), false);
    assert_eq!(c.min_laned_register_size, 16);
    assert_eq!(c.lanerecords, a.lanerecords);
    assert_eq!(c.simd_shuffle_userops, vec![5, 3]);
    assert_eq!(c.x64_syscall_userops, vec![7]);
    assert_eq!(c.infer_ptr_spaces, vec![1, 4]);
    assert_eq!(c.flags[INFER_FUNCENTRY], Some(true));
    assert_eq!(c.flags[REALTYPES], None);
    assert_eq!(c.levels[MAX_IMPLIED_REF], Some(2));
    assert_eq!(c.levels[INT3_PAD], None);
    assert!(c.unknown_byte_is_char && c.int_promotion && c.analyze_for_loops);
    assert!(c.entry_track.is_none());
    a.userops[2].inject = Some(1);
    a.print.name = "rust-language".to_string();
    let c = a.build_arch_handle(&names(), false);
    assert!(c.x64_syscall_userops.is_empty());
    assert!(!c.unknown_byte_is_char && !c.int_promotion && !c.analyze_for_loops);
    a.print.name = "klingon".to_string();
    assert!(a.build_arch_handle(&names(), false).analyze_for_loops);
}

#[test]
fn the_environment_block_is_typed_on_windows() {
    let mut a = arch();
    let mut fires = |level: i32, image: bool, spec: bool| {
        a.config.levels[PEB_NAMES] = level;
        a.image.image_windows_user = image;
        a.build_arch_handle(&names(), spec).peb_names
    };
    assert!(!fires(0, true, true));
    assert!(fires(1, true, true));
    assert!(!fires(1, true, false));
    assert!(!fires(1, false, true));
    assert!(fires(2, false, true));
    assert!(!fires(2, true, false));
}

#[test]
fn the_evaluation_model_is_handed_on() {
    let mut a = arch();
    a.register_model(model("__stdcall"));
    a.register_model(model("merged"));
    a.set_default_model_rc(model("__stdcall"));
    assert!(a.build_arch_handle(&names(), false).evalfp_current.is_none());
    a.models.evalfp_current_spec = Some(model("merged"));
    let c = a.build_arch_handle(&names(), false);
    assert_eq!(c.evalfp_current.unwrap().name, "merged");
    assert_eq!(c.defaultfp.unwrap().name, "__stdcall");
    a.models.evalfp_current = Some(model("chosen"));
    assert_eq!(a.build_arch_handle(&names(), false).evalfp_current.unwrap().name, "chosen");
    a.models.evalfp_current = None;
    a.set_kuna_option("evalcurrentproto", "off", &OptionAnswer::Flag(false, String::new())).unwrap();
    assert!(a.build_arch_handle(&names(), false).evalfp_current.is_none());
}

#[test]
fn declared_conventions_are_joined_by_name() {
    let mut a = arch();
    let pieces = |name: &str| PrototypePieces { name: name.to_string(), handle: 0 };
    a.set_function_prototype_pieces("main", pieces("main"));
    a.set_function_prototype_pieces_at(
        &Address { space: Some(1), offset: 0x2000 },
        pieces("other"),
    );
    assert!(a.build_arch_handle(&names(), false).callee_proto_models.is_empty());
    a.set_function_prototype_model("main", model("__fastcall"));
    assert_eq!(a.function_prototype_model("main").unwrap().name, "__fastcall");
    assert!(a.function_prototype_model("other").is_none());
    let c = a.build_arch_handle(&names(), false);
    assert_eq!(c.callee_protos.len(), 2);
    assert_eq!(c.callee_proto_models.len(), 1);
    assert_eq!(c.callee_proto_models[0].offset, 0x1000);
    assert_eq!(c.callee_proto_models[0].model.name, "__fastcall");
}

#[test]
fn loader_seeds_are_merged_at_the_entry() {
    let mut a = arch();
    let reg = |offset, value| TrackedContext {
        location: VarnodeData { space: Some(2), offset, size: 8 },
        value,
    };
    let entry = Address { space: Some(1), offset: 0x1000 };
    let last = Address { space: Some(1), offset: u64::MAX };
    a.loader.loader_entry_tracks = vec![
        EntrySeeds { entry, registers: vec![reg(0, 5), reg(8, 6)] },
        EntrySeeds { entry: last, registers: vec![reg(0, 5)] },
    ];
    let known = vec![reg(8, 1)];
    let c = a.build_arch_handle_for_entry(Some((entry, &known)), &names(), false);
    let t = c.entry_track.unwrap();
    assert_eq!((t.first, t.end.offset), (entry, 0x1001));
    assert_eq!(t.registers, vec![reg(8, 1), reg(0, 5)]);
    let other = Address { space: Some(1), offset: 0x2000 };
    assert!(a.build_arch_handle_for_entry(Some((other, &known)), &names(), false).entry_track.is_none());
    assert!(a.build_arch_handle_for_entry(Some((last, &known)), &names(), false).entry_track.is_none());
}

#[test]
fn models_are_listed_in_order() {
    let mut a = arch();
    for n in ["__thiscall", "__cdecl", "__stdcall", "__cdecl"] {
        a.register_model(model(n));
    }
    assert_eq!(a.num_proto_models(), 3);
    assert_eq!(a.proto_model_names(), vec!["__cdecl", "__stdcall", "__thiscall"]);
    assert!(a.has_model("__cdecl") && !a.has_model("x"));
    assert!(a.get_model("x").is_none());
    assert_eq!(a.get_model("__thiscall").unwrap().name, "__thiscall");
    a.set_default_model_rc(model("__stdcall"));
    let parts = a.install_remote_provider();
    let listed: Vec<&str> = parts.models.iter().map(|(n, _)| n.as_str()).collect();
    assert_eq!(listed, vec!["__cdecl", "__stdcall", "__thiscall"]);
    assert_eq!(parts.defaultfp.unwrap().name, "__stdcall");
    assert_eq!(parts.base.functions.len(), 2);
    assert!(a.remote_installed);
}

#[test]
fn a_fresh_start_drops_the_warnings() {
    let mut a = arch();
    let at = Address { space: Some(1), offset: 0 };
    a.commentdb.add_comment(WARNING, &at, &at, "x");
    assert_eq!(a.flush_remote_caches(), vec![RemoteCache::Types, RemoteCache::Strings]);
    assert!(a.commentdb.comments().is_empty());
    a.install_remote_provider();
    assert_eq!(
        a.flush_remote_caches(),
        vec![RemoteCache::Symbols, RemoteCache::Types, RemoteCache::Strings]
    );
}

#[test]
fn an_engine_can_be_rebuilt_from_its_recipe() {
    let mut a = arch();
    assert!(a.decode_recipe().is_none());
    a.set_decode_sla(Rc::new(vec![1, 2, 3]));
    assert!(a.decode_recipe().is_none());
    a.set_decode_truncations(vec![("ram".to_string(), 4)]);
    let r = a.decode_recipe().unwrap();
    assert_eq!(r.archid, "x86:LE:64");
    assert_eq!(*r.sla, vec![1, 2, 3]);
    assert_eq!(*r.truncations, vec![("ram".to_string(), 4)]);
    a.translate_mut().local = false;
    assert!(a.decode_recipe().is_none());
}

#[test]
fn the_engine_is_at_hand() {
    let mut a = arch();
    assert_eq!(a.get_register_varnode("RAX").unwrap().size, 8);
    assert_eq!(a.manage().num_spaces(), 5);
    assert!(a.translate().local);
    assert_eq!(a.data_org(), (8, 1));
    a.context_allow_set(false);
    assert!(!a.engine.context_set_allowed);
    a.lanerecords = vec![LanedRegister { whole_size: 16, mask: 1 }];
    let at = Address { space: Some(2), offset: 0 };
    assert_eq!(a.get_minimum_laned_register_size(), 16);
    assert_eq!(a.get_laned_register(&at, 16).unwrap().mask, 1);
    assert!(a.get_laned_register(&at, 8).is_none());
}

#[test]
fn the_printer_can_be_taken_out() {
    let mut a = arch();
    a.print_mut().settings.indent_increment = 5;
    assert_eq!(a.print().settings.indent_increment, 5);
    let p = a.take_print(printer());
    assert_eq!(p.settings.indent_increment, 5);
    assert_eq!(a.print().settings.indent_increment, 2);
    a.put_print(p);
    assert_eq!(a.print().settings.indent_increment, 5);
}

#[test]
fn operation_codes_fall_back_to_the_canonical_table() {
    let mut a = arch();
    let op = |opcode, flags| TypeOp { opcode, flags };
    assert_eq!(a.resolve_typeop(1, op(1, 8)), op(1, 8));
    a.build_instructions(vec![None, Some(op(1, 2))]);
    assert_eq!(a.resolve_typeop(1, op(1, 8)), op(1, 2));
    assert_eq!(a.resolve_typeop(0, op(0, 8)), op(0, 8));
    assert_eq!(a.resolve_typeop(9, op(9, 8)), op(9, 8));
}

#[test]
fn the_action_tree_starts_at_decompile() {
    let mut a = arch();
    let mut tree = actions();
    tree.current = None;
    a.build_action(tree);
    assert_eq!(a.allacts.current, Some("decompile".to_string()));
}

#[test]
fn the_stages_come_in_order() {
    let mut stage = InitStage::CallSpaces;
    let mut seen = vec![stage];
    while let Some(next) = init_post_engine(stage, Ok(())).unwrap() {
        seen.push(next);
        stage = next;
    }
    assert_eq!(seen.len(), 24);
    assert_eq!(seen[5], InitStage::StackPointer);
    assert_eq!(seen[15], InitStage::PrototypeModels);
    assert_eq!(stage, InitStage::InferSpaces);
    let e = init_post_engine(InitStage::CoreTypes, Err(KunaError::lowlevel("no".to_string())));
    assert_eq!(e.unwrap_err().explain(), "no");
}

#[test]
fn the_stages_fill_in_the_architecture() {
    let mut a = arch();
    let c = CallSpaces {
        fspec: info(SpaceKind::Fspec, 1),
        iop: info(SpaceKind::Iop, 1),
        join: info(SpaceKind::Join, 0),
    };
    a.insert_ir_call_spaces(c).unwrap();
    a.set_cspec_xml(cspec(vec![
        element("stackpointer", &[("register", "RSP"), ("space", "ram")], vec![]),
        element("funcptr", &[("align", "2")], vec![]),
        element("callfixup", &[], vec![]),
        element("callotherfixup", &[], vec![]),
        element("callfixup", &[], vec![]),
        element("global", &[], vec![element("range", &[("space", "rom")], vec![])]),
    ]));
    a.decode_stack_pointer().unwrap();
    assert_eq!(a.engine.num_spaces(), 9);
    a.decode_funcptr_align().unwrap();
    assert_eq!(a.basic.funcptr_align, 1);
    assert_eq!(a.decode_call_fixups().unwrap(), vec![2, 4]);
    assert_eq!(a.code_addr_size(), 8);
    assert!(a.decode_kuna_call_fixups(true) && !a.decode_kuna_call_fixups(false));
    assert_eq!(userop_steps(&a, false), "Initialize CallOther(3) Compile");
    assert_eq!(userop_steps(&a, true), "Initialize CallOther(3) Privileged Compile");
    let (builtins, unit) = a.register_string_builtins();
    assert_eq!(builtins[0], Builtin::StringData);
    assert_eq!(builtins[6], Builtin::Memset);
    assert_eq!(unit, 1);
    let rom = MemoryRange { space: 4, first: 0, last: 0xffff };
    a.decode_global(&vec![Ok(rom)]).unwrap();
    assert_eq!(a.symbols.table.ranges, vec![rom]);
    assert_eq!(a.infer_ptr_spaces, vec![4]);
    a.build_default_proto(None, &vec![]).unwrap();
    assert_eq!(a.default_fp().unwrap().name, "unknown");
    assert!(matches!(a.specs.cspec, SpecDocument::Absent));
    a.engine.alignment = 4;
    a.set_function_distance();
    assert_eq!(a.basic.min_funcsymbol_size, 4);
    a.engine.alignment = 16;
    a.set_function_distance();
    assert_eq!(a.basic.min_funcsymbol_size, 4);
    a.cache_addr_space_properties();
    assert_eq!(a.infer_ptr_spaces, vec![1, 4]);
}

fn userop_steps(a: &Architecture, privileged_op: bool) -> String {
    let mut step = UserOpStep::Initialize;
    let mut names = vec![format!("{step:?}")];
    while let Some(next) = a.init_userops_and_fixups(step, Ok(()), privileged_op).unwrap() {
        names.push(format!("{next:?}"));
        step = next;
    }
    names.join(" ")
}

#[test]
fn a_remote_engine_compiles_no_fixups() {
    let mut a = arch();
    a.engine.local = false;
    assert!(!a.decode_kuna_call_fixups(true));
    assert!(a.decode_call_fixups().unwrap().is_empty());
    assert_eq!(userop_steps(&a, true), "Initialize");
    let refused = KunaError { kind: ErrorKind::Lowlevel, text: String::from("refused") };
    let r = a.init_userops_and_fixups(UserOpStep::Initialize, Err(refused), true);
    assert_eq!(r.unwrap_err().text, "refused");
    let e = KunaError { kind: ErrorKind::Decoder, text: String::from("unexpected end") };
    a.set_cspec_xml(SpecDocument::Malformed(e));
    assert_eq!(a.decode_call_fixups().unwrap_err().text, "unexpected end");
    let r = a.init_userops_and_fixups(UserOpStep::Initialize, Ok(()), true);
    assert_eq!(r.unwrap_err().text, "unexpected end");
    a.register_cortexmpriv_fixup(true, Ok(7)).unwrap();
    assert_eq!(a.cortexmpriv_inject, None);
}

#[test]
fn the_privileged_injection_is_noted() {
    let mut a = arch();
    assert_eq!(a.cortexmpriv_inject, None);
    a.register_cortexmpriv_fixup(false, Ok(3)).unwrap();
    assert_eq!(a.cortexmpriv_inject, None);
    let failure = KunaError { kind: ErrorKind::Lowlevel, text: String::from("no such operation") };
    assert!(a.register_cortexmpriv_fixup(true, Err(failure)).is_err());
    assert_eq!(a.cortexmpriv_inject, None);
    a.register_cortexmpriv_fixup(true, Ok(7)).unwrap();
    assert_eq!(a.cortexmpriv_inject, Some(7));
}

#[test]
fn an_open_question_leaves_the_models() {
    let mut a = arch();
    a.set_cspec_xml(cspec(vec![element(
        "default_proto",
        &[],
        vec![element("prototype", &[("strategy", "register")], vec![])],
    )]));
    let q = a.build_default_proto(None, &vec![]).unwrap_err();
    assert!(matches!(q, Question::Strategy(s) if s == "register"));
    assert_eq!(a.num_proto_models(), 0);
    assert!(matches!(a.specs.cspec, SpecDocument::Root(_)));
}

#[test]
fn lanes_are_noted_down() {
    let mut a = arch();
    let el = element(
        "register_data",
        &[],
        vec![element("register", &[("name", "XMM0"), ("vector_lane_sizes", "8")], vec![])],
    );
    a.decode_register_data(&el, &vec![Ok(256)]).unwrap();
    assert_eq!(a.get_minimum_laned_register_size(), 16);
    let bad = vec![Err(KunaError::parse("bad lanes".to_string()))];
    assert!(a.decode_register_data(&el, &bad).is_err());
    assert_eq!(a.lanerecords.len(), 1);
}

#[test]
fn specifications_are_noted_down() {
    let mut a = arch();
    a.set_pspec_xml(SpecDocument::Root(element("processor_spec", &[], vec![])));
    assert!(matches!(a.specs.pspec, SpecDocument::Root(_)));
    a.set_coretypes_xml();
    assert!(a.specs.coretypes_from_host);
}
