use kuna_decomp::actions::{ActionDatabase, RuleState};
use kuna_decomp::architecture::Architecture;
use kuna_decomp::name_map::NameMap;
use kuna_decomp::printer::{BraceStyle, Language, NamespaceStrategy, PrintSettings, Printer};
use kuna_decomp::space::{AddrSpace, Address, Engine, SpaceInfo, SpaceKind, VarnodeData};
use kuna_decomp::symbols::FunctionSymbol;
use kuna_decomp::context::ArchOptionContext;
use kuna_decomp::error::{ErrorKind, KunaError};
use kuna_decomp::option_database::{
    option_element_name, register_option_elements, IdRegistry, OptionDatabase, RegisteredOption,
    ELEM_ALIASBLOCK, ELEM_ALLOWCONTEXTSET, ELEM_ANALYZEFORLOOPS, ELEM_BRACEFORMAT,
    ELEM_COMMENTHEADER, ELEM_COMMENTINDENT, ELEM_COMMENTINSTRUCTION, ELEM_COMMENTSTYLE,
    ELEM_CONVENTIONPRINTING, ELEM_CURRENTACTION, ELEM_DEFAULTPROTOTYPE, ELEM_ERRORREINTERPRETED,
    ELEM_ERRORTOOMANYINSTRUCTIONS, ELEM_ERRORUNIMPLEMENTED, ELEM_EXTRAPOP, ELEM_HIDEEXTENSIONS,
    ELEM_IGNOREUNIMPLEMENTED, ELEM_INDENTINCREMENT, ELEM_INFERCONSTPTR, ELEM_INLINE,
    ELEM_INPLACEOPS, ELEM_INTEGERFORMAT, ELEM_JUMPLOAD, ELEM_JUMPTABLEMAX, ELEM_MAXINSTRUCTION,
    ELEM_MAXLINEWIDTH, ELEM_NAMESPACESTRATEGY, ELEM_NANIGNORE, ELEM_NOCASTPRINTING, ELEM_NORETURN,
    ELEM_NULLPRINTING, ELEM_PROTOEVAL, ELEM_READONLY, ELEM_SETACTION, ELEM_SETLANGUAGE,
    ELEM_SPLITDATATYPE, ELEM_TOGGLERULE, ELEM_WARNING, OPTION_ELEMENTS,
};
use kuna_decomp::options::{
    encode_comment_type, ArchOption, OptionHideExtensions, OptionSplitDatatypes,
    ERROR_REINTERPRETED, ERROR_TOOMANYINSTRUCTIONS, ERROR_UNIMPLEMENTED, IGNORE_UNIMPLEMENTED,
    RECORD_JUMPLOADS,
};
use kuna_decomp::proto::{ProtoModel, EXTRAPOP_UNKNOWN};
use std::rc::Rc;

fn info(kind: SpaceKind, delay: i32) -> SpaceInfo {
    SpaceInfo {
        kind,
        addr_size: 8,
        word_size: 1,
        delay,
        big_endian: false,
        truncated: false,
        overlay: false,
        other: false,
        reverse_justified: false,
        contains: None,
        formal: false,
        pointer: None,
    }
}

fn space(name: &str, kind: SpaceKind, delay: i32) -> AddrSpace {
    AddrSpace { name: name.to_string(), info: info(kind, delay) }
}

fn engine() -> Engine {
    let mut registers = NameMap::new();
    registers.insert("RSP", VarnodeData { space: Some(2), offset: 0x20, size: 8 });
    registers.insert("RAX", VarnodeData { space: Some(2), offset: 0, size: 8 });
    registers.insert("RDX", VarnodeData { space: Some(2), offset: 0x10, size: 8 });
    registers.insert("XMM0", VarnodeData { space: Some(2), offset: 0x1200, size: 16 });
    Engine {
        spaces: vec![
            space("const", SpaceKind::Constant, 0),
            space("ram", SpaceKind::Processor, 1),
            space("register", SpaceKind::Processor, 0),
            space("unique", SpaceKind::Internal, 0),
            space("rom", SpaceKind::Processor, 1),
        ],
        code_space: Some(4),
        data_space: Some(1),
        registers,
        alignment: 1,
        local: true,
        context_set_allowed: true,
    }
}

fn print_settings() -> PrintSettings {
    PrintSettings {
        comment_indent: 20,
        header_comment: 40,
        instruction_comment: 18,
        namespaces: NamespaceStrategy::Minimal,
        null_printing: false,
        inplace_ops: false,
        convention_printing: true,
        no_cast_printing: false,
        hide_implied_exts: false,
        brace_function: BraceStyle::SkipLine,
        brace_ifelse: BraceStyle::SameLine,
        brace_loop: BraceStyle::SameLine,
        brace_switch: BraceStyle::SameLine,
        indent_increment: 2,
    }
}

fn language(name: &str, print_name: &str, is_c: bool) -> Language {
    Language {
        name: name.to_string(),
        print_name: print_name.to_string(),
        is_c,
        c_for: is_c,
        integer_promotion: is_c,
    }
}

fn printer() -> Printer {
    Printer {
        name: "c-language".to_string(),
        integer_format: "best".to_string(),
        settings: print_settings(),
        max_line_size: None,
        comment_style: None,
        languages: vec![
            language("c-language", "c-language", true),
            language("rust", "rust-language", false),
            language("rust-language", "rust-language", false),
        ],
        initial_name: "c-language".to_string(),
        initial_format: "best".to_string(),
        initial: print_settings(),
    }
}

fn actions() -> ActionDatabase {
    let mut rules = NameMap::new();
    rules.insert("ignorenan", RuleState { enabled: true, warns: false });
    rules.insert("earlyremoval", RuleState { enabled: true, warns: false });
    let mut groups = NameMap::new();
    groups.insert("decompile", rules);
    groups.insert("jumptable", NameMap::new());
    ActionDatabase { groups, current: Some("decompile".to_string()), toggles: Vec::new() }
}

fn arch() -> Architecture {
    let mut a = Architecture::new("x86:LE:64", engine(), printer(), actions(), true);
    a.symbols.add_function(FunctionSymbol {
        name: "main".to_string(),
        address: Address { space: Some(1), offset: 0x1000 },
        global: true,
        inline: false,
        no_return: false,
        pieces: None,
    });
    a.symbols.add_function(FunctionSymbol {
        name: "local".to_string(),
        address: Address { space: Some(1), offset: 0x2000 },
        global: false,
        inline: false,
        no_return: false,
        pieces: None,
    });
    a
}

fn set(a: &mut Architecture, id: u32, p1: &str, p2: &str, p3: &str) -> Result<String, KunaError> {
    OptionDatabase::new().set(a, id, p1, p2, p3)
}

fn said(a: &mut Architecture, id: u32, p1: &str, p2: &str, p3: &str) -> String {
    set(a, id, p1, p2, p3).unwrap()
}

fn refused(a: &mut Architecture, id: u32, p1: &str, p2: &str, p3: &str) -> (ErrorKind, String) {
    let e = set(a, id, p1, p2, p3).unwrap_err();
    (e.kind, e.text)
}

fn model(name: &str, extrapop: i32) -> Rc<ProtoModel> {
    let mut m = ProtoModel::new();
    m.set_name(name);
    m.extrapop = extrapop;
    Rc::new(m)
}

#[test]
fn every_element_has_its_option() {
    let db = OptionDatabase::new();
    for (name, id) in OPTION_ELEMENTS {
        assert_eq!(option_element_name(id), Some(name));
    }
    let mut a = arch();
    let e = db.set(&mut a, ELEM_HIDEEXTENSIONS, "on", "", "").unwrap_err();
    assert_eq!(e.kind, ErrorKind::Parse);
    assert_eq!(e.explain(), "Unknown option");
    assert_eq!(option_element_name(ELEM_HIDEEXTENSIONS), None);
}

#[test]
fn a_registration_replaces_an_earlier_one() {
    let mut db = OptionDatabase::new();
    db.register_option(ELEM_READONLY, RegisteredOption::InferConstPtr);
    let mut a = arch();
    assert_eq!(
        db.set(&mut a, ELEM_READONLY, "off", "", "").unwrap(),
        "Constant pointers must now be set explicitly"
    );
    assert!(!a.basic.infer_pointers);
    db.register_option(ELEM_HIDEEXTENSIONS, RegisteredOption::HideExtensions);
    assert_eq!(
        db.set(&mut a, ELEM_HIDEEXTENSIONS, "on", "", "").unwrap(),
        "Implied extension hiding turned on"
    );
    assert_eq!(RegisteredOption::NanIgnore.get_name(), "nanignore");
}

#[test]
fn list_elements_are_registered() {
    let mut reg = IdRegistry { elements: Vec::new() };
    register_option_elements(&mut reg);
    assert_eq!(reg.elements.len(), 43);
    assert_eq!((reg.elements[0].name, reg.elements[0].id), ("extrapop", 187));
    assert_eq!((reg.elements[1].name, reg.elements[1].id), ("readonly", 151));
    assert_eq!((reg.elements[37].name, reg.elements[37].id), ("optionslist", 201));
    assert_eq!((reg.elements[42].name, reg.elements[42].id), ("hideextensions", 4090));
}

#[test]
fn extrapop_is_set_on_the_default_model() {
    let mut a = arch();
    a.register_model(model("__stdcall", 8));
    a.set_default_model("__stdcall").unwrap();
    assert_eq!(said(&mut a, ELEM_EXTRAPOP, "12", "", ""), "Global extrapop set");
    assert_eq!(a.default_fp().unwrap().extrapop, 12);
    assert_eq!(a.get_model("__stdcall").unwrap().extrapop, 12);
    said(&mut a, ELEM_EXTRAPOP, "unknown", "", "");
    assert_eq!(a.default_fp().unwrap().extrapop, EXTRAPOP_UNKNOWN);
    said(&mut a, ELEM_EXTRAPOP, "junk", "", "");
    assert_eq!(a.default_fp().unwrap().extrapop, 0);
    assert_eq!(
        refused(&mut a, ELEM_EXTRAPOP, "", "", ""),
        (ErrorKind::Parse, "Bad extrapop adjustment parameter".to_string())
    );
    assert_eq!(
        refused(&mut a, ELEM_EXTRAPOP, "-300", "", ""),
        (ErrorKind::Parse, "Bad extrapop adjustment parameter".to_string())
    );
    assert_eq!(
        refused(&mut a, ELEM_EXTRAPOP, "4", "main", ""),
        (ErrorKind::Recov, "Unknown function name: main".to_string())
    );
}

#[test]
fn extrapop_reaches_the_evaluation_model() {
    let mut a = arch();
    a.register_model(model("__stdcall", 8));
    a.register_model(model("__cdecl", 4));
    a.set_default_model("__stdcall").unwrap();
    a.set_eval_current_model("__cdecl").unwrap();
    said(&mut a, ELEM_EXTRAPOP, "16", "", "");
    assert_eq!(a.default_fp().unwrap().extrapop, 16);
    assert_eq!(a.eval_fp_current().unwrap().extrapop, 16);
    assert_eq!(a.get_model("__cdecl").unwrap().extrapop, 16);
}

#[test]
fn readonly_needs_a_value() {
    let mut a = arch();
    assert_eq!(
        said(&mut a, ELEM_READONLY, "on", "", ""),
        "Read-only memory locations now propagate as constants"
    );
    assert!(a.basic.readonlypropagate);
    assert_eq!(
        said(&mut a, ELEM_READONLY, "off", "", ""),
        "Read-only memory locations now do not propagate"
    );
    assert!(!a.basic.readonlypropagate);
    assert_eq!(
        refused(&mut a, ELEM_READONLY, "", "", ""),
        (ErrorKind::Parse, "Read-only option must be set \"on\" or \"off\"".to_string())
    );
}

#[test]
fn the_default_model_is_chosen_by_name() {
    let mut a = arch();
    a.register_model(model("__fastcall", 0));
    assert_eq!(
        said(&mut a, ELEM_DEFAULTPROTOTYPE, "__fastcall", "", ""),
        "Set default prototype to __fastcall"
    );
    assert_eq!(a.default_fp().unwrap().name, "__fastcall");
    assert_eq!(
        refused(&mut a, ELEM_DEFAULTPROTOTYPE, "none", "", ""),
        (ErrorKind::Lowlevel, "Unknown prototype model :none".to_string())
    );
}

#[test]
fn the_evaluation_model_is_chosen_by_name() {
    let mut a = arch();
    a.register_model(model("__fastcall", 0));
    a.register_model(model("__stdcall", 0));
    a.set_default_model("__stdcall").unwrap();
    assert_eq!(a.eval_fp_current().unwrap().name, "__stdcall");
    assert_eq!(
        said(&mut a, ELEM_PROTOEVAL, "__fastcall", "", ""),
        "Set current evaluation to __fastcall"
    );
    assert_eq!(a.eval_fp_current().unwrap().name, "__fastcall");
    said(&mut a, ELEM_PROTOEVAL, "default", "", "");
    assert_eq!(a.eval_fp_current().unwrap().name, "__stdcall");
    assert_eq!(
        refused(&mut a, ELEM_PROTOEVAL, "x", "", ""),
        (ErrorKind::Parse, "Unknown prototype model: x".to_string())
    );
    assert_eq!(
        refused(&mut a, ELEM_PROTOEVAL, "", "", ""),
        (ErrorKind::Parse, "Must specify prototype model".to_string())
    );
}

#[test]
fn constant_pointers_and_for_loops_are_toggled() {
    let mut a = arch();
    assert_eq!(
        said(&mut a, ELEM_INFERCONSTPTR, "off", "", ""),
        "Constant pointers must now be set explicitly"
    );
    assert!(!a.basic.infer_pointers);
    assert_eq!(said(&mut a, ELEM_INFERCONSTPTR, "", "", ""), "Constant pointers are now inferred");
    assert_eq!(said(&mut a, ELEM_ANALYZEFORLOOPS, "off", "", ""), "Recovery of for-loops is off");
    assert!(!a.basic.analyze_for_loops);
    assert_eq!(said(&mut a, ELEM_ANALYZEFORLOOPS, "", "", ""), "Recovery of for-loops is ");
    assert!(a.basic.analyze_for_loops);
    assert_eq!(
        refused(&mut a, ELEM_INFERCONSTPTR, "yes", "", ""),
        (ErrorKind::Parse, "Must specify toggle value, on/off".to_string())
    );
}

#[test]
fn functions_are_marked_by_name() {
    let mut a = arch();
    assert_eq!(
        said(&mut a, ELEM_INLINE, "main", "", ""),
        "Inline property for function main = true"
    );
    assert!(a.symbols.table.functions[0].inline);
    assert_eq!(
        said(&mut a, ELEM_INLINE, "main", "on", ""),
        "Inline property for function main = false"
    );
    assert!(!a.symbols.table.functions[0].inline);
    assert_eq!(
        said(&mut a, ELEM_NORETURN, "main", "true", ""),
        "No return property for function main = true"
    );
    assert!(a.symbols.table.functions[0].no_return);
    for id in [ELEM_INLINE, ELEM_NORETURN] {
        assert_eq!(
            refused(&mut a, id, "local", "", ""),
            (ErrorKind::Recov, "Unknown function name: local".to_string())
        );
    }
}

#[test]
fn warnings_of_rules_are_toggled() {
    let mut a = arch();
    assert_eq!(
        said(&mut a, ELEM_WARNING, "earlyremoval", "", ""),
        "Warnings for earlyremoval turned on"
    );
    let rules = a.allacts.groups.get("decompile").unwrap();
    assert!(rules.get("earlyremoval").unwrap().warns);
    assert!(rules.get("earlyremoval").unwrap().enabled);
    assert_eq!(
        said(&mut a, ELEM_WARNING, "earlyremoval", "off", ""),
        "Warnings for earlyremoval turned off"
    );
    assert_eq!(
        refused(&mut a, ELEM_WARNING, "nosuch", "on", ""),
        (ErrorKind::Recov, "Bad action/rule specifier: nosuch".to_string())
    );
    assert_eq!(
        refused(&mut a, ELEM_WARNING, "", "on", ""),
        (ErrorKind::Parse, "No action/rule specified".to_string())
    );
}

#[test]
fn printing_options_need_a_known_language() {
    let mut a = arch();
    assert_eq!(said(&mut a, ELEM_NULLPRINTING, "on", "", ""), "Null printing turned on");
    assert_eq!(said(&mut a, ELEM_INPLACEOPS, "on", "", ""), "Inplace operators turned on");
    assert_eq!(
        said(&mut a, ELEM_CONVENTIONPRINTING, "off", "", ""),
        "Convention printing turned off"
    );
    assert_eq!(said(&mut a, ELEM_NOCASTPRINTING, "on", "", ""), "No cast printing turned on");
    let s = a.print.settings;
    assert!(s.null_printing && s.inplace_ops && !s.convention_printing && s.no_cast_printing);
    a.print.name = "klingon".to_string();
    assert!(!a.print_lang_known());
    assert!(!a.print_is_c_language());
    assert_eq!(
        said(&mut a, ELEM_NULLPRINTING, "off", "", ""),
        "Only a known output language accepts the null printing option"
    );
    assert_eq!(
        said(&mut a, ELEM_INPLACEOPS, "off", "", ""),
        "Can only set inplace operators for a known output language"
    );
    assert_eq!(
        said(&mut a, ELEM_CONVENTIONPRINTING, "on", "", ""),
        "Can only set convention printing for a known output language"
    );
    assert_eq!(
        said(&mut a, ELEM_NOCASTPRINTING, "off", "", ""),
        "Can only set no cast printing for a known output language"
    );
    assert_eq!(
        OptionHideExtensions.apply(&mut a, "on", "", "").unwrap(),
        "Can only toggle extension hiding for a known output language"
    );
    assert_eq!(a.print.settings, s);
    assert_eq!(
        refused(&mut a, ELEM_NULLPRINTING, "x", "", "").1,
        "Must specify toggle value, on/off"
    );
}

#[test]
fn widths_and_indents_are_numbers() {
    let mut a = arch();
    assert_eq!(said(&mut a, ELEM_MAXLINEWIDTH, "0x50", "", ""), "Maximum line width set to 0x50");
    assert_eq!(a.print.max_line_size, Some(80));
    assert_eq!(
        said(&mut a, ELEM_INDENTINCREMENT, "4", "", ""),
        "Characters per indent level set to 4"
    );
    assert_eq!(a.print.settings.indent_increment, 4);
    assert_eq!(said(&mut a, ELEM_COMMENTINDENT, "x", "", ""), "Comment indent set to x");
    assert_eq!(a.print.settings.comment_indent, 0);
    for (id, text) in [
        (ELEM_MAXLINEWIDTH, "Must specify integer linewidth"),
        (ELEM_INDENTINCREMENT, "Must specify integer increment"),
        (ELEM_COMMENTINDENT, "Must specify integer comment indent"),
    ] {
        assert_eq!(refused(&mut a, id, "", "", ""), (ErrorKind::Parse, text.to_string()));
        assert_eq!(refused(&mut a, id, "-1", "", ""), (ErrorKind::Parse, text.to_string()));
    }
}

#[test]
fn comment_types_are_toggled() {
    let mut a = arch();
    assert_eq!(
        said(&mut a, ELEM_COMMENTHEADER, "user1", "on", ""),
        "Header comment type user1 turned on"
    );
    assert_eq!(a.print.settings.header_comment, 41);
    assert_eq!(
        said(&mut a, ELEM_COMMENTHEADER, "header", "off", ""),
        "Header comment type header turned off"
    );
    assert_eq!(a.print.settings.header_comment, 33);
    assert_eq!(
        said(&mut a, ELEM_COMMENTINSTRUCTION, "warning", "off", ""),
        "Instruction comment type warning turned off"
    );
    assert_eq!(a.print.settings.instruction_comment, 2);
    assert_eq!(a.printer_comment_filter(), 35);
    assert_eq!(
        refused(&mut a, ELEM_COMMENTHEADER, "user9", "on", ""),
        (ErrorKind::Lowlevel, "Unknown comment type: user9".to_string())
    );
    assert_eq!(
        refused(&mut a, ELEM_COMMENTINSTRUCTION, "user9", "perhaps", "").1,
        "Must specify toggle value, on/off"
    );
    assert_eq!(encode_comment_type("warningheader").unwrap(), 32);
    assert_eq!(encode_comment_type("user3").unwrap(), 4);
}

#[test]
fn styles_and_formats_are_noted_down() {
    let mut a = arch();
    assert_eq!(said(&mut a, ELEM_COMMENTSTYLE, "cplusplus", "", ""), "Comment style set to cplusplus");
    assert_eq!(a.print.comment_style, Some("cplusplus".to_string()));
    assert_eq!(said(&mut a, ELEM_INTEGERFORMAT, "hex", "", ""), "Integer format set to hex");
    assert_eq!(a.print.integer_format, "hex");
}

#[test]
fn braces_have_a_style_for_each_kind_of_block() {
    let mut a = arch();
    assert_eq!(
        said(&mut a, ELEM_BRACEFORMAT, "loop", "next", ""),
        "Brace formatting for loop set to next"
    );
    assert_eq!(a.print.settings.brace_loop, BraceStyle::NextLine);
    said(&mut a, ELEM_BRACEFORMAT, "function", "same", "");
    said(&mut a, ELEM_BRACEFORMAT, "ifelse", "skip", "");
    said(&mut a, ELEM_BRACEFORMAT, "switch", "next", "");
    assert_eq!(a.print.settings.brace_function, BraceStyle::SameLine);
    assert_eq!(a.print.settings.brace_ifelse, BraceStyle::SkipLine);
    assert_eq!(a.print.settings.brace_switch, BraceStyle::NextLine);
    assert_eq!(
        refused(&mut a, ELEM_BRACEFORMAT, "nosuch", "odd", ""),
        (ErrorKind::Parse, "Unknown brace style: odd".to_string())
    );
    assert_eq!(
        refused(&mut a, ELEM_BRACEFORMAT, "nosuch", "same", ""),
        (ErrorKind::Parse, "Unknown brace format category: nosuch".to_string())
    );
    a.print.name = "klingon".to_string();
    assert_eq!(
        said(&mut a, ELEM_BRACEFORMAT, "nosuch", "odd", ""),
        "Can only set brace formatting for a known output language"
    );
}

#[test]
fn action_groups_are_selected_and_copied() {
    let mut a = arch();
    assert_eq!(said(&mut a, ELEM_SETACTION, "jumptable", "", ""), "Set current action to jumptable");
    assert_eq!(a.current_action_name(), "jumptable");
    said(&mut a, ELEM_SETACTION, "nosuch", "", "");
    assert_eq!(a.current_action_name(), "jumptable");
    assert_eq!(
        said(&mut a, ELEM_SETACTION, "decompile", "mine", ""),
        "Created mine by cloning decompile and made it current"
    );
    assert_eq!(a.current_action_name(), "mine");
    assert!(a.allacts.groups.get("mine").unwrap().contains("earlyremoval"));
    assert_eq!(
        refused(&mut a, ELEM_SETACTION, "", "", ""),
        (ErrorKind::Parse, "Must specify preexisting action".to_string())
    );
}

#[test]
fn sub_groups_are_switched() {
    let mut a = arch();
    assert_eq!(
        said(&mut a, ELEM_CURRENTACTION, "normalization", "off", ""),
        "Toggled normalization in action decompile"
    );
    assert_eq!(
        said(&mut a, ELEM_CURRENTACTION, "jumptable", "typerecovery", "on"),
        "Toggled typerecovery in action jumptable"
    );
    assert_eq!(a.current_action_name(), "jumptable");
    let log: Vec<(&str, &str, bool)> = a
        .allacts
        .toggles
        .iter()
        .map(|t| (t.group.as_str(), t.sub.as_str(), t.on))
        .collect();
    assert_eq!(
        log,
        vec![("decompile", "normalization", false), ("jumptable", "typerecovery", true)]
    );
    assert_eq!(
        refused(&mut a, ELEM_CURRENTACTION, "x", "", ""),
        (ErrorKind::Parse, "Must specify subaction, on/off".to_string())
    );
    assert_eq!(
        refused(&mut a, ELEM_CURRENTACTION, "decompile", "x", "perhaps").1,
        "Must specify toggle value, on/off"
    );
    assert_eq!(a.current_action_name(), "decompile");
    assert_eq!(a.allacts.toggles.len(), 2);
}

#[test]
fn context_changes_are_allowed_or_not() {
    let mut a = arch();
    assert_eq!(said(&mut a, ELEM_ALLOWCONTEXTSET, "off", "", ""), "Toggled allowcontextset to off");
    assert!(!a.engine.context_set_allowed);
}

#[test]
fn flow_bits_are_toggled_one_by_one() {
    let mut a = arch();
    a.basic.flowoptions = 0;
    let cases = [
        (
            ELEM_IGNOREUNIMPLEMENTED,
            IGNORE_UNIMPLEMENTED,
            "Unimplemented instructions are now ignored (treated as nop)",
            "Unimplemented instructions now generate warnings",
        ),
        (
            ELEM_ERRORUNIMPLEMENTED,
            ERROR_UNIMPLEMENTED,
            "Unimplemented instructions are now a fatal error",
            "Unimplemented instructions now NOT a fatal error",
        ),
        (
            ELEM_ERRORREINTERPRETED,
            ERROR_REINTERPRETED,
            "Instruction reinterpretation is now a fatal error",
            "Instruction reinterpretation is now NOT a fatal error",
        ),
        (
            ELEM_ERRORTOOMANYINSTRUCTIONS,
            ERROR_TOOMANYINSTRUCTIONS,
            "Too many instructions are now a fatal error",
            "Too many instructions are now NOT a fatal error",
        ),
        (
            ELEM_JUMPLOAD,
            RECORD_JUMPLOADS,
            "Jumptable analysis will record loads required to calculate jump address",
            "Jumptable analysis will NOT record loads",
        ),
    ];
    let mut bits = 0;
    for (id, bit, on, _) in cases {
        assert_eq!(said(&mut a, id, "on", "", ""), on);
        bits |= bit;
        assert_eq!(a.basic.flowoptions, bits);
    }
    for (id, bit, _, off) in cases {
        assert_eq!(said(&mut a, id, "off", "", ""), off);
        bits &= !bit;
        assert_eq!(a.basic.flowoptions, bits);
    }
}

#[test]
fn the_language_is_chosen_by_name() {
    let mut a = arch();
    assert_eq!(said(&mut a, ELEM_SETLANGUAGE, "rust", "", ""), "Decompiler produces rust-language");
    assert_eq!(a.print.name, "rust-language");
    assert!(a.print_lang_known());
    assert_eq!(
        refused(&mut a, ELEM_SETLANGUAGE, "klingon", "", ""),
        (ErrorKind::Parse, "Unknown print language: klingon".to_string())
    );
    let e = a.set_print_language_checked("kli\"ngon").unwrap_err();
    assert_eq!(
        e.explain(),
        "unknown output language \"kli\\\"ngon\" (expected one of: c-language, rust, rust-language)"
    );
    a.set_print_language_checked("c-language").unwrap();
    assert!(a.print_is_c_language());
}

#[test]
fn limits_are_numbers() {
    let mut a = arch();
    assert_eq!(said(&mut a, ELEM_JUMPTABLEMAX, "2048", "", ""), "Maximum jumptable size set to 2048");
    assert_eq!(a.basic.max_jumptable_size, 2048);
    assert_eq!(
        refused(&mut a, ELEM_JUMPTABLEMAX, "zero", "", ""),
        (ErrorKind::Parse, "Must specify integer maximum".to_string())
    );
    assert_eq!(
        said(&mut a, ELEM_MAXINSTRUCTION, "3000000000", "", ""),
        "Maximum instructions per function set"
    );
    assert_eq!(a.basic.max_instructions, 2147483647);
    assert_eq!(
        refused(&mut a, ELEM_MAXINSTRUCTION, "-5", "", ""),
        (ErrorKind::Parse, "Bad maxinstruction parameter".to_string())
    );
    assert_eq!(
        refused(&mut a, ELEM_MAXINSTRUCTION, "  ", "", ""),
        (ErrorKind::Parse, "Bad maxinstruction parameter".to_string())
    );
    assert_eq!(
        refused(&mut a, ELEM_MAXINSTRUCTION, "", "", ""),
        (ErrorKind::Parse, "Must specify number of instructions".to_string())
    );
}

#[test]
fn rules_are_switched() {
    let mut a = arch();
    assert_eq!(
        said(&mut a, ELEM_TOGGLERULE, "earlyremoval", "off", ""),
        "Successfully disabled rule"
    );
    assert!(!a.allacts.groups.get("decompile").unwrap().get("earlyremoval").unwrap().enabled);
    assert_eq!(
        said(&mut a, ELEM_TOGGLERULE, "earlyremoval", "on", ""),
        "Successfully enabled rule"
    );
    assert_eq!(said(&mut a, ELEM_TOGGLERULE, "x", "off", ""), "Failed to disable rule");
    assert_eq!(said(&mut a, ELEM_TOGGLERULE, "x", "on", ""), "Failed to enable rule");
    assert_eq!(
        refused(&mut a, ELEM_TOGGLERULE, "", "on", "").1,
        "Must specify rule path"
    );
    assert_eq!(refused(&mut a, ELEM_TOGGLERULE, "x", "", "").1, "Must specify on/off");
    a.allacts.current = None;
    assert_eq!(
        refused(&mut a, ELEM_TOGGLERULE, "x", "on", ""),
        (ErrorKind::Lowlevel, "Missing current action".to_string())
    );
}

#[test]
fn alias_blocking_has_levels() {
    let mut a = arch();
    assert_eq!(said(&mut a, ELEM_ALIASBLOCK, "array", "", ""), "Alias block level unchanged");
    for (name, level) in [("none", 0), ("struct", 1), ("all", 3)] {
        assert_eq!(
            said(&mut a, ELEM_ALIASBLOCK, name, "", ""),
            format!("Alias block level set to {name}")
        );
        assert_eq!(a.basic.alias_block_level, level);
    }
    assert_eq!(
        refused(&mut a, ELEM_ALIASBLOCK, "", "", "").1,
        "Must specify alias block level"
    );
    assert_eq!(
        refused(&mut a, ELEM_ALIASBLOCK, "some", "", "").1,
        "Unknown alias block level: some"
    );
}

#[test]
fn namespaces_have_a_strategy() {
    let mut a = arch();
    assert_eq!(said(&mut a, ELEM_NAMESPACESTRATEGY, "all", "", ""), "Namespace strategy set");
    assert_eq!(a.print.settings.namespaces, NamespaceStrategy::All);
    said(&mut a, ELEM_NAMESPACESTRATEGY, "none", "", "");
    assert_eq!(a.print.settings.namespaces, NamespaceStrategy::Never);
    said(&mut a, ELEM_NAMESPACESTRATEGY, "minimal", "", "");
    assert_eq!(a.print.settings.namespaces, NamespaceStrategy::Minimal);
    assert_eq!(
        refused(&mut a, ELEM_NAMESPACESTRATEGY, "", "", ""),
        (ErrorKind::Parse, "Must specify a valid strategy".to_string())
    );
}

#[test]
fn data_types_are_split_as_asked() {
    let mut a = arch();
    assert_eq!(
        said(&mut a, ELEM_SPLITDATATYPE, "struct", "pointer", ""),
        "Split data-type configuration set"
    );
    assert_eq!(a.basic.split_datatype_config, 5);
    assert_eq!(
        said(&mut a, ELEM_SPLITDATATYPE, "pointer", "struct", "pointer"),
        "Split data-type configuration unchanged"
    );
    assert_eq!(
        said(&mut a, ELEM_SPLITDATATYPE, "", "", "pointer"),
        "Split data-type configuration set"
    );
    assert_eq!(a.basic.split_datatype_config, 4);
    let log: Vec<(&str, bool)> =
        a.allacts.toggles.iter().map(|t| (t.sub.as_str(), t.on)).collect();
    assert_eq!(
        log,
        vec![
            ("splitcopy", true),
            ("splitpointer", true),
            ("splitcopy", true),
            ("splitpointer", true),
            ("splitcopy", false),
            ("splitpointer", false),
        ]
    );
    assert_eq!(
        refused(&mut a, ELEM_SPLITDATATYPE, "struct", "union", "x"),
        (ErrorKind::Lowlevel, "Unknown data-type split option: union".to_string())
    );
    assert_eq!(a.basic.split_datatype_config, 4);
    assert_eq!(OptionSplitDatatypes::get_option_bit("array").unwrap(), 2);
    assert_eq!(OptionSplitDatatypes::get_option_bit("").unwrap(), 0);
}

#[test]
fn nan_tests_are_replaced_as_asked() {
    let mut a = arch();
    assert_eq!(said(&mut a, ELEM_NANIGNORE, "compare", "", ""), "NaN ignore configuration unchanged");
    assert_eq!(
        said(&mut a, ELEM_NANIGNORE, "none", "", ""),
        "Nan ignore configuration set to: none"
    );
    assert!(!a.basic.nan_ignore_all && !a.basic.nan_ignore_compare);
    assert!(!a.allacts.groups.get("decompile").unwrap().get("ignorenan").unwrap().enabled);
    said(&mut a, ELEM_NANIGNORE, "all", "", "");
    assert!(a.basic.nan_ignore_all && a.basic.nan_ignore_compare);
    assert!(a.allacts.groups.get("decompile").unwrap().get("ignorenan").unwrap().enabled);
    assert_eq!(
        refused(&mut a, ELEM_NANIGNORE, "some", "", ""),
        (ErrorKind::Lowlevel, "Unknown nanignore option: some".to_string())
    );
}
