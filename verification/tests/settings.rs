use kuna_decomp::error::{ErrorKind, KunaError};
use kuna_decomp::option_table::{
    ANALYSIS_DYNRELOCS, ANALYSIS_LIBCTYPES, ANALYSIS_LIBCTYPES_GLIBC, ANALYSIS_PDB,
    ANALYSIS_SYMBOLNAMECHARS, ARRAY_NOTATION, CHAR_PTR, FLAG_COUNT, FLAG_DEFAULTS, FLAG_OPTIONS,
    INFER_FUNCENTRY,
    INT3_PAD, KUNA_OPTIONS, LEVEL_COUNT, LEVEL_DEFAULTS, LEVEL_OPTIONS, LIBC_TYPES, MACHO_ARM64E,
    MAX_IMPLIED_REF, MUL_BLOB, OPTION_COUNT, PRESERVE_THUMB_FUNCPTR, TAIL_CALL_JUMPS,
};
use kuna_decomp::settings::{
    find_option, KunaSettings, LibcTypesLayout, LoaderSetting, Mode, ModeOverride,
    OptionAnswer,
};

fn toggle(s: &mut KunaSettings, name: &str, value: &str) -> Result<String, KunaError> {
    s.set_kuna_option(name, value, &OptionAnswer::NotAsked).map(|r| r.message)
}

fn over(option: &str, value: &str, answer: OptionAnswer) -> ModeOverride {
    ModeOverride { option: option.to_string(), value: value.to_string(), answer }
}

#[test]
fn fresh_settings_have_their_defaults() {
    let s = KunaSettings::new();
    assert!(s.flags[INFER_FUNCENTRY]);
    assert!(s.flags[TAIL_CALL_JUMPS]);
    assert!(s.flags[ANALYSIS_PDB]);
    assert!(!s.flags[MACHO_ARM64E]);
    assert!(!s.flags[CHAR_PTR]);
    assert_eq!(s.levels[MAX_IMPLIED_REF], 2);
    assert_eq!(s.levels[INT3_PAD], 1);
    assert_eq!(s.outline_spec, "");
    assert_eq!(s.symbol_name_bound, Some(256));
    for i in 0..FLAG_COUNT {
        assert_eq!(s.flags[i], FLAG_DEFAULTS[i]);
    }
    for i in 0..LEVEL_COUNT {
        assert_eq!(s.levels[i], LEVEL_DEFAULTS[i]);
    }
    assert!(s.print_flags.iter().all(|f| f.is_none()));
}

#[test]
fn every_option_is_found_under_its_name() {
    for i in 0..OPTION_COUNT {
        assert_eq!(find_option(KUNA_OPTIONS[i].0), Some(i));
    }
    assert_eq!(find_option("thumbfuncptrs"), None);
    assert_eq!(find_option(""), None);
    assert_eq!(OPTION_COUNT, 224);
}

#[test]
fn a_toggle_writes_its_switch_and_says_so() {
    let mut s = KunaSettings::new();
    assert_eq!(
        toggle(&mut s, "thumbfuncptr", "off").unwrap(),
        "Thumb function-pointer preservation turned off"
    );
    assert!(!s.flags[PRESERVE_THUMB_FUNCPTR]);
    assert_eq!(
        toggle(&mut s, "thumbfuncptr", "").unwrap(),
        "Thumb function-pointer preservation turned on"
    );
    assert!(s.flags[PRESERVE_THUMB_FUNCPTR]);
    assert_eq!(
        toggle(&mut s, "noreturn_reach", "off").unwrap(),
        "CFG-reachability no-return rule (Ghidra targetOnlyCallsNoReturn) turned off"
    );
}

#[test]
fn a_toggle_leaves_the_other_settings() {
    let before = KunaSettings::new();
    let mut s = KunaSettings::new();
    toggle(&mut s, "macho-arm64e", "on").unwrap();
    for i in 0..FLAG_COUNT {
        assert_eq!(s.flags[i], if i == MACHO_ARM64E { true } else { before.flags[i] });
    }
    assert_eq!(s.levels, before.levels);
}

#[test]
fn a_bad_toggle_value_changes_nothing() {
    let mut s = KunaSettings::new();
    let e = toggle(&mut s, "inferfuncentry", "maybe").unwrap_err();
    assert_eq!(e.kind, ErrorKind::Parse);
    assert_eq!(e.explain(), "Must specify toggle value, on/off");
    assert!(s.flags[INFER_FUNCENTRY]);
}

#[test]
fn an_unknown_option_is_refused() {
    let mut s = KunaSettings::new();
    let e = toggle(&mut s, "nosuch", "on").unwrap_err();
    assert_eq!(e.kind, ErrorKind::Parse);
    assert_eq!(e.explain(), "Unknown kuna option: nosuch");
}

#[test]
fn the_last_value_of_an_option_stands() {
    let mut s = KunaSettings::new();
    toggle(&mut s, "charptr", "on").unwrap();
    toggle(&mut s, "charptr", "off").unwrap();
    toggle(&mut s, "charptr", "on").unwrap();
    assert!(s.flags[CHAR_PTR]);
}

#[test]
fn a_loader_toggle_tells_the_loader() {
    let mut s = KunaSettings::new();
    let r = s.set_kuna_option("dynrelocs", "off", &OptionAnswer::NotAsked).unwrap();
    assert_eq!(r.message, "linked-image dynamic-relocation application turned off");
    assert_eq!(r.loader, Some(LoaderSetting::Switch(ANALYSIS_DYNRELOCS, false)));
    assert!(!s.flags[ANALYSIS_DYNRELOCS]);
}

#[test]
fn relocatable_objects_are_the_loaders_affair() {
    let mut s = KunaSettings::new();
    let before = s.flags;
    let r = s.set_kuna_option("relocobjects", "off", &OptionAnswer::NotAsked).unwrap();
    assert_eq!(r.message, "ET_REL relocatable-object loading turned off");
    assert_eq!(r.loader, Some(LoaderSetting::RelocObjects(false)));
    assert_eq!(s.flags, before);
    assert!(toggle(&mut s, "relocobjects", "x").is_err());
}

#[test]
fn parsed_options_take_the_answer_of_their_parser() {
    let mut s = KunaSettings::new();
    let r = s
        .set_kuna_option("mulblob", "off", &OptionAnswer::Flag(false, "blob off".to_string()))
        .unwrap();
    assert_eq!(r.message, "blob off");
    assert!(!s.flags[MUL_BLOB]);
    let r = s
        .set_kuna_option("impliedrefs", "7", &OptionAnswer::Level(7, "seven".to_string()))
        .unwrap();
    assert_eq!(r.message, "seven");
    assert_eq!(s.levels[MAX_IMPLIED_REF], 7);
    s.set_kuna_option("arraynotation", "on", &OptionAnswer::Flag(true, String::new())).unwrap();
    assert_eq!(s.print_flags[ARRAY_NOTATION], Some(true));
    s.set_kuna_option("outline", "f", &OptionAnswer::Text("f:1-2".to_string(), "ok".to_string()))
        .unwrap();
    assert_eq!(s.outline_spec, "f:1-2");
    let r = s
        .set_kuna_option("symbolnamebound", "off", &OptionAnswer::Bound(None, "no bound".to_string()))
        .unwrap();
    assert_eq!(s.symbol_name_bound, None);
    assert_eq!(r.loader, Some(LoaderSetting::NameBound(None)));
}

#[test]
fn a_refused_answer_changes_nothing() {
    let mut s = KunaSettings::new();
    for name in ["mulblob", "impliedrefs", "truthycond", "outline", "symbolnamebound"] {
        let refused = OptionAnswer::Refused(KunaError::lowlevel("no".to_string()));
        let e = s.set_kuna_option(name, "?", &refused).unwrap_err();
        assert_eq!(e.kind, ErrorKind::Lowlevel);
        assert_eq!(e.explain(), "no");
    }
    let fresh = KunaSettings::new();
    assert_eq!(s.flags, fresh.flags);
    assert_eq!(s.levels, fresh.levels);
    assert_eq!(s.print_flags, fresh.print_flags);
    assert_eq!(s.outline_spec, fresh.outline_spec);
    assert_eq!(s.symbol_name_bound, fresh.symbol_name_bound);
}

#[test]
fn symbol_name_characters_are_told_to_the_loader() {
    let mut s = KunaSettings::new();
    let r = s
        .set_kuna_option("symbolnamechars", "ident", &OptionAnswer::NameChars(2, "ident".to_string()))
        .unwrap();
    assert_eq!(r.message, "symbol-name character sanitizing set to ident");
    assert_eq!(r.loader, Some(LoaderSetting::NameChars(2)));
    assert_eq!(s.levels[ANALYSIS_SYMBOLNAMECHARS], 2);
    let refused = OptionAnswer::Refused(KunaError::parse(String::new()));
    let e = s.set_kuna_option("symbolnamechars", "all", &refused).unwrap_err();
    assert_eq!(e.kind, ErrorKind::Lowlevel);
    assert_eq!(e.explain(), "symbolnamechars must be off|safe|ident, got `all`");
    assert_eq!(s.levels[ANALYSIS_SYMBOLNAMECHARS], 2);
}

#[test]
fn library_types_have_three_layouts() {
    let mut s = KunaSettings::new();
    assert_eq!(
        toggle(&mut s, "libctypes", " GLIBC ").unwrap(),
        "Named libc aggregate types turned on (glibc layouts)"
    );
    assert!(s.flags[ANALYSIS_LIBCTYPES] && s.flags[ANALYSIS_LIBCTYPES_GLIBC]);
    assert_eq!(
        toggle(&mut s, "libctypes", "True").unwrap(),
        "Named libc aggregate types turned on (opaque)"
    );
    assert!(s.flags[ANALYSIS_LIBCTYPES] && !s.flags[ANALYSIS_LIBCTYPES_GLIBC]);
    let r = s.set_kuna_option("libctypes", "0", &OptionAnswer::NotAsked).unwrap();
    assert_eq!(r.message, "Named libc aggregate types turned off");
    assert_eq!(r.loader, Some(LoaderSetting::LibcTypes(LibcTypesLayout::Off)));
    assert!(!s.flags[ANALYSIS_LIBCTYPES] && !s.flags[ANALYSIS_LIBCTYPES_GLIBC]);
    let e = toggle(&mut s, "libctypes", "MUSL").unwrap_err();
    assert_eq!(e.kind, ErrorKind::Lowlevel);
    assert_eq!(
        e.explain(),
        "libctypes: expected `off`, `opaque` or `glibc`, got `musl`"
    );
    assert_eq!(KUNA_OPTIONS[find_option("libctypes").unwrap()].1, LIBC_TYPES);
}

#[test]
fn an_unfit_answer_is_refused() {
    let mut s = KunaSettings::new();
    let before = s.flags;
    for (name, answer) in [
        ("mulblob", OptionAnswer::Level(1, String::new())),
        ("impliedrefs", OptionAnswer::NotAsked),
        ("outline", OptionAnswer::Flag(true, String::new())),
        ("symbolnamebound", OptionAnswer::NotAsked),
        ("truthycond", OptionAnswer::NotAsked),
    ] {
        let e = s.set_kuna_option(name, "on", &answer).unwrap_err();
        assert_eq!(e.kind, ErrorKind::Lowlevel);
        assert_eq!(e.explain(), "Option value was not parsed");
    }
    assert_eq!(s.flags, before);
    let flag = OptionAnswer::Flag(false, "not looked at".to_string());
    let r = s.set_kuna_option("charptr", "on", &flag).unwrap();
    assert_eq!(r.message, "character-pointer evidence turned on");
}

#[test]
fn options_on_different_settings_commute() {
    let mut a = KunaSettings::new();
    let mut b = KunaSettings::new();
    toggle(&mut a, "charptr", "on").unwrap();
    toggle(&mut a, "pdb", "off").unwrap();
    toggle(&mut b, "pdb", "off").unwrap();
    toggle(&mut b, "charptr", "on").unwrap();
    assert_eq!(a.flags, b.flags);
}

#[test]
fn every_setting_belongs_to_one_option() {
    for f in 0..FLAG_COUNT {
        let row = KUNA_OPTIONS[FLAG_OPTIONS[f]];
        assert!(
            row.1 == LIBC_TYPES || row.2 == f,
            "switch {f} and option {}",
            row.0
        );
    }
    for l in 0..LEVEL_COUNT {
        assert_eq!(KUNA_OPTIONS[LEVEL_OPTIONS[l]].2, l);
    }
    for i in 1..OPTION_COUNT {
        assert!(KUNA_OPTIONS[i - 1].0 < KUNA_OPTIONS[i].0);
    }
}

#[test]
fn a_reset_keeps_only_the_printers_switches() {
    let mut s = KunaSettings::new();
    toggle(&mut s, "charptr", "on").unwrap();
    toggle(&mut s, "pdb", "off").unwrap();
    s.set_kuna_option("impliedrefs", "9", &OptionAnswer::Level(9, String::new())).unwrap();
    s.set_kuna_option("outline", "x", &OptionAnswer::Text("x".to_string(), String::new())).unwrap();
    s.set_kuna_option("structdefs", "on", &OptionAnswer::Flag(true, String::new())).unwrap();
    s.reset();
    assert!(!s.flags[CHAR_PTR]);
    assert!(s.flags[ANALYSIS_PDB]);
    assert_eq!(s.flags, FLAG_DEFAULTS);
    assert_eq!(s.levels[MAX_IMPLIED_REF], 2);
    assert_eq!(s.outline_spec, "");
    assert_eq!(s.print_flags.iter().filter(|f| f.is_some()).count(), 1);
    let once = s.flags;
    s.reset();
    assert_eq!(s.flags, once);
    s.reset_all();
    assert!(s.print_flags.iter().all(|f| f.is_none()));
    assert_eq!(s.flags, once);
}

#[test]
fn a_mode_applies_its_overrides_in_order() {
    let modes = vec![
        Mode { name: "reliable".to_string(), overrides: vec![] },
        Mode {
            name: "aggressive".to_string(),
            overrides: vec![
                over("charptr", "on", OptionAnswer::NotAsked),
                over("dynrelocs", "off", OptionAnswer::NotAsked),
                over("charptr", "off", OptionAnswer::NotAsked),
            ],
        },
        Mode {
            name: "fast".to_string(),
            overrides: vec![over("pdb", "off", OptionAnswer::NotAsked)],
        },
    ];
    let mut s = KunaSettings::new();
    let mut loader = Vec::new();
    assert_eq!(
        s.apply_mode("reliable", &modes, &mut loader).unwrap(),
        "mode reliable applied (0 option overrides)"
    );
    assert_eq!(s.flags, KunaSettings::new().flags);
    assert_eq!(
        s.apply_mode("fast", &modes, &mut loader).unwrap(),
        "mode fast applied (1 option override)"
    );
    assert!(!s.flags[ANALYSIS_PDB]);
    assert!(loader.is_empty());
    assert_eq!(
        s.apply_mode("aggressive", &modes, &mut loader).unwrap(),
        "mode aggressive applied (3 option overrides)"
    );
    assert!(!s.flags[CHAR_PTR]);
    assert_eq!(loader, vec![LoaderSetting::Switch(ANALYSIS_DYNRELOCS, false)]);
    toggle(&mut s, "dynrelocs", "on").unwrap();
    assert!(s.flags[ANALYSIS_DYNRELOCS]);
}

#[test]
fn unknown_and_automatic_modes_are_refused() {
    let modes = vec![
        Mode { name: "reliable".to_string(), overrides: vec![] },
        Mode { name: "fast".to_string(), overrides: vec![] },
    ];
    let mut s = KunaSettings::new();
    let mut loader = Vec::new();
    let e = s.apply_mode("auto", &modes, &mut loader).unwrap_err();
    assert_eq!(
        e.explain(),
        "Decompiler mode auto requires input binary size; resolve it in a file frontend"
    );
    let e = s.apply_mode("slow", &modes, &mut loader).unwrap_err();
    assert_eq!(e.kind, ErrorKind::Parse);
    assert_eq!(e.explain(), "Unknown decompiler mode: slow (known: reliable, fast)");
}

#[test]
fn a_failing_override_ends_the_mode() {
    let modes = vec![Mode {
        name: "odd".to_string(),
        overrides: vec![
            over("charptr", "on", OptionAnswer::NotAsked),
            over("pdb", "perhaps", OptionAnswer::NotAsked),
            over("macho-arm64e", "on", OptionAnswer::NotAsked),
        ],
    }];
    let mut s = KunaSettings::new();
    let mut loader = Vec::new();
    let e = s.apply_mode("odd", &modes, &mut loader).unwrap_err();
    assert_eq!(e.explain(), "Must specify toggle value, on/off");
    assert!(s.flags[CHAR_PTR]);
    assert!(!s.flags[MACHO_ARM64E]);
}
