//! The settings that the named options write, and the rule by which an option
//! writes them.

use vstd::prelude::*;
use vstd::string::*;
use crate::error::{lowlevel_failure, parse_failure, text_outcome, Failure, KunaError};
use crate::option_table::{
    ANALYSIS_LIBCTYPES, ANALYSIS_LIBCTYPES_GLIBC, DEFAULT_SCOPE_DEPTH, FLAG_COUNT, FLAG_DEFAULTS,
    KUNA_OPTIONS, LEVEL_COUNT, LEVEL_DEFAULTS, LIBC_TYPES, LOADER_TOGGLE, NAME_BOUND, NAME_CHARS,
    OPTION_COUNT, OUTLINE, PARSED_FLAG, PARSED_LEVEL, PRINT_FLAG, PRINT_FLAG_COUNT, RELOC_OBJECTS,
    TOGGLE,
};
use crate::text::{decimal, decimal_text, join2, join3, lowered, same_text, to_lower, trim, trimmed};
use crate::toggle::{on_or_off, toggle_value};

verus! {

/// How the library aggregates of the C runtime are typed.
#[derive(Debug, Clone, Copy, PartialEq, Eq, Structural)]
pub enum LibcTypesLayout {
    /// Not at all.
    Off,
    /// By name, without fields.
    Opaque,
    /// With the field layouts of glibc.
    Glibc,
}

/// What the loader is to be told: it has run before an option is applied, so the
/// value takes effect at the next load.
#[derive(Debug, Clone, Copy, PartialEq, Eq, Structural)]
pub enum LoaderSetting {
    /// The switch of this index is now on or off.
    Switch(usize, bool),
    /// How library aggregates are typed.
    LibcTypes(LibcTypesLayout),
    /// Which characters a symbol name may hold.
    NameChars(i32),
    /// How deep the scopes of a symbol name may nest.
    NameBound(Option<usize>),
    /// Whether relocatable objects are loaded.
    RelocObjects(bool),
}

/// What the parser of an option's own made of its value.
#[derive(Debug)]
pub enum OptionAnswer {
    /// The option has no parser of its own.
    NotAsked,
    /// The value was refused.
    Refused(KunaError),
    /// A truth value and the confirmation message.
    Flag(bool, String),
    /// A number and the confirmation message.
    Level(i32, String),
    /// A text and the confirmation message.
    Text(String, String),
    /// A ceiling, or none, and the confirmation message.
    Bound(Option<usize>, String),
    /// A character set and its name.
    NameChars(i32, String),
}

/// What setting an option reports: the confirmation message, and what the loader
/// has to be told.
#[derive(Debug)]
pub struct OptionReport {
    pub message: String,
    pub loader: Option<LoaderSetting>,
}

/// What contracts say of an [`OptionReport`].
pub struct Report {
    pub message: Seq<char>,
    pub loader: Option<LoaderSetting>,
}

impl View for OptionReport {
    type V = Report;

    open spec fn view(&self) -> Report {
        Report { message: self.message@, loader: self.loader }
    }
}

/// What contracts say of the result of setting an option.
pub open spec fn report_outcome(r: Result<OptionReport, KunaError>) -> Result<Report, Failure> {
    match r {
        Ok(v) => Ok(v@),
        Err(e) => Err(e@),
    }
}

/// The settings that the named options write.
pub struct KunaSettings {
    /// The switches, by index.
    pub flags: [bool; FLAG_COUNT],
    /// The levels, by index.
    pub levels: [i32; LEVEL_COUNT],
    /// The printer's switches, by index; `None` leaves the printer's own choice.
    pub print_flags: [Option<bool>; PRINT_FLAG_COUNT],
    /// The region to outline; empty for none.
    pub outline_spec: String,
    /// How deep the scopes of a symbol name may nest; `None` for no ceiling.
    pub symbol_name_bound: Option<usize>,
}

/// What contracts say of [`KunaSettings`].
#[verifier::ext_equal]
pub struct Settings {
    pub flags: Seq<bool>,
    pub levels: Seq<i32>,
    pub print_flags: Seq<Option<bool>>,
    pub outline_spec: Seq<char>,
    pub symbol_name_bound: Option<usize>,
}

impl View for KunaSettings {
    type V = Settings;

    open spec fn view(&self) -> Settings {
        Settings {
            flags: self.flags@,
            levels: self.levels@,
            print_flags: self.print_flags@,
            outline_spec: self.outline_spec@,
            symbol_name_bound: self.symbol_name_bound,
        }
    }
}

/// The first row, from row `i` on, that has this name.
pub open spec fn row_from(name: Seq<char>, i: int) -> Option<int>
    decreases OPTION_COUNT - i,
{
    if i < 0 || i >= OPTION_COUNT {
        None
    } else if KUNA_OPTIONS@[i].0@ == name {
        Some(i)
    } else {
        row_from(name, i + 1)
    }
}

/// The row of the option with this name.
pub open spec fn row_of(name: Seq<char>) -> Option<int> {
    row_from(name, 0)
}

/// The row of the option with this name.
pub fn find_option(name: &str) -> (r: Option<usize>)
    ensures
        match r {
            Some(i) => i < OPTION_COUNT && row_of(name@) == Some(i as int),
            None => row_of(name@) is None,
        },
        r is Some <==> row_of(name@) is Some,
{
    let mut i: usize = 0;
    while i < OPTION_COUNT
        invariant
            i <= OPTION_COUNT,
            row_of(name@) == row_from(name@, i as int),
        decreases OPTION_COUNT - i,
    {
        if same_text(KUNA_OPTIONS[i].0, name) {
            return Some(i);
        }
        i += 1;
    }
    None
}

/// `label`, then whether it is now on or off.
pub open spec fn turned(label: Seq<char>, on: bool) -> Seq<char> {
    label + if on {
        " turned on"@
    } else {
        " turned off"@
    }
}

fn turned_text(label: &str, on: bool) -> (r: String)
    ensures
        r@ == turned(label@, on),
{
    if on {
        join2(label, " turned on")
    } else {
        join2(label, " turned off")
    }
}

/// The settings with one switch changed.
pub open spec fn with_flag(c: Settings, flag: int, on: bool) -> Settings {
    Settings { flags: c.flags.update(flag, on), ..c }
}

/// The settings with one level changed.
pub open spec fn with_level(c: Settings, level: int, v: i32) -> Settings {
    Settings { levels: c.levels.update(level, v), ..c }
}

/// The layout that a value of `libctypes` names; white space at its ends and the
/// case of its letters do not matter.
pub open spec fn libc_layout(p: Seq<char>) -> Option<LibcTypesLayout> {
    let t = lowered(trimmed(p));
    if t == "opaque"@ || t == "on"@ || t == "1"@ || t == "true"@ {
        Some(LibcTypesLayout::Opaque)
    } else if t == "glibc"@ {
        Some(LibcTypesLayout::Glibc)
    } else if t == "off"@ || t == "0"@ || t == "false"@ {
        Some(LibcTypesLayout::Off)
    } else {
        None
    }
}

fn read_libc_layout(p: &str) -> (r: Result<LibcTypesLayout, KunaError>)
    ensures
        match r {
            Ok(layout) => libc_layout(p@) == Some(layout),
            Err(e) => libc_layout(p@) is None && e@ == lowlevel_failure(
                "libctypes: expected `off`, `opaque` or `glibc`, got `"@ + lowered(trimmed(p@))
                    + "`"@,
            ),
        },
{
    let t = to_lower(trim(p));
    let t = t.as_str();
    if same_text(t, "opaque") || same_text(t, "on") || same_text(t, "1") || same_text(t, "true") {
        Ok(LibcTypesLayout::Opaque)
    } else if same_text(t, "glibc") {
        Ok(LibcTypesLayout::Glibc)
    } else if same_text(t, "off") || same_text(t, "0") || same_text(t, "false") {
        Ok(LibcTypesLayout::Off)
    } else {
        Err(
            KunaError::lowlevel(
                join3("libctypes: expected `off`, `opaque` or `glibc`, got `", t, "`"),
            ),
        )
    }
}

/// The message that confirms a layout.
pub open spec fn libc_message(layout: LibcTypesLayout) -> Seq<char> {
    "Named libc aggregate types turned "@ + match layout {
        LibcTypesLayout::Off => "off"@,
        LibcTypesLayout::Opaque => "on (opaque)"@,
        LibcTypesLayout::Glibc => "on (glibc layouts)"@,
    }
}

/// The failure where a parser refused the value, or where its answer is not of the kind
/// that the option takes.
pub open spec fn refusal(answer: OptionAnswer) -> Failure {
    match answer {
        OptionAnswer::Refused(e) => e@,
        _ => lowlevel_failure("Option value was not parsed"@),
    }
}

/// A report with nothing for the loader.
pub open spec fn plain_report(message: Seq<char>) -> Report {
    Report { message, loader: None }
}

/// The settings after the option of this row was given the value `p1`, of which the
/// option's own parser made `answer`, and what is reported.
pub open spec fn row_effect(c: Settings, row: int, p1: Seq<char>, answer: OptionAnswer) -> (
    Settings,
    Result<Report, Failure>,
) {
    let kind = KUNA_OPTIONS@[row].1;
    let slot = KUNA_OPTIONS@[row].2;
    let label = KUNA_OPTIONS@[row].3@;
    if kind == TOGGLE {
        match toggle_value(p1) {
            Ok(on) => (with_flag(c, slot as int, on), Ok(plain_report(turned(label, on)))),
            Err(e) => (c, Err(e)),
        }
    } else if kind == LOADER_TOGGLE {
        match toggle_value(p1) {
            Ok(on) => (
                with_flag(c, slot as int, on),
                Ok(
                    Report {
                        message: turned(label, on),
                        loader: Some(LoaderSetting::Switch(slot, on)),
                    },
                ),
            ),
            Err(e) => (c, Err(e)),
        }
    } else if kind == RELOC_OBJECTS {
        match toggle_value(p1) {
            Ok(on) => (
                c,
                Ok(
                    Report {
                        message: turned(label, on),
                        loader: Some(LoaderSetting::RelocObjects(on)),
                    },
                ),
            ),
            Err(e) => (c, Err(e)),
        }
    } else if kind == LIBC_TYPES {
        match libc_layout(p1) {
            Some(layout) => (
                with_flag(
                    with_flag(c, ANALYSIS_LIBCTYPES as int, layout != LibcTypesLayout::Off),
                    ANALYSIS_LIBCTYPES_GLIBC as int,
                    layout == LibcTypesLayout::Glibc,
                ),
                Ok(
                    Report {
                        message: libc_message(layout),
                        loader: Some(LoaderSetting::LibcTypes(layout)),
                    },
                ),
            ),
            None => (
                c,
                Err(
                    lowlevel_failure(
                        "libctypes: expected `off`, `opaque` or `glibc`, got `"@ + lowered(
                            trimmed(p1),
                        ) + "`"@,
                    ),
                ),
            ),
        }
    } else if kind == PARSED_FLAG {
        match answer {
            OptionAnswer::Flag(on, msg) => (
                with_flag(c, slot as int, on),
                Ok(plain_report(msg@)),
            ),
            _ => (c, Err(refusal(answer))),
        }
    } else if kind == PRINT_FLAG {
        match answer {
            OptionAnswer::Flag(on, msg) => (
                Settings { print_flags: c.print_flags.update(slot as int, Some(on)), ..c },
                Ok(plain_report(msg@)),
            ),
            _ => (c, Err(refusal(answer))),
        }
    } else if kind == PARSED_LEVEL {
        match answer {
            OptionAnswer::Level(v, msg) => (
                with_level(c, slot as int, v),
                Ok(plain_report(msg@)),
            ),
            _ => (c, Err(refusal(answer))),
        }
    } else if kind == OUTLINE {
        match answer {
            OptionAnswer::Text(t, msg) => (
                Settings { outline_spec: t@, ..c },
                Ok(plain_report(msg@)),
            ),
            _ => (c, Err(refusal(answer))),
        }
    } else if kind == NAME_BOUND {
        match answer {
            OptionAnswer::Bound(b, msg) => (
                Settings { symbol_name_bound: b, ..c },
                Ok(Report { message: msg@, loader: Some(LoaderSetting::NameBound(b)) }),
            ),
            _ => (c, Err(refusal(answer))),
        }
    } else {
        match answer {
            OptionAnswer::NameChars(v, mode) => (
                with_level(c, slot as int, v),
                Ok(
                    Report {
                        message: label + " set to "@ + mode@,
                        loader: Some(LoaderSetting::NameChars(v)),
                    },
                ),
            ),
            _ => (
                c,
                Err(
                    lowlevel_failure(
                        "symbolnamechars must be off|safe|ident, got `"@ + p1 + "`"@,
                    ),
                ),
            ),
        }
    }
}

/// The settings after the option of this name was given the value `p1`, of which the
/// option's own parser made `answer`, and what is reported. An unknown name is
/// refused and changes nothing.
pub open spec fn option_effect(
    c: Settings,
    name: Seq<char>,
    p1: Seq<char>,
    answer: OptionAnswer,
) -> (Settings, Result<Report, Failure>) {
    match row_of(name) {
        Some(row) => row_effect(c, row, p1, answer),
        None => (c, Err(parse_failure("Unknown kuna option: "@ + name))),
    }
}

/// Whether every row writes a setting that exists.
pub open spec fn row_slot_exists(row: int) -> bool {
    let kind = KUNA_OPTIONS@[row].1;
    let slot = KUNA_OPTIONS@[row].2;
    &&& kind <= RELOC_OBJECTS
    &&& (kind == TOGGLE || kind == LOADER_TOGGLE || kind == PARSED_FLAG) ==> slot < FLAG_COUNT
    &&& (kind == PARSED_LEVEL || kind == NAME_CHARS) ==> slot < LEVEL_COUNT
    &&& kind == PRINT_FLAG ==> slot < PRINT_FLAG_COUNT
}

/// Every row writes a setting that exists.
pub proof fn lemma_row_slot_exists(row: int)
    requires
        0 <= row < OPTION_COUNT,
    ensures
        row_slot_exists(row),
{
}

impl KunaSettings {
    /// Give the option of this name the value `p1`. `answer` is what the option's
    /// own parser made of the value, where it has one.
    pub fn set_kuna_option(&mut self, name: &str, p1: &str, answer: &OptionAnswer) -> (r: Result<
        OptionReport,
        KunaError,
    >)
        ensures
            (final(self)@, report_outcome(r)) == option_effect(old(self)@, name@, p1@, *answer),
    {
        match find_option(name) {
            None => Err(KunaError::parse(join2("Unknown kuna option: ", name))),
            Some(row) => self.set_row(row, p1, answer),
        }
    }

    fn set_row(&mut self, row: usize, p1: &str, answer: &OptionAnswer) -> (r: Result<
        OptionReport,
        KunaError,
    >)
        requires
            row < OPTION_COUNT,
        ensures
            (final(self)@, report_outcome(r)) == row_effect(old(self)@, row as int, p1@, *answer),
    {
        proof {
            lemma_row_slot_exists(row as int);
        }
        let kind: u8 = KUNA_OPTIONS[row].1;
        let slot: usize = KUNA_OPTIONS[row].2;
        let label = KUNA_OPTIONS[row].3;
        if kind == TOGGLE {
            match on_or_off(p1) {
                Ok(on) => {
                    self.flags[slot] = on;
                    Ok(OptionReport { message: turned_text(label, on), loader: None })
                },
                Err(e) => Err(e),
            }
        } else if kind == LOADER_TOGGLE {
            match on_or_off(p1) {
                Ok(on) => {
                    self.flags[slot] = on;
                    Ok(
                        OptionReport {
                            message: turned_text(label, on),
                            loader: Some(LoaderSetting::Switch(slot, on)),
                        },
                    )
                },
                Err(e) => Err(e),
            }
        } else if kind == RELOC_OBJECTS {
            match on_or_off(p1) {
                Ok(on) => Ok(
                    OptionReport {
                        message: turned_text(label, on),
                        loader: Some(LoaderSetting::RelocObjects(on)),
                    },
                ),
                Err(e) => Err(e),
            }
        } else if kind == LIBC_TYPES {
            self.set_libc_types(p1)
        } else if kind == PARSED_FLAG {
            match answer {
                OptionAnswer::Flag(on, msg) => {
                    self.flags[slot] = *on;
                    Ok(OptionReport { message: msg.clone(), loader: None })
                },
                _ => Err(refused(answer)),
            }
        } else if kind == PRINT_FLAG {
            match answer {
                OptionAnswer::Flag(on, msg) => {
                    self.print_flags[slot] = Some(*on);
                    Ok(OptionReport { message: msg.clone(), loader: None })
                },
                _ => Err(refused(answer)),
            }
        } else if kind == PARSED_LEVEL {
            match answer {
                OptionAnswer::Level(v, msg) => {
                    self.levels[slot] = *v;
                    Ok(OptionReport { message: msg.clone(), loader: None })
                },
                _ => Err(refused(answer)),
            }
        } else if kind == OUTLINE {
            match answer {
                OptionAnswer::Text(t, msg) => {
                    self.outline_spec = t.clone();
                    Ok(OptionReport { message: msg.clone(), loader: None })
                },
                _ => Err(refused(answer)),
            }
        } else if kind == NAME_BOUND {
            match answer {
                OptionAnswer::Bound(b, msg) => {
                    self.symbol_name_bound = *b;
                    Ok(
                        OptionReport {
                            message: msg.clone(),
                            loader: Some(LoaderSetting::NameBound(*b)),
                        },
                    )
                },
                _ => Err(refused(answer)),
            }
        } else {
            match answer {
                OptionAnswer::NameChars(v, mode) => {
                    self.levels[slot] = *v;
                    Ok(
                        OptionReport {
                            message: join3(label, " set to ", mode.as_str()),
                            loader: Some(LoaderSetting::NameChars(*v)),
                        },
                    )
                },
                _ => Err(
                    KunaError::lowlevel(
                        join3("symbolnamechars must be off|safe|ident, got `", p1, "`"),
                    ),
                ),
            }
        }
    }

    fn set_libc_types(&mut self, p1: &str) -> (r: Result<OptionReport, KunaError>)
        ensures
            match libc_layout(p1@) {
                Some(layout) => final(self)@ == with_flag(
                    with_flag(
                        old(self)@,
                        ANALYSIS_LIBCTYPES as int,
                        layout != LibcTypesLayout::Off,
                    ),
                    ANALYSIS_LIBCTYPES_GLIBC as int,
                    layout == LibcTypesLayout::Glibc,
                ) && report_outcome(r) == Ok::<Report, Failure>(
                    Report {
                        message: libc_message(layout),
                        loader: Some(LoaderSetting::LibcTypes(layout)),
                    },
                ),
                None => final(self)@ == old(self)@ && report_outcome(r) == Err::<Report, Failure>(
                    lowlevel_failure(
                        "libctypes: expected `off`, `opaque` or `glibc`, got `"@ + lowered(
                            trimmed(p1@),
                        ) + "`"@,
                    ),
                ),
            },
    {
        match read_libc_layout(p1) {
            Err(e) => Err(e),
            Ok(layout) => {
                self.flags[ANALYSIS_LIBCTYPES] = layout != LibcTypesLayout::Off;
                self.flags[ANALYSIS_LIBCTYPES_GLIBC] = layout == LibcTypesLayout::Glibc;
                let state = match layout {
                    LibcTypesLayout::Off => "off",
                    LibcTypesLayout::Opaque => "on (opaque)",
                    LibcTypesLayout::Glibc => "on (glibc layouts)",
                };
                Ok(
                    OptionReport {
                        message: join2("Named libc aggregate types turned ", state),
                        loader: Some(LoaderSetting::LibcTypes(layout)),
                    },
                )
            },
        }
    }
}

/// The error of a refused answer.
fn refused(answer: &OptionAnswer) -> (r: KunaError)
    ensures
        r@ == refusal(*answer),
{
    match answer {
        OptionAnswer::Refused(e) => e.clone(),
        _ => KunaError::lowlevel(String::from_str("Option value was not parsed")),
    }
}

/// The settings after a reset: every switch and every level has its default, nothing is
/// outlined, the scope ceiling is the default one. The printer's switches are not the
/// architecture's own and keep their value.
pub open spec fn reset_settings(c: Settings) -> Settings {
    Settings {
        flags: FLAG_DEFAULTS@,
        levels: LEVEL_DEFAULTS@,
        print_flags: c.print_flags,
        outline_spec: Seq::empty(),
        symbol_name_bound: Some(DEFAULT_SCOPE_DEPTH),
    }
}

/// The settings before any option is set.
pub open spec fn fresh_settings() -> Settings {
    Settings {
        flags: FLAG_DEFAULTS@,
        levels: LEVEL_DEFAULTS@,
        print_flags: Seq::new(PRINT_FLAG_COUNT as nat, |i: int| None),
        outline_spec: Seq::empty(),
        symbol_name_bound: Some(DEFAULT_SCOPE_DEPTH),
    }
}

impl KunaSettings {
    /// The settings before any option is set.
    pub fn new() -> (r: KunaSettings)
        ensures
            r@ == fresh_settings(),
    {
        let r = KunaSettings {
            flags: FLAG_DEFAULTS,
            levels: LEVEL_DEFAULTS,
            print_flags: [None; 7],
            outline_spec: String::new(),
            symbol_name_bound: Some(DEFAULT_SCOPE_DEPTH),
        };
        assert(r@ =~= fresh_settings());
        r
    }

    /// Put every setting but the printer's switches back to its default.
    pub fn reset(&mut self)
        ensures
            final(self)@ == reset_settings(old(self)@),
    {
        self.flags = FLAG_DEFAULTS;
        self.levels = LEVEL_DEFAULTS;
        self.outline_spec = String::new();
        self.symbol_name_bound = Some(DEFAULT_SCOPE_DEPTH);
        assert(self@ =~= reset_settings(old(self)@));
    }

    /// Put every setting back to what a new program finds, the printer's switches too.
    pub fn reset_all(&mut self)
        ensures
            final(self)@ == fresh_settings(),
    {
        self.reset();
        self.print_flags = [None; 7];
        assert(self@ =~= fresh_settings());
    }
}

/// One entry of a mode: an option, the value it is given, and what the option's own
/// parser made of the value.
pub struct ModeOverride {
    pub option: String,
    pub value: String,
    pub answer: OptionAnswer,
}

/// A named batch of option values.
pub struct Mode {
    pub name: String,
    pub overrides: Vec<ModeOverride>,
}

/// Where a batch of overrides leads: the settings, what the loader is told on the
/// way, and the failure that ended it, if one did.
pub struct BatchEffect {
    pub settings: Settings,
    pub loader: Seq<LoaderSetting>,
    pub failure: Option<Failure>,
}

/// The overrides, applied one after the other until one fails.
pub open spec fn batch_effect(c: Settings, overrides: Seq<ModeOverride>) -> BatchEffect
    decreases overrides.len(),
{
    if overrides.len() == 0 {
        BatchEffect { settings: c, loader: seq![], failure: None }
    } else {
        let b = batch_effect(c, overrides.drop_last());
        let o = overrides.last();
        if b.failure is Some {
            b
        } else {
            let (next, r) = option_effect(b.settings, o.option@, o.value@, o.answer);
            match r {
                Ok(report) => BatchEffect {
                    settings: next,
                    loader: match report.loader {
                        Some(l) => b.loader.push(l),
                        None => b.loader,
                    },
                    failure: None,
                },
                Err(e) => BatchEffect { settings: next, loader: b.loader, failure: Some(e) },
            }
        }
    }
}

/// Once a batch has failed, what follows changes nothing.
pub proof fn lemma_batch_stops(c: Settings, overrides: Seq<ModeOverride>, n: int)
    requires
        0 <= n <= overrides.len(),
        batch_effect(c, overrides.take(n)).failure is Some,
    ensures
        batch_effect(c, overrides) == batch_effect(c, overrides.take(n)),
    decreases overrides.len(),
{
    if n == overrides.len() {
        assert(overrides.take(n) =~= overrides);
    } else {
        assert(overrides.drop_last().take(n) =~= overrides.take(n));
        lemma_batch_stops(c, overrides.drop_last(), n);
    }
}

/// The first mode, from `i` on, that has this name.
pub open spec fn mode_from(modes: Seq<Mode>, name: Seq<char>, i: int) -> Option<int>
    decreases modes.len() - i,
{
    if i < 0 || i >= modes.len() {
        None
    } else if modes[i].name@ == name {
        Some(i)
    } else {
        mode_from(modes, name, i + 1)
    }
}

/// The names of the modes, with `, ` between them.
pub open spec fn mode_names(modes: Seq<Mode>) -> Seq<char>
    decreases modes.len(),
{
    if modes.len() == 0 {
        seq![]
    } else if modes.len() == 1 {
        modes[0].name@
    } else {
        mode_names(modes.drop_last()) + ", "@ + modes.last().name@
    }
}

fn join_mode_names(modes: &Vec<Mode>) -> (r: String)
    ensures
        r@ == mode_names(modes@),
{
    let mut r = String::new();
    let mut i: usize = 0;
    assert(r@ =~= mode_names(modes@.take(0)));
    while i < modes.len()
        invariant
            i <= modes@.len(),
            r@ == mode_names(modes@.take(i as int)),
        decreases modes@.len() - i,
    {
        let ghost before = r@;
        if i > 0 {
            r.append(", ");
        }
        r.append(modes[i].name.as_str());
        proof {
            assert(modes@.take(i + 1).drop_last() =~= modes@.take(i as int));
            assert(i == 0 ==> r@ =~= modes@[0].name@);
        }
        i += 1;
    }
    assert(modes@.take(i as int) =~= modes@);
    r
}

/// What a mode confirms: its name and how many options it sets.
pub open spec fn mode_message(name: Seq<char>, count: nat) -> Seq<char> {
    "mode "@ + name + " applied ("@ + decimal_text(count) + " option override"@ + (if count == 1 {
        ""@
    } else {
        "s"@
    }) + ")"@
}

/// What applying a mode comes to: the settings, what the loader is told, the result.
pub open spec fn mode_effect(c: Settings, modes: Seq<Mode>, name: Seq<char>) -> (
    Settings,
    Seq<LoaderSetting>,
    Result<Seq<char>, Failure>,
) {
    if name == "auto"@ {
        (
            c,
            seq![],
            Err(
                parse_failure(
                    "Decompiler mode auto requires input binary size; resolve it in a file frontend"@,
                ),
            ),
        )
    } else {
        match mode_from(modes, name, 0) {
            None => (
                c,
                seq![],
                Err(
                    parse_failure(
                        "Unknown decompiler mode: "@ + name + " (known: "@ + mode_names(modes)
                            + ")"@,
                    ),
                ),
            ),
            Some(i) => {
                let b = batch_effect(c, modes[i].overrides@);
                (
                    b.settings,
                    b.loader,
                    match b.failure {
                        Some(e) => Err(e),
                        None => Ok(mode_message(name, modes[i].overrides@.len())),
                    },
                )
            },
        }
    }
}

impl KunaSettings {
    /// Apply the mode of this name: its overrides in order, until one fails. What
    /// the loader is to be told is appended to `loader`.
    pub fn apply_mode(
        &mut self,
        name: &str,
        modes: &Vec<Mode>,
        loader: &mut Vec<LoaderSetting>,
    ) -> (r: Result<String, KunaError>)
        ensures
            ({
                let e = mode_effect(old(self)@, modes@, name@);
                &&& final(self)@ == e.0
                &&& final(loader)@ == old(loader)@ + e.1
                &&& text_outcome(r) == e.2
            }),
    {
        assert(loader@ + Seq::<LoaderSetting>::empty() =~= loader@);
        if same_text(name, "auto") {
            return Err(
                KunaError::parse(
                    String::from_str(
                        "Decompiler mode auto requires input binary size; resolve it in a file frontend",
                    ),
                ),
            );
        }
        let mut i: usize = 0;
        while i < modes.len() && !same_text(modes[i].name.as_str(), name)
            invariant
                i <= modes@.len(),
                mode_from(modes@, name@, 0) == mode_from(modes@, name@, i as int),
            decreases modes@.len() - i,
        {
            i += 1;
        }
        if i == modes.len() {
            let mut msg = join3("Unknown decompiler mode: ", name, " (known: ");
            msg.append(join_mode_names(modes).as_str());
            msg.append(")");
            return Err(KunaError::parse(msg));
        }
        let overrides = &modes[i].overrides;
        match self.apply_overrides(overrides, loader) {
            Err(e) => Err(e),
            Ok(()) => {
                let mut msg = join3("mode ", name, " applied (");
                msg.append(decimal(overrides.len() as u64).as_str());
                msg.append(" option override");
                msg.append(
                    if overrides.len() == 1 {
                        ""
                    } else {
                        "s"
                    },
                );
                msg.append(")");
                Ok(msg)
            },
        }
    }

    fn apply_overrides(
        &mut self,
        overrides: &Vec<ModeOverride>,
        loader: &mut Vec<LoaderSetting>,
    ) -> (r: Result<(), KunaError>)
        ensures
            ({
                let b = batch_effect(old(self)@, overrides@);
                &&& final(self)@ == b.settings
                &&& final(loader)@ == old(loader)@ + b.loader
                &&& match r {
                    Ok(()) => b.failure is None,
                    Err(e) => b.failure == Some(e@),
                }
            }),
    {
        let mut k: usize = 0;
        assert(loader@ + Seq::<LoaderSetting>::empty() =~= loader@);
        while k < overrides.len()
            invariant
                k <= overrides@.len(),
                ({
                    let b = batch_effect(old(self)@, overrides@.take(k as int));
                    &&& self@ == b.settings
                    &&& loader@ == old(loader)@ + b.loader
                    &&& b.failure is None
                }),
            decreases overrides@.len() - k,
        {
            let o = &overrides[k];
            assert(overrides@.take(k + 1).drop_last() =~= overrides@.take(k as int));
            match self.set_kuna_option(o.option.as_str(), o.value.as_str(), &o.answer) {
                Err(e) => {
                    proof {
                        lemma_batch_stops(old(self)@, overrides@, k + 1);
                    }
                    return Err(e);
                },
                Ok(report) => {
                    if let Some(l) = report.loader {
                        loader.push(l);
                    }
                    assert(loader@ =~= old(loader)@ + batch_effect(
                        old(self)@,
                        overrides@.take(k + 1),
                    ).loader);
                },
            }
            k += 1;
        }
        assert(overrides@.take(k as int) =~= overrides@);
        Ok(())
    }
}

} // verus!
