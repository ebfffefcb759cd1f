//! What setting a named option, applying a mode and resetting come to, by the value that
//! was given.

use vstd::prelude::*;
use crate::error::{ErrorKind, Failure};
use crate::option_laws::shaped;
use crate::option_order::{law_row_has_name, law_row_of_own_name};
use crate::option_table::{
    ANALYSIS_LIBCTYPES, ANALYSIS_LIBCTYPES_GLIBC, FLAG_COUNT, FLAG_OPTIONS, KUNA_OPTIONS,
    LIBC_TYPES, LOADER_TOGGLE, NAME_BOUND, NAME_CHARS, OPTION_COUNT, OUTLINE, PARSED_FLAG,
    PARSED_LEVEL, PRINT_FLAG, RELOC_OBJECTS, TOGGLE,
};
use crate::settings::{
    batch_effect, fresh_settings, lemma_batch_stops, lemma_row_slot_exists, mode_effect, mode_from,
    option_effect, reset_settings, LibcTypesLayout, LoaderSetting, Mode, ModeOverride, OptionAnswer,
    Settings,
};
use crate::switch_table::SWITCHES;
use crate::text::{decimal_text, lowered, trimmed};

verus! {

/// Whether a value says `on`: it is empty, or the word itself.
pub open spec fn says_on(p: Seq<char>) -> bool {
    p.len() == 0 || p == "on"@
}

/// What setting the option of a row comes to.
pub open spec fn set_by_name(c: Settings, row: int, p1: Seq<char>, answer: OptionAnswer) -> (
    Settings,
    Result<crate::settings::Report, Failure>,
) {
    option_effect(c, KUNA_OPTIONS@[row].0@, p1, answer)
}

/// The words of an on/off option decide its switch: nothing and `on` turn it on, `off` turns
/// it off, and any other word is refused as one that is neither.
pub proof fn law_toggle_follows_its_word(c: Settings, row: int, p1: Seq<char>, answer: OptionAnswer)
    requires
        shaped(c),
        0 <= row < OPTION_COUNT,
        KUNA_OPTIONS@[row].1 == TOGGLE || KUNA_OPTIONS@[row].1 == LOADER_TOGGLE,
    ensures
        ({
            let (after, r) = set_by_name(c, row, p1, answer);
            let flag = KUNA_OPTIONS@[row].2 as int;
            let label = KUNA_OPTIONS@[row].3@;
            &&& says_on(p1) ==> after.flags[flag] && (r matches Ok(m) && m.message == label
                + " turned on"@)
            &&& p1 == "off"@ ==> !after.flags[flag] && (r matches Ok(m) && m.message == label
                + " turned off"@)
            &&& !says_on(p1) && p1 != "off"@ ==> (r matches Err(f) && f.kind == ErrorKind::Parse
                && f.text == "Must specify toggle value, on/off"@)
        }),
{
    reveal_strlit("off");
    reveal_strlit("on");
    law_row_of_own_name(row);
    lemma_row_slot_exists(row);
}

/// The loader is told of the switches that it reads, with the value that they got, and of no
/// others.
pub proof fn law_loader_is_told(c: Settings, row: int, p1: Seq<char>, answer: OptionAnswer)
    requires
        shaped(c),
        0 <= row < OPTION_COUNT,
        set_by_name(c, row, p1, answer).1 is Ok,
    ensures
        ({
            let (after, r) = set_by_name(c, row, p1, answer);
            let kind = KUNA_OPTIONS@[row].1;
            let slot = KUNA_OPTIONS@[row].2;
            let told = (r->Ok_0).loader;
            &&& kind == LOADER_TOGGLE ==> told == Some(
                LoaderSetting::Switch(slot, after.flags[slot as int]),
            )
            &&& kind == RELOC_OBJECTS ==> told == Some(LoaderSetting::RelocObjects(says_on(p1)))
            &&& kind == NAME_BOUND ==> told == Some(
                LoaderSetting::NameBound(after.symbol_name_bound),
            )
            &&& kind == NAME_CHARS ==> told == Some(
                LoaderSetting::NameChars(after.levels[slot as int]),
            )
            &&& kind == LIBC_TYPES ==> told == Some(
                LoaderSetting::LibcTypes(
                    if after.flags[ANALYSIS_LIBCTYPES_GLIBC as int] {
                        LibcTypesLayout::Glibc
                    } else if after.flags[ANALYSIS_LIBCTYPES as int] {
                        LibcTypesLayout::Opaque
                    } else {
                        LibcTypesLayout::Off
                    },
                ),
            )
            &&& (kind == TOGGLE || kind == PARSED_FLAG || kind == PARSED_LEVEL || kind == PRINT_FLAG
                || kind == OUTLINE) ==> told is None
        }),
{
    reveal_strlit("off");
    reveal_strlit("on");
    law_row_of_own_name(row);
    lemma_row_slot_exists(row);
}

/// A truth value that an option's own parser read is the value of the option's switch, or of
/// the printer's switch, and its message is what is reported.
pub proof fn law_parsed_flag_is_written(c: Settings, row: int, p1: Seq<char>, b: bool, msg: String)
    requires
        shaped(c),
        0 <= row < OPTION_COUNT,
        KUNA_OPTIONS@[row].1 == PARSED_FLAG || KUNA_OPTIONS@[row].1 == PRINT_FLAG,
    ensures
        ({
            let (after, r) = set_by_name(c, row, p1, OptionAnswer::Flag(b, msg));
            let slot = KUNA_OPTIONS@[row].2 as int;
            &&& r matches Ok(m) && m.message == msg@
            &&& KUNA_OPTIONS@[row].1 == PARSED_FLAG ==> after.flags[slot] == b
            &&& KUNA_OPTIONS@[row].1 == PRINT_FLAG ==> after.print_flags[slot] == Some(b)
        }),
{
    law_row_of_own_name(row);
    lemma_row_slot_exists(row);
}

/// A number that an option's own parser read is the option's level; a text is the region to
/// outline; a ceiling is the ceiling on scopes. The parser's message is what is reported.
pub proof fn law_parsed_value_is_written(c: Settings, row: int, p1: Seq<char>, answer: OptionAnswer)
    requires
        shaped(c),
        0 <= row < OPTION_COUNT,
    ensures
        ({
            let (after, r) = set_by_name(c, row, p1, answer);
            let kind = KUNA_OPTIONS@[row].1;
            let slot = KUNA_OPTIONS@[row].2 as int;
            &&& kind == PARSED_LEVEL ==> (answer matches OptionAnswer::Level(v, msg)
                ==> after.levels[slot] == v && (r matches Ok(m) && m.message == msg@))
            &&& kind == OUTLINE ==> (answer matches OptionAnswer::Text(t, msg)
                ==> after.outline_spec == t@ && (r matches Ok(m) && m.message == msg@))
            &&& kind == NAME_BOUND ==> (answer matches OptionAnswer::Bound(b, msg)
                ==> after.symbol_name_bound == b && (r matches Ok(m) && m.message == msg@))
            &&& kind == NAME_CHARS ==> (answer matches OptionAnswer::NameChars(v, mode)
                ==> after.levels[slot] == v && (r matches Ok(m) && m.message
                == KUNA_OPTIONS@[row].3@ + " set to "@ + mode@))
        }),
{
    law_row_of_own_name(row);
    lemma_row_slot_exists(row);
}

/// What an option's own parser refuses, the option refuses with the parser's failure; and an
/// option with a parser of its own accepts only an answer of its kind.
pub proof fn law_parser_decides(c: Settings, row: int, p1: Seq<char>, answer: OptionAnswer)
    requires
        0 <= row < OPTION_COUNT,
    ensures
        ({
            let (after, r) = set_by_name(c, row, p1, answer);
            let kind = KUNA_OPTIONS@[row].1;
            let own = kind == PARSED_FLAG || kind == PRINT_FLAG || kind == PARSED_LEVEL || kind
                == OUTLINE || kind == NAME_BOUND;
            &&& own ==> (answer matches OptionAnswer::Refused(e) ==> r
                == Err::<crate::settings::Report, Failure>(e@))
            &&& own && !(answer is Refused) && r is Err ==> (r->Err_0).kind == ErrorKind::Lowlevel
                && (r->Err_0).text == "Option value was not parsed"@
            &&& kind == PARSED_FLAG || kind == PRINT_FLAG ==> (r is Ok <==> answer is Flag)
            &&& kind == PARSED_LEVEL ==> (r is Ok <==> answer is Level)
            &&& kind == OUTLINE ==> (r is Ok <==> answer is Text)
            &&& kind == NAME_BOUND ==> (r is Ok <==> answer is Bound)
            &&& kind == NAME_CHARS ==> (r is Ok <==> answer is NameChars)
            &&& kind == NAME_CHARS && r is Err ==> (r->Err_0).kind == ErrorKind::Lowlevel && (
            r->Err_0).text == "symbolnamechars must be off|safe|ident, got `"@ + p1 + "`"@
        }),
{
    law_row_of_own_name(row);
}

/// The option on relocatable objects writes no setting: it is for the loader alone.
pub proof fn law_reloc_objects_is_for_the_loader(
    c: Settings,
    row: int,
    p1: Seq<char>,
    answer: OptionAnswer,
)
    requires
        0 <= row < OPTION_COUNT,
        KUNA_OPTIONS@[row].1 == RELOC_OBJECTS,
    ensures
        ({
            let (after, r) = set_by_name(c, row, p1, answer);
            let label = KUNA_OPTIONS@[row].3@;
            &&& after == c
            &&& says_on(p1) ==> (r matches Ok(m) && m.message == label + " turned on"@)
            &&& p1 == "off"@ ==> (r matches Ok(m) && m.message == label + " turned off"@)
            &&& !says_on(p1) && p1 != "off"@ ==> r is Err
        }),
{
    reveal_strlit("off");
    reveal_strlit("on");
    law_row_of_own_name(row);
}

/// The words for the library aggregates, in any case and with white space around them: some
/// turn them off, some on without fields, one on with the fields of glibc.
pub proof fn law_libc_types_follow_their_word(
    c: Settings,
    row: int,
    p1: Seq<char>,
    answer: OptionAnswer,
)
    requires
        shaped(c),
        0 <= row < OPTION_COUNT,
        KUNA_OPTIONS@[row].1 == LIBC_TYPES,
    ensures
        ({
            let (after, r) = set_by_name(c, row, p1, answer);
            let word = lowered(trimmed(p1));
            let typed = after.flags[ANALYSIS_LIBCTYPES as int];
            let fields = after.flags[ANALYSIS_LIBCTYPES_GLIBC as int];
            let off = word == "off"@ || word == "0"@ || word == "false"@;
            let opaque = word == "opaque"@ || word == "on"@ || word == "1"@ || word == "true"@;
            &&& off ==> !typed && !fields && (r matches Ok(m) && m.message
                == "Named libc aggregate types turned "@ + "off"@)
            &&& opaque ==> typed && !fields && (r matches Ok(m) && m.message
                == "Named libc aggregate types turned "@ + "on (opaque)"@)
            &&& word == "glibc"@ ==> typed && fields && (r matches Ok(m) && m.message
                == "Named libc aggregate types turned "@ + "on (glibc layouts)"@)
            &&& !off && !opaque && word != "glibc"@ ==> (r matches Err(f) && f.kind
                == ErrorKind::Lowlevel && f.text
                == "libctypes: expected `off`, `opaque` or `glibc`, got `"@ + word + "`"@)
        }),
{
    reveal_strlit("off");
    reveal_strlit("0");
    reveal_strlit("false");
    reveal_strlit("opaque");
    reveal_strlit("on");
    reveal_strlit("1");
    reveal_strlit("true");
    reveal_strlit("glibc");
    assert("off"@.len() == 3 && "0"@.len() == 1 && "false"@.len() == 5 && "opaque"@.len() == 6
        && "on"@.len() == 2 && "1"@.len() == 1 && "true"@.len() == 4 && "glibc"@.len() == 5);
    assert("0"@[0] == '0' && "1"@[0] == '1' && "false"@[0] == 'f' && "glibc"@[0] == 'g');
    law_row_of_own_name(row);
}

/// A name that no option has is refused by that name.
pub proof fn law_unknown_name_is_refused(
    c: Settings,
    name: Seq<char>,
    p1: Seq<char>,
    answer: OptionAnswer,
)
    requires
        forall|i: int| 0 <= i < OPTION_COUNT ==> (#[trigger] KUNA_OPTIONS@[i]).0@ != name,
    ensures
        option_effect(c, name, p1, answer).0 == c,
        option_effect(c, name, p1, answer).1 matches Err(f) && f.kind == ErrorKind::Parse && f.text
            == "Unknown kuna option: "@ + name,
{
    law_row_has_name(name);
}

/// Each switch is as it is described: the option that is named turns it, its value is read in
/// the way that is told, and the option calls it by its label.
pub proof fn law_switch_is_as_described(f: int)
    requires
        0 <= f < FLAG_COUNT,
    ensures
        ({
            let row = KUNA_OPTIONS@[FLAG_OPTIONS@[f] as int];
            &&& row.0@ == SWITCHES@[f].0@
            &&& row.1 == SWITCHES@[f].1
            &&& row.3@ == SWITCHES@[f].4@
            &&& SWITCHES@[f].1 != LIBC_TYPES ==> row.2 == f
        }),
{
}

/// Fresh settings, and settings after a reset, have each switch as it is described.
pub proof fn law_switches_start_as_described(c: Settings, f: int)
    requires
        0 <= f < FLAG_COUNT,
    ensures
        fresh_settings().flags[f] == SWITCHES@[f].2,
        reset_settings(c).flags[f] == SWITCHES@[f].2,
{
}

/// The levels that settings start out with, and that a reset gives back.
pub proof fn law_levels_start_as_described(c: Settings)
    ensures
        reset_settings(c).levels == fresh_settings().levels,
        fresh_settings().levels =~= seq![
            2i32,
            2,
            0,
            0,
            0,
            1,
            0,
            1,
            0,
            1,
            1,
            1,
            1,
            1,
            1,
            1,
            1,
        ],
{
}

/// A reset outlines nothing and puts the ceiling on scopes back; the printer's switches stay,
/// and are left to the printer at first.
pub proof fn law_reset_of_the_rest(c: Settings)
    ensures
        reset_settings(c).outline_spec.len() == 0,
        reset_settings(c).symbol_name_bound == Some(256usize),
        reset_settings(c).print_flags == c.print_flags,
        fresh_settings().outline_spec.len() == 0,
        fresh_settings().symbol_name_bound == Some(256usize),
        forall|i: int|
            0 <= i < fresh_settings().print_flags.len() ==> (
            #[trigger] fresh_settings().print_flags[i]) is None,
{
}

// ---- modes --------------------------------------------------------------------------

/// A batch of nothing changes nothing; a batch of one override is that option being set.
pub proof fn law_batch_of_one(c: Settings, o: ModeOverride)
    ensures
        batch_effect(c, seq![]).settings == c,
        batch_effect(c, seq![]).loader.len() == 0,
        batch_effect(c, seq![]).failure is None,
        ({
            let b = batch_effect(c, seq![o]);
            let (after, r) = option_effect(c, o.option@, o.value@, o.answer);
            &&& b.settings == after
            &&& match r {
                Ok(report) => b.failure is None && b.loader == match report.loader {
                    Some(l) => seq![l],
                    None => seq![],
                },
                Err(f) => b.failure == Some(f) && b.loader.len() == 0,
            }
        }),
{
    let one = seq![o];
    assert(one.drop_last() =~= seq![]);
    assert(one.last() == o);
    assert(batch_effect(c, one.drop_last()).loader =~= seq![]);
    if let Ok(report) = option_effect(c, o.option@, o.value@, o.answer).1 {
        if let Some(l) = report.loader {
            assert(Seq::<LoaderSetting>::empty().push(l) =~= seq![l]);
        }
    }
}

/// A batch ends with the first override that is refused; what follows it is not applied.
pub proof fn law_batch_ends_with_the_first_failure(
    c: Settings,
    first: Seq<ModeOverride>,
    rest: Seq<ModeOverride>,
)
    requires
        batch_effect(c, first).failure is Some,
    ensures
        batch_effect(c, first + rest) == batch_effect(c, first),
{
    assert((first + rest).take(first.len() as int) =~= first);
    lemma_batch_stops(c, first + rest, first.len() as int);
}

/// The mode that is found is the first of its name.
proof fn lemma_mode_from(modes: Seq<Mode>, name: Seq<char>, i: int)
    requires
        0 <= i <= modes.len(),
    ensures
        match mode_from(modes, name, i) {
            Some(k) => i <= k < modes.len() && modes[k].name@ == name && forall|j: int|
                i <= j < k ==> (#[trigger] modes[j]).name@ != name,
            None => forall|j: int| i <= j < modes.len() ==> (#[trigger] modes[j]).name@ != name,
        },
    decreases modes.len() - i,
{
    if i < modes.len() {
        lemma_mode_from(modes, name, i + 1);
    }
}

/// A mode applies the overrides of the first mode of its name, and tells their number where
/// none was refused. `auto` and unknown names are refused, and then nothing changes.
pub proof fn law_mode_applies_its_overrides(c: Settings, modes: Seq<Mode>, name: Seq<char>, k: int)
    requires
        0 <= k <= modes.len(),
        forall|j: int| 0 <= j < k ==> (#[trigger] modes[j]).name@ != name,
        k < modes.len() ==> modes[k].name@ == name,
    ensures
        ({
            let (after, loader, r) = mode_effect(c, modes, name);
            let b = batch_effect(c, modes[k].overrides@);
            let n = modes[k].overrides@.len();
            &&& name == "auto"@ || k == modes.len() ==> {
                &&& after == c
                &&& loader.len() == 0
                &&& r matches Err(f) && f.kind == ErrorKind::Parse
            }
            &&& name == "auto"@ ==> (r matches Err(f) && f.text
                == "Decompiler mode auto requires input binary size; resolve it in a file frontend"@)
            &&& name != "auto"@ && k < modes.len() ==> {
                &&& after == b.settings
                &&& loader == b.loader
                &&& b.failure matches Some(f) ==> r == Err::<Seq<char>, Failure>(f)
                &&& b.failure is None && n == 1 ==> r == Ok::<Seq<char>, Failure>(
                    "mode "@ + name + " applied ("@ + decimal_text(1) + " option override"@ + ""@
                        + ")"@,
                )
                &&& b.failure is None && n != 1 ==> r == Ok::<Seq<char>, Failure>(
                    "mode "@ + name + " applied ("@ + decimal_text(n) + " option override"@ + "s"@
                        + ")"@,
                )
            }
        }),
{
    lemma_mode_from(modes, name, 0);
}

} // verus!
