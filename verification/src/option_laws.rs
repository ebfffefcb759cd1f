//! What holds of the named options as a whole.

use vstd::prelude::*;
use crate::option_order::law_row_has_name;
use crate::option_table::{
    ANALYSIS_LIBCTYPES, ANALYSIS_LIBCTYPES_GLIBC, FLAG_COUNT, FLAG_OPTIONS, KUNA_OPTIONS,
    LEVEL_COUNT, LEVEL_OPTIONS, LIBC_TYPES, LOADER_TOGGLE, NAME_BOUND, NAME_CHARS, OPTION_COUNT,
    OUTLINE, PARSED_FLAG, PARSED_LEVEL, PRINT_FLAG, PRINT_FLAG_COUNT, PRINT_FLAG_OPTIONS, TOGGLE,
};
use crate::settings::{
    batch_effect, fresh_settings, lemma_row_slot_exists, mode_effect, mode_from, mode_message,
    option_effect, reset_settings, row_effect, row_of, LoaderSetting, Mode, ModeOverride,
    OptionAnswer, Settings,
};
use crate::error::Failure;

verus! {

/// The number of switches, levels and printer switches is fixed.
pub open spec fn shaped(c: Settings) -> bool {
    &&& c.flags.len() == FLAG_COUNT
    &&& c.levels.len() == LEVEL_COUNT
    &&& c.print_flags.len() == PRINT_FLAG_COUNT
}

/// Whether the option of this row writes the switch.
pub open spec fn row_writes_flag(row: int, flag: int) -> bool {
    let kind = KUNA_OPTIONS@[row].1;
    ||| (kind == TOGGLE || kind == LOADER_TOGGLE || kind == PARSED_FLAG) && KUNA_OPTIONS@[row].2
        == flag
    ||| kind == LIBC_TYPES && (flag == ANALYSIS_LIBCTYPES || flag == ANALYSIS_LIBCTYPES_GLIBC)
}

/// Whether the option of this row writes the level.
pub open spec fn row_writes_level(row: int, level: int) -> bool {
    let kind = KUNA_OPTIONS@[row].1;
    (kind == PARSED_LEVEL || kind == NAME_CHARS) && KUNA_OPTIONS@[row].2 == level
}

/// Whether the option of this row writes the printer's switch.
pub open spec fn row_writes_print_flag(row: int, flag: int) -> bool {
    KUNA_OPTIONS@[row].1 == PRINT_FLAG && KUNA_OPTIONS@[row].2 == flag
}

/// Setting an option keeps the number of settings.
pub proof fn law_shape_is_kept(c: Settings, name: Seq<char>, p1: Seq<char>, answer: OptionAnswer)
    requires
        shaped(c),
    ensures
        shaped(option_effect(c, name, p1, answer).0),
{
    law_row_has_name(name);
    if row_of(name) is Some {
        lemma_row_slot_exists(row_of(name)->0);
    }
}

/// An option that is refused changes no setting.
pub proof fn law_refusal_changes_nothing(
    c: Settings,
    name: Seq<char>,
    p1: Seq<char>,
    answer: OptionAnswer,
)
    requires
        option_effect(c, name, p1, answer).1 is Err,
    ensures
        option_effect(c, name, p1, answer).0 == c,
{
}

/// Setting an option leaves every setting that is not its own as it was.
pub proof fn law_other_settings_stay(
    c: Settings,
    row: int,
    p1: Seq<char>,
    answer: OptionAnswer,
)
    requires
        0 <= row < OPTION_COUNT,
        shaped(c),
    ensures
        ({
            let after = row_effect(c, row, p1, answer).0;
            &&& forall|f: int|
                0 <= f < FLAG_COUNT && !row_writes_flag(row, f) ==> #[trigger] after.flags[f]
                    == c.flags[f]
            &&& forall|l: int|
                0 <= l < LEVEL_COUNT && !row_writes_level(row, l) ==> #[trigger] after.levels[l]
                    == c.levels[l]
            &&& forall|f: int|
                0 <= f < PRINT_FLAG_COUNT && !row_writes_print_flag(row, f)
                    ==> #[trigger] after.print_flags[f] == c.print_flags[f]
            &&& KUNA_OPTIONS@[row].1 != OUTLINE ==> after.outline_spec == c.outline_spec
            &&& KUNA_OPTIONS@[row].1 != NAME_BOUND ==> after.symbol_name_bound
                == c.symbol_name_bound
        }),
{
}

/// The last accepted value of an option stands: what the option was set to before
/// leaves no trace, neither in the settings nor in the report.
pub proof fn law_last_write_wins(
    c: Settings,
    name: Seq<char>,
    p: Seq<char>,
    a: OptionAnswer,
    q: Seq<char>,
    b: OptionAnswer,
)
    requires
        shaped(c),
        option_effect(c, name, q, b).1 is Ok,
    ensures
        option_effect(option_effect(c, name, p, a).0, name, q, b) == option_effect(c, name, q, b),
{
    law_row_has_name(name);
    let row = row_of(name)->0;
    lemma_row_slot_exists(row);
    let once = option_effect(c, name, q, b);
    let twice = option_effect(option_effect(c, name, p, a).0, name, q, b);
    assert(twice.0.flags =~= once.0.flags);
    assert(twice.0.levels =~= once.0.levels);
    assert(twice.0.print_flags =~= once.0.print_flags);
}

/// Whether two options write no setting in common.
pub open spec fn rows_apart(i: int, j: int) -> bool {
    &&& forall|f: int| !(#[trigger] row_writes_flag(i, f) && row_writes_flag(j, f))
    &&& forall|l: int| !(#[trigger] row_writes_level(i, l) && row_writes_level(j, l))
    &&& forall|f: int| !(#[trigger] row_writes_print_flag(i, f) && row_writes_print_flag(j, f))
    &&& !(KUNA_OPTIONS@[i].1 == OUTLINE && KUNA_OPTIONS@[j].1 == OUTLINE)
    &&& !(KUNA_OPTIONS@[i].1 == NAME_BOUND && KUNA_OPTIONS@[j].1 == NAME_BOUND)
}

/// A reset leaves nothing for a second one to do.
pub proof fn law_reset_twice_is_reset_once(c: Settings)
    ensures
        reset_settings(reset_settings(c)) == reset_settings(c),
{
}

/// Fresh settings are what a reset makes of them.
pub proof fn law_fresh_settings_are_reset()
    ensures
        reset_settings(fresh_settings()) == fresh_settings(),
        shaped(fresh_settings()),
{
}

/// A reset undoes any option that is not the printer's.
pub proof fn law_reset_undoes_an_option(
    c: Settings,
    row: int,
    p1: Seq<char>,
    answer: OptionAnswer,
)
    requires
        shaped(c),
        0 <= row < OPTION_COUNT,
        KUNA_OPTIONS@[row].1 != PRINT_FLAG,
    ensures
        reset_settings(row_effect(c, row, p1, answer).0) == reset_settings(c),
{
    lemma_row_slot_exists(row);
    let after = row_effect(c, row, p1, answer).0;
    assert(reset_settings(after) =~= reset_settings(c));
}

/// A mode without overrides changes nothing and says so.
pub proof fn law_empty_mode_changes_nothing(c: Settings, modes: Seq<Mode>, name: Seq<char>, i: int)
    requires
        name != "auto"@,
        mode_from(modes, name, 0) == Some(i),
        0 <= i < modes.len(),
        modes[i].overrides@.len() == 0,
    ensures
        mode_effect(c, modes, name) == (
            c,
            Seq::<LoaderSetting>::empty(),
            Ok::<Seq<char>, Failure>(mode_message(name, 0)),
        ),
{
}

/// A batch is its overrides one after the other: splitting it changes nothing.
pub proof fn law_batch_in_two_parts(c: Settings, first: Seq<ModeOverride>, rest: Seq<ModeOverride>)
    requires
        batch_effect(c, first).failure is None,
    ensures
        batch_effect(c, first + rest).settings == batch_effect(
            batch_effect(c, first).settings,
            rest,
        ).settings,
        batch_effect(c, first + rest).failure == batch_effect(
            batch_effect(c, first).settings,
            rest,
        ).failure,
        batch_effect(c, first + rest).loader == batch_effect(c, first).loader + batch_effect(
            batch_effect(c, first).settings,
            rest,
        ).loader,
    decreases rest.len(),
{
    let mid = batch_effect(c, first);
    if rest.len() == 0 {
        assert(first + rest =~= first);
        assert(mid.loader + batch_effect(mid.settings, rest).loader =~= mid.loader);
    } else {
        assert((first + rest).drop_last() =~= first + rest.drop_last());
        law_batch_in_two_parts(c, first, rest.drop_last());
        assert(batch_effect(c, first + rest).loader =~= mid.loader + batch_effect(
            mid.settings,
            rest,
        ).loader);
    }
}

/// What an option writes depends on the value that it is given alone, not on what the
/// settings were before; so does what it reports.
pub proof fn law_option_decides_its_setting(
    c: Settings,
    d: Settings,
    row: int,
    p1: Seq<char>,
    answer: OptionAnswer,
)
    requires
        0 <= row < OPTION_COUNT,
        shaped(c),
        shaped(d),
        row_effect(c, row, p1, answer).1 is Ok,
    ensures
        ({
            let x = row_effect(c, row, p1, answer);
            let y = row_effect(d, row, p1, answer);
            &&& x.1 == y.1
            &&& forall|f: int|
                0 <= f < FLAG_COUNT && row_writes_flag(row, f) ==> #[trigger] x.0.flags[f]
                    == y.0.flags[f]
            &&& forall|l: int|
                0 <= l < LEVEL_COUNT && row_writes_level(row, l) ==> #[trigger] x.0.levels[l]
                    == y.0.levels[l]
            &&& forall|f: int|
                0 <= f < PRINT_FLAG_COUNT && row_writes_print_flag(row, f)
                    ==> #[trigger] x.0.print_flags[f] == y.0.print_flags[f]
            &&& KUNA_OPTIONS@[row].1 == OUTLINE ==> x.0.outline_spec == y.0.outline_spec
            &&& KUNA_OPTIONS@[row].1 == NAME_BOUND ==> x.0.symbol_name_bound
                == y.0.symbol_name_bound
        }),
{
    lemma_row_slot_exists(row);
}

/// An option that is set after a mode has its own value, whatever the mode said of it.
pub proof fn law_option_after_mode_wins(
    c: Settings,
    overrides: Seq<ModeOverride>,
    row: int,
    p1: Seq<char>,
    answer: OptionAnswer,
    flag: int,
)
    requires
        shaped(c),
        0 <= row < OPTION_COUNT,
        0 <= flag < FLAG_COUNT,
        row_writes_flag(row, flag),
        row_effect(c, row, p1, answer).1 is Ok,
    ensures
        row_effect(batch_effect(c, overrides).settings, row, p1, answer).0.flags[flag]
            == row_effect(c, row, p1, answer).0.flags[flag],
{
    lemma_batch_is_shaped(c, overrides);
    law_option_decides_its_setting(
        c,
        batch_effect(c, overrides).settings,
        row,
        p1,
        answer,
    );
}

proof fn lemma_batch_is_shaped(c: Settings, overrides: Seq<ModeOverride>)
    requires
        shaped(c),
    ensures
        shaped(batch_effect(c, overrides).settings),
    decreases overrides.len(),
{
    if overrides.len() > 0 {
        lemma_batch_is_shaped(c, overrides.drop_last());
        let o = overrides.last();
        law_shape_is_kept(
            batch_effect(c, overrides.drop_last()).settings,
            o.option@,
            o.value@,
            o.answer,
        );
    }
}

/// Two options that write no setting in common can be set in either order.
pub proof fn law_options_commute(
    c: Settings,
    i: int,
    p: Seq<char>,
    a: OptionAnswer,
    j: int,
    q: Seq<char>,
    b: OptionAnswer,
)
    requires
        shaped(c),
        0 <= i < OPTION_COUNT,
        0 <= j < OPTION_COUNT,
        rows_apart(i, j),
    ensures
        row_effect(row_effect(c, i, p, a).0, j, q, b).0 == row_effect(
            row_effect(c, j, q, b).0,
            i,
            p,
            a,
        ).0,
{
    lemma_row_slot_exists(i);
    lemma_row_slot_exists(j);
    let x = row_effect(row_effect(c, i, p, a).0, j, q, b).0;
    let y = row_effect(row_effect(c, j, q, b).0, i, p, a).0;
    let fi = KUNA_OPTIONS@[i].2 as int;
    assert(!(row_writes_flag(i, fi) && row_writes_flag(j, fi)));
    assert(!(row_writes_level(i, fi) && row_writes_level(j, fi)));
    assert(!(row_writes_print_flag(i, fi) && row_writes_print_flag(j, fi)));
    assert(!(row_writes_flag(i, ANALYSIS_LIBCTYPES as int) && row_writes_flag(
        j,
        ANALYSIS_LIBCTYPES as int,
    )));
    assert(!(row_writes_flag(i, ANALYSIS_LIBCTYPES_GLIBC as int) && row_writes_flag(
        j,
        ANALYSIS_LIBCTYPES_GLIBC as int,
    )));
    assert(x.flags =~= y.flags);
    assert(x.levels =~= y.levels);
    assert(x.print_flags =~= y.print_flags);
}

/// Distinct options write no setting in common.
pub proof fn law_options_are_apart(i: int, j: int)
    requires
        0 <= i < j < OPTION_COUNT,
    ensures
        rows_apart(i, j),
{
    law_settings_have_one_option(i);
    law_settings_have_one_option(j);
}

/// Every setting that an option writes is the option's own.
pub proof fn law_settings_have_one_option(i: int)
    requires
        0 <= i < OPTION_COUNT,
    ensures
        forall|f: int| #[trigger] row_writes_flag(i, f) ==> FLAG_OPTIONS@[f] == i,
        forall|l: int| #[trigger] row_writes_level(i, l) ==> LEVEL_OPTIONS@[l] == i,
        forall|f: int| #[trigger] row_writes_print_flag(i, f) ==> PRINT_FLAG_OPTIONS@[f] == i,
        KUNA_OPTIONS@[i].1 == OUTLINE ==> KUNA_OPTIONS@[i].0@ == "outline"@,
        KUNA_OPTIONS@[i].1 == NAME_BOUND ==> KUNA_OPTIONS@[i].0@ == "symbolnamebound"@,
{
}

/// Every switch, level and printer switch can be set by an option.
pub proof fn law_settings_have_an_option()
    ensures
        forall|f: int|
            0 <= f < FLAG_COUNT ==> #[trigger] row_writes_flag(FLAG_OPTIONS@[f] as int, f),
        forall|l: int|
            0 <= l < LEVEL_COUNT ==> #[trigger] row_writes_level(LEVEL_OPTIONS@[l] as int, l),
        forall|f: int|
            0 <= f < PRINT_FLAG_COUNT ==> #[trigger] row_writes_print_flag(
                PRINT_FLAG_OPTIONS@[f] as int,
                f,
            ),
{
}

} // verus!
