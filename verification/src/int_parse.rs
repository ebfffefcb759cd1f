//! Reading of integer option values: leading white space is skipped, the base is
//! told by the prefix, and a number that does not fit the target is clamped.

use vstd::prelude::*;
use crate::text::{all_digits, chars_of, digit, digits_value, is_digit};

verus! {

/// The white space that may stand before a number.
pub open spec fn is_field_space(c: char) -> bool {
    c == ' ' || '\t' <= c <= '\r'
}

/// How many white-space characters `s` begins with.
pub open spec fn leading_spaces(s: Seq<char>) -> nat
    decreases s.len(),
{
    if s.len() > 0 && is_field_space(s[0]) {
        1 + leading_spaces(s.drop_first())
    } else {
        0
    }
}

/// The longest prefix of `s` that is made of digits of the base.
pub open spec fn digit_prefix(s: Seq<char>, base: nat) -> Seq<char>
    decreases s.len(),
{
    if s.len() > 0 && is_digit(s[0], base) {
        seq![s[0]] + digit_prefix(s.drop_first(), base)
    } else {
        seq![]
    }
}

/// Whether `s` begins with `0x` or `0X`.
pub open spec fn has_hex_mark(s: Seq<char>) -> bool {
    s.len() >= 2 && s[0] == '0' && (s[1] == 'x' || s[1] == 'X')
}

/// The number that an unsigned field begins with: `0x` and hexadecimal digits, a
/// leading `0` and octal digits, or decimal digits. A field that begins with no
/// digit counts as zero, and so does a `0x` that no hexadecimal digit follows.
pub open spec fn field_magnitude(s: Seq<char>) -> nat {
    if has_hex_mark(s) {
        digits_value(digit_prefix(s.skip(2), 16), 16)
    } else if s.len() > 0 && s[0] == '0' {
        digits_value(digit_prefix(s, 8), 8)
    } else {
        digits_value(digit_prefix(s, 10), 10)
    }
}

/// What `parse_int_auto` reads: nothing from a blank text, else the sign and the
/// magnitude of the number that the text begins with.
pub open spec fn signed_field(s: Seq<char>) -> Option<(bool, nat)> {
    let field = s.skip(leading_spaces(s) as int);
    if field.len() == 0 {
        None
    } else if field[0] == '+' || field[0] == '-' {
        Some((field[0] == '-', field_magnitude(field.skip(1))))
    } else {
        Some((false, field_magnitude(field)))
    }
}

/// An integer type that [`parse_int_auto`] can produce.
pub trait IntParse: Sized + Copy {
    /// The value of the type for a number of this sign and magnitude.
    spec fn of_number(neg: bool, mag: nat) -> Self;

    /// The largest magnitude that the type takes without clamping.
    spec fn magnitude_bound(neg: bool) -> nat;

    /// The bound fits 64 bits, so a number beyond them is beyond the bound.
    proof fn lemma_magnitude_bound(neg: bool)
        ensures
            Self::magnitude_bound(neg) <= u64::MAX,
    ;

    /// The largest magnitude that the type takes for this sign without clamping.
    fn max_magnitude(neg: bool) -> (r: u64)
        ensures
            r == Self::magnitude_bound(neg),
    ;

    /// The value for a magnitude within the bound.
    fn from_u64(mag: u64, neg: bool) -> (r: Self)
        requires
            mag <= Self::magnitude_bound(neg),
        ensures
            r == Self::of_number(neg, mag as nat),
    ;

    /// The value for a magnitude beyond the bound where `overflow` holds, else
    /// the value itself.
    fn saturate(self, overflow: bool, neg: bool) -> (r: Self)
        ensures
            !overflow ==> r == self,
            overflow ==> forall|mag: nat|
                mag > Self::magnitude_bound(neg) ==> r == #[trigger] Self::of_number(neg, mag),
    ;
}

/// The signed number, clamped to the type's range.
pub open spec fn i32_of_number(neg: bool, mag: nat) -> i32 {
    if neg {
        if mag > 0x8000_0000 {
            i32::MIN
        } else {
            (-(mag as int)) as i32
        }
    } else if mag > 0x7fff_ffff {
        i32::MAX
    } else {
        mag as i32
    }
}

impl IntParse for i32 {
    open spec fn of_number(neg: bool, mag: nat) -> i32 {
        i32_of_number(neg, mag)
    }

    open spec fn magnitude_bound(neg: bool) -> nat {
        if neg {
            0x8000_0000
        } else {
            0x7fff_ffff
        }
    }

    proof fn lemma_magnitude_bound(neg: bool) {
    }

    fn max_magnitude(neg: bool) -> (r: u64) {
        if neg {
            0x8000_0000
        } else {
            0x7fff_ffff
        }
    }

    fn from_u64(mag: u64, neg: bool) -> (r: i32) {
        let m: i64 = mag as i64;
        let v: i64 = if neg {
            -m
        } else {
            m
        };
        v as i32
    }

    fn saturate(self, overflow: bool, neg: bool) -> (r: i32) {
        if overflow {
            if neg {
                i32::MIN
            } else {
                i32::MAX
            }
        } else {
            self
        }
    }
}

/// The number, clamped to the type's range; one with a minus sign that needs no
/// clamping is taken modulo two to the thirty-second.
pub open spec fn u32_of_number(neg: bool, mag: nat) -> u32 {
    if mag > u32::MAX {
        u32::MAX
    } else if neg && mag > 0 {
        (0x1_0000_0000 - mag) as u32
    } else {
        mag as u32
    }
}

impl IntParse for u32 {
    open spec fn of_number(neg: bool, mag: nat) -> u32 {
        u32_of_number(neg, mag)
    }

    open spec fn magnitude_bound(neg: bool) -> nat {
        u32::MAX as nat
    }

    proof fn lemma_magnitude_bound(neg: bool) {
    }

    fn max_magnitude(neg: bool) -> (r: u64) {
        u32::MAX as u64
    }

    fn from_u64(mag: u64, neg: bool) -> (r: u32) {
        if neg && mag > 0 {
            (0x1_0000_0000u64 - mag) as u32
        } else {
            mag as u32
        }
    }

    fn saturate(self, overflow: bool, neg: bool) -> (r: u32) {
        if overflow {
            u32::MAX
        } else {
            self
        }
    }
}

/// Where the digit run of `s` that starts at `from` ends, and what it writes.
proof fn lemma_digit_prefix_step(s: Seq<char>, from: int, at: int, base: nat)
    requires
        0 <= from <= at <= s.len(),
        all_digits(s.subrange(from, at), base),
    ensures
        digit_prefix(s.skip(from), base) == s.subrange(from, at) + digit_prefix(
            s.skip(at),
            base,
        ),
    decreases at - from,
{
    if from < at {
        let run = s.subrange(from, at);
        assert(s.subrange(from + 1, at) =~= run.drop_first());
        assert(all_digits(s.subrange(from + 1, at), base)) by {
            assert forall|i: int| 0 <= i < at - from - 1 implies is_digit(
                #[trigger] s.subrange(from + 1, at)[i],
                base,
            ) by {
                assert(run[i + 1] == s.subrange(from + 1, at)[i]);
            }
        }
        lemma_digit_prefix_step(s, from + 1, at, base);
        assert(s.skip(from).drop_first() =~= s.skip(from + 1));
        assert(is_digit(run[0], base));
        assert(s.subrange(from, at) + digit_prefix(s.skip(at), base) =~= seq![s[from]] + (
        s.subrange(from + 1, at) + digit_prefix(s.skip(at), base)));
    } else {
        assert(s.subrange(from, at) + digit_prefix(s.skip(at), base) =~= digit_prefix(
            s.skip(at),
            base,
        ));
    }
}

/// The number that the digits from `from` on write, and whether it is beyond 64
/// bits; the first character that is no digit of the base ends it.
fn read_run(cs: &Vec<char>, from: usize, base: u64) -> (r: (u64, bool))
    requires
        from <= cs@.len(),
        2 <= base <= 16,
    ensures
        ({
            let v = digits_value(digit_prefix(cs@.skip(from as int), base as nat), base as nat);
            &&& r.1 <==> v > u64::MAX
            &&& !r.1 ==> r.0 == v
        }),
{
    let mut i: usize = from;
    let mut val: u64 = 0;
    let mut overflow: bool = false;
    assert(cs@.subrange(from as int, from as int) =~= Seq::<char>::empty());
    while i < cs.len()
        invariant
            from <= i <= cs@.len(),
            2 <= base <= 16,
            all_digits(cs@.subrange(from as int, i as int), base as nat),
            !overflow ==> val == digits_value(cs@.subrange(from as int, i as int), base as nat),
            overflow ==> digits_value(cs@.subrange(from as int, i as int), base as nat)
                > u64::MAX,
        ensures
            i == cs@.len() || !is_digit(cs@[i as int], base as nat),
        decreases cs@.len() - i,
    {
        match digit(cs[i], base) {
            None => {
                break;
            },
            Some(d) => {
                let ghost run = cs@.subrange(from as int, i as int);
                let ghost longer = cs@.subrange(from as int, i as int + 1);
                let ghost sofar = digits_value(run, base as nat);
                assert(longer.drop_last() =~= run);
                assert(digits_value(longer, base as nat) == sofar * (base as nat) + d);
                assert(sofar * (base as nat) >= sofar) by (nonlinear_arith)
                    requires
                        base >= 1,
                ;
                assert(all_digits(longer, base as nat)) by {
                    assert forall|k: int| 0 <= k < longer.len() implies is_digit(
                        #[trigger] longer[k],
                        base as nat,
                    ) by {
                        if k < run.len() {
                            assert(longer[k] == run[k]);
                        }
                    }
                }
                if !overflow {
                    if val > (u64::MAX - d) / base {
                        overflow = true;
                        assert(sofar * (base as nat) + d > u64::MAX) by (nonlinear_arith)
                            requires
                                sofar == val,
                                val > (u64::MAX - d) / (base as int),
                                base >= 2,
                                0 <= d <= u64::MAX,
                        ;
                    } else {
                        assert(val * base + d <= u64::MAX) by (nonlinear_arith)
                            requires
                                val <= (u64::MAX - d) / (base as int),
                                base >= 2,
                                0 <= d <= u64::MAX,
                        ;
                        val = val * base + d;
                    }
                }
                i += 1;
            },
        }
    }
    proof {
        lemma_digit_prefix_step(cs@, from as int, i as int, base as nat);
        assert(digit_prefix(cs@.skip(i as int), base as nat) =~= seq![]);
        assert(cs@.subrange(from as int, i as int) + Seq::<char>::empty() =~= cs@.subrange(
            from as int,
            i as int,
        ));
    }
    (val, overflow)
}

/// Read the number that `s` begins with. `None` where `s` is empty or all white
/// space; a text that begins with no number reads as zero; a number beyond the
/// target's range is clamped to it.
pub fn parse_int_auto<T: IntParse>(s: &str) -> (r: Option<T>)
    ensures
        r == match signed_field(s@) {
            Some((neg, mag)) => Some(T::of_number(neg, mag)),
            None => None,
        },
{
    let cs = chars_of(s);
    let mut i: usize = 0;
    assert(s@.skip(0) =~= s@);
    while i < cs.len() && (cs[i] == ' ' || ('\t' <= cs[i] && cs[i] <= '\r'))
        invariant
            i <= cs@.len(),
            cs@ == s@,
            leading_spaces(s@) == i + leading_spaces(s@.skip(i as int)),
        decreases cs@.len() - i,
    {
        proof {
            assert(s@.skip(i as int).drop_first() =~= s@.skip(i as int + 1));
        }
        i += 1;
    }
    let ghost field = s@.skip(i as int);
    assert(field == s@.skip(leading_spaces(s@) as int));
    if i == cs.len() {
        return None;
    }
    let mut neg: bool = false;
    if cs[i] == '+' || cs[i] == '-' {
        neg = cs[i] == '-';
        i += 1;
        assert(field.skip(1) =~= s@.skip(i as int));
    }
    let ghost body = s@.skip(i as int);
    let (val, overflow) = if i < cs.len() && cs.len() - i >= 2 && cs[i] == '0' && (cs[i + 1] == 'x'
        || cs[i + 1] == 'X') {
        assert(body.skip(2) =~= s@.skip(i as int + 2));
        read_run(&cs, i + 2, 16)
    } else if i < cs.len() && cs[i] == '0' {
        read_run(&cs, i, 8)
    } else {
        read_run(&cs, i, 10)
    };
    let ghost mag = field_magnitude(body);
    assert(signed_field(s@) == Some((neg, mag)));
    proof {
        T::lemma_magnitude_bound(neg);
    }
    if overflow || val > T::max_magnitude(neg) {
        Some(T::from_u64(0, neg).saturate(true, neg))
    } else {
        Some(T::from_u64(val, neg).saturate(false, neg))
    }
}

/// What `parse_int_auto` gives lies in the target's range and, where the number
/// itself does, is the number: nothing wraps for a signed target.
pub proof fn law_signed_reading_clamps(neg: bool, mag: nat)
    ensures
        ({
            let v = if neg {
                -(mag as int)
            } else {
                mag as int
            };
            i32_of_number(neg, mag) as int == if v < i32::MIN {
                i32::MIN as int
            } else if v > i32::MAX {
                i32::MAX as int
            } else {
                v
            }
        }),
{
}

/// An unsigned target takes a number in range modulo two to the thirty-second
/// and clamps one beyond the range, whatever its sign.
pub proof fn law_unsigned_reading_clamps(neg: bool, mag: nat)
    ensures
        mag > u32::MAX ==> u32_of_number(neg, mag) == u32::MAX,
        mag <= u32::MAX ==> (u32_of_number(neg, mag) as int - (if neg {
            -(mag as int)
        } else {
            mag as int
        })) % 0x1_0000_0000 == 0,
{
}

/// Leading white space never changes what is read.
pub proof fn law_reading_skips_spaces(space: char, s: Seq<char>)
    requires
        is_field_space(space),
    ensures
        signed_field(seq![space] + s) == signed_field(s),
{
    let t = seq![space] + s;
    lemma_leading_spaces_bound(s);
    assert(t.drop_first() =~= s);
    assert(t.skip(leading_spaces(t) as int) =~= s.skip(leading_spaces(s) as int));
}

/// What follows the white space and the sign.
pub open spec fn unsigned_part(s: Seq<char>) -> Seq<char> {
    let field = s.skip(leading_spaces(s) as int);
    if field.len() > 0 && (field[0] == '+' || field[0] == '-') {
        field.skip(1)
    } else {
        field
    }
}

/// The base that an unsigned field is read in.
pub open spec fn field_base(s: Seq<char>) -> nat {
    if has_hex_mark(s) {
        16
    } else if s.len() > 0 && s[0] == '0' {
        8
    } else {
        10
    }
}

/// Whether a suffix does not go on with the number of an unsigned field: it begins with
/// no digit of the field's base, and does not turn a lone `0` into a hexadecimal number.
pub open spec fn ends_field(s: Seq<char>, suffix: Seq<char>) -> bool {
    suffix.len() > 0 ==> {
        &&& !is_digit(suffix[0], field_base(s))
        &&& !(s.len() == 1 && suffix.len() > 1 && has_hex_mark(s + suffix) && is_digit(
            suffix[1],
            16,
        ))
    }
}

proof fn lemma_digit_prefix_ends(s: Seq<char>, suffix: Seq<char>, base: nat)
    requires
        suffix.len() > 0 ==> !is_digit(suffix[0], base),
    ensures
        digit_prefix(s + suffix, base) == digit_prefix(s, base),
    decreases s.len(),
{
    if s.len() == 0 {
        assert(s + suffix =~= suffix);
    } else {
        lemma_digit_prefix_ends(s.drop_first(), suffix, base);
        assert((s + suffix).drop_first() =~= s.drop_first() + suffix);
        assert((s + suffix)[0] == s[0]);
    }
}

proof fn lemma_magnitude_ends(s: Seq<char>, suffix: Seq<char>)
    requires
        ends_field(s, suffix),
    ensures
        field_magnitude(s + suffix) == field_magnitude(s),
{
    let t = s + suffix;
    if suffix.len() == 0 {
        assert(t =~= s);
    } else if has_hex_mark(s) {
        assert(t.skip(2) =~= s.skip(2) + suffix);
        lemma_digit_prefix_ends(s.skip(2), suffix, 16);
    } else if s.len() == 0 {
        assert(t =~= suffix);
        assert(suffix[0] != '0');
        assert(!is_digit(suffix[0], 10));
    } else if has_hex_mark(t) {
        assert(s.len() == 1 && s[0] == '0');
        assert(t[1] == suffix[0]);
        let rest = t.skip(2);
        if rest.len() > 0 {
            assert(rest[0] == suffix[1]);
        }
        assert(digit_prefix(rest, 16) =~= seq![]);
        assert(s.drop_first() =~= seq![]);
        assert(digit_prefix(s.drop_first(), 8) =~= seq![]);
        assert(digit_prefix(s, 8) =~= seq!['0']);
        let zero = seq!['0'];
        assert(zero.drop_last() =~= seq![]);
        assert(digits_value(zero.drop_last(), 8) == 0);
        assert(digits_value(zero, 8) == 0);
        assert(digits_value(Seq::<char>::empty(), 16) == 0);
    } else {
        assert(t[0] == s[0]);
        lemma_digit_prefix_ends(s, suffix, field_base(s));
    }
}

proof fn lemma_leading_spaces_append(s: Seq<char>, suffix: Seq<char>)
    requires
        leading_spaces(s) < s.len(),
    ensures
        leading_spaces(s + suffix) == leading_spaces(s),
    decreases s.len(),
{
    assert((s + suffix)[0] == s[0]);
    if is_field_space(s[0]) {
        assert((s + suffix).drop_first() =~= s.drop_first() + suffix);
        lemma_leading_spaces_append(s.drop_first(), suffix);
    }
}

/// Reading stops where the number ends: what follows it does not matter.
pub proof fn law_reading_stops_behind_the_number(s: Seq<char>, suffix: Seq<char>)
    requires
        signed_field(s) is Some,
        ends_field(unsigned_part(s), suffix),
    ensures
        signed_field(s + suffix) == signed_field(s),
{
    lemma_leading_spaces_bound(s);
    lemma_leading_spaces_append(s, suffix);
    let n = leading_spaces(s) as int;
    let field = s.skip(n);
    assert((s + suffix).skip(n) =~= field + suffix);
    assert((field + suffix)[0] == field[0]);
    assert((field + suffix).skip(1) =~= field.skip(1) + suffix);
    lemma_magnitude_ends(unsigned_part(s), suffix);
}

/// A suffix without digits, hexadecimal ones among them, never changes what is read.
pub proof fn law_suffix_without_digits_is_not_read(s: Seq<char>, suffix: Seq<char>)
    requires
        signed_field(s) is Some,
        forall|i: int| 0 <= i < suffix.len() ==> !is_digit(#[trigger] suffix[i], 16),
    ensures
        signed_field(s + suffix) == signed_field(s),
{
    if suffix.len() > 0 {
        assert(!is_digit(suffix[0], 16));
    }
    law_reading_stops_behind_the_number(s, suffix);
}

/// Only a blank text reads as nothing.
pub proof fn law_only_blank_reads_as_nothing(s: Seq<char>)
    ensures
        signed_field(s) is None <==> (forall|i: int|
            0 <= i < s.len() ==> is_field_space(#[trigger] s[i])),
    decreases s.len(),
{
    lemma_leading_spaces_bound(s);
    let n = leading_spaces(s) as int;
    if n < s.len() {
        lemma_leading_spaces_stop(s);
        assert(!is_field_space(s[n]));
    } else {
        lemma_leading_spaces_stop(s);
    }
}

proof fn lemma_leading_spaces_bound(s: Seq<char>)
    ensures
        leading_spaces(s) <= s.len(),
    decreases s.len(),
{
    if s.len() > 0 {
        lemma_leading_spaces_bound(s.drop_first());
    }
}

proof fn lemma_leading_spaces_stop(s: Seq<char>)
    ensures
        leading_spaces(s) < s.len() ==> !is_field_space(s[leading_spaces(s) as int]),
        forall|i: int| 0 <= i < leading_spaces(s) && i < s.len() ==> is_field_space(#[trigger] s[i]),
    decreases s.len(),
{
    if s.len() > 0 && is_field_space(s[0]) {
        let t = s.drop_first();
        lemma_leading_spaces_stop(t);
        assert forall|i: int| 0 <= i < leading_spaces(s) && i < s.len() implies is_field_space(
            #[trigger] s[i],
        ) by {
            if i > 0 {
                assert(s[i] == t[i - 1]);
            }
        }
    }
}

} // verus!
