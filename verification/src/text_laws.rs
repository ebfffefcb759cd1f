//! What the reading and writing of texts and numbers comes to.

use vstd::prelude::*;
use crate::int_parse::{digit_prefix, field_magnitude, is_field_space, leading_spaces, signed_field};
use crate::text::{
    all_digits, begins_with, decimal_digit, decimal_text, digit_value, digits_value, i32_value,
    is_digit, is_white_space, lowered, offset_value, trim_back, trim_front, trimmed, u32_value,
    unsigned_value,
};

verus! {

// ---- white space and case -----------------------------------------------------------

/// The white space of Unicode, by code.
pub proof fn law_white_space_by_code(c: char)
    ensures
        is_white_space(c) <==> {
            let k = c as u32;
            ||| 9 <= k <= 13
            ||| k == 32
            ||| k == 133
            ||| k == 160
            ||| k == 5760
            ||| 8192 <= k <= 8202
            ||| k == 8232
            ||| k == 8233
            ||| k == 8239
            ||| k == 8287
            ||| k == 12288
        },
{
}

proof fn lemma_trim_front(s: Seq<char>)
    ensures
        ({
            let n = s.len() - trim_front(s).len();
            &&& 0 <= n <= s.len()
            &&& trim_front(s) == s.skip(n)
            &&& forall|i: int| 0 <= i < n ==> is_white_space(#[trigger] s[i])
            &&& n < s.len() ==> !is_white_space(s[n])
        }),
    decreases s.len(),
{
    if s.len() > 0 && is_white_space(s.first()) {
        let t = s.drop_first();
        lemma_trim_front(t);
        let n = s.len() - trim_front(s).len();
        assert(t.skip(n - 1) =~= s.skip(n));
        assert forall|i: int| 0 <= i < n implies is_white_space(#[trigger] s[i]) by {
            if i > 0 {
                assert(s[i] == t[i - 1]);
            }
        }
        if n < s.len() {
            assert(s[n] == t[n - 1]);
        }
    } else {
        assert(s.skip(0) =~= s);
    }
}

proof fn lemma_trim_back(s: Seq<char>)
    ensures
        ({
            let n = trim_back(s).len() as int;
            &&& 0 <= n <= s.len()
            &&& trim_back(s) == s.take(n)
            &&& forall|i: int| n <= i < s.len() ==> is_white_space(#[trigger] s[i])
            &&& n > 0 ==> !is_white_space(s[n - 1])
        }),
    decreases s.len(),
{
    if s.len() > 0 && is_white_space(s.last()) {
        let t = s.drop_last();
        lemma_trim_back(t);
        let n = trim_back(s).len() as int;
        assert(t.take(n) =~= s.take(n));
        assert forall|i: int| n <= i < s.len() implies is_white_space(#[trigger] s[i]) by {
            if i < t.len() {
                assert(s[i] == t[i]);
            }
        }
    } else {
        assert(s.take(s.len() as int) =~= s);
    }
}

/// Trimming drops white space at both ends and nothing else: what is left is one piece of the
/// text, neither end of it is white space, and all around it is.
pub proof fn law_trimming_drops_the_ends(s: Seq<char>)
    ensures
        exists|i: int, j: int|
            0 <= i <= j <= s.len() && trimmed(s) == #[trigger] s.subrange(i, j) && (forall|k: int|
                0 <= k < i || j <= k < s.len() ==> is_white_space(#[trigger] s[k])),
        trimmed(s).len() > 0 ==> !is_white_space(trimmed(s).first()) && !is_white_space(
            trimmed(s).last(),
        ),
{
    lemma_trim_front(s);
    let t = trim_front(s);
    lemma_trim_back(t);
    let i = s.len() - t.len();
    let n = trim_back(t).len() as int;
    assert(trimmed(s) =~= s.subrange(i, i + n));
    assert forall|k: int| 0 <= k < i || i + n <= k < s.len() implies is_white_space(
        #[trigger] s[k],
    ) by {
        if k >= i + n {
            assert(s[k] == t[k - i]);
        }
    }
    if n > 0 {
        assert(trimmed(s).first() == t[0]);
        assert(t[0] == s[i]);
        assert(trimmed(s).last() == t[n - 1]);
    }
}

/// Lower case changes the letters from `A` to `Z`, each to the letter thirty-two codes on, and
/// no other character.
pub proof fn law_lower_case_by_code(s: Seq<char>, i: int)
    requires
        0 <= i < s.len(),
    ensures
        lowered(s).len() == s.len(),
        65 <= s[i] as u32 <= 90 ==> lowered(s)[i] as u32 == s[i] as u32 + 32,
        !(65 <= s[i] as u32 <= 90) ==> lowered(s)[i] == s[i],
{
}

// ---- digits -------------------------------------------------------------------------

/// The digits by code: `0` to `9`, then the letters from `a` and from `A` on.
pub proof fn law_digits_by_code(c: char)
    ensures
        48 <= c as u32 <= 57 ==> digit_value(c) == Some((c as u32 - 48) as nat),
        97 <= c as u32 <= 102 ==> digit_value(c) == Some((c as u32 - 87) as nat),
        65 <= c as u32 <= 70 ==> digit_value(c) == Some((c as u32 - 55) as nat),
        !(48 <= c as u32 <= 57) && !(97 <= c as u32 <= 102) && !(65 <= c as u32 <= 70)
            ==> digit_value(c) is None,
{
}

/// A digit at the end adds its value to the base times the rest; a lone digit is its value.
pub proof fn law_digits_have_places(s: Seq<char>, c: char, base: nat)
    requires
        is_digit(c, base),
    ensures
        digits_value(seq![c], base) == digit_value(c)->0,
        digits_value(s.push(c), base) == digits_value(s, base) * base + digit_value(c)->0,
{
    assert(seq![c].drop_last() =~= seq![]);
    assert(digits_value(seq![c].drop_last(), base) == 0);
    assert(0 * base == 0) by (nonlinear_arith);
    assert(s.push(c).drop_last() =~= s);
}

/// What is written as a decimal reads back as the same number, and has no leading zero.
pub proof fn law_decimal_reads_back(n: nat)
    ensures
        digits_value(decimal_text(n), 10) == n,
        all_digits(decimal_text(n), 10),
        decimal_text(n).len() > 0,
        n > 0 ==> decimal_text(n)[0] != '0',
        n == 0 ==> decimal_text(n) == seq!['0'],
    decreases n,
{
    if n < 10 {
        let t = decimal_text(n);
        assert(t =~= seq![decimal_digit(n)]);
        law_digits_have_places(seq![], decimal_digit(n), 10);
    } else {
        law_decimal_reads_back(n / 10);
        let t = decimal_text(n / 10);
        let c = decimal_digit(n % 10);
        law_digits_have_places(t, c, 10);
        assert forall|i: int| 0 <= i < t.push(c).len() implies is_digit(
            #[trigger] t.push(c)[i],
            10,
        ) by {
            if i < t.len() {
                assert(t.push(c)[i] == t[i]);
            }
        }
        assert(t.push(c)[0] == t[0]);
    }
}

/// A signed number reads back with any sign, where it fits; digits alone are a number, and
/// anything else is none.
pub proof fn law_signed_numbers_read_back(n: nat)
    ensures
        n <= 0x7fff_ffff ==> i32_value(decimal_text(n)) == Some(n as int) && i32_value(
            seq!['+'] + decimal_text(n),
        ) == Some(n as int),
        n <= 0x8000_0000 ==> i32_value(seq!['-'] + decimal_text(n)) == Some(-(n as int)),
        n > 0x7fff_ffff ==> i32_value(decimal_text(n)) is None,
        n > 0x8000_0000 ==> i32_value(seq!['-'] + decimal_text(n)) is None,
{
    law_decimal_reads_back(n);
    let t = decimal_text(n);
    assert(is_digit(t[0], 10));
    assert((seq!['+'] + t).skip(1) =~= t);
    assert((seq!['-'] + t).skip(1) =~= t);
    assert((seq!['+'] + t)[0] == '+' && (seq!['-'] + t)[0] == '-');
}

/// A text that holds no digit, or a character behind its sign that is no digit, is no number.
pub proof fn law_other_texts_are_no_numbers(s: Seq<char>, i: int)
    ensures
        i32_value(seq![]) is None,
        u32_value(seq![]) is None,
        0 < i < s.len() && !is_digit(s[i], 10) ==> i32_value(s) is None && u32_value(s) is None,
        s.len() > 0 && !is_digit(s[0], 10) && s[0] != '+' ==> u32_value(s) is None,
        s.len() > 0 && !is_digit(s[0], 10) && s[0] != '+' && s[0] != '-' ==> i32_value(s) is None,
        s.len() == 1 && !is_digit(s[0], 10) ==> i32_value(s) is None && u32_value(s) is None,
{
    if 0 < i < s.len() {
        assert(s.skip(1)[i - 1] == s[i]);
    }
    if s.len() == 1 {
        assert(s.skip(1) =~= seq![]);
    }
}

/// An unsigned number reads back, with a plus sign or without, where it fits.
pub proof fn law_unsigned_numbers_read_back(n: nat)
    ensures
        n <= 0xffff_ffff ==> u32_value(decimal_text(n)) == Some(n) && u32_value(
            seq!['+'] + decimal_text(n),
        ) == Some(n),
        n > 0xffff_ffff ==> u32_value(decimal_text(n)) is None,
        n <= 0xffff_ffff_ffff_ffff ==> unsigned_value(decimal_text(n), 10) == Some(n),
        n > 0xffff_ffff_ffff_ffff ==> unsigned_value(decimal_text(n), 10) is None,
{
    law_decimal_reads_back(n);
    let t = decimal_text(n);
    assert(is_digit(t[0], 10));
    assert((seq!['+'] + t).skip(1) =~= t);
    assert((seq!['+'] + t)[0] == '+');
}

proof fn lemma_trimmed_core(a: Seq<char>, t: Seq<char>, b: Seq<char>)
    requires
        forall|i: int| 0 <= i < a.len() ==> is_white_space(#[trigger] a[i]),
        forall|i: int| 0 <= i < b.len() ==> is_white_space(#[trigger] b[i]),
        t.len() > 0,
        !is_white_space(t.first()),
        !is_white_space(t.last()),
    ensures
        trimmed(a + t + b) == t,
    decreases a.len() + b.len(),
{
    let s = a + t + b;
    if a.len() > 0 {
        assert(s.first() == a[0]);
        assert(s.drop_first() =~= a.drop_first() + t + b);
        lemma_trimmed_core(a.drop_first(), t, b);
    } else {
        assert(s =~= t + b);
        assert(s.first() == t[0]);
        assert(trim_front(s) == s);
        lemma_back_core(t, b);
    }
}

proof fn lemma_back_core(t: Seq<char>, b: Seq<char>)
    requires
        forall|i: int| 0 <= i < b.len() ==> is_white_space(#[trigger] b[i]),
        t.len() > 0,
        !is_white_space(t.last()),
    ensures
        trim_back(t + b) == t,
    decreases b.len(),
{
    if b.len() > 0 {
        assert((t + b).last() == b[b.len() - 1]);
        assert((t + b).drop_last() =~= t + b.drop_last());
        lemma_back_core(t, b.drop_last());
    } else {
        assert(t + b =~= t);
    }
}

/// An offset reads back as a decimal, or as hexadecimal digits behind `0x`, with any white
/// space around it.
pub proof fn law_offsets_read_back(n: nat, hex: Seq<char>, a: Seq<char>, b: Seq<char>)
    requires
        forall|i: int| 0 <= i < a.len() ==> is_white_space(#[trigger] a[i]),
        forall|i: int| 0 <= i < b.len() ==> is_white_space(#[trigger] b[i]),
        hex.len() > 0,
        all_digits(hex, 16),
    ensures
        n <= 0xffff_ffff_ffff_ffff ==> offset_value(a + decimal_text(n) + b) == Some(n),
        digits_value(hex, 16) <= 0xffff_ffff_ffff_ffff ==> offset_value(a + ("0x"@ + hex) + b)
            == Some(digits_value(hex, 16)),
        n > 0xffff_ffff_ffff_ffff ==> offset_value(a + decimal_text(n) + b) is None,
{
    reveal_strlit("0x");
    law_decimal_reads_back(n);
    law_unsigned_numbers_read_back(n);
    let t = decimal_text(n);
    assert(is_digit(t[0], 10) && is_digit(t[t.len() - 1], 10));
    lemma_trimmed_core(a, t, b);
    if begins_with(t, "0x"@) {
        assert(t.take(2)[1] == t[1]);
        assert(is_digit(t[1], 10));
    }
    let h = "0x"@ + hex;
    assert(is_digit(hex[hex.len() - 1], 16));
    assert(h.last() == hex[hex.len() - 1] && h.first() == '0');
    lemma_trimmed_core(a, h, b);
    assert(h.take(2) =~= "0x"@);
    assert(h.skip(2) =~= hex);
    assert(is_digit(hex[0], 16));
}

// ---- option values ------------------------------------------------------------------

proof fn lemma_whole_prefix(s: Seq<char>, base: nat)
    requires
        all_digits(s, base),
    ensures
        digit_prefix(s, base) == s,
    decreases s.len(),
{
    if s.len() > 0 {
        let t = s.drop_first();
        assert forall|i: int| 0 <= i < t.len() implies is_digit(#[trigger] t[i], base) by {
            assert(t[i] == s[i + 1]);
        }
        lemma_whole_prefix(t, base);
        assert(is_digit(s[0], base));
        assert(seq![s[0]] + t =~= s);
    } else {
        assert(digit_prefix(s, base) =~= s);
    }
}

/// The white space before an option value: blanks and the control characters from tab on.
pub proof fn law_field_space_by_code(c: char)
    ensures
        is_field_space(c) <==> c as u32 == 32 || 9 <= c as u32 <= 13,
{
}

/// An option value reads in the base that its beginning tells: digits that do not begin with
/// zero are decimal, digits behind `0x` or `0X` hexadecimal, others octal. A sign before it
/// is the sign of the number.
pub proof fn law_values_read_in_their_base(s: Seq<char>)
    ensures
        s.len() > 0 && all_digits(s, 10) && s[0] != '0' ==> {
            &&& signed_field(s) == Some((false, digits_value(s, 10)))
            &&& signed_field(seq!['+'] + s) == Some((false, digits_value(s, 10)))
            &&& signed_field(seq!['-'] + s) == Some((true, digits_value(s, 10)))
        },
        all_digits(s, 16) ==> {
            &&& signed_field(seq!['0', 'x'] + s) == Some((false, digits_value(s, 16)))
            &&& signed_field(seq!['0', 'X'] + s) == Some((false, digits_value(s, 16)))
            &&& signed_field(seq!['-', '0', 'x'] + s) == Some((true, digits_value(s, 16)))
        },
        s.len() > 0 && s[0] == '0' && all_digits(s, 8) ==> {
            &&& signed_field(s) == Some((false, digits_value(s, 8)))
            &&& signed_field(seq!['-'] + s) == Some((true, digits_value(s, 8)))
        },
{
    if s.len() > 0 && all_digits(s, 10) && s[0] != '0' {
        lemma_whole_prefix(s, 10);
        assert(is_digit(s[0], 10));
        assert(leading_spaces(s) == 0);
        assert(s.skip(0) =~= s);
        lemma_signed(s, '+');
        lemma_signed(s, '-');
    }
    if all_digits(s, 16) {
        lemma_whole_prefix(s, 16);
        let x = seq!['0', 'x'] + s;
        let y = seq!['0', 'X'] + s;
        assert(x.skip(2) =~= s && y.skip(2) =~= s);
        assert(x[0] == '0' && x[1] == 'x' && y[0] == '0' && y[1] == 'X');
        assert(leading_spaces(x) == 0 && leading_spaces(y) == 0);
        assert(x.skip(0) =~= x && y.skip(0) =~= y);
        lemma_signed(x, '-');
        assert(seq!['-'] + x =~= seq!['-', '0', 'x'] + s);
    }
    if s.len() > 0 && s[0] == '0' && all_digits(s, 8) {
        lemma_whole_prefix(s, 8);
        if s.len() >= 2 {
            assert(is_digit(s[1], 8));
        }
        assert(leading_spaces(s) == 0);
        assert(s.skip(0) =~= s);
        lemma_signed(s, '-');
    }
}

proof fn lemma_signed(s: Seq<char>, sign: char)
    requires
        sign == '+' || sign == '-',
    ensures
        signed_field(seq![sign] + s) == Some((sign == '-', field_magnitude(s))),
{
    let t = seq![sign] + s;
    assert(t[0] == sign);
    assert(leading_spaces(t) == 0);
    assert(t.skip(0) =~= t);
    assert(t.skip(1) =~= s);
}

} // verus!
