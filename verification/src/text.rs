//! Text helpers: comparison, concatenation, trimming, ordering and the decimal
//! and radix readings of numbers. Every function works on the characters of a
//! string, `s@`.

use vstd::prelude::*;
use vstd::string::*;
use vstd::utf8::*;

verus! {

/// The characters of `s`, one by one.
pub fn chars_of(s: &str) -> (cs: Vec<char>)
    ensures
        cs@ == s@,
{
    let mut cs: Vec<char> = Vec::new();
    for c in it: s.chars()
        invariant
            it.seq() == s@,
            cs@ == s@.take(it.index() as int),
    {
        cs.push(c);
        assert(cs@ =~= s@.take(it.index() + 1));
    }
    assert(s@.take(s@.len() as int) =~= s@);
    cs
}

/// Whether two strings hold the same characters.
pub fn same_text(a: &str, b: &str) -> (r: bool)
    ensures
        r == (a@ == b@),
{
    let x = a.as_bytes();
    let y = b.as_bytes();
    proof {
        broadcast use encode_utf8_decode_utf8;
        assert(decode_utf8(encode_utf8(a@)) == a@);
        assert(decode_utf8(encode_utf8(b@)) == b@);
    }
    if x.len() != y.len() {
        return false;
    }
    let mut i: usize = 0;
    while i < x.len()
        invariant
            i <= x@.len(),
            x@.len() == y@.len(),
            x@ == encode_utf8(a@),
            y@ == encode_utf8(b@),
            forall|j: int| 0 <= j < i ==> x@[j] == y@[j],
        decreases x@.len() - i,
    {
        if x[i] != y[i] {
            return false;
        }
        i += 1;
    }
    assert(x@ =~= y@);
    true
}

/// `a` followed by `b`.
pub fn join2(a: &str, b: &str) -> (r: String)
    ensures
        r@ == a@ + b@,
{
    let mut r = String::from_str(a);
    r.append(b);
    r
}

/// `a` followed by `b` and `c`.
pub fn join3(a: &str, b: &str, c: &str) -> (r: String)
    ensures
        r@ == a@ + b@ + c@,
{
    let mut r = String::from_str(a);
    r.append(b);
    r.append(c);
    r
}

/// The Unicode `White_Space` characters.
pub open spec fn is_white_space(c: char) -> bool {
    ||| '\u{9}' <= c <= '\u{d}'
    ||| c == '\u{20}'
    ||| c == '\u{85}'
    ||| c == '\u{a0}'
    ||| c == '\u{1680}'
    ||| '\u{2000}' <= c <= '\u{200a}'
    ||| c == '\u{2028}'
    ||| c == '\u{2029}'
    ||| c == '\u{202f}'
    ||| c == '\u{205f}'
    ||| c == '\u{3000}'
}

/// Whether `c` is a Unicode `White_Space` character.
pub fn white_space(c: char) -> (r: bool)
    ensures
        r == is_white_space(c),
{
    ('\u{9}' <= c && c <= '\u{d}') || c == '\u{20}' || c == '\u{85}' || c == '\u{a0}' || c
        == '\u{1680}' || ('\u{2000}' <= c && c <= '\u{200a}') || c == '\u{2028}' || c == '\u{2029}'
        || c == '\u{202f}' || c == '\u{205f}' || c == '\u{3000}'
}

/// `s` without its leading white space.
pub open spec fn trim_front(s: Seq<char>) -> Seq<char>
    decreases s.len(),
{
    if s.len() > 0 && is_white_space(s.first()) {
        trim_front(s.drop_first())
    } else {
        s
    }
}

/// `s` without its trailing white space.
pub open spec fn trim_back(s: Seq<char>) -> Seq<char>
    decreases s.len(),
{
    if s.len() > 0 && is_white_space(s.last()) {
        trim_back(s.drop_last())
    } else {
        s
    }
}

/// `s` without white space at either end.
pub open spec fn trimmed(s: Seq<char>) -> Seq<char> {
    trim_back(trim_front(s))
}

/// `s` without white space at either end.
pub fn trim(s: &str) -> (r: &str)
    ensures
        r@ == trimmed(s@),
{
    let cs = chars_of(s);
    let mut i: usize = 0;
    proof {
        assert(s@.skip(0) =~= s@);
    }
    while i < cs.len() && white_space(cs[i])
        invariant
            i <= cs@.len(),
            cs@ == s@,
            trim_front(s@) == trim_front(s@.skip(i as int)),
        decreases cs@.len() - i,
    {
        proof {
            assert(s@.skip(i as int).drop_first() =~= s@.skip(i as int + 1));
        }
        i += 1;
    }
    assert(trim_front(s@) == s@.skip(i as int));
    let mut j: usize = cs.len();
    proof {
        assert(s@.subrange(i as int, j as int) =~= s@.skip(i as int));
    }
    while i < j && white_space(cs[j - 1])
        invariant
            i <= j <= cs@.len(),
            cs@ == s@,
            trimmed(s@) == trim_back(s@.subrange(i as int, j as int)),
        decreases j,
    {
        proof {
            assert(s@.subrange(i as int, j as int).drop_last() =~= s@.subrange(
                i as int,
                j as int - 1,
            ));
        }
        j -= 1;
    }
    s.substring_char(i, j)
}

/// The value of `c` as a digit of base sixteen or less: `0..=9`, then `a..=f` in
/// either case.
pub open spec fn digit_value(c: char) -> Option<nat> {
    if '0' <= c <= '9' {
        Some((c as int - '0' as int) as nat)
    } else if 'a' <= c <= 'f' {
        Some((c as int - 'a' as int + 10) as nat)
    } else if 'A' <= c <= 'F' {
        Some((c as int - 'A' as int + 10) as nat)
    } else {
        None
    }
}

/// Whether `c` is a digit of the base.
pub open spec fn is_digit(c: char, base: nat) -> bool {
    digit_value(c) is Some && digit_value(c)->0 < base
}

/// The value of `c` as a digit of the base, or `None` where it is none.
pub fn digit(c: char, base: u64) -> (r: Option<u64>)
    ensures
        r is Some <==> is_digit(c, base as nat),
        r is Some ==> r->0 == digit_value(c)->0,
{
    let d: u64 = if '0' <= c && c <= '9' {
        (c as u32 - '0' as u32) as u64
    } else if 'a' <= c && c <= 'f' {
        (c as u32 - 'a' as u32 + 10) as u64
    } else if 'A' <= c && c <= 'F' {
        (c as u32 - 'A' as u32 + 10) as u64
    } else {
        return None;
    };
    if d < base {
        Some(d)
    } else {
        None
    }
}

/// Whether every character of `s` is a digit of the base.
pub open spec fn all_digits(s: Seq<char>, base: nat) -> bool {
    forall|i: int| 0 <= i < s.len() ==> is_digit(#[trigger] s[i], base)
}

/// The number that the digits of `s` write in the base, most significant first.
pub open spec fn digits_value(s: Seq<char>, base: nat) -> nat
    decreases s.len(),
{
    if s.len() == 0 {
        0
    } else {
        digits_value(s.drop_last(), base) * base + digit_value(s.last())->0
    }
}

/// The digits `cs[from..]`, read in the base: `None` where there is none, where
/// a character is no digit, or where the number does not fit 64 bits.
fn read_digits(cs: &Vec<char>, from: usize, base: u64) -> (r: Option<u64>)
    requires
        from <= cs@.len(),
        2 <= base <= 16,
    ensures
        ({
            let body = cs@.skip(from as int);
            &&& r is Some <==> (body.len() > 0 && all_digits(body, base as nat) && digits_value(
                body,
                base as nat,
            ) <= u64::MAX)
            &&& r is Some ==> r->0 == digits_value(body, base as nat)
        }),
{
    let ghost body = cs@.skip(from as int);
    if from == cs.len() {
        return None;
    }
    let mut i: usize = from;
    let mut val: u64 = 0;
    let mut fits: bool = true;
    assert(body.take(0) =~= Seq::<char>::empty());
    while i < cs.len()
        invariant
            from <= i <= cs@.len(),
            2 <= base <= 16,
            body == cs@.skip(from as int),
            all_digits(body.take(i - from), base as nat),
            fits ==> val == digits_value(body.take(i - from), base as nat),
            !fits ==> digits_value(body.take(i - from), base as nat) > u64::MAX,
        decreases cs@.len() - i,
    {
        proof {
            assert(body[i - from] == cs@[i as int]);
            assert(body.take(i - from + 1).drop_last() =~= body.take(i - from));
        }
        match digit(cs[i], base) {
            None => {
                return None;
            },
            Some(d) => {
                let ghost before = digits_value(body.take(i - from), base as nat);
                assert(digits_value(body.take(i - from + 1), base as nat) == before * (
                base as nat) + d);
                assert(before * (base as nat) >= before) by (nonlinear_arith)
                    requires
                        base >= 1,
                ;
                if fits {
                    if val > (u64::MAX - d) / base {
                        fits = false;
                        assert(before * (base as nat) + d > u64::MAX) by (nonlinear_arith)
                            requires
                                before == val,
                                val > (u64::MAX - d) / (base as int),
                                base >= 2,
                                0 <= d <= u64::MAX,
                        ;
                    } else {
                        assert(val * base + d <= u64::MAX) by (nonlinear_arith)
                            requires
                                val <= (u64::MAX - d) / (base as int),
                                base >= 2,
                                0 <= d <= u64::MAX,
                        ;
                        val = val * base + d;
                    }
                }
                assert(all_digits(body.take(i - from + 1), base as nat)) by {
                    assert forall|k: int| 0 <= k < i - from + 1 implies is_digit(
                        #[trigger] body.take(i - from + 1)[k],
                        base as nat,
                    ) by {
                        if k < i - from {
                            assert(body.take(i - from)[k] == body[k]);
                        }
                    }
                }
                i += 1;
            },
        }
    }
    assert(body.take(i - from) =~= body);
    if fits {
        Some(val)
    } else {
        None
    }
}

/// The unsigned number that `s` writes in the base: an optional `+`, then one or
/// more digits and nothing else. `None` where `s` is not of that form or the
/// number does not fit 64 bits.
pub open spec fn unsigned_value(s: Seq<char>, base: nat) -> Option<nat> {
    let body = if s.len() > 0 && s[0] == '+' {
        s.skip(1)
    } else {
        s
    };
    if body.len() > 0 && all_digits(body, base) && digits_value(body, base) <= u64::MAX {
        Some(digits_value(body, base))
    } else {
        None
    }
}

/// Read `s` as an unsigned number of the base.
pub fn parse_unsigned(s: &str, base: u64) -> (r: Option<u64>)
    requires
        2 <= base <= 16,
    ensures
        r is Some <==> unsigned_value(s@, base as nat) is Some,
        r is Some ==> r->0 == unsigned_value(s@, base as nat)->0,
{
    let cs = chars_of(s);
    let from: usize = if cs.len() > 0 && cs[0] == '+' {
        1
    } else {
        0
    };
    assert(from == 0 ==> cs@.skip(0) =~= cs@);
    read_digits(&cs, from, base)
}

/// `unsigned_value` in base ten, held to 32 bits.
pub open spec fn u32_value(s: Seq<char>) -> Option<nat> {
    match unsigned_value(s, 10) {
        Some(v) => if v <= u32::MAX {
            Some(v)
        } else {
            None
        },
        None => None,
    }
}

/// Read `s` as an unsigned decimal of 32 bits.
pub fn parse_u32(s: &str) -> (r: Option<u32>)
    ensures
        r is Some <==> u32_value(s@) is Some,
        r is Some ==> r->0 == u32_value(s@)->0,
{
    match parse_unsigned(s, 10) {
        Some(v) => if v <= u32::MAX as u64 {
            Some(v as u32)
        } else {
            None
        },
        None => None,
    }
}

/// The signed decimal that `s` writes: an optional sign, then one or more digits
/// and nothing else. `None` where `s` is not of that form or the number does not
/// fit 32 bits.
pub open spec fn i32_value(s: Seq<char>) -> Option<int> {
    let signed = s.len() > 0 && (s[0] == '+' || s[0] == '-');
    let body = if signed {
        s.skip(1)
    } else {
        s
    };
    let mag = digits_value(body, 10) as int;
    let v = if signed && s[0] == '-' {
        -mag
    } else {
        mag
    };
    if body.len() > 0 && all_digits(body, 10) && i32::MIN <= v <= i32::MAX {
        Some(v)
    } else {
        None
    }
}

/// Read `s` as a signed decimal of 32 bits.
pub fn parse_i32(s: &str) -> (r: Option<i32>)
    ensures
        r is Some <==> i32_value(s@) is Some,
        r is Some ==> r->0 == i32_value(s@)->0,
{
    let cs = chars_of(s);
    let signed = cs.len() > 0 && (cs[0] == '+' || cs[0] == '-');
    let negative = signed && cs[0] == '-';
    let from: usize = if signed {
        1
    } else {
        0
    };
    assert(from == 0 ==> cs@.skip(0) =~= cs@);
    match read_digits(&cs, from, 10) {
        None => None,
        Some(mag) => if negative {
            if mag <= 0x8000_0000 {
                Some((-(mag as i64)) as i32)
            } else {
                None
            }
        } else if mag <= 0x7fff_ffff {
            Some(mag as i32)
        } else {
            None
        },
    }
}

/// Whether `s` begins with `prefix`.
pub open spec fn begins_with(s: Seq<char>, prefix: Seq<char>) -> bool {
    prefix.len() <= s.len() && s.take(prefix.len() as int) == prefix
}

/// What follows `prefix` in `s`, or `None` where `s` does not begin with it.
pub fn strip_prefix<'a>(s: &'a str, prefix: &str) -> (r: Option<&'a str>)
    ensures
        r is Some <==> begins_with(s@, prefix@),
        r is Some ==> (r->0)@ == s@.skip(prefix@.len() as int),
{
    let n: usize = s.unicode_len();
    let m: usize = prefix.unicode_len();
    if m > n {
        return None;
    }
    let head = s.substring_char(0, m);
    assert(s@.take(m as int) =~= head@);
    if same_text(head, prefix) {
        let rest = s.substring_char(m, n);
        assert(rest@ =~= s@.skip(m as int));
        Some(rest)
    } else {
        None
    }
}

/// The offset that a spec attribute writes: white space at the ends is dropped,
/// `0x` opens a hexadecimal number, anything else is a decimal.
pub open spec fn offset_value(s: Seq<char>) -> Option<nat> {
    let t = trimmed(s);
    if begins_with(t, "0x"@) {
        unsigned_value(t.skip(2), 16)
    } else {
        unsigned_value(t, 10)
    }
}

/// Read a decimal or `0x`-hexadecimal offset.
pub fn parse_int(s: &str) -> (r: Option<u64>)
    ensures
        r is Some <==> offset_value(s@) is Some,
        r is Some ==> r->0 == offset_value(s@)->0,
{
    proof {
        reveal_strlit("0x");
    }
    let t = trim(s);
    match strip_prefix(t, "0x") {
        Some(hex) => parse_unsigned(hex, 16),
        None => parse_unsigned(t, 10),
    }
}

/// The decimal digit of `d`.
pub open spec fn decimal_digit(d: nat) -> char {
    if d == 0 {
        '0'
    } else if d == 1 {
        '1'
    } else if d == 2 {
        '2'
    } else if d == 3 {
        '3'
    } else if d == 4 {
        '4'
    } else if d == 5 {
        '5'
    } else if d == 6 {
        '6'
    } else if d == 7 {
        '7'
    } else if d == 8 {
        '8'
    } else {
        '9'
    }
}

/// The decimal text of `n`, without leading zeros.
pub open spec fn decimal_text(n: nat) -> Seq<char>
    decreases n,
{
    if n < 10 {
        seq![decimal_digit(n)]
    } else {
        decimal_text(n / 10).push(decimal_digit(n % 10))
    }
}

/// The one-digit text of `d`.
fn digit_text(d: u64) -> (r: &'static str)
    requires
        d < 10,
    ensures
        r@ == seq![decimal_digit(d as nat)],
{
    proof {
        reveal_strlit("0");
        reveal_strlit("1");
        reveal_strlit("2");
        reveal_strlit("3");
        reveal_strlit("4");
        reveal_strlit("5");
        reveal_strlit("6");
        reveal_strlit("7");
        reveal_strlit("8");
        reveal_strlit("9");
    }
    let r = if d == 0 {
        "0"
    } else if d == 1 {
        "1"
    } else if d == 2 {
        "2"
    } else if d == 3 {
        "3"
    } else if d == 4 {
        "4"
    } else if d == 5 {
        "5"
    } else if d == 6 {
        "6"
    } else if d == 7 {
        "7"
    } else if d == 8 {
        "8"
    } else {
        "9"
    };
    assert(r@ =~= seq![decimal_digit(d as nat)]);
    r
}

/// The decimal text of `n`, without leading zeros.
pub fn decimal(n: u64) -> (r: String)
    ensures
        r@ == decimal_text(n as nat),
    decreases n,
{
    if n < 10 {
        String::from_str(digit_text(n))
    } else {
        let head = decimal(n / 10);
        let r = join2(head.as_str(), digit_text(n % 10));
        assert(r@ =~= decimal_text(n as nat));
        r
    }
}

/// The lower-case letter of an upper-case ASCII letter; any other character stays.
pub open spec fn lower(c: char) -> char {
    if 'A' <= c <= 'Z' {
        ((c as u8) + 32) as u8 as char
    } else {
        c
    }
}

/// `s` with its upper-case ASCII letters in lower case.
pub open spec fn lowered(s: Seq<char>) -> Seq<char> {
    s.map_values(|c: char| lower(c))
}

/// The one-letter text of the lower-case form of an upper-case letter.
fn lower_letter(c: char) -> (r: &'static str)
    requires
        'A' <= c <= 'Z',
    ensures
        r@ == seq![lower(c)],
{
    let letters = "abcdefghijklmnopqrstuvwxyz";
    proof {
        reveal_strlit("abcdefghijklmnopqrstuvwxyz");
    }
    let k: usize = (c as u32 - 'A' as u32) as usize;
    let r = letters.substring_char(k, k + 1);
    assert(r@ =~= seq![letters@[k as int]]);
    assert(letters@[k as int] == lower(c));
    r
}

/// `s` with its upper-case ASCII letters in lower case.
pub fn to_lower(s: &str) -> (r: String)
    ensures
        r@ == lowered(s@),
{
    let cs = chars_of(s);
    let mut r = String::new();
    let mut i: usize = 0;
    assert(r@ =~= lowered(s@.take(0)));
    while i < cs.len()
        invariant
            i <= cs@.len(),
            cs@ == s@,
            r@ == lowered(s@.take(i as int)),
        decreases cs@.len() - i,
    {
        let c = cs[i];
        if 'A' <= c && c <= 'Z' {
            r.append(lower_letter(c));
        } else {
            r.append(s.substring_char(i, i + 1));
        }
        assert(r@ =~= lowered(s@.take(i + 1)));
        i += 1;
    }
    assert(s@.take(i as int) =~= s@);
    r
}

/// Lexicographic order by character code.
pub open spec fn text_before(a: Seq<char>, b: Seq<char>) -> bool
    decreases a.len(),
{
    if b.len() == 0 {
        false
    } else if a.len() == 0 {
        true
    } else if a[0] != b[0] {
        a[0] < b[0]
    } else {
        text_before(a.drop_first(), b.drop_first())
    }
}

/// Exactly one of `a` before `b`, `b` before `a`, `a` equal to `b` holds.
pub proof fn lemma_text_before_total(a: Seq<char>, b: Seq<char>)
    ensures
        text_before(a, b) || text_before(b, a) || a == b,
        !(text_before(a, b) && text_before(b, a)),
        a == b ==> !text_before(a, b),
    decreases a.len(),
{
    if a.len() > 0 && b.len() > 0 && a[0] == b[0] {
        lemma_text_before_total(a.drop_first(), b.drop_first());
        if a.drop_first() == b.drop_first() {
            assert(a =~= seq![a[0]] + a.drop_first());
            assert(b =~= seq![b[0]] + b.drop_first());
        }
    } else if a.len() == 0 && b.len() == 0 {
        assert(a =~= b);
    }
}

/// The order is transitive.
pub proof fn lemma_text_before_transitive(a: Seq<char>, b: Seq<char>, c: Seq<char>)
    requires
        text_before(a, b),
        text_before(b, c),
    ensures
        text_before(a, c),
    decreases a.len(),
{
    if a.len() > 0 && b.len() > 0 && c.len() > 0 && a[0] == b[0] && b[0] == c[0] {
        lemma_text_before_transitive(a.drop_first(), b.drop_first(), c.drop_first());
    }
}

/// Whether `a` comes before `b` in the order of character codes.
pub fn before(a: &str, b: &str) -> (r: bool)
    ensures
        r == text_before(a@, b@),
{
    let x = chars_of(a);
    let y = chars_of(b);
    let mut i: usize = 0;
    assert(a@.skip(0) =~= a@);
    assert(b@.skip(0) =~= b@);
    while i < x.len() && i < y.len() && x[i] == y[i]
        invariant
            i <= x@.len(),
            i <= y@.len(),
            x@ == a@,
            y@ == b@,
            text_before(a@, b@) == text_before(a@.skip(i as int), b@.skip(i as int)),
        decreases x@.len() - i,
    {
        proof {
            assert(a@.skip(i as int).drop_first() =~= a@.skip(i as int + 1));
            assert(b@.skip(i as int).drop_first() =~= b@.skip(i as int + 1));
        }
        i += 1;
    }
    if i == y.len() {
        false
    } else if i == x.len() {
        true
    } else {
        x[i] < y[i]
    }
}

} // verus!
