//! Text rendering of integers: decimal digits, and zero-padded upper-case
//! hexadecimal with a `0x` prefix (what `format!` renders for `{}` and
//! `{:#0width$X}`).

use vstd::prelude::*;

verus! {

/// The character of a digit below sixteen: `0`-`9`, then `A`-`F`.
pub open spec fn digit_char(d: nat) -> char {
    if d < 10 {
        ('0' as nat + d) as char
    } else {
        ('A' as nat + (d - 10)) as char
    }
}

/// The decimal digits of `n`, most significant first, without leading zeros.
pub open spec fn decimal_digits(n: nat) -> Seq<char>
    decreases n,
{
    if n < 10 {
        seq![digit_char(n)]
    } else {
        decimal_digits(n / 10).push(digit_char(n % 10))
    }
}

/// The upper-case hexadecimal digits of `n`, most significant first, without
/// leading zeros.
pub open spec fn hex_digits(n: nat) -> Seq<char>
    decreases n,
{
    if n < 16 {
        seq![digit_char(n)]
    } else {
        hex_digits(n / 16).push(digit_char(n % 16))
    }
}

/// The text of `val` in decimal.
pub open spec fn decimal_literal(val: u32) -> Seq<char> {
    decimal_digits(val as nat)
}

/// The text of `val` as `0x` and its upper-case hexadecimal digits, with
/// zeros after the prefix until the text is `width` characters long.
pub open spec fn hex_literal(val: u32, width: usize) -> Seq<char> {
    let digits = hex_digits(val as nat);
    let pad: nat = if width > digits.len() + 2 {
        (width - digits.len() - 2) as nat
    } else {
        0
    };
    seq!['0', 'x'] + Seq::new(pad, |i: int| '0') + digits
}

/// The value of a digit character: `0`-`9` are zero to nine, `A`-`F` ten to
/// fifteen; any other character has no digit value.
pub open spec fn char_value(c: char) -> Option<nat> {
    if '0' <= c && c <= '9' {
        Some((c as nat - '0' as nat) as nat)
    } else if 'A' <= c && c <= 'F' {
        Some((c as nat - 'A' as nat + 10) as nat)
    } else {
        None
    }
}

/// Whether `c` is a digit of the given base.
pub open spec fn is_digit(c: char, base: nat) -> bool {
    match char_value(c) {
        Some(v) => v < base,
        None => false,
    }
}

/// Whether every character of `s` is a digit of the given base.
pub open spec fn all_digits(s: Seq<char>, base: nat) -> bool {
    forall|i: int| 0 <= i < s.len() ==> #[trigger] is_digit(s[i], base)
}

/// The number that the digits `s` denote in the given base, most significant first.
pub open spec fn digits_value(s: Seq<char>, base: nat) -> nat
    decreases s.len(),
{
    if s.len() == 0 {
        0
    } else {
        digits_value(s.drop_last(), base) * base + match char_value(s.last()) {
            Some(v) => v,
            None => 0,
        }
    }
}

/// A digit below sixteen is rendered as the character whose digit value it
/// is: `0` to `9` for zero to nine, `A` to `F` for ten to fifteen.
pub proof fn lemma_digit_char_value(d: nat)
    requires
        d < 16,
    ensures
        char_value(digit_char(d)) == Some(d),
        d < 10 ==> digit_char(d) == ('0' as nat + d) as char,
        d >= 10 ==> digit_char(d) == ('A' as nat + (d - 10)) as char,
{
}

/// No two digits below sixteen are rendered as the same character.
pub proof fn lemma_digit_chars_distinct(d1: nat, d2: nat)
    requires
        d1 < 16,
        d2 < 16,
        digit_char(d1) == digit_char(d2),
    ensures
        d1 == d2,
{
    lemma_digit_char_value(d1);
    lemma_digit_char_value(d2);
}

/// Appending a digit multiplies the value read so far by the base and adds
/// the digit.
proof fn lemma_digits_value_push(s: Seq<char>, c: char, base: nat)
    ensures
        digits_value(s.push(c), base) == digits_value(s, base) * base + match char_value(c) {
            Some(v) => v,
            None => 0,
        },
{
    assert(s.push(c).drop_last() =~= s);
}

/// Zeros in front of a numeral do not change the number it denotes.
proof fn lemma_leading_zeros(zeros: Seq<char>, d: Seq<char>, base: nat)
    requires
        forall|i: int| 0 <= i < zeros.len() ==> zeros[i] == '0',
    ensures
        digits_value(zeros + d, base) == digits_value(d, base),
    decreases d.len(), zeros.len(),
{
    if d.len() == 0 {
        assert(zeros + d =~= zeros);
        if zeros.len() > 0 {
            lemma_leading_zeros(zeros.drop_last(), d, base);
            assert(zeros.drop_last() + d =~= zeros.drop_last());
            assert(zeros.last() == '0');
            assert(digits_value(zeros, base) == digits_value(zeros.drop_last(), base) * base + 0);
            assert(digits_value(zeros.drop_last(), base) == 0);
            assert(digits_value(zeros, base) == 0) by (nonlinear_arith)
                requires
                    digits_value(zeros, base) == digits_value(zeros.drop_last(), base) * base + 0,
                    digits_value(zeros.drop_last(), base) == 0,
            ;
        }
    } else {
        lemma_leading_zeros(zeros, d.drop_last(), base);
        assert((zeros + d).drop_last() =~= zeros + d.drop_last());
        assert((zeros + d).last() == d.last());
    }
}

/// Every character of a concatenation of digit strings is a digit.
proof fn lemma_all_digits_concat(a: Seq<char>, b: Seq<char>, base: nat)
    requires
        all_digits(a, base),
        all_digits(b, base),
    ensures
        all_digits(a + b, base),
{
    assert forall|i: int| 0 <= i < (a + b).len() implies #[trigger] is_digit((a + b)[i], base) by {
        if i < a.len() {
            assert((a + b)[i] == a[i]);
        } else {
            assert((a + b)[i] == b[i - a.len()]);
        }
    }
}

/// The decimal rendering of `n` is the base-10 numeral of `n`: it consists of
/// decimal digits only, reads back as `n`, and has no leading zero (it is
/// `0` itself only for zero).
pub proof fn lemma_decimal_digits_denote(n: nat)
    ensures
        all_digits(decimal_digits(n), 10),
        digits_value(decimal_digits(n), 10) == n,
        decimal_digits(n).len() >= 1,
        decimal_digits(n)[0] == '0' ==> n == 0,
        n < 10 ==> decimal_digits(n) == seq![('0' as nat + n) as char],
    decreases n,
{
    if n < 10 {
        lemma_digit_char_value(n);
        assert(decimal_digits(n) =~= Seq::<char>::empty().push(digit_char(n)));
        lemma_digits_value_push(Seq::<char>::empty(), digit_char(n), 10);
    } else {
        lemma_decimal_digits_denote(n / 10);
        lemma_digit_char_value(n % 10);
        let s = decimal_digits(n);
        assert(s.drop_last() =~= decimal_digits(n / 10));
        lemma_digits_value_push(decimal_digits(n / 10), digit_char(n % 10), 10);
        vstd::arithmetic::div_mod::lemma_fundamental_div_mod(n as int, 10);
        assert(digits_value(s, 10) == (n / 10) * 10 + n % 10);
        assert((n / 10) * 10 + n % 10 == n) by (nonlinear_arith)
            requires
                n == 10 * (n / 10) + (n % 10),
        ;
        assert forall|i: int| 0 <= i < s.len() implies #[trigger] is_digit(s[i], 10) by {
            if i < s.len() - 1 {
                assert(s[i] == decimal_digits(n / 10)[i]);
            }
        }
        assert(s[0] == decimal_digits(n / 10)[0]);
    }
}

/// The hexadecimal rendering of `n` is the base-16 numeral of `n`: it
/// consists of hexadecimal digits only, reads back as `n`, and has no leading
/// zero (it is `0` itself only for zero).
pub proof fn lemma_hex_digits_denote(n: nat)
    ensures
        all_digits(hex_digits(n), 16),
        digits_value(hex_digits(n), 16) == n,
        hex_digits(n).len() >= 1,
        hex_digits(n)[0] == '0' ==> n == 0,
    decreases n,
{
    if n < 16 {
        lemma_digit_char_value(n);
        assert(hex_digits(n) =~= Seq::<char>::empty().push(digit_char(n)));
        lemma_digits_value_push(Seq::<char>::empty(), digit_char(n), 16);
    } else {
        lemma_hex_digits_denote(n / 16);
        lemma_digit_char_value(n % 16);
        let s = hex_digits(n);
        assert(s.drop_last() =~= hex_digits(n / 16));
        lemma_digits_value_push(hex_digits(n / 16), digit_char(n % 16), 16);
        vstd::arithmetic::div_mod::lemma_fundamental_div_mod(n as int, 16);
        assert(digits_value(s, 16) == (n / 16) * 16 + n % 16);
        assert((n / 16) * 16 + n % 16 == n) by (nonlinear_arith)
            requires
                n == 16 * (n / 16) + (n % 16),
        ;
        assert forall|i: int| 0 <= i < s.len() implies #[trigger] is_digit(s[i], 16) by {
            if i < s.len() - 1 {
                assert(s[i] == hex_digits(n / 16)[i]);
            }
        }
        assert(s[0] == hex_digits(n / 16)[0]);
    }
}

/// Sixteen to the power `k`.
pub open spec fn pow16(k: nat) -> nat
    decreases k,
{
    if k == 0 {
        1
    } else {
        16 * pow16((k - 1) as nat)
    }
}

/// A number below `16^k` has at most `k` hexadecimal digits.
pub proof fn lemma_hex_digits_len_bound(n: nat, k: nat)
    requires
        k >= 1,
        n < pow16(k),
    ensures
        hex_digits(n).len() <= k,
    decreases n,
{
    if n >= 16 {
        let p = pow16((k - 1) as nat);
        if k == 1 {
            assert(pow16(0) == 1);
            assert(false);
        }
        assert(n / 16 < p) by (nonlinear_arith)
            requires
                n < 16 * p,
        ;
        lemma_hex_digits_len_bound(n / 16, (k - 1) as nat);
    }
}

/// The hexadecimal text of `val` is `0x`, then zeros, then the base-16
/// numeral of `val`; it is at least `width` characters long, and exactly that
/// long whenever it holds any padding zero.
pub proof fn lemma_hex_literal_denotes(val: u32, width: usize)
    ensures
        ({
            let t = hex_literal(val, width);
            let d = hex_digits(val as nat);
            &&& t.len() >= d.len() + 2
            &&& t[0] == '0' && t[1] == 'x'
            &&& forall|i: int| 2 <= i < t.len() - d.len() ==> #[trigger] t[i] == '0'
            &&& t.subrange(t.len() - d.len(), t.len() as int) == d
            &&& t.len() >= width
            &&& t.len() > d.len() + 2 ==> t.len() == width
        }),
        all_digits(hex_literal(val, width).subrange(2, hex_literal(val, width).len() as int), 16),
        digits_value(hex_literal(val, width).subrange(2, hex_literal(val, width).len() as int), 16)
            == val,
        hex_literal(val, width).len() > width ==> hex_literal(val, width)[2] == hex_digits(
            val as nat,
        )[0],
{
    lemma_hex_digits_denote(val as nat);
    let digits = hex_digits(val as nat);
    let pad: nat = if width > digits.len() + 2 {
        (width - digits.len() - 2) as nat
    } else {
        0
    };
    let t = hex_literal(val, width);
    let zeros = Seq::new(pad, |i: int| '0');
    assert(t == seq!['0', 'x'] + zeros + digits);
    assert(t.subrange(t.len() - digits.len(), t.len() as int) =~= digits);
    let tail = t.subrange(2, t.len() as int);
    assert(tail =~= zeros + digits);
    lemma_leading_zeros(zeros, digits, 16);
    assert(all_digits(zeros, 16)) by {
        assert forall|i: int| 0 <= i < zeros.len() implies #[trigger] is_digit(zeros[i], 16) by {
            assert(zeros[i] == '0');
        }
    }
    lemma_all_digits_concat(zeros, digits, 16);
    if t.len() > width {
        assert(pad == 0);
        assert(t[2] == digits[0]);
    }
}

/// The one-character text of a digit below sixteen.
fn digit_str(d: u32) -> (r: &'static str)
    requires
        d < 16,
    ensures
        r@ == seq![digit_char(d as nat)],
{
    proof {
        reveal_strlit("0");
        reveal_strlit("1");
        reveal_strlit("2");
        reveal_strlit("3");
        reveal_strlit("4");
        reveal_strlit("5");
        reveal_strlit("6");
        reveal_strlit("7");
        reveal_strlit("8");
        reveal_strlit("9");
        reveal_strlit("A");
        reveal_strlit("B");
        reveal_strlit("C");
        reveal_strlit("D");
        reveal_strlit("E");
        reveal_strlit("F");
    }
    match d {
        0 => "0",
        1 => "1",
        2 => "2",
        3 => "3",
        4 => "4",
        5 => "5",
        6 => "6",
        7 => "7",
        8 => "8",
        9 => "9",
        10 => "A",
        11 => "B",
        12 => "C",
        13 => "D",
        14 => "E",
        _ => "F",
    }
}

/// Renders the decimal digits of `val`.
fn decimal_string(val: u32) -> (r: String)
    ensures
        r@ == decimal_digits(val as nat),
    decreases val,
{
    if val < 10 {
        String::from_str(digit_str(val))
    } else {
        let mut s = decimal_string(val / 10);
        s.append(digit_str(val % 10));
        s
    }
}

/// Renders the hexadecimal digits of `val`.
fn hex_string(val: u32) -> (r: String)
    ensures
        r@ == hex_digits(val as nat),
    decreases val,
{
    if val < 16 {
        String::from_str(digit_str(val))
    } else {
        let mut s = hex_string(val / 16);
        s.append(digit_str(val % 16));
        s
    }
}

/// Renders `val` in decimal.
pub fn format_decimal(val: u32) -> (r: String)
    ensures
        r@ == decimal_literal(val),
        all_digits(r@, 10),
        digits_value(r@, 10) == val,
        r@.len() >= 1,
        r@[0] == '0' ==> val == 0,
{
    proof {
        lemma_decimal_digits_denote(val as nat);
    }
    decimal_string(val)
}

/// Renders `val` as `0x` and its upper-case hexadecimal digits, zero-padded
/// after the prefix to `width` characters.
pub fn format_hex(val: u32, width: usize) -> (r: String)
    ensures
        r@ == hex_literal(val, width),
        r@.len() >= width,
        r@.len() >= 3,
        r@[0] == '0' && r@[1] == 'x',
        all_digits(r@.subrange(2, r@.len() as int), 16),
        digits_value(r@.subrange(2, r@.len() as int), 16) == val,
        r@.len() > width ==> r@[2] != '0' || val == 0,
{
    proof {
        lemma_hex_literal_denotes(val, width);
        lemma_hex_digits_denote(val as nat);
    }
    let digits = hex_string(val);
    let n = digits.as_str().unicode_len();
    let pad: usize = if width > n && width - n > 2 {
        width - n - 2
    } else {
        0
    };
    let mut s = String::from_str("0x");
    proof {
        reveal_strlit("0x");
        reveal_strlit("0");
    }
    let mut i: usize = 0;
    while i < pad
        invariant
            i <= pad,
            s@ == seq!['0', 'x'] + Seq::new(i as nat, |k: int| '0'),
        decreases pad - i,
    {
        s.append("0");
        proof {
            reveal_strlit("0");
        }
        assert(s@ =~= seq!['0', 'x'] + Seq::new((i + 1) as nat, |k: int| '0'));
        i = i + 1;
    }
    s.append(digits.as_str());
    s
}

} // verus!
