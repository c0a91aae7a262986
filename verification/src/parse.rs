//! Verified parsing and rendering of the gateway's decimal value strings.
//!
//! The gateway transports every data-point value as a decimal string,
//! possibly with a fractional suffix (`"42"`, `"0.5"`).  Reads truncate the
//! fractional suffix (toward zero) before parsing; writes render a plain
//! decimal integer.

use vstd::prelude::*;
use vstd::string::*;

verus! {

/// A decimal digit, by code point.
pub open spec fn is_digit(c: char) -> bool {
    48 <= c as int <= 57
}

/// Numeric value of a decimal digit.
pub open spec fn digit_val(c: char) -> nat {
    (c as int - 48) as nat
}

/// Every character of `s` is a decimal digit.
pub open spec fn all_digits(s: Seq<char>) -> bool {
    forall|i: int| 0 <= i < s.len() ==> is_digit(#[trigger] s[i])
}

/// Value of a digit string, most significant digit first.
pub open spec fn digits_val(s: Seq<char>) -> nat
    decreases s.len(),
{
    if s.len() == 0 {
        0
    } else {
        digits_val(s.drop_last()) * 10 + digit_val(s.last())
    }
}

/// What a decimal string denotes as a `u16`: a non-empty, all-digit string
/// whose value fits; anything else is rejected.
pub open spec fn parse_u16_spec(s: Seq<char>) -> Option<u16> {
    if s.len() > 0 && all_digits(s) && digits_val(s) <= 65535 {
        Some(digits_val(s) as u16)
    } else {
        None
    }
}

/// The prefix of `s` before its first `'.'` (all of `s` if there is none).
pub open spec fn dot_split(s: Seq<char>) -> Seq<char>
    decreases s.len(),
{
    if s.len() == 0 {
        s
    } else if s[0] == '.' {
        Seq::empty()
    } else {
        seq![s[0]] + dot_split(s.drop_first())
    }
}

proof fn lemma_digits_val_step(s: Seq<char>, i: int)
    requires
        0 <= i < s.len(),
    ensures
        digits_val(s.take(i + 1)) == digits_val(s.take(i)) * 10 + digit_val(s[i]),
{
    assert(s.take(i + 1).drop_last() =~= s.take(i));
    assert(s.take(i + 1).last() == s[i]);
}

proof fn lemma_dot_split_at(s: Seq<char>, i: int)
    requires
        0 <= i <= s.len(),
        forall|j: int| 0 <= j < i ==> s[j] != '.',
        i == s.len() || s[i] == '.',
    ensures
        dot_split(s) =~= s.take(i),
    decreases s.len(),
{
    if i == 0 {
        if s.len() == 0 {
            assert(dot_split(s) =~= s.take(0));
        } else {
            assert(s[0] == '.');
            assert(dot_split(s) =~= s.take(0));
        }
    } else {
        assert(s[0] != '.');
        let t = s.drop_first();
        assert(forall|j: int| 0 <= j < i - 1 ==> t[j] != '.');
        lemma_dot_split_at(t, i - 1);
        assert(seq![s[0]] + t.take(i - 1) =~= s.take(i));
    }
}

/// Whether two strings hold the same characters.
pub fn eq_str(a: &str, b: &str) -> (r: bool)
    ensures
        r == (a@ == b@),
{
    let na = a.unicode_len();
    let nb = b.unicode_len();
    if na != nb {
        return false;
    }
    let mut i: usize = 0;
    while i < na
        invariant
            0 <= i <= na,
            na == a@.len(),
            na == b@.len(),
            forall|j: int| 0 <= j < i ==> a@[j] == b@[j],
        decreases na - i,
    {
        if a.get_char(i) != b.get_char(i) {
            return false;
        }
        i = i + 1;
    }
    proof {
        assert(a@ =~= b@);
    }
    true
}

/// Parses a non-empty all-digit string as a `u16`.
pub fn parse_u16(s: &str) -> (r: Option<u16>)
    ensures
        r == parse_u16_spec(s@),
{
    let n = s.unicode_len();
    let mut i: usize = 0;
    let mut acc: u32 = 0;
    let mut too_big = false;
    while i < n
        invariant
            0 <= i <= n,
            n == s@.len(),
            forall|j: int| 0 <= j < i ==> is_digit(#[trigger] s@[j]),
            too_big <==> digits_val(s@.take(i as int)) > 65535,
            !too_big ==> acc == digits_val(s@.take(i as int)),
        decreases n - i,
    {
        let c = s.get_char(i);
        let d = c as u32;
        if d < 48 || d > 57 {
            assert(!is_digit(s@[i as int]));
            assert(!all_digits(s@));
            return None;
        }
        proof {
            lemma_digits_val_step(s@, i as int);
        }
        if !too_big {
            let v = acc * 10 + (d - 48);
            if v > 65535 {
                too_big = true;
            } else {
                acc = v;
            }
        }
        i = i + 1;
    }
    assert(s@.take(n as int) =~= s@);
    if n == 0 || too_big {
        return None;
    }
    assert(all_digits(s@));
    Some(acc as u16)
}

/// Parses the gateway's decimal value string, truncating any fractional
/// suffix toward zero: the prefix before the first `'.'` must be a
/// non-empty digit string whose value fits a `u16`.
pub fn parse_value_string(s: &str) -> (r: Option<u16>)
    ensures
        r == parse_u16_spec(dot_split(s@)),
{
    let n = s.unicode_len();
    let mut i: usize = 0;
    while i < n
        invariant
            0 <= i <= n,
            n == s@.len(),
            forall|j: int| 0 <= j < i ==> s@[j] != '.',
        decreases n - i,
    {
        let c = s.get_char(i);
        if c == '.' {
            proof {
                lemma_dot_split_at(s@, i as int);
            }
            let prefix = s.substring_char(0, i);
            assert(prefix@ =~= s@.take(i as int));
            return parse_u16(prefix);
        }
        i = i + 1;
    }
    proof {
        lemma_dot_split_at(s@, n as int);
    }
    assert(s@.take(n as int) =~= s@);
    parse_u16(s)
}

/// The decimal rendering of `n`, most significant digit first, no sign,
/// no leading zero (except for `0` itself).
pub open spec fn dec_str(n: nat) -> Seq<char>
    decreases n,
{
    if n < 10 {
        seq![digit_char(n)]
    } else {
        dec_str(n / 10) + seq![digit_char(n % 10)]
    }
}

/// The digit character for a value below ten.
pub open spec fn digit_char(n: nat) -> char {
    if n == 0 {
        '0'
    } else if n == 1 {
        '1'
    } else if n == 2 {
        '2'
    } else if n == 3 {
        '3'
    } else if n == 4 {
        '4'
    } else if n == 5 {
        '5'
    } else if n == 6 {
        '6'
    } else if n == 7 {
        '7'
    } else if n == 8 {
        '8'
    } else {
        '9'
    }
}

fn digit_literal(d: u16) -> (r: &'static str)
    requires
        d < 10,
    ensures
        r@ =~= seq![digit_char(d as nat)],
{
    proof {
        reveal_strlit("0");
        reveal_strlit("1");
        reveal_strlit("2");
        reveal_strlit("3");
        reveal_strlit("4");
        reveal_strlit("5");
        reveal_strlit("6");
        reveal_strlit("7");
        reveal_strlit("8");
        reveal_strlit("9");
    }
    match d {
        0 => "0",
        1 => "1",
        2 => "2",
        3 => "3",
        4 => "4",
        5 => "5",
        6 => "6",
        7 => "7",
        8 => "8",
        _ => "9",
    }
}

/// Renders `n` in decimal.
pub fn u16_to_string(n: u16) -> (r: String)
    ensures
        r@ == dec_str(n as nat),
    decreases n,
{
    if n < 10 {
        let lit = digit_literal(n);
        let r = lit.to_owned();
        assert(r@ =~= dec_str(n as nat));
        r
    } else {
        let q = n / 10;
        let m = n % 10;
        let rest = u16_to_string(q);
        let r = rest.concat(digit_literal(m));
        assert(r@ =~= dec_str(n as nat));
        r
    }
}

/// Rendering then parsing a value gives it back: the decimal codec of the
/// write path round-trips through the read path for every `u16`.
pub proof fn lemma_dec_str_roundtrip(n: u16)
    ensures
        parse_u16_spec(dec_str(n as nat)) == Some(n),
{
    lemma_dec_str_val(n as nat);
}

proof fn lemma_dec_str_val(n: nat)
    ensures
        dec_str(n).len() > 0,
        all_digits(dec_str(n)),
        digits_val(dec_str(n)) == n,
    decreases n,
{
    if n < 10 {
        let s = dec_str(n);
        assert(s.drop_last() =~= Seq::<char>::empty());
        assert(digits_val(s.drop_last()) == 0);
        assert(s.last() == digit_char(n));
        assert(digits_val(s) == digit_val(digit_char(n)));
    } else {
        lemma_dec_str_val(n / 10);
        let s = dec_str(n);
        assert(s.drop_last() =~= dec_str(n / 10));
        assert(s.last() == digit_char(n % 10));
        assert(digits_val(s) == (n / 10) * 10 + n % 10);
        assert((n / 10) * 10 + n % 10 == n) by {
            vstd::arithmetic::div_mod::lemma_fundamental_div_mod(n as int, 10);
        }
        assert(all_digits(s)) by {
            assert(forall|i: int|
                0 <= i < s.len() - 1 ==> s[i] == #[trigger] dec_str(n / 10)[i]);
        }
    }
}

} // verus!
