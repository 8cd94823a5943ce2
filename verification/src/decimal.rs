//! Exact rendering of a raw integer amount as a decimal numeral.
//!
//! A token amount is an integer in the token's smallest unit together with a
//! `decimals` count; its human-readable value is `amount / 10^decimals`.
//! Instead of dividing two floats, the amount is rendered as a digit string
//! and the decimal point is placed by position, which loses no precision.

use vstd::prelude::*;
use vstd::string::StrSliceExecFns;
use vstd::string::StringExecFns;

verus! {

/// 10 raised to `e`.
pub open spec fn pow10(e: nat) -> nat
    decreases e,
{
    if e == 0 {
        1
    } else {
        10 * pow10((e - 1) as nat)
    }
}

/// The character for a single decimal digit `d` (`d < 10`).
pub open spec fn digit_char(d: nat) -> char {
    if d == 0 {
        '0'
    } else if d == 1 {
        '1'
    } else if d == 2 {
        '2'
    } else if d == 3 {
        '3'
    } else if d == 4 {
        '4'
    } else if d == 5 {
        '5'
    } else if d == 6 {
        '6'
    } else if d == 7 {
        '7'
    } else if d == 8 {
        '8'
    } else {
        '9'
    }
}

/// Whether `c` is one of the ten decimal digit characters.
pub open spec fn is_digit_char(c: char) -> bool {
    ('0' as u32) <= (c as u32) && (c as u32) <= ('9' as u32)
}

/// The numeric value of a decimal digit character (0 for anything else).
pub open spec fn digit_char_val(c: char) -> nat {
    if is_digit_char(c) {
        ((c as u32) - ('0' as u32)) as nat
    } else {
        0
    }
}

/// The decimal digit string of `n`, most significant digit first, with no
/// leading zeros (`0` is rendered as the single digit `0`).
pub open spec fn dec_digits(n: nat) -> Seq<char>
    decreases n,
{
    if n < 10 {
        seq![digit_char(n)]
    } else {
        dec_digits(n / 10).push(digit_char(n % 10))
    }
}

/// The integer a digit string denotes, read left to right.
pub open spec fn digits_value(s: Seq<char>) -> nat
    decreases s.len(),
{
    if s.len() == 0 {
        0
    } else {
        digits_value(s.drop_last()) * 10 + digit_char_val(s.last())
    }
}

/// `k` copies of the digit `0`.
pub open spec fn zero_chars(k: nat) -> Seq<char>
    decreases k,
{
    if k == 0 {
        Seq::<char>::empty()
    } else {
        zero_chars((k - 1) as nat).push('0')
    }
}

/// The decimal numeral for `v / 10^d`: the digit string of `v` with a
/// decimal point inserted `d` places from the right, left-padded with
/// zeros behind `0.` when `v` has no more than `d` digits.
pub open spec fn spec_decimal_string(v: nat, d: nat) -> Seq<char> {
    let digits = dec_digits(v);
    if d == 0 {
        digits
    } else if digits.len() <= d {
        seq!['0', '.'] + zero_chars((d - digits.len()) as nat) + digits
    } else {
        digits.subrange(0, digits.len() - d) + seq!['.'] + digits.subrange(
            digits.len() - d,
            digits.len() as int,
        )
    }
}

/// The digit characters before the decimal point of the numeral for
/// `v / 10^d` (with `d > 0`).
pub open spec fn spec_int_digits(v: nat, d: nat) -> Seq<char> {
    let digits = dec_digits(v);
    if digits.len() <= d {
        seq!['0']
    } else {
        digits.subrange(0, digits.len() - d)
    }
}

/// The digit characters after the decimal point of the numeral for
/// `v / 10^d` (with `d > 0`).
pub open spec fn spec_frac_digits(v: nat, d: nat) -> Seq<char> {
    let digits = dec_digits(v);
    if digits.len() <= d {
        zero_chars((d - digits.len()) as nat) + digits
    } else {
        digits.subrange(digits.len() - d, digits.len() as int)
    }
}

/// A digit character maps back to the digit it was made from.
proof fn lemma_digit_char_roundtrip(d: nat)
    requires
        d < 10,
    ensures
        digit_char_val(digit_char(d)) == d,
        is_digit_char(digit_char(d)),
{
}

/// `pow10` is positive and monotone in its exponent.
pub proof fn lemma_pow10_pos_mono(a: nat, b: nat)
    requires
        a <= b,
    ensures
        0 < pow10(a) <= pow10(b),
    decreases b,
{
    if b == 0 {
    } else if a == b {
        lemma_pow10_pos_mono((a - 1) as nat, (b - 1) as nat);
    } else {
        lemma_pow10_pos_mono(a, (b - 1) as nat);
    }
}

/// The empty string denotes zero.
proof fn lemma_digits_value_empty()
    ensures
        digits_value(Seq::<char>::empty()) == 0,
{
}

/// The digit string of `n` denotes `n`.
pub proof fn lemma_dec_digits_value(n: nat)
    ensures
        digits_value(dec_digits(n)) == n,
    decreases n,
{
    lemma_digits_value_empty();
    if n < 10 {
        assert(dec_digits(n).drop_last() =~= Seq::<char>::empty());
        lemma_digit_char_roundtrip(n);
        assert(dec_digits(n).last() == digit_char(n));
    } else {
        lemma_dec_digits_value(n / 10);
        lemma_digit_char_roundtrip(n % 10);
        assert(dec_digits(n).drop_last() =~= dec_digits(n / 10));
        assert(dec_digits(n).last() == digit_char(n % 10));
        vstd::arithmetic::div_mod::lemma_fundamental_div_mod(n as int, 10);
    }
}

/// Every character of a digit string is a decimal digit.
pub proof fn lemma_dec_digits_all_digits(n: nat)
    ensures
        forall|i: int|
            0 <= i < dec_digits(n).len() ==> is_digit_char(#[trigger] dec_digits(n)[i]),
    decreases n,
{
    if n < 10 {
        lemma_digit_char_roundtrip(n);
    } else {
        lemma_dec_digits_all_digits(n / 10);
        lemma_digit_char_roundtrip(n % 10);
        let inner = dec_digits(n / 10);
        assert forall|i: int| 0 <= i < dec_digits(n).len() implies is_digit_char(
            #[trigger] dec_digits(n)[i],
        ) by {
            if i < inner.len() {
                assert(dec_digits(n)[i] == inner[i]);
            } else {
                assert(dec_digits(n)[i] == digit_char(n % 10));
            }
        }
    }
}

/// A string of `k` digits denotes a value below `10^k`.
pub proof fn lemma_digits_value_bound(s: Seq<char>)
    requires
        forall|i: int| 0 <= i < s.len() ==> is_digit_char(#[trigger] s[i]),
    ensures
        digits_value(s) < pow10(s.len()),
    decreases s.len(),
{
    if s.len() == 0 {
    } else {
        let s0 = s.drop_last();
        assert(forall|i: int| 0 <= i < s0.len() ==> is_digit_char(#[trigger] s0[i]));
        lemma_digits_value_bound(s0);
        assert(digit_char_val(s.last()) <= 9);
        assert(pow10(s.len()) == 10 * pow10(s0.len()));
    }
}

/// Concatenating digit strings shifts the left one by the length of the
/// right one.
pub proof fn lemma_digits_value_concat(a: Seq<char>, b: Seq<char>)
    ensures
        digits_value(a + b) == digits_value(a) * pow10(b.len()) + digits_value(b),
    decreases b.len(),
{
    if b.len() == 0 {
        assert(a + b =~= a);
        assert(digits_value(b) == 0);
        assert(pow10(0) == 1);
    } else {
        let b0 = b.drop_last();
        lemma_digits_value_concat(a, b0);
        assert((a + b).drop_last() =~= a + b0);
        assert((a + b).last() == b.last());
        assert(pow10(b.len()) == 10 * pow10(b0.len()));
        assert(digits_value(a + b) == digits_value(a + b0) * 10 + digit_char_val(b.last()));
        assert(digits_value(b) == digits_value(b0) * 10 + digit_char_val(b.last()));
        assert(digits_value(a + b) == digits_value(a) * pow10(b.len()) + digits_value(b))
            by (nonlinear_arith)
            requires
                digits_value(a + b) == digits_value(a + b0) * 10 + digit_char_val(b.last()),
                digits_value(a + b0) == digits_value(a) * pow10(b0.len()) + digits_value(b0),
                digits_value(b) == digits_value(b0) * 10 + digit_char_val(b.last()),
                pow10(b.len()) == 10 * pow10(b0.len()),
        {}
    }
}

/// A run of zero digits denotes zero.
pub proof fn lemma_zero_chars(k: nat)
    ensures
        zero_chars(k).len() == k,
        digits_value(zero_chars(k)) == 0,
    decreases k,
{
    if k == 0 {
    } else {
        lemma_zero_chars((k - 1) as nat);
        assert(zero_chars(k).drop_last() =~= zero_chars((k - 1) as nat));
        assert(digit_char_val('0') == 0);
    }
}

/// The rendered numeral for a whole amount (`decimals == 0`) denotes the
/// amount itself.
pub proof fn lemma_decimal_string_whole(v: nat)
    ensures
        digits_value(spec_decimal_string(v, 0)) == v,
{
    lemma_dec_digits_value(v);
}

/// Exactness of the decimal converter: for any amount `v` and any positive
/// `decimals` count `d`, the rendered numeral is the integer-part digits,
/// a decimal point, and exactly `d` fraction digits; the integer part
/// denotes `v / 10^d` and the fraction digits denote `v % 10^d`.  In other
/// words the numeral denotes `v / 10^d` exactly.
pub proof fn lemma_decimal_string_exact(v: nat, d: nat)
    requires
        0 < d,
    ensures
        spec_decimal_string(v, d) == spec_int_digits(v, d) + seq!['.'] + spec_frac_digits(v, d),
        spec_frac_digits(v, d).len() == d,
        digits_value(spec_int_digits(v, d)) == v / pow10(d),
        digits_value(spec_frac_digits(v, d)) == v % pow10(d),
{
    let digits = dec_digits(v);
    let len = digits.len();
    lemma_dec_digits_value(v);
    lemma_dec_digits_all_digits(v);
    lemma_digits_value_bound(digits);
    lemma_pow10_pos_mono(d, d);
    if len <= d {
        lemma_pow10_pos_mono(len, d);
        lemma_zero_chars((d - len) as nat);
        assert(spec_decimal_string(v, d) =~= seq!['0'] + seq!['.'] + (zero_chars((d - len) as nat)
            + digits));
        assert(digits_value(seq!['0']) == 0) by {
            lemma_digits_value_empty();
            assert(seq!['0'].drop_last() =~= Seq::<char>::empty());
            assert(seq!['0'].last() == '0');
            assert(digit_char_val('0') == 0);
        }
        lemma_digits_value_concat(zero_chars((d - len) as nat), digits);
        assert(digits_value(spec_frac_digits(v, d)) == v);
        assert(v < pow10(d));
        vstd::arithmetic::div_mod::lemma_basic_div(v as int, pow10(d) as int);
        vstd::arithmetic::div_mod::lemma_small_mod(v, pow10(d));
    } else {
        let ip = digits.subrange(0, len - d);
        let fp = digits.subrange(len - d, len as int);
        assert(digits =~= ip + fp);
        assert(spec_decimal_string(v, d) =~= ip + seq!['.'] + fp);
        lemma_digits_value_concat(ip, fp);
        assert(forall|i: int| 0 <= i < fp.len() ==> is_digit_char(#[trigger] fp[i]));
        lemma_digits_value_bound(fp);
        assert(v == digits_value(ip) * pow10(d) + digits_value(fp));
        vstd::arithmetic::div_mod::lemma_fundamental_div_mod_converse_div(
            v as int,
            pow10(d) as int,
            digits_value(ip) as int,
            digits_value(fp) as int,
        );
        vstd::arithmetic::div_mod::lemma_fundamental_div_mod_converse_mod(
            v as int,
            pow10(d) as int,
            digits_value(ip) as int,
            digits_value(fp) as int,
        );
    }
}

/// The string for one decimal digit.
fn digit_str(d: u128) -> (s: &'static str)
    requires
        d < 10,
    ensures
        s@ == seq![digit_char(d as nat)],
{
    if d == 0 {
        proof {
            reveal_strlit("0");
            assert("0"@ =~= seq![digit_char(0nat)]);
        }
        "0"
    } else if d == 1 {
        proof {
            reveal_strlit("1");
            assert("1"@ =~= seq![digit_char(1nat)]);
        }
        "1"
    } else if d == 2 {
        proof {
            reveal_strlit("2");
            assert("2"@ =~= seq![digit_char(2nat)]);
        }
        "2"
    } else if d == 3 {
        proof {
            reveal_strlit("3");
            assert("3"@ =~= seq![digit_char(3nat)]);
        }
        "3"
    } else if d == 4 {
        proof {
            reveal_strlit("4");
            assert("4"@ =~= seq![digit_char(4nat)]);
        }
        "4"
    } else if d == 5 {
        proof {
            reveal_strlit("5");
            assert("5"@ =~= seq![digit_char(5nat)]);
        }
        "5"
    } else if d == 6 {
        proof {
            reveal_strlit("6");
            assert("6"@ =~= seq![digit_char(6nat)]);
        }
        "6"
    } else if d == 7 {
        proof {
            reveal_strlit("7");
            assert("7"@ =~= seq![digit_char(7nat)]);
        }
        "7"
    } else if d == 8 {
        proof {
            reveal_strlit("8");
            assert("8"@ =~= seq![digit_char(8nat)]);
        }
        "8"
    } else {
        proof {
            reveal_strlit("9");
            assert("9"@ =~= seq![digit_char(9nat)]);
        }
        "9"
    }
}

/// Renders `n` as its decimal digit string.
pub fn u128_to_dec_string(n: u128) -> (s: String)
    ensures
        s@ == dec_digits(n as nat),
    decreases n,
{
    if n < 10 {
        let s = digit_str(n).to_owned();
        proof {
            assert(s@ =~= dec_digits(n as nat));
        }
        s
    } else {
        let mut s = u128_to_dec_string(n / 10);
        s.append(digit_str(n % 10));
        proof {
            assert(s@ =~= dec_digits(n as nat));
        }
        s
    }
}

/// Renders `value / 10^decimals` as a decimal numeral without any loss of
/// precision: the digit string of `value` is split (or zero-padded) at the
/// position that `decimals` dictates.
pub fn to_decimal_string(value: u128, decimals: u8) -> (s: String)
    ensures
        s@ == spec_decimal_string(value as nat, decimals as nat),
{
    let digits = u128_to_dec_string(value);
    if decimals == 0 {
        return digits;
    }
    let len: usize = digits.as_str().unicode_len();
    if len <= decimals as usize {
        let mut s = "0.".to_owned();
        proof {
            reveal_strlit("0.");
            assert(s@ =~= seq!['0', '.'] + zero_chars(0nat));
        }
        let mut i: usize = len;
        while i < decimals as usize
            invariant
                len <= i <= decimals as usize,
                s@ =~= seq!['0', '.'] + zero_chars((i - len) as nat),
            decreases decimals as usize - i,
        {
            s.append("0");
            i = i + 1;
            proof {
                reveal_strlit("0");
                assert(s@ =~= seq!['0', '.'] + zero_chars((i - len) as nat));
            }
        }
        s.append(digits.as_str());
        proof {
            assert(s@ =~= spec_decimal_string(value as nat, decimals as nat));
        }
        s
    } else {
        let split: usize = len - decimals as usize;
        let int_part = digits.as_str().substring_char(0, split);
        let frac_part = digits.as_str().substring_char(split, len);
        let mut s = int_part.to_owned();
        s.append(".");
        s.append(frac_part);
        proof {
            reveal_strlit(".");
            assert(s@ =~= spec_decimal_string(value as nat, decimals as nat));
        }
        s
    }
}

} // verus!
