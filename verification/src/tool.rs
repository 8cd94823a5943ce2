//! Address string handling: validation of the `0x`-prefixed 40-hex-digit
//! format and two independent parsing paths into the 160-bit address
//! value — one through the ethaddr crate, one through the hex crate —
//! both rejecting a wrong length or a non-hex character.

use vstd::prelude::*;
use vstd::string::StrSliceExecFns;
use crate::types::Address;

verus! {

/// Whether `char::is_whitespace` holds of a character (the Unicode
/// `White_Space` property).
pub uninterp spec fn is_unicode_space(c: char) -> bool;

/// Relies on std's `char::is_whitespace`: a pure character property;
/// std documents that space, tab and the line breaks have it and that
/// ASCII digits and letters do not.
pub assume_specification[ char::is_whitespace ](c: char) -> (r: bool)
    ensures
        r == is_unicode_space(c),
        (c == ' ' || c == '\t' || c == '\n' || c == '\r') ==> r,
        ((('0' as u32) <= (c as u32) && (c as u32) <= ('9' as u32)) || (('a' as u32) <= (c as u32)
            && (c as u32) <= ('z' as u32)) || (('A' as u32) <= (c as u32) && (c as u32) <= (
        'Z' as u32))) ==> !r,
;

/// The string with its leading whitespace removed.
pub open spec fn spec_trim_front(s: Seq<char>) -> Seq<char>
    decreases s.len(),
{
    if s.len() > 0 && is_unicode_space(s[0]) {
        spec_trim_front(s.drop_first())
    } else {
        s
    }
}

/// The string with its trailing whitespace removed.
pub open spec fn spec_trim_back(s: Seq<char>) -> Seq<char>
    decreases s.len(),
{
    if s.len() > 0 && is_unicode_space(s.last()) {
        spec_trim_back(s.drop_last())
    } else {
        s
    }
}

/// The string with leading and trailing whitespace removed, as
/// `str::trim` leaves it.
pub open spec fn spec_trim(s: Seq<char>) -> Seq<char> {
    spec_trim_back(spec_trim_front(s))
}

/// Whether `c` is a hexadecimal digit.
pub open spec fn spec_is_hex_digit(c: char) -> bool {
    ((('0' as u32) <= (c as u32)) && ((c as u32) <= ('9' as u32))) || ((('a' as u32) <= (c as u32))
        && ((c as u32) <= ('f' as u32))) || ((('A' as u32) <= (c as u32)) && ((c as u32) <= (
    'F' as u32)))
}

/// The value of a hexadecimal digit (0 for anything else).
pub open spec fn spec_hex_char_val(c: char) -> nat {
    if (('0' as u32) <= (c as u32)) && ((c as u32) <= ('9' as u32)) {
        ((c as u32) - ('0' as u32)) as nat
    } else if (('a' as u32) <= (c as u32)) && ((c as u32) <= ('f' as u32)) {
        ((c as u32) - ('a' as u32) + 10) as nat
    } else if (('A' as u32) <= (c as u32)) && ((c as u32) <= ('F' as u32)) {
        ((c as u32) - ('A' as u32) + 10) as nat
    } else {
        0
    }
}

/// The `i`-th byte that 40 hex digits denote: two digits per byte, high
/// nibble first.
pub open spec fn spec_hex_byte(t: Seq<char>, i: int) -> u8 {
    (spec_hex_char_val(t[2 * i]) * 16 + spec_hex_char_val(t[2 * i + 1])) as u8
}

/// The 20 bytes that 40 hex digits denote.
pub open spec fn spec_hex_bytes(t: Seq<char>) -> Seq<u8> {
    Seq::new(20, |i: int| spec_hex_byte(t, i))
}

/// The address whose 20 big-endian bytes are `b`: the first four bytes
/// fill the high limb, the remaining sixteen the low limb.
pub open spec fn spec_address_of_bytes(b: Seq<u8>) -> Address {
    Address {
        hi: ((b[0] as nat) * 0x1000000 + (b[1] as nat) * 0x10000 + (b[2] as nat) * 0x100 + (
        b[3] as nat)) as u32,
        lo: ((b[4] as nat) * 0x1000000000000000000000000000000 + (b[5] as nat)
            * 0x10000000000000000000000000000 + (b[6] as nat) * 0x100000000000000000000000000 + (
        b[7] as nat) * 0x1000000000000000000000000 + (b[8] as nat) * 0x10000000000000000000000 + (
        b[9] as nat) * 0x100000000000000000000 + (b[10] as nat) * 0x1000000000000000000 + (
        b[11] as nat) * 0x10000000000000000 + (b[12] as nat) * 0x100000000000000 + (b[13] as nat)
            * 0x1000000000000 + (b[14] as nat) * 0x10000000000 + (b[15] as nat) * 0x100000000 + (
        b[16] as nat) * 0x1000000 + (b[17] as nat) * 0x10000 + (b[18] as nat) * 0x100 + (
        b[19] as nat)) as u128,
    }
}

/// The string behind one optional lowercase `0x` prefix, as ethaddr's
/// parser strips it.
pub open spec fn spec_strip_0x(s: Seq<char>) -> Seq<char> {
    if s.len() >= 2 && s[0] == '0' && s[1] == 'x' {
        s.skip(2)
    } else {
        s
    }
}

/// The string behind one optional `0x` or `0X` prefix, as the format
/// validator strips it.
pub open spec fn spec_strip_hex_prefix(s: Seq<char>) -> Seq<char> {
    if s.len() >= 2 && s[0] == '0' && (s[1] == 'x' || s[1] == 'X') {
        s.skip(2)
    } else {
        s
    }
}

/// The string behind every repeated leading `0x`, as
/// `str::trim_start_matches("0x")` leaves it.
pub open spec fn spec_strip_all_0x(s: Seq<char>) -> Seq<char>
    decreases s.len(),
{
    if s.len() >= 2 && s[0] == '0' && s[1] == 'x' {
        spec_strip_all_0x(s.skip(2))
    } else {
        s
    }
}

/// Whether a (already stripped) string is exactly 40 hex digits.
pub open spec fn spec_is_40_hex(t: Seq<char>) -> bool {
    t.len() == 40 && (forall|i: int| 0 <= i < t.len() ==> spec_is_hex_digit(#[trigger] t[i]))
}

/// The address-format check: after trimming whitespace the string must
/// be non-empty and hold exactly 40 hex digits behind an optional `0x`
/// or `0X` prefix.
pub open spec fn spec_valid_address_format(s: Seq<char>) -> bool {
    let t = spec_trim(s);
    t.len() > 0 && spec_is_40_hex(spec_strip_hex_prefix(t))
}

/// Removes leading and trailing whitespace, as `str::trim` does.
fn trim_str<'a>(s: &'a str) -> (r: &'a str)
    ensures
        r@ == spec_trim(s@),
{
    let len: usize = s.unicode_len();
    let mut start: usize = 0;
    proof {
        assert(s@.skip(0) =~= s@);
    }
    while start < len && s.get_char(start).is_whitespace()
        invariant
            start <= len,
            len == s@.len(),
            spec_trim_front(s@) == spec_trim_front(s@.skip(start as int)),
        decreases len - start,
    {
        proof {
            assert(s@.skip(start as int)[0] == s@[start as int]);
            assert(s@.skip(start as int).drop_first() =~= s@.skip(start as int + 1));
        }
        start = start + 1;
    }
    proof {
        if start == len {
            assert(s@.skip(start as int) =~= Seq::<char>::empty());
        }
        assert(spec_trim_front(s@) == s@.skip(start as int));
    }
    let mut end: usize = len;
    proof {
        assert(s@.subrange(start as int, len as int) =~= s@.skip(start as int));
    }
    while end > start && s.get_char(end - 1).is_whitespace()
        invariant
            start <= end <= len,
            len == s@.len(),
            spec_trim_front(s@) == s@.skip(start as int),
            spec_trim_back(s@.skip(start as int)) == spec_trim_back(
                s@.subrange(start as int, end as int),
            ),
        decreases end,
    {
        proof {
            assert(s@.subrange(start as int, end as int).last() == s@[end - 1]);
            assert(s@.subrange(start as int, end as int).drop_last() =~= s@.subrange(
                start as int,
                end as int - 1,
            ));
        }
        end = end - 1;
    }
    proof {
        if end == start {
            assert(s@.subrange(start as int, end as int) =~= Seq::<char>::empty());
        }
        assert(spec_trim_back(s@.subrange(start as int, end as int)) == s@.subrange(
            start as int,
            end as int,
        ));
    }
    s.substring_char(start, end)
}

/// Whether `c` is a hexadecimal digit.
fn is_hex_digit_char(c: char) -> (b: bool)
    ensures
        b == spec_is_hex_digit(c),
{
    let u = c as u32;
    (48 <= u && u <= 57) || (97 <= u && u <= 102) || (65 <= u && u <= 70)
}

/// Validates the address string format: optionally `0x`/`0X`-prefixed,
/// exactly 40 hex digits, surrounding whitespace tolerated.
pub fn verify_address_format(address: &str) -> (b: bool)
    ensures
        b == spec_valid_address_format(address@),
{
    let trimmed = trim_str(address);
    let tlen: usize = trimmed.unicode_len();
    if tlen == 0 {
        return false;
    }
    let without_prefix: &str = if tlen >= 2 && trimmed.get_char(0) == '0' && (trimmed.get_char(1)
        == 'x' || trimmed.get_char(1) == 'X') {
        let w = trimmed.substring_char(2, tlen);
        proof {
            assert(w@ =~= spec_strip_hex_prefix(trimmed@));
        }
        w
    } else {
        trimmed
    };
    let wlen: usize = without_prefix.unicode_len();
    if wlen != 40 {
        return false;
    }
    let mut i: usize = 0;
    while i < 40
        invariant
            i <= 40,
            wlen == 40,
            without_prefix@.len() == 40,
            without_prefix@ == spec_strip_hex_prefix(spec_trim(address@)),
            spec_trim(address@).len() > 0,
            forall|j: int| 0 <= j < i ==> spec_is_hex_digit(#[trigger] without_prefix@[j]),
        decreases 40 - i,
    {
        if !is_hex_digit_char(without_prefix.get_char(i)) {
            return false;
        }
        i = i + 1;
    }
    true
}

/// Relies on ethaddr's `Address` string parsing (its `FromStr`): one
/// optional lowercase `0x` prefix, then exactly 40 hex digits, each
/// byte from two digits high nibble first; no checksum verification.
#[verifier::external_body]
fn parse_ethaddr(address_str: &str) -> (r: Result<Vec<u8>, ()>)
    ensures
        r is Ok <==> spec_is_40_hex(spec_strip_0x(address_str@)),
        r is Ok ==> r->Ok_0@ == spec_hex_bytes(spec_strip_0x(address_str@)),
{
    match address_str.parse::<ethaddr::Address>() {
        Ok(a) => Ok(a.0.to_vec()),
        Err(_) => Err(()),
    }
}

/// Relies on hex's `decode_to_slice` into a 20-byte buffer: succeeds
/// exactly on 40 hex digits, each byte from two digits high nibble
/// first.
#[verifier::external_body]
fn hex_decode_20(s: &str) -> (r: Result<Vec<u8>, ()>)
    requires
        s@.len() == 40,
    ensures
        r is Ok <==> (forall|i: int| 0 <= i < s@.len() ==> spec_is_hex_digit(#[trigger] s@[i])),
        r is Ok ==> r->Ok_0@ == spec_hex_bytes(s@),
{
    let mut buf = [0u8; 20];
    match hex::decode_to_slice(s, &mut buf) {
        Ok(()) => Ok(buf.to_vec()),
        Err(_) => Err(()),
    }
}

/// Packs 20 big-endian bytes into an address.
fn address_from_bytes(bytes: &Vec<u8>) -> (a: Address)
    requires
        bytes@.len() == 20,
    ensures
        a == spec_address_of_bytes(bytes@),
{
    let hi: u32 = (bytes[0] as u32) * 0x1000000 + (bytes[1] as u32) * 0x10000 + (bytes[2] as u32)
        * 0x100 + (bytes[3] as u32);
    let lo: u128 = (bytes[4] as u128) * 0x1000000000000000000000000000000 + (bytes[5] as u128)
        * 0x10000000000000000000000000000 + (bytes[6] as u128) * 0x100000000000000000000000000 + (
    bytes[7] as u128) * 0x1000000000000000000000000 + (bytes[8] as u128)
        * 0x10000000000000000000000 + (bytes[9] as u128) * 0x100000000000000000000 + (
    bytes[10] as u128) * 0x1000000000000000000 + (bytes[11] as u128) * 0x10000000000000000 + (
    bytes[12] as u128) * 0x100000000000000 + (bytes[13] as u128) * 0x1000000000000 + (
    bytes[14] as u128) * 0x10000000000 + (bytes[15] as u128) * 0x100000000 + (bytes[16] as u128)
        * 0x1000000 + (bytes[17] as u128) * 0x10000 + (bytes[18] as u128) * 0x100 + (
    bytes[19] as u128);
    Address { hi, lo }
}

/// Parses an address string through the ethaddr crate: one optional
/// lowercase `0x` prefix, then exactly 40 hex digits; whitespace is not
/// tolerated and no checksum is verified.
pub fn str_to_h160_1(address_str: &str) -> (r: Result<Address, String>)
    ensures
        r is Ok <==> spec_is_40_hex(spec_strip_0x(address_str@)),
        r is Ok ==> r->Ok_0 == spec_address_of_bytes(spec_hex_bytes(spec_strip_0x(address_str@))),
{
    match parse_ethaddr(address_str) {
        Ok(bytes) => Ok(address_from_bytes(&bytes)),
        Err(_) => Err("Invalid Ethereum address".to_owned()),
    }
}

/// Parses an address string through the hex crate: surrounding
/// whitespace and every repeated leading `0x` are removed, then exactly
/// 40 hex digits must remain.
pub fn str_to_h160_2(address_str: &str) -> (r: Result<Address, String>)
    ensures
        r is Ok <==> spec_is_40_hex(spec_strip_all_0x(spec_trim(address_str@))),
        r is Ok ==> r->Ok_0 == spec_address_of_bytes(
            spec_hex_bytes(spec_strip_all_0x(spec_trim(address_str@))),
        ),
{
    let trimmed = trim_str(address_str);
    let mut clean: &str = trimmed;
    while clean.unicode_len() >= 2 && clean.get_char(0) == '0' && clean.get_char(1) == 'x'
        invariant
            spec_strip_all_0x(spec_trim(address_str@)) == spec_strip_all_0x(clean@),
        decreases clean@.len(),
    {
        let l: usize = clean.unicode_len();
        let next = clean.substring_char(2, l);
        proof {
            assert(next@ =~= clean@.skip(2));
        }
        clean = next;
    }
    if clean.unicode_len() != 40 {
        return Err("Invalid length".to_owned());
    }
    match hex_decode_20(clean) {
        Ok(bytes) => Ok(address_from_bytes(&bytes)),
        Err(_) => Err("Hex decode error".to_owned()),
    }
}


/// The number a big-endian byte string denotes.
pub open spec fn spec_bytes_value(b: Seq<u8>) -> nat
    decreases b.len(),
{
    if b.len() == 0 {
        0
    } else {
        spec_bytes_value(b.drop_last()) * 256 + (b.last() as nat)
    }
}

/// The number a hex digit string denotes.
pub open spec fn spec_hex_value(t: Seq<char>) -> nat
    decreases t.len(),
{
    if t.len() == 0 {
        0
    } else {
        spec_hex_value(t.drop_last()) * 16 + spec_hex_char_val(t.last())
    }
}

/// A hex digit's value is below sixteen.
proof fn lemma_hex_char_val_bound(c: char)
    ensures
        spec_hex_char_val(c) <= 15,
{
}

/// A 20-byte string's denoted number, written out place by place.
proof fn lemma_bytes_value_explicit(b: Seq<u8>)
    requires
        b.len() == 20,
    ensures
        spec_bytes_value(b) == (b[0] as nat) * 0x100000000000000000000000000000000000000 + (b[1] as nat) * 0x1000000000000000000000000000000000000 + (b[2] as nat) * 0x10000000000000000000000000000000000 + (b[3] as nat) * 0x100000000000000000000000000000000 + (b[4] as nat) * 0x1000000000000000000000000000000 + (b[5] as nat) * 0x10000000000000000000000000000 + (b[6] as nat) * 0x100000000000000000000000000 + (b[7] as nat) * 0x1000000000000000000000000 + (b[8] as nat) * 0x10000000000000000000000 + (b[9] as nat) * 0x100000000000000000000 + (b[10] as nat) * 0x1000000000000000000 + (b[11] as nat) * 0x10000000000000000 + (b[12] as nat) * 0x100000000000000 + (b[13] as nat) * 0x1000000000000 + (b[14] as nat) * 0x10000000000 + (b[15] as nat) * 0x100000000 + (b[16] as nat) * 0x1000000 + (b[17] as nat) * 0x10000 + (b[18] as nat) * 0x100 + (b[19] as nat),
{
    assert(spec_bytes_value(Seq::<u8>::empty()) == 0);
    assert(b.take(1).drop_last() =~= Seq::<u8>::empty());
    assert(b.take(1).last() == b[0]);
    assert(spec_bytes_value(b.take(1)) == (b[0] as nat));
    assert(b.take(2).drop_last() =~= b.take(1));
    assert(b.take(2).last() == b[1]);
    assert(spec_bytes_value(b.take(2)) == spec_bytes_value(b.take(1)) * 256 + (b[1] as nat));
    assert(b.take(3).drop_last() =~= b.take(2));
    assert(b.take(3).last() == b[2]);
    assert(spec_bytes_value(b.take(3)) == spec_bytes_value(b.take(2)) * 256 + (b[2] as nat));
    assert(b.take(4).drop_last() =~= b.take(3));
    assert(b.take(4).last() == b[3]);
    assert(spec_bytes_value(b.take(4)) == spec_bytes_value(b.take(3)) * 256 + (b[3] as nat));
    assert(b.take(5).drop_last() =~= b.take(4));
    assert(b.take(5).last() == b[4]);
    assert(spec_bytes_value(b.take(5)) == spec_bytes_value(b.take(4)) * 256 + (b[4] as nat));
    assert(b.take(6).drop_last() =~= b.take(5));
    assert(b.take(6).last() == b[5]);
    assert(spec_bytes_value(b.take(6)) == spec_bytes_value(b.take(5)) * 256 + (b[5] as nat));
    assert(b.take(7).drop_last() =~= b.take(6));
    assert(b.take(7).last() == b[6]);
    assert(spec_bytes_value(b.take(7)) == spec_bytes_value(b.take(6)) * 256 + (b[6] as nat));
    assert(b.take(8).drop_last() =~= b.take(7));
    assert(b.take(8).last() == b[7]);
    assert(spec_bytes_value(b.take(8)) == spec_bytes_value(b.take(7)) * 256 + (b[7] as nat));
    assert(b.take(9).drop_last() =~= b.take(8));
    assert(b.take(9).last() == b[8]);
    assert(spec_bytes_value(b.take(9)) == spec_bytes_value(b.take(8)) * 256 + (b[8] as nat));
    assert(b.take(10).drop_last() =~= b.take(9));
    assert(b.take(10).last() == b[9]);
    assert(spec_bytes_value(b.take(10)) == spec_bytes_value(b.take(9)) * 256 + (b[9] as nat));
    assert(b.take(11).drop_last() =~= b.take(10));
    assert(b.take(11).last() == b[10]);
    assert(spec_bytes_value(b.take(11)) == spec_bytes_value(b.take(10)) * 256 + (b[10] as nat));
    assert(b.take(12).drop_last() =~= b.take(11));
    assert(b.take(12).last() == b[11]);
    assert(spec_bytes_value(b.take(12)) == spec_bytes_value(b.take(11)) * 256 + (b[11] as nat));
    assert(b.take(13).drop_last() =~= b.take(12));
    assert(b.take(13).last() == b[12]);
    assert(spec_bytes_value(b.take(13)) == spec_bytes_value(b.take(12)) * 256 + (b[12] as nat));
    assert(b.take(14).drop_last() =~= b.take(13));
    assert(b.take(14).last() == b[13]);
    assert(spec_bytes_value(b.take(14)) == spec_bytes_value(b.take(13)) * 256 + (b[13] as nat));
    assert(b.take(15).drop_last() =~= b.take(14));
    assert(b.take(15).last() == b[14]);
    assert(spec_bytes_value(b.take(15)) == spec_bytes_value(b.take(14)) * 256 + (b[14] as nat));
    assert(b.take(16).drop_last() =~= b.take(15));
    assert(b.take(16).last() == b[15]);
    assert(spec_bytes_value(b.take(16)) == spec_bytes_value(b.take(15)) * 256 + (b[15] as nat));
    assert(b.take(17).drop_last() =~= b.take(16));
    assert(b.take(17).last() == b[16]);
    assert(spec_bytes_value(b.take(17)) == spec_bytes_value(b.take(16)) * 256 + (b[16] as nat));
    assert(b.take(18).drop_last() =~= b.take(17));
    assert(b.take(18).last() == b[17]);
    assert(spec_bytes_value(b.take(18)) == spec_bytes_value(b.take(17)) * 256 + (b[17] as nat));
    assert(b.take(19).drop_last() =~= b.take(18));
    assert(b.take(19).last() == b[18]);
    assert(spec_bytes_value(b.take(19)) == spec_bytes_value(b.take(18)) * 256 + (b[18] as nat));
    assert(b.take(20).drop_last() =~= b.take(19));
    assert(b.take(20).last() == b[19]);
    assert(spec_bytes_value(b.take(20)) == spec_bytes_value(b.take(19)) * 256 + (b[19] as nat));
    assert(b.take(20) =~= b);
}

/// A 40-digit hex string's denoted number, written out place by place.
proof fn lemma_hex_value_explicit(t: Seq<char>)
    requires
        t.len() == 40,
    ensures
        spec_hex_value(t) == spec_hex_char_val(t[0]) * 0x1000000000000000000000000000000000000000 + spec_hex_char_val(t[1]) * 0x100000000000000000000000000000000000000 + spec_hex_char_val(t[2]) * 0x10000000000000000000000000000000000000 + spec_hex_char_val(t[3]) * 0x1000000000000000000000000000000000000 + spec_hex_char_val(t[4]) * 0x100000000000000000000000000000000000 + spec_hex_char_val(t[5]) * 0x10000000000000000000000000000000000 + spec_hex_char_val(t[6]) * 0x1000000000000000000000000000000000 + spec_hex_char_val(t[7]) * 0x100000000000000000000000000000000 + spec_hex_char_val(t[8]) * 0x10000000000000000000000000000000 + spec_hex_char_val(t[9]) * 0x1000000000000000000000000000000 + spec_hex_char_val(t[10]) * 0x100000000000000000000000000000 + spec_hex_char_val(t[11]) * 0x10000000000000000000000000000 + spec_hex_char_val(t[12]) * 0x1000000000000000000000000000 + spec_hex_char_val(t[13]) * 0x100000000000000000000000000 + spec_hex_char_val(t[14]) * 0x10000000000000000000000000 + spec_hex_char_val(t[15]) * 0x1000000000000000000000000 + spec_hex_char_val(t[16]) * 0x100000000000000000000000 + spec_hex_char_val(t[17]) * 0x10000000000000000000000 + spec_hex_char_val(t[18]) * 0x1000000000000000000000 + spec_hex_char_val(t[19]) * 0x100000000000000000000 + spec_hex_char_val(t[20]) * 0x10000000000000000000 + spec_hex_char_val(t[21]) * 0x1000000000000000000 + spec_hex_char_val(t[22]) * 0x100000000000000000 + spec_hex_char_val(t[23]) * 0x10000000000000000 + spec_hex_char_val(t[24]) * 0x1000000000000000 + spec_hex_char_val(t[25]) * 0x100000000000000 + spec_hex_char_val(t[26]) * 0x10000000000000 + spec_hex_char_val(t[27]) * 0x1000000000000 + spec_hex_char_val(t[28]) * 0x100000000000 + spec_hex_char_val(t[29]) * 0x10000000000 + spec_hex_char_val(t[30]) * 0x1000000000 + spec_hex_char_val(t[31]) * 0x100000000 + spec_hex_char_val(t[32]) * 0x10000000 + spec_hex_char_val(t[33]) * 0x1000000 + spec_hex_char_val(t[34]) * 0x100000 + spec_hex_char_val(t[35]) * 0x10000 + spec_hex_char_val(t[36]) * 0x1000 + spec_hex_char_val(t[37]) * 0x100 + spec_hex_char_val(t[38]) * 0x10 + spec_hex_char_val(t[39]),
{
    assert(spec_hex_value(Seq::<char>::empty()) == 0);
    assert(t.take(1).drop_last() =~= Seq::<char>::empty());
    assert(t.take(1).last() == t[0]);
    assert(spec_hex_value(t.take(1)) == spec_hex_char_val(t[0]));
    assert(t.take(2).drop_last() =~= t.take(1));
    assert(t.take(2).last() == t[1]);
    assert(spec_hex_value(t.take(2)) == spec_hex_value(t.take(1)) * 16 + spec_hex_char_val(t[1]));
    assert(t.take(3).drop_last() =~= t.take(2));
    assert(t.take(3).last() == t[2]);
    assert(spec_hex_value(t.take(3)) == spec_hex_value(t.take(2)) * 16 + spec_hex_char_val(t[2]));
    assert(t.take(4).drop_last() =~= t.take(3));
    assert(t.take(4).last() == t[3]);
    assert(spec_hex_value(t.take(4)) == spec_hex_value(t.take(3)) * 16 + spec_hex_char_val(t[3]));
    assert(t.take(5).drop_last() =~= t.take(4));
    assert(t.take(5).last() == t[4]);
    assert(spec_hex_value(t.take(5)) == spec_hex_value(t.take(4)) * 16 + spec_hex_char_val(t[4]));
    assert(t.take(6).drop_last() =~= t.take(5));
    assert(t.take(6).last() == t[5]);
    assert(spec_hex_value(t.take(6)) == spec_hex_value(t.take(5)) * 16 + spec_hex_char_val(t[5]));
    assert(t.take(7).drop_last() =~= t.take(6));
    assert(t.take(7).last() == t[6]);
    assert(spec_hex_value(t.take(7)) == spec_hex_value(t.take(6)) * 16 + spec_hex_char_val(t[6]));
    assert(t.take(8).drop_last() =~= t.take(7));
    assert(t.take(8).last() == t[7]);
    assert(spec_hex_value(t.take(8)) == spec_hex_value(t.take(7)) * 16 + spec_hex_char_val(t[7]));
    assert(t.take(9).drop_last() =~= t.take(8));
    assert(t.take(9).last() == t[8]);
    assert(spec_hex_value(t.take(9)) == spec_hex_value(t.take(8)) * 16 + spec_hex_char_val(t[8]));
    assert(t.take(10).drop_last() =~= t.take(9));
    assert(t.take(10).last() == t[9]);
    assert(spec_hex_value(t.take(10)) == spec_hex_value(t.take(9)) * 16 + spec_hex_char_val(t[9]));
    assert(t.take(11).drop_last() =~= t.take(10));
    assert(t.take(11).last() == t[10]);
    assert(spec_hex_value(t.take(11)) == spec_hex_value(t.take(10)) * 16 + spec_hex_char_val(t[10]));
    assert(t.take(12).drop_last() =~= t.take(11));
    assert(t.take(12).last() == t[11]);
    assert(spec_hex_value(t.take(12)) == spec_hex_value(t.take(11)) * 16 + spec_hex_char_val(t[11]));
    assert(t.take(13).drop_last() =~= t.take(12));
    assert(t.take(13).last() == t[12]);
    assert(spec_hex_value(t.take(13)) == spec_hex_value(t.take(12)) * 16 + spec_hex_char_val(t[12]));
    assert(t.take(14).drop_last() =~= t.take(13));
    assert(t.take(14).last() == t[13]);
    assert(spec_hex_value(t.take(14)) == spec_hex_value(t.take(13)) * 16 + spec_hex_char_val(t[13]));
    assert(t.take(15).drop_last() =~= t.take(14));
    assert(t.take(15).last() == t[14]);
    assert(spec_hex_value(t.take(15)) == spec_hex_value(t.take(14)) * 16 + spec_hex_char_val(t[14]));
    assert(t.take(16).drop_last() =~= t.take(15));
    assert(t.take(16).last() == t[15]);
    assert(spec_hex_value(t.take(16)) == spec_hex_value(t.take(15)) * 16 + spec_hex_char_val(t[15]));
    assert(t.take(17).drop_last() =~= t.take(16));
    assert(t.take(17).last() == t[16]);
    assert(spec_hex_value(t.take(17)) == spec_hex_value(t.take(16)) * 16 + spec_hex_char_val(t[16]));
    assert(t.take(18).drop_last() =~= t.take(17));
    assert(t.take(18).last() == t[17]);
    assert(spec_hex_value(t.take(18)) == spec_hex_value(t.take(17)) * 16 + spec_hex_char_val(t[17]));
    assert(t.take(19).drop_last() =~= t.take(18));
    assert(t.take(19).last() == t[18]);
    assert(spec_hex_value(t.take(19)) == spec_hex_value(t.take(18)) * 16 + spec_hex_char_val(t[18]));
    assert(t.take(20).drop_last() =~= t.take(19));
    assert(t.take(20).last() == t[19]);
    assert(spec_hex_value(t.take(20)) == spec_hex_value(t.take(19)) * 16 + spec_hex_char_val(t[19]));
    assert(t.take(21).drop_last() =~= t.take(20));
    assert(t.take(21).last() == t[20]);
    assert(spec_hex_value(t.take(21)) == spec_hex_value(t.take(20)) * 16 + spec_hex_char_val(t[20]));
    assert(t.take(22).drop_last() =~= t.take(21));
    assert(t.take(22).last() == t[21]);
    assert(spec_hex_value(t.take(22)) == spec_hex_value(t.take(21)) * 16 + spec_hex_char_val(t[21]));
    assert(t.take(23).drop_last() =~= t.take(22));
    assert(t.take(23).last() == t[22]);
    assert(spec_hex_value(t.take(23)) == spec_hex_value(t.take(22)) * 16 + spec_hex_char_val(t[22]));
    assert(t.take(24).drop_last() =~= t.take(23));
    assert(t.take(24).last() == t[23]);
    assert(spec_hex_value(t.take(24)) == spec_hex_value(t.take(23)) * 16 + spec_hex_char_val(t[23]));
    assert(t.take(25).drop_last() =~= t.take(24));
    assert(t.take(25).last() == t[24]);
    assert(spec_hex_value(t.take(25)) == spec_hex_value(t.take(24)) * 16 + spec_hex_char_val(t[24]));
    assert(t.take(26).drop_last() =~= t.take(25));
    assert(t.take(26).last() == t[25]);
    assert(spec_hex_value(t.take(26)) == spec_hex_value(t.take(25)) * 16 + spec_hex_char_val(t[25]));
    assert(t.take(27).drop_last() =~= t.take(26));
    assert(t.take(27).last() == t[26]);
    assert(spec_hex_value(t.take(27)) == spec_hex_value(t.take(26)) * 16 + spec_hex_char_val(t[26]));
    assert(t.take(28).drop_last() =~= t.take(27));
    assert(t.take(28).last() == t[27]);
    assert(spec_hex_value(t.take(28)) == spec_hex_value(t.take(27)) * 16 + spec_hex_char_val(t[27]));
    assert(t.take(29).drop_last() =~= t.take(28));
    assert(t.take(29).last() == t[28]);
    assert(spec_hex_value(t.take(29)) == spec_hex_value(t.take(28)) * 16 + spec_hex_char_val(t[28]));
    assert(t.take(30).drop_last() =~= t.take(29));
    assert(t.take(30).last() == t[29]);
    assert(spec_hex_value(t.take(30)) == spec_hex_value(t.take(29)) * 16 + spec_hex_char_val(t[29]));
    assert(t.take(31).drop_last() =~= t.take(30));
    assert(t.take(31).last() == t[30]);
    assert(spec_hex_value(t.take(31)) == spec_hex_value(t.take(30)) * 16 + spec_hex_char_val(t[30]));
    assert(t.take(32).drop_last() =~= t.take(31));
    assert(t.take(32).last() == t[31]);
    assert(spec_hex_value(t.take(32)) == spec_hex_value(t.take(31)) * 16 + spec_hex_char_val(t[31]));
    assert(t.take(33).drop_last() =~= t.take(32));
    assert(t.take(33).last() == t[32]);
    assert(spec_hex_value(t.take(33)) == spec_hex_value(t.take(32)) * 16 + spec_hex_char_val(t[32]));
    assert(t.take(34).drop_last() =~= t.take(33));
    assert(t.take(34).last() == t[33]);
    assert(spec_hex_value(t.take(34)) == spec_hex_value(t.take(33)) * 16 + spec_hex_char_val(t[33]));
    assert(t.take(35).drop_last() =~= t.take(34));
    assert(t.take(35).last() == t[34]);
    assert(spec_hex_value(t.take(35)) == spec_hex_value(t.take(34)) * 16 + spec_hex_char_val(t[34]));
    assert(t.take(36).drop_last() =~= t.take(35));
    assert(t.take(36).last() == t[35]);
    assert(spec_hex_value(t.take(36)) == spec_hex_value(t.take(35)) * 16 + spec_hex_char_val(t[35]));
    assert(t.take(37).drop_last() =~= t.take(36));
    assert(t.take(37).last() == t[36]);
    assert(spec_hex_value(t.take(37)) == spec_hex_value(t.take(36)) * 16 + spec_hex_char_val(t[36]));
    assert(t.take(38).drop_last() =~= t.take(37));
    assert(t.take(38).last() == t[37]);
    assert(spec_hex_value(t.take(38)) == spec_hex_value(t.take(37)) * 16 + spec_hex_char_val(t[37]));
    assert(t.take(39).drop_last() =~= t.take(38));
    assert(t.take(39).last() == t[38]);
    assert(spec_hex_value(t.take(39)) == spec_hex_value(t.take(38)) * 16 + spec_hex_char_val(t[38]));
    assert(t.take(40).drop_last() =~= t.take(39));
    assert(t.take(40).last() == t[39]);
    assert(spec_hex_value(t.take(40)) == spec_hex_value(t.take(39)) * 16 + spec_hex_char_val(t[39]));
    assert(t.take(40) =~= t);
}

/// What the parsers hand back, as a number: the address built from the
/// hex digits denotes exactly the 160-bit number the digits spell.
pub proof fn lemma_parsed_address_value(t: Seq<char>)
    requires
        t.len() == 40,
    ensures
        spec_address_of_bytes(spec_hex_bytes(t)).value() == spec_hex_value(t),
{
    let b = spec_hex_bytes(t);
    assert(b.len() == 20);
    assert forall|i: int| 0 <= i < 20 implies (#[trigger] b[i]) as nat == spec_hex_char_val(t[2 * i])
        * 16 + spec_hex_char_val(t[2 * i + 1]) by {
        lemma_hex_char_val_bound(t[2 * i]);
        lemma_hex_char_val_bound(t[2 * i + 1]);
    }
    lemma_bytes_value_explicit(b);
    lemma_hex_value_explicit(t);
    assert(spec_address_of_bytes(b).value() == spec_bytes_value(b));
}

} // verus!
