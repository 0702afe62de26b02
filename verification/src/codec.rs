//! Byte-level codecs for the field encoding kinds: ASCII text, UTF-8 text,
//! and decimal 32-bit integers.
//!
//! Every raw field value is a byte sequence. Text decoding is stated against
//! vstd's UTF-8 specification; integer decoding against a direct decimal
//! specification. Each decoder pins down exactly which inputs succeed.

use vstd::prelude::*;
use vstd::utf8::*;

verus! {

use crate::headers::ValueError;

/// True when every byte is in the ASCII range.
pub open spec fn ascii_bytes(b: Seq<u8>) -> bool {
    forall|i: int| 0 <= i < b.len() ==> b[i] < 0x80
}

/// An ASCII byte sequence is valid UTF-8 and decodes character by character.
pub proof fn lemma_ascii_bytes_utf8(b: Seq<u8>)
    requires
        ascii_bytes(b),
    ensures
        valid_utf8(b),
        is_ascii_chars(decode_utf8(b)),
        decode_utf8(b).len() == b.len(),
    decreases b.len(),
{
    if b.len() > 0 {
        let b0 = b[0];
        assert(is_leading_byte_width_1(b0));
        assert(valid_first_scalar(b));
        assert(pop_first_scalar(b) =~= b.drop_first());
        lemma_ascii_bytes_utf8(b.drop_first());
        assert(b0 & 0x7f == b0) by (bit_vector)
            requires
                b0 < 0x80,
        ;
        let u = decode_first_scalar(b);
        assert(u == b0 as u32);
        assert((u as char) as u32 == u);
        assert('\0' <= (u as char) <= '\u{7f}');
        assert(decode_utf8(b) == seq![u as char] + decode_utf8(b.drop_first()));
        assert forall|i: int| 0 <= i < decode_utf8(b).len() implies '\0' <= #[trigger] decode_utf8(
            b,
        )[i] <= '\u{7f}' by {
            if i > 0 {
                assert(decode_utf8(b)[i] == decode_utf8(b.drop_first())[i - 1]);
            }
        }
    }
}

/// The UTF-8 encoding of an ASCII character sequence is made of ASCII bytes.
pub proof fn lemma_ascii_chars_bytes(s: Seq<char>)
    requires
        is_ascii_chars(s),
    ensures
        ascii_bytes(encode_utf8(s)),
{
    broadcast use is_ascii_chars_encode_utf8, is_ascii_chars_nat_bound;

    assert forall|i: int| 0 <= i < encode_utf8(s).len() implies encode_utf8(s)[i] < 0x80 by {
        assert(encode_utf8(s)[i] == s[i] as u8);
        assert((s[i] as nat) < 128);
    }
}

/// Relies on `core::str::from_utf8` (with an owning copy of the result):
/// it succeeds exactly on the byte sequences that are valid UTF-8, and
/// decodes them.
#[verifier::external_body]
pub(crate) fn bytes_to_string(b: &[u8]) -> (r: Option<String>)
    ensures
        match r {
            Some(s) => valid_utf8(b@) && s@ == decode_utf8(b@),
            None => !valid_utf8(b@),
        },
{
    core::str::from_utf8(b).ok().map(|s| s.to_owned())
}

/// Decode a UTF-8 text field value: any valid UTF-8 byte sequence.
pub fn decode_utf8_text(b: &[u8]) -> (r: Result<String, ValueError>)
    ensures
        match r {
            Ok(s) => valid_utf8(b@) && s@ == decode_utf8(b@),
            Err(e) => !valid_utf8(b@) && e == ValueError::NotUtf8,
        },
{
    match bytes_to_string(b) {
        Some(s) => Ok(s),
        None => Err(ValueError::NotUtf8),
    }
}

/// Decode an ASCII text field value: every byte must be ASCII.
pub fn decode_ascii_text(b: &[u8]) -> (r: Result<String, ValueError>)
    ensures
        match r {
            Ok(s) => ascii_bytes(b@) && s@ == decode_utf8(b@),
            Err(e) => !ascii_bytes(b@) && e == ValueError::NotAscii,
        },
{
    let mut i: usize = 0;
    while i < b.len()
        invariant
            0 <= i <= b@.len(),
            forall|j: int| 0 <= j < i ==> b@[j] < 0x80,
        decreases b@.len() - i,
    {
        if b[i] >= 0x80 {
            return Err(ValueError::NotAscii);
        }
        i += 1;
    }
    proof {
        lemma_ascii_bytes_utf8(b@);
    }
    match bytes_to_string(b) {
        Some(s) => Ok(s),
        None => Err(ValueError::NotAscii),
    }
}

/// True when the byte is a decimal digit.
pub open spec fn is_digit(b: u8) -> bool {
    48 <= b <= 57
}

/// True when every byte of the sequence is a decimal digit.
pub open spec fn all_digits(s: Seq<u8>) -> bool {
    forall|i: int| 0 <= i < s.len() ==> is_digit(#[trigger] s[i])
}

/// The value of a sequence of decimal digit bytes, most significant first.
pub open spec fn digits_val(s: Seq<u8>) -> int
    decreases s.len(),
{
    if s.len() == 0 {
        0
    } else {
        digits_val(s.drop_last()) * 10 + (s.last() - 48)
    }
}

/// True when the rendering opens with a minus sign.
pub open spec fn spec_int_negative(s: Seq<u8>) -> bool {
    s.len() > 0 && s[0] == 45
}

/// The digit part of an integer rendering: everything after an optional
/// single leading sign.
pub open spec fn spec_int_digits(s: Seq<u8>) -> Seq<u8> {
    if s.len() > 0 && (s[0] == 43 || s[0] == 45) {
        s.drop_first()
    } else {
        s
    }
}

/// What `i32` decimal parsing returns: an optional single sign, then at
/// least one digit and nothing else, with the signed value in range.
pub open spec fn spec_parse_i32(s: Seq<u8>) -> Option<i32> {
    let digits = spec_int_digits(s);
    if digits.len() == 0 || !all_digits(digits) {
        None
    } else {
        let v = if spec_int_negative(s) {
            -digits_val(digits)
        } else {
            digits_val(digits)
        };
        if i32::MIN <= v <= i32::MAX {
            Some(v as i32)
        } else {
            None
        }
    }
}

/// The decimal digits of a positive number, most significant first; empty
/// for zero.
pub open spec fn spec_digits(n: nat) -> Seq<u8>
    decreases n,
{
    if n == 0 {
        Seq::empty()
    } else {
        spec_digits(n / 10).push((48 + n % 10) as u8)
    }
}

/// The canonical decimal rendering of a 32-bit integer.
pub open spec fn spec_format_i32(n: int) -> Seq<u8> {
    if n == 0 {
        seq![48u8]
    } else if n < 0 {
        seq![45u8] + spec_digits((-n) as nat)
    } else {
        spec_digits(n as nat)
    }
}

/// The digit expansion of a number evaluates back to the number.
pub proof fn lemma_spec_digits_val(n: nat)
    ensures
        all_digits(spec_digits(n)),
        digits_val(spec_digits(n)) == n,
        n > 0 ==> spec_digits(n).len() >= 1,
    decreases n,
{
    if n > 0 {
        lemma_spec_digits_val(n / 10);
        assert(spec_digits(n).drop_last() =~= spec_digits(n / 10));
    }
}

/// A digit sequence evaluates to a non-negative value.
pub proof fn lemma_digits_val_nonneg(s: Seq<u8>)
    requires
        all_digits(s),
    ensures
        digits_val(s) >= 0,
    decreases s.len(),
{
    if s.len() > 0 {
        assert(all_digits(s.drop_last()));
        lemma_digits_val_nonneg(s.drop_last());
    }
}

/// Extending a digit sequence never decreases its value.
pub proof fn lemma_digits_val_prefix(s: Seq<u8>, k: int)
    requires
        all_digits(s),
        0 <= k <= s.len(),
    ensures
        digits_val(s) >= digits_val(s.subrange(0, k)),
    decreases s.len() - k,
{
    if k < s.len() {
        let t = s.subrange(0, k + 1);
        assert(t.drop_last() =~= s.subrange(0, k));
        assert(all_digits(t.drop_last()));
        lemma_digits_val_nonneg(t.drop_last());
        assert(digits_val(t) == digits_val(s.subrange(0, k)) * 10 + (t.last() - 48));
        assert(digits_val(t) >= digits_val(s.subrange(0, k)));
        lemma_digits_val_prefix(s, k + 1);
        assert(s.subrange(0, s.len() as int) =~= s);
    } else {
        assert(s.subrange(0, s.len() as int) =~= s);
    }
}

/// Formatting a 32-bit integer and parsing the result gives the integer
/// back.
pub proof fn lemma_format_parse_i32(n: int)
    requires
        i32::MIN <= n <= i32::MAX,
    ensures
        spec_parse_i32(spec_format_i32(n)) == Some(n as i32),
{
    if n == 0 {
        let s = seq![48u8];
        assert(s.drop_last() =~= Seq::<u8>::empty());
        assert(digits_val(Seq::<u8>::empty()) == 0);
        assert(digits_val(s) == digits_val(s.drop_last()) * 10 + (s.last() - 48));
        assert(digits_val(s) == 0);
        assert(all_digits(s));
        assert(spec_int_digits(s) == s);
    } else if n > 0 {
        lemma_spec_digits_val(n as nat);
        let s = spec_digits(n as nat);
        assert(is_digit(s[0]));
        assert(spec_int_digits(s) == s);
    } else {
        lemma_spec_digits_val((-n) as nat);
        let s = seq![45u8] + spec_digits((-n) as nat);
        assert(s[0] == 45);
        assert(spec_int_digits(s) =~= spec_digits((-n) as nat));
    }
}

/// Parse a decimal 32-bit integer, exactly as [`spec_parse_i32`] says.
pub fn parse_i32(b: &[u8]) -> (r: Option<i32>)
    ensures
        r == spec_parse_i32(b@),
{
    let n = b.len();
    let mut start: usize = 0;
    let mut negative = false;
    if n > 0 && (b[0] == 43 || b[0] == 45) {
        negative = b[0] == 45;
        start = 1;
    }
    if start >= n {
        return None;
    }
    let ghost digits = spec_int_digits(b@);
    let mut acc: u64 = 0;
    let mut i: usize = start;
    while i < n
        invariant
            start <= i <= n,
            n == b@.len(),
            start == 0 || start == 1,
            digits == spec_int_digits(b@),
            negative == spec_int_negative(b@),
            digits =~= b@.subrange(start as int, n as int),
            acc == digits_val(b@.subrange(start as int, i as int)),
            all_digits(b@.subrange(start as int, i as int)),
            acc <= 0x8000_0000,
        decreases n - i,
    {
        let c = b[i];
        if c < 48 || c > 57 {
            proof {
                assert(digits[i - start] == b@[i as int]);
                assert(!is_digit(digits[i - start]));
                assert(!all_digits(digits));
                assert(spec_parse_i32(b@) is None);
            }
            return None;
        }
        let d = (c - 48) as u64;
        let next = acc * 10 + d;
        proof {
            let done = b@.subrange(start as int, i + 1);
            assert(done.drop_last() =~= b@.subrange(start as int, i as int));
            assert(done.last() == b@[i as int]);
            assert(digits_val(done) == next);
            assert(all_digits(done));
        }
        if next > 0x8000_0000 {
            proof {
                let done = b@.subrange(start as int, i + 1);
                if all_digits(digits) {
                    lemma_digits_val_prefix(digits, i + 1 - start);
                    assert(done =~= digits.subrange(0, i + 1 - start));
                    assert(digits_val(digits) >= digits_val(done));
                    assert(digits_val(digits) > 0x8000_0000);
                    assert(spec_parse_i32(b@) is None);
                } else {
                    assert(spec_parse_i32(b@) is None);
                }
            }
            return None;
        }
        acc = next;
        i += 1;
    }
    assert(b@.subrange(start as int, n as int) =~= digits);
    assert(acc == digits_val(digits));
    assert(all_digits(digits));
    assert(digits.len() > 0);
    if negative {
        let r = (-(acc as i64)) as i32;
        assert(r == spec_parse_i32(b@).unwrap());
        Some(r)
    } else {
        if acc > 0x7fff_ffff {
            assert(spec_parse_i32(b@) is None);
            None
        } else {
            let r = acc as i32;
            assert(r == spec_parse_i32(b@).unwrap());
            Some(r)
        }
    }
}

/// Render a 32-bit integer in decimal, exactly as [`spec_format_i32`] says.
pub fn format_i32(n: i32) -> (r: Vec<u8>)
    ensures
        r@ == spec_format_i32(n as int),
{
    if n == 0 {
        let mut v: Vec<u8> = Vec::new();
        v.push(48);
        assert(v@ =~= spec_format_i32(0));
        return v;
    }
    let magnitude: u64 = if n < 0 {
        (-(n as i64)) as u64
    } else {
        n as u64
    };
    let mut v: Vec<u8> = Vec::new();
    let mut m: u64 = magnitude;
    while m > 0
        invariant
            spec_digits(magnitude as nat) =~= spec_digits(m as nat) + v@,
        decreases m,
    {
        let d = (48 + (m % 10)) as u8;
        proof {
            assert(spec_digits(m as nat) == spec_digits((m as nat) / 10).push(
                (48 + (m as nat) % 10) as u8,
            ));
            assert(spec_digits((m as nat) / 10) + seq![(48 + (m as nat) % 10) as u8] + v@
                =~= spec_digits((m as nat) / 10).push((48 + (m as nat) % 10) as u8) + v@);
        }
        let mut w: Vec<u8> = Vec::new();
        w.push(d);
        w.append(&mut v);
        v = w;
        m = m / 10;
        assert(spec_digits(magnitude as nat) =~= spec_digits(m as nat) + v@);
    }
    if n < 0 {
        let mut w: Vec<u8> = Vec::new();
        w.push(45);
        w.append(&mut v);
        v = w;
        assert(v@ =~= spec_format_i32(n as int));
    } else {
        assert(v@ =~= spec_format_i32(n as int));
    }
    v
}

/// UTF-8 encoding distinguishes distinct character sequences.
pub proof fn lemma_encode_utf8_injective(a: Seq<char>, b: Seq<char>)
    ensures
        (encode_utf8(a) == encode_utf8(b)) == (a == b),
{
    if encode_utf8(a) == encode_utf8(b) {
        broadcast use encode_utf8_decode_utf8;

        assert(decode_utf8(encode_utf8(a)) == decode_utf8(encode_utf8(b)));
    }
}

/// Compare two string slices for equality.
pub fn str_eq(a: &str, b: &str) -> (r: bool)
    ensures
        r == (a@ == b@),
{
    let r = bytes_eq(a.as_bytes(), b.as_bytes());
    proof {
        lemma_encode_utf8_injective(a@, b@);
    }
    r
}

/// Compare two byte slices for equality.
pub fn bytes_eq(a: &[u8], b: &[u8]) -> (r: bool)
    ensures
        r == (a@ == b@),
{
    if a.len() != b.len() {
        return false;
    }
    let mut i: usize = 0;
    while i < a.len()
        invariant
            0 <= i <= a@.len(),
            a@.len() == b@.len(),
            forall|j: int| 0 <= j < i ==> a@[j] == b@[j],
        decreases a@.len() - i,
    {
        if a[i] != b[i] {
            return false;
        }
        i += 1;
    }
    proof {
        assert(a@ =~= b@);
    }
    true
}

} // verus!
