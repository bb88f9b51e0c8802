use vstd::prelude::*;

use crate::text::utf8_len;

verus! {

/// The digit `d` (below 32) of Crockford's base32 alphabet `0-9A-HJKMNP-TV-Z`.
pub open spec fn crockford_char(d: nat) -> char {
    if d < 10 {
        ((48 + d) as u8) as char
    } else if d < 18 {
        ((55 + d) as u8) as char
    } else if d < 20 {
        ((56 + d) as u8) as char
    } else if d < 22 {
        ((57 + d) as u8) as char
    } else if d < 27 {
        ((58 + d) as u8) as char
    } else {
        ((59 + d) as u8) as char
    }
}

/// The value of a Crockford base32 digit, upper or lower case; `None` for any other
/// character (`I`, `L`, `O` and `U` among them).
pub open spec fn crockford_value(c: char) -> Option<nat> {
    let u = c as nat;
    let v = if 97 <= u <= 122 { (u - 32) as nat } else { u };
    if 48 <= v <= 57 {
        Some((v - 48) as nat)
    } else if 65 <= v <= 72 {
        Some((v - 55) as nat)
    } else if 74 <= v <= 75 {
        Some((v - 56) as nat)
    } else if 77 <= v <= 78 {
        Some((v - 57) as nat)
    } else if 80 <= v <= 84 {
        Some((v - 58) as nat)
    } else if 86 <= v <= 90 {
        Some((v - 59) as nat)
    } else {
        None
    }
}

/// The 26-character Crockford base32 text of a ULID, most significant digit first.
pub open spec fn ulid_text(v: u128) -> Seq<char> {
    Seq::new(26, |i: int| crockford_char(((v >> (5 * (25 - i)) as u128) & 31u128) as nat))
}

/// The bits gathered from the digits of `s`, five per digit, the oldest shifted out
/// of 128 bits.
pub open spec fn crockford_fold(s: Seq<char>) -> u128
    decreases s.len(),
{
    if s.len() == 0 {
        0
    } else {
        let d = match crockford_value(s.last()) {
            Some(v) => v,
            None => 0,
        };
        ((crockford_fold(s.drop_last()) << 5u128) | (d as u128)) as u128
    }
}

/// What `ulid::Ulid::from_string` makes of a text: an error unless it is 26 bytes
/// of Crockford base32 digits.
pub open spec fn ulid_decoded(s: Seq<char>) -> Result<u128, Seq<char>> {
    if utf8_len(s) != 26 {
        Err("invalid length"@)
    } else if exists|i: int| 0 <= i < s.len() && crockford_value(#[trigger] s[i]) is None {
        Err("invalid character"@)
    } else {
        Ok(crockford_fold(s))
    }
}

/// The text of a ULID, from `ulid::Ulid::to_string`.
///
/// Claims the crate's encoding: 26 Crockford base32 digits, five bits each, most
/// significant first.
#[verifier::external_body]
pub(crate) fn ulid_to_text(v: u128) -> (r: String)
    ensures
        r@ == ulid_text(v),
{
    ulid::Ulid(v).to_string()
}

/// Reads a ULID with `ulid::Ulid::from_string`.
///
/// Claims the crate's decoding: 26 bytes of Crockford base32 digits in either case,
/// five bits each; the error is the crate's message.
#[verifier::external_body]
pub(crate) fn ulid_from_text(text: &str) -> (r: Result<u128, String>)
    ensures
        match (r, ulid_decoded(text@)) {
            (Ok(v), Ok(w)) => v == w,
            (Err(m), Err(n)) => m@ == n,
            _ => false,
        },
{
    match ulid::Ulid::from_string(text) {
        Ok(id) => Ok(id.0),
        Err(e) => Err(e.to_string()),
    }
}

proof fn lemma_digit_roundtrip(d: nat)
    requires
        d < 32,
    ensures
        crockford_value(crockford_char(d)) == Some(d),
        (crockford_char(d) as u32) < 128,
{
}

proof fn lemma_shift_step(v: u128, s: u128)
    requires
        s <= 120,
    ensures
        (((v >> (s + 5)) << 5u128) | ((v >> s) & 31u128)) == v >> s,
{
    assert((((v >> (s + 5)) << 5u128) | ((v >> s) & 31u128)) == v >> s) by (bit_vector)
        requires
            s <= 120,
    ;
}

proof fn lemma_fold_prefix(v: u128, k: int)
    requires
        1 <= k <= 26,
    ensures
        crockford_fold(ulid_text(v).take(k)) == v >> (5 * (26 - k)) as u128,
    decreases k,
{
    let t = ulid_text(v);
    let s = (5 * (26 - k)) as u128;
    assert((v >> s) & 31u128 < 32u128) by (bit_vector);
    let d = ((v >> s) & 31u128) as nat;
    lemma_digit_roundtrip(d);
    assert(t.take(k).last() == crockford_char(d));
    assert(t.take(k).drop_last() =~= t.take(k - 1));
    assert(d as u128 == (v >> s) & 31u128);
    let prev = crockford_fold(t.take(k - 1));
    assert(crockford_fold(t.take(k)) == ((prev << 5u128) | ((v >> s) & 31u128)) as u128);
    if k == 1 {
        assert(t.take(0) =~= Seq::<char>::empty());
        assert(prev == 0);
        assert(s == 125);
        assert((0u128 << 5u128) | (((v >> 125u128) & 31u128)) == v >> 125u128) by (bit_vector);
    } else {
        lemma_fold_prefix(v, k - 1);
        assert(prev == v >> (s + 5));
        lemma_shift_step(v, s);
    }
}

/// Reading back the text of a ULID gives the ULID.
pub proof fn lemma_ulid_text_roundtrip(v: u128)
    ensures
        ulid_decoded(ulid_text(v)) == Ok::<u128, Seq<char>>(v),
{
    let t = ulid_text(v);
    assert forall|i: int| 0 <= i < t.len() implies crockford_value(#[trigger] t[i]) is Some
        && (t[i] as u32) < 128 by {
        let sh = (5 * (25 - i)) as u128;
        assert((v >> sh) & 31u128 < 32u128) by (bit_vector);
        let d = ((v >> sh) & 31u128) as nat;
        lemma_digit_roundtrip(d);
    }
    lemma_ascii_utf8_len(t);
    lemma_fold_prefix(v, 26);
    assert(t.take(26) =~= t);
    assert((v >> 0u128) == v) by (bit_vector);
}

proof fn lemma_ascii_utf8_len(s: Seq<char>)
    requires
        forall|i: int| 0 <= i < s.len() ==> (#[trigger] s[i] as u32) < 128,
    ensures
        utf8_len(s) == s.len(),
    decreases s.len(),
{
    if s.len() > 0 {
        assert(forall|i: int| 0 <= i < s.drop_first().len() ==> s.drop_first()[i] == s[i + 1]);
        lemma_ascii_utf8_len(s.drop_first());
    }
}

} // verus!
