use vstd::prelude::*;

verus! {

/// Number of bytes in the UTF-8 encoding of `c`.
pub open spec fn utf8_width(c: char) -> nat {
    let v = c as u32;
    if v <= 0x7F {
        1
    } else if v <= 0x7FF {
        2
    } else if v <= 0xFFFF {
        3
    } else {
        4
    }
}

/// Number of bytes in the UTF-8 encoding of `s`.
pub open spec fn utf8_len(s: Seq<char>) -> nat
    decreases s.len(),
{
    if s.len() == 0 {
        0
    } else {
        utf8_width(s[0]) + utf8_len(s.drop_first())
    }
}

/// The UTF-8 length of a concatenation is the sum of the lengths.
pub proof fn lemma_utf8_len_concat(a: Seq<char>, b: Seq<char>)
    ensures
        utf8_len(a + b) == utf8_len(a) + utf8_len(b),
    decreases a.len(),
{
    if a.len() == 0 {
        assert(a + b =~= b);
    } else {
        assert((a + b).drop_first() =~= a.drop_first() + b);
        lemma_utf8_len_concat(a.drop_first(), b);
    }
}

/// Extending a prefix by one character adds that character's width.
pub proof fn lemma_utf8_len_take_next(s: Seq<char>, i: int)
    requires
        0 <= i < s.len(),
    ensures
        utf8_len(s.take(i + 1)) == utf8_len(s.take(i)) + utf8_width(s[i]),
{
    assert(s.take(i + 1) =~= s.take(i) + seq![s[i]]);
    lemma_utf8_len_concat(s.take(i), seq![s[i]]);
    assert(seq![s[i]].drop_first() =~= Seq::<char>::empty());
    assert(utf8_len(seq![s[i]]) == utf8_width(s[i]) + utf8_len(Seq::<char>::empty()));
}

/// `utf8_len` is the length of vstd's UTF-8 encoding.
pub proof fn lemma_utf8_len_is_encoding_len(s: Seq<char>)
    ensures
        utf8_len(s) == vstd::utf8::encode_utf8(s).len(),
    decreases s.len(),
{
    if s.len() > 0 {
        vstd::utf8::char_is_scalar(s[0]);
        lemma_utf8_len_is_encoding_len(s.drop_first());
    }
}

/// The view of an optional string.
pub open spec fn opt_view(s: Option<String>) -> Option<Seq<char>> {
    match s {
        Some(v) => Some(v@),
        None => None,
    }
}

/// Appends one character to a string with `String::push`.
///
/// Claims what the standard library documents: the string's characters are followed
/// by `c`. (vstd gives `String::push` no specification.)
#[verifier::external_body]
pub(crate) fn push_char(s: &mut String, c: char)
    ensures
        final(s)@ == old(s)@.push(c),
{
    s.push(c);
}

/// Number of bytes in the UTF-8 encoding of `c`.
pub fn char_utf8_width(c: char) -> (w: usize)
    ensures
        w == utf8_width(c),
{
    let v = c as u32;
    if v <= 0x7F {
        1
    } else if v <= 0x7FF {
        2
    } else if v <= 0xFFFF {
        3
    } else {
        4
    }
}

/// `s` followed by `n` copies of `c`.
pub open spec fn padded(s: Seq<char>, c: char, n: nat) -> Seq<char> {
    s + Seq::new(n, |_i: int| c)
}

/// `s` padded on the right with spaces to at least `width` characters, as the
/// formatting directive `{:<width}` does.
pub open spec fn pad_right_spec(s: Seq<char>, width: nat) -> Seq<char> {
    if s.len() >= width {
        s
    } else {
        padded(s, ' ', (width - s.len()) as nat)
    }
}

/// Pads `s` on the right with spaces to at least `width` characters.
pub fn pad_right(s: &str, width: usize) -> (r: String)
    ensures
        r@ == pad_right_spec(s@, width as nat),
{
    let n = s.unicode_len();
    let mut r = String::from_str(s);
    if n < width {
        let mut i: usize = n;
        while i < width
            invariant
                n <= i <= width,
                n == s@.len(),
                r@ == padded(s@, ' ', (i - n) as nat),
            decreases width - i,
        {
            push_char(&mut r, ' ');
            i = i + 1;
            assert(r@ =~= padded(s@, ' ', (i - n) as nat));
        }
    } else {
        assert(r@ =~= pad_right_spec(s@, width as nat));
    }
    r
}

/// A run of `n` copies of `c`.
pub fn repeat_char(c: char, n: usize) -> (r: String)
    ensures
        r@ == Seq::new(n as nat, |_i: int| c),
{
    let mut r = String::new();
    let mut i: usize = 0;
    while i < n
        invariant
            i <= n,
            r@ == Seq::new(i as nat, |_j: int| c),
        decreases n - i,
    {
        push_char(&mut r, c);
        i = i + 1;
        assert(r@ =~= Seq::new(i as nat, |_j: int| c));
    }
    r
}

/// The decimal digit of a value below ten.
pub open spec fn decimal_digit(d: nat) -> char {
    if d == 0 {
        '0'
    } else if d == 1 {
        '1'
    } else if d == 2 {
        '2'
    } else if d == 3 {
        '3'
    } else if d == 4 {
        '4'
    } else if d == 5 {
        '5'
    } else if d == 6 {
        '6'
    } else if d == 7 {
        '7'
    } else if d == 8 {
        '8'
    } else {
        '9'
    }
}

/// The decimal representation of `n`, without leading zeros.
pub open spec fn decimal(n: nat) -> Seq<char>
    decreases n,
{
    if n < 10 {
        seq![decimal_digit(n)]
    } else {
        decimal(n / 10).push(decimal_digit(n % 10))
    }
}

/// The decimal representation of `n`, with a leading `-` when negative.
pub open spec fn signed_decimal(n: int) -> Seq<char> {
    if n < 0 {
        seq!['-'] + decimal((-n) as nat)
    } else {
        decimal(n as nat)
    }
}

fn digit_char(d: u64) -> (c: char)
    requires
        d < 10,
    ensures
        c == decimal_digit(d as nat),
{
    if d == 0 {
        '0'
    } else if d == 1 {
        '1'
    } else if d == 2 {
        '2'
    } else if d == 3 {
        '3'
    } else if d == 4 {
        '4'
    } else if d == 5 {
        '5'
    } else if d == 6 {
        '6'
    } else if d == 7 {
        '7'
    } else if d == 8 {
        '8'
    } else {
        '9'
    }
}

/// Renders `n` in decimal.
pub fn u64_to_decimal(n: u64) -> (r: String)
    ensures
        r@ == decimal(n as nat),
    decreases n,
{
    if n < 10 {
        let mut r = String::new();
        push_char(&mut r, digit_char(n));
        assert(r@ =~= seq![decimal_digit(n as nat)]);
        r
    } else {
        let mut r = u64_to_decimal(n / 10);
        push_char(&mut r, digit_char(n % 10));
        r
    }
}

/// Renders `n` in decimal, with a leading `-` when negative.
pub fn i64_to_decimal(n: i64) -> (r: String)
    ensures
        r@ == signed_decimal(n as int),
{
    if n < 0 {
        let magnitude: u64 = (0i128 - (n as i128)) as u64;
        assert(magnitude as int == -(n as int));
        let digits = u64_to_decimal(magnitude);
        let r = String::from_str("-").concat(digits.as_str());
        proof {
            reveal_strlit("-");
        }
        assert(r@ =~= signed_decimal(n as int));
        r
    } else {
        u64_to_decimal(n as u64)
    }
}

/// The number of leading characters of `s` whose UTF-8 encoding fits in `limit` bytes,
/// when not all of `s` fits.
pub open spec fn is_fitting_prefix(s: Seq<char>, k: int, limit: nat) -> bool {
    &&& 0 <= k < s.len()
    &&& utf8_len(s.take(k)) <= limit
    &&& utf8_len(s.take(k + 1)) > limit
}

/// The byte budget left for the kept characters when a string is shortened to `max` bytes.
pub open spec fn truncation_budget(max: nat) -> nat {
    if max >= 3 {
        (max - 3) as nat
    } else {
        0
    }
}

/// Whether `r` is `s` shortened to `max` bytes: `s` itself when it fits, else the
/// longest prefix of whole characters that fits in `max - 3` bytes, followed by `...`.
pub open spec fn is_truncation(s: Seq<char>, max: nat, r: Seq<char>) -> bool {
    ||| utf8_len(s) <= max && r == s
    ||| utf8_len(s) > max && exists|k: int|
        is_fitting_prefix(s, k, truncation_budget(max)) && r == s.take(k) + "..."@
}

/// Shortens `s` to at most `max` bytes (when `max >= 3`), cutting it at a character
/// boundary and appending `...`; strings of at most `max` bytes are returned whole.
pub fn truncate(s: &str, max: usize) -> (r: String)
    ensures
        is_truncation(s@, max as nat, r@),
        max >= 3 ==> utf8_len(r@) <= max,
{
    let n = s.unicode_len();
    // First pass: the encoded length of `s`.
    let mut total: u128 = 0;
    let mut i: usize = 0;
    while i < n
        invariant
            n == s@.len(),
            i <= n,
            total == utf8_len(s@.take(i as int)),
            total <= 4 * i,
        decreases n - i,
    {
        proof {
            lemma_utf8_len_take_next(s@, i as int);
        }
        total = total + char_utf8_width(s.get_char(i)) as u128;
        i = i + 1;
    }
    proof {
        assert(s@.take(n as int) =~= s@);
        assert(s@.take(0) =~= Seq::<char>::empty());
    }
    if total <= max as u128 {
        return String::from_str(s);
    }
    let end: usize = if max >= 3 {
        max - 3
    } else {
        0
    };
    // `k` counts the characters kept, `off` is the byte offset where character `k` starts.
    let mut k: usize = 0;
    let mut off: u128 = 0;
    while k + 1 < n && off + char_utf8_width(s.get_char(k)) as u128 <= end as u128
        invariant
            n == s@.len(),
            n >= 1,
            k < n,
            off == utf8_len(s@.take(k as int)),
            off <= end,
            utf8_len(s@) > end,
        decreases n - k,
    {
        proof {
            lemma_utf8_len_take_next(s@, k as int);
        }
        off = off + char_utf8_width(s.get_char(k)) as u128;
        k = k + 1;
    }
    proof {
        lemma_utf8_len_take_next(s@, k as int);
        if k + 1 >= n {
            assert(s@.take(k + 1) =~= s@);
        }
        assert(is_fitting_prefix(s@, k as int, end as nat));
        assert(end as nat == truncation_budget(max as nat));
    }
    let kept = s.substring_char(0, k);
    let r = String::from_str(kept).concat("...");
    proof {
        assert(kept@ =~= s@.take(k as int));
        reveal_strlit("...");
        lemma_utf8_len_concat(s@.take(k as int), "..."@);
        assert(utf8_len("..."@) == 3) by {
            reveal_with_fuel(utf8_len, 4);
        }
    }
    r
}

/// Whether two strings hold the same characters.
pub fn str_equals(a: &str, b: &str) -> (r: bool)
    ensures
        r == (a@ == b@),
{
    let n = a.unicode_len();
    if n != b.unicode_len() {
        return false;
    }
    let mut i: usize = 0;
    while i < n
        invariant
            n == a@.len(),
            n == b@.len(),
            i <= n,
            forall|j: int| 0 <= j < i ==> a@[j] == b@[j],
        decreases n - i,
    {
        if a.get_char(i) != b.get_char(i) {
            return false;
        }
        i = i + 1;
    }
    assert(a@ =~= b@);
    true
}

/// Whether `s` starts with `prefix`.
pub fn starts_with(s: &str, prefix: &str) -> (r: bool)
    ensures
        r == (prefix@.len() <= s@.len() && s@.take(prefix@.len() as int) == prefix@),
{
    let n = prefix.unicode_len();
    if n > s.unicode_len() {
        return false;
    }
    let mut i: usize = 0;
    while i < n
        invariant
            n == prefix@.len(),
            n <= s@.len(),
            i <= n,
            forall|j: int| 0 <= j < i ==> s@[j] == prefix@[j],
        decreases n - i,
    {
        if s.get_char(i) != prefix.get_char(i) {
            assert(s@.take(n as int)[i as int] != prefix@[i as int]);
            return false;
        }
        i = i + 1;
    }
    assert(s@.take(n as int) =~= prefix@);
    true
}

/// The value of a text of decimal digits, or `None` when it is empty or holds
/// another character.
pub open spec fn digits_value(s: Seq<char>) -> Option<nat>
    decreases s.len(),
{
    if s.len() == 0 {
        None
    } else {
        let c = s.last();
        if '0' <= c && c <= '9' {
            let d = (c as nat - '0' as nat) as nat;
            if s.len() == 1 {
                Some(d)
            } else {
                match digits_value(s.drop_last()) {
                    Some(v) => Some(v * 10 + d),
                    None => None,
                }
            }
        } else {
            None
        }
    }
}

/// The value of an unsigned decimal number as Rust's `u64::from_str` reads it: digits,
/// optionally after one `+`, whose value fits in 64 bits.
pub open spec fn u64_text_value(s: Seq<char>) -> Option<u64> {
    let digits = if s.len() > 0 && s[0] == '+' {
        s.drop_first()
    } else {
        s
    };
    match digits_value(digits) {
        Some(v) => if v <= u64::MAX {
            Some(v as u64)
        } else {
            None
        },
        None => None,
    }
}

/// Reading the digits of `digits` from position `i`, with the value `value` read so
/// far: the message of the first problem met, a character that is no digit or a value
/// that no longer fits in 64 bits (empty when there is none).
pub open spec fn digits_problem(digits: Seq<char>, i: int, value: nat) -> Seq<char>
    decreases digits.len() - i,
{
    if i < 0 || i >= digits.len() {
        Seq::empty()
    } else if !('0' <= digits[i] && digits[i] <= '9') {
        "invalid digit found in string"@
    } else if value * 10 + (digits[i] as nat - '0' as nat) > u64::MAX {
        "number too large to fit in target type"@
    } else {
        digits_problem(digits, i + 1, (value * 10 + (digits[i] as nat - '0' as nat)) as nat)
    }
}

/// The message of the error of Rust's `u64::from_str` on a text it refuses: an empty
/// text, a character that is no digit (a lone `+` among them), or a value too large.
pub open spec fn u64_text_error(s: Seq<char>) -> Seq<char> {
    if s.len() == 0 {
        "cannot parse integer from empty string"@
    } else {
        let digits = if s[0] == '+' {
            s.drop_first()
        } else {
            s
        };
        if digits.len() == 0 {
            "invalid digit found in string"@
        } else {
            digits_problem(digits, 0, 0)
        }
    }
}

/// Reads an unsigned 64-bit decimal number, or says why it cannot be read.
pub fn parse_u64(s: &str) -> (r: Result<u64, String>)
    ensures
        match r {
            Ok(v) => u64_text_value(s@) == Some(v),
            Err(m) => u64_text_value(s@) is None && m@ == u64_text_error(s@),
        },
{
    let n = s.unicode_len();
    let start: usize = if n > 0 && s.get_char(0) == '+' {
        1
    } else {
        0
    };
    let ghost digits = if s@.len() > 0 && s@[0] == '+' {
        s@.drop_first()
    } else {
        s@
    };
    proof {
        assert(digits =~= s@.skip(start as int));
    }
    if n == 0 {
        return Err(String::from_str("cannot parse integer from empty string"));
    }
    if start >= n {
        proof {
            assert(digits.len() == 0);
        }
        return Err(String::from_str("invalid digit found in string"));
    }
    let mut value: u64 = 0;
    let mut i: usize = start;
    while i < n
        invariant
            n == s@.len(),
            start < n,
            start <= i <= n,
            digits == s@.skip(start as int),
            digits == (if s@.len() > 0 && s@[0] == '+' {
                s@.drop_first()
            } else {
                s@
            }),
            i == start ==> value == 0,
            i > start ==> digits_value(s@.subrange(start as int, i as int)) == Some(value as nat),
            u64_text_error(s@) == digits_problem(digits, i - start, value as nat),
        decreases n - i,
    {
        let c = s.get_char(i);
        let ghost prefix = s@.subrange(start as int, i + 1);
        proof {
            assert(prefix.last() == c);
            assert(prefix.drop_last() =~= s@.subrange(start as int, i as int));
        }
        if c < '0' || c > '9' {
            proof {
                lemma_digits_prefix_none(digits, (i - start) as int);
                assert(digits.take((i - start) + 1) =~= prefix);
                assert(digits[i - start] == c);
            }
            return Err(String::from_str("invalid digit found in string"));
        }
        let d: u64 = (c as u32 - '0' as u32) as u64;
        if value > (u64::MAX - d) / 10 {
            proof {
                assert(digits.take((i - start) + 1) =~= prefix);
                assert(digits.take((i - start) as int) =~= s@.subrange(start as int, i as int));
                if i == start {
                    assert(prefix.len() == 1);
                }
                assert(digits_value(prefix) == Some(value as nat * 10 + d as nat));
                assert(value as nat * 10 + d as nat > u64::MAX) by (nonlinear_arith)
                    requires
                        value > (u64::MAX - d) / 10,
                        d <= 9,
                ;
                lemma_digits_prefix_too_big(digits, (i - start) as int, value as nat, d as nat);
                assert(digits[i - start] == c);
            }
            return Err(String::from_str("number too large to fit in target type"));
        }
        proof {
            assert(value as nat * 10 + d as nat <= u64::MAX) by (nonlinear_arith)
                requires
                    value <= (u64::MAX - d) / 10,
                    d <= 9,
            ;
            if i == start {
                assert(prefix.len() == 1);
            }
            assert(digits[i - start] == c);
        }
        value = value * 10 + d;
        i = i + 1;
    }
    proof {
        assert(s@.subrange(start as int, n as int) =~= digits);
    }
    Ok(value)
}

/// A text whose first `k + 1` characters end with a non-digit has no value.
proof fn lemma_digits_prefix_none(s: Seq<char>, k: int)
    requires
        0 <= k < s.len(),
        !('0' <= s[k] && s[k] <= '9'),
    ensures
        digits_value(s) is None,
    decreases s.len(),
{
    if k < s.len() - 1 {
        assert(s.drop_last()[k] == s[k]);
        lemma_digits_prefix_none(s.drop_last(), k);
    }
}

/// Once a prefix of the digits exceeds 64 bits, so does the whole text (or it has a non-digit).
proof fn lemma_digits_prefix_too_big(s: Seq<char>, k: int, value: nat, d: nat)
    requires
        0 <= k < s.len(),
        k > 0 ==> digits_value(s.take(k)) == Some(value),
        k == 0 ==> value == 0,
        digits_value(s.take(k + 1)) == Some(value * 10 + d),
        value * 10 + d > u64::MAX,
    ensures
        match digits_value(s) {
            Some(v) => v > u64::MAX,
            None => true,
        },
    decreases s.len(),
{
    lemma_digits_grow(s, k + 1);
}

/// A text of digits is worth at least any of its nonempty prefixes.
proof fn lemma_digits_grow(s: Seq<char>, k: int)
    requires
        1 <= k <= s.len(),
        digits_value(s.take(k)) is Some,
    ensures
        match digits_value(s) {
            Some(v) => v >= digits_value(s.take(k))->0,
            None => true,
        },
    decreases s.len() - k,
{
    if k == s.len() {
        assert(s.take(k) =~= s);
    } else {
        let t = s.take(k + 1);
        assert(t.drop_last() =~= s.take(k));
        if digits_value(t) is Some {
            lemma_digits_grow(s, k + 1);
        } else {
            lemma_digits_none_extends(s, k + 1);
        }
    }
}

/// A prefix without value means the whole text has none.
proof fn lemma_digits_none_extends(s: Seq<char>, k: int)
    requires
        1 <= k <= s.len(),
        digits_value(s.take(k)) is None,
    ensures
        digits_value(s) is None,
    decreases s.len() - k,
{
    if k == s.len() {
        assert(s.take(k) =~= s);
    } else {
        let t = s.take(k + 1);
        assert(t.drop_last() =~= s.take(k));
        lemma_digits_none_extends(s, k + 1);
    }
}

/// The decimal text of a number reads back as that number.
pub proof fn lemma_decimal_digits_value(n: nat)
    ensures
        digits_value(decimal(n)) == Some(n),
        decimal(n).len() > 0,
        decimal(n)[0] != '+',
    decreases n,
{
    let d = n % 10;
    assert('0' <= decimal_digit(d) <= '9');
    assert((decimal_digit(d) as nat - '0' as nat) == d);
    if n >= 10 {
        lemma_decimal_digits_value(n / 10);
        let s = decimal(n);
        assert(s.drop_last() =~= decimal(n / 10));
        assert(s[0] == decimal(n / 10)[0]);
    }
}

} // verus!
