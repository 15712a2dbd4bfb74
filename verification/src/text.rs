//! Character-level helpers: building strings, decimal rendering and parsing,
//! ASCII case folding.

use vstd::prelude::*;

verus! {

/// Appends one character to a string.
#[verifier::external_body]
pub(crate) fn push_char(s: &mut String, c: char)
    ensures
        final(s)@ == old(s)@.push(c),
{
    s.push(c);
}

/// Appends a string slice to a string.
#[verifier::external_body]
pub(crate) fn push_str(s: &mut String, t: &str)
    ensures
        final(s)@ == old(s)@ + t@,
{
    s.push_str(t);
}

/// An owned copy of a string slice.
pub(crate) fn owned(t: &str) -> (s: String)
    ensures
        s@ == t@,
{
    t.to_owned()
}

/// The characters of a string slice, in order.
pub fn chars_of(s: &str) -> (out: Vec<char>)
    ensures
        out@ == s@,
{
    let mut out: Vec<char> = Vec::new();
    for c in it: s.chars()
        invariant
            out@ == it.seq().take(it.index() as int),
    {
        out.push(c);
    }
    out
}

/// Character-wise equality of two string slices.
pub fn str_eq(a: &str, b: &str) -> (r: bool)
    ensures
        r == (a@ == b@),
{
    let x = chars_of(a);
    let y = chars_of(b);
    if x.len() != y.len() {
        return false;
    }
    let mut i: usize = 0;
    while i < x.len()
        invariant
            x@ == a@,
            y@ == b@,
            x.len() == y.len(),
            i <= x.len(),
            forall|j: int| 0 <= j < i ==> x@[j] == y@[j],
        decreases x.len() - i,
    {
        if x[i] != y[i] {
            assert(a@[i as int] != b@[i as int]);
            return false;
        }
        i = i + 1;
    }
    assert(a@ =~= b@);
    true
}

/// The character for a decimal digit.
pub open spec fn digit_char(d: int) -> char {
    ((48 + d) as u8) as char
}

/// The decimal digits of a natural number, most significant first, without
/// leading zeros (zero itself is `"0"`).
pub open spec fn dec_nat(n: nat) -> Seq<char>
    decreases n,
{
    if n < 10 {
        seq![digit_char(n as int)]
    } else {
        dec_nat(n / 10).push(digit_char((n % 10) as int))
    }
}

/// The decimal text of an integer, with a leading `-` when it is negative.
pub open spec fn dec_int(i: int) -> Seq<char> {
    if i < 0 {
        seq!['-'] + dec_nat((-i) as nat)
    } else {
        dec_nat(i as nat)
    }
}

fn digit(d: u64) -> (c: char)
    requires
        d < 10,
    ensures
        c == digit_char(d as int),
{
    let b: u8 = 48u8 + (d as u8);
    b as char
}

fn push_decimal_u128(s: &mut String, n: u128)
    ensures
        final(s)@ == old(s)@ + dec_nat(n as nat),
    decreases n,
{
    if n >= 10 {
        push_decimal_u128(s, n / 10);
    }
    push_char(s, digit((n % 10) as u64));
    assert(final(s)@ =~= old(s)@ + dec_nat(n as nat));
}

/// Appends the decimal text of an unsigned integer.
pub fn push_u64(s: &mut String, n: u64)
    ensures
        final(s)@ == old(s)@ + dec_nat(n as nat),
{
    push_decimal_u128(s, n as u128);
}

/// Appends the decimal text of a signed integer (`Display` for `i64`).
pub fn push_i64(s: &mut String, n: i64)
    ensures
        final(s)@ == old(s)@ + dec_int(n as int),
{
    if n < 0 {
        push_char(s, '-');
        let m: i128 = -(n as i128);
        push_decimal_u128(s, m as u128);
        assert(final(s)@ =~= old(s)@ + dec_int(n as int));
    } else {
        push_decimal_u128(s, n as u128);
    }
}

/// The decimal text of an unsigned integer (`Display` for `u64`).
pub fn u64_to_string(n: u64) -> (s: String)
    ensures
        s@ == dec_nat(n as nat),
{
    let mut s = String::new();
    push_u64(&mut s, n);
    assert(s@ =~= dec_nat(n as nat));
    s
}

/// The decimal text of a signed integer (`Display` for `i64`).
pub fn i64_to_string(n: i64) -> (s: String)
    ensures
        s@ == dec_int(n as int),
{
    let mut s = String::new();
    push_i64(&mut s, n);
    assert(s@ =~= dec_int(n as int));
    s
}

pub open spec fn is_digit(c: char) -> bool {
    '0' <= c && c <= '9'
}

pub open spec fn all_digits(ds: Seq<char>) -> bool {
    forall|i: int| 0 <= i < ds.len() ==> is_digit(#[trigger] ds[i])
}

/// The value of a run of decimal digits.
pub open spec fn digits_value(ds: Seq<char>) -> nat
    decreases ds.len(),
{
    if ds.len() == 0 {
        0
    } else {
        digits_value(ds.drop_last()) * 10 + ((ds.last() as int - 48) as nat)
    }
}

/// What `str::parse::<i64>` accepts and returns: an optional `+` or `-`, then
/// one or more ASCII digits, whose value fits in an `i64`.
pub open spec fn spec_parse_i64(s: Seq<char>) -> Option<i64> {
    let neg = s.len() > 0 && s[0] == '-';
    let ds = if s.len() > 0 && (s[0] == '-' || s[0] == '+') {
        s.drop_first()
    } else {
        s
    };
    if ds.len() == 0 || !all_digits(ds) {
        None
    } else {
        let v: int = if neg {
            -(digits_value(ds) as int)
        } else {
            digits_value(ds) as int
        };
        if i64::MIN <= v && v <= i64::MAX {
            Some(v as i64)
        } else {
            None
        }
    }
}

/// Parses a decimal `i64` as `str::parse::<i64>` does.
pub fn parse_i64(s: &str) -> (r: Option<i64>)
    ensures
        r == spec_parse_i64(s@),
{
    let cs = chars_of(s);
    let n = cs.len();
    if n == 0 {
        return None;
    }
    let neg = cs[0] == '-';
    let start: usize = if cs[0] == '-' || cs[0] == '+' { 1 } else { 0 };
    let ghost ds = if s@.len() > 0 && (s@[0] == '-' || s@[0] == '+') {
        s@.drop_first()
    } else {
        s@
    };
    assert(ds =~= cs@.subrange(start as int, n as int));
    if start == n {
        return None;
    }
    let limit: u64 = 9223372036854775808u64;
    let mut acc: u64 = 0;
    let mut over = false;
    let mut i = start;
    while i < n
        invariant
            cs@ == s@,
            n == cs.len(),
            start <= i <= n,
            ds =~= cs@.subrange(start as int, n as int),
            ds == (if s@.len() > 0 && (s@[0] == '-' || s@[0] == '+') {
                s@.drop_first()
            } else {
                s@
            }),
            limit == 9223372036854775808u64,
            all_digits(cs@.subrange(start as int, i as int)),
            !over ==> acc as nat == digits_value(cs@.subrange(start as int, i as int)),
            !over ==> acc <= limit,
            over ==> digits_value(cs@.subrange(start as int, i as int)) > limit,
        decreases n - i,
    {
        let c = cs[i];
        if !('0' <= c && c <= '9') {
            assert(ds[i - start] == c);
            assert(!is_digit(ds[i - start]));
            assert(!all_digits(ds));
            return None;
        }
        assert(48 <= (c as u32) <= 57);
        let d: u64 = (c as u32 - 48) as u64;
        assert(d <= 9);
        let ghost pre = cs@.subrange(start as int, i as int);
        let ghost post = cs@.subrange(start as int, i + 1);
        assert(post.drop_last() =~= pre);
        assert(post.last() == c);
        if !over {
            if acc > (limit - d) / 10 {
                over = true;
                assert(digits_value(post) == digits_value(pre) * 10 + d);
            } else {
                acc = acc * 10 + d;
            }
        } else {
            assert(digits_value(post) == digits_value(pre) * 10 + d);
        }
        assert forall|j: int| 0 <= j < post.len() implies is_digit(#[trigger] post[j]) by {
            if j < pre.len() {
                assert(post[j] == pre[j]);
            }
        }
        i = i + 1;
    }
    assert(cs@.subrange(start as int, n as int) =~= ds);
    if over {
        return None;
    }
    if neg {
        let v: i128 = -(acc as i128);
        Some(v as i64)
    } else if acc <= 9223372036854775807u64 {
        Some(acc as i64)
    } else {
        None
    }
}

/// Why `str::parse::<i64>` refuses a text (`IntErrorKind`).
#[derive(Debug, Clone, Copy, PartialEq, Eq, Structural)]
pub enum IntParseError {
    /// The text is empty.
    Empty,
    /// A character is not a digit (a lone sign counts as one).
    InvalidDigit,
    /// The value is above `i64::MAX`.
    PosOverflow,
    /// The value is below `i64::MIN`.
    NegOverflow,
}

/// The number of digits a text starts with.
pub open spec fn digit_run(ds: Seq<char>) -> nat
    decreases ds.len(),
{
    if ds.len() > 0 && is_digit(ds[0]) {
        1 + digit_run(ds.drop_first())
    } else {
        0
    }
}

/// The magnitude an `i64` can reach on the side of the sign.
pub open spec fn i64_magnitude_bound(neg: bool) -> nat {
    if neg {
        9223372036854775808
    } else {
        9223372036854775807
    }
}

/// Why `str::parse::<i64>` refuses a text, as it reports it: empty text;
/// then, reading the digits after an optional sign one by one, the first
/// position where the character is not a digit (a lone sign included) or
/// where the value leaves the `i64` range, whichever comes first.  Of a text
/// that parses it is `InvalidDigit`, which nothing reports.
pub open spec fn spec_i64_parse_error(s: Seq<char>) -> IntParseError {
    if s.len() == 0 {
        IntParseError::Empty
    } else {
        let neg = s[0] == '-';
        let ds = if s[0] == '-' || s[0] == '+' {
            s.drop_first()
        } else {
            s
        };
        if ds.len() > 0 && digits_value(ds.take(digit_run(ds) as int)) > i64_magnitude_bound(neg) {
            if neg {
                IntParseError::NegOverflow
            } else {
                IntParseError::PosOverflow
            }
        } else {
            IntParseError::InvalidDigit
        }
    }
}

proof fn lemma_digit_run_exact(s: Seq<char>, n: int)
    requires
        0 <= n <= s.len(),
        forall|i: int| 0 <= i < n ==> is_digit(#[trigger] s[i]),
        n == s.len() || !is_digit(s[n]),
    ensures
        digit_run(s) == n,
    decreases n,
{
    if n > 0 {
        let t = s.drop_first();
        assert forall|i: int| 0 <= i < n - 1 implies is_digit(#[trigger] t[i]) by {
            assert(t[i] == s[i + 1]);
        }
        lemma_digit_run_exact(t, n - 1);
    }
}

/// The reason `str::parse::<i64>` gives for refusing a text.
pub fn i64_parse_error(s: &str) -> (e: IntParseError)
    ensures
        e == spec_i64_parse_error(s@),
{
    let cs = chars_of(s);
    let n = cs.len();
    if n == 0 {
        return IntParseError::Empty;
    }
    let neg = cs[0] == '-';
    let start: usize = if cs[0] == '-' || cs[0] == '+' { 1 } else { 0 };
    let ghost ds = if s@[0] == '-' || s@[0] == '+' {
        s@.drop_first()
    } else {
        s@
    };
    assert(ds =~= cs@.subrange(start as int, n as int));
    let limit: u64 = if neg { 9223372036854775808u64 } else { 9223372036854775807u64 };
    let mut acc: u64 = 0;
    let mut over = false;
    let mut i = start;
    while i < n && '0' <= cs[i] && cs[i] <= '9'
        invariant
            cs@ == s@,
            n == cs.len(),
            start <= i <= n,
            ds =~= cs@.subrange(start as int, n as int),
            limit as nat == i64_magnitude_bound(neg),
            all_digits(cs@.subrange(start as int, i as int)),
            !over ==> acc as nat == digits_value(cs@.subrange(start as int, i as int)),
            !over ==> acc <= limit,
            over ==> digits_value(cs@.subrange(start as int, i as int)) > limit,
        decreases n - i,
    {
        let c = cs[i];
        assert(48 <= (c as u32) <= 57);
        let d: u64 = (c as u32 - 48) as u64;
        assert(d <= 9);
        let ghost pre = cs@.subrange(start as int, i as int);
        let ghost post = cs@.subrange(start as int, i + 1);
        assert(post.drop_last() =~= pre);
        assert(post.last() == c);
        if !over {
            if acc > (limit - d) / 10 {
                over = true;
                assert(digits_value(post) == digits_value(pre) * 10 + d);
            } else {
                acc = acc * 10 + d;
            }
        } else {
            assert(digits_value(post) == digits_value(pre) * 10 + d);
        }
        assert forall|j: int| 0 <= j < post.len() implies is_digit(#[trigger] post[j]) by {
            if j < pre.len() {
                assert(post[j] == pre[j]);
            }
        }
        i = i + 1;
    }
    let ghost k = (i - start) as int;
    proof {
        assert forall|j: int| 0 <= j < k implies is_digit(#[trigger] ds[j]) by {
            assert(ds[j] == cs@.subrange(start as int, i as int)[j]);
        }
        lemma_digit_run_exact(ds, k);
        assert(ds.take(k) =~= cs@.subrange(start as int, i as int));
    }
    if over && i > start {
        if neg {
            IntParseError::NegOverflow
        } else {
            IntParseError::PosOverflow
        }
    } else {
        IntParseError::InvalidDigit
    }
}

/// Why `str::parse::<f64>` refuses a text (`ParseFloatError`): empty text, or
/// any other text that is not a float literal.
#[derive(Debug, Clone, Copy, PartialEq, Eq, Structural)]
pub enum FloatParseError {
    Empty,
    Invalid,
}

/// The message std gives for a refused integer text.
pub open spec fn int_parse_error_message(e: IntParseError) -> Seq<char> {
    match e {
        IntParseError::Empty => "cannot parse integer from empty string"@,
        IntParseError::InvalidDigit => "invalid digit found in string"@,
        IntParseError::PosOverflow => "number too large to fit in target type"@,
        IntParseError::NegOverflow => "number too small to fit in target type"@,
    }
}

/// The message std gives for a refused float text.
pub open spec fn float_parse_error_message(e: FloatParseError) -> Seq<char> {
    match e {
        FloatParseError::Empty => "cannot parse float from empty string"@,
        FloatParseError::Invalid => "invalid float literal"@,
    }
}

/// The message of a refused integer text.
pub fn int_parse_error_text(e: IntParseError) -> (t: &'static str)
    ensures
        t@ == int_parse_error_message(e),
{
    match e {
        IntParseError::Empty => "cannot parse integer from empty string",
        IntParseError::InvalidDigit => "invalid digit found in string",
        IntParseError::PosOverflow => "number too large to fit in target type",
        IntParseError::NegOverflow => "number too small to fit in target type",
    }
}

/// The message of a refused float text.
pub fn float_parse_error_text(e: FloatParseError) -> (t: &'static str)
    ensures
        t@ == float_parse_error_message(e),
{
    match e {
        FloatParseError::Empty => "cannot parse float from empty string",
        FloatParseError::Invalid => "invalid float literal",
    }
}

/// A character allowed in a market symbol: `A`–`Z`, `0`–`9` or `_`.
pub open spec fn is_upper_or_digit_or_underscore(c: char) -> bool {
    ('A' <= c && c <= 'Z') || ('0' <= c && c <= '9') || c == '_'
}

/// ASCII lowercase of a character (other characters are unchanged).
pub open spec fn ascii_lower(c: char) -> char {
    if 'A' <= c && c <= 'Z' {
        ((c as u32) + 32) as char
    } else {
        c
    }
}

/// `str::eq_ignore_ascii_case`: same length and equal after ASCII lowercasing.
pub open spec fn eq_ignore_ascii_case(a: Seq<char>, b: Seq<char>) -> bool {
    a.len() == b.len() && forall|i: int|
        0 <= i < a.len() ==> ascii_lower(#[trigger] a[i]) == ascii_lower(b[i])
}

fn lower(c: char) -> (r: char)
    ensures
        r == ascii_lower(c),
{
    if 'A' <= c && c <= 'Z' {
        let u: u32 = (c as u32) + 32;
        assert(u == (c as u32) + 32);
        char_from_ascii(u)
    } else {
        c
    }
}

fn char_from_ascii(u: u32) -> (c: char)
    requires
        u < 128,
    ensures
        c == u as char,
{
    (u as u8) as char
}

/// Compares two string slices ignoring ASCII case.
pub fn str_eq_ignore_ascii_case(a: &str, b: &str) -> (r: bool)
    ensures
        r == eq_ignore_ascii_case(a@, b@),
{
    let x = chars_of(a);
    let y = chars_of(b);
    if x.len() != y.len() {
        return false;
    }
    let mut i: usize = 0;
    while i < x.len()
        invariant
            x@ == a@,
            y@ == b@,
            x.len() == y.len(),
            i <= x.len(),
            forall|j: int| 0 <= j < i ==> ascii_lower(#[trigger] x@[j]) == ascii_lower(y@[j]),
        decreases x.len() - i,
    {
        if lower(x[i]) != lower(y[i]) {
            return false;
        }
        i = i + 1;
    }
    true
}

} // verus!
