//! Optional bearer authentication for gRPC requests.

use vstd::prelude::*;
use crate::service::{err, status, Code, ErrorView, ServiceError};
use crate::text::{ascii_lower, chars_of, eq_ignore_ascii_case};

verus! {

/// Checks requests against a static bearer token when one is configured.
#[derive(Clone)]
pub struct BearerInterceptor {
    token: Option<String>,
}

/// A header byte that reads as text: visible ASCII or a tab.
pub open spec fn is_visible_ascii(b: u8) -> bool {
    (32 <= b && b < 127) || b == 9
}

/// The text of a visible-ASCII header.
pub open spec fn ascii_text(h: Seq<u8>) -> Seq<char> {
    h.map_values(|b: u8| b as char)
}

/// The separators of header words: space and tab (the only white space a
/// visible-ASCII header can hold).
pub open spec fn is_ws(c: char) -> bool {
    c == ' ' || c == '\t'
}

/// The number of separators a text starts with.
pub open spec fn lead_ws(s: Seq<char>) -> nat
    decreases s.len(),
{
    if s.len() > 0 && is_ws(s[0]) {
        1 + lead_ws(s.drop_first())
    } else {
        0
    }
}

/// The length of the word a text starts with.
pub open spec fn word_len(s: Seq<char>) -> nat
    decreases s.len(),
{
    if s.len() > 0 && !is_ws(s[0]) {
        1 + word_len(s.drop_first())
    } else {
        0
    }
}

/// The first word of a text and what follows it (`split_whitespace().next()`).
pub open spec fn next_word(s: Seq<char>) -> Option<(Seq<char>, Seq<char>)> {
    let t = s.skip(lead_ws(s) as int);
    if t.len() == 0 {
        None
    } else {
        Some((t.take(word_len(t) as int), t.skip(word_len(t) as int)))
    }
}

/// The decision on a request: accepted when no token is configured, or when
/// the `authorization` header is visible ASCII whose first two words are the
/// scheme `bearer` (in any case) and the configured token.
pub open spec fn spec_authorize(expected: Option<Seq<char>>, header: Option<Seq<u8>>) -> Result<(), ErrorView> {
    match expected {
        None => Ok(()),
        Some(exp) => match header {
            None => Err(err(Code::Unauthenticated, "missing authorization header"@)),
            Some(h) => if !(forall|i: int| 0 <= i < h.len() ==> is_visible_ascii(#[trigger] h[i])) {
                Err(err(Code::Unauthenticated, "invalid authorization header"@))
            } else {
                match next_word(ascii_text(h)) {
                    Some((scheme, rest)) => match next_word(rest) {
                        Some((token, _)) => if eq_ignore_ascii_case(scheme, "bearer"@) && token == exp {
                            Ok(())
                        } else {
                            Err(err(Code::Unauthenticated, "invalid bearer token"@))
                        },
                        None => Err(err(Code::Unauthenticated, "invalid bearer token"@)),
                    },
                    None => Err(err(Code::Unauthenticated, "invalid bearer token"@)),
                }
            },
        },
    }
}

proof fn lemma_lead_ws_step(s: Seq<char>, i: int)
    requires
        0 <= i < s.len(),
        is_ws(s[i]),
    ensures
        lead_ws(s.skip(i)) == 1 + lead_ws(s.skip(i + 1)),
{
    assert(s.skip(i).drop_first() =~= s.skip(i + 1));
}

proof fn lemma_word_len_step(s: Seq<char>, i: int)
    requires
        0 <= i < s.len(),
        !is_ws(s[i]),
    ensures
        word_len(s.skip(i)) == 1 + word_len(s.skip(i + 1)),
{
    assert(s.skip(i).drop_first() =~= s.skip(i + 1));
}

/// The index of the first non-separator at or after `pos`.
fn skip_ws(cs: &Vec<char>, pos: usize) -> (r: usize)
    requires
        pos <= cs.len(),
    ensures
        r == pos + lead_ws(cs@.skip(pos as int)),
        r <= cs.len(),
{
    let mut i = pos;
    while i < cs.len() && (cs[i] == ' ' || cs[i] == '\t')
        invariant
            pos <= i <= cs.len(),
            lead_ws(cs@.skip(pos as int)) == (i - pos) + lead_ws(cs@.skip(i as int)),
        decreases cs.len() - i,
    {
        proof {
            lemma_lead_ws_step(cs@, i as int);
        }
        i = i + 1;
    }
    i
}

/// The index just past the word that starts at `pos`.
fn word_end(cs: &Vec<char>, pos: usize) -> (r: usize)
    requires
        pos <= cs.len(),
    ensures
        r == pos + word_len(cs@.skip(pos as int)),
        r <= cs.len(),
{
    let mut i = pos;
    while i < cs.len() && !(cs[i] == ' ' || cs[i] == '\t')
        invariant
            pos <= i <= cs.len(),
            word_len(cs@.skip(pos as int)) == (i - pos) + word_len(cs@.skip(i as int)),
        decreases cs.len() - i,
    {
        proof {
            lemma_word_len_step(cs@, i as int);
        }
        i = i + 1;
    }
    i
}

/// The bounds of the first word at or after `pos`, if any.
fn next_word_at(cs: &Vec<char>, pos: usize) -> (r: Option<(usize, usize)>)
    requires
        pos <= cs.len(),
    ensures
        match r {
            None => next_word(cs@.skip(pos as int)) is None,
            Some((start, end)) => pos <= start <= end <= cs.len() && next_word(cs@.skip(pos as int)) == Some((
                cs@.subrange(start as int, end as int),
                cs@.skip(end as int),
            )),
        },
{
    let start = skip_ws(cs, pos);
    let ghost t = cs@.skip(pos as int).skip(lead_ws(cs@.skip(pos as int)) as int);
    assert(t =~= cs@.skip(start as int));
    if start == cs.len() {
        return None;
    }
    let end = word_end(cs, start);
    assert(t.take(word_len(t) as int) =~= cs@.subrange(start as int, end as int));
    assert(t.skip(word_len(t) as int) =~= cs@.skip(end as int));
    Some((start, end))
}

fn range_eq(cs: &Vec<char>, start: usize, end: usize, other: &Vec<char>) -> (r: bool)
    requires
        start <= end <= cs.len(),
    ensures
        r == (cs@.subrange(start as int, end as int) == other@),
{
    if end - start != other.len() {
        return false;
    }
    let mut i: usize = 0;
    while i < other.len()
        invariant
            start <= end <= cs.len(),
            end - start == other.len(),
            i <= other.len(),
            forall|j: int| 0 <= j < i ==> cs@[start + j] == other@[j],
        decreases other.len() - i,
    {
        if cs[start + i] != other[i] {
            assert(cs@.subrange(start as int, end as int)[i as int] != other@[i as int]);
            return false;
        }
        i = i + 1;
    }
    assert(cs@.subrange(start as int, end as int) =~= other@);
    true
}

fn range_eq_ignore_ascii_case(cs: &Vec<char>, start: usize, end: usize, other: &Vec<char>) -> (r: bool)
    requires
        start <= end <= cs.len(),
    ensures
        r == eq_ignore_ascii_case(cs@.subrange(start as int, end as int), other@),
{
    if end - start != other.len() {
        return false;
    }
    let mut i: usize = 0;
    while i < other.len()
        invariant
            start <= end <= cs.len(),
            end - start == other.len(),
            i <= other.len(),
            forall|j: int| 0 <= j < i ==> ascii_lower(#[trigger] cs@[start + j]) == ascii_lower(other@[j]),
        decreases other.len() - i,
    {
        if lower(cs[start + i]) != lower(other[i]) {
            assert(cs@.subrange(start as int, end as int)[i as int] == cs@[start + i]);
            return false;
        }
        i = i + 1;
    }
    assert forall|j: int| 0 <= j < other@.len() implies ascii_lower(#[trigger] cs@.subrange(start as int, end as int)[j]) == ascii_lower(other@[j]) by {
        assert(cs@.subrange(start as int, end as int)[j] == cs@[start + j]);
    }
    true
}

fn lower(c: char) -> (r: char)
    ensures
        r == ascii_lower(c),
{
    if 'A' <= c && c <= 'Z' {
        let u: u32 = (c as u32) + 32;
        (u as u8) as char
    } else {
        c
    }
}

impl Default for BearerInterceptor {
    fn default() -> (b: Self)
        ensures
            b.expected() is None,
    {
        BearerInterceptor { token: None }
    }
}

impl BearerInterceptor {
    /// The configured token, if any.
    pub closed spec fn expected(&self) -> Option<Seq<char>> {
        match self.token {
            Some(t) => Some(t@),
            None => None,
        }
    }

    /// Builds a new interceptor; if `token` is `None`, authentication is disabled.
    pub fn new(token: Option<String>) -> (b: Self)
        ensures
            b.expected() == match token {
                Some(t) => Some(t@),
                None => None::<Seq<char>>,
            },
    {
        BearerInterceptor { token }
    }

    /// Decides on a request from its `authorization` header (its raw bytes,
    /// absent when the request has none).
    pub fn authorize(&self, header: Option<&[u8]>) -> (r: Result<(), ServiceError>)
        ensures
            match r {
                Ok(()) => spec_authorize(self.expected(), deref_bytes(header)) is Ok,
                Err(e) => spec_authorize(self.expected(), deref_bytes(header)) == Err::<(), ErrorView>(e@),
            },
    {
        let expected = match &self.token {
            None => return Ok(()),
            Some(t) => t,
        };
        let h = match header {
            None => return Err(status(Code::Unauthenticated, "missing authorization header")),
            Some(h) => h,
        };
        let mut cs: Vec<char> = Vec::new();
        let mut i: usize = 0;
        while i < h.len()
            invariant
                self.token is Some,
                deref_bytes(header) == Some(h@),
                i <= h@.len(),
                cs@.len() == i,
                forall|j: int| 0 <= j < i ==> is_visible_ascii(#[trigger] h@[j]),
                forall|j: int| 0 <= j < i ==> #[trigger] cs@[j] == (h@[j] as char),
            decreases h@.len() - i,
        {
            let b = h[i];
            if !((32 <= b && b < 127) || b == 9) {
                assert(!is_visible_ascii(h@[i as int]));
                return Err(status(Code::Unauthenticated, "invalid authorization header"));
            }
            cs.push(b as char);
            i = i + 1;
        }
        assert(cs@ =~= ascii_text(h@));
        assert(cs@.skip(0) =~= cs@);
        let invalid = "invalid bearer token";
        let (s1, e1) = match next_word_at(&cs, 0) {
            Some(p) => p,
            None => return Err(status(Code::Unauthenticated, invalid)),
        };
        let (s2, e2) = match next_word_at(&cs, e1) {
            Some(p) => p,
            None => return Err(status(Code::Unauthenticated, invalid)),
        };
        let bearer = chars_of("bearer");
        let exp = chars_of(expected.as_str());
        if range_eq_ignore_ascii_case(&cs, s1, e1, &bearer) && range_eq(&cs, s2, e2, &exp) {
            Ok(())
        } else {
            Err(status(Code::Unauthenticated, invalid))
        }
    }
}

/// Forgets the reference in an optional byte slice.
pub open spec fn deref_bytes(h: Option<&[u8]>) -> Option<Seq<u8>> {
    match h {
        Some(b) => Some(b@),
        None => None,
    }
}


proof fn lemma_word_len_exact(s: Seq<char>, n: int)
    requires
        0 <= n <= s.len(),
        forall|i: int| 0 <= i < n ==> !is_ws(#[trigger] s[i]),
        n == s.len() || is_ws(s[n]),
    ensures
        word_len(s) == n,
    decreases n,
{
    if n > 0 {
        let t = s.drop_first();
        assert forall|i: int| 0 <= i < n - 1 implies !is_ws(#[trigger] t[i]) by {
            assert(t[i] == s[i + 1]);
        }
        lemma_word_len_exact(t, n - 1);
    }
}

proof fn lemma_lead_ws_exact(s: Seq<char>, n: int)
    requires
        0 <= n <= s.len(),
        forall|i: int| 0 <= i < n ==> is_ws(#[trigger] s[i]),
        n == s.len() || !is_ws(s[n]),
    ensures
        lead_ws(s) == n,
    decreases n,
{
    if n > 0 {
        let t = s.drop_first();
        assert forall|i: int| 0 <= i < n - 1 implies is_ws(#[trigger] t[i]) by {
            assert(t[i] == s[i + 1]);
        }
        lemma_lead_ws_exact(t, n - 1);
    }
}

proof fn lemma_lead_ws_stops(s: Seq<char>)
    ensures
        lead_ws(s) <= s.len(),
        lead_ws(s) < s.len() ==> !is_ws(s[lead_ws(s) as int]),
    decreases s.len(),
{
    if s.len() > 0 && is_ws(s[0]) {
        let t = s.drop_first();
        lemma_lead_ws_stops(t);
        if lead_ws(t) < t.len() {
            assert(t[lead_ws(t) as int] == s[lead_ws(s) as int]);
        }
    }
}

proof fn lemma_word_len_bound(s: Seq<char>)
    ensures
        word_len(s) <= s.len(),
    decreases s.len(),
{
    if s.len() > 0 && !is_ws(s[0]) {
        lemma_word_len_bound(s.drop_first());
    }
}

/// The words `next_word` reads are never empty.
proof fn lemma_next_word_nonempty(s: Seq<char>)
    ensures
        next_word(s) matches Some((w, _)) ==> w.len() > 0,
{
    let t = s.skip(lead_ws(s) as int);
    lemma_lead_ws_stops(s);
    if t.len() > 0 {
        assert(t[0] == s[lead_ws(s) as int]);
        lemma_word_len_bound(t);
        assert(word_len(t) >= 1);
    }
}

/// A configured empty token accepts no request: every header, present or
/// not, is refused, since the words of a header are never empty.
pub proof fn lemma_empty_token_accepts_nothing(header: Option<Seq<u8>>)
    ensures
        spec_authorize(Some(Seq::<char>::empty()), header) is Err,
{
    if let Some(h) = header {
        let text = ascii_text(h);
        lemma_next_word_nonempty(text);
        if let Some((_, rest)) = next_word(text) {
            lemma_next_word_nonempty(rest);
        }
    }
}

/// Without a configured token every request is accepted.
pub proof fn lemma_open_when_no_token(header: Option<Seq<u8>>)
    ensures
        spec_authorize(None, header) is Ok,
{
}

/// With a configured token, a request without an `authorization` header is
/// refused as unauthenticated.
pub proof fn lemma_missing_header_refused(token: Seq<char>)
    ensures
        spec_authorize(Some(token), None) == Err::<(), ErrorView>(err(Code::Unauthenticated, "missing authorization header"@)),
{
}

/// With a configured token, an accepted request carries a header whose first
/// word is the scheme `bearer` (in any case) and whose second word is that token.
pub proof fn lemma_accepted_carries_token(token: Seq<char>, h: Seq<u8>)
    ensures
        spec_authorize(Some(token), Some(h)) is Ok ==> {
            &&& next_word(ascii_text(h)) matches Some((scheme, rest))
            &&& eq_ignore_ascii_case(scheme, "bearer"@)
            &&& next_word(rest) matches Some((word, _))
            &&& word == token
        },
{
}

/// The header `Bearer <token>` carrying the configured token is accepted,
/// whatever the case of the scheme.  `h` is the header's bytes: a scheme
/// equal to `bearer` ignoring case, one space, then the token's characters
/// (printable, no space).
pub proof fn lemma_bearer_header_accepted(token: Seq<char>, h: Seq<u8>)
    requires
        token.len() > 0,
        h.len() == 7 + token.len(),
        eq_ignore_ascii_case(ascii_text(h.take(6)), "bearer"@),
        forall|i: int| 0 <= i < 6 ==> 33 <= #[trigger] h[i] <= 126,
        h[6] == 32,
        forall|i: int| 7 <= i < h.len() ==> 33 <= #[trigger] h[i] <= 126,
        forall|i: int| 0 <= i < token.len() ==> (h[7 + i] as char) == #[trigger] token[i],
    ensures
        spec_authorize(Some(token), Some(h)) is Ok,
{
    assert forall|i: int| 0 <= i < h.len() implies is_visible_ascii(#[trigger] h[i]) by {
        if i < 6 {
        } else if i == 6 {
        } else {
        }
    }
    let text = ascii_text(h);
    assert forall|i: int| 0 <= i < h.len() && i != 6 implies !is_ws(#[trigger] text[i]) by {
        if i < 6 {
            assert(33 <= h[i] <= 126);
        } else {
            assert(33 <= h[i] <= 126);
        }
    }
    assert(is_ws(text[6]));
    lemma_lead_ws_exact(text, 0);
    assert(text.skip(0) =~= text);
    lemma_word_len_exact(text, 6);
    let rest = text.skip(6);
    assert(rest[0] == text[6]);
    lemma_lead_ws_exact(rest, 1);
    let t = rest.skip(1);
    assert(t =~= text.skip(7));
    assert forall|i: int| 0 <= i < t.len() implies !is_ws(#[trigger] t[i]) by {
        assert(t[i] == text[7 + i]);
    }
    lemma_word_len_exact(t, t.len() as int);
    assert(text.take(6) =~= ascii_text(h.take(6)));
    assert(t.take(t.len() as int) =~= token);
}

} // verus!
