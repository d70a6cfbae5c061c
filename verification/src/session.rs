//! Sessions: who a request belongs to, the session token and its cookie.
use vstd::prelude::*;
use vstd::utf8::{encode_utf8, is_ascii_chars, is_ascii_chars_encode_utf8};
use axum::http::HeaderValue;
use crate::random::{gen_below, thread_rng};
use crate::text::{
    chars_of, decimal, digit_char, is_white_space, push_char, push_decimal, push_str,
    string_from_chars, text_of, trim_bounds, trim_end, trim_start, trimmed,
};

verus! {

/// Session expiry: 2 years (in days)
pub const SESSION_MAX_AGE_DAYS: i64 = 730;

/// The characters a session token is drawn from.
pub const TOKEN_CHARSET: &'static str = "ABCDEFGHIJKLMNOPQRSTUVWXYZabcdefghijklmnopqrstuvwxyz0123456789_-";

/// How many characters `TOKEN_CHARSET` has.
pub const TOKEN_CHARSET_LEN: usize = 64;

/// How many characters a session token has.
pub const TOKEN_LEN: usize = 32;

/// Session data extracted from the request
#[derive(Clone, Debug)]
pub struct Session {
    pub user_id: Option<i64>,
    pub user_name: Option<String>,
    pub email: Option<String>,
    pub token: Option<String>,
}

impl Session {
    pub fn is_authenticated(&self) -> (r: bool)
        ensures
            r == self.user_id.is_some(),
    {
        self.user_id.is_some()
    }

    /// The session of a visitor who is not signed in.
    pub fn anonymous() -> (s: Session)
        ensures
            s.user_id is None,
            s.user_name is None,
            s.email is None,
            s.token is None,
    {
        Session { user_id: None, user_name: None, email: None, token: None }
    }

    /// The session for a request that carried `token`, given what the session store said
    /// of it: the user's id, name and e-mail address where the token is live, nothing where
    /// it is unknown or expired, or a failure of the store, which counts as not signed in.
    pub fn from_lookup(token: String, lookup: Result<Option<(i64, Option<String>, String)>, ()>) -> (s: Session)
        ensures
            match lookup {
                Ok(Some((id, name, email))) => {
                    &&& s.user_id == Some(id)
                    &&& s.user_name == name
                    &&& s.email == Some(email)
                    &&& s.token == Some(token)
                },
                _ => s.user_id is None && s.user_name is None && s.email is None && s.token is None,
            },
    {
        match lookup {
            Ok(Some((id, name, email))) => Session {
                user_id: Some(id),
                user_name: name,
                email: Some(email),
                token: Some(token),
            },
            _ => Session::anonymous(),
        }
    }
}

/// Whether `c` is one of the characters of `TOKEN_CHARSET`.
pub open spec fn is_token_char(c: char) -> bool {
    ||| 'A' <= c <= 'Z'
    ||| 'a' <= c <= 'z'
    ||| '0' <= c <= '9'
    ||| c == '_'
    ||| c == '-'
}

/// A session token: `TOKEN_LEN` characters of `TOKEN_CHARSET`.
pub open spec fn is_session_token(t: Seq<char>) -> bool {
    &&& t.len() == TOKEN_LEN
    &&& forall|i: int| 0 <= i < t.len() ==> is_token_char(#[trigger] t[i])
}

proof fn lemma_charset()
    ensures
        TOKEN_CHARSET@.len() == TOKEN_CHARSET_LEN,
        forall|i: int| 0 <= i < 64 ==> is_token_char(#[trigger] TOKEN_CHARSET@[i]),
{
    reveal_strlit("ABCDEFGHIJKLMNOPQRSTUVWXYZabcdefghijklmnopqrstuvwxyz0123456789_-");
}

/// The session token that a sequence of draws picks: the character of `TOKEN_CHARSET` at
/// each drawn index.
pub open spec fn token_of_draws(d: Seq<usize>) -> Seq<char> {
    Seq::new(d.len(), |i: int| TOKEN_CHARSET@[d[i] as int])
}

/// Draws that pick a session token: `TOKEN_LEN` indices into `TOKEN_CHARSET`.
pub open spec fn are_token_draws(d: Seq<usize>) -> bool {
    &&& d.len() == TOKEN_LEN
    &&& forall|i: int| 0 <= i < d.len() ==> #[trigger] d[i] < TOKEN_CHARSET_LEN
}

/// The session token that the draws `d` pick (see `token_of_draws`).
pub fn token_from_draws(d: &Vec<usize>) -> (t: String)
    requires
        are_token_draws(d@),
    ensures
        t@ == token_of_draws(d@),
        is_session_token(t@),
{
    proof {
        lemma_charset();
    }
    let charset = chars_of(TOKEN_CHARSET);
    let mut t = String::new();
    let mut i: usize = 0;
    while i < d.len()
        invariant
            i <= d@.len(),
            are_token_draws(d@),
            charset@ == TOKEN_CHARSET@,
            charset@.len() == 64,
            forall|k: int| 0 <= k < 64 ==> is_token_char(#[trigger] charset@[k]),
            t@ == token_of_draws(d@).take(i as int),
        decreases d.len() - i,
    {
        let c = charset[d[i]];
        push_char(&mut t, c);
        assert(token_of_draws(d@).take(i + 1) =~= token_of_draws(d@).take(i as int).push(c));
        i = i + 1;
    }
    assert(token_of_draws(d@).take(d@.len() as int) =~= token_of_draws(d@));
    assert forall|k: int| 0 <= k < t@.len() implies is_token_char(#[trigger] t@[k]) by {
        assert(t@[k] == charset@[d@[k] as int]);
    }
    t
}

/// Generate a random session token
pub fn generate_session_token() -> (token: String)
    ensures
        is_session_token(token@),
        exists|d: Seq<usize>| are_token_draws(d) && token@ == token_of_draws(d),
{
    let mut rng = thread_rng();
    let mut draws: Vec<usize> = Vec::new();
    let mut i: usize = 0;
    while i < TOKEN_LEN
        invariant
            i <= TOKEN_LEN,
            draws@.len() == i,
            forall|k: int| 0 <= k < i ==> #[trigger] draws@[k] < TOKEN_CHARSET_LEN,
        decreases TOKEN_LEN - i,
    {
        let idx: usize = gen_below(&mut rng, TOKEN_CHARSET_LEN);
        draws.push(idx);
        i = i + 1;
    }
    let token = token_from_draws(&draws);
    assert(are_token_draws(draws@) && token@ == token_of_draws(draws@));
    token
}

/// The cookie name and `=` that a session cookie starts with.
pub open spec fn cookie_prefix() -> Seq<char> {
    "session_token="@
}

/// The end of the first `;`-separated piece of `s`: the index of its first `;`, or its length.
pub open spec fn segment_end(s: Seq<char>) -> nat
    decreases s.len(),
{
    if s.len() == 0 || s[0] == ';' {
        0
    } else {
        1 + segment_end(s.drop_first())
    }
}

proof fn lemma_segment_end(s: Seq<char>, k: int)
    requires
        0 <= k <= s.len(),
        forall|j: int| 0 <= j < k ==> #[trigger] s[j] != ';',
        k == s.len() || s[k] == ';',
    ensures
        segment_end(s) == k,
    decreases k,
{
    if k > 0 {
        assert forall|j: int| 0 <= j < k - 1 implies #[trigger] s.drop_first()[j] != ';' by {
            assert(s.drop_first()[j] == s[j + 1]);
        }
        if k < s.len() {
            assert(s.drop_first()[k - 1] == s[k]);
        }
        lemma_segment_end(s.drop_first(), k - 1);
    }
}

pub proof fn lemma_segment_end_bound(s: Seq<char>)
    ensures
        segment_end(s) <= s.len(),
    decreases s.len(),
{
    if s.len() > 0 && s[0] != ';' {
        lemma_segment_end_bound(s.drop_first());
    }
}

/// The session token that a `Cookie` header carries: the value of the first of its
/// `;`-separated pieces that, with white space trimmed, starts with `session_token=`.
pub open spec fn session_token_in(header: Seq<char>) -> Option<Seq<char>>
    decreases header.len(),
{
    let end: int = segment_end(header) as int;
    let piece = trimmed(header.take(end));
    let p = cookie_prefix();
    if piece.len() >= p.len() && piece.take(p.len() as int) == p {
        Some(piece.skip(p.len() as int))
    } else if end < header.len() {
        proof {
            lemma_segment_end_bound(header);
        }
        session_token_in(header.skip(end + 1))
    } else {
        None
    }
}

/// Whether `cs[a..b]` starts with `p`.
fn starts_with_at(cs: &Vec<char>, a: usize, b: usize, p: &Vec<char>) -> (r: bool)
    requires
        a <= b <= cs@.len(),
    ensures
        r == (b - a >= p@.len() && cs@.subrange(a as int, a + p@.len()) == p@),
{
    if b - a < p.len() {
        return false;
    }
    let mut i: usize = 0;
    while i < p.len()
        invariant
            i <= p@.len(),
            a + p@.len() <= b <= cs@.len(),
            forall|k: int| 0 <= k < i ==> cs@[a + k] == p@[k],
        decreases p.len() - i,
    {
        if cs[a + i] != p[i] {
            assert(cs@.subrange(a as int, a + p@.len())[i as int] != p@[i as int]);
            return false;
        }
        i = i + 1;
    }
    assert(cs@.subrange(a as int, a + p@.len()) =~= p@);
    true
}

/// Extract session token from cookie header
///
/// `cookie_header` is the value of the request's `Cookie` header, where it has one that is
/// text.
pub fn extract_session_token(cookie_header: Option<&str>) -> (r: Option<String>)
    ensures
        text_of(r) == match cookie_header {
            Some(h) => session_token_in(h@),
            None => None,
        },
{
    let header = match cookie_header {
        Some(h) => h,
        None => return None,
    };
    let cs = chars_of(header);
    let p = chars_of("session_token=");
    let ghost h = cs@;
    let mut start: usize = 0;
    assert(h.skip(0) =~= h);
    loop
        invariant
            start <= cs@.len(),
            h == cs@,
            h == header@,
            cookie_header == Some(header),
            p@ == cookie_prefix(),
            session_token_in(h) == session_token_in(h.skip(start as int)),
        decreases cs@.len() - start,
    {
        let ghost rest = h.skip(start as int);
        let mut j: usize = start;
        while j < cs.len() && cs[j] != ';'
            invariant
                start <= j <= cs@.len(),
                h == cs@,
                forall|k: int| start <= k < j ==> #[trigger] cs@[k] != ';',
            decreases cs.len() - j,
        {
            j = j + 1;
        }
        proof {
            assert forall|k: int| 0 <= k < j - start implies #[trigger] rest[k] != ';' by {
                assert(rest[k] == cs@[start + k]);
            }
            if j < cs.len() {
                assert(rest[j - start] == cs@[j as int]);
            }
            lemma_segment_end(rest, j - start);
            assert(rest.take(j - start) =~= cs@.subrange(start as int, j as int));
        }
        let (a, b) = trim_bounds(&cs, start, j);
        let ghost piece = cs@.subrange(a as int, b as int);
        if starts_with_at(&cs, a, b, &p) {
            let t = string_from_chars(&cs, a + p.len(), b);
            proof {
                assert(piece.take(p@.len() as int) =~= cs@.subrange(a as int, a + p@.len()));
                assert(piece.skip(p@.len() as int) =~= cs@.subrange(a + p@.len(), b as int));
                assert(trimmed(rest.take(segment_end(rest) as int)) == piece);
                assert(session_token_in(rest) == Some(piece.skip(p@.len() as int)));
            }
            return Some(t);
        }
        proof {
            if piece.len() >= p@.len() {
                assert(piece.take(p@.len() as int) =~= cs@.subrange(a as int, a + p@.len()));
            }
        }
        proof {
            assert(trimmed(rest.take(segment_end(rest) as int)) == piece);
        }
        if j == cs.len() {
            assert(session_token_in(rest) is None);
            return None;
        }
        proof {
            assert(rest.skip(j - start + 1) =~= h.skip(j + 1));
            assert(session_token_in(rest) == session_token_in(rest.skip(j - start + 1)));
        }
        start = j + 1;
    }
}

/// What a request's session depends on: nothing, for a request without a session token,
/// or the store's answer about the token it carries.
pub enum SessionSource {
    Anonymous(Session),
    Lookup(String),
}

/// Where a request's session comes from, given its `Cookie` header if it has one that is
/// text: a request carrying a session token asks the store about it; any other is not
/// signed in.
pub fn session_source(cookie_header: Option<&str>) -> (r: SessionSource)
    ensures
        match r {
            SessionSource::Lookup(t) => cookie_header matches Some(h) && session_token_in(h@) == Some(t@),
            SessionSource::Anonymous(s) => {
                &&& match cookie_header {
                    Some(h) => session_token_in(h@) is None,
                    None => true,
                }
                &&& s.user_id is None && s.user_name is None && s.email is None && s.token is None
            },
        },
{
    match extract_session_token(cookie_header) {
        Some(token) => SessionSource::Lookup(token),
        None => SessionSource::Anonymous(Session::anonymous()),
    }
}

/// The number of seconds a session cookie lives.
pub open spec fn session_max_age_seconds() -> int {
    SESSION_MAX_AGE_DAYS * 24 * 60 * 60
}

/// The text of the session cookie for `token`.
pub open spec fn session_cookie_text(token: Seq<char>) -> Seq<char> {
    "session_token="@ + token + "; HttpOnly; Path=/; SameSite=Lax; Max-Age="@ + decimal(
        session_max_age_seconds() as nat,
    )
}

/// The text of the cookie that ends a session.
pub open spec fn cleared_cookie_text() -> Seq<char> {
    "session_token=; Max-Age=0; Path=/; HttpOnly; SameSite=Lax"@
}

/// A byte that `HeaderValue::from_str` accepts: visible ASCII, an opaque octet, or a tab.
pub open spec fn is_header_value_byte(b: u8) -> bool {
    (b >= 32 && b != 127) || b == 9
}

/// A byte that `HeaderValue::from_static` accepts: visible ASCII or a tab.
pub open spec fn is_visible_ascii_byte(b: u8) -> bool {
    (b >= 32 && b < 127) || b == 9
}

/// Text that `HeaderValue::from_str` accepts: every byte of its UTF-8 encoding is allowed.
pub open spec fn is_header_value_text(s: Seq<char>) -> bool {
    forall|i: int| 0 <= i < encode_utf8(s).len() ==> is_header_value_byte(#[trigger] encode_utf8(s)[i])
}

#[verifier::external_type_specification]
#[verifier::external_body]
pub struct ExHeaderValue(HeaderValue);

/// The bytes a header value holds (what `HeaderValue::as_bytes` gives).
pub uninterp spec fn header_value_bytes(v: HeaderValue) -> Seq<u8>;

/// `HeaderValue::from_str`, with its error dropped: a value exactly when every byte of the
/// text is allowed in a header value (bytes 32 to 255 but 127, and tab); the contract
/// claims the value then holds the text's UTF-8 bytes, which the source copies into it.
#[verifier::external_body]
fn header_value_from_str(s: &str) -> (r: Option<HeaderValue>)
    ensures
        r is Some <==> is_header_value_text(s@),
        r matches Some(v) ==> header_value_bytes(v) == encode_utf8(s@),
{
    HeaderValue::from_str(s).ok()
}

/// `HeaderValue::from_static`, which panics on any byte that is neither visible ASCII nor a
/// tab; the `requires` leaves those out. The contract claims the value holds the text's
/// UTF-8 bytes, which the source wraps unchanged.
#[verifier::external_body]
fn header_value_from_static(s: &'static str) -> (r: HeaderValue)
    requires
        forall|i: int|
            0 <= i < encode_utf8(s@).len() ==> is_visible_ascii_byte(#[trigger] encode_utf8(s@)[i]),
    ensures
        header_value_bytes(r) == encode_utf8(s@),
{
    HeaderValue::from_static(s)
}

/// The text of the session cookie for `token`, as `build_session_cookie` sends it.
pub fn session_cookie(token: &str) -> (c: String)
    ensures
        c@ == session_cookie_text(token@),
{
    let max_age_seconds: i64 = SESSION_MAX_AGE_DAYS * 24 * 60 * 60;
    let mut c = String::new();
    push_str(&mut c, "session_token=");
    push_str(&mut c, token);
    push_str(&mut c, "; HttpOnly; Path=/; SameSite=Lax; Max-Age=");
    push_decimal(&mut c, max_age_seconds as u64);
    assert(c@ =~= session_cookie_text(token@));
    c
}

/// Build a session cookie header value
pub fn build_session_cookie(token: &str) -> (r: Option<HeaderValue>)
    ensures
        r is Some <==> is_header_value_text(session_cookie_text(token@)),
        r matches Some(v) ==> header_value_bytes(v) == encode_utf8(session_cookie_text(token@)),
{
    let c = session_cookie(token);
    header_value_from_str(c.as_str())
}

/// Build a clear session cookie (for logout)
pub fn clear_session_cookie() -> (r: HeaderValue)
    ensures
        header_value_bytes(r) == encode_utf8(cleared_cookie_text()),
{
    proof {
        let s = "session_token=; Max-Age=0; Path=/; HttpOnly; SameSite=Lax";
        reveal_strlit("session_token=; Max-Age=0; Path=/; HttpOnly; SameSite=Lax");
        assert(is_ascii_chars(s@));
        is_ascii_chars_encode_utf8(s@);
        assert forall|i: int| 0 <= i < encode_utf8(s@).len() implies is_visible_ascii_byte(
            #[trigger] encode_utf8(s@)[i],
        ) by {
            assert(encode_utf8(s@)[i] == s@[i] as u8);
        }
    }
    header_value_from_static("session_token=; Max-Age=0; Path=/; HttpOnly; SameSite=Lax")
}

proof fn lemma_trimmed_unchanged(s: Seq<char>)
    requires
        s.len() > 0,
        !is_white_space(s[0]),
        !is_white_space(s.last()),
    ensures
        trimmed(s) == s,
{
    assert(trim_start(s) == s);
    assert(trim_end(s) == s);
}

proof fn lemma_token_char_not_special(c: char)
    requires
        is_token_char(c),
    ensures
        !is_white_space(c),
        c != ';',
        32 <= (c as u32) && (c as u32) < 127,
{
}

proof fn lemma_decimal_digits(n: nat)
    ensures
        decimal(n).len() > 0,
        forall|i: int| 0 <= i < decimal(n).len() ==> '0' <= #[trigger] decimal(n)[i] <= '9',
    decreases n,
{
    if n >= 10 {
        lemma_decimal_digits(n / 10);
        let s = decimal(n);
        assert forall|i: int| 0 <= i < s.len() implies '0' <= #[trigger] s[i] <= '9' by {
            if i < s.len() - 1 {
                assert(s[i] == decimal(n / 10)[i]);
            } else {
                assert(s[i] == digit_char(n % 10));
            }
        }
    }
}

/// A `Cookie` header whose first piece is `session_token=` followed by a session token
/// (and possibly more pieces after a `;`) yields that token.
proof fn lemma_token_first(t: Seq<char>, tail: Seq<char>)
    requires
        is_session_token(t),
        tail.len() == 0 || tail[0] == ';',
    ensures
        session_token_in(cookie_prefix() + t + tail) == Some(t),
{
    reveal_strlit("session_token=");
    let p = cookie_prefix();
    let h = p + t + tail;
    let k: int = (p.len() + t.len()) as int;
    assert forall|j: int| 0 <= j < k implies #[trigger] h[j] != ';' by {
        if j < p.len() {
            assert(h[j] == p[j]);
        } else {
            assert(h[j] == t[j - p.len()]);
            lemma_token_char_not_special(t[j - p.len()]);
        }
    }
    if tail.len() > 0 {
        assert(h[k] == tail[0]);
    }
    lemma_segment_end(h, k);
    let piece = h.take(k);
    assert(piece =~= p + t);
    lemma_token_char_not_special(t[t.len() - 1]);
    assert(piece.last() == t[t.len() - 1]);
    assert(piece[0] == 's');
    lemma_trimmed_unchanged(piece);
    assert(piece.take(p.len() as int) =~= p);
    assert(piece.skip(p.len() as int) =~= t);
}

/// What a browser sends back for the session cookie, `session_token=` and the token,
/// yields the token.
pub proof fn lemma_cookie_pair_round_trip(t: Seq<char>)
    requires
        is_session_token(t),
    ensures
        session_token_in(cookie_prefix() + t) == Some(t),
{
    lemma_token_first(t, Seq::empty());
    assert(cookie_prefix() + t + Seq::<char>::empty() =~= cookie_prefix() + t);
}

/// Reading the session cookie that is set for a session token gives back that token.
pub proof fn lemma_session_cookie_round_trip(t: Seq<char>)
    requires
        is_session_token(t),
    ensures
        session_token_in(session_cookie_text(t)) == Some(t),
{
    reveal_strlit("; HttpOnly; Path=/; SameSite=Lax; Max-Age=");
    let tail = "; HttpOnly; Path=/; SameSite=Lax; Max-Age="@ + decimal(
        session_max_age_seconds() as nat,
    );
    assert(tail[0] == ';');
    lemma_token_first(t, tail);
    assert(session_cookie_text(t) =~= cookie_prefix() + t + tail);
}

/// Pieces of a `Cookie` header before the session cookie are passed over: a piece without
/// `;` that, trimmed, does not start with `session_token=` does not change the result.
pub proof fn lemma_other_cookie_skipped(other: Seq<char>, rest: Seq<char>)
    requires
        !other.contains(';'),
        !(trimmed(other).len() >= cookie_prefix().len() && trimmed(other).take(
            cookie_prefix().len() as int,
        ) == cookie_prefix()),
    ensures
        session_token_in(other + seq![';'] + rest) == session_token_in(rest),
{
    let h = other + seq![';'] + rest;
    let k: int = other.len() as int;
    assert forall|j: int| 0 <= j < k implies #[trigger] h[j] != ';' by {
        assert(h[j] == other[j]);
    }
    assert(h[k] == ';');
    lemma_segment_end(h, k);
    assert(h.take(k) =~= other);
    assert(h.skip(k + 1) =~= rest);
}

/// The session cookie for any session token is a valid header value, so building it never
/// fails.
pub proof fn lemma_session_cookie_is_header_value(t: Seq<char>)
    requires
        is_session_token(t),
    ensures
        is_header_value_text(session_cookie_text(t)),
{
    reveal_strlit("session_token=");
    reveal_strlit("; HttpOnly; Path=/; SameSite=Lax; Max-Age=");
    let a = "session_token="@;
    let b = "; HttpOnly; Path=/; SameSite=Lax; Max-Age="@;
    let d = decimal(session_max_age_seconds() as nat);
    let s = session_cookie_text(t);
    lemma_decimal_digits(session_max_age_seconds() as nat);
    assert(s =~= a + t + b + d);
    assert forall|i: int| 0 <= i < s.len() implies 32 <= ((#[trigger] s[i]) as u32) && ((s[i] as u32) < 127) by {
        if i < a.len() {
            assert(s[i] == a[i]);
        } else if i < a.len() + t.len() {
            assert(s[i] == t[i - a.len()]);
            lemma_token_char_not_special(t[i - a.len()]);
        } else if i < a.len() + t.len() + b.len() {
            assert(s[i] == b[i - a.len() - t.len()]);
        } else {
            assert(s[i] == d[i - a.len() - t.len() - b.len()]);
        }
    }
    assert(is_ascii_chars(s));
    is_ascii_chars_encode_utf8(s);
    assert forall|i: int| 0 <= i < encode_utf8(s).len() implies is_header_value_byte(
        #[trigger] encode_utf8(s)[i],
    ) by {
        assert(encode_utf8(s)[i] == s[i] as u8);
    }
}

} // verus!
