use vstd::prelude::*;

use crate::text::{starts_with, str_starts_with};

verus! {

/// The parts of an inbound request that identity resolution reads. Each is
/// `None` when the request carries no such header (or one that is not text).
pub struct RequestMeta {
    pub authorization: Option<String>,
    pub cookie: Option<String>,
    pub host: Option<String>,
}

/// Characters with the Unicode `White_Space` property, as `char::is_whitespace`
/// and `str::trim` treat them.
pub open spec fn is_space(c: char) -> bool {
    c == '\t' || c == '\n' || c == '\u{0B}' || c == '\u{0C}' || c == '\r' || c == ' '
        || c == '\u{85}' || c == '\u{A0}' || c == '\u{1680}' || ('\u{2000}' <= c
        && c <= '\u{200A}') || c == '\u{2028}' || c == '\u{2029}' || c == '\u{202F}'
        || c == '\u{205F}' || c == '\u{3000}'
}

fn char_is_space(c: char) -> (r: bool)
    ensures
        r == is_space(c),
{
    c == '\t' || c == '\n' || c == '\u{0B}' || c == '\u{0C}' || c == '\r' || c == ' '
        || c == '\u{85}' || c == '\u{A0}' || c == '\u{1680}' || ('\u{2000}' <= c
        && c <= '\u{200A}') || c == '\u{2028}' || c == '\u{2029}' || c == '\u{202F}'
        || c == '\u{205F}' || c == '\u{3000}'
}

/// First index in `[i, end)` that holds `c`, or `end`.
pub open spec fn find_in(s: Seq<char>, c: char, i: int, end: int) -> int
    decreases end - i,
{
    if i >= end {
        end
    } else if s[i] == c {
        i
    } else {
        find_in(s, c, i + 1, end)
    }
}

/// First index in `[i, end)` that is not white space, or `end`.
pub open spec fn skip_space(s: Seq<char>, i: int, end: int) -> int
    decreases end - i,
{
    if i >= end {
        end
    } else if is_space(s[i]) {
        skip_space(s, i + 1, end)
    } else {
        i
    }
}

/// End of `[lo, j)` once trailing white space is dropped.
pub open spec fn drop_space_back(s: Seq<char>, lo: int, j: int) -> int
    decreases j - lo,
{
    if j <= lo {
        lo
    } else if is_space(s[j - 1]) {
        drop_space_back(s, lo, j - 1)
    } else {
        j
    }
}

/// The token carried by the `;`-separated cookie pairs of `s` from index `i`
/// on: the value of the first pair, trimmed of white space, whose key before
/// the first `=` is exactly `token`.
pub open spec fn cookie_token_from(s: Seq<char>, i: int) -> Option<Seq<char>>
    decreases s.len() + 1 - i via cookie_token_from_decreases
{
    if i < 0 || i > s.len() {
        None
    } else {
        let e = find_in(s, ';', i, s.len() as int);
        let a = skip_space(s, i, e);
        let b = drop_space_back(s, a, e);
        let q = find_in(s, '=', a, b);
        if q < b && s.subrange(a, q) == "token"@ {
            Some(s.subrange(q + 1, b))
        } else {
            cookie_token_from(s, e + 1)
        }
    }
}

proof fn lemma_find_in_bounds(s: Seq<char>, c: char, i: int, end: int)
    requires
        i <= end,
    ensures
        i <= find_in(s, c, i, end) <= end,
    decreases end - i,
{
    if i < end && s[i] != c {
        lemma_find_in_bounds(s, c, i + 1, end);
    }
}

#[via_fn]
proof fn cookie_token_from_decreases(s: Seq<char>, i: int) {
    if 0 <= i <= s.len() {
        lemma_find_in_bounds(s, ';', i, s.len() as int);
    }
}

/// The token of a `Cookie` header value.
pub open spec fn cookie_token(s: Seq<char>) -> Option<Seq<char>> {
    cookie_token_from(s, 0)
}

/// The token of an `Authorization` header value of the form `Bearer <token>`.
pub open spec fn bearer_token(s: Seq<char>) -> Option<Seq<char>> {
    if starts_with(s, "Bearer "@) {
        Some(s.subrange(7, s.len() as int))
    } else {
        None
    }
}

/// The token a request presents: the bearer token of its `Authorization`
/// header when that header has the `Bearer ` form, else the `token` cookie.
pub open spec fn presented_token(
    authorization: Option<Seq<char>>,
    cookie: Option<Seq<char>>,
) -> Option<Seq<char>> {
    let from_header = match authorization {
        Some(h) => bearer_token(h),
        None => None,
    };
    match from_header {
        Some(t) => Some(t),
        None => match cookie {
            Some(c) => cookie_token(c),
            None => None,
        },
    }
}

pub open spec fn opt_view(o: Option<String>) -> Option<Seq<char>> {
    match o {
        Some(s) => Some(s@),
        None => None,
    }
}

impl RequestMeta {
    pub open spec fn authorization_view(&self) -> Option<Seq<char>> {
        opt_view(self.authorization)
    }

    pub open spec fn cookie_view(&self) -> Option<Seq<char>> {
        opt_view(self.cookie)
    }

    pub open spec fn host_view(&self) -> Option<Seq<char>> {
        opt_view(self.host)
    }
}

fn find_char(s: &str, c: char, i: usize, end: usize) -> (r: usize)
    requires
        i <= end <= s@.len(),
    ensures
        r == find_in(s@, c, i as int, end as int),
        i <= r <= end,
{
    let mut j = i;
    while j < end
        invariant
            i <= j <= end <= s@.len(),
            find_in(s@, c, j as int, end as int) == find_in(s@, c, i as int, end as int),
        decreases end - j,
    {
        if s.get_char(j) == c {
            return j;
        }
        j = j + 1;
    }
    j
}

fn skip_space_exec(s: &str, i: usize, end: usize) -> (r: usize)
    requires
        i <= end <= s@.len(),
    ensures
        r == skip_space(s@, i as int, end as int),
        i <= r <= end,
{
    let mut j = i;
    while j < end
        invariant
            i <= j <= end <= s@.len(),
            skip_space(s@, j as int, end as int) == skip_space(s@, i as int, end as int),
        decreases end - j,
    {
        if !char_is_space(s.get_char(j)) {
            return j;
        }
        j = j + 1;
    }
    j
}

fn drop_space_back_exec(s: &str, lo: usize, end: usize) -> (r: usize)
    requires
        lo <= end <= s@.len(),
    ensures
        r == drop_space_back(s@, lo as int, end as int),
        lo <= r <= end,
{
    let mut j = end;
    while j > lo
        invariant
            lo <= j <= end <= s@.len(),
            drop_space_back(s@, lo as int, j as int) == drop_space_back(
                s@,
                lo as int,
                end as int,
            ),
        decreases j - lo,
    {
        if !char_is_space(s.get_char(j - 1)) {
            return j;
        }
        j = j - 1;
    }
    j
}

/// `s[a..b]` is exactly `token`.
fn is_token_key(s: &str, a: usize, b: usize) -> (r: bool)
    requires
        a <= b <= s@.len(),
    ensures
        r == (s@.subrange(a as int, b as int) == "token"@),
{
    proof {
        reveal_strlit("token");
    }
    if b - a != 5 {
        assert(s@.subrange(a as int, b as int).len() != "token"@.len());
        return false;
    }
    let r = s.get_char(a) == 't' && s.get_char(a + 1) == 'o' && s.get_char(a + 2) == 'k'
        && s.get_char(a + 3) == 'e' && s.get_char(a + 4) == 'n';
    if r {
        assert(s@.subrange(a as int, b as int) =~= "token"@);
    } else {
        assert(s@.subrange(a as int, b as int) != "token"@) by {
            let sub = s@.subrange(a as int, b as int);
            if sub == "token"@ {
                assert(sub[0] == 't' && sub[1] == 'o' && sub[2] == 'k' && sub[3] == 'e'
                    && sub[4] == 'n');
            }
        }
    }
    r
}

/// The value of the `token` entry of a `Cookie` header value, if there is one.
pub fn cookie_token_of(cookies: &str) -> (r: Option<String>)
    ensures
        opt_view(r) == cookie_token(cookies@),
{
    let n = cookies.unicode_len();
    let mut i: usize = 0;
    while i <= n
        invariant
            n == cookies@.len(),
            cookie_token_from(cookies@, i as int) == cookie_token(cookies@),
        decreases n + 1 - i,
    {
        let e = find_char(cookies, ';', i, n);
        let a = skip_space_exec(cookies, i, e);
        let b = drop_space_back_exec(cookies, a, e);
        let q = find_char(cookies, '=', a, b);
        if q < b && is_token_key(cookies, a, q) {
            let v = cookies.substring_char(q + 1, b).to_owned();
            return Some(v);
        }
        if e == n {
            assert(cookie_token_from(cookies@, n + 1) is None);
            return None;
        }
        i = e + 1;
    }
    None
}

/// The token of an `Authorization` header value of the form `Bearer <token>`.
pub fn bearer_token_of(header: &str) -> (r: Option<String>)
    ensures
        opt_view(r) == bearer_token(header@),
{
    proof {
        reveal_strlit("Bearer ");
    }
    if str_starts_with(header, "Bearer ") {
        let n = header.unicode_len();
        Some(header.substring_char(7, n).to_owned())
    } else {
        None
    }
}

/// Locates the token that a request presents: an `Authorization: Bearer`
/// header wins; otherwise the `token` cookie; otherwise none.
pub fn extract_token(meta: &RequestMeta) -> (r: Option<String>)
    ensures
        opt_view(r) == presented_token(meta.authorization_view(), meta.cookie_view()),
{
    let from_header = match &meta.authorization {
        Some(h) => bearer_token_of(h.as_str()),
        None => None,
    };
    match from_header {
        Some(t) => Some(t),
        None => match &meta.cookie {
            Some(c) => cookie_token_of(c.as_str()),
            None => None,
        },
    }
}

/// A bearer token in the `Authorization` header takes precedence over any
/// `token` cookie.
pub proof fn lemma_header_takes_precedence(header: Seq<char>, cookie: Option<Seq<char>>)
    requires
        bearer_token(header) is Some,
    ensures
        presented_token(Some(header), cookie) == bearer_token(header),
{
}

/// Without a `Bearer` header and without a `token` cookie, no token is found.
pub proof fn lemma_no_token_found(authorization: Option<Seq<char>>, cookie: Option<Seq<char>>)
    requires
        authorization matches Some(h) ==> bearer_token(h) is None,
        cookie matches Some(c) ==> cookie_token(c) is None,
    ensures
        presented_token(authorization, cookie) is None,
{
}

} // verus!
