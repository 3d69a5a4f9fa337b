use vstd::prelude::*;

use crate::extract::opt_view;

verus! {

/// Port served when none, or no valid one, is configured.
pub const DEFAULT_PORT: u16 = 8085;

/// Value of a decimal digit string.
pub open spec fn digits_value(s: Seq<char>) -> int
    decreases s.len(),
{
    if s.len() == 0 {
        0
    } else {
        digits_value(s.drop_last()) * 10 + (s.last() as int - '0' as int)
    }
}

pub open spec fn is_digit(c: char) -> bool {
    '0' <= c && c <= '9'
}

pub open spec fn all_digits(d: Seq<char>) -> bool {
    forall|i: int| 0 <= i < d.len() ==> is_digit(#[trigger] d[i])
}

/// The port number written in `s`: an optional `+`, then one or more decimal
/// digits whose value fits in 16 bits (the syntax of `u16`'s `FromStr`).
/// `s` without one leading `+`.
pub open spec fn unsigned_part(s: Seq<char>) -> Seq<char> {
    if s.len() > 0 && s[0] == '+' {
        s.drop_first()
    } else {
        s
    }
}

pub open spec fn port_number(s: Seq<char>) -> Option<int> {
    let d = unsigned_part(s);
    if d.len() > 0 && all_digits(d) && digits_value(d) <= 65535 {
        Some(digits_value(d))
    } else {
        None
    }
}

/// The port configured by `s`, or the default one.
pub open spec fn port_or_default(s: Option<Seq<char>>) -> int {
    match s {
        Some(t) => match port_number(t) {
            Some(p) => p,
            None => DEFAULT_PORT as int,
        },
        None => DEFAULT_PORT as int,
    }
}

proof fn lemma_digits_nonneg(s: Seq<char>)
    requires
        forall|i: int| 0 <= i < s.len() ==> is_digit(#[trigger] s[i]),
    ensures
        digits_value(s) >= 0,
    decreases s.len(),
{
    if s.len() > 0 {
        lemma_digits_nonneg(s.drop_last());
    }
}

/// Parses a port number; `None` where `u16`'s `FromStr` would refuse the text.
pub fn parse_port(s: &str) -> (r: Option<u16>)
    ensures
        match port_number(s@) {
            Some(p) => r matches Some(v) && v as int == p,
            None => r is None,
        },
{
    let n = s.unicode_len();
    let st: usize = if n > 0 && s.get_char(0) == '+' {
        1
    } else {
        0
    };
    let ghost d = s@.subrange(st as int, n as int);
    assert(d =~= unsigned_part(s@));
    if st == n {
        return None;
    }
    let mut acc: u32 = 0;
    let mut i: usize = st;
    while i < n
        invariant
            st <= i <= n,
            n == s@.len(),
            d == s@.subrange(st as int, n as int),
            d == unsigned_part(s@),
            forall|k: int| st <= k < i ==> is_digit(#[trigger] s@[k]),
            acc as int == if digits_value(s@.subrange(st as int, i as int)) < 65536 {
                digits_value(s@.subrange(st as int, i as int))
            } else {
                65536
            },
        decreases n - i,
    {
        let c = s.get_char(i);
        if !('0' <= c && c <= '9') {
            assert(d[i - st] == s@[i as int]);
            assert(!is_digit(d[i - st]));
            assert(!all_digits(d));
            return None;
        }
        let ghost prev = s@.subrange(st as int, i as int);
        let ghost next = s@.subrange(st as int, i + 1);
        assert(next.drop_last() =~= prev);
        proof {
            assert forall|k: int| 0 <= k < prev.len() implies is_digit(#[trigger] prev[k]) by {
                assert(prev[k] == s@[st + k]);
            }
            lemma_digits_nonneg(prev);
        }
        let dv: u32 = (c as u32) - ('0' as u32);
        let v: u32 = acc * 10 + dv;
        acc = if v < 65536 {
            v
        } else {
            65536
        };
        assert(acc as int == if digits_value(next) < 65536 { digits_value(next) } else { 65536 })
            by (nonlinear_arith)
            requires
                digits_value(next) == digits_value(prev) * 10 + dv,
                digits_value(prev) >= 0,
                0 <= dv <= 9,
                v == (if digits_value(prev) < 65536 { digits_value(prev) } else { 65536 }) * 10
                    + dv,
                acc == (if v < 65536 { v as int } else { 65536 }),
        ;
        i = i + 1;
    }
    assert(s@.subrange(st as int, n as int) == d);
    assert forall|k: int| 0 <= k < d.len() implies is_digit(#[trigger] d[k]) by {
        assert(d[k] == s@[st + k]);
    }
    if acc < 65536 {
        Some(acc as u16)
    } else {
        None
    }
}

/// Process-wide settings, read once at startup.
#[derive(Debug, Clone)]
pub struct Config {
    pub database_url: String,
    pub port: u16,
    pub auth_url: String,
    pub jwt_secret: String,
    /// Treat requests whose `Host` starts with `localhost` as the development
    /// account. Never set in production.
    pub insecure_dev_bypass: bool,
}

/// A required setting is missing.
#[derive(Debug, PartialEq, Eq, Structural)]
pub enum ConfigError {
    /// Production mode needs a token secret.
    MissingSecret,
}

pub open spec fn or_default(v: Option<Seq<char>>, d: Seq<char>) -> Seq<char> {
    match v {
        Some(s) => s,
        None => d,
    }
}

fn string_or(v: Option<String>, d: &str) -> (r: String)
    ensures
        r@ == or_default(opt_view(v), d@),
{
    match v {
        Some(s) => s,
        None => d.to_owned(),
    }
}

impl Config {
    /// Builds the settings from raw values (each `None` when unset). Outside
    /// production, missing values fall back to development defaults; in
    /// production a missing secret is an error and the host bypass is off.
    pub fn from_values(
        database_url: Option<String>,
        port: Option<String>,
        auth_url: Option<String>,
        jwt_secret: Option<String>,
        dev_bypass: bool,
        production: bool,
    ) -> (r: Result<Config, ConfigError>)
        ensures
            r is Err <==> (production && jwt_secret is None),
            r matches Ok(c) ==> {
                &&& c.database_url@ == or_default(opt_view(database_url), "sqlite:./venus.db"@)
                &&& c.port as int == port_or_default(opt_view(port))
                &&& c.auth_url@ == or_default(opt_view(auth_url), "http://localhost:8080/auth"@)
                &&& c.jwt_secret@ == or_default(opt_view(jwt_secret), "your-secret-key"@)
                &&& c.insecure_dev_bypass == (dev_bypass && !production)
            },
    {
        if production && jwt_secret.is_none() {
            return Err(ConfigError::MissingSecret);
        }
        let port_value = match &port {
            Some(p) => match parse_port(p.as_str()) {
                Some(n) => n,
                None => DEFAULT_PORT,
            },
            None => DEFAULT_PORT,
        };
        Ok(
            Config {
                database_url: string_or(database_url, "sqlite:./venus.db"),
                port: port_value,
                auth_url: string_or(auth_url, "http://localhost:8080/auth"),
                jwt_secret: string_or(jwt_secret, "your-secret-key"),
                insecure_dev_bypass: dev_bypass && !production,
            },
        )
    }
}

} // verus!
