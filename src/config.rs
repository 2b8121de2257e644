use vstd::prelude::*;
use vstd::string::{StrSliceExecFns, StringExecFns};

verus! {

/// The port the server listens on when none, or no valid one, is configured.
pub const DEFAULT_PORT: u16 = 8080;

/// Everything the service is configured with, passed explicitly to whoever
/// needs it.
#[derive(Clone, Debug)]
pub struct Config {
    pub database_url: String,
    pub jwt_secret: String,
    pub server_host: String,
    pub server_port: u16,
    pub gl_cert_path: String,
    pub gl_key_path: String,
    pub gl_network: String,
}

/// The settings as read, each one possibly missing.
pub struct Settings {
    pub database_url: Option<String>,
    pub jwt_secret: Option<String>,
    pub server_host: Option<String>,
    pub server_port: Option<String>,
    pub gl_cert_path: Option<String>,
    pub gl_key_path: Option<String>,
    pub gl_network: Option<String>,
}

pub open spec fn is_digit(c: char) -> bool {
    '0' <= c <= '9'
}

/// The value of a run of decimal digits.
pub open spec fn digits_value(s: Seq<char>) -> int
    decreases s.len(),
{
    if s.len() == 0 {
        0
    } else {
        digits_value(s.drop_last()) * 10 + (s.last() as int - '0' as int)
    }
}

/// The digits of a port text: what follows an optional leading '+'.
pub open spec fn port_digits(s: Seq<char>) -> Seq<char> {
    if s.len() > 0 && s[0] == '+' {
        s.drop_first()
    } else {
        s
    }
}

/// The port a text names: decimal digits, with an optional leading '+', whose
/// value fits in 16 bits.
pub open spec fn port_of(s: Seq<char>) -> Option<u16> {
    let d = port_digits(s);
    if d.len() > 0 && (forall|i: int| 0 <= i < d.len() ==> is_digit(#[trigger] d[i])) && digits_value(d)
        <= u16::MAX {
        Some(digits_value(d) as u16)
    } else {
        None
    }
}

/// A setting, or its default when it is missing.
pub open spec fn or_default(o: Option<String>, default: Seq<char>) -> Seq<char> {
    match o {
        Some(s) => s@,
        None => default,
    }
}

proof fn lemma_digits_grow(d: Seq<char>, k: int)
    requires
        0 <= k <= d.len(),
        forall|i: int| 0 <= i < d.len() ==> is_digit(#[trigger] d[i]),
    ensures
        0 <= digits_value(d.subrange(0, k)) <= digits_value(d),
    decreases d.len() - k,
{
    if k < d.len() {
        lemma_digits_grow(d, k + 1);
        assert(d.subrange(0, k + 1).drop_last() == d.subrange(0, k));
    } else {
        assert(d.subrange(0, k) == d);
    }
    lemma_digits_nonneg(d.subrange(0, k));
}

proof fn lemma_digits_nonneg(d: Seq<char>)
    requires
        forall|i: int| 0 <= i < d.len() ==> is_digit(#[trigger] d[i]),
    ensures
        digits_value(d) >= 0,
    decreases d.len(),
{
    if d.len() > 0 {
        assert(is_digit(d[d.len() - 1]));
        lemma_digits_nonneg(d.drop_last());
    }
}

/// Reads a port number; anything but decimal digits (after an optional '+')
/// with a value below 65536 gives `None`.
pub fn parse_port(s: &str) -> (r: Option<u16>)
    ensures
        r == port_of(s@),
{
    let n = s.unicode_len();
    let mut start: usize = 0;
    if n > 0 && s.get_char(0) == '+' {
        start = 1;
    }
    let ghost d = port_digits(s@);
    assert(d == s@.subrange(start as int, n as int));
    if start >= n {
        return None;
    }
    let mut value: u32 = 0;
    let mut i: usize = start;
    while i < n
        invariant
            start <= i <= n,
            n == s@.len(),
            d == s@.subrange(start as int, n as int),
            d == port_digits(s@),
            forall|j: int| 0 <= j < i - start ==> is_digit(#[trigger] d[j]),
            value == digits_value(d.subrange(0, i - start)),
            value <= u16::MAX,
        decreases n - i,
    {
        let c = s.get_char(i);
        assert(c == d[i - start]);
        if !('0' <= c && c <= '9') {
            assert(!is_digit(d[i - start]));
            assert(!(forall|j: int| 0 <= j < d.len() ==> is_digit(#[trigger] d[j])));
            return None;
        }
        let digit = (c as u32) - ('0' as u32);
        assert(d.subrange(0, i - start + 1).drop_last() == d.subrange(0, i - start as int));
        let next = value * 10 + digit;
        if next > 65535 {
            proof {
                assert forall|j: int| 0 <= j < i - start + 1 implies is_digit(#[trigger] d[j]) by {}
                let p = d.subrange(0, i - start + 1);
                assert(p.last() == c);
                assert(digits_value(p) == next as int);
                assert forall|j: int| 0 <= j < p.len() implies is_digit(#[trigger] p[j]) by {}
                if forall|j: int| 0 <= j < d.len() ==> is_digit(#[trigger] d[j]) {
                    lemma_digits_grow(d, i - start + 1);
                }
            }
            return None;
        }
        value = next;
        i = i + 1;
    }
    assert(d.subrange(0, d.len() as int) == d);
    Some(value as u16)
}

fn setting_or(o: Option<String>, default: &str) -> (r: String)
    ensures
        r@ == or_default(o, default@),
{
    match o {
        Some(s) => s,
        None => String::from_str(default),
    }
}

impl Config {
    /// The configuration from its settings, each missing one replaced by its
    /// default; a missing or unreadable port is 8080.
    pub fn from_settings(settings: Settings) -> (r: Config)
        ensures
            r.database_url@ == or_default(settings.database_url, "postgresql://localhost/greenlight_wallet"@),
            r.jwt_secret@ == or_default(settings.jwt_secret, "default-secret-change-in-production"@),
            r.server_host@ == or_default(settings.server_host, "0.0.0.0"@),
            r.server_port == match settings.server_port {
                Some(p) => match port_of(p@) {
                    Some(v) => v,
                    None => DEFAULT_PORT,
                },
                None => DEFAULT_PORT,
            },
            r.gl_cert_path@ == or_default(settings.gl_cert_path, "./client.crt"@),
            r.gl_key_path@ == or_default(settings.gl_key_path, "./client-key.pem"@),
            r.gl_network@ == or_default(settings.gl_network, "bitcoin"@),
    {
        let server_port = match &settings.server_port {
            Some(p) => match parse_port(p.as_str()) {
                Some(v) => v,
                None => DEFAULT_PORT,
            },
            None => DEFAULT_PORT,
        };
        Config {
            database_url: setting_or(settings.database_url, "postgresql://localhost/greenlight_wallet"),
            jwt_secret: setting_or(settings.jwt_secret, "default-secret-change-in-production"),
            server_host: setting_or(settings.server_host, "0.0.0.0"),
            server_port,
            gl_cert_path: setting_or(settings.gl_cert_path, "./client.crt"),
            gl_key_path: setting_or(settings.gl_key_path, "./client-key.pem"),
            gl_network: setting_or(settings.gl_network, "bitcoin"),
        }
    }
}

} // verus!
