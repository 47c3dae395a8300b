use vstd::prelude::*;

verus! {

/// Endpoint of the document store when none is configured.
pub const DEFAULT_MONGO_URI: &'static str = "mongodb://localhost:27017";

/// Database selected when none is configured.
pub const DEFAULT_DB_NAME: &'static str = "gatezero_db";

/// Port listened on when none, or no valid one, is configured.
pub const DEFAULT_PORT: u16 = 3001;

pub open spec fn is_digit(c: char) -> bool {
    '0' <= c <= '9'
}

/// The number that a run of decimal digits writes.
pub open spec fn digits_value(d: Seq<char>) -> nat
    decreases d.len(),
{
    if d.len() == 0 {
        0
    } else {
        digits_value(d.drop_last()) * 10 + (d.last() as nat - '0' as nat) as nat
    }
}

/// The digits of a port text: all of it, but a leading `+`.
pub open spec fn port_digits(s: Seq<char>) -> Seq<char> {
    if s.len() > 0 && s[0] == '+' {
        s.drop_first()
    } else {
        s
    }
}

/// The port that a text writes, as an unsigned 16-bit decimal with an optional
/// leading `+`; `None` where it writes none.
pub open spec fn port_of(s: Seq<char>) -> Option<u16> {
    let d = port_digits(s);
    if d.len() > 0 && (forall|i: int| 0 <= i < d.len() ==> is_digit(#[trigger] d[i]))
        && digits_value(d) <= u16::MAX {
        Some(digits_value(d) as u16)
    } else {
        None
    }
}

/// A longer run of digits writes at least as large a number as its prefix.
proof fn lemma_digits_value_prefix(d: Seq<char>, k: int)
    requires
        0 <= k <= d.len(),
        forall|i: int| 0 <= i < d.len() ==> is_digit(#[trigger] d[i]),
    ensures
        digits_value(d.subrange(0, k)) <= digits_value(d),
    decreases d.len() - k,
{
    if k < d.len() {
        lemma_digits_value_prefix(d, k + 1);
        let p = d.subrange(0, k + 1);
        assert(p.drop_last() =~= d.subrange(0, k));
    } else {
        assert(d.subrange(0, k) =~= d);
    }
}

/// Reads a port number written in decimal, with an optional leading `+`.
pub fn parse_port(s: &str) -> (r: Option<u16>)
    ensures
        r == port_of(s@),
{
    let n = s.unicode_len();
    let mut start: usize = 0;
    if n > 0 && s.get_char(0) == '+' {
        start = 1;
    }
    let ghost d = port_digits(s@);
    assert(d =~= s@.subrange(start as int, n as int));
    if start >= n {
        return None;
    }
    let mut value: u32 = 0;
    let mut i: usize = start;
    while i < n
        invariant
            start <= i <= n,
            n == s@.len(),
            d =~= s@.subrange(start as int, n as int),
            d == port_digits(s@),
            forall|j: int| 0 <= j < i - start ==> is_digit(#[trigger] d[j]),
            value as nat == digits_value(d.subrange(0, i - start)),
            value <= u16::MAX,
        decreases n - i,
    {
        let c = s.get_char(i);
        if c < '0' || c > '9' {
            assert(!is_digit(d[i - start]));
            return None;
        }
        let digit: u32 = (c as u32) - ('0' as u32);
        let next: u32 = value * 10 + digit;
        proof {
            let p = d.subrange(0, i - start + 1);
            assert(p.drop_last() =~= d.subrange(0, i - start));
            assert(p.last() == c);
            assert(digits_value(p) == next as nat);
        }
        if next > 65535 {
            proof {
                if forall|j: int| 0 <= j < d.len() ==> is_digit(#[trigger] d[j]) {
                    lemma_digits_value_prefix(d, i - start + 1);
                }
                }
            return None;
        }
        value = next;
        i = i + 1;
    }
    assert(d.subrange(0, n - start) =~= d);
    Some(value as u16)
}

/// Where the service connects and listens.
#[derive(Clone, Debug)]
pub struct Config {
    pub mongo_uri: String,
    pub db_name: String,
    pub port: u16,
}

/// The configured text, or `default` where none is configured.
pub open spec fn text_or(value: Option<String>, default: Seq<char>) -> Seq<char> {
    match value {
        Some(v) => v@,
        None => default,
    }
}

/// The configured port, or the default where none, or no valid one, is configured.
pub open spec fn port_or_default(value: Option<String>) -> u16 {
    match value {
        Some(v) => match port_of(v@) {
            Some(p) => p,
            None => DEFAULT_PORT,
        },
        None => DEFAULT_PORT,
    }
}

impl Config {
    /// The configuration from the values that are set, each missing one taking
    /// its default.
    pub fn from_values(mongo_uri: Option<String>, db_name: Option<String>, port: Option<String>) -> (r: Config)
        ensures
            r.mongo_uri@ == text_or(mongo_uri, DEFAULT_MONGO_URI@),
            r.db_name@ == text_or(db_name, DEFAULT_DB_NAME@),
            r.port == port_or_default(port),
    {
        let uri = match mongo_uri {
            Some(u) => u,
            None => DEFAULT_MONGO_URI.to_owned(),
        };
        let name = match db_name {
            Some(n) => n,
            None => DEFAULT_DB_NAME.to_owned(),
        };
        let p = match port {
            Some(text) => match parse_port(text.as_str()) {
                Some(v) => v,
                None => DEFAULT_PORT,
            },
            None => DEFAULT_PORT,
        };
        Config { mongo_uri: uri, db_name: name, port: p }
    }
}

} // verus!
