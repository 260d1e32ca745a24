//! Settings read from the environment: decimal numbers with defaults,
//! the cache URL and the choice between the main and the test database.

use vstd::prelude::*;
use vstd::string::*;

verus! {

/// The character is an ASCII decimal digit.
pub open spec fn is_digit(c: char) -> bool {
    '0' <= c && c <= '9'
}

/// The decimal digit `d` (below ten) as a character.
pub open spec fn digit_char(d: int) -> char {
    (d + 48) as char
}

/// Every character of `s` is an ASCII decimal digit.
pub open spec fn all_digits(s: Seq<char>) -> bool {
    forall|i: int| 0 <= i < s.len() ==> is_digit(#[trigger] s[i])
}

/// The number written by the decimal digits `s`, most significant first.
pub open spec fn digits_value(s: Seq<char>) -> nat
    decreases s.len(),
{
    if s.len() == 0 {
        0
    } else {
        digits_value(s.drop_last()) * 10 + ((s.last() as nat) - ('0' as nat)) as nat
    }
}

/// The digits that follow an optional leading `+`.
pub open spec fn unsigned_body(s: Seq<char>) -> Seq<char> {
    if s.len() > 0 && s[0] == '+' {
        s.drop_first()
    } else {
        s
    }
}

/// What std's `from_str` for an unsigned integer type whose largest value is
/// `max` gives for `s`: an optional `+`, then at least one decimal digit,
/// with a value no larger than `max`.
pub open spec fn parse_unsigned(s: Seq<char>, max: nat) -> Option<nat> {
    let body = unsigned_body(s);
    if body.len() > 0 && all_digits(body) && digits_value(body) <= max {
        Some(digits_value(body))
    } else {
        None
    }
}

proof fn lemma_digits_value_step(s: Seq<char>, i: int)
    requires
        0 <= i < s.len(),
    ensures
        digits_value(s.subrange(0, i + 1)) == digits_value(s.subrange(0, i)) * 10 + ((s[i] as nat)
            - ('0' as nat)) as nat,
{
    assert(s.subrange(0, i + 1).drop_last() =~= s.subrange(0, i));
}

proof fn lemma_digits_value_monotone(s: Seq<char>, i: int, j: int)
    requires
        0 <= i <= j <= s.len(),
        all_digits(s),
    ensures
        digits_value(s.subrange(0, i)) <= digits_value(s.subrange(0, j)),
    decreases j - i,
{
    if i < j {
        lemma_digits_value_monotone(s, i, j - 1);
        lemma_digits_value_step(s, j - 1);
        assert(is_digit(s[j - 1]));
    }
}

/// Parses `s` as std's `from_str` parses an unsigned integer whose largest
/// value is `max`; `None` where std reports an error.
pub fn parse_unsigned_decimal(s: &str, max: u64) -> (res: Option<u64>)
    ensures
        res == (match parse_unsigned(s@, max as nat) {
            Some(v) => Some(v as u64),
            None => None::<u64>,
        }),
{
    let len = s.unicode_len();
    let mut start: usize = 0;
    if len > 0 && s.get_char(0) == '+' {
        start = 1;
    }
    let ghost body = unsigned_body(s@);
    assert(body =~= s@.subrange(start as int, len as int));
    if start == len {
        return None;
    }
    let mut acc: u64 = 0;
    let mut i: usize = start;
    while i < len
        invariant
            start <= i <= len,
            len == s@.len(),
            body =~= s@.subrange(start as int, len as int),
            body == unsigned_body(s@),
            all_digits(body.subrange(0, i - start)),
            acc as nat == digits_value(body.subrange(0, i - start)),
            acc <= max,
        decreases len - i,
    {
        let c = s.get_char(i);
        proof {
            lemma_digits_value_step(body, i - start);
            assert(body[i - start] == c);
        }
        if !('0' <= c && c <= '9') {
            assert(!all_digits(body));
            return None;
        }
        let d: u64 = (c as u64) - ('0' as u64);
        if d > max || acc > (max - d) / 10 {
            proof {
                assert(digits_value(body.subrange(0, i - start + 1)) > max);
                assert(all_digits(body.subrange(0, i - start + 1)));
                if all_digits(body) {
                    lemma_digits_value_monotone(body, i - start + 1, body.len() as int);
                    assert(body.subrange(0, body.len() as int) =~= body);
                }
            }
            return None;
        }
        acc = acc * 10 + d;
        i = i + 1;
        assert(all_digits(body.subrange(0, i - start)));
    }
    assert(body.subrange(0, len - start) =~= body);
    Some(acc)
}

/// Parses `s` as a `u64`, falling back to `default` where std's parser fails.
pub fn parse_u64_or(s: &str, default: u64) -> (res: u64)
    ensures
        res == (match parse_unsigned(s@, u64::MAX as nat) {
            Some(v) => v,
            None => default as nat,
        }),
{
    match parse_unsigned_decimal(s, u64::MAX) {
        Some(v) => v,
        None => default,
    }
}

/// Parses `s` as a `u32`, falling back to `default` where std's parser fails.
pub fn parse_u32_or(s: &str, default: u32) -> (res: u32)
    ensures
        res == (match parse_unsigned(s@, u32::MAX as nat) {
            Some(v) => v,
            None => default as nat,
        }),
{
    match parse_unsigned_decimal(s, u32::MAX as u64) {
        Some(v) => v as u32,
        None => default,
    }
}

/// Seconds an address stays blocked when the setting is missing or malformed
/// (the value the brute-force service falls back to).
pub const DEFAULT_TIME_BLOCK_IP_SECONDS: u64 = 360;

/// Seconds an address stays blocked when the setting is missing or malformed
/// (the value the authentication middleware falls back to: five hours).
pub const AUTH_TIME_BLOCK_IP_SECONDS: u64 = 18000;

/// Failed attempts an address may make before it is blocked, when the
/// setting is missing or malformed.
pub const DEFAULT_MAX_REQUESTS_TRIES_ALLOWED: u32 = 15;

/// The block duration configured by `raw` (`TIME_BLOCK_IP`), or `default`.
pub fn time_block_ip(raw: &str, default: u64) -> (res: u64)
    ensures
        res == (match parse_unsigned(raw@, u64::MAX as nat) {
            Some(v) => v,
            None => default as nat,
        }),
{
    parse_u64_or(raw, default)
}

/// The number of failed attempts allowed, configured by `raw`
/// (`MAX_REQUESTS_TRIES_ALLOWED`), or the default of fifteen.
pub fn max_requests_tries_allowed(raw: &str) -> (res: u32)
    ensures
        res == (match parse_unsigned(raw@, u32::MAX as nat) {
            Some(v) => v,
            None => DEFAULT_MAX_REQUESTS_TRIES_ALLOWED as nat,
        }),
{
    parse_u32_or(raw, DEFAULT_MAX_REQUESTS_TRIES_ALLOWED)
}

/// `redis://:{password}@{address}`, the URL of the cache.
pub open spec fn redis_url_spec(password: Seq<char>, address: Seq<char>) -> Seq<char> {
    "redis://:"@ + password + "@"@ + address
}

/// Builds the cache URL from its password and address.
pub fn redis_url(password: &str, address: &str) -> (res: String)
    ensures
        res@ == redis_url_spec(password@, address@),
{
    let mut url = String::from_str("redis://:");
    url.append(password);
    url.append("@");
    url.append(address);
    url
}

/// The marker argument that selects the test database.
pub open spec fn test_env_marker() -> Seq<char> {
    "test_env"@
}

/// Some argument of the process equals `test_env`.
pub open spec fn selects_test_database(args: Seq<Seq<char>>) -> bool {
    exists|i: int| 0 <= i < args.len() && args[i] == test_env_marker()
}

/// Picks the database URL: the test one when some process argument is
/// `test_env`, the main one otherwise.
pub fn database_url<'a>(args: &Vec<String>, url: &'a str, test_url: &'a str) -> (res: &'a str)
    ensures
        res@ == (if selects_test_database(args@.map_values(|a: String| a@)) {
            test_url@
        } else {
            url@
        }),
{
    let ghost views = args@.map_values(|a: String| a@);
    let mut i: usize = 0;
    while i < args.len()
        invariant
            i <= args.len(),
            views == args@.map_values(|a: String| a@),
            forall|j: int| 0 <= j < i ==> views[j] != test_env_marker(),
        decreases args.len() - i,
    {
        let marker = String::from_str("test_env");
        if args[i] == marker {
            assert(views[i as int] == test_env_marker());
            return test_url;
        }
        i = i + 1;
    }
    url
}

} // verus!
