//! Settings of the gateway, and the reading of their text forms.

use vstd::prelude::*;

use crate::username::{lowercase, lowercase_of};

verus! {

/// Time to live of fetched issuer keys when none is configured: six hours.
pub const DEFAULT_JWKS_TTL_MS: u64 = 21600000;

/// The gateway's settings. Durations are in milliseconds and paths are
/// text.
pub struct Config {
    pub port: u16,
    pub base_url: String,
    pub cf_aud: String,
    pub cf_team_domain: String,
    pub cf_jwks_cache_ttl_ms: u64,
    pub dev_mode: bool,
    pub dev_user: String,
    /// Lower-cased usernames with admin rights.
    pub admin_users: Vec<String>,
    pub soju_addr: String,
    pub soju_socket: String,
    pub irc_addr: String,
    pub irc_network_name: String,
    pub ttyd_base_port: u16,
    /// Sessions keep their terminal state in a reattachable socket.
    pub dtach_session: bool,
    pub data_dir: String,
    pub sessions_dir: String,
    pub public_dir: String,
}

/// A character that is an ASCII decimal digit.
pub open spec fn is_digit(c: char) -> bool {
    '0' <= c && c <= '9'
}

/// The value of a string of decimal digits.
pub open spec fn digits_value(s: Seq<char>) -> nat
    decreases s.len(),
{
    if s.len() == 0 {
        0
    } else {
        digits_value(s.drop_last()) * 10 + (s.last() as nat - '0' as nat) as nat
    }
}

/// The text after an optional leading `'+'`.
pub open spec fn digits_part(s: Seq<char>) -> Seq<char> {
    if s.len() > 0 && s[0] == '+' {
        s.subrange(1, s.len() as int)
    } else {
        s
    }
}

pub open spec fn all_digits(d: Seq<char>) -> bool {
    forall|i: int| 0 <= i < d.len() ==> is_digit(#[trigger] d[i])
}

/// An unsigned number in decimal, as `str::parse` reads one: an optional
/// `'+'`, then one or more digits, with a value of at most `max`.
pub open spec fn parse_unsigned_spec(s: Seq<char>, max: u64) -> Option<u64> {
    let d = digits_part(s);
    if d.len() > 0 && all_digits(d) && digits_value(d) <= max {
        Some(digits_value(d) as u64)
    } else {
        None
    }
}

/// Reads an unsigned decimal number no greater than `max`.
pub fn parse_unsigned(s: &str, max: u64) -> (r: Option<u64>)
    ensures
        r == parse_unsigned_spec(s@, max),
{
    let n = s.unicode_len();
    let start: usize = if n > 0 && s.get_char(0) == '+' { 1 } else { 0 };
    let ghost d = digits_part(s@);
    if start == n {
        return None;
    }
    let mut value: u64 = 0;
    let mut big = false;
    let mut i: usize = start;
    while i < n
        invariant
            n == s@.len(),
            start <= i <= n,
            d == s@.subrange(start as int, n as int),
            d == digits_part(s@),
            forall|k: int| 0 <= k < i - start ==> is_digit(#[trigger] d[k]),
            big ==> digits_value(d.take(i - start)) > max,
            !big ==> value == digits_value(d.take(i - start)) && value <= max,
        decreases n - i,
    {
        let c = s.get_char(i);
        if c < '0' || c > '9' {
            assert(d[i - start] == c);
            assert(!is_digit(d[(i - start) as int]));
            return None;
        }
        let ghost prefix = d.take(i - start);
        let ghost next = d.take(i + 1 - start);
        assert(next.drop_last() =~= prefix);
        assert(next.last() == c);
        let digit = (c as u32 - '0' as u32) as u64;
        if !big {
            let nv: u128 = value as u128 * 10 + digit as u128;
            if nv > max as u128 {
                big = true;
            } else {
                value = nv as u64;
            }
        }
        i = i + 1;
    }
    assert(d.take(n - start) =~= d);
    if big {
        None
    } else {
        Some(value)
    }
}

/// A character with the Unicode `White_Space` property.
pub open spec fn is_white_space(c: char) -> bool {
    ('\u{9}' <= c && c <= '\u{d}') || c == ' ' || c == '\u{85}' || c == '\u{a0}' || c == '\u{1680}'
        || ('\u{2000}' <= c && c <= '\u{200a}') || c == '\u{2028}' || c == '\u{2029}' || c
        == '\u{202f}' || c == '\u{205f}' || c == '\u{3000}'
}

/// `s` without its leading white space.
pub open spec fn trim_start_spec(s: Seq<char>) -> Seq<char>
    decreases s.len(),
{
    if s.len() > 0 && is_white_space(s[0]) {
        trim_start_spec(s.drop_first())
    } else {
        s
    }
}

/// `s` without its trailing white space.
pub open spec fn trim_end_spec(s: Seq<char>) -> Seq<char>
    decreases s.len(),
{
    if s.len() > 0 && is_white_space(s.last()) {
        trim_end_spec(s.drop_last())
    } else {
        s
    }
}

/// `s` without leading and trailing white space.
pub open spec fn trimmed(s: Seq<char>) -> Seq<char> {
    trim_end_spec(trim_start_spec(s))
}

/// Whether `c` has the Unicode `White_Space` property.
fn white_space(c: char) -> (r: bool)
    ensures
        r == is_white_space(c),
{
    ('\u{9}' <= c && c <= '\u{d}') || c == ' ' || c == '\u{85}' || c == '\u{a0}' || c == '\u{1680}'
        || ('\u{2000}' <= c && c <= '\u{200a}') || c == '\u{2028}' || c == '\u{2029}' || c
        == '\u{202f}' || c == '\u{205f}' || c == '\u{3000}'
}

/// The text without leading and trailing white space.
pub fn trim(s: &str) -> (r: &str)
    ensures
        r@ == trimmed(s@),
{
    let n = s.unicode_len();
    let mut a: usize = 0;
    assert(s@.subrange(0, n as int) =~= s@);
    while a < n
        invariant
            n == s@.len(),
            a <= n,
            trim_start_spec(s@) == trim_start_spec(s@.subrange(a as int, n as int)),
        ensures
            a == n || !is_white_space(s@[a as int]),
        decreases n - a,
    {
        if !white_space(s.get_char(a)) {
            break;
        }
        proof {
            let t = s@.subrange(a as int, n as int);
            assert(t.drop_first() =~= s@.subrange(a + 1, n as int));
        }
        a = a + 1;
    }
    let ghost t = s@.subrange(a as int, n as int);
    assert(trim_start_spec(t) == t);
    let mut b: usize = n;
    while b > a
        invariant
            n == s@.len(),
            a <= b <= n,
            t == s@.subrange(a as int, n as int),
            trim_end_spec(t) == trim_end_spec(s@.subrange(a as int, b as int)),
        ensures
            b == a || !is_white_space(s@[b - 1]),
        decreases b,
    {
        if !white_space(s.get_char(b - 1)) {
            break;
        }
        proof {
            let u = s@.subrange(a as int, b as int);
            assert(u.drop_last() =~= s@.subrange(a as int, b - 1));
        }
        b = b - 1;
    }
    let r = s.substring_char(a, b);
    assert(trim_end_spec(s@.subrange(a as int, b as int)) == s@.subrange(a as int, b as int));
    r
}

/// Index of the first `','` at or after `i`, or the length.
pub open spec fn next_comma(s: Seq<char>, i: int) -> int
    decreases s.len() - i,
{
    if i >= s.len() || i < 0 {
        s.len() as int
    } else if s[i] == ',' {
        i
    } else {
        next_comma(s, i + 1)
    }
}

/// The comma-separated pieces of `s` from index `i` on.
pub open spec fn pieces_from(s: Seq<char>, i: int) -> Seq<Seq<char>>
    decreases s.len() - i,
{
    let k = next_comma(s, i);
    if i < 0 || i > s.len() || k < i {
        Seq::empty()
    } else if k >= s.len() {
        seq![s.subrange(i, s.len() as int)]
    } else {
        seq![s.subrange(i, k)] + pieces_from(s, k + 1)
    }
}

proof fn lemma_next_comma_bounds(s: Seq<char>, i: int)
    requires
        0 <= i <= s.len(),
    ensures
        i <= next_comma(s, i) <= s.len(),
        next_comma(s, i) < s.len() ==> s[next_comma(s, i)] == ',',
    decreases s.len() - i,
{
    if i < s.len() && s[i] != ',' {
        lemma_next_comma_bounds(s, i + 1);
    }
}

/// An admin list entry as configured: trimmed and lower-cased.
pub open spec fn admin_entry(piece: Seq<char>) -> Seq<char> {
    lowercase_of(trimmed(piece))
}

/// The admin list from its comma-separated text: each entry trimmed and
/// lower-cased, empty entries dropped.
pub open spec fn admin_list_spec(pieces: Seq<Seq<char>>) -> Seq<Seq<char>>
    decreases pieces.len(),
{
    if pieces.len() == 0 {
        Seq::empty()
    } else {
        let rest = admin_list_spec(pieces.drop_last());
        let e = admin_entry(pieces.last());
        if e.len() == 0 {
            rest
        } else {
            rest.push(e)
        }
    }
}

/// Reads the admin list from its comma-separated text.
pub fn parse_admin_users(raw: &str) -> (r: Vec<String>)
    ensures
        r@.map_values(|a: String| a@) == admin_list_spec(pieces_from(raw@, 0)),
{
    let n = raw.unicode_len();
    let mut out: Vec<String> = Vec::new();
    let mut start: usize = 0;
    let ghost mut done: Seq<Seq<char>> = Seq::empty();
    loop
        invariant
            n == raw@.len(),
            start <= n,
            done + pieces_from(raw@, start as int) == pieces_from(raw@, 0),
            out@.map_values(|a: String| a@) == admin_list_spec(done),
        decreases n - start,
    {
        let mut k: usize = start;
        while k < n
            invariant
                n == raw@.len(),
                start <= k <= n,
                next_comma(raw@, start as int) == next_comma(raw@, k as int),
            ensures
                k == n || raw@[k as int] == ',',
            decreases n - k,
        {
            if raw.get_char(k) == ',' {
                break;
            }
            k = k + 1;
        }
        assert(next_comma(raw@, k as int) == k);
        let piece = raw.substring_char(start, k);
        let entry = lowercase(trim(piece));
        let ghost old_out = out@;
        let ghost piece_v = raw@.subrange(start as int, k as int);
        if entry.unicode_len() > 0 {
            out.push(entry);
        }
        proof {
            assert(admin_list_spec(done.push(piece_v)).len() >= 0);
            assert(done.push(piece_v).drop_last() =~= done);
            assert(out@.map_values(|a: String| a@) =~= admin_list_spec(done.push(piece_v)));
        }
        if k == n {
            proof {
                assert(pieces_from(raw@, start as int) == seq![piece_v]);
                done = done.push(piece_v);
                assert(done =~= pieces_from(raw@, 0));
            }
            return out;
        }
        proof {
            assert(pieces_from(raw@, start as int) == seq![piece_v] + pieces_from(raw@, k + 1));
            assert(done + pieces_from(raw@, start as int) =~= done.push(piece_v) + pieces_from(raw@, k + 1));
            done = done.push(piece_v);
        }
        start = k + 1;
    }
}

/// Most ASCII digits a duration text may hold. With no more, every value
/// the text names is below 10^11 years, under 2^64 seconds by far.
pub const MAX_DURATION_DIGITS: usize = 11;

/// The number of ASCII digits in `s`.
pub open spec fn digit_count(s: Seq<char>) -> nat
    decreases s.len(),
{
    if s.len() == 0 {
        0
    } else {
        digit_count(s.drop_last()) + if is_digit(s.last()) { 1nat } else { 0nat }
    }
}

/// Counts the ASCII digits of `s`.
pub fn count_digits(s: &str) -> (r: usize)
    ensures
        r == digit_count(s@),
{
    let n = s.unicode_len();
    let mut count: usize = 0;
    let mut i: usize = 0;
    while i < n
        invariant
            n == s@.len(),
            i <= n,
            count <= i,
            count == digit_count(s@.take(i as int)),
        decreases n - i,
    {
        let c = s.get_char(i);
        proof {
            assert(s@.take(i + 1).drop_last() =~= s@.take(i as int));
        }
        if '0' <= c && c <= '9' {
            count = count + 1;
        }
        i = i + 1;
    }
    assert(s@.take(n as int) =~= s@);
    count
}

/// What `humantime::parse_duration` reads from a text, in whole
/// milliseconds, or `None` when it refuses the text or the value does not
/// fit.
pub uninterp spec fn duration_ms_of(s: Seq<char>) -> Option<u64>;

/// Relies on `humantime::parse_duration`: reads a duration such as `"6h"`
/// or `"15min 30s"`; the result is taken in milliseconds. The parser panics
/// when its running total passes `u64::MAX` seconds through a nanosecond
/// carry; a text with at most 11 digits names less than 10^11 years, so it
/// never gets there.
#[verifier::external_body]
fn parse_duration_ms(s: &str) -> (r: Option<u64>)
    requires
        digit_count(s@) <= MAX_DURATION_DIGITS,
    ensures
        r == duration_ms_of(s@),
{
    match humantime::parse_duration(s) {
        Ok(d) => u64::try_from(d.as_millis()).ok(),
        Err(_) => None,
    }
}

/// The key cache's time to live from its setting: the duration it names, or
/// six hours when it is unset, unreadable, or holds more than 11 digits.
pub fn jwks_ttl_ms(setting: Option<&str>) -> (r: u64)
    ensures
        r == match setting {
            Some(s) => if digit_count(s@) > MAX_DURATION_DIGITS {
                DEFAULT_JWKS_TTL_MS
            } else {
                match duration_ms_of(s@) {
                    Some(ms) => ms,
                    None => DEFAULT_JWKS_TTL_MS,
                }
            },
            None => DEFAULT_JWKS_TTL_MS,
        },
{
    match setting {
        Some(s) => {
            if count_digits(s) > MAX_DURATION_DIGITS {
                return DEFAULT_JWKS_TTL_MS;
            }
            match parse_duration_ms(s) {
                Some(ms) => ms,
                None => DEFAULT_JWKS_TTL_MS,
            }
        },
        None => DEFAULT_JWKS_TTL_MS,
    }
}

/// Reads a port number setting.
pub fn parse_port(s: &str) -> (r: Option<u16>)
    ensures
        r == match parse_unsigned_spec(s@, 65535) {
            Some(v) => Some(v as u16),
            None => None::<u16>,
        },
{
    match parse_unsigned(s, 65535) {
        Some(v) => Some(v as u16),
        None => None,
    }
}

/// A flag setting is on only when it reads `true`.
pub fn flag_setting(s: &str) -> (r: bool)
    ensures
        r == (s@ == "true"@),
{
    String::from_str(s) == String::from_str("true")
}

} // verus!
