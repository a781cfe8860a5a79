//! Deriving a stable username from an email address.

use vstd::prelude::*;
use vstd::utf8::is_ascii_chars;

verus! {

/// Length bound on a derived username.
pub const MAX_USERNAME_LEN: usize = 39;

/// A character allowed in a username: `[a-z0-9-]`.
pub open spec fn is_username_char(c: char) -> bool {
    ('a' <= c && c <= 'z') || ('0' <= c && c <= '9') || c == '-'
}

pub open spec fn all_username_chars(s: Seq<char>) -> bool {
    forall|i: int| 0 <= i < s.len() ==> is_username_char(#[trigger] s[i])
}

/// Index of the first `'@'` at or after `i`, or the length if there is none.
pub open spec fn first_at_from(s: Seq<char>, i: int) -> int
    decreases s.len() - i,
{
    if i >= s.len() || i < 0 {
        s.len() as int
    } else if s[i] == '@' {
        i
    } else {
        first_at_from(s, i + 1)
    }
}

/// The local part of an address: everything before the first `'@'`.
pub open spec fn local_part(s: Seq<char>) -> Seq<char> {
    s.take(first_at_from(s, 0))
}

/// The ASCII lower-case mapping of one character.
pub open spec fn ascii_lower(c: char) -> char {
    if 'A' <= c && c <= 'Z' {
        ((c as u32 + 32) as u8) as char
    } else {
        c
    }
}

/// What `str::to_lowercase` returns on a string that is not all ASCII.
pub uninterp spec fn lower_of(s: Seq<char>) -> Seq<char>;

/// Unicode lower-casing: on ASCII text it maps each letter `A`..`Z` to its
/// lower-case form and keeps every other character.
pub open spec fn lowercase_of(s: Seq<char>) -> Seq<char> {
    if is_ascii_chars(s) {
        s.map_values(|c: char| ascii_lower(c))
    } else {
        lower_of(s)
    }
}

/// The characters of `s` that may stand in a username, in order.
pub open spec fn keep_username_chars(s: Seq<char>) -> Seq<char>
    decreases s.len(),
{
    if s.len() == 0 {
        s
    } else {
        let rest = keep_username_chars(s.drop_last());
        if is_username_char(s.last()) {
            rest.push(s.last())
        } else {
            rest
        }
    }
}

/// The username used when nothing of the address survives.
pub open spec fn fallback_username() -> Seq<char> {
    seq!['u', 's', 'e', 'r']
}

/// The username of an email address: the lower-cased local part, restricted
/// to `[a-z0-9-]`, cut to its first 39 characters, or `"user"` if empty.
pub open spec fn username_of(email: Seq<char>) -> Seq<char> {
    let cleaned = keep_username_chars(lowercase_of(local_part(email)));
    let cut = if cleaned.len() > MAX_USERNAME_LEN { cleaned.take(MAX_USERNAME_LEN as int) } else { cleaned };
    if cut.len() == 0 {
        fallback_username()
    } else {
        cut
    }
}

/// Relies on `str::to_lowercase`: Unicode lower-casing, which on ASCII text
/// maps `A`..`Z` to `a`..`z` and keeps every other character.
#[verifier::external_body]
pub(crate) fn lowercase(s: &str) -> (r: String)
    ensures
        is_ascii_chars(s@) ==> r@ == s@.map_values(|c: char| ascii_lower(c)),
        !is_ascii_chars(s@) ==> r@ == lower_of(s@),
{
    s.to_lowercase()
}

/// Relies on `regex::Regex::replace_all` with the class `[^a-z0-9-]` and an
/// empty replacement: every character outside `[a-z0-9-]` is removed and the
/// others are kept in order.
#[verifier::external_body]
fn strip_non_username_chars(s: &str) -> (r: String)
    ensures
        r@ == keep_username_chars(s@),
{
    regex::Regex::new(r"[^a-z0-9-]").unwrap().replace_all(s, "").into_owned()
}

proof fn lemma_keep_username_chars_allowed(s: Seq<char>)
    ensures
        all_username_chars(keep_username_chars(s)),
        keep_username_chars(s).len() <= s.len(),
    decreases s.len(),
{
    if s.len() > 0 {
        lemma_keep_username_chars_allowed(s.drop_last());
    }
}

proof fn lemma_keep_username_chars_of_allowed(s: Seq<char>)
    requires
        all_username_chars(s),
    ensures
        keep_username_chars(s) == s,
    decreases s.len(),
{
    if s.len() > 0 {
        let p = s.drop_last();
        assert(all_username_chars(p)) by {
            assert forall|i: int| 0 <= i < p.len() implies is_username_char(#[trigger] p[i]) by {
                assert(p[i] == s[i]);
            }
        }
        lemma_keep_username_chars_of_allowed(p);
        assert(s.drop_last().push(s.last()) =~= s);
    }
}

proof fn lemma_username_chars_ascii(s: Seq<char>)
    requires
        all_username_chars(s),
    ensures
        is_ascii_chars(s),
{
    assert forall|i: int| 0 <= i < s.len() implies '\0' <= #[trigger] s[i] <= '\u{7f}' by {
        assert(is_username_char(s[i]));
    }
}

proof fn lemma_no_at_from(s: Seq<char>, i: int)
    requires
        all_username_chars(s),
        0 <= i <= s.len(),
    ensures
        first_at_from(s, i) == s.len(),
    decreases s.len() - i,
{
    if i < s.len() {
        assert(is_username_char(s[i]));
        lemma_no_at_from(s, i + 1);
    }
}

/// A derived username is never empty, holds at most 39 characters, and every
/// character of it is in `[a-z0-9-]` (so it is lower-case).
pub proof fn lemma_username_well_formed(email: Seq<char>)
    ensures
        all_username_chars(username_of(email)),
        1 <= username_of(email).len() <= MAX_USERNAME_LEN,
{
    let cleaned = keep_username_chars(lowercase_of(local_part(email)));
    lemma_keep_username_chars_allowed(lowercase_of(local_part(email)));
    let u = username_of(email);
    if cleaned.len() > MAX_USERNAME_LEN {
        assert forall|i: int| 0 <= i < u.len() implies is_username_char(#[trigger] u[i]) by {
            assert(u[i] == cleaned[i]);
        }
    } else if cleaned.len() == 0 {
        assert forall|i: int| 0 <= i < u.len() implies is_username_char(#[trigger] u[i]) by {
        }
    }
}

/// Deriving the username of a derived username gives it back unchanged.
pub proof fn lemma_username_idempotent(email: Seq<char>)
    ensures
        username_of(username_of(email)) == username_of(email),
{
    let u = username_of(email);
    lemma_username_well_formed(email);
    lemma_no_at_from(u, 0);
    assert(local_part(u) =~= u);
    lemma_username_chars_ascii(u);
    assert(lowercase_of(u) =~= u) by {
        assert forall|i: int| 0 <= i < u.len() implies ascii_lower(#[trigger] u[i]) == u[i] by {
            assert(is_username_char(u[i]));
        }
    }
    lemma_keep_username_chars_of_allowed(u);
}

/// Returns the local part of `email` (everything before the first `'@'`).
fn local_part_of(email: &str) -> (r: &str)
    ensures
        r@ == local_part(email@),
{
    let n = email.unicode_len();
    let mut i: usize = 0;
    while i < n
        invariant
            n == email@.len(),
            i <= n,
            first_at_from(email@, 0) == first_at_from(email@, i as int),
        ensures
            i == n || email@[i as int] == '@',
        decreases n - i,
    {
        if email.get_char(i) == '@' {
            break;
        }
        i = i + 1;
    }
    assert(first_at_from(email@, i as int) == i);
    email.substring_char(0, i)
}

/// Derives the username for an email address: the local part, lower-cased,
/// with every character outside `[a-z0-9-]` removed, cut to 39 characters,
/// and `"user"` where nothing is left.
pub fn email_to_username(email: &str) -> (r: String)
    ensures
        r@ == username_of(email@),
{
    let prefix = local_part_of(email);
    let lower = lowercase(prefix);
    let cleaned = strip_non_username_chars(lower.as_str());
    proof {
        lemma_keep_username_chars_allowed(lower@);
        lemma_username_chars_ascii(cleaned@);
    }
    let len = cleaned.unicode_len();
    let cut_len = if len > MAX_USERNAME_LEN { MAX_USERNAME_LEN } else { len };
    if cut_len == 0 {
        let r = String::from_str("user");
        proof {
            reveal_strlit("user");
        }
        assert(r@ =~= fallback_username());
        r
    } else {
        let r = String::from_str(cleaned.as_str().substring_ascii(0, cut_len));
        assert(cleaned@.len() <= MAX_USERNAME_LEN ==> r@ =~= cleaned@);
        r
    }
}

} // verus!
