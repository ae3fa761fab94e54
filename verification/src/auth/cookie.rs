//! The cookies the server sets and reads: the session cookie and the OAuth state cookie.

use vstd::prelude::*;
use crate::text::{chars_of, occurs_at_exec, push_str, starts_with, string_of, tail_of, trim, trim_chars};

verus! {

/// The earliest second (since the Unix epoch) a date can be written for.
pub const MIN_TIMESTAMP: i64 = -8334601228800;

/// The latest second (since the Unix epoch) a date can be written for.
pub const MAX_TIMESTAMP: i64 = 8210266876799;

/// A date written for an HTTP header, `%a, %d %b %Y %H:%M:%S GMT`, of the second `secs`
/// since the Unix epoch.
pub uninterp spec fn http_date(secs: int) -> Seq<char>;

/// Writes the second `secs` since the Unix epoch with chrono: the date is made with
/// `DateTime::<Utc>::from_timestamp` (which has a date for every second in the range
/// required here) and written with `format("%a, %d %b %Y %H:%M:%S GMT")`. The text is
/// named by [`http_date`].
#[verifier::external_body]
fn format_http_date(secs: i64) -> (r: String)
    requires
        MIN_TIMESTAMP <= secs <= MAX_TIMESTAMP,
    ensures
        r@ == http_date(secs as int),
{
    chrono::DateTime::from_timestamp(secs, 0).unwrap().format("%a, %d %b %Y %H:%M:%S GMT").to_string()
}

/// How long a session lasts: thirty days, in seconds.
pub const SESSION_SECONDS: i64 = 2592000;

/// When a session opened at second `now` expires.
pub fn session_expiry(now: i64) -> (r: i64)
    requires
        now <= MAX_TIMESTAMP - SESSION_SECONDS,
    ensures
        r == now + SESSION_SECONDS,
{
    now + SESSION_SECONDS
}

/// The text of the session cookie for `token`, expiring at second `expires`.
pub open spec fn session_cookie_text(token: Seq<char>, expires: int) -> Seq<char> {
    "session="@ + token + "; Path=/; HttpOnly; SameSite=Lax; Expires="@ + http_date(expires)
}

/// The text of the cookie that removes the OAuth state.
pub open spec fn clear_state_cookie_text() -> Seq<char> {
    "oauth_state=; Path=/; HttpOnly; Max-Age=0"@
}

/// The session cookie for `token`, expiring at second `expires` since the Unix epoch.
pub fn session_cookie(token: &str, expires: i64) -> (r: String)
    requires
        MIN_TIMESTAMP <= expires <= MAX_TIMESTAMP,
    ensures
        r@ == session_cookie_text(token@, expires as int),
{
    let date = format_http_date(expires);
    let mut r = String::new();
    push_str(&mut r, "session=");
    push_str(&mut r, token);
    push_str(&mut r, "; Path=/; HttpOnly; SameSite=Lax; Expires=");
    push_str(&mut r, date.as_str());
    r
}

/// The cookie that ends a session.
pub fn clear_session_cookie() -> (r: &'static str)
    ensures
        r@ == "session=; Path=/; HttpOnly; SameSite=Lax; Max-Age=0"@,
{
    "session=; Path=/; HttpOnly; SameSite=Lax; Max-Age=0"
}

/// The cookie that carries the OAuth state for ten minutes.
pub fn oauth_state_cookie(csrf: &str) -> (r: String)
    ensures
        r@ == "oauth_state="@ + csrf@ + "; Path=/; HttpOnly; SameSite=Lax; Max-Age=600"@,
{
    let mut r = String::new();
    push_str(&mut r, "oauth_state=");
    push_str(&mut r, csrf);
    push_str(&mut r, "; Path=/; HttpOnly; SameSite=Lax; Max-Age=600");
    r
}

/// The cookie that removes the OAuth state.
pub fn clear_oauth_state_cookie() -> (r: &'static str)
    ensures
        r@ == clear_state_cookie_text(),
{
    "oauth_state=; Path=/; HttpOnly; Max-Age=0"
}

/// The first position at or after `i` holding `;`, or the end.
pub open spec fn next_semicolon(s: Seq<char>, i: int) -> int
    decreases s.len() - i,
{
    if i < 0 || i >= s.len() {
        s.len() as int
    } else if s[i] == ';' {
        i
    } else {
        next_semicolon(s, i + 1)
    }
}

/// The value of cookie `name` among the `;`-separated parts of `h` from position `i` on:
/// the first part that, trimmed, starts with `name=` gives what follows that prefix.
pub open spec fn cookie_from(h: Seq<char>, name: Seq<char>, i: int) -> Option<Seq<char>>
    decreases h.len() - i,
{
    if i < 0 || i > h.len() {
        None
    } else {
        let e = next_semicolon(h, i);
        let part = trim(h.subrange(i, e));
        let prefix = name.push('=');
        if starts_with(part, prefix) {
            Some(part.skip(prefix.len() as int))
        } else if i <= e < h.len() {
            cookie_from(h, name, e + 1)
        } else {
            None
        }
    }
}

/// The value of cookie `name` in a `Cookie` header, if the header is there and names it.
pub open spec fn cookie_value(header: Option<Seq<char>>, name: Seq<char>) -> Option<Seq<char>> {
    match header {
        Some(h) => cookie_from(h, name, 0),
        None => None,
    }
}

/// The semicolon search stays within the text.
pub proof fn lemma_next_semicolon_bounds(s: Seq<char>, i: int)
    requires
        0 <= i <= s.len(),
    ensures
        i <= next_semicolon(s, i) <= s.len(),
        next_semicolon(s, i) < s.len() ==> s[next_semicolon(s, i)] == ';',
    decreases s.len() - i,
{
    if i < s.len() && s[i] != ';' {
        lemma_next_semicolon_bounds(s, i + 1);
    }
}

/// Reads cookie `name` from the text of a `Cookie` header.
pub fn extract_cookie(header: Option<&str>, name: &str) -> (r: Option<String>)
    ensures
        match r {
            Some(v) => cookie_value(
                match header {
                    Some(h) => Some(h@),
                    None => None,
                },
                name@,
            ) == Some(v@),
            None => cookie_value(
                match header {
                    Some(h) => Some(h@),
                    None => None,
                },
                name@,
            ) is None,
        },
{
    let h = match header {
        None => {
            return None;
        },
        Some(h) => h,
    };
    let s = chars_of(h);
    let mut prefix = chars_of(name);
    prefix.push('=');
    let mut i: usize = 0;
    loop
        invariant
            header == Some(h),
            s@ == h@,
            prefix@ == name@.push('='),
            i <= s@.len(),
            cookie_from(s@, name@, 0) == cookie_from(s@, name@, i as int),
        decreases s@.len() - i,
    {
        proof {
            lemma_next_semicolon_bounds(s@, i as int);
        }
        let mut e: usize = i;
        while e < s.len() && s[e] != ';'
            invariant
                i <= e <= s@.len(),
                next_semicolon(s@, i as int) == next_semicolon(s@, e as int),
            decreases s@.len() - e,
        {
            e = e + 1;
        }
        let mut raw: Vec<char> = Vec::new();
        let mut k: usize = i;
        while k < e
            invariant
                i <= k <= e <= s@.len(),
                raw@ == s@.subrange(i as int, k as int),
            decreases e - k,
        {
            raw.push(s[k]);
            k = k + 1;
            assert(raw@ =~= s@.subrange(i as int, k as int));
        }
        assert(e == next_semicolon(s@, i as int));
        let part = trim_chars(raw.as_slice());
        if occurs_at_exec(part.as_slice(), prefix.as_slice(), 0) {
            let value = tail_of(part.as_slice(), prefix.len());
            return Some(string_of(value.as_slice()));
        }
        if e >= s.len() {
            return None;
        }
        i = e + 1;
    }
}

/// Law: a cookie reads back. The `Cookie` header `name=value` (the form a browser sends a
/// cookie the server set) gives `value` for `name`, when neither holds a `;`, the name
/// starts and the value ends with a character that is not white space.
pub proof fn law_cookie_reads_back(name: Seq<char>, value: Seq<char>)
    requires
        name.len() > 0,
        value.len() > 0,
        !crate::text::whitespace(name[0]),
        !crate::text::whitespace(value.last()),
        forall|i: int| 0 <= i < name.len() ==> name[i] != ';',
        forall|i: int| 0 <= i < value.len() ==> value[i] != ';',
    ensures
        cookie_value(Some(name + seq!['='] + value), name) == Some(value),
{
    let h = name + seq!['='] + value;
    assert forall|i: int| 0 <= i < h.len() implies h[i] != ';' by {
        if i < name.len() {
            assert(h[i] == name[i]);
        } else if i > name.len() {
            assert(h[i] == value[i - name.len() - 1]);
        }
    }
    lemma_no_semicolon(h, 0);
    assert(h.subrange(0, h.len() as int) =~= h);
    assert(h[0] == name[0]);
    assert(h.drop_first().len() + 1 == h.len());
    assert(crate::text::leading_ws(h) == 0);
    assert(h.skip(0) =~= h);
    assert(h.last() == value.last());
    assert(crate::text::trailing_ws(h) == 0);
    assert(h.take(h.len() as int) =~= h);
    assert(trim(h) == h);
    let prefix = name.push('=');
    assert(h.subrange(0, prefix.len() as int) =~= prefix);
    assert(h.skip(prefix.len() as int) =~= value);
}

/// Without a `;`, the search for one runs to the end.
proof fn lemma_no_semicolon(s: Seq<char>, i: int)
    requires
        0 <= i <= s.len(),
        forall|j: int| 0 <= j < s.len() ==> s[j] != ';',
    ensures
        next_semicolon(s, i) == s.len(),
    decreases s.len() - i,
{
    if i < s.len() {
        lemma_no_semicolon(s, i + 1);
    }
}

} // verus!
