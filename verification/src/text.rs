//! Character-level helpers shared by the library, with their specifications.

use vstd::prelude::*;

verus! {

// ---------------------------------------------------------------------------
// Building and reading strings
// ---------------------------------------------------------------------------

/// Appends one character to a string (`String::push`).
#[verifier::external_body]
pub(crate) fn push_char(s: &mut String, c: char)
    ensures
        final(s)@ == old(s)@.push(c),
{
    s.push(c);
}

/// Appends a string slice to a string.
pub fn push_str(s: &mut String, t: &str)
    ensures
        final(s)@ == old(s)@ + t@,
{
    s.append(t);
}

/// Appends a sequence of characters to a string.
pub fn push_chars(s: &mut String, t: &[char])
    ensures
        final(s)@ == old(s)@ + t@,
{
    let ghost start = s@;
    let mut i: usize = 0;
    while i < t.len()
        invariant
            i <= t@.len(),
            s@ == start + t@.take(i as int),
        decreases t@.len() - i,
    {
        push_char(s, t[i]);
        i = i + 1;
        assert(t@.take(i as int) == t@.take(i - 1).push(t@[i - 1]));
    }
    assert(t@.take(t@.len() as int) == t@);
}

/// A string holding the given characters.
pub fn string_of(t: &[char]) -> (r: String)
    ensures
        r@ == t@,
{
    let mut r = String::new();
    push_chars(&mut r, t);
    r
}

/// The characters of a string slice, in order.
pub fn chars_of(s: &str) -> (v: Vec<char>)
    ensures
        v@ == s@,
{
    let mut v: Vec<char> = Vec::new();
    for c in it: s.chars()
        invariant
            v@ == it.seq().take(it.index() as int),
            it.seq() == s@,
    {
        v.push(c);
    }
    v
}

/// Whether two character sequences are equal.
pub fn chars_eq(a: &[char], b: &[char]) -> (r: bool)
    ensures
        r == (a@ == b@),
{
    if a.len() != b.len() {
        return false;
    }
    let mut i: usize = 0;
    while i < a.len()
        invariant
            a@.len() == b@.len(),
            i <= a@.len(),
            forall|j: int| 0 <= j < i ==> a@[j] == b@[j],
        decreases a@.len() - i,
    {
        if a[i] != b[i] {
            return false;
        }
        i = i + 1;
    }
    assert(a@ =~= b@);
    true
}

/// Whether two string slices hold the same characters.
pub fn str_eq(a: &str, b: &str) -> (r: bool)
    ensures
        r == (a@ == b@),
{
    let x = chars_of(a);
    let y = chars_of(b);
    chars_eq(x.as_slice(), y.as_slice())
}

/// Whether `t` occurs in `s` starting at position `at`.
pub open spec fn occurs_at(s: Seq<char>, t: Seq<char>, at: int) -> bool {
    0 <= at && at + t.len() <= s.len() && s.subrange(at, at + t.len()) == t
}

/// Whether `s` begins with `t`.
pub open spec fn starts_with(s: Seq<char>, t: Seq<char>) -> bool {
    occurs_at(s, t, 0)
}

/// Whether `t` occurs in `s` at position `at`, computed.
pub fn occurs_at_exec(s: &[char], t: &[char], at: usize) -> (r: bool)
    ensures
        r == occurs_at(s@, t@, at as int),
{
    if at > s.len() || t.len() > s.len() - at {
        return false;
    }
    let mut i: usize = 0;
    while i < t.len()
        invariant
            at + t@.len() <= s@.len(),
            at + t.len() <= s.len(),
            i <= t@.len(),
            forall|j: int| 0 <= j < i ==> s@[at + j] == t@[j],
        decreases t@.len() - i,
    {
        if s[at + i] != t[i] {
            assert(s@.subrange(at as int, at + t@.len())[i as int] != t@[i as int]);
            return false;
        }
        i = i + 1;
    }
    assert(s@.subrange(at as int, at + t@.len()) =~= t@);
    true
}

/// The first position at or after `from` where `t` occurs in `s`.
pub open spec fn first_occurrence_from(s: Seq<char>, t: Seq<char>, from: int) -> Option<int>
    decreases s.len() + 1 - from,
{
    if from < 0 || from + t.len() > s.len() {
        None
    } else if occurs_at(s, t, from) {
        Some(from)
    } else {
        first_occurrence_from(s, t, from + 1)
    }
}

/// Finds `t` in `s` starting the search at `from` (as `str::find` on the tail).
pub fn find_from(s: &[char], t: &[char], from: usize) -> (r: Option<usize>)
    ensures
        r matches Some(i) ==> first_occurrence_from(s@, t@, from as int) == Some(i as int),
        r is None ==> first_occurrence_from(s@, t@, from as int) is None,
    decreases s@.len() + 1 - from,
{
    if from > s.len() || t.len() > s.len() - from {
        return None;
    }
    if occurs_at_exec(s, t, from) {
        return Some(from);
    }
    if from >= s.len() {
        assert(t@.len() > 0) by {
            if t@.len() == 0 {
                assert(s@.subrange(from as int, from as int) =~= t@);
            }
        }
        return None;
    }
    find_from(s, t, from + 1)
}

/// The last position at or before `upto` where `t` occurs in `s`.
pub open spec fn last_occurrence_upto(s: Seq<char>, t: Seq<char>, upto: int) -> Option<int>
    decreases upto + 1,
{
    if upto < 0 {
        None
    } else if occurs_at(s, t, upto) {
        Some(upto)
    } else {
        last_occurrence_upto(s, t, upto - 1)
    }
}

/// The first position of the character `c` in `s`, if any.
pub open spec fn index_of(s: Seq<char>, c: char) -> Option<int> {
    first_occurrence_from(s, seq![c], 0)
}

/// The last position of the character `c` in `s`, if any.
pub open spec fn last_index_of(s: Seq<char>, c: char) -> Option<int> {
    last_occurrence_upto(s, seq![c], s.len() - 1)
}

/// Finds the first occurrence of `c` in `s`.
pub fn find_char(s: &[char], c: char) -> (r: Option<usize>)
    ensures
        r matches Some(i) ==> index_of(s@, c) == Some(i as int),
        r is None ==> index_of(s@, c) is None,
{
    let t = [c];
    assert(t@ =~= seq![c]);
    find_from(s, &t, 0)
}

/// Finds the last occurrence of `c` in `s`.
pub fn rfind_char(s: &[char], c: char) -> (r: Option<usize>)
    ensures
        r matches Some(i) ==> last_index_of(s@, c) == Some(i as int),
        r is None ==> last_index_of(s@, c) is None,
{
    let t = [c];
    assert(t@ =~= seq![c]);
    let mut i: usize = s.len();
    while i > 0
        invariant
            i <= s@.len(),
            t@ == seq![c],
            last_occurrence_upto(s@, t@, s@.len() - 1) == last_occurrence_upto(s@, t@, i - 1),
        decreases i,
    {
        if s[i - 1] == c {
            assert(s@.subrange(i - 1, i as int) =~= t@);
            return Some(i - 1);
        }
        assert(!occurs_at(s@, t@, i - 1)) by {
            if occurs_at(s@, t@, i - 1) {
                assert(s@.subrange(i - 1, i as int)[0] == t@[0]);
            }
        }
        i = i - 1;
    }
    None
}

// ---------------------------------------------------------------------------
// Decimal numbers
// ---------------------------------------------------------------------------

/// The decimal digit character for `d < 10`.
pub open spec fn digit_char(d: nat) -> char {
    (d + 48) as char
}

/// Whether `c` is an ASCII decimal digit.
pub open spec fn is_digit(c: char) -> bool {
    '0' <= c && c <= '9'
}

/// The numeric value of a decimal digit character.
pub open spec fn digit_value(c: char) -> nat {
    (c as int - 48) as nat
}

/// The decimal rendering of `n`, without leading zeros.
pub open spec fn decimal(n: nat) -> Seq<char>
    decreases n,
{
    if n < 10 {
        seq![digit_char(n)]
    } else {
        decimal(n / 10).push(digit_char(n % 10))
    }
}

/// The decimal rendering of an integer, with a leading `-` when negative.
pub open spec fn signed_decimal(n: int) -> Seq<char> {
    if n < 0 {
        seq!['-'] + decimal((-n) as nat)
    } else {
        decimal(n as nat)
    }
}

/// Appends the decimal rendering of `n`.
pub fn push_decimal(s: &mut String, n: u64)
    ensures
        final(s)@ == old(s)@ + decimal(n as nat),
    decreases n,
{
    if n >= 10 {
        push_decimal(s, n / 10);
    }
    let d: u8 = (n % 10) as u8;
    let c: char = (d + 48u8) as char;
    assert(c == digit_char((n % 10) as nat));
    push_char(s, c);
}

/// The decimal rendering of `n` (`n.to_string()`).
pub fn decimal_string(n: u64) -> (r: String)
    ensures
        r@ == decimal(n as nat),
{
    let mut r = String::new();
    push_decimal(&mut r, n);
    r
}

/// The decimal rendering of a signed `n` (`n.to_string()`).
pub fn signed_decimal_string(n: i64) -> (r: String)
    ensures
        r@ == signed_decimal(n as int),
{
    let mut r = String::new();
    if n < 0 {
        push_char(&mut r, '-');
        let m: u64 = if n == i64::MIN { 9223372036854775808u64 } else { (-n) as u64 };
        push_decimal(&mut r, m);
    } else {
        push_decimal(&mut r, n as u64);
    }
    r
}

/// Whether every character of `s` is an ASCII digit.
pub open spec fn all_digits(s: Seq<char>) -> bool {
    forall|i: int| 0 <= i < s.len() ==> is_digit(#[trigger] s[i])
}

/// The value of a string of decimal digits (leading zeros allowed).
pub open spec fn digits_value(s: Seq<char>) -> nat
    decreases s.len(),
{
    if s.len() == 0 {
        0
    } else {
        digits_value(s.drop_last()) * 10 + digit_value(s.last())
    }
}

/// A longer prefix of digits never has a smaller value.
pub proof fn lemma_digits_value_prefix_mono(s: Seq<char>, i: int, j: int)
    requires
        0 <= i <= j <= s.len(),
    ensures
        digits_value(s.take(i)) <= digits_value(s.take(j)),
    decreases j - i,
{
    if i < j {
        lemma_digits_value_prefix_mono(s, i, j - 1);
        assert(s.take(j).drop_last() =~= s.take(j - 1));
    }
}

/// What `str::parse::<u64>` gives on a string made only of digits: its value when it
/// fits, none on overflow or on an empty string.
pub open spec fn parse_unsigned(s: Seq<char>, max: nat) -> Option<nat> {
    if s.len() > 0 && all_digits(s) && digits_value(s) <= max {
        Some(digits_value(s))
    } else {
        None
    }
}

/// Reads the value of a run of digits, failing when it exceeds `max`.
pub fn parse_digits(s: &[char], max: u64) -> (r: Option<u64>)
    requires
        all_digits(s@),
    ensures
        r matches Some(v) ==> s@.len() > 0 && digits_value(s@) == v && v <= max,
        r is None ==> s@.len() == 0 || digits_value(s@) > max,
{
    if s.len() == 0 {
        return None;
    }
    let mut v: u64 = 0;
    let mut i: usize = 0;
    while i < s.len()
        invariant
            all_digits(s@),
            i <= s@.len(),
            v == digits_value(s@.take(i as int)),
            v <= max,
        decreases s@.len() - i,
    {
        assert(s@.take(i + 1).drop_last() =~= s@.take(i as int));
        let d: u64 = (s[i] as u32 - 48) as u64;
        assert(is_digit(s@[i as int]));
        if d > max {
            proof {
                lemma_digits_value_prefix_mono(s@, i + 1, s@.len() as int);
                assert(s@.take(s@.len() as int) =~= s@);
            }
            return None;
        }
        if v > (max - d) / 10 {
            proof {
                assert(digits_value(s@.take(i + 1)) == v * 10 + d);
                assert(v * 10 + d > max) by (nonlinear_arith)
                    requires v > (max - d) / 10, d <= max;
                lemma_digits_value_prefix_mono(s@, i + 1, s@.len() as int);
                assert(s@.take(s@.len() as int) =~= s@);
            }
            return None;
        }
        assert(v * 10 + d <= max) by (nonlinear_arith)
            requires v <= (max - d) / 10, d <= max;
        v = v * 10 + d;
        i = i + 1;
    }
    assert(s@.take(s@.len() as int) =~= s@);
    Some(v)
}

} // verus!

verus! {

// ---------------------------------------------------------------------------
// Character classes and case
// ---------------------------------------------------------------------------
//
// ASCII characters are classified and lowercased here; beyond ASCII the standard
// library's Unicode rules decide, named below.

/// The lowercase form of a string, as `str::to_lowercase` computes it (Unicode rules).
pub uninterp spec fn unicode_lowercase(s: Seq<char>) -> Seq<char>;

/// Whether a character is alphabetic, as `char::is_alphabetic` decides (Unicode `Alphabetic`).
pub uninterp spec fn unicode_alphabetic(c: char) -> bool;

/// Whether a character is alphanumeric, as `char::is_alphanumeric` decides.
pub uninterp spec fn unicode_alphanumeric(c: char) -> bool;

/// Whether a character is white space, as `char::is_whitespace` decides (Unicode `White_Space`).
pub uninterp spec fn unicode_whitespace(c: char) -> bool;

/// Whether a character is ASCII.
pub open spec fn is_ascii_char(c: char) -> bool {
    (c as u32) < 128
}

/// Whether a character is an ASCII letter.
pub open spec fn ascii_letter(c: char) -> bool {
    (65 <= (c as u32) <= 90) || (97 <= (c as u32) <= 122)
}

/// Whether a character is an ASCII digit.
pub open spec fn ascii_digit(c: char) -> bool {
    48 <= (c as u32) <= 57
}

/// Whether a character is alphabetic: an ASCII letter, or beyond ASCII what
/// `char::is_alphabetic` decides.
pub open spec fn alphabetic(c: char) -> bool {
    if is_ascii_char(c) {
        ascii_letter(c)
    } else {
        unicode_alphabetic(c)
    }
}

/// Whether a character is alphanumeric: an ASCII letter or digit, or beyond ASCII what
/// `char::is_alphanumeric` decides.
pub open spec fn alphanumeric(c: char) -> bool {
    if is_ascii_char(c) {
        ascii_letter(c) || ascii_digit(c)
    } else {
        unicode_alphanumeric(c)
    }
}

/// Whether a character is white space: an ASCII space, tab, line feed, vertical tab,
/// form feed or carriage return, or beyond ASCII what `char::is_whitespace` decides.
pub open spec fn whitespace(c: char) -> bool {
    if is_ascii_char(c) {
        (c as u32) == 32 || (9 <= (c as u32) <= 13)
    } else {
        unicode_whitespace(c)
    }
}

/// The lowercase form of a string: an ASCII string with its capital letters lowered,
/// or, when it holds a character beyond ASCII, what `str::to_lowercase` gives.
pub open spec fn lowercase(s: Seq<char>) -> Seq<char> {
    if forall|i: int| 0 <= i < s.len() ==> is_ascii_char(#[trigger] s[i]) {
        s.map_values(|c: char| ascii_lower(c))
    } else {
        unicode_lowercase(s)
    }
}

/// `str::to_lowercase`, for a string holding a character beyond ASCII.
#[verifier::external_body]
fn std_to_lowercase(s: &str) -> (r: String)
    ensures
        r@ == unicode_lowercase(s@),
{
    s.to_lowercase()
}

/// `char::is_alphabetic`, for a character beyond ASCII.
#[verifier::external_body]
fn std_is_alphabetic(c: char) -> (r: bool)
    ensures
        r == unicode_alphabetic(c),
{
    c.is_alphabetic()
}

/// `char::is_alphanumeric`, for a character beyond ASCII.
#[verifier::external_body]
fn std_is_alphanumeric(c: char) -> (r: bool)
    ensures
        r == unicode_alphanumeric(c),
{
    c.is_alphanumeric()
}

/// `char::is_whitespace`, for a character beyond ASCII.
#[verifier::external_body]
fn std_is_whitespace(c: char) -> (r: bool)
    ensures
        r == unicode_whitespace(c),
{
    c.is_whitespace()
}

/// The lowercase form of a string.
pub(crate) fn to_lowercase(s: &str) -> (r: String)
    ensures
        r@ == lowercase(s@),
{
    let cs = chars_of(s);
    let mut i: usize = 0;
    while i < cs.len()
        invariant
            i <= cs@.len(),
            cs@ == s@,
            forall|j: int| 0 <= j < i ==> is_ascii_char(#[trigger] cs@[j]),
        decreases cs@.len() - i,
    {
        if (cs[i] as u32) >= 128 {
            return std_to_lowercase(s);
        }
        i = i + 1;
    }
    let mut out: Vec<char> = Vec::new();
    let mut k: usize = 0;
    while k < cs.len()
        invariant
            k <= cs@.len(),
            cs@ == s@,
            out@ == cs@.take(k as int).map_values(|c: char| ascii_lower(c)),
        decreases cs@.len() - k,
    {
        let c = cs[k];
        let u = c as u32;
        let l: char = if 65 <= u && u <= 90 {
            ((u + 32) as u8) as char
        } else {
            c
        };
        assert(l == ascii_lower(c));
        out.push(l);
        k = k + 1;
        assert(out@ =~= cs@.take(k as int).map_values(|c: char| ascii_lower(c)));
    }
    assert(cs@.take(cs@.len() as int) =~= cs@);
    string_of(out.as_slice())
}

/// Whether a character is alphabetic.
pub(crate) fn is_alphabetic(c: char) -> (r: bool)
    ensures
        r == alphabetic(c),
{
    let u = c as u32;
    if u < 128 {
        (65 <= u && u <= 90) || (97 <= u && u <= 122)
    } else {
        std_is_alphabetic(c)
    }
}

/// Whether a character is alphanumeric.
pub(crate) fn is_alphanumeric(c: char) -> (r: bool)
    ensures
        r == alphanumeric(c),
{
    let u = c as u32;
    if u < 128 {
        (65 <= u && u <= 90) || (97 <= u && u <= 122) || (48 <= u && u <= 57)
    } else {
        std_is_alphanumeric(c)
    }
}

/// Whether a character is white space.
pub(crate) fn is_whitespace(c: char) -> (r: bool)
    ensures
        r == whitespace(c),
{
    let u = c as u32;
    if u < 128 {
        u == 32 || (9 <= u && u <= 13)
    } else {
        std_is_whitespace(c)
    }
}

// ---------------------------------------------------------------------------
// Trimming white space
// ---------------------------------------------------------------------------

/// The number of white-space characters at the start of `s`.
pub open spec fn leading_ws(s: Seq<char>) -> nat
    decreases s.len(),
{
    if s.len() > 0 && whitespace(s[0]) {
        1 + leading_ws(s.drop_first())
    } else {
        0
    }
}

/// The number of white-space characters at the end of `s`.
pub open spec fn trailing_ws(s: Seq<char>) -> nat
    decreases s.len(),
{
    if s.len() > 0 && whitespace(s.last()) {
        1 + trailing_ws(s.drop_last())
    } else {
        0
    }
}

/// `str::trim_start`: `s` without its leading white space.
pub open spec fn trim_start(s: Seq<char>) -> Seq<char> {
    s.skip(leading_ws(s) as int)
}

/// `str::trim_end`: `s` without its trailing white space.
pub open spec fn trim_end(s: Seq<char>) -> Seq<char> {
    s.take(s.len() - trailing_ws(s))
}

/// `str::trim`: `s` without white space at either end.
pub open spec fn trim(s: Seq<char>) -> Seq<char> {
    trim_end(trim_start(s))
}

/// Leading white space never runs past the end.
pub proof fn lemma_leading_ws_bound(s: Seq<char>)
    ensures
        leading_ws(s) <= s.len(),
    decreases s.len(),
{
    if s.len() > 0 && whitespace(s[0]) {
        lemma_leading_ws_bound(s.drop_first());
    }
}

/// Trailing white space never runs past the start.
pub proof fn lemma_trailing_ws_bound(s: Seq<char>)
    ensures
        trailing_ws(s) <= s.len(),
    decreases s.len(),
{
    if s.len() > 0 && whitespace(s.last()) {
        lemma_trailing_ws_bound(s.drop_last());
    }
}

/// `s` without its leading white space, computed.
pub fn trim_start_chars(s: &[char]) -> (r: Vec<char>)
    ensures
        r@ == trim_start(s@),
{
    let mut i: usize = 0;
    assert(s@.skip(0) =~= s@);
    while i < s.len() && is_whitespace(s[i])
        invariant
            i <= s@.len(),
            leading_ws(s@) == i + leading_ws(s@.skip(i as int)),
        decreases s@.len() - i,
    {
        assert(s@.skip(i as int).drop_first() =~= s@.skip(i + 1));
        i = i + 1;
    }
    tail_of(s, i)
}

/// `s` without its trailing white space, computed.
pub fn trim_end_chars(s: &[char]) -> (r: Vec<char>)
    ensures
        r@ == trim_end(s@),
{
    let mut j: usize = s.len();
    assert(s@.take(s@.len() as int) =~= s@);
    while j > 0 && is_whitespace(s[j - 1])
        invariant
            j <= s@.len(),
            trailing_ws(s@) == (s@.len() - j) + trailing_ws(s@.take(j as int)),
        decreases j,
    {
        assert(s@.take(j as int).drop_last() =~= s@.take(j - 1));
        j = j - 1;
    }
    let mut r: Vec<char> = Vec::new();
    let mut k: usize = 0;
    while k < j
        invariant
            k <= j <= s@.len(),
            r@ == s@.take(k as int),
        decreases j - k,
    {
        r.push(s[k]);
        k = k + 1;
        assert(r@ =~= s@.take(k as int));
    }
    r
}

/// `s` without white space at either end, computed.
pub fn trim_chars(s: &[char]) -> (r: Vec<char>)
    ensures
        r@ == trim(s@),
{
    let t = trim_start_chars(s);
    trim_end_chars(t.as_slice())
}

/// `str::trim`, on a string.
pub fn trim_str(s: &str) -> (r: String)
    ensures
        r@ == trim(s@),
{
    let cs = chars_of(s);
    let t = trim_chars(cs.as_slice());
    string_of(t.as_slice())
}

// ---------------------------------------------------------------------------
// Joining
// ---------------------------------------------------------------------------

/// The pieces joined with `sep` between each two.
pub open spec fn join(pieces: Seq<Seq<char>>, sep: Seq<char>) -> Seq<char>
    decreases pieces.len(),
{
    if pieces.len() == 0 {
        Seq::empty()
    } else if pieces.len() == 1 {
        pieces[0]
    } else {
        join(pieces.drop_last(), sep) + sep + pieces.last()
    }
}

/// The characters of each string.
pub open spec fn views(v: Seq<String>) -> Seq<Seq<char>> {
    v.map_values(|s: String| s@)
}

/// Joins strings with a separator (`slice::join`).
pub fn join_strings(pieces: &Vec<String>, sep: &str) -> (r: String)
    ensures
        r@ == join(views(pieces@), sep@),
{
    let mut r = String::new();
    let mut i: usize = 0;
    while i < pieces.len()
        invariant
            i <= pieces@.len(),
            r@ == join(views(pieces@).take(i as int), sep@),
        decreases pieces@.len() - i,
    {
        assert(views(pieces@).take(i + 1).drop_last() =~= views(pieces@).take(i as int));
        if i > 0 {
            push_str(&mut r, sep);
        } else {
            assert(views(pieces@).take(0) =~= Seq::<Seq<char>>::empty());
        }
        push_str(&mut r, pieces[i].as_str());
        i = i + 1;
    }
    assert(views(pieces@).take(pieces@.len() as int) =~= views(pieces@));
    r
}

} // verus!

verus! {

// ---------------------------------------------------------------------------
// Reading numbers as the standard library's `FromStr` does
// ---------------------------------------------------------------------------

/// `str::parse::<i64>`: an optional `+` or `-`, then one or more digits, within range.
pub open spec fn parse_i64(s: Seq<char>) -> Option<i64> {
    if s.len() > 0 && s[0] == '-' {
        match parse_unsigned(s.drop_first(), 9223372036854775808) {
            Some(v) => Some((-v) as i64),
            None => None,
        }
    } else if s.len() > 0 && s[0] == '+' {
        match parse_unsigned(s.drop_first(), 9223372036854775807) {
            Some(v) => Some(v as i64),
            None => None,
        }
    } else {
        match parse_unsigned(s, 9223372036854775807) {
            Some(v) => Some(v as i64),
            None => None,
        }
    }
}

/// Whether every character from `from` on is a digit, computed.
pub fn digits_from(s: &[char], from: usize) -> (r: bool)
    requires
        from <= s@.len(),
    ensures
        r == all_digits(s@.skip(from as int)),
{
    let mut i = from;
    while i < s.len()
        invariant
            from <= i <= s@.len(),
            forall|j: int| from <= j < i ==> is_digit(s@[j]),
        decreases s@.len() - i,
    {
        if !('0' <= s[i] && s[i] <= '9') {
            assert(!is_digit(s@.skip(from as int)[i - from]));
            return false;
        }
        i = i + 1;
    }
    assert forall|j: int| 0 <= j < s@.skip(from as int).len() implies is_digit(
        #[trigger] s@.skip(from as int)[j],
    ) by {
        assert(s@.skip(from as int)[j] == s@[from + j]);
    }
    true
}

/// `str::parse::<i64>`, computed.
pub fn parse_i64_exec(s: &[char]) -> (r: Option<i64>)
    ensures
        r == parse_i64(s@),
{
    if s.len() > 0 && (s[0] == '-' || s[0] == '+') {
        if !digits_from(s, 1) {
            return None;
        }
        assert(s@.skip(1) =~= s@.drop_first());
        let rest_v = tail_of(s, 1);
        let rest = rest_v.as_slice();
        if s[0] == '-' {
            match parse_digits(rest, 9223372036854775808u64) {
                Some(v) => {
                    let r: i64 = if v == 9223372036854775808u64 { i64::MIN } else { -(v as i64) };
                    Some(r)
                },
                None => None,
            }
        } else {
            match parse_digits(rest, 9223372036854775807u64) {
                Some(v) => Some(v as i64),
                None => None,
            }
        }
    } else {
        if !digits_from(s, 0) {
            return None;
        }
        assert(s@.skip(0) =~= s@);
        match parse_digits(s, 9223372036854775807u64) {
            Some(v) => Some(v as i64),
            None => None,
        }
    }
}

/// The characters of `s` from position `from` up to `to`, as a string.
pub fn substring(s: &[char], from: usize, to: usize) -> (r: String)
    requires
        from <= to <= s@.len(),
    ensures
        r@ == s@.subrange(from as int, to as int),
{
    let mut r = String::new();
    let mut i = from;
    while i < to
        invariant
            from <= i <= to <= s@.len(),
            r@ == s@.subrange(from as int, i as int),
        decreases to - i,
    {
        push_char(&mut r, s[i]);
        i = i + 1;
        assert(r@ =~= s@.subrange(from as int, i as int));
    }
    r
}

/// The characters of `s` from position `n` on.
pub fn tail_of(s: &[char], n: usize) -> (r: Vec<char>)
    requires
        n <= s@.len(),
    ensures
        r@ == s@.skip(n as int),
{
    let mut r: Vec<char> = Vec::new();
    let mut i = n;
    while i < s.len()
        invariant
            n <= i <= s@.len(),
            r@ == s@.subrange(n as int, i as int),
        decreases s@.len() - i,
    {
        r.push(s[i]);
        i = i + 1;
        assert(r@ =~= s@.subrange(n as int, i as int));
    }
    assert(r@ =~= s@.skip(n as int));
    r
}

/// `c` in ASCII lowercase.
pub open spec fn ascii_lower(c: char) -> char {
    if 'A' <= c && c <= 'Z' {
        ((c as int) + 32) as char
    } else {
        c
    }
}

/// Whether `s` equals the lowercase word `w` ignoring ASCII case.
pub open spec fn equals_ignoring_case(s: Seq<char>, w: Seq<char>) -> bool {
    s.len() == w.len() && forall|i: int| 0 <= i < s.len() ==> ascii_lower(#[trigger] s[i]) == w[i]
}

/// The number of consecutive digits in `s` from position `i` on.
pub open spec fn digit_run(s: Seq<char>, i: int) -> nat
    decreases s.len() - i,
{
    if 0 <= i < s.len() && is_digit(s[i]) {
        1 + digit_run(s, i + 1)
    } else {
        0
    }
}

/// An exponent: `e` or `E`, an optional sign, then one or more digits up to the end.
pub open spec fn float_exponent(s: Seq<char>) -> bool {
    let d = if s.len() > 1 && (s[1] == '+' || s[1] == '-') { 2int } else { 1int };
    s.len() > d && (s[0] == 'e' || s[0] == 'E') && d + digit_run(s, d) == s.len()
}

/// A float number without its sign: digits, optionally a point and more digits (with a
/// digit on at least one side), then an optional exponent.
pub open spec fn float_number(s: Seq<char>) -> bool {
    let a: int = digit_run(s, 0) as int;
    let point = a < s.len() && s[a] == '.';
    let b: int = if point { digit_run(s, a + 1) as int } else { 0 };
    let end: int = if point { a + 1 + b } else { a };
    (a > 0 || b > 0) && (end == s.len() || float_exponent(s.skip(end)))
}

/// The text that `str::parse::<f64>` accepts, per its documented grammar: an optional
/// sign, then `inf`, `infinity` or `nan` in any case, or a number.
pub open spec fn float_syntax(s: Seq<char>) -> bool {
    let body = if s.len() > 0 && (s[0] == '+' || s[0] == '-') { s.drop_first() } else { s };
    ||| equals_ignoring_case(body, "inf"@)
    ||| equals_ignoring_case(body, "infinity"@)
    ||| equals_ignoring_case(body, "nan"@)
    ||| float_number(body)
}

/// The number of consecutive digits from position `i` on, computed.
pub fn digit_run_exec(s: &[char], i: usize) -> (r: usize)
    requires
        i <= s@.len(),
    ensures
        r == digit_run(s@, i as int),
        i + r <= s@.len(),
    decreases s@.len() - i,
{
    if i < s.len() && '0' <= s[i] && s[i] <= '9' {
        1 + digit_run_exec(s, i + 1)
    } else {
        0
    }
}

/// Whether `c` equals the lowercase letter `w` ignoring ASCII case.
fn char_matches_lower(c: char, w: char) -> (r: bool)
    ensures
        r == (ascii_lower(c) == w),
{
    if 'A' <= c && c <= 'Z' {
        ((c as u32) + 32) == (w as u32)
    } else {
        c == w
    }
}

/// Whether `s` from position `from` on equals the lowercase word `w` ignoring ASCII case.
pub fn tail_equals_ignoring_case(s: &[char], from: usize, w: &[char]) -> (r: bool)
    requires
        from <= s@.len(),
    ensures
        r == equals_ignoring_case(s@.skip(from as int), w@),
{
    if s.len() - from != w.len() {
        return false;
    }
    let mut i: usize = 0;
    while i < w.len()
        invariant
            from <= s@.len(),
            s@.len() - from == w@.len(),
            from + w.len() == s.len(),
            i <= w@.len(),
            forall|j: int| 0 <= j < i ==> ascii_lower(#[trigger] s@.skip(from as int)[j]) == w@[j],
        decreases w@.len() - i,
    {
        if !char_matches_lower(s[from + i], w[i]) {
            assert(s@.skip(from as int)[i as int] == s@[from + i]);
            return false;
        }
        assert(s@.skip(from as int)[i as int] == s@[from + i]);
        i = i + 1;
    }
    true
}

/// Whether `str::parse::<f64>` accepts `s`, computed.
pub fn is_float_syntax(s: &[char]) -> (r: bool)
    ensures
        r == float_syntax(s@),
{
    let start: usize = if s.len() > 0 && (s[0] == '+' || s[0] == '-') { 1 } else { 0 };
    let ghost body = s@.skip(start as int);
    assert(start == 0 ==> body =~= s@);
    assert(start == 1 ==> body =~= s@.drop_first());
    let inf = ['i', 'n', 'f'];
    let infinity = ['i', 'n', 'f', 'i', 'n', 'i', 't', 'y'];
    let nan = ['n', 'a', 'n'];
    proof {
        reveal_strlit("inf");
        reveal_strlit("infinity");
        reveal_strlit("nan");
        assert(inf@ =~= "inf"@);
        assert(infinity@ =~= "infinity"@);
        assert(nan@ =~= "nan"@);
    }
    if tail_equals_ignoring_case(s, start, &inf) || tail_equals_ignoring_case(s, start, &infinity)
        || tail_equals_ignoring_case(s, start, &nan) {
        return true;
    }
    let v = tail_of(s, start);
    let t = v.as_slice();
    proof {
        lemma_digit_run_shift(s@, start as int, 0);
    }
    let a = digit_run_exec(t, 0);
    let point = a < t.len() && t[a] == '.';
    let b: usize = if point { digit_run_exec(t, a + 1) } else { 0 };
    let end: usize = if point { a + 1 + b } else { a };
    if !(a > 0 || b > 0) {
        return false;
    }
    if end == t.len() {
        return true;
    }
    let e = tail_of(t, end);
    let x = e.as_slice();
    let d: usize = if x.len() > 1 && (x[1] == '+' || x[1] == '-') { 2 } else { 1 };
    if !(x.len() > d && (x[0] == 'e' || x[0] == 'E')) {
        return false;
    }
    d + digit_run_exec(x, d) == x.len()
}

/// Digit runs read the same in a tail as in the whole.
proof fn lemma_digit_run_shift(s: Seq<char>, k: int, i: int)
    requires
        0 <= k <= s.len(),
        0 <= i,
    ensures
        digit_run(s.skip(k), i) == digit_run(s, k + i),
    decreases s.len() - k - i,
{
    if k + i < s.len() {
        lemma_digit_run_shift(s, k, i + 1);
    }
}

} // verus!

verus! {

/// `a`, then `b`, then `c`.
pub fn glue3(a: &str, b: &str, c: &str) -> (r: String)
    ensures
        r@ == a@ + b@ + c@,
{
    let mut r = String::new();
    push_str(&mut r, a);
    push_str(&mut r, b);
    push_str(&mut r, c);
    r
}

} // verus!
