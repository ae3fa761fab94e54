//! Which JavaScript runtime evaluates the config file.
//!
//! The runtimes are tried in a fixed order, the first one found on the `PATH` winning. A
//! config file may name its runtime on its first line (`runtime: "deno"`); that one is then
//! tried first.

use vstd::prelude::*;
use crate::text::{
    alphanumeric, chars_of, is_alphanumeric, lemma_leading_ws_bound, starts_with, string_of, tail_of,
    trim, trim_chars, trim_start, trim_start_chars,
};

verus! {

/// The number of known runtimes.
pub const RUNTIME_COUNT: usize = 3;

/// The command of runtime `k` (in the order they are tried).
pub open spec fn runtime_name(k: int) -> Seq<char> {
    if k == 0 {
        "node"@
    } else if k == 1 {
        "deno"@
    } else {
        "bun"@
    }
}

/// The command of runtime `k`.
pub fn runtime_bin(k: usize) -> (r: &'static str)
    requires
        k < RUNTIME_COUNT,
    ensures
        r@ == runtime_name(k as int),
{
    if k == 0 {
        "node"
    } else if k == 1 {
        "deno"
    } else {
        "bun"
    }
}

/// The arguments runtime `k` is started with, so that it reads a module from its input.
pub fn runtime_args(k: usize) -> (r: Vec<&'static str>)
    requires
        k < RUNTIME_COUNT,
    ensures
        k == 0 ==> r@.len() == 1 && r@[0]@ == "--input-type=module"@,
        k == 1 ==> r@.len() == 4 && r@[0]@ == "run"@ && r@[1]@ == "--allow-read"@ && r@[2]@
            == "--allow-env"@ && r@[3]@ == "-"@,
        k == 2 ==> r@.len() == 2 && r@[0]@ == "run"@ && r@[1]@ == "-"@,
{
    if k == 0 {
        vec!["--input-type=module"]
    } else if k == 1 {
        vec!["run", "--allow-read", "--allow-env", "-"]
    } else {
        vec!["run", "-"]
    }
}

/// The runtime a name stands for, if it is one of the known commands.
pub open spec fn known_runtime(name: Seq<char>) -> Option<int> {
    if name == runtime_name(0) {
        Some(0)
    } else if name == runtime_name(1) {
        Some(1)
    } else if name == runtime_name(2) {
        Some(2)
    } else {
        None
    }
}

/// The order in which the runtimes are probed: the preferred one first when it is known,
/// then all of them in their fixed order.
pub open spec fn probe_order(preferred: Option<Seq<char>>) -> Seq<usize> {
    match preferred {
        Some(name) => match known_runtime(name) {
            Some(k) => seq![k as usize, 0usize, 1usize, 2usize],
            None => seq![0usize, 1usize, 2usize],
        },
        None => seq![0usize, 1usize, 2usize],
    }
}

/// The runtimes to probe, in order; the first one found on the `PATH` is used.
pub fn runtime_probe_order(preferred: Option<&str>) -> (r: Vec<usize>)
    ensures
        r@ == probe_order(
            match preferred {
                Some(p) => Some(p@),
                None => None,
            },
        ),
        forall|i: int| 0 <= i < r@.len() ==> #[trigger] r@[i] < RUNTIME_COUNT,
{
    let mut order: Vec<usize> = Vec::new();
    match preferred {
        Some(name) => {
            if crate::text::str_eq(name, "node") {
                order.push(0);
            } else if crate::text::str_eq(name, "deno") {
                order.push(1);
            } else if crate::text::str_eq(name, "bun") {
                order.push(2);
            }
        },
        None => {},
    }
    let ghost first = order@;
    order.push(0);
    order.push(1);
    order.push(2);
    assert(order@ =~= first + seq![0usize, 1usize, 2usize]);
    order
}

// ---------------------------------------------------------------------------
// The runtime a config file names
// ---------------------------------------------------------------------------

/// The position of the first line break at or after `i`, or the end.
pub open spec fn line_end(s: Seq<char>, i: int) -> int
    decreases s.len() - i,
{
    if i < 0 || i >= s.len() {
        s.len() as int
    } else if s[i] == '\n' {
        i
    } else {
        line_end(s, i + 1)
    }
}

/// The line starting at `i`, as `str::lines` yields it: without its `\n`, and without
/// the `\r` of a `\r\n` ending.
pub open spec fn line_at(s: Seq<char>, i: int) -> Seq<char> {
    let e = line_end(s, i);
    let raw = s.subrange(i, e);
    if e < s.len() && raw.len() > 0 && raw.last() == '\r' {
        raw.drop_last()
    } else {
        raw
    }
}

/// The number of quote characters (`"` or `'`) at the start of `s`.
pub open spec fn leading_quotes(s: Seq<char>) -> nat
    decreases s.len(),
{
    if s.len() > 0 && (s[0] == '"' || s[0] == '\'') {
        1 + leading_quotes(s.drop_first())
    } else {
        0
    }
}

/// The number of name characters (alphanumeric or `-`) at the start of `s`.
pub open spec fn name_chars(s: Seq<char>) -> nat
    decreases s.len(),
{
    if s.len() > 0 && (alphanumeric(s[0]) || s[0] == '-') {
        1 + name_chars(s.drop_first())
    } else {
        0
    }
}

/// Whether a line is not a `runtime:` line: once trimmed it does not start with
/// `runtime`, or what follows (trimmed at its start) does not start with `:`.
pub open spec fn not_runtime_line(line: Seq<char>) -> bool {
    let t = trim(line);
    !starts_with(t, "runtime"@) || {
        let rest = trim_start(t.skip(7));
        !(rest.len() > 0 && rest[0] == ':')
    }
}

/// The name a `runtime:` line gives: after the `:`, white space and quotes are skipped and
/// the name is the run of alphanumeric characters and `-` that follows (possibly empty).
pub open spec fn line_name(line: Seq<char>) -> Seq<char> {
    let rest = trim_start(trim_start(trim(line).skip(7)).skip(1));
    let unquoted = rest.skip(leading_quotes(rest) as int);
    unquoted.take(name_chars(unquoted) as int)
}

/// The runtime named by the lines of `s` from position `i` on: the name of the first
/// `runtime:` line whose name is not empty; every other line is passed over.
pub open spec fn named_runtime_from(s: Seq<char>, i: int) -> Option<Seq<char>>
    decreases s.len() - i,
{
    if i < 0 || i >= s.len() {
        None
    } else {
        let line = line_at(s, i);
        if !not_runtime_line(line) && line_name(line).len() > 0 {
            Some(line_name(line))
        } else {
            let e = line_end(s, i);
            if i <= e < s.len() {
                named_runtime_from(s, e + 1)
            } else {
                None
            }
        }
    }
}

/// The line break search stays within the text.
pub proof fn lemma_line_end_bounds(s: Seq<char>, i: int)
    requires
        0 <= i <= s.len(),
    ensures
        i <= line_end(s, i) <= s.len(),
        line_end(s, i) < s.len() ==> s[line_end(s, i)] == '\n',
    decreases s.len() - i,
{
    if i < s.len() && s[i] != '\n' {
        lemma_line_end_bounds(s, i + 1);
    }
}

/// The number of leading quote characters, computed.
fn count_leading_quotes(s: &[char]) -> (r: usize)
    ensures
        r == leading_quotes(s@),
        r <= s@.len(),
{
    let mut i: usize = 0;
    assert(s@.skip(0) =~= s@);
    while i < s.len() && (s[i] == '"' || s[i] == '\'')
        invariant
            i <= s@.len(),
            leading_quotes(s@) == i + leading_quotes(s@.skip(i as int)),
        decreases s@.len() - i,
    {
        assert(s@.skip(i as int).drop_first() =~= s@.skip(i + 1));
        i = i + 1;
    }
    i
}

/// The number of leading name characters, computed.
fn count_name_chars(s: &[char]) -> (r: usize)
    ensures
        r == name_chars(s@),
        r <= s@.len(),
{
    let mut i: usize = 0;
    assert(s@.skip(0) =~= s@);
    while i < s.len() && (is_alphanumeric(s[i]) || s[i] == '-')
        invariant
            i <= s@.len(),
            name_chars(s@) == i + name_chars(s@.skip(i as int)),
        decreases s@.len() - i,
    {
        assert(s@.skip(i as int).drop_first() =~= s@.skip(i + 1));
        i = i + 1;
    }
    i
}

/// Reads one line: `None` when it is not a `runtime:` line, else the (possibly empty) name.
fn read_runtime_line(line: &[char]) -> (r: Option<Vec<char>>)
    ensures
        r is None <==> not_runtime_line(line@),
        r matches Some(name) ==> name@ == line_name(line@),
{
    let t = trim_chars(line);
    let keyword = chars_of("runtime");
    proof {
        reveal_strlit("runtime");
    }
    if !crate::text::occurs_at_exec(t.as_slice(), keyword.as_slice(), 0) {
        return None;
    }
    let after = tail_of(t.as_slice(), 7);
    let rest = trim_start_chars(after.as_slice());
    if !(rest.len() > 0 && rest[0] == ':') {
        return None;
    }
    let after_colon = tail_of(rest.as_slice(), 1);
    let value = trim_start_chars(after_colon.as_slice());
    let q = count_leading_quotes(value.as_slice());
    let unquoted = tail_of(value.as_slice(), q);
    let n = count_name_chars(unquoted.as_slice());
    let mut name: Vec<char> = Vec::new();
    let mut k: usize = 0;
    while k < n
        invariant
            k <= n <= unquoted@.len(),
            name@ == unquoted@.take(k as int),
        decreases n - k,
    {
        name.push(unquoted[k]);
        k = k + 1;
        assert(name@ =~= unquoted@.take(k as int));
    }
    Some(name)
}

/// The runtime a config file's text names: the name on its first `runtime:` line that
/// gives one, if any.
pub fn sniff_runtime_pref(text: &str) -> (r: Option<String>)
    ensures
        match r {
            Some(name) => named_runtime_from(text@, 0) == Some(name@),
            None => named_runtime_from(text@, 0) is None,
        },
{
    let s = chars_of(text);
    let mut i: usize = 0;
    while i < s.len()
        invariant
            s@ == text@,
            i <= s@.len(),
            named_runtime_from(s@, 0) == named_runtime_from(s@, i as int),
        decreases s@.len() - i,
    {
        proof {
            lemma_line_end_bounds(s@, i as int);
        }
        let mut e: usize = i;
        while e < s.len() && s[e] != '\n'
            invariant
                i <= e <= s@.len(),
                line_end(s@, i as int) == line_end(s@, e as int),
            decreases s@.len() - e,
        {
            e = e + 1;
        }
        let mut stop = e;
        if e < s.len() && e > i && s[e - 1] == '\r' {
            stop = e - 1;
        }
        let mut line: Vec<char> = Vec::new();
        let mut k: usize = i;
        while k < stop
            invariant
                i <= k <= stop <= s@.len(),
                line@ == s@.subrange(i as int, k as int),
            decreases stop - k,
        {
            line.push(s[k]);
            k = k + 1;
            assert(line@ =~= s@.subrange(i as int, k as int));
        }
        assert(line@ =~= line_at(s@, i as int));
        match read_runtime_line(line.as_slice()) {
            None => {},
            Some(name) => {
                if name.len() > 0 {
                    return Some(string_of(name.as_slice()));
                }
            },
        }
        if e >= s.len() {
            return None;
        }
        i = e + 1;
    }
    None
}

} // verus!
