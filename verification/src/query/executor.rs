//! Turning result rows into JSON: how each column type is read, and how columns named
//! `a__b` nest as `{"a": {"b": ...}}`.

use vstd::prelude::*;
use crate::json::{JsonMember, JsonValue, member_lookup};
use crate::text::{chars_of, find_from, first_occurrence_from, string_of, str_eq, substring, tail_of};

verus! {

/// How a column's value is read, by its PostgreSQL type.
#[derive(Clone, Copy, Debug, PartialEq, Eq, Structural)]
pub enum ColumnKind {
    /// `JSONB` and `JSON`: the JSON value itself.
    Json,
    /// `BOOL`.
    Bool,
    /// `INT2` and `INT4`: a 32-bit integer.
    Int32,
    /// `INT8`: a 64-bit integer.
    Int64,
    /// `FLOAT4`, `FLOAT8` and `NUMERIC`: a float (null when not finite).
    Float,
    /// `UUID`: its hyphenated text.
    Uuid,
    /// `TIMESTAMPTZ` and `TIMESTAMP`: the RFC 3339 text of the UTC time.
    Timestamp,
    /// Anything else: its text.
    Text,
}

/// The kind of a column by its type's name.
pub open spec fn kind_of(pg_type: Seq<char>) -> ColumnKind {
    if pg_type == "JSONB"@ || pg_type == "JSON"@ {
        ColumnKind::Json
    } else if pg_type == "BOOL"@ {
        ColumnKind::Bool
    } else if pg_type == "INT2"@ || pg_type == "INT4"@ {
        ColumnKind::Int32
    } else if pg_type == "INT8"@ {
        ColumnKind::Int64
    } else if pg_type == "FLOAT4"@ || pg_type == "FLOAT8"@ || pg_type == "NUMERIC"@ {
        ColumnKind::Float
    } else if pg_type == "UUID"@ {
        ColumnKind::Uuid
    } else if pg_type == "TIMESTAMPTZ"@ || pg_type == "TIMESTAMP"@ {
        ColumnKind::Timestamp
    } else {
        ColumnKind::Text
    }
}

/// How a column of the named type is read.
pub fn column_kind(pg_type: &str) -> (r: ColumnKind)
    ensures
        r == kind_of(pg_type@),
{
    if str_eq(pg_type, "JSONB") || str_eq(pg_type, "JSON") {
        ColumnKind::Json
    } else if str_eq(pg_type, "BOOL") {
        ColumnKind::Bool
    } else if str_eq(pg_type, "INT2") || str_eq(pg_type, "INT4") {
        ColumnKind::Int32
    } else if str_eq(pg_type, "INT8") {
        ColumnKind::Int64
    } else if str_eq(pg_type, "FLOAT4") || str_eq(pg_type, "FLOAT8") || str_eq(pg_type, "NUMERIC") {
        ColumnKind::Float
    } else if str_eq(pg_type, "UUID") {
        ColumnKind::Uuid
    } else if str_eq(pg_type, "TIMESTAMPTZ") || str_eq(pg_type, "TIMESTAMP") {
        ColumnKind::Timestamp
    } else {
        ColumnKind::Text
    }
}

/// The position of the first member under `key` at or after `i`, if any.
pub open spec fn key_index_from(members: Seq<JsonMember>, key: Seq<char>, i: int) -> Option<int>
    decreases members.len() - i,
{
    if i < 0 || i >= members.len() {
        None
    } else if members[i].key@ == key {
        Some(i)
    } else {
        key_index_from(members, key, i + 1)
    }
}

/// The position of the first member under `key`, if any.
pub open spec fn key_index(members: Seq<JsonMember>, key: Seq<char>) -> Option<int> {
    key_index_from(members, key, 0)
}

/// Where a value under `key` goes: over the first member under that key, or after the
/// last member.
pub open spec fn slot_of(members: Seq<JsonMember>, key: Seq<char>) -> int {
    match key_index(members, key) {
        Some(i) => i,
        None => members.len() as int,
    }
}

/// Whether `new` is `old` with the member at `key`'s slot holding `key` (its value is
/// left to the caller to describe) and every other member as it was.
pub open spec fn placed_at(old: Seq<JsonMember>, key: Seq<char>, new: Seq<JsonMember>) -> bool {
    let slot = slot_of(old, key);
    &&& new.len() == if slot < old.len() { old.len() } else { old.len() + 1 }
    &&& forall|j: int| 0 <= j < old.len() && j != slot ==> #[trigger] new[j] == old[j]
    &&& new[slot].key@ == key
}

/// Whether `new` is the object `old` with `val` stored under the nested `key`: a key
/// `a__b` stores under `b` inside the object under `a` (made empty when `a` is missing;
/// when `a` holds something other than an object, nothing changes); a key without `__`
/// is set directly, replacing what was there.
pub open spec fn nested_inserted(old: Seq<JsonMember>, key: Seq<char>, val: JsonValue, new: Seq<JsonMember>) -> bool
    decreases key.len(),
{
    match first_occurrence_from(key, "__"@, 0) {
        None => placed_at(old, key, new) && new[slot_of(old, key)].value == val,
        Some(k) => if 0 <= k && k + 2 <= key.len() {
            let head = key.take(k);
            let rest = key.skip(k + 2);
            match member_lookup(old, head) {
                None => placed_at(old, head, new) && (new[slot_of(old, head)].value matches JsonValue::Object(c)
                    && nested_inserted(seq![], rest, val, c@)),
                Some(JsonValue::Object(child)) => placed_at(old, head, new) && (new[slot_of(
                    old,
                    head,
                )].value matches JsonValue::Object(c) && nested_inserted(child@, rest, val, c@)),
                Some(_) => new == old,
            }
        } else {
            false
        },
    }
}

/// The first member under a key from `i` on is what lookup finds in the tail from `i`.
pub proof fn lemma_key_index_from(members: Seq<JsonMember>, key: Seq<char>, i: int)
    requires
        0 <= i <= members.len(),
    ensures
        key_index_from(members, key, i) matches Some(k) ==> i <= k < members.len() && members[k].key@ == key
            && member_lookup(members.skip(i), key) == Some(members[k].value),
        key_index_from(members, key, i) is None ==> member_lookup(members.skip(i), key) is None,
    decreases members.len() - i,
{
    if i < members.len() {
        assert(members.skip(i).drop_first() =~= members.skip(i + 1));
        assert(members.skip(i)[0] == members[i]);
        if members[i].key@ != key {
            lemma_key_index_from(members, key, i + 1);
        }
    }
}

/// The first member under a key is what lookup finds.
pub proof fn lemma_key_index(members: Seq<JsonMember>, key: Seq<char>)
    ensures
        key_index(members, key) matches Some(k) ==> 0 <= k < members.len() && members[k].key@ == key
            && member_lookup(members, key) == Some(members[k].value),
        key_index(members, key) is None ==> member_lookup(members, key) is None,
{
    lemma_key_index_from(members, key, 0);
    assert(members.skip(0) =~= members);
}

/// The position of the first member under `key`, computed.
fn find_key(members: &Vec<JsonMember>, key: &str) -> (r: Option<usize>)
    ensures
        match r {
            Some(i) => key_index(members@, key@) == Some(i as int) && i < members@.len(),
            None => key_index(members@, key@) is None,
        },
{
    let mut i: usize = 0;
    while i < members.len()
        invariant
            i <= members@.len(),
            key_index(members@, key@) == key_index_from(members@, key@, i as int),
        decreases members@.len() - i,
    {
        if str_eq(members[i].key.as_str(), key) {
            return Some(i);
        }
        i = i + 1;
    }
    None
}

/// Stores `val` under `key` in place of the member at `key`'s slot.
fn place(members: &mut Vec<JsonMember>, key: &str, val: JsonValue)
    ensures
        placed_at(old(members)@, key@, final(members)@),
        final(members)@[slot_of(old(members)@, key@)].value == val,
{
    let member = JsonMember { key: key.to_string(), value: val };
    match find_key(members, key) {
        Some(i) => {
            let _ = members.remove(i);
            members.insert(i, member);
        },
        None => {
            members.push(member);
        },
    }
}

/// Stores `val` under the nested `key` in an object's members.
pub fn insert_nested(members: &mut Vec<JsonMember>, key: &str, val: JsonValue)
    ensures
        nested_inserted(old(members)@, key@, val, final(members)@),
    decreases key@.len(),
{
    let cs = chars_of(key);
    let sep = chars_of("__");
    proof {
        reveal_strlit("__");
        crate::cli::lemma_first_occurrence_bounds(cs@, sep@, 0);
    }
    let n = cs.len();
    match find_from(cs.as_slice(), sep.as_slice(), 0) {
        None => {
            place(members, key, val);
        },
        Some(k) => {
            assert(sep@.len() == 2);
            assert(k + 2 <= n);
            let head = substring(cs.as_slice(), 0, k);
            let rest_chars = tail_of(cs.as_slice(), k + 2);
            let rest = string_of(rest_chars.as_slice());
            assert(head@ =~= key@.take(k as int));
            proof {
                lemma_key_index(members@, head@);
            }
            match find_key(members, head.as_str()) {
                None => {
                    let mut child: Vec<JsonMember> = Vec::new();
                    insert_nested(&mut child, rest.as_str(), val);
                    place(members, head.as_str(), JsonValue::Object(child));
                },
                Some(i) => {
                    let existing = members.remove(i);
                    let JsonMember { key: existing_key, value: existing_value } = existing;
                    match existing_value {
                        JsonValue::Object(mut child) => {
                            insert_nested(&mut child, rest.as_str(), val);
                            members.insert(i, JsonMember { key: existing_key, value: JsonValue::Object(child) });
                        },
                        other => {
                            members.insert(i, JsonMember { key: existing_key, value: other });
                            assert(members@ =~= old(members)@);
                        },
                    }
                },
            }
        },
    }
}

/// The value stored under the nested `key`: a key `a__b` reads `b` inside the object
/// under `a`.
pub open spec fn nested_get(members: Seq<JsonMember>, key: Seq<char>) -> Option<JsonValue>
    decreases key.len(),
{
    match first_occurrence_from(key, "__"@, 0) {
        None => member_lookup(members, key),
        Some(k) => if 0 <= k && k + 2 <= key.len() {
            match member_lookup(members, key.take(k)) {
                Some(JsonValue::Object(c)) => nested_get(c@, key.skip(k + 2)),
                _ => None,
            }
        } else {
            None
        },
    }
}

/// Whether nothing but objects stands on the path of the nested `key`.
pub open spec fn path_open(members: Seq<JsonMember>, key: Seq<char>) -> bool
    decreases key.len(),
{
    match first_occurrence_from(key, "__"@, 0) {
        None => true,
        Some(k) => if 0 <= k && k + 2 <= key.len() {
            match member_lookup(members, key.take(k)) {
                None => true,
                Some(JsonValue::Object(c)) => path_open(c@, key.skip(k + 2)),
                Some(_) => false,
            }
        } else {
            true
        },
    }
}

/// Before the first member under a key, no member has that key.
proof fn lemma_key_index_first(members: Seq<JsonMember>, key: Seq<char>, i: int)
    requires
        0 <= i <= members.len(),
        forall|j: int| 0 <= j < i ==> #[trigger] members[j].key@ != key,
    ensures
        key_index(members, key) == key_index_from(members, key, i),
    decreases i,
{
    if i > 0 {
        lemma_key_index_first(members, key, i - 1);
    }
}

/// The index found is the first one with the key.
proof fn lemma_key_index_from_first(members: Seq<JsonMember>, key: Seq<char>, i: int)
    requires
        0 <= i,
    ensures
        key_index_from(members, key, i) matches Some(k) ==> forall|j: int| i <= j < k ==> #[trigger] members[j].key@ != key,
        key_index_from(members, key, i) is None ==> forall|j: int| i <= j < members.len() ==> #[trigger] members[j].key@
            != key,
    decreases members.len() - i,
{
    if i < members.len() {
        lemma_key_index_from_first(members, key, i + 1);
    }
}

/// After a placement, looking the key up finds the placed member.
proof fn lemma_placed_lookup(old: Seq<JsonMember>, key: Seq<char>, new: Seq<JsonMember>)
    requires
        placed_at(old, key, new),
    ensures
        member_lookup(new, key) == Some(new[slot_of(old, key)].value),
{
    let slot = slot_of(old, key);
    lemma_key_index_from_first(old, key, 0);
    lemma_key_index(old, key);
    assert forall|j: int| 0 <= j < slot implies #[trigger] new[j].key@ != key by {
        assert(new[j] == old[j]);
    }
    lemma_key_index_first(new, key, slot);
    assert(key_index_from(new, key, slot) == Some(slot));
    lemma_key_index(new, key);
}

/// Law: a value stored under a nested key reads back under that key. Storing `val` under
/// `a__b__c` in an object where nothing but objects stands on the way, then reading
/// `a__b__c`, gives `val`.
pub proof fn law_nested_insert_reads_back(old: Seq<JsonMember>, key: Seq<char>, val: JsonValue, new: Seq<JsonMember>)
    requires
        nested_inserted(old, key, val, new),
        path_open(old, key),
    ensures
        nested_get(new, key) == Some(val),
    decreases key.len(),
{
    match first_occurrence_from(key, "__"@, 0) {
        None => {
            lemma_placed_lookup(old, key, new);
        },
        Some(k) => {
            let head = key.take(k);
            let rest = key.skip(k + 2);
            lemma_placed_lookup(old, head, new);
            match member_lookup(old, head) {
                None => {
                    let c = new[slot_of(old, head)].value->Object_0;
                    law_nested_insert_reads_back(seq![], rest, val, c@);
                },
                Some(JsonValue::Object(child)) => {
                    let c = new[slot_of(old, head)].value->Object_0;
                    law_nested_insert_reads_back(child@, rest, val, c@);
                },
                Some(_) => {},
            }
        },
    }
}

} // verus!
