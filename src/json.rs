use vstd::prelude::*;

verus! {

/// A parsed JSON document, held as plain values.
pub enum JsonValue {
    Null,
    Bool(bool),
    /// A number that is an integer within the range of `i64`.
    Int(i64),
    /// An integer above the range of `i64` that fits `u64`.
    UInt(u64),
    /// Any other number (a fraction, or an integer beyond `i64`), by its text.
    Number(String),
    Str(String),
    Array(Vec<JsonValue>),
    /// An object's members, in document order.
    Object(Vec<(String, JsonValue)>),
}

/// The value that an optional reference points to.
pub open spec fn owned(v: Option<&JsonValue>) -> Option<JsonValue> {
    match v {
        Some(x) => Some(*x),
        None => None,
    }
}

/// The value of the first member at or after position `i` whose name is `key`.
pub open spec fn lookup_from(members: Seq<(String, JsonValue)>, key: Seq<char>, i: int) -> Option<
    JsonValue,
>
    decreases members.len() - i,
{
    if i < 0 || i >= members.len() {
        None
    } else if members[i].0@ == key {
        Some(members[i].1)
    } else {
        lookup_from(members, key, i + 1)
    }
}

/// The value of the first member of `members` named `key`.
pub open spec fn lookup(members: Seq<(String, JsonValue)>, key: Seq<char>) -> Option<JsonValue> {
    lookup_from(members, key, 0)
}

/// Member `key` of `v`: absent when `v` is absent, is no object, or has no such member.
pub open spec fn member(v: Option<JsonValue>, key: Seq<char>) -> Option<JsonValue> {
    match v {
        Some(JsonValue::Object(members)) => lookup(members@, key),
        _ => None,
    }
}

/// The text of `v` when it is a string, else `default`.
pub open spec fn text_or(v: Option<JsonValue>, default: Seq<char>) -> Seq<char> {
    match v {
        Some(JsonValue::Str(s)) => s@,
        _ => default,
    }
}

/// The integer `v` when it is an integer within `i64`, else zero.
pub open spec fn int_or_zero(v: Option<JsonValue>) -> i64 {
    match v {
        Some(JsonValue::Int(n)) => n,
        _ => 0,
    }
}

/// Member `key` of `v`, as `member` defines it.
pub fn member_of<'a>(v: Option<&'a JsonValue>, key: &str) -> (r: Option<&'a JsonValue>)
    ensures
        owned(r) == member(owned(v), key@),
{
    match v {
        Some(JsonValue::Object(members)) => {
            let k = key.to_owned();
            let mut i: usize = 0;
            while i < members.len()
                invariant
                    i <= members@.len(),
                    k@ == key@,
                    member(owned(v), key@) == lookup(members@, key@),
                    lookup(members@, key@) == lookup_from(members@, key@, i as int),
                decreases members.len() - i,
            {
                if members[i].0.eq(&k) {
                    assert(lookup_from(members@, key@, i as int) == Some(members@[i as int].1));
                    return Some(&members[i].1);
                }
                i = i + 1;
            }
            None
        },
        _ => None,
    }
}

/// The text of `v` when it is a string, else `default`.
pub fn text_or_default(v: Option<&JsonValue>, default: &str) -> (r: String)
    ensures
        r@ == text_or(owned(v), default@),
{
    match v {
        Some(JsonValue::Str(s)) => s.clone(),
        _ => default.to_owned(),
    }
}

/// The integer `v` when it is an integer within `i64`, else zero.
pub fn int_or_zero_of(v: Option<&JsonValue>) -> (r: i64)
    ensures
        r == int_or_zero(owned(v)),
{
    match v {
        Some(JsonValue::Int(n)) => *n,
        _ => 0,
    }
}

/// Looking up in `members` with one more member appended: an earlier member of the same
/// name still wins.
pub proof fn lemma_lookup_push(members: Seq<(String, JsonValue)>, m: (String, JsonValue), key: Seq<char>)
    ensures
        lookup(members.push(m), key) == (if lookup(members, key) is Some {
            lookup(members, key)
        } else if m.0@ == key {
            Some(m.1)
        } else {
            None
        }),
{
    lemma_lookup_from_push(members, m, key, 0);
}

proof fn lemma_lookup_from_push(members: Seq<(String, JsonValue)>, m: (String, JsonValue), key: Seq<char>, i: int)
    requires
        0 <= i <= members.len(),
    ensures
        lookup_from(members.push(m), key, i) == (if lookup_from(members, key, i) is Some {
            lookup_from(members, key, i)
        } else if m.0@ == key {
            Some(m.1)
        } else {
            None
        }),
    decreases members.len() - i,
{
    if i < members.len() {
        lemma_lookup_from_push(members, m, key, i + 1);
    } else {
        assert(lookup_from(members.push(m), key, i + 1) == None::<JsonValue>);
    }
}

/// Appends member `key` to an object's members that have none of that name yet.
pub fn push_member(members: &mut Vec<(String, JsonValue)>, key: &str, value: JsonValue)
    requires
        lookup(old(members)@, key@) is None,
    ensures
        final(members)@.len() == old(members)@.len() + 1,
        forall|k: Seq<char>| #![trigger lookup(final(members)@, k)]
            lookup(final(members)@, k) == (if k == key@ {
                Some(value)
            } else {
                lookup(old(members)@, k)
            }),
{
    let ghost before = members@;
    let name = key.to_owned();
    proof {
        assert forall|k: Seq<char>| lookup(before.push((name, value)), k) == (if k == key@ {
            Some(value)
        } else {
            lookup(before, k)
        }) by {
            lemma_lookup_push(before, (name, value), k);
        }
    }
    members.push((name, value));
}

} // verus!
