//! A structured model of JSON values, as carried by wire frames.
//!
//! Frames arrive as JSON text; the trusted parser (see `wire`) lifts the
//! text into this model, and all protocol logic is verified over it.
//! Numbers that fit an unsigned or signed machine word keep their value;
//! any other number is kept as its decimal text, since the protocol logic
//! never reads one.

use vstd::prelude::*;
use vstd::pervasive::VecAdditionalExecFns;

verus! {

/// One member of a JSON object.
pub struct JsonField {
    pub key: String,
    pub value: JsonValue,
}

/// A JSON value.
pub enum JsonValue {
    Null,
    Bool(bool),
    /// A number in `0 ..= u64::MAX`.
    UInt(u64),
    /// A negative integer (non-negative integers are always `UInt`).
    Int(i64),
    /// Any other number, kept as its decimal text.
    Float(String),
    Str(String),
    Arr(Vec<JsonValue>),
    Obj(Vec<JsonField>),
}

impl JsonValue {
    /// Whether this value is a JSON number.
    pub open spec fn is_number(self) -> bool {
        self is UInt || self is Int || self is Float
    }
}

/// The value of the first object member named `key`, if any.
pub open spec fn spec_first(fields: Seq<JsonField>, key: Seq<char>) -> Option<JsonValue>
    decreases fields.len(),
{
    if fields.len() == 0 {
        None
    } else if fields[0].key@ == key {
        Some(fields[0].value)
    } else {
        spec_first(fields.drop_first(), key)
    }
}

/// Looking for `key` may begin past any prefix free of `key`.
proof fn lemma_first_skip(fields: Seq<JsonField>, key: Seq<char>, i: int)
    requires
        0 <= i <= fields.len(),
        forall|j: int| 0 <= j < i ==> fields[j].key@ != key,
    ensures
        spec_first(fields, key) == spec_first(fields.skip(i), key),
    decreases i,
{
    if i > 0 {
        assert(fields.skip(i) =~= fields.drop_first().skip(i - 1));
        lemma_first_skip(fields.drop_first(), key, i - 1);
    } else {
        assert(fields.skip(0) =~= fields);
    }
}

/// Replacing a member whose old and new names both differ from `key`
/// leaves the lookup of `key` unchanged.
proof fn lemma_first_update_other(fields: Seq<JsonField>, i: int, f: JsonField, key: Seq<char>)
    requires
        0 <= i < fields.len(),
        fields[i].key@ != key,
        f.key@ != key,
    ensures
        spec_first(fields.update(i, f), key) == spec_first(fields, key),
    decreases fields.len(),
{
    if fields.len() > 0 {
        if i == 0 {
            assert(fields.update(0, f).drop_first() =~= fields.drop_first());
        } else {
            assert(fields.update(i, f).drop_first() =~= fields.drop_first().update(i - 1, f));
            lemma_first_update_other(fields.drop_first(), i - 1, f, key);
        }
    }
}

/// Whether a string equals a given text.
pub fn str_is(s: &str, t: &str) -> (r: bool)
    ensures
        r == (s@ == t@),
{
    let a: String = s.to_owned();
    let b: String = t.to_owned();
    a == b
}

/// The position of the first object member named `key`, if any.
fn find_first(fields: &Vec<JsonField>, key: &str) -> (r: Option<usize>)
    ensures
        match r {
            Some(i) => i < fields.len() && fields@[i as int].key@ == key@
                && spec_first(fields@, key@) == Some(fields@[i as int].value)
                && forall|j: int| 0 <= j < i ==> fields@[j].key@ != key@,
            None => spec_first(fields@, key@) is None,
        },
{
    let mut i: usize = 0;
    while i < fields.len()
        invariant
            i <= fields.len(),
            forall|j: int| 0 <= j < i ==> fields@[j].key@ != key@,
        decreases fields.len() - i,
    {
        if str_is(fields[i].key.as_str(), key) {
            proof {
                lemma_first_skip(fields@, key@, i as int);
                assert(fields@.skip(i as int)[0] == fields@[i as int]);
            }
            return Some(i);
        }
        i += 1;
    }
    proof {
        lemma_first_skip(fields@, key@, fields@.len() as int);
        assert(fields@.skip(fields@.len() as int) =~= Seq::<JsonField>::empty());
    }
    None
}

/// Removes the first member named `key` from an object and hands its
/// value back, leaving lookups of every other name unchanged.
pub fn take_field(fields: &mut Vec<JsonField>, key: &str) -> (r: Option<JsonValue>)
    requires
        key@.len() > 0,
    ensures
        r == spec_first(old(fields)@, key@),
        final(fields).len() == old(fields).len(),
        forall|k: Seq<char>| k != key@ && k.len() > 0
            ==> spec_first(final(fields)@, k) == spec_first(old(fields)@, k),
{
    match find_first(fields, key) {
        None => None,
        Some(i) => {
            let mut slot = JsonField { key: String::new(), value: JsonValue::Null };
            let ghost blank = slot;
            fields.set_and_swap(i, &mut slot);
            proof {
                assert forall|k: Seq<char>| k != key@ && k.len() > 0
                    implies spec_first(fields@, k) == spec_first(old(fields)@, k) by {
                    lemma_first_update_other(old(fields)@, i as int, blank, k);
                }
            }
            Some(slot.value)
        },
    }
}

/// The value of a JSON number that fits an unsigned word.
pub open spec fn spec_as_u64(v: JsonValue) -> Option<u64> {
    match v {
        JsonValue::UInt(n) => Some(n),
        _ => None,
    }
}

/// The value of a JSON number that fits a signed word.
pub open spec fn spec_as_i64(v: JsonValue) -> Option<i64> {
    match v {
        JsonValue::Int(n) => Some(n),
        JsonValue::UInt(n) => if n <= i64::MAX as u64 {
            Some(n as i64)
        } else {
            None
        },
        _ => None,
    }
}

/// A required string member: present and a string, else a shape error.
pub open spec fn spec_req_string(o: Option<JsonValue>) -> Option<String> {
    match o {
        Some(JsonValue::Str(s)) => Some(s),
        _ => None,
    }
}

/// A required signed-number member.
pub open spec fn spec_req_i64(o: Option<JsonValue>) -> Option<i64> {
    match o {
        Some(v) => spec_as_i64(v),
        None => None,
    }
}

/// A required unsigned-number member.
pub open spec fn spec_req_u64(o: Option<JsonValue>) -> Option<u64> {
    match o {
        Some(v) => spec_as_u64(v),
        None => None,
    }
}

/// A required boolean member.
pub open spec fn spec_req_bool(o: Option<JsonValue>) -> Option<bool> {
    match o {
        Some(JsonValue::Bool(b)) => Some(b),
        _ => None,
    }
}

/// A required number member, kept as the JSON value itself.
pub open spec fn spec_req_number(o: Option<JsonValue>) -> Option<JsonValue> {
    match o {
        Some(v) => if v.is_number() {
            Some(v)
        } else {
            None
        },
        None => None,
    }
}

/// An optional string member: absent or null is `None`, a string is
/// `Some`, anything else is a shape error (the outer `None`).
pub open spec fn spec_opt_string(o: Option<JsonValue>) -> Option<Option<String>> {
    match o {
        None => Some(None),
        Some(JsonValue::Null) => Some(None),
        Some(JsonValue::Str(s)) => Some(Some(s)),
        Some(_) => None,
    }
}

/// An optional unsigned member, as `spec_opt_string`.
pub open spec fn spec_opt_u64(o: Option<JsonValue>) -> Option<Option<u64>> {
    match o {
        None => Some(None),
        Some(JsonValue::Null) => Some(None),
        Some(JsonValue::UInt(n)) => Some(Some(n)),
        Some(_) => None,
    }
}

/// An optional signed member, as `spec_opt_string`.
pub open spec fn spec_opt_i64(o: Option<JsonValue>) -> Option<Option<i64>> {
    match o {
        None => Some(None),
        Some(JsonValue::Null) => Some(None),
        Some(v) => match spec_as_i64(v) {
            Some(n) => Some(Some(n)),
            None => None,
        },
    }
}

/// The texts of an all-string JSON array, in order.
pub open spec fn spec_string_seq(items: Seq<JsonValue>) -> Option<Seq<String>>
    decreases items.len(),
{
    if items.len() == 0 {
        Some(Seq::empty())
    } else {
        match spec_string_seq(items.drop_last()) {
            Some(init) => match items.last() {
                JsonValue::Str(s) => Some(init.push(s)),
                _ => None,
            },
            None => None,
        }
    }
}

/// The values of an all-signed-number JSON array, in order.
pub open spec fn spec_i64_seq(items: Seq<JsonValue>) -> Option<Seq<i64>>
    decreases items.len(),
{
    if items.len() == 0 {
        Some(Seq::empty())
    } else {
        match spec_i64_seq(items.drop_last()) {
            Some(init) => match spec_as_i64(items.last()) {
                Some(n) => Some(init.push(n)),
                None => None,
            },
            None => None,
        }
    }
}

/// One element that is not a string spoils the whole array.
proof fn lemma_string_seq_none(items: Seq<JsonValue>, i: int)
    requires
        0 <= i < items.len(),
        !(items[i] is Str),
    ensures
        spec_string_seq(items) is None,
    decreases items.len(),
{
    if i < items.len() - 1 {
        lemma_string_seq_none(items.drop_last(), i);
    }
}

/// One element that is not a signed number spoils the whole array.
proof fn lemma_i64_seq_none(items: Seq<JsonValue>, i: int)
    requires
        0 <= i < items.len(),
        spec_as_i64(items[i]) is None,
    ensures
        spec_i64_seq(items) is None,
    decreases items.len(),
{
    if i < items.len() - 1 {
        lemma_i64_seq_none(items.drop_last(), i);
    }
}

/// Reads an all-string JSON array into its texts, in order.
pub fn string_vec(items: &Vec<JsonValue>) -> (r: Option<Vec<String>>)
    ensures
        match spec_string_seq(items@) {
            Some(xs) => r matches Some(v) && v@ == xs,
            None => r is None,
        },
{
    let mut out: Vec<String> = Vec::new();
    let mut i: usize = 0;
    while i < items.len()
        invariant
            i <= items.len(),
            spec_string_seq(items@.take(i as int)) == Some(out@),
        decreases items.len() - i,
    {
        match &items[i] {
            JsonValue::Str(s) => {
                out.push(s.clone());
            },
            _ => {
                proof {
                    lemma_string_seq_none(items@, i as int);
                }
                return None;
            },
        }
        proof {
            assert(items@.take(i + 1 as int).drop_last() =~= items@.take(i as int));
            assert(items@.take(i + 1 as int).last() == items@[i as int]);
        }
        i += 1;
    }
    proof {
        assert(items@.take(items@.len() as int) =~= items@);
    }
    Some(out)
}

/// Reads an all-signed-number JSON array into its values, in order.
pub fn i64_vec(items: &Vec<JsonValue>) -> (r: Option<Vec<i64>>)
    ensures
        match spec_i64_seq(items@) {
            Some(xs) => r matches Some(v) && v@ == xs,
            None => r is None,
        },
{
    let mut out: Vec<i64> = Vec::new();
    let mut i: usize = 0;
    while i < items.len()
        invariant
            i <= items.len(),
            spec_i64_seq(items@.take(i as int)) == Some(out@),
        decreases items.len() - i,
    {
        let n: i64 = match &items[i] {
            JsonValue::Int(n) => *n,
            JsonValue::UInt(n) => {
                if *n <= i64::MAX as u64 {
                    *n as i64
                } else {
                    proof {
                        lemma_i64_seq_none(items@, i as int);
                    }
                    return None;
                }
            },
            _ => {
                proof {
                    lemma_i64_seq_none(items@, i as int);
                }
                return None;
            },
        };
        out.push(n);
        proof {
            assert(items@.take(i + 1 as int).drop_last() =~= items@.take(i as int));
            assert(items@.take(i + 1 as int).last() == items@[i as int]);
        }
        i += 1;
    }
    proof {
        assert(items@.take(items@.len() as int) =~= items@);
    }
    Some(out)
}

/// The texts of a member that must be an all-string array.
pub open spec fn spec_req_string_seq(o: Option<JsonValue>) -> Option<Seq<String>> {
    match o {
        Some(JsonValue::Arr(items)) => spec_string_seq(items@),
        _ => None,
    }
}

/// The values of a member that must be an all-signed-number array.
pub open spec fn spec_req_i64_seq(o: Option<JsonValue>) -> Option<Seq<i64>> {
    match o {
        Some(JsonValue::Arr(items)) => spec_i64_seq(items@),
        _ => None,
    }
}

/// A reference to the first object member named `key`, if any.
pub fn get_field<'a>(fields: &'a Vec<JsonField>, key: &str) -> (r: Option<&'a JsonValue>)
    ensures
        match r {
            Some(v) => spec_first(fields@, key@) == Some(*v),
            None => spec_first(fields@, key@) is None,
        },
{
    match find_first(fields, key) {
        Some(i) => Some(&fields[i].value),
        None => None,
    }
}

/// Reads a required string member.
pub fn get_string(fields: &Vec<JsonField>, key: &str) -> (r: Option<String>)
    ensures
        r == spec_req_string(spec_first(fields@, key@)),
{
    match get_field(fields, key) {
        Some(JsonValue::Str(s)) => Some(s.clone()),
        _ => None,
    }
}

/// Reads a required signed-number member.
pub fn get_i64(fields: &Vec<JsonField>, key: &str) -> (r: Option<i64>)
    ensures
        r == spec_req_i64(spec_first(fields@, key@)),
{
    match get_field(fields, key) {
        Some(JsonValue::Int(n)) => Some(*n),
        Some(JsonValue::UInt(n)) => {
            if *n <= i64::MAX as u64 {
                Some(*n as i64)
            } else {
                None
            }
        },
        _ => None,
    }
}

/// Reads a required unsigned-number member.
pub fn get_u64(fields: &Vec<JsonField>, key: &str) -> (r: Option<u64>)
    ensures
        r == spec_req_u64(spec_first(fields@, key@)),
{
    match get_field(fields, key) {
        Some(JsonValue::UInt(n)) => Some(*n),
        _ => None,
    }
}

/// Reads a required boolean member.
pub fn get_bool(fields: &Vec<JsonField>, key: &str) -> (r: Option<bool>)
    ensures
        r == spec_req_bool(spec_first(fields@, key@)),
{
    match get_field(fields, key) {
        Some(JsonValue::Bool(b)) => Some(*b),
        _ => None,
    }
}

/// Reads a required number member, kept as the JSON value itself.
pub fn get_number(fields: &Vec<JsonField>, key: &str) -> (r: Option<JsonValue>)
    ensures
        r == spec_req_number(spec_first(fields@, key@)),
{
    match get_field(fields, key) {
        Some(JsonValue::UInt(n)) => Some(JsonValue::UInt(*n)),
        Some(JsonValue::Int(n)) => Some(JsonValue::Int(*n)),
        Some(JsonValue::Float(s)) => Some(JsonValue::Float(s.clone())),
        _ => None,
    }
}

/// Reads an optional string member.
pub fn get_opt_string(fields: &Vec<JsonField>, key: &str) -> (r: Option<Option<String>>)
    ensures
        r == spec_opt_string(spec_first(fields@, key@)),
{
    match get_field(fields, key) {
        None => Some(None),
        Some(JsonValue::Null) => Some(None),
        Some(JsonValue::Str(s)) => Some(Some(s.clone())),
        Some(_) => None,
    }
}

/// Reads an optional signed-number member.
pub fn get_opt_i64(fields: &Vec<JsonField>, key: &str) -> (r: Option<Option<i64>>)
    ensures
        r == spec_opt_i64(spec_first(fields@, key@)),
{
    match get_field(fields, key) {
        None => Some(None),
        Some(JsonValue::Null) => Some(None),
        Some(JsonValue::Int(n)) => Some(Some(*n)),
        Some(JsonValue::UInt(n)) => {
            if *n <= i64::MAX as u64 {
                Some(Some(*n as i64))
            } else {
                None
            }
        },
        Some(_) => None,
    }
}

/// Reads an optional unsigned-number member.
pub fn get_opt_u64(fields: &Vec<JsonField>, key: &str) -> (r: Option<Option<u64>>)
    ensures
        r == spec_opt_u64(spec_first(fields@, key@)),
{
    match get_field(fields, key) {
        None => Some(None),
        Some(JsonValue::Null) => Some(None),
        Some(JsonValue::UInt(n)) => Some(Some(*n)),
        Some(_) => None,
    }
}

/// Reads a member that must be an all-string array.
pub fn get_string_vec(fields: &Vec<JsonField>, key: &str) -> (r: Option<Vec<String>>)
    ensures
        match spec_req_string_seq(spec_first(fields@, key@)) {
            Some(xs) => r matches Some(v) && v@ == xs,
            None => r is None,
        },
{
    match get_field(fields, key) {
        Some(JsonValue::Arr(items)) => string_vec(items),
        _ => None,
    }
}

/// Reads a member that must be an all-signed-number array.
pub fn get_i64_vec(fields: &Vec<JsonField>, key: &str) -> (r: Option<Vec<i64>>)
    ensures
        match spec_req_i64_seq(spec_first(fields@, key@)) {
            Some(xs) => r matches Some(v) && v@ == xs,
            None => r is None,
        },
{
    match get_field(fields, key) {
        Some(JsonValue::Arr(items)) => i64_vec(items),
        _ => None,
    }
}

} // verus!
