//! JSON values as the configuration holds them, and the rules by which a host's own
//! configuration overlays the settings of a service.

use vstd::prelude::*;
use crate::errors::MaremmaError;
use crate::text::{str_eq, push_str};

verus! {

/// A JSON number. Integers are kept; a number with a fraction or an exponent is only
/// known to be one, since no setting read here takes one.
#[derive(Debug, Clone, Copy, PartialEq, Eq, Structural)]
pub enum JsonNumber {
    /// A non-negative integer
    PosInt(u64),
    /// A negative integer
    NegInt(i64),
    /// Any other number
    Float,
}

/// A JSON value. Objects keep their entries in order; a key is looked up by its first entry.
#[derive(Debug)]
pub enum JsonValue {
    /// `null`
    Null,
    /// `true` or `false`
    Bool(bool),
    /// A number
    Number(JsonNumber),
    /// A string
    Str(String),
    /// An array
    Array(Vec<JsonValue>),
    /// An object
    Object(Vec<(String, JsonValue)>),
}

/// The value stored under `key`: that of the first entry with that key.
pub open spec fn lookup(entries: Seq<(String, JsonValue)>, key: Seq<char>) -> Option<JsonValue>
    decreases entries.len(),
{
    if entries.len() == 0 {
        None
    } else if entries[0].0@ == key {
        Some(entries[0].1)
    } else {
        lookup(entries.drop_first(), key)
    }
}

/// The position of the first entry with `key`, if there is one.
pub open spec fn key_index(entries: Seq<(String, JsonValue)>, key: Seq<char>) -> Option<int>
    decreases entries.len(),
{
    if entries.len() == 0 {
        None
    } else if entries[0].0@ == key {
        Some(0)
    } else {
        match key_index(entries.drop_first(), key) {
            Some(i) => Some(i + 1),
            None => None,
        }
    }
}

proof fn lemma_key_index(entries: Seq<(String, JsonValue)>, key: Seq<char>)
    ensures
        key_index(entries, key) is None <==> lookup(entries, key) is None,
        key_index(entries, key) matches Some(i) ==> 0 <= i < entries.len() && entries[i].0@ == key
            && lookup(entries, key) == Some(entries[i].1),
    decreases entries.len(),
{
    if entries.len() > 0 && entries[0].0@ != key {
        lemma_key_index(entries.drop_first(), key);
    }
}

fn find_key(entries: &Vec<(String, JsonValue)>, key: &str) -> (r: Option<usize>)
    ensures
        match r {
            Some(i) => key_index(entries@, key@) == Some(i as int),
            None => key_index(entries@, key@) is None,
        },
{
    let mut i: usize = 0;
    while i < entries.len()
        invariant
            i <= entries@.len(),
            forall|k: int| #![auto] 0 <= k < i ==> entries@[k].0@ != key@,
        decreases entries@.len() - i,
    {
        if str_eq(entries[i].0.as_str(), key) {
            proof {
                lemma_key_index_at(entries@, key@, i as int);
            }
            return Some(i);
        }
        i += 1;
    }
    proof {
        lemma_key_index_none(entries@, key@);
    }
    None
}

proof fn lemma_key_index_at(entries: Seq<(String, JsonValue)>, key: Seq<char>, i: int)
    requires
        0 <= i < entries.len(),
        entries[i].0@ == key,
        forall|k: int| #![auto] 0 <= k < i ==> entries[k].0@ != key,
    ensures
        key_index(entries, key) == Some(i),
    decreases i,
{
    if i > 0 {
        lemma_key_index_at(entries.drop_first(), key, i - 1);
    }
}

proof fn lemma_key_index_none(entries: Seq<(String, JsonValue)>, key: Seq<char>)
    requires
        forall|k: int| #![auto] 0 <= k < entries.len() ==> entries[k].0@ != key,
    ensures
        key_index(entries, key) is None,
    decreases entries.len(),
{
    if entries.len() > 0 {
        lemma_key_index_none(entries.drop_first(), key);
    }
}

/// The value stored under `key` in an object's entries.
pub fn get<'a>(entries: &'a Vec<(String, JsonValue)>, key: &str) -> (r: Option<&'a JsonValue>)
    ensures
        r is Some <==> lookup(entries@, key@) is Some,
        r matches Some(v) ==> lookup(entries@, key@) == Some(*v),
{
    proof {
        lemma_key_index(entries@, key@);
    }
    match find_key(entries, key) {
        Some(i) => Some(&entries[i].1),
        None => None,
    }
}

/// Does an object's entries hold `key`?
pub fn contains_key(entries: &Vec<(String, JsonValue)>, key: &str) -> (r: bool)
    ensures
        r == lookup(entries@, key@) is Some,
{
    get(entries, key).is_some()
}

/// A value read as text, where it is a string.
pub open spec fn as_text(v: JsonValue) -> Option<Seq<char>> {
    match v {
        JsonValue::Str(s) => Some(s@),
        _ => None,
    }
}

/// A value read as a non-negative integer, where it is one.
pub open spec fn as_unsigned(v: JsonValue) -> Option<int> {
    match v {
        JsonValue::Number(JsonNumber::PosInt(n)) => Some(n as int),
        JsonValue::Number(JsonNumber::NegInt(n)) => if n >= 0 {
            Some(n as int)
        } else {
            None
        },
        _ => None,
    }
}

/// The text of a field, or the default where the field is missing or not a string.
pub open spec fn text_or(field: Option<JsonValue>, default: Seq<char>) -> Seq<char> {
    match field {
        Some(JsonValue::Str(s)) => s@,
        _ => default,
    }
}

/// The flag of a field, or the default where the field is missing or not a boolean.
pub open spec fn bool_or(field: Option<JsonValue>, default: bool) -> bool {
    match field {
        Some(JsonValue::Bool(b)) => b,
        _ => default,
    }
}

/// How a field overlays an optional text setting: a missing field keeps the default,
/// `null` clears it, a string replaces it, and anything else is refused (`None`).
pub open spec fn overlay_text(field: Option<JsonValue>, default: Option<Seq<char>>) -> Option<Option<Seq<char>>> {
    match field {
        None => Some(default),
        Some(JsonValue::Null) => Some(None),
        Some(JsonValue::Str(s)) => Some(Some(s@)),
        Some(_) => None,
    }
}

/// Does an integer fit a setting of at most `max`, which is zero only where `nonzero` is
/// false?
pub open spec fn fits(n: int, max: int, nonzero: bool) -> bool {
    0 <= n <= max && (nonzero ==> n != 0)
}

/// How a field overlays an optional number setting of at most `max`: a missing field keeps
/// the default, `null` clears it, an integer that fits replaces it, and anything else is
/// refused (`None`).
pub open spec fn overlay_number(field: Option<JsonValue>, default: Option<int>, max: int, nonzero: bool) -> Option<Option<int>> {
    match field {
        None => Some(default),
        Some(JsonValue::Null) => Some(None),
        Some(v) => match as_unsigned(v) {
            Some(n) => if fits(n, max, nonzero) {
                Some(Some(n))
            } else {
                None
            },
            None => None,
        },
    }
}

/// How a field overlays a number setting that must be present: as [`overlay_number`],
/// except that `null` is refused too.
pub open spec fn overlay_required_number(field: Option<JsonValue>, default: int, max: int, nonzero: bool) -> Option<int> {
    match field {
        None => Some(default),
        Some(v) => match as_unsigned(v) {
            Some(n) => if fits(n, max, nonzero) {
                Some(n)
            } else {
                None
            },
            None => None,
        },
    }
}

/// The text of the error for a field that holds a value of the wrong kind.
pub open spec fn field_error_text(key: Seq<char>) -> Seq<char> {
    "Failed to extract field "@ + key + " from host configuration"@
}

/// Is `e` the error for a field that holds a value of the wrong kind?
pub open spec fn is_field_error(e: MaremmaError, key: Seq<char>) -> bool {
    e matches MaremmaError::Deserialization(m) && m@ == field_error_text(key)
}

/// The error for a field that holds a value of the wrong kind.
pub fn field_error(key: &str) -> (e: MaremmaError)
    ensures
        is_field_error(e, key@),
{
    let mut m = String::new();
    push_str(&mut m, "Failed to extract field ");
    push_str(&mut m, key);
    push_str(&mut m, " from host configuration");
    proof {
        reveal_strlit("Failed to extract field ");
        reveal_strlit(" from host configuration");
    }
    MaremmaError::Deserialization(m)
}

/// The view of an optional text.
pub open spec fn opt_text(o: Option<String>) -> Option<Seq<char>> {
    match o {
        Some(s) => Some(s@),
        None => None,
    }
}

/// Copies an optional text.
pub fn copy_opt_text(o: &Option<String>) -> (r: Option<String>)
    ensures
        opt_text(r) == opt_text(*o),
{
    match o {
        Some(s) => Some(s.clone()),
        None => None,
    }
}

/// A text setting overlaid by a field: the field's string, or the default.
pub fn extract_string(entries: &Vec<(String, JsonValue)>, key: &str, default: &str) -> (r: String)
    ensures
        r@ == text_or(lookup(entries@, key@), default@),
{
    match get(entries, key) {
        Some(JsonValue::Str(s)) => s.clone(),
        _ => default.to_owned(),
    }
}

/// A flag overlaid by a field: the field's boolean, or the default.
pub fn extract_bool(entries: &Vec<(String, JsonValue)>, key: &str, default: bool) -> (r: bool)
    ensures
        r == bool_or(lookup(entries@, key@), default),
{
    match get(entries, key) {
        Some(JsonValue::Bool(b)) => *b,
        _ => default,
    }
}

/// An optional text setting overlaid by a field; see [`overlay_text`].
pub fn extract_opt_text(entries: &Vec<(String, JsonValue)>, key: &str, default: &Option<String>) -> (r: Result<Option<String>, MaremmaError>)
    ensures
        match overlay_text(lookup(entries@, key@), opt_text(*default)) {
            Some(o) => r matches Ok(x) && opt_text(x) == o,
            None => r matches Err(e) && is_field_error(e, key@),
        },
{
    match get(entries, key) {
        None => Ok(copy_opt_text(default)),
        Some(JsonValue::Null) => Ok(None),
        Some(JsonValue::Str(s)) => Ok(Some(s.clone())),
        Some(_) => Err(field_error(key)),
    }
}

/// A value read as a non-negative integer, where it is one.
pub fn unsigned_value(v: &JsonValue) -> (r: Option<u64>)
    ensures
        match as_unsigned(*v) {
            Some(n) => r == Some(n as u64),
            None => r is None,
        },
{
    match v {
        JsonValue::Number(JsonNumber::PosInt(n)) => Some(*n),
        JsonValue::Number(JsonNumber::NegInt(n)) => if *n >= 0 {
            Some(*n as u64)
        } else {
            None
        },
        _ => None,
    }
}

/// The view of an optional number.
pub open spec fn opt_num(o: Option<u64>) -> Option<int> {
    match o {
        Some(n) => Some(n as int),
        None => None,
    }
}

/// An optional number setting of at most `max` overlaid by a field; see
/// [`overlay_number`].
pub fn extract_number(entries: &Vec<(String, JsonValue)>, key: &str, default: Option<u64>, max: u64, nonzero: bool) -> (r: Result<Option<u64>, MaremmaError>)
    ensures
        match overlay_number(lookup(entries@, key@), opt_num(default), max as int, nonzero) {
            Some(o) => r matches Ok(x) && opt_num(x) == o,
            None => r matches Err(e) && is_field_error(e, key@),
        },
        r matches Ok(Some(n)) ==> n <= max || default == Some(n),
{
    match get(entries, key) {
        None => Ok(default),
        Some(JsonValue::Null) => Ok(None),
        Some(v) => match unsigned_value(v) {
            Some(n) => if n <= max && (!nonzero || n != 0) {
                Ok(Some(n))
            } else {
                Err(field_error(key))
            },
            None => Err(field_error(key)),
        },
    }
}

/// A number setting of at most `max` that must be present, overlaid by a field; see
/// [`overlay_required_number`].
pub fn extract_required_number(entries: &Vec<(String, JsonValue)>, key: &str, default: u64, max: u64, nonzero: bool) -> (r: Result<u64, MaremmaError>)
    ensures
        match overlay_required_number(lookup(entries@, key@), default as int, max as int, nonzero) {
            Some(n) => r == Ok::<u64, MaremmaError>(n as u64),
            None => r matches Err(e) && is_field_error(e, key@),
        },
{
    match get(entries, key) {
        None => Ok(default),
        Some(v) => match unsigned_value(v) {
            Some(n) => if n <= max && (!nonzero || n != 0) {
                Ok(n)
            } else {
                Err(field_error(key))
            },
            None => Err(field_error(key)),
        },
    }
}

/// How a field overlays an optional flag: a missing field keeps the default, `null`
/// clears it, a boolean replaces it, and anything else is refused (`None`).
pub open spec fn overlay_flag(field: Option<JsonValue>, default: Option<bool>) -> Option<Option<bool>> {
    match field {
        None => Some(default),
        Some(JsonValue::Null) => Some(None),
        Some(JsonValue::Bool(b)) => Some(Some(b)),
        Some(_) => None,
    }
}

/// An optional flag overlaid by a field; see [`overlay_flag`].
pub fn extract_opt_bool(entries: &Vec<(String, JsonValue)>, key: &str, default: Option<bool>) -> (r: Result<Option<bool>, MaremmaError>)
    ensures
        match overlay_flag(lookup(entries@, key@), default) {
            Some(o) => r == Ok::<Option<bool>, MaremmaError>(o),
            None => r matches Err(e) && is_field_error(e, key@),
        },
{
    match get(entries, key) {
        None => Ok(default),
        Some(JsonValue::Null) => Ok(None),
        Some(JsonValue::Bool(b)) => Ok(Some(*b)),
        Some(_) => Err(field_error(key)),
    }
}

proof fn lemma_lookup_push(entries: Seq<(String, JsonValue)>, e: (String, JsonValue), key: Seq<char>)
    ensures
        lookup(entries.push(e), key) == (if lookup(entries, key) is Some {
            lookup(entries, key)
        } else if e.0@ == key {
            Some(e.1)
        } else {
            None
        }),
    decreases entries.len(),
{
    if entries.len() > 0 {
        assert(entries.push(e)[0] == entries[0]);
        assert(entries.push(e).drop_first() =~= entries.drop_first().push(e));
        lemma_lookup_push(entries.drop_first(), e, key);
    } else {
        assert(entries.push(e)[0] == e);
        assert(entries.push(e).drop_first() =~= Seq::<(String, JsonValue)>::empty());
        assert(lookup(Seq::<(String, JsonValue)>::empty(), key) is None);
        assert(lookup(entries, key) is None);
    }
}

proof fn lemma_lookup_update(entries: Seq<(String, JsonValue)>, i: int, e: (String, JsonValue), key: Seq<char>)
    requires
        0 <= i < entries.len(),
        entries[i].0@ == e.0@,
        key_index(entries, e.0@) == Some(i),
    ensures
        lookup(entries.update(i, e), key) == (if key == e.0@ {
            Some(e.1)
        } else {
            lookup(entries, key)
        }),
    decreases i,
{
    if i > 0 {
        assert(entries[0].0@ != e.0@);
        assert(entries.update(i, e)[0] == entries[0]);
        assert(entries.update(i, e).drop_first() =~= entries.drop_first().update(i - 1, e));
        assert(key_index(entries.drop_first(), e.0@) == Some(i - 1));
        assert(entries.drop_first()[i - 1] == entries[i]);
        lemma_lookup_update(entries.drop_first(), i - 1, e, key);
    } else {
        assert(entries.update(0, e)[0] == e);
        assert(entries.update(0, e).drop_first() =~= entries.drop_first());
    }
}

/// Sets `key` in an object's entries to `value`: the first entry with the key takes the
/// value, or a new entry is added at the end.
pub fn insert(entries: &mut Vec<(String, JsonValue)>, key: &str, value: JsonValue)
    ensures
        lookup(final(entries)@, key@) == Some(value),
        forall|k: Seq<char>| k != key@ ==> #[trigger] lookup(final(entries)@, k) == lookup(old(entries)@, k),
{
    let ghost before = entries@;
    proof {
        lemma_key_index(entries@, key@);
    }
    match find_key(entries, key) {
        Some(i) => {
            let _ = entries.remove(i);
            entries.insert(i, (key.to_owned(), value));
            proof {
                assert(entries@ =~= before.update(i as int, (entries@[i as int].0, value)));
                assert forall|k: Seq<char>| #[trigger] lookup(entries@, k) == (if k == key@ {
                    Some(value)
                } else {
                    lookup(before, k)
                }) by {
                    lemma_lookup_update(before, i as int, (entries@[i as int].0, value), k);
                }
            }
        },
        None => {
            entries.push((key.to_owned(), value));
            proof {
                assert forall|k: Seq<char>| #[trigger] lookup(entries@, k) == (if k == key@ {
                    Some(value)
                } else {
                    lookup(before, k)
                }) by {
                    lemma_lookup_push(before, (entries@[entries@.len() - 1].0, value), k);
                    assert(entries@ == before.push((entries@[entries@.len() - 1].0, value)));
                }
            }
        },
    }
}

/// The part of a host's configuration that belongs to the service `name`: the host's
/// configuration must be an object; the entry under `name`, where there is one, must be
/// an object too, and its entries are returned; otherwise there are none.
pub open spec fn host_config_part(config: JsonValue, name: Seq<char>) -> Option<Seq<(String, JsonValue)>> {
    match config {
        JsonValue::Object(entries) => match lookup(entries@, name) {
            Some(JsonValue::Object(inner)) => Some(inner@),
            Some(_) => None,
            None => Some(Seq::empty()),
        },
        _ => None,
    }
}

/// Takes the part of a host's configuration that belongs to the service `name`; see
/// [`host_config_part`]. A host configuration that is not an object is refused with a
/// configuration error naming the host, an entry that is not an object with one naming
/// the service.
pub fn get_host_config(name: &str, config: JsonValue, host_name: &str) -> (r: Result<Vec<(String, JsonValue)>, MaremmaError>)
    ensures
        match host_config_part(config, name@) {
            Some(entries) => r matches Ok(v) && v@ == entries,
            None => r matches Err(MaremmaError::Configuration(m)) && (if config is Object {
                m@ == "Failed to parse "@ + name@ + " config"@
            } else {
                m@ == "Failed to parse config as map for host="@ + host_name@
            }),
        },
{
    proof {
        reveal_strlit("Failed to parse ");
        reveal_strlit(" config");
        reveal_strlit("Failed to parse config as map for host=");
    }
    match config {
        JsonValue::Object(mut entries) => {
            let ghost old_entries = entries@;
            proof {
                lemma_key_index(entries@, name@);
            }
            match find_key(&entries, name) {
                Some(i) => {
                    let (_, v) = entries.remove(i);
                    assert(v == old_entries[i as int].1);
                    match v {
                        JsonValue::Object(inner) => Ok(inner),
                        _ => {
                            let mut m = String::new();
                            push_str(&mut m, "Failed to parse ");
                            push_str(&mut m, name);
                            push_str(&mut m, " config");
                            Err(MaremmaError::Configuration(m))
                        },
                    }
                },
                None => Ok(Vec::new()),
            }
        },
        _ => {
            let mut m = String::new();
            push_str(&mut m, "Failed to parse config as map for host=");
            push_str(&mut m, host_name);
            Err(MaremmaError::Configuration(m))
        },
    }
}

} // verus!
