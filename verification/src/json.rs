//! JSON values as the provider and GraphQL responses carry them, and the
//! lookups the responses are read with.

use vstd::prelude::*;
use crate::text::{str_eq, dec_spec, dec_string, join, join_spec, views};

verus! {

/// A JSON value.
///
/// Object fields keep the order in which the value lists them. A string
/// also carries the value its text parses to as JSON, when it does, since
/// providers nest encoded JSON in string fields.
#[derive(Debug)]
pub enum Json {
    Null,
    Bool(bool),
    Number(JsonNumber),
    Str(JsonText),
    Array(Vec<Json>),
    Object(Vec<JsonField>),
}

/// A JSON number: its text, and its value when it is a non-negative integer
/// that fits a `u64`.
#[derive(Debug)]
pub struct JsonNumber {
    pub text: String,
    pub unsigned: Option<u64>,
}

/// A JSON string, with the JSON value its text parses to, if any.
#[derive(Debug)]
pub struct JsonText {
    pub text: String,
    pub parsed: Option<Box<Json>>,
}

/// One field of a JSON object.
#[derive(Debug)]
pub struct JsonField {
    pub key: String,
    pub value: Json,
}

/// Position of the first field named `key`.
pub open spec fn field_index(fields: Seq<JsonField>, key: Seq<char>) -> Option<int>
    decreases fields.len(),
{
    if fields.len() == 0 {
        None
    } else {
        match field_index(fields.drop_last(), key) {
            Some(i) => Some(i),
            None => if fields.last().key@ == key {
                Some(fields.len() - 1)
            } else {
                None
            },
        }
    }
}

/// The value of the field `key` of an object.
pub open spec fn get_spec(j: Json, key: Seq<char>) -> Option<Json> {
    match j {
        Json::Object(fields) => match field_index(fields@, key) {
            Some(i) => Some(fields@[i].value),
            None => None,
        },
        _ => None,
    }
}

/// The first value found under `key`, searching the value depth-first in
/// field and element order (an object's own field first).
pub open spec fn find_key_spec(j: Json, key: Seq<char>) -> Option<Json>
    decreases j, 1nat,
{
    match j {
        Json::Object(fields) => match get_spec(j, key) {
            Some(v) => Some(v),
            None => find_key_fields(fields@, key),
        },
        Json::Array(items) => find_key_items(items@, key),
        _ => None,
    }
}

/// `find_key_spec` over the values of fields, in order.
pub open spec fn find_key_fields(fields: Seq<JsonField>, key: Seq<char>) -> Option<Json>
    decreases fields, 0nat,
{
    if fields.len() == 0 {
        None
    } else {
        match find_key_fields(fields.drop_last(), key) {
            Some(v) => Some(v),
            None => find_key_spec(fields.last().value, key),
        }
    }
}

/// `find_key_spec` over items, in order.
pub open spec fn find_key_items(items: Seq<Json>, key: Seq<char>) -> Option<Json>
    decreases items, 0nat,
{
    if items.len() == 0 {
        None
    } else {
        match find_key_items(items.drop_last(), key) {
            Some(v) => Some(v),
            None => find_key_spec(items.last(), key),
        }
    }
}

/// The text of a string value.
pub open spec fn str_spec(j: Json) -> Option<Seq<char>> {
    match j {
        Json::Str(t) => Some(t.text@),
        _ => None,
    }
}

/// The value of a number that is a non-negative integer fitting a `u64`.
pub open spec fn u64_spec(j: Json) -> Option<u64> {
    match j {
        Json::Number(n) => n.unsigned,
        _ => None,
    }
}

/// `o` holds exactly the value `v`, or both are empty.
pub open spec fn opt_json_is(o: Option<&Json>, v: Option<Json>) -> bool {
    match (o, v) {
        (Some(a), Some(b)) => *a == b,
        (None, None) => true,
        _ => false,
    }
}

/// The value of the field `key` of an object (`Value::get` with a key).
pub fn get<'a>(j: &'a Json, key: &str) -> (r: Option<&'a Json>)
    ensures
        opt_json_is(r, get_spec(*j, key@)),
{
    match j {
        Json::Object(fields) => {
            let mut i: usize = 0;
            while i < fields.len()
                invariant
                    i <= fields@.len(),
                    *j == Json::Object(*fields),
                    field_index(fields@.take(i as int), key@) is None,
                decreases fields@.len() - i,
            {
                proof {
                    assert(fields@.take(i + 1).drop_last() =~= fields@.take(i as int));
                }
                if str_eq(fields[i].key.as_str(), key) {
                    proof {
                        assert(field_index(fields@.take(i + 1), key@) == Some(i as int));
                        lemma_field_index_extends(fields@, i + 1, key@);
                    }
                    return Some(&fields[i].value);
                }
                i = i + 1;
            }
            assert(fields@.take(fields@.len() as int) =~= fields@);
            None
        },
        _ => None,
    }
}

/// A first field found in a prefix is the first field found in the whole list.
proof fn lemma_field_index_extends(fields: Seq<JsonField>, m: int, key: Seq<char>)
    requires
        0 <= m <= fields.len(),
        field_index(fields.take(m), key) is Some,
    ensures
        field_index(fields, key) == field_index(fields.take(m), key),
    decreases fields.len() - m,
{
    if m < fields.len() {
        assert(fields.take(m + 1).drop_last() =~= fields.take(m));
        assert(field_index(fields.take(m + 1), key) == field_index(fields.take(m), key));
        lemma_field_index_extends(fields, m + 1, key);
    } else {
        assert(fields.take(m) =~= fields);
    }
}

/// The text of a string value (`Value::as_str`).
pub fn as_str(j: &Json) -> (r: Option<&str>)
    ensures
        match (r, str_spec(*j)) {
            (Some(a), Some(b)) => a@ == b,
            (None, None) => true,
            _ => false,
        },
{
    match j {
        Json::Str(t) => Some(t.text.as_str()),
        _ => None,
    }
}

/// The value of a non-negative integer number (`Value::as_u64`).
pub fn as_u64(j: &Json) -> (r: Option<u64>)
    ensures
        r == u64_spec(*j),
{
    match j {
        Json::Number(n) => n.unsigned,
        _ => None,
    }
}

/// The value found by following object keys from `j`.
pub open spec fn path_spec(j: Json, keys: Seq<Seq<char>>) -> Option<Json>
    decreases keys.len(),
{
    if keys.len() == 0 {
        Some(j)
    } else {
        match path_spec(j, keys.drop_last()) {
            Some(v) => get_spec(v, keys.last()),
            None => None,
        }
    }
}

/// Follows a path of object keys (a JSON pointer whose tokens are keys).
pub fn get_path<'a>(j: &'a Json, keys: &[&str]) -> (r: Option<&'a Json>)
    ensures
        opt_json_is(r, path_spec(*j, keys@.map_values(|k: &str| k@))),
{
    let ghost ks = keys@.map_values(|k: &str| k@);
    let mut cur: &Json = j;
    let mut i: usize = 0;
    assert(ks.take(0) =~= Seq::<Seq<char>>::empty());
    while i < keys.len()
        invariant
            i <= keys@.len(),
            ks == keys@.map_values(|k: &str| k@),
            path_spec(*j, ks.take(i as int)) == Some(*cur),
        decreases keys@.len() - i,
    {
        assert(ks.take(i + 1).drop_last() =~= ks.take(i as int));
        match get(cur, keys[i]) {
            Some(v) => {
                cur = v;
            },
            None => {
                proof {
                    lemma_path_none_extends(*j, ks, i + 1);
                }
                return None;
            },
        }
        i = i + 1;
    }
    assert(ks.take(keys@.len() as int) =~= ks);
    Some(cur)
}

/// A path that leads nowhere cannot be extended.
proof fn lemma_path_none_extends(j: Json, ks: Seq<Seq<char>>, m: int)
    requires
        0 <= m <= ks.len(),
        path_spec(j, ks.take(m)) is None,
    ensures
        path_spec(j, ks) is None,
    decreases ks.len() - m,
{
    if m < ks.len() {
        assert(ks.take(m + 1).drop_last() =~= ks.take(m));
        lemma_path_none_extends(j, ks, m + 1);
    } else {
        assert(ks.take(m) =~= ks);
    }
}

/// The first value found under `key` anywhere in `j` (see `find_key_spec`).
pub fn find_key<'a>(j: &'a Json, key: &str) -> (r: Option<&'a Json>)
    ensures
        opt_json_is(r, find_key_spec(*j, key@)),
    decreases j,
{
    match j {
        Json::Object(fields) => {
            if let Some(v) = get(j, key) {
                return Some(v);
            }
            let mut i: usize = 0;
            while i < fields.len()
                invariant
                    i <= fields@.len(),
                    *j == Json::Object(*fields),
                    get_spec(*j, key@) is None,
                    find_key_fields(fields@.take(i as int), key@) is None,
                decreases fields@.len() - i,
            {
                proof {
                    assert(fields@.take(i + 1).drop_last() =~= fields@.take(i as int));
                }
                if let Some(v) = find_key(&fields[i].value, key) {
                    proof {
                        lemma_find_fields_extends(fields@, i + 1, key@);
                    }
                    return Some(v);
                }
                i = i + 1;
            }
            assert(fields@.take(fields@.len() as int) =~= fields@);
            None
        },
        Json::Array(items) => {
            let mut i: usize = 0;
            while i < items.len()
                invariant
                    i <= items@.len(),
                    *j == Json::Array(*items),
                    find_key_items(items@.take(i as int), key@) is None,
                decreases items@.len() - i,
            {
                proof {
                    assert(items@.take(i + 1).drop_last() =~= items@.take(i as int));
                }
                if let Some(v) = find_key(&items[i], key) {
                    proof {
                        lemma_find_items_extends(items@, i + 1, key@);
                    }
                    return Some(v);
                }
                i = i + 1;
            }
            assert(items@.take(items@.len() as int) =~= items@);
            None
        },
        _ => None,
    }
}

proof fn lemma_find_fields_extends(fields: Seq<JsonField>, m: int, key: Seq<char>)
    requires
        0 <= m <= fields.len(),
        find_key_fields(fields.take(m), key) is Some,
    ensures
        find_key_fields(fields, key) == find_key_fields(fields.take(m), key),
    decreases fields.len() - m,
{
    if m < fields.len() {
        assert(fields.take(m + 1).drop_last() =~= fields.take(m));
        assert(find_key_fields(fields.take(m + 1), key) == find_key_fields(fields.take(m), key));
        lemma_find_fields_extends(fields, m + 1, key);
    } else {
        assert(fields.take(m) =~= fields);
    }
}

proof fn lemma_find_items_extends(items: Seq<Json>, m: int, key: Seq<char>)
    requires
        0 <= m <= items.len(),
        find_key_items(items.take(m), key) is Some,
    ensures
        find_key_items(items, key) == find_key_items(items.take(m), key),
    decreases items.len() - m,
{
    if m < items.len() {
        assert(items.take(m + 1).drop_last() =~= items.take(m));
        assert(find_key_items(items.take(m + 1), key) == find_key_items(items.take(m), key));
        lemma_find_items_extends(items, m + 1, key);
    } else {
        assert(items.take(m) =~= items);
    }
}

/// The text a field gives: a string's text, or a non-negative integer in decimal.
pub open spec fn field_text(j: Json, key: Seq<char>) -> Option<Seq<char>> {
    match get_spec(j, key) {
        Some(v) => match str_spec(v) {
            Some(t) => Some(t),
            None => match u64_spec(v) {
                Some(n) => Some(dec_spec(n as nat)),
                None => None,
            },
        },
        None => None,
    }
}

/// The text of the first of `keys` whose field gives one.
pub open spec fn string_field_spec(j: Json, keys: Seq<Seq<char>>) -> Option<Seq<char>>
    decreases keys.len(),
{
    if keys.len() == 0 {
        None
    } else {
        match field_text(j, keys[0]) {
            Some(t) => Some(t),
            None => string_field_spec(j, keys.drop_first()),
        }
    }
}

/// The views of a list of string slices.
pub open spec fn key_views(keys: Seq<&str>) -> Seq<Seq<char>> {
    keys.map_values(|k: &str| k@)
}

/// The text of the first of `keys` whose field is a string or a
/// non-negative integer.
pub fn string_field(value: &Json, keys: &[&str]) -> (r: Option<String>)
    ensures
        match (r, string_field_spec(*value, key_views(keys@))) {
            (Some(a), Some(b)) => a@ == b,
            (None, None) => true,
            _ => false,
        },
{
    let ghost ks = key_views(keys@);
    let mut i: usize = 0;
    assert(ks.skip(0) =~= ks);
    while i < keys.len()
        invariant
            i <= keys@.len(),
            ks == key_views(keys@),
            string_field_spec(*value, ks) == string_field_spec(*value, ks.skip(i as int)),
        decreases keys@.len() - i,
    {
        assert(ks.skip(i as int)[0] == keys@[i as int]@);
        assert(ks.skip(i as int).drop_first() =~= ks.skip(i + 1));
        if let Some(v) = get(value, keys[i]) {
            if let Some(t) = as_str(v) {
                return Some(String::from_str(t));
            }
            if let Some(n) = as_u64(v) {
                return Some(dec_string(n));
            }
        }
        i = i + 1;
    }
    None
}

/// The messages of a list of GraphQL errors, skipping errors without one.
pub open spec fn error_messages(items: Seq<Json>) -> Seq<Seq<char>>
    decreases items.len(),
{
    if items.len() == 0 {
        Seq::empty()
    } else {
        let r = error_messages(items.drop_last());
        match get_spec(items.last(), "message"@) {
            Some(m) => match str_spec(m) {
                Some(t) => r.push(t),
                None => r,
            },
            None => r,
        }
    }
}

/// The error messages of a GraphQL response, joined with `, `; none when it
/// has no `errors` list or no error in it has a message.
pub open spec fn graphql_errors_spec(j: Json) -> Option<Seq<char>> {
    match get_spec(j, "errors"@) {
        Some(Json::Array(items)) => {
            let m = error_messages(items@);
            if m.len() > 0 {
                Some(join_spec(m, ", "@))
            } else {
                None
            }
        },
        _ => None,
    }
}

/// Reads the error messages of a GraphQL response (see `graphql_errors_spec`).
pub fn graphql_errors(value: &Json) -> (r: Option<String>)
    ensures
        match (r, graphql_errors_spec(*value)) {
            (Some(a), Some(b)) => a@ == b,
            (None, None) => true,
            _ => false,
        },
{
    let errors = match get(value, "errors") {
        Some(e) => e,
        None => return None,
    };
    let items = match errors {
        Json::Array(items) => items,
        _ => return None,
    };
    let mut messages: Vec<String> = Vec::new();
    let mut i: usize = 0;
    while i < items.len()
        invariant
            i <= items@.len(),
            views(messages@) == error_messages(items@.take(i as int)),
        decreases items@.len() - i,
    {
        assert(items@.take(i + 1).drop_last() =~= items@.take(i as int));
        assert(items@.take(i + 1).last() == items@[i as int]);
        if let Some(m) = get(&items[i], "message") {
            if let Some(t) = as_str(m) {
                messages.push(String::from_str(t));
                assert(views(messages@) =~= error_messages(items@.take(i as int)).push(t@));
            }
        }
        i = i + 1;
    }
    assert(items@.take(items@.len() as int) =~= items@);
    if messages.len() == 0 {
        return None;
    }
    Some(join(&messages, ", "))
}

} // verus!
