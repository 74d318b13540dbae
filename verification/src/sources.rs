//! Reading the provider sources an AllAnime episode lists, from its JSON or
//! from the raw response text.

use vstd::prelude::*;
use crate::json::{Json, JsonField, get, get_spec, as_str, str_spec};
use crate::pattern::{regex_all_matches, regex_captures_all, opt_views, match_views, group_in, take_group};
use crate::provider::{SourceRef, source_ref_from_fields, source_path_spec, utf8_of};
use crate::text::{replace, replace_spec, strip_prefixes_spec};

verus! {

/// A source reference as a pair of texts: provider name and path.
pub open spec fn ref_view(r: SourceRef) -> (Seq<char>, Seq<char>) {
    (r.name@, r.path@)
}

/// The views of a list of source references.
pub open spec fn refs_view(v: Seq<SourceRef>) -> Seq<(Seq<char>, Seq<char>)> {
    v.map_values(|r: SourceRef| ref_view(r))
}

/// The source reference a provider name and source URL give (see
/// `source_ref_from_fields`).
pub open spec fn ref_from_fields_spec(name: Seq<char>, url: Seq<char>) -> Option<(Seq<char>, Seq<char>)> {
    match source_path_spec(url, utf8_of(strip_prefixes_spec(url, "--"@))) {
        Some(p) => Some((name, p)),
        None => None,
    }
}

/// A response with its escaped slashes and quotes unescaped (`\u002F` and
/// `\/` become `/`, `\"` becomes `"`).
pub open spec fn unescape_spec(s: Seq<char>) -> Seq<char> {
    replace_spec(
        replace_spec(replace_spec(s, "\\u002F"@, "/"@), "\\/"@, "/"@),
        "\\\""@,
        "\""@,
    )
}

/// Unescapes slashes and quotes (see `unescape_spec`).
pub fn unescape_response(s: &str) -> (r: String)
    ensures
        r@ == unescape_spec(s@),
{
    proof {
        reveal_strlit("\\u002F");
        reveal_strlit("\\/");
        reveal_strlit("\\\"");
    }
    let a = replace(s, "\\u002F", "/");
    let b = replace(a.as_str(), "\\/", "/");
    replace(b.as_str(), "\\\"", "\"")
}

/// A source URL followed, later on, by its provider name.
pub const FORWARD_REF_PATTERN: &'static str = "\"sourceUrl\":\"([^\"]+)\".*?\"sourceName\":\"([^\"]+)\"";

/// A provider name followed, later on, by its source URL.
pub const REVERSE_REF_PATTERN: &'static str = "\"sourceName\":\"([^\"]+)\".*?\"sourceUrl\":\"([^\"]+)\"";

/// The references that matches give, the name in group `ng` and the URL in
/// group `ug`; a match missing either group gives none.
pub open spec fn refs_from_matches(ms: Seq<Seq<Option<Seq<char>>>>, ng: int, ug: int) -> Seq<
    (Seq<char>, Seq<char>),
>
    decreases ms.len(),
{
    if ms.len() == 0 {
        Seq::empty()
    } else {
        let r = refs_from_matches(ms.drop_last(), ng, ug);
        match (group_in(ms.last(), ng), group_in(ms.last(), ug)) {
            (Some(n), Some(u)) => match ref_from_fields_spec(n, u) {
                Some(x) => r.push(x),
                None => r,
            },
            _ => r,
        }
    }
}

/// The references found in raw text: first those whose URL comes before the
/// name, then those whose name comes first.
pub open spec fn refs_from_text_spec(text: Seq<char>) -> Seq<(Seq<char>, Seq<char>)> {
    let n = unescape_spec(text);
    refs_from_matches(regex_all_matches(FORWARD_REF_PATTERN@, n), 2, 1) + refs_from_matches(
        regex_all_matches(REVERSE_REF_PATTERN@, n),
        1,
        2,
    )
}

/// Appends the references that the matches give.
fn push_refs_from_matches(
    out: &mut Vec<SourceRef>,
    ms: &Vec<Vec<Option<String>>>,
    ng: usize,
    ug: usize,
)
    ensures
        refs_view(final(out)@) == refs_view(old(out)@) + refs_from_matches(
            match_views(ms@),
            ng as int,
            ug as int,
        ),
{
    let ghost start = refs_view(out@);
    let ghost mv = match_views(ms@);
    let mut i: usize = 0;
    assert(mv.take(0) =~= Seq::<Seq<Option<Seq<char>>>>::empty());
    assert(start + Seq::<(Seq<char>, Seq<char>)>::empty() =~= start);
    while i < ms.len()
        invariant
            i <= ms@.len(),
            mv == match_views(ms@),
            refs_view(out@) == start + refs_from_matches(mv.take(i as int), ng as int, ug as int),
        decreases ms@.len() - i,
    {
        assert(mv.take(i + 1).drop_last() =~= mv.take(i as int));
        assert(mv.take(i + 1).last() == opt_views(ms@[i as int]@));
        let name = take_group(&ms[i], ng);
        let url = take_group(&ms[i], ug);
        let ghost before = refs_view(out@);
        match (name, url) {
            (Some(n), Some(u)) => {
                match source_ref_from_fields(n.as_str(), u.as_str()) {
                    Some(r) => {
                        out.push(r);
                        assert(refs_view(out@) =~= before.push(ref_view(r)));
                    },
                    None => {},
                }
            },
            _ => {},
        }
        i = i + 1;
    }
    assert(mv.take(ms@.len() as int) =~= mv);
}

/// The source references found in raw response text (see `refs_from_text_spec`).
pub fn source_refs_from_text(value: &str) -> (r: Vec<SourceRef>)
    ensures
        refs_view(r@) == refs_from_text_spec(value@),
{
    let normalized = unescape_response(value);
    let forward = regex_captures_all(FORWARD_REF_PATTERN, normalized.as_str());
    let reverse = regex_captures_all(REVERSE_REF_PATTERN, normalized.as_str());
    let mut refs: Vec<SourceRef> = Vec::new();
    assert(refs_view(refs@) =~= Seq::<(Seq<char>, Seq<char>)>::empty());
    push_refs_from_matches(&mut refs, &forward, 2, 1);
    push_refs_from_matches(&mut refs, &reverse, 1, 2);
    assert(Seq::<(Seq<char>, Seq<char>)>::empty() + refs_from_matches(match_views(forward@), 2, 1)
        =~= refs_from_matches(match_views(forward@), 2, 1));
    refs
}

/// The text of the field `k1`, or of `k2` when there is no field `k1`.
pub open spec fn text_of_either(j: Json, k1: Seq<char>, k2: Seq<char>) -> Option<Seq<char>> {
    match get_spec(j, k1) {
        Some(v) => str_spec(v),
        None => match get_spec(j, k2) {
            Some(v) => str_spec(v),
            None => None,
        },
    }
}

/// The source references a JSON value lists: an object with a name
/// (`sourceName` or `name`) and a URL (`sourceUrl` or `url`) is one
/// reference; other objects and arrays are searched in order; a string is
/// read as the JSON it holds, or else as raw text.
pub open spec fn refs_of_value(j: Json) -> Seq<(Seq<char>, Seq<char>)>
    decreases j, 1nat,
{
    match j {
        Json::Array(items) => refs_of_items(items@),
        Json::Object(fields) => match (
            text_of_either(j, "sourceName"@, "name"@),
            text_of_either(j, "sourceUrl"@, "url"@),
        ) {
            (Some(n), Some(u)) => match ref_from_fields_spec(n, u) {
                Some(x) => seq![x],
                None => Seq::empty(),
            },
            _ => refs_of_fields(fields@),
        },
        Json::Str(t) => match t.parsed {
            Some(b) => refs_of_value(*b),
            None => refs_from_text_spec(t.text@),
        },
        _ => Seq::empty(),
    }
}

/// `refs_of_value` over items, in order.
pub open spec fn refs_of_items(items: Seq<Json>) -> Seq<(Seq<char>, Seq<char>)>
    decreases items, 0nat,
{
    if items.len() == 0 {
        Seq::empty()
    } else {
        refs_of_items(items.drop_last()) + refs_of_value(items.last())
    }
}

/// The refs of items, in order, are those of each item, concatenated.
proof fn lemma_items_refs_concatenate(items: Seq<Json>)
    ensures
        refs_of_items(items) == items.map_values(|x: Json| refs_of_value(x)).flatten_alt(),
    decreases items.len(),
{
    if items.len() > 0 {
        lemma_items_refs_concatenate(items.drop_last());
        assert(items.map_values(|x: Json| refs_of_value(x)).drop_last() =~= items.drop_last().map_values(
            |x: Json| refs_of_value(x),
        ));
    }
}

/// The refs found in an array are those found in each of its items,
/// concatenated in the items' order.
pub proof fn array_refs_are_item_refs_in_order(j: Json)
    requires
        j is Array,
    ensures
        refs_of_value(j) == j->Array_0@.map_values(|x: Json| refs_of_value(x)).flatten(),
{
    let items = j->Array_0@;
    lemma_items_refs_concatenate(items);
    items.map_values(|x: Json| refs_of_value(x)).lemma_flatten_and_flatten_alt_are_equivalent();
}

/// `refs_of_value` over the values of fields, in order.
pub open spec fn refs_of_fields(fields: Seq<JsonField>) -> Seq<(Seq<char>, Seq<char>)>
    decreases fields, 0nat,
{
    if fields.len() == 0 {
        Seq::empty()
    } else {
        refs_of_fields(fields.drop_last()) + refs_of_value(fields.last().value)
    }
}

fn text_of_either_exec<'a>(j: &'a Json, k1: &str, k2: &str) -> (r: Option<&'a str>)
    ensures
        match (r, text_of_either(*j, k1@, k2@)) {
            (Some(a), Some(b)) => a@ == b,
            (None, None) => true,
            _ => false,
        },
{
    match get(j, k1) {
        Some(v) => as_str(v),
        None => match get(j, k2) {
            Some(v) => as_str(v),
            None => None,
        },
    }
}

/// Appends `more` to `out`.
fn append_refs(out: &mut Vec<SourceRef>, more: Vec<SourceRef>)
    ensures
        refs_view(final(out)@) == refs_view(old(out)@) + refs_view(more@),
{
    let mut more = more;
    let ghost a = old(out)@;
    let ghost b = more@;
    out.append(&mut more);
    assert(refs_view(a + b) =~= refs_view(a) + refs_view(b));
}

/// The source references a JSON value lists (see `refs_of_value`).
pub fn source_refs_from_value(value: &Json) -> (r: Vec<SourceRef>)
    ensures
        refs_view(r@) == refs_of_value(*value),
    decreases value,
{
    match value {
        Json::Array(items) => {
            let mut out: Vec<SourceRef> = Vec::new();
            let mut i: usize = 0;
            assert(refs_view(out@) =~= refs_of_items(items@.take(0)));
            while i < items.len()
                invariant
                    i <= items@.len(),
                    *value == Json::Array(*items),
                    refs_view(out@) == refs_of_items(items@.take(i as int)),
                decreases items@.len() - i,
            {
                assert(items@.take(i + 1).drop_last() =~= items@.take(i as int));
                proof {
                    assert(decreases_to!(*value => (*value)->Array_0));
                    assert(decreases_to!(*items => items@));
                    assert(decreases_to!(items@ => items@[i as int]));
                }
                let more = source_refs_from_value(&items[i]);
                append_refs(&mut out, more);
                i = i + 1;
            }
            assert(items@.take(items@.len() as int) =~= items@);
            out
        },
        Json::Object(fields) => {
            let name = text_of_either_exec(value, "sourceName", "name");
            let url = text_of_either_exec(value, "sourceUrl", "url");
            if let (Some(n), Some(u)) = (name, url) {
                let mut out: Vec<SourceRef> = Vec::new();
                match source_ref_from_fields(n, u) {
                    Some(x) => {
                        out.push(x);
                        assert(refs_view(out@) =~= seq![ref_view(x)]);
                    },
                    None => {
                        assert(refs_view(out@) =~= Seq::<(Seq<char>, Seq<char>)>::empty());
                    },
                }
                return out;
            }
            let mut out: Vec<SourceRef> = Vec::new();
            let mut i: usize = 0;
            assert(refs_view(out@) =~= refs_of_fields(fields@.take(0)));
            while i < fields.len()
                invariant
                    i <= fields@.len(),
                    *value == Json::Object(*fields),
                    refs_view(out@) == refs_of_fields(fields@.take(i as int)),
                decreases fields@.len() - i,
            {
                assert(fields@.take(i + 1).drop_last() =~= fields@.take(i as int));
                proof {
                    assert(decreases_to!(*value => (*value)->Object_0));
                    assert(decreases_to!(*fields => fields@));
                    assert(decreases_to!(fields@ => fields@[i as int]));
                    assert(decreases_to!(fields@[i as int] => fields@[i as int].value));
                }
                let more = source_refs_from_value(&fields[i].value);
                append_refs(&mut out, more);
                i = i + 1;
            }
            assert(fields@.take(fields@.len() as int) =~= fields@);
            out
        },
        Json::Str(t) => match &t.parsed {
            Some(b) => source_refs_from_value(b),
            None => source_refs_from_text(t.text.as_str()),
        },
        _ => {
            let out: Vec<SourceRef> = Vec::new();
            assert(refs_view(out@) =~= Seq::<(Seq<char>, Seq<char>)>::empty());
            out
        },
    }
}

} // verus!
