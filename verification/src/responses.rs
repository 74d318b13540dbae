//! Reading the stream links out of a provider's response: link metadata in
//! JSON, links found in raw text, Wixmp quality templates and HLS playlists.

use vstd::prelude::*;
use crate::json::{
    Json, JsonField, get, get_spec, get_path, path_spec, as_str, str_spec, string_field,
    string_field_spec, key_views, find_key, find_key_spec,
};
use crate::links::{
    ProviderLinkMeta, normalize_quality, quality_label_spec, track_view, tracks_view, LinkView,
    link_view, links_view, opt_text,
};
use crate::media::{StreamLink, SubtitleTrack, clone_opt, clone_tracks};
use crate::links::{
    dedupe_links, dedupe_view, lemma_dedupe_view, stream_from_provider_meta, stream_from_meta_spec,
};
use crate::pattern::{
    regex_first_match, regex_all_matches, regex_captures_all, regex_replace, regex_replace_first,
    match_views, opt_views, group_in, group_of, take_group, first_group,
};
use crate::seqs::{last_index, lemma_last_index_unique};
use crate::text::{
    contains, contains_spec, starts_with, starts_with_spec, replace, replace_spec, split_char,
    split_spec, lines, lines_spec, trim, trim_spec, chars_of, rfind_char,
    string_of_range, push_str, views, before_first, before_first_spec,
};

verus! {

// ---------------------------------------------------------------------
// Subtitle tracks
// ---------------------------------------------------------------------

/// Keys that give a track's URL, in order of preference.
pub open spec fn track_url_keys() -> Seq<Seq<char>> {
    seq!["src"@, "url"@, "file"@]
}

/// Keys that give a track's language.
pub open spec fn track_lang_keys() -> Seq<Seq<char>> {
    seq!["lang"@, "shortcode"@, "srclang"@, "language"@]
}

/// Keys that give a track's label.
pub open spec fn track_label_keys() -> Seq<Seq<char>> {
    seq!["label"@, "name"@]
}

/// The track a JSON item describes: it needs a URL; the language defaults to
/// `unknown` and an absent or empty label to the language.
pub open spec fn track_of(item: Json) -> Option<(Seq<char>, Seq<char>, Seq<char>)> {
    match string_field_spec(item, track_url_keys()) {
        None => None,
        Some(url) => {
            let lang = match string_field_spec(item, track_lang_keys()) {
                Some(l) => l,
                None => "unknown"@,
            };
            let label = match string_field_spec(item, track_label_keys()) {
                Some(l) => if l.len() > 0 {
                    l
                } else {
                    lang
                },
                None => lang,
            };
            Some((lang, label, url))
        },
    }
}

/// The tracks of a list of items, skipping items without a URL.
pub open spec fn tracks_of_items(items: Seq<Json>) -> Seq<(Seq<char>, Seq<char>, Seq<char>)>
    decreases items.len(),
{
    if items.len() == 0 {
        Seq::empty()
    } else {
        let r = tracks_of_items(items.drop_last());
        match track_of(items.last()) {
            Some(t) => r.push(t),
            None => r,
        }
    }
}

/// The subtitle tracks a JSON value lists: the tracks of an array, none otherwise.
pub open spec fn tracks_of(j: Json) -> Seq<(Seq<char>, Seq<char>, Seq<char>)> {
    match j {
        Json::Array(items) => tracks_of_items(items@),
        _ => Seq::empty(),
    }
}

fn track_from_item(item: &Json) -> (r: Option<SubtitleTrack>)
    ensures
        match (r, track_of(*item)) {
            (Some(t), Some(v)) => track_view(t) == v,
            (None, None) => true,
            _ => false,
        },
{
    let url_keys: [&str; 3] = ["src", "url", "file"];
    let lang_keys: [&str; 4] = ["lang", "shortcode", "srclang", "language"];
    let label_keys: [&str; 2] = ["label", "name"];
    assert(key_views(url_keys@) =~= track_url_keys());
    assert(key_views(lang_keys@) =~= track_lang_keys());
    assert(key_views(label_keys@) =~= track_label_keys());
    let url = match string_field(item, &url_keys) {
        Some(u) => u,
        None => return None,
    };
    let lang = match string_field(item, &lang_keys) {
        Some(l) => l,
        None => String::from_str("unknown"),
    };
    let label = match string_field(item, &label_keys) {
        Some(l) => if l.as_str().is_empty() {
            lang.clone()
        } else {
            l
        },
        None => lang.clone(),
    };
    Some(SubtitleTrack { lang, label, url })
}

/// The subtitle tracks a JSON value lists (see `tracks_of`).
pub fn subtitle_tracks_from_value(value: &Json) -> (r: Vec<SubtitleTrack>)
    ensures
        tracks_view(r@) == tracks_of(*value),
{
    let mut out: Vec<SubtitleTrack> = Vec::new();
    match value {
        Json::Array(items) => {
            let mut i: usize = 0;
            assert(tracks_view(out@) =~= tracks_of_items(items@.take(0)));
            while i < items.len()
                invariant
                    i <= items@.len(),
                    tracks_view(out@) == tracks_of_items(items@.take(i as int)),
                decreases items@.len() - i,
            {
                assert(items@.take(i + 1).drop_last() =~= items@.take(i as int));
                assert(items@.take(i + 1).last() == items@[i as int]);
                let ghost before = tracks_view(out@);
                match track_from_item(&items[i]) {
                    Some(t) => {
                        out.push(t);
                        assert(tracks_view(out@) =~= before.push(track_view(t)));
                    },
                    None => {},
                }
                i = i + 1;
            }
            assert(items@.take(items@.len() as int) =~= items@);
            out
        },
        _ => {
            assert(tracks_view(out@) =~= Seq::<(Seq<char>, Seq<char>, Seq<char>)>::empty());
            out
        },
    }
}

/// The subtitle tracks listed under the first `subtitles` key anywhere in a
/// response, given the response's JSON (none when it is not JSON).
pub open spec fn tracks_in_response(parsed: Option<Json>) -> Seq<(Seq<char>, Seq<char>, Seq<char>)> {
    match parsed {
        Some(j) => match find_key_spec(j, "subtitles"@) {
            Some(v) => tracks_of(v),
            None => Seq::empty(),
        },
        None => Seq::empty(),
    }
}

/// The subtitle tracks of a response (see `tracks_in_response`).
pub fn subtitle_tracks_from_text(parsed: Option<&Json>) -> (r: Vec<SubtitleTrack>)
    ensures
        tracks_view(r@) == tracks_in_response(match parsed {
            Some(j) => Some(*j),
            None => None,
        }),
{
    match parsed {
        Some(j) => match find_key(j, "subtitles") {
            Some(v) => subtitle_tracks_from_value(v),
            None => {
                let out: Vec<SubtitleTrack> = Vec::new();
                assert(tracks_view(out@) =~= Seq::<(Seq<char>, Seq<char>, Seq<char>)>::empty());
                out
            },
        },
        None => {
            let out: Vec<SubtitleTrack> = Vec::new();
            assert(tracks_view(out@) =~= Seq::<(Seq<char>, Seq<char>, Seq<char>)>::empty());
            out
        },
    }
}

// ---------------------------------------------------------------------
// Link metadata
// ---------------------------------------------------------------------

/// Provider link metadata by its texts.
pub struct MetaView {
    pub quality: Option<Seq<char>>,
    pub url: Seq<char>,
    pub referrer: Option<Seq<char>>,
    pub subtitles: Seq<(Seq<char>, Seq<char>, Seq<char>)>,
    pub hardsub_language: Option<Seq<char>>,
    pub audio_language: Option<Seq<char>>,
}

/// The texts of provider link metadata.
pub open spec fn meta_view(m: ProviderLinkMeta) -> MetaView {
    MetaView {
        quality: opt_text(m.quality),
        url: m.url@,
        referrer: opt_text(m.referrer),
        subtitles: tracks_view(m.subtitles@),
        hardsub_language: opt_text(m.hardsub_language),
        audio_language: opt_text(m.audio_language),
    }
}

/// The views of a list of link metadata.
pub open spec fn metas_view(ms: Seq<ProviderLinkMeta>) -> Seq<MetaView> {
    ms.map_values(|m: ProviderLinkMeta| meta_view(m))
}

/// Keys that give a link's quality.
pub open spec fn quality_keys() -> Seq<Seq<char>> {
    seq!["resolutionStr"@, "resolution"@, "quality"@]
}

/// Keys that give a link's referrer when it has no `headers.Referer`.
pub open spec fn referrer_keys() -> Seq<Seq<char>> {
    seq!["Referer"@, "referrer"@]
}

/// Keys that give a link's hard-subtitle language.
pub open spec fn hardsub_keys() -> Seq<Seq<char>> {
    seq!["hardsub_lang"@, "hardsubLang"@]
}

/// Keys that give a link's audio language.
pub open spec fn audio_keys() -> Seq<Seq<char>> {
    seq![
        "audio_lang"@,
        "audioLang"@,
        "dub_lang"@,
        "dubLang"@,
        "audio_language"@,
        "audioLanguage"@,
    ]
}

/// The value of the first of the fields `link`, `url`, `file` that an object
/// has, when it is a string: the object's link URL.
pub open spec fn link_url_of(j: Json) -> Option<Seq<char>> {
    match get_spec(j, "link"@) {
        Some(v) => str_spec(v),
        None => match get_spec(j, "url"@) {
            Some(v) => str_spec(v),
            None => match get_spec(j, "file"@) {
                Some(v) => str_spec(v),
                None => None,
            },
        },
    }
}

/// The tracks field of a link object: `subtitles`, else `tracks`, else null.
pub open spec fn tracks_field(j: Json) -> Json {
    match get_spec(j, "subtitles"@) {
        Some(v) => v,
        None => match get_spec(j, "tracks"@) {
            Some(v) => v,
            None => Json::Null,
        },
    }
}

/// The referrer of a link object: `headers.Referer` when it is a string,
/// else the first of `Referer`, `referrer`.
pub open spec fn referrer_of(j: Json) -> Option<Seq<char>> {
    match path_spec(j, seq!["headers"@, "Referer"@]) {
        Some(v) => match str_spec(v) {
            Some(t) => Some(t),
            None => string_field_spec(j, referrer_keys()),
        },
        None => string_field_spec(j, referrer_keys()),
    }
}

/// The metadata of a link object whose link URL is `url`.
pub open spec fn meta_of_object(j: Json, url: Seq<char>) -> MetaView {
    MetaView {
        quality: match string_field_spec(j, quality_keys()) {
            Some(q) => Some(quality_label_spec(q)),
            None => None,
        },
        url,
        referrer: referrer_of(j),
        subtitles: tracks_of(tracks_field(j)),
        hardsub_language: string_field_spec(j, hardsub_keys()),
        audio_language: string_field_spec(j, audio_keys()),
    }
}

/// The link metadata a JSON value holds: an object with a link URL is one
/// link; other objects and arrays are searched in order.
pub open spec fn metas_of_value(j: Json) -> Seq<MetaView>
    decreases j, 1nat,
{
    match j {
        Json::Array(items) => metas_of_items(items@),
        Json::Object(fields) => match link_url_of(j) {
            Some(url) => seq![meta_of_object(j, url)],
            None => metas_of_fields(fields@),
        },
        _ => Seq::empty(),
    }
}

/// `metas_of_value` over items, in order.
pub open spec fn metas_of_items(items: Seq<Json>) -> Seq<MetaView>
    decreases items, 0nat,
{
    if items.len() == 0 {
        Seq::empty()
    } else {
        metas_of_items(items.drop_last()) + metas_of_value(items.last())
    }
}

/// `metas_of_value` over the values of fields, in order.
pub open spec fn metas_of_fields(fields: Seq<JsonField>) -> Seq<MetaView>
    decreases fields, 0nat,
{
    if fields.len() == 0 {
        Seq::empty()
    } else {
        metas_of_fields(fields.drop_last()) + metas_of_value(fields.last().value)
    }
}

fn link_url_exec<'a>(j: &'a Json) -> (r: Option<&'a str>)
    ensures
        match (r, link_url_of(*j)) {
            (Some(a), Some(b)) => a@ == b,
            (None, None) => true,
            _ => false,
        },
{
    match get(j, "link") {
        Some(v) => as_str(v),
        None => match get(j, "url") {
            Some(v) => as_str(v),
            None => match get(j, "file") {
                Some(v) => as_str(v),
                None => None,
            },
        },
    }
}

fn referrer_exec(j: &Json) -> (r: Option<String>)
    ensures
        opt_text(r) == referrer_of(*j),
{
    let referrer_keys_list: [&str; 2] = ["Referer", "referrer"];
    assert(key_views(referrer_keys_list@) =~= referrer_keys());
    let path: [&str; 2] = ["headers", "Referer"];
    assert(path@.map_values(|k: &str| k@) =~= seq!["headers"@, "Referer"@]);
    match get_path(j, &path) {
        Some(v) => match as_str(v) {
            Some(t) => Some(String::from_str(t)),
            None => string_field(j, &referrer_keys_list),
        },
        None => string_field(j, &referrer_keys_list),
    }
}

fn meta_from_object(j: &Json, url: &str) -> (r: ProviderLinkMeta)
    ensures
        meta_view(r) == meta_of_object(*j, url@),
{
    let quality_keys_list: [&str; 3] = ["resolutionStr", "resolution", "quality"];
    let hardsub_keys_list: [&str; 2] = ["hardsub_lang", "hardsubLang"];
    let audio_keys_list: [&str; 6] = [
        "audio_lang",
        "audioLang",
        "dub_lang",
        "dubLang",
        "audio_language",
        "audioLanguage",
    ];
    assert(key_views(quality_keys_list@) =~= quality_keys());
    assert(key_views(hardsub_keys_list@) =~= hardsub_keys());
    assert(key_views(audio_keys_list@) =~= audio_keys());
    let quality = match string_field(j, &quality_keys_list) {
        Some(q) => Some(normalize_quality(q)),
        None => None,
    };
    let null = Json::Null;
    let tracks_value: &Json = match get(j, "subtitles") {
        Some(v) => v,
        None => match get(j, "tracks") {
            Some(v) => v,
            None => &null,
        },
    };
    ProviderLinkMeta {
        quality,
        url: String::from_str(url),
        referrer: referrer_exec(j),
        subtitles: subtitle_tracks_from_value(tracks_value),
        hardsub_language: string_field(j, &hardsub_keys_list),
        audio_language: string_field(j, &audio_keys_list),
    }
}

/// Appends `more` to `out`.
fn append_metas(out: &mut Vec<ProviderLinkMeta>, more: Vec<ProviderLinkMeta>)
    ensures
        metas_view(final(out)@) == metas_view(old(out)@) + metas_view(more@),
{
    let mut more = more;
    let ghost a = old(out)@;
    let ghost b = more@;
    out.append(&mut more);
    assert(metas_view(a + b) =~= metas_view(a) + metas_view(b));
}

/// The link metadata a JSON value holds (see `metas_of_value`).
pub fn collect_provider_link_metadata(value: &Json) -> (r: Vec<ProviderLinkMeta>)
    ensures
        metas_view(r@) == metas_of_value(*value),
    decreases value,
{
    match value {
        Json::Array(items) => {
            let mut out: Vec<ProviderLinkMeta> = Vec::new();
            let mut i: usize = 0;
            assert(metas_view(out@) =~= metas_of_items(items@.take(0)));
            while i < items.len()
                invariant
                    i <= items@.len(),
                    *value == Json::Array(*items),
                    metas_view(out@) == metas_of_items(items@.take(i as int)),
                decreases items@.len() - i,
            {
                assert(items@.take(i + 1).drop_last() =~= items@.take(i as int));
                proof {
                    assert(decreases_to!(*value => (*value)->Array_0));
                    assert(decreases_to!(*items => items@));
                    assert(decreases_to!(items@ => items@[i as int]));
                }
                let more = collect_provider_link_metadata(&items[i]);
                append_metas(&mut out, more);
                i = i + 1;
            }
            assert(items@.take(items@.len() as int) =~= items@);
            out
        },
        Json::Object(fields) => {
            if let Some(url) = link_url_exec(value) {
                let mut out: Vec<ProviderLinkMeta> = Vec::new();
                let m = meta_from_object(value, url);
                out.push(m);
                assert(metas_view(out@) =~= seq![meta_view(m)]);
                return out;
            }
            let mut out: Vec<ProviderLinkMeta> = Vec::new();
            let mut i: usize = 0;
            assert(metas_view(out@) =~= metas_of_fields(fields@.take(0)));
            while i < fields.len()
                invariant
                    i <= fields@.len(),
                    *value == Json::Object(*fields),
                    metas_view(out@) == metas_of_fields(fields@.take(i as int)),
                decreases fields@.len() - i,
            {
                assert(fields@.take(i + 1).drop_last() =~= fields@.take(i as int));
                proof {
                    assert(decreases_to!(*value => (*value)->Object_0));
                    assert(decreases_to!(*fields => fields@));
                    assert(decreases_to!(fields@ => fields@[i as int]));
                    assert(decreases_to!(fields@[i as int] => fields@[i as int].value));
                }
                let more = collect_provider_link_metadata(&fields[i].value);
                append_metas(&mut out, more);
                i = i + 1;
            }
            assert(fields@.take(fields@.len() as int) =~= fields@);
            out
        },
        _ => {
            let out: Vec<ProviderLinkMeta> = Vec::new();
            assert(metas_view(out@) =~= Seq::<MetaView>::empty());
            out
        },
    }
}

// ---------------------------------------------------------------------
// Direct links
// ---------------------------------------------------------------------

/// The stream link that link metadata describes, by its texts (see
/// `stream_from_provider_meta`).
pub open spec fn meta_link_view(m: MetaView, source: Seq<char>) -> LinkView {
    LinkView {
        quality: match m.quality {
            Some(q) => q,
            None => "hls"@,
        },
        url: m.url,
        source,
        referrer: m.referrer,
        subtitle: if m.subtitles.len() > 0 {
            Some(m.subtitles[0].2)
        } else {
            None
        },
        subtitles: m.subtitles,
        hardsub_language: m.hardsub_language,
        audio_language: m.audio_language,
        soft_subbed: m.subtitles.len() > 0,
    }
}

proof fn lemma_meta_link_view(meta: ProviderLinkMeta, source: Seq<char>, r: StreamLink)
    requires
        stream_from_meta_spec(meta, source, r),
    ensures
        link_view(r) == meta_link_view(meta_view(meta), source),
{
    if meta.subtitles@.len() > 0 {
        assert(tracks_view(meta.subtitles@)[0] == track_view(meta.subtitles@[0]));
    }
}

/// The links of the metadata whose URL is no HLS playlist, in order.
pub open spec fn links_from_metas(ms: Seq<MetaView>, source: Seq<char>) -> Seq<LinkView>
    decreases ms.len(),
{
    if ms.len() == 0 {
        Seq::empty()
    } else {
        let r = links_from_metas(ms.drop_last(), source);
        if contains_spec(ms.last().url, ".m3u8"@) {
            r
        } else {
            r.push(meta_link_view(ms.last(), source))
        }
    }
}

/// A link carrying only a quality, a URL, a source and maybe a hard-subtitle
/// language.
pub open spec fn plain_link(
    quality: Seq<char>,
    url: Seq<char>,
    source: Seq<char>,
    hardsub: Option<Seq<char>>,
) -> LinkView {
    LinkView {
        quality,
        url,
        source,
        referrer: None,
        subtitle: None,
        subtitles: Seq::empty(),
        hardsub_language: hardsub,
        audio_language: None,
        soft_subbed: false,
    }
}

/// Group `i` of a match, empty when it is absent.
pub open spec fn group_or_empty(g: Seq<Option<Seq<char>>>, i: int) -> Seq<char> {
    match group_in(g, i) {
        Some(t) => t,
        None => Seq::empty(),
    }
}

/// A link URL followed, later on, by its resolution label.
pub const LINK_PATTERN: &'static str = "\"link\":\"([^\"]+)\".*?\"resolutionStr\":\"([^\"]+)\"";

/// An HLS URL followed, later on, by its hard-subtitle language.
pub const HLS_LINK_PATTERN: &'static str = "\"hls\",\"url\":\"([^\"]+)\".*?\"hardsub_lang\":\"([^\"]+)\"";

/// The links that `LINK_PATTERN` matches give.
pub open spec fn text_links(ms: Seq<Seq<Option<Seq<char>>>>, source: Seq<char>) -> Seq<LinkView>
    decreases ms.len(),
{
    if ms.len() == 0 {
        Seq::empty()
    } else {
        text_links(ms.drop_last(), source).push(
            plain_link(group_or_empty(ms.last(), 2), group_or_empty(ms.last(), 1), source, None),
        )
    }
}

/// The links that `HLS_LINK_PATTERN` matches give.
pub open spec fn hls_text_links(ms: Seq<Seq<Option<Seq<char>>>>, source: Seq<char>) -> Seq<LinkView>
    decreases ms.len(),
{
    if ms.len() == 0 {
        Seq::empty()
    } else {
        hls_text_links(ms.drop_last(), source).push(
            plain_link("hls"@, group_or_empty(ms.last(), 1), source, group_in(ms.last(), 2)),
        )
    }
}

/// The link metadata of a response, given its JSON (after unescaping).
pub open spec fn metas_of_parsed(parsed: Option<Json>) -> Seq<MetaView> {
    match parsed {
        Some(j) => metas_of_value(j),
        None => Seq::empty(),
    }
}

/// An optional reference as an optional value.
pub open spec fn deref_opt(o: Option<&Json>) -> Option<Json> {
    match o {
        Some(j) => Some(*j),
        None => None,
    }
}

/// The direct links of a provider response: the links of its JSON metadata
/// that are no HLS playlists; when there are none, the links found in its
/// text; without repeats either way.
pub open spec fn direct_links_spec(response: Seq<char>, parsed: Option<Json>, source: Seq<char>) -> Seq<
    LinkView,
> {
    let from_meta = links_from_metas(metas_of_parsed(parsed), source);
    if from_meta.len() > 0 {
        dedupe_view(from_meta)
    } else {
        dedupe_view(
            text_links(regex_all_matches(LINK_PATTERN@, response), source) + hls_text_links(
                regex_all_matches(HLS_LINK_PATTERN@, response),
                source,
            ),
        )
    }
}

fn group_or_empty_exec(g: &Vec<Option<String>>, i: usize) -> (r: String)
    ensures
        r@ == group_or_empty(opt_views(g@), i as int),
{
    match take_group(g, i) {
        Some(s) => s,
        None => String::new(),
    }
}

fn plain_link_exec(quality: String, url: String, source: &str, hardsub: Option<String>) -> (r: StreamLink)
    ensures
        link_view(r) == plain_link(quality@, url@, source@, opt_text(hardsub)),
{
    let r = StreamLink {
        quality,
        url,
        source: String::from_str(source),
        referrer: None,
        subtitle: None,
        subtitles: Vec::new(),
        hardsub_language: hardsub,
        audio_language: None,
        soft_subbed: false,
    };
    assert(tracks_view(r.subtitles@) =~= Seq::<(Seq<char>, Seq<char>, Seq<char>)>::empty());
    r
}

/// The direct links of a provider response (see `direct_links_spec`);
/// `parsed` is the response's JSON after unescaping, if it is JSON.
pub fn parse_direct_links(response: &str, parsed: Option<&Json>, source: &str) -> (r: Vec<StreamLink>)
    ensures
        links_view(r@) == direct_links_spec(response@, deref_opt(parsed), source@),
{
    let metas = match parsed {
        Some(j) => collect_provider_link_metadata(j),
        None => {
            let e: Vec<ProviderLinkMeta> = Vec::new();
            assert(metas_view(e@) =~= Seq::<MetaView>::empty());
            e
        },
    };
    let ghost mv = metas_view(metas@);
    let ghost orig = metas@;
    let mut rest = metas;
    let mut links: Vec<StreamLink> = Vec::new();
    assert(orig.skip(0) =~= orig);
    assert(links_view(links@) =~= links_from_metas(mv.take(0), source@));
    while rest.len() > 0
        invariant
            rest@ == orig.skip(orig.len() - rest@.len()),
            rest@.len() <= orig.len(),
            mv == metas_view(orig),
            links_view(links@) == links_from_metas(mv.take(orig.len() - rest@.len()), source@),
        decreases rest@.len(),
    {
        let ghost i: int = orig.len() - rest@.len();
        let m = rest.remove(0);
        proof {
            assert(m == orig[i]);
            assert(rest@ =~= orig.skip(i + 1));
            assert(mv.take(i + 1).drop_last() =~= mv.take(i));
            assert(mv.take(i + 1).last() == meta_view(m));
        }
        if !contains(m.url.as_str(), ".m3u8") {
            let ghost before = links_view(links@);
            let ghost mm = m;
            let l = stream_from_provider_meta(m, source);
            proof {
                lemma_meta_link_view(mm, source@, l);
            }
            links.push(l);
            assert(links_view(links@) =~= before.push(link_view(l)));
        }
    }
    assert(mv.take(orig.len() as int) =~= mv);
    if links.len() > 0 {
        let ghost input = links@;
        let r = dedupe_links(links);
        proof {
            lemma_dedupe_view(input, r@);
        }
        return r;
    }
    let link_matches = regex_captures_all(LINK_PATTERN, response);
    let hls_matches = regex_captures_all(HLS_LINK_PATTERN, response);
    let ghost lm = match_views(link_matches@);
    let ghost hm = match_views(hls_matches@);
    let mut i: usize = 0;
    assert(links_view(links@) =~= text_links(lm.take(0), source@));
    while i < link_matches.len()
        invariant
            i <= link_matches@.len(),
            lm == match_views(link_matches@),
            links_view(links@) == text_links(lm.take(i as int), source@),
        decreases link_matches@.len() - i,
    {
        assert(lm.take(i + 1).drop_last() =~= lm.take(i as int));
        assert(lm.take(i + 1).last() == opt_views(link_matches@[i as int]@));
        let quality = group_or_empty_exec(&link_matches[i], 2);
        let url = group_or_empty_exec(&link_matches[i], 1);
        let l = plain_link_exec(quality, url, source, None);
        let ghost before = links_view(links@);
        links.push(l);
        assert(links_view(links@) =~= before.push(link_view(l)));
        i = i + 1;
    }
    assert(lm.take(link_matches@.len() as int) =~= lm);
    let ghost first_part = links_view(links@);
    let mut k: usize = 0;
    assert(first_part + hls_text_links(hm.take(0), source@) =~= first_part);
    while k < hls_matches.len()
        invariant
            k <= hls_matches@.len(),
            hm == match_views(hls_matches@),
            links_view(links@) == first_part + hls_text_links(hm.take(k as int), source@),
        decreases hls_matches@.len() - k,
    {
        assert(hm.take(k + 1).drop_last() =~= hm.take(k as int));
        assert(hm.take(k + 1).last() == opt_views(hls_matches@[k as int]@));
        let url = group_or_empty_exec(&hls_matches[k], 1);
        let hardsub = take_group(&hls_matches[k], 2);
        let l = plain_link_exec(String::from_str("hls"), url, source, hardsub);
        let ghost before = links_view(links@);
        links.push(l);
        assert(links_view(links@) =~= before.push(link_view(l)));
        k = k + 1;
    }
    assert(hm.take(hls_matches@.len() as int) =~= hm);
    let ghost input = links@;
    let r = dedupe_links(links);
    proof {
        lemma_dedupe_view(input, r@);
    }
    r
}

// ---------------------------------------------------------------------
// Wixmp quality templates
// ---------------------------------------------------------------------

/// The comma-separated quality options of a Wixmp URL.
pub const WIXMP_OPTIONS_PATTERN: &'static str = "/([^/]*),/mp4";

/// The option part of a Wixmp URL template, replaced by one quality.
pub const WIXMP_OPTION_PATTERN: &'static str = ",[^/]*";

/// The URL template of a Wixmp link: without the repackager host prefix,
/// cut before `.urlset`.
pub open spec fn wixmp_template(url: Seq<char>) -> Seq<char> {
    before_first_spec(replace_spec(url, "repackager.wixmp.com/"@, ""@), ".urlset"@)
}

/// One link per non-empty quality option, its URL the template with the
/// option part replaced by the quality.
pub open spec fn wixmp_variants(
    parts: Seq<Seq<char>>,
    template: Seq<char>,
    l: LinkView,
    source: Seq<char>,
) -> Seq<LinkView>
    decreases parts.len(),
{
    if parts.len() == 0 {
        Seq::empty()
    } else {
        let r = wixmp_variants(parts.drop_last(), template, l, source);
        let q = parts.last();
        if q.len() > 0 {
            r.push(
                LinkView {
                    quality: q,
                    url: regex_replace_first(WIXMP_OPTION_PATTERN@, template, q),
                    source,
                    referrer: l.referrer,
                    subtitle: l.subtitle,
                    subtitles: l.subtitles,
                    hardsub_language: l.hardsub_language,
                    audio_language: l.audio_language,
                    soft_subbed: l.subtitles.len() > 0,
                },
            )
        } else {
            r
        }
    }
}

/// A link as expanded: a Wixmp link with quality options becomes one link
/// per option; any other link stays as it is.
pub open spec fn wixmp_expand(l: LinkView, source: Seq<char>) -> Seq<LinkView> {
    if !contains_spec(l.url, "repackager.wixmp.com"@) {
        seq![l]
    } else {
        match group_of(regex_first_match(WIXMP_OPTIONS_PATTERN@, l.url), 1) {
            Some(opts) => wixmp_variants(split_spec(opts, ','), wixmp_template(l.url), l, source),
            None => seq![l],
        }
    }
}

/// `wixmp_expand` over links, in order.
pub open spec fn wixmp_expand_all(ls: Seq<LinkView>, source: Seq<char>) -> Seq<LinkView>
    decreases ls.len(),
{
    if ls.len() == 0 {
        Seq::empty()
    } else {
        wixmp_expand_all(ls.drop_last(), source) + wixmp_expand(ls.last(), source)
    }
}

/// The links of a Wixmp response: its direct links, expanded, without repeats.
pub open spec fn wixmp_links_spec(response: Seq<char>, parsed: Option<Json>, source: Seq<char>) -> Seq<
    LinkView,
> {
    dedupe_view(wixmp_expand_all(direct_links_spec(response, parsed, source), source))
}

/// Appends the quality variants of a Wixmp link.
fn push_wixmp_variants(out: &mut Vec<StreamLink>, l: &StreamLink, opts: &str, source: &str)
    ensures
        links_view(final(out)@) == links_view(old(out)@) + wixmp_variants(
            split_spec(opts@, ','),
            wixmp_template(l.url@),
            link_view(*l),
            source@,
        ),
{
    proof {
        reveal_strlit("repackager.wixmp.com/");
    }
    let stripped = replace(l.url.as_str(), "repackager.wixmp.com/", "");
    let template = before_first(stripped.as_str(), ".urlset");
    let parts = split_char(opts, ',');
    let ghost ps = views(parts@);
    let ghost start = links_view(out@);
    let ghost lv = link_view(*l);
    let mut i: usize = 0;
    assert(start + wixmp_variants(ps.take(0), template@, lv, source@) =~= start);
    while i < parts.len()
        invariant
            i <= parts@.len(),
            ps == views(parts@),
            lv == link_view(*l),
            template@ == wixmp_template(l.url@),
            links_view(out@) == start + wixmp_variants(ps.take(i as int), template@, lv, source@),
        decreases parts@.len() - i,
    {
        assert(ps.take(i + 1).drop_last() =~= ps.take(i as int));
        assert(ps.take(i + 1).last() == parts@[i as int]@);
        if !parts[i].as_str().is_empty() {
            let q = parts[i].clone();
            let url = regex_replace(WIXMP_OPTION_PATTERN, template.as_str(), q.as_str());
            let v = StreamLink {
                quality: q,
                url,
                source: String::from_str(source),
                referrer: clone_opt(&l.referrer),
                subtitle: clone_opt(&l.subtitle),
                subtitles: clone_tracks(&l.subtitles),
                hardsub_language: clone_opt(&l.hardsub_language),
                audio_language: clone_opt(&l.audio_language),
                soft_subbed: l.subtitles.len() > 0,
            };
            let ghost before = links_view(out@);
            out.push(v);
            assert(links_view(out@) =~= before.push(link_view(v)));
        }
        i = i + 1;
    }
    assert(ps.take(parts@.len() as int) =~= ps);
}

/// The links of a Wixmp response (see `wixmp_links_spec`); `parsed` is the
/// response's JSON after unescaping, if it is JSON.
pub fn expand_wixmp_links(response: &str, parsed: Option<&Json>, source: &str) -> (r: Vec<
    StreamLink,
>)
    ensures
        links_view(r@) == wixmp_links_spec(response@, deref_opt(parsed), source@),
{
    let direct = parse_direct_links(response, parsed, source);
    let ghost orig = direct@;
    let ghost dv = links_view(orig);
    let mut rest = direct;
    let mut links: Vec<StreamLink> = Vec::new();
    assert(orig.skip(0) =~= orig);
    assert(links_view(links@) =~= wixmp_expand_all(dv.take(0), source@));
    while rest.len() > 0
        invariant
            rest@ == orig.skip(orig.len() - rest@.len()),
            rest@.len() <= orig.len(),
            dv == links_view(orig),
            links_view(links@) == wixmp_expand_all(dv.take(orig.len() - rest@.len()), source@),
        decreases rest@.len(),
    {
        let ghost i: int = orig.len() - rest@.len();
        let l = rest.remove(0);
        proof {
            assert(l == orig[i]);
            assert(rest@ =~= orig.skip(i + 1));
            assert(dv.take(i + 1).drop_last() =~= dv.take(i));
            assert(dv.take(i + 1).last() == link_view(l));
        }
        let ghost before = links_view(links@);
        if !contains(l.url.as_str(), "repackager.wixmp.com") {
            links.push(l);
            assert(links_view(links@) =~= before + seq![link_view(l)]);
        } else {
            match first_group(WIXMP_OPTIONS_PATTERN, l.url.as_str(), 1) {
                Some(opts) => {
                    push_wixmp_variants(&mut links, &l, opts.as_str(), source);
                },
                None => {
                    links.push(l);
                    assert(links_view(links@) =~= before + seq![link_view(l)]);
                },
            }
        }
    }
    assert(dv.take(orig.len() as int) =~= dv);
    let ghost input = links@;
    let r = dedupe_links(links);
    proof {
        lemma_dedupe_view(input, r@);
    }
    r
}

// ---------------------------------------------------------------------
// HLS
// ---------------------------------------------------------------------

/// A quoted URL of an HLS master playlist.
pub const HLS_URL_PATTERN: &'static str = "\"url\":\"([^\"]*master\\.m3u8[^\"]*)\"";

/// Any HTTP(S) URL of an HLS master playlist.
pub const HLS_ANY_URL_PATTERN: &'static str = "(https?://[^\"]*master\\.m3u8[^\"]*)";

/// A quoted referrer.
pub const REFERER_PATTERN: &'static str = "\"Referer\":\"([^\"]+)\"";

/// The master playlist URL a response names: a quoted `url` field first,
/// else any such URL in the text.
pub open spec fn hls_url_spec(response: Seq<char>) -> Option<Seq<char>> {
    match group_of(regex_first_match(HLS_URL_PATTERN@, response), 1) {
        Some(u) => Some(u),
        None => group_of(regex_first_match(HLS_ANY_URL_PATTERN@, response), 1),
    }
}

/// The master playlist URL a response names (see `hls_url_spec`).
pub fn hls_url(response: &str) -> (r: Option<String>)
    ensures
        opt_text(r) == hls_url_spec(response@),
{
    match first_group(HLS_URL_PATTERN, response, 1) {
        Some(u) => Some(u),
        None => first_group(HLS_ANY_URL_PATTERN, response, 1),
    }
}

/// The referrer a response names, if any.
pub fn referer_from_text(value: &str) -> (r: Option<String>)
    ensures
        opt_text(r) == group_of(regex_first_match(REFERER_PATTERN@, value@), 1),
{
    first_group(REFERER_PATTERN, value, 1)
}

/// The height of a variant stream in its `#EXT-X-STREAM` line.
pub const RESOLUTION_PATTERN: &'static str = "RESOLUTION=\\d+x(\\d+)";

/// The directory of a URL, with its final `/` (empty when it has none).
pub open spec fn base_url_spec(url: Seq<char>) -> Seq<char> {
    match last_index(url.len() as int, |i: int| url[i] == '/') {
        Some(i) => url.take(i + 1),
        None => Seq::empty(),
    }
}

/// The quality an `#EXT-X-STREAM` line announces: the height of its
/// resolution with `p`, else the link's own quality, else `hls`.
pub open spec fn stream_quality(line: Seq<char>, m: MetaView) -> Seq<char> {
    match group_of(regex_first_match(RESOLUTION_PATTERN@, line), 1) {
        Some(h) => h + "p"@,
        None => match m.quality {
            Some(q) => q,
            None => "hls"@,
        },
    }
}

/// A playlist line that names no stream: a tag or comment, a blank line, or
/// an I-frame entry.
pub open spec fn skipped_line(line: Seq<char>) -> bool {
    starts_with_spec(line, "#"@) || trim_spec(line).len() == 0 || contains_spec(line, "I-FRAME"@)
}

/// The variant link a playlist line names, with the quality announced before it.
pub open spec fn variant_link(
    quality: Seq<char>,
    line: Seq<char>,
    m: MetaView,
    source: Seq<char>,
    base: Seq<char>,
) -> LinkView {
    LinkView {
        quality,
        url: if starts_with_spec(line, "http"@) {
            line
        } else {
            base + line
        },
        source,
        referrer: m.referrer,
        subtitle: if m.subtitles.len() > 0 {
            Some(m.subtitles[0].2)
        } else {
            None
        },
        subtitles: m.subtitles,
        hardsub_language: m.hardsub_language,
        audio_language: m.audio_language,
        soft_subbed: m.subtitles.len() > 0,
    }
}

/// The variant links of playlist lines: each `#EXT-X-STREAM` line announces
/// a quality, and the next line naming a stream takes it.
pub open spec fn playlist_links(
    ls: Seq<Seq<char>>,
    pending: Option<Seq<char>>,
    m: MetaView,
    source: Seq<char>,
    base: Seq<char>,
) -> Seq<LinkView>
    decreases ls.len(),
{
    if ls.len() == 0 {
        Seq::empty()
    } else {
        let line = ls[0];
        let rest = ls.drop_first();
        if starts_with_spec(line, "#EXT-X-STREAM"@) {
            playlist_links(rest, Some(stream_quality(line, m)), m, source, base)
        } else if skipped_line(line) {
            playlist_links(rest, pending, m, source, base)
        } else {
            match pending {
                Some(q) => seq![variant_link(q, line, m, source, base)] + playlist_links(
                    rest,
                    None,
                    m,
                    source,
                    base,
                ),
                None => playlist_links(rest, None, m, source, base),
            }
        }
    }
}

/// The links of an HLS link once its playlist is fetched: without
/// `#EXTM3U` the playlist is no master playlist and the link stands as it
/// is; otherwise each variant stream is a link, relative URLs resolved
/// against the playlist's directory.
pub open spec fn hls_playlist_spec(m: MetaView, source: Seq<char>, playlist: Seq<char>) -> Seq<LinkView> {
    if !contains_spec(playlist, "#EXTM3U"@) {
        seq![meta_link_view(m, source)]
    } else {
        playlist_links(lines_spec(playlist), None, m, source, base_url_spec(m.url))
    }
}

fn base_url(url: &str) -> (r: String)
    ensures
        r@ == base_url_spec(url@),
{
    let v = chars_of(url);
    let ghost pred = |i: int| url@[i] == '/';
    match rfind_char(&v, '/') {
        Some(i) => {
            proof {
                lemma_last_index_unique(url@.len() as int, pred, Some(i as int));
            }
            assert(v@.subrange(0, i + 1) =~= v@.take(i + 1));
            string_of_range(&v, 0, i + 1)
        },
        None => {
            proof {
                lemma_last_index_unique(url@.len() as int, pred, None);
            }
            String::new()
        },
    }
}

fn stream_quality_exec(line: &str, m: &ProviderLinkMeta) -> (r: String)
    ensures
        r@ == stream_quality(line@, meta_view(*m)),
{
    match first_group(RESOLUTION_PATTERN, line, 1) {
        Some(h) => {
            let mut q = h;
            push_str(&mut q, "p");
            q
        },
        None => match &m.quality {
            Some(q) => q.clone(),
            None => String::from_str("hls"),
        },
    }
}

fn variant_link_exec(quality: String, line: &str, m: &ProviderLinkMeta, source: &str, base: &str) -> (r: StreamLink)
    ensures
        link_view(r) == variant_link(quality@, line@, meta_view(*m), source@, base@),
{
    let url = if starts_with(line, "http") {
        String::from_str(line)
    } else {
        let mut u = String::from_str(base);
        push_str(&mut u, line);
        u
    };
    let subtitle = if m.subtitles.len() > 0 {
        Some(m.subtitles[0].url.clone())
    } else {
        None
    };
    let r = StreamLink {
        quality,
        url,
        source: String::from_str(source),
        referrer: clone_opt(&m.referrer),
        subtitle,
        subtitles: clone_tracks(&m.subtitles),
        hardsub_language: clone_opt(&m.hardsub_language),
        audio_language: clone_opt(&m.audio_language),
        soft_subbed: m.subtitles.len() > 0,
    };
    proof {
        if m.subtitles@.len() > 0 {
            assert(tracks_view(m.subtitles@)[0] == track_view(m.subtitles@[0]));
        }
    }
    r
}

/// The links of an HLS link given its fetched playlist (see `hls_playlist_spec`).
pub fn hls_links_from_playlist(meta: ProviderLinkMeta, source: &str, playlist: &str) -> (r: Vec<
    StreamLink,
>)
    ensures
        links_view(r@) == hls_playlist_spec(meta_view(meta), source@, playlist@),
{
    let mut out: Vec<StreamLink> = Vec::new();
    if !contains(playlist, "#EXTM3U") {
        let ghost mm = meta;
        let l = stream_from_provider_meta(meta, source);
        proof {
            lemma_meta_link_view(mm, source@, l);
        }
        out.push(l);
        assert(links_view(out@) =~= seq![link_view(l)]);
        return out;
    }
    let base = base_url(meta.url.as_str());
    let ls = lines(playlist);
    let ghost lv = views(ls@);
    let ghost mv = meta_view(meta);
    let mut pending: Option<String> = None;
    let mut i: usize = 0;
    assert(lv.skip(0) =~= lv);
    assert(links_view(out@) + playlist_links(lv, None, mv, source@, base@) =~= playlist_links(
        lv,
        None,
        mv,
        source@,
        base@,
    ));
    while i < ls.len()
        invariant
            i <= ls@.len(),
            lv == views(ls@),
            mv == meta_view(meta),
            playlist_links(lv, None, mv, source@, base@) == links_view(out@) + playlist_links(
                lv.skip(i as int),
                opt_text(pending),
                mv,
                source@,
                base@,
            ),
        decreases ls@.len() - i,
    {
        let ghost rest = lv.skip(i as int);
        assert(rest[0] == ls@[i as int]@);
        assert(rest.drop_first() =~= lv.skip(i + 1));
        let line = ls[i].as_str();
        if starts_with(line, "#EXT-X-STREAM") {
            pending = Some(stream_quality_exec(line, &meta));
        } else if starts_with(line, "#") || trim(line).as_str().is_empty() || contains(
            line,
            "I-FRAME",
        ) {
        } else {
            match pending {
                Some(q) => {
                    let l = variant_link_exec(q, line, &meta, source, base.as_str());
                    let ghost before = links_view(out@);
                    out.push(l);
                    assert(before + (seq![link_view(l)] + playlist_links(
                        lv.skip(i + 1),
                        None,
                        mv,
                        source@,
                        base@,
                    )) =~= links_view(out@) + playlist_links(lv.skip(i + 1), None, mv, source@, base@));
                },
                None => {},
            }
            pending = None;
        }
        i = i + 1;
    }
    assert(lv.skip(ls@.len() as int) =~= Seq::<Seq<char>>::empty());
    assert(links_view(out@) + Seq::<LinkView>::empty() =~= links_view(out@));
    assert(base@ == base_url_spec(mv.url));
    out
}

} // verus!
