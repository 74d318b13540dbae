//! AniSkip: finding a show's MyAnimeList id from a title or from search
//! results, and the episode number skip times are asked for.

use vstd::prelude::*;
use crate::json::{Json, get, as_str, as_u64, get_spec, str_spec, u64_spec, get_path, path_spec};
use crate::pattern::{regex_first_match, regex_captures, regex_compiles, regex_is_valid, regex_replace, regex_replace_first};
use crate::seqs::{first_index, first_pos, lemma_first_index_unique};
use crate::text::{chars_of, contains, contains_spec, find_char, is_digit, lower_spec,
    parse_unsigned, parse_unsigned_spec, push_char, push_dec, push_str, string_of_range, to_ascii_lowercase,
    trim, trim_spec, dec_spec,
};
use crate::web::{percent_encode_spec, url_encode};
use vstd::string::StringSliceAdditionalSpecFns;

verus! {

/// Where a show's MyAnimeList id is searched for.
#[derive(Debug, Clone, Copy, PartialEq, Eq, Structural)]
pub enum SkipSource {
    MyAnimeList,
    AllAnime,
}

// ---------------------------------------------------------------------
// Titles and ids
// ---------------------------------------------------------------------

/// What a query given for a MyAnimeList id is.
#[derive(Debug, Clone, Copy, PartialEq, Eq, Structural)]
pub enum MalQuery {
    /// All digits, and the id they spell.
    Id(u64),
    /// All digits, but no id fits in 64 bits (or there are none).
    BadId,
    /// A title to search for.
    Title,
}

/// Every character is an ASCII digit (true of the empty text).
pub open spec fn only_digits(s: Seq<char>) -> bool {
    forall|i: int| 0 <= i < s.len() ==> is_digit(#[trigger] s[i])
}

/// What a query is: an id when it is all digits, else a title.
pub open spec fn mal_query_spec(q: Seq<char>) -> MalQuery {
    if only_digits(q) {
        match parse_unsigned_spec(q, u64::MAX as nat) {
            Some(n) => MalQuery::Id(n as u64),
            None => MalQuery::BadId,
        }
    } else {
        MalQuery::Title
    }
}

/// What a query is (see `mal_query_spec`).
pub fn classify_mal_query(q: &str) -> (r: MalQuery)
    ensures
        r == mal_query_spec(q@),
{
    let v = chars_of(q);
    let mut i: usize = 0;
    while i < v.len()
        invariant
            i <= v@.len(),
            v@ == q@,
            forall|j: int| 0 <= j < i ==> is_digit(#[trigger] v@[j]),
        decreases v@.len() - i,
    {
        if !('0' <= v[i] && v[i] <= '9') {
            assert(!is_digit(v@[i as int]));
            return MalQuery::Title;
        }
        i = i + 1;
    }
    match parse_unsigned(q, 18446744073709551615u64) {
        Some(n) => MalQuery::Id(n),
        None => MalQuery::BadId,
    }
}

/// The episode number skip times are asked for: the part before the first
/// `.`, read as a number.
pub open spec fn skip_episode_spec(episode: Seq<char>) -> Option<u64> {
    let head = match first_pos(episode, '.') {
        Some(i) => episode.take(i),
        None => episode,
    };
    match parse_unsigned_spec(head, u64::MAX as nat) {
        Some(n) => Some(n as u64),
        None => None,
    }
}

/// The episode number skip times are asked for (see `skip_episode_spec`);
/// none when it is no number.
pub fn skip_episode_number(episode: &str) -> (r: Option<u64>)
    ensures
        r == skip_episode_spec(episode@),
{
    let v = chars_of(episode);
    let head = match find_char(&v, '.') {
        Some(i) => string_of_range(&v, 0, i),
        None => {
            assert(v@.subrange(0, v@.len() as int) =~= v@);
            string_of_range(&v, 0, v.len())
        },
    };
    parse_unsigned(head.as_str(), 18446744073709551615u64)
}

/// What marks an episode count in a title.
pub const EPISODE_COUNT_PATTERN: &'static str = " \\([0-9]+ episodes\\)";

/// A title without its episode count, trimmed.
pub open spec fn stripped_title_spec(query: Seq<char>) -> Seq<char> {
    trim_spec(regex_replace_first(EPISODE_COUNT_PATTERN@, query, Seq::empty()))
}

/// A title without its episode count, trimmed (see `stripped_title_spec`).
pub fn strip_episode_count(query: &str) -> (r: String)
    ensures
        r@ == stripped_title_spec(query@),
{
    proof {
        reveal_strlit("");
        assert(""@ =~= Seq::<char>::empty());
    }
    let replaced = regex_replace(EPISODE_COUNT_PATTERN, query, "");
    trim(replaced.as_str())
}

/// A character kept when titles are compared: an ASCII letter, digit or
/// whitespace.
pub open spec fn kept_in_compare(c: char) -> bool {
    ('a' <= c && c <= 'z') || ('A' <= c && c <= 'Z') || ('0' <= c && c <= '9') || c == ' '
        || c == '\t' || c == '\n' || c == '\u{c}' || c == '\r'
}

/// A title as it is compared: other characters dropped, ASCII lower case.
pub open spec fn normalize_spec(s: Seq<char>) -> Seq<char> {
    lower_spec(s.filter(|c: char| kept_in_compare(c)))
}

/// A title as it is compared (see `normalize_spec`).
pub fn normalize(value: &str) -> (r: String)
    ensures
        r@ == normalize_spec(value@),
{
    let v = chars_of(value);
    let mut kept = String::new();
    let mut i: usize = 0;
    while i < v.len()
        invariant
            i <= v@.len(),
            v@ == value@,
            kept@ == v@.take(i as int).filter(|c: char| kept_in_compare(c)),
        decreases v@.len() - i,
    {
        let c = v[i];
        let keep = ('a' <= c && c <= 'z') || ('A' <= c && c <= 'Z') || ('0' <= c && c <= '9') || c
            == ' ' || c == '\t' || c == '\n' || c == '\u{c}' || c == '\r';
        proof {
            assert(v@.take(i + 1).drop_last() =~= v@.take(i as int));
            reveal(Seq::filter);
        }
        if keep {
            push_char(&mut kept, c);
        }
        i = i + 1;
    }
    assert(v@.take(v@.len() as int) =~= v@);
    to_ascii_lowercase(kept.as_str())
}

// ---------------------------------------------------------------------
// Choosing among search results
// ---------------------------------------------------------------------

/// Why no MyAnimeList id was found.
#[derive(Debug, Clone, Copy, PartialEq, Eq, Structural)]
pub enum SkipLookupError {
    /// The filter is no regular expression.
    InvalidFilter,
    /// The search found nothing.
    NoResults(SkipSource),
    /// The chosen result has no id.
    MissingId(SkipSource),
}

impl SkipLookupError {
    /// The message shown for the error.
    pub open spec fn message_spec(self) -> Seq<char> {
        match self {
            SkipLookupError::InvalidFilter => "invalid filter regex"@,
            SkipLookupError::NoResults(SkipSource::MyAnimeList) => "MyAnimeList returned no anime results"@,
            SkipLookupError::NoResults(SkipSource::AllAnime) => "AllAnime returned no search results"@,
            SkipLookupError::MissingId(SkipSource::MyAnimeList) => "selected MyAnimeList result did not include an id"@,
            SkipLookupError::MissingId(SkipSource::AllAnime) => "selected AllAnime result did not include an id"@,
        }
    }

    /// The message shown for the error (see `message_spec`).
    pub fn message(self) -> (r: &'static str)
        ensures
            r@ == self.message_spec(),
    {
        match self {
            SkipLookupError::InvalidFilter => "invalid filter regex",
            SkipLookupError::NoResults(SkipSource::MyAnimeList) => "MyAnimeList returned no anime results",
            SkipLookupError::NoResults(SkipSource::AllAnime) => "AllAnime returned no search results",
            SkipLookupError::MissingId(SkipSource::MyAnimeList) => "selected MyAnimeList result did not include an id",
            SkipLookupError::MissingId(SkipSource::AllAnime) => "selected AllAnime result did not include an id",
        }
    }
}

/// The text of a result's field, empty when it has none.
pub open spec fn field_or_empty(j: Json, key: Seq<char>) -> Seq<char> {
    match get_spec(j, key) {
        Some(v) => match str_spec(v) {
            Some(s) => s,
            None => Seq::empty(),
        },
        None => Seq::empty(),
    }
}

fn field_or_empty_exec(j: &Json, key: &str) -> (r: String)
    ensures
        r@ == field_or_empty(*j, key@),
{
    match get(j, key) {
        Some(v) => match as_str(v) {
            Some(s) => String::from_str(s),
            None => String::new(),
        },
        None => String::new(),
    }
}

/// The result matching the filter, else the first whose name matches the
/// query as `name_matches` says, else the first.
pub open spec fn pick_result(
    items: Seq<Json>,
    filter: Option<Seq<char>>,
    name_matches: spec_fn(Seq<char>) -> bool,
) -> Option<int> {
    let by_filter = match filter {
        Some(f) => first_index(
            items.len() as int,
            |i: int| regex_first_match(f, field_or_empty(items[i], "name"@)) is Some,
        ),
        None => None,
    };
    match by_filter {
        Some(i) => Some(i),
        None => match first_index(
            items.len() as int,
            |i: int| name_matches(field_or_empty(items[i], "name"@)),
        ) {
            Some(i) => Some(i),
            None => if items.len() > 0 {
                Some(0)
            } else {
                None
            },
        },
    }
}

/// A MyAnimeList name matches a query when it contains it, both compared
/// as `normalize_spec` gives them.
pub open spec fn mal_name_matches(query: Seq<char>) -> spec_fn(Seq<char>) -> bool {
    |name: Seq<char>| contains_spec(normalize_spec(name), normalize_spec(query))
}

/// An AllAnime name matches a keyword when it contains it, both in ASCII
/// lower case.
pub open spec fn allanime_name_matches(keyword: Seq<char>) -> spec_fn(Seq<char>) -> bool {
    |name: Seq<char>| contains_spec(lower_spec(name), lower_spec(keyword))
}

fn filter_match_index(items: &Vec<Json>, filter: &str) -> (r: Option<usize>)
    ensures
        match r {
            Some(i) => first_index(
                items@.len() as int,
                |i: int| regex_first_match(filter@, field_or_empty(items@[i], "name"@)) is Some,
            ) == Some(i as int),
            None => first_index(
                items@.len() as int,
                |i: int| regex_first_match(filter@, field_or_empty(items@[i], "name"@)) is Some,
            ) is None,
        },
{
    let ghost p = |i: int| regex_first_match(filter@, field_or_empty(items@[i], "name"@)) is Some;
    let mut i: usize = 0;
    while i < items.len()
        invariant
            i <= items@.len(),
            p == (|i: int| regex_first_match(filter@, field_or_empty(items@[i], "name"@)) is Some),
            forall|j: int| 0 <= j < i ==> !#[trigger] p(j),
        decreases items@.len() - i,
    {
        proof {
            reveal_strlit("name");
        }
        let name = field_or_empty_exec(&items[i], "name");
        let m = regex_captures(filter, name.as_str());
        if m.is_some() {
            proof {
                lemma_first_index_unique(items@.len() as int, p, Some(i as int));
            }
            return Some(i);
        }
        i = i + 1;
    }
    proof {
        lemma_first_index_unique(items@.len() as int, p, None);
    }
    None
}

fn name_match_index(items: &Vec<Json>, wanted: &str, mal: bool) -> (r: Option<usize>)
    ensures
        ({
            let nm = if mal {
                mal_name_matches(wanted@)
            } else {
                allanime_name_matches(wanted@)
            };
            match r {
                Some(i) => first_index(
                    items@.len() as int,
                    |i: int| nm(field_or_empty(items@[i], "name"@)),
                ) == Some(i as int),
                None => first_index(
                    items@.len() as int,
                    |i: int| nm(field_or_empty(items@[i], "name"@)),
                ) is None,
            }
        }),
{
    let ghost nm = if mal {
        mal_name_matches(wanted@)
    } else {
        allanime_name_matches(wanted@)
    };
    let ghost p = |i: int| nm(field_or_empty(items@[i], "name"@));
    let target = if mal {
        normalize(wanted)
    } else {
        to_ascii_lowercase(wanted)
    };
    let mut i: usize = 0;
    while i < items.len()
        invariant
            i <= items@.len(),
            p == (|i: int| nm(field_or_empty(items@[i], "name"@))),
            nm == (if mal {
                mal_name_matches(wanted@)
            } else {
                allanime_name_matches(wanted@)
            }),
            target@ == (if mal {
                normalize_spec(wanted@)
            } else {
                lower_spec(wanted@)
            }),
            forall|j: int| 0 <= j < i ==> !#[trigger] p(j),
        decreases items@.len() - i,
    {
        proof {
            reveal_strlit("name");
        }
        let name = field_or_empty_exec(&items[i], "name");
        let shown = if mal {
            normalize(name.as_str())
        } else {
            to_ascii_lowercase(name.as_str())
        };
        if contains(shown.as_str(), target.as_str()) {
            proof {
                lemma_first_index_unique(items@.len() as int, p, Some(i as int));
            }
            return Some(i);
        }
        i = i + 1;
    }
    proof {
        lemma_first_index_unique(items@.len() as int, p, None);
    }
    None
}

fn pick_index(items: &Vec<Json>, filter: Option<&str>, wanted: &str, mal: bool) -> (r: Option<usize>)
    ensures
        ({
            let nm = if mal {
                mal_name_matches(wanted@)
            } else {
                allanime_name_matches(wanted@)
            };
            let f = match filter {
                Some(f) => Some(f@),
                None => None,
            };
            match r {
                Some(i) => pick_result(items@, f, nm) == Some(i as int) && i < items@.len(),
                None => pick_result(items@, f, nm) is None,
            }
        }),
{
    let by_filter = match filter {
        Some(f) => filter_match_index(items, f),
        None => None,
    };
    proof {
        reveal_strlit("name");
    }
    match by_filter {
        Some(i) => {
            proof {
                let f = filter->0;
                crate::seqs::lemma_first_index(
                    items@.len() as int,
                    |i: int| regex_first_match(f@, field_or_empty(items@[i], "name"@)) is Some,
                );
            }
            Some(i)
        },
        None => match name_match_index(items, wanted, mal) {
            Some(i) => {
                proof {
                    let nm = if mal {
                        mal_name_matches(wanted@)
                    } else {
                        allanime_name_matches(wanted@)
                    };
                    crate::seqs::lemma_first_index(
                        items@.len() as int,
                        |i: int| nm(field_or_empty(items@[i], "name"@)),
                    );
                }
                Some(i)
            },
            None => if items.len() > 0 {
                Some(0)
            } else {
                None
            },
        },
    }
}

/// The MyAnimeList id of the chosen search result (see `pick_result`): the
/// filter, when given, must be a regular expression.
pub open spec fn mal_item_spec(items: Seq<Json>, query: Seq<char>, filter: Option<Seq<char>>) -> Result<
    u64,
    SkipLookupError,
> {
    if filter matches Some(f) && !regex_compiles(f) {
        Err(SkipLookupError::InvalidFilter)
    } else {
        match pick_result(items, filter, mal_name_matches(query)) {
            None => Err(SkipLookupError::NoResults(SkipSource::MyAnimeList)),
            Some(i) => match get_spec(items[i], "id"@) {
                Some(v) => match u64_spec(v) {
                    Some(n) => Ok(n),
                    None => Err(SkipLookupError::MissingId(SkipSource::MyAnimeList)),
                },
                None => Err(SkipLookupError::MissingId(SkipSource::MyAnimeList)),
            },
        }
    }
}

/// The MyAnimeList id of the chosen search result (see `mal_item_spec`).
pub fn select_mal_item(items: &Vec<Json>, query: &str, filter: Option<&str>) -> (r: Result<
    u64,
    SkipLookupError,
>)
    ensures
        r == mal_item_spec(
            items@,
            query@,
            match filter {
                Some(f) => Some(f@),
                None => None,
            },
        ),
{
    match filter {
        Some(f) => {
            if !regex_is_valid(f) {
                return Err(SkipLookupError::InvalidFilter);
            }
        },
        None => {},
    }
    let i = match pick_index(items, filter, query, true) {
        Some(i) => i,
        None => return Err(SkipLookupError::NoResults(SkipSource::MyAnimeList)),
    };
    proof {
        reveal_strlit("id");
    }
    match get(&items[i], "id") {
        Some(v) => match as_u64(v) {
            Some(n) => Ok(n),
            None => Err(SkipLookupError::MissingId(SkipSource::MyAnimeList)),
        },
        None => Err(SkipLookupError::MissingId(SkipSource::MyAnimeList)),
    }
}

/// The AllAnime id of the chosen search result (see `pick_result`): the
/// filter, when given, must be a regular expression.
pub open spec fn allanime_edge_spec(edges: Seq<Json>, keyword: Seq<char>, filter: Option<Seq<char>>) -> Result<
    Seq<char>,
    SkipLookupError,
> {
    if filter matches Some(f) && !regex_compiles(f) {
        Err(SkipLookupError::InvalidFilter)
    } else {
        match pick_result(edges, filter, allanime_name_matches(keyword)) {
            None => Err(SkipLookupError::NoResults(SkipSource::AllAnime)),
            Some(i) => match get_spec(edges[i], "_id"@) {
                Some(v) => match str_spec(v) {
                    Some(s) => Ok(s),
                    None => Err(SkipLookupError::MissingId(SkipSource::AllAnime)),
                },
                None => Err(SkipLookupError::MissingId(SkipSource::AllAnime)),
            },
        }
    }
}

/// The AllAnime id of the chosen search result (see `allanime_edge_spec`).
pub fn select_allanime_edge(edges: &Vec<Json>, keyword: &str, filter: Option<&str>) -> (r: Result<
    String,
    SkipLookupError,
>)
    ensures
        match (r, allanime_edge_spec(
            edges@,
            keyword@,
            match filter {
                Some(f) => Some(f@),
                None => None,
            },
        )) {
            (Ok(a), Ok(b)) => a@ == b,
            (Err(a), Err(b)) => a == b,
            _ => false,
        },
{
    match filter {
        Some(f) => {
            if !regex_is_valid(f) {
                return Err(SkipLookupError::InvalidFilter);
            }
        },
        None => {},
    }
    let i = match pick_index(edges, filter, keyword, false) {
        Some(i) => i,
        None => return Err(SkipLookupError::NoResults(SkipSource::AllAnime)),
    };
    proof {
        reveal_strlit("_id");
    }
    match get(&edges[i], "_id") {
        Some(v) => match as_str(v) {
            Some(s) => Ok(String::from_str(s)),
            None => Err(SkipLookupError::MissingId(SkipSource::AllAnime)),
        },
        None => Err(SkipLookupError::MissingId(SkipSource::AllAnime)),
    }
}

// ---------------------------------------------------------------------
// Where results are found in the responses
// ---------------------------------------------------------------------

/// The anime results of a MyAnimeList prefix search: the items of the
/// first category of type `anime`.
pub open spec fn mal_items_spec(value: Json) -> Option<Seq<Json>> {
    match get_spec(value, "categories"@) {
        Some(Json::Array(cs)) => match first_index(
            cs@.len() as int,
            |i: int| field_is(cs@[i], "type"@, "anime"@),
        ) {
            Some(i) => match get_spec(cs@[i], "items"@) {
                Some(Json::Array(items)) => Some(items@),
                _ => None,
            },
            None => None,
        },
        _ => None,
    }
}

/// A value's field is the given string.
pub open spec fn field_is(j: Json, key: Seq<char>, text: Seq<char>) -> bool {
    match get_spec(j, key) {
        Some(v) => str_spec(v) == Some(text),
        None => false,
    }
}

/// The anime results of a MyAnimeList prefix search (see `mal_items_spec`).
pub fn mal_items(value: &Json) -> (r: Option<&Vec<Json>>)
    ensures
        match (r, mal_items_spec(*value)) {
            (Some(a), Some(b)) => a@ == b,
            (None, None) => true,
            _ => false,
        },
{
    proof {
        reveal_strlit("categories");
        reveal_strlit("type");
        reveal_strlit("anime");
        reveal_strlit("items");
    }
    let cs = match get(value, "categories") {
        Some(Json::Array(cs)) => cs,
        _ => return None,
    };
    let ghost p = |i: int| field_is(cs@[i], "type"@, "anime"@);
    let mut i: usize = 0;
    while i < cs.len()
        invariant
            i <= cs@.len(),
            p == (|i: int| field_is(cs@[i], "type"@, "anime"@)),
            get_spec(*value, "categories"@) == Some(Json::Array(*cs)),
            forall|j: int| 0 <= j < i ==> !#[trigger] p(j),
        decreases cs@.len() - i,
    {
        let is_anime = match get(&cs[i], "type") {
            Some(t) => match as_str(t) {
                Some(s) => crate::text::str_eq(s, "anime"),
                None => false,
            },
            None => false,
        };
        if is_anime {
            proof {
                lemma_first_index_unique(cs@.len() as int, p, Some(i as int));
            }
            return match get(&cs[i], "items") {
                Some(Json::Array(items)) => Some(items),
                _ => None,
            };
        }
        i = i + 1;
    }
    proof {
        lemma_first_index_unique(cs@.len() as int, p, None);
    }
    None
}

/// The search results of an AllAnime show search: `data.shows.edges`.
pub open spec fn allanime_edges_spec(value: Json) -> Option<Seq<Json>> {
    match path_spec(value, seq!["data"@, "shows"@, "edges"@]) {
        Some(Json::Array(edges)) => Some(edges@),
        _ => None,
    }
}

/// The search results of an AllAnime show search (see
/// `allanime_edges_spec`).
pub fn allanime_edges(value: &Json) -> (r: Option<&Vec<Json>>)
    ensures
        match (r, allanime_edges_spec(*value)) {
            (Some(a), Some(b)) => a@ == b,
            (None, None) => true,
            _ => false,
        },
{
    let path: [&str; 3] = ["data", "shows", "edges"];
    assert(path@.map_values(|k: &str| k@) =~= seq!["data"@, "shows"@, "edges"@]);
    match get_path(value, &path) {
        Some(Json::Array(edges)) => Some(edges),
        _ => None,
    }
}

// ---------------------------------------------------------------------
// Request addresses
// ---------------------------------------------------------------------

/// The MyAnimeList prefix search for a title.
pub fn mal_search_url(name: &str) -> (r: String)
    ensures
        r@ == "https://myanimelist.net/search/prefix.json?type=anime&keyword="@
            + percent_encode_spec(name.spec_bytes()),
{
    let mut r = String::from_str("https://myanimelist.net/search/prefix.json?type=anime&keyword=");
    let encoded = url_encode(name);
    push_str(&mut r, encoded.as_str());
    r
}

/// The AniSkip request for an episode's opening and ending times.
pub fn skip_times_url(mal_id: u64, episode: u64) -> (r: String)
    ensures
        r@ == "https://api.aniskip.com/v1/skip-times/"@ + dec_spec(mal_id as nat) + "/"@ + dec_spec(
            episode as nat,
        ) + "?types=op&types=ed"@,
{
    let mut r = String::from_str("https://api.aniskip.com/v1/skip-times/");
    push_dec(&mut r, mal_id);
    push_str(&mut r, "/");
    push_dec(&mut r, episode);
    push_str(&mut r, "?types=op&types=ed");
    r
}

// ---------------------------------------------------------------------
// The IINA plugin
// ---------------------------------------------------------------------

/// Where the IINA plugin was installed, and whether IINA's plugin system
/// could be switched on.
#[derive(Debug, PartialEq, Eq)]
pub struct IinaPluginInstall {
    pub plugin_dir: String,
    pub enabled_plugin_system: bool,
}

/// Where IINA keeps plugins, under a home directory.
pub const IINA_PLUGINS_DIR: &'static str = "Library/Application Support/com.colliderli.iina/plugins";

/// The directory of this program's IINA plugin.
pub const IINA_PLUGIN_NAME: &'static str = "anicli-rs-aniskip.iinaplugin";

/// The directory the IINA plugin is installed in, under a home directory.
pub fn iina_plugin_dir(home: &str) -> (r: String)
    ensures
        r@ == crate::history::join_spec(
            crate::history::join_spec(home@, IINA_PLUGINS_DIR@),
            IINA_PLUGIN_NAME@,
        ),
{
    let plugins = crate::history::join_path(home, IINA_PLUGINS_DIR);
    crate::history::join_path(plugins.as_str(), IINA_PLUGIN_NAME)
}

} // verus!
