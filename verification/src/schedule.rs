//! Release status of upcoming episodes, read from AnimeSchedule pages.

use vstd::prelude::*;
use vstd::string::StringSliceAdditionalSpecFns;
use crate::links::opt_text;
use crate::pattern::{
    first_group, group_of, group_in, regex_first_match, regex_all_matches, regex_captures_all,
    match_views, opt_views, take_group,
};
use crate::text::{push_str, replace, replace_spec, views};
use crate::web::{url_encode, percent_encode_spec};

verus! {

/// What AnimeSchedule says of a show's next episode.
#[derive(Debug, PartialEq, Eq)]
pub struct NextEpisodeStatus {
    pub english_title: Option<String>,
    pub japanese_title: Option<String>,
    pub next_raw_release: Option<String>,
    pub next_sub_release: Option<String>,
    pub status: String,
}

impl Clone for NextEpisodeStatus {
    fn clone(&self) -> (r: Self)
        ensures
            r == *self,
    {
        NextEpisodeStatus {
            english_title: crate::media::clone_opt(&self.english_title),
            japanese_title: crate::media::clone_opt(&self.japanese_title),
            next_raw_release: crate::media::clone_opt(&self.next_raw_release),
            next_sub_release: crate::media::clone_opt(&self.next_sub_release),
            status: self.status.clone(),
        }
    }
}

impl Default for NextEpisodeStatus {
    fn default() -> (r: Self)
        ensures
            r.english_title is None,
            r.japanese_title is None,
            r.next_raw_release is None,
            r.next_sub_release is None,
            r.status@ == Seq::<char>::empty(),
    {
        NextEpisodeStatus {
            english_title: None,
            japanese_title: None,
            next_raw_release: None,
            next_sub_release: None,
            status: String::new(),
        }
    }
}

/// Text with the HTML entities `&amp;`, `&quot;`, `&#39;`, `&lt;` and
/// `&gt;` replaced, in that order.
pub open spec fn html_unescape_spec(s: Seq<char>) -> Seq<char> {
    replace_spec(
        replace_spec(
            replace_spec(replace_spec(replace_spec(s, "&amp;"@, "&"@), "&quot;"@, "\""@), "&#39;"@, "'"@),
            "&lt;"@,
            "<"@,
        ),
        "&gt;"@,
        ">"@,
    )
}

/// Replaces the HTML entities of a page fragment (see `html_unescape_spec`).
pub fn html_unescape(value: &str) -> (r: String)
    ensures
        r@ == html_unescape_spec(value@),
{
    proof {
        reveal_strlit("&amp;");
        reveal_strlit("&quot;");
        reveal_strlit("&#39;");
        reveal_strlit("&lt;");
        reveal_strlit("&gt;");
    }
    let a = replace(value, "&amp;", "&");
    let b = replace(a.as_str(), "&quot;", "\"");
    let c = replace(b.as_str(), "&#39;", "'");
    let d = replace(c.as_str(), "&lt;", "<");
    replace(d.as_str(), "&gt;", ">")
}

/// The raw release time of the next episode.
pub const RAW_RELEASE_PATTERN: &'static str = "countdown-time-raw\" datetime=\"([^\"]+)\"";

/// The subtitled release time of the next episode.
pub const SUB_RELEASE_PATTERN: &'static str = "countdown-time\" datetime=\"([^\"]+)\"";

/// The English title.
pub const ENGLISH_TITLE_PATTERN: &'static str = "english-title\">([^<]+)<";

/// The main (Japanese) title.
pub const MAIN_TITLE_PATTERN: &'static str = "main-title\".*>([^<]+)<";

/// The first capture of a pattern in a page, unescaped.
pub open spec fn page_field(page: Seq<char>, pattern: Seq<char>) -> Option<Seq<char>> {
    match group_of(regex_first_match(pattern, page), 1) {
        Some(t) => Some(html_unescape_spec(t)),
        None => None,
    }
}

fn page_field_exec(page: &str, pattern: &str) -> (r: Option<String>)
    ensures
        opt_text(r) == page_field(page@, pattern@),
{
    match first_group(pattern, page, 1) {
        Some(t) => Some(html_unescape(t.as_str())),
        None => None,
    }
}

/// The status an AnimeSchedule page gives: its titles and release times,
/// and `Ongoing` when it gives a release time, else `Finished`.
pub fn parse_status(page: &str) -> (r: NextEpisodeStatus)
    ensures
        opt_text(r.next_raw_release) == page_field(page@, RAW_RELEASE_PATTERN@),
        opt_text(r.next_sub_release) == page_field(page@, SUB_RELEASE_PATTERN@),
        opt_text(r.english_title) == page_field(page@, ENGLISH_TITLE_PATTERN@),
        opt_text(r.japanese_title) == page_field(page@, MAIN_TITLE_PATTERN@),
        r.status@ == (if r.next_raw_release is Some || r.next_sub_release is Some {
            "Ongoing"@
        } else {
            "Finished"@
        }),
{
    let next_raw_release = page_field_exec(page, RAW_RELEASE_PATTERN);
    let next_sub_release = page_field_exec(page, SUB_RELEASE_PATTERN);
    let english_title = page_field_exec(page, ENGLISH_TITLE_PATTERN);
    let japanese_title = page_field_exec(page, MAIN_TITLE_PATTERN);
    let status = if next_raw_release.is_some() || next_sub_release.is_some() {
        String::from_str("Ongoing")
    } else {
        String::from_str("Finished")
    };
    NextEpisodeStatus { english_title, japanese_title, next_raw_release, next_sub_release, status }
}

/// The route of a show in a search response.
pub const ROUTE_PATTERN: &'static str = "\"route\":\"([^\"]+)\"";

/// The most show pages looked up for one search.
pub const MAX_SCHEDULE_ROUTES: usize = 10;

/// The routes that matches give, skipping matches without one.
pub open spec fn routes_of(ms: Seq<Seq<Option<Seq<char>>>>) -> Seq<Seq<char>>
    decreases ms.len(),
{
    if ms.len() == 0 {
        Seq::empty()
    } else {
        let r = routes_of(ms.drop_last());
        match group_in(ms.last(), 1) {
            Some(t) => r.push(t),
            None => r,
        }
    }
}

/// The routes of the shows a search response lists, the first ten.
pub open spec fn schedule_routes_spec(search: Seq<char>) -> Seq<Seq<char>> {
    let all = routes_of(regex_all_matches(ROUTE_PATTERN@, search));
    if all.len() <= MAX_SCHEDULE_ROUTES {
        all
    } else {
        all.take(MAX_SCHEDULE_ROUTES as int)
    }
}

/// The routes of the shows a search response lists (see `schedule_routes_spec`).
pub fn schedule_routes(search: &str) -> (r: Vec<String>)
    ensures
        views(r@) == schedule_routes_spec(search@),
{
    let ms = regex_captures_all(ROUTE_PATTERN, search);
    let ghost mv = match_views(ms@);
    let mut out: Vec<String> = Vec::new();
    let mut i: usize = 0;
    assert(views(out@) =~= routes_of(mv.take(0)));
    while i < ms.len() && out.len() < MAX_SCHEDULE_ROUTES
        invariant
            i <= ms@.len(),
            mv == match_views(ms@),
            out@.len() <= MAX_SCHEDULE_ROUTES,
            views(out@) == routes_of(mv.take(i as int)),
        decreases ms@.len() - i,
    {
        assert(mv.take(i + 1).drop_last() =~= mv.take(i as int));
        assert(mv.take(i + 1).last() == opt_views(ms@[i as int]@));
        let ghost before = views(out@);
        match take_group(&ms[i], 1) {
            Some(t) => {
                out.push(t);
                assert(views(out@) =~= before.push(out@[out@.len() - 1]@));
            },
            None => {},
        }
        i = i + 1;
    }
    proof {
        lemma_routes_prefix(mv, i as int);
        if i < ms@.len() {
            assert(out@.len() == MAX_SCHEDULE_ROUTES);
        } else {
            assert(mv.take(i as int) =~= mv);
        }
    }
    out
}

/// The routes of a prefix of the matches are a prefix of all routes.
proof fn lemma_routes_prefix(ms: Seq<Seq<Option<Seq<char>>>>, i: int)
    requires
        0 <= i <= ms.len(),
    ensures
        routes_of(ms.take(i)).len() <= routes_of(ms).len(),
        routes_of(ms.take(i)) == routes_of(ms).take(routes_of(ms.take(i)).len() as int),
    decreases ms.len() - i,
{
    if i < ms.len() {
        lemma_routes_prefix(ms, i + 1);
        assert(ms.take(i + 1).drop_last() =~= ms.take(i));
        let a = routes_of(ms.take(i));
        let b = routes_of(ms.take(i + 1));
        assert(b.take(a.len() as int) =~= a);
        assert(routes_of(ms).take(a.len() as int) =~= routes_of(ms).take(b.len() as int).take(
            a.len() as int,
        ));
    } else {
        assert(ms.take(i) =~= ms);
        assert(routes_of(ms).take(routes_of(ms).len() as int) =~= routes_of(ms));
    }
}

/// The AnimeSchedule search URL for a query.
pub fn schedule_search_url(query: &str) -> (r: String)
    ensures
        r@ == "https://animeschedule.net/api/v3/anime?q="@ + percent_encode_spec(query.spec_bytes()),
{
    let mut u = String::from_str("https://animeschedule.net/api/v3/anime?q=");
    let q = url_encode(query);
    push_str(&mut u, q.as_str());
    u
}

/// The AnimeSchedule page of a show route.
pub fn schedule_page_url(route: &str) -> (r: String)
    ensures
        r@ == "https://animeschedule.net/anime/"@ + route@,
{
    let mut u = String::from_str("https://animeschedule.net/anime/");
    push_str(&mut u, route);
    u
}

} // verus!
