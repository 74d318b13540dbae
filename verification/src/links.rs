//! Choosing among the stream links of an episode: which links are kept, the
//! order they are offered in, duplicates, and the link a preference picks.

use vstd::prelude::*;
use crate::media::{
    StreamLink, SelectedStream, SubtitleTrack, same_link, same_stream, score_spec,
};
use crate::quality::{QualityPreference, QualityModel};
use crate::seqs::{
    first_index, last_index, lemma_first_index, lemma_last_index, first_occurrences,
    lemma_first_occurrences_first, lemma_first_occurrences_cover, lemma_first_occurrences_distinct,
    key_at_one_of,
};
use crate::text::{
    contains, contains_spec, str_eq, lex_lt, lex_less, lemma_lex_strict_total,
    lemma_lex_transitive, chars_of, is_digit, push_str,
};

verus! {

// ---------------------------------------------------------------------
// Picking a link
// ---------------------------------------------------------------------

/// The link at `i` has a positive score.
pub open spec fn scores_positive(links: Seq<StreamLink>) -> spec_fn(int) -> bool {
    |i: int| score_spec(links[i].quality@) > 0
}

/// The quality of the link at `i` contains `v`.
pub open spec fn quality_contains(links: Seq<StreamLink>, v: Seq<char>) -> spec_fn(int) -> bool {
    |i: int| contains_spec(links[i].quality@, v)
}

/// Position of the link a preference picks: `Best` the first link; `Worst`
/// the last link with a positive score, else the last link; `Exact(v)` the
/// first link whose quality contains `v`, else the first link.
pub open spec fn select_index(links: Seq<StreamLink>, q: QualityModel) -> Option<int> {
    let n = links.len() as int;
    let first = if n > 0 {
        Some(0int)
    } else {
        None
    };
    match q {
        QualityModel::Best => first,
        QualityModel::Worst => match last_index(n, scores_positive(links)) {
            Some(i) => Some(i),
            None => if n > 0 {
                Some(n - 1)
            } else {
                None
            },
        },
        QualityModel::Exact(v) => match first_index(n, quality_contains(links, v)) {
            Some(i) => Some(i),
            None => first,
        },
    }
}

/// A preference picks a link exactly when there is one.
pub proof fn select_finds_a_link_when_there_is_one(links: Seq<StreamLink>, q: QualityModel)
    ensures
        select_index(links, q) is Some <==> links.len() > 0,
        select_index(links, q) matches Some(i) ==> 0 <= i < links.len(),
{
    let n = links.len() as int;
    lemma_last_index(n, scores_positive(links));
    match q {
        QualityModel::Exact(v) => {
            lemma_first_index(n, quality_contains(links, v));
        },
        _ => {},
    }
}

/// What each preference picks from ranked links: `Best` the first link;
/// `Exact(v)` the first link whose quality contains `v`, and the first
/// (best) link when none does; `Worst` the last link with a positive score,
/// and the last link when none has one.
pub proof fn preferences_pick_their_links(links: Seq<StreamLink>, v: Seq<char>)
    ensures
        links.len() > 0 ==> select_index(links, QualityModel::Best) == Some(0int),
        links.len() > 0 && (forall|j: int| 0 <= j < links.len() ==> !contains_spec(#[trigger] links[j].quality@, v))
            ==> select_index(links, QualityModel::Exact(v)) == Some(0int),
        forall|i: int|
            0 <= i < links.len() && contains_spec(#[trigger] links[i].quality@, v) && (forall|j: int|
                0 <= j < i ==> !contains_spec(links[j].quality@, v)) ==> select_index(
                links,
                QualityModel::Exact(v),
            ) == Some(i),
        links.len() > 0 && (forall|j: int| 0 <= j < links.len() ==> !(score_spec(#[trigger] links[j].quality@) > 0))
            ==> select_index(links, QualityModel::Worst) == Some(links.len() - 1),
        forall|i: int|
            0 <= i < links.len() && score_spec(#[trigger] links[i].quality@) > 0 && (forall|j: int|
                i < j < links.len() ==> !(score_spec(links[j].quality@) > 0)) ==> select_index(
                links,
                QualityModel::Worst,
            ) == Some(i),
{
    let n = links.len() as int;
    let p = quality_contains(links, v);
    let w = scores_positive(links);
    lemma_first_index(n, p);
    lemma_last_index(n, w);
    assert forall|i: int|
        0 <= i < links.len() && contains_spec(#[trigger] links[i].quality@, v) && (forall|j: int|
            0 <= j < i ==> !contains_spec(links[j].quality@, v)) implies select_index(
            links,
            QualityModel::Exact(v),
        ) == Some(i) by {
        assert(p(i));
        match first_index(n, p) {
            Some(k) => {
                if k < i {
                    assert(p(k));
                    assert(!contains_spec(links[k].quality@, v));
                } else if k > i {
                    assert(!p(i));
                }
            },
            None => {
                assert(!p(i));
            },
        }
    }
    assert forall|i: int|
        0 <= i < links.len() && score_spec(#[trigger] links[i].quality@) > 0 && (forall|j: int|
            i < j < links.len() ==> !(score_spec(links[j].quality@) > 0)) implies select_index(
            links,
            QualityModel::Worst,
        ) == Some(i) by {
        assert(w(i));
        match last_index(n, w) {
            Some(k) => {
                if k > i {
                    assert(w(k));
                    assert(!(score_spec(links[k].quality@) > 0));
                } else if k < i {
                    assert(!w(i));
                }
            },
            None => {
                assert(!w(i));
            },
        }
    }
    if links.len() > 0 && (forall|j: int| 0 <= j < links.len() ==> !contains_spec(#[trigger] links[j].quality@, v)) {
        assert forall|j: int| 0 <= j < n implies !#[trigger] p(j) by {
            assert(!contains_spec(links[j].quality@, v));
        }
        if first_index(n, p) is Some {
            let k = first_index(n, p)->0;
            assert(p(k));
        }
    }
    if links.len() > 0 && (forall|j: int| 0 <= j < links.len() ==> !(score_spec(#[trigger] links[j].quality@) > 0)) {
        if last_index(n, w) is Some {
            let k = last_index(n, w)->0;
            assert(w(k));
            assert(!(score_spec(links[k].quality@) > 0));
        }
    }
}

/// The stream a preference picks from ranked links, if there are any.
pub fn select_quality(links: &[StreamLink], quality: &QualityPreference) -> (r: Option<
    SelectedStream,
>)
    ensures
        match select_index(links@, quality.model()) {
            Some(i) => r matches Some(s) && same_stream(
                s,
                SelectedStream::from_link_spec(links@[i]),
            ),
            None => r is None,
        },
{
    proof {
        select_finds_a_link_when_there_is_one(links@, quality.model());
    }
    let n = links.len();
    let index: Option<usize> = match quality {
        QualityPreference::Best => if n > 0 {
            Some(0)
        } else {
            None
        },
        QualityPreference::Worst => match last_positive(links) {
            Some(k) => Some(k),
            None => if n > 0 {
                Some(n - 1)
            } else {
                None
            },
        },
        QualityPreference::Exact(v) => match first_containing(links, v.as_str()) {
            Some(k) => Some(k),
            None => if n > 0 {
                Some(0)
            } else {
                None
            },
        },
    };
    match index {
        Some(i) => Some(SelectedStream::from_link(links[i].clone())),
        None => None,
    }
}

/// Position of the last link with a positive score.
fn last_positive(links: &[StreamLink]) -> (r: Option<usize>)
    ensures
        match r {
            Some(k) => last_index(links@.len() as int, scores_positive(links@)) == Some(k as int),
            None => last_index(links@.len() as int, scores_positive(links@)) is None,
        },
{
    let ghost p = scores_positive(links@);
    let n = links.len();
    let mut i: usize = n;
    while i > 0
        invariant
            i <= n == links@.len(),
            p == scores_positive(links@),
            last_index(n as int, p) == last_index(i as int, p),
        decreases i,
    {
        if links[i - 1].score() > 0 {
            assert(p(i - 1));
            return Some(i - 1);
        }
        assert(!p(i - 1));
        i = i - 1;
    }
    None
}

/// Position of the first link whose quality contains `v`.
fn first_containing(links: &[StreamLink], v: &str) -> (r: Option<usize>)
    ensures
        match r {
            Some(k) => first_index(links@.len() as int, quality_contains(links@, v@)) == Some(
                k as int,
            ),
            None => first_index(links@.len() as int, quality_contains(links@, v@)) is None,
        },
{
    let ghost p = quality_contains(links@, v@);
    let n = links.len();
    let mut i: usize = 0;
    while i < n
        invariant
            i <= n == links@.len(),
            p == quality_contains(links@, v@),
            first_index(i as int, p) is None,
        decreases n - i,
    {
        if contains(links[i].quality.as_str(), v) {
            assert(p(i as int));
            assert(first_index(i + 1, p) == Some(i as int));
            proof {
                crate::seqs::lemma_first_index_extends(n as int, i + 1, p);
            }
            return Some(i);
        }
        assert(!p(i as int));
        i = i + 1;
    }
    None
}

// ---------------------------------------------------------------------
// Duplicates
// ---------------------------------------------------------------------

/// The views of an optional string.
pub open spec fn opt_text(o: Option<String>) -> Option<Seq<char>> {
    match o {
        Some(s) => Some(s@),
        None => None,
    }
}

/// What makes two links the same stream: quality, URL, hard-subtitle and
/// audio language.
pub open spec fn link_key(l: StreamLink) -> (Seq<char>, Seq<char>, Option<Seq<char>>, Option<Seq<char>>) {
    (l.quality@, l.url@, opt_text(l.hardsub_language), opt_text(l.audio_language))
}

/// The keys of a list of links.
pub open spec fn link_keys(links: Seq<StreamLink>) -> Seq<(Seq<char>, Seq<char>, Option<Seq<char>>, Option<Seq<char>>)> {
    links.map_values(|l: StreamLink| link_key(l))
}

fn opt_str_eq(a: &Option<String>, b: &Option<String>) -> (r: bool)
    ensures
        r == (opt_text(*a) == opt_text(*b)),
{
    match (a, b) {
        (Some(x), Some(y)) => str_eq(x.as_str(), y.as_str()),
        (None, None) => true,
        _ => false,
    }
}

fn same_key(a: &StreamLink, b: &StreamLink) -> (r: bool)
    ensures
        r == (link_key(*a) == link_key(*b)),
{
    str_eq(a.quality.as_str(), b.quality.as_str()) && str_eq(a.url.as_str(), b.url.as_str())
        && opt_str_eq(&a.hardsub_language, &b.hardsub_language) && opt_str_eq(
        &a.audio_language,
        &b.audio_language,
    )
}

/// The links without repeats: of the links with one key, the first is kept,
/// in the order the kept links first appear.
pub fn dedupe_links(links: Vec<StreamLink>) -> (r: Vec<StreamLink>)
    ensures
        r@.len() == first_occurrences(link_keys(links@)).len(),
        forall|k: int|
            0 <= k < r@.len() ==> same_link(
                #[trigger] r@[k],
                links@[first_occurrences(link_keys(links@))[k]],
            ),
{
    let ghost keys = link_keys(links@);
    let mut out: Vec<StreamLink> = Vec::new();
    let mut i: usize = 0;
    while i < links.len()
        invariant
            i <= links@.len(),
            keys == link_keys(links@),
            out@.len() == first_occurrences(keys.take(i as int)).len(),
            forall|k: int|
                0 <= k < out@.len() ==> same_link(
                    #[trigger] out@[k],
                    links@[first_occurrences(keys.take(i as int))[k]],
                ),
        decreases links@.len() - i,
    {
        let ghost t = keys.take(i as int);
        let ghost f = first_occurrences(t);
        proof {
            lemma_first_occurrences_first(t);
            lemma_first_occurrences_cover(t);
            assert(keys.take(i + 1).drop_last() =~= t);
            assert(keys.take(i + 1).last() == keys[i as int]);
        }
        let mut seen = false;
        let mut k: usize = 0;
        while k < out.len()
            invariant
                k <= out@.len() == f.len(),
                i < links@.len(),
                keys == link_keys(links@),
                t == keys.take(i as int),
                f == first_occurrences(t),
                forall|m: int| 0 <= m < f.len() ==> 0 <= #[trigger] f[m] < t.len(),
                forall|m: int|
                    0 <= m < out@.len() ==> same_link(#[trigger] out@[m], links@[f[m]]),
                seen == exists|m: int| 0 <= m < k && t[#[trigger] f[m]] == keys[i as int],
            decreases out@.len() - k,
        {
            proof {
                assert(t[f[k as int]] == keys[f[k as int]]);
                assert(link_key(out@[k as int]) == keys[f[k as int]]);
            }
            if same_key(&out[k], &links[i]) {
                seen = true;
            }
            k = k + 1;
        }
        proof {
            if seen {
                let m = choose|m: int| 0 <= m < k && t[#[trigger] f[m]] == keys[i as int];
                assert(t.contains(keys[i as int]));
            } else if t.contains(keys[i as int]) {
                let j = choose|j: int| 0 <= j < t.len() && t[j] == keys[i as int];
                assert(key_at_one_of(t, f, t[j]));
            }
        }
        if !seen {
            let ghost before = out@;
            out.push(links[i].clone());
            proof {
                assert forall|m: int| 0 <= m < out@.len() implies same_link(
                    #[trigger] out@[m],
                    links@[first_occurrences(keys.take(i + 1))[m]],
                ) by {
                    if m < before.len() {
                        assert(out@[m] == before[m]);
                    }
                }
            }
        }
        i = i + 1;
    }
    assert(keys.take(links@.len() as int) =~= keys);
    out
}

/// Deduplication keeps one link for each key: the kept positions hold
/// pairwise different keys, and every key of the input is among them.
pub proof fn dedupe_keeps_one_link_per_key(links: Seq<StreamLink>)
    ensures
        forall|k1: int, k2: int|
            0 <= k1 < first_occurrences(link_keys(links)).len() && 0 <= k2 < first_occurrences(
                link_keys(links),
            ).len() && k1 != k2 ==> link_keys(links)[#[trigger] first_occurrences(
                link_keys(links),
            )[k1]] != link_keys(links)[#[trigger] first_occurrences(link_keys(links))[k2]],
        forall|j: int|
            0 <= j < links.len() ==> key_at_one_of(
                link_keys(links),
                first_occurrences(link_keys(links)),
                #[trigger] link_keys(links)[j],
            ),
{
    lemma_first_occurrences_distinct(link_keys(links));
    lemma_first_occurrences_cover(link_keys(links));
}

// ---------------------------------------------------------------------
// Ranking
// ---------------------------------------------------------------------

/// `a` is offered before `b`: a higher score first, then the quality label
/// in ascending order.
pub open spec fn ranks_before(a: StreamLink, b: StreamLink) -> bool {
    let sa = score_spec(a.quality@);
    let sb = score_spec(b.quality@);
    sa > sb || (sa == sb && lex_lt(a.quality@, b.quality@))
}

/// `ranks_before` is a strict order whose ties are links with the same label.
pub proof fn lemma_ranks_before(a: StreamLink, b: StreamLink, c: StreamLink)
    ensures
        !ranks_before(a, a),
        ranks_before(a, b) ==> !ranks_before(b, a),
        a.quality@ != b.quality@ ==> ranks_before(a, b) || ranks_before(b, a),
        ranks_before(a, b) && ranks_before(b, c) ==> ranks_before(a, c),
{
    lemma_lex_strict_total(a.quality@, b.quality@);
    lemma_lex_transitive(a.quality@, b.quality@, c.quality@);
}

/// `r` is `links` stably sorted by `ranks_before`, through the permutation `perm`.
pub open spec fn is_ranking(r: Seq<StreamLink>, links: Seq<StreamLink>, perm: Seq<int>) -> bool {
    &&& r.len() == links.len()
    &&& perm.len() == links.len()
    &&& forall|k: int| 0 <= k < r.len() ==> 0 <= #[trigger] perm[k] < links.len()
    &&& forall|k: int| 0 <= k < r.len() ==> #[trigger] r[k] == links[perm[k]]
    &&& forall|k1: int, k2: int| 0 <= k1 < k2 < r.len() ==> perm[k1] != perm[k2]
    &&& forall|k1: int, k2: int| 0 <= k1 < k2 < r.len() ==> !ranks_before(r[k2], r[k1])
    &&& forall|k1: int, k2: int|
        0 <= k1 < k2 < r.len() && r[k1].quality@ == r[k2].quality@ ==> perm[k1] < perm[k2]
}

fn ranks_before_exec(a: &StreamLink, b: &StreamLink) -> (r: bool)
    ensures
        r == ranks_before(*a, *b),
{
    let sa = a.score();
    let sb = b.score();
    sa > sb || (sa == sb && lex_less(a.quality.as_str(), b.quality.as_str()))
}

/// The links in the order they are offered: by score, highest first, then by
/// quality label; links that tie keep their order.
pub fn rank_links(links: Vec<StreamLink>) -> (r: Vec<StreamLink>)
    ensures
        exists|perm: Seq<int>| is_ranking(r@, links@, perm),
{
    let ghost orig = links@;
    let mut rest = links;
    let mut out: Vec<StreamLink> = Vec::new();
    let ghost mut perm: Seq<int> = Seq::empty();
    assert(orig.skip(0) =~= orig);
    while rest.len() > 0
        invariant
            rest@ == orig.skip(orig.len() - rest@.len()),
            rest@.len() <= orig.len(),
            is_ranking(out@, orig.take(orig.len() - rest@.len()), perm),
        decreases rest@.len(),
    {
        let ghost i: int = orig.len() - rest@.len();
        let ghost pre = orig.take(i);
        let x = rest.remove(0);
        assert(x == orig[i]);
        assert(rest@ =~= orig.skip(i + 1));
        let mut p: usize = 0;
        while p < out.len() && !ranks_before_exec(&x, &out[p])
            invariant
                p <= out@.len(),
                forall|k: int| 0 <= k < p ==> !ranks_before(x, #[trigger] out@[k]),
            decreases out@.len() - p,
        {
            p = p + 1;
        }
        let ghost old_out = out@;
        let ghost old_perm = perm;
        out.insert(p, x);
        proof {
            perm = old_perm.insert(p as int, i);
            let post = orig.take(i + 1);
            assert(post =~= pre.push(x));
            assert(out@ =~= old_out.insert(p as int, x));
            assert forall|k: int| 0 <= k < out@.len() implies #[trigger] out@[k] == post[perm[k]]
                && 0 <= perm[k] < post.len() by {
                if k < p {
                    assert(out@[k] == old_out[k] && perm[k] == old_perm[k]);
                } else if k > p {
                    assert(out@[k] == old_out[k - 1] && perm[k] == old_perm[k - 1]);
                }
            }
            assert forall|k1: int, k2: int|
                #![trigger perm[k1], perm[k2]]
                #![trigger out@[k1], out@[k2]]
                0 <= k1 < k2 < out@.len() implies perm[k1] != perm[k2]
                && !ranks_before(out@[k2], out@[k1]) && (out@[k1].quality@ == out@[k2].quality@
                ==> perm[k1] < perm[k2]) by {
                let a = out@[k1];
                let b = out@[k2];
                if k2 < p {
                    assert(a == old_out[k1] && b == old_out[k2]);
                    assert(perm[k1] == old_perm[k1] && perm[k2] == old_perm[k2]);
                } else if k2 == p {
                    assert(a == old_out[k1] && perm[k1] == old_perm[k1]);
                    assert(!ranks_before(x, a));
                } else if k1 == p {
                    assert(b == old_out[k2 - 1] && perm[k2] == old_perm[k2 - 1]);
                    assert(p < old_out.len());
                    assert(ranks_before(x, old_out[p as int]));
                    if k2 - 1 > p {
                        assert(!ranks_before(old_out[k2 - 1], old_out[p as int]));
                    }
                    lemma_ranks_before(b, x, old_out[p as int]);
                    lemma_ranks_before(x, x, x);
                } else if k1 < p {
                    assert(a == old_out[k1] && perm[k1] == old_perm[k1]);
                    assert(b == old_out[k2 - 1] && perm[k2] == old_perm[k2 - 1]);
                } else {
                    assert(a == old_out[k1 - 1] && perm[k1] == old_perm[k1 - 1]);
                    assert(b == old_out[k2 - 1] && perm[k2] == old_perm[k2 - 1]);
                }
            }
            assert forall|k: int| 0 <= k < out@.len() implies 0 <= #[trigger] perm[k] < post.len() by {
                assert(out@[k] == post[perm[k]]);
            }
            assert(out@.len() == post.len() && perm.len() == post.len());
            assert(is_ranking(out@, post, perm));
        }
    }
    assert(orig.take(orig.len() as int) =~= orig);
    out
}

// ---------------------------------------------------------------------
// Keeping links and finishing an episode's sources
// ---------------------------------------------------------------------

/// A link stays on offer: it is no failed provider, and not soft-subtitled
/// when soft subtitles are filtered out.
pub open spec fn keeps_link(l: StreamLink, filter_soft_subs: bool) -> bool {
    l.quality@ != "error"@ && !(filter_soft_subs && l.soft_subbed)
}

/// The predicate `keeps_link` with the filter setting fixed.
pub open spec fn kept_by(filter_soft_subs: bool) -> spec_fn(StreamLink) -> bool {
    |l: StreamLink| keeps_link(l, filter_soft_subs)
}

/// The links that stay on offer, in their order.
pub fn playable_links(links: Vec<StreamLink>, filter_soft_subs: bool) -> (r: Vec<StreamLink>)
    ensures
        r@ == links@.filter(kept_by(filter_soft_subs)),
{
    let ghost orig = links@;
    let ghost pred = kept_by(filter_soft_subs);
    let mut rest = links;
    let mut out: Vec<StreamLink> = Vec::new();
    assert(orig.skip(0) =~= orig);
    assert(orig.take(0).filter(pred) =~= Seq::<StreamLink>::empty()) by {
        reveal(Seq::filter);
    }
    while rest.len() > 0
        invariant
            rest@ == orig.skip(orig.len() - rest@.len()),
            rest@.len() <= orig.len(),
            pred == kept_by(filter_soft_subs),
            out@ == orig.take(orig.len() - rest@.len()).filter(pred),
        decreases rest@.len(),
    {
        let ghost i: int = orig.len() - rest@.len();
        let x = rest.remove(0);
        proof {
            assert(x == orig[i]);
            assert(rest@ =~= orig.skip(i + 1));
            assert(orig.take(i + 1) =~= orig.take(i).push(x));
            orig.take(i).lemma_filter_push(x, pred);
        }
        let keep = !str_eq(x.quality.as_str(), "error") && !(filter_soft_subs && x.soft_subbed);
        assert(keep == pred(x));
        if keep {
            out.push(x);
        }
        assert(out@ == orig.take(i + 1).filter(pred));
    }
    assert(orig.take(orig.len() as int) =~= orig);
    out
}

/// A failed provider fetch, kept among the links until they are filtered.
pub fn provider_error_link(source: String, message: String) -> (r: StreamLink)
    ensures
        r.quality@ == "error"@,
        r.url == message,
        r.source == source,
        r.referrer is None,
        r.subtitle is None,
        r.subtitles@.len() == 0,
        r.hardsub_language is None,
        r.audio_language is None,
        !r.soft_subbed,
{
    StreamLink {
        quality: String::from_str("error"),
        url: message,
        source,
        referrer: None,
        subtitle: None,
        subtitles: Vec::new(),
        hardsub_language: None,
        audio_language: None,
        soft_subbed: false,
    }
}

/// An episode's links in the order offered, and the one picked for playback.
#[derive(Debug)]
pub struct EpisodeSources {
    pub links: Vec<StreamLink>,
    pub selected: SelectedStream,
}

/// Why an episode has nothing to play.
#[derive(Debug, PartialEq, Eq, Clone, Copy, Structural)]
pub enum SourcesError {
    /// Every link failed or was filtered out.
    NoValidSources,
}

impl SourcesError {
    /// The message the error is reported with.
    pub open spec fn message_spec(self) -> Seq<char> {
        match self {
            SourcesError::NoValidSources => "episode is released, but no valid sources were found"@,
        }
    }

    /// The message the error is reported with (see `message_spec`).
    pub fn message(self) -> (r: &'static str)
        ensures
            r@ == self.message_spec(),
    {
        match self {
            SourcesError::NoValidSources => "episode is released, but no valid sources were found",
        }
    }
}

/// The sources of an episode from all the links its providers gave: the
/// links on offer, ranked, and the one the preference picks among them; an
/// error when no link is on offer.
pub fn finish_episode_sources(
    links: Vec<StreamLink>,
    quality: &QualityPreference,
    filter_soft_subs: bool,
) -> (r: Result<EpisodeSources, SourcesError>)
    ensures
        ({
            let kept = links@.filter(kept_by(filter_soft_subs));
            match r {
                Ok(es) => {
                    &&& kept.len() > 0
                    &&& exists|perm: Seq<int>| is_ranking(es.links@, kept, perm)
                    &&& select_index(es.links@, quality.model()) matches Some(i) && same_stream(
                        es.selected,
                        SelectedStream::from_link_spec(es.links@[i]),
                    )
                },
                Err(e) => kept.len() == 0 && e == SourcesError::NoValidSources,
            }
        }),
{
    let kept = playable_links(links, filter_soft_subs);
    let ranked = rank_links(kept);
    proof {
        select_finds_a_link_when_there_is_one(ranked@, quality.model());
    }
    match select_quality(ranked.as_slice(), quality) {
        Some(selected) => Ok(EpisodeSources { links: ranked, selected }),
        None => Err(SourcesError::NoValidSources),
    }
}

// ---------------------------------------------------------------------
// Provider link metadata
// ---------------------------------------------------------------------

/// What a provider response says of one link.
#[derive(Debug, PartialEq, Eq)]
pub struct ProviderLinkMeta {
    pub quality: Option<String>,
    pub url: String,
    pub referrer: Option<String>,
    pub subtitles: Vec<SubtitleTrack>,
    pub hardsub_language: Option<String>,
    pub audio_language: Option<String>,
}

/// All characters are ASCII digits.
pub open spec fn all_ascii_digits(s: Seq<char>) -> bool {
    forall|i: int| 0 <= i < s.len() ==> is_digit(s[i])
}

/// A quality label as shown: a bare number gets a `p` suffix (`720` is
/// `720p`; an empty label becomes `p`).
pub open spec fn quality_label_spec(value: Seq<char>) -> Seq<char> {
    if all_ascii_digits(value) {
        value + "p"@
    } else {
        value
    }
}

/// Normalizes a quality label (see `quality_label_spec`).
pub fn normalize_quality(value: String) -> (r: String)
    ensures
        r@ == quality_label_spec(value@),
{
    let v = chars_of(value.as_str());
    let mut i: usize = 0;
    while i < v.len()
        invariant
            i <= v@.len(),
            v@ == value@,
            forall|j: int| 0 <= j < i ==> is_digit(v@[j]),
        decreases v@.len() - i,
    {
        if !(v[i] >= '0' && v[i] <= '9') {
            return value;
        }
        i = i + 1;
    }
    let mut r = value;
    push_str(&mut r, "p");
    r
}

/// The stream link a provider's link metadata describes.
pub open spec fn stream_from_meta_spec(meta: ProviderLinkMeta, source: Seq<char>, r: StreamLink) -> bool {
    &&& r.quality@ == (match meta.quality {
        Some(q) => q@,
        None => "hls"@,
    })
    &&& r.url == meta.url
    &&& r.source@ == source
    &&& r.referrer == meta.referrer
    &&& r.subtitle == (if meta.subtitles@.len() > 0 {
        Some(meta.subtitles@[0].url)
    } else {
        None
    })
    &&& r.soft_subbed == (meta.subtitles@.len() > 0)
    &&& r.subtitles@ == meta.subtitles@
    &&& r.hardsub_language == meta.hardsub_language
    &&& r.audio_language == meta.audio_language
}

/// The stream link for one link of a provider response: its quality (`hls`
/// when it gives none), its first subtitle track as the default subtitle,
/// and soft-subtitled when it has tracks.
pub fn stream_from_provider_meta(meta: ProviderLinkMeta, source: &str) -> (r: StreamLink)
    ensures
        stream_from_meta_spec(meta, source@, r),
{
    let subtitle = if meta.subtitles.len() > 0 {
        Some(meta.subtitles[0].url.clone())
    } else {
        None
    };
    let soft_subbed = meta.subtitles.len() > 0;
    StreamLink {
        quality: match meta.quality {
            Some(q) => q,
            None => String::from_str("hls"),
        },
        url: meta.url,
        source: String::from_str(source),
        referrer: meta.referrer,
        subtitle,
        soft_subbed,
        subtitles: meta.subtitles,
        hardsub_language: meta.hardsub_language,
        audio_language: meta.audio_language,
    }
}

// ---------------------------------------------------------------------
// Links by their texts
// ---------------------------------------------------------------------

/// A subtitle track by its texts: language, label, URL.
pub open spec fn track_view(t: SubtitleTrack) -> (Seq<char>, Seq<char>, Seq<char>) {
    (t.lang@, t.label@, t.url@)
}

/// The views of a list of subtitle tracks.
pub open spec fn tracks_view(ts: Seq<SubtitleTrack>) -> Seq<(Seq<char>, Seq<char>, Seq<char>)> {
    ts.map_values(|t: SubtitleTrack| track_view(t))
}

/// A stream link by its texts.
pub struct LinkView {
    pub quality: Seq<char>,
    pub url: Seq<char>,
    pub source: Seq<char>,
    pub referrer: Option<Seq<char>>,
    pub subtitle: Option<Seq<char>>,
    pub subtitles: Seq<(Seq<char>, Seq<char>, Seq<char>)>,
    pub hardsub_language: Option<Seq<char>>,
    pub audio_language: Option<Seq<char>>,
    pub soft_subbed: bool,
}

/// The texts of a stream link.
pub open spec fn link_view(l: StreamLink) -> LinkView {
    LinkView {
        quality: l.quality@,
        url: l.url@,
        source: l.source@,
        referrer: opt_text(l.referrer),
        subtitle: opt_text(l.subtitle),
        subtitles: tracks_view(l.subtitles@),
        hardsub_language: opt_text(l.hardsub_language),
        audio_language: opt_text(l.audio_language),
        soft_subbed: l.soft_subbed,
    }
}

/// The views of a list of stream links.
pub open spec fn links_view(ls: Seq<StreamLink>) -> Seq<LinkView> {
    ls.map_values(|l: StreamLink| link_view(l))
}

/// The key of a link view (see `link_key`).
pub open spec fn view_key(v: LinkView) -> (Seq<char>, Seq<char>, Option<Seq<char>>, Option<Seq<char>>) {
    (v.quality, v.url, v.hardsub_language, v.audio_language)
}

/// Link views without repeats, the first of each key kept (see `dedupe_links`).
pub open spec fn dedupe_view(vs: Seq<LinkView>) -> Seq<LinkView> {
    let f = first_occurrences(vs.map_values(|v: LinkView| view_key(v)));
    f.map_values(|i: int| vs[i])
}

/// What `dedupe_links` gives, by its texts.
pub proof fn lemma_dedupe_view(links: Seq<StreamLink>, r: Seq<StreamLink>)
    requires
        r.len() == first_occurrences(link_keys(links)).len(),
        forall|k: int|
            0 <= k < r.len() ==> same_link(
                #[trigger] r[k],
                links[first_occurrences(link_keys(links))[k]],
            ),
    ensures
        links_view(r) == dedupe_view(links_view(links)),
{
    let vs = links_view(links);
    assert(vs.map_values(|v: LinkView| view_key(v)) =~= link_keys(links));
    let f = first_occurrences(link_keys(links));
    lemma_first_occurrences_first(link_keys(links));
    assert forall|k: int| 0 <= k < r.len() implies links_view(r)[k] == dedupe_view(vs)[k] by {
        assert(same_link(r[k], links[f[k]]));
        assert(tracks_view(r[k].subtitles@) == tracks_view(links[f[k]].subtitles@));
    }
    assert(links_view(r) =~= dedupe_view(vs));
}

/// The pick of a preference depends only on the links' quality labels.
pub proof fn lemma_select_by_quality(a: Seq<StreamLink>, b: Seq<StreamLink>, q: QualityModel)
    requires
        a.len() == b.len(),
        forall|i: int| 0 <= i < a.len() ==> a[i].quality@ == b[i].quality@,
    ensures
        select_index(a, q) == select_index(b, q),
{
    crate::seqs::lemma_last_index_agree(a.len() as int, scores_positive(a), scores_positive(b));
    match q {
        QualityModel::Exact(v) => {
            crate::seqs::lemma_first_index_agree(
                a.len() as int,
                quality_contains(a, v),
                quality_contains(b, v),
            );
        },
        _ => {},
    }
}

} // verus!
