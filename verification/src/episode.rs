//! Episode navigation and episode range selection.

use vstd::prelude::*;
use crate::seqs::{first_pos, lemma_first_pos, lemma_first_pos_found, lemma_first_pos_none, position_of, contains_str, clone_range};
use crate::text::{
    views, trim, trim_spec, runs, runs_spec, RunClass, ends_with_spec, ends_with, str_eq,
    push_str, concat,
};

verus! {

/// The episode after `current` in `episodes`, if `current` is listed and is
/// not the last one.
pub open spec fn next_spec(episodes: Seq<Seq<char>>, current: Seq<char>) -> Option<Seq<char>> {
    match first_pos(episodes, current) {
        Some(i) => if i + 1 < episodes.len() {
            Some(episodes[i + 1])
        } else {
            None
        },
        None => None,
    }
}

/// The episode before `current` in `episodes`, if `current` is listed and is
/// not the first one.
pub open spec fn previous_spec(episodes: Seq<Seq<char>>, current: Seq<char>) -> Option<Seq<char>> {
    match first_pos(episodes, current) {
        Some(i) => if i >= 1 {
            Some(episodes[i - 1])
        } else {
            None
        },
        None => None,
    }
}

/// The optional view of an optional text.
pub open spec fn opt_view(o: Option<&str>) -> Option<Seq<char>> {
    match o {
        Some(s) => Some(s@),
        None => None,
    }
}

/// The episode following the first occurrence of `current`.
pub fn next_episode<'a>(episodes: &'a [String], current: &str) -> (r: Option<&'a str>)
    ensures
        opt_view(r) == next_spec(views(episodes@), current@),
{
    match position_of(episodes, current) {
        Some(i) => if episodes.len() - i > 1 {
            Some(episodes[i + 1].as_str())
        } else {
            None
        },
        None => None,
    }
}

/// The episode preceding the first occurrence of `current`.
pub fn previous_episode<'a>(episodes: &'a [String], current: &str) -> (r: Option<&'a str>)
    ensures
        opt_view(r) == previous_spec(views(episodes@), current@),
{
    match position_of(episodes, current) {
        Some(i) => if i >= 1 {
            Some(episodes[i - 1].as_str())
        } else {
            None
        },
        None => None,
    }
}

/// In a list without repeated episodes, going forward and then back returns
/// to the starting episode.
pub proof fn next_then_previous(episodes: Seq<Seq<char>>, current: Seq<char>)
    requires
        episodes.no_duplicates(),
        next_spec(episodes, current) is Some,
    ensures
        previous_spec(episodes, next_spec(episodes, current).unwrap()) == Some(current),
{
    lemma_first_pos_none(episodes, current);
    lemma_first_pos_found(episodes, current);
    let i = first_pos(episodes, current).unwrap();
    let n = episodes[i + 1];
    assert forall|j: int| 0 <= j < i + 1 implies episodes[j] != n by {
        assert(episodes[j] != episodes[i + 1]);
    }
    lemma_first_pos(episodes, n, i + 1);
}

/// In a list without repeated episodes, going back and then forward returns
/// to the starting episode.
pub proof fn previous_then_next(episodes: Seq<Seq<char>>, current: Seq<char>)
    requires
        episodes.no_duplicates(),
        previous_spec(episodes, current) is Some,
    ensures
        next_spec(episodes, previous_spec(episodes, current).unwrap()) == Some(current),
{
    lemma_first_pos_none(episodes, current);
    lemma_first_pos_found(episodes, current);
    let i = first_pos(episodes, current).unwrap();
    let p = episodes[i - 1];
    assert forall|j: int| 0 <= j < i - 1 implies episodes[j] != p by {
        assert(episodes[j] != episodes[i - 1]);
    }
    lemma_first_pos(episodes, p, i - 1);
}

/// Why an episode selection was refused.
#[derive(Debug, PartialEq, Eq)]
pub enum EpisodeError {
    /// The selection text was empty.
    EmptySelection,
    /// The selection needed the last episode but there are none.
    EmptyList,
    /// This episode is not in the list.
    Unavailable(String),
    /// The range starts after it ends.
    StartAfterEnd,
}

/// Abstract value of an `EpisodeError`.
pub enum EpisodeErrorModel {
    EmptySelection,
    EmptyList,
    Unavailable(Seq<char>),
    StartAfterEnd,
}

impl EpisodeError {
    /// The abstract value of this error.
    pub open spec fn model(&self) -> EpisodeErrorModel {
        match self {
            EpisodeError::EmptySelection => EpisodeErrorModel::EmptySelection,
            EpisodeError::EmptyList => EpisodeErrorModel::EmptyList,
            EpisodeError::Unavailable(e) => EpisodeErrorModel::Unavailable(e@),
            EpisodeError::StartAfterEnd => EpisodeErrorModel::StartAfterEnd,
        }
    }

    /// The message shown for this error.
    pub open spec fn message_spec(&self) -> Seq<char> {
        match self {
            EpisodeError::EmptySelection => "episode selection is empty"@,
            EpisodeError::EmptyList => "episode list is empty"@,
            EpisodeError::Unavailable(e) => "episode "@ + e@ + " is not available"@,
            EpisodeError::StartAfterEnd => "episode range start must be before the end"@,
        }
    }

    /// The message shown for this error.
    pub fn message(&self) -> (r: String)
        ensures
            r@ == self.message_spec(),
    {
        match self {
            EpisodeError::EmptySelection => String::from_str("episode selection is empty"),
            EpisodeError::EmptyList => String::from_str("episode list is empty"),
            EpisodeError::Unavailable(e) => {
                let mut s = concat("episode ", e.as_str());
                push_str(&mut s, " is not available");
                s
            },
            EpisodeError::StartAfterEnd => String::from_str(
                "episode range start must be before the end",
            ),
        }
    }
}

/// The episodes a selection names, or why it names none.
///
/// A selection is trimmed first. `-1` is the last episode. Several names
/// separated by spaces or commas, all of them listed, are taken as they are.
/// Otherwise the first and last runs of digits and dots give the start and
/// end of a range (a selection ending in `-1` ends at the last episode); the
/// result is that one episode when start and end are equal, else the listed
/// episodes from the first occurrence of the start to the first occurrence
/// of the end.
pub open spec fn range_spec(selection: Seq<char>, eps: Seq<Seq<char>>) -> Result<
    Seq<Seq<char>>,
    EpisodeErrorModel,
> {
    let sel = trim_spec(selection);
    if sel.len() == 0 {
        Err(EpisodeErrorModel::EmptySelection)
    } else if sel == "-1"@ {
        if eps.len() == 0 {
            Err(EpisodeErrorModel::EmptyList)
        } else {
            Ok(seq![eps.last()])
        }
    } else {
        let requested = runs_spec(sel, RunClass::NoSpaceNoComma);
        if requested.len() > 1 && forall|i: int|
            0 <= i < requested.len() ==> eps.contains(#[trigger] requested[i]) {
            Ok(requested)
        } else {
            let numbers = runs_spec(sel, RunClass::DigitsAndDots);
            let start0 = if numbers.len() > 0 {
                numbers[0]
            } else {
                sel
            };
            let end0 = if ends_with_spec(sel, "-1"@) {
                "-1"@
            } else if numbers.len() > 0 {
                numbers.last()
            } else {
                start0
            };
            range_ends_spec(start0, end0, eps)
        }
    }
}

/// The episodes from `start0` to `end0` (where `-1` stands for the last one).
pub open spec fn range_ends_spec(start0: Seq<char>, end0: Seq<char>, eps: Seq<Seq<char>>) -> Result<
    Seq<Seq<char>>,
    EpisodeErrorModel,
> {
    if (start0 == "-1"@ || end0 == "-1"@) && eps.len() == 0 {
        Err(EpisodeErrorModel::EmptyList)
    } else {
        let start = if start0 == "-1"@ {
            eps.last()
        } else {
            start0
        };
        let end = if end0 == "-1"@ {
            eps.last()
        } else {
            end0
        };
        range_from_to_spec(start, end, eps)
    }
}

/// The listed episodes from `start` to `end`.
pub open spec fn range_from_to_spec(start: Seq<char>, end: Seq<char>, eps: Seq<Seq<char>>) -> Result<
    Seq<Seq<char>>,
    EpisodeErrorModel,
> {
    if start == end {
        Ok(seq![start])
    } else {
        match first_pos(eps, start) {
            None => Err(EpisodeErrorModel::Unavailable(start)),
            Some(a) => match first_pos(eps, end) {
                None => Err(EpisodeErrorModel::Unavailable(end)),
                Some(b) => if a > b {
                    Err(EpisodeErrorModel::StartAfterEnd)
                } else {
                    Ok(eps.subrange(a, b + 1))
                },
            },
        }
    }
}

/// The abstract value of a range result.
pub open spec fn range_result_model(r: Result<Vec<String>, EpisodeError>) -> Result<
    Seq<Seq<char>>,
    EpisodeErrorModel,
> {
    match r {
        Ok(v) => Ok(views(v@)),
        Err(e) => Err(e.model()),
    }
}

/// Whether every string in `parts` is listed in `episodes`.
fn all_listed(parts: &Vec<String>, episodes: &[String]) -> (r: bool)
    ensures
        r == forall|i: int| 0 <= i < parts@.len() ==> views(episodes@).contains(#[trigger] views(parts@)[i]),
{
    let mut i: usize = 0;
    while i < parts.len()
        invariant
            i <= parts@.len(),
            forall|j: int| 0 <= j < i ==> views(episodes@).contains(#[trigger] views(parts@)[j]),
        decreases parts@.len() - i,
    {
        if !contains_str(episodes, parts[i].as_str()) {
            assert(!views(episodes@).contains(views(parts@)[i as int]));
            return false;
        }
        i = i + 1;
    }
    true
}

/// The episodes that `selection` names within `episodes` (see `range_spec`).
#[verifier::rlimit(30)]
pub fn parse_episode_range(selection: &str, episodes: &[String]) -> (r: Result<
    Vec<String>,
    EpisodeError,
>)
    ensures
        range_result_model(r) == range_spec(selection@, views(episodes@)),
{
    proof {
        reveal_strlit("-1");
    }
    let sel = trim(selection);
    let ghost eps = views(episodes@);
    if sel.as_str().is_empty() {
        return Err(EpisodeError::EmptySelection);
    }
    let minus_one = "-1";
    if str_eq(sel.as_str(), minus_one) {
        if episodes.len() == 0 {
            return Err(EpisodeError::EmptyList);
        }
        let last = episodes[episodes.len() - 1].clone();
        let v = vec![last];
        assert(views(v@) =~= seq![eps.last()]);
        return Ok(v);
    }
    let requested = runs(sel.as_str(), RunClass::NoSpaceNoComma);
    if requested.len() > 1 && all_listed(&requested, episodes) {
        return Ok(requested);
    }
    let numbers = runs(sel.as_str(), RunClass::DigitsAndDots);
    let start0: String = if numbers.len() > 0 {
        numbers[0].clone()
    } else {
        sel.clone()
    };
    let ends_minus_one = ends_with(sel.as_str(), minus_one);
    let end0: String = if ends_minus_one {
        String::from_str(minus_one)
    } else if numbers.len() > 0 {
        numbers[numbers.len() - 1].clone()
    } else {
        start0.clone()
    };
    range_between(start0, end0, episodes)
}

/// The episodes from `start0` to `end0` (see `range_ends_spec`).
fn range_between(start0: String, end0: String, episodes: &[String]) -> (r: Result<
    Vec<String>,
    EpisodeError,
>)
    ensures
        range_result_model(r) == range_ends_spec(start0@, end0@, views(episodes@)),
{
    let ghost eps = views(episodes@);
    let minus_one = "-1";
    let start_is_last = str_eq(start0.as_str(), minus_one);
    let end_is_last = str_eq(end0.as_str(), minus_one);
    if (start_is_last || end_is_last) && episodes.len() == 0 {
        return Err(EpisodeError::EmptyList);
    }
    let start: String = if start_is_last {
        episodes[episodes.len() - 1].clone()
    } else {
        start0
    };
    let end: String = if end_is_last {
        episodes[episodes.len() - 1].clone()
    } else {
        end0
    };
    range_from_to(start, end, episodes)
}

/// The listed episodes from `start` to `end` (see `range_from_to_spec`).
fn range_from_to(start: String, end: String, episodes: &[String]) -> (r: Result<
    Vec<String>,
    EpisodeError,
>)
    ensures
        range_result_model(r) == range_from_to_spec(start@, end@, views(episodes@)),
{
    let ghost eps = views(episodes@);
    if str_eq(start.as_str(), end.as_str()) {
        let v = vec![start];
        assert(views(v@) =~= seq![v@[0]@]);
        return Ok(v);
    }
    let a = match position_of(episodes, start.as_str()) {
        Some(a) => a,
        None => {
            return Err(EpisodeError::Unavailable(start));
        },
    };
    let b = match position_of(episodes, end.as_str()) {
        Some(b) => b,
        None => {
            return Err(EpisodeError::Unavailable(end));
        },
    };
    if a > b {
        return Err(EpisodeError::StartAfterEnd);
    }
    assert(b < episodes.len());
    let out = clone_range(episodes, a, b + 1);
    assert(views(out@) =~= eps.subrange(a as int, b + 1));
    Ok(out)
}

/// A selection naming two or more episodes, separated by whitespace or
/// commas, all of them listed, selects exactly those episodes in the order
/// named.
pub proof fn listed_names_are_selected_as_named(selection: Seq<char>, eps: Seq<Seq<char>>)
    requires
        runs_spec(trim_spec(selection), RunClass::NoSpaceNoComma).len() >= 2,
        forall|i: int|
            0 <= i < runs_spec(trim_spec(selection), RunClass::NoSpaceNoComma).len() ==> eps.contains(
                #[trigger] runs_spec(trim_spec(selection), RunClass::NoSpaceNoComma)[i],
            ),
    ensures
        range_spec(selection, eps) == Ok::<Seq<Seq<char>>, EpisodeErrorModel>(
            runs_spec(trim_spec(selection), RunClass::NoSpaceNoComma),
        ),
{
    let sel = trim_spec(selection);
    let k = RunClass::NoSpaceNoComma;
    if sel.len() == 0 {
        assert(runs_spec(sel, k).len() == 0);
    }
    if sel == "-1"@ {
        reveal_strlit("-1");
        assert(sel.drop_last().drop_last() =~= Seq::<char>::empty());
        assert(runs_spec(sel.drop_last().drop_last(), k).len() == 0);
        assert(runs_spec(sel.drop_last(), k).len() == 1);
        assert(runs_spec(sel, k).len() == 1);
    }
}

/// `-1` selects the last episode of a non-empty list, and fails on an
/// empty one.
pub proof fn minus_one_selects_the_last_episode(selection: Seq<char>, eps: Seq<Seq<char>>)
    requires
        trim_spec(selection) == "-1"@,
    ensures
        eps.len() > 0 ==> range_spec(selection, eps) == Ok::<Seq<Seq<char>>, EpisodeErrorModel>(
            seq![eps[eps.len() - 1]],
        ),
        eps.len() == 0 ==> range_spec(selection, eps) == Err::<Seq<Seq<char>>, EpisodeErrorModel>(
            EpisodeErrorModel::EmptyList,
        ),
{
    reveal_strlit("-1");
}

/// A range between two different listed episodes, the start listed before
/// the end, selects every listed episode from the start through the end, in
/// list order.
pub proof fn ranges_select_from_start_through_end(
    start: Seq<char>,
    end: Seq<char>,
    eps: Seq<Seq<char>>,
    a: int,
    b: int,
)
    requires
        start != end,
        0 <= a < b < eps.len(),
        eps[a] == start,
        eps[b] == end,
        forall|i: int| 0 <= i < a ==> eps[i] != start,
        forall|i: int| 0 <= i < b ==> eps[i] != end,
    ensures
        range_from_to_spec(start, end, eps) is Ok,
        range_from_to_spec(start, end, eps)->Ok_0.len() == b - a + 1,
        forall|i: int|
            0 <= i <= b - a ==> #[trigger] range_from_to_spec(start, end, eps)->Ok_0[i] == eps[a + i],
{
    lemma_first_pos(eps, start, a);
    lemma_first_pos(eps, end, b);
}

/// A selection that is not a list of listed names takes its first and last
/// runs of digits and dots as the start and end of a range (unless it ends
/// in `-1`).
pub proof fn selections_name_their_range_ends(selection: Seq<char>, eps: Seq<Seq<char>>)
    requires
        trim_spec(selection).len() > 0,
        trim_spec(selection) != "-1"@,
        !ends_with_spec(trim_spec(selection), "-1"@),
        runs_spec(trim_spec(selection), RunClass::NoSpaceNoComma).len() < 2,
        runs_spec(trim_spec(selection), RunClass::DigitsAndDots).len() > 0,
    ensures
        range_spec(selection, eps) == range_from_to_spec(
            runs_spec(trim_spec(selection), RunClass::DigitsAndDots)[0],
            runs_spec(trim_spec(selection), RunClass::DigitsAndDots).last(),
            eps,
        ),
{
    let sel = trim_spec(selection);
    let nums = runs_spec(sel, RunClass::DigitsAndDots);
    crate::text::lemma_runs_in_class(sel, RunClass::DigitsAndDots);
    reveal_strlit("-1");
    if nums[0] == "-1"@ {
        assert(crate::text::in_run(RunClass::DigitsAndDots, nums[0][0]));
    }
    if nums.last() == "-1"@ {
        assert(crate::text::in_run(RunClass::DigitsAndDots, nums[nums.len() - 1][0]));
    }
}

/// A selected range longer than one episode consists of listed episodes.
pub proof fn selected_ranges_are_listed(selection: Seq<char>, eps: Seq<Seq<char>>)
    requires
        range_spec(selection, eps) is Ok,
        range_spec(selection, eps)->Ok_0.len() > 1,
    ensures
        forall|i: int|
            0 <= i < range_spec(selection, eps)->Ok_0.len() ==> eps.contains(
                #[trigger] range_spec(selection, eps)->Ok_0[i],
            ),
{
    let sel = trim_spec(selection);
    let requested = runs_spec(sel, RunClass::NoSpaceNoComma);
    if requested.len() > 1 && forall|i: int|
        0 <= i < requested.len() ==> eps.contains(#[trigger] requested[i]) {
    } else {
        let numbers = runs_spec(sel, RunClass::DigitsAndDots);
        let start0 = if numbers.len() > 0 {
            numbers[0]
        } else {
            sel
        };
        let end0 = if ends_with_spec(sel, "-1"@) {
            "-1"@
        } else if numbers.len() > 0 {
            numbers.last()
        } else {
            start0
        };
        lemma_range_ends_listed(start0, end0, eps);
    }
}

/// A range between two ends longer than one episode consists of listed episodes.
proof fn lemma_range_ends_listed(start0: Seq<char>, end0: Seq<char>, eps: Seq<Seq<char>>)
    requires
        range_ends_spec(start0, end0, eps) is Ok,
        range_ends_spec(start0, end0, eps)->Ok_0.len() > 1,
    ensures
        forall|i: int|
            0 <= i < range_ends_spec(start0, end0, eps)->Ok_0.len() ==> eps.contains(
                #[trigger] range_ends_spec(start0, end0, eps)->Ok_0[i],
            ),
{
    let r = range_ends_spec(start0, end0, eps)->Ok_0;
    let start = if start0 == "-1"@ {
        eps.last()
    } else {
        start0
    };
    let end = if end0 == "-1"@ {
        eps.last()
    } else {
        end0
    };
    let a = first_pos(eps, start).unwrap();
    let b = first_pos(eps, end).unwrap();
    lemma_first_pos_none(eps, start);
    lemma_first_pos_none(eps, end);
    lemma_first_pos_found(eps, start);
    lemma_first_pos_found(eps, end);
    assert forall|i: int| 0 <= i < r.len() implies eps.contains(#[trigger] r[i]) by {
        assert(r[i] == eps[a + i]);
    }
}

} // verus!
