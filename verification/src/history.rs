//! The watch history file: one line per watched episode,
//! `episode<TAB>anime id<TAB>title`, oldest first, at most 1000 lines.

use vstd::prelude::*;
use crate::seqs::{first_pos, lemma_first_pos};
use crate::text::{
    views, split_spec, lemma_split_nonempty, chars_of, find_char, string_of_range,
    push_str, push_char, str_eq, lines, lines_spec, strip_cr,
};

verus! {

/// The most entries the history keeps.
pub const MAX_HISTORY_EPISODES: usize = 1000;

/// One watched episode.
#[derive(Debug, PartialEq, Eq)]
pub struct HistoryEntry {
    pub episode: String,
    pub anime_id: String,
    pub title: String,
}

impl Clone for HistoryEntry {
    fn clone(&self) -> (r: Self)
        ensures
            r == *self,
    {
        HistoryEntry {
            episode: self.episode.clone(),
            anime_id: self.anime_id.clone(),
            title: self.title.clone(),
        }
    }
}

/// Abstract value of a history entry.
pub struct EntryModel {
    pub episode: Seq<char>,
    pub anime_id: Seq<char>,
    pub title: Seq<char>,
}

impl HistoryEntry {
    /// The abstract value of this entry.
    pub open spec fn model(&self) -> EntryModel {
        EntryModel { episode: self.episode@, anime_id: self.anime_id@, title: self.title@ }
    }
}

/// The abstract values of a list of entries.
pub open spec fn models(s: Seq<HistoryEntry>) -> Seq<EntryModel> {
    s.map_values(|e: HistoryEntry| e.model())
}

/// Where the history is kept.
#[derive(Debug)]
pub struct HistoryStore {
    path: String,
}

/// `dir` joined with the relative name `name` (what `Path::join` gives on
/// Unix for a name without separators).
pub open spec fn join_spec(dir: Seq<char>, name: Seq<char>) -> Seq<char> {
    if dir.len() == 0 {
        name
    } else if dir.last() == '/' {
        dir + name
    } else {
        dir + seq!['/'] + name
    }
}

/// `dir` joined with the relative name `name`.
pub fn join_path(dir: &str, name: &str) -> (r: String)
    ensures
        r@ == join_spec(dir@, name@),
{
    let v = chars_of(dir);
    let mut s = String::new();
    push_str(&mut s, dir);
    if v.len() > 0 && v[v.len() - 1] != '/' {
        push_char(&mut s, '/');
    }
    push_str(&mut s, name);
    assert(Seq::<char>::empty() + dir@ =~= dir@);
    s
}

impl HistoryStore {
    /// The history file is `ani-hsts` inside `history_dir`.
    pub fn new(history_dir: &str) -> (r: Self)
        ensures
            r.path_spec() == join_spec(history_dir@, "ani-hsts"@),
    {
        HistoryStore { path: join_path(history_dir, "ani-hsts") }
    }

    /// The location of the history file.
    pub closed spec fn path_spec(&self) -> Seq<char> {
        self.path@
    }

    /// The location of the history file.
    pub fn path(&self) -> (r: &String)
        ensures
            r@ == self.path_spec(),
    {
        &self.path
    }

    /// The entries a history file holds (see `parse_spec`).
    pub fn load(contents: &str) -> (r: Vec<HistoryEntry>)
        ensures
            models(r@) == parse_spec(contents@),
    {
        parse_history(contents)
    }

    /// The entries a history file holds, keeping only the latest entry of each
    /// anime, in file order.
    pub fn load_latest(contents: &str) -> (r: Vec<HistoryEntry>)
        ensures
            models(r@) == latest_spec(parse_spec(contents@)),
    {
        let entries = parse_history(contents);
        let r = latest_entries(&entries);
        proof {
            lemma_latest_models(entries@);
        }
        r
    }

    /// The new contents of a history file after recording `entry`.
    pub fn upsert(contents: &str, entry: HistoryEntry) -> (r: String)
        ensures
            r@ == format_spec(upsert_spec(parse_spec(contents@), entry.model())),
    {
        let entries = parse_history(contents);
        let ghost m = models(entries@);
        let updated = upsert_entries(entries, entry);
        format_history(&updated)
    }
}

// ---------------------------------------------------------------------
// Reading
// ---------------------------------------------------------------------

/// The three fields of a line: the text before the first tab, the text
/// between the first two tabs, and everything after the second tab.
pub open spec fn fields_spec(l: Seq<char>) -> Option<EntryModel> {
    match first_pos(l, '\t') {
        None => None,
        Some(i) => {
            let r = l.skip(i + 1);
            match first_pos(r, '\t') {
                None => None,
                Some(j) => Some(EntryModel { episode: l.take(i), anime_id: r.take(j), title: r.skip(j + 1) }),
            }
        },
    }
}

/// The entries of the lines, skipping lines with fewer than two tabs.
pub open spec fn entries_of(ls: Seq<Seq<char>>) -> Seq<EntryModel>
    decreases ls.len(),
{
    if ls.len() == 0 {
        Seq::empty()
    } else {
        let r = entries_of(ls.drop_last());
        match fields_spec(ls.last()) {
            Some(e) => r.push(e),
            None => r,
        }
    }
}

/// The entries a history file holds.
pub open spec fn parse_spec(contents: Seq<char>) -> Seq<EntryModel> {
    entries_of(lines_spec(contents))
}

/// The entry on one line, if it has at least two tabs.
pub fn parse_line(l: &str) -> (r: Option<HistoryEntry>)
    ensures
        match r {
            Some(e) => fields_spec(l@) == Some(e.model()),
            None => fields_spec(l@) is None,
        },
{
    let v = chars_of(l);
    let i = match find_char(&v, '\t') {
        Some(i) => i,
        None => return None,
    };
    let rest_v = string_of_range(&v, i + 1, v.len());
    assert(rest_v@ =~= v@.skip(i + 1));
    let rv = chars_of(rest_v.as_str());
    let j = match find_char(&rv, '\t') {
        Some(j) => j,
        None => return None,
    };
    let episode = string_of_range(&v, 0, i);
    let anime_id = string_of_range(&rv, 0, j);
    let title = string_of_range(&rv, j + 1, rv.len());
    assert(episode@ =~= v@.take(i as int));
    assert(anime_id@ =~= rv@.take(j as int));
    assert(title@ =~= rv@.skip(j + 1));
    Some(HistoryEntry { episode, anime_id, title })
}

/// The entries a history file holds (see `parse_spec`).
pub fn parse_history(contents: &str) -> (r: Vec<HistoryEntry>)
    ensures
        models(r@) == parse_spec(contents@),
{
    let ls = lines(contents);
    let mut out: Vec<HistoryEntry> = Vec::new();
    let mut k: usize = 0;
    assert(views(ls@).take(0) =~= Seq::<Seq<char>>::empty());
    while k < ls.len()
        invariant
            k <= ls@.len(),
            models(out@) == entries_of(views(ls@).take(k as int)),
        decreases ls@.len() - k,
    {
        assert(views(ls@).take(k + 1).drop_last() =~= views(ls@).take(k as int));
        assert(views(ls@).take(k + 1).last() == ls@[k as int]@);
        match parse_line(ls[k].as_str()) {
            Some(e) => {
                out.push(e);
                assert(models(out@) =~= entries_of(views(ls@).take(k as int)).push(
                    out@.last().model(),
                ));
            },
            None => {},
        }
        k = k + 1;
    }
    assert(views(ls@).take(ls@.len() as int) =~= views(ls@));
    out
}

// ---------------------------------------------------------------------
// Writing
// ---------------------------------------------------------------------

/// The line recording one entry.
pub open spec fn line_spec(e: EntryModel) -> Seq<char> {
    e.episode + seq!['\t'] + e.anime_id + seq!['\t'] + e.title
}

/// The contents of a history file holding `es`, one line per entry, each
/// ended by a newline.
pub open spec fn format_spec(es: Seq<EntryModel>) -> Seq<char>
    decreases es.len(),
{
    if es.len() == 0 {
        Seq::empty()
    } else {
        format_spec(es.drop_last()) + line_spec(es.last()) + seq!['\n']
    }
}

/// The contents of a history file holding `entries`.
pub fn format_history(entries: &Vec<HistoryEntry>) -> (r: String)
    ensures
        r@ == format_spec(models(entries@)),
{
    let mut s = String::new();
    let mut k: usize = 0;
    assert(models(entries@).take(0) =~= Seq::<EntryModel>::empty());
    while k < entries.len()
        invariant
            k <= entries@.len(),
            s@ == format_spec(models(entries@).take(k as int)),
        decreases entries@.len() - k,
    {
        let ghost before = s@;
        let e = &entries[k];
        push_str(&mut s, e.episode.as_str());
        push_char(&mut s, '\t');
        push_str(&mut s, e.anime_id.as_str());
        push_char(&mut s, '\t');
        push_str(&mut s, e.title.as_str());
        push_char(&mut s, '\n');
        assert(models(entries@).take(k + 1).drop_last() =~= models(entries@).take(k as int));
        assert(models(entries@).take(k + 1).last() == e.model());
        assert(s@ =~= before + line_spec(e.model()) + seq!['\n']);
        k = k + 1;
    }
    assert(models(entries@).take(entries@.len() as int) =~= models(entries@));
    s
}

// ---------------------------------------------------------------------
// Updating
// ---------------------------------------------------------------------

/// The history after recording `e`: `e` is appended and only the most recent
/// `MAX_HISTORY_EPISODES` entries are kept.
pub open spec fn upsert_spec(es: Seq<EntryModel>, e: EntryModel) -> Seq<EntryModel> {
    let s = es.push(e);
    if s.len() > MAX_HISTORY_EPISODES {
        s.skip(s.len() - MAX_HISTORY_EPISODES)
    } else {
        s
    }
}

/// The entries after recording `entry` (see `upsert_spec`).
pub fn upsert_entries(entries: Vec<HistoryEntry>, entry: HistoryEntry) -> (r: Vec<HistoryEntry>)
    ensures
        models(r@) == upsert_spec(models(entries@), entry.model()),
{
    let mut all = entries;
    let ghost m = models(all@);
    all.push(entry);
    assert(models(all@) =~= m.push(entry.model()));
    if all.len() > MAX_HISTORY_EPISODES {
        let drop = all.len() - MAX_HISTORY_EPISODES;
        let mut kept: Vec<HistoryEntry> = Vec::new();
        let mut k = drop;
        while k < all.len()
            invariant
                drop <= k <= all@.len(),
                models(kept@) == models(all@).subrange(drop as int, k as int),
            decreases all@.len() - k,
        {
            let ghost before = models(kept@);
            kept.push(all[k].clone());
            assert(models(kept@) =~= before.push(all@[k as int].model()));
            assert(models(all@).subrange(drop as int, k + 1) =~= models(all@).subrange(
                drop as int,
                k as int,
            ).push(all@[k as int].model()));
            k = k + 1;
        }
        assert(models(all@).subrange(drop as int, all@.len() as int) =~= models(all@).skip(
            drop as int,
        ));
        kept
    } else {
        all
    }
}

/// The history never holds more than `MAX_HISTORY_EPISODES` entries after an
/// update, and the recorded entry is the newest one.
pub proof fn upsert_caps_history(es: Seq<EntryModel>, e: EntryModel)
    ensures
        upsert_spec(es, e).len() <= MAX_HISTORY_EPISODES,
        upsert_spec(es, e).len() == if es.len() + 1 > MAX_HISTORY_EPISODES {
            MAX_HISTORY_EPISODES as int
        } else {
            es.len() + 1int
        },
        upsert_spec(es, e).last() == e,
{
}

// ---------------------------------------------------------------------
// Latest entry per anime
// ---------------------------------------------------------------------

/// Entry `i` is the last one for its anime.
pub open spec fn is_latest(es: Seq<EntryModel>, i: int) -> bool {
    forall|j: int| i < j < es.len() ==> es[j].anime_id != es[i].anime_id
}

/// The entries among the first `n` that are the last ones for their anime.
pub open spec fn latest_upto(es: Seq<EntryModel>, n: int) -> Seq<EntryModel>
    decreases n,
{
    if n <= 0 {
        Seq::empty()
    } else if is_latest(es, n - 1) {
        latest_upto(es, n - 1).push(es[n - 1])
    } else {
        latest_upto(es, n - 1)
    }
}

/// The last entry of each anime, in history order.
pub open spec fn latest_spec(es: Seq<EntryModel>) -> Seq<EntryModel> {
    latest_upto(es, es.len() as int)
}

/// The same indexing over concrete entries.
pub open spec fn latest_upto_exec(es: Seq<HistoryEntry>, n: int) -> Seq<HistoryEntry>
    decreases n,
{
    if n <= 0 {
        Seq::empty()
    } else if is_latest(models(es), n - 1) {
        latest_upto_exec(es, n - 1).push(es[n - 1])
    } else {
        latest_upto_exec(es, n - 1)
    }
}

proof fn lemma_latest_upto_models(es: Seq<HistoryEntry>, n: int)
    requires
        0 <= n <= es.len(),
    ensures
        models(latest_upto_exec(es, n)) == latest_upto(models(es), n),
    decreases n,
{
    if n > 0 {
        lemma_latest_upto_models(es, n - 1);
        assert(models(latest_upto_exec(es, n - 1).push(es[n - 1])) =~= models(
            latest_upto_exec(es, n - 1),
        ).push(es[n - 1].model()));
    } else {
        assert(models(Seq::<HistoryEntry>::empty()) =~= Seq::<EntryModel>::empty());
    }
}

/// The latest entries of concrete entries have the models of the latest models.
pub proof fn lemma_latest_models(es: Seq<HistoryEntry>)
    ensures
        models(latest_upto_exec(es, es.len() as int)) == latest_spec(models(es)),
{
    lemma_latest_upto_models(es, es.len() as int);
}

/// The entries that are the last ones for their anime, in order.
pub fn latest_entries(entries: &Vec<HistoryEntry>) -> (r: Vec<HistoryEntry>)
    ensures
        r@ == latest_upto_exec(entries@, entries@.len() as int),
        models(r@) == latest_spec(models(entries@)),
{
    let mut out: Vec<HistoryEntry> = Vec::new();
    let mut i: usize = 0;
    let ghost m = models(entries@);
    while i < entries.len()
        invariant
            i <= entries@.len(),
            m == models(entries@),
            out@ == latest_upto_exec(entries@, i as int),
        decreases entries@.len() - i,
    {
        let mut j = i + 1;
        let mut later = false;
        while j < entries.len()
            invariant
                i < j <= entries@.len(),
                m == models(entries@),
                !later ==> forall|k: int| i < k < j ==> m[k].anime_id != m[i as int].anime_id,
                later ==> !is_latest(m, i as int),
            decreases entries@.len() - j,
        {
            if str_eq(entries[j].anime_id.as_str(), entries[i].anime_id.as_str()) {
                assert(m[j as int].anime_id == entries@[j as int].anime_id@);
                assert(m[i as int].anime_id == entries@[i as int].anime_id@);
                later = true;
            }
            j = j + 1;
        }
        if !later {
            out.push(entries[i].clone());
        }
        i = i + 1;
    }
    proof {
        lemma_latest_models(entries@);
    }
    out
}

/// The latest entries never repeat an anime.
pub proof fn latest_has_one_entry_per_anime(es: Seq<EntryModel>)
    ensures
        forall|a: int, b: int|
            0 <= a < b < latest_spec(es).len() ==> latest_spec(es)[a].anime_id != latest_spec(
                es,
            )[b].anime_id,
{
    lemma_latest_upto_distinct(es, es.len() as int);
}

/// Every kept entry among the first `n` is the last one of its anime.
proof fn lemma_latest_upto_origin(es: Seq<EntryModel>, n: int, a: int) -> (i: int)
    requires
        0 <= n <= es.len(),
        0 <= a < latest_upto(es, n).len(),
    ensures
        0 <= i < n,
        is_latest(es, i),
        latest_upto(es, n)[a] == es[i],
    decreases n,
{
    let r = latest_upto(es, n);
    if is_latest(es, n - 1) && a == r.len() - 1 {
        n - 1
    } else {
        assert(r[a] == latest_upto(es, n - 1)[a]);
        lemma_latest_upto_origin(es, n - 1, a)
    }
}

proof fn lemma_latest_upto_distinct(es: Seq<EntryModel>, n: int)
    requires
        0 <= n <= es.len(),
    ensures
        forall|a: int, b: int|
            0 <= a < b < latest_upto(es, n).len() ==> latest_upto(es, n)[a].anime_id
                != latest_upto(es, n)[b].anime_id,
    decreases n,
{
    if n > 0 {
        lemma_latest_upto_distinct(es, n - 1);
        let r = latest_upto(es, n);
        let q = latest_upto(es, n - 1);
        if is_latest(es, n - 1) {
            assert forall|a: int, b: int| 0 <= a < b < r.len() implies r[a].anime_id
                != r[b].anime_id by {
                if b == r.len() - 1 {
                    assert(r[a] == q[a]);
                    let i = lemma_latest_upto_origin(es, n - 1, a);
                    assert(es[n - 1].anime_id != es[i].anime_id);
                } else {
                    assert(r[a] == q[a]);
                    assert(r[b] == q[b]);
                }
            }
        }
    }
}

/// Every anime in the history keeps an entry among the latest ones.
pub proof fn latest_keeps_every_anime(es: Seq<EntryModel>, i: int)
    requires
        0 <= i < es.len(),
    ensures
        exists|a: int|
            0 <= a < latest_spec(es).len() && #[trigger] latest_spec(es)[a].anime_id
                == es[i].anime_id,
    decreases es.len() - i,
{
    if is_latest(es, i) {
        lemma_latest_upto_contains(es, es.len() as int, i);
    } else {
        let j = choose|j: int| i < j < es.len() && es[j].anime_id == es[i].anime_id;
        latest_keeps_every_anime(es, j);
    }
}

proof fn lemma_latest_upto_contains(es: Seq<EntryModel>, n: int, i: int)
    requires
        0 <= i < n <= es.len(),
        is_latest(es, i),
    ensures
        exists|a: int|
            0 <= a < latest_upto(es, n).len() && #[trigger] latest_upto(es, n)[a].anime_id
                == es[i].anime_id,
    decreases n,
{
    if i == n - 1 {
        let a = latest_upto(es, n).len() - 1;
        assert(latest_upto(es, n)[a] == es[i]);
    } else {
        lemma_latest_upto_contains(es, n - 1, i);
        let a = choose|a: int|
            0 <= a < latest_upto(es, n - 1).len() && #[trigger] latest_upto(es, n - 1)[a].anime_id
                == es[i].anime_id;
        assert(latest_upto(es, n)[a] == latest_upto(es, n - 1)[a]);
    }
}


// ---------------------------------------------------------------------
// Reading back what was written
// ---------------------------------------------------------------------

/// An entry that a history line can hold unchanged: no tab in its first two
/// fields, no newline anywhere, and a title that does not end in `\r`.
pub open spec fn storable(e: EntryModel) -> bool {
    &&& forall|i: int| 0 <= i < e.episode.len() ==> e.episode[i] != '\t' && e.episode[i] != '\n'
    &&& forall|i: int| 0 <= i < e.anime_id.len() ==> e.anime_id[i] != '\t' && e.anime_id[i] != '\n'
    &&& forall|i: int| 0 <= i < e.title.len() ==> e.title[i] != '\n'
    &&& !(e.title.len() > 0 && e.title.last() == '\r')
}

/// Splitting after appending a text without separators extends the last piece.
proof fn lemma_split_append(x: Seq<char>, y: Seq<char>, c: char)
    requires
        forall|i: int| 0 <= i < y.len() ==> y[i] != c,
    ensures
        split_spec(x + y, c) == split_spec(x, c).update(
            split_spec(x, c).len() - 1,
            split_spec(x, c).last() + y,
        ),
    decreases y.len(),
{
    lemma_split_nonempty(x, c);
    if y.len() == 0 {
        assert(x + y =~= x);
        assert(split_spec(x, c).last() + y =~= split_spec(x, c).last());
        assert(split_spec(x, c).update(split_spec(x, c).len() - 1, split_spec(x, c).last())
            =~= split_spec(x, c));
    } else {
        let y0 = y.drop_last();
        let px = split_spec(x, c);
        let n = px.len() - 1;
        lemma_split_append(x, y0, c);
        let r = split_spec(x + y0, c);
        assert(r == px.update(n, px.last() + y0));
        assert((x + y).drop_last() =~= x + y0);
        assert((x + y).last() == y.last());
        assert(y[y.len() - 1] != c);
        assert(r.len() == px.len());
        assert(r.last() == px.last() + y0);
        assert(split_spec(x + y, c) == r.update(n, r.last().push(y.last())));
        assert((px.last() + y0).push(y.last()) =~= px.last() + y);
        assert(r.update(n, r.last().push(y.last())) =~= px.update(n, px.last() + y));
    }
}

/// A formatted history is empty or ends with a newline, so its last piece is empty.
proof fn lemma_format_split_last(es: Seq<EntryModel>)
    ensures
        split_spec(format_spec(es), '\n').len() >= 1,
        split_spec(format_spec(es), '\n').last() == Seq::<char>::empty(),
{
    lemma_split_nonempty(format_spec(es), '\n');
    if es.len() > 0 {
        let f = format_spec(es);
        assert(f.len() > 0 && f.last() == '\n');
    }
}

/// The fields of a written line are the entry written.
proof fn lemma_fields_of_line(e: EntryModel)
    requires
        storable(e),
    ensures
        fields_spec(line_spec(e)) == Some(e),
{
    let l = line_spec(e);
    let i = e.episode.len() as int;
    assert(l[i] == '\t');
    assert forall|j: int| 0 <= j < i implies l[j] != '\t' by {
        assert(l[j] == e.episode[j]);
    }
    lemma_first_pos(l, '\t', i);
    let r = l.skip(i + 1);
    assert(r =~= e.anime_id + seq!['\t'] + e.title);
    let k = e.anime_id.len() as int;
    assert(r[k] == '\t');
    assert forall|j: int| 0 <= j < k implies r[j] != '\t' by {
        assert(r[j] == e.anime_id[j]);
    }
    lemma_first_pos(r, '\t', k);
    assert(l.take(i) =~= e.episode);
    assert(r.take(k) =~= e.anime_id);
    assert(r.skip(k + 1) =~= e.title);
}

/// The lines of a formatted history are the written lines.
proof fn lemma_lines_of_format(es: Seq<EntryModel>)
    requires
        forall|k: int| 0 <= k < es.len() ==> storable(#[trigger] es[k]),
    ensures
        lines_spec(format_spec(es)) == es.map_values(|e: EntryModel| line_spec(e)),
    decreases es.len(),
{
    if es.len() == 0 {
        assert(format_spec(es) =~= Seq::<char>::empty());
        assert(lines_spec(Seq::<char>::empty()) =~= Seq::<Seq<char>>::empty());
        assert(es.map_values(|e: EntryModel| line_spec(e)) =~= Seq::<Seq<char>>::empty());
    } else {
        let d = es.drop_last();
        let e = es.last();
        assert forall|k: int| 0 <= k < d.len() implies storable(#[trigger] d[k]) by {
            assert(d[k] == es[k]);
        }
        assert(storable(e)) by {
            assert(es[es.len() - 1] == e);
        }
        lemma_lines_of_format(d);
        lemma_format_split_last(d);
        let x = format_spec(d);
        let l = line_spec(e);
        assert forall|i: int| 0 <= i < l.len() implies l[i] != '\n' by {
            if i < e.episode.len() {
            } else if i == e.episode.len() {
            } else if i < e.episode.len() + 1 + e.anime_id.len() {
                assert(l[i] == e.anime_id[i - e.episode.len() - 1]);
            } else if i == e.episode.len() + 1 + e.anime_id.len() {
            } else {
                assert(l[i] == e.title[i - e.episode.len() - 2 - e.anime_id.len()]);
            }
        }
        lemma_split_append(x, l, '\n');
        let px = split_spec(x, '\n');
        let pxl = split_spec(x + l, '\n');
        assert(px.last() + l =~= l);
        assert(format_spec(es) =~= (x + l) + seq!['\n']);
        assert((x + l + seq!['\n']).drop_last() =~= x + l);
        let p = split_spec(format_spec(es), '\n');
        assert(p =~= pxl.push(Seq::<char>::empty()));
        assert(strip_cr(l) == l) by {
            if l.len() > 0 && l.last() == '\r' {
                if e.title.len() > 0 {
                    assert(l.last() == e.title.last());
                } else {
                    assert(l.last() == '\t');
                }
            }
        }
        assert(p.take(p.len() - 1) =~= px.take(px.len() - 1).push(l));
        assert(lines_spec(format_spec(es)) =~= lines_spec(x).push(l));
        assert(es.map_values(|e: EntryModel| line_spec(e)) =~= d.map_values(
            |e: EntryModel| line_spec(e),
        ).push(l));
    }
}

/// The entries of written lines are the written entries.
proof fn lemma_entries_of_lines(es: Seq<EntryModel>)
    requires
        forall|k: int| 0 <= k < es.len() ==> storable(#[trigger] es[k]),
    ensures
        entries_of(es.map_values(|e: EntryModel| line_spec(e))) == es,
    decreases es.len(),
{
    if es.len() > 0 {
        let d = es.drop_last();
        assert forall|k: int| 0 <= k < d.len() implies storable(#[trigger] d[k]) by {
            assert(d[k] == es[k]);
        }
        lemma_entries_of_lines(d);
        assert(storable(es.last())) by {
            assert(es[es.len() - 1] == es.last());
        }
        lemma_fields_of_line(es.last());
        let ls = es.map_values(|e: EntryModel| line_spec(e));
        assert(ls.drop_last() =~= d.map_values(|e: EntryModel| line_spec(e)));
        assert(es =~= d.push(es.last()));
    } else {
        assert(es.map_values(|e: EntryModel| line_spec(e)) =~= Seq::<Seq<char>>::empty());
    }
}

/// Reading a written history gives back the entries written, when each can
/// be stored on one line.
pub proof fn read_after_write(es: Seq<EntryModel>)
    requires
        forall|k: int| 0 <= k < es.len() ==> storable(#[trigger] es[k]),
    ensures
        parse_spec(format_spec(es)) == es,
{
    lemma_lines_of_format(es);
    lemma_entries_of_lines(es);
}

/// Recording an entry in a history file and reading it back gives the
/// previous entries followed by the new one, capped to the most recent
/// `MAX_HISTORY_EPISODES`.
pub proof fn record_then_read(contents: Seq<char>, e: EntryModel)
    requires
        forall|k: int|
            0 <= k < parse_spec(contents).len() ==> storable(#[trigger] parse_spec(contents)[k]),
        storable(e),
    ensures
        parse_spec(format_spec(upsert_spec(parse_spec(contents), e))) == upsert_spec(
            parse_spec(contents),
            e,
        ),
{
    let es = parse_spec(contents);
    let u = upsert_spec(es, e);
    assert forall|k: int| 0 <= k < u.len() implies storable(#[trigger] u[k]) by {
        let s = es.push(e);
        if s.len() > MAX_HISTORY_EPISODES {
            assert(u[k] == s[k + s.len() - MAX_HISTORY_EPISODES]);
        }
        if k + (s.len() - u.len()) < es.len() {
            assert(u[k] == es[k + (s.len() - u.len())]);
        } else {
            assert(u[k] == e);
        }
    }
    read_after_write(u);
}

} // verus!
