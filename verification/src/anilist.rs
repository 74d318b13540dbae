//! AniList: the saved login, list statuses, titles, the user's anime list
//! as it is shown, GraphQL error reports, the login URL and reading an
//! access token from what the user pastes.

use vstd::prelude::*;
use crate::media::clone_opt;
use crate::text::{
    dec_spec, push_dec, push_str, str_eq, trim, trim_spec, views, lex_lt, lex_less,
    lemma_lex_strict_total, lemma_lex_transitive, join_spec, join, split_spec, split_char,
    find_char, chars_of, string_of_range,
};
use crate::web::{percent_encode_spec, url_encode, url_decode, url_decoded};
use crate::seqs::first_occurrences;
use vstd::string::StringSliceAdditionalSpecFns;

verus! {

// ---------------------------------------------------------------------
// List statuses
// ---------------------------------------------------------------------

/// Where an anime stands on the user's list.
#[derive(Debug, Clone, Copy, PartialEq, Eq, Structural)]
pub enum AniListMediaListStatus {
    Current,
    Planning,
    Completed,
    Dropped,
    Paused,
    Repeating,
}

impl AniListMediaListStatus {
    /// The name AniList's API uses.
    pub open spec fn api_name(self) -> Seq<char> {
        match self {
            AniListMediaListStatus::Current => "CURRENT"@,
            AniListMediaListStatus::Planning => "PLANNING"@,
            AniListMediaListStatus::Completed => "COMPLETED"@,
            AniListMediaListStatus::Dropped => "DROPPED"@,
            AniListMediaListStatus::Paused => "PAUSED"@,
            AniListMediaListStatus::Repeating => "REPEATING"@,
        }
    }

    /// The name AniList's API uses (see `api_name`).
    pub fn as_str(self) -> (r: &'static str)
        ensures
            r@ == self.api_name(),
    {
        match self {
            AniListMediaListStatus::Current => "CURRENT",
            AniListMediaListStatus::Planning => "PLANNING",
            AniListMediaListStatus::Completed => "COMPLETED",
            AniListMediaListStatus::Dropped => "DROPPED",
            AniListMediaListStatus::Paused => "PAUSED",
            AniListMediaListStatus::Repeating => "REPEATING",
        }
    }

    /// The word shown for a status.
    pub open spec fn label_spec(self) -> Seq<char> {
        match self {
            AniListMediaListStatus::Current => "watching"@,
            AniListMediaListStatus::Planning => "planning"@,
            AniListMediaListStatus::Completed => "completed"@,
            AniListMediaListStatus::Dropped => "dropped"@,
            AniListMediaListStatus::Paused => "paused"@,
            AniListMediaListStatus::Repeating => "rewatching"@,
        }
    }

    /// The word shown for a status (what displaying it shows).
    pub fn label(self) -> (r: &'static str)
        ensures
            r@ == self.label_spec(),
    {
        match self {
            AniListMediaListStatus::Current => "watching",
            AniListMediaListStatus::Planning => "planning",
            AniListMediaListStatus::Completed => "completed",
            AniListMediaListStatus::Dropped => "dropped",
            AniListMediaListStatus::Paused => "paused",
            AniListMediaListStatus::Repeating => "rewatching",
        }
    }
}

/// The order in which statuses are listed: watching, rewatching, planning,
/// paused, dropped, completed.
pub open spec fn status_rank(status: AniListMediaListStatus) -> usize {
    match status {
        AniListMediaListStatus::Current => 0,
        AniListMediaListStatus::Repeating => 1,
        AniListMediaListStatus::Planning => 2,
        AniListMediaListStatus::Paused => 3,
        AniListMediaListStatus::Dropped => 4,
        AniListMediaListStatus::Completed => 5,
    }
}

/// The place of a status in the listing order (see `status_rank`).
pub fn status_order(status: AniListMediaListStatus) -> (r: usize)
    ensures
        r == status_rank(status),
{
    match status {
        AniListMediaListStatus::Current => 0,
        AniListMediaListStatus::Repeating => 1,
        AniListMediaListStatus::Planning => 2,
        AniListMediaListStatus::Paused => 3,
        AniListMediaListStatus::Dropped => 4,
        AniListMediaListStatus::Completed => 5,
    }
}

// ---------------------------------------------------------------------
// The saved login
// ---------------------------------------------------------------------

/// The AniList client id and access token, when known.
#[derive(Debug, PartialEq, Eq)]
pub struct AniListAuth {
    pub client_id: Option<String>,
    pub access_token: Option<String>,
}

impl Clone for AniListAuth {
    fn clone(&self) -> (r: Self)
        ensures
            r == *self,
    {
        AniListAuth { client_id: clone_opt(&self.client_id), access_token: clone_opt(&self.access_token) }
    }
}

impl Default for AniListAuth {
    fn default() -> (r: Self)
        ensures
            r.client_id is None,
            r.access_token is None,
    {
        AniListAuth { client_id: None, access_token: None }
    }
}

/// The login as the auth file holds it.
#[derive(Debug, PartialEq, Eq)]
pub struct AniListAuthFile {
    pub client_id: Option<String>,
    pub access_token: Option<String>,
}

/// A saved value: trimmed, and none when nothing is left.
pub open spec fn cleaned(value: Option<Seq<char>>) -> Option<Seq<char>> {
    match value {
        Some(v) => if trim_spec(v).len() > 0 {
            Some(trim_spec(v))
        } else {
            None
        },
        None => None,
    }
}

/// The text of an optional string.
pub open spec fn opt_str(o: Option<String>) -> Option<Seq<char>> {
    match o {
        Some(s) => Some(s@),
        None => None,
    }
}

/// A saved value trimmed, none when nothing is left (see `cleaned`).
pub fn clean_optional(value: Option<String>) -> (r: Option<String>)
    ensures
        opt_str(r) == cleaned(opt_str(value)),
{
    match value {
        Some(v) => {
            let t = trim(v.as_str());
            if t.as_str().is_empty() {
                None
            } else {
                Some(t)
            }
        },
        None => None,
    }
}

impl AniListAuth {
    /// The login read from the auth file: each value trimmed, empty ones
    /// dropped.
    pub fn from_file(file: AniListAuthFile) -> (r: Self)
        ensures
            opt_str(r.client_id) == cleaned(opt_str(file.client_id)),
            opt_str(r.access_token) == cleaned(opt_str(file.access_token)),
    {
        AniListAuth {
            client_id: clean_optional(file.client_id),
            access_token: clean_optional(file.access_token),
        }
    }

    /// The auth file that saves this login.
    pub fn to_file(&self) -> (r: AniListAuthFile)
        ensures
            r.client_id == self.client_id,
            r.access_token == self.access_token,
    {
        AniListAuthFile {
            client_id: clone_opt(&self.client_id),
            access_token: clone_opt(&self.access_token),
        }
    }
}

/// Saving a login and reading it back gives it again, when its values are
/// already trimmed and not empty.
pub proof fn saved_login_reads_back(client_id: Option<Seq<char>>, access_token: Option<Seq<char>>)
    requires
        client_id matches Some(c) ==> c.len() > 0 && trim_spec(c) == c,
        access_token matches Some(a) ==> a.len() > 0 && trim_spec(a) == a,
    ensures
        cleaned(client_id) == client_id,
        cleaned(access_token) == access_token,
{
}

/// Where the AniList login is saved.
#[derive(Debug)]
pub struct AniListAuthStore {
    path: String,
}

impl AniListAuthStore {
    /// The path of the auth file.
    pub closed spec fn path_spec(&self) -> Seq<char> {
        self.path@
    }

    /// A store saving to `path`.
    pub fn new(path: String) -> (r: Self)
        ensures
            r.path_spec() == path@,
    {
        AniListAuthStore { path }
    }

    /// The path of the auth file.
    pub fn path(&self) -> (r: &str)
        ensures
            r@ == self.path_spec(),
    {
        self.path.as_str()
    }
}

impl Clone for AniListAuthStore {
    fn clone(&self) -> (r: Self)
        ensures
            r.path_spec() == self.path_spec(),
    {
        AniListAuthStore { path: self.path.clone() }
    }
}

// ---------------------------------------------------------------------
// Users, media and list entries
// ---------------------------------------------------------------------

/// The logged-in user.
#[derive(Debug, PartialEq, Eq)]
pub struct AniListViewer {
    pub id: u32,
    pub name: String,
}

/// An anime's entry on the user's list.
#[derive(Debug, Clone, Copy, PartialEq, Eq, Structural)]
pub struct AniListMediaListEntry {
    pub id: u32,
    pub media_id: u32,
    pub status: AniListMediaListStatus,
    pub progress: u32,
}

/// An anime as AniList knows it.
#[derive(Debug, PartialEq, Eq)]
pub struct AniListMedia {
    pub id: u32,
    pub mal_id: Option<u32>,
    pub title: String,
    pub titles: Vec<String>,
    pub episodes: Option<u32>,
    pub list_entry: Option<AniListMediaListEntry>,
}

/// An anime of the user's list, as it is shown.
#[derive(Debug, PartialEq, Eq)]
pub struct AniListListEntry {
    pub list_entry_id: u32,
    pub media_id: u32,
    pub mal_id: Option<u32>,
    pub title: String,
    pub titles: Vec<String>,
    pub status: AniListMediaListStatus,
    pub progress: u32,
    pub episodes: Option<u32>,
    pub list_name: String,
}

/// What progress on an anime is saved against.
#[derive(Debug, PartialEq, Eq)]
pub struct AniListProgressRef {
    pub media_id: u32,
    pub progress: u32,
    pub title: String,
    pub status: AniListMediaListStatus,
}

impl AniListListEntry {
    /// The line shown for an entry: title, status and progress, out of the
    /// episode count when it is known.
    pub open spec fn display_title_spec(&self) -> Seq<char> {
        let head = self.title@ + " - "@ + self.status.label_spec() + " - episode "@ + dec_spec(
            self.progress as nat,
        );
        match self.episodes {
            Some(n) => head + "/"@ + dec_spec(n as nat),
            None => head,
        }
    }

    /// The line shown for an entry (see `display_title_spec`).
    pub fn display_title(&self) -> (r: String)
        ensures
            r@ == self.display_title_spec(),
    {
        let mut s = self.title.clone();
        push_str(&mut s, " - ");
        push_str(&mut s, self.status.label());
        push_str(&mut s, " - episode ");
        push_dec(&mut s, self.progress as u64);
        match self.episodes {
            Some(n) => {
                push_str(&mut s, "/");
                push_dec(&mut s, n as u64);
            },
            None => {},
        }
        s
    }

    /// What progress on this entry is saved against.
    pub fn progress_ref(&self) -> (r: AniListProgressRef)
        ensures
            r.media_id == self.media_id,
            r.progress == self.progress,
            r.title == self.title,
            r.status == self.status,
    {
        AniListProgressRef {
            media_id: self.media_id,
            progress: self.progress,
            title: self.title.clone(),
            status: self.status,
        }
    }
}

// ---------------------------------------------------------------------
// Titles
// ---------------------------------------------------------------------

/// The titles AniList gives an anime.
#[derive(Debug, PartialEq, Eq)]
pub struct AniListTitle {
    pub user_preferred: Option<String>,
    pub romaji: Option<String>,
    pub english: Option<String>,
    pub native: Option<String>,
}

/// `titles` with a candidate added: trimmed, when not empty and not there.
pub open spec fn add_title(titles: Seq<Seq<char>>, candidate: Option<Seq<char>>) -> Seq<Seq<char>> {
    match candidate {
        Some(c) => {
            let t = trim_spec(c);
            if t.len() > 0 && !titles.contains(t) {
                titles.push(t)
            } else {
                titles
            }
        },
        None => titles,
    }
}

fn add_title_exec(titles: &mut Vec<String>, candidate: &Option<String>)
    ensures
        views(final(titles)@) == add_title(views(old(titles)@), opt_str(*candidate)),
{
    match candidate {
        Some(c) => {
            let t = trim(c.as_str());
            if t.as_str().is_empty() {
                return;
            }
            let mut i: usize = 0;
            while i < titles.len()
                invariant
                    i <= titles@.len(),
                    titles@ == old(titles)@,
                    opt_str(*candidate) == Some(c@),
                    t@ == trim_spec(c@),
                    t@.len() > 0,
                    forall|k: int| 0 <= k < i ==> views(titles@)[k] != t@,
                decreases titles@.len() - i,
            {
                if str_eq(titles[i].as_str(), t.as_str()) {
                    assert(views(titles@)[i as int] == t@);
                    assert(views(titles@).contains(t@));
                    return;
                }
                i = i + 1;
            }
            let ghost before = views(titles@);
            titles.push(t);
            assert(views(titles@) =~= before.push(trim_spec(c@)));
        },
        None => {},
    }
}

impl AniListTitle {
    /// The title an anime is shown by: the preferred one, else the English,
    /// the romaji or the native one, else `Untitled`.
    pub open spec fn display_title_spec(&self) -> Seq<char> {
        match (self.user_preferred, self.english, self.romaji, self.native) {
            (Some(t), _, _, _) => t@,
            (None, Some(t), _, _) => t@,
            (None, None, Some(t), _) => t@,
            (None, None, None, Some(t)) => t@,
            (None, None, None, None) => "Untitled"@,
        }
    }

    /// The title an anime is shown by (see `display_title_spec`).
    pub fn display_title(&self) -> (r: String)
        ensures
            r@ == self.display_title_spec(),
    {
        match &self.user_preferred {
            Some(t) => t.clone(),
            None => match &self.english {
                Some(t) => t.clone(),
                None => match &self.romaji {
                    Some(t) => t.clone(),
                    None => match &self.native {
                        Some(t) => t.clone(),
                        None => String::from_str("Untitled"),
                    },
                },
            },
        }
    }

    /// Every title of an anime, trimmed, without empty ones or repeats:
    /// preferred, English, romaji, native.
    pub open spec fn titles_spec(&self) -> Seq<Seq<char>> {
        add_title(
            add_title(
                add_title(add_title(Seq::empty(), opt_str(self.user_preferred)), opt_str(self.english)),
                opt_str(self.romaji),
            ),
            opt_str(self.native),
        )
    }

    /// Every title of an anime (see `titles_spec`).
    pub fn titles(&self) -> (r: Vec<String>)
        ensures
            views(r@) == self.titles_spec(),
    {
        let mut r: Vec<String> = Vec::new();
        assert(views(r@) =~= Seq::<Seq<char>>::empty());
        add_title_exec(&mut r, &self.user_preferred);
        add_title_exec(&mut r, &self.english);
        add_title_exec(&mut r, &self.romaji);
        add_title_exec(&mut r, &self.native);
        r
    }
}

/// No title is listed twice.
pub proof fn titles_are_distinct(t: AniListTitle)
    ensures
        forall|i: int, j: int|
            0 <= i < j < t.titles_spec().len() ==> t.titles_spec()[i] != t.titles_spec()[j],
{
    lemma_add_title_distinct(Seq::empty(), opt_str(t.user_preferred));
    let a = add_title(Seq::empty(), opt_str(t.user_preferred));
    lemma_add_title_distinct(a, opt_str(t.english));
    let b = add_title(a, opt_str(t.english));
    lemma_add_title_distinct(b, opt_str(t.romaji));
    let c = add_title(b, opt_str(t.romaji));
    lemma_add_title_distinct(c, opt_str(t.native));
}

proof fn lemma_add_title_distinct(titles: Seq<Seq<char>>, candidate: Option<Seq<char>>)
    requires
        forall|i: int, j: int| 0 <= i < j < titles.len() ==> titles[i] != titles[j],
    ensures
        forall|i: int, j: int|
            0 <= i < j < add_title(titles, candidate).len() ==> add_title(titles, candidate)[i]
                != add_title(titles, candidate)[j],
{
    let r = add_title(titles, candidate);
    assert forall|i: int, j: int| 0 <= i < j < r.len() implies r[i] != r[j] by {
        if j == titles.len() {
            assert(r[i] == titles[i]);
            assert(titles.contains(titles[i]));
        }
    }
}

// ---------------------------------------------------------------------
// Media records
// ---------------------------------------------------------------------

/// An anime as the API describes it.
#[derive(Debug, PartialEq, Eq)]
pub struct AniListMediaRecord {
    pub id: u32,
    pub mal_id: Option<u32>,
    pub episodes: Option<u32>,
    pub title: AniListTitle,
    pub list_entry: Option<AniListMediaListEntry>,
}

/// The anime a record describes: shown by its display title, with all its
/// titles.
pub fn media_from_record(record: AniListMediaRecord) -> (r: AniListMedia)
    ensures
        r.id == record.id,
        r.mal_id == record.mal_id,
        r.title@ == record.title.display_title_spec(),
        views(r.titles@) == record.title.titles_spec(),
        r.episodes == record.episodes,
        r.list_entry == record.list_entry,
{
    let title = record.title.display_title();
    let titles = record.title.titles();
    AniListMedia {
        id: record.id,
        mal_id: record.mal_id,
        title,
        titles,
        episodes: record.episodes,
        list_entry: record.list_entry,
    }
}

// ---------------------------------------------------------------------
// GraphQL errors
// ---------------------------------------------------------------------

/// An error the GraphQL API reports, with the HTTP status it gives.
#[derive(Debug, PartialEq, Eq)]
pub struct GraphqlError {
    pub message: String,
    pub status: Option<u16>,
}

/// An error as it is reported: the message, and the status in brackets
/// when there is one.
pub open spec fn error_text(e: GraphqlError) -> Seq<char> {
    match e.status {
        Some(s) => e.message@ + " ("@ + dec_spec(s as nat) + ")"@,
        None => e.message@,
    }
}

/// The report of GraphQL errors: each error's text, joined by `; `.
pub open spec fn errors_report_spec(errors: Seq<GraphqlError>) -> Seq<char> {
    "AniList GraphQL error: "@ + join_spec(errors.map_values(|e: GraphqlError| error_text(e)), "; "@)
}

/// The report of GraphQL errors (see `errors_report_spec`).
pub fn graphql_errors_report(errors: &Vec<GraphqlError>) -> (r: String)
    ensures
        r@ == errors_report_spec(errors@),
{
    let mut texts: Vec<String> = Vec::new();
    let mut i: usize = 0;
    while i < errors.len()
        invariant
            i <= errors@.len(),
            views(texts@) == errors@.take(i as int).map_values(|e: GraphqlError| error_text(e)),
        decreases errors@.len() - i,
    {
        let e = &errors[i];
        let mut t = e.message.clone();
        match e.status {
            Some(s) => {
                push_str(&mut t, " (");
                push_dec(&mut t, s as u64);
                push_str(&mut t, ")");
            },
            None => {},
        }
        let ghost before = views(texts@);
        texts.push(t);
        proof {
            assert(views(texts@) =~= before.push(error_text(errors@[i as int])));
            assert(errors@.take(i + 1).map_values(|e: GraphqlError| error_text(e)) =~= errors@.take(
                i as int,
            ).map_values(|e: GraphqlError| error_text(e)).push(error_text(errors@[i as int])));
        }
        i = i + 1;
    }
    assert(errors@.take(errors@.len() as int) =~= errors@);
    let joined = join(&texts, "; ");
    let mut r = String::from_str("AniList GraphQL error: ");
    push_str(&mut r, joined.as_str());
    r
}

// ---------------------------------------------------------------------
// Logging in
// ---------------------------------------------------------------------

/// The page where the user grants access.
pub const AUTHORIZE_ENDPOINT: &'static str = "https://anilist.co/api/v2/oauth/authorize";

/// The login URL for a client id: the id, trimmed and percent-encoded,
/// asking for a token.
pub open spec fn authorization_url_spec(client_id: Seq<char>) -> Seq<char> {
    AUTHORIZE_ENDPOINT@ + "?client_id="@ + percent_encode_spec(
        vstd::utf8::encode_utf8(trim_spec(client_id)),
    ) + "&response_type=token"@
}

/// The login URL for a client id (see `authorization_url_spec`).
pub fn authorization_url(client_id: &str) -> (r: String)
    ensures
        r@ == authorization_url_spec(client_id@),
{
    let t = trim(client_id);
    let encoded = url_encode(t.as_str());
    let mut r = String::from_str(AUTHORIZE_ENDPOINT);
    push_str(&mut r, "?client_id=");
    push_str(&mut r, encoded.as_str());
    push_str(&mut r, "&response_type=token");
    r
}

// ---------------------------------------------------------------------
// Reading a pasted access token
// ---------------------------------------------------------------------

/// The text after the first `c`, when `c` occurs.
pub open spec fn after_first_char(s: Seq<char>, c: char) -> Option<Seq<char>> {
    match crate::seqs::first_pos(s, c) {
        Some(i) => Some(s.skip(i + 1)),
        None => None,
    }
}

/// Where a token is looked for, in order: the fragment after `#`, the
/// query after `?`, and the whole text.
pub open spec fn token_sections(t: Seq<char>) -> Seq<Seq<char>> {
    let fragment = match after_first_char(t, '#') {
        Some(f) => seq![f],
        None => Seq::empty(),
    };
    let query = match after_first_char(t, '?') {
        Some(q) => seq![q],
        None => Seq::empty(),
    };
    fragment + query + seq![t]
}

/// The key of a `key=value` pair: what comes before the first `=`.
pub open spec fn pair_key(p: Seq<char>) -> Seq<char> {
    match crate::seqs::first_pos(p, '=') {
        Some(i) => p.take(i),
        None => p,
    }
}

/// The value of a `key=value` pair: what comes after the first `=`, empty
/// without one.
pub open spec fn pair_value(p: Seq<char>) -> Seq<char> {
    match crate::seqs::first_pos(p, '=') {
        Some(i) => p.skip(i + 1),
        None => Seq::empty(),
    }
}

/// A pair that gives the access token: key `access_token`, value not empty.
pub open spec fn is_token_pair(p: Seq<char>) -> bool {
    pair_key(p) == "access_token"@ && pair_value(p).len() > 0
}

/// The value of the first pair that gives the access token.
pub open spec fn token_in_pairs(ps: Seq<Seq<char>>) -> Option<Seq<char>>
    decreases ps.len(),
{
    if ps.len() == 0 {
        None
    } else if is_token_pair(ps[0]) {
        Some(pair_value(ps[0]))
    } else {
        token_in_pairs(ps.drop_first())
    }
}

/// The access token of the first section that has one, its pairs split at
/// `&`.
pub open spec fn token_in_sections(ss: Seq<Seq<char>>) -> Option<Seq<char>>
    decreases ss.len(),
{
    if ss.len() == 0 {
        None
    } else {
        match token_in_pairs(split_spec(ss[0], '&')) {
            Some(v) => Some(v),
            None => token_in_sections(ss.drop_first()),
        }
    }
}

/// The access token in what the user pasted: none for blank input; the
/// `access_token` value of the redirect URL, percent-decoded when that
/// gives UTF-8; else the trimmed input, taken as the token itself.
pub open spec fn access_token_spec(input: Seq<char>) -> Option<Seq<char>> {
    let t = trim_spec(input);
    if t.len() == 0 {
        None
    } else {
        match token_in_sections(token_sections(t)) {
            Some(v) => Some(
                match url_decoded(v) {
                    Some(d) => d,
                    None => v,
                },
            ),
            None => Some(t),
        }
    }
}

fn after_first(s: &str, c: char) -> (r: Option<String>)
    ensures
        opt_str(r) == after_first_char(s@, c),
{
    let v = chars_of(s);
    match find_char(&v, c) {
        Some(i) => Some(string_of_range(&v, i + 1, v.len())),
        None => None,
    }
}

fn pair_parts(p: &str) -> (r: (String, String))
    ensures
        r.0@ == pair_key(p@),
        r.1@ == pair_value(p@),
{
    let v = chars_of(p);
    match find_char(&v, '=') {
        Some(i) => (string_of_range(&v, 0, i), string_of_range(&v, i + 1, v.len())),
        None => {
            assert(v@.subrange(0, v@.len() as int) =~= v@);
            (string_of_range(&v, 0, v.len()), String::new())
        },
    }
}

proof fn lemma_token_in_pairs_skip(ps: Seq<Seq<char>>, j: int)
    requires
        0 <= j < ps.len(),
        !is_token_pair(ps[j]),
    ensures
        token_in_pairs(ps.skip(j)) == token_in_pairs(ps.skip(j + 1)),
{
    assert(ps.skip(j).drop_first() =~= ps.skip(j + 1));
}

fn token_in(section: &str) -> (r: Option<String>)
    ensures
        opt_str(r) == token_in_pairs(split_spec(section@, '&')),
{
    let pairs = split_char(section, '&');
    let ghost ps = views(pairs@);
    let mut j: usize = 0;
    assert(ps.skip(0) =~= ps);
    while j < pairs.len()
        invariant
            j <= pairs@.len(),
            ps == views(pairs@),
            ps == split_spec(section@, '&'),
            token_in_pairs(ps) == token_in_pairs(ps.skip(j as int)),
        decreases pairs@.len() - j,
    {
        let (key, value) = pair_parts(pairs[j].as_str());
        if str_eq(key.as_str(), "access_token") && !value.as_str().is_empty() {
            proof {
                reveal_strlit("access_token");
                assert(ps.skip(j as int)[0] == ps[j as int]);
            }
            return Some(value);
        }
        proof {
            reveal_strlit("access_token");
            lemma_token_in_pairs_skip(ps, j as int);
        }
        j = j + 1;
    }
    assert(ps.skip(j as int) =~= Seq::<Seq<char>>::empty());
    None
}

/// The access token in what the user pasted (see `access_token_spec`).
pub fn extract_access_token(input: &str) -> (r: Option<String>)
    ensures
        opt_str(r) == access_token_spec(input@),
{
    let t = trim(input);
    if t.as_str().is_empty() {
        return None;
    }
    let mut sections: Vec<String> = Vec::new();
    match after_first(t.as_str(), '#') {
        Some(f) => sections.push(f),
        None => {},
    }
    match after_first(t.as_str(), '?') {
        Some(q) => sections.push(q),
        None => {},
    }
    sections.push(t.clone());
    let ghost ss = views(sections@);
    assert(ss =~= token_sections(t@));
    let mut k: usize = 0;
    assert(ss.skip(0) =~= ss);
    while k < sections.len()
        invariant
            k <= sections@.len(),
            ss == views(sections@),
            t@ == trim_spec(input@),
            t@.len() > 0,
            ss == token_sections(t@),
            token_in_sections(ss) == token_in_sections(ss.skip(k as int)),
        decreases sections@.len() - k,
    {
        proof {
            assert(ss.skip(k as int)[0] == ss[k as int]);
            assert(ss.skip(k as int).drop_first() =~= ss.skip(k + 1));
        }
        match token_in(sections[k].as_str()) {
            Some(v) => {
                return match url_decode(v.as_str()) {
                    Some(d) => Some(d),
                    None => Some(v),
                };
            },
            None => {},
        }
        k = k + 1;
    }
    assert(ss.skip(k as int) =~= Seq::<Seq<char>>::empty());
    Some(t)
}

// ---------------------------------------------------------------------
// The user's anime list
// ---------------------------------------------------------------------

/// An entry of the user's list as the API describes it.
#[derive(Debug, PartialEq, Eq)]
pub struct AniListListEntryRecord {
    pub id: u32,
    pub media_id: u32,
    pub status: AniListMediaListStatus,
    pub progress: u32,
    pub media: AniListMediaRecord,
}

/// A named list of the user's, with the status it stands for when it has
/// one.
#[derive(Debug, PartialEq, Eq)]
pub struct AniListListGroup {
    pub name: String,
    pub status: Option<AniListMediaListStatus>,
    pub entries: Vec<AniListListEntryRecord>,
}

/// The values of a shown list entry.
pub struct ListEntryView {
    pub list_entry_id: u32,
    pub media_id: u32,
    pub mal_id: Option<u32>,
    pub title: Seq<char>,
    pub titles: Seq<Seq<char>>,
    pub status: AniListMediaListStatus,
    pub progress: u32,
    pub episodes: Option<u32>,
    pub list_name: Seq<char>,
}

/// The values of a list entry.
pub open spec fn entry_view(e: AniListListEntry) -> ListEntryView {
    ListEntryView {
        list_entry_id: e.list_entry_id,
        media_id: e.media_id,
        mal_id: e.mal_id,
        title: e.title@,
        titles: views(e.titles@),
        status: e.status,
        progress: e.progress,
        episodes: e.episodes,
        list_name: e.list_name@,
    }
}

/// The values of list entries.
pub open spec fn entry_views(es: Seq<AniListListEntry>) -> Seq<ListEntryView> {
    es.map_values(|e: AniListListEntry| entry_view(e))
}

/// The entry shown for a record of a list: shown by its display title, with
/// the list's status when the list has one, else its own.
pub open spec fn record_view(g: AniListListGroup, e: AniListListEntryRecord) -> ListEntryView {
    ListEntryView {
        list_entry_id: e.id,
        media_id: e.media_id,
        mal_id: e.media.mal_id,
        title: e.media.title.display_title_spec(),
        titles: e.media.title.titles_spec(),
        status: match g.status {
            Some(s) => s,
            None => e.status,
        },
        progress: e.progress,
        episodes: e.media.episodes,
        list_name: g.name@,
    }
}

/// The entries shown for one list, in its order.
pub open spec fn group_views(g: AniListListGroup) -> Seq<ListEntryView> {
    g.entries@.map_values(|e: AniListListEntryRecord| record_view(g, e))
}

/// The entries of all lists, list after list.
pub open spec fn flat_views(groups: Seq<AniListListGroup>) -> Seq<ListEntryView>
    decreases groups.len(),
{
    if groups.len() == 0 {
        Seq::empty()
    } else {
        flat_views(groups.drop_last()) + group_views(groups.last())
    }
}

/// Entries with each anime kept once, where it first appears.
pub open spec fn dedupe_entries(vs: Seq<ListEntryView>) -> Seq<ListEntryView> {
    first_occurrences(vs.map_values(|v: ListEntryView| v.media_id)).map_values(|i: int| vs[i])
}

/// One entry is listed before another: by status order, then by title.
pub open spec fn lists_before(a: ListEntryView, b: ListEntryView) -> bool {
    status_rank(a.status) < status_rank(b.status) || (status_rank(a.status) == status_rank(b.status)
        && lex_lt(a.title, b.title))
}

/// Two entries tie in the listing order.
pub open spec fn lists_tied(a: ListEntryView, b: ListEntryView) -> bool {
    status_rank(a.status) == status_rank(b.status) && a.title == b.title
}

/// `lists_before` is a strict order whose ties are `lists_tied`.
pub proof fn lemma_lists_before(a: ListEntryView, b: ListEntryView, c: ListEntryView)
    ensures
        !lists_before(a, a),
        lists_before(a, b) ==> !lists_before(b, a),
        !lists_tied(a, b) ==> lists_before(a, b) || lists_before(b, a),
        lists_before(a, b) && lists_before(b, c) ==> lists_before(a, c),
{
    lemma_lex_strict_total(a.title, b.title);
    lemma_lex_transitive(a.title, b.title, c.title);
    lemma_lex_strict_total(a.title, a.title);
}

/// `r` is `xs` stably sorted by `lists_before`, through the permutation `perm`.
pub open spec fn is_listing(r: Seq<ListEntryView>, xs: Seq<ListEntryView>, perm: Seq<int>) -> bool {
    &&& r.len() == xs.len()
    &&& perm.len() == xs.len()
    &&& forall|k: int| 0 <= k < r.len() ==> 0 <= #[trigger] perm[k] < xs.len()
    &&& forall|k: int| 0 <= k < r.len() ==> #[trigger] r[k] == xs[perm[k]]
    &&& forall|k1: int, k2: int| 0 <= k1 < k2 < r.len() ==> perm[k1] != perm[k2]
    &&& forall|k1: int, k2: int| 0 <= k1 < k2 < r.len() ==> !lists_before(r[k2], r[k1])
    &&& forall|k1: int, k2: int|
        0 <= k1 < k2 < r.len() && lists_tied(r[k1], r[k2]) ==> perm[k1] < perm[k2]
}

fn title_clone(v: &Vec<String>) -> (r: Vec<String>)
    ensures
        views(r@) == views(v@),
{
    let mut r: Vec<String> = Vec::new();
    let mut i: usize = 0;
    while i < v.len()
        invariant
            i <= v@.len(),
            views(r@) == views(v@.take(i as int)),
        decreases v@.len() - i,
    {
        let ghost before = views(r@);
        r.push(v[i].clone());
        proof {
            assert(views(r@) =~= before.push(v@[i as int]@));
            assert(views(v@.take(i + 1)) =~= views(v@.take(i as int)).push(v@[i as int]@));
        }
        i = i + 1;
    }
    assert(v@.take(v@.len() as int) =~= v@);
    r
}

fn entry_from_record(g: &AniListListGroup, e: &AniListListEntryRecord) -> (r: AniListListEntry)
    ensures
        entry_view(r) == record_view(*g, *e),
{
    AniListListEntry {
        list_entry_id: e.id,
        media_id: e.media_id,
        mal_id: e.media.mal_id,
        title: e.media.title.display_title(),
        titles: e.media.title.titles(),
        status: match g.status {
            Some(s) => s,
            None => e.status,
        },
        progress: e.progress,
        episodes: e.media.episodes,
        list_name: g.name.clone(),
    }
}

fn flatten_groups(groups: &Vec<AniListListGroup>) -> (r: Vec<AniListListEntry>)
    ensures
        entry_views(r@) == flat_views(groups@),
{
    let mut out: Vec<AniListListEntry> = Vec::new();
    let mut gi: usize = 0;
    while gi < groups.len()
        invariant
            gi <= groups@.len(),
            entry_views(out@) == flat_views(groups@.take(gi as int)),
        decreases groups@.len() - gi,
    {
        let g = &groups[gi];
        let ghost base = entry_views(out@);
        let mut ei: usize = 0;
        while ei < g.entries.len()
            invariant
                ei <= g.entries@.len(),
                *g == groups@[gi as int],
                entry_views(out@) == base + group_views(*g).take(ei as int),
            decreases g.entries@.len() - ei,
        {
            let ghost before = entry_views(out@);
            let x = entry_from_record(g, &g.entries[ei]);
            out.push(x);
            proof {
                assert(entry_views(out@) =~= before.push(record_view(*g, g.entries@[ei as int])));
                assert(group_views(*g).take(ei + 1) =~= group_views(*g).take(ei as int).push(
                    record_view(*g, g.entries@[ei as int]),
                ));
            }
            ei = ei + 1;
        }
        proof {
            assert(group_views(*g).take(ei as int) =~= group_views(*g));
            assert(groups@.take(gi + 1).drop_last() =~= groups@.take(gi as int));
        }
        gi = gi + 1;
    }
    assert(groups@.take(groups@.len() as int) =~= groups@);
    out
}

fn dedupe_by_media(entries: Vec<AniListListEntry>) -> (r: Vec<AniListListEntry>)
    ensures
        entry_views(r@) == dedupe_entries(entry_views(entries@)),
{
    let ghost vs = entry_views(entries@);
    let ghost keys = vs.map_values(|v: ListEntryView| v.media_id);
    let mut out: Vec<AniListListEntry> = Vec::new();
    let mut seen: Vec<u32> = Vec::new();
    let mut rest = entries;
    let ghost n = vs.len();
    assert(vs.skip(0) =~= vs);
    while rest.len() > 0
        invariant
            rest@.len() <= n == vs.len() == keys.len(),
            vs == entry_views(entries@),
            keys == vs.map_values(|v: ListEntryView| v.media_id),
            entry_views(rest@) == vs.skip(n - rest@.len()),
            entry_views(out@) == first_occurrences(keys.take(n - rest@.len())).map_values(
                |i: int| vs[i],
            ),
            seen@ == first_occurrences(keys.take(n - rest@.len())).map_values(|i: int| keys[i]),
        decreases rest@.len(),
    {
        let ghost i: int = n - rest@.len();
        let ghost t = keys.take(i);
        let ghost f = first_occurrences(t);
        let ghost old_rest = rest@;
        let x = rest.remove(0);
        proof {
            assert(x == old_rest[0]);
            assert(entry_views(old_rest)[0] == entry_view(old_rest[0]));
            assert(vs.skip(i)[0] == vs[i]);
            assert(rest@ =~= old_rest.skip(1));
            assert(entry_views(rest@) =~= entry_views(old_rest).skip(1));
            assert(entry_views(rest@) =~= vs.skip(i + 1));
            assert(entry_view(x) == vs[i]);
            crate::seqs::lemma_first_occurrences_first(t);
            crate::seqs::lemma_first_occurrences_cover(t);
            assert(keys.take(i + 1).drop_last() =~= t);
            assert(keys.take(i + 1).last() == keys[i]);
        }
        let mut found = false;
        let mut k: usize = 0;
        while k < seen.len()
            invariant
                k <= seen@.len() == f.len(),
                seen@ == f.map_values(|j: int| keys[j]),
                forall|m: int| 0 <= m < f.len() ==> 0 <= #[trigger] f[m] < t.len(),
                t == keys.take(i),
                0 <= i < keys.len(),
                x.media_id == keys[i],
                found == exists|m: int| 0 <= m < k && t[#[trigger] f[m]] == keys[i],
            decreases seen@.len() - k,
        {
            proof {
                assert(t[f[k as int]] == keys[f[k as int]]);
            }
            if seen[k] == x.media_id {
                found = true;
            }
            k = k + 1;
        }
        proof {
            if found {
                let m = choose|m: int| 0 <= m < k && t[#[trigger] f[m]] == keys[i];
                assert(t.contains(keys[i]));
            } else if t.contains(keys[i]) {
                let j = choose|j: int| 0 <= j < t.len() && t[j] == keys[i];
                assert(crate::seqs::key_at_one_of(t, f, t[j]));
            }
        }
        if !found {
            let ghost before_out = entry_views(out@);
            let ghost before_seen = seen@;
            let ghost xv = entry_view(x);
            seen.push(x.media_id);
            out.push(x);
            proof {
                let f2 = first_occurrences(keys.take(i + 1));
                assert(f2 == f.push(i));
                assert(entry_views(out@) =~= before_out.push(xv));
                assert(entry_views(out@) =~= f2.map_values(|j: int| vs[j]));
                assert(seen@ =~= f2.map_values(|j: int| keys[j]));
            }
        } else {
            proof {
                let f2 = first_occurrences(keys.take(i + 1));
                assert(f2 == f);
            }
        }
    }
    assert(keys.take(n as int) =~= keys);
    out
}

fn lists_before_exec(a: &AniListListEntry, b: &AniListListEntry) -> (r: bool)
    ensures
        r == lists_before(entry_view(*a), entry_view(*b)),
{
    let ra = status_order(a.status);
    let rb = status_order(b.status);
    ra < rb || (ra == rb && lex_less(a.title.as_str(), b.title.as_str()))
}

fn sort_listing(entries: Vec<AniListListEntry>) -> (r: Vec<AniListListEntry>)
    ensures
        exists|perm: Seq<int>| is_listing(entry_views(r@), entry_views(entries@), perm),
{
    let ghost orig = entry_views(entries@);
    let mut rest = entries;
    let mut out: Vec<AniListListEntry> = Vec::new();
    let ghost mut perm: Seq<int> = Seq::empty();
    assert(orig.skip(0) =~= orig);
    while rest.len() > 0
        invariant
            entry_views(rest@) == orig.skip(orig.len() - rest@.len()),
            rest@.len() <= orig.len(),
            is_listing(entry_views(out@), orig.take(orig.len() - rest@.len()), perm),
        decreases rest@.len(),
    {
        let ghost i: int = orig.len() - rest@.len();
        let ghost pre = orig.take(i);
        let ghost old_rest = rest@;
        let x = rest.remove(0);
        let ghost xv = entry_view(x);
        proof {
            assert(x == old_rest[0]);
            assert(entry_views(old_rest)[0] == entry_view(old_rest[0]));
            assert(orig.skip(i)[0] == orig[i]);
            assert(rest@ =~= old_rest.skip(1));
            assert(entry_views(rest@) =~= entry_views(old_rest).skip(1));
        }
        assert(xv == orig[i]);
        assert(entry_views(rest@) =~= orig.skip(i + 1));
        let mut p: usize = 0;
        while p < out.len() && !lists_before_exec(&x, &out[p])
            invariant
                p <= out@.len(),
                xv == entry_view(x),
                forall|k: int| 0 <= k < p ==> !lists_before(xv, #[trigger] entry_views(out@)[k]),
            decreases out@.len() - p,
        {
            p = p + 1;
        }
        let ghost old_out = entry_views(out@);
        let ghost old_perm = perm;
        out.insert(p, x);
        proof {
            perm = old_perm.insert(p as int, i);
            let post = orig.take(i + 1);
            let ov = entry_views(out@);
            assert(post =~= pre.push(xv));
            assert(ov =~= old_out.insert(p as int, xv));
            assert forall|k: int| 0 <= k < ov.len() implies #[trigger] ov[k] == post[perm[k]] && 0
                <= perm[k] < post.len() by {
                if k < p {
                    assert(ov[k] == old_out[k] && perm[k] == old_perm[k]);
                } else if k > p {
                    assert(ov[k] == old_out[k - 1] && perm[k] == old_perm[k - 1]);
                }
            }
            assert forall|k1: int, k2: int|
                #![trigger perm[k1], perm[k2]]
                #![trigger ov[k1], ov[k2]]
                0 <= k1 < k2 < ov.len() implies perm[k1] != perm[k2] && !lists_before(ov[k2], ov[k1])
                && (lists_tied(ov[k1], ov[k2]) ==> perm[k1] < perm[k2]) by {
                let a = ov[k1];
                let b = ov[k2];
                if k2 < p {
                    assert(a == old_out[k1] && b == old_out[k2]);
                    assert(perm[k1] == old_perm[k1] && perm[k2] == old_perm[k2]);
                } else if k2 == p {
                    assert(a == old_out[k1] && perm[k1] == old_perm[k1]);
                    assert(!lists_before(xv, a));
                    lemma_lists_before(a, xv, xv);
                } else if k1 == p {
                    assert(b == old_out[k2 - 1] && perm[k2] == old_perm[k2 - 1]);
                    assert(p < old_out.len());
                    assert(lists_before(xv, old_out[p as int]));
                    if k2 - 1 > p {
                        assert(!lists_before(old_out[k2 - 1], old_out[p as int]));
                    }
                    lemma_lists_before(b, xv, old_out[p as int]);
                    lemma_lists_before(xv, old_out[p as int], b);
                    lemma_lists_before(xv, xv, xv);
                } else if k1 < p {
                    assert(a == old_out[k1] && perm[k1] == old_perm[k1]);
                    assert(b == old_out[k2 - 1] && perm[k2] == old_perm[k2 - 1]);
                } else {
                    assert(a == old_out[k1 - 1] && perm[k1] == old_perm[k1 - 1]);
                    assert(b == old_out[k2 - 1] && perm[k2] == old_perm[k2 - 1]);
                }
            }
            assert forall|k: int| 0 <= k < ov.len() implies 0 <= #[trigger] perm[k] < post.len() by {
                assert(ov[k] == post[perm[k]]);
            }
            assert(ov.len() == post.len() && perm.len() == post.len());
            assert(is_listing(ov, post, perm));
        }
    }
    assert(orig.take(orig.len() as int) =~= orig);
    out
}

/// The user's anime list as it is shown: the entries of all lists, each
/// anime once (where it first appears), ordered by status, then by title,
/// entries that tie keeping their order.
pub fn collect_anime_list(groups: Vec<AniListListGroup>) -> (r: Vec<AniListListEntry>)
    ensures
        exists|perm: Seq<int>|
            is_listing(entry_views(r@), dedupe_entries(flat_views(groups@)), perm),
{
    let flat = flatten_groups(&groups);
    let unique = dedupe_by_media(flat);
    sort_listing(unique)
}

/// Each anime is listed once.
pub proof fn listed_anime_are_distinct(vs: Seq<ListEntryView>)
    ensures
        forall|i: int, j: int|
            0 <= i < j < dedupe_entries(vs).len() ==> dedupe_entries(vs)[i].media_id
                != dedupe_entries(vs)[j].media_id,
{
    let keys = vs.map_values(|v: ListEntryView| v.media_id);
    let f = first_occurrences(keys);
    crate::seqs::lemma_first_occurrences_first(keys);
    crate::seqs::lemma_first_occurrences_distinct(keys);
    assert forall|i: int, j: int|
        0 <= i < j < dedupe_entries(vs).len() implies dedupe_entries(vs)[i].media_id
            != dedupe_entries(vs)[j].media_id by {
        assert(keys[f[i]] != keys[f[j]]);
        assert(dedupe_entries(vs)[i] == vs[f[i]]);
        assert(dedupe_entries(vs)[j] == vs[f[j]]);
    }
}

/// Every anime of the lists is listed.
pub proof fn every_listed_anime_is_shown(vs: Seq<ListEntryView>, j: int)
    requires
        0 <= j < vs.len(),
    ensures
        exists|k: int| 0 <= k < dedupe_entries(vs).len() && dedupe_entries(vs)[k].media_id == vs[j].media_id,
{
    let keys = vs.map_values(|v: ListEntryView| v.media_id);
    let f = first_occurrences(keys);
    crate::seqs::lemma_first_occurrences_first(keys);
    crate::seqs::lemma_first_occurrences_cover(keys);
    assert(crate::seqs::key_at_one_of(keys, f, keys[j]));
    let k = choose|k: int| 0 <= k < f.len() && keys[#[trigger] f[k]] == keys[j];
    assert(dedupe_entries(vs)[k] == vs[f[k]]);
}

// ---------------------------------------------------------------------
// Syncing progress
// ---------------------------------------------------------------------

/// What is saved on AniList once an episode was played.
#[derive(Debug, Clone, Copy, PartialEq, Eq, Structural)]
pub struct ProgressUpdate {
    pub media_id: u32,
    pub progress: u32,
    pub status: AniListMediaListStatus,
}

/// What is saved on AniList once an episode of an anime was played: the
/// episode's number as the progress, with the anime on the watching list,
/// whatever list it was on before (or none); nothing when the episode is
/// not a whole number.
pub fn progress_update(media_id: u32, episode: &str) -> (r: Option<ProgressUpdate>)
    ensures
        match crate::text::parse_unsigned_spec(episode@, u32::MAX as nat) {
            Some(n) => r == Some(
                ProgressUpdate { media_id, progress: n as u32, status: AniListMediaListStatus::Current },
            ),
            None => r is None,
        },
{
    match crate::text::parse_unsigned(episode, 4294967295u64) {
        Some(n) => Some(
            ProgressUpdate { media_id, progress: n as u32, status: AniListMediaListStatus::Current },
        ),
        None => None,
    }
}

/// The next step of looking an anime up on AniList.
#[derive(Debug)]
pub enum MediaLookup {
    /// Look it up by its MyAnimeList id.
    ByMalId(u32),
    /// Search for it by its title.
    ByTitle(String),
    /// The lookup is over, with what it found.
    Done(Option<AniListMedia>),
}

/// The first step: by the MyAnimeList id when the show has one, else by
/// its title.
pub fn first_media_lookup(mal_id: Option<u32>, title: &str) -> (r: MediaLookup)
    ensures
        mal_id matches Some(id) ==> r == MediaLookup::ByMalId(id),
        mal_id is None ==> (r matches MediaLookup::ByTitle(t) && t@ == title@),
{
    match mal_id {
        Some(id) => MediaLookup::ByMalId(id),
        None => MediaLookup::ByTitle(String::from_str(title)),
    }
}

/// After the lookup by MyAnimeList id: what it found, else a search by
/// title.
pub fn after_mal_id_lookup(found: Option<AniListMedia>, title: &str) -> (r: MediaLookup)
    ensures
        found is Some ==> r == MediaLookup::Done(found),
        found is None ==> (r matches MediaLookup::ByTitle(t) && t@ == title@),
{
    match found {
        Some(m) => MediaLookup::Done(Some(m)),
        None => MediaLookup::ByTitle(String::from_str(title)),
    }
}

} // verus!
