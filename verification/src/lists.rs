//! The AniList screens: logging in (a client id, then the access token the
//! browser hands back), the user's anime lists, and the choice of list.

use vstd::prelude::*;
use crate::anilist::{
    AniListAuth, AniListListEntry, AniListMediaListStatus, access_token_spec, authorization_url,
    authorization_url_spec, extract_access_token, opt_str,
};
use crate::text::{dec_spec, dec_string, push_str, trim, trim_spec};
use crate::tui::Screen;
use crate::ui::{Browse, Effect, Key, UiState, framed, nav_back, nav_push, step_down, step_up};

verus! {

/// Which part of the login is asked for.
#[derive(Debug, Clone, Copy, PartialEq, Eq, Structural)]
pub enum LoginStage {
    ClientId,
    Token,
}

/// The AniList login, the lists fetched, and what is selected in them.
#[derive(Debug)]
pub struct AniListPanel {
    pub auth: AniListAuth,
    pub stage: LoginStage,
    pub input: String,
    pub entries: Vec<AniListListEntry>,
    pub filter: Option<AniListMediaListStatus>,
    pub index: usize,
    pub filter_index: usize,
    /// The AniList id of the selected show, once it was resolved.
    pub media_id: Option<u32>,
}

impl AniListPanel {
    /// A panel with a login and nothing fetched.
    pub fn new(auth: AniListAuth) -> (r: Self)
        ensures
            r.auth == auth,
            r.stage == LoginStage::ClientId,
            r.input@.len() == 0,
            r.entries@.len() == 0,
            r.filter is None,
            r.index == 0,
            r.filter_index == 0,
            r.media_id is None,
    {
        AniListPanel {
            auth,
            stage: LoginStage::ClientId,
            input: String::new(),
            entries: Vec::new(),
            filter: None,
            index: 0,
            filter_index: 0,
            media_id: None,
        }
    }

    /// Whether an access token is known.
    pub open spec fn logged_in(&self) -> bool {
        self.auth.access_token is Some
    }
}

/// The lists to choose from: all of them, then each status.
pub open spec fn filter_menu() -> Seq<Option<AniListMediaListStatus>> {
    seq![
        None,
        Some(AniListMediaListStatus::Current),
        Some(AniListMediaListStatus::Planning),
        Some(AniListMediaListStatus::Completed),
        Some(AniListMediaListStatus::Paused),
        Some(AniListMediaListStatus::Dropped),
        Some(AniListMediaListStatus::Repeating),
    ]
}

/// The lists to choose from (see `filter_menu`).
pub fn filter_choices() -> (r: Vec<Option<AniListMediaListStatus>>)
    ensures
        r@ == filter_menu(),
{
    let r = vec![
        None,
        Some(AniListMediaListStatus::Current),
        Some(AniListMediaListStatus::Planning),
        Some(AniListMediaListStatus::Completed),
        Some(AniListMediaListStatus::Paused),
        Some(AniListMediaListStatus::Dropped),
        Some(AniListMediaListStatus::Repeating),
    ];
    assert(r@ =~= filter_menu());
    r
}

/// Where a list stands in `filter_menu`.
pub open spec fn filter_position(f: Option<AniListMediaListStatus>) -> usize {
    match f {
        None => 0,
        Some(AniListMediaListStatus::Current) => 1,
        Some(AniListMediaListStatus::Planning) => 2,
        Some(AniListMediaListStatus::Completed) => 3,
        Some(AniListMediaListStatus::Paused) => 4,
        Some(AniListMediaListStatus::Dropped) => 5,
        Some(AniListMediaListStatus::Repeating) => 6,
    }
}

fn filter_position_exec(f: Option<AniListMediaListStatus>) -> (r: usize)
    ensures
        r == filter_position(f),
        r < 7,
        filter_menu()[r as int] == f,
{
    match f {
        None => 0,
        Some(AniListMediaListStatus::Current) => 1,
        Some(AniListMediaListStatus::Planning) => 2,
        Some(AniListMediaListStatus::Completed) => 3,
        Some(AniListMediaListStatus::Paused) => 4,
        Some(AniListMediaListStatus::Dropped) => 5,
        Some(AniListMediaListStatus::Repeating) => 6,
    }
}

/// The name of a list.
pub open spec fn filter_label_spec(f: Option<AniListMediaListStatus>) -> Seq<char> {
    match f {
        None => "All lists"@,
        Some(s) => s.label_spec(),
    }
}

/// The name of a list (see `filter_label_spec`).
pub fn filter_label(f: Option<AniListMediaListStatus>) -> (r: &'static str)
    ensures
        r@ == filter_label_spec(f),
{
    match f {
        None => "All lists",
        Some(s) => s.label(),
    }
}

/// Whether an entry of a status is on the list shown.
pub open spec fn on_list(status: AniListMediaListStatus, filter: Option<AniListMediaListStatus>) -> bool {
    match filter {
        None => true,
        Some(f) => status == f,
    }
}

/// The positions of the entries on the list shown, in order.
pub open spec fn shown_positions(
    entries: Seq<AniListListEntry>,
    filter: Option<AniListMediaListStatus>,
) -> Seq<int>
    decreases entries.len(),
{
    if entries.len() == 0 {
        Seq::empty()
    } else {
        let r = shown_positions(entries.drop_last(), filter);
        if on_list(entries.last().status, filter) {
            r.push(entries.len() - 1)
        } else {
            r
        }
    }
}

/// The positions of the entries on the list shown (see `shown_positions`).
pub fn visible_positions(
    entries: &Vec<AniListListEntry>,
    filter: Option<AniListMediaListStatus>,
) -> (r: Vec<usize>)
    ensures
        r@.len() == shown_positions(entries@, filter).len(),
        forall|k: int| 0 <= k < r@.len() ==> r@[k] as int == #[trigger] shown_positions(entries@, filter)[k],
        forall|k: int| 0 <= k < r@.len() ==> #[trigger] r@[k] < entries@.len(),
{
    let mut out: Vec<usize> = Vec::new();
    let mut i: usize = 0;
    while i < entries.len()
        invariant
            i <= entries@.len(),
            out@.len() == shown_positions(entries@.take(i as int), filter).len(),
            forall|k: int|
                0 <= k < out@.len() ==> out@[k] as int == #[trigger] shown_positions(
                    entries@.take(i as int),
                    filter,
                )[k],
            forall|k: int| 0 <= k < out@.len() ==> #[trigger] out@[k] < i,
        decreases entries@.len() - i,
    {
        let ghost before = out@;
        assert(entries@.take(i + 1).drop_last() =~= entries@.take(i as int));
        let keep = match filter {
            None => true,
            Some(f) => entries[i].status == f,
        };
        if keep {
            out.push(i);
        }
        i = i + 1;
    }
    assert(entries@.take(entries@.len() as int) =~= entries@);
    out
}

/// What the login screen asks for once a client id is known.
pub open spec fn login_prompt() -> Seq<char> {
    "Log in to AniList in the browser, then paste the access token or redirect URL and press Enter."@
}

/// What `show_anilist` does (see its documentation).
pub open spec fn anilist_open_post(o: UiState, f: UiState, r: Effect) -> bool {
    &&& (o.anilist.auth.access_token matches Some(t) ==> {
        &&& r == Effect::FetchAniListLists(t)
        &&& f.status@ == "Loading your AniList lists..."@
        &&& f.nav == o.nav
        &&& f.anilist.auth == o.anilist.auth
    })
    &&& (o.anilist.auth.access_token is None ==> {
        &&& (f.nav.screen, f.nav.stack@) == nav_push(o.nav.screen, o.nav.stack@, Screen::AniListLogin)
        &&& f.nav.quit == o.nav.quit
        &&& f.anilist.input@.len() == 0
        &&& f.anilist.auth == o.anilist.auth
        &&& (o.anilist.auth.client_id matches Some(c) ==> {
            &&& f.anilist.stage == LoginStage::Token
            &&& r matches Effect::OpenAniListLogin(u) && u@ == authorization_url_spec(c@)
            &&& f.status@ == login_prompt()
        })
        &&& (o.anilist.auth.client_id is None ==> {
            &&& f.anilist.stage == LoginStage::ClientId
            &&& r is Nothing
            &&& f.status@ == "Enter your AniList API client ID and press Enter."@
        })
    })
    &&& (f.prefs == o.prefs)
    &&& (f.browse == o.browse)
    &&& (o.anilist.auth.access_token is Some ==> f == (UiState { status: f.status, ..o }))
    &&& (o.anilist.auth.access_token is None ==> f == (UiState { nav: f.nav, anilist: f.anilist, status: f.status, ..o }))
}

/// What `handle_anilist_login_key` does (see its documentation).
pub open spec fn anilist_login_key_post(o: UiState, f: UiState, key: Key, r: Effect) -> bool {
    let input = o.anilist.input@;
    &&& (key matches Key::Char(c) ==> f.anilist.input@ == input.push(c) && r is Nothing)
    &&& (key == Key::Backspace ==> f.anilist.input@ == (if input.len() > 0 {
        input.drop_last()
    } else {
        input
    }) && r is Nothing)
    &&& (key == Key::Enter && o.anilist.stage == LoginStage::ClientId && trim_spec(input).len() == 0
        ==> r is Nothing && f.status@ == "AniList client ID is empty."@ && f.anilist == o.anilist)
    &&& (key == Key::Enter && o.anilist.stage == LoginStage::ClientId && trim_spec(input).len() > 0
        ==> {
        &&& opt_str(f.anilist.auth.client_id) == Some(trim_spec(input))
        &&& f.anilist.auth.access_token == o.anilist.auth.access_token
        &&& f.anilist.stage == LoginStage::Token
        &&& f.anilist.input@.len() == 0
        &&& r matches Effect::OpenAniListLogin(u) && u@ == authorization_url_spec(input)
        &&& f.status@ == login_prompt()
    })
    &&& (key == Key::Enter && o.anilist.stage == LoginStage::Token && access_token_spec(input) is None
        ==> r is Nothing && f.status@
        == "No AniList access token found. Paste the token or the redirect URL."@ && f.anilist
        == o.anilist)
    &&& (key == Key::Enter && o.anilist.stage == LoginStage::Token ==> (access_token_spec(input)
        matches Some(t) ==> {
        &&& opt_str(f.anilist.auth.access_token) == Some(t)
        &&& f.anilist.auth.client_id == o.anilist.auth.client_id
        &&& f.anilist.input@.len() == 0
        &&& r matches Effect::SaveAniListLogin(a) && a == f.anilist.auth
        &&& f.status@ == "Logged in to AniList. Loading your lists..."@
    }))
    &&& (!(key is Char || key == Key::Backspace || key == Key::Enter) ==> f == o && r is Nothing)
    &&& (f.nav == o.nav)
    &&& (f.prefs == o.prefs)
    &&& (f.browse == o.browse)
    &&& ((key is Char || key == Key::Backspace) ==> f == (UiState { anilist: AniListPanel { input: f.anilist.input, ..o.anilist }, ..o }))
}

/// What `handle_anilist_key` does (see its documentation).
pub open spec fn anilist_key_post(o: UiState, f: UiState, key: Key, r: Effect) -> bool {
    let shown = shown_positions(o.anilist.entries@, o.anilist.filter);
    let i = o.anilist.index;
    &&& (key == Key::Up ==> f.anilist.index == step_up(i) && r is Nothing)
    &&& (key == Key::Down ==> f.anilist.index == step_down(i, shown.len() as usize) && r is Nothing)
    &&& (key == Key::Enter && i < shown.len() ==> {
        let e = o.anilist.entries@[shown[i as int]];
        &&& r matches Effect::Search(q) && q@ == trim_spec(e.title@)
        &&& f.browse.query@ == e.title@
        &&& f.status@ == "Searching AllAnime for \""@ + trim_spec(e.title@) + "\"..."@
    })
    &&& (key == Key::Enter && i >= shown.len() ==> r is Nothing && f.status@
        == "No AniList entry selected."@)
    &&& (key == Key::Char('f') ==> {
        &&& f.anilist.filter_index == filter_position(o.anilist.filter)
        &&& (f.nav.screen, f.nav.stack@) == nav_push(o.nav.screen, o.nav.stack@, Screen::AniListFilter)
        &&& r is Nothing
    })
    &&& (!(key == Key::Up || key == Key::Down || key == Key::Enter || key == Key::Char('f'))
        ==> f == o && r is Nothing)
    &&& (key != Key::Char('f') ==> f.nav == o.nav)
    &&& (f.prefs == o.prefs)
    &&& ((key == Key::Up || key == Key::Down) ==> f == (UiState { anilist: AniListPanel { index: f.anilist.index, ..o.anilist }, ..o }))
    &&& (key == Key::Enter ==> f == (UiState { browse: Browse { query: f.browse.query, ..o.browse }, status: f.status, ..o }))
    &&& (key == Key::Char('f') ==> f == (UiState { nav: f.nav, anilist: AniListPanel { filter_index: f.anilist.filter_index, ..o.anilist }, ..o }))
}

/// What `handle_anilist_filter_key` does (see its documentation).
pub open spec fn anilist_filter_key_post(o: UiState, f: UiState, key: Key) -> bool {
    let i = o.anilist.filter_index;
    &&& (key == Key::Up ==> f.anilist.filter_index == step_up(i))
    &&& (key == Key::Down ==> f.anilist.filter_index == step_down(i, 7))
    &&& (key == Key::Enter ==> {
        let chosen = if i < 7 {
            filter_menu()[i as int]
        } else {
            None
        };
        &&& f.anilist.filter == chosen
        &&& f.anilist.index == 0
        &&& f.anilist.entries == o.anilist.entries
        &&& f.nav.screen == nav_back(o.nav.screen, o.nav.stack@).0
        &&& f.nav.stack@ == nav_back(o.nav.screen, o.nav.stack@).1
        &&& f.status@ == "Showing "@ + filter_label_spec(chosen) + "."@
    })
    &&& (!(key == Key::Up || key == Key::Down || key == Key::Enter) ==> f == o)
    &&& (f.prefs == o.prefs)
    &&& ((key == Key::Up || key == Key::Down) ==> f == (UiState { anilist: AniListPanel { filter_index: f.anilist.filter_index, ..o.anilist }, ..o }))
}

/// Removes the last character of a string, if any.
fn drop_last_char(s: &mut String)
    ensures
        final(s)@ == (if old(s)@.len() > 0 {
            old(s)@.drop_last()
        } else {
            old(s)@
        }),
{
    let v = crate::text::chars_of(s.as_str());
    if v.len() > 0 {
        *s = crate::text::string_of_range(&v, 0, v.len() - 1);
        assert(v@.subrange(0, v.len() - 1) =~= v@.drop_last());
    }
}

impl UiState {
    /// The saved login was read: what the environment gives wins over it.
    pub fn anilist_auth_loaded(&mut self, saved: AniListAuth)
        ensures
            final(self).anilist.auth.client_id == (match old(self).prefs.config.anilist_client_id {
                Some(c) => Some(c),
                None => saved.client_id,
            }),
            final(self).anilist.auth.access_token == (match old(self).prefs.config.anilist_token {
                Some(t) => Some(t),
                None => saved.access_token,
            }),
            final(self).nav == old(self).nav,
            final(self).prefs == old(self).prefs,
            final(self).browse == old(self).browse,
            final(self).status == old(self).status,
    {
        let client_id = match &self.prefs.config.anilist_client_id {
            Some(c) => Some(c.clone()),
            None => saved.client_id,
        };
        let access_token = match &self.prefs.config.anilist_token {
            Some(t) => Some(t.clone()),
            None => saved.access_token,
        };
        self.anilist.auth = AniListAuth { client_id, access_token };
    }

    /// Opens AniList (F3): with a token the lists are fetched, else the
    /// login screen asks for the client id, or, when it is known, opens the
    /// login page in the browser and asks for the token.
    pub fn show_anilist(&mut self) -> (r: Effect)
        ensures
            anilist_open_post(*old(self), *final(self), r),
    {
        match &self.anilist.auth.access_token {
            Some(t) => {
                let t = t.clone();
                self.status = String::from_str("Loading your AniList lists...");
                return Effect::FetchAniListLists(t);
            },
            None => {},
        }
        self.anilist.input = String::new();
        self.nav.push_screen(Screen::AniListLogin);
        match &self.anilist.auth.client_id {
            Some(c) => {
                let url = authorization_url(c.as_str());
                self.anilist.stage = LoginStage::Token;
                self.status = String::from_str(
                    "Log in to AniList in the browser, then paste the access token or redirect URL and press Enter.",
                );
                proof {
                    reveal_strlit(
                        "Log in to AniList in the browser, then paste the access token or redirect URL and press Enter.",
                    );
                }
                Effect::OpenAniListLogin(url)
            },
            None => {
                self.anilist.stage = LoginStage::ClientId;
                self.status = String::from_str("Enter your AniList API client ID and press Enter.");
                Effect::Nothing
            },
        }
    }

    /// The login screen: characters type, Backspace deletes; Enter takes
    /// the client id (and opens the login page) or the pasted token or
    /// redirect URL (and saves the login).
    pub fn handle_anilist_login_key(&mut self, key: Key) -> (r: Effect)
        ensures
            anilist_login_key_post(*old(self), *final(self), key, r),
    {
        match key {
            Key::Char(c) => {
                crate::text::push_char(&mut self.anilist.input, c);
                Effect::Nothing
            },
            Key::Backspace => {
                drop_last_char(&mut self.anilist.input);
                Effect::Nothing
            },
            Key::Enter => {
                match self.anilist.stage {
                    LoginStage::ClientId => {
                        let id = trim(self.anilist.input.as_str());
                        if id.as_str().is_empty() {
                            self.status = String::from_str("AniList client ID is empty.");
                            return Effect::Nothing;
                        }
                        let url = authorization_url(self.anilist.input.as_str());
                        self.anilist.auth.client_id = Some(id);
                        self.anilist.stage = LoginStage::Token;
                        self.anilist.input = String::new();
                        self.status = String::from_str(
                            "Log in to AniList in the browser, then paste the access token or redirect URL and press Enter.",
                        );
                        proof {
                            reveal_strlit(
                                "Log in to AniList in the browser, then paste the access token or redirect URL and press Enter.",
                            );
                        }
                        Effect::OpenAniListLogin(url)
                    },
                    LoginStage::Token => {
                        match extract_access_token(self.anilist.input.as_str()) {
                            None => {
                                self.status = String::from_str(
                                    "No AniList access token found. Paste the token or the redirect URL.",
                                );
                                Effect::Nothing
                            },
                            Some(t) => {
                                self.anilist.auth.access_token = Some(t);
                                self.anilist.input = String::new();
                                self.status = String::from_str(
                                    "Logged in to AniList. Loading your lists...",
                                );
                                Effect::SaveAniListLogin(self.anilist.auth.clone())
                            },
                        }
                    },
                }
            },
            _ => Effect::Nothing,
        }
    }

    /// The user's lists arrived: the first entry of all lists is selected,
    /// shown in place of the login screen.
    pub fn anilist_lists_loaded(&mut self, entries: Vec<AniListListEntry>)
        ensures
            final(self).anilist.entries@ == entries@,
            final(self).anilist.filter is None,
            final(self).anilist.index == 0,
            final(self).anilist.auth == old(self).anilist.auth,
            old(self).nav.screen == Screen::AniListLogin ==> final(self).nav.screen == Screen::AniList
                && final(self).nav.stack == old(self).nav.stack,
            old(self).nav.screen != Screen::AniListLogin ==> (final(self).nav.screen,
                final(self).nav.stack@) == nav_push(old(self).nav.screen, old(self).nav.stack@, Screen::AniList),
            final(self).nav.quit == old(self).nav.quit,
            final(self).status@ == dec_spec(entries@.len()) + " AniList entries. Press f to choose a list."@,
            final(self).prefs == old(self).prefs,
            final(self).browse == old(self).browse,
    {
        let n = entries.len();
        self.anilist.entries = entries;
        self.anilist.filter = None;
        self.anilist.index = 0;
        if self.nav.screen == Screen::AniListLogin {
            self.nav.screen = Screen::AniList;
        } else {
            self.nav.push_screen(Screen::AniList);
        }
        let mut s = dec_string(n as u64);
        push_str(&mut s, " AniList entries. Press f to choose a list.");
        self.status = s;
    }

    /// The lists screen: Up and Down move; Enter searches AllAnime for the
    /// selected anime; `f` chooses the list shown.
    pub fn handle_anilist_key(&mut self, key: Key) -> (r: Effect)
        ensures
            anilist_key_post(*old(self), *final(self), key, r),
    {
        match key {
            Key::Up => {
                self.anilist.index = if self.anilist.index == 0 {
                    0
                } else {
                    self.anilist.index - 1
                };
                Effect::Nothing
            },
            Key::Down => {
                let shown = visible_positions(&self.anilist.entries, self.anilist.filter);
                let n = shown.len();
                let last = if n == 0 {
                    0
                } else {
                    n - 1
                };
                self.anilist.index = if self.anilist.index < last && self.anilist.index + 1 < last {
                    self.anilist.index + 1
                } else {
                    last
                };
                Effect::Nothing
            },
            Key::Enter => {
                let shown = visible_positions(&self.anilist.entries, self.anilist.filter);
                if self.anilist.index < shown.len() {
                    let title = self.anilist.entries[shown[self.anilist.index]].title.clone();
                    let q = trim(title.as_str());
                    self.status = framed("Searching AllAnime for \"", q.as_str(), "\"...");
                    self.browse.query = title;
                    Effect::Search(q)
                } else {
                    self.status = String::from_str("No AniList entry selected.");
                    Effect::Nothing
                }
            },
            Key::Char('f') => {
                self.anilist.filter_index = filter_position_exec(self.anilist.filter);
                self.nav.push_screen(Screen::AniListFilter);
                Effect::Nothing
            },
            _ => Effect::Nothing,
        }
    }

    /// The list choice: Up and Down move; Enter shows the chosen list from
    /// its first entry and goes back to it.
    pub fn handle_anilist_filter_key(&mut self, key: Key)
        ensures
            anilist_filter_key_post(*old(self), *final(self), key),
    {
        match key {
            Key::Up => {
                self.anilist.filter_index = if self.anilist.filter_index == 0 {
                    0
                } else {
                    self.anilist.filter_index - 1
                };
            },
            Key::Down => {
                let i = self.anilist.filter_index;
                self.anilist.filter_index = if i < 6 && i + 1 < 6 {
                    i + 1
                } else {
                    6
                };
            },
            Key::Enter => {
                let choices = filter_choices();
                let chosen = if self.anilist.filter_index < choices.len() {
                    choices[self.anilist.filter_index]
                } else {
                    None
                };
                self.anilist.filter = chosen;
                self.anilist.index = 0;
                self.nav.back();
                self.status = framed("Showing ", filter_label(chosen), ".");
            },
            _ => {},
        }
    }
}

} // verus!
