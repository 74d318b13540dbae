//! The interface's state and its rules: how screens are entered and left,
//! what each key does on each screen, and how the progress of a playback
//! task is followed. Work that needs the network, the disk or a player is
//! handed back as an effect for the caller to perform.

use vstd::prelude::*;
use crate::config::{AppConfig, PlayerChoice};
use crate::episode::{next_episode, previous_episode, next_spec, previous_spec};
use crate::history::HistoryEntry;
use crate::media::{
    AnimeSearchResult, SelectedStream, StreamLink, TranslationMode, same_stream,
};
use crate::player::{PlayerHost, PlayerKind, default_player, default_player_spec};
use crate::quality::{QualityPreference, QualityModel};
use crate::text::{push_str, views, trim, trim_spec};
use crate::tui::{
    Screen, SettingChoice, IinaClosedAction, TrackLanguageChoice, PendingPlayback, episode_summary,
    episode_summary_spec, quality_choices, quality_menu, quality_models, language_choices,
    language_menu, setting_choice, settings_menu, setting_option_count, option_count_spec,
    iina_closed_actions, apply_track_language_choice,
};

use crate::anilist::AniListAuth;
use crate::lists::AniListPanel;

verus! {

// ---------------------------------------------------------------------
// Navigation
// ---------------------------------------------------------------------

/// The screen shown and the screens to go back to, most recent last.
pub open spec fn nav_push(screen: Screen, stack: Seq<Screen>, to: Screen) -> (Screen, Seq<Screen>) {
    if screen == to {
        (screen, stack)
    } else {
        (to, stack.push(screen))
    }
}

/// Going back: to the most recent screen, else to search, else quitting
/// (the flag is the quit flag).
pub open spec fn nav_back(screen: Screen, stack: Seq<Screen>) -> (Screen, Seq<Screen>, bool) {
    if stack.len() > 0 {
        (stack.last(), stack.drop_last(), false)
    } else if screen == Screen::Search {
        (screen, stack, true)
    } else {
        (Screen::Search, stack, false)
    }
}

/// The stack holds `to` at `i`.
pub open spec fn holds_screen(stack: Seq<Screen>, to: Screen) -> spec_fn(int) -> bool {
    |i: int| stack[i] == to
}

/// Returning to a screen: the stack is cut back to below its last
/// occurrence, or emptied when it is not on the stack.
pub open spec fn nav_return(stack: Seq<Screen>, to: Screen) -> (Screen, Seq<Screen>) {
    match crate::seqs::last_index(stack.len() as int, holds_screen(stack, to)) {
        Some(i) => (to, stack.take(i)),
        None => (to, Seq::empty()),
    }
}

/// Pushing a new screen and going back restores the screen and the stack.
pub proof fn push_then_back_restores(screen: Screen, stack: Seq<Screen>, to: Screen)
    requires
        to != screen,
    ensures
        ({
            let (s1, st1) = nav_push(screen, stack, to);
            let (s2, st2, quit) = nav_back(s1, st1);
            s2 == screen && st2 == stack && !quit
        }),
{
    assert(stack.push(screen).drop_last() =~= stack);
}

/// Returning to a screen on the stack leaves only the screens below it.
pub proof fn return_cuts_stack(stack: Seq<Screen>, to: Screen, i: int)
    requires
        0 <= i < stack.len(),
        stack[i] == to,
        forall|j: int| i < j < stack.len() ==> stack[j] != to,
    ensures
        nav_return(stack, to) == (to, stack.take(i)),
{
    crate::seqs::lemma_last_index_unique(stack.len() as int, holds_screen(stack, to), Some(i));
}

/// Going back from the search screen with nothing to go back to quits, and
/// nothing else quits.
pub proof fn back_quits_only_from_bottom_search(screen: Screen, stack: Seq<Screen>)
    ensures
        nav_back(screen, stack).2 <==> (stack.len() == 0 && screen == Screen::Search),
{
}

// ---------------------------------------------------------------------
// State
// ---------------------------------------------------------------------

/// Where the interface is: the screen shown, the screens to go back to
/// (most recent last), and whether it is to quit.
#[derive(Debug)]
pub struct Nav {
    pub screen: Screen,
    pub stack: Vec<Screen>,
    pub quit: bool,
}

/// The user's preferences, and the host players run on.
#[derive(Debug)]
pub struct Prefs {
    pub config: AppConfig,
    pub host: PlayerHost,
    pub mode: TranslationMode,
    pub quality: QualityPreference,
    pub skip_intro: bool,
    pub download_mode: bool,
}

/// What the user has searched, found and watched.
#[derive(Debug)]
pub struct Browse {
    pub query: String,
    pub results: Vec<AnimeSearchResult>,
    pub result_index: usize,
    pub selected_show: Option<AnimeSearchResult>,
    pub episodes: Vec<String>,
    pub episode_index: usize,
    pub current_episode: Option<String>,
    pub links: Vec<StreamLink>,
    pub last_stream: Option<SelectedStream>,
    pub history_entries: Vec<HistoryEntry>,
    pub history_index: usize,
    pub logs: String,
    pub schedule: Vec<crate::schedule::NextEpisodeStatus>,
}

/// The selected entry of each menu.
#[derive(Debug, Clone, Copy, PartialEq, Eq, Structural)]
pub struct Menus {
    pub quality_index: usize,
    pub language_index: usize,
    pub settings_index: usize,
    pub active_setting: Option<SettingChoice>,
    pub setting_option_index: usize,
    pub track_language_index: usize,
    pub iina_closed_index: usize,
}

/// What the loading screen shows while a playback task runs, and where the
/// interface returns when it ends.
#[derive(Debug)]
pub struct LoadingView {
    pub title: String,
    pub subject: String,
    pub detail: String,
    pub stage: usize,
    pub total_stages: usize,
    pub notes: Vec<String>,
    pub return_screen: Screen,
}

/// A player being watched for the moment it closes: the episode it plays,
/// and whether it was seen running.
#[derive(Debug)]
pub struct IinaWatch {
    pub episode: String,
    pub seen_running: bool,
}

/// The playback task and what waits on it.
#[derive(Debug)]
pub struct Task {
    pub running: bool,
    pub loading: Option<LoadingView>,
    pub pending_playback: Option<PendingPlayback>,
    pub track_language_choices: Vec<TrackLanguageChoice>,
    pub iina_watch: Option<IinaWatch>,
}

/// Work asked of the caller besides an effect: aborting the playback task,
/// saving the settings.
#[derive(Debug, Clone, Copy, PartialEq, Eq, Structural)]
pub struct Requests {
    pub abort: bool,
    pub persist: bool,
}

/// The state of the interface.
#[derive(Debug)]
pub struct UiState {
    pub nav: Nav,
    pub prefs: Prefs,
    pub browse: Browse,
    pub menus: Menus,
    pub task: Task,
    pub requests: Requests,
    pub anilist: AniListPanel,
    pub status: String,
}

/// The number of stages a playback task goes through.
pub const PLAYBACK_STAGES: usize = 5;

/// The most progress notes the loading screen keeps.
pub const MAX_LOADING_NOTES: usize = 5;

/// Position of a mode in the language menu.
pub open spec fn mode_index(m: TranslationMode) -> usize {
    match m {
        TranslationMode::Sub => 0,
        TranslationMode::Dub => 1,
    }
}

fn mode_index_exec(m: TranslationMode) -> (r: usize)
    ensures
        r == mode_index(m),
        r < language_menu().len(),
        language_menu()[r as int] == m,
{
    match m {
        TranslationMode::Sub => 0,
        TranslationMode::Dub => 1,
    }
}

/// The quality menu offers `q` at `i`.
pub open spec fn offers_quality(q: QualityModel) -> spec_fn(int) -> bool {
    |i: int| quality_menu()[i] == q
}

/// Position of a quality in the quality menu, 0 when it is not offered.
pub open spec fn quality_index_of(q: QualityModel) -> usize {
    match crate::seqs::first_index(quality_menu().len() as int, offers_quality(q)) {
        Some(i) => i as usize,
        None => 0,
    }
}

fn quality_index_exec(q: &QualityPreference) -> (r: usize)
    ensures
        r == quality_index_of(q.model()),
        r < quality_menu().len(),
{
    let qs = quality_choices();
    let ghost p = offers_quality(q.model());
    let mut i: usize = 0;
    assert(qs@.len() == quality_models(qs@).len());
    while i < qs.len()
        invariant
            i <= qs@.len(),
            qs@.len() == 6,
            quality_models(qs@) == quality_menu(),
            p == offers_quality(q.model()),
            crate::seqs::first_index(i as int, p) is None,
        decreases qs@.len() - i,
    {
        assert(qs@[i as int].model() == quality_menu()[i as int]);
        if qs[i].same_as(q) {
            assert(p(i as int));
            assert(crate::seqs::first_index(i + 1, p) == Some(i as int));
            proof {
                crate::seqs::lemma_first_index_extends(6, i + 1, p);
            }
            return i;
        }
        assert(!p(i as int));
        i = i + 1;
    }
    0
}

/// The last position of a screen on the stack.
fn last_position(stack: &Vec<Screen>, to: Screen) -> (r: Option<usize>)
    ensures
        match r {
            Some(k) => crate::seqs::last_index(stack@.len() as int, holds_screen(stack@, to)) == Some(
                k as int,
            ),
            None => crate::seqs::last_index(stack@.len() as int, holds_screen(stack@, to)) is None,
        },
{
    let ghost p = holds_screen(stack@, to);
    let n = stack.len();
    let mut i: usize = n;
    while i > 0
        invariant
            i <= n == stack@.len(),
            p == holds_screen(stack@, to),
            crate::seqs::last_index(n as int, p) == crate::seqs::last_index(i as int, p),
        decreases i,
    {
        if stack[i - 1] == to {
            assert(p(i - 1));
            return Some(i - 1);
        }
        assert(!p(i - 1));
        i = i - 1;
    }
    None
}

impl Nav {
    /// Shows a screen, remembering the current one to go back to.
    pub fn push_screen(&mut self, to: Screen)
        ensures
            (final(self).screen, final(self).stack@) == nav_push(old(self).screen, old(self).stack@, to),
            final(self).quit == old(self).quit,
    {
        if self.screen == to {
            return;
        }
        self.stack.push(self.screen);
        self.screen = to;
    }

    /// Goes to the previous screen (see `nav_back`).
    pub fn back(&mut self)
        ensures
            ({
                let (s, st, q) = nav_back(old(self).screen, old(self).stack@);
                &&& final(self).screen == s
                &&& final(self).stack@ == st
                &&& final(self).quit == (old(self).quit || q)
            }),
    {
        match self.stack.pop() {
            Some(previous) => {
                self.screen = previous;
            },
            None => {
                if self.screen == Screen::Search {
                    self.quit = true;
                } else {
                    self.screen = Screen::Search;
                }
            },
        }
    }

    /// Goes back to a screen (see `nav_return`).
    pub fn return_to(&mut self, to: Screen)
        ensures
            (final(self).screen, final(self).stack@) == nav_return(old(self).stack@, to),
            final(self).quit == old(self).quit,
    {
        let ghost st = self.stack@;
        match last_position(&self.stack, to) {
            Some(k) => {
                proof {
                    crate::seqs::lemma_last_index(st.len() as int, holds_screen(st, to));
                }
                self.stack.truncate(k);
                assert(self.stack@ =~= st.take(k as int));
            },
            None => {
                self.stack.clear();
            },
        }
        self.screen = to;
    }

    /// Whether a screen is on the stack.
    pub fn on_stack(&self, s: Screen) -> (r: bool)
        ensures
            r == self.stack@.contains(s),
    {
        match last_position(&self.stack, s) {
            Some(_) => {
                proof {
                    crate::seqs::lemma_last_index(self.stack@.len() as int, holds_screen(self.stack@, s));
                }
                true
            },
            None => {
                proof {
                    crate::seqs::lemma_last_index(self.stack@.len() as int, holds_screen(self.stack@, s));
                    if self.stack@.contains(s) {
                        let k = choose|k: int| 0 <= k < self.stack@.len() && self.stack@[k] == s;
                        assert(holds_screen(self.stack@, s)(k));
                    }
                }
                false
            },
        }
    }
}

impl Task {
    /// The screen a playback task returns to: the one recorded when it
    /// started, else the episode list.
    pub open spec fn return_spec(&self) -> Screen {
        match self.loading {
            Some(l) => l.return_screen,
            None => Screen::Episodes,
        }
    }

    /// The screen a playback task returns to (see `return_spec`).
    pub fn return_screen(&self) -> (r: Screen)
        ensures
            r == self.return_spec(),
    {
        match &self.loading {
            Some(l) => l.return_screen,
            None => Screen::Episodes,
        }
    }
}

/// `prefix`, the text, `suffix`.
pub(crate) fn framed(prefix: &str, text: &str, suffix: &str) -> (r: String)
    ensures
        r@ == prefix@ + text@ + suffix@,
{
    let mut s = String::from_str(prefix);
    push_str(&mut s, text);
    push_str(&mut s, suffix);
    s
}

/// `enabled` or `disabled`.
pub open spec fn enabled_word(b: bool) -> Seq<char> {
    if b {
        "enabled"@
    } else {
        "disabled"@
    }
}

impl UiState {
    /// The interface as it starts: on the search screen, with the
    /// configured mode, quality and options.
    pub fn new(config: AppConfig, host: PlayerHost) -> (r: Self)
        ensures
            r.nav.screen == Screen::Search,
            r.nav.stack@.len() == 0,
            !r.nav.quit,
            r.prefs.mode == config.mode,
            r.prefs.quality == config.quality,
            r.prefs.skip_intro == config.skip_intro,
            r.prefs.download_mode == config.download_mode,
            r.prefs.config == config,
            r.prefs.host == host,
            r.menus.language_index == mode_index(config.mode),
            r.status@ == "Type an anime title and press Enter."@,
            !r.task.running,
            r.task.loading is None,
            r.requests == (Requests { abort: false, persist: false }),
            r.anilist.auth.client_id == config.anilist_client_id,
            r.anilist.auth.access_token == config.anilist_token,
            r.anilist.entries@.len() == 0,
    {
        let language_index = mode_index_exec(config.mode);
        let anilist_client_id = crate::media::clone_opt(&config.anilist_client_id);
        let anilist_token = crate::media::clone_opt(&config.anilist_token);
        UiState {
            nav: Nav { screen: Screen::Search, stack: Vec::new(), quit: false },
            prefs: Prefs {
                host,
                mode: config.mode,
                quality: config.quality.clone(),
                skip_intro: config.skip_intro,
                download_mode: config.download_mode,
                config,
            },
            browse: Browse {
                query: String::new(),
                results: Vec::new(),
                result_index: 0,
                selected_show: None,
                episodes: Vec::new(),
                episode_index: 0,
                current_episode: None,
                links: Vec::new(),
                last_stream: None,
                history_entries: Vec::new(),
                history_index: 0,
                logs: String::new(),
                schedule: Vec::new(),
            },
            menus: Menus {
                quality_index: 0,
                language_index,
                settings_index: 0,
                active_setting: None,
                setting_option_index: 0,
                track_language_index: 0,
                iina_closed_index: 0,
            },
            task: Task {
                running: false,
                loading: None,
                pending_playback: None,
                track_language_choices: Vec::new(),
                iina_watch: None,
            },
            requests: Requests { abort: false, persist: false },
            anilist: AniListPanel::new(AniListAuth { client_id: anilist_client_id, access_token: anilist_token }),
            status: String::from_str("Type an anime title and press Enter."),
        }
    }

    /// Stops the playback task: it is asked to abort, and nothing it reports
    /// is followed any more.
    pub fn abort_playback_task(&mut self)
        ensures
            final(self).requests.abort == (old(self).requests.abort || old(self).task.running),
            final(self).requests.persist == old(self).requests.persist,
            !final(self).task.running,
            final(self).task.loading is None,
            final(self).task.pending_playback == old(self).task.pending_playback,
            final(self).task.track_language_choices == old(self).task.track_language_choices,
            final(self).task.iina_watch == old(self).task.iina_watch,
            final(self).nav == old(self).nav,
            final(self).prefs == old(self).prefs,
            final(self).browse == old(self).browse,
            final(self).menus == old(self).menus,
            final(self).status == old(self).status,
    {
        if self.task.running {
            self.requests.abort = true;
        }
        self.task.running = false;
        self.task.loading = None;
    }

    /// Forgets the playback task once it has reported its end.
    pub fn finish_playback_task(&mut self)
        ensures
            !final(self).task.running,
            final(self).task.loading is None,
            final(self).task.pending_playback == old(self).task.pending_playback,
            final(self).task.track_language_choices == old(self).task.track_language_choices,
            final(self).task.iina_watch == old(self).task.iina_watch,
            final(self).nav == old(self).nav,
            final(self).prefs == old(self).prefs,
            final(self).browse == old(self).browse,
            final(self).menus == old(self).menus,
            final(self).requests == old(self).requests,
            final(self).status == old(self).status,
    {
        self.task.running = false;
        self.task.loading = None;
    }

    /// Cancels loading: the task is stopped and the interface returns to
    /// where loading started.
    pub fn cancel_loading(&mut self)
        ensures
            final(self).nav.screen == old(self).task.return_spec(),
            final(self).nav.stack == old(self).nav.stack,
            final(self).nav.quit == old(self).nav.quit,
            final(self).status@ == "Episode loading cancelled."@,
            !final(self).task.running,
            final(self).task.loading is None,
            final(self).requests.abort == (old(self).requests.abort || old(self).task.running),
            final(self).requests.persist == old(self).requests.persist,
            final(self).prefs == old(self).prefs,
            final(self).browse == old(self).browse,
            final(self).menus == old(self).menus,
    {
        let return_screen = self.task.return_screen();
        self.abort_playback_task();
        self.nav.screen = return_screen;
        self.status = String::from_str("Episode loading cancelled.");
    }

    /// Tidies up after leaving a screen: a pending track-language choice is
    /// dropped, loading is cancelled, an open setting is closed.
    pub fn cleanup_screen(&mut self, screen: Screen)
        ensures
            screen == Screen::TrackLanguage ==> {
                &&& final(self).task.pending_playback is None
                &&& final(self).task.track_language_choices@.len() == 0
                &&& final(self).status@ == "Track language selection cancelled."@
                &&& final(self).nav == old(self).nav
            },
            screen == Screen::Loading ==> {
                &&& final(self).nav.screen == old(self).task.return_spec()
                &&& final(self).status@ == "Episode loading cancelled."@
                &&& !final(self).task.running
                &&& final(self).requests.abort == (old(self).requests.abort || old(self).task.running)
            },
            screen == Screen::SettingOptions ==> {
                &&& final(self).menus.active_setting is None
                &&& final(self).menus.setting_option_index == 0
                &&& final(self).nav == old(self).nav
                &&& final(self).status == old(self).status
            },
            screen != Screen::TrackLanguage && screen != Screen::Loading && screen
                != Screen::SettingOptions ==> *final(self) == *old(self),
            final(self).nav.stack == old(self).nav.stack,
            final(self).nav.quit == old(self).nav.quit,
            final(self).prefs == old(self).prefs,
            final(self).browse == old(self).browse,
            final(self).requests.persist == old(self).requests.persist,
    {
        if screen == Screen::TrackLanguage {
            self.task.pending_playback = None;
            self.task.track_language_choices.clear();
            self.status = String::from_str("Track language selection cancelled.");
        } else if screen == Screen::Loading {
            self.cancel_loading();
        } else if screen == Screen::SettingOptions {
            self.menus.active_setting = None;
            self.menus.setting_option_index = 0;
        }
    }

    /// The screen shown once the screen being left is tidied up.
    pub open spec fn after_cleanup(&self) -> Screen {
        if self.nav.screen == Screen::Loading {
            self.task.return_spec()
        } else {
            self.nav.screen
        }
    }

    /// Leaves the current screen for the previous one (see `nav_back`).
    pub fn go_back(&mut self)
        ensures
            ({
                let (s, st, q) = nav_back(old(self).after_cleanup(), old(self).nav.stack@);
                &&& final(self).nav.screen == s
                &&& final(self).nav.stack@ == st
                &&& final(self).nav.quit == (old(self).nav.quit || q)
            }),
            old(self).nav.screen == Screen::SettingOptions ==> final(self).menus.active_setting is None
                && final(self).menus.setting_option_index == 0,
            plain_to_leave(old(self).nav.screen) ==> *final(self) == with_nav(*old(self), final(self).nav),
            final(self).prefs == old(self).prefs,
            final(self).browse == old(self).browse,
            final(self).requests.persist == old(self).requests.persist,
    {
        let leaving = self.nav.screen;
        self.cleanup_screen(leaving);
        self.nav.back();
    }

    /// Goes back to a screen (see `nav_return`).
    pub fn return_to_screen(&mut self, to: Screen)
        ensures
            (final(self).nav.screen, final(self).nav.stack@) == nav_return(old(self).nav.stack@, to),
            final(self).nav.quit == old(self).nav.quit,
            final(self).prefs == old(self).prefs,
            final(self).browse == old(self).browse,
            final(self).requests.persist == old(self).requests.persist,
    {
        let leaving = self.nav.screen;
        self.cleanup_screen(leaving);
        self.nav.return_to(to);
    }

    /// Drops everything pending and shows the search screen with nothing to
    /// go back to.
    pub fn reset_to_search(&mut self)
        ensures
            final(self).nav.screen == Screen::Search,
            final(self).nav.stack@.len() == 0,
            final(self).nav.quit == old(self).nav.quit,
            final(self).task.pending_playback is None,
            final(self).task.track_language_choices@.len() == 0,
            final(self).task.iina_watch is None,
            final(self).prefs == old(self).prefs,
            final(self).browse == old(self).browse,
            final(self).requests == old(self).requests,
            final(self).status == old(self).status,
    {
        self.task.pending_playback = None;
        self.task.track_language_choices.clear();
        self.task.iina_watch = None;
        self.nav.stack.clear();
        self.nav.screen = Screen::Search;
    }

    /// Sets the translation mode. A new mode drops what was found for the
    /// old one. The settings are saved either way.
    pub fn set_mode(&mut self, mode: TranslationMode)
        ensures
            final(self).prefs.mode == mode,
            mode != old(self).prefs.mode ==> final(self).prefs.config.mode == mode,
            mode == old(self).prefs.mode ==> final(self).prefs == old(self).prefs,
            final(self).prefs.quality == old(self).prefs.quality,
            final(self).prefs.skip_intro == old(self).prefs.skip_intro,
            final(self).prefs.download_mode == old(self).prefs.download_mode,
            final(self).requests.persist,
            final(self).requests.abort == old(self).requests.abort,
            mode != old(self).prefs.mode ==> {
                &&& final(self).browse.results@.len() == 0
                &&& final(self).browse.episodes@.len() == 0
                &&& final(self).browse.links@.len() == 0
                &&& final(self).browse.selected_show is None
                &&& final(self).browse.current_episode is None
                &&& final(self).browse.last_stream is None
                &&& final(self).task.pending_playback is None
                &&& final(self).task.track_language_choices@.len() == 0
                &&& final(self).task.iina_watch is None
                &&& final(self).status@ == "Language set to "@ + mode.name_spec()
                    + ". Search again for matching results."@
            },
            mode == old(self).prefs.mode ==> {
                &&& final(self).status@ == "Language remains "@ + mode.name_spec() + "."@
                &&& final(self).browse == old(self).browse
                &&& final(self).task == old(self).task
            },
            final(self).nav == old(self).nav,
            final(self).menus == old(self).menus,
    {
        if mode != self.prefs.mode {
            self.prefs.mode = mode;
            self.prefs.config.mode = mode;
            self.browse.results.clear();
            self.browse.episodes.clear();
            self.browse.links.clear();
            self.browse.selected_show = None;
            self.browse.current_episode = None;
            self.browse.last_stream = None;
            self.task.pending_playback = None;
            self.task.track_language_choices.clear();
            self.task.iina_watch = None;
            self.status = framed(
                "Language set to ",
                mode.as_allanime(),
                ". Search again for matching results.",
            );
        } else {
            self.status = framed("Language remains ", mode.as_allanime(), ".");
        }
        self.requests.persist = true;
    }

    /// Sets the quality preference and saves the settings.
    pub fn set_quality(&mut self, quality: QualityPreference)
        ensures
            final(self).prefs.quality == quality,
            final(self).prefs.config.quality == quality,
            final(self).prefs.mode == old(self).prefs.mode,
            final(self).prefs.skip_intro == old(self).prefs.skip_intro,
            final(self).prefs.download_mode == old(self).prefs.download_mode,
            final(self).status@ == "Quality set to "@ + quality.label_spec() + "."@,
            final(self).requests.persist,
            final(self).requests.abort == old(self).requests.abort,
            final(self).nav == old(self).nav,
            final(self).browse == old(self).browse,
            final(self).menus == old(self).menus,
            final(self).task == old(self).task,
    {
        self.prefs.config.quality = quality.clone();
        self.status = framed("Quality set to ", quality.label(), ".");
        self.prefs.quality = quality;
        self.requests.persist = true;
    }

    /// Turns download mode on or off and saves the settings.
    pub fn set_download_mode(&mut self, enabled: bool)
        ensures
            *final(self) == (UiState {
                prefs: Prefs {
                    download_mode: enabled,
                    config: AppConfig { download_mode: enabled, ..old(self).prefs.config },
                    ..old(self).prefs
                },
                requests: Requests { persist: true, ..old(self).requests },
                status: final(self).status,
                ..*old(self)
            }),
            final(self).prefs.download_mode == enabled,
            final(self).prefs.config.download_mode == enabled,
            final(self).prefs.mode == old(self).prefs.mode,
            final(self).prefs.quality == old(self).prefs.quality,
            final(self).prefs.skip_intro == old(self).prefs.skip_intro,
            final(self).status@ == "Download mode "@ + enabled_word(enabled) + "."@,
            final(self).requests.persist,
            final(self).requests.abort == old(self).requests.abort,
            final(self).nav == old(self).nav,
            final(self).browse == old(self).browse,
            final(self).menus == old(self).menus,
            final(self).task == old(self).task,
    {
        self.prefs.download_mode = enabled;
        self.prefs.config.download_mode = enabled;
        self.status = framed("Download mode ", if enabled { "enabled" } else { "disabled" }, ".");
        self.requests.persist = true;
    }

    /// Turns AniSkip on or off and saves the settings.
    pub fn set_skip_intro(&mut self, enabled: bool)
        ensures
            *final(self) == (UiState {
                prefs: Prefs {
                    skip_intro: enabled,
                    config: AppConfig { skip_intro: enabled, ..old(self).prefs.config },
                    ..old(self).prefs
                },
                requests: Requests { persist: true, ..old(self).requests },
                status: final(self).status,
                ..*old(self)
            }),
            final(self).prefs.skip_intro == enabled,
            final(self).prefs.config.skip_intro == enabled,
            final(self).prefs.mode == old(self).prefs.mode,
            final(self).prefs.quality == old(self).prefs.quality,
            final(self).prefs.download_mode == old(self).prefs.download_mode,
            final(self).status@ == "AniSkip "@ + enabled_word(enabled) + "."@,
            final(self).requests.persist,
            final(self).requests.abort == old(self).requests.abort,
            final(self).nav == old(self).nav,
            final(self).browse == old(self).browse,
            final(self).menus == old(self).menus,
            final(self).task == old(self).task,
    {
        self.prefs.skip_intro = enabled;
        self.prefs.config.skip_intro = enabled;
        self.status = framed("AniSkip ", if enabled { "enabled" } else { "disabled" }, ".");
        self.requests.persist = true;
    }

    /// Reports that saving the settings failed, after the current status.
    pub fn settings_not_saved(&mut self, error: &str)
        ensures
            final(self).status@ == old(self).status@ + " Settings changed but could not be saved: "@
                + error@,
            final(self).nav == old(self).nav,
    {
        push_str(&mut self.status, " Settings changed but could not be saved: ");
        push_str(&mut self.status, error);
    }

    /// The option selected when a setting is opened: the current value.
    pub open spec fn current_option_spec(&self, choice: SettingChoice) -> usize {
        match choice {
            SettingChoice::Language => mode_index(self.prefs.mode),
            SettingChoice::Quality => quality_index_of(self.prefs.quality.model()),
            SettingChoice::DownloadMode => if self.prefs.download_mode {
                1
            } else {
                0
            },
            SettingChoice::AniSkip => if self.prefs.skip_intro {
                1
            } else {
                0
            },
        }
    }

    /// The option selected when a setting is opened.
    pub fn current_setting_option_index(&self, choice: SettingChoice) -> (r: usize)
        ensures
            r == self.current_option_spec(choice),
            r < option_count_spec(choice),
    {
        match choice {
            SettingChoice::Language => mode_index_exec(self.prefs.mode),
            SettingChoice::Quality => quality_index_exec(&self.prefs.quality),
            SettingChoice::DownloadMode => if self.prefs.download_mode {
                1
            } else {
                0
            },
            SettingChoice::AniSkip => if self.prefs.skip_intro {
                1
            } else {
                0
            },
        }
    }

    /// Shows the help screen.
    pub fn show_help(&mut self)
        ensures
            (final(self).nav.screen, final(self).nav.stack@) == nav_push(
                old(self).nav.screen,
                old(self).nav.stack@,
                Screen::Help,
            ),
            final(self).nav.quit == old(self).nav.quit,
            *final(self) == with_nav(*old(self), final(self).nav),
    {
        self.nav.push_screen(Screen::Help);
    }

    /// Shows the settings screen: nothing changes when it is shown, the
    /// interface goes back to it when it is on the stack, else it is shown
    /// on top with its first entry selected.
    pub fn show_settings(&mut self)
        ensures
            old(self).nav.screen == Screen::Settings ==> final(self).nav == old(self).nav,
            old(self).nav.screen != Screen::Settings && old(self).nav.stack@.contains(
                Screen::Settings,
            ) ==> (final(self).nav.screen, final(self).nav.stack@) == nav_return(
                old(self).nav.stack@,
                Screen::Settings,
            ),
            old(self).nav.screen != Screen::Settings && !old(self).nav.stack@.contains(
                Screen::Settings,
            ) ==> final(self).menus.settings_index == 0 && (final(self).nav.screen, final(self).nav.stack@) == nav_push(old(self).nav.screen, old(self).nav.stack@, Screen::Settings)
                && *final(self) == (UiState { nav: final(self).nav, menus: Menus { settings_index: 0, ..old(self).menus }, ..*old(self) }),
            old(self).nav.screen == Screen::Settings ==> *final(self) == *old(self),
            final(self).nav.quit == old(self).nav.quit,
            final(self).prefs == old(self).prefs,
            final(self).browse == old(self).browse,
    {
        if self.nav.screen == Screen::Settings {
            return;
        }
        if self.nav.on_stack(Screen::Settings) {
            self.return_to_screen(Screen::Settings);
            return;
        }
        self.menus.settings_index = 0;
        self.nav.push_screen(Screen::Settings);
    }

    /// Opens a setting with its current value selected.
    pub fn show_setting_options(&mut self, choice: SettingChoice)
        ensures
            final(self).menus.active_setting == Some(choice),
            final(self).menus.setting_option_index == old(self).current_option_spec(choice),
            (final(self).nav.screen, final(self).nav.stack@) == nav_push(
                old(self).nav.screen,
                old(self).nav.stack@,
                Screen::SettingOptions,
            ),
            final(self).nav.quit == old(self).nav.quit,
            final(self).prefs == old(self).prefs,
    {
        self.menus.active_setting = Some(choice);
        self.menus.setting_option_index = self.current_setting_option_index(choice);
        self.nav.push_screen(Screen::SettingOptions);
    }

    /// Shows the language menu with the current mode selected.
    pub fn show_language(&mut self)
        ensures
            final(self).menus.language_index == mode_index(old(self).prefs.mode),
            (final(self).nav.screen, final(self).nav.stack@) == nav_push(
                old(self).nav.screen,
                old(self).nav.stack@,
                Screen::Language,
            ),
            final(self).nav.quit == old(self).nav.quit,
            *final(self) == (UiState { nav: final(self).nav, menus: Menus { language_index: final(self).menus.language_index, ..old(self).menus }, ..*old(self) }),
    {
        self.menus.language_index = mode_index_exec(self.prefs.mode);
        self.nav.push_screen(Screen::Language);
    }

    /// Shows the quality menu with the current quality selected.
    pub fn show_quality(&mut self)
        ensures
            final(self).menus.quality_index == quality_index_of(old(self).prefs.quality.model()),
            (final(self).nav.screen, final(self).nav.stack@) == nav_push(
                old(self).nav.screen,
                old(self).nav.stack@,
                Screen::Quality,
            ),
            final(self).nav.quit == old(self).nav.quit,
            *final(self) == (UiState { nav: final(self).nav, menus: Menus { quality_index: final(self).menus.quality_index, ..old(self).menus }, ..*old(self) }),
    {
        self.menus.quality_index = quality_index_exec(&self.prefs.quality);
        self.nav.push_screen(Screen::Quality);
    }

    /// Applies the selected option of the open setting, then goes back. A
    /// new language leaves the search and settings screens to go back to.
    pub fn apply_setting_option(&mut self)
        ensures
            apply_option_post(*old(self), *final(self)),
    {
        let choice = match self.menus.active_setting {
            Some(c) => c,
            None => return,
        };
        match choice {
            SettingChoice::Language => {
                let choices = language_choices();
                let selected = if self.menus.setting_option_index < choices.len() {
                    choices[self.menus.setting_option_index]
                } else {
                    TranslationMode::Sub
                };
                let changed = selected != self.prefs.mode;
                self.set_mode(selected);
                if changed {
                    self.nav.stack.clear();
                    self.nav.stack.push(Screen::Search);
                    self.nav.stack.push(Screen::Settings);
                }
            },
            SettingChoice::Quality => {
                let choices = quality_choices();
                assert(choices@.len() == quality_models(choices@).len());
                let selected = if self.menus.setting_option_index < choices.len() {
                    assert(choices@[self.menus.setting_option_index as int].model()
                        == quality_menu()[self.menus.setting_option_index as int]);
                    choices[self.menus.setting_option_index].clone()
                } else {
                    QualityPreference::Best
                };
                self.set_quality(selected);
            },
            SettingChoice::DownloadMode => {
                let on = self.menus.setting_option_index == 1;
                self.set_download_mode(on);
            },
            SettingChoice::AniSkip => {
                let on = self.menus.setting_option_index == 1;
                self.set_skip_intro(on);
            },
        }
        self.go_back();
    }
}

// ---------------------------------------------------------------------
// Starting playback
// ---------------------------------------------------------------------

/// A request to load an episode's sources and play it.
#[derive(Debug)]
pub struct LoadEpisodeRequest {
    pub show: AnimeSearchResult,
    pub episode: String,
    pub mode: TranslationMode,
    pub quality: QualityPreference,
    pub filter_soft_subs: bool,
    pub playback_config: AppConfig,
    pub skip_intro: bool,
    pub return_screen: Screen,
}

/// A request to play a chosen stream of an episode.
#[derive(Debug)]
pub struct LaunchEpisodeRequest {
    pub show: AnimeSearchResult,
    pub episode: String,
    pub links: Vec<StreamLink>,
    pub selected: SelectedStream,
    pub playback_config: AppConfig,
    pub skip_intro: bool,
    pub return_screen: Screen,
}

/// Work the interface hands to its caller.
#[derive(Debug)]
pub enum Effect {
    /// Nothing to do.
    Nothing,
    /// Search AllAnime for the query, then call `search_finished`.
    Search(String),
    /// Fetch the show's episodes, then call `episodes_fetched`.
    FetchEpisodes(AnimeSearchResult),
    /// Run a playback task that loads the episode's sources.
    LoadEpisode(LoadEpisodeRequest),
    /// Run a playback task that plays the chosen stream.
    LaunchEpisode(LaunchEpisodeRequest),
    /// Read the history, then call `history_loaded`.
    ShowHistory,
    /// Fetch the entry's episodes, then call `continue_history_with`.
    ContinueHistory(HistoryEntry),
    /// Delete the history, then call `history_cleared`.
    ClearHistory,
    /// Install the IINA plugin, then call `plugin_installed`.
    InstallPlugin,
    /// Read the system log, then call `logs_loaded`.
    ShowLogs,
    /// Fetch the release schedule for the query, then call `schedule_loaded`.
    FetchSchedule(String),
    /// Fetch the user's AniList lists with the access token, then call
    /// `anilist_lists_loaded`.
    FetchAniListLists(String),
    /// Open the AniList login page at the URL in the browser.
    OpenAniListLogin(String),
    /// Save the AniList login, then fetch the lists with its token and call
    /// `anilist_lists_loaded`.
    SaveAniListLogin(AniListAuth),
    /// The interface cannot go on: the message says why.
    Fail(String),
}

/// The configuration a playback starts with: the current quality, and the
/// download player when download mode is on (an automatic player when it is
/// off but the download player was configured).
pub open spec fn playback_config_spec(prefs: Prefs, r: AppConfig) -> bool {
    &&& r.quality == prefs.quality
    &&& r.mode == prefs.config.mode
    &&& r.download_dir == prefs.config.download_dir
    &&& r.no_detach == prefs.config.no_detach
    &&& r.exit_after_play == prefs.config.exit_after_play
    &&& r.log_episode == prefs.config.log_episode
    &&& r.skip_title == prefs.config.skip_title
    &&& r.player == (if prefs.download_mode {
        PlayerChoice::Download
    } else if prefs.config.player is Download {
        PlayerChoice::Auto
    } else {
        prefs.config.player
    })
}

impl UiState {
    fn playback_config(&self) -> (r: AppConfig)
        ensures
            playback_config_spec(self.prefs, r),
    {
        let mut c = self.prefs.config.clone();
        c.quality = self.prefs.quality.clone();
        if self.prefs.download_mode {
            c.player = PlayerChoice::Download;
        } else {
            match c.player {
                PlayerChoice::Download => {
                    c.player = PlayerChoice::Auto;
                },
                _ => {},
            }
        }
        c
    }

    /// Shows the loading screen for a new playback task.
    pub fn start_loading(&mut self, return_screen: Screen, title: &str, subject: String, detail: &str)
        ensures
            final(self).nav.screen == Screen::Loading,
            final(self).nav.stack == old(self).nav.stack,
            final(self).nav.quit == old(self).nav.quit,
            final(self).task.loading matches Some(l) && l.title@ == title@ && l.subject == subject
                && l.detail@ == detail@ && l.stage == 1 && l.total_stages == PLAYBACK_STAGES
                && views(l.notes@) == seq![detail@] && l.return_screen == return_screen,
            final(self).task.running == old(self).task.running,
            final(self).task.iina_watch == old(self).task.iina_watch,
            final(self).task.pending_playback == old(self).task.pending_playback,
            final(self).task.track_language_choices == old(self).task.track_language_choices,
            final(self).prefs == old(self).prefs,
            final(self).browse == old(self).browse,
            final(self).menus == old(self).menus,
            final(self).requests == old(self).requests,
            final(self).status == old(self).status,
    {
        let mut notes: Vec<String> = Vec::new();
        notes.push(String::from_str(detail));
        assert(views(notes@) =~= seq![detail@]);
        self.task.loading = Some(LoadingView {
            title: String::from_str(title),
            subject,
            detail: String::from_str(detail),
            stage: 1,
            total_stages: PLAYBACK_STAGES,
            notes,
            return_screen,
        });
        self.nav.screen = Screen::Loading;
    }

    /// Starts loading and playing an episode of the selected show: the
    /// previous task is stopped, soft subtitles are filtered for VLC unless
    /// downloading, and the loading screen returns to the player screen when
    /// started from it, else to the episode list. Without a selected show
    /// it fails with `no anime selected`.
    pub fn begin_play_episode(&mut self, episode: String) -> (r: Result<Effect, String>)
        ensures
            old(self).browse.selected_show is None ==> (r matches Err(m) && m@ == "no anime selected"@
                && final(self).nav == old(self).nav),
            old(self).browse.selected_show matches Some(show) ==> {
                let rs = if old(self).nav.screen == Screen::Playing {
                    Screen::Playing
                } else {
                    Screen::Episodes
                };
                &&& r matches Ok(Effect::LoadEpisode(req))
                &&& req.show == show
                &&& req.episode == episode
                &&& req.mode == old(self).prefs.mode
                &&& req.quality == old(self).prefs.quality
                &&& req.skip_intro == old(self).prefs.skip_intro
                &&& req.return_screen == rs
                &&& req.filter_soft_subs == (!old(self).prefs.download_mode && default_player_spec(
                    old(self).prefs.config.player.view_choice(),
                    old(self).prefs.host,
                ) is Vlc)
                &&& playback_config_spec(old(self).prefs, req.playback_config)
                &&& final(self).nav.screen == Screen::Loading
                &&& final(self).nav.stack == old(self).nav.stack
                &&& final(self).task.running
                &&& final(self).task.iina_watch is None
                &&& final(self).task.loading matches Some(l) && l.return_screen == rs && l.subject@
                    == episode_summary_spec(show, episode@)
                &&& final(self).status@ == "Loading "@ + episode_summary_spec(show, episode@)
                    + ". The stream providers are being checked in parallel."@
                &&& final(self).requests.abort == (old(self).requests.abort || old(self).task.running)
            },
            final(self).prefs == old(self).prefs,
            final(self).browse == old(self).browse,
            final(self).nav.quit == old(self).nav.quit,
    {
        let show = match &self.browse.selected_show {
            Some(s) => s.clone(),
            None => return Err(String::from_str("no anime selected")),
        };
        let player = default_player(&self.prefs.config.player, self.prefs.host);
        let is_vlc = match player {
            PlayerKind::Vlc(_) => true,
            _ => false,
        };
        let filter_soft_subs = !self.prefs.download_mode && is_vlc;
        let playback_config = self.playback_config();
        let return_screen = if self.nav.screen == Screen::Playing {
            Screen::Playing
        } else {
            Screen::Episodes
        };
        self.task.iina_watch = None;
        self.abort_playback_task();
        self.task.running = true;
        let summary = episode_summary(&show, episode.as_str());
        self.start_loading(
            return_screen,
            "Loading Episode",
            summary.clone(),
            "Requesting episode source list from AllAnime.",
        );
        self.status = framed("Loading ", summary.as_str(), ". The stream providers are being checked in parallel.");
        Ok(Effect::LoadEpisode(LoadEpisodeRequest {
            show,
            episode,
            mode: self.prefs.mode,
            quality: self.prefs.quality.clone(),
            filter_soft_subs,
            playback_config,
            skip_intro: self.prefs.skip_intro,
            return_screen,
        }))
    }

    /// Starts playing a chosen stream: the previous task is stopped and the
    /// loading screen returns to `return_screen` (the episode list for the
    /// track-language screen).
    pub fn begin_launch_episode(
        &mut self,
        show: AnimeSearchResult,
        episode: String,
        links: Vec<StreamLink>,
        selected: SelectedStream,
        playback_config: AppConfig,
        return_screen: Screen,
    ) -> (r: Effect)
        ensures
            ({
                let rs = if return_screen == Screen::TrackLanguage {
                    Screen::Episodes
                } else {
                    return_screen
                };
                &&& r matches Effect::LaunchEpisode(req)
                &&& req.show == show
                &&& req.episode == episode
                &&& req.links == links
                &&& req.selected == selected
                &&& req.playback_config == playback_config
                &&& req.skip_intro == old(self).prefs.skip_intro
                &&& req.return_screen == rs
                &&& final(self).nav.screen == Screen::Loading
                &&& final(self).task.loading matches Some(l) && l.return_screen == rs
                &&& final(self).status@ == "Preparing "@ + episode_summary_spec(show, episode@)
                    + " for playback."@
            }),
            final(self).task.running,
            final(self).task.iina_watch is None,
            final(self).task.pending_playback == old(self).task.pending_playback,
            final(self).task.track_language_choices == old(self).task.track_language_choices,
            final(self).nav.stack == old(self).nav.stack,
            final(self).nav.quit == old(self).nav.quit,
            final(self).prefs == old(self).prefs,
            final(self).browse == old(self).browse,
            final(self).menus == old(self).menus,
            final(self).requests.abort == (old(self).requests.abort || old(self).task.running),
    {
        self.abort_playback_task();
        self.task.iina_watch = None;
        self.task.running = true;
        let return_screen = if return_screen == Screen::TrackLanguage {
            Screen::Episodes
        } else {
            return_screen
        };
        let summary = episode_summary(&show, episode.as_str());
        self.start_loading(
            return_screen,
            "Starting Player",
            summary.clone(),
            "Preparing the selected stream for playback.",
        );
        self.status = framed("Preparing ", summary.as_str(), " for playback.");
        Effect::LaunchEpisode(LaunchEpisodeRequest {
            show,
            episode,
            links,
            selected,
            playback_config,
            skip_intro: self.prefs.skip_intro,
            return_screen,
        })
    }

    /// Plays the last stream in IINA again, without fetching sources.
    pub fn reopen_iina(&mut self) -> (r: Result<Effect, String>)
        ensures
            reopen_iina_post(*old(self), *final(self), r),
    {
        let show = match &self.browse.selected_show {
            Some(s) => s.clone(),
            None => return Err(String::from_str("no anime selected")),
        };
        let episode = match &self.browse.current_episode {
            Some(e) => e.clone(),
            None => return Err(String::from_str("no episode is currently selected")),
        };
        let selected = match &self.browse.last_stream {
            Some(s) => s.clone(),
            None => return Err(String::from_str("no previous stream is available")),
        };
        let mut playback_config = self.prefs.config.clone();
        playback_config.quality = self.prefs.quality.clone();
        playback_config.player = PlayerChoice::Iina;
        self.task.iina_watch = None;
        let links = self.browse.links.clone();
        Ok(self.begin_launch_episode(show, episode, links, selected, playback_config, Screen::Playing))
    }
}

// ---------------------------------------------------------------------
// Keys
// ---------------------------------------------------------------------

/// A key press, as the interface tells keys apart.
#[derive(Debug, Clone, Copy, PartialEq, Eq, Structural)]
pub enum Key {
    /// Control-C.
    CtrlC,
    Char(char),
    Enter,
    Esc,
    Up,
    Down,
    Right,
    Backspace,
    /// A function key by its number.
    F(u8),
    Other,
}

/// One up in a list: towards the first entry, stopping there.
pub open spec fn step_up(i: usize) -> usize {
    if i == 0 {
        0
    } else {
        (i - 1) as usize
    }
}

/// One down in a list of `len` entries: towards the last entry, stopping there.
pub open spec fn step_down(i: usize, len: usize) -> usize {
    let last: int = if len == 0 {
        0
    } else {
        len - 1
    };
    if i + 1 < last {
        (i + 1) as usize
    } else {
        last as usize
    }
}

fn up(i: usize) -> (r: usize)
    ensures
        r == step_up(i),
{
    if i == 0 {
        0
    } else {
        i - 1
    }
}

fn down(i: usize, len: usize) -> (r: usize)
    ensures
        r == step_down(i, len),
{
    let last = if len == 0 {
        0
    } else {
        len - 1
    };
    if i < last && i + 1 < last {
        i + 1
    } else {
        last
    }
}

/// The screens where characters are typed as text.
pub open spec fn takes_text(screen: Screen) -> bool {
    screen == Screen::Search || screen == Screen::AniListLogin
}

/// Single-key shortcuts work on every screen but those where characters
/// are typed as text.
pub open spec fn shortcuts_spec(screen: Screen) -> bool {
    !takes_text(screen)
}

impl UiState {
    /// Whether single-key shortcuts work on the current screen.
    pub fn single_key_shortcuts_enabled(&self) -> (r: bool)
        ensures
            r == shortcuts_spec(self.nav.screen),
    {
        !(self.nav.screen == Screen::Search || self.nav.screen == Screen::AniListLogin)
    }

    /// The search screen: Enter searches, Backspace deletes, characters type.
    pub fn handle_search_key(&mut self, key: Key) -> (r: Effect)
        ensures
            search_key_post(*old(self), *final(self), key, r),
    {
        match key {
            Key::Enter => {
                let q = trim(self.browse.query.as_str());
                if q.as_str().is_empty() {
                    self.status = String::from_str("Search query is empty.");
                    return Effect::Nothing;
                }
                self.status = framed("Searching AllAnime for \"", q.as_str(), "\"...");
                Effect::Search(q)
            },
            Key::Backspace => {
                pop_char(&mut self.browse.query);
                Effect::Nothing
            },
            Key::Char(c) => {
                crate::text::push_char(&mut self.browse.query, c);
                Effect::Nothing
            },
            _ => Effect::Nothing,
        }
    }

    /// The results screen: Up and Down move, Enter opens the show, `/` goes
    /// back to the search.
    pub fn handle_results_key(&mut self, key: Key) -> (r: Effect)
        ensures
            results_key_post(*old(self), *final(self), key, r),
    {
        match key {
            Key::Up => {
                self.browse.result_index = up(self.browse.result_index);
                Effect::Nothing
            },
            Key::Down => {
                self.browse.result_index = down(self.browse.result_index, self.browse.results.len());
                Effect::Nothing
            },
            Key::Enter => {
                if self.browse.result_index < self.browse.results.len() {
                    let show = self.browse.results[self.browse.result_index].clone();
                    self.status = framed("Fetching episodes for ", show.title.as_str(), "...");
                    Effect::FetchEpisodes(show)
                } else {
                    Effect::Fail(String::from_str("no anime result selected"))
                }
            },
            Key::Char('/') => {
                self.return_to_screen(Screen::Search);
                Effect::Nothing
            },
            _ => Effect::Nothing,
        }
    }

    /// Plays an episode, reporting a failure to start in the status.
    fn play_or_report(&mut self, episode: String) -> (r: Effect)
        ensures
            old(self).browse.selected_show is None ==> r is Nothing && final(self).status@
                == "no anime selected"@ && final(self).nav == old(self).nav,
            old(self).browse.selected_show is Some ==> starts_loading(*old(self), *final(self), r, episode@),
            old(self).browse.selected_show is Some ==> (r matches Effect::LoadEpisode(req) && req.episode == episode),
            final(self).prefs == old(self).prefs,
            final(self).browse == old(self).browse,
            final(self).nav.quit == old(self).nav.quit,
    {
        match self.begin_play_episode(episode) {
            Ok(e) => e,
            Err(m) => {
                self.status = m;
                Effect::Nothing
            },
        }
    }

    /// The episode list: Up moves to the next entry and Down to the previous
    /// one, each wrapping around; Enter plays the selected episode; `N`
    /// fetches the release schedule.
    pub fn handle_episodes_key(&mut self, key: Key) -> (r: Effect)
        ensures
            episodes_key_post(*old(self), *final(self), key, r),
    {
        match key {
            Key::Up => {
                let n = self.browse.episodes.len();
                if n > 0 {
                    self.browse.episode_index = if self.browse.episode_index == n - 1 {
                        0
                    } else {
                        if self.browse.episode_index < usize::MAX {
                            self.browse.episode_index + 1
                        } else {
                            0
                        }
                    };
                }
                Effect::Nothing
            },
            Key::Down => {
                let n = self.browse.episodes.len();
                if n > 0 {
                    self.browse.episode_index = if self.browse.episode_index == 0 {
                        n - 1
                    } else {
                        self.browse.episode_index - 1
                    };
                }
                Effect::Nothing
            },
            Key::Enter => {
                if self.browse.episode_index < self.browse.episodes.len() {
                    let ep = self.browse.episodes[self.browse.episode_index].clone();
                    self.play_or_report(ep)
                } else {
                    Effect::Nothing
                }
            },
            Key::Char('N') => {
                let q = match &self.browse.selected_show {
                    Some(s) => s.title.clone(),
                    None => self.browse.query.clone(),
                };
                self.status = framed("Fetching next episode schedule for ", q.as_str(), "...");
                Effect::FetchSchedule(q)
            },
            _ => Effect::Nothing,
        }
    }
}

/// Removes the last character of a string, if any.
fn pop_char(s: &mut String)
    ensures
        final(s)@ == (if old(s)@.len() > 0 {
            old(s)@.drop_last()
        } else {
            old(s)@
        }),
{
    let v = crate::text::chars_of(s.as_str());
    if v.len() > 0 {
        *s = crate::text::string_of_range(&v, 0, v.len() - 1);
        assert(v@.subrange(0, v.len() - 1) =~= v@.drop_last());
    }
}

impl UiState {
    /// The player screen: `n` and `p` play the next and previous episode
    /// (or say there is none), `r` plays the current one again, `e` goes
    /// back to the episode list, `q` quits.
    pub fn handle_playing_key(&mut self, key: Key) -> (r: Effect)
        ensures
            playing_key_post(*old(self), *final(self), key, r),
    {
        match key {
            Key::Char('n') => {
                let current = match &self.browse.current_episode {
                    Some(c) => c.clone(),
                    None => return Effect::Nothing,
                };
                let next = match next_episode(self.browse.episodes.as_slice(), current.as_str()) {
                    Some(n) => String::from_str(n),
                    None => {
                        self.status = String::from_str("Out of range: no next episode.");
                        return Effect::Nothing;
                    },
                };
                self.play_or_report(next)
            },
            Key::Char('p') => {
                let current = match &self.browse.current_episode {
                    Some(c) => c.clone(),
                    None => return Effect::Nothing,
                };
                let previous = match previous_episode(self.browse.episodes.as_slice(), current.as_str()) {
                    Some(p) => String::from_str(p),
                    None => {
                        self.status = String::from_str("Out of range: no previous episode.");
                        return Effect::Nothing;
                    },
                };
                self.play_or_report(previous)
            },
            Key::Char('r') => {
                let current = match &self.browse.current_episode {
                    Some(c) => c.clone(),
                    None => return Effect::Nothing,
                };
                self.play_or_report(current)
            },
            Key::Char('e') => {
                self.return_to_screen(Screen::Episodes);
                Effect::Nothing
            },
            Key::Char('q') => {
                self.nav.quit = true;
                Effect::Nothing
            },
            _ => Effect::Nothing,
        }
    }

    /// Plays the episode after the current one once IINA has closed.
    pub fn play_next_after_iina_closed(&mut self) -> (r: Result<Effect, String>)
        ensures
            play_next_post(*old(self), *final(self), r),
    {
        let current = match &self.browse.current_episode {
            Some(c) => c.clone(),
            None => return Err(String::from_str("no episode is currently selected")),
        };
        let next = match next_episode(self.browse.episodes.as_slice(), current.as_str()) {
            Some(n) => String::from_str(n),
            None => return Err(String::from_str("out of range: no next episode")),
        };
        self.task.iina_watch = None;
        self.begin_play_episode(next)
    }

    /// The screen shown once IINA has closed: Up and Down move; Enter
    /// reopens IINA, plays the next episode or goes to the episode list; Esc
    /// goes to the player screen. Failing to reopen or to find a next
    /// episode stops the interface.
    pub fn handle_iina_closed_key(&mut self, key: Key) -> (r: Effect)
        ensures
            iina_closed_key_post(*old(self), *final(self), key, r),
    {
        match key {
            Key::Up => {
                self.menus.iina_closed_index = up(self.menus.iina_closed_index);
                Effect::Nothing
            },
            Key::Down => {
                self.menus.iina_closed_index = down(self.menus.iina_closed_index, 3);
                Effect::Nothing
            },
            Key::Enter => {
                let actions = iina_closed_actions();
                let action = if self.menus.iina_closed_index < actions.len() {
                    actions[self.menus.iina_closed_index]
                } else {
                    IinaClosedAction::Reopen
                };
                match action {
                    IinaClosedAction::Reopen => match self.reopen_iina() {
                        Ok(e) => e,
                        Err(m) => Effect::Fail(m),
                    },
                    IinaClosedAction::NextEpisode => match self.play_next_after_iina_closed() {
                        Ok(e) => e,
                        Err(m) => Effect::Fail(m),
                    },
                    IinaClosedAction::SelectEpisode => {
                        self.task.iina_watch = None;
                        self.nav.screen = Screen::Episodes;
                        self.status = String::from_str(
                            "Select an episode from the list and press Enter.",
                        );
                        Effect::Nothing
                    },
                }
            },
            Key::Esc => {
                self.nav.screen = Screen::Playing;
                self.status = String::from_str("IINA is closed. Playback actions remain available.");
                Effect::Nothing
            },
            _ => Effect::Nothing,
        }
    }

    /// The quality menu: Up and Down move, Enter sets the selected quality
    /// and goes back.
    pub fn handle_quality_key(&mut self, key: Key)
        ensures
            quality_key_post(*old(self), *final(self), key),
    {
        match key {
            Key::Up => {
                self.menus.quality_index = up(self.menus.quality_index);
            },
            Key::Down => {
                self.menus.quality_index = down(self.menus.quality_index, 6);
            },
            Key::Enter => {
                let choices = quality_choices();
                assert(choices@.len() == quality_models(choices@).len());
                let selected = if self.menus.quality_index < choices.len() {
                    assert(choices@[self.menus.quality_index as int].model()
                        == quality_menu()[self.menus.quality_index as int]);
                    choices[self.menus.quality_index].clone()
                } else {
                    QualityPreference::Best
                };
                self.set_quality(selected);
                self.go_back();
            },
            _ => {},
        }
    }

    /// The language menu: Up and Down move; Enter sets the selected mode,
    /// starting over at the search screen when it changed and going back
    /// when it did not.
    pub fn handle_language_key(&mut self, key: Key)
        ensures
            language_key_post(*old(self), *final(self), key),
    {
        match key {
            Key::Up => {
                self.menus.language_index = up(self.menus.language_index);
            },
            Key::Down => {
                self.menus.language_index = down(self.menus.language_index, 2);
            },
            Key::Enter => {
                let choices = language_choices();
                let selected = if self.menus.language_index < choices.len() {
                    choices[self.menus.language_index]
                } else {
                    TranslationMode::Sub
                };
                let changed = selected != self.prefs.mode;
                self.set_mode(selected);
                if changed {
                    self.reset_to_search();
                } else {
                    self.go_back();
                }
            },
            _ => {},
        }
    }

    /// The track-language screen: Up and Down move; Enter plays the pending
    /// episode with the selected language, the pending episode being dropped
    /// either way.
    pub fn handle_track_language_key(&mut self, key: Key) -> (r: Effect)
        ensures
            track_language_key_post(*old(self), *final(self), key, r),
    {
        match key {
            Key::Up => {
                self.menus.track_language_index = up(self.menus.track_language_index);
                Effect::Nothing
            },
            Key::Down => {
                self.menus.track_language_index = down(
                    self.menus.track_language_index,
                    self.task.track_language_choices.len(),
                );
                Effect::Nothing
            },
            Key::Enter => {
                let pending = self.task.pending_playback.take();
                if self.menus.track_language_index < self.task.track_language_choices.len() {
                    if let Some(p) = pending {
                        let choice = self.task.track_language_choices[self.menus.track_language_index].clone();
                        let selected = apply_track_language_choice(&p, &choice, &self.prefs.quality);
                        self.task.track_language_choices.clear();
                        return self.begin_launch_episode(
                            p.show,
                            p.episode,
                            p.links,
                            selected,
                            p.playback_config,
                            Screen::Episodes,
                        );
                    }
                }
                Effect::Nothing
            },
            _ => Effect::Nothing,
        }
    }

    /// The history screen: Up and Down move, Enter continues the selected
    /// entry, `x` deletes the history.
    pub fn handle_history_key(&mut self, key: Key) -> (r: Effect)
        ensures
            history_key_post(*old(self), *final(self), key, r),
    {
        match key {
            Key::Up => {
                self.browse.history_index = up(self.browse.history_index);
                Effect::Nothing
            },
            Key::Down => {
                self.browse.history_index = down(
                    self.browse.history_index,
                    self.browse.history_entries.len(),
                );
                Effect::Nothing
            },
            Key::Enter => {
                if self.browse.history_index < self.browse.history_entries.len() {
                    let e = self.browse.history_entries[self.browse.history_index].clone();
                    self.status = framed("Continuing ", e.title.as_str(), "...");
                    Effect::ContinueHistory(e)
                } else {
                    self.status = String::from_str("no history entry selected");
                    Effect::Nothing
                }
            },
            Key::Char('x') => Effect::ClearHistory,
            _ => Effect::Nothing,
        }
    }

    /// The settings screen: Up and Down move; Right, Enter or Space open the
    /// selected setting.
    pub fn handle_settings_key(&mut self, key: Key)
        ensures
            settings_key_post(*old(self), *final(self), key),
    {
        match key {
            Key::Up => {
                self.menus.settings_index = up(self.menus.settings_index);
            },
            Key::Down => {
                self.menus.settings_index = down(self.menus.settings_index, 4);
            },
            Key::Right | Key::Enter | Key::Char(' ') => {
                if let Some(choice) = setting_choice(self.menus.settings_index) {
                    self.show_setting_options(choice);
                }
            },
            _ => {},
        }
    }

    /// An open setting: Up and Down move among its options, Enter applies
    /// the selected one.
    pub fn handle_setting_options_key(&mut self, key: Key)
        ensures
            setting_options_key_post(*old(self), *final(self), key),
    {
        match key {
            Key::Up => {
                self.menus.setting_option_index = up(self.menus.setting_option_index);
            },
            Key::Down => {
                match self.menus.active_setting {
                    Some(c) => {
                        self.menus.setting_option_index = down(
                            self.menus.setting_option_index,
                            setting_option_count(c),
                        );
                    },
                    None => {
                        self.menus.setting_option_index = 0;
                    },
                }
            },
            Key::Enter => {
                self.apply_setting_option();
            },
            _ => {},
        }
    }
}

/// Screens whose leaving needs no tidying up.
pub open spec fn plain_to_leave(screen: Screen) -> bool {
    screen != Screen::TrackLanguage && screen != Screen::Loading && screen != Screen::SettingOptions
}

/// `o` with only its browsing state replaced by `b`.
pub open spec fn with_browse(o: UiState, b: Browse) -> UiState {
    UiState { browse: b, ..o }
}

/// `o` with only its menu selections replaced by `m`.
pub open spec fn with_menus(o: UiState, m: Menus) -> UiState {
    UiState { menus: m, ..o }
}

/// `o` with only its status line replaced by `st`.
pub open spec fn with_status(o: UiState, st: String) -> UiState {
    UiState { status: st, ..o }
}

/// `o` with only its navigation replaced by `n`.
pub open spec fn with_nav(o: UiState, n: Nav) -> UiState {
    UiState { nav: n, ..o }
}

/// What `handle_search_key` does (see its documentation).
pub open spec fn search_key_post(o: UiState, f: UiState, key: Key, r: Effect) -> bool {
    &&& (key == Key::Enter && trim_spec(o.browse.query@).len() == 0 ==> r is Nothing
                && f.status@ == "Search query is empty."@)
    &&& (key == Key::Enter && trim_spec(o.browse.query@).len() > 0 ==> (r matches Effect::Search(q)
                && q@ == trim_spec(o.browse.query@)) && f.status@
                == "Searching AllAnime for \""@ + trim_spec(o.browse.query@) + "\"..."@)
    &&& (key == Key::Backspace ==> f.browse.query@ == (if o.browse.query@.len()
                > 0 {
                o.browse.query@.drop_last()
            } else {
                o.browse.query@
            }))
    &&& (key matches Key::Char(c) ==> f.browse.query@ == o.browse.query@.push(c))
    &&& ((key is Char || key == Key::Backspace) ==> f == with_browse(o, Browse { query: f.browse.query, ..o.browse }))
    &&& (key == Key::Enter ==> f == with_status(o, f.status))
    &&& (key != Key::Enter ==> r is Nothing)
    &&& (!(key == Key::Enter || key == Key::Backspace || key is Char) ==> f == o)
    &&& (f.nav == o.nav)
}

/// What `handle_results_key` does (see its documentation).
pub open spec fn results_key_post(o: UiState, f: UiState, key: Key, r: Effect) -> bool {
    &&& (key == Key::Up ==> f.browse.result_index == step_up(o.browse.result_index))
    &&& (key == Key::Down ==> f.browse.result_index == step_down(
                o.browse.result_index,
                o.browse.results@.len() as usize,
            ))
    &&& (key == Key::Enter && o.browse.result_index < o.browse.results@.len() ==> (
            r matches Effect::FetchEpisodes(show) && show == o.browse.results@[o.browse.result_index as int]))
    &&& (key == Key::Enter && o.browse.result_index >= o.browse.results@.len() ==> (
            r matches Effect::Fail(m) && m@ == "no anime result selected"@))
    &&& (key == Key::Char('/') ==> (f.nav.screen, f.nav.stack@) == nav_return(
                o.nav.stack@,
                Screen::Search,
            ))
    &&& (key != Key::Enter ==> r is Nothing)
    &&& (!(key == Key::Up || key == Key::Down || key == Key::Enter || key == Key::Char('/'))
                ==> f == o)
    &&& ((key == Key::Up || key == Key::Down) ==> f == with_browse(o, Browse { result_index: f.browse.result_index, ..o.browse }))
    &&& (key == Key::Enter && o.browse.result_index < o.browse.results@.len() ==> f == with_status(o, f.status)
        && f.status@ == "Fetching episodes for "@ + o.browse.results@[o.browse.result_index as int].title@ + "..."@)
    &&& (key == Key::Enter && o.browse.result_index >= o.browse.results@.len() ==> f == o)
}

/// What `handle_episodes_key` does (see its documentation).
pub open spec fn episodes_key_post(o: UiState, f: UiState, key: Key, r: Effect) -> bool {
    &&& (key == Key::Up && o.browse.episodes@.len() > 0 ==> f.browse.episode_index
                == (if o.browse.episode_index == o.browse.episodes@.len() - 1 {
                0
            } else if o.browse.episode_index < usize::MAX {
                (o.browse.episode_index + 1) as usize
            } else {
                0
            }))
    &&& (key == Key::Down && o.browse.episodes@.len() > 0 ==> f.browse.episode_index
                == (if o.browse.episode_index == 0 {
                (o.browse.episodes@.len() - 1) as usize
            } else {
                (o.browse.episode_index - 1) as usize
            }))
    &&& (key == Key::Enter && o.browse.episode_index < o.browse.episodes@.len()
                && o.browse.selected_show is Some ==> (r matches Effect::LoadEpisode(req)
                && req.episode == o.browse.episodes@[o.browse.episode_index as int]) && starts_loading(
                o, f, r, o.browse.episodes@[o.browse.episode_index as int]@))
    &&& (key == Key::Char('N') ==> (r matches Effect::FetchSchedule(q) && q@ == (match o.browse.selected_show {
                Some(s) => s.title@,
                None => o.browse.query@,
            })))
    &&& (key != Key::Enter && key != Key::Char('N') ==> r is Nothing)
    &&& (!(key == Key::Up || key == Key::Down || key == Key::Enter || key == Key::Char('N'))
                ==> f == o)
    &&& ((key == Key::Up || key == Key::Down) ==> f == with_browse(o, Browse { episode_index: f.browse.episode_index, ..o.browse }))
    &&& (key == Key::Char('N') ==> f == with_status(o, f.status))
}

/// What `handle_playing_key` does (see its documentation).
pub open spec fn playing_key_post(o: UiState, f: UiState, key: Key, r: Effect) -> bool {
    &&& (key == Key::Char('q') ==> f.nav.quit && r is Nothing)
    &&& (key == Key::Char('e') ==> (f.nav.screen, f.nav.stack@) == nav_return(
                o.nav.stack@,
                Screen::Episodes,
            ))
    &&& (key == Key::Char('n') ==> (o.browse.current_episode matches Some(cur) ==> (
            next_spec(views(o.browse.episodes@), cur@) is None ==> f.status@
                == "Out of range: no next episode."@ && r is Nothing && f == with_status(o, f.status))))
    &&& (key == Key::Char('n') ==> (o.browse.current_episode matches Some(cur) ==> (
            next_spec(views(o.browse.episodes@), cur@) matches Some(nx) ==> (o.browse.selected_show is Some ==> starts_loading(o, f, r, nx)))))
    &&& (key == Key::Char('p') ==> (o.browse.current_episode matches Some(cur) ==> (
            previous_spec(views(o.browse.episodes@), cur@) is None ==> f.status@
                == "Out of range: no previous episode."@ && r is Nothing && f == with_status(o, f.status))))
    &&& (key == Key::Char('p') ==> (o.browse.current_episode matches Some(cur) ==> (
            previous_spec(views(o.browse.episodes@), cur@) matches Some(pv) ==> (o.browse.selected_show is Some ==> starts_loading(o, f, r, pv)))))
    &&& (key == Key::Char('r') ==> (o.browse.current_episode matches Some(cur) ==> (o.browse.selected_show is Some ==> starts_loading(o, f, r, cur@))))
    &&& (o.browse.current_episode is None && (key == Key::Char('n') || key == Key::Char('p')
                || key == Key::Char('r')) ==> r is Nothing && f == o)
    &&& (key == Key::Char('q') ==> f == with_nav(o, Nav { quit: true, ..o.nav }))
    &&& (!(key == Key::Char('n') || key == Key::Char('p') || key == Key::Char('r') || key
                == Key::Char('e') || key == Key::Char('q')) ==> f == o && r is Nothing)
}

/// What `handle_iina_closed_key` does (see its documentation).
pub open spec fn iina_closed_key_post(o: UiState, f: UiState, key: Key, r: Effect) -> bool {
    &&& (key == Key::Up ==> f.menus.iina_closed_index == step_up(
                o.menus.iina_closed_index,
            ))
    &&& (key == Key::Down ==> f.menus.iina_closed_index == step_down(
                o.menus.iina_closed_index,
                3,
            ))
    &&& (key == Key::Esc ==> f.nav.screen == Screen::Playing && f.status@
                == "IINA is closed. Playback actions remain available."@ && r is Nothing)
    &&& (key == Key::Enter && o.menus.iina_closed_index == 2 ==> {
                &&& f.nav.screen == Screen::Episodes
                &&& f.task.iina_watch is None
                &&& f.status@ == "Select an episode from the list and press Enter."@
                &&& r is Nothing
            })
    &&& (key == Key::Enter && o.menus.iina_closed_index != 1 && o.menus.iina_closed_index
                != 2 ==> reopen_iina_post(o, f, effect_result(r)))
    &&& (key == Key::Enter && o.menus.iina_closed_index == 1 ==> play_next_post(o, f, effect_result(r)))
    &&& (key != Key::Enter ==> r is Nothing)
    &&& (!(key == Key::Up || key == Key::Down || key == Key::Enter || key == Key::Esc) ==> f == o)
    &&& ((key == Key::Up || key == Key::Down) ==> f == with_menus(o, Menus { iina_closed_index: f.menus.iina_closed_index, ..o.menus }))
}

/// What `handle_quality_key` does (see its documentation).
pub open spec fn quality_key_post(o: UiState, f: UiState, key: Key) -> bool {
    &&& (key == Key::Up ==> f.menus.quality_index == step_up(o.menus.quality_index))
    &&& (key == Key::Down ==> f.menus.quality_index == step_down(
                o.menus.quality_index,
                6,
            ))
    &&& (key == Key::Enter ==> {
                &&& f.prefs.quality.model() == (if o.menus.quality_index < 6 {
                    quality_menu()[o.menus.quality_index as int]
                } else {
                    QualityModel::Best
                })
                &&& f.requests.persist
                &&& f.nav.screen == nav_back(o.nav.screen, o.nav.stack@).0
            })
    &&& (!(key == Key::Up || key == Key::Down || key == Key::Enter) ==> f == o)
    &&& ((key == Key::Up || key == Key::Down) ==> f == with_menus(o, Menus { quality_index: f.menus.quality_index, ..o.menus }))
}

/// What `handle_language_key` does (see its documentation).
pub open spec fn language_key_post(o: UiState, f: UiState, key: Key) -> bool {
    &&& (key == Key::Up ==> f.menus.language_index == step_up(o.menus.language_index))
    &&& (key == Key::Down ==> f.menus.language_index == step_down(
                o.menus.language_index,
                2,
            ))
    &&& (key == Key::Enter ==> {
                let m = if o.menus.language_index < 2 {
                    language_menu()[o.menus.language_index as int]
                } else {
                    TranslationMode::Sub
                };
                &&& f.prefs.mode == m
                &&& f.requests.persist
                &&& m != o.prefs.mode ==> f.nav.screen == Screen::Search && f.nav.stack@.len() == 0
                &&& m == o.prefs.mode ==> f.nav.screen == nav_back(
                    o.nav.screen,
                    o.nav.stack@,
                ).0
            })
    &&& (!(key == Key::Up || key == Key::Down || key == Key::Enter) ==> f == o)
    &&& ((key == Key::Up || key == Key::Down) ==> f == with_menus(o, Menus { language_index: f.menus.language_index, ..o.menus }))
}

/// What `handle_track_language_key` does (see its documentation).
pub open spec fn track_language_key_post(o: UiState, f: UiState, key: Key, r: Effect) -> bool {
    &&& (key == Key::Up ==> f.menus.track_language_index == step_up(
                o.menus.track_language_index,
            ))
    &&& (key == Key::Down ==> f.menus.track_language_index == step_down(
                o.menus.track_language_index,
                o.task.track_language_choices@.len() as usize,
            ))
    &&& (key == Key::Enter ==> f.task.pending_playback is None)
    &&& (key == Key::Enter && o.task.pending_playback is Some && o.menus.track_language_index < o.task.track_language_choices@.len() ==> {
                &&& r matches Effect::LaunchEpisode(req) && req.return_screen == Screen::Episodes
                    && crate::tui::apply_choice_spec(
                    o.task.pending_playback->0,
                    o.task.track_language_choices@[o.menus.track_language_index as int],
                    o.prefs.quality.model(),
                    req.selected,
                )
                &&& f.task.track_language_choices@.len() == 0
            })
    &&& (!(key == Key::Enter && o.task.pending_playback is Some && o.menus.track_language_index < o.task.track_language_choices@.len())
                ==> r is Nothing)
    &&& (!(key == Key::Up || key == Key::Down || key == Key::Enter) ==> f == o)
    &&& ((key == Key::Up || key == Key::Down) ==> f == with_menus(o, Menus { track_language_index: f.menus.track_language_index, ..o.menus }))
}

/// What `handle_history_key` does (see its documentation).
pub open spec fn history_key_post(o: UiState, f: UiState, key: Key, r: Effect) -> bool {
    &&& (key == Key::Up ==> f.browse.history_index == step_up(o.browse.history_index))
    &&& (key == Key::Down ==> f.browse.history_index == step_down(
                o.browse.history_index,
                o.browse.history_entries@.len() as usize,
            ))
    &&& (key == Key::Enter && o.browse.history_index < o.browse.history_entries@.len()
                ==> (r matches Effect::ContinueHistory(e) && e == o.browse.history_entries@[o.browse.history_index as int] && f.status@ == "Continuing "@ + e.title@
                + "..."@))
    &&& (key == Key::Enter && o.browse.history_index >= o.browse.history_entries@.len()
                ==> r is Nothing && f.status@ == "no history entry selected"@)
    &&& (key == Key::Char('x') ==> r is ClearHistory)
    &&& (key != Key::Enter && key != Key::Char('x') ==> r is Nothing)
    &&& (!(key == Key::Up || key == Key::Down || key == Key::Enter) ==> f == o)
    &&& (f.nav == o.nav)
    &&& ((key == Key::Up || key == Key::Down) ==> f == with_browse(o, Browse { history_index: f.browse.history_index, ..o.browse }))
    &&& (key == Key::Enter ==> f == with_status(o, f.status))
    &&& (key == Key::Char('x') ==> f == o)
}

/// What `handle_settings_key` does (see its documentation).
pub open spec fn settings_key_post(o: UiState, f: UiState, key: Key) -> bool {
    &&& (key == Key::Up ==> f.menus.settings_index == step_up(o.menus.settings_index))
    &&& (key == Key::Down ==> f.menus.settings_index == step_down(
                o.menus.settings_index,
                4,
            ))
    &&& ((key == Key::Right || key == Key::Enter || key == Key::Char(' ')) && o.menus.settings_index < 4 ==> {
                let choice = settings_menu()[o.menus.settings_index as int];
                &&& f.menus.active_setting == Some(choice)
                &&& f.menus.setting_option_index == o.current_option_spec(choice)
                &&& (f.nav.screen, f.nav.stack@) == nav_push(o.nav.screen, o.nav.stack@, Screen::SettingOptions)
            })
    &&& (!(key == Key::Up || key == Key::Down || key == Key::Right || key == Key::Enter || key
                == Key::Char(' ')) ==> f == o)
    &&& ((key == Key::Up || key == Key::Down) ==> f == with_menus(o, Menus { settings_index: f.menus.settings_index, ..o.menus }))
}

/// What `handle_setting_options_key` does (see its documentation).
pub open spec fn setting_options_key_post(o: UiState, f: UiState, key: Key) -> bool {
    &&& (key == Key::Up ==> f.menus.setting_option_index == step_up(
                o.menus.setting_option_index,
            ))
    &&& (key == Key::Down ==> f.menus.setting_option_index == (match o.menus.active_setting {
                Some(c) => step_down(o.menus.setting_option_index, option_count_spec(c) as usize),
                None => 0,
            }))
    &&& (key == Key::Enter ==> apply_option_post(o, f))
    &&& (!(key == Key::Up || key == Key::Down || key == Key::Enter) ==> f == o)
    &&& ((key == Key::Up || key == Key::Down) ==> f == with_menus(o, Menus { setting_option_index: f.menus.setting_option_index, ..o.menus }))
}

/// The screen a playback started from returns to: the player screen when
/// it started there, else the episode list.
pub open spec fn play_return(o: UiState) -> Screen {
    if o.nav.screen == Screen::Playing {
        Screen::Playing
    } else {
        Screen::Episodes
    }
}

/// `r` starts loading episode `ep`: the loading screen is shown and
/// returns to where the playback started (see `play_return`).
pub open spec fn starts_loading(o: UiState, f: UiState, r: Effect, ep: Seq<char>) -> bool {
    &&& r matches Effect::LoadEpisode(req) && req.episode@ == ep && req.return_screen == play_return(o)
    &&& f.nav.screen == Screen::Loading
    &&& f.nav.stack == o.nav.stack
    &&& f.task.running
    &&& f.task.loading matches Some(l) && l.return_screen == play_return(o)
}

/// An effect read as a result: a failure is an error with its message.
pub open spec fn effect_result(r: Effect) -> Result<Effect, String> {
    match r {
        Effect::Fail(m) => Err(m),
        e => Ok(e),
    }
}

/// What `reopen_iina` does (see its documentation).
pub open spec fn reopen_iina_post(o: UiState, f: UiState, r: Result<Effect, String>) -> bool {
    &&& (o.browse.selected_show is None ==> (r matches Err(m) && m@ == "no anime selected"@))
    &&& (o.browse.selected_show is Some && o.browse.current_episode is None ==> (r matches Err(m)
        && m@ == "no episode is currently selected"@))
    &&& (o.browse.selected_show is Some && o.browse.current_episode is Some
        && o.browse.last_stream is None ==> (r matches Err(m) && m@ == "no previous stream is available"@))
    &&& (o.browse.selected_show is Some && o.browse.current_episode is Some
        && o.browse.last_stream is Some ==> {
        &&& r matches Ok(Effect::LaunchEpisode(req))
        &&& req.playback_config.player == PlayerChoice::Iina
        &&& req.return_screen == Screen::Playing
        &&& Some(req.show) == o.browse.selected_show
        &&& Some(req.episode) == o.browse.current_episode
        &&& (o.browse.last_stream matches Some(ls) && same_stream(req.selected, ls))
        &&& req.playback_config.quality == o.prefs.quality
        &&& f.nav.screen == Screen::Loading
        &&& f.task.running
        &&& f.task.loading matches Some(l) && l.return_screen == Screen::Playing
    })
    &&& (f.prefs == o.prefs)
    &&& (f.browse == o.browse)
}

/// What `play_next_after_iina_closed` does (see its documentation).
pub open spec fn play_next_post(o: UiState, f: UiState, r: Result<Effect, String>) -> bool {
    &&& (o.browse.current_episode is None ==> (r matches Err(m) && m@
        == "no episode is currently selected"@))
    &&& (o.browse.current_episode matches Some(cur) ==> (next_spec(views(o.browse.episodes@), cur@)
        is None ==> (r matches Err(m) && m@ == "out of range: no next episode"@)))
    &&& (o.browse.current_episode matches Some(cur) ==> (next_spec(views(o.browse.episodes@), cur@)
        matches Some(nx) ==> {
        &&& o.browse.selected_show is None ==> (r matches Err(m) && m@ == "no anime selected"@)
        &&& o.browse.selected_show is Some ==> (r matches Ok(Effect::LoadEpisode(req)) && req.episode@ == nx
            && req.return_screen == play_return(o) && f.nav.screen == Screen::Loading && f.task.running
            && (f.task.loading matches Some(l) && l.return_screen == play_return(o)))
    }))
}

/// What `apply_setting_option` does (see its documentation).
pub open spec fn apply_option_post(o: UiState, f: UiState) -> bool {
    let i = o.menus.setting_option_index;
    &&& (o.menus.active_setting is None ==> f.nav == o.nav && f.prefs == o.prefs)
    &&& (o.menus.active_setting == Some(SettingChoice::DownloadMode) ==> f.prefs.download_mode == (i == 1))
    &&& (o.menus.active_setting == Some(SettingChoice::AniSkip) ==> f.prefs.skip_intro == (i == 1))
    &&& (o.menus.active_setting == Some(SettingChoice::Language) ==> f.prefs.mode == (if i < 2 {
        language_menu()[i as int]
    } else {
        TranslationMode::Sub
    }))
    &&& (o.menus.active_setting == Some(SettingChoice::Quality) ==> f.prefs.quality.model() == (if i < 6 {
        quality_menu()[i as int]
    } else {
        QualityModel::Best
    }))
    &&& (o.menus.active_setting is Some ==> f.requests.persist)
    &&& (o.menus.active_setting is Some && o.nav.screen == Screen::SettingOptions ==> {
        &&& f.menus.active_setting is None
        &&& (o.nav.stack@.len() > 0 && o.nav.stack@.last() == Screen::Settings ==> f.nav.screen == Screen::Settings)
    })
}

} // verus!
