//! What the interface does once the work it handed out is done: search
//! results, episode lists, the history, the log and the schedule arrive;
//! a playback task reports progress, asks for a track language, has
//! launched a player or has failed; a watched player has closed.

use vstd::prelude::*;
use crate::episode::{next_episode, next_spec};
use crate::aniskip::IinaPluginInstall;
use crate::history::HistoryEntry;
use crate::anilist::{AniListMedia, AniListMediaListEntry};
use crate::media::{
    AnimeSearchResult, SelectedStream, StreamLink, clone_links, same_link, same_stream,
};
use crate::schedule::NextEpisodeStatus;
use crate::seqs::{first_pos, position_of};
use crate::text::{
    before_first, before_first_spec, dec_spec, dec_string, parse_unsigned, parse_unsigned_spec,
    push_str, str_eq, views,
};
use crate::tui::{PendingPlayback, Screen, TrackLanguageChoice};
use crate::ui::{
    Effect, IinaWatch, UiState, MAX_LOADING_NOTES, framed, nav_push,
};

verus! {

/// The text of an optional string.
pub open spec fn opt_seq(o: Option<String>) -> Option<Seq<char>> {
    match o {
        Some(s) => Some(s@),
        None => None,
    }
}

/// A stage number kept within `1..=total`.
pub open spec fn clamp_stage(stage: usize, total: usize) -> usize {
    if stage > total {
        total
    } else if stage < 1 {
        1
    } else {
        stage
    }
}

/// The loading notes after a progress report: a note is added unless it
/// repeats the last one, and only the most recent notes are kept.
pub open spec fn notes_after(notes: Seq<Seq<char>>, note: Option<Seq<char>>) -> Seq<Seq<char>> {
    match note {
        None => notes,
        Some(n) => {
            let pushed = if notes.len() > 0 && notes.last() == n {
                notes
            } else {
                notes.push(n)
            };
            if pushed.len() > MAX_LOADING_NOTES {
                pushed.drop_first()
            } else {
                pushed
            }
        },
    }
}

/// The loading screen never lists more notes than it keeps.
pub proof fn notes_stay_bounded(notes: Seq<Seq<char>>, note: Option<Seq<char>>)
    requires
        notes.len() <= MAX_LOADING_NOTES,
    ensures
        notes_after(notes, note).len() <= MAX_LOADING_NOTES,
{
}

/// A note that repeats the last one is not listed twice.
pub proof fn repeated_note_is_not_listed_twice(notes: Seq<Seq<char>>, n: Seq<char>)
    requires
        notes.len() > 0,
        notes.last() == n,
        notes.len() <= MAX_LOADING_NOTES,
    ensures
        notes_after(notes, Some(n)) == notes,
{
}

/// What a playback task reports.
#[derive(Debug)]
pub enum PlaybackEvent {
    /// It reached a stage: a detail for the status and the loading screen,
    /// and perhaps a note for the list.
    Progress { detail: String, stage: usize, note: Option<String> },
    /// Several track languages are offered: the user chooses before the
    /// pending playback goes on.
    TrackLanguage { pending: PendingPlayback, choices: Vec<TrackLanguageChoice> },
    /// A player was launched (or the episode was downloaded).
    Launched {
        show: AnimeSearchResult,
        episode: String,
        links: Vec<StreamLink>,
        selected: SelectedStream,
        status: String,
        return_screen: Screen,
        monitor_iina: bool,
    },
    /// It failed, for the reason given.
    Error(String),
}

/// Seconds after launch within which IINA is expected to be seen running.
pub const IINA_START_GRACE_SECS: u64 = 8;

/// The count of episodes a show has, by its last episode's name.
pub open spec fn count_from_last(episodes: Seq<Seq<char>>) -> Option<u32> {
    if episodes.len() == 0 {
        None
    } else {
        match parse_unsigned_spec(episodes.last(), u32::MAX as nat) {
            Some(n) => Some(n as u32),
            None => None,
        }
    }
}

/// The episode the history last recorded for a show: that of its first
/// entry for the show.
pub open spec fn history_episode(entries: Seq<HistoryEntry>, id: Seq<char>) -> Option<Seq<char>>
    decreases entries.len(),
{
    if entries.len() == 0 {
        None
    } else if entries[0].anime_id@ == id {
        Some(entries[0].episode@)
    } else {
        history_episode(entries.drop_first(), id)
    }
}

/// The episode last watched: with an AniList login and an AniList entry
/// with progress, the episode of that progress; else the one the history
/// recorded.
pub open spec fn watched_episode_spec(
    logged_in: bool,
    entry: Option<AniListMediaListEntry>,
    history: Seq<HistoryEntry>,
    id: Seq<char>,
) -> Option<Seq<char>> {
    match entry {
        Some(e) => if logged_in && e.progress > 0 {
            Some(dec_spec(e.progress as nat))
        } else {
            history_episode(history, id)
        },
        None => history_episode(history, id),
    }
}

/// The user's list entry of an AniList anime, if any.
pub open spec fn list_entry_of(media: Option<AniListMedia>) -> Option<AniListMediaListEntry> {
    match media {
        Some(m) => m.list_entry,
        None => None,
    }
}

/// Where the episode selector is placed: on the first episode named as
/// the one watched, else on the last episode.
pub open spec fn selector_index(episodes: Seq<Seq<char>>, watched: Option<Seq<char>>) -> usize {
    let last: usize = if episodes.len() == 0 {
        0
    } else {
        (episodes.len() - 1) as usize
    };
    match watched {
        Some(w) => match first_pos(episodes, w) {
            Some(j) => j as usize,
            None => last,
        },
        None => last,
    }
}

/// The episode the history last recorded for a show (see `history_episode`).
pub fn history_episode_of(entries: &Vec<HistoryEntry>, id: &str) -> (r: Option<String>)
    ensures
        opt_seq(r) == history_episode(entries@, id@),
{
    let mut i: usize = 0;
    assert(entries@.skip(0) =~= entries@);
    while i < entries.len()
        invariant
            i <= entries@.len(),
            history_episode(entries@, id@) == history_episode(entries@.skip(i as int), id@),
        decreases entries@.len() - i,
    {
        assert(entries@.skip(i as int).drop_first() =~= entries@.skip(i + 1));
        if str_eq(entries[i].anime_id.as_str(), id) {
            return Some(entries[i].episode.clone());
        }
        i = i + 1;
    }
    None
}

/// The episode last watched (see `watched_episode_spec`).
pub fn watched_episode(
    logged_in: bool,
    entry: Option<AniListMediaListEntry>,
    history: &Vec<HistoryEntry>,
    id: &str,
) -> (r: Option<String>)
    ensures
        opt_seq(r) == watched_episode_spec(logged_in, entry, history@, id@),
{
    match entry {
        Some(e) => if logged_in && e.progress > 0 {
            return Some(dec_string(e.progress as u64));
        },
        None => {},
    }
    history_episode_of(history, id)
}

impl UiState {
    /// Search results arrived: the first is selected; with none the search
    /// screen stays.
    pub fn search_finished(&mut self, results: Vec<AnimeSearchResult>)
        ensures
            final(self).browse.results@ == results@,
            final(self).browse.result_index == 0,
            results@.len() == 0 ==> final(self).status@ == "No results found."@ && final(self).nav.screen == Screen::Search && final(self).nav.stack == old(self).nav.stack,
            results@.len() > 0 ==> final(self).status@ == dec_spec(results@.len())
                + " result(s). Select an anime."@ && (final(self).nav.screen, final(self).nav.stack@) == nav_push(old(self).nav.screen, old(self).nav.stack@, Screen::Results),
            final(self).nav.quit == old(self).nav.quit,
            final(self).prefs == old(self).prefs,
            final(self).task == old(self).task,
    {
        let n = results.len();
        self.browse.results = results;
        self.browse.result_index = 0;
        if n == 0 {
            self.status = String::from_str("No results found.");
            self.nav.screen = Screen::Search;
        } else {
            let mut count = dec_string(n as u64);
            push_str(&mut count, " result(s). Select an anime.");
            self.status = count;
            self.nav.push_screen(Screen::Results);
        }
    }

    /// A show's episodes arrived: the show is selected and its episode list
    /// shown, the selector placed on the episode last watched (see
    /// `watched_episode_spec`) when the list has it, else on the last one.
    /// With an AniList login the show's AniList id is kept for syncing.
    pub fn episodes_fetched(
        &mut self,
        show: AnimeSearchResult,
        episodes: Vec<String>,
        history: Vec<HistoryEntry>,
        media: Option<AniListMedia>,
    )
        ensures
            final(self).browse.episodes@ == episodes@,
            final(self).browse.episode_index == selector_index(
                views(episodes@),
                watched_episode_spec(
                    old(self).anilist.logged_in(),
                    list_entry_of(media),
                    history@,
                    show.id@,
                ),
            ),
            final(self).anilist.media_id == (if old(self).anilist.logged_in() {
                match media {
                    Some(m) => Some(m.id),
                    None => None,
                }
            } else {
                None
            }),
            final(self).anilist.auth == old(self).anilist.auth,
            final(self).browse.selected_show == Some(show),
            (final(self).nav.screen, final(self).nav.stack@) == nav_push(
                old(self).nav.screen,
                old(self).nav.stack@,
                Screen::Episodes,
            ),
            final(self).status@ == dec_spec(episodes@.len()) + " episode(s) available."@,
            final(self).nav.quit == old(self).nav.quit,
            final(self).prefs == old(self).prefs,
            final(self).task == old(self).task,
    {
        let logged_in = self.anilist.auth.access_token.is_some();
        let (media_id, entry) = match &media {
            Some(m) => (Some(m.id), m.list_entry),
            None => (None, None),
        };
        let watched = watched_episode(logged_in, entry, &history, show.id.as_str());
        let n = episodes.len();
        let last = if n == 0 {
            0
        } else {
            n - 1
        };
        self.browse.episode_index = match &watched {
            Some(w) => match position_of(episodes.as_slice(), w.as_str()) {
                Some(j) => j,
                None => last,
            },
            None => last,
        };
        self.browse.episodes = episodes;
        self.anilist.media_id = if logged_in {
            media_id
        } else {
            None
        };
        self.browse.selected_show = Some(show);
        self.nav.push_screen(Screen::Episodes);
        let mut count = dec_string(n as u64);
        push_str(&mut count, " episode(s) available.");
        self.status = count;
    }

    /// The history was read: its first entry is selected.
    pub fn history_loaded(&mut self, entries: Vec<HistoryEntry>)
        ensures
            final(self).browse.history_entries@ == entries@,
            final(self).browse.history_index == 0,
            (final(self).nav.screen, final(self).nav.stack@) == nav_push(
                old(self).nav.screen,
                old(self).nav.stack@,
                Screen::History,
            ),
            final(self).status@ == (if entries@.len() == 0 {
                "History is empty."@
            } else {
                "Select an entry to continue, or press x to delete history."@
            }),
            final(self).nav.quit == old(self).nav.quit,
    {
        let empty = entries.len() == 0;
        self.browse.history_entries = entries;
        self.browse.history_index = 0;
        self.nav.push_screen(Screen::History);
        self.status = if empty {
            String::from_str("History is empty.")
        } else {
            String::from_str("Select an entry to continue, or press x to delete history.")
        };
    }

    /// The history was deleted.
    pub fn history_cleared(&mut self)
        ensures
            final(self).browse.history_entries@.len() == 0,
            final(self).status@ == "History deleted."@,
            final(self).nav == old(self).nav,
    {
        self.browse.history_entries.clear();
        self.status = String::from_str("History deleted.");
    }

    /// The IINA plugin was installed.
    pub fn plugin_installed(&mut self, install: &IinaPluginInstall)
        ensures
            install.enabled_plugin_system ==> final(self).status@ == "IINA AniSkip plugin installed at "@
                + install.plugin_dir@ + ". Restart IINA if it was open."@,
            !install.enabled_plugin_system ==> final(self).status@ == "IINA plugin files installed at "@
                + install.plugin_dir@ + ", but enabling plugin system via defaults failed."@,
            final(self).nav == old(self).nav,
    {
        let dir = install.plugin_dir.as_str();
        self.status = if install.enabled_plugin_system {
            framed("IINA AniSkip plugin installed at ", dir, ". Restart IINA if it was open.")
        } else {
            framed(
                "IINA plugin files installed at ",
                dir,
                ", but enabling plugin system via defaults failed.",
            )
        };
    }

    /// The system log was read.
    pub fn logs_loaded(&mut self, logs: String)
        ensures
            final(self).browse.logs == logs,
            (final(self).nav.screen, final(self).nav.stack@) == nav_push(
                old(self).nav.screen,
                old(self).nav.stack@,
                Screen::Logs,
            ),
            final(self).status@ == "Log view. Press Esc to return."@,
            final(self).nav.quit == old(self).nav.quit,
    {
        self.browse.logs = logs;
        self.nav.push_screen(Screen::Logs);
        self.status = String::from_str("Log view. Press Esc to return.");
    }

    /// The release schedule arrived.
    pub fn schedule_loaded(&mut self, schedule: Vec<NextEpisodeStatus>)
        ensures
            final(self).browse.schedule@ == schedule@,
            (final(self).nav.screen, final(self).nav.stack@) == nav_push(
                old(self).nav.screen,
                old(self).nav.stack@,
                Screen::Schedule,
            ),
            final(self).status@ == "Schedule loaded. Press Esc to return."@,
            final(self).nav.quit == old(self).nav.quit,
    {
        self.browse.schedule = schedule;
        self.nav.push_screen(Screen::Schedule);
        self.status = String::from_str("Schedule loaded. Press Esc to return.");
    }

    /// Shows a message in the status line.
    pub fn report(&mut self, message: String)
        ensures
            final(self).status == message,
            final(self).nav == old(self).nav,
            final(self).browse == old(self).browse,
            final(self).task == old(self).task,
    {
        self.status = message;
    }

    /// Continues a history entry once its show's episodes arrived: the
    /// episode after the last one watched is played, from the episode list
    /// with the search screen below it. With none left, the status says so.
    pub fn continue_history_with(&mut self, entry: HistoryEntry, episodes: Vec<String>) -> (r: Effect)
        ensures
            final(self).browse.episodes@ == episodes@,
            next_spec(views(episodes@), entry.episode@) is None ==> {
                &&& r is Nothing
                &&& final(self).status@ == "no unwatched episode remains for "@ + entry.title@
                &&& final(self).nav == old(self).nav
            },
            next_spec(views(episodes@), entry.episode@) matches Some(nx) ==> {
                &&& r matches Effect::LoadEpisode(req) && req.episode@ == nx
                    && req.return_screen == Screen::Episodes
                &&& first_pos(views(episodes@), nx) matches Some(j)
                    && final(self).browse.episode_index == j
                &&& final(self).browse.selected_show matches Some(s) && s.id == entry.anime_id
                    && s.title@ == before_first_spec(entry.title@, " ("@) && s.episode_count
                    == count_from_last(views(episodes@))
                &&& final(self).nav.stack@ == seq![Screen::Search]
                &&& final(self).nav.screen == Screen::Loading
                &&& final(self).task.running
            },
            final(self).nav.quit == old(self).nav.quit,
            final(self).prefs == old(self).prefs,
    {
        self.browse.episodes = episodes;
        let next = match next_episode(self.browse.episodes.as_slice(), entry.episode.as_str()) {
            Some(n) => String::from_str(n),
            None => {
                let mut m = String::from_str("no unwatched episode remains for ");
                push_str(&mut m, entry.title.as_str());
                self.status = m;
                return Effect::Nothing;
            },
        };
        proof {
            let vs = views(self.browse.episodes@);
            crate::seqs::lemma_first_pos_none(vs, entry.episode@);
            crate::seqs::lemma_first_pos_found(vs, entry.episode@);
            let i = first_pos(vs, entry.episode@)->0;
            assert(vs[i + 1] == next@);
            assert(vs.contains(next@));
            crate::seqs::lemma_first_pos_found(vs, next@);
        }
        self.browse.episode_index = match position_of(self.browse.episodes.as_slice(), next.as_str()) {
            Some(j) => j,
            None => 0,
        };
        let n = self.browse.episodes.len();
        let episode_count = if n == 0 {
            None
        } else {
            match parse_unsigned(self.browse.episodes[n - 1].as_str(), 4294967295u64) {
                Some(c) => Some(c as u32),
                None => None,
            }
        };
        self.browse.selected_show = Some(
            AnimeSearchResult {
                id: entry.anime_id,
                title: before_first(entry.title.as_str(), " ("),
                episode_count,
            },
        );
        self.nav.stack.clear();
        self.nav.stack.push(Screen::Search);
        self.nav.screen = Screen::Episodes;
        assert(self.nav.stack@ =~= seq![Screen::Search]);
        match self.begin_play_episode(next) {
            Ok(e) => e,
            Err(m) => {
                self.status = m;
                Effect::Nothing
            },
        }
    }
}

impl UiState {
    fn playback_progress(&mut self, detail: String, stage: usize, note: Option<String>)
        requires
            old(self).task.loading matches Some(l) ==> l.total_stages >= 1,
        ensures
            final(self).status == detail,
            match old(self).task.loading {
                None => final(self).task.loading is None,
                Some(l0) => final(self).task.loading matches Some(l1) && l1.stage == clamp_stage(
                    stage,
                    l0.total_stages,
                ) && l1.detail@ == detail@ && views(l1.notes@) == notes_after(
                    views(l0.notes@),
                    opt_seq(note),
                ) && l1.title == l0.title && l1.subject == l0.subject && l1.total_stages
                    == l0.total_stages && l1.return_screen == l0.return_screen,
            },
            final(self).task.running == old(self).task.running,
            final(self).task.pending_playback == old(self).task.pending_playback,
            final(self).task.track_language_choices == old(self).task.track_language_choices,
            final(self).task.iina_watch == old(self).task.iina_watch,
            final(self).nav == old(self).nav,
            final(self).browse == old(self).browse,
            final(self).prefs == old(self).prefs,
            final(self).menus == old(self).menus,
            final(self).requests == old(self).requests,
    {
        let taken = self.task.loading.take();
        match taken {
            Some(mut l) => {
                let ghost notes0 = views(l.notes@);
                l.stage = if stage > l.total_stages {
                    l.total_stages
                } else if stage < 1 {
                    1
                } else {
                    stage
                };
                l.detail = detail.clone();
                match note {
                    Some(n) => {
                        let ghost nv = n@;
                        let k = l.notes.len();
                        let repeats = k > 0 && str_eq(l.notes[k - 1].as_str(), n.as_str());
                        if !repeats {
                            l.notes.push(n);
                            assert(views(l.notes@) =~= notes0.push(nv));
                        }
                        let ghost pushed = views(l.notes@);
                        if l.notes.len() > MAX_LOADING_NOTES {
                            l.notes.remove(0);
                            assert(views(l.notes@) =~= pushed.drop_first());
                        }
                    },
                    None => {},
                }
                self.task.loading = Some(l);
            },
            None => {},
        }
        self.status = detail;
    }

    fn playback_failed(&mut self, error: String)
        ensures
            final(self).nav.screen == old(self).task.return_spec(),
            final(self).nav.stack == old(self).nav.stack,
            final(self).nav.quit == old(self).nav.quit,
            final(self).status == error,
            !final(self).task.running,
            final(self).task.loading is None,
            final(self).task.pending_playback == old(self).task.pending_playback,
            final(self).task.track_language_choices == old(self).task.track_language_choices,
            final(self).task.iina_watch == old(self).task.iina_watch,
            final(self).browse == old(self).browse,
            final(self).prefs == old(self).prefs,
            final(self).menus == old(self).menus,
            final(self).requests == old(self).requests,
    {
        let return_screen = self.task.return_screen();
        self.finish_playback_task();
        self.nav.screen = return_screen;
        self.status = error;
    }

    fn track_language_ready(&mut self, pending: PendingPlayback, choices: Vec<TrackLanguageChoice>)
        ensures
            !final(self).task.running,
            final(self).task.loading is None,
            final(self).browse.links@.len() == pending.links@.len(),
            forall|k: int|
                0 <= k < pending.links@.len() ==> same_link(
                    #[trigger] final(self).browse.links@[k],
                    pending.links@[k],
                ),
            final(self).browse.last_stream matches Some(s) && same_stream(s, pending.selected),
            final(self).menus.track_language_index == 0,
            final(self).task.track_language_choices@ == choices@,
            final(self).task.pending_playback == Some(pending),
            final(self).nav.screen == Screen::TrackLanguage,
            final(self).nav.stack == old(self).nav.stack,
            final(self).nav.quit == old(self).nav.quit,
            final(self).status@ == "Select track language for this episode."@,
            final(self).prefs == old(self).prefs,
            final(self).requests == old(self).requests,
    {
        self.finish_playback_task();
        self.browse.links = clone_links(&pending.links);
        self.browse.last_stream = Some(pending.selected.clone());
        self.menus.track_language_index = 0;
        self.task.track_language_choices = choices;
        self.task.pending_playback = Some(pending);
        self.nav.screen = Screen::TrackLanguage;
        self.status = String::from_str("Select track language for this episode.");
    }

    fn playback_launched(
        &mut self,
        show: AnimeSearchResult,
        episode: String,
        links: Vec<StreamLink>,
        selected: SelectedStream,
        status: String,
        return_screen: Screen,
        monitor_iina: bool,
    )
        ensures
            !final(self).task.running,
            final(self).task.loading is None,
            final(self).browse.selected_show == Some(show),
            final(self).browse.links@ == links@,
            final(self).browse.last_stream == Some(selected),
            final(self).browse.current_episode == Some(episode),
            final(self).task.pending_playback is None,
            final(self).task.track_language_choices@.len() == 0,
            final(self).nav.stack@ == (if return_screen != Screen::Playing && (old(self).nav.stack@.len()
                == 0 || old(self).nav.stack@.last() != return_screen) {
                old(self).nav.stack@.push(return_screen)
            } else {
                old(self).nav.stack@
            }),
            final(self).nav.screen == Screen::Playing,
            final(self).nav.quit == old(self).nav.quit,
            final(self).status == status,
            monitor_iina ==> (final(self).task.iina_watch matches Some(w) && w.episode@ == episode@
                && !w.seen_running),
            !monitor_iina ==> final(self).task.iina_watch == old(self).task.iina_watch,
            final(self).prefs == old(self).prefs,
            final(self).requests == old(self).requests,
    {
        self.finish_playback_task();
        let watched = if monitor_iina {
            Some(IinaWatch { episode: episode.clone(), seen_running: false })
        } else {
            None
        };
        self.browse.selected_show = Some(show);
        self.browse.links = links;
        self.browse.last_stream = Some(selected);
        self.browse.current_episode = Some(episode);
        self.task.pending_playback = None;
        self.task.track_language_choices.clear();
        let n = self.nav.stack.len();
        if return_screen != Screen::Playing && (n == 0 || self.nav.stack[n - 1] != return_screen) {
            self.nav.stack.push(return_screen);
        }
        self.nav.screen = Screen::Playing;
        self.status = status;
        if monitor_iina {
            self.task.iina_watch = watched;
        }
    }

    /// Follows what the playback task reports. Once the task was stopped or
    /// has ended, nothing it reports is followed any more.
    pub fn handle_playback_event(&mut self, event: PlaybackEvent)
        requires
            old(self).task.loading matches Some(l) ==> l.total_stages >= 1,
        ensures
            !old(self).task.running ==> *final(self) == *old(self),
            old(self).task.running ==> match event {
                PlaybackEvent::Progress { detail, stage, note } => {
                    &&& final(self).status == detail
                    &&& final(self).task.running
                    &&& final(self).nav == old(self).nav
                    &&& match old(self).task.loading {
                        None => final(self).task.loading is None,
                        Some(l0) => final(self).task.loading matches Some(l1) && l1.stage
                            == clamp_stage(stage, l0.total_stages) && l1.detail@ == detail@
                            && views(l1.notes@) == notes_after(views(l0.notes@), opt_seq(note)),
                    }
                },
                PlaybackEvent::TrackLanguage { pending, choices } => {
                    &&& !final(self).task.running
                    &&& final(self).nav.screen == Screen::TrackLanguage
                    &&& final(self).nav.stack == old(self).nav.stack
                    &&& final(self).task.pending_playback == Some(pending)
                    &&& final(self).task.track_language_choices@ == choices@
                    &&& final(self).menus.track_language_index == 0
                    &&& final(self).browse.last_stream matches Some(s) && same_stream(
                        s,
                        pending.selected,
                    )
                    &&& final(self).status@ == "Select track language for this episode."@
                },
                PlaybackEvent::Launched {
                    show,
                    episode,
                    links,
                    selected,
                    status,
                    return_screen,
                    monitor_iina,
                } => {
                    &&& !final(self).task.running
                    &&& final(self).nav.screen == Screen::Playing
                    &&& final(self).nav.stack@ == (if return_screen != Screen::Playing && (old(
                        self).nav.stack@.len() == 0 || old(self).nav.stack@.last()
                        != return_screen) {
                        old(self).nav.stack@.push(return_screen)
                    } else {
                        old(self).nav.stack@
                    })
                    &&& final(self).browse.selected_show == Some(show)
                    &&& final(self).browse.links@ == links@
                    &&& final(self).browse.last_stream == Some(selected)
                    &&& final(self).browse.current_episode == Some(episode)
                    &&& final(self).task.pending_playback is None
                    &&& final(self).task.track_language_choices@.len() == 0
                    &&& final(self).status == status
                    &&& monitor_iina ==> (final(self).task.iina_watch matches Some(w)
                        && w.episode@ == episode@ && !w.seen_running)
                    &&& !monitor_iina ==> final(self).task.iina_watch == old(self).task.iina_watch
                },
                PlaybackEvent::Error(e) => {
                    &&& !final(self).task.running
                    &&& final(self).task.loading is None
                    &&& final(self).nav.screen == old(self).task.return_spec()
                    &&& final(self).nav.stack == old(self).nav.stack
                    &&& final(self).status == e
                },
            },
            final(self).nav.quit == old(self).nav.quit,
            final(self).prefs == old(self).prefs,
            final(self).requests == old(self).requests,
    {
        if !self.task.running {
            return;
        }
        match event {
            PlaybackEvent::Progress { detail, stage, note } => {
                self.playback_progress(detail, stage, note);
            },
            PlaybackEvent::TrackLanguage { pending, choices } => {
                self.track_language_ready(pending, choices);
            },
            PlaybackEvent::Launched {
                show,
                episode,
                links,
                selected,
                status,
                return_screen,
                monitor_iina,
            } => {
                self.playback_launched(
                    show,
                    episode,
                    links,
                    selected,
                    status,
                    return_screen,
                    monitor_iina,
                );
            },
            PlaybackEvent::Error(e) => {
                self.playback_failed(e);
            },
        }
    }

    /// The playback task ended without reporting how: it failed.
    pub fn playback_stopped(&mut self)
        ensures
            !old(self).task.running ==> *final(self) == *old(self),
            old(self).task.running ==> {
                &&& !final(self).task.running
                &&& final(self).nav.screen == old(self).task.return_spec()
                &&& final(self).status@ == "Episode loading stopped before it finished."@
            },
    {
        if !self.task.running {
            return;
        }
        self.playback_failed(String::from_str("Episode loading stopped before it finished."));
    }

    /// A check of the watched IINA player: seen running, it is marked so;
    /// found closed after it was seen running, or once the grace period
    /// after launch has passed, the IINA-closed screen is shown.
    pub fn iina_checked(&mut self, running: bool, elapsed_secs: u64)
        ensures
            old(self).task.iina_watch is None ==> *final(self) == *old(self),
            old(self).task.iina_watch matches Some(w) ==> {
                &&& running ==> (final(self).task.iina_watch matches Some(w2) && w2.episode
                    == w.episode && w2.seen_running) && final(self).nav == old(self).nav
                    && final(self).status == old(self).status
                &&& !running && (w.seen_running || elapsed_secs >= IINA_START_GRACE_SECS) ==> {
                    &&& final(self).task.iina_watch is None
                    &&& final(self).menus.iina_closed_index == 0
                    &&& final(self).nav.screen == Screen::IinaClosed
                    &&& final(self).nav.stack == old(self).nav.stack
                    &&& final(self).status@ == "IINA is closed after episode "@ + w.episode@
                        + ". Choose what to do next."@
                }
                &&& !running && !w.seen_running && elapsed_secs < IINA_START_GRACE_SECS ==> *final(
                    self) == *old(self)
            },
            final(self).nav.quit == old(self).nav.quit,
            final(self).browse == old(self).browse,
            final(self).prefs == old(self).prefs,
    {
        let watch = match &self.task.iina_watch {
            Some(w) => w,
            None => return,
        };
        if running {
            let episode = watch.episode.clone();
            self.task.iina_watch = Some(IinaWatch { episode, seen_running: true });
            return;
        }
        if watch.seen_running || elapsed_secs >= IINA_START_GRACE_SECS {
            let status = framed(
                "IINA is closed after episode ",
                watch.episode.as_str(),
                ". Choose what to do next.",
            );
            self.task.iina_watch = None;
            self.menus.iina_closed_index = 0;
            self.nav.screen = Screen::IinaClosed;
            self.status = status;
        }
    }
}

} // verus!
