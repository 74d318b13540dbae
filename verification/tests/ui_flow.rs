use anicli::config::{AppConfig, EnvValues, PlayerChoice, UserSettings};
use anicli::events::PlaybackEvent;
use anicli::history::HistoryEntry;
use anicli::keys::{KeyRoute, key_route};
use anicli::media::{AnimeSearchResult, SelectedStream};
use anicli::player::PlayerHost;
use anicli::screens::{controls_hint, loading_note_lines, stage_label};
use anicli::tui::{Screen, SettingChoice};
use anicli::ui::{Effect, Key, UiState};

fn env() -> EnvValues {
    EnvValues {
        mode: None,
        quality: None,
        download_dir: None,
        history_dir: None,
        player: None,
        skip_title: None,
        anilist_client_id: None,
        anilist_token: None,
        skip_intro: None,
        no_detach: None,
        exit_after_play: None,
        log: None,
    }
}

fn host() -> PlayerHost {
    PlayerHost { macos: false, windows: false, iina_bundled: false, mpv_flatpak: false }
}

fn state() -> UiState {
    let config = AppConfig::from_values(&env(), &UserSettings::default(), "/cfg/settings.toml", "/state");
    UiState::new(config, host())
}

fn show() -> AnimeSearchResult {
    AnimeSearchResult { id: "abc".to_owned(), title: "Demo".to_owned(), episode_count: Some(3) }
}

fn stream() -> SelectedStream {
    SelectedStream {
        quality: "1080p".to_owned(),
        url: "https://x.test/v.m3u8".to_owned(),
        source: "S".to_owned(),
        referrer: None,
        subtitle: None,
        subtitles: Vec::new(),
        hardsub_language: None,
        audio_language: None,
    }
}

fn episodes() -> Vec<String> {
    vec!["1".to_owned(), "2".to_owned(), "3".to_owned()]
}

fn type_text(s: &mut UiState, text: &str) {
    for c in text.chars() {
        s.handle_key(Key::Char(c));
    }
}

fn on_episode_list() -> UiState {
    let mut s = state();
    type_text(&mut s, "demo");
    s.handle_key(Key::Enter);
    s.search_finished(vec![show()]);
    s.episodes_fetched(show(), episodes(), Vec::new(), None);
    s
}

#[test]
fn starts_on_the_search_screen() {
    let s = state();
    assert_eq!(s.nav.screen, Screen::Search);
    assert_eq!(s.status, "Type an anime title and press Enter.");
}

#[test]
fn ctrl_c_quits_everywhere() {
    for screen in [Screen::Search, Screen::Loading, Screen::IinaClosed, Screen::Playing] {
        let mut s = state();
        s.nav.screen = screen;
        assert!(matches!(s.handle_key(Key::CtrlC), Effect::Nothing));
        assert!(s.nav.quit);
    }
}

#[test]
fn search_key_trims_the_query() {
    let mut s = state();
    type_text(&mut s, "  frieren ");
    match s.handle_key(Key::Enter) {
        Effect::Search(q) => assert_eq!(q, "frieren"),
        other => panic!("unexpected {other:?}"),
    }
    assert_eq!(s.status, "Searching AllAnime for \"frieren\"...");
}

#[test]
fn empty_search_is_reported() {
    let mut s = state();
    assert!(matches!(s.handle_key(Key::Enter), Effect::Nothing));
    assert_eq!(s.status, "Search query is empty.");
}

#[test]
fn question_mark_is_typed_on_the_search_screen() {
    let mut s = state();
    s.handle_key(Key::Char('?'));
    assert_eq!(s.browse.query, "?");
    assert_eq!(key_route(Screen::Results, Key::Char('?')), KeyRoute::Help);
}

#[test]
fn search_results_then_episodes() {
    let mut s = state();
    s.search_finished(vec![show()]);
    assert_eq!(s.nav.screen, Screen::Results);
    assert_eq!(s.status, "1 result(s). Select an anime.");
    match s.handle_key(Key::Enter) {
        Effect::FetchEpisodes(found) => assert_eq!(found, show()),
        other => panic!("unexpected {other:?}"),
    }
    s.episodes_fetched(show(), episodes(), Vec::new(), None);
    assert_eq!(s.nav.screen, Screen::Episodes);
    assert_eq!(s.browse.episode_index, 2);
    assert_eq!(s.status, "3 episode(s) available.");
    assert_eq!(s.nav.stack, vec![Screen::Search, Screen::Results]);
}

#[test]
fn no_results_stays_on_search() {
    let mut s = state();
    s.search_finished(Vec::new());
    assert_eq!(s.nav.screen, Screen::Search);
    assert_eq!(s.status, "No results found.");
}

#[test]
fn playing_an_episode_shows_loading_and_follows_the_task() {
    let mut s = on_episode_list();
    let effect = s.handle_key(Key::Enter);
    match effect {
        Effect::LoadEpisode(req) => {
            assert_eq!(req.episode, "3");
            assert_eq!(req.return_screen, Screen::Episodes);
        },
        other => panic!("unexpected {other:?}"),
    }
    assert_eq!(s.nav.screen, Screen::Loading);
    assert!(s.task.running);
    assert_eq!(s.status, "Loading Demo episode 3. The stream providers are being checked in parallel.");

    s.handle_playback_event(PlaybackEvent::Progress { detail: "Step".to_owned(), stage: 9, note: Some("n".to_owned()) });
    let loading = s.task.loading.as_ref().unwrap();
    assert_eq!(loading.stage, 5);
    assert_eq!(loading.notes.last().unwrap(), "n");
    assert_eq!(s.status, "Step");

    s.handle_playback_event(PlaybackEvent::Launched {
        show: show(),
        episode: "3".to_owned(),
        links: Vec::new(),
        selected: stream(),
        status: "Playing.".to_owned(),
        return_screen: Screen::Episodes,
        monitor_iina: true,
    });
    assert_eq!(s.nav.screen, Screen::Playing);
    assert!(!s.task.running);
    assert_eq!(s.browse.current_episode.as_deref(), Some("3"));
    assert_eq!(s.nav.stack.last(), Some(&Screen::Episodes));
    assert_eq!(s.task.iina_watch.as_ref().unwrap().episode, "3");
}

#[test]
fn progress_notes_skip_repeats_and_keep_the_last_five() {
    let mut s = on_episode_list();
    s.handle_key(Key::Enter);
    for note in ["a", "a", "b", "c", "d", "e", "f"] {
        s.handle_playback_event(PlaybackEvent::Progress {
            detail: "x".to_owned(),
            stage: 0,
            note: Some(note.to_owned()),
        });
    }
    let loading = s.task.loading.as_ref().unwrap();
    assert_eq!(loading.stage, 1);
    assert_eq!(loading.notes, vec!["b", "c", "d", "e", "f"]);
}

#[test]
fn escape_cancels_loading_and_other_keys_are_ignored() {
    let mut s = on_episode_list();
    s.handle_key(Key::Enter);
    s.handle_key(Key::Char('q'));
    assert_eq!(s.nav.screen, Screen::Loading);
    assert!(!s.nav.quit);
    s.handle_key(Key::Esc);
    assert_eq!(s.nav.screen, Screen::Episodes);
    assert_eq!(s.status, "Episode loading cancelled.");
    assert!(s.requests.abort);
    // The stopped task's report is not followed.
    s.handle_playback_event(PlaybackEvent::Error("late".to_owned()));
    assert_eq!(s.status, "Episode loading cancelled.");
}

#[test]
fn a_failed_task_returns_to_where_it_started() {
    let mut s = on_episode_list();
    s.handle_key(Key::Enter);
    s.handle_playback_event(PlaybackEvent::Error("failed to load episode streams".to_owned()));
    assert_eq!(s.nav.screen, Screen::Episodes);
    assert_eq!(s.status, "failed to load episode streams");
    assert!(!s.task.running);
}

#[test]
fn a_vanished_task_is_reported() {
    let mut s = on_episode_list();
    s.handle_key(Key::Enter);
    s.playback_stopped();
    assert_eq!(s.status, "Episode loading stopped before it finished.");
    assert_eq!(s.nav.screen, Screen::Episodes);
}

#[test]
fn help_then_back_restores_the_screen() {
    let mut s = on_episode_list();
    let stack = s.nav.stack.clone();
    s.handle_key(Key::F(1));
    assert_eq!(s.nav.screen, Screen::Help);
    s.handle_key(Key::Esc);
    assert_eq!(s.nav.screen, Screen::Episodes);
    assert_eq!(s.nav.stack, stack);
}

#[test]
fn escape_on_the_bottom_search_screen_quits() {
    let mut s = state();
    s.handle_key(Key::Esc);
    assert!(s.nav.quit);
}

#[test]
fn shortcuts_toggle_download_mode_and_ask_to_save() {
    let mut s = on_episode_list();
    assert!(!s.prefs.download_mode);
    s.handle_key(Key::Char('d'));
    assert!(s.prefs.download_mode);
    assert!(s.requests.persist);
    assert_eq!(s.status, "Download mode enabled.");
    assert!(matches!(s.handle_key(Key::Char('h')), Effect::ShowHistory));
    assert!(matches!(s.handle_key(Key::Char('i')), Effect::InstallPlugin));
}

#[test]
fn a_new_language_drops_the_results() {
    let mut s = on_episode_list();
    s.handle_key(Key::Char('m'));
    assert_eq!(s.nav.screen, Screen::Language);
    s.handle_key(Key::Down);
    s.handle_key(Key::Enter);
    assert_eq!(s.status, "Language set to dub. Search again for matching results.");
    assert_eq!(s.nav.screen, Screen::Search);
    assert!(s.nav.stack.is_empty());
    assert!(s.browse.episodes.is_empty());
}

#[test]
fn next_episode_at_the_end_is_reported() {
    let mut s = on_episode_list();
    s.browse.current_episode = Some("3".to_owned());
    s.nav.screen = Screen::Playing;
    assert!(matches!(s.handle_key(Key::Char('n')), Effect::Nothing));
    assert_eq!(s.status, "Out of range: no next episode.");
    match s.handle_key(Key::Char('p')) {
        Effect::LoadEpisode(req) => {
            assert_eq!(req.episode, "2");
            assert_eq!(req.return_screen, Screen::Playing);
        },
        other => panic!("unexpected {other:?}"),
    }
}

#[test]
fn iina_closing_is_noticed_after_it_ran_or_after_the_grace_period() {
    let mut s = on_episode_list();
    s.handle_key(Key::Enter);
    s.handle_playback_event(PlaybackEvent::Launched {
        show: show(),
        episode: "3".to_owned(),
        links: Vec::new(),
        selected: stream(),
        status: "Playing.".to_owned(),
        return_screen: Screen::Episodes,
        monitor_iina: true,
    });
    s.iina_checked(false, 2);
    assert_eq!(s.nav.screen, Screen::Playing);
    s.iina_checked(true, 3);
    assert!(s.task.iina_watch.as_ref().unwrap().seen_running);
    s.iina_checked(false, 4);
    assert_eq!(s.nav.screen, Screen::IinaClosed);
    assert_eq!(s.status, "IINA is closed after episode 3. Choose what to do next.");
    assert!(s.task.iina_watch.is_none());
    assert_eq!(s.iina_next_label(), "No next episode available");
    // Select an episode.
    s.handle_key(Key::Down);
    s.handle_key(Key::Down);
    assert!(matches!(s.handle_key(Key::Enter), Effect::Nothing));
    assert_eq!(s.nav.screen, Screen::Episodes);
}

#[test]
fn continuing_history_plays_the_next_episode() {
    let mut s = state();
    s.history_loaded(vec![HistoryEntry {
        episode: "1".to_owned(),
        anime_id: "abc".to_owned(),
        title: "Demo (3 episodes)".to_owned(),
    }]);
    assert_eq!(s.nav.screen, Screen::History);
    let entry = match s.handle_key(Key::Enter) {
        Effect::ContinueHistory(e) => e,
        other => panic!("unexpected {other:?}"),
    };
    assert_eq!(s.status, "Continuing Demo (3 episodes)...");
    match s.continue_history_with(entry, episodes()) {
        Effect::LoadEpisode(req) => {
            assert_eq!(req.episode, "2");
            assert_eq!(req.show.title, "Demo");
            assert_eq!(req.show.episode_count, Some(3));
        },
        other => panic!("unexpected {other:?}"),
    }
    assert_eq!(s.nav.stack, vec![Screen::Search]);
    assert_eq!(s.browse.episode_index, 1);
}

#[test]
fn nothing_left_to_continue_is_reported() {
    let mut s = state();
    let entry = HistoryEntry { episode: "3".to_owned(), anime_id: "abc".to_owned(), title: "Demo".to_owned() };
    assert!(matches!(s.continue_history_with(entry, episodes()), Effect::Nothing));
    assert_eq!(s.status, "no unwatched episode remains for Demo");
}

#[test]
fn header_shows_the_preferences() {
    let s = state();
    assert_eq!(s.header_title(), "anicli-rs | mode: sub | quality: best | skip: off | download: off");
}

#[test]
fn download_mode_plays_with_the_download_player() {
    let mut s = on_episode_list();
    s.handle_key(Key::Char('d'));
    match s.handle_key(Key::Enter) {
        Effect::LoadEpisode(req) => {
            assert_eq!(req.playback_config.player, PlayerChoice::Download);
            assert!(!req.filter_soft_subs);
        },
        other => panic!("unexpected {other:?}"),
    }
}

#[test]
fn screen_texts() {
    assert_eq!(controls_hint(Screen::Loading), "Loading episode | Esc cancel");
    let mut s = on_episode_list();
    s.handle_key(Key::Enter);
    assert_eq!(stage_label(s.task.loading.as_ref().unwrap()), "stage 1 of 5");
    assert_eq!(s.current_setting_value_label(SettingChoice::Quality), "best");
    assert_eq!(s.current_episode_summary(), "Demo episode unknown");
}

#[test]
fn settings_menu_opens_the_selected_setting() {
    let mut s = on_episode_list();
    s.handle_key(Key::F(2));
    assert_eq!(s.nav.screen, Screen::Settings);
    s.handle_key(Key::Down);
    s.handle_key(Key::Enter);
    assert_eq!(s.nav.screen, Screen::SettingOptions);
    s.handle_key(Key::Esc);
    assert_eq!(s.nav.screen, Screen::Settings);
    assert_eq!(s.menus.active_setting, None);
}

#[test]
fn global_keys_have_their_routes() {
    assert_eq!(key_route(Screen::Loading, Key::Char('x')), KeyRoute::Ignore);
    assert_eq!(key_route(Screen::Loading, Key::Esc), KeyRoute::CancelLoading);
    assert_eq!(key_route(Screen::Episodes, Key::Char('l')), KeyRoute::Logs);
    assert_eq!(key_route(Screen::Logs, Key::Char('l')), KeyRoute::Screen);
    assert_eq!(key_route(Screen::Settings, Key::Char('d')), KeyRoute::ToggleDownload);
    assert_eq!(key_route(Screen::IinaClosed, Key::F(1)), KeyRoute::Help);
    assert_eq!(key_route(Screen::IinaClosed, Key::Enter), KeyRoute::IinaClosed);
}

#[test]
fn function_keys_work_from_any_screen() {
    for screen in [Screen::Loading, Screen::IinaClosed, Screen::Search, Screen::SettingOptions, Screen::AniListLogin] {
        assert_eq!(key_route(screen, Key::F(1)), KeyRoute::Help);
        assert_eq!(key_route(screen, Key::F(2)), KeyRoute::Settings);
        assert_eq!(key_route(screen, Key::F(3)), KeyRoute::AniList);
    }
    let mut s = state();
    s.nav.screen = Screen::Loading;
    s.handle_key(Key::F(1));
    assert_eq!(s.nav.screen, Screen::Help);
    s.handle_key(Key::F(2));
    assert_eq!(s.nav.screen, Screen::Settings);
}

#[test]
fn shortcuts_work_outside_search() {
    for screen in [Screen::Loading, Screen::Settings, Screen::SettingOptions, Screen::Quality, Screen::Language, Screen::IinaClosed] {
        assert_eq!(key_route(screen, Key::Char('d')), KeyRoute::ToggleDownload);
        assert_eq!(key_route(screen, Key::Char('k')), KeyRoute::ToggleSkipIntro);
        assert_eq!(key_route(screen, Key::Char('h')), KeyRoute::History);
        assert_eq!(key_route(screen, Key::Char('l')), KeyRoute::Logs);
        assert_eq!(key_route(screen, Key::Char('i')), KeyRoute::InstallPlugin);
    }
    assert_eq!(key_route(Screen::Settings, Key::Char('c')), KeyRoute::Quality);
    assert_eq!(key_route(Screen::Quality, Key::Char('m')), KeyRoute::Language);
    assert_eq!(key_route(Screen::Search, Key::Char('d')), KeyRoute::Screen);
    assert_eq!(key_route(Screen::AniListLogin, Key::Char('d')), KeyRoute::Screen);
}

#[test]
fn ctrl_c_keeps_the_stack_and_query() {
    let mut s = on_episode_list();
    let stack = s.nav.stack.clone();
    s.handle_key(Key::CtrlC);
    assert!(s.nav.quit);
    assert_eq!(s.nav.screen, Screen::Episodes);
    assert_eq!(s.nav.stack, stack);
    assert_eq!(s.browse.query, "demo");
}

#[test]
fn history_places_the_episode_selector() {
    let mut s = state();
    let history = vec![
        HistoryEntry { episode: "5".to_owned(), anime_id: "other".to_owned(), title: "Other".to_owned() },
        HistoryEntry { episode: "2".to_owned(), anime_id: "abc".to_owned(), title: "Demo".to_owned() },
    ];
    s.episodes_fetched(show(), episodes(), history, None);
    assert_eq!(s.browse.episode_index, 1);
    let mut s = state();
    let history = vec![HistoryEntry { episode: "9".to_owned(), anime_id: "abc".to_owned(), title: "Demo".to_owned() }];
    s.episodes_fetched(show(), episodes(), history, None);
    assert_eq!(s.browse.episode_index, 2);
}


#[test]
fn iina_closed_summary_names_what_closed() {
    let mut s = state();
    assert_eq!(s.iina_closed_summary(), " after Unknown title episode unknown.");
    s.browse.selected_show = Some(show());
    s.browse.current_episode = Some("2".to_owned());
    assert_eq!(s.iina_closed_summary(), " after Demo episode 2.");
}

#[test]
fn loading_notes_show_the_newest_first() {
    let mut s = on_episode_list();
    s.handle_key(Key::Enter);
    s.handle_playback_event(PlaybackEvent::Progress { detail: "d".to_owned(), stage: 2, note: Some("second".to_owned()) });
    let lines = loading_note_lines(s.task.loading.as_ref().unwrap());
    assert_eq!(lines, vec!["- second".to_owned(), "- Requesting episode source list from AllAnime.".to_owned()]);
}

#[test]
fn missing_next_episode_changes_only_the_status() {
    let mut s = on_episode_list();
    s.nav.screen = Screen::Playing;
    s.browse.current_episode = Some("3".to_owned());
    s.browse.selected_show = Some(show());
    let stack = s.nav.stack.clone();
    assert!(matches!(s.handle_key(Key::Char('n')), Effect::Nothing));
    assert_eq!(s.status, "Out of range: no next episode.");
    assert_eq!(s.nav.screen, Screen::Playing);
    assert_eq!(s.nav.stack, stack);
}
