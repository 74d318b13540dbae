//! Which rule a key press follows: quitting, the loading and IINA screens,
//! the global shortcuts, and at last the current screen's own keys.

use vstd::prelude::*;
use crate::tui::Screen;
use crate::config::AppConfig;
use crate::ui::{
    Key, UiState, Effect, Nav, Menus, Prefs, Requests, with_nav, plain_to_leave, shortcuts_spec, takes_text, nav_push, nav_back, mode_index, quality_index_of,
    search_key_post, results_key_post, episodes_key_post, playing_key_post, iina_closed_key_post,
    quality_key_post, language_key_post, track_language_key_post, history_key_post, settings_key_post,
    setting_options_key_post,
};
use crate::lists::{anilist_open_post, anilist_login_key_post, anilist_key_post, anilist_filter_key_post};

verus! {

/// The rule a key press follows.
#[derive(Debug, Clone, Copy, PartialEq, Eq, Structural)]
pub enum KeyRoute {
    /// Control-C quits from everywhere.
    Quit,
    /// Esc on the loading screen cancels loading.
    CancelLoading,
    /// Any other key on the loading screen does nothing.
    Ignore,
    /// The IINA-closed screen handles its own keys.
    IinaClosed,
    Help,
    Settings,
    /// F3 opens AniList.
    AniList,
    Back,
    InstallPlugin,
    Logs,
    History,
    ToggleDownload,
    ToggleSkipIntro,
    Language,
    Quality,
    /// The current screen handles the key.
    Screen,
}

/// The single-key shortcut a key stands for on a screen, if any: all of
/// them work outside the screens that take text, but for the one that
/// would show the screen already shown.
pub open spec fn shortcut_spec(screen: Screen, key: Key) -> Option<KeyRoute> {
    if !shortcuts_spec(screen) {
        None
    } else if key == Key::Char('i') {
        Some(KeyRoute::InstallPlugin)
    } else if key == Key::Char('l') && screen != Screen::Logs {
        Some(KeyRoute::Logs)
    } else if key == Key::Char('h') && screen != Screen::History {
        Some(KeyRoute::History)
    } else if key == Key::Char('d') {
        Some(KeyRoute::ToggleDownload)
    } else if key == Key::Char('k') {
        Some(KeyRoute::ToggleSkipIntro)
    } else if key == Key::Char('m') && screen != Screen::Language {
        Some(KeyRoute::Language)
    } else if key == Key::Char('c') && screen != Screen::Quality {
        Some(KeyRoute::Quality)
    } else {
        None
    }
}

/// The keys the IINA-closed screen handles itself.
pub open spec fn iina_closed_keys(key: Key) -> bool {
    key == Key::Up || key == Key::Down || key == Key::Enter || key == Key::Esc
}

/// The rule a key press on a screen follows, in order of precedence:
/// Control-C; F1, F2 and F3 from any screen (and `?` and `s` where
/// characters are not typed as text); Esc on the loading screen; the keys
/// of the IINA-closed screen; Esc; the single-key shortcuts; and at last
/// the current screen, but for the loading screen, which ignores the rest.
pub open spec fn key_route_spec(screen: Screen, key: Key) -> KeyRoute {
    if key == Key::CtrlC {
        KeyRoute::Quit
    } else if key == Key::F(1) || (key == Key::Char('?') && !takes_text(screen)) {
        KeyRoute::Help
    } else if key == Key::F(2) || (key == Key::Char('s') && shortcuts_spec(screen)) {
        KeyRoute::Settings
    } else if key == Key::F(3) {
        KeyRoute::AniList
    } else if screen == Screen::Loading && key == Key::Esc {
        KeyRoute::CancelLoading
    } else if screen == Screen::IinaClosed && iina_closed_keys(key) {
        KeyRoute::IinaClosed
    } else if key == Key::Esc {
        KeyRoute::Back
    } else {
        match shortcut_spec(screen, key) {
            Some(r) => r,
            None => if screen == Screen::Loading {
                KeyRoute::Ignore
            } else {
                KeyRoute::Screen
            },
        }
    }
}

/// The rule a key press on a screen follows (see `key_route_spec`).
pub fn key_route(screen: Screen, key: Key) -> (r: KeyRoute)
    ensures
        r == key_route_spec(screen, key),
{
    if key == Key::CtrlC {
        return KeyRoute::Quit;
    }
    let text = screen == Screen::Search || screen == Screen::AniListLogin;
    if key == Key::F(1) || (key == Key::Char('?') && !text) {
        return KeyRoute::Help;
    }
    if key == Key::F(2) || (key == Key::Char('s') && !text) {
        return KeyRoute::Settings;
    }
    if key == Key::F(3) {
        return KeyRoute::AniList;
    }
    if screen == Screen::Loading && key == Key::Esc {
        return KeyRoute::CancelLoading;
    }
    if screen == Screen::IinaClosed && (key == Key::Up || key == Key::Down || key == Key::Enter
        || key == Key::Esc) {
        return KeyRoute::IinaClosed;
    }
    if key == Key::Esc {
        return KeyRoute::Back;
    }
    if !text {
        if key == Key::Char('i') {
            return KeyRoute::InstallPlugin;
        } else if key == Key::Char('l') && screen != Screen::Logs {
            return KeyRoute::Logs;
        } else if key == Key::Char('h') && screen != Screen::History {
            return KeyRoute::History;
        } else if key == Key::Char('d') {
            return KeyRoute::ToggleDownload;
        } else if key == Key::Char('k') {
            return KeyRoute::ToggleSkipIntro;
        } else if key == Key::Char('m') && screen != Screen::Language {
            return KeyRoute::Language;
        } else if key == Key::Char('c') && screen != Screen::Quality {
            return KeyRoute::Quality;
        }
    }
    if screen == Screen::Loading {
        KeyRoute::Ignore
    } else {
        KeyRoute::Screen
    }
}

/// Control-C quits from every screen.
pub proof fn ctrl_c_always_quits(screen: Screen)
    ensures
        key_route_spec(screen, Key::CtrlC) == KeyRoute::Quit,
{
}

/// F1 opens the help, F2 the settings and F3 AniList, from every screen.
pub proof fn function_keys_work_everywhere(screen: Screen)
    ensures
        key_route_spec(screen, Key::F(1)) == KeyRoute::Help,
        key_route_spec(screen, Key::F(2)) == KeyRoute::Settings,
        key_route_spec(screen, Key::F(3)) == KeyRoute::AniList,
{
}

/// Outside the screens that take text, `c`, `m`, `d`, `k`, `h`, `l` and `i`
/// are shortcuts on every screen (`c`, `m`, `h` and `l` but on the screen
/// they show).
pub proof fn shortcuts_work_outside_text(screen: Screen)
    requires
        !takes_text(screen),
    ensures
        key_route_spec(screen, Key::Char('i')) == KeyRoute::InstallPlugin,
        key_route_spec(screen, Key::Char('d')) == KeyRoute::ToggleDownload,
        key_route_spec(screen, Key::Char('k')) == KeyRoute::ToggleSkipIntro,
        screen != Screen::Logs ==> key_route_spec(screen, Key::Char('l')) == KeyRoute::Logs,
        screen != Screen::History ==> key_route_spec(screen, Key::Char('h')) == KeyRoute::History,
        screen != Screen::Language ==> key_route_spec(screen, Key::Char('m')) == KeyRoute::Language,
        screen != Screen::Quality ==> key_route_spec(screen, Key::Char('c')) == KeyRoute::Quality,
{
}

/// While loading, every key but Esc, Control-C, the function keys and the
/// shortcuts is ignored.
pub proof fn loading_ignores_other_keys(key: Key)
    requires
        key != Key::CtrlC,
        key != Key::Esc,
        key != Key::F(1) && key != Key::F(2) && key != Key::F(3),
        shortcut_spec(Screen::Loading, key) is None,
        key != Key::Char('?') && key != Key::Char('s'),
    ensures
        key_route_spec(Screen::Loading, key) == KeyRoute::Ignore,
{
}

/// Esc on a setting's options opened from the settings screen returns to
/// the settings screen, with the setting closed.
pub proof fn esc_from_options_returns_to_settings(stack: Seq<Screen>)
    ensures
        key_route_spec(Screen::SettingOptions, Key::Esc) == KeyRoute::Back,
        nav_back(Screen::SettingOptions, stack.push(Screen::Settings)).0 == Screen::Settings,
{
}

/// On the search screen every character is typed.
pub proof fn search_screen_types_characters(c: char)
    ensures
        key_route_spec(Screen::Search, Key::Char(c)) == KeyRoute::Screen,
{
}

impl UiState {
    /// Handles a key press: the rule it follows (see `key_route_spec`) is
    /// applied, and the effect to perform is returned.
    pub fn handle_key(&mut self, key: Key) -> (r: Effect)
        ensures
            ({
                let o = *old(self);
                let f = *final(self);
                let route = key_route_spec(o.nav.screen, key);
                let screen = o.nav.screen;
                &&& route == KeyRoute::Quit ==> f == (UiState { nav: Nav { quit: true, ..o.nav }, ..o })
                    && r is Nothing
                &&& route == KeyRoute::CancelLoading ==> f.nav.screen == o.task.return_spec()
                    && f.nav.stack == o.nav.stack && f.status@ == "Episode loading cancelled."@
                    && !f.task.running && r is Nothing
                &&& route == KeyRoute::Ignore ==> f == o && r is Nothing
                &&& route == KeyRoute::IinaClosed ==> iina_closed_key_post(o, f, key, r)
                &&& route == KeyRoute::Help ==> (f.nav.screen, f.nav.stack@) == nav_push(
                    screen,
                    o.nav.stack@,
                    Screen::Help,
                ) && f == with_nav(o, f.nav) && r is Nothing
                &&& route == KeyRoute::Settings ==> f.nav.screen == Screen::Settings && r is Nothing
                    && (screen == Screen::Settings ==> f == o)
                    && (screen != Screen::Settings && !o.nav.stack@.contains(Screen::Settings) ==> f
                    == (UiState { nav: f.nav, menus: Menus { settings_index: 0, ..o.menus }, ..o }))
                &&& route == KeyRoute::AniList ==> anilist_open_post(o, f, r)
                &&& route == KeyRoute::Back ==> ({
                    let (s, st, q) = nav_back(o.after_cleanup(), o.nav.stack@);
                    &&& f.nav.screen == s
                    &&& f.nav.stack@ == st
                    &&& f.nav.quit == (o.nav.quit || q)
                    &&& r is Nothing
                    &&& plain_to_leave(screen) ==> f == with_nav(o, f.nav)
                })
                &&& route == KeyRoute::InstallPlugin ==> r is InstallPlugin && f == o
                &&& route == KeyRoute::Logs ==> r is ShowLogs && f == o
                &&& route == KeyRoute::History ==> r is ShowHistory && f == o
                &&& route == KeyRoute::ToggleDownload ==> f.prefs.download_mode
                    == !o.prefs.download_mode && f.requests.persist && f.nav == o.nav && r is Nothing
                    && f == (UiState {
                        prefs: Prefs {
                            download_mode: !o.prefs.download_mode,
                            config: AppConfig { download_mode: !o.prefs.download_mode, ..o.prefs.config },
                            ..o.prefs
                        },
                        requests: Requests { persist: true, ..o.requests },
                        status: f.status,
                        ..o
                    })
                &&& route == KeyRoute::ToggleSkipIntro ==> f.prefs.skip_intro == !o.prefs.skip_intro
                    && f.requests.persist && f.nav == o.nav && r is Nothing
                    && f == (UiState {
                        prefs: Prefs {
                            skip_intro: !o.prefs.skip_intro,
                            config: AppConfig { skip_intro: !o.prefs.skip_intro, ..o.prefs.config },
                            ..o.prefs
                        },
                        requests: Requests { persist: true, ..o.requests },
                        status: f.status,
                        ..o
                    })
                &&& route == KeyRoute::Language ==> (f.nav.screen, f.nav.stack@) == nav_push(
                    screen,
                    o.nav.stack@,
                    Screen::Language,
                ) && f.menus.language_index == mode_index(o.prefs.mode) && r is Nothing
                    && f == (UiState { nav: f.nav, menus: Menus { language_index: f.menus.language_index, ..o.menus }, ..o })
                &&& route == KeyRoute::Quality ==> (f.nav.screen, f.nav.stack@) == nav_push(
                    screen,
                    o.nav.stack@,
                    Screen::Quality,
                ) && f.menus.quality_index == quality_index_of(o.prefs.quality.model())
                    && r is Nothing
                    && f == (UiState { nav: f.nav, menus: Menus { quality_index: f.menus.quality_index, ..o.menus }, ..o })
                &&& route == KeyRoute::Screen ==> {
                    &&& screen == Screen::Search ==> search_key_post(o, f, key, r)
                    &&& screen == Screen::Results ==> results_key_post(o, f, key, r)
                    &&& screen == Screen::Episodes ==> episodes_key_post(o, f, key, r)
                    &&& screen == Screen::Playing ==> playing_key_post(o, f, key, r)
                    &&& screen == Screen::TrackLanguage ==> track_language_key_post(o, f, key, r)
                    &&& screen == Screen::History ==> history_key_post(o, f, key, r)
                    &&& screen == Screen::Quality ==> quality_key_post(o, f, key) && r is Nothing
                    &&& screen == Screen::Language ==> language_key_post(o, f, key) && r is Nothing
                    &&& screen == Screen::Settings ==> settings_key_post(o, f, key) && r is Nothing
                    &&& screen == Screen::SettingOptions ==> setting_options_key_post(o, f, key)
                        && r is Nothing
                    &&& screen == Screen::AniListLogin ==> anilist_login_key_post(o, f, key, r)
                    &&& screen == Screen::AniList ==> anilist_key_post(o, f, key, r)
                    &&& screen == Screen::AniListFilter ==> anilist_filter_key_post(o, f, key)
                        && r is Nothing
                    &&& (screen == Screen::Help || screen == Screen::Logs || screen
                        == Screen::Schedule || screen == Screen::IinaClosed) ==> f == o && r is Nothing
                }
            }),
    {
        match key_route(self.nav.screen, key) {
            KeyRoute::Quit => {
                self.nav.quit = true;
                Effect::Nothing
            },
            KeyRoute::CancelLoading => {
                self.cancel_loading();
                Effect::Nothing
            },
            KeyRoute::Ignore => Effect::Nothing,
            KeyRoute::IinaClosed => self.handle_iina_closed_key(key),
            KeyRoute::Help => {
                self.show_help();
                Effect::Nothing
            },
            KeyRoute::Settings => {
                self.show_settings();
                Effect::Nothing
            },
            KeyRoute::AniList => self.show_anilist(),
            KeyRoute::Back => {
                self.go_back();
                Effect::Nothing
            },
            KeyRoute::InstallPlugin => Effect::InstallPlugin,
            KeyRoute::Logs => Effect::ShowLogs,
            KeyRoute::History => Effect::ShowHistory,
            KeyRoute::ToggleDownload => {
                let on = !self.prefs.download_mode;
                self.set_download_mode(on);
                Effect::Nothing
            },
            KeyRoute::ToggleSkipIntro => {
                let on = !self.prefs.skip_intro;
                self.set_skip_intro(on);
                Effect::Nothing
            },
            KeyRoute::Language => {
                self.show_language();
                Effect::Nothing
            },
            KeyRoute::Quality => {
                self.show_quality();
                Effect::Nothing
            },
            KeyRoute::Screen => match self.nav.screen {
                Screen::Search => self.handle_search_key(key),
                Screen::Results => self.handle_results_key(key),
                Screen::Episodes => self.handle_episodes_key(key),
                Screen::Playing => self.handle_playing_key(key),
                Screen::Quality => {
                    self.handle_quality_key(key);
                    Effect::Nothing
                },
                Screen::Language => {
                    self.handle_language_key(key);
                    Effect::Nothing
                },
                Screen::TrackLanguage => self.handle_track_language_key(key),
                Screen::Settings => {
                    self.handle_settings_key(key);
                    Effect::Nothing
                },
                Screen::SettingOptions => {
                    self.handle_setting_options_key(key);
                    Effect::Nothing
                },
                Screen::History => self.handle_history_key(key),
                Screen::AniListLogin => self.handle_anilist_login_key(key),
                Screen::AniList => self.handle_anilist_key(key),
                Screen::AniListFilter => {
                    self.handle_anilist_filter_key(key);
                    Effect::Nothing
                },
                _ => Effect::Nothing,
            },
        }
    }
}

} // verus!
