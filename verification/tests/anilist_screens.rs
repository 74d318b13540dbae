use anicli::anilist::{
    AniListAuth, AniListListEntry, AniListMedia, AniListMediaListEntry, AniListMediaListStatus,
    MediaLookup, ProgressUpdate, after_mal_id_lookup, first_media_lookup, progress_update,
};
use anicli::config::{AppConfig, EnvValues, UserSettings};
use anicli::lists::LoginStage;
use anicli::media::AnimeSearchResult;
use anicli::player::PlayerHost;
use anicli::tui::Screen;
use anicli::ui::{Effect, Key, UiState};

fn env(client_id: Option<&str>, token: Option<&str>) -> EnvValues {
    EnvValues {
        mode: None,
        quality: None,
        download_dir: None,
        history_dir: None,
        player: None,
        skip_title: None,
        anilist_client_id: client_id.map(str::to_owned),
        anilist_token: token.map(str::to_owned),
        skip_intro: None,
        no_detach: None,
        exit_after_play: None,
        log: None,
    }
}

fn state_with(client_id: Option<&str>, token: Option<&str>) -> UiState {
    let config = AppConfig::from_values(&env(client_id, token), &UserSettings::default(), "/cfg/settings.toml", "/state");
    UiState::new(config, PlayerHost { macos: false, windows: false, iina_bundled: false, mpv_flatpak: false })
}

fn entry(title: &str, status: AniListMediaListStatus, progress: u32) -> AniListListEntry {
    AniListListEntry {
        list_entry_id: 1,
        media_id: 7,
        mal_id: None,
        title: title.to_owned(),
        titles: vec![title.to_owned()],
        status,
        progress,
        episodes: Some(12),
        list_name: "List".to_owned(),
    }
}

fn type_text(s: &mut UiState, text: &str) {
    for c in text.chars() {
        s.handle_key(Key::Char(c));
    }
}

#[test]
fn f3_without_login_asks_for_the_client_id_then_the_token() {
    let mut s = state_with(None, None);
    s.nav.screen = Screen::Episodes;
    assert!(matches!(s.handle_key(Key::F(3)), Effect::Nothing));
    assert_eq!(s.nav.screen, Screen::AniListLogin);
    assert_eq!(s.anilist.stage, LoginStage::ClientId);
    assert_eq!(s.status, "Enter your AniList API client ID and press Enter.");
    type_text(&mut s, "1234");
    match s.handle_key(Key::Enter) {
        Effect::OpenAniListLogin(url) => {
            assert_eq!(url, "https://anilist.co/api/v2/oauth/authorize?client_id=1234&response_type=token")
        },
        other => panic!("unexpected {other:?}"),
    }
    assert_eq!(s.anilist.stage, LoginStage::Token);
    assert_eq!(s.anilist.auth.client_id.as_deref(), Some("1234"));
    type_text(&mut s, "https://anilist.co/api/v2/oauth/pin#access_token=tok&token_type=Bearer");
    match s.handle_key(Key::Enter) {
        Effect::SaveAniListLogin(auth) => {
            assert_eq!(auth.access_token.as_deref(), Some("tok"));
            assert_eq!(auth.client_id.as_deref(), Some("1234"));
        },
        other => panic!("unexpected {other:?}"),
    }
    assert_eq!(s.status, "Logged in to AniList. Loading your lists...");
}

#[test]
fn empty_client_id_and_missing_token_are_reported() {
    let mut s = state_with(None, None);
    s.handle_key(Key::F(3));
    s.handle_key(Key::Enter);
    assert_eq!(s.status, "AniList client ID is empty.");
    let mut s = state_with(Some("55"), None);
    assert!(matches!(s.handle_key(Key::F(3)), Effect::OpenAniListLogin(_)));
    assert_eq!(s.anilist.stage, LoginStage::Token);
    s.handle_key(Key::Enter);
    assert_eq!(s.status, "No AniList access token found. Paste the token or the redirect URL.");
}

#[test]
fn f3_with_a_token_loads_the_lists_and_f_filters_them() {
    let mut s = state_with(None, Some("tok"));
    match s.handle_key(Key::F(3)) {
        Effect::FetchAniListLists(t) => assert_eq!(t, "tok"),
        other => panic!("unexpected {other:?}"),
    }
    s.anilist_lists_loaded(vec![
        entry("Watching One", AniListMediaListStatus::Current, 3),
        entry("Planned One", AniListMediaListStatus::Planning, 0),
        entry("Watching Two", AniListMediaListStatus::Current, 1),
    ]);
    assert_eq!(s.nav.screen, Screen::AniList);
    assert_eq!(s.status, "3 AniList entries. Press f to choose a list.");
    s.handle_key(Key::Char('f'));
    assert_eq!(s.nav.screen, Screen::AniListFilter);
    s.handle_key(Key::Down);
    s.handle_key(Key::Enter);
    assert_eq!(s.nav.screen, Screen::AniList);
    assert_eq!(s.anilist.filter, Some(AniListMediaListStatus::Current));
    assert_eq!(s.status, "Showing watching.");
    s.handle_key(Key::Down);
    match s.handle_key(Key::Enter) {
        Effect::Search(q) => assert_eq!(q, "Watching Two"),
        other => panic!("unexpected {other:?}"),
    }
}

#[test]
fn saved_login_gives_way_to_the_environment() {
    let mut s = state_with(Some("env-id"), None);
    s.anilist_auth_loaded(AniListAuth { client_id: Some("file-id".to_owned()), access_token: Some("file-tok".to_owned()) });
    assert_eq!(s.anilist.auth.client_id.as_deref(), Some("env-id"));
    assert_eq!(s.anilist.auth.access_token.as_deref(), Some("file-tok"));
}

#[test]
fn anilist_progress_places_the_episode_selector_when_logged_in() {
    let show = AnimeSearchResult { id: "abc".to_owned(), title: "Demo".to_owned(), episode_count: Some(3) };
    let media = AniListMedia {
        id: 99,
        mal_id: None,
        title: "Demo".to_owned(),
        titles: vec!["Demo".to_owned()],
        episodes: Some(3),
        list_entry: Some(AniListMediaListEntry { id: 1, media_id: 99, status: AniListMediaListStatus::Paused, progress: 1 }),
    };
    let mut s = state_with(None, Some("tok"));
    s.episodes_fetched(show, vec!["1".to_owned(), "2".to_owned(), "3".to_owned()], Vec::new(), Some(media));
    assert_eq!(s.browse.episode_index, 0);
    assert_eq!(s.anilist.media_id, Some(99));
}

#[test]
fn progress_is_saved_as_watching() {
    assert_eq!(
        progress_update(99, "4"),
        Some(ProgressUpdate { media_id: 99, progress: 4, status: AniListMediaListStatus::Current })
    );
    assert_eq!(progress_update(99, "4.5"), None);
}

#[test]
fn anime_are_looked_up_by_mal_id_then_by_title() {
    assert!(matches!(first_media_lookup(Some(5), "Demo"), MediaLookup::ByMalId(5)));
    match first_media_lookup(None, "Demo") {
        MediaLookup::ByTitle(t) => assert_eq!(t, "Demo"),
        other => panic!("unexpected {other:?}"),
    }
    match after_mal_id_lookup(None, "Demo") {
        MediaLookup::ByTitle(t) => assert_eq!(t, "Demo"),
        other => panic!("unexpected {other:?}"),
    }
}
