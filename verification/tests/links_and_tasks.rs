use anicli::config::{AppConfig, EnvValues, PlayerChoice, UserSettings};
use anicli::links::{
    SourcesError, dedupe_links, finish_episode_sources, normalize_quality, playable_links,
    provider_error_link, rank_links,
};
use anicli::media::{AnimeSearchResult, StreamLink, TranslationMode};
use anicli::player::PlayerHost;
use anicli::quality::QualityPreference;
use anicli::schedule::{html_unescape, parse_status, schedule_page_url, schedule_routes, schedule_search_url};
use anicli::tasks::{LaunchStep, SourcesStep, after_launch, after_skip_lookup, after_sources, plan_launch, skip_query};
use anicli::player::PlaybackOutcome;
use anicli::skip::SkipLaunch;
use anicli::events::PlaybackEvent;
use anicli::tui::{Screen, TrackLanguageChoice, TrackLanguageKind, dedupe_track_choices, track_language_choices};
use anicli::ui::{LaunchEpisodeRequest, LoadEpisodeRequest};

fn link(quality: &str, url: &str) -> StreamLink {
    StreamLink {
        quality: quality.to_owned(),
        url: url.to_owned(),
        source: "S".to_owned(),
        referrer: None,
        subtitle: None,
        subtitles: Vec::new(),
        hardsub_language: None,
        audio_language: None,
        soft_subbed: false,
    }
}

fn config() -> AppConfig {
    let env = EnvValues {
        mode: None,
        quality: None,
        download_dir: None,
        history_dir: None,
        player: Some("vlc".to_owned()),
        skip_title: None,
        anilist_client_id: None,
        anilist_token: None,
        skip_intro: None,
        no_detach: None,
        exit_after_play: None,
        log: None,
    };
    AppConfig::from_values(&env, &UserSettings::default(), "/cfg/settings.toml", "/state")
}

fn show() -> AnimeSearchResult {
    AnimeSearchResult { id: "id1".to_owned(), title: "Show (TV)".to_owned(), episode_count: Some(12) }
}

#[test]
fn links_are_ranked_by_score_then_label_keeping_ties() {
    let ranked = rank_links(vec![link("720p", "a"), link("hls", "b"), link("1080p", "c"), link("720p", "d")]);
    let urls: Vec<&str> = ranked.iter().map(|l| l.url.as_str()).collect();
    assert_eq!(urls, vec!["c", "a", "d", "b"]);
}

#[test]
fn repeated_links_are_kept_once() {
    let kept = dedupe_links(vec![link("720p", "a"), link("720p", "a"), link("1080p", "a")]);
    assert_eq!(kept.len(), 2);
}

#[test]
fn failed_and_soft_subbed_links_are_dropped() {
    let mut soft = link("720p", "s");
    soft.soft_subbed = true;
    let failed = provider_error_link("P".to_owned(), "boom".to_owned());
    assert_eq!(failed.quality, "error");
    let kept = playable_links(vec![link("720p", "a"), soft, failed], true);
    assert_eq!(kept.len(), 1);
}

#[test]
fn no_playable_link_is_an_error() {
    let err = finish_episode_sources(vec![provider_error_link("P".to_owned(), "x".to_owned())], &QualityPreference::Best, false).unwrap_err();
    assert_eq!(err, SourcesError::NoValidSources);
    assert_eq!(err.message(), "episode is released, but no valid sources were found");
    let ok = finish_episode_sources(vec![link("360p", "a"), link("1080p", "b")], &QualityPreference::Best, false).unwrap();
    assert_eq!(ok.selected.url, "b");
}

#[test]
fn quality_labels_are_normalized() {
    assert_eq!(normalize_quality("1080".to_owned()), "1080p");
    assert_eq!(normalize_quality("hls".to_owned()), "hls");
}

#[test]
fn one_track_language_launches_at_once() {
    let sources = finish_episode_sources(vec![link("1080p", "b")], &QualityPreference::Best, false).unwrap();
    let request = LoadEpisodeRequest {
        show: show(),
        episode: "3".to_owned(),
        mode: TranslationMode::Sub,
        quality: QualityPreference::Best,
        filter_soft_subs: false,
        playback_config: config(),
        skip_intro: true,
        return_screen: Screen::Episodes,
    };
    match after_sources(request, sources) {
        SourcesStep::Launch(l) => {
            assert_eq!(l.episode, "3");
            assert_eq!(l.selected.url, "b");
            assert_eq!(l.return_screen, Screen::Episodes);
            assert!(l.skip_intro);
        },
        other => panic!("unexpected {other:?}"),
    }
}

#[test]
fn launch_plans_the_player_skip_and_history() {
    let sources = finish_episode_sources(vec![link("1080p", "b")], &QualityPreference::Best, false).unwrap();
    let request = LaunchEpisodeRequest {
        show: show(),
        episode: "3".to_owned(),
        links: sources.links,
        selected: sources.selected,
        playback_config: config(),
        skip_intro: true,
        return_screen: Screen::Episodes,
    };
    let host = PlayerHost { macos: false, windows: false, iina_bundled: false, mpv_flatpak: false };
    let plan = plan_launch(&request, host);
    assert_eq!(plan.playback.title, "Show");
    assert!(plan.look_up_skip);
    assert!(!plan.monitor_iina);
    assert_eq!(plan.history_entry.title, "Show (TV) (12 episodes)");
    assert_eq!(plan.history_entry.anime_id, "id1");
    assert_eq!(request.playback_config.player, PlayerChoice::Vlc);
    assert_eq!(skip_query(&request.playback_config, &request.show), "Show (TV)");
}

#[test]
fn schedule_pages() {
    assert_eq!(html_unescape("Tom &amp; Jerry &lt;3&gt; &quot;x&quot; &#39;y&#39;"), "Tom & Jerry <3> \"x\" 'y'");
    let page = r#"<h2 class="english-title">Frieren &amp; Co</h2><time class="countdown-time" datetime="2024-01-05T15:00Z">"#;
    let status = parse_status(page);
    assert_eq!(status.english_title.as_deref(), Some("Frieren & Co"));
    assert_eq!(status.next_sub_release.as_deref(), Some("2024-01-05T15:00Z"));
    assert_eq!(status.status, "Ongoing");
    assert_eq!(parse_status("<html></html>").status, "Finished");
    let routes = schedule_routes(r#"[{"route":"frieren"},{"route":"frieren-2"}]"#);
    assert_eq!(routes, vec!["frieren".to_owned(), "frieren-2".to_owned()]);
    assert_eq!(schedule_search_url("a b"), "https://animeschedule.net/api/v3/anime?q=a%20b");
    assert_eq!(schedule_page_url("frieren"), "https://animeschedule.net/anime/frieren");
}

#[test]
fn repeated_track_languages_are_offered_once() {
    let mut en = link("1080p", "a");
    en.audio_language = Some("en".to_owned());
    let mut en_again = link("720p", "b");
    en_again.audio_language = Some("en".to_owned());
    let mut ja = link("480p", "c");
    ja.audio_language = Some("ja".to_owned());
    let links = vec![en, en_again, ja];
    let selected = finish_episode_sources(links.clone(), &QualityPreference::Best, false).unwrap().selected;
    let choices = track_language_choices(TranslationMode::Dub, &links, &selected);
    let labels: Vec<&str> = choices.iter().map(|c| c.label.as_str()).collect();
    assert_eq!(labels, vec!["Dub audio (en)", "Dub audio (ja)"]);
    assert!(choices.iter().all(|c| c.kind == TrackLanguageKind::DubAudio));

    let choice = |label: &str, code: &str| TrackLanguageChoice {
        kind: TrackLanguageKind::Hardsub,
        label: label.to_owned(),
        code: Some(code.to_owned()),
        subtitle: None,
    };
    let kept = dedupe_track_choices(vec![choice("first", "en"), choice("second", "en"), choice("third", "fr")]);
    let labels: Vec<&str> = kept.iter().map(|c| c.label.as_str()).collect();
    assert_eq!(labels, vec!["first", "third"]);
}

fn launch_request() -> LaunchEpisodeRequest {
    let sources = finish_episode_sources(vec![link("1080p", "b")], &QualityPreference::Best, false).unwrap();
    LaunchEpisodeRequest {
        show: show(),
        episode: "3".to_owned(),
        links: sources.links,
        selected: sources.selected,
        playback_config: config(),
        skip_intro: true,
        return_screen: Screen::Episodes,
    }
}

#[test]
fn failed_skip_lookup_keeps_playback_going() {
    let request = launch_request();
    let host = PlayerHost { macos: false, windows: false, iina_bundled: false, mpv_flatpak: false };
    let plan = plan_launch(&request, host);
    let without = after_skip_lookup(plan.playback, None);
    assert!(without.skip.is_none());
    assert_eq!(without.episode, "3");
    let skip = SkipLaunch { script_path: "/s.lua".to_owned(), chapters_path: "/c.txt".to_owned(), script_opts: "k=v".to_owned() };
    let with = after_skip_lookup(without, Some(skip.clone()));
    assert_eq!(with.skip, Some(skip));
}

#[test]
fn history_is_written_once_and_only_after_a_launch() {
    let request = launch_request();
    let host = PlayerHost { macos: false, windows: false, iina_bundled: false, mpv_flatpak: false };
    let plan = plan_launch(&request, host);
    match after_launch(launch_request(), &plan.playback, Err("vlc not found".to_owned()), false) {
        LaunchStep::Failed(message) => assert_eq!(message, "vlc not found"),
        other => panic!("unexpected {other:?}"),
    }
    let outcome = PlaybackOutcome { command: "vlc b".to_owned(), detached: true, exit_code: None };
    match after_launch(request, &plan.playback, Ok(outcome), false) {
        LaunchStep::Launched { record, event } => {
            assert_eq!(record.episode, "3");
            assert_eq!(record.anime_id, "id1");
            assert_eq!(record.title, "Show (TV) (12 episodes)");
            assert!(matches!(event, PlaybackEvent::Launched { .. }));
        },
        other => panic!("unexpected {other:?}"),
    }
}
