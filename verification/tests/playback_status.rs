use anicli::media::{AnimeSearchResult, SelectedStream, SubtitleTrack};
use anicli::player::{PlaybackOutcome, PlaybackRequest, PlayerKind};
use anicli::tui::{episode_summary, playback_status, selected_stream_summary};

fn demo_show() -> AnimeSearchResult {
    AnimeSearchResult { id: "demo".to_owned(), title: "Demo Show".to_owned(), episode_count: Some(12) }
}

fn demo_stream() -> SelectedStream {
    SelectedStream {
        quality: "1080p".to_owned(),
        url: "https://stream.example/video.m3u8".to_owned(),
        source: "AllAnime".to_owned(),
        referrer: None,
        subtitle: Some("https://subs.example/en.vtt".to_owned()),
        subtitles: vec![SubtitleTrack {
            lang: "en".to_owned(),
            label: "English".to_owned(),
            url: "https://subs.example/en.vtt".to_owned(),
        }],
        hardsub_language: None,
        audio_language: None,
    }
}

#[test]
fn iina_launch_status_is_human_readable_without_stream_url() {
    let show = demo_show();
    let stream = demo_stream();
    let request = PlaybackRequest {
        title: "Demo Show".to_owned(),
        episode: "7".to_owned(),
        stream: stream.clone(),
        player: PlayerKind::Iina("iina".to_owned()),
        download_dir: "/tmp".to_owned(),
        no_detach: false,
        exit_after_play: false,
        log_episode: false,
        skip: None,
    };
    let outcome = PlaybackOutcome {
        command: "iina https://stream.example/video.m3u8".to_owned(),
        detached: true,
        exit_code: None,
    };

    let status = playback_status(&show, "7", &stream, &request, &outcome);

    assert_eq!(
        status,
        "IINA will now launch shortly: Demo Show episode 7 (1080p quality, source: AllAnime, subtitles: English (en))."
    );
    assert!(!status.contains("https://"));
}

#[test]
fn episode_summary_names_show_and_episode() {
    assert_eq!(episode_summary(&demo_show(), "3"), "Demo Show episode 3");
}

#[test]
fn stream_summary_lists_quality_source_and_subtitles() {
    assert_eq!(
        selected_stream_summary(&demo_stream()),
        "1080p quality, source: AllAnime, subtitles: English (en)"
    );
}
