use anicli::config::{
    AppConfig, EnvValues, PlayerChoice, UserSettings, UserSettingsFile, env_flag, parse_mode,
    with_file_name,
};
use anicli::media::{SelectedStream, SubtitleTrack, TranslationMode};
use anicli::player::{
    LaunchPlan, PlaybackRequest, PlayerHost, PlayerKind, default_player, download_plan, launch_plan,
    log_command, mpv_args, needs_downloader_probe,
};
use anicli::quality::QualityPreference;
use anicli::skip::{MpvSkipOptions, SkipLaunch, offset_error_message};

fn env() -> EnvValues {
    EnvValues {
        mode: None,
        quality: None,
        download_dir: None,
        history_dir: None,
        player: None,
        skip_title: None,
        anilist_client_id: None,
        anilist_token: None,
        skip_intro: None,
        no_detach: None,
        exit_after_play: None,
        log: None,
    }
}

fn linux() -> PlayerHost {
    PlayerHost { macos: false, windows: false, iina_bundled: false, mpv_flatpak: false }
}

fn stream(url: &str) -> SelectedStream {
    SelectedStream {
        quality: "720p".to_owned(),
        url: url.to_owned(),
        source: "S".to_owned(),
        referrer: Some("https://ref.test/".to_owned()),
        subtitle: None,
        subtitles: Vec::new(),
        hardsub_language: None,
        audio_language: None,
    }
}

fn request(player: PlayerKind, url: &str) -> PlaybackRequest {
    PlaybackRequest {
        title: "Show ".to_owned(),
        episode: "2".to_owned(),
        stream: stream(url),
        player,
        download_dir: "/dl".to_owned(),
        no_detach: false,
        exit_after_play: false,
        log_episode: true,
        skip: None,
    }
}

#[test]
fn player_names_from_the_environment() {
    assert_eq!(PlayerChoice::from_env_value(""), PlayerChoice::Auto);
    assert_eq!(PlayerChoice::from_env_value("flatpak_mpv"), PlayerChoice::Mpv);
    assert_eq!(PlayerChoice::from_env_value("vlc.exe"), PlayerChoice::Vlc);
    assert_eq!(PlayerChoice::from_env_value("celluloid"), PlayerChoice::Custom("celluloid".to_owned()));
}

#[test]
fn modes_and_flags() {
    assert_eq!(parse_mode("dub"), TranslationMode::Dub);
    assert_eq!(parse_mode("DUB"), TranslationMode::Sub);
    assert_eq!(env_flag(Some("yes")), Some(true));
    assert_eq!(env_flag(Some("0")), Some(false));
    assert_eq!(env_flag(None), None);
}

#[test]
fn environment_overrides_saved_settings() {
    let mut e = env();
    e.player = Some("download".to_owned());
    e.skip_title = Some("".to_owned());
    e.anilist_token = Some("  tok ".to_owned());
    let settings = UserSettings {
        mode: TranslationMode::Dub,
        quality: QualityPreference::Worst,
        skip_intro: true,
        download_mode: false,
    };
    let c = AppConfig::from_values(&e, &settings, "/cfg/anicli-rs/settings.toml", "/state/ani-cli");
    assert_eq!(c.mode, TranslationMode::Dub);
    assert_eq!(c.quality, QualityPreference::Worst);
    assert_eq!(c.player, PlayerChoice::Download);
    assert!(c.download_mode);
    assert!(c.skip_intro);
    assert_eq!(c.skip_title, None);
    assert_eq!(c.anilist_token.as_deref(), Some("tok"));
    assert_eq!(c.download_dir, ".");
    assert_eq!(c.anilist_auth_path, "/cfg/anicli-rs/anilist.toml");
    assert!(c.log_episode);
}

#[test]
fn a_set_player_turns_saved_download_mode_off() {
    let mut e = env();
    e.player = Some("mpv".to_owned());
    let mut settings = UserSettings::default();
    settings.download_mode = true;
    let c = AppConfig::from_values(&e, &settings, "/cfg/settings.toml", "/state");
    assert!(!c.download_mode);
}

#[test]
fn settings_file_round_trip() {
    let settings = UserSettings {
        mode: TranslationMode::Dub,
        quality: QualityPreference::Exact("720".to_owned()),
        skip_intro: true,
        download_mode: false,
    };
    let file = settings.to_file();
    assert_eq!(file.mode.as_deref(), Some("dub"));
    assert_eq!(file.quality.as_deref(), Some("720"));
    assert_eq!(UserSettings::from_file(&file), settings);
    let empty = UserSettingsFile { mode: None, quality: None, skip_intro: None, download_mode: None };
    assert_eq!(UserSettings::from_file(&empty), UserSettings::default());
}

#[test]
fn settings_are_saved_beside_the_config() {
    let c = AppConfig::from_values(&env(), &UserSettings::default(), "/cfg/settings.toml", "/state");
    let w = c.save_user_settings(&c.user_settings());
    assert_eq!(w.path, "/cfg/settings.toml");
    assert_eq!(with_file_name("/a/b/c.toml", "d.toml"), "/a/b/d.toml");
}

#[test]
fn default_players_follow_the_host() {
    let mac = PlayerHost { macos: true, windows: false, iina_bundled: true, mpv_flatpak: false };
    assert_eq!(
        default_player(&PlayerChoice::Auto, mac),
        PlayerKind::Iina("/Applications/IINA.app/Contents/MacOS/iina-cli".to_owned())
    );
    assert_eq!(default_player(&PlayerChoice::Auto, linux()), PlayerKind::Mpv("mpv".to_owned()));
    let flatpak = PlayerHost { mpv_flatpak: true, ..linux() };
    assert_eq!(default_player(&PlayerChoice::Mpv, flatpak), PlayerKind::Mpv("flatpak_mpv".to_owned()));
}

#[test]
fn mpv_arguments() {
    let r = request(PlayerKind::Mpv("mpv".to_owned()), "https://v.test/a.mp4");
    assert_eq!(
        mpv_args(&r),
        vec![
            "--force-media-title=Show Episode 2".to_owned(),
            "--referrer=https://ref.test/".to_owned(),
            "https://v.test/a.mp4".to_owned(),
        ]
    );
}

#[test]
fn flatpak_mpv_runs_through_flatpak() {
    let r = request(PlayerKind::Mpv("flatpak_mpv".to_owned()), "u");
    match launch_plan(&r, false, false) {
        LaunchPlan::Run(c) => {
            assert_eq!(c.program, "flatpak");
            assert_eq!(&c.args[..2], &["run".to_owned(), "io.mpv.Mpv".to_owned()]);
            assert_eq!(c.command_line(), "flatpak run io.mpv.Mpv --force-media-title=Show Episode 2 --referrer=https://ref.test/ u");
        },
        other => panic!("unexpected {other:?}"),
    }
}

#[test]
fn iina_keeps_running_only_when_not_yet_running() {
    let r = request(PlayerKind::Iina("iina".to_owned()), "u");
    match launch_plan(&r, false, false) {
        LaunchPlan::Run(c) => assert!(c.args.contains(&"--keep-running".to_owned())),
        other => panic!("unexpected {other:?}"),
    }
    match launch_plan(&r, true, false) {
        LaunchPlan::Run(c) => assert!(!c.args.contains(&"--keep-running".to_owned())),
        other => panic!("unexpected {other:?}"),
    }
}

#[test]
fn debug_player_only_reports() {
    let r = request(PlayerKind::Debug, "u");
    match launch_plan(&r, false, false) {
        LaunchPlan::Finished(o) => {
            assert_eq!(o.command, "debug Show Episode 2 [720p] u");
            assert_eq!(o.exit_code, Some(0));
        },
        other => panic!("unexpected {other:?}"),
    }
    assert!(log_command(&r).is_none());
    assert!(log_command(&request(PlayerKind::Vlc("vlc".to_owned()), "u")).is_some());
}

#[test]
fn detached_commands_have_no_exit_code() {
    let r = request(PlayerKind::Vlc("vlc".to_owned()), "u");
    match launch_plan(&r, false, false) {
        LaunchPlan::Run(c) => {
            let o = c.outcome(Some(3));
            assert!(o.detached);
            assert_eq!(o.exit_code, None);
        },
        other => panic!("unexpected {other:?}"),
    }
}

#[test]
fn downloads_choose_their_tool() {
    let hls = request(PlayerKind::Download, "https://v.test/x.m3u8");
    assert!(needs_downloader_probe(&hls));
    assert_eq!(download_plan(&hls, true).command.program, "yt-dlp");
    assert_eq!(download_plan(&hls, false).command.program, "ffmpeg");
    let mp4 = request(PlayerKind::Download, "https://v.test/x.mp4");
    assert!(!needs_downloader_probe(&mp4));
    let plan = download_plan(&mp4, false);
    assert_eq!(plan.command.program, "aria2c");
    assert!(plan.command.args.contains(&"--dir=/dl".to_owned()));
    assert!(plan.subtitle.is_none());
    let mut with_sub = mp4;
    with_sub.stream.subtitle = Some("https://s.test/en.vtt".to_owned());
    with_sub.stream.subtitles = vec![SubtitleTrack { lang: "en".to_owned(), label: "English".to_owned(), url: "https://s.test/en.vtt".to_owned() }];
    let sub = download_plan(&with_sub, false).subtitle.unwrap();
    assert_eq!(sub.args, vec!["-s".to_owned(), "https://s.test/en.vtt".to_owned(), "-o".to_owned(), "/dl/Show Episode 2.vtt".to_owned()]);
}

#[test]
fn skip_launch_arguments() {
    let s = SkipLaunch {
        script_path: "/tmp/skip.lua".to_owned(),
        chapters_path: "/tmp/ch.ffmetadata".to_owned(),
        script_opts: "skip-op_start=1".to_owned(),
    };
    assert_eq!(
        s.mpv_args(),
        vec![
            "--script=/tmp/skip.lua".to_owned(),
            "--chapters-file=/tmp/ch.ffmetadata".to_owned(),
            "--script-opts=skip-op_start=1".to_owned(),
        ]
    );
    assert_eq!(s.iina_args()[0], "--mpv-script=/tmp/skip.lua");
    let o = MpvSkipOptions::with_toggle_key(None);
    assert_eq!(o.toggle_key, "T");
    assert!(o.offset_allowed());
    let late = MpvSkipOptions { offset: 6, ..o };
    assert!(!late.offset_allowed());
    assert_eq!(offset_error_message(), "AniSkip offset cannot be more than 5 seconds");
}
