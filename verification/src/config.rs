//! Application configuration: the player choice, the settings the user
//! saves, and how environment variables override them.

use vstd::prelude::*;
use crate::links::opt_text;
use crate::media::{TranslationMode, clone_opt};
use crate::quality::{QualityPreference, QualityModel};
use crate::text::{str_eq, trim, trim_spec, chars_of, rfind_char, string_of_range, push_str};

verus! {

/// The player named by configuration.
#[derive(Debug, PartialEq, Eq)]
pub enum PlayerChoice {
    Auto,
    Iina,
    Mpv,
    Vlc,
    Syncplay,
    Download,
    Debug,
    Custom(String),
}

impl Clone for PlayerChoice {
    fn clone(&self) -> (r: Self)
        ensures
            r == *self,
    {
        match self {
            PlayerChoice::Auto => PlayerChoice::Auto,
            PlayerChoice::Iina => PlayerChoice::Iina,
            PlayerChoice::Mpv => PlayerChoice::Mpv,
            PlayerChoice::Vlc => PlayerChoice::Vlc,
            PlayerChoice::Syncplay => PlayerChoice::Syncplay,
            PlayerChoice::Download => PlayerChoice::Download,
            PlayerChoice::Debug => PlayerChoice::Debug,
            PlayerChoice::Custom(v) => PlayerChoice::Custom(v.clone()),
        }
    }
}

/// A player choice by its texts.
pub enum ChoiceView {
    Auto,
    Iina,
    Mpv,
    Vlc,
    Syncplay,
    Download,
    Debug,
    Custom(Seq<char>),
}

impl PlayerChoice {
    /// The view of a player choice.
    pub open spec fn view_choice(&self) -> ChoiceView {
        match self {
            PlayerChoice::Auto => ChoiceView::Auto,
            PlayerChoice::Iina => ChoiceView::Iina,
            PlayerChoice::Mpv => ChoiceView::Mpv,
            PlayerChoice::Vlc => ChoiceView::Vlc,
            PlayerChoice::Syncplay => ChoiceView::Syncplay,
            PlayerChoice::Download => ChoiceView::Download,
            PlayerChoice::Debug => ChoiceView::Debug,
            PlayerChoice::Custom(v) => ChoiceView::Custom(v@),
        }
    }

    /// The player an `ANI_CLI_PLAYER` value names: empty is automatic, the
    /// known player names (and their platform variants) name those players,
    /// anything else is a custom program.
    pub open spec fn from_env_spec(value: Seq<char>) -> ChoiceView {
        if value.len() == 0 {
            ChoiceView::Auto
        } else if value == "iina"@ {
            ChoiceView::Iina
        } else if value == "mpv"@ || value == "flatpak_mpv"@ || value == "mpv.exe"@ || value
            == "android_mpv"@ {
            ChoiceView::Mpv
        } else if value == "vlc"@ || value == "vlc.exe"@ || value == "android_vlc"@ {
            ChoiceView::Vlc
        } else if value == "syncplay"@ || value == "syncplay.exe"@ {
            ChoiceView::Syncplay
        } else if value == "download"@ {
            ChoiceView::Download
        } else if value == "debug"@ {
            ChoiceView::Debug
        } else {
            ChoiceView::Custom(value)
        }
    }

    /// Reads an `ANI_CLI_PLAYER` value (see `from_env_spec`).
    pub fn from_env_value(value: &str) -> (r: Self)
        ensures
            r.view_choice() == Self::from_env_spec(value@),
    {
        if value.is_empty() {
            PlayerChoice::Auto
        } else if str_eq(value, "iina") {
            PlayerChoice::Iina
        } else if str_eq(value, "mpv") || str_eq(value, "flatpak_mpv") || str_eq(value, "mpv.exe")
            || str_eq(value, "android_mpv") {
            PlayerChoice::Mpv
        } else if str_eq(value, "vlc") || str_eq(value, "vlc.exe") || str_eq(value, "android_vlc") {
            PlayerChoice::Vlc
        } else if str_eq(value, "syncplay") || str_eq(value, "syncplay.exe") {
            PlayerChoice::Syncplay
        } else if str_eq(value, "download") {
            PlayerChoice::Download
        } else if str_eq(value, "debug") {
            PlayerChoice::Debug
        } else {
            PlayerChoice::Custom(String::from_str(value))
        }
    }
}

/// The translation mode a configuration value names: `dub`, else `sub`.
pub open spec fn parse_mode_spec(value: Seq<char>) -> TranslationMode {
    if value == "dub"@ {
        TranslationMode::Dub
    } else {
        TranslationMode::Sub
    }
}

/// Reads a translation mode (see `parse_mode_spec`).
pub fn parse_mode(value: &str) -> (r: TranslationMode)
    ensures
        r == parse_mode_spec(value@),
{
    if str_eq(value, "dub") {
        TranslationMode::Dub
    } else {
        TranslationMode::Sub
    }
}

/// A flag variable is on when it is `1`, `true`, `yes` or `on`.
pub open spec fn flag_spec(value: Seq<char>) -> bool {
    value == "1"@ || value == "true"@ || value == "yes"@ || value == "on"@
}

/// The value of a flag variable, if it is set.
pub fn env_flag(value: Option<&str>) -> (r: Option<bool>)
    ensures
        match value {
            Some(v) => r == Some(flag_spec(v@)),
            None => r is None,
        },
{
    match value {
        Some(v) => Some(str_eq(v, "1") || str_eq(v, "true") || str_eq(v, "yes") || str_eq(v, "on")),
        None => None,
    }
}

/// The settings the user can change from the interface.
#[derive(Debug, PartialEq, Eq)]
pub struct UserSettings {
    pub mode: TranslationMode,
    pub quality: QualityPreference,
    pub skip_intro: bool,
    pub download_mode: bool,
}

impl Clone for UserSettings {
    fn clone(&self) -> (r: Self)
        ensures
            r == *self,
    {
        UserSettings {
            mode: self.mode,
            quality: self.quality.clone(),
            skip_intro: self.skip_intro,
            download_mode: self.download_mode,
        }
    }
}

impl Default for UserSettings {
    fn default() -> (r: Self)
        ensures
            r.mode == TranslationMode::Sub,
            r.quality == QualityPreference::Best,
            !r.skip_intro,
            !r.download_mode,
    {
        UserSettings {
            mode: TranslationMode::Sub,
            quality: QualityPreference::Best,
            skip_intro: false,
            download_mode: false,
        }
    }
}

/// The fields of the settings file, each optional.
#[derive(Debug, PartialEq, Eq)]
pub struct UserSettingsFile {
    pub mode: Option<String>,
    pub quality: Option<String>,
    pub skip_intro: Option<bool>,
    pub download_mode: Option<bool>,
}

impl UserSettings {
    /// The settings a settings file holds: an absent field takes its default.
    pub fn from_file(file: &UserSettingsFile) -> (r: Self)
        ensures
            r.mode == (match file.mode {
                Some(m) => parse_mode_spec(m@),
                None => TranslationMode::Sub,
            }),
            r.quality.model() == (match file.quality {
                Some(q) => QualityPreference::parse_spec(q@),
                None => QualityModel::Best,
            }),
            r.skip_intro == (file.skip_intro == Some(true)),
            r.download_mode == (file.download_mode == Some(true)),
    {
        UserSettings {
            mode: match &file.mode {
                Some(m) => parse_mode(m.as_str()),
                None => TranslationMode::Sub,
            },
            quality: match &file.quality {
                Some(q) => QualityPreference::parse(q.as_str()),
                None => QualityPreference::Best,
            },
            skip_intro: match file.skip_intro {
                Some(b) => b,
                None => false,
            },
            download_mode: match file.download_mode {
                Some(b) => b,
                None => false,
            },
        }
    }

    /// The settings file for these settings: every field present, the mode
    /// and quality by their labels.
    pub fn to_file(&self) -> (r: UserSettingsFile)
        ensures
            opt_text(r.mode) == Some(self.mode.name_spec()),
            opt_text(r.quality) == Some(self.quality.label_spec()),
            r.skip_intro == Some(self.skip_intro),
            r.download_mode == Some(self.download_mode),
    {
        UserSettingsFile {
            mode: Some(self.mode.to_label_string()),
            quality: Some(self.quality.to_label_string()),
            skip_intro: Some(self.skip_intro),
            download_mode: Some(self.download_mode),
        }
    }
}

/// Reading back written settings gives the same settings, when an exact
/// quality label is already in the form a settings file is read into.
pub proof fn settings_read_after_write(s: UserSettings, f: UserSettingsFile)
    requires
        opt_text(f.mode) == Some(s.mode.name_spec()),
        opt_text(f.quality) == Some(s.quality.label_spec()),
        f.skip_intro == Some(s.skip_intro),
        f.download_mode == Some(s.download_mode),
        s.quality matches QualityPreference::Exact(v) ==> crate::text::lower_spec(trim_spec(v@))
            == v@ && v@.len() > 0 && v@ != "best"@ && v@ != "worst"@,
    ensures
        (match f.mode {
            Some(m) => parse_mode_spec(m@),
            None => TranslationMode::Sub,
        }) == s.mode,
        (match f.quality {
            Some(q) => QualityPreference::parse_spec(q@),
            None => QualityModel::Best,
        }) == s.quality.model(),
        (f.skip_intro == Some(true)) == s.skip_intro,
        (f.download_mode == Some(true)) == s.download_mode,
{
    reveal_strlit("sub");
    reveal_strlit("dub");
    reveal_strlit("best");
    reveal_strlit("worst");
    assert("sub"@[0] != "dub"@[0]);
    crate::text::lemma_trim_plain("best"@);
    crate::text::lemma_trim_plain("worst"@);
    assert(crate::text::lower_spec("best"@) =~= "best"@);
    assert(crate::text::lower_spec("worst"@) =~= "worst"@);
}

/// The path `path` with its last component replaced by `name` (what
/// `Path::with_file_name` gives for a path that ends in a file name).
pub open spec fn with_file_name_spec(path: Seq<char>, name: Seq<char>) -> Seq<char> {
    match crate::seqs::last_index(path.len() as int, |i: int| path[i] == '/') {
        Some(i) => path.take(i + 1) + name,
        None => name,
    }
}

/// Replaces the last component of a path.
pub fn with_file_name(path: &str, name: &str) -> (r: String)
    ensures
        r@ == with_file_name_spec(path@, name@),
{
    let v = chars_of(path);
    let ghost pred = |i: int| path@[i] == '/';
    match rfind_char(&v, '/') {
        Some(i) => {
            proof {
                crate::seqs::lemma_last_index_unique(path@.len() as int, pred, Some(i as int));
            }
            let mut r = string_of_range(&v, 0, i + 1);
            assert(v@.subrange(0, i + 1) =~= v@.take(i + 1));
            push_str(&mut r, name);
            r
        },
        None => {
            proof {
                crate::seqs::lemma_last_index_unique(path@.len() as int, pred, None);
            }
            String::from_str(name)
        },
    }
}

/// The configuration the application runs with.
#[derive(Debug)]
pub struct AppConfig {
    pub mode: TranslationMode,
    pub quality: QualityPreference,
    pub download_dir: String,
    pub history_dir: String,
    pub settings_path: String,
    pub anilist_auth_path: String,
    pub anilist_client_id: Option<String>,
    pub anilist_token: Option<String>,
    pub player: PlayerChoice,
    pub skip_intro: bool,
    pub download_mode: bool,
    pub skip_title: Option<String>,
    pub no_detach: bool,
    pub exit_after_play: bool,
    pub log_episode: bool,
}

impl Clone for AppConfig {
    fn clone(&self) -> (r: Self)
        ensures
            r == *self,
    {
        AppConfig {
            mode: self.mode,
            quality: self.quality.clone(),
            download_dir: self.download_dir.clone(),
            history_dir: self.history_dir.clone(),
            settings_path: self.settings_path.clone(),
            anilist_auth_path: self.anilist_auth_path.clone(),
            anilist_client_id: clone_opt(&self.anilist_client_id),
            anilist_token: clone_opt(&self.anilist_token),
            player: self.player.clone(),
            skip_intro: self.skip_intro,
            download_mode: self.download_mode,
            skip_title: clone_opt(&self.skip_title),
            no_detach: self.no_detach,
            exit_after_play: self.exit_after_play,
            log_episode: self.log_episode,
        }
    }
}

/// The environment variables the configuration reads, each if it is set.
#[derive(Debug)]
pub struct EnvValues {
    pub mode: Option<String>,
    pub quality: Option<String>,
    pub download_dir: Option<String>,
    pub history_dir: Option<String>,
    pub player: Option<String>,
    pub skip_title: Option<String>,
    pub anilist_client_id: Option<String>,
    pub anilist_token: Option<String>,
    pub skip_intro: Option<String>,
    pub no_detach: Option<String>,
    pub exit_after_play: Option<String>,
    pub log: Option<String>,
}

/// A set value, trimmed, unless it is empty then.
pub open spec fn trimmed_nonempty(o: Option<Seq<char>>) -> Option<Seq<char>> {
    match o {
        Some(v) => if trim_spec(v).len() > 0 {
            Some(trim_spec(v))
        } else {
            None
        },
        None => None,
    }
}

fn trimmed_nonempty_exec(o: &Option<String>) -> (r: Option<String>)
    ensures
        opt_text(r) == trimmed_nonempty(opt_text(*o)),
{
    match o {
        Some(v) => {
            let t = trim(v.as_str());
            if t.as_str().is_empty() {
                None
            } else {
                Some(t)
            }
        },
        None => None,
    }
}

fn flag_or(value: &Option<String>, default: bool) -> (r: bool)
    ensures
        r == (match opt_text(*value) {
            Some(v) => flag_spec(v),
            None => default,
        }),
{
    match value {
        Some(v) => match env_flag(Some(v.as_str())) {
            Some(b) => b,
            None => default,
        },
        None => default,
    }
}

/// Where the user's settings are written, and what.
#[derive(Debug)]
pub struct SettingsWrite {
    pub path: String,
    pub file: UserSettingsFile,
}

impl AppConfig {
    /// The configuration from environment variables over saved settings:
    /// `ANI_CLI_MODE`, `ANI_CLI_QUALITY` and the flags override the saved
    /// values; the download directory defaults to `.`; a player named in the
    /// environment decides download mode (on for `download`, off otherwise);
    /// the AniList values are trimmed, and a blank AniList value or an empty
    /// skip title counts as unset.
    pub fn from_values(
        env: &EnvValues,
        settings: &UserSettings,
        settings_path: &str,
        default_history_dir: &str,
    ) -> (r: Self)
        ensures
            r.mode == (match opt_text(env.mode) {
                Some(v) => parse_mode_spec(v),
                None => settings.mode,
            }),
            r.quality.model() == (match opt_text(env.quality) {
                Some(v) => QualityPreference::parse_spec(v),
                None => settings.quality.model(),
            }),
            r.download_dir@ == (match opt_text(env.download_dir) {
                Some(v) => v,
                None => "."@,
            }),
            r.history_dir@ == (match opt_text(env.history_dir) {
                Some(v) => v,
                None => default_history_dir@,
            }),
            r.settings_path@ == settings_path@,
            r.anilist_auth_path@ == with_file_name_spec(settings_path@, "anilist.toml"@),
            opt_text(r.anilist_client_id) == trimmed_nonempty(opt_text(env.anilist_client_id)),
            opt_text(r.anilist_token) == trimmed_nonempty(opt_text(env.anilist_token)),
            r.player.view_choice() == (match opt_text(env.player) {
                Some(v) => PlayerChoice::from_env_spec(v),
                None => ChoiceView::Auto,
            }),
            r.download_mode == (if r.player is Download {
                true
            } else if env.player is Some {
                false
            } else {
                settings.download_mode
            }),
            opt_text(r.skip_title) == (match opt_text(env.skip_title) {
                Some(v) => if v.len() > 0 {
                    Some(v)
                } else {
                    None
                },
                None => None,
            }),
            r.skip_intro == (match opt_text(env.skip_intro) {
                Some(v) => flag_spec(v),
                None => settings.skip_intro,
            }),
            r.no_detach == (match opt_text(env.no_detach) {
                Some(v) => flag_spec(v),
                None => false,
            }),
            r.exit_after_play == (match opt_text(env.exit_after_play) {
                Some(v) => flag_spec(v),
                None => false,
            }),
            r.log_episode == (match opt_text(env.log) {
                Some(v) => flag_spec(v),
                None => true,
            }),
    {
        let mode = match &env.mode {
            Some(v) => parse_mode(v.as_str()),
            None => settings.mode,
        };
        let quality = match &env.quality {
            Some(v) => QualityPreference::parse(v.as_str()),
            None => settings.quality.clone(),
        };
        let download_dir = match &env.download_dir {
            Some(v) => v.clone(),
            None => String::from_str("."),
        };
        let history_dir = match &env.history_dir {
            Some(v) => v.clone(),
            None => String::from_str(default_history_dir),
        };
        let player = match &env.player {
            Some(v) => PlayerChoice::from_env_value(v.as_str()),
            None => PlayerChoice::Auto,
        };
        let download_mode = match &player {
            PlayerChoice::Download => true,
            _ => if env.player.is_some() {
                false
            } else {
                settings.download_mode
            },
        };
        let skip_title = match &env.skip_title {
            Some(v) => if v.as_str().is_empty() {
                None
            } else {
                Some(v.clone())
            },
            None => None,
        };
        AppConfig {
            mode,
            quality,
            download_dir,
            history_dir,
            settings_path: String::from_str(settings_path),
            anilist_auth_path: with_file_name(settings_path, "anilist.toml"),
            anilist_client_id: trimmed_nonempty_exec(&env.anilist_client_id),
            anilist_token: trimmed_nonempty_exec(&env.anilist_token),
            player,
            skip_intro: flag_or(&env.skip_intro, settings.skip_intro),
            download_mode,
            skip_title,
            no_detach: flag_or(&env.no_detach, false),
            exit_after_play: flag_or(&env.exit_after_play, false),
            log_episode: flag_or(&env.log, true),
        }
    }

    /// The settings the user can change, as currently configured.
    pub fn user_settings(&self) -> (r: UserSettings)
        ensures
            r.mode == self.mode,
            r.quality == self.quality,
            r.skip_intro == self.skip_intro,
            r.download_mode == self.download_mode,
    {
        UserSettings {
            mode: self.mode,
            quality: self.quality.clone(),
            skip_intro: self.skip_intro,
            download_mode: self.download_mode,
        }
    }

    /// What saving settings writes: the settings file for them at the
    /// configured settings path.
    pub fn save_user_settings(&self, settings: &UserSettings) -> (r: SettingsWrite)
        ensures
            r.path@ == self.settings_path@,
            opt_text(r.file.mode) == Some(settings.mode.name_spec()),
            opt_text(r.file.quality) == Some(settings.quality.label_spec()),
            r.file.skip_intro == Some(settings.skip_intro),
            r.file.download_mode == Some(settings.download_mode),
    {
        SettingsWrite { path: self.settings_path.clone(), file: settings.to_file() }
    }
}

} // verus!
