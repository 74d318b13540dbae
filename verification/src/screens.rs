//! The texts the screens show besides their lists: the header, the key
//! hints, what is playing, what comes next after IINA closed, the current
//! value of a setting and the loading progress.

use vstd::prelude::*;
use crate::episode::{next_episode, next_spec};
use crate::text::{dec_spec, push_dec, push_str, views};
use crate::tui::{Screen, SettingChoice, on_off, on_off_spec};
use crate::ui::{LoadingView, UiState};

verus! {

/// The text of an optional string, or `fallback`.
pub open spec fn text_or(o: Option<Seq<char>>, fallback: Seq<char>) -> Seq<char> {
    match o {
        Some(t) => t,
        None => fallback,
    }
}

/// The key hints of a screen.
pub open spec fn controls_spec(screen: Screen) -> Seq<char> {
    match screen {
        Screen::Search => "Enter search | F1 help | F2 settings | Esc quit"@,
        Screen::Results => "Up/Down select | Enter episodes | / search | F2 settings | Esc back"@,
        Screen::Episodes => "Up/Down select | Enter play | N schedule | F2 settings | Esc back"@,
        Screen::Playing => "n/p/r/e playback | F2 settings | h history | l logs | Esc back | q quit"@,
        Screen::Quality => "Up/Down select | Enter apply | Esc back"@,
        Screen::Language => "Up/Down select | Enter apply | Esc back"@,
        Screen::TrackLanguage => "Up/Down select | Enter play | F2 settings | Esc cancel"@,
        Screen::Loading => "Loading episode | Esc cancel"@,
        Screen::IinaClosed => "Up/Down select | Enter continue | Esc dismiss"@,
        Screen::Settings => "Up/Down select setting | Enter open options | Esc back"@,
        Screen::SettingOptions => "Up/Down select option | Enter apply | Esc settings"@,
        Screen::Help => "F2 settings | Esc back"@,
        Screen::History => "Up/Down select | Enter continue | x delete | F2 settings | Esc back"@,
        Screen::Logs => "F2 settings | Esc back"@,
        Screen::Schedule => "F2 settings | Esc back"@,
        Screen::AniListLogin => "Type, then Enter | Esc back"@,
        Screen::AniList => "Up/Down select | Enter search | f filter | F3 reload | Esc back"@,
        Screen::AniListFilter => "Up/Down select | Enter show list | Esc back"@,
    }
}

/// The key hints of a screen (see `controls_spec`).
pub fn controls_hint(screen: Screen) -> (r: &'static str)
    ensures
        r@ == controls_spec(screen),
{
    match screen {
        Screen::Search => "Enter search | F1 help | F2 settings | Esc quit",
        Screen::Results => "Up/Down select | Enter episodes | / search | F2 settings | Esc back",
        Screen::Episodes => "Up/Down select | Enter play | N schedule | F2 settings | Esc back",
        Screen::Playing => "n/p/r/e playback | F2 settings | h history | l logs | Esc back | q quit",
        Screen::Quality => "Up/Down select | Enter apply | Esc back",
        Screen::Language => "Up/Down select | Enter apply | Esc back",
        Screen::TrackLanguage => "Up/Down select | Enter play | F2 settings | Esc cancel",
        Screen::Loading => "Loading episode | Esc cancel",
        Screen::IinaClosed => "Up/Down select | Enter continue | Esc dismiss",
        Screen::Settings => "Up/Down select setting | Enter open options | Esc back",
        Screen::SettingOptions => "Up/Down select option | Enter apply | Esc settings",
        Screen::Help => "F2 settings | Esc back",
        Screen::History => "Up/Down select | Enter continue | x delete | F2 settings | Esc back",
        Screen::Logs => "F2 settings | Esc back",
        Screen::Schedule => "F2 settings | Esc back",
        Screen::AniListLogin => "Type, then Enter | Esc back",
        Screen::AniList => "Up/Down select | Enter search | f filter | F3 reload | Esc back",
        Screen::AniListFilter => "Up/Down select | Enter show list | Esc back",
    }
}

/// The lines of the loading notes, most recent first, each after a dash.
pub fn loading_note_lines(loading: &LoadingView) -> (r: Vec<String>)
    ensures
        r@.len() == loading.notes@.len(),
        forall|k: int|
            0 <= k < r@.len() ==> #[trigger] r@[k]@ == "- "@ + loading.notes@[loading.notes@.len()
                - 1 - k]@,
{
    let n = loading.notes.len();
    let mut out: Vec<String> = Vec::new();
    let mut i: usize = 0;
    while i < n
        invariant
            n == loading.notes@.len(),
            i <= n,
            out@.len() == i,
            forall|k: int| 0 <= k < i ==> #[trigger] out@[k]@ == "- "@ + loading.notes@[n - 1 - k]@,
        decreases n - i,
    {
        let mut line = String::from_str("- ");
        push_str(&mut line, loading.notes[n - 1 - i].as_str());
        out.push(line);
        i = i + 1;
    }
    out
}

/// The progress label of the loading screen.
pub fn stage_label(loading: &LoadingView) -> (r: String)
    ensures
        r@ == "stage "@ + dec_spec(loading.stage as nat) + " of "@ + dec_spec(
            loading.total_stages as nat,
        ),
{
    let mut r = String::from_str("stage ");
    push_dec(&mut r, loading.stage as u64);
    push_str(&mut r, " of ");
    push_dec(&mut r, loading.total_stages as u64);
    r
}

impl UiState {
    /// The header: the mode, the quality and whether AniSkip and download
    /// mode are on.
    pub fn header_title(&self) -> (r: String)
        ensures
            r@ == "anicli-rs | mode: "@ + self.prefs.mode.name_spec() + " | quality: "@
                + self.prefs.quality.label_spec() + " | skip: "@ + on_off_spec(self.prefs.skip_intro)
                + " | download: "@ + on_off_spec(self.prefs.download_mode),
    {
        let mut r = String::from_str("anicli-rs | mode: ");
        push_str(&mut r, self.prefs.mode.as_allanime());
        push_str(&mut r, " | quality: ");
        push_str(&mut r, self.prefs.quality.label());
        push_str(&mut r, " | skip: ");
        push_str(&mut r, on_off(self.prefs.skip_intro));
        push_str(&mut r, " | download: ");
        push_str(&mut r, on_off(self.prefs.download_mode));
        r
    }

    /// What is playing: the show's title and the episode, `unknown` for
    /// either when there is none.
    pub fn current_episode_summary(&self) -> (r: String)
        ensures
            r@ == text_or(
                match self.browse.selected_show {
                    Some(s) => Some(s.title@),
                    None => None,
                },
                "unknown"@,
            ) + " episode "@ + text_or(
                match self.browse.current_episode {
                    Some(e) => Some(e@),
                    None => None,
                },
                "unknown"@,
            ),
    {
        let mut r = match &self.browse.selected_show {
            Some(s) => s.title.clone(),
            None => String::from_str("unknown"),
        };
        push_str(&mut r, " episode ");
        match &self.browse.current_episode {
            Some(e) => push_str(&mut r, e.as_str()),
            None => push_str(&mut r, "unknown"),
        }
        r
    }

    /// What comes next once IINA closed: the next episode, if any.
    pub fn iina_next_label(&self) -> (r: String)
        ensures
            r@ == (match self.browse.current_episode {
                Some(cur) => match next_spec(views(self.browse.episodes@), cur@) {
                    Some(n) => "Episode "@ + n,
                    None => "No next episode available"@,
                },
                None => "No next episode available"@,
            }),
    {
        match &self.browse.current_episode {
            Some(cur) => match next_episode(self.browse.episodes.as_slice(), cur.as_str()) {
                Some(n) => {
                    let mut r = String::from_str("Episode ");
                    push_str(&mut r, n);
                    r
                },
                None => String::from_str("No next episode available"),
            },
            None => String::from_str("No next episode available"),
        }
    }

    /// What the IINA-closed screen says closed: after the show's title and
    /// the episode, `Unknown title` and `unknown` standing in for either.
    pub fn iina_closed_summary(&self) -> (r: String)
        ensures
            r@ == " after "@ + text_or(
                match self.browse.selected_show {
                    Some(s) => Some(s.title@),
                    None => None,
                },
                "Unknown title"@,
            ) + " episode "@ + text_or(
                match self.browse.current_episode {
                    Some(e) => Some(e@),
                    None => None,
                },
                "unknown"@,
            ) + "."@,
    {
        let mut r = String::from_str(" after ");
        match &self.browse.selected_show {
            Some(s) => push_str(&mut r, s.title.as_str()),
            None => push_str(&mut r, "Unknown title"),
        }
        push_str(&mut r, " episode ");
        match &self.browse.current_episode {
            Some(e) => push_str(&mut r, e.as_str()),
            None => push_str(&mut r, "unknown"),
        }
        push_str(&mut r, ".");
        r
    }

    /// The current value of a setting, as the settings screen shows it.
    pub fn current_setting_value_label(&self, choice: SettingChoice) -> (r: String)
        ensures
            r@ == (match choice {
                SettingChoice::Language => self.prefs.mode.name_spec(),
                SettingChoice::Quality => self.prefs.quality.label_spec(),
                SettingChoice::DownloadMode => on_off_spec(self.prefs.download_mode),
                SettingChoice::AniSkip => on_off_spec(self.prefs.skip_intro),
            }),
    {
        match choice {
            SettingChoice::Language => String::from_str(self.prefs.mode.as_allanime()),
            SettingChoice::Quality => String::from_str(self.prefs.quality.label()),
            SettingChoice::DownloadMode => String::from_str(on_off(self.prefs.download_mode)),
            SettingChoice::AniSkip => String::from_str(on_off(self.prefs.skip_intro)),
        }
    }
}

} // verus!
