//! What the terminal interface offers and says: its menus and choices, the
//! track languages of an episode, and the status lines it shows.

use vstd::prelude::*;
use crate::config::AppConfig;
use crate::links::{
    select_quality, select_index, opt_text, track_view,
};
use crate::media::{
    AnimeSearchResult, SelectedStream, StreamLink, SubtitleTrack, TranslationMode, clone_opt,
    same_stream, same_link,
};
use crate::player::{PlaybackRequest, PlaybackOutcome, PlayerKind, kind_view, KindView};
use crate::quality::{QualityPreference, QualityModel};
use crate::text::{push_str, push_dec, dec_spec, join, join_spec, str_eq, views};

verus! {

/// The screens of the interface.
#[derive(Debug, Clone, Copy, PartialEq, Eq, Structural)]
pub enum Screen {
    Search,
    Results,
    Episodes,
    Playing,
    Quality,
    Language,
    TrackLanguage,
    Loading,
    IinaClosed,
    Settings,
    SettingOptions,
    Help,
    History,
    Logs,
    Schedule,
    /// Logging in to AniList: the client id, then the access token.
    AniListLogin,
    /// The user's AniList anime lists.
    AniList,
    /// Which AniList list is shown.
    AniListFilter,
}

/// The entries of the settings screen.
#[derive(Debug, Clone, Copy, PartialEq, Eq, Structural)]
pub enum SettingChoice {
    Language,
    Quality,
    DownloadMode,
    AniSkip,
}

/// What to do once IINA has closed.
#[derive(Debug, Clone, Copy, PartialEq, Eq, Structural)]
pub enum IinaClosedAction {
    Reopen,
    NextEpisode,
    SelectEpisode,
}

/// What a track-language choice selects.
#[derive(Debug, Clone, Copy, PartialEq, Eq, Structural)]
pub enum TrackLanguageKind {
    Subtitle,
    Hardsub,
    DubAudio,
}

/// One choice on the track-language screen.
#[derive(Debug, PartialEq, Eq)]
pub struct TrackLanguageChoice {
    pub kind: TrackLanguageKind,
    pub label: String,
    pub code: Option<String>,
    pub subtitle: Option<SubtitleTrack>,
}

impl Clone for TrackLanguageChoice {
    fn clone(&self) -> (r: Self)
        ensures
            r == *self,
    {
        TrackLanguageChoice {
            kind: self.kind,
            label: self.label.clone(),
            code: clone_opt(&self.code),
            subtitle: match &self.subtitle {
                Some(t) => Some(t.clone()),
                None => None,
            },
        }
    }
}

// ---------------------------------------------------------------------
// Menus
// ---------------------------------------------------------------------

/// The qualities offered, in menu order.
pub open spec fn quality_menu() -> Seq<QualityModel> {
    seq![
        QualityModel::Best,
        QualityModel::Exact("1080"@),
        QualityModel::Exact("720"@),
        QualityModel::Exact("480"@),
        QualityModel::Exact("360"@),
        QualityModel::Worst,
    ]
}

/// The models of a list of quality preferences.
pub open spec fn quality_models(v: Seq<QualityPreference>) -> Seq<QualityModel> {
    v.map_values(|q: QualityPreference| q.model())
}

/// The qualities offered: best, 1080, 720, 480, 360, worst.
pub fn quality_choices() -> (r: Vec<QualityPreference>)
    ensures
        quality_models(r@) == quality_menu(),
{
    let mut v: Vec<QualityPreference> = Vec::new();
    v.push(QualityPreference::Best);
    v.push(QualityPreference::Exact(String::from_str("1080")));
    v.push(QualityPreference::Exact(String::from_str("720")));
    v.push(QualityPreference::Exact(String::from_str("480")));
    v.push(QualityPreference::Exact(String::from_str("360")));
    v.push(QualityPreference::Worst);
    assert(quality_models(v@) =~= quality_menu());
    v
}

/// The settings entries, in menu order.
pub open spec fn settings_menu() -> Seq<SettingChoice> {
    seq![
        SettingChoice::Language,
        SettingChoice::Quality,
        SettingChoice::DownloadMode,
        SettingChoice::AniSkip,
    ]
}

/// The settings entries: language, quality, download mode, AniSkip.
pub fn setting_choices() -> (r: Vec<SettingChoice>)
    ensures
        r@ == settings_menu(),
{
    let v = vec![
        SettingChoice::Language,
        SettingChoice::Quality,
        SettingChoice::DownloadMode,
        SettingChoice::AniSkip,
    ];
    assert(v@ =~= settings_menu());
    v
}

/// The number of settings entries.
pub fn setting_choices_len() -> (r: usize)
    ensures
        r == settings_menu().len(),
{
    setting_choices().len()
}

/// The settings entry at a menu position.
pub fn setting_choice(index: usize) -> (r: Option<SettingChoice>)
    ensures
        r == (if index < settings_menu().len() {
            Some(settings_menu()[index as int])
        } else {
            None
        }),
{
    let v = setting_choices();
    if index < v.len() {
        Some(v[index])
    } else {
        None
    }
}

/// The translation modes offered.
pub open spec fn language_menu() -> Seq<TranslationMode> {
    seq![TranslationMode::Sub, TranslationMode::Dub]
}

/// The translation modes offered: sub, dub.
pub fn language_choices() -> (r: Vec<TranslationMode>)
    ensures
        r@ == language_menu(),
{
    let v = vec![TranslationMode::Sub, TranslationMode::Dub];
    assert(v@ =~= language_menu());
    v
}

/// The number of options of a settings entry.
pub open spec fn option_count_spec(choice: SettingChoice) -> nat {
    match choice {
        SettingChoice::Language => language_menu().len(),
        SettingChoice::Quality => quality_menu().len(),
        SettingChoice::DownloadMode | SettingChoice::AniSkip => 2,
    }
}

/// The number of options of a settings entry.
pub fn setting_option_count(choice: SettingChoice) -> (r: usize)
    ensures
        r == option_count_spec(choice),
{
    match choice {
        SettingChoice::Language => language_choices().len(),
        SettingChoice::Quality => quality_choices().len(),
        SettingChoice::DownloadMode | SettingChoice::AniSkip => 2,
    }
}

/// The label of a settings entry.
pub open spec fn setting_label_spec(choice: SettingChoice) -> Seq<char> {
    match choice {
        SettingChoice::Language => "Language"@,
        SettingChoice::Quality => "Quality"@,
        SettingChoice::DownloadMode => "Download mode"@,
        SettingChoice::AniSkip => "AniSkip"@,
    }
}

/// The label of a settings entry (see `setting_label_spec`).
pub fn setting_choice_label(choice: SettingChoice) -> (r: &'static str)
    ensures
        r@ == setting_label_spec(choice),
{
    match choice {
        SettingChoice::Language => "Language",
        SettingChoice::Quality => "Quality",
        SettingChoice::DownloadMode => "Download mode",
        SettingChoice::AniSkip => "AniSkip",
    }
}

/// `on` or `off`.
pub open spec fn on_off_spec(value: bool) -> Seq<char> {
    if value {
        "on"@
    } else {
        "off"@
    }
}

/// `on` or `off`.
pub fn on_off(value: bool) -> (r: &'static str)
    ensures
        r@ == on_off_spec(value),
{
    if value {
        "on"
    } else {
        "off"
    }
}

/// The label a quality shows.
pub open spec fn model_label(m: QualityModel) -> Seq<char> {
    match m {
        QualityModel::Best => "best"@,
        QualityModel::Worst => "worst"@,
        QualityModel::Exact(v) => v,
    }
}

/// The labels of a list of qualities.
pub open spec fn quality_labels(ms: Seq<QualityModel>) -> Seq<Seq<char>> {
    ms.map_values(|m: QualityModel| model_label(m))
}

/// The option labels of a settings entry, in menu order.
pub open spec fn option_labels_spec(choice: SettingChoice) -> Seq<Seq<char>> {
    match choice {
        SettingChoice::Language => seq!["Subtitles (sub)"@, "Dubbed audio (dub)"@],
        SettingChoice::Quality => seq!["best"@, "1080"@, "720"@, "480"@, "360"@, "worst"@],
        SettingChoice::DownloadMode | SettingChoice::AniSkip => seq!["off"@, "on"@],
    }
}

/// The option labels of a settings entry (see `option_labels_spec`).
pub fn setting_option_labels(choice: SettingChoice) -> (r: Vec<String>)
    ensures
        views(r@) == option_labels_spec(choice),
{
    let mut v: Vec<String> = Vec::new();
    match choice {
        SettingChoice::Language => {
            v.push(String::from_str("Subtitles (sub)"));
            v.push(String::from_str("Dubbed audio (dub)"));
        },
        SettingChoice::Quality => {
            let qs = quality_choices();
            let mut i: usize = 0;
            while i < qs.len()
                invariant
                    i <= qs@.len(),
                    quality_models(qs@) == quality_menu(),
                    views(v@) == quality_labels(quality_menu().take(i as int)),
                decreases qs@.len() - i,
            {
                assert(qs@[i as int].model() == quality_menu()[i as int]);
                let ghost before = views(v@);
                v.push(qs[i].to_label_string());
                assert(quality_menu().take(i + 1) =~= quality_menu().take(i as int).push(
                    quality_menu()[i as int],
                ));
                assert(views(v@) =~= before.push(model_label(quality_menu()[i as int])));
                i = i + 1;
            }
            assert(quality_menu().take(6) =~= quality_menu());
        },
        SettingChoice::DownloadMode | SettingChoice::AniSkip => {
            v.push(String::from_str("off"));
            v.push(String::from_str("on"));
        },
    }
    assert(views(v@) =~= option_labels_spec(choice));
    v
}

/// The actions offered once IINA has closed, in menu order.
pub open spec fn iina_closed_menu() -> Seq<IinaClosedAction> {
    seq![IinaClosedAction::Reopen, IinaClosedAction::NextEpisode, IinaClosedAction::SelectEpisode]
}

/// The actions offered once IINA has closed: reopen, next episode, select episode.
pub fn iina_closed_actions() -> (r: Vec<IinaClosedAction>)
    ensures
        r@ == iina_closed_menu(),
{
    let v = vec![IinaClosedAction::Reopen, IinaClosedAction::NextEpisode, IinaClosedAction::SelectEpisode];
    assert(v@ =~= iina_closed_menu());
    v
}

/// The label of an action offered once IINA has closed.
pub open spec fn action_label_spec(action: IinaClosedAction) -> Seq<char> {
    match action {
        IinaClosedAction::Reopen => "Reopen IINA"@,
        IinaClosedAction::NextEpisode => "Play next episode"@,
        IinaClosedAction::SelectEpisode => "Select episode"@,
    }
}

/// The label of an action offered once IINA has closed (see
/// `action_label_spec`).
pub fn iina_closed_action_label(action: IinaClosedAction) -> (r: &'static str)
    ensures
        r@ == action_label_spec(action),
{
    match action {
        IinaClosedAction::Reopen => "Reopen IINA",
        IinaClosedAction::NextEpisode => "Play next episode",
        IinaClosedAction::SelectEpisode => "Select episode",
    }
}

/// The description of an action offered once IINA has closed.
pub open spec fn action_description_spec(action: IinaClosedAction) -> Seq<char> {
    match action {
        IinaClosedAction::Reopen => "Launch the current stream in IINA again without refetching sources."@,
        IinaClosedAction::NextEpisode => "Load the next available episode and start playback."@,
        IinaClosedAction::SelectEpisode => "Return to the episode list and choose a specific episode."@,
    }
}

/// The description of an action offered once IINA has closed (see
/// `action_description_spec`).
pub fn iina_closed_action_description(action: IinaClosedAction) -> (r: &'static str)
    ensures
        r@ == action_description_spec(action),
{
    match action {
        IinaClosedAction::Reopen => "Launch the current stream in IINA again without refetching sources.",
        IinaClosedAction::NextEpisode => "Load the next available episode and start playback.",
        IinaClosedAction::SelectEpisode => "Return to the episode list and choose a specific episode.",
    }
}

/// The frames of the loading spinner.
pub open spec fn spinner_frames() -> Seq<Seq<char>> {
    seq!["-"@, "\\"@, "|"@, "/"@]
}

/// The spinner frame after `elapsed_millis` milliseconds: a new frame every
/// 120 ms, in turn.
pub fn spinner_frame(elapsed_millis: u128) -> (r: &'static str)
    ensures
        r@ == spinner_frames()[((elapsed_millis / 120) % 4) as int],
{
    let index = (elapsed_millis / 120) % 4;
    if index == 0 {
        "-"
    } else if index == 1 {
        "\\"
    } else if index == 2 {
        "|"
    } else {
        "/"
    }
}

// ---------------------------------------------------------------------
// Status lines
// ---------------------------------------------------------------------

/// A signed number in decimal.
pub open spec fn signed_dec_spec(n: int) -> Seq<char> {
    if n < 0 {
        "-"@ + dec_spec((-n) as nat)
    } else {
        dec_spec(n as nat)
    }
}

/// Appends a signed number in decimal.
pub fn push_signed(s: &mut String, n: i32)
    ensures
        final(s)@ == old(s)@ + signed_dec_spec(n as int),
{
    if n < 0 {
        push_str(s, "-");
        let m: i64 = -(n as i64);
        push_dec(s, m as u64);
    } else {
        push_dec(s, n as u64);
    }
}

/// What a stream is shown as first: its quality (or `unknown quality`) and
/// its source, when it has one.
pub open spec fn stream_parts_spec(quality: Seq<char>, source: Seq<char>) -> Seq<Seq<char>> {
    (if quality.len() == 0 {
        seq!["unknown quality"@]
    } else {
        seq![quality + " quality"@]
    }) + (if source.len() > 0 {
        seq!["source: "@ + source]
    } else {
        Seq::empty()
    })
}

/// The first parts of a stream summary (see `stream_parts_spec`).
pub fn stream_parts(quality: &str, source: &str) -> (r: Vec<String>)
    ensures
        views(r@) == stream_parts_spec(quality@, source@),
{
    let mut parts: Vec<String> = Vec::new();
    if quality.is_empty() {
        parts.push(String::from_str("unknown quality"));
    } else {
        let mut p = String::from_str(quality);
        push_str(&mut p, " quality");
        parts.push(p);
    }
    if !source.is_empty() {
        let mut p = String::from_str("source: ");
        push_str(&mut p, source);
        parts.push(p);
    }
    assert(views(parts@) =~= stream_parts_spec(quality@, source@));
    parts
}

/// The subtitle tracks listed: the first three by their labels, then how
/// many more there are; none when there are no tracks.
pub open spec fn subtitle_labels_spec(tracks: Seq<SubtitleTrack>) -> Option<Seq<char>> {
    if tracks.len() == 0 {
        None
    } else {
        let n = if tracks.len() < 3 {
            tracks.len() as int
        } else {
            3
        };
        let shown = tracks.take(n).map_values(|t: SubtitleTrack| t.display_label_spec());
        let labels = if tracks.len() > n {
            shown.push("+"@ + dec_spec((tracks.len() - n) as nat) + " more"@)
        } else {
            shown
        };
        Some(join_spec(labels, ", "@))
    }
}

/// Lists subtitle tracks (see `subtitle_labels_spec`).
pub fn subtitle_labels(tracks: &[SubtitleTrack]) -> (r: Option<String>)
    ensures
        opt_text(r) == subtitle_labels_spec(tracks@),
{
    if tracks.len() == 0 {
        return None;
    }
    let n: usize = if tracks.len() < 3 {
        tracks.len()
    } else {
        3
    };
    let mut labels: Vec<String> = Vec::new();
    let mut i: usize = 0;
    while i < n
        invariant
            i <= n <= tracks@.len(),
            views(labels@) == tracks@.take(i as int).map_values(
                |t: SubtitleTrack| t.display_label_spec(),
            ),
        decreases n - i,
    {
        let ghost before = views(labels@);
        labels.push(tracks[i].display_label());
        assert(views(labels@) =~= before.push(tracks@[i as int].display_label_spec()));
        assert(tracks@.take(i + 1) =~= tracks@.take(i as int).push(tracks@[i as int]));
        assert(views(labels@) =~= tracks@.take(i + 1).map_values(
            |t: SubtitleTrack| t.display_label_spec(),
        ));
        i = i + 1;
    }
    if tracks.len() > n {
        let mut more = String::from_str("+");
        push_dec(&mut more, (tracks.len() - n) as u64);
        push_str(&mut more, " more");
        let ghost before = views(labels@);
        labels.push(more);
        assert(views(labels@) =~= before.push(more@));
    }
    Some(join(&labels, ", "))
}

/// The label of a stream's chosen subtitle: the label of the listed track
/// with its URL, else `selected track`; none without a subtitle.
pub open spec fn selected_subtitle_spec(stream: SelectedStream) -> Option<Seq<char>> {
    match stream.subtitle {
        None => None,
        Some(sub) => match crate::seqs::first_index(
            stream.subtitles@.len() as int,
            |k: int| stream.subtitles@[k].url@ == sub@,
        ) {
            Some(k) => Some(stream.subtitles@[k].display_label_spec()),
            None => Some("selected track"@),
        },
    }
}

/// Names a stream's chosen subtitle (see `selected_subtitle_spec`).
pub fn selected_subtitle_label(stream: &SelectedStream) -> (r: Option<String>)
    ensures
        opt_text(r) == selected_subtitle_spec(*stream),
{
    let sub = match &stream.subtitle {
        Some(s) => s,
        None => return None,
    };
    let ghost p = |k: int| stream.subtitles@[k].url@ == sub@;
    let mut i: usize = 0;
    while i < stream.subtitles.len()
        invariant
            i <= stream.subtitles@.len(),
            stream.subtitle == Some(*sub),
            p == (|k: int| stream.subtitles@[k].url@ == sub@),
            crate::seqs::first_index(i as int, p) is None,
        decreases stream.subtitles@.len() - i,
    {
        if str_eq(stream.subtitles[i].url.as_str(), sub.as_str()) {
            proof {
                assert(p(i as int));
                assert(crate::seqs::first_index(i + 1, p) == Some(i as int));
                crate::seqs::lemma_first_index_extends(stream.subtitles@.len() as int, i + 1, p);
            }
            return Some(stream.subtitles[i].display_label());
        }
        assert(!p(i as int));
        i = i + 1;
    }
    Some(String::from_str("selected track"))
}

/// `prefix` and the value, as one part, when there is a value.
pub open spec fn opt_part(prefix: Seq<char>, o: Option<Seq<char>>) -> Seq<Seq<char>> {
    match o {
        Some(v) => seq![prefix + v],
        None => Seq::empty(),
    }
}

fn push_opt_part(parts: &mut Vec<String>, prefix: &str, o: &Option<String>)
    ensures
        views(final(parts)@) == views(old(parts)@) + opt_part(prefix@, opt_text(*o)),
{
    let ghost before = views(parts@);
    match o {
        Some(v) => {
            let mut p = String::from_str(prefix);
            push_str(&mut p, v.as_str());
            parts.push(p);
            assert(views(parts@) =~= before + opt_part(prefix@, opt_text(*o)));
        },
        None => {
            assert(before + opt_part(prefix@, opt_text(*o)) =~= before);
        },
    }
}

/// How a chosen stream is described: its quality and source, its audio and
/// hard-subtitle languages, and its chosen subtitle, joined with `, `.
pub open spec fn selected_stream_summary_spec(stream: SelectedStream) -> Seq<char> {
    join_spec(
        stream_parts_spec(stream.quality@, stream.source@) + opt_part(
            "audio: "@,
            opt_text(stream.audio_language),
        ) + opt_part("hard subtitles: "@, opt_text(stream.hardsub_language)) + opt_part(
            "subtitles: "@,
            selected_subtitle_spec(stream),
        ),
        ", "@,
    )
}

/// Describes a chosen stream (see `selected_stream_summary_spec`).
pub fn selected_stream_summary(stream: &SelectedStream) -> (r: String)
    ensures
        r@ == selected_stream_summary_spec(*stream),
{
    let mut parts = stream_parts(stream.quality.as_str(), stream.source.as_str());
    push_opt_part(&mut parts, "audio: ", &stream.audio_language);
    push_opt_part(&mut parts, "hard subtitles: ", &stream.hardsub_language);
    let label = selected_subtitle_label(stream);
    push_opt_part(&mut parts, "subtitles: ", &label);
    join(&parts, ", ")
}

/// How a stream link is described: its quality and source, its audio and
/// hard-subtitle languages, then its subtitle tracks, or else that it has
/// an external subtitle, or else that it is soft-subtitled; joined with `, `.
pub open spec fn stream_link_summary_spec(link: StreamLink) -> Seq<char> {
    join_spec(
        stream_parts_spec(link.quality@, link.source@) + opt_part(
            "audio: "@,
            opt_text(link.audio_language),
        ) + opt_part("hard subtitles: "@, opt_text(link.hardsub_language)) + (match subtitle_labels_spec(
            link.subtitles@,
        ) {
            Some(l) => seq!["subtitles: "@ + l],
            None => if link.subtitle is Some {
                seq!["external subtitles"@]
            } else if link.soft_subbed {
                seq!["soft subtitles"@]
            } else {
                Seq::empty()
            },
        }),
        ", "@,
    )
}

/// Describes a stream link (see `stream_link_summary_spec`).
pub fn stream_link_summary(link: &StreamLink) -> (r: String)
    ensures
        r@ == stream_link_summary_spec(*link),
{
    let mut parts = stream_parts(link.quality.as_str(), link.source.as_str());
    push_opt_part(&mut parts, "audio: ", &link.audio_language);
    push_opt_part(&mut parts, "hard subtitles: ", &link.hardsub_language);
    let ghost before = views(parts@);
    match subtitle_labels(link.subtitles.as_slice()) {
        Some(l) => {
            let mut p = String::from_str("subtitles: ");
            push_str(&mut p, l.as_str());
            parts.push(p);
        },
        None => {
            if link.subtitle.is_some() {
                parts.push(String::from_str("external subtitles"));
            } else if link.soft_subbed {
                parts.push(String::from_str("soft subtitles"));
            }
        },
    }
    assert(views(parts@) =~= before + (match subtitle_labels_spec(link.subtitles@) {
        Some(l) => seq!["subtitles: "@ + l],
        None => if link.subtitle is Some {
            seq!["external subtitles"@]
        } else if link.soft_subbed {
            seq!["soft subtitles"@]
        } else {
            Seq::<Seq<char>>::empty()
        },
    }));
    join(&parts, ", ")
}

/// How an episode of a show is named: `<title> episode <episode>`.
pub open spec fn episode_summary_spec(show: AnimeSearchResult, episode: Seq<char>) -> Seq<char> {
    show.title@ + " episode "@ + episode
}

/// Names an episode of a show.
pub fn episode_summary(show: &AnimeSearchResult, episode: &str) -> (r: String)
    ensures
        r@ == episode_summary_spec(*show, episode@),
{
    let mut s = show.title.clone();
    push_str(&mut s, " episode ");
    push_str(&mut s, episode);
    s
}

/// How a player is named.
pub open spec fn player_label_spec(k: KindView) -> Seq<char> {
    match k {
        KindView::Iina(_) => "IINA"@,
        KindView::Mpv(_) => "mpv"@,
        KindView::Vlc(_) => "VLC"@,
        KindView::Syncplay(_) => "Syncplay"@,
        KindView::Custom(p) => p,
        KindView::Download => "Download"@,
        KindView::Debug => "Debug"@,
    }
}

/// Names a player; a custom player by its program.
pub fn player_label(player: &PlayerKind) -> (r: String)
    ensures
        r@ == player_label_spec(kind_view(*player)),
{
    match player {
        PlayerKind::Iina(_) => String::from_str("IINA"),
        PlayerKind::Mpv(_) => String::from_str("mpv"),
        PlayerKind::Vlc(_) => String::from_str("VLC"),
        PlayerKind::Syncplay(_) => String::from_str("Syncplay"),
        PlayerKind::Custom(p) => p.clone(),
        PlayerKind::Download => String::from_str("Download"),
        PlayerKind::Debug => String::from_str("Debug"),
    }
}

/// The status shown after playback starts: for a download, whether it
/// finished, failed with a code or started, and where; for the debug
/// player, that playback is ready; for a player left running, that it will
/// launch shortly; otherwise whether it finished, failed with a code or
/// launched. The episode and the stream are named; the stream URL is not.
pub open spec fn playback_status_spec(
    show: AnimeSearchResult,
    episode: Seq<char>,
    stream: SelectedStream,
    request: PlaybackRequest,
    outcome: PlaybackOutcome,
) -> Seq<char> {
    let ep = episode_summary_spec(show, episode);
    let st = selected_stream_summary_spec(stream);
    let what = ep + " ("@ + st + ")"@;
    match kind_view(request.player) {
        KindView::Download => {
            let place = " in "@ + request.download_dir@ + "."@;
            match outcome.exit_code {
                Some(0i32) => "Download finished: "@ + what + place,
                Some(code) => "Download exited with code "@ + signed_dec_spec(code as int) + ": "@ + what
                    + place,
                None => "Download started: "@ + what + place,
            }
        },
        KindView::Debug => "Debug playback ready: "@ + what + "."@,
        k => {
            let name = player_label_spec(k);
            if outcome.detached {
                name + " will now launch shortly: "@ + what + "."@
            } else {
                match outcome.exit_code {
                    Some(0i32) => name + " finished: "@ + what + "."@,
                    Some(code) => name + " exited with code "@ + signed_dec_spec(code as int) + ": "@
                        + what + "."@,
                    None => name + " launched: "@ + what + "."@,
                }
            }
        },
    }
}

/// The status shown after playback starts (see `playback_status_spec`).
pub fn playback_status(
    show: &AnimeSearchResult,
    episode: &str,
    stream: &SelectedStream,
    request: &PlaybackRequest,
    outcome: &PlaybackOutcome,
) -> (r: String)
    ensures
        r@ == playback_status_spec(*show, episode@, *stream, *request, *outcome),
{
    let ep = episode_summary(show, episode);
    let st = selected_stream_summary(stream);
    let mut what = ep;
    push_str(&mut what, " (");
    push_str(&mut what, st.as_str());
    push_str(&mut what, ")");
    match &request.player {
        PlayerKind::Download => {
            let mut s = match outcome.exit_code {
                Some(0i32) => String::from_str("Download finished: "),
                Some(code) => {
                    let mut t = String::from_str("Download exited with code ");
                    push_signed(&mut t, code);
                    push_str(&mut t, ": ");
                    t
                },
                None => String::from_str("Download started: "),
            };
            push_str(&mut s, what.as_str());
            push_str(&mut s, " in ");
            push_str(&mut s, request.download_dir.as_str());
            push_str(&mut s, ".");
            s
        },
        PlayerKind::Debug => {
            let mut s = String::from_str("Debug playback ready: ");
            push_str(&mut s, what.as_str());
            push_str(&mut s, ".");
            s
        },
        player => {
            let mut s = player_label(player);
            if outcome.detached {
                push_str(&mut s, " will now launch shortly: ");
            } else {
                match outcome.exit_code {
                    Some(0i32) => push_str(&mut s, " finished: "),
                    Some(code) => {
                        push_str(&mut s, " exited with code ");
                        push_signed(&mut s, code);
                        push_str(&mut s, ": ");
                    },
                    None => push_str(&mut s, " launched: "),
                }
            }
            push_str(&mut s, what.as_str());
            push_str(&mut s, ".");
            s
        },
    }
}

// ---------------------------------------------------------------------
// Track languages
// ---------------------------------------------------------------------

/// A track-language choice by its texts: kind, label, language code and
/// subtitle track.
pub open spec fn choice_view(c: TrackLanguageChoice) -> (
    TrackLanguageKind,
    Seq<char>,
    Option<Seq<char>>,
    Option<(Seq<char>, Seq<char>, Seq<char>)>,
) {
    (
        c.kind,
        c.label@,
        opt_text(c.code),
        match c.subtitle {
            Some(t) => Some(track_view(t)),
            None => None,
        },
    )
}

/// The views of a list of choices.
pub open spec fn choices_view(cs: Seq<TrackLanguageChoice>) -> Seq<
    (TrackLanguageKind, Seq<char>, Option<Seq<char>>, Option<(Seq<char>, Seq<char>, Seq<char>)>),
> {
    cs.map_values(|c: TrackLanguageChoice| choice_view(c))
}

/// What makes two choices the same: kind, code and subtitle URL.
pub open spec fn choice_key(
    c: (TrackLanguageKind, Seq<char>, Option<Seq<char>>, Option<(Seq<char>, Seq<char>, Seq<char>)>),
) -> (TrackLanguageKind, Option<Seq<char>>, Option<Seq<char>>) {
    (
        c.0,
        c.2,
        match c.3 {
            Some(t) => Some(t.2),
            None => None,
        },
    )
}

/// Choices without repeats: the first of each key, in order.
pub open spec fn dedupe_choices_spec(
    cs: Seq<(TrackLanguageKind, Seq<char>, Option<Seq<char>>, Option<(Seq<char>, Seq<char>, Seq<char>)>)>,
) -> Seq<(TrackLanguageKind, Seq<char>, Option<Seq<char>>, Option<(Seq<char>, Seq<char>, Seq<char>)>)> {
    let f = crate::seqs::first_occurrences(cs.map_values(|c| choice_key(c)));
    f.map_values(|i: int| cs[i])
}

fn same_choice_key(a: &TrackLanguageChoice, b: &TrackLanguageChoice) -> (r: bool)
    ensures
        r == (choice_key(choice_view(*a)) == choice_key(choice_view(*b))),
{
    if a.kind != b.kind {
        return false;
    }
    let codes = match (&a.code, &b.code) {
        (Some(x), Some(y)) => str_eq(x.as_str(), y.as_str()),
        (None, None) => true,
        _ => false,
    };
    if !codes {
        return false;
    }
    match (&a.subtitle, &b.subtitle) {
        (Some(x), Some(y)) => str_eq(x.url.as_str(), y.url.as_str()),
        (None, None) => true,
        _ => false,
    }
}

/// Removes repeated choices, keeping the first of each kind, code and
/// subtitle URL, in order.
pub fn dedupe_track_choices(choices: Vec<TrackLanguageChoice>) -> (r: Vec<TrackLanguageChoice>)
    ensures
        choices_view(r@) == dedupe_choices_spec(choices_view(choices@)),
{
    let ghost cv = choices_view(choices@);
    let ghost keys = cv.map_values(|c| choice_key(c));
    let ghost orig = choices@;
    let mut rest = choices;
    let mut out: Vec<TrackLanguageChoice> = Vec::new();
    assert(orig.skip(0) =~= orig);
    assert(choices_view(out@) =~= crate::seqs::first_occurrences(keys.take(0)).map_values(
        |i: int| cv[i],
    ));
    while rest.len() > 0
        invariant
            rest@ == orig.skip(orig.len() - rest@.len()),
            rest@.len() <= orig.len(),
            cv == choices_view(orig),
            keys == cv.map_values(|c| choice_key(c)),
            choices_view(out@) == crate::seqs::first_occurrences(
                keys.take(orig.len() - rest@.len()),
            ).map_values(|i: int| cv[i]),
        decreases rest@.len(),
    {
        let ghost i: int = orig.len() - rest@.len();
        let ghost t = keys.take(i);
        let ghost f = crate::seqs::first_occurrences(t);
        let c = rest.remove(0);
        proof {
            assert(c == orig[i]);
            assert(rest@ =~= orig.skip(i + 1));
            crate::seqs::lemma_first_occurrences_first(t);
            crate::seqs::lemma_first_occurrences_cover(t);
            assert(keys.take(i + 1).drop_last() =~= t);
            assert(keys.take(i + 1).last() == keys[i]);
            assert(keys[i] == choice_key(choice_view(c)));
        }
        assert(choices_view(out@).len() == out@.len());
        assert(f.map_values(|j: int| cv[j]).len() == f.len());
        let mut seen = false;
        let mut k: usize = 0;
        while k < out.len()
            invariant
                k <= out@.len() == f.len(),
                0 <= i < orig.len(),
                cv == choices_view(orig),
                keys == cv.map_values(|c| choice_key(c)),
                t == keys.take(i),
                f == crate::seqs::first_occurrences(t),
                keys[i] == choice_key(choice_view(c)),
                forall|m: int| 0 <= m < f.len() ==> 0 <= #[trigger] f[m] < t.len(),
                choices_view(out@) == f.map_values(|j: int| cv[j]),
                seen == exists|m: int| 0 <= m < k && t[#[trigger] f[m]] == keys[i],
            decreases out@.len() - k,
        {
            proof {
                assert(choices_view(out@)[k as int] == cv[f[k as int]]);
                assert(t[f[k as int]] == keys[f[k as int]]);
            }
            if same_choice_key(&out[k], &c) {
                seen = true;
            }
            k = k + 1;
        }
        proof {
            if seen {
                let m = choose|m: int| 0 <= m < k && t[#[trigger] f[m]] == keys[i];
                assert(t.contains(keys[i]));
            } else if t.contains(keys[i]) {
                let j = choose|j: int| 0 <= j < t.len() && t[j] == keys[i];
                assert(crate::seqs::key_at_one_of(t, f, t[j]));
            }
        }
        if !seen {
            let ghost before = choices_view(out@);
            out.push(c);
            proof {
                assert(choices_view(out@) =~= before.push(choice_view(c)));
                assert(crate::seqs::first_occurrences(keys.take(i + 1)) =~= f.push(i));
                assert(f.push(i).map_values(|j: int| cv[j]) =~= before.push(cv[i]));
            }
        }
    }
    assert(keys.take(orig.len() as int) =~= keys);
    out
}

/// No two offered track-language choices share a kind, code and subtitle URL.
pub proof fn offered_choices_are_distinct(
    cs: Seq<(TrackLanguageKind, Seq<char>, Option<Seq<char>>, Option<(Seq<char>, Seq<char>, Seq<char>)>)>,
)
    ensures
        forall|i: int, j: int|
            0 <= i < j < dedupe_choices_spec(cs).len() ==> choice_key(dedupe_choices_spec(cs)[i])
                != choice_key(dedupe_choices_spec(cs)[j]),
{
    let keys = cs.map_values(|c| choice_key(c));
    let f = crate::seqs::first_occurrences(keys);
    crate::seqs::lemma_first_occurrences_first(keys);
    crate::seqs::lemma_first_occurrences_distinct(keys);
    assert forall|i: int, j: int|
        0 <= i < j < dedupe_choices_spec(cs).len() implies choice_key(dedupe_choices_spec(cs)[i])
            != choice_key(dedupe_choices_spec(cs)[j]) by {
        assert(keys[f[i]] != keys[f[j]]);
        assert(dedupe_choices_spec(cs)[i] == cs[f[i]]);
        assert(dedupe_choices_spec(cs)[j] == cs[f[j]]);
    }
}

/// The label of a hard-subtitle choice.
pub open spec fn hardsub_label(code: Seq<char>) -> Seq<char> {
    "Hard subtitles ("@ + code + ")"@
}

/// The label of a dub-audio choice.
pub open spec fn dub_label(code: Seq<char>) -> Seq<char> {
    "Dub audio ("@ + code + ")"@
}

/// One choice per link with a language of the given kind, in link order.
pub open spec fn link_language_choices(links: Seq<StreamLink>, kind: TrackLanguageKind) -> Seq<
    (TrackLanguageKind, Seq<char>, Option<Seq<char>>, Option<(Seq<char>, Seq<char>, Seq<char>)>),
>
    decreases links.len(),
{
    if links.len() == 0 {
        Seq::empty()
    } else {
        let r = link_language_choices(links.drop_last(), kind);
        let l = links.last();
        let code = if kind == TrackLanguageKind::DubAudio {
            opt_text(l.audio_language)
        } else {
            opt_text(l.hardsub_language)
        };
        match code {
            Some(c) => r.push(
                (
                    kind,
                    if kind == TrackLanguageKind::DubAudio {
                        dub_label(c)
                    } else {
                        hardsub_label(c)
                    },
                    Some(c),
                    None,
                ),
            ),
            None => r,
        }
    }
}

/// One choice per subtitle track.
pub open spec fn subtitle_choices(tracks: Seq<SubtitleTrack>) -> Seq<
    (TrackLanguageKind, Seq<char>, Option<Seq<char>>, Option<(Seq<char>, Seq<char>, Seq<char>)>),
> {
    tracks.map_values(
        |t: SubtitleTrack|
            (TrackLanguageKind::Subtitle, t.display_label_spec(), Some(t.lang@), Some(track_view(t))),
    )
}

/// The track languages offered for an episode: for subtitles, the tracks
/// of the chosen stream when it has more than one, else the hard-subtitle
/// languages of the links; for dubs, the audio languages of the links;
/// without repeats.
pub open spec fn track_choices_spec(
    mode: TranslationMode,
    links: Seq<StreamLink>,
    selected: SelectedStream,
) -> Seq<(TrackLanguageKind, Seq<char>, Option<Seq<char>>, Option<(Seq<char>, Seq<char>, Seq<char>)>)> {
    match mode {
        TranslationMode::Sub => if selected.subtitles@.len() > 1 {
            dedupe_choices_spec(subtitle_choices(selected.subtitles@))
        } else {
            dedupe_choices_spec(link_language_choices(links, TrackLanguageKind::Hardsub))
        },
        TranslationMode::Dub => dedupe_choices_spec(
            link_language_choices(links, TrackLanguageKind::DubAudio),
        ),
    }
}

fn language_choice(kind: TrackLanguageKind, code: &String) -> (r: TrackLanguageChoice)
    requires
        kind != TrackLanguageKind::Subtitle,
    ensures
        choice_view(r) == (
            kind,
            if kind == TrackLanguageKind::DubAudio {
                dub_label(code@)
            } else {
                hardsub_label(code@)
            },
            Some(code@),
            None::<(Seq<char>, Seq<char>, Seq<char>)>,
        ),
{
    let mut label = if kind == TrackLanguageKind::DubAudio {
        String::from_str("Dub audio (")
    } else {
        String::from_str("Hard subtitles (")
    };
    push_str(&mut label, code.as_str());
    push_str(&mut label, ")");
    TrackLanguageChoice { kind, label, code: Some(code.clone()), subtitle: None }
}

/// The choices for the links' languages of a kind (see `link_language_choices`).
fn link_choices(links: &[StreamLink], kind: TrackLanguageKind) -> (r: Vec<TrackLanguageChoice>)
    requires
        kind != TrackLanguageKind::Subtitle,
    ensures
        choices_view(r@) == link_language_choices(links@, kind),
{
    let mut out: Vec<TrackLanguageChoice> = Vec::new();
    let mut i: usize = 0;
    assert(choices_view(out@) =~= link_language_choices(links@.take(0), kind));
    while i < links.len()
        invariant
            i <= links@.len(),
            kind != TrackLanguageKind::Subtitle,
            choices_view(out@) == link_language_choices(links@.take(i as int), kind),
        decreases links@.len() - i,
    {
        assert(links@.take(i + 1).drop_last() =~= links@.take(i as int));
        assert(links@.take(i + 1).last() == links@[i as int]);
        let code = if kind == TrackLanguageKind::DubAudio {
            &links[i].audio_language
        } else {
            &links[i].hardsub_language
        };
        if let Some(c) = code {
            let ghost before = choices_view(out@);
            let ch = language_choice(kind, c);
            out.push(ch);
            assert(choices_view(out@) =~= before.push(choice_view(ch)));
        }
        i = i + 1;
    }
    assert(links@.take(links@.len() as int) =~= links@);
    out
}

/// The track languages offered for an episode (see `track_choices_spec`).
pub fn track_language_choices(
    mode: TranslationMode,
    links: &[StreamLink],
    selected: &SelectedStream,
) -> (r: Vec<TrackLanguageChoice>)
    ensures
        choices_view(r@) == track_choices_spec(mode, links@, *selected),
{
    match mode {
        TranslationMode::Sub => {
            if selected.subtitles.len() > 1 {
                let mut cs: Vec<TrackLanguageChoice> = Vec::new();
                let mut i: usize = 0;
                while i < selected.subtitles.len()
                    invariant
                        i <= selected.subtitles@.len(),
                        choices_view(cs@) == subtitle_choices(selected.subtitles@.take(i as int)),
                    decreases selected.subtitles@.len() - i,
                {
                    let t = selected.subtitles[i].clone();
                    let ghost before = choices_view(cs@);
                    let ch = TrackLanguageChoice {
                        kind: TrackLanguageKind::Subtitle,
                        label: t.display_label(),
                        code: Some(t.lang.clone()),
                        subtitle: Some(t),
                    };
                    cs.push(ch);
                    assert(choices_view(cs@) =~= before.push(choice_view(ch)));
                    assert(selected.subtitles@.take(i + 1) =~= selected.subtitles@.take(i as int).push(
                        selected.subtitles@[i as int],
                    ));
                    assert(choices_view(cs@) =~= subtitle_choices(selected.subtitles@.take(i + 1)));
                    i = i + 1;
                }
                assert(selected.subtitles@.take(selected.subtitles@.len() as int)
                    =~= selected.subtitles@);
                return dedupe_track_choices(cs);
            }
            dedupe_track_choices(link_choices(links, TrackLanguageKind::Hardsub))
        },
        TranslationMode::Dub => dedupe_track_choices(link_choices(links, TrackLanguageKind::DubAudio)),
    }
}

/// An episode waiting for its track language to be chosen.
#[derive(Debug)]
pub struct PendingPlayback {
    pub show: AnimeSearchResult,
    pub episode: String,
    pub links: Vec<StreamLink>,
    pub selected: SelectedStream,
    pub playback_config: AppConfig,
}

/// The language of a link that a choice of this kind compares.
pub open spec fn link_language(l: StreamLink, kind: TrackLanguageKind) -> Option<Seq<char>> {
    if kind == TrackLanguageKind::DubAudio {
        opt_text(l.audio_language)
    } else {
        opt_text(l.hardsub_language)
    }
}

/// The positions of the links whose language of a kind is `code`.
pub open spec fn matching_positions(
    links: Seq<StreamLink>,
    kind: TrackLanguageKind,
    code: Option<Seq<char>>,
) -> Seq<int>
    decreases links.len(),
{
    if links.len() == 0 {
        Seq::empty()
    } else {
        let r = matching_positions(links.drop_last(), kind, code);
        if link_language(links.last(), kind) == code {
            r.push(links.len() - 1)
        } else {
            r
        }
    }
}

/// The links at the matching positions.
pub open spec fn matching_links(
    links: Seq<StreamLink>,
    kind: TrackLanguageKind,
    code: Option<Seq<char>>,
) -> Seq<StreamLink> {
    matching_positions(links, kind, code).map_values(|i: int| links[i])
}

/// Positions are in range.
proof fn lemma_matching_positions(links: Seq<StreamLink>, kind: TrackLanguageKind, code: Option<Seq<char>>)
    ensures
        forall|k: int|
            0 <= k < matching_positions(links, kind, code).len() ==> 0 <= #[trigger] matching_positions(
                links,
                kind,
                code,
            )[k] < links.len(),
    decreases links.len(),
{
    if links.len() > 0 {
        lemma_matching_positions(links.drop_last(), kind, code);
        let r = matching_positions(links.drop_last(), kind, code);
        let p = matching_positions(links, kind, code);
        assert forall|k: int| 0 <= k < p.len() implies 0 <= #[trigger] p[k] < links.len() by {
            if k < r.len() {
                assert(p[k] == r[k]);
            }
        }
    }
}

/// The stream a track-language choice plays: for a subtitle track, the
/// chosen stream with that track; for a hard-subtitle or dub language, the
/// link the quality preference picks among the links in that language,
/// or the chosen stream when none is in it.
pub open spec fn apply_choice_spec(
    pending: PendingPlayback,
    choice: TrackLanguageChoice,
    q: QualityModel,
    r: SelectedStream,
) -> bool {
    if choice.kind == TrackLanguageKind::Subtitle {
        &&& r.subtitle == (match choice.subtitle {
            Some(t) => Some(t.url),
            None => None::<String>,
        })
        &&& r.quality == pending.selected.quality
        &&& r.url == pending.selected.url
        &&& r.source == pending.selected.source
        &&& r.referrer == pending.selected.referrer
        &&& r.subtitles@ == pending.selected.subtitles@
        &&& r.hardsub_language == pending.selected.hardsub_language
        &&& r.audio_language == pending.selected.audio_language
    } else {
        let pos = matching_positions(pending.links@, choice.kind, opt_text(choice.code));
        match select_index(matching_links(pending.links@, choice.kind, opt_text(choice.code)), q) {
            Some(k) => same_stream(r, SelectedStream::from_link_spec(pending.links@[pos[k]])),
            None => same_stream(r, pending.selected),
        }
    }
}

/// The stream a track-language choice plays (see `apply_choice_spec`).
pub fn apply_track_language_choice(
    pending: &PendingPlayback,
    choice: &TrackLanguageChoice,
    quality: &QualityPreference,
) -> (r: SelectedStream)
    ensures
        apply_choice_spec(*pending, *choice, quality.model(), r),
{
    if choice.kind == TrackLanguageKind::Subtitle {
        let track = match &choice.subtitle {
            Some(t) => Some(t.clone()),
            None => None,
        };
        return pending.selected.clone().with_subtitle_track(track);
    }
    let ghost code = opt_text(choice.code);
    let ghost pos = matching_positions(pending.links@, choice.kind, code);
    proof {
        lemma_matching_positions(pending.links@, choice.kind, code);
    }
    let mut filtered: Vec<StreamLink> = Vec::new();
    let mut i: usize = 0;
    while i < pending.links.len()
        invariant
            i <= pending.links@.len(),
            choice.kind != TrackLanguageKind::Subtitle,
            code == opt_text(choice.code),
            filtered@.len() == matching_positions(pending.links@.take(i as int), choice.kind, code).len(),
            forall|k: int|
                0 <= k < filtered@.len() ==> same_link(
                    #[trigger] filtered@[k],
                    pending.links@[matching_positions(pending.links@.take(i as int), choice.kind, code)[k]],
                ),
        decreases pending.links@.len() - i,
    {
        let ghost t = pending.links@.take(i as int);
        assert(pending.links@.take(i + 1).drop_last() =~= t);
        assert(pending.links@.take(i + 1).last() == pending.links@[i as int]);
        proof {
            lemma_matching_positions(t, choice.kind, code);
        }
        let l = &pending.links[i];
        let lang = if choice.kind == TrackLanguageKind::DubAudio {
            &l.audio_language
        } else {
            &l.hardsub_language
        };
        let same = match (lang, &choice.code) {
            (Some(a), Some(b)) => str_eq(a.as_str(), b.as_str()),
            (None, None) => true,
            _ => false,
        };
        assert(same == (link_language(pending.links@[i as int], choice.kind) == code));
        if same {
            let ghost before = filtered@;
            filtered.push(l.clone());
            assert forall|k: int| 0 <= k < filtered@.len() implies same_link(
                #[trigger] filtered@[k],
                pending.links@[matching_positions(pending.links@.take(i + 1), choice.kind, code)[k]],
            ) by {
                if k < before.len() {
                    assert(filtered@[k] == before[k]);
                }
            }
        } else {
            assert forall|k: int| 0 <= k < filtered@.len() implies same_link(
                #[trigger] filtered@[k],
                pending.links@[matching_positions(pending.links@.take(i + 1), choice.kind, code)[k]],
            ) by {}
        }
        i = i + 1;
    }
    assert(pending.links@.take(pending.links@.len() as int) =~= pending.links@);
    let ghost m = matching_links(pending.links@, choice.kind, code);
    proof {
        assert forall|k: int| 0 <= k < filtered@.len() implies filtered@[k].quality@ == m[k].quality@ by {
            assert(same_link(filtered@[k], pending.links@[pos[k]]));
        }
        crate::links::lemma_select_by_quality(filtered@, m, quality.model());
    }
    match select_quality(filtered.as_slice(), quality) {
        Some(s) => {
            proof {
                let k = select_index(filtered@, quality.model())->0;
                crate::links::select_finds_a_link_when_there_is_one(filtered@, quality.model());
                assert(same_link(filtered@[k], pending.links@[pos[k]]));
            }
            s
        },
        None => pending.selected.clone(),
    }
}

} // verus!
