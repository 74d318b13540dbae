//! The decisions a playback task makes between its network and player
//! calls: whether to ask for a track language, what to launch, whether to
//! look up skip markers, what to record in the history and what to report.

use vstd::prelude::*;
use crate::config::{AppConfig, PlayerChoice};
use crate::history::HistoryEntry;
use crate::links::EpisodeSources;
use crate::media::{AnimeSearchResult, same_stream};
use crate::player::{PlaybackOutcome, PlaybackRequest, PlayerHost, PlayerKind, default_player_spec, kind_view};
use crate::tui::{
    PendingPlayback, TrackLanguageChoice, choices_view, track_choices_spec, track_language_choices,
    playback_status, playback_status_spec,
};
use crate::events::PlaybackEvent;
use crate::ui::{LaunchEpisodeRequest, LoadEpisodeRequest};
use crate::skip::SkipLaunch;

verus! {

/// What follows once an episode's sources are known.
#[derive(Debug)]
pub enum SourcesStep {
    /// Several track languages are offered: the user chooses first.
    AskTrackLanguage { pending: PendingPlayback, choices: Vec<TrackLanguageChoice> },
    /// The selected stream is launched.
    Launch(LaunchEpisodeRequest),
}

/// Once the sources are known: with more than one track language to
/// choose from the user is asked, else the selected stream is launched.
pub fn after_sources(request: LoadEpisodeRequest, sources: EpisodeSources) -> (r: SourcesStep)
    ensures
        ({
            let cs = track_choices_spec(request.mode, sources.links@, sources.selected);
            &&& cs.len() > 1 ==> (r matches SourcesStep::AskTrackLanguage { pending, choices }
                && pending.show == request.show && pending.episode == request.episode
                && pending.links == sources.links && pending.selected == sources.selected
                && pending.playback_config == request.playback_config && choices_view(choices@)
                == cs)
            &&& cs.len() <= 1 ==> (r matches SourcesStep::Launch(l) && l.show == request.show
                && l.episode == request.episode && l.links == sources.links && l.selected
                == sources.selected && l.playback_config == request.playback_config
                && l.skip_intro == request.skip_intro && l.return_screen == request.return_screen)
        }),
{
    let choices = track_language_choices(request.mode, sources.links.as_slice(), &sources.selected);
    if choices.len() > 1 {
        SourcesStep::AskTrackLanguage {
            pending: PendingPlayback {
                show: request.show,
                episode: request.episode,
                links: sources.links,
                selected: sources.selected,
                playback_config: request.playback_config,
            },
            choices,
        }
    } else {
        SourcesStep::Launch(
            LaunchEpisodeRequest {
                show: request.show,
                episode: request.episode,
                links: sources.links,
                selected: sources.selected,
                playback_config: request.playback_config,
                skip_intro: request.skip_intro,
                return_screen: request.return_screen,
            },
        )
    }
}

/// What launching a stream involves.
#[derive(Debug)]
pub struct LaunchPlan {
    /// The player run, without skip markers yet.
    pub playback: PlaybackRequest,
    /// Whether AniSkip markers are looked up first.
    pub look_up_skip: bool,
    /// Whether the player is watched for the moment it closes.
    pub monitor_iina: bool,
    /// What the history records once the player ran.
    pub history_entry: HistoryEntry,
}

/// Plans the launch of a stream on a host: the configured player plays the
/// show under its media title; skip markers are looked up when AniSkip is
/// on and the episode is not downloaded; IINA is watched; the history
/// records the episode under the show's display title.
pub fn plan_launch(request: &LaunchEpisodeRequest, host: PlayerHost) -> (r: LaunchPlan)
    ensures
        r.playback.title@ == request.show.media_title_prefix_spec(),
        r.playback.episode == request.episode,
        same_stream(r.playback.stream, request.selected),
        kind_view(r.playback.player) == default_player_spec(
            request.playback_config.player.view_choice(),
            host,
        ),
        r.playback.download_dir == request.playback_config.download_dir,
        r.playback.skip is None,
        r.look_up_skip == (request.skip_intro && !(request.playback_config.player is Download)),
        r.monitor_iina == (r.playback.player is Iina),
        r.history_entry.episode == request.episode,
        r.history_entry.anime_id == request.show.id,
        r.history_entry.title@ == request.show.display_title_spec(),
{
    let playback = PlaybackRequest::from_config(
        &request.playback_config,
        request.show.media_title_prefix(),
        request.episode.clone(),
        request.selected.clone(),
        host,
    );
    let downloading = match request.playback_config.player {
        PlayerChoice::Download => true,
        _ => false,
    };
    let look_up_skip = request.skip_intro && !downloading;
    let monitor_iina = match playback.player {
        PlayerKind::Iina(_) => true,
        _ => false,
    };
    let history_entry = HistoryEntry {
        episode: request.episode.clone(),
        anime_id: request.show.id.clone(),
        title: request.show.display_title(),
    };
    LaunchPlan { playback, look_up_skip, monitor_iina, history_entry }
}

/// The title AniSkip is searched by when the show has no MyAnimeList id:
/// the configured skip title, else the show's title.
pub fn skip_query(config: &AppConfig, show: &AnimeSearchResult) -> (r: String)
    ensures
        r@ == (match config.skip_title {
            Some(t) => t@,
            None => show.title@,
        }),
{
    match &config.skip_title {
        Some(t) => t.clone(),
        None => show.title.clone(),
    }
}

/// `r` reports the launch of the request's stream: the status line says
/// what was played with which player and how it ended.
pub open spec fn reports_launch(
    r: PlaybackEvent,
    request: LaunchEpisodeRequest,
    playback: PlaybackRequest,
    outcome: PlaybackOutcome,
    monitor_iina: bool,
) -> bool {
    r matches PlaybackEvent::Launched {
        show,
        episode,
        links,
        selected,
        status,
        return_screen,
        monitor_iina: m,
    } && show == request.show && episode == request.episode && links == request.links
        && selected == request.selected && return_screen == request.return_screen && m
        == monitor_iina && status@ == playback_status_spec(
        request.show,
        request.episode@,
        request.selected,
        playback,
        outcome,
    )
}

/// The report of a launched stream (see `reports_launch`).
pub fn launched_event(
    request: LaunchEpisodeRequest,
    playback: &PlaybackRequest,
    outcome: &PlaybackOutcome,
    monitor_iina: bool,
) -> (r: PlaybackEvent)
    ensures
        reports_launch(r, request, *playback, *outcome, monitor_iina),
{
    let status = playback_status(
        &request.show,
        request.episode.as_str(),
        &request.selected,
        playback,
        outcome,
    );
    PlaybackEvent::Launched {
        show: request.show,
        episode: request.episode,
        links: request.links,
        selected: request.selected,
        status,
        return_screen: request.return_screen,
        monitor_iina,
    }
}

/// The player request once the skip markers were looked up: the markers
/// found are passed to the player; when the lookup failed the player runs
/// without them, and playback goes on either way.
pub fn after_skip_lookup(playback: PlaybackRequest, skip: Option<SkipLaunch>) -> (r: PlaybackRequest)
    ensures
        r == (PlaybackRequest { skip, ..playback }),
{
    PlaybackRequest { skip, ..playback }
}

/// What a launch comes to.
#[derive(Debug)]
pub enum LaunchStep {
    /// The player could not be launched: the task fails with the message
    /// and nothing is recorded.
    Failed(String),
    /// The player ran: the history records the one entry, then the launch
    /// is reported.
    Launched { record: HistoryEntry, event: PlaybackEvent },
}

/// Once the player was launched or failed to launch: a failure fails the
/// task with its message and records nothing; a launch records exactly one
/// history entry, for the episode under the show's id and display title,
/// and is reported.
pub fn after_launch(
    request: LaunchEpisodeRequest,
    playback: &PlaybackRequest,
    launched: Result<PlaybackOutcome, String>,
    monitor_iina: bool,
) -> (r: LaunchStep)
    ensures
        launched matches Err(m) ==> r == LaunchStep::Failed(m),
        launched matches Ok(outcome) ==> (r matches LaunchStep::Launched { record, event }
            && record.episode == request.episode && record.anime_id == request.show.id
            && record.title@ == request.show.display_title_spec() && reports_launch(
            event,
            request,
            *playback,
            outcome,
            monitor_iina,
        )),
{
    match launched {
        Err(m) => LaunchStep::Failed(m),
        Ok(outcome) => {
            let record = HistoryEntry {
                episode: request.episode.clone(),
                anime_id: request.show.id.clone(),
                title: request.show.display_title(),
            };
            let event = launched_event(request, playback, &outcome, monitor_iina);
            LaunchStep::Launched { record, event }
        },
    }
}

} // verus!
