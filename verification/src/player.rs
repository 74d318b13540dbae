//! Which player plays a stream, and the command line each player is started
//! with.

use vstd::prelude::*;
use crate::config::{AppConfig, PlayerChoice, ChoiceView};
use crate::history::{join_path, join_spec};
use crate::media::{SelectedStream};
use crate::skip::SkipLaunch;
use crate::text::{contains, contains_spec, push_str, str_eq, join, join_spec as join_words, views};

verus! {

/// A player and the program that runs it.
#[derive(Debug, PartialEq, Eq)]
pub enum PlayerKind {
    Iina(String),
    Mpv(String),
    Vlc(String),
    Syncplay(String),
    Download,
    Debug,
    Custom(String),
}

impl Clone for PlayerKind {
    fn clone(&self) -> (r: Self)
        ensures
            r == *self,
    {
        match self {
            PlayerKind::Iina(p) => PlayerKind::Iina(p.clone()),
            PlayerKind::Mpv(p) => PlayerKind::Mpv(p.clone()),
            PlayerKind::Vlc(p) => PlayerKind::Vlc(p.clone()),
            PlayerKind::Syncplay(p) => PlayerKind::Syncplay(p.clone()),
            PlayerKind::Download => PlayerKind::Download,
            PlayerKind::Debug => PlayerKind::Debug,
            PlayerKind::Custom(p) => PlayerKind::Custom(p.clone()),
        }
    }
}

/// What the host offers players: its platform, whether IINA's bundled
/// command-line tool is installed, and whether mpv is installed as a Flatpak.
#[derive(Debug, PartialEq, Eq, Clone, Copy, Structural)]
pub struct PlayerHost {
    pub macos: bool,
    pub windows: bool,
    pub iina_bundled: bool,
    pub mpv_flatpak: bool,
}

/// The bundled IINA command-line tool.
pub const IINA_BUNDLED_PATH: &'static str = "/Applications/IINA.app/Contents/MacOS/iina-cli";

/// The program that runs IINA: the bundled tool when it is installed.
pub open spec fn iina_program(host: PlayerHost) -> Seq<char> {
    if host.iina_bundled {
        IINA_BUNDLED_PATH@
    } else {
        "iina"@
    }
}

/// The program that runs mpv: `flatpak_mpv` when mpv is a Flatpak.
pub open spec fn mpv_program(host: PlayerHost) -> Seq<char> {
    if host.mpv_flatpak {
        "flatpak_mpv"@
    } else {
        "mpv"@
    }
}

/// The program that runs VLC.
pub open spec fn vlc_program(host: PlayerHost) -> Seq<char> {
    if host.windows {
        "vlc.exe"@
    } else {
        "vlc"@
    }
}

/// The program that runs Syncplay.
pub open spec fn syncplay_program(host: PlayerHost) -> Seq<char> {
    if host.macos {
        "/Applications/Syncplay.app/Contents/MacOS/syncplay"@
    } else if host.windows {
        "syncplay.exe"@
    } else {
        "syncplay"@
    }
}

/// Finds the program that runs IINA.
pub fn where_iina(host: PlayerHost) -> (r: String)
    ensures
        r@ == iina_program(host),
{
    if host.iina_bundled {
        String::from_str(IINA_BUNDLED_PATH)
    } else {
        String::from_str("iina")
    }
}

/// Finds the program that runs mpv.
pub fn where_mpv(host: PlayerHost) -> (r: String)
    ensures
        r@ == mpv_program(host),
{
    if host.mpv_flatpak {
        String::from_str("flatpak_mpv")
    } else {
        String::from_str("mpv")
    }
}

/// Finds the program that runs VLC.
pub fn where_vlc(host: PlayerHost) -> (r: String)
    ensures
        r@ == vlc_program(host),
{
    if host.windows {
        String::from_str("vlc.exe")
    } else {
        String::from_str("vlc")
    }
}

/// Finds the program that runs Syncplay.
pub fn where_syncplay(host: PlayerHost) -> (r: String)
    ensures
        r@ == syncplay_program(host),
{
    if host.macos {
        String::from_str("/Applications/Syncplay.app/Contents/MacOS/syncplay")
    } else if host.windows {
        String::from_str("syncplay.exe")
    } else {
        String::from_str("syncplay")
    }
}

/// A player kind by its texts.
pub enum KindView {
    Iina(Seq<char>),
    Mpv(Seq<char>),
    Vlc(Seq<char>),
    Syncplay(Seq<char>),
    Download,
    Debug,
    Custom(Seq<char>),
}

/// The view of a player kind.
pub open spec fn kind_view(k: PlayerKind) -> KindView {
    match k {
        PlayerKind::Iina(p) => KindView::Iina(p@),
        PlayerKind::Mpv(p) => KindView::Mpv(p@),
        PlayerKind::Vlc(p) => KindView::Vlc(p@),
        PlayerKind::Syncplay(p) => KindView::Syncplay(p@),
        PlayerKind::Download => KindView::Download,
        PlayerKind::Debug => KindView::Debug,
        PlayerKind::Custom(p) => KindView::Custom(p@),
    }
}

/// The player chosen automatically: IINA on macOS, mpv elsewhere.
pub open spec fn auto_player_spec(host: PlayerHost) -> KindView {
    if host.macos {
        KindView::Iina(iina_program(host))
    } else {
        KindView::Mpv(mpv_program(host))
    }
}

/// The player a configuration choice stands for on a host.
pub open spec fn default_player_spec(choice: ChoiceView, host: PlayerHost) -> KindView {
    match choice {
        ChoiceView::Auto => auto_player_spec(host),
        ChoiceView::Iina => KindView::Iina(iina_program(host)),
        ChoiceView::Mpv => KindView::Mpv(mpv_program(host)),
        ChoiceView::Vlc => KindView::Vlc(vlc_program(host)),
        ChoiceView::Syncplay => KindView::Syncplay(syncplay_program(host)),
        ChoiceView::Download => KindView::Download,
        ChoiceView::Debug => KindView::Debug,
        ChoiceView::Custom(v) => KindView::Custom(v),
    }
}

/// The player chosen automatically (see `auto_player_spec`).
pub fn auto_player(host: PlayerHost) -> (r: PlayerKind)
    ensures
        kind_view(r) == auto_player_spec(host),
{
    if host.macos {
        PlayerKind::Iina(where_iina(host))
    } else {
        PlayerKind::Mpv(where_mpv(host))
    }
}

/// The player a configuration choice stands for (see `default_player_spec`).
pub fn default_player(choice: &PlayerChoice, host: PlayerHost) -> (r: PlayerKind)
    ensures
        kind_view(r) == default_player_spec(choice.view_choice(), host),
{
    match choice {
        PlayerChoice::Auto => auto_player(host),
        PlayerChoice::Iina => PlayerKind::Iina(where_iina(host)),
        PlayerChoice::Mpv => PlayerKind::Mpv(where_mpv(host)),
        PlayerChoice::Vlc => PlayerKind::Vlc(where_vlc(host)),
        PlayerChoice::Syncplay => PlayerKind::Syncplay(where_syncplay(host)),
        PlayerChoice::Download => PlayerKind::Download,
        PlayerChoice::Debug => PlayerKind::Debug,
        PlayerChoice::Custom(v) => PlayerKind::Custom(v.clone()),
    }
}

/// What to play, with which player and how.
#[derive(Debug)]
pub struct PlaybackRequest {
    pub title: String,
    pub episode: String,
    pub stream: SelectedStream,
    pub player: PlayerKind,
    pub download_dir: String,
    pub no_detach: bool,
    pub exit_after_play: bool,
    pub log_episode: bool,
    pub skip: Option<SkipLaunch>,
}

/// How a player run ended: its command line, whether it was left running
/// detached, and its exit code when it was waited for.
#[derive(Debug, PartialEq, Eq)]
pub struct PlaybackOutcome {
    pub command: String,
    pub detached: bool,
    pub exit_code: Option<i32>,
}

impl PlaybackRequest {
    /// A request for a stream with the configured player and options, and
    /// no skip markers.
    pub fn from_config(
        config: &AppConfig,
        title: String,
        episode: String,
        stream: SelectedStream,
        host: PlayerHost,
    ) -> (r: Self)
        ensures
            r.title == title,
            r.episode == episode,
            r.stream == stream,
            kind_view(r.player) == default_player_spec(config.player.view_choice(), host),
            r.download_dir == config.download_dir,
            r.no_detach == config.no_detach,
            r.exit_after_play == config.exit_after_play,
            r.log_episode == config.log_episode,
            r.skip is None,
    {
        PlaybackRequest {
            title,
            episode,
            stream,
            player: default_player(&config.player, host),
            download_dir: config.download_dir.clone(),
            no_detach: config.no_detach,
            exit_after_play: config.exit_after_play,
            log_episode: config.log_episode,
            skip: None,
        }
    }

    /// The title players show: the show title followed by `Episode` and
    /// the episode.
    pub open spec fn media_title_spec(&self) -> Seq<char> {
        self.title@ + "Episode "@ + self.episode@
    }

    /// The title players show (see `media_title_spec`).
    pub fn media_title(&self) -> (r: String)
        ensures
            r@ == self.media_title_spec(),
    {
        let mut s = self.title.clone();
        push_str(&mut s, "Episode ");
        push_str(&mut s, self.episode.as_str());
        s
    }
}

/// A player command line: program and arguments, and whether it is left
/// running on its own (`detach`) or waited for (`wait`).
#[derive(Debug, PartialEq, Eq)]
pub struct PlayerCommand {
    pub program: String,
    pub args: Vec<String>,
    pub detach: bool,
    pub wait: bool,
}

impl PlayerCommand {
    /// The command line as shown: the program, a space, the arguments
    /// separated by spaces.
    pub open spec fn line_spec(&self) -> Seq<char> {
        self.program@ + " "@ + join_words(views(self.args@), " "@)
    }

    /// The command line as shown (see `line_spec`).
    pub fn command_line(&self) -> (r: String)
        ensures
            r@ == self.line_spec(),
    {
        let mut s = self.program.clone();
        push_str(&mut s, " ");
        let a = join(&self.args, " ");
        push_str(&mut s, a.as_str());
        s
    }

    /// The command is started and left running, not waited for.
    pub fn runs_detached(&self) -> (r: bool)
        ensures
            r == (self.detach && !self.wait),
    {
        self.detach && !self.wait
    }

    /// The outcome of a run: detached with no exit code, or waited for
    /// with the exit code it ended with.
    pub fn outcome(&self, exit_code: Option<i32>) -> (r: PlaybackOutcome)
        ensures
            r.command@ == self.line_spec(),
            r.detached == (self.detach && !self.wait),
            r.exit_code == (if self.detach && !self.wait {
                None
            } else {
                exit_code
            }),
    {
        let detached = self.runs_detached();
        PlaybackOutcome {
            command: self.command_line(),
            detached,
            exit_code: if detached {
                None
            } else {
                exit_code
            },
        }
    }
}

fn prefixed(prefix: &str, value: &str) -> (r: String)
    ensures
        r@ == prefix@ + value@,
{
    let mut s = String::from_str(prefix);
    push_str(&mut s, value);
    s
}

/// `prefix` and the value, as one argument, when there is a value.
pub open spec fn opt_arg(prefix: Seq<char>, o: Option<String>) -> Seq<Seq<char>> {
    match o {
        Some(v) => seq![prefix + v@],
        None => Seq::empty(),
    }
}

fn push_opt_arg(args: &mut Vec<String>, prefix: &str, o: &Option<String>)
    ensures
        views(final(args)@) == views(old(args)@) + opt_arg(prefix@, *o),
{
    let ghost before = views(args@);
    match o {
        Some(v) => {
            args.push(prefixed(prefix, v.as_str()));
            assert(views(args@) =~= before + opt_arg(prefix@, *o));
        },
        None => {
            assert(before + opt_arg(prefix@, *o) =~= before);
        },
    }
}

fn push_all(args: &mut Vec<String>, more: Vec<String>)
    ensures
        views(final(args)@) == views(old(args)@) + views(more@),
{
    let mut more = more;
    let ghost a = args@;
    let ghost b = more@;
    args.append(&mut more);
    assert(views(a + b) =~= views(a) + views(b));
}

/// The arguments of the skip markers, when there are any.
pub open spec fn skip_mpv_args(skip: Option<SkipLaunch>) -> Seq<Seq<char>> {
    match skip {
        Some(s) => s.mpv_args_spec(),
        None => Seq::empty(),
    }
}

/// The mpv arguments for a request: the media title, the subtitle file and
/// referrer when the stream has them, the skip markers when the request has
/// them, and the stream URL last.
pub open spec fn mpv_args_spec(r: PlaybackRequest) -> Seq<Seq<char>> {
    seq!["--force-media-title="@ + r.media_title_spec()] + opt_arg("--sub-file="@, r.stream.subtitle)
        + opt_arg("--referrer="@, r.stream.referrer) + skip_mpv_args(r.skip) + seq![r.stream.url@]
}

/// mpv is given the media title first; then the stream's subtitle file
/// when it has one; then its referrer when it has one; the stream URL comes
/// last.
pub proof fn mpv_gets_title_subtitle_referrer_and_url(r: PlaybackRequest)
    ensures
        mpv_args_spec(r).len() >= 2,
        mpv_args_spec(r)[0] == "--force-media-title="@ + r.media_title_spec(),
        r.stream.subtitle matches Some(s) ==> mpv_args_spec(r)[1] == "--sub-file="@ + s@,
        r.stream.subtitle is None ==> (r.stream.referrer matches Some(f) ==> mpv_args_spec(r)[1]
            == "--referrer="@ + f@),
        r.stream.subtitle is Some ==> (r.stream.referrer matches Some(f) ==> mpv_args_spec(r)[2]
            == "--referrer="@ + f@),
        mpv_args_spec(r).last() == r.stream.url@,
{
}

/// The mpv arguments for a request (see `mpv_args_spec`).
pub fn mpv_args(request: &PlaybackRequest) -> (r: Vec<String>)
    ensures
        views(r@) == mpv_args_spec(*request),
{
    let mut args: Vec<String> = Vec::new();
    let title = request.media_title();
    args.push(prefixed("--force-media-title=", title.as_str()));
    assert(views(args@) =~= seq!["--force-media-title="@ + request.media_title_spec()]);
    push_opt_arg(&mut args, "--sub-file=", &request.stream.subtitle);
    push_opt_arg(&mut args, "--referrer=", &request.stream.referrer);
    match &request.skip {
        Some(s) => {
            push_all(&mut args, s.mpv_args());
        },
        None => {
            assert(views(args@) + skip_mpv_args(request.skip) =~= views(args@));
        },
    }
    let ghost before = views(args@);
    args.push(request.stream.url.clone());
    assert(views(args@) =~= before + seq![request.stream.url@]);
    args
}

/// The IINA arguments for a request: no standard input, keep running when
/// IINA was not running already, the media title, the stream's subtitle file
/// and referrer, the skip markers, and the stream URL last.
pub open spec fn iina_args_spec(r: PlaybackRequest, iina_running: bool) -> Seq<Seq<char>> {
    seq!["--no-stdin"@] + (if iina_running {
        Seq::empty()
    } else {
        seq!["--keep-running"@]
    }) + seq!["--mpv-force-media-title="@ + r.media_title_spec()] + opt_arg(
        "--mpv-sub-file="@,
        r.stream.subtitle,
    ) + opt_arg("--mpv-referrer="@, r.stream.referrer) + (match r.skip {
        Some(s) => s.iina_args_spec(),
        None => Seq::empty(),
    }) + seq![r.stream.url@]
}

/// The command that starts IINA: detached, waited for when the request
/// asks to exit after playing.
pub fn launch_iina(program: &str, request: &PlaybackRequest, iina_running: bool) -> (r: PlayerCommand)
    ensures
        r.program@ == program@,
        views(r.args@) == iina_args_spec(*request, iina_running),
        r.detach,
        r.wait == request.exit_after_play,
{
    let mut args: Vec<String> = Vec::new();
    args.push(String::from_str("--no-stdin"));
    if !iina_running {
        args.push(String::from_str("--keep-running"));
    }
    let title = request.media_title();
    let ghost before = views(args@);
    args.push(prefixed("--mpv-force-media-title=", title.as_str()));
    assert(views(args@) =~= before + seq!["--mpv-force-media-title="@ + request.media_title_spec()]);
    push_opt_arg(&mut args, "--mpv-sub-file=", &request.stream.subtitle);
    push_opt_arg(&mut args, "--mpv-referrer=", &request.stream.referrer);
    match &request.skip {
        Some(s) => {
            push_all(&mut args, s.iina_args());
        },
        None => {
            assert(views(args@) + Seq::<Seq<char>>::empty() =~= views(args@));
        },
    }
    let ghost before2 = views(args@);
    args.push(request.stream.url.clone());
    assert(views(args@) =~= before2 + seq![request.stream.url@]);
    assert(views(args@) =~= iina_args_spec(*request, iina_running));
    PlayerCommand {
        program: String::from_str(program),
        args,
        detach: true,
        wait: request.exit_after_play,
    }
}

/// The command that starts mpv: through Flatpak for `flatpak_mpv`, detached
/// unless the request says not to, waited for when it asks to exit after
/// playing.
pub fn launch_mpv(program: &str, request: &PlaybackRequest) -> (r: PlayerCommand)
    ensures
        r.program@ == (if program@ == "flatpak_mpv"@ {
            "flatpak"@
        } else {
            program@
        }),
        views(r.args@) == (if program@ == "flatpak_mpv"@ {
            seq!["run"@, "io.mpv.Mpv"@] + mpv_args_spec(*request)
        } else {
            mpv_args_spec(*request)
        }),
        r.detach == !request.no_detach,
        r.wait == request.exit_after_play,
{
    if str_eq(program, "flatpak_mpv") {
        let mut args: Vec<String> = Vec::new();
        args.push(String::from_str("run"));
        args.push(String::from_str("io.mpv.Mpv"));
        assert(views(args@) =~= seq!["run"@, "io.mpv.Mpv"@]);
        push_all(&mut args, mpv_args(request));
        return PlayerCommand {
            program: String::from_str("flatpak"),
            args,
            detach: !request.no_detach,
            wait: request.exit_after_play,
        };
    }
    PlayerCommand {
        program: String::from_str(program),
        args: mpv_args(request),
        detach: !request.no_detach,
        wait: request.exit_after_play,
    }
}

/// The VLC arguments: the referrer when the stream has one, play and exit,
/// the media title, the stream URL.
pub open spec fn vlc_args_spec(r: PlaybackRequest) -> Seq<Seq<char>> {
    opt_arg("--http-referrer="@, r.stream.referrer) + seq![
        "--play-and-exit"@,
        "--meta-title="@ + r.media_title_spec(),
        r.stream.url@,
    ]
}

/// The command that starts VLC, detached.
pub fn launch_vlc(program: &str, request: &PlaybackRequest) -> (r: PlayerCommand)
    ensures
        r.program@ == program@,
        views(r.args@) == vlc_args_spec(*request),
        r.detach,
        !r.wait,
{
    let mut args: Vec<String> = Vec::new();
    assert(views(args@) =~= Seq::<Seq<char>>::empty());
    push_opt_arg(&mut args, "--http-referrer=", &request.stream.referrer);
    let ghost before = views(args@);
    args.push(String::from_str("--play-and-exit"));
    let title = request.media_title();
    args.push(prefixed("--meta-title=", title.as_str()));
    args.push(request.stream.url.clone());
    assert(views(args@) =~= before + seq![
        "--play-and-exit"@,
        "--meta-title="@ + request.media_title_spec(),
        request.stream.url@,
    ]);
    PlayerCommand { program: String::from_str(program), args, detach: true, wait: false }
}

/// `args` without the arguments equal to `x`.
pub open spec fn without(args: Seq<Seq<char>>, x: Seq<char>) -> Seq<Seq<char>>
    decreases args.len(),
{
    if args.len() == 0 {
        Seq::empty()
    } else {
        let r = without(args.drop_last(), x);
        if args.last() == x {
            r
        } else {
            r.push(args.last())
        }
    }
}

/// The command that starts Syncplay, detached: the stream URL, `--`, then
/// the mpv arguments other than the URL.
pub fn launch_syncplay(program: &str, request: &PlaybackRequest) -> (r: PlayerCommand)
    ensures
        r.program@ == program@,
        views(r.args@) == seq![request.stream.url@, "--"@] + without(
            mpv_args_spec(*request),
            request.stream.url@,
        ),
        r.detach,
        !r.wait,
{
    let mut args: Vec<String> = Vec::new();
    args.push(request.stream.url.clone());
    args.push(String::from_str("--"));
    let ghost start = views(args@);
    assert(start =~= seq![request.stream.url@, "--"@]);
    let m = mpv_args(request);
    let ghost mv = views(m@);
    let mut i: usize = 0;
    assert(start + without(mv.take(0), request.stream.url@) =~= start);
    while i < m.len()
        invariant
            i <= m@.len(),
            mv == views(m@),
            views(args@) == start + without(mv.take(i as int), request.stream.url@),
        decreases m@.len() - i,
    {
        assert(mv.take(i + 1).drop_last() =~= mv.take(i as int));
        assert(mv.take(i + 1).last() == m@[i as int]@);
        if !str_eq(m[i].as_str(), request.stream.url.as_str()) {
            let ghost before = views(args@);
            args.push(m[i].clone());
            assert(views(args@) =~= before.push(m@[i as int]@));
        }
        i = i + 1;
    }
    assert(mv.take(m@.len() as int) =~= mv);
    PlayerCommand { program: String::from_str(program), args, detach: true, wait: false }
}

/// The command that starts a custom program on the stream URL, detached.
pub fn launch_custom(program: &str, request: &PlaybackRequest) -> (r: PlayerCommand)
    ensures
        r.program@ == program@,
        views(r.args@) == seq![request.stream.url@],
        r.detach,
        !r.wait,
{
    let mut args: Vec<String> = Vec::new();
    args.push(request.stream.url.clone());
    assert(views(args@) =~= seq![request.stream.url@]);
    PlayerCommand { program: String::from_str(program), args, detach: true, wait: false }
}

/// The `logger` command that records the episode in the system log, when
/// the request asks for it and the player is a real one.
pub fn log_command(request: &PlaybackRequest) -> (r: Option<PlayerCommand>)
    ensures
        match r {
            Some(c) => {
                &&& request.log_episode
                &&& !(request.player is Debug || request.player is Download)
                &&& c.program@ == "logger"@
                &&& views(c.args@) == seq!["-t"@, "ani-cli"@, request.media_title_spec()]
                &&& !c.detach && c.wait
            },
            None => !request.log_episode || request.player is Debug || request.player is Download,
        },
{
    match request.player {
        PlayerKind::Debug | PlayerKind::Download => None,
        _ => if request.log_episode {
            let mut args: Vec<String> = Vec::new();
            args.push(String::from_str("-t"));
            args.push(String::from_str("ani-cli"));
            args.push(request.media_title());
            assert(views(args@) =~= seq!["-t"@, "ani-cli"@, request.media_title_spec()]);
            Some(PlayerCommand { program: String::from_str("logger"), args, detach: false, wait: true })
        } else {
            None
        },
    }
}

/// How a download runs: the directory made first, the subtitle fetched when
/// the stream has one, then the download command.
#[derive(Debug)]
pub struct DownloadPlan {
    pub dir: String,
    pub subtitle: Option<PlayerCommand>,
    pub command: PlayerCommand,
}

/// A list of string literals as owned strings.
fn owned_args(v: &[&str]) -> (r: Vec<String>)
    ensures
        views(r@) == v@.map_values(|a: &str| a@),
{
    let mut out: Vec<String> = Vec::new();
    let mut i: usize = 0;
    while i < v.len()
        invariant
            i <= v@.len(),
            views(out@) == v@.take(i as int).map_values(|a: &str| a@),
        decreases v@.len() - i,
    {
        let ghost before = views(out@);
        out.push(String::from_str(v[i]));
        assert(views(out@) =~= before.push(v@[i as int]@));
        assert(v@.take(i + 1) =~= v@.take(i as int).push(v@[i as int]));
        assert(v@.take(i + 1).map_values(|a: &str| a@) =~= v@.take(i as int).map_values(
            |a: &str| a@,
        ).push(v@[i as int]@));
        i = i + 1;
    }
    assert(v@.take(v@.len() as int) =~= v@);
    out
}

/// The file a download is saved to: the media title with `ext`, in the
/// download directory.
pub open spec fn download_file(r: PlaybackRequest, ext: Seq<char>) -> Seq<char> {
    join_spec(r.download_dir@, r.media_title_spec() + ext)
}

/// The download command for an HLS stream: `yt-dlp` when it is available,
/// else `ffmpeg`, each with the stream's referrer when it has one.
pub open spec fn hls_download_args(r: PlaybackRequest, yt_dlp: bool) -> Seq<Seq<char>> {
    let referer = match r.stream.referrer {
        Some(v) => if yt_dlp {
            seq!["--referer"@, v@]
        } else {
            seq!["-referer"@, v@]
        },
        None => Seq::empty(),
    };
    let out = download_file(r, ".mp4"@);
    if yt_dlp {
        referer + seq![
            r.stream.url@,
            "--no-skip-unavailable-fragments"@,
            "--fragment-retries"@,
            "infinite"@,
            "-N"@,
            "16"@,
            "-o"@,
            out,
        ]
    } else {
        seq!["-extension_picky"@, "0"@, "-loglevel"@, "error"@, "-stats"@] + referer + seq![
            "-i"@,
            r.stream.url@,
            "-c"@,
            "copy"@,
            out,
        ]
    }
}

/// The `aria2c` arguments for a direct download.
pub open spec fn aria2c_args(r: PlaybackRequest) -> Seq<Seq<char>> {
    seq![
        "--enable-rpc=false"@,
        "--check-certificate=false"@,
        "--continue"@,
        "--summary-interval=0"@,
        "-x"@,
        "16"@,
        "-s"@,
        "16"@,
    ] + opt_arg("--referer="@, r.stream.referrer) + seq![
        r.stream.url@,
        "--dir="@ + r.download_dir@,
        "-o="@ + r.media_title_spec() + ".mp4"@,
        "--download-result=hide"@,
    ]
}

/// Plans a download: the subtitle fetched with `curl` next to the video
/// when the stream has one; HLS streams through `yt-dlp` or `ffmpeg`, other
/// streams through `aria2c`; every command waited for.
pub open spec fn download_plan_spec(request: PlaybackRequest, yt_dlp_available: bool, r: DownloadPlan) -> bool {
    &&& r.dir == request.download_dir
    &&& match request.stream.subtitle {
        Some(sub) => (r.subtitle matches Some(c) && c.program@ == "curl"@ && views(c.args@)
            == seq!["-s"@, sub@, "-o"@, download_file(request, ".vtt"@)] && !c.detach
            && c.wait),
        None => r.subtitle is None,
    }
    &&& !r.command.detach
    &&& r.command.wait
    &&& contains_spec(request.stream.url@, ".m3u8"@) ==> {
        &&& r.command.program@ == (if yt_dlp_available {
            "yt-dlp"@
        } else {
            "ffmpeg"@
        })
        &&& views(r.command.args@) == hls_download_args(request, yt_dlp_available)
    }
    &&& !contains_spec(request.stream.url@, ".m3u8"@) ==> {
        &&& r.command.program@ == "aria2c"@
        &&& views(r.command.args@) == aria2c_args(request)
    }
}

/// Plans a download (see `download_plan_spec`).
pub fn download_plan(request: &PlaybackRequest, yt_dlp_available: bool) -> (r: DownloadPlan)
    ensures
        download_plan_spec(*request, yt_dlp_available, r),
{
    let title = request.media_title();
    let subtitle = match &request.stream.subtitle {
        Some(sub) => {
            let mut name = title.clone();
            push_str(&mut name, ".vtt");
            let target = join_path(request.download_dir.as_str(), name.as_str());
            let mut args: Vec<String> = Vec::new();
            args.push(String::from_str("-s"));
            args.push(sub.clone());
            args.push(String::from_str("-o"));
            args.push(target);
            assert(views(args@) =~= seq!["-s"@, sub@, "-o"@, download_file(*request, ".vtt"@)]);
            Some(PlayerCommand { program: String::from_str("curl"), args, detach: false, wait: true })
        },
        None => None,
    };
    let mut mp4 = title.clone();
    push_str(&mut mp4, ".mp4");
    let output = join_path(request.download_dir.as_str(), mp4.as_str());
    assert(output@ == download_file(*request, ".mp4"@));
    let command = if contains(request.stream.url.as_str(), ".m3u8") {
        if yt_dlp_available {
            let mut args: Vec<String> = Vec::new();
            if let Some(referrer) = &request.stream.referrer {
                args.push(String::from_str("--referer"));
                args.push(referrer.clone());
            }
            let ghost before = views(args@);
            args.push(request.stream.url.clone());
            let tail: [&str; 6] = [
                "--no-skip-unavailable-fragments",
                "--fragment-retries",
                "infinite",
                "-N",
                "16",
                "-o",
            ];
            assert(tail@.map_values(|a: &str| a@) =~= seq![
                "--no-skip-unavailable-fragments"@,
                "--fragment-retries"@,
                "infinite"@,
                "-N"@,
                "16"@,
                "-o"@,
            ]);
            push_all(&mut args, owned_args(&tail));
            let ghost mid = views(args@);
            args.push(output);
            assert(views(args@) =~= mid.push(output@));
            assert(views(args@) =~= hls_download_args(*request, true));
            PlayerCommand { program: String::from_str("yt-dlp"), args, detach: false, wait: true }
        } else {
            let head: [&str; 5] = ["-extension_picky", "0", "-loglevel", "error", "-stats"];
            assert(head@.map_values(|a: &str| a@) =~= seq![
                "-extension_picky"@,
                "0"@,
                "-loglevel"@,
                "error"@,
                "-stats"@,
            ]);
            let mut args = owned_args(&head);
            let ghost h = views(args@);
            if let Some(referrer) = &request.stream.referrer {
                args.push(String::from_str("-referer"));
                args.push(referrer.clone());
            }
            args.push(String::from_str("-i"));
            args.push(request.stream.url.clone());
            args.push(String::from_str("-c"));
            args.push(String::from_str("copy"));
            args.push(output);
            assert(views(args@) =~= hls_download_args(*request, false));
            PlayerCommand { program: String::from_str("ffmpeg"), args, detach: false, wait: true }
        }
    } else {
        let head: [&str; 8] = [
            "--enable-rpc=false",
            "--check-certificate=false",
            "--continue",
            "--summary-interval=0",
            "-x",
            "16",
            "-s",
            "16",
        ];
        assert(head@.map_values(|a: &str| a@) =~= seq![
            "--enable-rpc=false"@,
            "--check-certificate=false"@,
            "--continue"@,
            "--summary-interval=0"@,
            "-x"@,
            "16"@,
            "-s"@,
            "16"@,
        ]);
        let mut args = owned_args(&head);
        push_opt_arg(&mut args, "--referer=", &request.stream.referrer);
        let ghost before = views(args@);
        args.push(request.stream.url.clone());
        args.push(prefixed("--dir=", request.download_dir.as_str()));
        let mut o = prefixed("-o=", title.as_str());
        push_str(&mut o, ".mp4");
        args.push(o);
        args.push(String::from_str("--download-result=hide"));
        assert(views(args@) =~= aria2c_args(*request));
        PlayerCommand { program: String::from_str("aria2c"), args, detach: false, wait: true }
    };
    DownloadPlan { dir: request.download_dir.clone(), subtitle, command }
}

/// What launching a request does.
#[derive(Debug)]
pub enum LaunchPlan {
    /// Nothing to run: the outcome is known.
    Finished(PlaybackOutcome),
    /// Run a player command.
    Run(PlayerCommand),
    /// Download the stream.
    Download(DownloadPlan),
}

/// The outcome of a debug run: the media title, quality and URL, as if a
/// player had finished successfully.
pub open spec fn debug_line(r: PlaybackRequest) -> Seq<char> {
    "debug "@ + r.media_title_spec() + " ["@ + r.stream.quality@ + "] "@ + r.stream.url@
}

/// Plans the launch of a request: the debug player only reports, the
/// download player downloads, the others start their program.
/// `iina_running` tells whether IINA already runs; `yt_dlp_available`
/// whether `yt-dlp` is installed.
pub fn launch_plan(request: &PlaybackRequest, iina_running: bool, yt_dlp_available: bool) -> (r:
    LaunchPlan)
    ensures
        request.player is Debug ==> (r matches LaunchPlan::Finished(o) && o.command@ == debug_line(
            *request,
        ) && !o.detached && o.exit_code == Some(0i32)),
        request.player is Download ==> (r matches LaunchPlan::Download(d) && download_plan_spec(
            *request,
            yt_dlp_available,
            d,
        )),
        request.player matches PlayerKind::Iina(p) ==> (r matches LaunchPlan::Run(c) && c.program@
            == p@ && views(c.args@) == iina_args_spec(*request, iina_running) && c.detach && c.wait
            == request.exit_after_play),
        request.player matches PlayerKind::Vlc(p) ==> (r matches LaunchPlan::Run(c) && c.program@
            == p@ && views(c.args@) == vlc_args_spec(*request) && c.detach && !c.wait),
        request.player matches PlayerKind::Custom(p) ==> (r matches LaunchPlan::Run(c)
            && c.program@ == p@ && views(c.args@) == seq![request.stream.url@] && c.detach
            && !c.wait),
        request.player matches PlayerKind::Mpv(p) ==> (r matches LaunchPlan::Run(c) && c.program@
            == (if p@ == "flatpak_mpv"@ {
            "flatpak"@
        } else {
            p@
        }) && views(c.args@) == (if p@ == "flatpak_mpv"@ {
            seq!["run"@, "io.mpv.Mpv"@] + mpv_args_spec(*request)
        } else {
            mpv_args_spec(*request)
        }) && c.detach == !request.no_detach && c.wait == request.exit_after_play),
        request.player matches PlayerKind::Syncplay(p) ==> (r matches LaunchPlan::Run(c)
            && c.program@ == p@ && views(c.args@) == seq![request.stream.url@, "--"@] + without(
            mpv_args_spec(*request),
            request.stream.url@,
        ) && c.detach && !c.wait),
{
    match &request.player {
        PlayerKind::Debug => {
            let mut line = String::from_str("debug ");
            let title = request.media_title();
            push_str(&mut line, title.as_str());
            push_str(&mut line, " [");
            push_str(&mut line, request.stream.quality.as_str());
            push_str(&mut line, "] ");
            push_str(&mut line, request.stream.url.as_str());
            LaunchPlan::Finished(PlaybackOutcome { command: line, detached: false, exit_code: Some(0) })
        },
        PlayerKind::Download => LaunchPlan::Download(download_plan(request, yt_dlp_available)),
        PlayerKind::Iina(p) => LaunchPlan::Run(launch_iina(p.as_str(), request, iina_running)),
        PlayerKind::Mpv(p) => LaunchPlan::Run(launch_mpv(p.as_str(), request)),
        PlayerKind::Vlc(p) => LaunchPlan::Run(launch_vlc(p.as_str(), request)),
        PlayerKind::Syncplay(p) => LaunchPlan::Run(launch_syncplay(p.as_str(), request)),
        PlayerKind::Custom(p) => LaunchPlan::Run(launch_custom(p.as_str(), request)),
    }
}

/// Whether launching needs to know if IINA already runs.
pub fn needs_iina_probe(request: &PlaybackRequest) -> (r: bool)
    ensures
        r == (request.player is Iina),
{
    match request.player {
        PlayerKind::Iina(_) => true,
        _ => false,
    }
}

/// Whether launching needs to know if `yt-dlp` is installed.
pub fn needs_downloader_probe(request: &PlaybackRequest) -> (r: bool)
    ensures
        r == (request.player is Download && contains_spec(request.stream.url@, ".m3u8"@)),
{
    match request.player {
        PlayerKind::Download => contains(request.stream.url.as_str(), ".m3u8"),
        _ => false,
    }
}

} // verus!
