//! Shared media types: translation mode, search results, subtitle tracks and
//! stream links.

use vstd::prelude::*;
use crate::seqs::first_pos;
use crate::text::{chars_of, push_str, push_dec, dec_spec, trim_spec, trim_bounds, string_of_range, find_char, is_digit, digits_value, parse_unsigned};

verus! {

/// Whether episodes are watched with subtitles or dubbed audio.
#[derive(Debug, Clone, Copy, PartialEq, Eq, Structural)]
pub enum TranslationMode {
    Sub,
    Dub,
}

impl Default for TranslationMode {
    fn default() -> (r: Self)
        ensures
            r == TranslationMode::Sub,
    {
        TranslationMode::Sub
    }
}

impl TranslationMode {
    /// The name AllAnime uses for this mode.
    pub open spec fn name_spec(self) -> Seq<char> {
        match self {
            TranslationMode::Sub => "sub"@,
            TranslationMode::Dub => "dub"@,
        }
    }

    /// The name AllAnime uses for this mode: `sub` or `dub`.
    pub fn as_allanime(self) -> (r: &'static str)
        ensures
            r@ == self.name_spec(),
    {
        match self {
            TranslationMode::Sub => "sub",
            TranslationMode::Dub => "dub",
        }
    }

    /// The other mode.
    pub open spec fn toggled(self) -> TranslationMode {
        match self {
            TranslationMode::Sub => TranslationMode::Dub,
            TranslationMode::Dub => TranslationMode::Sub,
        }
    }

    /// Switches between `Sub` and `Dub`.
    pub fn toggle(&mut self)
        ensures
            *final(self) == old(self).toggled(),
    {
        *self = match *self {
            TranslationMode::Sub => TranslationMode::Dub,
            TranslationMode::Dub => TranslationMode::Sub,
        };
    }

    /// The mode as displayed (its AllAnime name).
    pub fn to_label_string(self) -> (r: String)
        ensures
            r@ == self.name_spec(),
    {
        String::from_str(self.as_allanime())
    }
}

/// Toggling twice gives the original mode back.
pub proof fn toggle_twice_is_identity(m: TranslationMode)
    ensures
        m.toggled().toggled() == m,
        m.toggled() != m,
{
}

/// One anime found by a search.
#[derive(Debug, PartialEq, Eq)]
pub struct AnimeSearchResult {
    pub id: String,
    pub title: String,
    pub episode_count: Option<u32>,
}

impl Clone for AnimeSearchResult {
    fn clone(&self) -> (r: Self)
        ensures
            r == *self,
    {
        AnimeSearchResult {
            id: self.id.clone(),
            title: self.title.clone(),
            episode_count: self.episode_count,
        }
    }
}

/// `c` is ASCII punctuation (what `char::is_ascii_punctuation` tests).
pub open spec fn is_ascii_punct(c: char) -> bool {
    ||| ('!' <= c && c <= '/')
    ||| (':' <= c && c <= '@')
    ||| ('[' <= c && c <= '`')
    ||| ('{' <= c && c <= '~')
}

/// The characters of `s` that are not ASCII punctuation.
pub open spec fn drop_punct(s: Seq<char>) -> Seq<char>
    decreases s.len(),
{
    if s.len() == 0 {
        s
    } else if is_ascii_punct(s.last()) {
        drop_punct(s.drop_last())
    } else {
        drop_punct(s.drop_last()).push(s.last())
    }
}

/// The part of `s` before the first `c` (all of `s` when there is none);
/// this is the first piece that splitting `s` at `c` yields.
pub open spec fn before_char(s: Seq<char>, c: char) -> Seq<char> {
    match first_pos(s, c) {
        Some(i) => s.take(i),
        None => s,
    }
}

/// The text before the first `c` in `v`.
pub fn before_char_exec(v: &Vec<char>, c: char) -> (r: Vec<char>)
    ensures
        r@ == before_char(v@, c),
{
    let end = match find_char(v, c) {
        Some(i) => i,
        None => v.len(),
    };
    let mut r: Vec<char> = Vec::new();
    let mut i: usize = 0;
    while i < end
        invariant
            end <= v.len(),
            i <= end,
            r@ == v@.take(i as int),
        decreases end - i,
    {
        r.push(v[i]);
        assert(v@.take(i + 1) =~= v@.take(i as int).push(v@[i as int]));
        i = i + 1;
    }
    assert(v@.take(v.len() as int) =~= v@);
    r
}

impl AnimeSearchResult {
    /// The title followed by the episode count when it is known.
    pub open spec fn display_title_spec(&self) -> Seq<char> {
        match self.episode_count {
            Some(count) => self.title@ + " ("@ + dec_spec(count as nat) + " episodes)"@,
            None => self.title@,
        }
    }

    /// `Title (N episodes)`, or just the title when the count is unknown.
    pub fn display_title(&self) -> (r: String)
        ensures
            r@ == self.display_title_spec(),
    {
        match self.episode_count {
            Some(count) => {
                let mut s = self.title.clone();
                push_str(&mut s, " (");
                push_dec(&mut s, count as u64);
                push_str(&mut s, " episodes)");
                s
            },
            None => self.title.clone(),
        }
    }

    /// The media title prefix: the title up to the first `(`, without ASCII
    /// punctuation, trimmed.
    pub open spec fn media_title_prefix_spec(&self) -> Seq<char> {
        trim_spec(drop_punct(before_char(self.title@, '(')))
    }

    /// The title up to the first `(`, with ASCII punctuation removed and
    /// surrounding whitespace trimmed.
    pub fn media_title_prefix(&self) -> (r: String)
        ensures
            r@ == self.media_title_prefix_spec(),
    {
        let v = chars_of(self.title.as_str());
        let head = before_char_exec(&v, '(');
        let mut kept: Vec<char> = Vec::new();
        let mut i: usize = 0;
        assert(head@.take(0) =~= Seq::<char>::empty());
        while i < head.len()
            invariant
                i <= head.len(),
                kept@ == drop_punct(head@.take(i as int)),
            decreases head.len() - i,
        {
            let c = head[i];
            assert(head@.take(i + 1).drop_last() =~= head@.take(i as int));
            if !(('!' <= c && c <= '/') || (':' <= c && c <= '@') || ('[' <= c && c <= '`') || ('{' <= c
                && c <= '~')) {
                kept.push(c);
            }
            i = i + 1;
        }
        assert(head@.take(head.len() as int) =~= head@);
        let (a, b) = trim_bounds(&kept);
        string_of_range(&kept, a, b)
    }
}

/// One external subtitle track offered by a provider.
#[derive(Debug, PartialEq, Eq)]
pub struct SubtitleTrack {
    pub lang: String,
    pub label: String,
    pub url: String,
}

impl Clone for SubtitleTrack {
    fn clone(&self) -> (r: Self)
        ensures
            r == *self,
    {
        SubtitleTrack { lang: self.lang.clone(), label: self.label.clone(), url: self.url.clone() }
    }
}

impl SubtitleTrack {
    /// How a track is named to the user.
    pub open spec fn display_label_spec(&self) -> Seq<char> {
        self.label@ + " ("@ + self.lang@ + ")"@
    }

    /// `Label (lang)`.
    pub fn display_label(&self) -> (r: String)
        ensures
            r@ == self.display_label_spec(),
    {
        let mut s = self.label.clone();
        push_str(&mut s, " (");
        push_str(&mut s, self.lang.as_str());
        push_str(&mut s, ")");
        s
    }
}

/// Copies a list of subtitle tracks.
pub fn clone_tracks(v: &Vec<SubtitleTrack>) -> (r: Vec<SubtitleTrack>)
    ensures
        r@ == v@,
{
    let mut r: Vec<SubtitleTrack> = Vec::new();
    let mut i: usize = 0;
    while i < v.len()
        invariant
            i <= v.len(),
            r@ == v@.take(i as int),
        decreases v.len() - i,
    {
        r.push(v[i].clone());
        assert(v@.take(i + 1) =~= v@.take(i as int).push(v@[i as int]));
        i = i + 1;
    }
    assert(v@.take(v.len() as int) =~= v@);
    r
}

/// Copies an optional string.
pub fn clone_opt(o: &Option<String>) -> (r: Option<String>)
    ensures
        r == *o,
{
    match o {
        Some(s) => Some(s.clone()),
        None => None,
    }
}

/// One playable stream offered by a provider.
#[derive(Debug, PartialEq, Eq)]
pub struct StreamLink {
    pub quality: String,
    pub url: String,
    pub source: String,
    pub referrer: Option<String>,
    pub subtitle: Option<String>,
    pub subtitles: Vec<SubtitleTrack>,
    pub hardsub_language: Option<String>,
    pub audio_language: Option<String>,
    pub soft_subbed: bool,
}

/// Two links hold the same data.
pub open spec fn same_link(a: StreamLink, b: StreamLink) -> bool {
    &&& a.quality == b.quality
    &&& a.url == b.url
    &&& a.source == b.source
    &&& a.referrer == b.referrer
    &&& a.subtitle == b.subtitle
    &&& a.subtitles@ == b.subtitles@
    &&& a.hardsub_language == b.hardsub_language
    &&& a.audio_language == b.audio_language
    &&& a.soft_subbed == b.soft_subbed
}

impl Clone for StreamLink {
    fn clone(&self) -> (r: Self)
        ensures
            same_link(r, *self),
    {
        StreamLink {
            quality: self.quality.clone(),
            url: self.url.clone(),
            source: self.source.clone(),
            referrer: clone_opt(&self.referrer),
            subtitle: clone_opt(&self.subtitle),
            subtitles: clone_tracks(&self.subtitles),
            hardsub_language: clone_opt(&self.hardsub_language),
            audio_language: clone_opt(&self.audio_language),
            soft_subbed: self.soft_subbed,
        }
    }
}

/// Copies a list of stream links, link by link.
pub fn clone_links(v: &Vec<StreamLink>) -> (r: Vec<StreamLink>)
    ensures
        r@.len() == v@.len(),
        forall|k: int| 0 <= k < v@.len() ==> same_link(#[trigger] r@[k], v@[k]),
{
    let mut r: Vec<StreamLink> = Vec::new();
    let mut i: usize = 0;
    while i < v.len()
        invariant
            i <= v.len(),
            r@.len() == i,
            forall|k: int| 0 <= k < i ==> same_link(#[trigger] r@[k], v@[k]),
        decreases v.len() - i,
    {
        r.push(v[i].clone());
        i = i + 1;
    }
    r
}

/// The leading run of ASCII digits of `s`.
pub open spec fn leading_digits(s: Seq<char>) -> Seq<char>
    decreases s.len(),
{
    if s.len() > 0 && is_digit(s[0]) {
        seq![s[0]] + leading_digits(s.drop_first())
    } else {
        Seq::empty()
    }
}

/// The numeric score of a quality label.
pub open spec fn score_spec(quality: Seq<char>) -> int {
    let d = leading_digits(quality);
    if d.len() > 0 && digits_value(d) <= i32::MAX {
        digits_value(d) as int
    } else {
        0
    }
}

/// The leading digits of `v` form a prefix of digits.
proof fn lemma_leading_digits(s: Seq<char>, i: int)
    requires
        0 <= i <= s.len(),
        forall|j: int| 0 <= j < i ==> is_digit(s[j]),
        i == s.len() || !is_digit(s[i]),
    ensures
        leading_digits(s) == s.take(i),
    decreases i,
{
    if i > 0 {
        lemma_leading_digits(s.drop_first(), i - 1);
        assert(seq![s[0]] + s.drop_first().take(i - 1) =~= s.take(i));
    } else {
        if s.len() > 0 {
            assert(!is_digit(s[0]));
        }
        assert(s.take(0) =~= Seq::<char>::empty());
    }
}

impl StreamLink {
    /// The number that a quality label starts with (`1080p` scores 1080);
    /// 0 when it does not start with a digit or the number does not fit.
    pub fn score(&self) -> (r: i32)
        ensures
            r as int == score_spec(self.quality@),
    {
        let v = chars_of(self.quality.as_str());
        let mut i: usize = 0;
        while i < v.len() && '0' <= v[i] && v[i] <= '9'
            invariant
                i <= v.len(),
                forall|j: int| 0 <= j < i ==> is_digit(v@[j]),
            decreases v.len() - i,
        {
            i = i + 1;
        }
        proof {
            lemma_leading_digits(v@, i as int);
        }
        assert(v@.subrange(0, i as int) =~= v@.take(i as int));
        if i == 0 {
            return 0;
        }
        let digits = string_of_range(&v, 0, i);
        match parse_unsigned(digits.as_str(), 2147483647) {
            Some(n) => {
                assert(digits@.len() > 0 && digits@[0] != '+');
                n as i32
            },
            None => {
                assert(digits@[0] != '+');
                0
            },
        }
    }
}

/// The stream chosen for playback.
#[derive(Debug, PartialEq, Eq)]
pub struct SelectedStream {
    pub quality: String,
    pub url: String,
    pub source: String,
    pub referrer: Option<String>,
    pub subtitle: Option<String>,
    pub subtitles: Vec<SubtitleTrack>,
    pub hardsub_language: Option<String>,
    pub audio_language: Option<String>,
}

/// Two selected streams hold the same data.
pub open spec fn same_stream(a: SelectedStream, b: SelectedStream) -> bool {
    &&& a.quality == b.quality
    &&& a.url == b.url
    &&& a.source == b.source
    &&& a.referrer == b.referrer
    &&& a.subtitle == b.subtitle
    &&& a.subtitles@ == b.subtitles@
    &&& a.hardsub_language == b.hardsub_language
    &&& a.audio_language == b.audio_language
}

impl Clone for SelectedStream {
    fn clone(&self) -> (r: Self)
        ensures
            same_stream(r, *self),
    {
        SelectedStream {
            quality: self.quality.clone(),
            url: self.url.clone(),
            source: self.source.clone(),
            referrer: clone_opt(&self.referrer),
            subtitle: clone_opt(&self.subtitle),
            subtitles: clone_tracks(&self.subtitles),
            hardsub_language: clone_opt(&self.hardsub_language),
            audio_language: clone_opt(&self.audio_language),
        }
    }
}

impl SelectedStream {
    /// The stream described by a link, without its soft-subtitle flag.
    pub open spec fn from_link_spec(link: StreamLink) -> SelectedStream {
        SelectedStream {
            quality: link.quality,
            url: link.url,
            source: link.source,
            referrer: link.referrer,
            subtitle: link.subtitle,
            subtitles: link.subtitles,
            hardsub_language: link.hardsub_language,
            audio_language: link.audio_language,
        }
    }

    /// Selects a link for playback.
    pub fn from_link(link: StreamLink) -> (r: SelectedStream)
        ensures
            r == Self::from_link_spec(link),
    {
        SelectedStream {
            quality: link.quality,
            url: link.url,
            source: link.source,
            referrer: link.referrer,
            subtitle: link.subtitle,
            subtitles: link.subtitles,
            hardsub_language: link.hardsub_language,
            audio_language: link.audio_language,
        }
    }

    /// The same stream with `track` as its subtitle (or none).
    pub fn with_subtitle_track(self, track: Option<SubtitleTrack>) -> (r: SelectedStream)
        ensures
            r.subtitle == (match track {
                Some(t) => Some(t.url),
                None => None::<String>,
            }),
            r.quality == self.quality,
            r.url == self.url,
            r.source == self.source,
            r.referrer == self.referrer,
            r.subtitles == self.subtitles,
            r.hardsub_language == self.hardsub_language,
            r.audio_language == self.audio_language,
    {
        let mut r = self;
        r.subtitle = match track {
            Some(t) => Some(t.url),
            None => None,
        };
        r
    }
}

impl From<StreamLink> for SelectedStream {
    fn from(link: StreamLink) -> (r: SelectedStream) {
        SelectedStream::from_link(link)
    }
}

impl vstd::std_specs::convert::FromSpecImpl<StreamLink> for SelectedStream {
    open spec fn obeys_from_spec() -> bool {
        true
    }

    open spec fn from_spec(link: StreamLink) -> SelectedStream {
        SelectedStream::from_link_spec(link)
    }
}

} // verus!
