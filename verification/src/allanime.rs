//! The decisions of the AllAnime client: how an episode's source list is
//! read (including its encrypted form), where providers are fetched from,
//! what a provider response yields, and what search, episode and MAL-id
//! responses hold.

use vstd::prelude::*;
use vstd::string::StringSliceAdditionalSpecFns;
use vstd::utf8::{valid_utf8, decode_utf8};
use crate::crypto::{
    sha256, base64_standard, aes256_gcm_open, aes256_ctr_apply, sha256_digest, base64_decode,
    aes256_gcm_decrypt, aes256_ctr, string_from_utf8,
};
use crate::json::{
    Json, get, get_spec, get_path, path_spec, as_str, str_spec, as_u64, u64_spec, find_key,
    find_key_spec, graphql_errors, graphql_errors_spec,
};
use crate::links::{ProviderLinkMeta, LinkView, link_view, links_view, tracks_view};
use crate::media::{StreamLink, AnimeSearchResult, TranslationMode};
use crate::pattern::{first_group, group_of, regex_first_match};
use crate::provider::{SourceRef, utf8_of, normalize_provider_name, provider_name_spec};
use crate::responses::{
    deref_opt, direct_links_spec, wixmp_links_spec, parse_direct_links, expand_wixmp_links,
    metas_of_parsed, metas_view, MetaView, meta_view, hls_url, hls_url_spec, referer_from_text,
    REFERER_PATTERN, subtitle_tracks_from_text, tracks_in_response, collect_provider_link_metadata,
};
use crate::sources::{
    refs_view, refs_of_value, refs_from_text_spec, source_refs_from_value, source_refs_from_text,
};
use crate::text::{
    contains, contains_spec, push_str, starts_with, starts_with_spec, replace, replace_spec,
    parse_unsigned, parse_unsigned_spec,
};

verus! {

// ---------------------------------------------------------------------
// The encrypted source list
// ---------------------------------------------------------------------

/// The encrypted source blob of an episode response.
pub const TOBEPARSED_PATTERN: &'static str = "\"tobeparsed\":\"([^\"]+)\"";

/// The text whose SHA-256 digest is the blob key.
pub const KEY_SEED: &'static str = "Xot36i3lK3:v1";

/// Why an encrypted source blob could not be read.
#[derive(Debug, PartialEq, Eq, Clone, Copy, Structural)]
pub enum BlobError {
    /// The response holds no blob.
    Missing,
    /// The blob is not base64.
    NotBase64,
    /// The blob is too short to hold a nonce and a tag.
    TooShort,
    /// The decrypted blob is not UTF-8.
    NotUtf8,
}

impl BlobError {
    /// The message the error is reported with.
    pub open spec fn message_spec(self) -> Seq<char> {
        match self {
            BlobError::Missing => "encrypted source blob was not found"@,
            BlobError::NotBase64 => "failed to base64-decode encrypted source blob"@,
            BlobError::TooShort => "encrypted source blob is too short"@,
            BlobError::NotUtf8 => "decrypted AllAnime source blob is not UTF-8"@,
        }
    }

    /// The message the error is reported with (see `message_spec`).
    pub fn message(self) -> (r: &'static str)
        ensures
            r@ == self.message_spec(),
    {
        match self {
            BlobError::Missing => "encrypted source blob was not found",
            BlobError::NotBase64 => "failed to base64-decode encrypted source blob",
            BlobError::TooShort => "encrypted source blob is too short",
            BlobError::NotUtf8 => "decrypted AllAnime source blob is not UTF-8",
        }
    }
}

/// The key blobs are encrypted with: the SHA-256 digest of `KEY_SEED`.
pub open spec fn blob_key() -> Seq<u8> {
    sha256(utf8_of(KEY_SEED@))
}

/// The text of a blob decrypted as AES-256-GCM: nonce at bytes 1..13,
/// ciphertext and tag after it; none when decryption fails or the result is
/// not UTF-8.
pub open spec fn gcm_text(bytes: Seq<u8>) -> Option<Seq<char>> {
    match aes256_gcm_open(blob_key(), bytes.subrange(1, 13), bytes.skip(13)) {
        Some(p) => if valid_utf8(p) {
            Some(decode_utf8(p))
        } else {
            None
        },
        None => None,
    }
}

/// The bytes of a blob decrypted as AES-256-CTR: the initial block is the
/// nonce at bytes 1..13 followed by the counter 2; the ciphertext runs from
/// byte 13 to the 16-byte tag at the end.
pub open spec fn ctr_bytes(bytes: Seq<u8>) -> Seq<u8> {
    aes256_ctr_apply(
        blob_key(),
        bytes.subrange(1, 13) + seq![0u8, 0u8, 0u8, 2u8],
        bytes.subrange(13, bytes.len() - 16),
    )
}

/// The text of the encrypted source blob of a response: base64-decoded,
/// then decrypted as AES-256-GCM, or else as AES-256-CTR.
pub open spec fn blob_text_spec(response: Seq<char>) -> Result<Seq<char>, BlobError> {
    match group_of(regex_first_match(TOBEPARSED_PATTERN@, response), 1) {
        None => Err(BlobError::Missing),
        Some(blob) => match base64_standard(blob) {
            None => Err(BlobError::NotBase64),
            Some(bytes) => if bytes.len() <= 29 {
                Err(BlobError::TooShort)
            } else {
                match gcm_text(bytes) {
                    Some(t) => Ok(t),
                    None => if valid_utf8(ctr_bytes(bytes)) {
                        Ok(decode_utf8(ctr_bytes(bytes)))
                    } else {
                        Err(BlobError::NotUtf8)
                    },
                }
            },
        },
    }
}

/// Copies `v[from..to]`.
fn byte_range(v: &Vec<u8>, from: usize, to: usize) -> (r: Vec<u8>)
    requires
        from <= to <= v@.len(),
    ensures
        r@ == v@.subrange(from as int, to as int),
{
    let mut r: Vec<u8> = Vec::new();
    let mut i = from;
    while i < to
        invariant
            from <= i <= to <= v@.len(),
            r@ == v@.subrange(from as int, i as int),
        decreases to - i,
    {
        r.push(v[i]);
        assert(v@.subrange(from as int, i + 1) =~= v@.subrange(from as int, i as int).push(
            v@[i as int],
        ));
        i = i + 1;
    }
    r
}

/// Decrypts the encrypted source blob of a response (see `blob_text_spec`).
pub fn decrypt_source_blob(response: &str) -> (r: Result<String, BlobError>)
    ensures
        match (r, blob_text_spec(response@)) {
            (Ok(a), Ok(b)) => a@ == b,
            (Err(e), Err(f)) => e == f,
            _ => false,
        },
{
    let blob = match first_group(TOBEPARSED_PATTERN, response, 1) {
        Some(b) => b,
        None => return Err(BlobError::Missing),
    };
    let bytes = match base64_decode(blob.as_str()) {
        Some(b) => b,
        None => return Err(BlobError::NotBase64),
    };
    if bytes.len() <= 29 {
        return Err(BlobError::TooShort);
    }
    let seed = KEY_SEED.as_bytes();
    let key = sha256_digest(seed);
    assert(key@ == blob_key());
    let nonce = byte_range(&bytes, 1, 13);
    let body = byte_range(&bytes, 13, bytes.len());
    assert(body@ =~= bytes@.skip(13));
    if let Some(p) = aes256_gcm_decrypt(key.as_slice(), nonce.as_slice(), body.as_slice()) {
        if let Some(t) = string_from_utf8(p) {
            return Ok(t);
        }
    }
    let mut iv = nonce;
    iv.push(0u8);
    iv.push(0u8);
    iv.push(0u8);
    iv.push(2u8);
    assert(iv@ =~= bytes@.subrange(1, 13) + seq![0u8, 0u8, 0u8, 2u8]);
    let ct = byte_range(&bytes, 13, bytes.len() - 16);
    let plain = aes256_ctr(key.as_slice(), iv.as_slice(), ct.as_slice());
    match string_from_utf8(plain) {
        Some(t) => Ok(t),
        None => Err(BlobError::NotUtf8),
    }
}

/// The source references of a decrypted blob: those its JSON lists, or, when
/// that lists none, those found in its text.
pub open spec fn blob_refs_spec(plain: Seq<char>, parsed: Option<Json>) -> Seq<(Seq<char>, Seq<char>)> {
    match parsed {
        Some(v) => if refs_of_value(v).len() > 0 {
            refs_of_value(v)
        } else {
            refs_from_text_spec(plain)
        },
        None => refs_from_text_spec(plain),
    }
}

/// The source references of a decrypted blob (see `blob_refs_spec`);
/// `parsed` is the blob text's JSON, if it is JSON.
pub fn blob_source_refs(plain: &str, parsed: Option<&Json>) -> (r: Vec<SourceRef>)
    ensures
        refs_view(r@) == blob_refs_spec(plain@, crate::responses::deref_opt(parsed)),
{
    if let Some(v) = parsed {
        let refs = source_refs_from_value(v);
        if refs.len() > 0 {
            return refs;
        }
    }
    source_refs_from_text(plain)
}

// ---------------------------------------------------------------------
// Looking up an episode's sources
// ---------------------------------------------------------------------

/// Why an episode's source list could not be read.
#[derive(Debug, PartialEq, Eq)]
pub enum SourceLookupError {
    /// The encrypted source blob could not be read.
    Blob(BlobError),
    /// The response is not JSON.
    InvalidJson,
    /// The response reports GraphQL errors, joined in the text.
    LookupFailed(String),
    /// The response lists no source for the episode.
    NoSources(String),
}

impl SourceLookupError {
    /// The message the error is reported with.
    pub open spec fn message_spec(&self) -> Seq<char> {
        match self {
            SourceLookupError::Blob(e) => e.message_spec(),
            SourceLookupError::InvalidJson => "invalid AllAnime JSON"@,
            SourceLookupError::LookupFailed(errors) => "AllAnime source lookup failed: "@ + errors@,
            SourceLookupError::NoSources(episode) => "AllAnime did not return provider sources for episode "@
                + episode@,
        }
    }

    /// The message the error is reported with (see `message_spec`).
    pub fn message(&self) -> (r: String)
        ensures
            r@ == self.message_spec(),
    {
        match self {
            SourceLookupError::Blob(e) => String::from_str(e.message()),
            SourceLookupError::InvalidJson => String::from_str("invalid AllAnime JSON"),
            SourceLookupError::LookupFailed(errors) => {
                let mut m = String::from_str("AllAnime source lookup failed: ");
                push_str(&mut m, errors.as_str());
                m
            },
            SourceLookupError::NoSources(episode) => {
                let mut m = String::from_str(
                    "AllAnime did not return provider sources for episode ",
                );
                push_str(&mut m, episode.as_str());
                m
            },
        }
    }
}

/// What reading an episode's source list gives, by its texts.
pub enum LookupOutcome {
    Refs(Seq<(Seq<char>, Seq<char>)>),
    Blob(BlobError),
    InvalidJson,
    LookupFailed(Seq<char>),
    NoSources(Seq<char>),
}

/// The view of a lookup result.
pub open spec fn lookup_view(r: Result<Vec<SourceRef>, SourceLookupError>) -> LookupOutcome {
    match r {
        Ok(v) => LookupOutcome::Refs(refs_view(v@)),
        Err(SourceLookupError::Blob(e)) => LookupOutcome::Blob(e),
        Err(SourceLookupError::InvalidJson) => LookupOutcome::InvalidJson,
        Err(SourceLookupError::LookupFailed(t)) => LookupOutcome::LookupFailed(t@),
        Err(SourceLookupError::NoSources(t)) => LookupOutcome::NoSources(t@),
    }
}

/// The references listed under `data.episode.sourceUrls`, or else under the
/// first `sourceUrls` key anywhere in the response.
pub open spec fn listed_refs(value: Json) -> Seq<(Seq<char>, Seq<char>)> {
    match path_spec(value, seq!["data"@, "episode"@, "sourceUrls"@]) {
        Some(v) => refs_of_value(v),
        None => match find_key_spec(value, "sourceUrls"@) {
            Some(v) => refs_of_value(v),
            None => Seq::empty(),
        },
    }
}

/// Reading an episode's source list from its response: an encrypted blob
/// that lists sources wins (a blob that cannot be read is an error); then
/// the sources the response's JSON lists; then those found in its text; then
/// the response's GraphQL errors; and otherwise no sources for the episode.
/// `parsed` is the response's JSON and `blob_parsed` the JSON of its
/// decrypted blob, each if it is JSON.
pub open spec fn lookup_spec(
    response: Seq<char>,
    episode: Seq<char>,
    parsed: Option<Json>,
    blob_parsed: Option<Json>,
) -> LookupOutcome {
    let blob = if contains_spec(response, "\"tobeparsed\""@) {
        match blob_text_spec(response) {
            Err(e) => Some(LookupOutcome::Blob(e)),
            Ok(t) => if blob_refs_spec(t, blob_parsed).len() > 0 {
                Some(LookupOutcome::Refs(blob_refs_spec(t, blob_parsed)))
            } else {
                None
            },
        }
    } else {
        None
    };
    match blob {
        Some(o) => o,
        None => match parsed {
            None => LookupOutcome::InvalidJson,
            Some(value) => if listed_refs(value).len() > 0 {
                LookupOutcome::Refs(listed_refs(value))
            } else if refs_from_text_spec(response).len() > 0 {
                LookupOutcome::Refs(refs_from_text_spec(response))
            } else {
                match graphql_errors_spec(value) {
                    Some(e) => LookupOutcome::LookupFailed(e),
                    None => LookupOutcome::NoSources(episode),
                }
            },
        },
    }
}

/// Reads an episode's source list from its response (see `lookup_spec`).
pub fn lookup_source_refs(
    response: &str,
    episode: &str,
    parsed: Option<&Json>,
    blob_parsed: Option<&Json>,
) -> (r: Result<Vec<SourceRef>, SourceLookupError>)
    ensures
        lookup_view(r) == lookup_spec(
            response@,
            episode@,
            crate::responses::deref_opt(parsed),
            crate::responses::deref_opt(blob_parsed),
        ),
{
    proof {
        reveal_strlit("\"tobeparsed\"");
    }
    if contains(response, "\"tobeparsed\"") {
        match decrypt_source_blob(response) {
            Err(e) => return Err(SourceLookupError::Blob(e)),
            Ok(plain) => {
                let refs = blob_source_refs(plain.as_str(), blob_parsed);
                if refs.len() > 0 {
                    return Ok(refs);
                }
            },
        }
    }
    let value = match parsed {
        Some(v) => v,
        None => return Err(SourceLookupError::InvalidJson),
    };
    let path: [&str; 3] = ["data", "episode", "sourceUrls"];
    assert(path@.map_values(|k: &str| k@) =~= seq!["data"@, "episode"@, "sourceUrls"@]);
    let listed = match get_path(value, &path) {
        Some(v) => source_refs_from_value(v),
        None => match find_key(value, "sourceUrls") {
            Some(v) => source_refs_from_value(v),
            None => {
                let e: Vec<SourceRef> = Vec::new();
                assert(refs_view(e@) =~= Seq::<(Seq<char>, Seq<char>)>::empty());
                e
            },
        },
    };
    if listed.len() > 0 {
        return Ok(listed);
    }
    let from_text = source_refs_from_text(response);
    if from_text.len() > 0 {
        return Ok(from_text);
    }
    match graphql_errors(value) {
        Some(e) => Err(SourceLookupError::LookupFailed(e)),
        None => Err(SourceLookupError::NoSources(String::from_str(episode))),
    }
}

// ---------------------------------------------------------------------
// Provider responses
// ---------------------------------------------------------------------

/// The AllAnime hosts the client talks to.
#[derive(Debug)]
pub struct AllAnimeEndpoints {
    pub referer: String,
    pub base: String,
    pub api: String,
}

impl Clone for AllAnimeEndpoints {
    fn clone(&self) -> (r: Self)
        ensures
            r == *self,
    {
        AllAnimeEndpoints {
            referer: self.referer.clone(),
            base: self.base.clone(),
            api: self.api.clone(),
        }
    }
}

impl Default for AllAnimeEndpoints {
    fn default() -> (r: Self)
        ensures
            r.referer@ == "https://allmanga.to"@,
            r.base@ == "allanime.day"@,
            r.api@ == "https://api.allanime.day"@,
    {
        AllAnimeEndpoints {
            referer: String::from_str("https://allmanga.to"),
            base: String::from_str("allanime.day"),
            api: String::from_str("https://api.allanime.day"),
        }
    }
}

/// Where a provider's links are fetched: its path when it is a URL, else
/// the path on the AllAnime host.
pub open spec fn provider_url_spec(base: Seq<char>, path: Seq<char>) -> Seq<char> {
    if starts_with_spec(path, "http"@) {
        path
    } else {
        "https://"@ + base + path
    }
}

/// The URL a provider's links are fetched from (see `provider_url_spec`).
pub fn provider_url(base: &str, path: &str) -> (r: String)
    ensures
        r@ == provider_url_spec(base@, path@),
{
    if starts_with(path, "http") {
        String::from_str(path)
    } else {
        let mut u = String::from_str("https://");
        push_str(&mut u, base);
        push_str(&mut u, path);
        u
    }
}

/// What a provider response leads to: links, or HLS playlists to fetch,
/// each with the metadata its variant links take.
#[derive(Debug)]
pub enum ProviderStep {
    Links(Vec<StreamLink>),
    Playlists(Vec<ProviderLinkMeta>),
}

/// Why a provider response gives nothing.
#[derive(Debug, PartialEq, Eq, Clone, Copy, Structural)]
pub enum ProviderError {
    /// The response mentions a master playlist but names none.
    HlsUrlMissing,
}

impl ProviderError {
    /// The message the error is reported with.
    pub open spec fn message_spec(self) -> Seq<char> {
        match self {
            ProviderError::HlsUrlMissing => "HLS URL was not found"@,
        }
    }

    /// The message the error is reported with (see `message_spec`).
    pub fn message(self) -> (r: &'static str)
        ensures
            r@ == self.message_spec(),
    {
        match self {
            ProviderError::HlsUrlMissing => "HLS URL was not found",
        }
    }
}

/// A provider step by its texts.
pub enum StepView {
    Links(Seq<LinkView>),
    Playlists(Seq<MetaView>),
    HlsUrlMissing,
}

/// The view of a provider step.
pub open spec fn step_view(r: Result<ProviderStep, ProviderError>) -> StepView {
    match r {
        Ok(ProviderStep::Links(v)) => StepView::Links(links_view(v@)),
        Ok(ProviderStep::Playlists(v)) => StepView::Playlists(metas_view(v@)),
        Err(_) => StepView::HlsUrlMissing,
    }
}

/// The metadata whose URL is an HLS playlist, in order.
pub open spec fn playlist_metas(ms: Seq<MetaView>) -> Seq<MetaView>
    decreases ms.len(),
{
    if ms.len() == 0 {
        Seq::empty()
    } else {
        let r = playlist_metas(ms.drop_last());
        if contains_spec(ms.last().url, ".m3u8"@) {
            r.push(ms.last())
        } else {
            r
        }
    }
}

/// The YouTube-style link a `tools.fast4speed.rsvp` source adds.
pub open spec fn fast4speed_link(path: Seq<char>, source: Seq<char>, referer: Seq<char>) -> LinkView {
    LinkView {
        quality: "Yt"@,
        url: path,
        source,
        referrer: Some(referer),
        subtitle: None,
        subtitles: Seq::empty(),
        hardsub_language: None,
        audio_language: None,
        soft_subbed: false,
    }
}

/// What a provider response leads to. A Wixmp response gives its expanded
/// links. A response mentioning a master playlist gives the playlists its
/// metadata lists, or else the one playlist its text names, with the
/// referrer and subtitle tracks the text gives. Any other response gives its
/// direct links, and a `tools.fast4speed.rsvp` source adds a link to its own
/// path. `text` is the fetched response with slashes and quotes unescaped;
/// `meta_json` is the JSON of `text` unescaped once more, and `text_json`
/// the JSON of `text`, each if it is JSON.
pub open spec fn provider_step_spec(
    path: Seq<char>,
    name: Seq<char>,
    text: Seq<char>,
    meta_json: Option<Json>,
    text_json: Option<Json>,
    referer: Seq<char>,
) -> StepView {
    let source = provider_name_spec(name);
    if contains_spec(text, "repackager.wixmp.com"@) {
        StepView::Links(wixmp_links_spec(text, meta_json, source))
    } else if contains_spec(text, "master.m3u8"@) {
        let ms = playlist_metas(metas_of_parsed(meta_json));
        if ms.len() > 0 {
            StepView::Playlists(ms)
        } else {
            match hls_url_spec(text) {
                None => StepView::HlsUrlMissing,
                Some(u) => StepView::Playlists(
                    seq![
                        MetaView {
                            quality: None,
                            url: u,
                            referrer: group_of(regex_first_match(REFERER_PATTERN@, text), 1),
                            subtitles: tracks_in_response(text_json),
                            hardsub_language: None,
                            audio_language: None,
                        },
                    ],
                ),
            }
        }
    } else {
        let direct = direct_links_spec(text, meta_json, source);
        if contains_spec(path, "tools.fast4speed.rsvp"@) {
            StepView::Links(direct.push(fast4speed_link(path, source, referer)))
        } else {
            StepView::Links(direct)
        }
    }
}

/// Decides what a provider response leads to (see `provider_step_spec`).
pub fn provider_links_step(
    source_ref: &SourceRef,
    text: &str,
    meta_json: Option<&Json>,
    text_json: Option<&Json>,
    referer: &str,
) -> (r: Result<ProviderStep, ProviderError>)
    ensures
        step_view(r) == provider_step_spec(
            source_ref.path@,
            source_ref.name@,
            text@,
            deref_opt(meta_json),
            deref_opt(text_json),
            referer@,
        ),
{
    let source = normalize_provider_name(source_ref.name.as_str());
    if contains(text, "repackager.wixmp.com") {
        return Ok(ProviderStep::Links(expand_wixmp_links(text, meta_json, source.as_str())));
    }
    if contains(text, "master.m3u8") {
        let all = match meta_json {
            Some(j) => collect_provider_link_metadata(j),
            None => {
                let e: Vec<ProviderLinkMeta> = Vec::new();
                assert(metas_view(e@) =~= Seq::<MetaView>::empty());
                e
            },
        };
        let ghost orig = all@;
        let ghost mv = metas_view(orig);
        let mut rest = all;
        let mut metas: Vec<ProviderLinkMeta> = Vec::new();
        assert(orig.skip(0) =~= orig);
        assert(metas_view(metas@) =~= playlist_metas(mv.take(0)));
        while rest.len() > 0
            invariant
                rest@ == orig.skip(orig.len() - rest@.len()),
                rest@.len() <= orig.len(),
                mv == metas_view(orig),
                metas_view(metas@) == playlist_metas(mv.take(orig.len() - rest@.len())),
            decreases rest@.len(),
        {
            let ghost i: int = orig.len() - rest@.len();
            let m = rest.remove(0);
            proof {
                assert(m == orig[i]);
                assert(rest@ =~= orig.skip(i + 1));
                assert(mv.take(i + 1).drop_last() =~= mv.take(i));
                assert(mv.take(i + 1).last() == meta_view(m));
            }
            if contains(m.url.as_str(), ".m3u8") {
                let ghost before = metas_view(metas@);
                metas.push(m);
                assert(metas_view(metas@) =~= before.push(meta_view(m)));
            }
        }
        assert(mv.take(orig.len() as int) =~= mv);
        if metas.len() > 0 {
            return Ok(ProviderStep::Playlists(metas));
        }
        let url = match hls_url(text) {
            Some(u) => u,
            None => return Err(ProviderError::HlsUrlMissing),
        };
        let m = ProviderLinkMeta {
            quality: None,
            url,
            referrer: referer_from_text(text),
            subtitles: subtitle_tracks_from_text(text_json),
            hardsub_language: None,
            audio_language: None,
        };
        let mut one: Vec<ProviderLinkMeta> = Vec::new();
        one.push(m);
        assert(metas_view(one@) =~= seq![meta_view(m)]);
        return Ok(ProviderStep::Playlists(one));
    }
    let mut links = parse_direct_links(text, meta_json, source.as_str());
    if contains(source_ref.path.as_str(), "tools.fast4speed.rsvp") {
        let l = StreamLink {
            quality: String::from_str("Yt"),
            url: source_ref.path.clone(),
            source: source.clone(),
            referrer: Some(String::from_str(referer)),
            subtitle: None,
            subtitles: Vec::new(),
            hardsub_language: None,
            audio_language: None,
            soft_subbed: false,
        };
        let ghost before = links_view(links@);
        links.push(l);
        assert(tracks_view(l.subtitles@) =~= Seq::<(Seq<char>, Seq<char>, Seq<char>)>::empty());
        assert(links_view(links@) =~= before.push(link_view(l)));
    }
    Ok(ProviderStep::Links(links))
}

// ---------------------------------------------------------------------
// Search, episode and MAL-id responses
// ---------------------------------------------------------------------

/// A search result by its texts: id, title, episode count.
pub open spec fn result_view(r: AnimeSearchResult) -> (Seq<char>, Seq<char>, Option<u32>) {
    (r.id@, r.title@, r.episode_count)
}

/// The views of a list of search results.
pub open spec fn results_view(v: Seq<AnimeSearchResult>) -> Seq<(Seq<char>, Seq<char>, Option<u32>)> {
    v.map_values(|r: AnimeSearchResult| result_view(r))
}

/// The episode count a search edge gives for a mode, when it fits a `u32`.
pub open spec fn edge_count(edge: Json, mode: Seq<char>) -> Option<u32> {
    match path_spec(edge, seq!["availableEpisodes"@, mode]) {
        Some(v) => match u64_spec(v) {
            Some(n) => if n <= u32::MAX {
                Some(n as u32)
            } else {
                None
            },
            None => None,
        },
        None => None,
    }
}

/// The search result a search edge describes: it needs a string `_id` and
/// a string `name`, whose escaped quotes are dropped.
pub open spec fn edge_result(edge: Json, mode: Seq<char>) -> Option<(Seq<char>, Seq<char>, Option<u32>)> {
    match (get_spec(edge, "_id"@), get_spec(edge, "name"@)) {
        (Some(i), Some(n)) => match (str_spec(i), str_spec(n)) {
            (Some(id), Some(name)) => Some((id, replace_spec(name, "\\\""@, ""@), edge_count(edge, mode))),
            _ => None,
        },
        _ => None,
    }
}

/// The results of search edges, skipping edges that describe none.
pub open spec fn edge_results(edges: Seq<Json>, mode: Seq<char>) -> Seq<(Seq<char>, Seq<char>, Option<u32>)>
    decreases edges.len(),
{
    if edges.len() == 0 {
        Seq::empty()
    } else {
        let r = edge_results(edges.drop_last(), mode);
        match edge_result(edges.last(), mode) {
            Some(x) => r.push(x),
            None => r,
        }
    }
}

/// The results of a search response: those of its `data.shows.edges` list;
/// none when it has no such list.
pub open spec fn search_results_spec(value: Json, mode: Seq<char>) -> Option<Seq<(Seq<char>, Seq<char>, Option<u32>)>> {
    match path_spec(value, seq!["data"@, "shows"@, "edges"@]) {
        Some(Json::Array(edges)) => Some(edge_results(edges@, mode)),
        _ => None,
    }
}

/// The key a mode's episode count stands under: `sub` or `dub`.
pub open spec fn mode_key(mode: TranslationMode) -> Seq<char> {
    match mode {
        TranslationMode::Sub => "sub"@,
        TranslationMode::Dub => "dub"@,
    }
}

/// The count an edge holds under `availableEpisodes` and then `key`, when
/// it is a number that fits a `u32`.
pub open spec fn count_under(edge: Json, key: Seq<char>) -> Option<u32> {
    match get_spec(edge, "availableEpisodes"@) {
        Some(a) => match get_spec(a, key) {
            Some(v) => match u64_spec(v) {
                Some(n) => if n <= u32::MAX {
                    Some(n as u32)
                } else {
                    None
                },
                None => None,
            },
            None => None,
        },
        None => None,
    }
}

/// Each result of edges comes from one of the edges.
proof fn lemma_edge_results_from_edges(edges: Seq<Json>, mode: Seq<char>)
    ensures
        forall|k: int|
            0 <= k < edge_results(edges, mode).len() ==> exists|j: int|
                0 <= j < edges.len() && #[trigger] edge_result(edges[j], mode) == Some(
                    #[trigger] edge_results(edges, mode)[k],
                ),
    decreases edges.len(),
{
    if edges.len() > 0 {
        let d = edges.drop_last();
        lemma_edge_results_from_edges(d, mode);
        let r = edge_results(d, mode);
        assert forall|k: int| 0 <= k < edge_results(edges, mode).len() implies exists|j: int|
            0 <= j < edges.len() && #[trigger] edge_result(edges[j], mode) == Some(
                #[trigger] edge_results(edges, mode)[k],
            ) by {
            if k < r.len() {
                let j = choose|j: int| 0 <= j < d.len() && #[trigger] edge_result(d[j], mode) == Some(r[k]);
                assert(d[j] == edges[j]);
                assert(edge_results(edges, mode)[k] == r[k]);
            } else {
                assert(edge_result(edges[edges.len() - 1], mode) == Some(edge_results(edges, mode)[k]));
            }
        }
    }
}

/// A search edge's count for a mode is the one under `availableEpisodes`
/// and then the mode's key.
proof fn lemma_edge_count_under_mode(edge: Json, mode: TranslationMode)
    ensures
        edge_count(edge, mode.name_spec()) == count_under(edge, mode_key(mode)),
{
    let keys = seq!["availableEpisodes"@, mode.name_spec()];
    let one = seq!["availableEpisodes"@];
    assert(keys.drop_last() =~= one);
    assert(one.drop_last() =~= Seq::<Seq<char>>::empty());
    assert(path_spec(edge, one.drop_last()) == Some(edge));
    assert(path_spec(edge, one) == get_spec(edge, "availableEpisodes"@));
    assert(mode.name_spec() == mode_key(mode));
    assert(path_spec(edge, keys) == match get_spec(edge, "availableEpisodes"@) {
        Some(v) => get_spec(v, mode_key(mode)),
        None => None,
    });
}

/// Every search result comes from an edge of the response's show list: its
/// id and title are the edge's, and its episode count is the one the edge
/// holds under `availableEpisodes` for the requested mode (`sub` for
/// subtitles, `dub` for dubs).
pub proof fn search_counts_are_the_modes_counts(value: Json, mode: TranslationMode)
    requires
        search_results_spec(value, mode.name_spec()) is Some,
    ensures
        path_spec(value, seq!["data"@, "shows"@, "edges"@]) matches Some(Json::Array(edges)) && forall|k: int|
            0 <= k < search_results_spec(value, mode.name_spec())->0.len() ==> exists|j: int|
                0 <= j < edges@.len() && (#[trigger] search_results_spec(value, mode.name_spec())->0[k]).2
                    == count_under(#[trigger] edges@[j], mode_key(mode)) && (get_spec(edges@[j], "_id"@)
                    matches Some(i) && str_spec(i) == Some(search_results_spec(value, mode.name_spec())->0[k].0)),
{
    let edges = path_spec(value, seq!["data"@, "shows"@, "edges"@])->0->Array_0;
    let m = mode.name_spec();
    lemma_edge_results_from_edges(edges@, m);
    let rs = search_results_spec(value, m)->0;
    assert forall|k: int| 0 <= k < rs.len() implies exists|j: int|
        0 <= j < edges@.len() && (#[trigger] rs[k]).2 == count_under(#[trigger] edges@[j], mode_key(mode))
            && (get_spec(edges@[j], "_id"@) matches Some(i) && str_spec(i) == Some(rs[k].0)) by {
        assert(rs[k] == edge_results(edges@, m)[k]);
        let j = choose|j: int| 0 <= j < edges@.len() && #[trigger] edge_result(edges@[j], m) == Some(
            edge_results(edges@, m)[k],
        );
        lemma_edge_count_under_mode(edges@[j], mode);
    }
}

/// Why a response holds no list.
#[derive(Debug, PartialEq, Eq, Clone, Copy, Structural)]
pub enum ResponseError {
    /// A search response without show edges.
    NoShowEdges,
    /// An episode response without episode details.
    NoEpisodeDetails,
}

impl ResponseError {
    /// The message the error is reported with.
    pub open spec fn message_spec(self) -> Seq<char> {
        match self {
            ResponseError::NoShowEdges => "AllAnime search response did not include show edges"@,
            ResponseError::NoEpisodeDetails => "AllAnime response did not include episode details"@,
        }
    }

    /// The message the error is reported with (see `message_spec`).
    pub fn message(self) -> (r: &'static str)
        ensures
            r@ == self.message_spec(),
    {
        match self {
            ResponseError::NoShowEdges => "AllAnime search response did not include show edges",
            ResponseError::NoEpisodeDetails => "AllAnime response did not include episode details",
        }
    }
}

fn edge_result_exec(edge: &Json, mode: TranslationMode) -> (r: Option<AnimeSearchResult>)
    ensures
        match (r, edge_result(*edge, mode.name_spec())) {
            (Some(a), Some(b)) => result_view(a) == b,
            (None, None) => true,
            _ => false,
        },
{
    let id = match get(edge, "_id") {
        Some(v) => match as_str(v) {
            Some(t) => t,
            None => return None,
        },
        None => return None,
    };
    let name = match get(edge, "name") {
        Some(v) => match as_str(v) {
            Some(t) => t,
            None => return None,
        },
        None => return None,
    };
    proof {
        reveal_strlit("\\\"");
    }
    let title = replace(name, "\\\"", "");
    let m = mode.as_allanime();
    let path: [&str; 2] = ["availableEpisodes", m];
    assert(path@.map_values(|k: &str| k@) =~= seq!["availableEpisodes"@, mode.name_spec()]);
    let count = match get_path(edge, &path) {
        Some(v) => match as_u64(v) {
            Some(n) => if n <= 4294967295u64 {
                Some(n as u32)
            } else {
                None
            },
            None => None,
        },
        None => None,
    };
    Some(AnimeSearchResult { id: String::from_str(id), title, episode_count: count })
}

/// The results of a search response (see `search_results_spec`).
pub fn search_results(value: &Json, mode: TranslationMode) -> (r: Result<
    Vec<AnimeSearchResult>,
    ResponseError,
>)
    ensures
        match (r, search_results_spec(*value, mode.name_spec())) {
            (Ok(v), Some(s)) => results_view(v@) == s,
            (Err(e), None) => e == ResponseError::NoShowEdges,
            _ => false,
        },
{
    let path: [&str; 3] = ["data", "shows", "edges"];
    assert(path@.map_values(|k: &str| k@) =~= seq!["data"@, "shows"@, "edges"@]);
    let edges = match get_path(value, &path) {
        Some(Json::Array(edges)) => edges,
        _ => return Err(ResponseError::NoShowEdges),
    };
    let mut out: Vec<AnimeSearchResult> = Vec::new();
    let mut i: usize = 0;
    assert(results_view(out@) =~= edge_results(edges@.take(0), mode.name_spec()));
    while i < edges.len()
        invariant
            i <= edges@.len(),
            results_view(out@) == edge_results(edges@.take(i as int), mode.name_spec()),
        decreases edges@.len() - i,
    {
        assert(edges@.take(i + 1).drop_last() =~= edges@.take(i as int));
        assert(edges@.take(i + 1).last() == edges@[i as int]);
        let ghost before = results_view(out@);
        match edge_result_exec(&edges[i], mode) {
            Some(x) => {
                out.push(x);
                assert(results_view(out@) =~= before.push(result_view(x)));
            },
            None => {},
        }
        i = i + 1;
    }
    assert(edges@.take(edges@.len() as int) =~= edges@);
    Ok(out)
}

/// The episode names of an episode list, in order: numbers by their text,
/// strings as they are, anything else skipped.
pub open spec fn episode_names(items: Seq<Json>) -> Seq<Seq<char>>
    decreases items.len(),
{
    if items.len() == 0 {
        Seq::empty()
    } else {
        let r = episode_names(items.drop_last());
        match items.last() {
            Json::Number(n) => r.push(n.text@),
            Json::Str(t) => r.push(t.text@),
            _ => r,
        }
    }
}

/// The episodes of an episode response for a mode, in response order: those
/// of its `data.show.availableEpisodesDetail.<mode>` list; none when it has
/// no such list.
pub open spec fn episode_list_spec(value: Json, mode: Seq<char>) -> Option<Seq<Seq<char>>> {
    match path_spec(value, seq!["data"@, "show"@, "availableEpisodesDetail"@, mode]) {
        Some(Json::Array(items)) => Some(episode_names(items@)),
        _ => None,
    }
}

/// The episodes of an episode response (see `episode_list_spec`); the
/// caller orders them.
pub fn episode_list(value: &Json, mode: TranslationMode) -> (r: Result<Vec<String>, ResponseError>)
    ensures
        match (r, episode_list_spec(*value, mode.name_spec())) {
            (Ok(v), Some(s)) => crate::text::views(v@) == s,
            (Err(e), None) => e == ResponseError::NoEpisodeDetails,
            _ => false,
        },
{
    let m = mode.as_allanime();
    let path: [&str; 4] = ["data", "show", "availableEpisodesDetail", m];
    assert(path@.map_values(|k: &str| k@) =~= seq![
        "data"@,
        "show"@,
        "availableEpisodesDetail"@,
        mode.name_spec(),
    ]);
    let items = match get_path(value, &path) {
        Some(Json::Array(items)) => items,
        _ => return Err(ResponseError::NoEpisodeDetails),
    };
    let mut out: Vec<String> = Vec::new();
    let mut i: usize = 0;
    assert(crate::text::views(out@) =~= episode_names(items@.take(0)));
    while i < items.len()
        invariant
            i <= items@.len(),
            crate::text::views(out@) == episode_names(items@.take(i as int)),
        decreases items@.len() - i,
    {
        assert(items@.take(i + 1).drop_last() =~= items@.take(i as int));
        assert(items@.take(i + 1).last() == items@[i as int]);
        let ghost before = crate::text::views(out@);
        match &items[i] {
            Json::Number(n) => {
                out.push(n.text.clone());
                assert(crate::text::views(out@) =~= before.push(n.text@));
            },
            Json::Str(t) => {
                out.push(t.text.clone());
                assert(crate::text::views(out@) =~= before.push(t.text@));
            },
            _ => {},
        }
        i = i + 1;
    }
    assert(items@.take(items@.len() as int) =~= items@);
    Ok(out)
}

/// The MAL id a show response gives under `data.show.malId`: a
/// non-negative integer, or a string that reads as one.
pub open spec fn mal_id_spec(value: Json) -> Option<u64> {
    match path_spec(value, seq!["data"@, "show"@, "malId"@]) {
        Some(v) => match u64_spec(v) {
            Some(n) => Some(n),
            None => match str_spec(v) {
                Some(t) => match parse_unsigned_spec(t, u64::MAX as nat) {
                    Some(n) => Some(n as u64),
                    None => None,
                },
                None => None,
            },
        },
        None => None,
    }
}

/// The MAL id of a show response (see `mal_id_spec`).
pub fn mal_id_from_response(value: &Json) -> (r: Option<u64>)
    ensures
        r == mal_id_spec(*value),
{
    let path: [&str; 3] = ["data", "show", "malId"];
    assert(path@.map_values(|k: &str| k@) =~= seq!["data"@, "show"@, "malId"@]);
    match get_path(value, &path) {
        Some(v) => match as_u64(v) {
            Some(n) => Some(n),
            None => match as_str(v) {
                Some(t) => parse_unsigned(t, 18446744073709551615u64),
                None => None,
            },
        },
        None => None,
    }
}

/// The GraphQL query for a show's MAL id, quotes in the id escaped.
pub open spec fn mal_id_query_spec(show_id: Seq<char>) -> Seq<char> {
    "{ show(_id: \""@ + replace_spec(show_id, "\""@, "\\\""@) + "\") { malId } }"@
}

/// Builds the GraphQL query for a show's MAL id.
pub fn mal_id_query(show_id: &str) -> (r: String)
    ensures
        r@ == mal_id_query_spec(show_id@),
{
    proof {
        reveal_strlit("\"");
    }
    let mut q = String::from_str("{ show(_id: \"");
    let escaped = replace(show_id, "\"", "\\\"");
    push_str(&mut q, escaped.as_str());
    push_str(&mut q, "\") { malId } }");
    q
}

} // verus!
