use aes_gcm::aead::Aead;
use aes_gcm::{Aes256Gcm, KeyInit, Nonce};
use base64::Engine;
use ctr::cipher::{KeyIvInit, StreamCipher};
use sha2::Digest;

use anicli::allanime::{
    BlobError, KEY_SEED, ProviderError, ProviderStep, ResponseError, SourceLookupError,
    blob_source_refs, decrypt_source_blob, episode_list, lookup_source_refs, mal_id_from_response,
    mal_id_query, provider_links_step, provider_url, search_results,
};
use anicli::json::{Json, JsonField, JsonNumber, JsonText};
use anicli::media::TranslationMode;
use anicli::provider::SourceRef;
use anicli::responses::{hls_links_from_playlist, hls_url, parse_direct_links};
use anicli::links::ProviderLinkMeta;

fn to_json(v: &serde_json::Value) -> Json {
    match v {
        serde_json::Value::Null => Json::Null,
        serde_json::Value::Bool(b) => Json::Bool(*b),
        serde_json::Value::Number(n) => Json::Number(JsonNumber { text: n.to_string(), unsigned: n.as_u64() }),
        serde_json::Value::String(s) => Json::Str(JsonText {
            text: s.clone(),
            parsed: serde_json::from_str::<serde_json::Value>(s).ok().map(|p| Box::new(to_json(&p))),
        }),
        serde_json::Value::Array(items) => Json::Array(items.iter().map(to_json).collect()),
        serde_json::Value::Object(map) => Json::Object(
            map.iter().map(|(k, v)| JsonField { key: k.clone(), value: to_json(v) }).collect(),
        ),
    }
}

fn parse(text: &str) -> Option<Json> {
    serde_json::from_str::<serde_json::Value>(text).ok().map(|v| to_json(&v))
}

fn encode_provider_path(value: &str) -> String {
    value.bytes().map(|byte| format!("{:02x}", byte ^ 0x38)).collect::<String>()
}

fn key() -> Vec<u8> {
    sha2::Sha256::digest(KEY_SEED.as_bytes()).to_vec()
}

fn gcm_blob(plain: &str) -> String {
    let nonce = [7u8; 12];
    let cipher = Aes256Gcm::new_from_slice(&key()).unwrap();
    let sealed = cipher.encrypt(Nonce::from_slice(&nonce), plain.as_bytes()).unwrap();
    let mut bytes = vec![1u8];
    bytes.extend_from_slice(&nonce);
    bytes.extend_from_slice(&sealed);
    base64::engine::general_purpose::STANDARD.encode(bytes)
}

fn ctr_blob(plain: &str) -> String {
    ctr_blob_bytes(plain.as_bytes())
}

fn ctr_blob_bytes(plain: &[u8]) -> String {
    let nonce = [9u8; 12];
    let mut iv = [0u8; 16];
    iv[..12].copy_from_slice(&nonce);
    iv[15] = 2;
    let mut data = plain.to_vec();
    let k = key();
    let mut cipher = ctr::Ctr128BE::<aes::Aes256>::new(k.as_slice().into(), (&iv).into());
    cipher.apply_keystream(&mut data);
    let mut bytes = vec![1u8];
    bytes.extend_from_slice(&nonce);
    bytes.extend_from_slice(&data);
    bytes.extend_from_slice(&[0u8; 16]);
    base64::engine::general_purpose::STANDARD.encode(bytes)
}

#[test]
fn decrypts_a_gcm_blob() {
    let response = format!("{{\"data\":{{\"tobeparsed\":\"{}\"}}}}", gcm_blob("hello sources"));
    assert_eq!(decrypt_source_blob(&response).unwrap(), "hello sources");
}

#[test]
fn falls_back_to_counter_mode() {
    let response = format!("{{\"tobeparsed\":\"{}\"}}", ctr_blob("counter mode text"));
    assert_eq!(decrypt_source_blob(&response).unwrap(), "counter mode text");
}

#[test]
fn blob_errors() {
    assert_eq!(decrypt_source_blob("{}"), Err(BlobError::Missing));
    assert_eq!(decrypt_source_blob("{\"tobeparsed\":\"!!!\"}"), Err(BlobError::NotBase64));
    let short = base64::engine::general_purpose::STANDARD.encode([0u8; 29]);
    assert_eq!(decrypt_source_blob(&format!("{{\"tobeparsed\":\"{short}\"}}")), Err(BlobError::TooShort));
    assert_eq!(BlobError::TooShort.message(), "encrypted source blob is too short");
}

#[test]
fn blob_refs_come_from_its_json_or_its_text() {
    let encoded = encode_provider_path("/apivtwo/clock");
    let plain = format!("[{{\"sourceName\":\"Yt-mp4\",\"sourceUrl\":\"--{encoded}\"}}]");
    let refs = blob_source_refs(&plain, parse(&plain).as_ref());
    assert_eq!(refs, vec![SourceRef { name: "Yt-mp4".to_owned(), path: "/apivtwo/clock.json".to_owned() }]);
}

#[test]
fn lookup_reads_listed_sources() {
    let encoded = encode_provider_path("/p/clock");
    let response = format!(
        "{{\"data\":{{\"episode\":{{\"sourceUrls\":[{{\"sourceName\":\"Luf-mp4\",\"sourceUrl\":\"--{encoded}\"}}]}}}}}}"
    );
    let refs = lookup_source_refs(&response, "1", parse(&response).as_ref(), None).unwrap();
    assert_eq!(refs, vec![SourceRef { name: "Luf-mp4".to_owned(), path: "/p/clock.json".to_owned() }]);
}

#[test]
fn lookup_reports_errors_and_missing_sources() {
    let failed = r#"{"errors":[{"message":"NEED_CAPTCHA"}]}"#;
    let err = lookup_source_refs(failed, "1", parse(failed).as_ref(), None).unwrap_err();
    assert_eq!(err, SourceLookupError::LookupFailed("NEED_CAPTCHA".to_owned()));
    assert_eq!(err.message(), "AllAnime source lookup failed: NEED_CAPTCHA");

    let empty = r#"{"data":{"episode":null}}"#;
    let err = lookup_source_refs(empty, "4", parse(empty).as_ref(), None).unwrap_err();
    assert_eq!(err.message(), "AllAnime did not return provider sources for episode 4");

    assert_eq!(lookup_source_refs("not json", "1", None, None).unwrap_err(), SourceLookupError::InvalidJson);
}

#[test]
fn lookup_prefers_an_encrypted_blob() {
    let encoded = encode_provider_path("/b/clock");
    let plain = format!("[{{\"sourceName\":\"Default\",\"sourceUrl\":\"--{encoded}\"}}]");
    let response = format!("{{\"data\":{{\"tobeparsed\":\"{}\"}}}}", gcm_blob(&plain));
    let refs = lookup_source_refs(&response, "1", parse(&response).as_ref(), parse(&plain).as_ref()).unwrap();
    assert_eq!(refs[0].path, "/b/clock.json");
}

#[test]
fn provider_urls() {
    assert_eq!(provider_url("allanime.day", "/apivtwo/clock.json"), "https://allanime.day/apivtwo/clock.json");
    assert_eq!(provider_url("allanime.day", "https://x.test/a"), "https://x.test/a");
}

#[test]
fn search_results_read_edges() {
    let value = parse(
        r#"{"data":{"shows":{"edges":[
            {"_id":"a","name":"Show \\\"A\\\"","availableEpisodes":{"sub":12,"dub":3}},
            {"_id":"b"},
            {"_id":"c","name":"C","availableEpisodes":{"dub":5}}
        ]}}}"#,
    )
    .unwrap();
    let results = search_results(&value, TranslationMode::Sub).unwrap();
    assert_eq!(results.len(), 2);
    assert_eq!(results[0].id, "a");
    assert_eq!(results[0].title, "Show A");
    assert_eq!(results[0].episode_count, Some(12));
    assert_eq!(results[1].episode_count, None);
    let err = search_results(&parse("{}").unwrap(), TranslationMode::Sub).unwrap_err();
    assert_eq!(err, ResponseError::NoShowEdges);
    assert_eq!(err.message(), "AllAnime search response did not include show edges");
}

#[test]
fn episode_list_reads_numbers_and_strings() {
    let value = parse(r#"{"data":{"show":{"availableEpisodesDetail":{"sub":["2",1,"1.5",null]}}}}"#).unwrap();
    let eps = episode_list(&value, TranslationMode::Sub).unwrap();
    assert_eq!(eps, vec!["2".to_owned(), "1".to_owned(), "1.5".to_owned()]);
    assert_eq!(episode_list(&value, TranslationMode::Dub).unwrap_err(), ResponseError::NoEpisodeDetails);
}

#[test]
fn mal_ids_read_numbers_or_digit_strings() {
    assert_eq!(mal_id_from_response(&parse(r#"{"data":{"show":{"malId":52991}}}"#).unwrap()), Some(52991));
    assert_eq!(mal_id_from_response(&parse(r#"{"data":{"show":{"malId":"42"}}}"#).unwrap()), Some(42));
    assert_eq!(mal_id_from_response(&parse(r#"{"data":{"show":{"malId":null}}}"#).unwrap()), None);
    assert_eq!(mal_id_query("a\"b"), "{ show(_id: \"a\\\"b\") { malId } }");
}

#[test]
fn hls_url_is_found_in_text() {
    assert_eq!(
        hls_url("x \"url\":\"https://h.test/master.m3u8\" y").as_deref(),
        Some("https://h.test/master.m3u8")
    );
    assert_eq!(hls_url("nothing here"), None);
}

#[test]
fn direct_links_take_their_metadata() {
    let response = r#"{"links":[{"link":"https://v.test/a.mp4","resolutionStr":"720p"}]}"#;
    let links = parse_direct_links(response, parse(response).as_ref(), "Src");
    assert_eq!(links.len(), 1);
    assert_eq!(links[0].url, "https://v.test/a.mp4");
    assert_eq!(links[0].quality, "720p");
    assert_eq!(links[0].source, "Src");
}

#[test]
fn master_playlist_without_a_url_is_an_error() {
    let source_ref = SourceRef { name: "S-mp4".to_owned(), path: "/p".to_owned() };
    let text = "see master.m3u8 later";
    let r = provider_links_step(&source_ref, text, None, None, "https://allmanga.to");
    assert_eq!(r.unwrap_err(), ProviderError::HlsUrlMissing);
    assert_eq!(ProviderError::HlsUrlMissing.message(), "HLS URL was not found");
}

#[test]
fn master_playlist_url_is_fetched_next() {
    let source_ref = SourceRef { name: "S-mp4".to_owned(), path: "/p".to_owned() };
    let text = r#"{"links":[{"link":"https://h.test/x/master.m3u8","hls":true}]}"#;
    match provider_links_step(&source_ref, text, parse(text).as_ref(), parse(text).as_ref(), "r").unwrap() {
        ProviderStep::Playlists(metas) => assert_eq!(metas[0].url, "https://h.test/x/master.m3u8"),
        other => panic!("unexpected {other:?}"),
    }
}

#[test]
fn playlist_variants_become_links() {
    let meta = ProviderLinkMeta {
        quality: None,
        url: "https://h.test/x/master.m3u8".to_owned(),
        referrer: Some("https://ref.test/".to_owned()),
        subtitles: Vec::new(),
        hardsub_language: None,
        audio_language: None,
    };
    let playlist = "#EXTM3U\n#EXT-X-STREAM-INF:BANDWIDTH=1,RESOLUTION=1920x1080\nhigh.m3u8\n#EXT-X-STREAM-INF:BANDWIDTH=1\nhttps://cdn.test/low.m3u8\n";
    let links = hls_links_from_playlist(meta, "Src", playlist);
    assert_eq!(links.len(), 2);
    assert_eq!(links[0].quality, "1080p");
    assert_eq!(links[0].url, "https://h.test/x/high.m3u8");
    assert_eq!(links[1].quality, "hls");
    assert_eq!(links[1].url, "https://cdn.test/low.m3u8");
    assert_eq!(links[1].referrer.as_deref(), Some("https://ref.test/"));
}

#[test]
fn undecodable_blob_text_is_an_error() {
    let response = format!("{{\"tobeparsed\":\"{}\"}}", ctr_blob_bytes(&[0xff, 0xfe, 0x41]));
    assert_eq!(decrypt_source_blob(&response), Err(BlobError::NotUtf8));
    assert_eq!(BlobError::NotUtf8.message(), "decrypted AllAnime source blob is not UTF-8");
}

#[test]
fn lookup_reports_a_broken_blob() {
    let response = r#"{"data":{"tobeparsed":"!!!"}}"#;
    let err = lookup_source_refs(response, "1", parse(response).as_ref(), None).unwrap_err();
    assert_eq!(err, SourceLookupError::Blob(BlobError::NotBase64));
}
