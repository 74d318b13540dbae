use anicli::json::{Json, JsonField, JsonNumber, JsonText, graphql_errors};
use anicli::links::select_quality;
use anicli::media::StreamLink;
use anicli::provider::{ProviderPathError, decode_provider_path};
use anicli::quality::QualityPreference;
use anicli::responses::collect_provider_link_metadata;
use anicli::sources::{source_refs_from_value, unescape_response};

fn to_json(v: &serde_json::Value) -> Json {
    match v {
        serde_json::Value::Null => Json::Null,
        serde_json::Value::Bool(b) => Json::Bool(*b),
        serde_json::Value::Number(n) => Json::Number(JsonNumber { text: n.to_string(), unsigned: n.as_u64() }),
        serde_json::Value::String(s) => Json::Str(JsonText {
            text: s.clone(),
            parsed: serde_json::from_str::<serde_json::Value>(s).ok().map(|p| Box::new(to_json(&p))),
        }),
        serde_json::Value::Array(items) => Json::Array(items.iter().map(to_json).collect()),
        serde_json::Value::Object(map) => Json::Object(
            map.iter().map(|(k, v)| JsonField { key: k.clone(), value: to_json(v) }).collect(),
        ),
    }
}

fn parse(text: &str) -> Json {
    to_json(&serde_json::from_str::<serde_json::Value>(text).unwrap())
}

fn encode_provider_path(value: &str) -> String {
    value.bytes().map(|byte| format!("{:02x}", byte ^ 0x38)).collect::<String>()
}

fn link(quality: &str, url: &str) -> StreamLink {
    StreamLink {
        quality: quality.to_owned(),
        url: url.to_owned(),
        source: "test".to_owned(),
        referrer: None,
        subtitle: None,
        subtitles: Vec::new(),
        hardsub_language: None,
        audio_language: None,
        soft_subbed: false,
    }
}

#[test]
fn decodes_allanime_provider_path() {
    let encoded = encode_provider_path("/clock");
    assert_eq!(decode_provider_path(&encoded).unwrap(), "/clock.json");
}

#[test]
fn extracts_source_refs_from_source_urls_array() {
    let encoded = encode_provider_path("/provider/clock");
    let value = parse(&format!("[{{\"sourceName\": \"Default\", \"sourceUrl\": \"--{encoded}\"}}]"));

    let refs = source_refs_from_value(&value);

    assert_eq!(refs.len(), 1);
    assert_eq!(refs[0].name, "Default");
    assert_eq!(refs[0].path, "/provider/clock.json");
}

#[test]
fn reads_graphql_error_messages() {
    let value = parse(r#"{"errors": [{ "message": "NEED_CAPTCHA" }], "data": { "episode": null }}"#);

    assert_eq!(graphql_errors(&value).as_deref(), Some("NEED_CAPTCHA"));
}

#[test]
fn extracts_multiple_subtitle_tracks_from_provider_links() {
    let response = r#"{
            "links": [{
                "link": "https://example.test/master.m3u8",
                "resolutionStr": "1080p",
                "headers": { "Referer": "https://example.test/" },
                "subtitles": [
                    { "lang": "en", "label": "English", "src": "https://example.test/en.vtt" },
                    { "lang": "ru", "label": "Russian", "src": "https://example.test/ru.vtt" }
                ]
            }]
        }"#;

    let normalized = unescape_response(response);
    let links = match serde_json::from_str::<serde_json::Value>(&normalized) {
        Ok(v) => collect_provider_link_metadata(&to_json(&v)),
        Err(_) => Vec::new(),
    };

    assert_eq!(links.len(), 1);
    assert_eq!(links[0].subtitles.len(), 2);
    assert_eq!(links[0].subtitles[1].lang, "ru");
}

#[test]
fn selects_best_quality_by_sorted_order() {
    let links = vec![link("1080p", "a"), link("720p", "b")];
    assert_eq!(select_quality(&links, &QualityPreference::Best).unwrap().quality, "1080p");
}

#[test]
fn provider_path_extends_every_clock() {
    let encoded = encode_provider_path("/clock.json");
    assert_eq!(decode_provider_path(&encoded).unwrap(), "/clock.json.json");
}

#[test]
fn provider_path_of_odd_length_is_refused() {
    assert_eq!(decode_provider_path("abc"), Err(ProviderPathError::OddLength));
}

#[test]
fn provider_path_with_bad_hex_is_refused() {
    assert_eq!(decode_provider_path("zz"), Err(ProviderPathError::NotHex));
}

#[test]
fn provider_path_split_inside_a_character_is_refused() {
    // The pair of bytes `a` and the first byte of `é` is no UTF-8.
    assert_eq!(decode_provider_path("a\u{e9}"), Err(ProviderPathError::NotUtf8));
}

#[test]
fn provider_path_bytes_become_characters() {
    // 0xc7 ^ 0x38 = 0xff, pushed as the character U+00FF.
    assert_eq!(decode_provider_path("c7").unwrap(), "\u{ff}");
}

#[test]
fn provider_path_pair_may_carry_a_plus_sign() {
    // `+b` reads as 0x0b; 0x0b ^ 0x38 = 0x33, the character `3`.
    assert_eq!(decode_provider_path("+b").unwrap(), "3");
}

#[test]
fn worst_quality_takes_the_lowest() {
    let links = vec![link("1080p", "a"), link("720p", "b"), link("360p", "c")];
    assert_eq!(select_quality(&links, &QualityPreference::Worst).unwrap().quality, "360p");
}

#[test]
fn exact_quality_matches_by_label() {
    let links = vec![link("1080p", "a"), link("720p", "b")];
    let chosen = select_quality(&links, &QualityPreference::Exact("720".to_owned())).unwrap();
    assert_eq!(chosen.url, "b");
}

#[test]
fn no_link_selects_nothing() {
    assert!(select_quality(&[], &QualityPreference::Best).is_none());
}

#[test]
fn unescapes_slashes_and_quotes() {
    assert_eq!(unescape_response(r#"a\u002Fb\/c\"d"#), "a/b/c\"d");
}

#[test]
fn no_errors_reads_none() {
    let value = parse(r#"{"data": {}}"#);
    assert_eq!(graphql_errors(&value), None);
}
