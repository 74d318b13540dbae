use anicli::aniskip::{
    MalQuery, SkipLookupError, SkipSource, allanime_edges, classify_mal_query, iina_plugin_dir,
    mal_items, mal_search_url, normalize, select_allanime_edge, select_mal_item, skip_episode_number,
    skip_times_url, strip_episode_count,
};
use anicli::json::{Json, JsonField, JsonNumber, JsonText};

fn to_json(v: &serde_json::Value) -> Json {
    match v {
        serde_json::Value::Null => Json::Null,
        serde_json::Value::Bool(b) => Json::Bool(*b),
        serde_json::Value::Number(n) => Json::Number(JsonNumber { text: n.to_string(), unsigned: n.as_u64() }),
        serde_json::Value::String(s) => Json::Str(JsonText {
            text: s.clone(),
            parsed: serde_json::from_str::<serde_json::Value>(s).ok().map(|p| Box::new(to_json(&p))),
        }),
        serde_json::Value::Array(items) => Json::Array(items.iter().map(to_json).collect()),
        serde_json::Value::Object(map) => Json::Object(
            map.iter().map(|(k, v)| JsonField { key: k.clone(), value: to_json(v) }).collect(),
        ),
    }
}

fn parse(text: &str) -> Json {
    to_json(&serde_json::from_str::<serde_json::Value>(text).unwrap())
}

#[test]
fn digits_are_an_id() {
    assert_eq!(classify_mal_query("52991"), MalQuery::Id(52991));
    assert_eq!(classify_mal_query(""), MalQuery::BadId);
    assert_eq!(classify_mal_query("99999999999999999999999"), MalQuery::BadId);
    assert_eq!(classify_mal_query("Frieren"), MalQuery::Title);
}

#[test]
fn skip_episode_is_the_integer_part() {
    assert_eq!(skip_episode_number("12"), Some(12));
    assert_eq!(skip_episode_number("12.5"), Some(12));
    assert_eq!(skip_episode_number("special"), None);
}

#[test]
fn episode_count_is_stripped_from_titles() {
    assert_eq!(strip_episode_count("Frieren (28 episodes)"), "Frieren");
    assert_eq!(strip_episode_count("  Plain title "), "Plain title");
}

#[test]
fn titles_compare_without_punctuation_or_case() {
    assert_eq!(normalize("Sousou no Frieren: Part 2!"), "sousou no frieren part 2");
}

fn mal_response() -> Json {
    parse(
        r#"{"categories": [
            {"type": "manga", "items": [{"id": 1, "name": "Frieren"}]},
            {"type": "anime", "items": [
                {"id": 100, "name": "Something Else"},
                {"id": 200, "name": "Sousou no Frieren"},
                {"name": "No id"}
            ]}
        ]}"#,
    )
}

#[test]
fn mal_results_come_from_the_anime_category() {
    let value = mal_response();
    let items = mal_items(&value).unwrap();
    assert_eq!(items.len(), 3);
    assert!(mal_items(&parse(r#"{"categories": []}"#)).is_none());
}

#[test]
fn mal_search_prefers_a_matching_name() {
    let value = mal_response();
    let items = mal_items(&value).unwrap();
    assert_eq!(select_mal_item(items, "frieren", None), Ok(200));
    assert_eq!(select_mal_item(items, "unrelated", None), Ok(100));
    assert_eq!(select_mal_item(items, "x", Some("^No")), Err(SkipLookupError::MissingId(SkipSource::MyAnimeList)));
    assert_eq!(select_mal_item(items, "x", Some("(")), Err(SkipLookupError::InvalidFilter));
    assert_eq!(select_mal_item(&Vec::new(), "x", None), Err(SkipLookupError::NoResults(SkipSource::MyAnimeList)));
    assert_eq!(
        SkipLookupError::NoResults(SkipSource::MyAnimeList).message(),
        "MyAnimeList returned no anime results"
    );
}

#[test]
fn allanime_search_picks_by_lowercase_name() {
    let value = parse(
        r#"{"data": {"shows": {"edges": [
            {"_id": "a1", "name": "Other"},
            {"_id": "b2", "name": "FRIEREN Season 2"}
        ]}}}"#,
    );
    let edges = allanime_edges(&value).unwrap();
    assert_eq!(select_allanime_edge(edges, "Frieren", None).unwrap(), "b2");
    assert_eq!(select_allanime_edge(edges, "Nothing", None).unwrap(), "a1");
    assert_eq!(select_allanime_edge(edges, "x", Some("Other")).unwrap(), "a1");
}

#[test]
fn request_addresses() {
    assert_eq!(
        mal_search_url("Sousou no Frieren"),
        "https://myanimelist.net/search/prefix.json?type=anime&keyword=Sousou%20no%20Frieren"
    );
    assert_eq!(skip_times_url(52991, 3), "https://api.aniskip.com/v1/skip-times/52991/3?types=op&types=ed");
}

#[test]
fn plugin_directory_is_under_iina_plugins() {
    assert_eq!(
        iina_plugin_dir("/Users/me"),
        "/Users/me/Library/Application Support/com.colliderli.iina/plugins/anicli-rs-aniskip.iinaplugin"
    );
}
