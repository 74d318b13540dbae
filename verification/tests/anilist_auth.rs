use anicli::anilist::{
    AniListAuth, AniListAuthFile, AniListAuthStore, AniListListEntry, AniListListEntryRecord,
    AniListListGroup, AniListMediaListStatus, AniListMediaRecord, AniListTitle, GraphqlError,
    authorization_url, clean_optional, collect_anime_list, extract_access_token,
    graphql_errors_report, media_from_record, status_order,
};

#[test]
fn extracts_token_from_redirect_fragment() {
    let token = extract_access_token(
        "https://anilist.co/api/v2/oauth/pin#access_token=abc.def&token_type=Bearer",
    );

    assert_eq!(token.as_deref(), Some("abc.def"));
}

#[test]
fn accepts_raw_token() {
    assert_eq!(extract_access_token("abc.def.ghi").as_deref(), Some("abc.def.ghi"));
}

#[test]
fn blank_input_has_no_token() {
    assert_eq!(extract_access_token("  \n "), None);
}

#[test]
fn token_in_query_is_percent_decoded() {
    assert_eq!(
        extract_access_token(" https://x.test/cb?state=1&access_token=a%2Bb ").as_deref(),
        Some("a+b")
    );
}

#[test]
fn empty_token_value_is_passed_over() {
    assert_eq!(
        extract_access_token("https://x.test/cb#access_token=&other=1").as_deref(),
        Some("https://x.test/cb#access_token=&other=1")
    );
}

#[test]
fn authorization_url_encodes_the_trimmed_client_id() {
    assert_eq!(
        authorization_url(" 12 34 "),
        "https://anilist.co/api/v2/oauth/authorize?client_id=12%2034&response_type=token"
    );
}

#[test]
fn saved_values_are_trimmed_and_blank_ones_dropped() {
    assert_eq!(clean_optional(Some("  abc ".to_owned())).as_deref(), Some("abc"));
    assert_eq!(clean_optional(Some("   ".to_owned())), None);
    assert_eq!(clean_optional(None), None);
    let auth = AniListAuth::from_file(AniListAuthFile {
        client_id: Some(" 42 ".to_owned()),
        access_token: Some("".to_owned()),
    });
    assert_eq!(auth.client_id.as_deref(), Some("42"));
    assert_eq!(auth.access_token, None);
}

#[test]
fn a_saved_login_reads_back() {
    let auth = AniListAuth { client_id: Some("42".to_owned()), access_token: Some("tok".to_owned()) };
    assert_eq!(AniListAuth::from_file(auth.to_file()), auth);
}

#[test]
fn auth_store_keeps_its_path() {
    assert_eq!(AniListAuthStore::new("/cfg/anilist.toml".to_owned()).path(), "/cfg/anilist.toml");
}

#[test]
fn statuses_have_api_names_labels_and_an_order() {
    assert_eq!(AniListMediaListStatus::Current.as_str(), "CURRENT");
    assert_eq!(AniListMediaListStatus::Repeating.label(), "rewatching");
    assert_eq!(status_order(AniListMediaListStatus::Current), 0);
    assert_eq!(status_order(AniListMediaListStatus::Completed), 5);
}

fn title(preferred: Option<&str>, english: Option<&str>, romaji: Option<&str>, native: Option<&str>) -> AniListTitle {
    AniListTitle {
        user_preferred: preferred.map(ToOwned::to_owned),
        romaji: romaji.map(ToOwned::to_owned),
        english: english.map(ToOwned::to_owned),
        native: native.map(ToOwned::to_owned),
    }
}

#[test]
fn display_title_prefers_user_preferred_then_english() {
    assert_eq!(title(None, Some("English"), Some("Romaji"), None).display_title(), "English");
    assert_eq!(title(None, None, None, None).display_title(), "Untitled");
}

#[test]
fn titles_are_trimmed_without_repeats() {
    let t = title(Some(" Frieren "), Some("Frieren"), Some(""), Some("葬送のフリーレン"));
    assert_eq!(t.titles(), vec!["Frieren".to_owned(), "葬送のフリーレン".to_owned()]);
}

#[test]
fn media_is_shown_by_its_display_title() {
    let media = media_from_record(AniListMediaRecord {
        id: 7,
        mal_id: Some(70),
        episodes: Some(12),
        title: title(Some("Shown"), Some("Other"), None, None),
        list_entry: None,
    });
    assert_eq!(media.title, "Shown");
    assert_eq!(media.titles, vec!["Shown".to_owned(), "Other".to_owned()]);
    assert_eq!(media.mal_id, Some(70));
}

fn record(id: u32, media_id: u32, status: AniListMediaListStatus, name: &str) -> AniListListEntryRecord {
    AniListListEntryRecord {
        id,
        media_id,
        status,
        progress: 1,
        media: AniListMediaRecord {
            id: media_id,
            mal_id: None,
            episodes: None,
            title: title(Some(name), None, None, None),
            list_entry: None,
        },
    }
}

#[test]
fn anime_list_is_deduplicated_and_ordered_by_status_then_title() {
    let groups = vec![
        AniListListGroup {
            name: "Completed".to_owned(),
            status: Some(AniListMediaListStatus::Completed),
            entries: vec![record(1, 10, AniListMediaListStatus::Current, "Zeta")],
        },
        AniListListGroup {
            name: "Watching".to_owned(),
            status: None,
            entries: vec![
                record(2, 20, AniListMediaListStatus::Current, "Beta"),
                record(3, 10, AniListMediaListStatus::Current, "Zeta again"),
                record(4, 30, AniListMediaListStatus::Current, "Alpha"),
            ],
        },
    ];
    let list = collect_anime_list(groups);
    let shown: Vec<(&str, AniListMediaListStatus, &str)> =
        list.iter().map(|e| (e.title.as_str(), e.status, e.list_name.as_str())).collect();
    assert_eq!(
        shown,
        vec![
            ("Alpha", AniListMediaListStatus::Current, "Watching"),
            ("Beta", AniListMediaListStatus::Current, "Watching"),
            ("Zeta", AniListMediaListStatus::Completed, "Completed"),
        ]
    );
}

#[test]
fn list_entry_line_shows_progress() {
    let entry = AniListListEntry {
        list_entry_id: 1,
        media_id: 2,
        mal_id: None,
        title: "Show".to_owned(),
        titles: Vec::new(),
        status: AniListMediaListStatus::Current,
        progress: 3,
        episodes: Some(12),
        list_name: "Watching".to_owned(),
    };
    assert_eq!(entry.display_title(), "Show - watching - episode 3/12");
    let r = entry.progress_ref();
    assert_eq!((r.media_id, r.progress, r.title.as_str()), (2, 3, "Show"));
}

#[test]
fn graphql_errors_are_joined_with_their_status() {
    let errors = vec![
        GraphqlError { message: "Not Found".to_owned(), status: Some(404) },
        GraphqlError { message: "Other".to_owned(), status: None },
    ];
    assert_eq!(graphql_errors_report(&errors), "AniList GraphQL error: Not Found (404); Other");
}

#[test]
fn token_that_decodes_to_no_utf8_is_kept_as_written() {
    assert_eq!(extract_access_token("x#access_token=a%ff").as_deref(), Some("a%ff"));
}

#[test]
fn incomplete_escapes_are_kept() {
    assert_eq!(extract_access_token("x#access_token=ab%4").as_deref(), Some("ab%4"));
    assert_eq!(extract_access_token("x#access_token=%41%zz").as_deref(), Some("A%zz"));
}
