use anicli::history::{HistoryEntry, HistoryStore, MAX_HISTORY_EPISODES};

fn entry(episode: &str, anime_id: &str, title: &str) -> HistoryEntry {
    HistoryEntry { episode: episode.to_owned(), anime_id: anime_id.to_owned(), title: title.to_owned() }
}

#[test]
fn caps_history_to_recent_entries() {
    let mut contents = String::new();

    for index in 0..1005 {
        contents = HistoryStore::upsert(
            &contents,
            HistoryEntry {
                episode: index.to_string(),
                anime_id: format!("anime-{index}"),
                title: format!("Anime {index}"),
            },
        );
    }

    let entries = HistoryStore::load(&contents);
    assert_eq!(entries.len(), MAX_HISTORY_EPISODES);
    assert_eq!(entries.first().unwrap().anime_id, "anime-5");
    assert_eq!(entries.last().unwrap().anime_id, "anime-1004");
}

#[test]
fn latest_history_keeps_most_recent_entry_per_title() {
    let mut contents = String::new();
    contents = HistoryStore::upsert(&contents, entry("1", "one", "One"));
    contents = HistoryStore::upsert(&contents, entry("1", "two", "Two"));
    contents = HistoryStore::upsert(&contents, entry("2", "one", "One"));

    let raw_entries = HistoryStore::load(&contents);
    assert_eq!(raw_entries.len(), 3);

    let latest_entries = HistoryStore::load_latest(&contents);
    assert_eq!(
        latest_entries.iter().map(|entry| entry.anime_id.as_str()).collect::<Vec<_>>(),
        vec!["two", "one"]
    );
    assert_eq!(latest_entries.last().unwrap().episode, "2");
}

#[test]
fn history_lines_are_tab_separated() {
    let contents = HistoryStore::upsert("", entry("3", "abc", "Some Show"));
    assert_eq!(contents, "3\tabc\tSome Show\n");
}

#[test]
fn lines_with_too_few_fields_are_skipped() {
    let entries = HistoryStore::load("1\tabc\tTitle\nbroken line\n2\tdef\tOther\tPart\n");
    assert_eq!(entries, vec![entry("1", "abc", "Title"), entry("2", "def", "Other\tPart")]);
}

#[test]
fn a_recorded_entry_reads_back_last() {
    let before = "1\tabc\tTitle\n";
    let after = HistoryStore::upsert(before, entry("2", "abc", "Title"));
    let entries = HistoryStore::load(&after);
    assert_eq!(entries.last().unwrap(), &entry("2", "abc", "Title"));
    assert_eq!(entries.len(), 2);
}

#[test]
fn history_file_lives_in_the_history_directory() {
    assert_eq!(HistoryStore::new("/home/u/.local/state/ani-cli").path(), "/home/u/.local/state/ani-cli/ani-hsts");
    assert_eq!(HistoryStore::new("/tmp/").path(), "/tmp/ani-hsts");
}
