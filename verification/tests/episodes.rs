use anicli::episode::{EpisodeError, next_episode, parse_episode_range, previous_episode};

fn episodes() -> Vec<String> {
    ["1", "2", "3", "4", "5", "6"].into_iter().map(ToOwned::to_owned).collect()
}

#[test]
fn parses_last_episode() {
    assert_eq!(parse_episode_range("-1", &episodes()).unwrap(), vec!["6"]);
}

#[test]
fn parses_dash_range() {
    assert_eq!(parse_episode_range("2-4", &episodes()).unwrap(), vec!["2", "3", "4"]);
}

#[test]
fn parses_range_to_the_last_episode() {
    assert_eq!(parse_episode_range("4 -1", &episodes()).unwrap(), vec!["4", "5", "6"]);
}

#[test]
fn single_episode_is_taken_as_given() {
    assert_eq!(parse_episode_range("7", &episodes()).unwrap(), vec!["7"]);
}

#[test]
fn empty_selection_is_refused() {
    let err = parse_episode_range("   ", &episodes()).unwrap_err();
    assert_eq!(err, EpisodeError::EmptySelection);
    assert_eq!(err.message(), "episode selection is empty");
}

#[test]
fn last_episode_of_no_episodes_is_refused() {
    assert_eq!(parse_episode_range("-1", &[]).unwrap_err(), EpisodeError::EmptyList);
}

#[test]
fn unknown_range_end_is_refused() {
    let err = parse_episode_range("2-9", &episodes()).unwrap_err();
    assert_eq!(err, EpisodeError::Unavailable("9".to_owned()));
    assert_eq!(err.message(), "episode 9 is not available");
}

#[test]
fn backwards_range_is_refused() {
    assert_eq!(parse_episode_range("5-2", &episodes()).unwrap_err(), EpisodeError::StartAfterEnd);
}

#[test]
fn next_and_previous_walk_the_list() {
    let eps = episodes();
    assert_eq!(next_episode(&eps, "3"), Some("4"));
    assert_eq!(previous_episode(&eps, "3"), Some("2"));
    assert_eq!(next_episode(&eps, "6"), None);
    assert_eq!(previous_episode(&eps, "1"), None);
    assert_eq!(next_episode(&eps, "9"), None);
}

#[test]
fn next_then_previous_comes_back() {
    let eps = episodes();
    let next = next_episode(&eps, "2").unwrap();
    assert_eq!(previous_episode(&eps, next), Some("2"));
}
