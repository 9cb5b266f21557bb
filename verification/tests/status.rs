use anistats::status::{Status, Tone};

#[test]
fn tokens_of_the_vocabulary_are_read_as_their_status() {
    assert_eq!(Status::from_token("CURRENT".to_string()), Status::Current);
    assert_eq!(Status::from_token("PLANNING".to_string()), Status::Planning);
    assert_eq!(Status::from_token("COMPLETED".to_string()), Status::Completed);
    assert_eq!(Status::from_token("DROPPED".to_string()), Status::Dropped);
    assert_eq!(Status::from_token("PAUSED".to_string()), Status::Paused);
    assert_eq!(Status::from_token("REPEATING".to_string()), Status::Repeating);
}

#[test]
fn unknown_tokens_are_kept_as_other() {
    assert_eq!(
        Status::from_token("REWATCHING".to_string()),
        Status::Other("REWATCHING".to_string())
    );
    assert_eq!(Status::from_token(String::new()), Status::Other(String::new()));
    assert_eq!(
        Status::from_token("completed".to_string()),
        Status::Other("completed".to_string())
    );
    assert_eq!(
        Status::from_token("COMPLETED ".to_string()),
        Status::Other("COMPLETED ".to_string())
    );
}

#[test]
fn a_status_names_the_token_it_was_read_from() {
    let tokens =
        ["CURRENT", "PLANNING", "COMPLETED", "DROPPED", "PAUSED", "REPEATING", "ON_HOLD", ""];
    for token in tokens {
        assert_eq!(Status::from_token(token.to_string()).token(), token);
    }
}

#[test]
fn labels_are_the_tokens_in_title_case() {
    assert_eq!(Status::Current.label(), "Current");
    assert_eq!(Status::Planning.label(), "Planning");
    assert_eq!(Status::Completed.label(), "Completed");
    assert_eq!(Status::Dropped.label(), "Dropped");
    assert_eq!(Status::Paused.label(), "Paused");
    assert_eq!(Status::Repeating.label(), "Repeating");
    assert_eq!(Status::Other("ON_HOLD".to_string()).label(), "On_hold");
    assert_eq!(Status::Other("rewatching".to_string()).label(), "Rewatching");
}

#[test]
fn each_status_has_its_tone() {
    assert_eq!(Status::Completed.tone(), Tone::Success);
    assert_eq!(Status::Paused.tone(), Tone::Secondary);
    assert_eq!(Status::Current.tone(), Tone::Highlight);
    assert_eq!(Status::Planning.tone(), Tone::Primary);
    assert_eq!(Status::Repeating.tone(), Tone::Accent);
    assert_eq!(Status::Dropped.tone(), Tone::Danger);
    assert_eq!(Status::Other("COMPLETED".to_string()).tone(), Tone::Plain);
    assert_eq!(Status::Other("ON_HOLD".to_string()).tone(), Tone::Plain);
}

#[test]
fn duplicate_gives_an_equal_status() {
    for status in [Status::Current, Status::Dropped, Status::Other("X".to_string())] {
        assert_eq!(status.duplicate(), status);
    }
}
