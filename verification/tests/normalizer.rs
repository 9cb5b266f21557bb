use anistats::normalizer::normalize;
use anistats::status::{Status, StatusCount};

fn entry(status: Status, count: u32) -> StatusCount {
    StatusCount { status, count }
}

fn vocabulary() -> Vec<StatusCount> {
    vec![
        entry(Status::Completed, 7),
        entry(Status::Current, 3),
        entry(Status::Dropped, 1),
        entry(Status::Paused, 2),
        entry(Status::Planning, 40),
        entry(Status::Repeating, 5),
    ]
}

#[test]
fn canonical_order_is_the_lexical_order_of_the_tokens() {
    let shuffled = vec![
        entry(Status::Repeating, 5),
        entry(Status::Planning, 40),
        entry(Status::Current, 3),
        entry(Status::Paused, 2),
        entry(Status::Dropped, 1),
        entry(Status::Completed, 7),
    ];
    assert_eq!(normalize(shuffled), vocabulary());
}

#[test]
fn the_empty_breakdown_stays_empty() {
    assert_eq!(normalize(vec![]), vec![]);
}

#[test]
fn a_single_entry_stays_as_it_is() {
    assert_eq!(normalize(vec![entry(Status::Paused, 9)]), vec![entry(Status::Paused, 9)]);
}

#[test]
fn every_order_of_the_same_entries_gives_the_same_result() {
    let expected = vocabulary();
    let base = vocabulary();
    // All rotations of the list and of its reverse, and a few swaps.
    for shift in 0..base.len() {
        let mut rotated = base.clone();
        rotated.rotate_left(shift);
        assert_eq!(normalize(rotated.clone()), expected);
        rotated.reverse();
        assert_eq!(normalize(rotated.clone()), expected);
        rotated.swap(0, 3);
        assert_eq!(normalize(rotated.clone()), expected);
        rotated.swap(1, 5);
        assert_eq!(normalize(rotated), expected);
    }
}

#[test]
fn every_order_of_a_smaller_set_gives_the_same_result() {
    let a = entry(Status::Planning, 1);
    let b = entry(Status::Completed, 2);
    let c = entry(Status::Paused, 3);
    let expected = vec![b.clone(), c.clone(), a.clone()];
    let orders = [
        vec![a.clone(), b.clone(), c.clone()],
        vec![a.clone(), c.clone(), b.clone()],
        vec![b.clone(), a.clone(), c.clone()],
        vec![b.clone(), c.clone(), a.clone()],
        vec![c.clone(), a.clone(), b.clone()],
        vec![c.clone(), b.clone(), a.clone()],
    ];
    for order in orders {
        assert_eq!(normalize(order), expected);
    }
}

#[test]
fn normalizing_twice_changes_nothing_more() {
    let once = normalize(vec![
        entry(Status::Planning, 1),
        entry(Status::Other("ON_HOLD".to_string()), 4),
        entry(Status::Current, 2),
    ]);
    assert_eq!(normalize(once.clone()), once);
}

#[test]
fn unknown_statuses_take_their_lexical_place() {
    let ordered = normalize(vec![
        entry(Status::Repeating, 1),
        entry(Status::Other("ON_HOLD".to_string()), 2),
        entry(Status::Completed, 3),
        entry(Status::Other("ARCHIVED".to_string()), 4),
        entry(Status::Other("ZOMBIE".to_string()), 5),
    ]);
    assert_eq!(
        ordered,
        vec![
            entry(Status::Other("ARCHIVED".to_string()), 4),
            entry(Status::Completed, 3),
            entry(Status::Other("ON_HOLD".to_string()), 2),
            entry(Status::Repeating, 1),
            entry(Status::Other("ZOMBIE".to_string()), 5),
        ]
    );
}

#[test]
fn entries_with_the_same_token_keep_their_order() {
    let ordered = normalize(vec![
        entry(Status::Paused, 1),
        entry(Status::Current, 2),
        entry(Status::Paused, 3),
        entry(Status::Other("CURRENT".to_string()), 4),
        entry(Status::Current, 5),
    ]);
    assert_eq!(
        ordered,
        vec![
            entry(Status::Current, 2),
            entry(Status::Other("CURRENT".to_string()), 4),
            entry(Status::Current, 5),
            entry(Status::Paused, 1),
            entry(Status::Paused, 3),
        ]
    );
}

#[test]
fn normalize_agrees_with_a_stable_sort_by_token() {
    let input = vec![
        entry(Status::Dropped, 1),
        entry(Status::Other("é".to_string()), 2),
        entry(Status::Other("".to_string()), 3),
        entry(Status::Completed, 4),
        entry(Status::Other("DROPPED".to_string()), 5),
        entry(Status::Repeating, 6),
        entry(Status::Other("REPEAT".to_string()), 7),
    ];
    let mut expected = input.clone();
    expected.sort_by(|a, b| a.status.token().cmp(b.status.token()));
    assert_eq!(normalize(input), expected);
}
