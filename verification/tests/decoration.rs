use anistats::cli::DEFAULT_ASCII;
use anistats::decoration::split_lines;

fn strings(items: &[&str]) -> Vec<String> {
    items.iter().map(|item| item.to_string()).collect()
}

#[test]
fn a_text_is_taken_apart_at_its_line_feeds() {
    assert_eq!(split_lines("a\nb\nc"), strings(&["a", "b", "c"]));
    assert_eq!(split_lines("one line"), strings(&["one line"]));
}

#[test]
fn the_empty_text_has_no_line() {
    assert_eq!(split_lines(""), strings(&[]));
}

#[test]
fn a_last_line_feed_opens_no_further_line() {
    assert_eq!(split_lines("a\nb\n"), strings(&["a", "b"]));
    assert_eq!(split_lines("\n"), strings(&[""]));
}

#[test]
fn empty_lines_are_kept() {
    assert_eq!(split_lines("a\n\nb"), strings(&["a", "", "b"]));
    assert_eq!(split_lines("\n\n"), strings(&["", ""]));
    assert_eq!(split_lines("\na"), strings(&["", "a"]));
}

#[test]
fn a_carriage_return_before_a_line_feed_belongs_to_the_line_ending() {
    assert_eq!(split_lines("a\r\nb\r\n"), strings(&["a", "b"]));
    assert_eq!(split_lines("\r\n"), strings(&[""]));
    assert_eq!(split_lines("a\r\r\nb"), strings(&["a\r", "b"]));
}

#[test]
fn other_carriage_returns_stay() {
    assert_eq!(split_lines("a\rb"), strings(&["a\rb"]));
    assert_eq!(split_lines("a\r"), strings(&["a\r"]));
    assert_eq!(split_lines("a\nb\r"), strings(&["a", "b\r"]));
}

#[test]
fn split_lines_agrees_with_the_lines_of_the_standard_library() {
    let samples = [
        "",
        "\n",
        "\r",
        "\r\n",
        "\n\r",
        "a",
        "a\n",
        "a\r\n",
        "a\n\n\nb",
        "a\r\n\r\nb\r",
        "⣻⣟\n⣯⣿\n",
        " leading\n trailing \n",
        "\r\r\n\r\n\n\r",
    ];
    for sample in samples {
        let expected: Vec<String> = sample.lines().map(|line| line.to_string()).collect();
        assert_eq!(split_lines(sample), expected);
    }
}

#[test]
fn the_built_in_art_has_twenty_lines_of_forty_characters() {
    let lines = split_lines(DEFAULT_ASCII);
    assert_eq!(lines.len(), 20);
    for line in &lines {
        assert_eq!(line.chars().count(), 40);
    }
}
