use anistats::cli::{AsciiArt, Config, FALLBACK_NOTICE};
use anistats::pipeline::{conclude, Outcome, ReportError, EXIT_FAILURE, EXIT_SUCCESS};
use anistats::response::{Anime, Data, Genre, Manga, ResponseData, Statistics, Statuses, User};

fn strings(items: &[&str]) -> Vec<String> {
    items.iter().map(|item| item.to_string()).collect()
}

fn art(lines: &[&str]) -> AsciiArt {
    AsciiArt { text: lines.join("\n"), fell_back: false }
}

fn config(show_ascii: bool) -> Config {
    Config {
        username: "Moskas".to_string(),
        media: "All".to_string(),
        show_ascii,
        custom_ascii: None,
    }
}

fn answer() -> ResponseData {
    ResponseData {
        data: Data {
            user: User {
                name: "Moskas".to_string(),
                statistics: Statistics {
                    manga: Manga {
                        chapters_read: 120,
                        volumes_read: 15,
                        count: 10,
                        statuses: vec![
                            Statuses { status: "CURRENT".to_string(), count: 3 },
                            Statuses { status: "COMPLETED".to_string(), count: 7 },
                        ],
                        genres: vec![
                            Genre { genre: "Action".to_string() },
                            Genre { genre: "Comedy".to_string() },
                        ],
                    },
                    anime: Anime {
                        minutes_watched: 1500,
                        episodes_watched: 60,
                        count: 4,
                        statuses: vec![Statuses { status: "ON_HOLD".to_string(), count: 4 }],
                        genres: vec![],
                    },
                },
            },
        },
    }
}

#[test]
fn a_body_without_statistics_ends_the_run_with_one_diagnostic() {
    // What reading `{"data":{"User":{"name":"Moskas"}}}` as an answer gives.
    let fetched = Err(ReportError::MalformedResponse(
        "missing field `statistics` at line 1 column 35".to_string(),
    ));
    let outcome = conclude(fetched, &config(true), &art(&["##", "##"]));
    assert_eq!(
        outcome,
        Outcome {
            stdout: vec![],
            stderr: strings(&[
                "Error deserializing the response: missing field `statistics` at line 1 column 35",
            ]),
            exit_code: 1,
        }
    );
    assert_ne!(outcome.exit_code, EXIT_SUCCESS);
    assert_eq!(outcome.exit_code, EXIT_FAILURE);
}

#[test]
fn a_transport_failure_ends_the_run_with_one_diagnostic() {
    let fetched = Err(ReportError::TransportFailure("connection refused".to_string()));
    let outcome = conclude(fetched, &config(false), &art(&[]));
    assert!(outcome.stdout.is_empty());
    assert_eq!(outcome.stderr, strings(&["Error making the request: connection refused"]));
    assert_eq!(outcome.exit_code, EXIT_FAILURE);
}

#[test]
fn a_refused_request_ends_the_run_with_one_diagnostic() {
    let outcome = conclude(Err(ReportError::NonSuccessStatus(404)), &config(true), &art(&[]));
    assert!(outcome.stdout.is_empty());
    assert_eq!(outcome.stderr, strings(&["Error making the request: HTTP status 404"]));
    assert_eq!(outcome.exit_code, EXIT_FAILURE);
}

#[test]
fn each_error_has_its_diagnostic() {
    assert_eq!(
        ReportError::TransportFailure("timed out".to_string()).diagnostic(),
        "Error making the request: timed out"
    );
    assert_eq!(
        ReportError::NonSuccessStatus(500).diagnostic(),
        "Error making the request: HTTP status 500"
    );
    assert_eq!(
        ReportError::NonSuccessStatus(u16::MAX).diagnostic(),
        "Error making the request: HTTP status 65535"
    );
    assert_eq!(
        ReportError::MalformedResponse("expected value at line 1 column 1".to_string())
            .diagnostic(),
        "Error deserializing the response: expected value at line 1 column 1"
    );
    assert_eq!(
        ReportError::MalformedResponse(String::new()).diagnostic(),
        "Error deserializing the response: "
    );
}

#[test]
fn a_diagnostic_is_one_line_whatever_the_detail_holds() {
    let error = ReportError::TransportFailure("first\nsecond\r\nthird\r".to_string());
    assert_eq!(error.diagnostic(), "Error making the request: first second  third ");
    let error = ReportError::MalformedResponse("a\nb".to_string());
    assert_eq!(error.diagnostic(), "Error deserializing the response: a b");
    assert_eq!(error.diagnostic().lines().count(), 1);
}

#[test]
fn an_answer_is_rendered_in_full() {
    colored::control::set_override(false);
    let outcome = conclude(Ok(answer()), &config(true), &art(&["##", "##"]));
    assert_eq!(
        outcome,
        Outcome {
            stdout: strings(&[
                "## Moskas@anilist.co",
                "## Manga: 10",
                "- Chapters read: 120",
                "- Volumes read: 15",
                "- Top 5 genres: Action, Comedy",
                "- Completed 7, Current 3",
                "Anime: 4",
                "- Episodes watched: 60",
                "- Watchtime: 1 days, 1 hours, 0 minutes",
                "- Top 5 genres: ",
                "- On_hold 4",
            ]),
            stderr: vec![],
            exit_code: 0,
        }
    );
}

#[test]
fn an_answer_gives_eleven_rows_without_the_decoration() {
    let outcome = conclude(Ok(answer()), &config(false), &art(&["##"; 20]));
    assert_eq!(outcome.stdout.len(), 11);
    assert!(outcome.stderr.is_empty());
    assert_eq!(outcome.exit_code, EXIT_SUCCESS);
}

#[test]
fn an_answer_gives_as_many_rows_as_the_longer_side_has() {
    let outcome = conclude(Ok(answer()), &config(true), &art(&["##"; 20]));
    assert_eq!(outcome.stdout.len(), 20);
    let outcome = conclude(Ok(answer()), &config(true), &art(&["##"; 3]));
    assert_eq!(outcome.stdout.len(), 11);
}

#[test]
fn a_fallback_of_the_art_is_told_before_the_report() {
    colored::control::set_override(false);
    let fallen = AsciiArt { text: "##\n##\n".to_string(), fell_back: true };
    let outcome = conclude(Ok(answer()), &config(true), &fallen);
    assert_eq!(outcome.stdout.len(), 12);
    assert_eq!(outcome.stdout[0], FALLBACK_NOTICE);
    assert_eq!(
        outcome.stdout[0],
        "Could not find the specified file, falling back to default ascii art"
    );
    assert_eq!(outcome.stdout[1], "## Moskas@anilist.co");
    assert_eq!(outcome.stdout[2], "## Manga: 10");
    assert_eq!(outcome.stdout[3], "- Chapters read: 120");
    assert!(outcome.stderr.is_empty());
    assert_eq!(outcome.exit_code, EXIT_SUCCESS);
}

#[test]
fn a_failed_run_prints_no_notice_either() {
    let fallen = AsciiArt { text: "##".to_string(), fell_back: true };
    let outcome = conclude(Err(ReportError::NonSuccessStatus(429)), &config(true), &fallen);
    assert!(outcome.stdout.is_empty());
    assert_eq!(outcome.stderr.len(), 1);
    assert_eq!(outcome.exit_code, EXIT_FAILURE);
}
