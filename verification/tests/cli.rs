use anistats::cli::{get_media, get_name, load_ascii, use_ascii, AsciiArt, Config, DEFAULT_ASCII};

fn config(custom_ascii: Option<&str>) -> Config {
    Config {
        username: "Moskas".to_string(),
        media: "Anime".to_string(),
        show_ascii: true,
        custom_ascii: custom_ascii.map(|path| path.to_string()),
    }
}

#[test]
fn the_getters_give_what_the_configuration_holds() {
    let mut given = config(None);
    assert_eq!(get_name(&given), "Moskas");
    assert_eq!(get_media(&given), "Anime");
    assert!(use_ascii(&given));
    given.show_ascii = false;
    given.username = String::new();
    assert!(!use_ascii(&given));
    assert_eq!(get_name(&given), "");
}

#[test]
fn without_a_file_the_built_in_art_is_shown() {
    assert_eq!(
        load_ascii(&config(None), None),
        AsciiArt { text: DEFAULT_ASCII.to_string(), fell_back: false }
    );
}

#[test]
fn without_a_file_asked_for_a_content_is_not_used() {
    assert_eq!(
        load_ascii(&config(None), Some("stray".to_string())),
        AsciiArt { text: DEFAULT_ASCII.to_string(), fell_back: false }
    );
}

#[test]
fn the_content_of_the_file_is_shown_when_it_was_read() {
    assert_eq!(
        load_ascii(&config(Some("art.txt")), Some("/\\_/\\\n( o.o )\n".to_string())),
        AsciiArt { text: "/\\_/\\\n( o.o )\n".to_string(), fell_back: false }
    );
    assert_eq!(
        load_ascii(&config(Some("empty.txt")), Some(String::new())),
        AsciiArt { text: String::new(), fell_back: false }
    );
}

#[test]
fn a_file_that_could_not_be_read_falls_back_to_the_built_in_art() {
    assert_eq!(
        load_ascii(&config(Some("missing.txt")), None),
        AsciiArt { text: DEFAULT_ASCII.to_string(), fell_back: true }
    );
}
