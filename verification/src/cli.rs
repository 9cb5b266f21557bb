//! The configuration that the command line gives, and the choice of the
//! decoration that is shown beside the report.

use vstd::prelude::*;

verus! {

/// The ASCII art that is shown where no other is asked for.
pub const DEFAULT_ASCII: &'static str = "⣻⣟⣿⣻⣟⣿⣻⣟⣿⣻⣟⣿⣻⣟⣿⣻⣟⣿⣻⣟⣿⣻⣟⣿⣻⣟⣿⣻⣟⣿⣻⣟⣿⣻⣟⣿⣻⣟⣿⣻
⣯⣿⡽⣷⢿⣽⢷⡿⣽⡷⣿⡽⣷⢿⣽⢷⡿⣽⢷⡿⣽⢷⡿⣽⡷⣿⡽⣷⢿⣽⢷⡿⣽⡷⣿⡽⣷⢿⣽⣯
⣽⣾⣻⣟⣯⡿⣯⡿⣯⡿⣯⣿⣻⣯⡿⣯⣿⣻⣟⣿⣻⣟⡿⣯⡿⣯⣿⣻⣯⡿⣯⡿⣯⡿⣯⣿⣻⣯⣷⢿
⢷⣻⣽⣯⢿⣽⢿⣽⢿⣽⢿⣞⣿⣞⣿⣻⡾⣯⡿⣾⢯⣿⣽⣯⣿⣻⣾⣻⣾⣻⣯⡿⣯⣿⣻⣾⣻⡾⣯⣿
⣟⣯⣷⣟⣿⣽⢿⣽⢿⣽⢿⣽⡾⠯⠟⠷⠿⠯⠿⣻⢟⠷⠿⡞⡷⣿⢾⣻⣾⣻⣾⣻⣟⣾⣻⡾⣯⣿⣻⡾
⢿⣽⢷⣟⣷⣟⣿⣽⢿⣽⣟⣷⡟⠀⠀⠀⠀⠀⠀⠹⡸⡸⡱⡱⡱⣻⣟⣿⢾⣻⡾⣯⡿⣽⣯⢿⣻⡾⣯⣿
⢿⣽⢿⣽⢷⣟⣷⣟⣿⣳⣿⣳⠁⠀⠀⠀⠀⠀⠀⠀⢕⢕⢕⢕⢕⣿⣽⣾⢿⣯⡿⣯⣿⣻⡾⣿⢯⣿⣻⣾
⣯⡿⣯⣿⣻⣽⡷⣿⣽⣻⣾⠃⠀⠀⠀⠀⠀⠀⠀⠀⠐⢕⢕⢕⢕⢿⣺⣯⡿⣷⣟⣿⢾⣯⢿⣻⡿⣽⡷⣟
⣯⣿⣻⡾⣯⣷⢿⣻⣾⣻⡎⠀⠀⠀⠀⢀⡄⠀⠀⠀⠀⠘⡜⡜⠬⣿⣯⣷⢿⣻⣾⣻⣯⢿⣻⣯⡿⣯⣿⣻
⣷⣯⣷⡿⣿⢾⡿⣯⣷⠿⠀⠀⠀⠀⠀⣼⢷⠀⠀⠀⠀⠀⢱⠱⡍⣷⡿⣾⢿⣯⣷⢿⡾⣿⢯⣷⣿⣻⡾⣯
⣷⢿⣞⣿⣽⣟⣿⣽⣾⠃⠀⠀⠀⠀⢰⣟⣿⢇⠀⠀⠀⠀⠀⡫⡪⣟⣿⣽⣟⣷⣟⣿⣻⣟⣿⣳⣿⡽⣟⣯
⣽⢿⣽⢷⡿⣾⣻⡾⡇⠀⠀⠀⠀⠀⠈⠈⠈⠉⠀⠀⠀⠀⠀⠨⡪⣟⣷⢿⡾⣷⢿⣽⢷⡿⣽⣻⣾⣻⡿⣽
⣽⢿⣽⣟⣿⣽⣯⡟⠀⠀⠀⠀⠀⠀⠀⠀⠀⠀⠀⠀⠀⠀⠀⠀⢊⢟⢽⢻⢝⢟⢯⢻⢫⢿⣻⣽⡾⣯⣿⣻
⣽⣟⣷⣟⣷⢿⣺⠁⠀⠀⠀⠀⢀⣤⣤⣤⣤⣤⣤⡄⠀⠀⠀⠀⠀⢣⢣⢣⢣⢣⢣⢣⢣⠣⣿⣽⣟⣿⢾⣻
⣷⣟⣷⢿⣽⣟⠇⠀⠀⠀⠀⠀⣼⣯⡿⣾⢯⣷⣟⣷⠀⠀⠀⠀⠀⠈⡎⡎⡎⡎⡎⡎⡎⡎⣿⣾⣻⡾⣟⣯
⣽⣯⣟⣿⣳⡿⣶⢶⡶⣶⢶⡶⣟⣾⣟⣿⣻⡷⣿⣽⢷⡶⣶⡶⣶⣶⢾⡾⣞⣾⣞⣾⣞⣾⣻⡾⣯⣿⣻⣟
⣻⡾⣯⡿⣽⣻⣽⣟⣿⣻⣟⣿⣻⣽⡾⣯⣷⢿⣻⡾⣟⣿⣽⣟⣿⢾⣟⣿⣻⡷⣟⣷⢿⣽⣯⢿⣻⡾⣯⣿
⢷⡿⣯⣿⣻⣽⡷⣿⣽⢷⡿⣽⣯⣷⢿⣻⣽⣟⣯⣿⢿⣽⣾⣻⡾⣿⣽⣯⣷⢿⡿⣽⣟⣷⣟⣿⢯⣿⣻⣾
⣻⢿⣽⡾⣯⣷⣿⣻⡾⣟⣿⣻⣾⣽⢿⣻⣽⣯⢿⡾⣟⣷⣟⣷⢿⣻⣾⣳⣟⣿⣻⣯⣟⣷⢿⣽⢿⣽⢷⡿
⣟⣿⢷⣿⣻⣷⣻⣽⣟⣿⣽⢷⡿⣾⣟⣯⣷⢿⣻⣟⣿⣳⣿⣽⣟⣿⢾⣯⡿⣽⣷⣻⣽⣯⣿⣽⢿⣽⣟⡿";

/// What the user is told when the file with the ASCII art could not be read.
pub const FALLBACK_NOTICE: &'static str =
    "Could not find the specified file, falling back to default ascii art";

/// What the user asked for on the command line.
#[derive(Debug, Clone, PartialEq, Eq)]
pub struct Config {
    /// The name of the user to look up.
    pub username: String,
    /// Which media the user asked for: `All`, `Anime` or `Manga`. It is
    /// carried as given; a report shows every category that it holds.
    pub media: String,
    /// Whether the ASCII art is shown beside the report.
    pub show_ascii: bool,
    /// The file to take the ASCII art from, if not the built-in one.
    pub custom_ascii: Option<String>,
}

/// The name of the user to look up.
pub fn get_name(config: &Config) -> (name: String)
    ensures
        name@ == config.username@,
{
    config.username.clone()
}

/// Which media to show.
pub fn get_media(config: &Config) -> (media: String)
    ensures
        media@ == config.media@,
{
    config.media.clone()
}

/// Whether the ASCII art is shown beside the report.
pub fn use_ascii(config: &Config) -> (shown: bool)
    ensures
        shown == config.show_ascii,
{
    config.show_ascii
}

/// The ASCII art to show, and whether it is the built-in one for want of
/// the file that was asked for.
#[derive(Debug, Clone, PartialEq, Eq)]
pub struct AsciiArt {
    pub text: String,
    pub fell_back: bool,
}

/// Chooses the ASCII art. `file_content` is what was read from the file that
/// `config.custom_ascii` names, or `None` where it could not be read.
///
/// Without a file asked for, the art is the built-in one. With a file that
/// was read, it is the file's content. With a file that could not be read,
/// it is the built-in one again, and `fell_back` says so, for the caller to
/// tell the user.
pub fn load_ascii(config: &Config, file_content: Option<String>) -> (art: AsciiArt)
    ensures
        art.text@ == (if config.custom_ascii is Some && file_content is Some {
            file_content->0@
        } else {
            DEFAULT_ASCII@
        }),
        art.fell_back == (config.custom_ascii is Some && file_content is None),
{
    match (&config.custom_ascii, file_content) {
        (Some(_), Some(content)) => AsciiArt { text: content, fell_back: false },
        (Some(_), None) => AsciiArt { text: DEFAULT_ASCII.to_owned(), fell_back: true },
        (None, _) => AsciiArt { text: DEFAULT_ASCII.to_owned(), fell_back: false },
    }
}

} // verus!
