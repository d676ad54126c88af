//! The command line: which command the arguments name, and the fixed texts
//! that the commands show.

use vstd::prelude::*;
use crate::text::same_text;
use crate::wire::DEFAULT_SERVER;

verus! {

/// The command that the first argument names.
#[derive(Debug, Clone, PartialEq, Eq)]
pub enum Command {
    /// Show the usage text.
    Help,
    /// Show what the program is.
    About,
    /// Fetch a document.
    Get,
    /// Create a document.
    Post,
    /// Any other name, in lower case.
    Unknown(String),
}

/// The mathematical value of a [`Command`].
pub enum CommandView {
    Help,
    About,
    Get,
    Post,
    Unknown(Seq<char>),
}

impl View for Command {
    type V = CommandView;

    open spec fn view(&self) -> CommandView {
        match self {
            Command::Help => CommandView::Help,
            Command::About => CommandView::About,
            Command::Get => CommandView::Get,
            Command::Post => CommandView::Post,
            Command::Unknown(name) => CommandView::Unknown(name@),
        }
    }
}

/// The lower-case form of a text, as std's `str::to_lowercase` computes it.
pub uninterp spec fn lowercase_of(s: Seq<char>) -> Seq<char>;

/// Calls `str::to_lowercase`. The result is the Unicode lower-case form of the
/// text, a function of the text alone; it is only named here, not spelled out.
#[verifier::external_body]
fn lowercase(s: &str) -> (r: String)
    ensures
        r@ == lowercase_of(s@),
{
    s.to_lowercase()
}

/// The command that a name in lower case stands for.
pub open spec fn classify_spec(name: Seq<char>) -> CommandView {
    if name == "get"@ {
        CommandView::Get
    } else if name == "post"@ {
        CommandView::Post
    } else if name == "about"@ {
        CommandView::About
    } else if name == "help"@ {
        CommandView::Help
    } else {
        CommandView::Unknown(name)
    }
}

/// The command that the arguments name: help where there are none, else what
/// the first argument stands for once it is put in lower case.
pub open spec fn parse_command_spec(args: Seq<String>) -> CommandView {
    if args.len() == 0 {
        CommandView::Help
    } else {
        classify_spec(lowercase_of(args[0]@))
    }
}

/// Finds the command that a name in lower case stands for.
pub fn classify(name: &str) -> (r: Command)
    ensures
        r@ == classify_spec(name@),
{
    if same_text(name, "get") {
        Command::Get
    } else if same_text(name, "post") {
        Command::Post
    } else if same_text(name, "about") {
        Command::About
    } else if same_text(name, "help") {
        Command::Help
    } else {
        Command::Unknown(name.to_owned())
    }
}

/// Finds the command that the arguments name, whatever the case of its letters.
pub fn parse_command(args: &Vec<String>) -> (r: Command)
    ensures
        r@ == parse_command_spec(args@),
{
    if args.len() == 0 {
        Command::Help
    } else {
        let name: String = lowercase(args[0].as_str());
        classify(name.as_str())
    }
}

/// The usage text up to the first mention of the default server.
pub const HELP_HEAD: &'static str = "haste.rs Commands
<required>, [optional]

help
Display this message.

about
Display project metadata and README.

get <key> [server] [output-path]
Retrieve a hastebin document's content, and optionally write it to a file.
<key> - The document's URL or key.
[server] - The hastebin server to retrieve data from. Defaults to the key URL's server or ";

/// The usage text between the two mentions of the default server.
pub const HELP_MIDDLE: &'static str = "
[output-path] - The output file's path.

post <input-path> [server] [raw]
Create a hastebin document from a specified file's contents.
<input-path> - The input file's path.
[server] - The hastebin server to post to. Defaults to ";

/// The usage text after the second mention of the default server.
pub const HELP_TAIL: &'static str = "
[raw] - Whether to output a raw URL. If the argument is specified, it's interpreted as positive. Defaults to negative.";

/// The usage text: the commands, their arguments and the default server.
pub open spec fn help_text_spec() -> Seq<char> {
    HELP_HEAD@ + DEFAULT_SERVER@ + HELP_MIDDLE@ + DEFAULT_SERVER@ + HELP_TAIL@
}

/// Builds the usage text.
pub fn help_text() -> (r: String)
    ensures
        r@ == help_text_spec(),
{
    HELP_HEAD.to_owned().concat(DEFAULT_SERVER).concat(HELP_MIDDLE).concat(DEFAULT_SERVER).concat(
        HELP_TAIL,
    )
}

/// The line shown for a command that is not known: `Unknown command {name}.`
pub open spec fn unknown_command_spec(name: Seq<char>) -> Seq<char> {
    "Unknown command "@ + name + "."@
}

/// Builds the line shown for a command that is not known.
pub fn unknown_command(name: &str) -> (r: String)
    ensures
        r@ == unknown_command_spec(name@),
{
    "Unknown command ".to_owned().concat(name).concat(".")
}

/// What `about` shows: the name, the description, the version, the repository
/// and the README, each on a line of its own.
pub open spec fn about_text_spec(
    name: Seq<char>,
    description: Seq<char>,
    version: Seq<char>,
    repository: Seq<char>,
    readme: Seq<char>,
) -> Seq<char> {
    name + "\n"@ + description + "\nVersion: "@ + version + "\nRepository: "@ + repository + "\n"@
        + readme
}

/// Builds what `about` shows.
pub fn about_text(
    name: &str,
    description: &str,
    version: &str,
    repository: &str,
    readme: &str,
) -> (r: String)
    ensures
        r@ == about_text_spec(name@, description@, version@, repository@, readme@),
{
    name.to_owned().concat("\n").concat(description).concat("\nVersion: ").concat(version).concat(
        "\nRepository: ",
    ).concat(repository).concat("\n").concat(readme)
}

} // verus!
