use haste::cli::{about_text, classify, help_text, parse_command, unknown_command, Command};
use haste::text::{has_prefix, same_text};

fn words(list: &[&str]) -> Vec<String> {
    list.iter().map(|w| w.to_string()).collect()
}

#[test]
fn no_argument_means_help() {
    assert_eq!(parse_command(&words(&[])), Command::Help);
}

#[test]
fn commands_are_named_in_lower_case() {
    assert_eq!(parse_command(&words(&["get", "abc"])), Command::Get);
    assert_eq!(parse_command(&words(&["post", "a.txt"])), Command::Post);
    assert_eq!(parse_command(&words(&["about"])), Command::About);
    assert_eq!(parse_command(&words(&["help"])), Command::Help);
}

#[test]
fn commands_are_named_in_any_case() {
    assert_eq!(parse_command(&words(&["GET", "abc"])), Command::Get);
    assert_eq!(parse_command(&words(&["Post"])), Command::Post);
    assert_eq!(parse_command(&words(&["aBoUt"])), Command::About);
    assert_eq!(parse_command(&words(&["HELP"])), Command::Help);
}

#[test]
fn unknown_command_is_kept_in_lower_case() {
    assert_eq!(parse_command(&words(&["Frobnicate"])), Command::Unknown("frobnicate".to_string()));
    assert_eq!(parse_command(&words(&[""])), Command::Unknown(String::new()));
    assert_eq!(parse_command(&words(&["gets"])), Command::Unknown("gets".to_string()));
}

#[test]
fn only_the_command_is_put_in_lower_case() {
    assert_eq!(parse_command(&words(&["abc", "GET"])), Command::Unknown("abc".to_string()));
}

#[test]
fn classify_takes_the_name_as_it_is() {
    assert_eq!(classify("get"), Command::Get);
    assert_eq!(classify("GET"), Command::Unknown("GET".to_string()));
    assert_eq!(classify("post"), Command::Post);
    assert_eq!(classify("about"), Command::About);
    assert_eq!(classify("help"), Command::Help);
}

#[test]
fn unknown_command_is_named_in_its_line() {
    assert_eq!(unknown_command("frobnicate"), "Unknown command frobnicate.");
}

#[test]
fn help_names_every_command_and_the_default_server() {
    let text = help_text();
    assert!(text.starts_with("haste.rs Commands\n<required>, [optional]\n\nhelp\n"));
    assert!(text.contains("\nget <key> [server] [output-path]\n"));
    assert!(text.contains("\npost <input-path> [server] [raw]\n"));
    assert!(text.contains("\nabout\n"));
    assert!(text.contains("Defaults to the key URL's server or https://hasteb.in\n"));
    assert!(text.contains("The hastebin server to post to. Defaults to https://hasteb.in\n"));
    assert!(text.ends_with("Defaults to negative."));
    assert_eq!(text.lines().count(), 20);
}

#[test]
fn about_puts_each_part_on_its_line() {
    assert_eq!(
        about_text("haste", "A paste client.", "1.2.3", "https://example.org/haste", "# haste\n"),
        "haste\nA paste client.\nVersion: 1.2.3\nRepository: https://example.org/haste\n# haste\n"
    );
}

#[test]
fn prefixes_and_equal_texts() {
    assert!(has_prefix("https://a.b", "https://"));
    assert!(has_prefix("abc", ""));
    assert!(has_prefix("abc", "abc"));
    assert!(!has_prefix("ab", "abc"));
    assert!(!has_prefix("http://a.b", "https://"));
    assert!(same_text("abc", "abc"));
    assert!(same_text("", ""));
    assert!(!same_text("abc", "abd"));
    assert!(!same_text("abc", "ab"));
    assert!(!same_text("ab", "abc"));
    assert!(same_text("h\u{f6}st", "h\u{f6}st"));
}
