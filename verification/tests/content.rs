use lanchat_ui::content::{parse_content, starts_with, SEND_COMMAND};
use lanchat_ui::style::{Color, Style, StyledRun};

fn plain(text: &str) -> StyledRun {
    StyledRun { text: text.to_string(), style: Style { fg: None, bold: false } }
}

fn command() -> StyledRun {
    StyledRun {
        text: "?send".to_string(),
        style: Style { fg: Some(Color::LightYellow), bold: false },
    }
}

#[test]
fn the_command_token_is_send() {
    assert_eq!(SEND_COMMAND, "?send");
}

#[test]
fn plain_text_is_one_plain_run() {
    assert_eq!(parse_content("hello there"), vec![plain("hello there")]);
}

#[test]
fn empty_text_is_one_empty_run() {
    assert_eq!(parse_content(""), vec![plain("")]);
}

#[test]
fn send_command_is_split_from_its_argument() {
    assert_eq!(parse_content("?send notes.txt"), vec![command(), plain(" notes.txt")]);
}

#[test]
fn bare_send_command_has_an_empty_remainder() {
    assert_eq!(parse_content("?send"), vec![command(), plain("")]);
}

#[test]
fn send_command_needs_no_space_behind_it() {
    assert_eq!(parse_content("?sendfile"), vec![command(), plain("file")]);
}

#[test]
fn only_the_first_send_command_is_marked() {
    assert_eq!(parse_content("?send a ?send b"), vec![command(), plain(" a ?send b")]);
}

#[test]
fn send_command_inside_the_text_is_not_marked() {
    assert_eq!(parse_content("please ?send it"), vec![plain("please ?send it")]);
    assert_eq!(parse_content(" ?send x"), vec![plain(" ?send x")]);
}

#[test]
fn a_prefix_of_the_command_is_plain_text() {
    assert_eq!(parse_content("?sen"), vec![plain("?sen")]);
    assert_eq!(parse_content("?Send x"), vec![plain("?Send x")]);
}

#[test]
fn text_beyond_ascii_is_kept_whole() {
    assert_eq!(parse_content("?send żółw.txt"), vec![command(), plain(" żółw.txt")]);
    assert_eq!(parse_content("héllo ?send"), vec![plain("héllo ?send")]);
}

#[test]
fn starts_with_compares_characters() {
    assert!(starts_with("?send x", "?send"));
    assert!(starts_with("abc", ""));
    assert!(starts_with("", ""));
    assert!(!starts_with("?s", "?send"));
    assert!(!starts_with("x?send", "?send"));
    assert!(starts_with("żółw", "żó"));
    assert!(!starts_with("żółw", "zo"));
}

#[test]
fn runs_of_a_text_hold_all_its_characters() {
    for text in ["", "a", "?send", "?send x y", "no command", "?sendx"] {
        let joined: String = parse_content(text).iter().map(|run| run.text.as_str()).collect();
        assert_eq!(joined, text);
    }
}
