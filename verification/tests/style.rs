use lanchat_ui::style::{Color, Style, StyledLine, StyledRun};
use lanchat_ui::text::push_repeated;

#[test]
fn plain_style_has_no_colour_and_no_weight() {
    assert_eq!(Style::plain(), Style { fg: None, bold: false });
}

#[test]
fn coloured_style_has_the_colour_only() {
    assert_eq!(Style::colored(Color::Cyan), Style { fg: Some(Color::Cyan), bold: false });
    assert_ne!(Style::colored(Color::Cyan), Style::colored(Color::Blue));
}

#[test]
fn bold_style_has_the_weight_only() {
    assert_eq!(Style::bold(), Style { fg: None, bold: true });
}

#[test]
fn styled_run_keeps_text_and_style() {
    let run = StyledRun::styled("hi".to_string(), Style::colored(Color::Red));
    assert_eq!(run.text, "hi");
    assert_eq!(run.style, Style { fg: Some(Color::Red), bold: false });
}

#[test]
fn raw_run_is_plain() {
    let run = StyledRun::raw("hi".to_string());
    assert_eq!(run, StyledRun { text: "hi".to_string(), style: Style::plain() });
}

#[test]
fn lines_are_equal_when_their_runs_are() {
    let line = StyledLine { runs: vec![StyledRun::raw("a".to_string())] };
    assert_eq!(line.clone(), line);
    assert_ne!(line, StyledLine { runs: vec![] });
}

#[test]
fn characters_are_appended_as_often_as_asked() {
    let mut text = "ab".to_string();
    push_repeated(&mut text, '#', 3);
    assert_eq!(text, "ab###");
    push_repeated(&mut text, '-', 0);
    assert_eq!(text, "ab###");
    push_repeated(&mut text, 'ż', 2);
    assert_eq!(text, "ab###żż");
}
