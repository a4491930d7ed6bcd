use lanchat_ui::input::{
    input_cursor_position, input_panel, split_each, ui_input_cursor, BORDER_COLUMNS,
};
use lanchat_ui::layout::Rect;
use lanchat_ui::state::ApplicationState;
use lanchat_ui::style::{Color, Style, StyledRun};

fn chars(text: &str) -> Vec<char> {
    text.chars().collect()
}

fn draft(text: &str, cursor: usize) -> ApplicationState {
    let mut state = ApplicationState::new();
    state.input = chars(text);
    state.input_cursor = cursor;
    state
}

#[test]
fn text_is_broken_at_the_width() {
    assert_eq!(split_each(&chars("hello world!"), 10), vec!["hello worl", "d!"]);
    assert_eq!(split_each(&chars("abcdef"), 2), vec!["ab", "cd", "ef"]);
    assert_eq!(split_each(&chars("abcdefg"), 3), vec!["abc", "def", "g"]);
    assert_eq!(split_each(&chars("abc"), 1), vec!["a", "b", "c"]);
}

#[test]
fn short_text_is_one_line() {
    assert_eq!(split_each(&chars("hi"), 10), vec!["hi"]);
    assert_eq!(split_each(&chars("0123456789"), 10), vec!["0123456789"]);
    assert_eq!(split_each(&chars("x"), usize::MAX), vec!["x"]);
}

#[test]
fn empty_text_has_no_line() {
    assert_eq!(split_each(&[], 10), Vec::<String>::new());
    assert_eq!(split_each(&[], 0), Vec::<String>::new());
}

#[test]
fn no_width_gives_no_line() {
    assert_eq!(split_each(&chars("hello"), 0), Vec::<String>::new());
}

#[test]
fn lines_break_between_characters_not_bytes() {
    assert_eq!(split_each(&chars("żółw idzie"), 4), vec!["żółw", " idz", "ie"]);
}

#[test]
fn lines_joined_again_are_the_text() {
    for text in ["", "a", "hello world!", "0123456789", "żółw idzie do domu", "    "] {
        for width in 1usize..=12 {
            let rows = split_each(&chars(text), width);
            assert_eq!(rows.concat(), text);
            assert_eq!(rows.len(), (text.chars().count() + width - 1) / width);
            for row in &rows[..rows.len().saturating_sub(1)] {
                assert_eq!(row.chars().count(), width);
            }
        }
    }
}

#[test]
fn cursor_at_the_start_is_at_the_origin() {
    assert_eq!(ui_input_cursor(0, 10), (0, 0));
    assert_eq!(ui_input_cursor(0, 1), (0, 0));
    assert_eq!(ui_input_cursor(0, 0), (0, 0));
}

#[test]
fn cursor_behind_a_full_line_starts_a_new_line() {
    assert_eq!(ui_input_cursor(10, 10), (0, 1));
    assert_eq!(ui_input_cursor(30, 10), (0, 3));
    assert_eq!(ui_input_cursor(9, 10), (9, 0));
    let text = chars("0123456789abcdefghij");
    assert_eq!(ui_input_cursor(text.len(), 10), (0, split_each(&text, 10).len()));
}

#[test]
fn cursor_in_the_second_line() {
    assert_eq!(ui_input_cursor(12, 10), (2, 1));
}

#[test]
fn cursor_without_a_width_stays_at_the_origin() {
    assert_eq!(ui_input_cursor(7, 0), (0, 0));
}

#[test]
fn cursor_stands_on_the_character_of_its_offset() {
    let text = chars("hello world, how are you?");
    for width in 1usize..=30 {
        let rows = split_each(&text, width);
        for offset in 0..text.len() {
            let (col, row) = ui_input_cursor(offset, width);
            assert_eq!(rows[row].chars().nth(col), Some(text[offset]));
        }
    }
}

#[test]
fn cursor_is_placed_inside_the_border() {
    let state = draft("hello world!", 12);
    let area = Rect { x: 5, y: 7, width: 12, height: 6 };
    assert_eq!(input_cursor_position(&state, area), (5 + 1 + 2, 7 + 1 + 1));
    let origin = Rect { x: 0, y: 18, width: 12, height: 6 };
    assert_eq!(input_cursor_position(&state, origin), (3, 20));
    assert_eq!(input_cursor_position(&draft("", 0), origin), (1, 19));
}

#[test]
fn cursor_in_a_panel_without_room_stays_at_its_corner() {
    let state = draft("hello", 3);
    assert_eq!(input_cursor_position(&state, Rect { x: 4, y: 9, width: 2, height: 6 }), (5, 10));
    assert_eq!(input_cursor_position(&state, Rect { x: 4, y: 9, width: 1, height: 6 }), (5, 10));
    assert_eq!(input_cursor_position(&state, Rect { x: 4, y: 9, width: 0, height: 6 }), (5, 10));
}

#[test]
fn cursor_stops_at_the_edge_of_the_grid() {
    let state = draft("", 1_000_000);
    let area = Rect { x: 0, y: 10, width: 12, height: 6 };
    assert_eq!(input_cursor_position(&state, area), (1, 65535));
    let far = Rect { x: 65535, y: 65530, width: 12, height: 6 };
    assert_eq!(input_cursor_position(&draft("", 35), far), (65535, 65534));
    assert_eq!(input_cursor_position(&draft("", 45), far), (65535, 65535));
    assert_eq!(input_cursor_position(&draft("", usize::MAX), far), (65535, 65535));
}

#[test]
fn input_panel_shows_the_draft_in_lines_of_its_width() {
    assert_eq!(BORDER_COLUMNS, 2);
    let area = Rect { x: 0, y: 18, width: 12, height: 6 };
    let panel = input_panel(&draft("hello world!", 12), area);
    assert_eq!(panel.area, area);
    assert_eq!(panel.lines.len(), 2);
    let plain = Style { fg: None, bold: false };
    let first = StyledRun { text: "hello worl".to_string(), style: plain };
    let second = StyledRun { text: "d!".to_string(), style: plain };
    assert_eq!(panel.lines[0].runs, vec![first]);
    assert_eq!(panel.lines[1].runs, vec![second]);
}

#[test]
fn input_panel_is_titled_and_not_scrolled() {
    let panel = input_panel(&draft("hi", 2), Rect { x: 0, y: 18, width: 80, height: 6 });
    assert_eq!(
        panel.title,
        StyledRun { text: "Your message".to_string(), style: Style { fg: None, bold: true } }
    );
    assert_eq!(panel.style, Style { fg: Some(Color::White), bold: false });
    assert!(!panel.wrap);
    assert_eq!((panel.scroll_rows, panel.scroll_columns), (0, 0));
}

#[test]
fn input_panel_without_room_shows_no_line() {
    for width in [0u16, 1, 2] {
        let panel = input_panel(&draft("hello", 5), Rect { x: 0, y: 0, width, height: 6 });
        assert!(panel.lines.is_empty());
    }
    let panel = input_panel(&draft("hello", 5), Rect { x: 0, y: 0, width: 3, height: 6 });
    assert_eq!(panel.lines.len(), 5);
}

#[test]
fn empty_draft_shows_no_line() {
    let panel = input_panel(&draft("", 0), Rect { x: 0, y: 18, width: 80, height: 6 });
    assert!(panel.lines.is_empty());
}
