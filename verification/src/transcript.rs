//! The transcript panel: one styled line per chat entry, newest first, under
//! the progress bar of a file transfer where one is under way.

use vstd::prelude::*;
use vstd::string::*;
use crate::content::{lemma_runs_hold_the_text, parse_content, parsed};
use crate::layout::Rect;
use crate::panel::{Panel, PanelView};
use crate::state::{
    lemma_unseen_user_has_no_index, table_after, ApplicationState, ChatEntry, EntryView, KindView,
    MessageKind, Severity, StateView, TimeView, Timestamp, UserColorTable,
};
use crate::style::{
    lemma_empty_line_text, lemma_line_text_concat, lemma_line_text_push, line_text, line_views,
    run_views, Color, RunView, Style, StyledLine, StyledRun,
};
use crate::text::{push_repeated, push_two_digits, repeated, two_digits};

verus! {

/// The number of colours that remote users are told apart by.
pub const PALETTE_SIZE: usize = 4;

/// Columns of the transcript panel that the progress bar leaves free.
pub const PROGRESS_MARGIN: u16 = 20;

/// The colour of a remote user with the given index.
pub open spec fn palette(index: nat) -> Color {
    let slot = index % (PALETTE_SIZE as nat);
    if slot == 0 {
        Color::Blue
    } else if slot == 1 {
        Color::Yellow
    } else if slot == 2 {
        Color::Cyan
    } else {
        Color::Magenta
    }
}

/// The colour of a remote user with the given index.
pub fn palette_color(index: usize) -> (color: Color)
    ensures
        color == palette(index as nat),
{
    let slot = index % PALETTE_SIZE;
    if slot == 0 {
        Color::Blue
    } else if slot == 1 {
        Color::Yellow
    } else if slot == 2 {
        Color::Cyan
    } else {
        Color::Magenta
    }
}

/// The colour in which `user` is drawn: the palette colour of the user's index,
/// or green for a user without an index, which the local user is.
pub open spec fn user_color(users: Map<Seq<char>, usize>, user: Seq<char>) -> Color {
    if users.contains_key(user) {
        palette(users[user] as nat)
    } else {
        Color::Green
    }
}

/// The colour in which `user` is drawn.
pub fn message_color(users: &UserColorTable, user: &str) -> (color: Color)
    ensures
        color == user_color(users@, user@),
        !users@.contains_key(user@) ==> color == Color::Green,
{
    match users.get(user) {
        Some(index) => palette_color(index),
        None => Color::Green,
    }
}

/// The colour of a user depends on nothing but the users seen before: two
/// tables that saw the same users in the same order give every user the same
/// colour, and a user that was never seen is green in both.
pub proof fn lemma_same_history_same_color(
    history: Seq<Seq<char>>,
    first: UserColorTable,
    second: UserColorTable,
    user: Seq<char>,
)
    requires
        first@ == table_after(history).0,
        second@ == table_after(history).0,
    ensures
        user_color(first@, user) == user_color(second@, user),
        !history.contains(user) ==> user_color(first@, user) == Color::Green,
{
    if !history.contains(user) {
        lemma_unseen_user_has_no_index(history, user);
    }
}

/// The text of a time of day: hours, minutes and seconds, two digits each,
/// with colons between them and a space behind.
pub open spec fn time_text(time: TimeView) -> Seq<char> {
    two_digits(time.hour) + seq![':'] + two_digits(time.minute) + seq![':'] + two_digits(
        time.second,
    ) + seq![' ']
}

/// The text of a time of day, as in `12:03:59 `.
pub fn format_time(time: &Timestamp) -> (text: String)
    ensures
        text@ == time_text(time@),
{
    let mut text = String::new();
    push_two_digits(&mut text, time.hour());
    text.push(':');
    push_two_digits(&mut text, time.minute());
    text.push(':');
    push_two_digits(&mut text, time.second());
    text.push(' ');
    text
}

/// The colour of the name under which a notice of the given severity stands.
pub open spec fn notice_accent(severity: Severity) -> Color {
    match severity {
        Severity::Info => Color::Yellow,
        Severity::Error => Color::Red,
    }
}

/// The colour of the text of a notice of the given severity.
pub open spec fn notice_body(severity: Severity) -> Color {
    match severity {
        Severity::Info => Color::LightYellow,
        Severity::Error => Color::LightRed,
    }
}

/// The run that holds `text` in `color`.
pub open spec fn colored_run(text: Seq<char>, color: Color) -> RunView {
    RunView { text, style: Style::colored(color) }
}

/// The display line of a chat entry: the time in dark gray, the user's name,
/// and what the entry reports.
pub open spec fn formatted(entry: EntryView, users: Map<Seq<char>, usize>) -> Seq<RunView> {
    let time = colored_run(time_text(entry.time), Color::DarkGray);
    let color = user_color(users, entry.user);
    match entry.kind {
        KindView::Connection => seq![
            time,
            colored_run(entry.user, color),
            colored_run(" is online"@, color),
        ],
        KindView::Disconnection => seq![
            time,
            colored_run(entry.user, color),
            colored_run(" is offline"@, color),
        ],
        KindView::Content(text) => seq![
            time,
            colored_run(entry.user, color),
            colored_run(": "@, color),
        ] + parsed(text),
        KindView::SystemNotice(text, severity) => seq![
            time,
            colored_run(entry.user, notice_accent(severity)),
            colored_run(text, notice_body(severity)),
        ],
    }
}

/// What a display line says behind the time and the user's name.
pub open spec fn report(kind: KindView) -> Seq<char> {
    match kind {
        KindView::Connection => " is online"@,
        KindView::Disconnection => " is offline"@,
        KindView::Content(text) => ": "@ + text,
        KindView::SystemNotice(text, severity) => text,
    }
}

/// The display line of an entry reads as the time, the user's name and what
/// the entry reports, whatever the colours of its runs.
pub proof fn lemma_formatted_text(entry: EntryView, users: Map<Seq<char>, usize>)
    ensures
        line_text(formatted(entry, users)) == time_text(entry.time) + entry.user + report(
            entry.kind,
        ),
{
    let none = Seq::<RunView>::empty();
    let line = formatted(entry, users);
    let time = line[0];
    let name = line[1];
    let third = line[2];
    let head = none.push(time).push(name).push(third);
    lemma_empty_line_text();
    lemma_line_text_push(none, time);
    lemma_line_text_push(none.push(time), name);
    lemma_line_text_push(none.push(time).push(name), third);
    match entry.kind {
        KindView::Content(text) => {
            assert(line =~= head + parsed(text));
            lemma_line_text_concat(head, parsed(text));
            lemma_runs_hold_the_text(text);
        },
        _ => {
            assert(line =~= head);
        },
    }
}

/// Formats one chat entry as a display line.
pub fn format_message(entry: &ChatEntry, users: &UserColorTable) -> (line: StyledLine)
    ensures
        line@ == formatted(entry@, users@),
{
    let color = message_color(users, entry.user.as_str());
    let mut runs: Vec<StyledRun> = Vec::new();
    runs.push(StyledRun::styled(format_time(&entry.timestamp), Style::colored(Color::DarkGray)));
    match &entry.kind {
        MessageKind::Connection => {
            runs.push(StyledRun::styled(entry.user.clone(), Style::colored(color)));
            runs.push(StyledRun::styled(String::from_str(" is online"), Style::colored(color)));
        },
        MessageKind::Disconnection => {
            runs.push(StyledRun::styled(entry.user.clone(), Style::colored(color)));
            runs.push(StyledRun::styled(String::from_str(" is offline"), Style::colored(color)));
        },
        MessageKind::Content(text) => {
            runs.push(StyledRun::styled(entry.user.clone(), Style::colored(color)));
            runs.push(StyledRun::styled(String::from_str(": "), Style::colored(color)));
            let mut body = parse_content(text.as_str());
            runs.append(&mut body);
        },
        MessageKind::SystemNotice(text, severity) => {
            let (accent, tone) = match severity {
                Severity::Info => (Color::Yellow, Color::LightYellow),
                Severity::Error => (Color::Red, Color::LightRed),
            };
            runs.push(StyledRun::styled(entry.user.clone(), Style::colored(accent)));
            runs.push(StyledRun::styled(text.clone(), Style::colored(tone)));
        },
    }
    StyledLine { runs }
}

/// The columns that the cells of the progress bar may take in a panel of the
/// given width: what `PROGRESS_MARGIN` leaves, and none in a narrower panel.
pub open spec fn bar_width(panel_width: u16) -> nat {
    if panel_width >= PROGRESS_MARGIN {
        (panel_width - PROGRESS_MARGIN) as nat
    } else {
        0
    }
}

/// The share of `width` cells that stands for `part` of `total`, rounded down.
/// A part larger than the total counts as the total, and of a total of zero
/// every share is empty.
pub open spec fn scaled(part: nat, total: nat, width: nat) -> nat {
    if total == 0 {
        0
    } else if part >= total {
        width
    } else {
        (part * width) / total
    }
}

/// The cells of the bar that stand for what has been sent.
pub open spec fn filled_cells(completed: nat, total: nat, width: nat) -> nat {
    scaled(completed, total, width)
}

/// The cells of the bar that stand for what is still to send.
pub open spec fn empty_cells(completed: nat, total: nat, width: nat) -> nat {
    if completed >= total {
        0
    } else {
        scaled((total - completed) as nat, total, width)
    }
}

/// The bar itself: the filled cells as `#`, the empty cells as `-`, in brackets.
pub open spec fn bar_text(filled: nat, empty: nat) -> Seq<char> {
    seq!['['] + repeated('#', filled) + repeated('-', empty) + seq![']']
}

/// The display line that shows the progress of a transfer in a panel of the given width.
pub open spec fn overlay(progress: (usize, usize), panel_width: u16) -> Seq<RunView> {
    let width = bar_width(panel_width);
    let completed = progress.0 as nat;
    let total = progress.1 as nat;
    seq![
        colored_run("Sending: "@, Color::LightGreen),
        colored_run(
            bar_text(filled_cells(completed, total, width), empty_cells(completed, total, width)),
            Color::LightGreen,
        ),
    ]
}

/// Of a transfer with something to send and no more sent than there is, the
/// filled and the empty cells together never take more than the bar's width,
/// and a finished transfer fills the bar.
pub proof fn lemma_bar_cells_fit(completed: nat, total: nat, width: nat)
    requires
        completed <= total,
        total > 0,
    ensures
        filled_cells(completed, total, width) + empty_cells(completed, total, width) <= width,
        completed == total ==> filled_cells(completed, total, width) == width,
{
    if completed < total {
        let rest = (total - completed) as nat;
        assert((completed * width) / total + (rest * width) / total <= width)
            by (nonlinear_arith)
            requires
                completed + rest == total,
                total > 0,
        ;
    }
}

/// The share of `width` cells that stands for `part` of `total`, rounded down.
pub fn scale(part: usize, total: usize, width: u16) -> (cells: usize)
    ensures
        cells == scaled(part as nat, total as nat, width as nat),
        cells <= width,
{
    if total == 0 {
        0
    } else if part >= total {
        width as usize
    } else {
        assert(part * width <= total * width) by (nonlinear_arith)
            requires
                part <= total,
                0 <= width,
        ;
        assert(total * width < 0x1_0000_0000_0000_0000 * 0x1_0000) by (nonlinear_arith)
            requires
                0 <= total < 0x1_0000_0000_0000_0000,
                0 <= width < 0x1_0000,
        ;
        let product: u128 = (part as u128) * (width as u128);
        let cells: u128 = product / (total as u128);
        assert(cells <= width) by (nonlinear_arith)
            requires
                cells == (part * width) / (total as int),
                part * width <= total * width,
                total > 0,
                0 <= part,
                0 <= width,
        ;
        cells as usize
    }
}

/// The display line that shows the progress of a transfer: `progress` holds
/// the parts sent and the parts in all.
pub fn progress_bar(panel_width: u16, progress: (usize, usize)) -> (line: StyledLine)
    ensures
        line@ == overlay(progress, panel_width),
{
    let (completed, total) = progress;
    let width: u16 = if panel_width >= PROGRESS_MARGIN {
        panel_width - PROGRESS_MARGIN
    } else {
        0
    };
    let filled = scale(completed, total, width);
    let empty = if completed >= total {
        0
    } else {
        scale(total - completed, total, width)
    };
    let mut bar = String::new();
    bar.push('[');
    push_repeated(&mut bar, '#', filled);
    push_repeated(&mut bar, '-', empty);
    bar.push(']');
    assert(bar@ =~= bar_text(filled as nat, empty as nat));
    let mut runs: Vec<StyledRun> = Vec::new();
    runs.push(StyledRun::styled(String::from_str("Sending: "), Style::colored(Color::LightGreen)));
    runs.push(StyledRun::styled(bar, Style::colored(Color::LightGreen)));
    StyledLine { runs }
}

/// Puts the progress bar of a transfer in front of the display lines.
pub fn add_progress_bar(messages: &mut Vec<StyledLine>, panel_width: u16, progress: (usize, usize))
    ensures
        line_views(final(messages)@) == seq![overlay(progress, panel_width)] + line_views(
            old(messages)@,
        ),
{
    let line = progress_bar(panel_width, progress);
    messages.insert(0, line);
}

/// The display lines of the chat log, the newest entry first.
pub open spec fn newest_first(messages: Seq<EntryView>, users: Map<Seq<char>, usize>) -> Seq<
    Seq<RunView>,
> {
    messages.map_values(|entry: EntryView| formatted(entry, users)).reverse()
}

/// The display lines of the transcript in a panel of the given width: the
/// progress bar, where a transfer is under way, then the chat log, newest first.
pub open spec fn transcript_lines(state: StateView, panel_width: u16) -> Seq<Seq<RunView>> {
    let log = newest_first(state.messages, state.users);
    match state.progress {
        Some(progress) => seq![overlay(progress, panel_width)] + log,
        None => log,
    }
}

/// The transcript that is not scrolled starts with its newest line: the
/// panel is scrolled by no line and no column, and its first line is the
/// progress bar where a transfer is under way, with the newest entry right
/// below it, and the newest entry where none is.
pub proof fn lemma_unscrolled_transcript_starts_with_newest(state: StateView, area: Rect)
    requires
        state.scroll == 0,
    ensures
        transcript_panel(state, area).scroll_rows == 0,
        transcript_panel(state, area).scroll_columns == 0,
        state.progress matches Some(progress) ==> transcript_panel(state, area).lines.len()
            == state.messages.len() + 1 && transcript_panel(state, area).lines[0] == overlay(
            progress,
            area.width,
        ),
        state.progress matches Some(progress) && state.messages.len() > 0 ==> transcript_panel(
            state,
            area,
        ).lines[1] == formatted(state.messages.last(), state.users),
        state.progress is None ==> transcript_panel(state, area).lines.len()
            == state.messages.len(),
        state.progress is None && state.messages.len() > 0 ==> transcript_panel(
            state,
            area,
        ).lines[0] == formatted(state.messages.last(), state.users),
{
}

/// The display lines by which the transcript is scrolled: the scroll offset,
/// as far as the terminal can count.
pub open spec fn scroll_rows(scroll: nat) -> u16 {
    if scroll <= u16::MAX {
        scroll as u16
    } else {
        u16::MAX
    }
}

/// The transcript panel that `state` gives in `area`.
pub open spec fn transcript_panel(state: StateView, area: Rect) -> PanelView {
    PanelView {
        area,
        title: RunView { text: "LAN Room"@, style: Style::bold() },
        lines: transcript_lines(state, area.width),
        style: Style::colored(Color::White),
        scroll_rows: scroll_rows(state.scroll),
        scroll_columns: 0,
        wrap: true,
    }
}

/// Builds the transcript panel for `area`.
///
/// Its lines are those of the chat log, newest first, below the progress bar
/// where a transfer is under way. It is scrolled by the state's scroll offset
/// and never sideways; lines too long for it are wrapped.
pub fn messages_panel(state: &ApplicationState, area: Rect) -> (panel: Panel)
    ensures
        panel@ == transcript_panel(state@, area),
{
    let ghost entries = state@.messages;
    let ghost users = state@.users;
    let count = state.messages.len();
    let mut lines: Vec<StyledLine> = Vec::new();
    let mut done: usize = 0;
    while done < count
        invariant
            done <= count,
            count == state.messages@.len(),
            entries == state@.messages,
            users == state@.users,
            lines@.len() == done,
            forall|i: int|
                0 <= i < done ==> (#[trigger] lines@[i])@ == formatted(
                    entries[count - 1 - i],
                    users,
                ),
        decreases count - done,
    {
        let line = format_message(&state.messages[count - 1 - done], &state.users_id);
        lines.push(line);
        done += 1;
    }
    match state.progress {
        Some(progress) => add_progress_bar(&mut lines, area.width, progress),
        None => {},
    }
    let scroll_rows: u16 = if state.scroll_messages_view <= 0xffff {
        state.scroll_messages_view as u16
    } else {
        u16::MAX
    };
    let panel = Panel {
        area,
        title: StyledRun::styled(String::from_str("LAN Room"), Style::bold()),
        lines,
        style: Style::colored(Color::White),
        scroll_rows,
        scroll_columns: 0,
        wrap: true,
    };
    assert(panel@.lines =~= transcript_lines(state@, area.width));
    panel
}

} // verus!
