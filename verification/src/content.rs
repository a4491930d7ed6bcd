//! Splits the text of a chat message into styled runs, marking inline commands.

use vstd::prelude::*;
use vstd::string::*;
use crate::style::{
    lemma_empty_line_text, lemma_line_text_push, line_text, run_views, Color, RunView, Style,
    StyledRun,
};

verus! {

/// The command that announces a file transfer.
pub const SEND_COMMAND: &'static str = "?send";

/// The characters of `SEND_COMMAND`.
pub open spec fn send_command() -> Seq<char> {
    seq!['?', 's', 'e', 'n', 'd']
}

/// The runs of a message's text: a leading command in the highlight colour and
/// the rest plain, or the whole text plain where it starts with no command.
pub open spec fn parsed(content: Seq<char>) -> Seq<RunView> {
    if send_command().is_prefix_of(content) {
        seq![
            RunView { text: send_command(), style: Style::colored(Color::LightYellow) },
            RunView { text: content.skip(send_command().len() as int), style: Style::plain() },
        ]
    } else {
        seq![RunView { text: content, style: Style::plain() }]
    }
}

/// The runs of a text hold the text: their characters, one run after the
/// other, are the characters of the text.
pub proof fn lemma_runs_hold_the_text(content: Seq<char>)
    ensures
        line_text(parsed(content)) == content,
{
    let none = Seq::<RunView>::empty();
    lemma_empty_line_text();
    if send_command().is_prefix_of(content) {
        let command = RunView {
            text: send_command(),
            style: Style::colored(Color::LightYellow),
        };
        let behind = content.skip(send_command().len() as int);
        let rest = RunView { text: behind, style: Style::plain() };
        assert(parsed(content) =~= none.push(command).push(rest));
        lemma_line_text_push(none, command);
        lemma_line_text_push(none.push(command), rest);
    } else {
        let all = RunView { text: content, style: Style::plain() };
        lemma_line_text_push(none, all);
    }
}

/// Whether `text` begins with the characters of `token`.
pub fn starts_with(text: &str, token: &str) -> (found: bool)
    ensures
        found == token@.is_prefix_of(text@),
{
    let text_len = text.unicode_len();
    let token_len = token.unicode_len();
    if text_len < token_len {
        return false;
    }
    let mut i: usize = 0;
    while i < token_len
        invariant
            i <= token_len <= text_len,
            token_len == token@.len(),
            text_len == text@.len(),
            forall|j: int| 0 <= j < i ==> text@[j] == token@[j],
        decreases token_len - i,
    {
        if text.get_char(i) != token.get_char(i) {
            return false;
        }
        i += 1;
    }
    true
}

/// Splits `content` into its runs.
///
/// A text that starts with `SEND_COMMAND` gives two runs, the command in the
/// highlight colour and what follows it; any other text gives itself as one plain run.
pub fn parse_content(content: &str) -> (runs: Vec<StyledRun>)
    ensures
        run_views(runs@) == parsed(content@),
        !send_command().is_prefix_of(content@) ==> runs@.len() == 1 && runs@[0].text@ == content@
            && runs@[0].style == Style::plain(),
        send_command().is_prefix_of(content@) ==> runs@.len() == 2 && runs@[0].text@
            == send_command() && runs@[0].style == Style::colored(Color::LightYellow)
            && runs@[1].text@ == content@.skip(send_command().len() as int) && runs@[1].style
            == Style::plain(),
{
    proof {
        reveal_strlit("?send");
    }
    let mut runs: Vec<StyledRun> = Vec::new();
    if starts_with(content, SEND_COMMAND) {
        let rest = content.substring_char(SEND_COMMAND.unicode_len(), content.unicode_len());
        runs.push(
            StyledRun::styled(String::from_str(SEND_COMMAND), Style::colored(Color::LightYellow)),
        );
        runs.push(StyledRun::raw(String::from_str(rest)));
    } else {
        runs.push(StyledRun::raw(String::from_str(content)));
    }
    runs
}

} // verus!
