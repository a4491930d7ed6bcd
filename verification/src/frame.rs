//! One frame of the interface: the transcript panel, the input panel below
//! it, and the place of the cursor.

use vstd::prelude::*;
use crate::input::{cursor_position, draft_panel, input_cursor_position, input_panel};
use crate::layout::{frame_rows, split_frame, Rect};
use crate::panel::{Panel, PanelView};
use crate::state::{ApplicationState, StateView};
use crate::transcript::{messages_panel, transcript_panel};

verus! {

/// A frame, as contracts speak of it.
pub struct ScreenView {
    pub messages: PanelView,
    pub input: PanelView,
    pub cursor: (u16, u16),
}

/// All that is drawn in one frame.
#[derive(Debug, PartialEq, Eq)]
pub struct Screen {
    /// The transcript panel.
    pub messages: Panel,
    /// The input panel.
    pub input: Panel,
    /// The column and the row of the screen at which the cursor is shown.
    pub cursor: (u16, u16),
}

impl View for Screen {
    type V = ScreenView;

    open spec fn view(&self) -> ScreenView {
        ScreenView { messages: self.messages@, input: self.input@, cursor: self.cursor }
    }
}

/// The frame that `state` gives when the transcript panel is drawn in `top`
/// and the input panel in `bottom`.
pub open spec fn screen_in(state: StateView, top: Rect, bottom: Rect) -> ScreenView {
    ScreenView {
        messages: transcript_panel(state, top),
        input: draft_panel(state, bottom),
        cursor: cursor_position(bottom, state.input_cursor),
    }
}

/// The frame that `state` gives on a screen of the given area.
pub open spec fn screen_of(state: StateView, area: Rect) -> ScreenView {
    let rows = frame_rows(area);
    screen_in(state, rows.0, rows.1)
}

/// Composes the frame for a screen that is already divided: the transcript
/// panel goes to `top`, the input panel with the cursor to `bottom`.
pub fn compose_in(state: &ApplicationState, top: Rect, bottom: Rect) -> (screen: Screen)
    ensures
        screen@ == screen_in(state@, top, bottom),
{
    let messages = messages_panel(state, top);
    let input = input_panel(state, bottom);
    let cursor = input_cursor_position(state, bottom);
    Screen { messages, input, cursor }
}

/// Composes the frame for a screen of the given area: divides the area into
/// the transcript area and the input area below it, and fills both.
pub fn compose_frame(state: &ApplicationState, area: Rect) -> (screen: Screen)
    ensures
        screen@ == screen_of(state@, area),
{
    let (top, bottom) = split_frame(area);
    compose_in(state, top, bottom)
}

} // verus!
