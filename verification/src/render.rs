//! The renderer: a pure function from the frame dimensions and the
//! application state to a draw plan — the three stacked regions, the text
//! each shows, and the cursor position.

use vstd::prelude::*;
use crate::app::App;
use crate::app::Mode;
use crate::app::copy_chars;
use unicode_width::UnicodeWidthStr;

verus! {

/// A rectangular region of the terminal frame, in cells.
#[derive(Clone, Copy, PartialEq, Eq, Structural, Debug)]
pub struct Rect {
    pub x: u16,
    pub y: u16,
    pub width: u16,
    pub height: u16,
}

/// The three regions of the frame, top to bottom: the body that shows the
/// last submission, the one-row status bar, and the one-row input line.
#[derive(Clone, Copy, PartialEq, Eq, Structural, Debug)]
pub struct Regions {
    pub body: Rect,
    pub bar: Rect,
    pub input: Rect,
}

/// The vertical split of the frame: the status bar and the input line take
/// one row each from the bottom, the body keeps the rest. A frame too short
/// for all three loses first the input line, then the bar, so that the body
/// keeps at least one row whenever the frame has one.
pub open spec fn layout_spec(frame: Rect) -> Regions {
    let bar_h: u16 = if frame.height >= 2 {
        1u16
    } else {
        0u16
    };
    let input_h: u16 = if frame.height >= 3 {
        1u16
    } else {
        0u16
    };
    let body_h: u16 = (frame.height - bar_h - input_h) as u16;
    Regions {
        body: Rect { x: frame.x, y: frame.y, width: frame.width, height: body_h },
        bar: Rect {
            x: frame.x,
            y: (frame.y + body_h) as u16,
            width: frame.width,
            height: bar_h,
        },
        input: Rect {
            x: frame.x,
            y: (frame.y + body_h + bar_h) as u16,
            width: frame.width,
            height: input_h,
        },
    }
}

/// Split the frame into the three regions.
pub fn compute_layout(frame: Rect) -> (r: Regions)
    requires
        frame.y + frame.height <= u16::MAX,
    ensures
        r == layout_spec(frame),
{
    let bar_h: u16 = if frame.height >= 2 {
        1
    } else {
        0
    };
    let input_h: u16 = if frame.height >= 3 {
        1
    } else {
        0
    };
    let body_h: u16 = frame.height - bar_h - input_h;
    Regions {
        body: Rect { x: frame.x, y: frame.y, width: frame.width, height: body_h },
        bar: Rect { x: frame.x, y: frame.y + body_h, width: frame.width, height: bar_h },
        input: Rect {
            x: frame.x,
            y: frame.y + body_h + bar_h,
            width: frame.width,
            height: input_h,
        },
    }
}

/// The displayed width in columns of a sequence of characters, as
/// unicode_width measures it.
pub uninterp spec fn display_width(s: Seq<char>) -> nat;

/// Relies on unicode_width's `UnicodeWidthStr::width`: the displayed width in
/// columns, a function of the characters alone; an empty text has width 0.
#[verifier::external_body]
fn text_width(buf: &Vec<char>) -> (r: usize)
    ensures
        r as nat == display_width(buf@),
        buf@.len() == 0 ==> r == 0,
{
    let text: String = buf.iter().collect();
    text.as_str().width()
}

/// The column of the cursor: the input region's origin column plus the
/// displayed width of the buffer, capped at the largest cell coordinate.
pub open spec fn cursor_col_spec(x: u16, input: Seq<char>) -> int {
    if x + display_width(input) <= u16::MAX {
        x + display_width(input)
    } else {
        u16::MAX as int
    }
}

fn cursor_col(x: u16, buf: &Vec<char>) -> (col: u16)
    ensures
        col as int == cursor_col_spec(x, buf@),
{
    let w = text_width(buf);
    let room = u16::MAX - x;
    if w <= room as usize {
        x + (w as u16)
    } else {
        u16::MAX
    }
}

/// The left status-bar text: one space, then the mode's name.
pub open spec fn bar_left_text(m: Mode) -> Seq<char> {
    match m {
        Mode::Normal => " normal"@,
        Mode::Insert => " insert"@,
    }
}

/// The right status-bar text: a static placeholder.
pub open spec fn bar_right_text() -> Seq<char> {
    "<filled char> <bg char> <x> <y> "@
}

/// Everything one frame draws. The body shows its text left-aligned and
/// word-wrapped with each wrapped line trimmed; the left bar text is drawn
/// left-aligned and the right bar text right-aligned, both over the bar
/// region; the input line shows its text verbatim, left-aligned, unwrapped.
pub struct DrawPlan {
    pub regions: Regions,
    pub body_text: Vec<char>,
    pub bar_left: String,
    pub bar_right: String,
    pub input_text: Vec<char>,
    /// Cursor (column, row), present exactly in Insert mode.
    pub cursor: Option<(u16, u16)>,
}

/// Compute the draw plan of one frame: the three regions, the last submission
/// in the body, the mode name and the placeholder in the bar, the buffer in
/// the input line, and — in Insert mode only — the cursor at the input
/// region's origin column plus the displayed width of the buffer.
pub fn render_plan(frame: Rect, app: &App) -> (plan: DrawPlan)
    requires
        frame.y + frame.height <= u16::MAX,
    ensures
        plan.regions == layout_spec(frame),
        plan.body_text@ == app.submission@,
        plan.bar_left@ == bar_left_text(app.mode),
        plan.bar_right@ == bar_right_text(),
        plan.input_text@ == app.input_box@,
        app.mode == Mode::Insert ==> (plan.cursor matches Some(p) && p.0 as int == cursor_col_spec(
            layout_spec(frame).input.x,
            app.input_box@,
        ) && p.1 == layout_spec(frame).input.y),
        app.mode == Mode::Normal ==> plan.cursor is None,
{
    let regions = compute_layout(frame);
    let cursor = match app.mode {
        Mode::Normal => None,
        Mode::Insert => Some((cursor_col(regions.input.x, &app.input_box), regions.input.y)),
    };
    let bar_left = match app.mode {
        Mode::Normal => " normal".to_owned(),
        Mode::Insert => " insert".to_owned(),
    };
    DrawPlan {
        regions,
        body_text: copy_chars(&app.submission),
        bar_left,
        bar_right: "<filled char> <bg char> <x> <y> ".to_owned(),
        input_text: copy_chars(&app.input_box),
        cursor,
    }
}

} // verus!
