//! The render surface: what one cycle shows and how.
//!
//! The library does not touch the terminal. It computes the panel geometry
//! once at startup and, each cycle, a render plan — in plain mode the line
//! of text to print, in interactive mode the exact sequence of drawing
//! operations — and a terminal backend replays the plan on the raw
//! primitives (clear, border, write, move, refresh).

use crate::command::ExecResult;
use crate::command::status_text;
use vstd::prelude::*;

verus! {

/// One of the drawing surfaces of the interactive panel.
#[derive(Clone, Copy, Debug, PartialEq, Eq)]
pub enum Surface {
    /// The whole terminal screen.
    Screen,
    /// The outer bordered frame.
    Outer,
    /// The inner content area, nested inside the outer frame.
    Inner,
}

/// One drawing operation of the panel backend's minimal operation set.
#[derive(Debug)]
pub enum DrawOp {
    /// Erase the surface.
    Clear(Surface),
    /// Draw a border around the surface out of the given glyphs: the two
    /// sides, the top and bottom edges, and the four corners.
    Border { target: Surface, ls: char, rs: char, ts: char, bs: char, tl: char, tr: char, bl: char, br: char },
    /// Write the text at the surface's current cursor.
    Write(Surface, String),
    /// Move the screen cursor to the given row and column.
    MoveTo(i32, i32),
    /// Flush the composed frame to the physical terminal.
    Refresh,
}

/// Placement of one rectangular region: its size and its top-left corner,
/// in screen coordinates.
#[derive(Clone, Copy, Debug, PartialEq, Eq)]
pub struct Rect {
    pub lines: i32,
    pub cols: i32,
    pub top: i32,
    pub left: i32,
}

/// The two nested regions of the interactive panel, computed once from the
/// terminal's dimensions at startup and never re-queried.
#[derive(Clone, Copy, Debug, PartialEq, Eq)]
pub struct FrameGeometry {
    /// The bordered frame: five lines above the bottom of the screen are
    /// left free for the decorative figure.
    pub outer: Rect,
    /// The content area: one cell inside the outer frame on every side.
    pub inner: Rect,
    /// The full screen height the geometry was computed from; the figure
    /// is anchored five lines above its bottom.
    pub screen_lines: i32,
}

impl FrameGeometry {
    /// The shape that `frame_geometry` gives every geometry: the outer
    /// frame spans the screen except the five figure lines at the bottom,
    /// the inner area sits one cell inside it, and both are non-empty.
    pub open spec fn wf(&self) -> bool {
        &&& self.screen_lines >= 8
        &&& self.outer.cols >= 3
        &&& self.outer.lines == self.screen_lines - 5
        &&& self.outer.top == 0
        &&& self.outer.left == 0
        &&& self.inner.lines == self.screen_lines - 7
        &&& self.inner.cols == self.outer.cols - 2
        &&& self.inner.top == 1
        &&& self.inner.left == 1
    }
}

/// Compute the panel geometry for a terminal of the given size. A terminal
/// too small to hold the frame and one content cell yields no geometry.
pub fn frame_geometry(lines: i32, cols: i32) -> (r: Option<FrameGeometry>)
    ensures
        r is Some <==> lines >= 8 && cols >= 3,
        r matches Some(g) ==> g.wf(),
        r matches Some(g) ==> g == (FrameGeometry {
            outer: Rect { lines: (lines - 5) as i32, cols: cols, top: 0, left: 0 },
            inner: Rect { lines: (lines - 7) as i32, cols: (cols - 2) as i32, top: 1, left: 1 },
            screen_lines: lines,
        }),
{
    if lines >= 8 && cols >= 3 {
        Some(FrameGeometry {
            outer: Rect { lines: lines - 5, cols, top: 0, left: 0 },
            inner: Rect { lines: lines - 7, cols: cols - 2, top: 1, left: 1 },
            screen_lines: lines,
        })
    } else {
        None
    }
}

/// The fixed decorative figure, drawn identically every cycle, anchored
/// five lines above the bottom of the screen.
pub open spec fn figure_line_text(i: int) -> Seq<char> {
    if i == 0 {
        "       \\\n"@
    } else if i == 1 {
        "         _~^~^~_\n"@
    } else if i == 2 {
        "     \\) /  o o  \\ (/\n"@
    } else if i == 3 {
        "       '_   -   _'\n"@
    } else {
        "       / '-----' \\\n"@
    }
}

/// How many lines the decorative figure has.
pub open spec fn figure_line_count() -> int {
    5
}

/// Whether `ops` is exactly the interactive frame of one cycle: clear the
/// screen and the outer frame, draw the fixed border, clear the inner area,
/// write the status line, a blank line and the captured text into it, then
/// the decorative figure five lines above the bottom of the screen, and
/// flush.
pub open spec fn is_panel_plan(
    ops: Seq<DrawOp>,
    screen_lines: int,
    status: Seq<char>,
    text: Seq<char>,
) -> bool {
    &&& ops.len() == 14
    &&& ops[0] matches DrawOp::Clear(s) && s == Surface::Screen
    &&& ops[1] matches DrawOp::Clear(s) && s == Surface::Outer
    &&& ops[2] matches DrawOp::Border { target, ls, rs, ts, bs, tl, tr, bl, br }
        && target == Surface::Outer
        && ls == '|' && rs == '|' && ts == '-' && bs == '-'
        && tl == '/' && tr == '\\' && bl == '\\' && br == '/'
    &&& ops[3] matches DrawOp::Clear(s) && s == Surface::Inner
    &&& ops[4] matches DrawOp::Write(s, t) && s == Surface::Inner && t@ == status
    &&& ops[5] matches DrawOp::Write(s, t) && s == Surface::Inner && t@ == "\n\n"@
    &&& ops[6] matches DrawOp::Write(s, t) && s == Surface::Inner && t@ == text
    &&& ops[7] matches DrawOp::MoveTo(row, col) && row == screen_lines - 5 && col == 0
    &&& forall|i: int| 0 <= i < figure_line_count() ==>
        (ops[8 + i] matches DrawOp::Write(s, t) && s == Surface::Screen
            && t@ == #[trigger] figure_line_text(i))
    &&& ops[13] is Refresh
}

/// How the latest result is presented: selected once at startup and fixed
/// for the life of the process.
#[derive(Clone, Copy, Debug)]
pub enum RenderMode {
    /// Headless: one line of plain text to standard output per cycle.
    Plain,
    /// Full-screen bordered panel with the geometry fixed at startup.
    Interactive(FrameGeometry),
}

/// What the backend is to do with the latest result.
#[derive(Debug)]
pub enum RenderPlan {
    /// Print this text, followed by a newline, to standard output.
    PlainText(String),
    /// Replay these operations on the terminal in order.
    Panel(Vec<DrawOp>),
}

/// The presentation of one cycle's result: in plain mode the decoded text
/// itself, in interactive mode the full panel frame.
pub fn render_plan(mode: &RenderMode, result: &ExecResult) -> (r: RenderPlan)
    requires
        mode matches RenderMode::Interactive(g) ==> g.wf(),
    ensures
        mode is Plain ==> (r matches RenderPlan::PlainText(t) && t@ == result.text@),
        mode matches RenderMode::Interactive(g) ==> (r matches RenderPlan::Panel(ops)
            && is_panel_plan(ops@, g.screen_lines as int, status_text(result.code), result.text@)),
{
    match mode {
        RenderMode::Plain => RenderPlan::PlainText(result.text.clone()),
        RenderMode::Interactive(g) => {
            let mut ops: Vec<DrawOp> = Vec::new();
            ops.push(DrawOp::Clear(Surface::Screen));
            ops.push(DrawOp::Clear(Surface::Outer));
            ops.push(DrawOp::Border {
                target: Surface::Outer,
                ls: '|', rs: '|', ts: '-', bs: '-',
                tl: '/', tr: '\\', bl: '\\', br: '/',
            });
            ops.push(DrawOp::Clear(Surface::Inner));
            ops.push(DrawOp::Write(Surface::Inner, result.status_line()));
            ops.push(DrawOp::Write(Surface::Inner, String::from_str("\n\n")));
            ops.push(DrawOp::Write(Surface::Inner, result.text.clone()));
            ops.push(DrawOp::MoveTo(g.screen_lines - 5, 0));
            ops.push(DrawOp::Write(Surface::Screen, String::from_str("       \\\n")));
            ops.push(DrawOp::Write(Surface::Screen, String::from_str("         _~^~^~_\n")));
            ops.push(DrawOp::Write(Surface::Screen, String::from_str("     \\) /  o o  \\ (/\n")));
            ops.push(DrawOp::Write(Surface::Screen, String::from_str("       '_   -   _'\n")));
            ops.push(DrawOp::Write(Surface::Screen, String::from_str("       / '-----' \\\n")));
            ops.push(DrawOp::Refresh);
            RenderPlan::Panel(ops)
        },
    }
}

} // verus!
