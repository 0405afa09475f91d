//! The screen layout: header, two path bars, two panes, the status line
//! and the bottom bar.

use vstd::prelude::*;
use super::dialog::Rect;

verus! {

/// The smallest terminal the layout is meant for.
pub const MIN_WIDTH: u16 = 60;

/// The smallest terminal height the layout is meant for.
pub const MIN_HEIGHT: u16 = 10;

/// The narrowest a pane gets where the terminal allows.
pub const MIN_PANE_WIDTH: u16 = 20;

/// A rectangle whose size is cut so that it ends within `u16`.
pub open spec fn clipped(x: u16, y: u16, width: u16, height: u16) -> Rect {
    Rect {
        x,
        y,
        width: if width > u16::MAX - x { (u16::MAX - x) as u16 } else { width },
        height: if height > u16::MAX - y { (u16::MAX - y) as u16 } else { height },
    }
}

impl Rect {
    /// A rectangle, its size cut so that it ends within `u16` (as
    /// `ratatui::layout::Rect::new` does).
    pub fn new(x: u16, y: u16, width: u16, height: u16) -> (r: Rect)
        ensures
            r == clipped(x, y, width, height),
    {
        let max_width = u16::MAX - x;
        let max_height = u16::MAX - y;
        Rect {
            x,
            y,
            width: if width > max_width { max_width } else { width },
            height: if height > max_height { max_height } else { height },
        }
    }
}

/// The areas of the screen.
#[derive(Debug, Clone, Copy, PartialEq, Eq, Structural)]
pub struct AppLayout {
    pub header: Rect,
    pub left_path: Rect,
    pub right_path: Rect,
    pub left_pane: Rect,
    pub right_pane: Rect,
    pub statusbar: Rect,
    pub bottom_bar: Rect,
}

/// `a - b`, or 0 when `b` is larger.
pub open spec fn sat16(a: u16, b: u16) -> u16 {
    if a >= b {
        (a - b) as u16
    } else {
        0
    }
}

/// Where the panes meet: the wanted column, kept so that each pane is at
/// least `MIN_PANE_WIDTH` wide where the width allows (the right pane first).
pub open spec fn border_of(width: u16, wanted: u16) -> u16 {
    let max_border = sat16(width, MIN_PANE_WIDTH);
    let min_border = if MIN_PANE_WIDTH < max_border { MIN_PANE_WIDTH } else { max_border };
    if wanted < min_border {
        min_border
    } else if wanted > max_border {
        max_border
    } else {
        wanted
    }
}

/// The layout of `area` with the panes meeting at `border_of(width, wanted)`.
pub open spec fn layout_of(area: Rect, wanted: u16) -> AppLayout {
    let w = area.width;
    let h = area.height;
    let b = border_of(w, wanted);
    let right_width = sat16(w, b);
    let pane_height = sat16(h, 4);
    AppLayout {
        header: clipped(area.x, area.y, w, 1),
        left_path: clipped(area.x, (area.y + 1) as u16, b, 1),
        right_path: clipped((area.x + b) as u16, (area.y + 1) as u16, right_width, 1),
        left_pane: clipped(area.x, (area.y + 2) as u16, b, pane_height),
        right_pane: clipped((area.x + b) as u16, (area.y + 2) as u16, right_width, pane_height),
        statusbar: clipped(area.x, sat16(h, 2), w, 1),
        bottom_bar: clipped(area.x, sat16(h, 1), w, 1),
    }
}

impl AppLayout {
    /// Lays out the screen; `wanted` is the column where the panes should
    /// meet (the width times the pane ratio, rounded down).
    pub fn calculate(area: Rect, wanted: u16) -> (l: AppLayout)
        requires
            area.x + area.width <= u16::MAX,
            area.y + 2 <= u16::MAX,
        ensures
            l == layout_of(area, wanted),
    {
        let w = area.width;
        let h = area.height;
        let max_border = w.saturating_sub(MIN_PANE_WIDTH);
        let min_border = if MIN_PANE_WIDTH < max_border { MIN_PANE_WIDTH } else { max_border };
        let border_x = if wanted < min_border {
            min_border
        } else if wanted > max_border {
            max_border
        } else {
            wanted
        };
        let right_width = w.saturating_sub(border_x);
        let pane_height = h.saturating_sub(4);
        AppLayout {
            header: Rect::new(area.x, area.y, w, 1),
            left_path: Rect::new(area.x, area.y + 1, border_x, 1),
            right_path: Rect::new(area.x + border_x, area.y + 1, right_width, 1),
            left_pane: Rect::new(area.x, area.y + 2, border_x, pane_height),
            right_pane: Rect::new(area.x + border_x, area.y + 2, right_width, pane_height),
            statusbar: Rect::new(area.x, h.saturating_sub(2), w, 1),
            bottom_bar: Rect::new(area.x, h.saturating_sub(1), w, 1),
        }
    }

    /// The rows a pane shows.
    pub fn pane_visible_rows(&self) -> (r: usize)
        ensures
            r == self.left_pane.height,
    {
        self.left_pane.height as usize
    }

    /// The column where the panes meet.
    pub fn border_x(&self) -> (r: u16)
        ensures
            r == self.left_pane.width,
    {
        self.left_pane.width
    }
}


/// On a terminal at least twice the minimum pane width wide, both panes
/// are at least that wide and together fill the width.
pub proof fn lemma_panes_keep_min_width(area: Rect, wanted: u16)
    requires
        area.x + area.width <= u16::MAX,
        area.y + 2 <= u16::MAX,
        area.width >= 2 * MIN_PANE_WIDTH,
    ensures
        layout_of(area, wanted).left_pane.width >= MIN_PANE_WIDTH,
        layout_of(area, wanted).right_pane.width >= MIN_PANE_WIDTH,
        layout_of(area, wanted).left_pane.width + layout_of(area, wanted).right_pane.width == area.width,
{
}

/// Whatever the terminal's size, even zero, the panes meet within it and
/// neither pane reaches past its right edge.
pub proof fn lemma_border_within(area: Rect, wanted: u16)
    requires
        area.x + area.width <= u16::MAX,
        area.y + 2 <= u16::MAX,
    ensures
        border_of(area.width, wanted) <= area.width,
        layout_of(area, wanted).left_pane.width <= area.width,
        layout_of(area, wanted).right_pane.x + layout_of(area, wanted).right_pane.width <= area.x
            + area.width,
{
}

} // verus!
