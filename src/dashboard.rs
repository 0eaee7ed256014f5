//! Input handling of the terminal dashboard: scrolling the log pane, the
//! exit button, and hit tests on screen areas.

use vstd::prelude::*;

verus! {

/// Scroll offset that keeps the log pane stuck to its newest line.
pub const STICK_TO_BOTTOM: u16 = u16::MAX;

/// A rectangle of terminal cells.
#[derive(Clone, Copy, Debug, PartialEq, Eq, Structural)]
pub struct Area {
    pub x: u16,
    pub y: u16,
    pub width: u16,
    pub height: u16,
}

/// The cell `(x, y)` lies inside `a`.
pub open spec fn contains_cell(a: Area, x: u16, y: u16) -> bool {
    a.x <= x < a.x + a.width && a.y <= y < a.y + a.height
}

/// Whether the cell `(x, y)` lies inside `a`.
pub fn in_rect(a: Area, x: u16, y: u16) -> (r: bool)
    ensures
        r == contains_cell(a, x, y),
{
    x >= a.x && (x as u32) < a.x as u32 + a.width as u32 && y >= a.y && (y as u32) < a.y as u32
        + a.height as u32
}

/// How far the log pane is scrolled: a line offset from the top, or
/// `STICK_TO_BOTTOM`.
#[derive(Clone, Copy, Debug, PartialEq, Eq, Structural)]
pub struct LogScroll {
    pub offset: u16,
}

/// The offset of the last page of a log of `total` lines in a pane of
/// `height` lines, kept below `STICK_TO_BOTTOM`.
pub open spec fn last_page_offset(total: usize, height: u16) -> u16 {
    if total <= height {
        0
    } else if total - height < STICK_TO_BOTTOM {
        (total - height) as u16
    } else {
        (STICK_TO_BOTTOM - 1) as u16
    }
}

/// The offset after scrolling down by a line: stuck stays stuck; an offset
/// whose page still overflows moves down; otherwise the pane sticks to the
/// bottom.
pub open spec fn scrolled_down(offset: u16, total: usize, height: u16) -> u16 {
    if offset == STICK_TO_BOTTOM {
        STICK_TO_BOTTOM
    } else if total >= offset + height {
        (offset + 1) as u16
    } else {
        STICK_TO_BOTTOM
    }
}

/// The offset after scrolling up by a line: the top stays the top; a pane
/// stuck to the bottom moves to its last page if the log overflows it;
/// otherwise the offset moves up.
pub open spec fn scrolled_up(offset: u16, total: usize, height: u16) -> u16 {
    if offset == 0 {
        0
    } else if offset == STICK_TO_BOTTOM {
        if total > height {
            last_page_offset(total, height)
        } else {
            STICK_TO_BOTTOM
        }
    } else {
        (offset - 1) as u16
    }
}

impl LogScroll {
    /// A pane stuck to the bottom.
    pub fn new() -> (r: LogScroll)
        ensures
            r.offset == STICK_TO_BOTTOM,
    {
        LogScroll { offset: STICK_TO_BOTTOM }
    }

    /// The first line shown for a log of `total` lines in a pane of `height`.
    pub fn first_visible_line(&self, total: usize, height: u16) -> (r: u16)
        ensures
            r == if self.offset == STICK_TO_BOTTOM {
                last_page_offset(total, height)
            } else {
                self.offset
            },
    {
        if self.offset == STICK_TO_BOTTOM {
            Self::last_page(total, height)
        } else {
            self.offset
        }
    }

    fn last_page(total: usize, height: u16) -> (r: u16)
        ensures
            r == last_page_offset(total, height),
    {
        if total <= height as usize {
            0
        } else if total - (height as usize) < STICK_TO_BOTTOM as usize {
            (total - height as usize) as u16
        } else {
            STICK_TO_BOTTOM - 1
        }
    }

    /// Scrolls down by a line.
    pub fn scroll_down(&mut self, total: usize, height: u16)
        ensures
            final(self).offset == scrolled_down(old(self).offset, total, height),
    {
        if self.offset == STICK_TO_BOTTOM {
            return;
        }
        if total >= self.offset as usize + height as usize {
            self.offset = self.offset + 1;
        } else {
            self.offset = STICK_TO_BOTTOM;
        }
    }

    /// Scrolls up by a line.
    pub fn scroll_up(&mut self, total: usize, height: u16)
        ensures
            final(self).offset == scrolled_up(old(self).offset, total, height),
    {
        if self.offset == 0 {
            return;
        }
        if self.offset == STICK_TO_BOTTOM {
            if total > height as usize {
                self.offset = Self::last_page(total, height);
            }
        } else {
            self.offset = self.offset - 1;
        }
    }

    /// Sticks the pane to the bottom again, as after a resize.
    pub fn reset(&mut self)
        ensures
            final(self).offset == STICK_TO_BOTTOM,
    {
        self.offset = STICK_TO_BOTTOM;
    }
}

/// The exit button: a click exits only when both the press and the release
/// of the button land on it.
#[derive(Clone, Copy, Debug, PartialEq, Eq, Structural)]
pub struct ExitButton {
    pub held: bool,
}

impl ExitButton {
    /// A button that is not held.
    pub fn new() -> (r: ExitButton)
        ensures
            !r.held,
    {
        ExitButton { held: false }
    }

    /// The mouse button went down, on the exit button if `inside`.
    pub fn press(&mut self, inside: bool)
        ensures
            final(self).held == (old(self).held || inside),
    {
        if inside {
            self.held = true;
        }
    }

    /// The mouse button went up, on the exit button if `inside`; returns
    /// whether to exit.
    pub fn release(&mut self, inside: bool) -> (exit: bool)
        ensures
            exit == (inside && old(self).held),
            !final(self).held,
    {
        let exit = inside && self.held;
        self.held = false;
        exit
    }
}

} // verus!
