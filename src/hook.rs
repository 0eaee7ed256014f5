//! The optional window hook that runs inside the player's process.
//!
//! When the player's window is minimized, the hook keeps it from minimizing:
//! it saves the window's geometry, sends the window to the bottom of the
//! z-order with its size message as if it had been restored, and moves the
//! focus on. The player then keeps updating the playback position, which it
//! stops doing while minimized. When the window is activated again, or the
//! hook is unloaded, the saved geometry is put back.
//!
//! The handler below makes the decisions; the host calls the windowing
//! system as each returned action says.

use vstd::prelude::*;

verus! {

/// Hook code of a minimize or maximize request.
pub const HCBT_MINMAX: i32 = 1;

/// Hook code of a window activation.
pub const HCBT_ACTIVATE: i32 = 5;

/// Show commands that a minimize or maximize request may carry.
pub const SW_NORMAL: i32 = 1;
pub const SW_SHOWMINIMIZED: i32 = 2;
pub const SW_MAXIMIZE: i32 = 3;
pub const SW_MINIMIZE: i32 = 6;
pub const SW_FORCEMINIMIZE: i32 = 11;

/// A window's position and size.
#[derive(Clone, Copy, Debug, PartialEq, Eq, Structural)]
pub struct WindowPos {
    pub x: i32,
    pub y: i32,
    pub cx: i32,
    pub cy: i32,
}

/// A window's rectangle as the windowing system reports it.
#[derive(Clone, Copy, Debug, PartialEq, Eq, Structural)]
pub struct WindowRect {
    pub left: i32,
    pub top: i32,
    pub right: i32,
    pub bottom: i32,
}

/// The geometry saved when a minimize was intercepted.
#[derive(Clone, Copy, Debug, PartialEq, Eq, Structural)]
pub struct SavedWindow {
    pub hwnd: usize,
    pub pos: WindowPos,
    pub maximized: bool,
}

/// What the host does for a hook notification.
#[derive(Clone, Copy, Debug, PartialEq, Eq, Structural)]
pub enum CbtAction {
    /// Return 0 at once: the window is being restored and may proceed.
    Allow,
    /// Read the window's geometry (after restoring it from maximized, if it
    /// is) and hand it to `capture`.
    Capture,
    /// Show the activated window normally if it is minimized, move it to
    /// `pos` at the top, maximize it if `maximize`, then chain.
    Restore { pos: WindowPos, maximize: bool },
    /// Chain to the next hook.
    PassOn,
}

/// What the host does once a minimize was intercepted: move the window to
/// the bottom, send it a size message with `size_param`, move the focus on,
/// and return 1 so that the minimize does not happen.
#[derive(Clone, Copy, Debug, PartialEq, Eq, Structural)]
pub struct Intercepted {
    pub size_param: isize,
}

/// The hook's state: idle, or holding the geometry of an intercepted minimize.
#[derive(Clone, Copy, Debug, PartialEq, Eq)]
pub struct WindowHook {
    pub saved: Option<SavedWindow>,
}

/// The show command is one of the minimizing ones.
pub open spec fn is_minimize(show: i32) -> bool {
    show == SW_SHOWMINIMIZED || show == SW_MINIMIZE || show == SW_FORCEMINIMIZE
}

/// The show command carried in the low word of a request's parameter.
pub open spec fn show_command(lparam: isize) -> i32 {
    (lparam & 0xFFFF) as i32
}

/// The action for a notification, and the hook's state after it.
pub open spec fn cbt_transition(h: WindowHook, code: i32, lparam: isize) -> (WindowHook, CbtAction) {
    if code == HCBT_MINMAX {
        if show_command(lparam) == SW_NORMAL {
            (h, CbtAction::Allow)
        } else if h.saved is None && is_minimize(show_command(lparam)) {
            (h, CbtAction::Capture)
        } else {
            (h, CbtAction::PassOn)
        }
    } else if code == HCBT_ACTIVATE {
        match h.saved {
            Some(s) => (
                WindowHook { saved: None },
                CbtAction::Restore { pos: s.pos, maximize: s.maximized },
            ),
            None => (h, CbtAction::PassOn),
        }
    } else {
        (h, CbtAction::PassOn)
    }
}

/// A 32-bit word as two's complement.
pub open spec fn u32_bits(v: i32) -> u32 {
    if v < 0 {
        (v + 0x1_0000_0000) as u32
    } else {
        v as u32
    }
}

/// The signed value of a 32-bit word.
pub open spec fn i32_value(w: u32) -> int {
    if w >= 0x8000_0000 {
        w - 0x1_0000_0000
    } else {
        w as int
    }
}

/// The parameter of the size message sent to an intercepted window: the
/// 32-bit word `(y << 16) | cx`, sign-extended.
pub open spec fn size_param(pos: WindowPos) -> int {
    i32_value((u32_bits(pos.y) << 16u32) | u32_bits(pos.cx))
}

/// The position and size of a rectangle.
pub open spec fn pos_of(r: WindowRect) -> WindowPos {
    WindowPos {
        x: r.left,
        y: r.top,
        cx: (r.right - r.left) as i32,
        cy: (r.bottom - r.top) as i32,
    }
}

/// Both extents of the rectangle fit in an `i32`.
pub open spec fn extents_fit(r: WindowRect) -> bool {
    i32::MIN <= r.right - r.left <= i32::MAX && i32::MIN <= r.bottom - r.top <= i32::MAX
}

fn to_u32_bits(v: i32) -> (r: u32)
    ensures
        r == u32_bits(v),
{
    if v < 0 {
        (v as i64 + 0x1_0000_0000i64) as u32
    } else {
        v as u32
    }
}

/// Computes the parameter of the size message for `pos`.
pub fn size_message_param(pos: WindowPos) -> (r: isize)
    ensures
        r == size_param(pos),
{
    let w = (to_u32_bits(pos.y) << 16u32) | to_u32_bits(pos.cx);
    if w >= 0x8000_0000 {
        (w as i64 - 0x1_0000_0000i64) as isize
    } else {
        w as isize
    }
}

impl WindowHook {
    /// An idle hook.
    pub fn new() -> (r: WindowHook)
        ensures
            r.saved is None,
    {
        WindowHook { saved: None }
    }

    /// Decides what to do for the notification `code` with parameter `lparam`.
    pub fn on_cbt(&mut self, code: i32, lparam: isize) -> (a: CbtAction)
        ensures
            (*final(self), a) == cbt_transition(*old(self), code, lparam),
    {
        if code == HCBT_MINMAX {
            let show = (lparam & 0xFFFF) as i32;
            if show == SW_NORMAL {
                CbtAction::Allow
            } else if self.saved.is_none() && (show == SW_SHOWMINIMIZED || show == SW_MINIMIZE
                || show == SW_FORCEMINIMIZE) {
                CbtAction::Capture
            } else {
                CbtAction::PassOn
            }
        } else if code == HCBT_ACTIVATE {
            match self.saved {
                Some(s) => {
                    self.saved = None;
                    CbtAction::Restore { pos: s.pos, maximize: s.maximized }
                },
                None => CbtAction::PassOn,
            }
        } else {
            CbtAction::PassOn
        }
    }

    /// Saves the geometry of window `hwnd` after a `Capture` action; `rect`
    /// is its rectangle, or `None` if it could not be read, in which case the
    /// notification is passed on and nothing is saved.
    pub fn capture(&mut self, hwnd: usize, maximized: bool, rect: Option<WindowRect>) -> (r:
        Option<Intercepted>)
        requires
            rect matches Some(rc) ==> extents_fit(rc),
        ensures
            match rect {
                Some(rc) => {
                    &&& final(self).saved == Some(
                        SavedWindow { hwnd, pos: pos_of(rc), maximized },
                    )
                    &&& r == Some(Intercepted { size_param: size_param(pos_of(rc)) as isize })
                },
                None => *final(self) == *old(self) && r is None,
            },
    {
        match rect {
            Some(rc) => {
                let pos = WindowPos {
                    x: rc.left,
                    y: rc.top,
                    cx: rc.right - rc.left,
                    cy: rc.bottom - rc.top,
                };
                self.saved = Some(SavedWindow { hwnd, pos, maximized });
                Some(Intercepted { size_param: size_message_param(pos) })
            },
            None => None,
        }
    }

    /// Hands out the saved geometry when the hook is unloaded, so that the
    /// host can put the window back if it still exists.
    pub fn on_detach(&mut self) -> (r: Option<SavedWindow>)
        ensures
            r == old(self).saved,
            final(self).saved is None,
    {
        let r = self.saved;
        self.saved = None;
        r
    }
}

} // verus!
