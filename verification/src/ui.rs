//! The retained view behind the interactive display: the accumulated
//! records, the viewport height, and a scroll offset whose bounds are
//! recomputed on every input event. The terminal itself is not handled
//! here; a caller reads these fields to draw and feeds key decisions in.

use vstd::prelude::*;

use crate::registers::RegistersData;

verus! {

/// A keyboard decision for the scrollable view.
#[derive(Clone, Copy, Debug, PartialEq, Eq, Structural)]
pub enum UiKey {
    /// Leave the display.
    Quit,
    /// Scroll one line down.
    Down,
    /// Scroll one line up.
    Up,
    /// Jump to the bottom of the buffer.
    Bottom,
    /// Jump to the top of the viewport.
    Top,
    /// Any other key: ignored.
    Other,
}

/// The line total the view works with: one more than the records held,
/// clipped at the machine limit.
pub open spec fn view_total(n_lines: nat) -> nat {
    if n_lines + 1 <= usize::MAX {
        n_lines + 1
    } else {
        usize::MAX as nat
    }
}

/// The scroll offset that shows the bottom of the buffer: the line total
/// minus the viewport height plus one, never below zero, clipped at the
/// machine limit.
pub open spec fn bottom_line(max_lines: int, height: int) -> int {
    let b = if max_lines + 1 - height >= 0 {
        max_lines + 1 - height
    } else {
        0
    };
    if b <= usize::MAX {
        b
    } else {
        usize::MAX as int
    }
}

/// Where one key moves the scroll offset.
pub open spec fn next_scroll(key: UiKey, scroll: int, max_lines: int, height: int) -> int {
    match key {
        UiKey::Down => if scroll < bottom_line(max_lines, height) && scroll < usize::MAX {
            scroll + 1
        } else {
            scroll
        },
        UiKey::Up => if scroll > 1 {
            scroll - 1
        } else {
            scroll
        },
        UiKey::Bottom => bottom_line(max_lines, height),
        UiKey::Top => height,
        UiKey::Quit => scroll,
        UiKey::Other => scroll,
    }
}

/// The interactive display's state: the retained records, the viewport
/// height, the scroll offset, and the line total the bounds use.
pub struct UI {
    pub height: usize,
    pub max_lines: usize,
    pub scroll: usize,
    pub lines: Vec<RegistersData>,
}

impl UI {
    /// An empty view: no records, no height, no scrolling yet.
    pub fn new() -> (ui: UI)
        ensures
            ui.height == 0,
            ui.max_lines == 0,
            ui.scroll == 0,
            ui.lines@.len() == 0,
    {
        UI { height: 0, max_lines: 0, scroll: 0, lines: Vec::new() }
    }

    /// Appends one record to the retained buffer and refreshes the line
    /// total.
    pub fn add_line(&mut self, registers: RegistersData)
        ensures
            final(self).lines@ == old(self).lines@.push(registers),
            final(self).max_lines as nat == view_total(final(self).lines@.len()),
            final(self).height == old(self).height,
            final(self).scroll == old(self).scroll,
    {
        self.lines.push(registers);
        let n = self.lines.len();
        self.max_lines = if n < usize::MAX {
            n + 1
        } else {
            n
        };
    }

    /// Records the viewport height the terminal reported for this frame.
    pub fn set_height(&mut self, height: usize)
        ensures
            final(self).height == height,
            final(self).max_lines == old(self).max_lines,
            final(self).scroll == old(self).scroll,
            final(self).lines@ == old(self).lines@,
    {
        self.height = height;
    }

    /// Applies one keyboard decision to the scroll state and says
    /// whether the caller should leave the display.
    pub fn on_key(&mut self, key: UiKey) -> (quit: bool)
        ensures
            quit == (key is Quit),
            final(self).height == old(self).height,
            final(self).max_lines == old(self).max_lines,
            final(self).lines@ == old(self).lines@,
            final(self).scroll as int == next_scroll(
                key,
                old(self).scroll as int,
                old(self).max_lines as int,
                old(self).height as int,
            ),
    {
        match key {
            UiKey::Quit => true,
            UiKey::Down => {
                if self.scroll <= self.max_lines && self.max_lines - self.scroll >= self.height
                    && self.scroll < usize::MAX {
                    self.scroll = self.scroll + 1;
                }
                false
            },
            UiKey::Up => {
                if self.scroll > 1 {
                    self.scroll = self.scroll - 1;
                }
                false
            },
            UiKey::Bottom => {
                self.scroll = if self.max_lines >= self.height {
                    let d = self.max_lines - self.height;
                    if d < usize::MAX {
                        d + 1
                    } else {
                        d
                    }
                } else {
                    0
                };
                false
            },
            UiKey::Top => {
                self.scroll = self.height;
                false
            },
            UiKey::Other => false,
        }
    }
}

} // verus!
