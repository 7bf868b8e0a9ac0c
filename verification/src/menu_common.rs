//! Shared pieces of the menu system: result and action types, text and box
//! drawing helpers, and the selection state every menu carries.

use vstd::prelude::*;

use crate::strutil::{repeat_char, truncate_spec, truncate_text_impl};

verus! {

/// What a menu interaction asks the application to do next.
#[derive(Debug, Clone, Copy, PartialEq, Eq, Structural)]
pub enum MenuResult {
    Continue,
    Settings,
    Exit,
    ClearChat,
    BackToMain,
    ConfigurationUpdated,
}

/// Internal flow control while a menu loop runs.
#[derive(Debug, Clone, Copy, PartialEq, Eq, Structural)]
pub enum MenuAction {
    /// Stay in the menu.
    Continue,
    /// Exit the menu, continue the application.
    CloseMenu,
    /// Exit the menu and the application.
    ExitApp,
}

/// Namespace for the menu drawing helpers.
#[derive(Debug)]
pub struct MenuUtils;

/// The top border of a menu box: corners, a horizontal rule, and the
/// padded title overlaid around the middle when it fits.
pub open spec fn box_top_spec(title: Seq<char>, width: int) -> Seq<char> {
    let tp = seq![' '] + title + seq![' '];
    let start = if width / 2 >= tp.len() / 2 {
        width / 2 - tp.len() / 2
    } else {
        0
    };
    let end = start + tp.len();
    seq!['┌'] + Seq::new(
        (width - 2) as nat,
        |i: int|
            {
                let pos = i + 1;
                if pos >= start && pos < end && end <= width {
                    tp[pos - start]
                } else {
                    '─'
                }
            },
    ) + seq!['┐']
}

/// An interior line of a menu box: side borders around spaces.
pub open spec fn box_middle_spec(width: int) -> Seq<char> {
    seq!['│'] + Seq::new((width - 2) as nat, |i: int| ' ') + seq!['│']
}

/// The bottom border of a menu box.
pub open spec fn box_bottom_spec(width: int) -> Seq<char> {
    seq!['└'] + Seq::new((width - 2) as nat, |i: int| '─') + seq!['┘']
}

impl MenuUtils {
    /// Truncate text to fit within `max_width` characters, adding `"..."`
    /// if anything was cut.
    pub fn truncate_text(text: &str, max_width: usize) -> (r: String)
        ensures
            r@ == truncate_spec(text@, max_width as int),
    {
        truncate_text_impl(text, max_width)
    }

    /// Render a box frame around empty content: a titled top border,
    /// `height - 2` empty interior lines, and a bottom border.
    pub fn render_box(title: &str, width: u16, height: u16) -> (r: Vec<String>)
        requires
            2 <= width,
            2 <= height,
            title@.len() + 2 <= usize::MAX,
        ensures
            r@.len() == height,
            r@[0]@ == box_top_spec(title@, width as int),
            forall|i: int| 1 <= i < height - 1 ==> #[trigger] r@[i]@ == box_middle_spec(
                width as int,
            ),
            r@[height - 1]@ == box_bottom_spec(width as int),
    {
        let mut output: Vec<String> = Vec::new();

        let mut tp = String::from_str(" ");
        tp.append(title);
        tp.append(" ");
        proof {
            reveal_strlit(" ");
            assert(" "@ =~= seq![' ']);
            assert(tp@ =~= seq![' '] + title@ + seq![' ']);
        }
        let tp_len = tp.as_str().unicode_len();
        let half_w = (width / 2) as usize;
        let start: usize = if half_w >= tp_len / 2 {
            half_w - tp_len / 2
        } else {
            0
        };
        let end: usize = start + tp_len;

        let mut top = String::new();
        top.push('┌');
        let mut i: usize = 1;
        while i < (width - 1) as usize
            invariant
                tp@ == seq![' '] + title@ + seq![' '],
                tp_len == tp@.len(),
                start == (if width / 2 >= tp@.len() / 2 {
                    width / 2 - tp@.len() / 2
                } else {
                    0int
                }),
                end == start + tp_len,
                1 <= i <= (width - 1) as int,
                2 <= width,
                top@ =~= seq!['┌'] + Seq::new(
                    (i - 1) as nat,
                    |k: int|
                        {
                            let pos = k + 1;
                            if pos >= start && pos < end && end <= width {
                                tp@[pos - start]
                            } else {
                                '─'
                            }
                        },
                ),
            decreases width - i,
        {
            if i >= start && i < end && end <= width as usize {
                top.push(tp.as_str().get_char(i - start));
            } else {
                top.push('─');
            }
            proof {
                assert(top@ =~= seq!['┌'] + Seq::new(
                    i as nat,
                    |k: int|
                        {
                            let pos = k + 1;
                            if pos >= start && pos < end && end <= width {
                                tp@[pos - start]
                            } else {
                                '─'
                            }
                        },
                ));
            }
            i = i + 1;
        }
        top.push('┐');
        proof {
            assert(top@ =~= box_top_spec(title@, width as int));
        }
        output.push(top);

        let mut middle = String::new();
        middle.push('│');
        middle.append(repeat_char(' ', (width - 2) as usize).as_str());
        middle.push('│');
        proof {
            assert(middle@ =~= box_middle_spec(width as int));
        }
        let mut row: u16 = 1;
        while row < height - 1
            invariant
                2 <= height,
                1 <= row <= height - 1,
                middle@ == box_middle_spec(width as int),
                output@.len() == row,
                output@[0]@ == box_top_spec(title@, width as int),
                forall|k: int| 1 <= k < row ==> #[trigger] output@[k]@ == box_middle_spec(
                    width as int,
                ),
            decreases height - row,
        {
            output.push(middle.clone());
            row = row + 1;
        }

        let mut bottom = String::new();
        bottom.push('└');
        bottom.append(repeat_char('─', (width - 2) as usize).as_str());
        bottom.push('┘');
        proof {
            assert(bottom@ =~= box_bottom_spec(width as int));
        }
        output.push(bottom);
        output
    }

    /// Format a menu item with its selection indicator.
    pub fn format_menu_item(item: &str, selected: bool) -> (r: String)
        ensures
            selected ==> r@ == seq!['▶', ' '] + item@,
            !selected ==> r@ == seq![' ', ' '] + item@,
    {
        let mut out = String::new();
        if selected {
            out.push('▶');
            out.push(' ');
        } else {
            out.push(' ');
            out.push(' ');
        }
        out.append(item);
        proof {
            if selected {
                assert(out@ =~= seq!['▶', ' '] + item@);
            } else {
                assert(out@ =~= seq![' ', ' '] + item@);
            }
        }
        out
    }
}

/// The selection state a menu carries: an index and whether a submenu is
/// active.
#[derive(Debug)]
pub struct MenuState {
    pub selected_index: usize,
    pub is_in_submenu: bool,
}

impl MenuState {
    /// The initial state: first entry selected, no submenu.
    pub fn new() -> (r: MenuState)
        ensures
            r.selected_index == 0,
            !r.is_in_submenu,
    {
        MenuState { selected_index: 0, is_in_submenu: false }
    }

    /// Move the selection up one entry among `max_index` entries, wrapping
    /// to the bottom from the top.
    pub fn move_up(&mut self, max_index: usize)
        ensures
            final(self).is_in_submenu == old(self).is_in_submenu,
            final(self).selected_index == if old(self).selected_index > 0 {
                (old(self).selected_index - 1) as int
            } else if max_index > 0 {
                max_index - 1
            } else {
                0int
            },
    {
        if self.selected_index > 0 {
            self.selected_index = self.selected_index - 1;
        } else if max_index > 0 {
            self.selected_index = max_index - 1;
        } else {
            self.selected_index = 0;
        }
    }

    /// Move the selection down one entry among `max_index` entries,
    /// wrapping to the top from the bottom.
    pub fn move_down(&mut self, max_index: usize)
        ensures
            final(self).is_in_submenu == old(self).is_in_submenu,
            final(self).selected_index == if max_index > 0 && old(self).selected_index + 1
                < max_index {
                old(self).selected_index + 1
            } else {
                0int
            },
    {
        if max_index > 0 && self.selected_index < max_index - 1 {
            self.selected_index = self.selected_index + 1;
        } else {
            self.selected_index = 0;
        }
    }

    /// Back to the initial state.
    pub fn reset(&mut self)
        ensures
            final(self).selected_index == 0,
            !final(self).is_in_submenu,
    {
        self.selected_index = 0;
        self.is_in_submenu = false;
    }
}

} // verus!
