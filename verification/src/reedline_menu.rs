//! The line-editor menu: an ESC-triggered menu with a main and a settings
//! page, and the state machine that decides when the menu shows and hides.

use vstd::prelude::*;

use crate::overlay::{format_colored, format_colored_bold};
use crate::strutil::pad_right;

verus! {

/// The entries of the main menu page.
#[derive(Debug, Clone, Copy, PartialEq, Eq, Structural)]
pub enum MenuItem {
    Continue,
    Settings,
    Info,
    ClearChat,
    Exit,
}

impl MenuItem {
    /// The label shown for this entry.
    pub open spec fn label_spec(self) -> Seq<char> {
        match self {
            MenuItem::Continue => "💬 Continue Chat"@,
            MenuItem::Settings => "⚙️  Settings"@,
            MenuItem::Info => "ℹ️  Info & Help"@,
            MenuItem::ClearChat => "🧹 Clear Chat"@,
            MenuItem::Exit => "🚪 Exit ARULA"@,
        }
    }

    /// The one-line description shown for this entry.
    pub open spec fn description_spec(self) -> Seq<char> {
        match self {
            MenuItem::Continue => "Return to conversation"@,
            MenuItem::Settings => "Configure AI provider and settings"@,
            MenuItem::Info => "View help and session information"@,
            MenuItem::ClearChat => "Clear conversation history"@,
            MenuItem::Exit => "Exit the application"@,
        }
    }

    /// All entries, in display order.
    pub fn all() -> (r: Vec<MenuItem>)
        ensures
            r@ == seq![
                MenuItem::Continue,
                MenuItem::Settings,
                MenuItem::Info,
                MenuItem::ClearChat,
                MenuItem::Exit,
            ],
    {
        let mut v: Vec<MenuItem> = Vec::new();
        v.push(MenuItem::Continue);
        v.push(MenuItem::Settings);
        v.push(MenuItem::Info);
        v.push(MenuItem::ClearChat);
        v.push(MenuItem::Exit);
        proof {
            assert(v@ =~= seq![
                MenuItem::Continue,
                MenuItem::Settings,
                MenuItem::Info,
                MenuItem::ClearChat,
                MenuItem::Exit,
            ]);
        }
        v
    }

    pub fn label(&self) -> (r: &str)
        ensures
            r@ == self.label_spec(),
    {
        match self {
            MenuItem::Continue => "💬 Continue Chat",
            MenuItem::Settings => "⚙️  Settings",
            MenuItem::Info => "ℹ️  Info & Help",
            MenuItem::ClearChat => "🧹 Clear Chat",
            MenuItem::Exit => "🚪 Exit ARULA",
        }
    }

    pub fn description(&self) -> (r: &str)
        ensures
            r@ == self.description_spec(),
    {
        match self {
            MenuItem::Continue => "Return to conversation",
            MenuItem::Settings => "Configure AI provider and settings",
            MenuItem::Info => "View help and session information",
            MenuItem::ClearChat => "Clear conversation history",
            MenuItem::Exit => "Exit the application",
        }
    }
}

/// The entries of the settings page.
#[derive(Debug, Clone, Copy, PartialEq, Eq, Structural)]
pub enum SettingsItem {
    Provider,
    Model,
    ApiUrl,
    ApiKey,
    Back,
}

impl SettingsItem {
    /// The label shown for this entry.
    pub open spec fn label_spec(self) -> Seq<char> {
        match self {
            SettingsItem::Provider => "🤖 AI Provider"@,
            SettingsItem::Model => "🧠 AI Model"@,
            SettingsItem::ApiUrl => "🌐 API URL"@,
            SettingsItem::ApiKey => "🔑 API Key"@,
            SettingsItem::Back => "← Back to Menu"@,
        }
    }

    /// The one-line description shown for this entry.
    pub open spec fn description_spec(self) -> Seq<char> {
        match self {
            SettingsItem::Provider => "Select AI provider (OpenAI, Anthropic, etc)"@,
            SettingsItem::Model => "Choose AI model to use"@,
            SettingsItem::ApiUrl => "Set custom API endpoint URL"@,
            SettingsItem::ApiKey => "Configure API authentication key"@,
            SettingsItem::Back => "Return to main menu"@,
        }
    }

    /// All entries, in display order.
    pub fn all() -> (r: Vec<SettingsItem>)
        ensures
            r@ == seq![
                SettingsItem::Provider,
                SettingsItem::Model,
                SettingsItem::ApiUrl,
                SettingsItem::ApiKey,
                SettingsItem::Back,
            ],
    {
        let mut v: Vec<SettingsItem> = Vec::new();
        v.push(SettingsItem::Provider);
        v.push(SettingsItem::Model);
        v.push(SettingsItem::ApiUrl);
        v.push(SettingsItem::ApiKey);
        v.push(SettingsItem::Back);
        proof {
            assert(v@ =~= seq![
                SettingsItem::Provider,
                SettingsItem::Model,
                SettingsItem::ApiUrl,
                SettingsItem::ApiKey,
                SettingsItem::Back,
            ]);
        }
        v
    }

    pub fn label(&self) -> (r: &str)
        ensures
            r@ == self.label_spec(),
    {
        match self {
            SettingsItem::Provider => "🤖 AI Provider",
            SettingsItem::Model => "🧠 AI Model",
            SettingsItem::ApiUrl => "🌐 API URL",
            SettingsItem::ApiKey => "🔑 API Key",
            SettingsItem::Back => "← Back to Menu",
        }
    }

    pub fn description(&self) -> (r: &str)
        ensures
            r@ == self.description_spec(),
    {
        match self {
            SettingsItem::Provider => "Select AI provider (OpenAI, Anthropic, etc)",
            SettingsItem::Model => "Choose AI model to use",
            SettingsItem::ApiUrl => "Set custom API endpoint URL",
            SettingsItem::ApiKey => "Configure API authentication key",
            SettingsItem::Back => "Return to main menu",
        }
    }
}

/// The menu widget: the labels and descriptions of the active page, the
/// selection, the title, and which page is active.
#[derive(Debug)]
pub struct ArulaMenu {
    /// Current menu items to display.
    pub items: Vec<String>,
    /// Descriptions for each item.
    pub descriptions: Vec<String>,
    /// Currently selected index.
    pub selected: usize,
    /// Menu title.
    pub title: String,
    /// Whether the settings page is active.
    pub in_settings: bool,
}

impl ArulaMenu {
    /// The menu always shows at least one item, the selection stays on the
    /// list, and each item has one description.
    pub open spec fn wf(self) -> bool {
        &&& self.items@.len() >= 1
        &&& self.items@.len() == self.descriptions@.len()
        &&& self.selected < self.items@.len()
    }

    /// A fresh menu showing the main page with the first entry selected.
    pub fn new() -> (r: ArulaMenu)
        ensures
            r.wf(),
            r.selected == 0,
            !r.in_settings,
            r.title@ == "ARULA Menu"@,
            r.items@.len() == 5,
            forall|i: int| 0 <= i < 5 ==> r.items@[i]@ == MenuItem::all_spec()[i].label_spec(),
            forall|i: int|
                0 <= i < 5 ==> r.descriptions@[i]@ == MenuItem::all_spec()[i].description_spec(),
    {
        let mut menu = ArulaMenu {
            items: Vec::new(),
            descriptions: Vec::new(),
            selected: 0,
            title: String::from_str("ARULA Menu"),
            in_settings: false,
        };
        menu.load_main_page();
        menu
    }

    /// Replace the page contents with the main entries.
    fn load_main_page(&mut self)
        ensures
            final(self).items@.len() == 5,
            final(self).descriptions@.len() == 5,
            forall|i: int|
                0 <= i < 5 ==> final(self).items@[i]@ == MenuItem::all_spec()[i].label_spec(),
            forall|i: int|
                0 <= i < 5 ==> final(self).descriptions@[i]@
                    == MenuItem::all_spec()[i].description_spec(),
            final(self).selected == old(self).selected,
            final(self).title == old(self).title,
            final(self).in_settings == old(self).in_settings,
    {
        let entries = MenuItem::all();
        let mut items: Vec<String> = Vec::new();
        let mut descriptions: Vec<String> = Vec::new();
        let mut i: usize = 0;
        while i < entries.len()
            invariant
                entries@ == MenuItem::all_spec(),
                i <= entries@.len(),
                items@.len() == i,
                descriptions@.len() == i,
                forall|k: int| 0 <= k < i ==> items@[k]@ == MenuItem::all_spec()[k].label_spec(),
                forall|k: int|
                    0 <= k < i ==> descriptions@[k]@
                        == MenuItem::all_spec()[k].description_spec(),
            decreases entries@.len() - i,
        {
            items.push(entries[i].label().to_owned());
            descriptions.push(entries[i].description().to_owned());
            i = i + 1;
        }
        self.items = items;
        self.descriptions = descriptions;
    }

    /// Replace the page contents with the settings entries.
    fn load_settings_page(&mut self)
        ensures
            final(self).items@.len() == 5,
            final(self).descriptions@.len() == 5,
            forall|i: int|
                0 <= i < 5 ==> final(self).items@[i]@ == SettingsItem::all_spec()[i].label_spec(),
            forall|i: int|
                0 <= i < 5 ==> final(self).descriptions@[i]@
                    == SettingsItem::all_spec()[i].description_spec(),
            final(self).selected == old(self).selected,
            final(self).title == old(self).title,
            final(self).in_settings == old(self).in_settings,
    {
        let entries = SettingsItem::all();
        let mut items: Vec<String> = Vec::new();
        let mut descriptions: Vec<String> = Vec::new();
        let mut i: usize = 0;
        while i < entries.len()
            invariant
                entries@ == SettingsItem::all_spec(),
                i <= entries@.len(),
                items@.len() == i,
                descriptions@.len() == i,
                forall|k: int|
                    0 <= k < i ==> items@[k]@ == SettingsItem::all_spec()[k].label_spec(),
                forall|k: int|
                    0 <= k < i ==> descriptions@[k]@
                        == SettingsItem::all_spec()[k].description_spec(),
            decreases entries@.len() - i,
        {
            items.push(entries[i].label().to_owned());
            descriptions.push(entries[i].description().to_owned());
            i = i + 1;
        }
        self.items = items;
        self.descriptions = descriptions;
    }

    /// Switch to the settings page, selecting its first entry.
    pub fn switch_to_settings(&mut self)
        ensures
            final(self).wf(),
            final(self).selected == 0,
            final(self).in_settings,
            final(self).title@ == "Settings"@,
            final(self).items@.len() == 5,
            forall|i: int|
                0 <= i < 5 ==> final(self).items@[i]@ == SettingsItem::all_spec()[i].label_spec(),
            final(self).descriptions@.len() == 5,
            forall|i: int|
                0 <= i < 5 ==> final(self).descriptions@[i]@
                    == SettingsItem::all_spec()[i].description_spec(),
    {
        self.load_settings_page();
        self.selected = 0;
        self.title = String::from_str("Settings");
        self.in_settings = true;
    }

    /// Switch back to the main page, selecting its first entry.
    pub fn switch_to_main(&mut self)
        ensures
            final(self).wf(),
            final(self).selected == 0,
            !final(self).in_settings,
            final(self).title@ == "ARULA Menu"@,
            final(self).items@.len() == 5,
            forall|i: int|
                0 <= i < 5 ==> final(self).items@[i]@ == MenuItem::all_spec()[i].label_spec(),
            final(self).descriptions@.len() == 5,
            forall|i: int|
                0 <= i < 5 ==> final(self).descriptions@[i]@
                    == MenuItem::all_spec()[i].description_spec(),
    {
        self.load_main_page();
        self.selected = 0;
        self.title = String::from_str("ARULA Menu");
        self.in_settings = false;
    }

    /// Move the selection one entry up, wrapping to the last entry from the
    /// top.
    pub fn move_up(&mut self)
        requires
            old(self).wf(),
        ensures
            final(self).wf(),
            final(self).selected == if old(self).selected > 0 {
                (old(self).selected - 1) as int
            } else {
                old(self).items@.len() - 1
            },
            final(self).items == old(self).items,
            final(self).descriptions == old(self).descriptions,
            final(self).title == old(self).title,
            final(self).in_settings == old(self).in_settings,
    {
        if self.selected > 0 {
            self.selected = self.selected - 1;
        } else {
            self.selected = self.items.len() - 1;
        }
    }

    /// Move the selection one entry down, wrapping to the first entry from
    /// the bottom.
    pub fn move_down(&mut self)
        requires
            old(self).wf(),
        ensures
            final(self).wf(),
            final(self).selected == if old(self).selected + 1 < old(self).items@.len() {
                old(self).selected + 1
            } else {
                0int
            },
            final(self).items == old(self).items,
            final(self).descriptions == old(self).descriptions,
            final(self).title == old(self).title,
            final(self).in_settings == old(self).in_settings,
    {
        if self.selected < self.items.len() - 1 {
            self.selected = self.selected + 1;
        } else {
            self.selected = 0;
        }
    }

    /// The selected main-page entry, or `None` while the settings page is
    /// active or the selection lies past the five entries.
    pub fn get_selected_main_item(&self) -> (r: Option<MenuItem>)
        ensures
            r == if self.in_settings || self.selected >= 5 {
                None::<MenuItem>
            } else {
                Some(MenuItem::all_spec()[self.selected as int])
            },
    {
        if self.in_settings {
            return None;
        }
        let entries = MenuItem::all();
        if self.selected < entries.len() {
            Some(entries[self.selected])
        } else {
            None
        }
    }

    /// The selected settings-page entry, or `None` while the main page is
    /// active or the selection lies past the five entries.
    pub fn get_selected_settings_item(&self) -> (r: Option<SettingsItem>)
        ensures
            r == if !self.in_settings || self.selected >= 5 {
                None::<SettingsItem>
            } else {
                Some(SettingsItem::all_spec()[self.selected as int])
            },
    {
        if !self.in_settings {
            return None;
        }
        let entries = SettingsItem::all();
        if self.selected < entries.len() {
            Some(entries[self.selected])
        } else {
            None
        }
    }

    /// One boxed content row of the menu: side borders around the text,
    /// padded to the interior width.
    pub open spec fn boxed_row(inner: Seq<char>, width: int) -> Seq<char> {
        "│ "@ + crate::strutil::pad_right_spec(inner, width - 4) + " │"@
    }

    /// The rendered row for item `i`: the selected item carries the
    /// marker and the highlight, every other item is indented plain.
    pub open spec fn item_row_spec(self, i: int, width: int) -> Seq<char> {
        if i == self.selected {
            Self::boxed_row(
                crate::overlay::ansi_wrapped(seq!['1', ';'] + "36"@, "▶ "@ + self.items@[i]@),
                width,
            )
        } else {
            Self::boxed_row("  "@ + self.items@[i]@, width)
        }
    }

    /// The dimmed description row shown under the selected item.
    pub open spec fn desc_row_spec(self, width: int) -> Seq<char> {
        Self::boxed_row(
            crate::overlay::ansi_wrapped(
                "90"@,
                "  "@ + self.descriptions@[self.selected as int]@,
            ),
            width,
        )
    }

    /// The line index item `i` renders at: after the title, shifted one
    /// further once the selected item's description has been emitted.
    pub open spec fn item_line_at(self, i: int) -> int {
        1 + i + (if i > self.selected {
            1int
        } else {
            0int
        })
    }

    /// Render the menu as styled text lines: a title line, each item with a
    /// selection marker (the selected one highlighted and followed by its
    /// description), a box footer, a blank line, and a key-help line.
    pub fn render(&self, width: u16) -> (r: Vec<String>)
        requires
            self.wf(),
            width >= 4,
        ensures
            r@.len() == self.items@.len() + 5,
            r@[0]@ == "╭─ "@ + self.title@ + " ─╮"@,
            forall|i: int|
                0 <= i < self.items@.len() ==> #[trigger] r@[self.item_line_at(i)]@
                    == self.item_row_spec(i, width as int),
            r@[2 + self.selected]@ == self.desc_row_spec(width as int),
            r@[r@.len() - 3]@ == "╰─────────────────────────────╯"@,
            r@[r@.len() - 2]@.len() == 0,
            r@[r@.len() - 1]@ == crate::overlay::ansi_wrapped(
                "90"@,
                "  ↑↓ Navigate  │  Enter Select  │  ESC Cancel"@,
            ),
    {
        let mut output: Vec<String> = Vec::new();

        let mut title_line = String::from_str("╭─ ");
        title_line.append(self.title.as_str());
        title_line.append(" ─╮");
        let ghost title_view = title_line@;
        proof {
            assert(title_view =~= "╭─ "@ + self.title@ + " ─╮"@);
        }
        output.push(title_line);

        let inner_width = (width - 4) as usize;
        let n = self.items.len();
        let mut idx: usize = 0;
        while idx < n
            invariant
                self.wf(),
                n == self.items@.len(),
                idx <= n,
                output@.len() == 1 + idx + (if idx > self.selected {
                    1int
                } else {
                    0int
                }),
                output@[0]@ == title_view,
                title_view == "╭─ "@ + self.title@ + " ─╮"@,
                inner_width == width - 4,
                forall|k: int|
                    0 <= k < idx ==> #[trigger] output@[self.item_line_at(k)]@
                        == self.item_row_spec(k, width as int),
                idx > self.selected ==> output@[2 + self.selected]@ == self.desc_row_spec(
                    width as int,
                ),
            decreases n - idx,
        {
            let is_selected = idx == self.selected;
            let mut item_line = String::from_str(
                if is_selected {
                    "▶ "
                } else {
                    "  "
                },
            );
            item_line.append(self.items[idx].as_str());
            let styled = if is_selected {
                format_colored_bold(item_line.as_str(), "36")
            } else {
                item_line
            };
            let padded = pad_right(styled.as_str(), inner_width);
            let mut row = String::from_str("│ ");
            row.append(padded.as_str());
            row.append(" │");
            proof {
                assert(row@ =~= self.item_row_spec(idx as int, width as int));
            }
            output.push(row);

            if is_selected {
                let mut desc_line = String::from_str("  ");
                desc_line.append(self.descriptions[idx].as_str());
                let styled_desc = format_colored(desc_line.as_str(), "90");
                let padded_desc = pad_right(styled_desc.as_str(), inner_width);
                let mut desc_row = String::from_str("│ ");
                desc_row.append(padded_desc.as_str());
                desc_row.append(" │");
                proof {
                    assert(desc_row@ =~= self.desc_row_spec(width as int));
                }
                output.push(desc_row);
            }
            idx = idx + 1;
        }

        output.push(String::from_str("╰─────────────────────────────╯"));
        output.push(String::new());
        output.push(format_colored("  ↑↓ Navigate  │  Enter Select  │  ESC Cancel", "90"));
        proof {
            assert(output@[output@.len() - 3]@ == "╰─────────────────────────────╯"@);
            assert(output@[output@.len() - 2]@.len() == 0);
        }
        output
    }
}

/// Whether the menu is hidden or showing one of its two pages.
#[derive(Debug, Clone, Copy, PartialEq, Eq, Structural)]
pub enum MenuState {
    Hidden,
    Main,
    Settings,
}

#[verifier::external_type_specification]
#[verifier::external_body]
pub struct ExInstant(std::time::Instant);

/// Relies on `std::time::Instant::now`; nothing can be promised of a clock
/// reading.
pub assume_specification [ std::time::Instant::now ]() -> std::time::Instant;

/// Relies on `Instant::duration_since`; how far apart two readings lie is
/// not modeled.
pub assume_specification [ std::time::Instant::duration_since ](
    a: &std::time::Instant,
    earlier: std::time::Instant,
) -> std::time::Duration;

/// Relies on `Duration::as_secs`; the reading itself is not modeled.
pub assume_specification [ std::time::Duration::as_secs ](d: &std::time::Duration) -> u64;

/// One step of the ESC state machine. `reset` tells whether more than a
/// second passed since the previous ESC, which restarts the double-press
/// count.
///
/// From hidden, a second ESC in quick succession opens the main page; a
/// first one only counts. From either visible page, ESC hides the menu.
pub open spec fn esc_transition_spec(state: MenuState, esc_count: usize, reset: bool) -> (
    MenuState,
    usize,
) {
    let pressed: usize = if reset {
        1usize
    } else if esc_count < usize::MAX {
        (esc_count + 1) as usize
    } else {
        usize::MAX
    };
    match state {
        MenuState::Hidden => {
            if pressed >= 2 {
                (MenuState::Main, 0usize)
            } else {
                (MenuState::Hidden, pressed)
            }
        },
        MenuState::Main => (MenuState::Hidden, 0usize),
        MenuState::Settings => (MenuState::Hidden, 0usize),
    }
}

/// Apply one ESC press to a state and press count.
pub fn esc_transition(state: MenuState, esc_count: usize, reset: bool) -> (r: (MenuState, usize))
    ensures
        r == esc_transition_spec(state, esc_count, reset),
{
    let pressed: usize = if reset {
        1
    } else if esc_count < usize::MAX {
        esc_count + 1
    } else {
        usize::MAX
    };
    match state {
        MenuState::Hidden => {
            if pressed >= 2 {
                (MenuState::Main, 0)
            } else {
                (MenuState::Hidden, pressed)
            }
        },
        MenuState::Main => (MenuState::Hidden, 0),
        MenuState::Settings => (MenuState::Hidden, 0),
    }
}

/// The state machine behind the ESC key: tracks whether the menu shows,
/// how many ESC presses arrived in quick succession, and when the last one
/// came.
#[derive(Debug)]
pub struct MenuStateMachine {
    pub state: MenuState,
    pub esc_count: usize,
    pub last_esc_time: std::time::Instant,
}

impl MenuStateMachine {
    /// A fresh machine: menu hidden, no presses counted.
    pub fn new() -> (r: MenuStateMachine)
        ensures
            r.state == MenuState::Hidden,
            r.esc_count == 0,
    {
        MenuStateMachine {
            state: MenuState::Hidden,
            esc_count: 0,
            last_esc_time: std::time::Instant::now(),
        }
    }

    /// Register one ESC press: the press count restarts when over a second
    /// passed since the last press, and the machine then steps by
    /// [`esc_transition_spec`]. Returns the state after the press.
    pub fn handle_esc(&mut self) -> (r: MenuState)
        ensures
            r == final(self).state,
            exists|reset: bool| (final(self).state, final(self).esc_count)
                == esc_transition_spec(old(self).state, old(self).esc_count, reset),
    {
        let now = std::time::Instant::now();
        let elapsed = now.duration_since(self.last_esc_time);
        let reset = elapsed.as_secs() > 1;
        self.last_esc_time = now;
        let (state, count) = esc_transition(self.state, self.esc_count, reset);
        self.state = state;
        self.esc_count = count;
        proof {
            assert((final(self).state, final(self).esc_count) == esc_transition_spec(
                old(self).state,
                old(self).esc_count,
                reset,
            ));
        }
        state
    }

    /// Show the main page and restart the press count.
    pub fn show_main_menu(&mut self)
        ensures
            final(self).state == MenuState::Main,
            final(self).esc_count == 0,
    {
        self.state = MenuState::Main;
        self.esc_count = 0;
    }

    /// Show the settings page; the press count is untouched.
    pub fn show_settings_menu(&mut self)
        ensures
            final(self).state == MenuState::Settings,
            final(self).esc_count == old(self).esc_count,
    {
        self.state = MenuState::Settings;
    }

    /// Hide the menu and restart the press count.
    pub fn hide_menu(&mut self)
        ensures
            final(self).state == MenuState::Hidden,
            final(self).esc_count == 0,
    {
        self.state = MenuState::Hidden;
        self.esc_count = 0;
    }

    /// Whether either menu page is showing.
    pub fn is_visible(&self) -> (r: bool)
        ensures
            r == (self.state != MenuState::Hidden),
    {
        self.state != MenuState::Hidden
    }

    /// The current state of the machine.
    pub fn current_state(&self) -> (r: MenuState)
        ensures
            r == self.state,
    {
        self.state
    }
}

impl MenuItem {
    /// All entries, in display order.
    pub open spec fn all_spec() -> Seq<MenuItem> {
        seq![
            MenuItem::Continue,
            MenuItem::Settings,
            MenuItem::Info,
            MenuItem::ClearChat,
            MenuItem::Exit,
        ]
    }
}

impl SettingsItem {
    /// All entries, in display order.
    pub open spec fn all_spec() -> Seq<SettingsItem> {
        seq![
            SettingsItem::Provider,
            SettingsItem::Model,
            SettingsItem::ApiUrl,
            SettingsItem::ApiKey,
            SettingsItem::Back,
        ]
    }
}

} // verus!
