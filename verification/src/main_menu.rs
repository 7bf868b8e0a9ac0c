//! The main menu page: its entries and selection handling.

use vstd::prelude::*;

use crate::menu_common::MenuState;

verus! {

/// The entries of the main menu.
#[derive(Debug, Clone, Copy, PartialEq, Eq, Structural)]
pub enum MainMenuItem {
    ContinueChat,
    Settings,
    InfoHelp,
    ClearChat,
}

impl MainMenuItem {
    /// All entries, in display order.
    pub open spec fn all_spec() -> Seq<MainMenuItem> {
        seq![
            MainMenuItem::ContinueChat,
            MainMenuItem::Settings,
            MainMenuItem::InfoHelp,
            MainMenuItem::ClearChat,
        ]
    }

    /// The label shown for this entry.
    pub open spec fn label_spec(self) -> Seq<char> {
        match self {
            MainMenuItem::ContinueChat => "⦿ Continue Chat"@,
            MainMenuItem::Settings => "⚙ Settings"@,
            MainMenuItem::InfoHelp => "ℹ Info & Help"@,
            MainMenuItem::ClearChat => "Ⓒ Clear Chat"@,
        }
    }

    /// The one-line description shown for this entry.
    pub open spec fn description_spec(self) -> Seq<char> {
        match self {
            MainMenuItem::ContinueChat => "Return to conversation"@,
            MainMenuItem::Settings => "Configure AI provider and settings"@,
            MainMenuItem::InfoHelp => "View help and session information"@,
            MainMenuItem::ClearChat => "Clear conversation history"@,
        }
    }

    /// All entries, in display order.
    pub fn all() -> (r: Vec<MainMenuItem>)
        ensures
            r@ == MainMenuItem::all_spec(),
    {
        let mut v: Vec<MainMenuItem> = Vec::new();
        v.push(MainMenuItem::ContinueChat);
        v.push(MainMenuItem::Settings);
        v.push(MainMenuItem::InfoHelp);
        v.push(MainMenuItem::ClearChat);
        proof {
            assert(v@ =~= MainMenuItem::all_spec());
        }
        v
    }

    pub fn label(&self) -> (r: &str)
        ensures
            r@ == self.label_spec(),
    {
        match self {
            MainMenuItem::ContinueChat => "⦿ Continue Chat",
            MainMenuItem::Settings => "⚙ Settings",
            MainMenuItem::InfoHelp => "ℹ Info & Help",
            MainMenuItem::ClearChat => "Ⓒ Clear Chat",
        }
    }

    pub fn description(&self) -> (r: &str)
        ensures
            r@ == self.description_spec(),
    {
        match self {
            MainMenuItem::ContinueChat => "Return to conversation",
            MainMenuItem::Settings => "Configure AI provider and settings",
            MainMenuItem::InfoHelp => "View help and session information",
            MainMenuItem::ClearChat => "Clear conversation history",
        }
    }
}

/// The main menu: its entries and the selection state. Drawing and key
/// handling live with the embedding application; the selection logic lives
/// here.
#[derive(Debug)]
pub struct MainMenu {
    pub state: MenuState,
    pub items: Vec<MainMenuItem>,
}

impl MainMenu {
    /// A fresh main menu with the first entry selected.
    pub fn new() -> (r: MainMenu)
        ensures
            r.state.selected_index == 0,
            !r.state.is_in_submenu,
            r.items@ == MainMenuItem::all_spec(),
    {
        MainMenu { state: MenuState::new(), items: MainMenuItem::all() }
    }

    /// Reset the selection.
    pub fn reset(&mut self)
        ensures
            final(self).state.selected_index == 0,
            !final(self).state.is_in_submenu,
            final(self).items == old(self).items,
    {
        self.state.reset();
    }

    /// The currently selected index.
    pub fn selected_index(&self) -> (r: usize)
        ensures
            r == self.state.selected_index,
    {
        self.state.selected_index
    }
}

} // verus!
