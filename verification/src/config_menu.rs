//! The configuration menu page: its entries and selection handling.

use vstd::prelude::*;

use crate::menu_common::MenuState;
use crate::provider_menu::ProviderMenu;

verus! {

/// The entries of the configuration menu.
#[derive(Debug, Clone, Copy, PartialEq, Eq, Structural)]
pub enum ConfigMenuItem {
    AIProvider,
    AIModel,
    APIUrl,
    APIKey,
    Back,
}

impl ConfigMenuItem {
    /// All entries, in display order.
    pub open spec fn all_spec() -> Seq<ConfigMenuItem> {
        seq![
            ConfigMenuItem::AIProvider,
            ConfigMenuItem::AIModel,
            ConfigMenuItem::APIUrl,
            ConfigMenuItem::APIKey,
            ConfigMenuItem::Back,
        ]
    }

    /// The label shown for this entry.
    pub open spec fn label_spec(self) -> Seq<char> {
        match self {
            ConfigMenuItem::AIProvider => "🤖 AI Provider"@,
            ConfigMenuItem::AIModel => "🧠 AI Model"@,
            ConfigMenuItem::APIUrl => "🌐 API URL"@,
            ConfigMenuItem::APIKey => "🔑 API Key"@,
            ConfigMenuItem::Back => "← Back to Menu"@,
        }
    }

    /// The one-line description shown for this entry.
    pub open spec fn description_spec(self) -> Seq<char> {
        match self {
            ConfigMenuItem::AIProvider => "Select AI provider (OpenAI, Anthropic, etc)"@,
            ConfigMenuItem::AIModel => "Choose AI model to use"@,
            ConfigMenuItem::APIUrl => "Set custom API endpoint URL"@,
            ConfigMenuItem::APIKey => "Configure API authentication key"@,
            ConfigMenuItem::Back => "Return to main menu"@,
        }
    }

    /// All entries, in display order.
    pub fn all() -> (r: Vec<ConfigMenuItem>)
        ensures
            r@ == ConfigMenuItem::all_spec(),
    {
        let mut v: Vec<ConfigMenuItem> = Vec::new();
        v.push(ConfigMenuItem::AIProvider);
        v.push(ConfigMenuItem::AIModel);
        v.push(ConfigMenuItem::APIUrl);
        v.push(ConfigMenuItem::APIKey);
        v.push(ConfigMenuItem::Back);
        proof {
            assert(v@ =~= ConfigMenuItem::all_spec());
        }
        v
    }

    pub fn label(&self) -> (r: &str)
        ensures
            r@ == self.label_spec(),
    {
        match self {
            ConfigMenuItem::AIProvider => "🤖 AI Provider",
            ConfigMenuItem::AIModel => "🧠 AI Model",
            ConfigMenuItem::APIUrl => "🌐 API URL",
            ConfigMenuItem::APIKey => "🔑 API Key",
            ConfigMenuItem::Back => "← Back to Menu",
        }
    }

    pub fn description(&self) -> (r: &str)
        ensures
            r@ == self.description_spec(),
    {
        match self {
            ConfigMenuItem::AIProvider => "Select AI provider (OpenAI, Anthropic, etc)",
            ConfigMenuItem::AIModel => "Choose AI model to use",
            ConfigMenuItem::APIUrl => "Set custom API endpoint URL",
            ConfigMenuItem::APIKey => "Configure API authentication key",
            ConfigMenuItem::Back => "Return to main menu",
        }
    }
}

/// The configuration menu: its entries, the selection state, and the
/// provider sub-menu. Drawing and the dialogs live with the embedding
/// application.
#[derive(Debug)]
pub struct ConfigMenu {
    pub state: MenuState,
    pub items: Vec<ConfigMenuItem>,
    pub provider_menu: ProviderMenu,
}

impl ConfigMenu {
    /// A fresh configuration menu with the first entry selected.
    pub fn new() -> (r: ConfigMenu)
        ensures
            r.state.selected_index == 0,
            !r.state.is_in_submenu,
            r.items@ == ConfigMenuItem::all_spec(),
            r.provider_menu.state.selected_index == 0,
    {
        ConfigMenu {
            state: MenuState::new(),
            items: ConfigMenuItem::all(),
            provider_menu: ProviderMenu::new(),
        }
    }

    /// Reset the selection.
    pub fn reset(&mut self)
        ensures
            final(self).state.selected_index == 0,
            !final(self).state.is_in_submenu,
            final(self).items == old(self).items,
            final(self).provider_menu == old(self).provider_menu,
    {
        self.state.reset();
    }
}

} // verus!
