//! The provider selection menu: the list of AI providers to pick from.

use vstd::prelude::*;

use crate::menu_common::MenuState;

verus! {

/// The provider names offered for selection, in display order.
pub open spec fn provider_names_spec() -> Seq<Seq<char>> {
    seq![
        "openai"@,
        "anthropic"@,
        "ollama"@,
        "z.ai coding plan"@,
        "openrouter"@,
        "custom"@,
    ]
}

/// The provider selection menu: the offered names and the selection state.
/// Drawing and key handling live with the embedding application.
#[derive(Debug)]
pub struct ProviderMenu {
    pub state: MenuState,
    pub providers: Vec<String>,
}

impl ProviderMenu {
    /// A fresh provider menu offering the six known providers.
    pub fn new() -> (r: ProviderMenu)
        ensures
            r.state.selected_index == 0,
            !r.state.is_in_submenu,
            r.providers@.len() == 6,
            forall|i: int| 0 <= i < 6 ==> #[trigger] r.providers@[i]@ == provider_names_spec()[i],
    {
        let mut providers: Vec<String> = Vec::new();
        providers.push(String::from_str("openai"));
        providers.push(String::from_str("anthropic"));
        providers.push(String::from_str("ollama"));
        providers.push(String::from_str("z.ai coding plan"));
        providers.push(String::from_str("openrouter"));
        providers.push(String::from_str("custom"));
        ProviderMenu { state: MenuState::new(), providers }
    }

    /// Reset the selection.
    pub fn reset(&mut self)
        ensures
            final(self).state.selected_index == 0,
            !final(self).state.is_in_submenu,
            final(self).providers == old(self).providers,
    {
        self.state.reset();
    }

    /// The available provider names.
    pub fn get_providers(&self) -> (r: &[String])
        ensures
            r@ == self.providers@,
    {
        self.providers.as_slice()
    }
}

} // verus!
