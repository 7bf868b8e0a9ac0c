//! The overlay menu: its option lists, selection state, and the plain
//! ANSI text helpers the overlay draws with.

use vstd::prelude::*;

use crate::strutil::{truncate_spec, truncate_text_impl, str_eq};

verus! {

/// What an overlay menu interaction asks the application to do next.
#[derive(Debug, Clone, Copy, PartialEq, Eq, Structural)]
pub enum MenuResult {
    Continue,
    Exit,
    ClearChat,
    BackToMain,
    ConfigurationUpdated,
}

/// The text `s` wrapped in an ANSI escape that applies `code` and resets
/// afterwards.
pub open spec fn ansi_wrapped(code: Seq<char>, text: Seq<char>) -> Seq<char> {
    seq!['\u{1b}', '['] + code + seq!['m'] + text + seq!['\u{1b}', '[', '0', 'm']
}

/// Wrap `text` in the ANSI color escape for `color_code`, resetting styles
/// afterwards.
pub fn format_colored(text: &str, color_code: &str) -> (r: String)
    ensures
        r@ == ansi_wrapped(color_code@, text@),
{
    let mut out = String::new();
    out.push('\u{1b}');
    out.push('[');
    out.append(color_code);
    out.push('m');
    out.append(text);
    out.push('\u{1b}');
    out.push('[');
    out.push('0');
    out.push('m');
    proof {
        assert(out@ =~= ansi_wrapped(color_code@, text@));
    }
    out
}

/// Wrap `text` in the ANSI escape for bold plus `color_code`, resetting
/// styles afterwards.
pub fn format_colored_bold(text: &str, color_code: &str) -> (r: String)
    ensures
        r@ == ansi_wrapped(seq!['1', ';'] + color_code@, text@),
{
    let mut out = String::new();
    out.push('\u{1b}');
    out.push('[');
    out.push('1');
    out.push(';');
    out.append(color_code);
    out.push('m');
    out.append(text);
    out.push('\u{1b}');
    out.push('[');
    out.push('0');
    out.push('m');
    proof {
        assert(out@ =~= ansi_wrapped(seq!['1', ';'] + color_code@, text@));
    }
    out
}

/// The lowercase form of a character sequence, exactly as
/// `str::to_lowercase` computes it.
pub uninterp spec fn lower_of(s: Seq<char>) -> Seq<char>;

/// Relies on `str::to_lowercase`: the result depends on the characters
/// alone.
#[verifier::external_body]
pub(crate) fn lowercase(s: &str) -> (r: String)
    ensures
        r@ == lower_of(s@),
{
    s.to_lowercase()
}

/// The default model for a provider name already folded to lowercase.
pub open spec fn default_model_spec(p: Seq<char>) -> Seq<char> {
    if p == "z.ai coding plan"@ || p == "z.ai"@ || p == "zai"@ {
        "glm-4.6"@
    } else if p == "openai"@ {
        "gpt-3.5-turbo"@
    } else if p == "ollama"@ {
        "llama2"@
    } else if p == "openrouter"@ {
        "openai/gpt-4o"@
    } else {
        "default"@
    }
}

/// The full-screen overlay menu: a main option list, a settings option
/// list, one selection index, and which of the two lists is active.
#[derive(Debug)]
pub struct OverlayMenu {
    pub selected_index: usize,
    pub main_options: Vec<String>,
    pub config_options: Vec<String>,
    pub is_in_config: bool,
}

impl OverlayMenu {
    /// Truncate text to fit within `max_width` characters, adding `"..."`
    /// if anything was cut.
    pub fn truncate_text(text: &str, max_width: usize) -> (r: String)
        ensures
            r@ == truncate_spec(text@, max_width as int),
    {
        truncate_text_impl(text, max_width)
    }

    /// A fresh overlay menu: the five main options, the five settings
    /// options, the first entry selected, the main list active.
    pub fn new() -> (r: OverlayMenu)
        ensures
            r.selected_index == 0,
            !r.is_in_config,
            r.main_options@.len() == 5,
            r.main_options@[0]@ == "💬 Continue Chat"@,
            r.main_options@[1]@ == "⚙️  Settings"@,
            r.main_options@[2]@ == "ℹ️  Info & Help"@,
            r.main_options@[3]@ == "🧹 Clear Chat"@,
            r.main_options@[4]@ == "🚪 Exit ARULA"@,
            r.config_options@.len() == 5,
            r.config_options@[0]@ == "🤖 AI Provider"@,
            r.config_options@[1]@ == "🧠 AI Model"@,
            r.config_options@[2]@ == "🌐 API URL"@,
            r.config_options@[3]@ == "🔑 API Key"@,
            r.config_options@[4]@ == "← Back to Menu"@,
    {
        let mut main_options: Vec<String> = Vec::new();
        main_options.push(String::from_str("💬 Continue Chat"));
        main_options.push(String::from_str("⚙️  Settings"));
        main_options.push(String::from_str("ℹ️  Info & Help"));
        main_options.push(String::from_str("🧹 Clear Chat"));
        main_options.push(String::from_str("🚪 Exit ARULA"));
        let mut config_options: Vec<String> = Vec::new();
        config_options.push(String::from_str("🤖 AI Provider"));
        config_options.push(String::from_str("🧠 AI Model"));
        config_options.push(String::from_str("🌐 API URL"));
        config_options.push(String::from_str("🔑 API Key"));
        config_options.push(String::from_str("← Back to Menu"));
        OverlayMenu { selected_index: 0, main_options, config_options, is_in_config: false }
    }

    /// The default model name for a provider, compared case-insensitively.
    pub fn get_default_model_for_provider(&self, provider: &str) -> (r: String)
        ensures
            r@ == default_model_spec(lower_of(provider@)),
    {
        let lowered = lowercase(provider);
        let p = lowered.as_str();
        if str_eq(p, "z.ai coding plan") || str_eq(p, "z.ai") || str_eq(p, "zai") {
            String::from_str("glm-4.6")
        } else if str_eq(p, "openai") {
            String::from_str("gpt-3.5-turbo")
        } else if str_eq(p, "ollama") {
            String::from_str("llama2")
        } else if str_eq(p, "openrouter") {
            String::from_str("openai/gpt-4o")
        } else {
            String::from_str("default")
        }
    }
}

} // verus!
