//! Tests for the text helpers, the output shaping, the provider and
//! message-type mappings, the input history, and the pattern matcher.

use std::sync::atomic::AtomicBool;
use std::sync::Arc;

use arula::api::AIProvider;
use arula::app_events::AiResponse;
use arula::chat::MessageType;
use arula::config::Config;
use arula::find_files::FindFilesTool;
use arula::input_handler::{InputHandler, InputKey};
use arula::notifications::{NotificationBackendKind, NotificationManager};
use arula::output::OutputHandler;
use arula::overlay::{format_colored, format_colored_bold, OverlayMenu};
use arula::strutil::{contains_str, split_lines, str_eq, trim_str, usize_to_string};
use arula::tui::TerminalFocus;

#[test]
fn test_notification_manager_creation() {
    let focus = Arc::new(AtomicBool::new(true));
    let manager = NotificationManager::new(focus);
    assert!(manager.is_focused());
}

#[test]
fn test_notification_backend_kind() {
    let focus = Arc::new(AtomicBool::new(false));
    let mut manager = NotificationManager::new(focus);
    assert_eq!(manager.backend_kind(), NotificationBackendKind::NoBackend);
    assert!(!manager.should_notify());
    manager.install_backend(NotificationBackendKind::LinuxDbus);
    assert_eq!(manager.backend_kind(), NotificationBackendKind::LinuxDbus);
    assert!(manager.should_notify());
    manager.set_focused(true);
    assert!(!manager.should_notify());
}

#[test]
fn test_terminal_focus_tracking() {
    let focus = TerminalFocus::new();
    assert!(focus.is_focused());
    focus.set_unfocused();
    assert!(!focus.is_focused());
    focus.set_focused();
    assert!(focus.is_focused());
}

#[test]
fn test_trim_and_lines() {
    assert_eq!(trim_str("  hello world \t"), "hello world");
    assert_eq!(trim_str("\n\n"), "");
    let lines = split_lines("one\r\ntwo\nthree\n");
    assert_eq!(lines, vec!["one".to_string(), "two".to_string(), "three".to_string()]);
    assert_eq!(split_lines(""), Vec::<String>::new());
}

#[test]
fn test_contains_and_eq() {
    assert!(contains_str("a ```code``` block", "```"));
    assert!(!contains_str("plain text", "```"));
    assert!(str_eq("same", "same"));
    assert!(!str_eq("same", "sameish"));
}

#[test]
fn test_decimal_formatting() {
    assert_eq!(usize_to_string(0), "0");
    assert_eq!(usize_to_string(7), "7");
    assert_eq!(usize_to_string(10), "10");
    assert_eq!(usize_to_string(90125), "90125");
}

#[test]
fn test_output_handler_flags() {
    let handler = OutputHandler::new();
    assert!(!handler.is_debug());
    let handler = handler.with_debug(true);
    assert!(handler.is_debug());
}

#[test]
fn test_truncate_output() {
    let handler = OutputHandler::new();
    assert_eq!(handler.truncate_output("a\nb", 5), "a\nb");
    let long = "1\n2\n3\n4\n5";
    assert_eq!(handler.truncate_output(long, 3), "1\n2\n3\n... (2 more lines)");
}

#[test]
fn test_ansi_formatting() {
    assert_eq!(format_colored("hi", "31"), "\u{1b}[31mhi\u{1b}[0m");
    assert_eq!(format_colored_bold("hi", "31"), "\u{1b}[1;31mhi\u{1b}[0m");
}

#[test]
fn test_overlay_menu_options() {
    let menu = OverlayMenu::new();
    assert_eq!(menu.main_options.len(), 5);
    assert_eq!(menu.config_options.len(), 5);
    assert_eq!(menu.main_options[4], "🚪 Exit ARULA");
    assert!(!menu.is_in_config);
}

#[test]
fn test_default_model_for_provider() {
    let menu = OverlayMenu::new();
    assert_eq!(menu.get_default_model_for_provider("OpenAI"), "gpt-3.5-turbo");
    assert_eq!(menu.get_default_model_for_provider("z.ai"), "glm-4.6");
    assert_eq!(menu.get_default_model_for_provider("unheard of"), "default");
}

#[test]
fn test_provider_from_name() {
    assert_eq!(AIProvider::from_name("OpenAI"), AIProvider::OpenAI);
    assert_eq!(AIProvider::from_name("Anthropic"), AIProvider::Claude);
    assert_eq!(AIProvider::from_name("Ollama"), AIProvider::Ollama);
    assert_eq!(AIProvider::from_name("Z.AI Coding Plan"), AIProvider::ZAiCoding);
    assert_eq!(AIProvider::from_name("somewhere"), AIProvider::Custom);
}

#[test]
fn test_message_type_names() {
    assert_eq!(MessageType::User.as_str(), "user");
    assert_eq!(MessageType::Arula.as_str(), "arula");
    assert_eq!(MessageType::ToolCall.as_str(), "tool_call");
}

#[test]
fn test_ai_response_events() {
    let event = AiResponse::StreamChunk("hello".to_string());
    assert!(matches!(event, AiResponse::StreamChunk(ref chunk) if chunk == "hello"));
    let done = AiResponse::Success { response: "done".to_string(), usage: None };
    assert!(matches!(done, AiResponse::Success { .. }));
}

#[test]
fn test_config_defaults() {
    let config = Config::default();
    assert_eq!(config.ai.provider, "openai");
    assert_eq!(config.ai.model, "gpt-3.5-turbo");
    assert_eq!(config.ai.api_url, "https://api.openai.com");
    assert_eq!(config.ai.api_key, "");
}

#[test]
fn test_input_history() {
    let mut handler = InputHandler::new("> ");
    handler.add_to_history("first".to_string());
    handler.add_to_history("   ".to_string());
    handler.add_to_history("first".to_string());
    handler.add_to_history("second".to_string());
    assert_eq!(handler.get_history(), vec!["first".to_string(), "second".to_string()]);

    handler.load_history(vec!["third".to_string(), " ".to_string(), "fourth".to_string()]);
    assert_eq!(
        handler.get_history(),
        vec![
            "first".to_string(),
            "second".to_string(),
            "third".to_string(),
            "fourth".to_string(),
        ]
    );

    handler.set_prompt(">> ");
    assert_eq!(handler.prompt, ">> ");
    handler.buffer = "typing".to_string();
    handler.cursor_pos = 3;
    handler.clear();
    assert_eq!(handler.buffer, "");
    assert_eq!(handler.cursor_pos, 0);
}

#[test]
fn test_editor_key_handling() {
    let mut handler = InputHandler::new("> ");
    for c in ['e', 'c', 'h', 'o'] {
        assert_eq!(handler.handle_key(InputKey::Char(c)), None);
    }
    assert_eq!(handler.buffer, "echo");
    assert_eq!(handler.cursor_pos, 4);

    assert_eq!(handler.handle_key(InputKey::Left), None);
    assert_eq!(handler.handle_key(InputKey::Backspace), None);
    assert_eq!(handler.buffer, "eco");
    assert_eq!(handler.cursor_pos, 2);

    assert_eq!(handler.handle_key(InputKey::Delete), None);
    assert_eq!(handler.buffer, "ec");

    assert_eq!(handler.handle_key(InputKey::Home), None);
    assert_eq!(handler.handle_key(InputKey::Char('d')), None);
    assert_eq!(handler.buffer, "dec");

    assert_eq!(handler.handle_key(InputKey::Enter), Some("dec".to_string()));
    assert_eq!(handler.buffer, "");
    assert_eq!(handler.cursor_pos, 0);
}

#[test]
fn test_editor_word_delete_and_controls() {
    let mut handler = InputHandler::new("> ");
    for c in "git commit  ".chars() {
        handler.handle_key(InputKey::Char(c));
    }
    // Ctrl+W removes the trailing spaces and the last word.
    assert_eq!(handler.handle_key(InputKey::Ctrl('w')), None);
    assert_eq!(handler.buffer, "git ");
    assert_eq!(handler.cursor_pos, 4);

    assert_eq!(handler.handle_key(InputKey::Ctrl('u')), None);
    assert_eq!(handler.buffer, "");

    assert_eq!(handler.handle_key(InputKey::Ctrl('d')), Some("__CTRL_D__".to_string()));
    handler.handle_key(InputKey::Char('x'));
    assert_eq!(handler.handle_key(InputKey::Ctrl('d')), None);
    assert_eq!(handler.handle_key(InputKey::Ctrl('c')), Some("__CTRL_C__".to_string()));
    assert_eq!(handler.buffer, "");
}

#[test]
fn test_editor_history_navigation() {
    let mut handler = InputHandler::new("> ");
    handler.add_to_history("alpha".to_string());
    handler.add_to_history("beta".to_string());

    handler.handle_key(InputKey::Char('w'));
    // Up stashes the live buffer and walks backwards through history.
    handler.handle_key(InputKey::Up);
    assert_eq!(handler.buffer, "beta");
    handler.handle_key(InputKey::Up);
    assert_eq!(handler.buffer, "alpha");
    handler.handle_key(InputKey::Up);
    assert_eq!(handler.buffer, "alpha");

    // Down walks forward and finally restores the stashed buffer.
    handler.handle_key(InputKey::Down);
    assert_eq!(handler.buffer, "beta");
    handler.handle_key(InputKey::Down);
    assert_eq!(handler.buffer, "w");
    assert_eq!(handler.cursor_pos, 1);
    // A further Down with no history browse in progress changes nothing.
    handler.handle_key(InputKey::Down);
    assert_eq!(handler.buffer, "w");
}

#[test]
fn test_matches_pattern_glob_and_regex() {
    let tool = FindFilesTool::new();
    assert_eq!(tool.matches_pattern("main.rs", "*.rs", false), Ok(true));
    assert_eq!(tool.matches_pattern("main.rs", "*.py", false), Ok(false));
    assert_eq!(tool.matches_pattern("main.rs", r"^main\.(rs|py)$", true), Ok(true));
    assert_eq!(tool.matches_pattern("lib.rs", r"^main\.", true), Ok(false));
    let glob_err = tool.matches_pattern("x", "a{", false).unwrap_err();
    assert!(glob_err.starts_with("Invalid glob pattern: "));
    let regex_err = tool.matches_pattern("x", "(unclosed", true).unwrap_err();
    assert!(regex_err.starts_with("Invalid regex pattern: "));
}
