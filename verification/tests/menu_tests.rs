//! Tests for the menu pages and the ESC state machine.

use arula::menu_common::{MenuState as CommonMenuState, MenuUtils};
use arula::reedline_menu::{
    esc_transition, ArulaMenu, MenuItem, MenuState, MenuStateMachine, SettingsItem,
};

#[test]
fn test_menu_items() {
    let items = MenuItem::all();
    assert_eq!(items.len(), 5);
    assert_eq!(items[0].label(), "💬 Continue Chat");
}

#[test]
fn test_settings_items() {
    let items = SettingsItem::all();
    assert_eq!(items.len(), 5);
    assert_eq!(items[0].label(), "🤖 AI Provider");
}

#[test]
fn test_menu_navigation() {
    let mut menu = ArulaMenu::new();
    assert_eq!(menu.selected, 0);

    menu.move_down();
    assert_eq!(menu.selected, 1);

    menu.move_up();
    assert_eq!(menu.selected, 0);

    menu.move_up(); // Wraps to end
    assert_eq!(menu.selected, 4);
}

#[test]
fn test_menu_state_machine() {
    let mut sm = MenuStateMachine::new();
    assert_eq!(sm.current_state(), MenuState::Hidden);

    // First ESC - stay hidden
    sm.handle_esc();
    assert_eq!(sm.current_state(), MenuState::Hidden);

    // Second ESC - show menu
    sm.handle_esc();
    assert_eq!(sm.current_state(), MenuState::Main);

    // ESC in menu - hide
    sm.handle_esc();
    assert_eq!(sm.current_state(), MenuState::Hidden);
}

#[test]
fn test_menu_switching() {
    let mut menu = ArulaMenu::new();
    assert!(!menu.in_settings);

    menu.switch_to_settings();
    assert!(menu.in_settings);
    assert_eq!(menu.title, "Settings");

    menu.switch_to_main();
    assert!(!menu.in_settings);
    assert_eq!(menu.title, "ARULA Menu");
}

#[test]
fn test_menu_descriptions() {
    assert_eq!(MenuItem::Exit.description(), "Exit the application");
    assert_eq!(SettingsItem::Back.description(), "Return to main menu");
}

#[test]
fn test_selected_items_per_page() {
    let mut menu = ArulaMenu::new();
    assert_eq!(menu.get_selected_main_item(), Some(MenuItem::Continue));
    assert_eq!(menu.get_selected_settings_item(), None);

    menu.switch_to_settings();
    menu.move_down();
    assert_eq!(menu.get_selected_main_item(), None);
    assert_eq!(menu.get_selected_settings_item(), Some(SettingsItem::Model));
}

#[test]
fn test_esc_transition_table() {
    // A first press from hidden only counts.
    assert_eq!(esc_transition(MenuState::Hidden, 0, false), (MenuState::Hidden, 1));
    // A second quick press opens the menu and clears the count.
    assert_eq!(esc_transition(MenuState::Hidden, 1, false), (MenuState::Main, 0));
    // A press after a long pause restarts the count.
    assert_eq!(esc_transition(MenuState::Hidden, 1, true), (MenuState::Hidden, 1));
    // Any press while visible hides the menu.
    assert_eq!(esc_transition(MenuState::Main, 0, false), (MenuState::Hidden, 0));
    assert_eq!(esc_transition(MenuState::Settings, 5, true), (MenuState::Hidden, 0));
}

#[test]
fn test_render_line_count() {
    let menu = ArulaMenu::new();
    let lines = menu.render(40);
    // Title, five items, one description, footer, blank, key help.
    assert_eq!(lines.len(), 10);
    assert_eq!(lines[0], "╭─ ARULA Menu ─╮");
    // The selected first item carries the highlighted marker and is
    // followed by its dimmed description; the others are plain.
    let marked = "\u{1b}[1;36m▶ 💬 Continue Chat\u{1b}[0m";
    let pad = " ".repeat(36 - marked.chars().count());
    assert_eq!(lines[1], format!("│ {}{} │", marked, pad));
    let desc = "\u{1b}[90m  Return to conversation\u{1b}[0m";
    let desc_pad = " ".repeat(36 - desc.chars().count());
    assert_eq!(lines[2], format!("│ {}{} │", desc, desc_pad));
    let plain = "  ⚙️  Settings";
    let plain_pad = " ".repeat(36 - plain.chars().count());
    assert_eq!(lines[3], format!("│ {}{} │", plain, plain_pad));
    assert_eq!(lines[7], "╰─────────────────────────────╯");
    assert_eq!(lines[8], "");
    assert_eq!(lines[9], "\u{1b}[90m  ↑↓ Navigate  │  Enter Select  │  ESC Cancel\u{1b}[0m");
}

#[test]
fn test_common_menu_state_wraps() {
    let mut state = CommonMenuState::new();
    assert_eq!(state.selected_index, 0);
    state.move_up(4);
    assert_eq!(state.selected_index, 3);
    state.move_down(4);
    assert_eq!(state.selected_index, 0);
    state.move_down(4);
    state.move_down(4);
    state.move_down(4);
    assert_eq!(state.selected_index, 3);
    state.reset();
    assert_eq!(state.selected_index, 0);
}

#[test]
fn test_format_menu_item_markers() {
    assert_eq!(MenuUtils::format_menu_item("Alpha", true), "▶ Alpha");
    assert_eq!(MenuUtils::format_menu_item("Alpha", false), "  Alpha");
}

#[test]
fn test_truncate_text() {
    assert_eq!(MenuUtils::truncate_text("short", 10), "short");
    assert_eq!(MenuUtils::truncate_text("a very long label", 10), "a very ...");
    assert_eq!(MenuUtils::truncate_text("abcdef", 2), "...");
}

#[test]
fn test_render_box_shape() {
    let frame = MenuUtils::render_box("Menu", 12, 5);
    assert_eq!(frame.len(), 5);
    assert_eq!(frame[1], "│          │");
    assert_eq!(frame[2], "│          │");
    assert_eq!(frame[3], "│          │");
    assert_eq!(frame[4], "└──────────┘");
    let top: Vec<char> = frame[0].chars().collect();
    assert_eq!(top.len(), 12);
    assert_eq!(top[0], '┌');
    assert_eq!(top[11], '┐');
    let title: String = top[3..9].iter().collect();
    assert_eq!(title, " Menu ");
}
