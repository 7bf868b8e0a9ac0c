//! Tests for the rendering core: buffers, the diff engine, the style
//! tracker, and the terminal lifecycle over the in-memory backend.

use arula::backend::{Backend, TestBackend};
use arula::buffer::Buffer;
use arula::cell::Cell;
use arula::diff::{diff_buffers, DrawCommand};
use arula::emit::{emit_commands, Attr, TermOp};
use arula::frame::Frame;
use arula::geom::{Position, Rect, Size};
use arula::style::{Color, Modifier};
use arula::terminal::CustomTerminal;

fn styled_cell(symbol: &str, fg: Color, bg: Color, modifier: Modifier) -> Cell {
    Cell::new(symbol.to_string(), fg, bg, modifier)
}

fn bold() -> Modifier {
    let mut m = Modifier::empty();
    m.bold = true;
    m
}

#[test]
fn test_diff_identical_buffers_is_empty() {
    let mut a = Buffer::empty(Rect::new(0, 0, 4, 3));
    let mut b = Buffer::empty(Rect::new(0, 0, 4, 3));
    a.set(1, 2, styled_cell("x", Color::Green, Color::Reset, Modifier::empty()));
    b.set(1, 2, styled_cell("x", Color::Green, Color::Reset, Modifier::empty()));
    let commands = diff_buffers(&a, &b);
    assert_eq!(commands.len(), 0);
}

#[test]
fn test_diff_single_character_change() {
    // Previous buffer: a 2x1 grid of default space cells; current buffer
    // has cell (0, 0) set to "a", red foreground, bold.
    let prev = Buffer::empty(Rect::new(0, 0, 2, 1));
    let mut curr = Buffer::empty(Rect::new(0, 0, 2, 1));
    curr.set(0, 0, styled_cell("a", Color::Red, Color::Reset, bold()));

    let commands = diff_buffers(&prev, &curr);
    assert_eq!(commands.len(), 1);
    let DrawCommand::Cell { x, y, fg, bg, modifier, symbol } = &commands[0];
    assert_eq!(*x, 0);
    assert_eq!(*y, 0);
    assert_eq!(*fg, Color::Red);
    assert_eq!(*bg, Color::Reset);
    assert_eq!(*modifier, bold());
    assert_eq!(symbol, "a");
}

#[test]
fn test_diff_is_deterministic() {
    let mut prev = Buffer::empty(Rect::new(0, 0, 3, 3));
    let mut curr = Buffer::empty(Rect::new(0, 0, 3, 3));
    prev.set(2, 0, styled_cell("p", Color::Blue, Color::Reset, Modifier::empty()));
    curr.set(0, 1, styled_cell("q", Color::Cyan, Color::Black, bold()));
    curr.set(2, 2, styled_cell("r", Color::Reset, Color::Reset, Modifier::empty()));

    let first = diff_buffers(&prev, &curr);
    let second = diff_buffers(&prev, &curr);
    assert_eq!(first.len(), second.len());
    for (a, b) in first.iter().zip(second.iter()) {
        let DrawCommand::Cell { x, y, fg, bg, modifier, symbol } = a;
        let DrawCommand::Cell { x: x2, y: y2, fg: fg2, bg: bg2, modifier: m2, symbol: s2 } = b;
        assert_eq!(x, x2);
        assert_eq!(y, y2);
        assert_eq!(fg, fg2);
        assert_eq!(bg, bg2);
        assert_eq!(modifier, m2);
        assert_eq!(symbol, s2);
    }
}

#[test]
fn test_diff_raster_order() {
    let prev = Buffer::empty(Rect::new(0, 0, 2, 2));
    let mut curr = Buffer::empty(Rect::new(0, 0, 2, 2));
    curr.set(1, 1, styled_cell("d", Color::Reset, Color::Reset, Modifier::empty()));
    curr.set(0, 0, styled_cell("a", Color::Reset, Color::Reset, Modifier::empty()));
    curr.set(1, 0, styled_cell("b", Color::Reset, Color::Reset, Modifier::empty()));

    let commands = diff_buffers(&prev, &curr);
    let coords: Vec<(u16, u16)> = commands
        .iter()
        .map(|c| {
            let DrawCommand::Cell { x, y, .. } = c;
            (*x, *y)
        })
        .collect();
    assert_eq!(coords, vec![(0, 0), (1, 0), (1, 1)]);
}

#[test]
fn test_style_minimization_over_a_run() {
    // Three consecutive commands sharing identical colors and modifiers:
    // exactly one color-set for the run, and no modifier transitions.
    let mut commands = Vec::new();
    for x in 0..3u16 {
        commands.push(DrawCommand::Cell {
            x,
            y: 0,
            fg: Color::Red,
            bg: Color::Reset,
            modifier: Modifier::empty(),
            symbol: "a".to_string(),
        });
    }
    let ops = emit_commands(&commands);
    let expected = vec![
        TermOp::MoveTo(0, 0),
        TermOp::SetColors(Color::Red, Color::Reset),
        TermOp::Print("a".to_string()),
        TermOp::MoveTo(1, 0),
        TermOp::Print("a".to_string()),
        TermOp::MoveTo(2, 0),
        TermOp::Print("a".to_string()),
        TermOp::SetFg(Color::Reset),
        TermOp::SetBg(Color::Reset),
        TermOp::SetAttr(Attr::Reset),
    ];
    assert_eq!(ops, expected);
}

#[test]
fn test_attribute_toggle_sequencing() {
    // From {BOLD, UNDERLINED} to {DIM}: clear bold (re-emitting dim at
    // once, since intensity is one channel), clear underline, then the
    // addition pass emits dim.
    let mut with_bold_underline = Modifier::empty();
    with_bold_underline.bold = true;
    with_bold_underline.underlined = true;
    let mut with_dim = Modifier::empty();
    with_dim.dim = true;

    let commands = vec![
        DrawCommand::Cell {
            x: 0,
            y: 0,
            fg: Color::Reset,
            bg: Color::Reset,
            modifier: with_bold_underline,
            symbol: "x".to_string(),
        },
        DrawCommand::Cell {
            x: 1,
            y: 0,
            fg: Color::Reset,
            bg: Color::Reset,
            modifier: with_dim,
            symbol: "y".to_string(),
        },
    ];
    let ops = emit_commands(&commands);
    let expected = vec![
        TermOp::MoveTo(0, 0),
        TermOp::SetAttr(Attr::Bold),
        TermOp::SetAttr(Attr::Underlined),
        TermOp::Print("x".to_string()),
        TermOp::MoveTo(1, 0),
        TermOp::SetAttr(Attr::NormalIntensity),
        TermOp::SetAttr(Attr::Dim),
        TermOp::SetAttr(Attr::NoUnderline),
        TermOp::SetAttr(Attr::Dim),
        TermOp::Print("y".to_string()),
        TermOp::SetFg(Color::Reset),
        TermOp::SetBg(Color::Reset),
        TermOp::SetAttr(Attr::Reset),
    ];
    assert_eq!(ops, expected);
}

#[test]
fn test_emit_resets_style_even_without_commands() {
    let ops = emit_commands(&Vec::new());
    let expected = vec![
        TermOp::SetFg(Color::Reset),
        TermOp::SetBg(Color::Reset),
        TermOp::SetAttr(Attr::Reset),
    ];
    assert_eq!(ops, expected);
}

#[test]
fn test_resize_clears_content() {
    let mut buffer = Buffer::empty(Rect::new(0, 0, 3, 2));
    buffer.set(2, 1, styled_cell("z", Color::Yellow, Color::Blue, bold()));

    // Growing clears every cell to the default.
    buffer.resize(Rect::new(0, 0, 5, 4));
    assert_eq!(buffer.cells.len(), 20);
    for cell in buffer.cells.iter() {
        assert_eq!(cell.symbol, " ");
        assert_eq!(cell.fg, Color::Reset);
        assert_eq!(cell.bg, Color::Reset);
        assert_eq!(cell.modifier, Modifier::empty());
    }

    // Shrinking clears as well.
    buffer.set(0, 0, styled_cell("w", Color::Green, Color::Reset, Modifier::empty()));
    buffer.resize(Rect::new(0, 0, 2, 1));
    assert_eq!(buffer.cells.len(), 2);
    for cell in buffer.cells.iter() {
        assert_eq!(cell.symbol, " ");
    }
}

#[test]
fn test_render_widget_writes_subrect() {
    let mut frame = Frame {
        cursor_position: None,
        viewport_area: Rect::new(0, 0, 4, 3),
        buffer: Buffer::empty(Rect::new(0, 0, 4, 3)),
    };
    let content = vec![
        styled_cell("1", Color::Red, Color::Reset, Modifier::empty()),
        styled_cell("2", Color::Red, Color::Reset, Modifier::empty()),
    ];
    frame.render_widget(&content, Rect::new(1, 1, 2, 1));
    assert_eq!(frame.buffer.get(1, 1).symbol, "1");
    assert_eq!(frame.buffer.get(2, 1).symbol, "2");
    assert_eq!(frame.buffer.get(0, 0).symbol, " ");
    assert_eq!(frame.buffer.get(3, 1).symbol, " ");
}

fn move_to_count(ops: &[TermOp]) -> usize {
    ops.iter().filter(|op| matches!(op, TermOp::MoveTo(_, _))).count()
}

#[test]
fn test_full_screen_clear_forces_redraw() {
    let backend = TestBackend::new(10, 4);
    let mut terminal = CustomTerminal::with_options(backend).unwrap();
    terminal.set_viewport_area(Rect::new(0, 0, 3, 2));

    // Fill the whole 3x2 viewport with non-default cells.
    let draw_content = |mut frame: Frame| {
        let cells: Vec<Cell> = (0..6)
            .map(|_| Cell::new("h".to_string(), Color::Green, Color::Reset, Modifier::empty()))
            .collect();
        frame.render_widget(&cells, Rect::new(0, 0, 3, 2));
        frame
    };

    terminal.draw(draw_content).unwrap();
    assert_eq!(move_to_count(&terminal.backend().recorded_ops), 6);
    terminal.backend_mut().recorded_ops.clear();

    // Without a clear, drawing identical content again diffs to nothing.
    terminal.draw(draw_content).unwrap();
    assert_eq!(move_to_count(&terminal.backend().recorded_ops), 0);
    terminal.backend_mut().recorded_ops.clear();

    // After clear(), the previous buffer is reset, so the next draw emits
    // a command for every cell of the viewport even though the content is
    // unchanged from two frames ago.
    terminal.clear().unwrap();
    terminal.draw(draw_content).unwrap();
    assert_eq!(move_to_count(&terminal.backend().recorded_ops), 6);
    assert_eq!(terminal.backend().recorded_clears.len(), 1);
}

#[test]
fn test_failed_flush_does_not_swap() {
    let backend = TestBackend::new(10, 4);
    let mut terminal = CustomTerminal::with_options(backend).unwrap();
    terminal.set_viewport_area(Rect::new(0, 0, 2, 1));

    let draw_content = |mut frame: Frame| {
        let cell = Cell::new("k".to_string(), Color::Cyan, Color::Reset, Modifier::empty());
        frame.buffer_mut().set(1, 0, cell);
        frame
    };

    terminal.backend_mut().fail_next_flush = true;
    let result = terminal.draw(draw_content);
    assert!(result.is_err());

    // The buffer that was current stays current: its content is still
    // there, and the previous buffer still holds the pre-draw state, so
    // the next draw recomputes the same diff.
    assert_eq!(terminal.current_buffer().get(1, 0).symbol, "k");
    assert_eq!(terminal.previous_buffer().get(1, 0).symbol, " ");

    terminal.backend_mut().recorded_ops.clear();
    terminal.draw(|frame| frame).unwrap();
    let printed: Vec<&TermOp> = terminal
        .backend()
        .recorded_ops
        .iter()
        .filter(|op| matches!(op, TermOp::Print(_)))
        .collect();
    assert_eq!(printed, vec![&TermOp::Print("k".to_string())]);

    // After the successful draw the buffers swapped.
    assert_eq!(terminal.previous_buffer().get(1, 0).symbol, "k");
}

#[test]
fn test_cursor_request_controls_visibility() {
    let backend = TestBackend::new(10, 4);
    let mut terminal = CustomTerminal::with_options(backend).unwrap();
    terminal.set_viewport_area(Rect::new(0, 0, 2, 1));

    terminal.draw(|frame| frame).unwrap();
    assert!(terminal.hidden_cursor);
    assert!(terminal.backend().cursor_hidden);

    terminal
        .draw(|mut frame| {
            frame.set_cursor_position(Position::new(1, 0));
            frame
        })
        .unwrap();
    assert!(!terminal.hidden_cursor);
    assert!(!terminal.backend().cursor_hidden);
    assert_eq!(terminal.last_known_cursor_pos, Position::new(1, 0));
    assert_eq!(terminal.backend().cursor_position, Position::new(1, 0));
}

#[test]
fn test_with_options_initial_state() {
    let mut backend = TestBackend::new(10, 4);
    backend.cursor_position = Position::new(3, 2);
    let terminal = CustomTerminal::with_options(backend).unwrap();
    // The queried size and cursor position are recorded, and the empty
    // viewport is anchored at the cursor row.
    assert_eq!(terminal.last_known_screen_size, Size::new(10, 4));
    assert_eq!(terminal.last_known_cursor_pos, Position::new(3, 2));
    assert_eq!(terminal.viewport_area, Rect::new(0, 2, 0, 0));
    assert_eq!(terminal.current, 0);
    assert!(!terminal.hidden_cursor);
    assert_eq!(terminal.current_buffer().cells.len(), 0);
    assert_eq!(terminal.previous_buffer().cells.len(), 0);
}

#[test]
fn test_autoresize_adopts_new_size_and_clears() {
    let backend = TestBackend::new(11, 7);
    let mut terminal = CustomTerminal::with_options(backend).unwrap();
    assert_eq!(terminal.last_known_screen_size, Size::new(11, 7));

    // An unchanged size leaves everything alone.
    terminal.set_viewport_area(Rect::new(0, 0, 2, 2));
    terminal
        .draw(|mut frame| {
            let cell = Cell::new("s".to_string(), Color::Red, Color::Reset, Modifier::empty());
            frame.buffer_mut().set(0, 0, cell);
            frame
        })
        .unwrap();
    terminal.autoresize().unwrap();
    assert_eq!(terminal.viewport_area, Rect::new(0, 0, 2, 2));
    assert_eq!(terminal.previous_buffer().get(0, 0).symbol, "s");

    // A changed size resizes both buffers to the new full viewport and
    // clears them; no diff is owed against the old content.
    terminal.backend_mut().screen_size = Size::new(13, 9);
    terminal.autoresize().unwrap();
    assert_eq!(terminal.last_known_screen_size, Size::new(13, 9));
    assert_eq!(terminal.viewport_area, Rect::new(0, 0, 13, 9));
    assert_eq!(terminal.current_buffer().cells.len(), 13 * 9);
    assert_eq!(terminal.previous_buffer().cells.len(), 13 * 9);
    for cell in terminal.current_buffer().cells.iter() {
        assert_eq!(cell.symbol, " ");
    }
    for cell in terminal.previous_buffer().cells.iter() {
        assert_eq!(cell.symbol, " ");
    }
}
