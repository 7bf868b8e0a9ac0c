//! The abstract capability standing for the real terminal device, and an
//! in-memory implementation that records every operation it is given.

use vstd::prelude::*;

use crate::emit::TermOp;
use crate::geom::{Position, Size};

verus! {

/// The error every backend operation can fail with; the engine never
/// swallows it and propagates it to the `draw` caller unchanged.
#[derive(Debug)]
pub struct BackendError {
    pub message: String,
}

impl BackendError {
    pub fn new(message: String) -> (e: BackendError)
        ensures
            e.message@ == message@,
    {
        BackendError { message }
    }

    /// The human-readable description of the failure.
    pub fn message(&self) -> (m: &String)
        ensures
            m@ == self.message@,
    {
        &self.message
    }
}

/// Which part of the screen a clear request covers.
#[derive(Clone, Copy, Debug, PartialEq, Eq, Structural)]
pub enum ClearKind {
    /// The whole visible region.
    All,
    /// Everything after the cursor.
    AfterCursor,
    /// Everything before the cursor.
    BeforeCursor,
    /// The line the cursor is on.
    CurrentLine,
    /// From the cursor to the end of its line.
    UntilNewLine,
}

/// The only gateway to the real terminal device: size query, cursor
/// query/set, cursor show/hide, region clear, raw writes, flush.
///
/// All operations are blocking synchronous calls; any failure is reported
/// through [`BackendError`] and is not retried by the engine. A backend is
/// owned by exactly one terminal for its whole lifetime.
pub trait Backend: Sized {
    /// The current extent of the screen.
    fn size(&self) -> Result<Size, BackendError>;

    /// Where the cursor currently stands.
    fn get_cursor_position(&mut self) -> Result<Position, BackendError>;

    /// Move the cursor to an absolute position.
    fn set_cursor_position(&mut self, position: Position) -> Result<(), BackendError>;

    /// Make the cursor invisible.
    fn hide_cursor(&mut self) -> Result<(), BackendError>;

    /// Make the cursor visible.
    fn show_cursor(&mut self) -> Result<(), BackendError>;

    /// Clear a region of the screen.
    fn clear_region(&mut self, kind: ClearKind) -> Result<(), BackendError>;

    /// Queue one raw write: a cursor move, a color set, an attribute toggle
    /// or a piece of text.
    fn write_op(&mut self, op: &TermOp) -> Result<(), BackendError>;

    /// Push everything queued so far out to the device.
    fn flush(&mut self) -> Result<(), BackendError>;
}

/// An in-memory [`Backend`] for exercising the engine: it records every raw
/// write and clear it receives, tracks cursor state, and can be told to
/// fail its flush, so that failure paths can be observed.
#[derive(Debug)]
pub struct TestBackend {
    /// The extent the backend reports.
    pub screen_size: Size,
    /// Where the backend believes the cursor stands.
    pub cursor_position: Position,
    /// Whether the cursor is currently hidden.
    pub cursor_hidden: bool,
    /// Every raw write received, in order.
    pub recorded_ops: Vec<TermOp>,
    /// Every region clear received, in order.
    pub recorded_clears: Vec<ClearKind>,
    /// How many times `flush` has been called.
    pub flush_count: u64,
    /// When set, the next `flush` call reports failure.
    pub fail_next_flush: bool,
}

impl TestBackend {
    /// A backend reporting the given screen size, with a visible cursor at
    /// the origin and nothing recorded yet.
    pub fn new(width: u16, height: u16) -> (b: TestBackend)
        ensures
            b.screen_size == (Size { width, height }),
            b.cursor_position == (Position { x: 0u16, y: 0u16 }),
            !b.cursor_hidden,
            b.recorded_ops@.len() == 0,
            b.recorded_clears@.len() == 0,
            b.flush_count == 0,
            !b.fail_next_flush,
    {
        TestBackend {
            screen_size: Size { width, height },
            cursor_position: Position { x: 0, y: 0 },
            cursor_hidden: false,
            recorded_ops: Vec::new(),
            recorded_clears: Vec::new(),
            flush_count: 0,
            fail_next_flush: false,
        }
    }
}

impl Backend for TestBackend {
    fn size(&self) -> Result<Size, BackendError> {
        Ok(self.screen_size)
    }

    fn get_cursor_position(&mut self) -> Result<Position, BackendError> {
        Ok(self.cursor_position)
    }

    fn set_cursor_position(&mut self, position: Position) -> Result<(), BackendError> {
        self.cursor_position = position;
        Ok(())
    }

    fn hide_cursor(&mut self) -> Result<(), BackendError> {
        self.cursor_hidden = true;
        Ok(())
    }

    fn show_cursor(&mut self) -> Result<(), BackendError> {
        self.cursor_hidden = false;
        Ok(())
    }

    fn clear_region(&mut self, kind: ClearKind) -> Result<(), BackendError> {
        self.recorded_clears.push(kind);
        Ok(())
    }

    fn write_op(&mut self, op: &TermOp) -> Result<(), BackendError> {
        self.recorded_ops.push(op.clone());
        Ok(())
    }

    fn flush(&mut self) -> Result<(), BackendError> {
        if self.fail_next_flush {
            self.fail_next_flush = false;
            return Err(BackendError::new(String::from_str("flush failed")));
        }
        if self.flush_count < u64::MAX {
            self.flush_count = self.flush_count + 1;
        }
        Ok(())
    }
}

} // verus!
