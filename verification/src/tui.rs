//! Terminal focus tracking shared between the event loop and the
//! notification manager.

use vstd::prelude::*;

use std::sync::atomic::{AtomicBool, Ordering};
use std::sync::Arc;

verus! {

/// Whether the terminal window currently has focus, as a flag that can be
/// shared across the pieces that care.
#[derive(Debug)]
pub struct TerminalFocus {
    pub is_focused: Arc<AtomicBool>,
}

impl TerminalFocus {
    /// A fresh tracker that starts out focused.
    pub fn new() -> TerminalFocus {
        TerminalFocus { is_focused: Arc::new(AtomicBool::new(true)) }
    }

    /// Whether the terminal is focused, as the shared flag currently
    /// reads; the flag is shared, so no more can be promised of the value.
    pub fn is_focused(&self) -> bool {
        self.is_focused.load(Ordering::Relaxed)
    }

    /// Record that the terminal lost focus.
    pub fn set_unfocused(&self) {
        self.is_focused.store(false, Ordering::Relaxed);
    }

    /// Record that the terminal gained focus.
    pub fn set_focused(&self) {
        self.is_focused.store(true, Ordering::Relaxed);
    }
}

} // verus!
