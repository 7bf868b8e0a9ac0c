//! Desktop notification support for when the terminal is unfocused.
//!
//! Which backend a platform offers is discovered by the embedding
//! application (it probes the system); the manager here carries the
//! detected kind, the shared focus flag, and the decision logic.

use vstd::prelude::*;

use std::sync::atomic::{AtomicBool, Ordering};
use std::sync::Arc;

verus! {

/// The error a notification backend can fail with.
#[derive(Debug)]
pub struct NotifyError {
    pub message: String,
}

/// A desktop notification backend, implemented per platform by the
/// embedding application.
pub trait NotificationBackend {
    /// Send a notification with the given message.
    fn notify(&mut self, message: &str) -> Result<(), NotifyError>;

    /// Which kind of backend this is.
    fn kind(&self) -> NotificationBackendKind;
}

/// The type of notification backend in use.
#[derive(Debug, Clone, Copy, PartialEq, Eq, Structural)]
pub enum NotificationBackendKind {
    /// No notification support.
    NoBackend,
    /// Linux desktop notifications via dbus.
    LinuxDbus,
    /// macOS native notifications.
    MacOS,
    /// Windows toast notifications.
    WindowsToast,
}

/// The desktop notification manager: the detected backend kind and the
/// shared focus flag the terminal updates.
#[derive(Debug)]
pub struct NotificationManager {
    pub backend: Option<NotificationBackendKind>,
    pub terminal_focused: Arc<AtomicBool>,
}

impl NotificationManager {
    /// A manager over the shared focus flag, with no backend installed
    /// yet; the embedding application detects the platform backend and
    /// installs its kind.
    pub fn new(terminal_focused: Arc<AtomicBool>) -> (r: NotificationManager)
        ensures
            r.backend is None,
    {
        NotificationManager { backend: None, terminal_focused }
    }

    /// Record which platform backend the application detected.
    pub fn install_backend(&mut self, kind: NotificationBackendKind)
        ensures
            final(self).backend == Some(kind),
            final(self).terminal_focused == old(self).terminal_focused,
    {
        self.backend = Some(kind);
    }

    /// Record whether the terminal is focused. The flag is shared, so what
    /// a later read returns depends on every holder of it.
    pub fn set_focused(&self, focused: bool) {
        self.terminal_focused.store(focused, Ordering::Relaxed);
    }

    /// Whether the terminal is focused, as the shared flag currently
    /// reads; the flag is shared, so no more can be promised of the value.
    pub fn is_focused(&self) -> bool {
        self.terminal_focused.load(Ordering::Relaxed)
    }

    /// The kind of the installed backend, or
    /// [`NotificationBackendKind::NoBackend`] when none was installed.
    pub fn backend_kind(&self) -> (r: NotificationBackendKind)
        ensures
            r == (match self.backend {
                Some(k) => k,
                None => NotificationBackendKind::NoBackend,
            }),
    {
        match self.backend {
            Some(k) => k,
            None => NotificationBackendKind::NoBackend,
        }
    }

    /// Whether a notification should go out now: only when the terminal is
    /// unfocused and a backend is installed. Reads the shared flag, so the
    /// answer reflects its value at the moment of the call.
    pub fn should_notify(&self) -> (r: bool)
        ensures
            self.backend is None ==> !r,
    {
        if self.terminal_focused.load(Ordering::Relaxed) {
            return false;
        }
        match self.backend {
            Some(_) => true,
            None => false,
        }
    }
}

/// The Linux notification backend, speaking to the desktop over dbus. Its
/// probing and sending run system commands and live with the embedding
/// application.
#[derive(Debug, Clone, Copy, PartialEq, Eq, Structural)]
pub struct LinuxDbusNotifier;

/// The macOS notification backend. Sending runs system tools and lives
/// with the embedding application.
#[derive(Debug, Clone, Copy, PartialEq, Eq, Structural)]
pub struct MacOsNotifier;

impl MacOsNotifier {
    /// macOS always has a notification path available.
    pub fn new() -> (r: Option<MacOsNotifier>)
        ensures
            r == Some(MacOsNotifier),
    {
        Some(MacOsNotifier)
    }
}

/// The Windows toast notification backend. Sending runs system tools and
/// lives with the embedding application.
#[derive(Debug, Clone, Copy, PartialEq, Eq, Structural)]
pub struct WindowsNotifier;

impl WindowsNotifier {
    /// Windows always has toast notifications available.
    pub fn new() -> (r: Option<WindowsNotifier>)
        ensures
            r == Some(WindowsNotifier),
    {
        Some(WindowsNotifier)
    }
}

} // verus!
