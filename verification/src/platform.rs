//! The window-system adapter: what a platform layer offers the session.
//!
//! Real file dialogs and shortcut registration live in the platform
//! layer outside this crate; the adapters here are the placeholders for
//! platforms whose native integration is not written yet, and the trait
//! is what a native layer implements.

use vstd::prelude::*;

verus! {

/// What a platform's window layer offers. A returned path is a plain
/// string; no dialog means no path.
pub trait PlatformAdapter {
    /// Asks the user for a file to open.
    fn open_file_dialog() -> Option<String>;

    /// Registers the application's keyboard shortcuts.
    fn register_shortcuts();
}

/// The Linux adapter; its native dialog is not written yet.
pub struct LinuxPlatform;

impl PlatformAdapter for LinuxPlatform {
    fn open_file_dialog() -> Option<String> {
        None
    }

    fn register_shortcuts() {
    }
}

/// The macOS adapter; its native dialog is not written yet.
pub struct MacOSPlatform;

impl PlatformAdapter for MacOSPlatform {
    fn open_file_dialog() -> Option<String> {
        None
    }

    fn register_shortcuts() {
    }
}

/// The Windows adapter; its native dialog is not written yet.
pub struct WindowsPlatform;

impl PlatformAdapter for WindowsPlatform {
    fn open_file_dialog() -> Option<String> {
        None
    }

    fn register_shortcuts() {
    }
}

} // verus!
