//! Persistent storage of app state.

use vstd::prelude::*;

verus! {

/// A place where you can store custom data in a way that persists when you
/// restart the app.
///
/// On the web this is backed by local storage; on desktop by the file system.
pub trait Storage {
    /// Get the value for the given key.
    fn get_string(&self, key: &str) -> Option<String>;

    /// Set the value for the given key.
    fn set_string(&mut self, key: &str, value: String);

    /// Remove a given key.
    fn remove_string(&mut self, key: &str);

    /// Write to disk or similar.
    fn flush(&mut self);
}

/// [`Storage`] key used for the app.
pub const APP_KEY: &'static str = "app";

} // verus!
