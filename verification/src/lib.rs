//! Platform-agnostic interface for writing apps using egui: the verified core.
//!
//! The numpad interception policy that decides which numpad key presses are taken
//! away from egui and handed to the application as keybinds, the rendering backend
//! choice, the web environment description and the storage interface.

pub mod keyboard;
pub mod numpad;
pub mod capture;
pub mod backend;
pub mod web;
pub mod storage;
pub mod options;

pub use backend::{Renderer, WebGlContextOption};
pub use capture::NumpadCapture;
pub use keyboard::{Code, Key, KeyLocation, PhysicalKey};
pub use options::{NativeSettings, WebSettings};
pub use numpad::{intercept_numpad_key, numpad_keybind_name, NumpadCaptureMode, NumpadKeyEvent};
pub use storage::{Storage, APP_KEY};
pub use web::{Location, WebInfo};
