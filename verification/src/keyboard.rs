//! The keyboard event data that the numpad interception reads.
//!
//! Physical key codes, logical keys and key locations are held here as plain
//! values. Values the interception only carries along (named keys, native codes)
//! keep the windowing library's own types.

use vstd::prelude::*;

verus! {

/// A named logical key of the windowing library (Enter, Home, ArrowUp, …).
#[verifier::external_type_specification]
#[verifier::external_body]
pub struct ExNamedKey(winit::keyboard::NamedKey);

/// A platform-native logical key identifier of the windowing library.
#[verifier::external_type_specification]
#[verifier::external_body]
pub struct ExNativeKey(winit::keyboard::NativeKey);

/// A platform-native scancode of the windowing library.
#[verifier::external_type_specification]
#[verifier::external_body]
pub struct ExNativeKeyCode(winit::keyboard::NativeKeyCode);

/// `Clone` of the windowing library's `NamedKey`: the enum derives `Clone` and
/// `Copy`, so the copy equals the original.
pub assume_specification [<winit::keyboard::NamedKey as Clone>::clone](key: &winit::keyboard::NamedKey) -> (copy: winit::keyboard::NamedKey)
    ensures
        copy == *key,
;

/// `Clone` of the windowing library's `NativeKey`: the enum derives `Clone`
/// field by field, so the copy equals the original.
pub assume_specification [<winit::keyboard::NativeKey as Clone>::clone](key: &winit::keyboard::NativeKey) -> (copy: winit::keyboard::NativeKey)
    ensures
        copy == *key,
;

/// The physical key codes that the numpad interception tells apart: the sixteen
/// numpad keys, and every other key.
#[derive(Debug, Clone, Copy, PartialEq, Eq)]
pub enum Code {
    Numpad0,
    Numpad1,
    Numpad2,
    Numpad3,
    Numpad4,
    Numpad5,
    Numpad6,
    Numpad7,
    Numpad8,
    Numpad9,
    NumpadAdd,
    NumpadSubtract,
    NumpadMultiply,
    NumpadDivide,
    NumpadEnter,
    NumpadDecimal,
    /// Any key that is not one of the sixteen numpad keys.
    Other,
}

/// The physical key of a keyboard event.
#[derive(Debug, Clone, Copy, PartialEq, Eq)]
pub enum PhysicalKey {
    /// A known key code.
    Code(Code),
    /// A key that could not be translated to a key code, with its native code.
    Unidentified(winit::keyboard::NativeKeyCode),
}

/// The logical meaning of a key press under the active keyboard layout.
#[derive(Debug, Clone, PartialEq, Eq)]
pub enum Key {
    /// A simple action key, such as Enter or Home.
    Named(winit::keyboard::NamedKey),
    /// The text the key produces.
    Character(String),
    /// A key with no other translation, with its native identifier.
    Unidentified(winit::keyboard::NativeKey),
    /// A dead key, with the character it inserts when pressed twice, if known.
    Dead(Option<char>),
}

/// Where on the keyboard a key is.
#[derive(Debug, Clone, Copy, PartialEq, Eq, Structural)]
pub enum KeyLocation {
    /// The key's normal location.
    Standard,
    /// The left side of the keyboard.
    Left,
    /// The right side of the keyboard.
    Right,
    /// The numeric keypad.
    Numpad,
}

} // verus!
