use std::collections::HashSet;

use eframe::keyboard::{Code, Key, KeyLocation, PhysicalKey};
use eframe::numpad::{intercept_numpad_key, numpad_keybind_name, NumpadCaptureMode, NumpadKeyEvent};
use winit::keyboard::NamedKey;

fn intercept(
    code: Code,
    logical_key: Key,
    mode: NumpadCaptureMode,
    capture_keys: Option<&HashSet<String>>,
) -> Option<NumpadKeyEvent> {
    intercept_numpad_key(
        PhysicalKey::Code(code),
        &logical_key,
        KeyLocation::Numpad,
        true,  // pressed
        false, // repeat
        false, // is_synthetic
        egui::Modifiers::default(),
        mode,
        capture_keys,
    )
}

fn character(s: &str) -> Key {
    Key::Character(s.to_owned())
}

#[test]
fn numlock_off_digit_is_captured() {
    // NumLock OFF: Numpad7 arrives as the named Home key.
    let event = intercept(
        Code::Numpad7,
        Key::Named(NamedKey::Home),
        NumpadCaptureMode::NumLockAware,
        None,
    )
    .unwrap();
    assert!(event.consumed);
    assert_eq!(event.numlock_on, Some(false));
    assert_eq!(event.keybind_name(), Some("num_7"));
    assert_eq!(event.to_char(), None);
}

#[test]
fn numlock_on_digit_passes_through() {
    let event = intercept(
        Code::Numpad7,
        character("7"),
        NumpadCaptureMode::NumLockAware,
        None,
    )
    .unwrap();
    assert!(!event.consumed);
    assert_eq!(event.numlock_on, Some(true));
    assert_eq!(event.keybind_name(), None, "must not fire keybinds for keys egui handled");
    assert_eq!(event.to_char(), Some('7'));
}

#[test]
fn operators_are_always_captured_in_numlock_aware_mode() {
    let event = intercept(
        Code::NumpadAdd,
        character("+"),
        NumpadCaptureMode::NumLockAware,
        None,
    )
    .unwrap();
    assert!(event.consumed);
    assert_eq!(event.numlock_on, None);
    assert_eq!(event.keybind_name(), Some("num_plus"));
    assert_eq!(event.to_char(), Some('+'));
}

#[test]
fn numpad_enter_is_captured_and_distinguishable() {
    let event = intercept(
        Code::NumpadEnter,
        Key::Named(NamedKey::Enter),
        NumpadCaptureMode::NumLockAware,
        None,
    )
    .unwrap();
    assert!(event.consumed);
    assert_eq!(event.keybind_name(), Some("num_enter"));
    assert_eq!(event.to_char(), None);
}

#[test]
fn always_mode_captures_digits_even_with_numlock_on() {
    // This is how numpad keybinds work on macOS, which has no NumLock.
    let event = intercept(Code::Numpad6, character("6"), NumpadCaptureMode::Always, None).unwrap();
    assert!(event.consumed);
    assert_eq!(event.keybind_name(), Some("num_6"));
    assert_eq!(event.to_char(), Some('6'));
}

#[test]
fn off_mode_intercepts_nothing() {
    assert!(
        intercept(
            Code::Numpad7,
            Key::Named(NamedKey::Home),
            NumpadCaptureMode::Off,
            None,
        )
        .is_none()
    );
}

#[test]
fn capture_keys_filter_releases_unbound_keys() {
    let bound: HashSet<String> = ["num_6".to_owned()].into();

    // Bound key: captured as usual.
    let event = intercept(
        Code::Numpad6,
        character("6"),
        NumpadCaptureMode::Always,
        Some(&bound),
    )
    .unwrap();
    assert!(event.consumed);
    assert_eq!(event.keybind_name(), Some("num_6"));

    // Unbound key: passes through so it can type normally.
    let event = intercept(
        Code::Numpad2,
        character("2"),
        NumpadCaptureMode::Always,
        Some(&bound),
    )
    .unwrap();
    assert!(!event.consumed);
    assert_eq!(event.keybind_name(), None);
    assert_eq!(event.to_char(), Some('2'));
}

#[test]
fn synthetic_presses_are_ignored() {
    // Windows sends synthetic presses for keys already held when a window
    // gains focus; these must not fire keybinds.
    let event = intercept_numpad_key(
        PhysicalKey::Code(Code::Numpad7),
        &Key::Named(NamedKey::Home),
        KeyLocation::Numpad,
        true, // pressed
        false,
        true, // is_synthetic
        egui::Modifiers::default(),
        NumpadCaptureMode::NumLockAware,
        None,
    );
    assert!(event.is_none());
}

#[test]
fn non_numpad_keys_are_ignored() {
    let event = intercept_numpad_key(
        PhysicalKey::Code(Code::Other),
        &character("7"),
        KeyLocation::Standard,
        true,
        false,
        false,
        egui::Modifiers::default(),
        NumpadCaptureMode::NumLockAware,
        None,
    );
    assert!(event.is_none());
}

#[test]
fn locale_decimal_character_is_preserved() {
    // e.g. German layouts produce ',' for NumpadDecimal.
    let event = intercept(
        Code::NumpadDecimal,
        character(","),
        NumpadCaptureMode::Always,
        None,
    )
    .unwrap();
    assert_eq!(event.to_char(), Some(','));
}

#[test]
fn repeat_flag_is_propagated() {
    let event = intercept_numpad_key(
        PhysicalKey::Code(Code::Numpad8),
        &Key::Named(NamedKey::ArrowUp),
        KeyLocation::Numpad,
        true,
        true, // repeat
        false,
        egui::Modifiers::default(),
        NumpadCaptureMode::NumLockAware,
        None,
    )
    .unwrap();
    assert!(event.repeat);
}

// ---------------------------------------------------------------------------

const ALL_CODES: [(Code, &str); 16] = [
    (Code::Numpad0, "num_0"),
    (Code::Numpad1, "num_1"),
    (Code::Numpad2, "num_2"),
    (Code::Numpad3, "num_3"),
    (Code::Numpad4, "num_4"),
    (Code::Numpad5, "num_5"),
    (Code::Numpad6, "num_6"),
    (Code::Numpad7, "num_7"),
    (Code::Numpad8, "num_8"),
    (Code::Numpad9, "num_9"),
    (Code::NumpadAdd, "num_plus"),
    (Code::NumpadSubtract, "num_minus"),
    (Code::NumpadMultiply, "num_multiply"),
    (Code::NumpadDivide, "num_divide"),
    (Code::NumpadEnter, "num_enter"),
    (Code::NumpadDecimal, "num_decimal"),
];

#[test]
fn every_numpad_key_has_its_keybind_name() {
    for (code, name) in ALL_CODES {
        assert_eq!(numpad_keybind_name(code), Some(name));
    }
    assert_eq!(numpad_keybind_name(Code::Other), None);
}

#[test]
fn keybind_names_are_distinct() {
    let names: HashSet<&str> = ALL_CODES.iter().map(|(_, n)| *n).collect();
    assert_eq!(names.len(), 16);
}

#[test]
fn consumed_events_fire_keybinds_and_others_do_not() {
    for (code, name) in ALL_CODES {
        for logical in [character("5"), Key::Named(NamedKey::End)] {
            for mode in [NumpadCaptureMode::NumLockAware, NumpadCaptureMode::Always] {
                let event = intercept(code, logical.clone(), mode, None).unwrap();
                if event.consumed {
                    assert_eq!(event.keybind_name(), Some(name));
                } else {
                    assert_eq!(event.keybind_name(), None);
                }
            }
        }
    }
}

#[test]
fn always_mode_consumes_every_numpad_key() {
    for (code, _) in ALL_CODES {
        let event = intercept(code, character("1"), NumpadCaptureMode::Always, None).unwrap();
        assert!(event.consumed);
    }
}

#[test]
fn numlock_on_decimal_passes_through_and_numlock_off_decimal_is_captured() {
    let on = intercept(Code::NumpadDecimal, character("."), NumpadCaptureMode::NumLockAware, None)
        .unwrap();
    assert!(!on.consumed);
    assert_eq!(on.numlock_on, Some(true));
    let off = intercept(
        Code::NumpadDecimal,
        Key::Named(NamedKey::Delete),
        NumpadCaptureMode::NumLockAware,
        None,
    )
    .unwrap();
    assert!(off.consumed);
    assert_eq!(off.numlock_on, Some(false));
}

#[test]
fn unidentified_physical_keys_are_ignored() {
    let event = intercept_numpad_key(
        PhysicalKey::Unidentified(winit::keyboard::NativeKeyCode::Xkb(7)),
        &character("7"),
        KeyLocation::Numpad,
        true,
        false,
        false,
        egui::Modifiers::default(),
        NumpadCaptureMode::Always,
        None,
    );
    assert!(event.is_none());
}

#[test]
fn synthetic_releases_are_still_intercepted() {
    let event = intercept_numpad_key(
        PhysicalKey::Code(Code::NumpadAdd),
        &character("+"),
        KeyLocation::Numpad,
        false, // released
        false,
        true, // is_synthetic
        egui::Modifiers::default(),
        NumpadCaptureMode::NumLockAware,
        None,
    )
    .unwrap();
    assert!(!event.pressed);
    assert!(event.consumed);
}

#[test]
fn modifiers_and_key_are_carried_over() {
    let modifiers = egui::Modifiers { alt: false, ctrl: true, shift: true, mac_cmd: false, command: true };
    let event = intercept_numpad_key(
        PhysicalKey::Code(Code::NumpadMultiply),
        &character("*"),
        KeyLocation::Numpad,
        true,
        false,
        false,
        modifiers,
        NumpadCaptureMode::NumLockAware,
        None,
    )
    .unwrap();
    assert_eq!(event.modifiers, modifiers);
    assert_eq!(event.physical_key, PhysicalKey::Code(Code::NumpadMultiply));
    assert_eq!(event.to_char(), Some('*'));
}

#[test]
fn capture_set_releases_bound_name_only_when_mode_captures() {
    let bound: HashSet<String> = ["num_7".to_owned(), "not_a_key".to_owned()].into();
    // NumLock ON digit in NumLockAware mode: not captured, even though bound.
    let event = intercept(Code::Numpad7, character("7"), NumpadCaptureMode::NumLockAware, Some(&bound))
        .unwrap();
    assert!(!event.consumed);
    // An empty set releases every key.
    let empty: HashSet<String> = HashSet::new();
    let event = intercept(Code::NumpadEnter, Key::Named(NamedKey::Enter), NumpadCaptureMode::Always, Some(&empty))
        .unwrap();
    assert!(!event.consumed);
    assert_eq!(event.keybind_name(), None);
}

#[test]
fn empty_character_gives_no_char() {
    let event = intercept(Code::Numpad1, character(""), NumpadCaptureMode::Always, None).unwrap();
    assert_eq!(event.numlock_on, Some(true));
    assert_eq!(event.to_char(), None);
}

#[test]
fn capture_mode_defaults_to_numlock_aware() {
    assert_eq!(NumpadCaptureMode::default(), NumpadCaptureMode::NumLockAware);
}
