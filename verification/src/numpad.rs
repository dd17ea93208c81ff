//! Numpad key interception.
//!
//! Decides, for each keyboard event, whether it is one of the sixteen numpad keys
//! that are taken away from egui and handed to the application as keybinds, and
//! builds the [`NumpadKeyEvent`] that describes it.

use std::collections::HashSet;
use vstd::prelude::*;

use crate::keyboard::{Code, Key, KeyLocation, PhysicalKey};

verus! {

/// egui's set of active modifier keys; carried through unchanged.
#[verifier::external_type_specification]
#[verifier::external_body]
pub struct ExModifiers(egui::Modifiers);

/// `Clone` of egui's `Modifiers`: the struct of five booleans derives `Clone`
/// and `Copy`, so the copy equals the original.
pub assume_specification [<egui::Modifiers as Clone>::clone](modifiers: &egui::Modifiers) -> (copy: egui::Modifiers)
    ensures
        copy == *modifiers,
;

/// Controls how numpad keys are intercepted before egui processes them.
///
/// Captured events never reach egui (no text insertion, no navigation) and are
/// exposed through [`NumpadCapture::numpad_keys`] so the application can run its
/// own keybinds.
#[derive(Debug, Clone, Copy, PartialEq, Eq, Structural)]
pub enum NumpadCaptureMode {
    /// Don't intercept anything; numpad keys behave as in stock egui.
    Off,
    /// Capture digits and decimal when `NumLock` is OFF (they'd otherwise act as
    /// navigation); pass them through for text input when `NumLock` is ON.
    /// Operators (`+ - * /`) and `NumpadEnter` are always captured.
    ///
    /// This is the default.
    NumLockAware,
    /// Always capture all sixteen numpad keys, regardless of `NumLock` state.
    Always,
}

impl Default for NumpadCaptureMode {
    fn default() -> (mode: Self)
        ensures
            mode == NumpadCaptureMode::NumLockAware,
    {
        NumpadCaptureMode::NumLockAware
    }
}

/// A numpad key event captured before egui processes it.
///
/// `consumed` says whether the event was swallowed (egui never saw it). Only
/// consumed events should trigger keybinds, see [`Self::keybind_name`].
#[derive(Debug, Clone)]
pub struct NumpadKeyEvent {
    /// The physical key that was pressed (always one of the sixteen numpad keys).
    pub physical_key: PhysicalKey,
    /// True if the event was consumed, meaning egui never processed it.
    pub consumed: bool,
    /// Whether `NumLock` was active, when it can be inferred from the event:
    /// `Some` for digits and decimal, `None` for operators and `NumpadEnter`.
    pub numlock_on: Option<bool>,
    /// Whether the key was pressed or released.
    pub pressed: bool,
    /// True if this event is an OS auto-repeat of a held key.
    pub repeat: bool,
    /// Active modifier keys.
    pub modifiers: egui::Modifiers,
    /// The character this key produces under the active keyboard layout.
    pub character: Option<char>,
}

/// The keybind name of a key code: `Some` exactly for the sixteen numpad keys.
pub open spec fn keybind_name_of(code: Code) -> Option<Seq<char>> {
    match code {
        Code::Numpad0 => Some("num_0"@),
        Code::Numpad1 => Some("num_1"@),
        Code::Numpad2 => Some("num_2"@),
        Code::Numpad3 => Some("num_3"@),
        Code::Numpad4 => Some("num_4"@),
        Code::Numpad5 => Some("num_5"@),
        Code::Numpad6 => Some("num_6"@),
        Code::Numpad7 => Some("num_7"@),
        Code::Numpad8 => Some("num_8"@),
        Code::Numpad9 => Some("num_9"@),
        Code::NumpadAdd => Some("num_plus"@),
        Code::NumpadSubtract => Some("num_minus"@),
        Code::NumpadMultiply => Some("num_multiply"@),
        Code::NumpadDivide => Some("num_divide"@),
        Code::NumpadEnter => Some("num_enter"@),
        Code::NumpadDecimal => Some("num_decimal"@),
        Code::Other => None,
    }
}

/// The text of an optional string slice.
pub open spec fn str_option_view(s: Option<&str>) -> Option<Seq<char>> {
    match s {
        Some(s) => Some(s@),
        None => None,
    }
}

/// One of the sixteen numpad keys.
pub open spec fn is_numpad_code(code: Code) -> bool {
    !(code is Other)
}

/// Digits and decimal: the keys whose logical key tells the `NumLock` state.
pub open spec fn reveals_numlock(code: Code) -> bool {
    match code {
        Code::NumpadAdd | Code::NumpadSubtract | Code::NumpadMultiply | Code::NumpadDivide
        | Code::NumpadEnter | Code::Other => false,
        _ => true,
    }
}

/// What a numpad event says of `NumLock`: digits and decimal produce a character
/// exactly when it is on; operators and Enter say nothing.
pub open spec fn numlock_of(code: Code, logical_key: Key) -> Option<bool> {
    if reveals_numlock(code) {
        Some(logical_key is Character)
    } else {
        None
    }
}

/// Whether the capture mode, by itself, takes the key away from egui.
pub open spec fn mode_captures(mode: NumpadCaptureMode, code: Code, numlock_on: Option<bool>) -> bool {
    match mode {
        NumpadCaptureMode::Off => false,
        NumpadCaptureMode::Always => true,
        NumpadCaptureMode::NumLockAware => if reveals_numlock(code) {
            numlock_on == Some(false)
        } else {
            true
        },
    }
}

/// Whether the optional set of bound keybind names lets the key be consumed:
/// without a set every key may be; with one only keys whose name is in it.
pub open spec fn filter_admits(capture: Option<Set<Seq<char>>>, code: Code) -> bool {
    match capture {
        None => true,
        Some(names) => match keybind_name_of(code) {
            Some(name) => names.contains(name),
            None => false,
        },
    }
}

/// The first character of a logical key's text, if it has text.
pub open spec fn first_char(logical_key: Key) -> Option<char> {
    match logical_key {
        Key::Character(s) => if s@.len() > 0 {
            Some(s@[0])
        } else {
            None
        },
        _ => None,
    }
}

/// The keybind names held by a set of strings.
pub open spec fn names_of(keys: Set<String>) -> Set<Seq<char>> {
    keys.map(|s: String| s@)
}

/// The keybind names held by an optional borrowed set.
pub open spec fn capture_view(capture_keys: Option<&HashSet<String>>) -> Option<Set<Seq<char>>> {
    match capture_keys {
        Some(keys) => Some(names_of(keys@)),
        None => None,
    }
}

/// The event (if any) that intercepting a keyboard event yields.
pub open spec fn intercept_spec(
    physical_key: PhysicalKey,
    logical_key: Key,
    location: KeyLocation,
    pressed: bool,
    repeat: bool,
    is_synthetic: bool,
    modifiers: egui::Modifiers,
    mode: NumpadCaptureMode,
    capture: Option<Set<Seq<char>>>,
) -> Option<NumpadKeyEvent> {
    if mode == NumpadCaptureMode::Off || location != KeyLocation::Numpad || (is_synthetic
        && pressed) {
        None
    } else {
        match physical_key {
            PhysicalKey::Code(code) => if is_numpad_code(code) {
                let numlock_on = numlock_of(code, logical_key);
                Some(
                    NumpadKeyEvent {
                        physical_key,
                        consumed: mode_captures(mode, code, numlock_on) && filter_admits(
                            capture,
                            code,
                        ),
                        numlock_on,
                        pressed,
                        repeat,
                        modifiers,
                        character: first_char(logical_key),
                    },
                )
            } else {
                None
            },
            PhysicalKey::Unidentified(_) => None,
        }
    }
}

/// The keybind name an event fires: its key's name, if the event was consumed.
pub open spec fn event_keybind(event: NumpadKeyEvent) -> Option<Seq<char>> {
    if !event.consumed {
        None
    } else {
        match event.physical_key {
            PhysicalKey::Code(code) => keybind_name_of(code),
            PhysicalKey::Unidentified(_) => None,
        }
    }
}

/// Off mode, keys away from the numpad, synthetic presses and keys that are not
/// one of the sixteen numpad keys are never intercepted; every other event is.
pub proof fn lemma_which_events_are_intercepted(
    physical_key: PhysicalKey,
    logical_key: Key,
    location: KeyLocation,
    pressed: bool,
    repeat: bool,
    is_synthetic: bool,
    modifiers: egui::Modifiers,
    mode: NumpadCaptureMode,
    capture: Option<Set<Seq<char>>>,
)
    ensures
        intercept_spec(
            physical_key,
            logical_key,
            location,
            pressed,
            repeat,
            is_synthetic,
            modifiers,
            mode,
            capture,
        ) is Some <==> {
            &&& mode != NumpadCaptureMode::Off
            &&& location == KeyLocation::Numpad
            &&& !(is_synthetic && pressed)
            &&& physical_key matches PhysicalKey::Code(code) && !(code is Other)
        },
{
}

/// An intercepted event fires a keybind exactly when it was consumed: events
/// that egui also handled never fire one, and consumed events always name their key.
pub proof fn lemma_keybind_iff_consumed(
    physical_key: PhysicalKey,
    logical_key: Key,
    location: KeyLocation,
    pressed: bool,
    repeat: bool,
    is_synthetic: bool,
    modifiers: egui::Modifiers,
    mode: NumpadCaptureMode,
    capture: Option<Set<Seq<char>>>,
)
    ensures
        intercept_spec(
            physical_key,
            logical_key,
            location,
            pressed,
            repeat,
            is_synthetic,
            modifiers,
            mode,
            capture,
        ) matches Some(event) ==> (event_keybind(event) is Some <==> event.consumed),
{
}

/// A set of bound keybind names only releases keys: an event is intercepted with
/// the set exactly when it is without it, it is the same event but for
/// `consumed`, and it is consumed exactly when it would be without the set and
/// its keybind name is in the set.
pub proof fn lemma_capture_keys_only_release(
    physical_key: PhysicalKey,
    logical_key: Key,
    location: KeyLocation,
    pressed: bool,
    repeat: bool,
    is_synthetic: bool,
    modifiers: egui::Modifiers,
    mode: NumpadCaptureMode,
    names: Set<Seq<char>>,
)
    ensures
        ({
            let filtered = intercept_spec(
                physical_key,
                logical_key,
                location,
                pressed,
                repeat,
                is_synthetic,
                modifiers,
                mode,
                Some(names),
            );
            let unfiltered = intercept_spec(
                physical_key,
                logical_key,
                location,
                pressed,
                repeat,
                is_synthetic,
                modifiers,
                mode,
                None,
            );
            &&& filtered is Some <==> unfiltered is Some
            &&& filtered matches Some(f) ==> {
                &&& f.consumed <==> (unfiltered->0.consumed && (event_keybind(unfiltered->0) matches Some(name) && names.contains(name)))
                &&& f.physical_key == unfiltered->0.physical_key
                &&& f.numlock_on == unfiltered->0.numlock_on
                &&& f.pressed == unfiltered->0.pressed
                &&& f.repeat == unfiltered->0.repeat
                &&& f.modifiers == unfiltered->0.modifiers
                &&& f.character == unfiltered->0.character
            }
        }),
{
}

/// In [`NumpadCaptureMode::Always`] without a set of bound names, every
/// intercepted event is consumed.
pub proof fn lemma_always_mode_consumes_every_key(
    physical_key: PhysicalKey,
    logical_key: Key,
    location: KeyLocation,
    pressed: bool,
    repeat: bool,
    is_synthetic: bool,
    modifiers: egui::Modifiers,
)
    ensures
        intercept_spec(
            physical_key,
            logical_key,
            location,
            pressed,
            repeat,
            is_synthetic,
            modifiers,
            NumpadCaptureMode::Always,
            None,
        ) matches Some(event) ==> event.consumed,
{
}

/// In [`NumpadCaptureMode::NumLockAware`] without a set of bound names, an
/// intercepted event is consumed unless it is a digit or decimal typed with
/// `NumLock` on; operators and Enter, which say nothing of `NumLock`, always are.
pub proof fn lemma_numlock_aware_policy(
    physical_key: PhysicalKey,
    logical_key: Key,
    location: KeyLocation,
    pressed: bool,
    repeat: bool,
    is_synthetic: bool,
    modifiers: egui::Modifiers,
)
    ensures
        intercept_spec(
            physical_key,
            logical_key,
            location,
            pressed,
            repeat,
            is_synthetic,
            modifiers,
            NumpadCaptureMode::NumLockAware,
            None,
        ) matches Some(event) ==> {
            &&& event.consumed <==> event.numlock_on != Some(true)
            &&& event.numlock_on is None ==> event.consumed
        },
{
}

/// An intercepted event tells the `NumLock` state exactly for digits and
/// decimal, and a key typed with `NumLock` off produces no character.
pub proof fn lemma_numlock_and_character(
    physical_key: PhysicalKey,
    logical_key: Key,
    location: KeyLocation,
    pressed: bool,
    repeat: bool,
    is_synthetic: bool,
    modifiers: egui::Modifiers,
    mode: NumpadCaptureMode,
    capture: Option<Set<Seq<char>>>,
)
    ensures
        intercept_spec(
            physical_key,
            logical_key,
            location,
            pressed,
            repeat,
            is_synthetic,
            modifiers,
            mode,
            capture,
        ) matches Some(event) ==> {
            &&& event.physical_key matches PhysicalKey::Code(code) && (event.numlock_on is Some
                <==> reveals_numlock(code))
            &&& event.numlock_on == Some(false) ==> event.character is None
            &&& event.character is Some ==> logical_key is Character
        },
{
}

/// Digits and decimal tell the `NumLock` state: `numlock_on` is whether the
/// logical key is text. In [`NumpadCaptureMode::NumLockAware`] without a set of
/// bound names such a key is consumed exactly when it produced no text, so a
/// digit typed with `NumLock` on always reaches egui.
pub proof fn lemma_digits_and_decimal_follow_numlock(
    code: Code,
    logical_key: Key,
    location: KeyLocation,
    pressed: bool,
    repeat: bool,
    is_synthetic: bool,
    modifiers: egui::Modifiers,
    mode: NumpadCaptureMode,
    capture: Option<Set<Seq<char>>>,
)
    ensures
        ({
            ||| code == Code::Numpad0
            ||| code == Code::Numpad1
            ||| code == Code::Numpad2
            ||| code == Code::Numpad3
            ||| code == Code::Numpad4
            ||| code == Code::Numpad5
            ||| code == Code::Numpad6
            ||| code == Code::Numpad7
            ||| code == Code::Numpad8
            ||| code == Code::Numpad9
            ||| code == Code::NumpadDecimal
        }) ==> (intercept_spec(
            PhysicalKey::Code(code),
            logical_key,
            location,
            pressed,
            repeat,
            is_synthetic,
            modifiers,
            mode,
            capture,
        ) matches Some(event) ==> {
            &&& event.numlock_on == Some(logical_key is Character)
            &&& (mode == NumpadCaptureMode::NumLockAware && capture is None) ==> (event.consumed
                <==> !(logical_key is Character))
        }),
{
}

/// Operators and Enter say nothing of `NumLock`, and in
/// [`NumpadCaptureMode::NumLockAware`] without a set of bound names they are
/// always consumed, whatever their logical key.
pub proof fn lemma_operators_and_enter_always_captured(
    code: Code,
    logical_key: Key,
    location: KeyLocation,
    pressed: bool,
    repeat: bool,
    is_synthetic: bool,
    modifiers: egui::Modifiers,
    mode: NumpadCaptureMode,
    capture: Option<Set<Seq<char>>>,
)
    ensures
        ({
            ||| code == Code::NumpadAdd
            ||| code == Code::NumpadSubtract
            ||| code == Code::NumpadMultiply
            ||| code == Code::NumpadDivide
            ||| code == Code::NumpadEnter
        }) ==> (intercept_spec(
            PhysicalKey::Code(code),
            logical_key,
            location,
            pressed,
            repeat,
            is_synthetic,
            modifiers,
            mode,
            capture,
        ) matches Some(event) ==> {
            &&& event.numlock_on is None
            &&& (mode == NumpadCaptureMode::NumLockAware && capture is None) ==> event.consumed
        }),
{
}

/// An intercepted event carries the physical key, the press state, the repeat
/// flag and the modifiers of the keyboard event unchanged.
pub proof fn lemma_event_carries_its_inputs(
    physical_key: PhysicalKey,
    logical_key: Key,
    location: KeyLocation,
    pressed: bool,
    repeat: bool,
    is_synthetic: bool,
    modifiers: egui::Modifiers,
    mode: NumpadCaptureMode,
    capture: Option<Set<Seq<char>>>,
)
    ensures
        intercept_spec(
            physical_key,
            logical_key,
            location,
            pressed,
            repeat,
            is_synthetic,
            modifiers,
            mode,
            capture,
        ) matches Some(event) ==> {
            &&& event.physical_key == physical_key
            &&& event.pressed == pressed
            &&& event.repeat == repeat
            &&& event.modifiers == modifiers
        },
{
}

/// An intercepted event's character is the first character of the logical
/// key's text when it has non-empty text, and `None` otherwise, whether the key
/// is pressed, released or repeated.
pub proof fn lemma_event_character_is_first_char_of_text(
    physical_key: PhysicalKey,
    logical_key: Key,
    location: KeyLocation,
    pressed: bool,
    repeat: bool,
    is_synthetic: bool,
    modifiers: egui::Modifiers,
    mode: NumpadCaptureMode,
    capture: Option<Set<Seq<char>>>,
)
    ensures
        intercept_spec(
            physical_key,
            logical_key,
            location,
            pressed,
            repeat,
            is_synthetic,
            modifiers,
            mode,
            capture,
        ) matches Some(event) ==> event.character == (match logical_key {
            Key::Character(text) => if text@.len() > 0 {
                Some(text@[0])
            } else {
                None
            },
            _ => None,
        }),
{
}

/// The keybind name of each of the sixteen numpad keys, and none for any other key.
pub proof fn lemma_keybind_name_table(code: Code)
    ensures
        code == Code::Numpad0 ==> keybind_name_of(code) == Some("num_0"@),
        code == Code::Numpad1 ==> keybind_name_of(code) == Some("num_1"@),
        code == Code::Numpad2 ==> keybind_name_of(code) == Some("num_2"@),
        code == Code::Numpad3 ==> keybind_name_of(code) == Some("num_3"@),
        code == Code::Numpad4 ==> keybind_name_of(code) == Some("num_4"@),
        code == Code::Numpad5 ==> keybind_name_of(code) == Some("num_5"@),
        code == Code::Numpad6 ==> keybind_name_of(code) == Some("num_6"@),
        code == Code::Numpad7 ==> keybind_name_of(code) == Some("num_7"@),
        code == Code::Numpad8 ==> keybind_name_of(code) == Some("num_8"@),
        code == Code::Numpad9 ==> keybind_name_of(code) == Some("num_9"@),
        code == Code::NumpadAdd ==> keybind_name_of(code) == Some("num_plus"@),
        code == Code::NumpadSubtract ==> keybind_name_of(code) == Some("num_minus"@),
        code == Code::NumpadMultiply ==> keybind_name_of(code) == Some("num_multiply"@),
        code == Code::NumpadDivide ==> keybind_name_of(code) == Some("num_divide"@),
        code == Code::NumpadEnter ==> keybind_name_of(code) == Some("num_enter"@),
        code == Code::NumpadDecimal ==> keybind_name_of(code) == Some("num_decimal"@),
        code == Code::Other ==> keybind_name_of(code) is None,
{
}

/// Distinct numpad keys have distinct keybind names.
pub proof fn lemma_keybind_names_distinct(a: Code, b: Code)
    ensures
        keybind_name_of(a) is Some && keybind_name_of(a) == keybind_name_of(b) ==> a == b,
{
    reveal_strlit("num_0");
    reveal_strlit("num_1");
    reveal_strlit("num_2");
    reveal_strlit("num_3");
    reveal_strlit("num_4");
    reveal_strlit("num_5");
    reveal_strlit("num_6");
    reveal_strlit("num_7");
    reveal_strlit("num_8");
    reveal_strlit("num_9");
    reveal_strlit("num_plus");
    reveal_strlit("num_minus");
    reveal_strlit("num_multiply");
    reveal_strlit("num_divide");
    reveal_strlit("num_enter");
    reveal_strlit("num_decimal");
    if keybind_name_of(a) is Some && keybind_name_of(a) == keybind_name_of(b) {
        let name_a = keybind_name_of(a)->0;
        let name_b = keybind_name_of(b)->0;
        // The length and the fifth character tell the sixteen names apart.
        assert(name_a.len() == name_b.len() && name_a[4] == name_b[4]);
    }
}

/// The keybind name for a numpad key code (e.g. "`num_1`", "`num_plus`"),
/// or `None` if it isn't one of the sixteen numpad keys.
pub fn numpad_keybind_name(code: Code) -> (name: Option<&'static str>)
    ensures
        str_option_view(name) == keybind_name_of(code),
{
    match code {
        Code::Numpad0 => Some("num_0"),
        Code::Numpad1 => Some("num_1"),
        Code::Numpad2 => Some("num_2"),
        Code::Numpad3 => Some("num_3"),
        Code::Numpad4 => Some("num_4"),
        Code::Numpad5 => Some("num_5"),
        Code::Numpad6 => Some("num_6"),
        Code::Numpad7 => Some("num_7"),
        Code::Numpad8 => Some("num_8"),
        Code::Numpad9 => Some("num_9"),
        Code::NumpadAdd => Some("num_plus"),
        Code::NumpadSubtract => Some("num_minus"),
        Code::NumpadMultiply => Some("num_multiply"),
        Code::NumpadDivide => Some("num_divide"),
        Code::NumpadEnter => Some("num_enter"),
        Code::NumpadDecimal => Some("num_decimal"),
        Code::Other => None,
    }
}

impl NumpadKeyEvent {
    /// Returns the keybind name for this numpad key (e.g., "`num_1`", "`num_plus`").
    ///
    /// Returns `None` if the event was not consumed: egui already handled the key
    /// normally (e.g. as text input), so no keybind should fire.
    pub fn keybind_name(&self) -> (name: Option<&'static str>)
        ensures
            str_option_view(name) == event_keybind(*self),
    {
        if !self.consumed {
            return None;
        }
        match self.physical_key {
            PhysicalKey::Code(code) => numpad_keybind_name(code),
            PhysicalKey::Unidentified(_) => None,
        }
    }

    /// The character this key produces according to the active keyboard layout.
    pub fn to_char(&self) -> (c: Option<char>)
        ensures
            c == self.character,
    {
        self.character
    }
}

/// The kind of numpad key, used to decide capture policy.
enum NumpadKeyKind {
    /// `Numpad0`–`Numpad9`: digits with `NumLock` ON, navigation with it OFF.
    Digit,
    /// `NumpadDecimal`: `.`/`,` with `NumLock` ON, Delete with it OFF.
    Decimal,
    /// `+ - * /`: always the same character.
    Operator,
    /// `NumpadEnter`: always Enter.
    Enter,
}

/// Whether a set of bound keybind names holds the given name.
///
/// Calls `HashSet::<String>::contains` with a `&str`. The standard library
/// documents that it returns `true` if the set holds a value equal to the key;
/// two strings are equal when they hold the same characters.
#[verifier::external_body]
fn names_contain(keys: &HashSet<String>, name: &str) -> (found: bool)
    ensures
        found == names_of(keys@).contains(name@),
{
    keys.contains(name)
}

/// The first character of a string.
fn first_char_of(s: &String) -> (c: Option<char>)
    ensures
        c == (if s@.len() > 0 {
            Some(s@[0])
        } else {
            None
        }),
{
    let mut chars = s.as_str().chars();
    chars.next()
}

/// Decides whether a keyboard event is a numpad key that is intercepted, and
/// builds the [`NumpadKeyEvent`] for it.
///
/// Returns `None` if the event should be handled entirely by egui. If `Some`, the
/// event is to be recorded for the application; if additionally `.consumed` is
/// true, the event must not be forwarded to egui.
pub fn intercept_numpad_key(
    physical_key: PhysicalKey,
    logical_key: &Key,
    location: KeyLocation,
    pressed: bool,
    repeat: bool,
    is_synthetic: bool,
    modifiers: egui::Modifiers,
    mode: NumpadCaptureMode,
    capture_keys: Option<&HashSet<String>>,
) -> (event: Option<NumpadKeyEvent>)
    ensures
        event == intercept_spec(
            physical_key,
            *logical_key,
            location,
            pressed,
            repeat,
            is_synthetic,
            modifiers,
            mode,
            capture_view(capture_keys),
        ),
{
    if mode == NumpadCaptureMode::Off || location != KeyLocation::Numpad {
        return None;
    }
    // Synthetic presses (sent for keys already held when the window gains focus)
    // must not fire spurious keybinds.
    if is_synthetic && pressed {
        return None;
    }
    let code = match physical_key {
        PhysicalKey::Code(code) => code,
        PhysicalKey::Unidentified(_) => {
            return None;
        },
    };
    let kind = match code {
        Code::Numpad0 | Code::Numpad1 | Code::Numpad2 | Code::Numpad3 | Code::Numpad4
        | Code::Numpad5 | Code::Numpad6 | Code::Numpad7 | Code::Numpad8 | Code::Numpad9 => {
            NumpadKeyKind::Digit
        },
        Code::NumpadDecimal => NumpadKeyKind::Decimal,
        Code::NumpadAdd | Code::NumpadSubtract | Code::NumpadMultiply | Code::NumpadDivide => {
            NumpadKeyKind::Operator
        },
        Code::NumpadEnter => NumpadKeyKind::Enter,
        Code::Other => {
            return None;
        },
    };
    // Digits/decimal produce a character when NumLock is ON and a named key
    // (End, Down, Delete, …) when it is OFF.
    let numlock_on = match kind {
        NumpadKeyKind::Digit | NumpadKeyKind::Decimal => Some(
            matches!(logical_key, Key::Character(_)),
        ),
        NumpadKeyKind::Operator | NumpadKeyKind::Enter => None,
    };
    let captured = match mode {
        NumpadCaptureMode::Always => true,
        NumpadCaptureMode::NumLockAware => match kind {
            NumpadKeyKind::Digit | NumpadKeyKind::Decimal => match numlock_on {
                Some(on) => !on,
                None => false,
            },
            NumpadKeyKind::Operator | NumpadKeyKind::Enter => true,
        },
        NumpadCaptureMode::Off => false,
    };
    // With a set of bound keys, only those are consumed; unbound keys keep their
    // native behavior.
    let admitted = match capture_keys {
        None => true,
        Some(keys) => match numpad_keybind_name(code) {
            Some(name) => names_contain(keys, name),
            None => false,
        },
    };
    let consumed = captured && admitted;
    let character = match logical_key {
        Key::Character(s) => first_char_of(s),
        _ => None,
    };
    Some(
        NumpadKeyEvent {
            physical_key,
            consumed,
            numlock_on,
            pressed,
            repeat,
            modifiers,
            character,
        },
    )
}

} // verus!
