//! The numpad state of an app's frame: the capture policy and the events
//! captured during the current frame.

use std::collections::HashSet;
use vstd::prelude::*;

use crate::keyboard::{Key, KeyLocation, PhysicalKey};
use crate::numpad::{
    intercept_numpad_key, intercept_spec, names_of, NumpadCaptureMode, NumpadKeyEvent,
};

verus! {

/// The keybind names held by an optional owned set.
pub open spec fn owned_capture_view(keys: Option<HashSet<String>>) -> Option<Set<Seq<char>>> {
    match keys {
        Some(keys) => Some(names_of(keys@)),
        None => None,
    }
}

/// How numpad keys are intercepted, and the numpad key events captured during the
/// current frame, before egui processes them.
pub struct NumpadCapture {
    numpad_keys: Vec<NumpadKeyEvent>,
    numpad_capture_mode: NumpadCaptureMode,
    numpad_capture_keys: Option<HashSet<String>>,
}

impl NumpadCapture {
    /// The events captured this frame, oldest first.
    pub closed spec fn events(&self) -> Seq<NumpadKeyEvent> {
        self.numpad_keys@
    }

    /// The capture mode.
    pub closed spec fn mode(&self) -> NumpadCaptureMode {
        self.numpad_capture_mode
    }

    /// The keybind names that may be consumed, or `None` for every key the mode selects.
    pub closed spec fn capture_names(&self) -> Option<Set<Seq<char>>> {
        owned_capture_view(self.numpad_capture_keys)
    }

    /// No events, the default mode ([`NumpadCaptureMode::NumLockAware`]) and no
    /// set of bound keys.
    pub fn new() -> (capture: Self)
        ensures
            capture.events() == Seq::<NumpadKeyEvent>::empty(),
            capture.mode() == NumpadCaptureMode::NumLockAware,
            capture.capture_names() is None,
    {
        NumpadCapture {
            numpad_keys: Vec::new(),
            numpad_capture_mode: NumpadCaptureMode::default(),
            numpad_capture_keys: None,
        }
    }

    /// Returns the numpad key events captured this frame.
    ///
    /// Only events with `consumed == true` were swallowed; for those,
    /// [`NumpadKeyEvent::keybind_name`] returns the keybind to run.
    pub fn numpad_keys(&self) -> (keys: &[NumpadKeyEvent])
        ensures
            keys@ == self.events(),
    {
        self.numpad_keys.as_slice()
    }

    /// How numpad keys are currently intercepted.
    pub fn numpad_capture_mode(&self) -> (mode: NumpadCaptureMode)
        ensures
            mode == self.mode(),
    {
        self.numpad_capture_mode
    }

    /// Sets how numpad keys are intercepted.
    pub fn set_numpad_capture_mode(&mut self, mode: NumpadCaptureMode)
        ensures
            final(self).mode() == mode,
            final(self).events() == old(self).events(),
            final(self).capture_names() == old(self).capture_names(),
    {
        self.numpad_capture_mode = mode;
    }

    /// Restricts capture to the numpad keys the application has bindings for.
    ///
    /// With `Some` set of keybind names only those keys are consumed; all other
    /// numpad keys keep their native behavior. `None` captures every key the mode selects.
    pub fn set_numpad_capture_keys(&mut self, keys: Option<HashSet<String>>)
        ensures
            final(self).capture_names() == owned_capture_view(keys),
            final(self).mode() == old(self).mode(),
            final(self).events() == old(self).events(),
    {
        self.numpad_capture_keys = keys;
    }

    /// Clears the numpad key events; done after each frame.
    pub fn clear_numpad_keys(&mut self)
        ensures
            final(self).events() == Seq::<NumpadKeyEvent>::empty(),
            final(self).mode() == old(self).mode(),
            final(self).capture_names() == old(self).capture_names(),
    {
        self.numpad_keys.clear();
    }

    /// Runs a keyboard event through the interception under the current mode and
    /// set of bound keys, records the event it yields, and returns whether the
    /// keyboard event is to be forwarded to egui: unless it was consumed.
    pub fn handle_key_event(
        &mut self,
        physical_key: PhysicalKey,
        logical_key: &Key,
        location: KeyLocation,
        pressed: bool,
        repeat: bool,
        is_synthetic: bool,
        modifiers: egui::Modifiers,
    ) -> (forward_to_egui: bool)
        ensures
            final(self).mode() == old(self).mode(),
            final(self).capture_names() == old(self).capture_names(),
            match intercept_spec(
                physical_key,
                *logical_key,
                location,
                pressed,
                repeat,
                is_synthetic,
                modifiers,
                old(self).mode(),
                old(self).capture_names(),
            ) {
                None => final(self).events() == old(self).events() && forward_to_egui,
                Some(event) => final(self).events() == old(self).events().push(event)
                    && forward_to_egui == !event.consumed,
            },
    {
        let intercepted = intercept_numpad_key(
            physical_key,
            logical_key,
            location,
            pressed,
            repeat,
            is_synthetic,
            modifiers,
            self.numpad_capture_mode,
            self.numpad_capture_keys.as_ref(),
        );
        match intercepted {
            None => true,
            Some(event) => {
                let forward = !event.consumed;
                self.numpad_keys.push(event);
                forward
            },
        }
    }
}

} // verus!
