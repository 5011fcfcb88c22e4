//! The failure taxonomy of the picker's command surface.

use vstd::prelude::*;

verus! {

/// Every way a picker command can fail.
///
/// `ActivationFailed` and `ShortcutRegistrationFailed` are non-fatal to the
/// flows that meet them: a failed re-activation does not abort an injection,
/// and a colliding hotkey leaves the other hotkeys registered.
#[derive(Clone, Copy, PartialEq, Eq, Structural, Debug)]
pub enum PickerError {
    /// An injection request carried an empty payload.
    EmptyInput,
    /// The keystroke-synthesis backend could not be initialized.
    InputSystemUnavailable,
    /// Keystroke synthesis failed: no focused text field, or the permission
    /// to drive input is missing; the OS error does not tell the two apart.
    InjectionFailed,
    /// The overlay window could not be looked up.
    WindowNotFound,
    /// The OS declined to bring the remembered application forward.
    ActivationFailed,
    /// A hotkey could not be bound, commonly a collision with another app.
    ShortcutRegistrationFailed,
}

impl PickerError {
    /// The user-facing wording of each failure.
    pub open spec fn message_spec(self) -> Seq<char> {
        match self {
            PickerError::EmptyInput => "Cannot inject empty text"@,
            PickerError::InputSystemUnavailable => "Failed to initialize input system"@,
            PickerError::InjectionFailed => "No active text field found or missing accessibility permissions"@,
            PickerError::WindowNotFound => "Could not find main window"@,
            PickerError::ActivationFailed => "Failed to activate the last application"@,
            PickerError::ShortcutRegistrationFailed => "Failed to register shortcut"@,
        }
    }

    /// A short, user-actionable description of the failure.
    pub fn message(&self) -> (r: &'static str)
        ensures
            r@ == self.message_spec(),
    {
        match self {
            PickerError::EmptyInput => "Cannot inject empty text",
            PickerError::InputSystemUnavailable => "Failed to initialize input system",
            PickerError::InjectionFailed => "No active text field found or missing accessibility permissions",
            PickerError::WindowNotFound => "Could not find main window",
            PickerError::ActivationFailed => "Failed to activate the last application",
            PickerError::ShortcutRegistrationFailed => "Failed to register shortcut",
        }
    }
}

} // verus!
