//! Keyboard events in the engine's scan-code shape.
//!
//! The adapter keeps one reusable key-event record and fills it in from a
//! scan code, an event type and the modifier flags; on the platform whose
//! key codes coincide with scan codes the windows key code is filled in from
//! the scan code as well.

use vstd::prelude::*;

verus! {

/// Event bit flags the engine's key-event record carries.
#[derive(Debug, Clone, Copy, PartialEq, Eq, Structural, Hash)]
pub enum EventFlags {
    NoFlags,
    CapsLockOn,
    ShiftDown,
    ControlDown,
    AltDown,
    LeftMouseButton,
    MiddleMouseButton,
    RightMouseButton,
    CommandDown,
    NumLockOn,
    IsKeyPad,
    IsLeft,
    IsRight,
    AltGrDown,
    IsRepeat,
    PrecisionScrollingDelta,
    ScrollByPage,
}

impl EventFlags {
    /// The bit each flag stands for in the engine's flag word: no flag is
    /// zero, and each following flag is the next power of two.
    pub open spec fn bit_spec(&self) -> u32 {
        match self {
            EventFlags::NoFlags => 0u32,
            EventFlags::CapsLockOn => 1u32,
            EventFlags::ShiftDown => 2u32,
            EventFlags::ControlDown => 4u32,
            EventFlags::AltDown => 8u32,
            EventFlags::LeftMouseButton => 16u32,
            EventFlags::MiddleMouseButton => 32u32,
            EventFlags::RightMouseButton => 64u32,
            EventFlags::CommandDown => 128u32,
            EventFlags::NumLockOn => 256u32,
            EventFlags::IsKeyPad => 512u32,
            EventFlags::IsLeft => 1024u32,
            EventFlags::IsRight => 2048u32,
            EventFlags::AltGrDown => 4096u32,
            EventFlags::IsRepeat => 8192u32,
            EventFlags::PrecisionScrollingDelta => 16384u32,
            EventFlags::ScrollByPage => 32768u32,
        }
    }

    /// The bit this flag stands for in the engine's flag word.
    pub fn bits(&self) -> (r: u32)
        ensures
            r == self.bit_spec(),
    {
        match self {
            EventFlags::NoFlags => 0,
            EventFlags::CapsLockOn => 1,
            EventFlags::ShiftDown => 2,
            EventFlags::ControlDown => 4,
            EventFlags::AltDown => 8,
            EventFlags::LeftMouseButton => 16,
            EventFlags::MiddleMouseButton => 32,
            EventFlags::RightMouseButton => 64,
            EventFlags::CommandDown => 128,
            EventFlags::NumLockOn => 256,
            EventFlags::IsKeyPad => 512,
            EventFlags::IsLeft => 1024,
            EventFlags::IsRight => 2048,
            EventFlags::AltGrDown => 4096,
            EventFlags::IsRepeat => 8192,
            EventFlags::PrecisionScrollingDelta => 16384,
            EventFlags::ScrollByPage => 32768,
        }
    }
}

/// A modifier key.
#[derive(Debug, Clone, Copy, PartialEq, Eq, Structural)]
pub enum Modifiers {
    Shift,
    Ctrl,
    Alt,
    Win,
}

/// The kind of a keyboard event.
#[derive(Debug, Clone, Copy, PartialEq, Eq, Structural, Hash)]
pub enum KeyEventType {
    RawKeyDown,
    KeyDown,
    KeyUp,
    Char,
}

/// A keyboard event in the shape the adapter fills in.
#[derive(Debug, Clone, Copy, PartialEq, Eq, Structural)]
pub struct KeyEvent {
    pub ty: KeyEventType,
    pub modifiers: EventFlags,
    pub windows_key_code: u32,
    pub native_key_code: u32,
    pub is_system_key: u32,
    pub character: u16,
    pub unmodified_character: u16,
    pub focus_on_editable_field: u32,
}

/// The all-zero key-event record the adapter starts from.
pub open spec fn blank_key_event() -> KeyEvent {
    KeyEvent {
        ty: KeyEventType::RawKeyDown,
        modifiers: EventFlags::NoFlags,
        windows_key_code: 0u32,
        native_key_code: 0u32,
        is_system_key: 0u32,
        character: 0u16,
        unmodified_character: 0u16,
        focus_on_editable_field: 0u32,
    }
}

/// The record the adapter holds after filling in a scan code, an event type
/// and modifier flags: on the platform whose key codes coincide with scan
/// codes the windows key code is the scan code too, elsewhere it is left as
/// it was.
pub open spec fn filled_key_event(
    prev: KeyEvent,
    code: u32,
    ty: KeyEventType,
    modifiers: EventFlags,
    windows_key_codes: bool,
) -> KeyEvent {
    KeyEvent {
        ty,
        modifiers,
        native_key_code: code,
        windows_key_code: if windows_key_codes {
            code
        } else {
            prev.windows_key_code
        },
        ..prev
    }
}

/// Builds the engine's key-event record from scan codes, reusing one record
/// across events.
pub struct KeyboardScanCodeAdapter {
    capslock_state: bool,
    windows_key_codes: bool,
    event: KeyEvent,
}

impl KeyboardScanCodeAdapter {
    /// The caps-lock state sampled when the adapter was made.
    pub closed spec fn capslock(&self) -> bool {
        self.capslock_state
    }

    /// Whether this platform's windows key codes coincide with scan codes.
    pub closed spec fn uses_windows_key_codes(&self) -> bool {
        self.windows_key_codes
    }

    /// The reusable record in its current state.
    pub closed spec fn event(&self) -> KeyEvent {
        self.event
    }

    /// A fresh adapter: the record starts all zero. The caller samples the
    /// caps-lock state and names the platform's key-code convention.
    pub fn new(windows_key_codes: bool, capslock_state: bool) -> (r: Self)
        ensures
            r.event() == blank_key_event(),
            r.capslock() == capslock_state,
            r.uses_windows_key_codes() == windows_key_codes,
    {
        KeyboardScanCodeAdapter {
            capslock_state,
            windows_key_codes,
            event: KeyEvent {
                ty: KeyEventType::RawKeyDown,
                modifiers: EventFlags::NoFlags,
                windows_key_code: 0,
                native_key_code: 0,
                is_system_key: 0,
                character: 0,
                unmodified_character: 0,
                focus_on_editable_field: 0,
            },
        }
    }

    /// Fill the record in from a scan code, an event type and modifier
    /// flags, and hand it out.
    pub fn get_key_event(&mut self, code: u32, ty: KeyEventType, modifiers: EventFlags) -> (r:
        KeyEvent)
        ensures
            final(self).event() == filled_key_event(
                old(self).event(),
                code,
                ty,
                modifiers,
                old(self).uses_windows_key_codes(),
            ),
            r == final(self).event(),
            final(self).capslock() == old(self).capslock(),
            final(self).uses_windows_key_codes() == old(self).uses_windows_key_codes(),
    {
        self.event.ty = ty;
        self.event.modifiers = modifiers;
        self.event.native_key_code = code;
        if self.windows_key_codes {
            self.event.windows_key_code = code;
        }
        self.event
    }
}

/// Read the caps-lock state the adapter was made with.
///
/// The platform's keyboard-state query lives in the unverified shell; the
/// adapter carries the sampled value.
pub fn get_capslock_state(adapter: &KeyboardScanCodeAdapter) -> (r: bool)
    ensures
        r == adapter.capslock(),
{
    adapter.capslock_state
}

} // verus!
