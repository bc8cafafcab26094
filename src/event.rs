//! Input events and the state that comes with them.
use crate::geometry::{Point, Position, Size};
use vstd::prelude::*;

verus! {

/// Raw key id from hardware.
pub type ScanCode = u32;

/// Whether a key sits on the numeric keypad.
pub type IsNumpad = bool;

/// State of keys or mouse buttons.
#[derive(Debug, Clone, Copy, PartialEq, Eq, Structural, Hash)]
pub enum EvState {
    Released,
    Pressed,
}

/// Mouse buttons.
#[derive(Debug, Clone, Copy, PartialEq, Eq, Structural, Hash)]
pub enum MouseButton {
    Left,
    Middle,
    Right,
    Other(u8),
}

/// Bitmask of a button inside a `ButtonState`.
pub open spec fn button_mask(b: MouseButton) -> u64 {
    match b {
        MouseButton::Left => 1,
        MouseButton::Middle => 2,
        MouseButton::Right => 4,
        MouseButton::Other(n) => (1u64 << n),
    }
}

/// The button has a bit in a 64-bit mask.
pub open spec fn button_has_mask(b: MouseButton) -> bool {
    match b {
        MouseButton::Other(n) => n < 64,
        _ => true,
    }
}

impl MouseButton {
    /// Gets the button number.
    pub fn number(self) -> (r: u8)
        ensures
            r == match self {
                MouseButton::Left => 1u8,
                MouseButton::Middle => 2u8,
                MouseButton::Right => 3u8,
                MouseButton::Other(n) => n,
            },
    {
        match self {
            MouseButton::Left => 1,
            MouseButton::Middle => 2,
            MouseButton::Right => 3,
            MouseButton::Other(n) => n,
        }
    }

    /// Gets the bitmask for this button.
    fn mask(self) -> (r: u64)
        requires
            button_has_mask(self),
        ensures
            r == button_mask(self),
    {
        match self {
            MouseButton::Left => 1,
            MouseButton::Middle => 2,
            MouseButton::Right => 4,
            MouseButton::Other(n) => 1u64 << n,
        }
    }
}

/// Axis of movement for the mouse pointer.
///
/// Analog readings are carried as the bit patterns of their IEEE 754 values;
/// the event logic never reads them.
#[derive(Debug, Clone, Copy, PartialEq, Eq, Structural, Hash)]
pub enum AxisValue {
    /// Pointer position, in window pixels.
    Position(Position),
    /// Scroll amounts, as `f32` bits.
    Scroll(u32, u32),
    /// Pressure, as `f64` bits.
    Pressure(u64),
    /// Tilt, as `f64` bits.
    Tilt(u64, u64),
}

/// Keyboard modifier state.
#[derive(Debug, Clone, Copy, PartialEq, Eq, Structural, Hash, Default)]
pub struct ModState {
    pub shift: bool,
    pub ctrl: bool,
    pub alt: bool,
    pub meta: bool,
}

/// Mouse button state, one bit per button.
#[derive(Debug, Clone, Copy, PartialEq, Eq, Structural, Hash, Default)]
pub struct ButtonState(pub u64);

impl ButtonState {
    /// Sets the specified button as pressed.
    pub fn set(&mut self, button: MouseButton)
        requires
            button_has_mask(button),
        ensures
            final(self).0 == old(self).0 | button_mask(button),
    {
        self.0 = self.0 | button.mask();
    }

    /// Sets the specified button as released.
    pub fn unset(&mut self, button: MouseButton)
        requires
            button_has_mask(button),
        ensures
            final(self).0 == old(self).0 & !button_mask(button),
    {
        self.0 = self.0 & !button.mask();
    }

    /// Checks if the specified button is pressed.
    pub fn is_set(self, button: MouseButton) -> (r: bool)
        requires
            button_has_mask(button),
        ensures
            r == (self.0 & button_mask(button) != 0),
    {
        self.0 & button.mask() != 0
    }

    /// Checks if the left button is pressed.
    pub fn left(self) -> (r: bool)
        ensures
            r == (self.0 & 1 != 0),
    {
        self.is_set(MouseButton::Left)
    }

    /// Checks if the middle button is pressed.
    pub fn middle(self) -> (r: bool)
        ensures
            r == (self.0 & 2 != 0),
    {
        self.is_set(MouseButton::Middle)
    }

    /// Checks if the right button is pressed.
    pub fn right(self) -> (r: bool)
        ensures
            r == (self.0 & 4 != 0),
    {
        self.is_set(MouseButton::Right)
    }
}

/// Pressing a button makes it read as pressed and leaves every other bit
/// alone; releasing it makes it read as released, again leaving the rest.
pub proof fn lemma_button_set_unset(s: u64, m: u64)
    requires
        m != 0,
    ensures
        (s | m) & m != 0,
        (s & !m) & m == 0,
        forall|o: u64| #![trigger (s | m) & o] o & m == 0 ==> ((s | m) & o) == (s & o),
        forall|o: u64| #![trigger (s & !m) & o] o & m == 0 ==> ((s & !m) & o) == (s & o),
{
    assert((s | m) & m != 0) by (bit_vector)
        requires
            m != 0,
    ;
    assert((s & !m) & m == 0) by (bit_vector);
    assert forall|o: u64| o & m == 0 implies ((s | m) & o) == (s & o) by {
        assert(o & m == 0 ==> ((s | m) & o) == (s & o)) by (bit_vector);
    }
    assert forall|o: u64| o & m == 0 implies ((s & !m) & o) == (s & o) by {
        assert(o & m == 0 ==> ((s & !m) & o) == (s & o)) by (bit_vector);
    }
}

/// Side for duplicated modifier keys.
#[derive(Debug, Clone, Copy, PartialEq, Eq, Structural, Hash)]
pub enum KeySide {
    Left,
    Right,
}

/// Symbolic key definition.
#[derive(Debug, Clone, Copy, PartialEq, Eq, Structural, Hash)]
pub enum Key {
    /// Number keys
    Num(u8, IsNumpad),
    /// Letters
    Letter(char),
    /// Function keys
    Fn(u8),
    /// The space bar
    Space,
    Escape,
    BackSpace,
    Tab,
    Enter(IsNumpad),
    CapsLock,
    Shift(KeySide),
    Control(KeySide),
    Alt(KeySide),
    Super(KeySide),
    Meta(KeySide),
    Compose,
    PrintScr,
    ScrollLock,
    Pause,
    Insert,
    Delete,
    Home,
    End,
    PageUp,
    PageDown,
    Up,
    Down,
    Left,
    Right,
    NumLock,
    NumpadDelete,
    NumpadEnter,
    Plus(IsNumpad),
    Minus(IsNumpad),
    Multiply(IsNumpad),
    Slash(IsNumpad),
    Backslash,
    Comma(IsNumpad),
    Period,
    Colon,
    Semicolon,
    Apostrophe,
    Grave,
    LBracket,
    RBracket,
    Equals(IsNumpad),
    /// Unknown key, raw id in the scancode.
    Unk,
}

/// Input events that come from the backend.
#[derive(Debug, Clone, PartialEq)]
pub enum Event {
    /// Raw keyboard input.
    Keyboard { state: EvState, key: Key, scancode: ScanCode },
    /// Processed keyboard input as an unicode character.
    Character(char),
    /// Mouse pointer motion.
    MouseMoved(AxisValue),
    /// Mouse button input.
    MouseButton { state: EvState, button: MouseButton },
    /// Pointer has crossed the window boundaries.
    PointerInside(bool),
    /// A file has been dropped into the window; its path.
    FileDropped(String),
    /// Window resized.
    Resized(Size),
    /// Window moved.
    Moved(Position),
    /// Window focused state.
    Focused(bool),
    /// Window close button pressed.
    CloseRequest,
    /// Window has been created.
    Created,
    /// Window has been destroyed.
    Destroyed,
}

/// Current state associated with an event.
#[derive(Debug, Clone, Copy, PartialEq, Eq, Structural, Hash)]
pub struct EventContext {
    /// Time when the event was received, in milliseconds of the backend's clock.
    pub timestamp: u64,
    /// Last known cursor position, relative to the widget.
    pub pointer_pos: Position,
    /// Last known cursor position, relative to the window.
    pub abs_pos: Position,
    /// Current mouse button state.
    pub button_state: ButtonState,
    /// Current keyboard modifier state.
    pub mod_state: ModState,
}

impl EventContext {
    /// Creates a new event context; both positions start as `pointer_pos`.
    pub fn new(timestamp: u64, pointer_pos: Position, button_state: ButtonState, mod_state: ModState) -> (r: Self)
        ensures
            r.timestamp == timestamp,
            r.pointer_pos == pointer_pos,
            r.abs_pos == pointer_pos,
            r.button_state == button_state,
            r.mod_state == mod_state,
    {
        EventContext { timestamp, pointer_pos, abs_pos: pointer_pos, button_state, mod_state }
    }
}

/// Input state a backend tracks between events: the pointer position, the
/// pressed buttons and the modifier keys.
#[derive(Debug, Clone, Copy, PartialEq, Eq, Structural, Hash)]
pub struct InputState {
    pub last_pos: Position,
    pub button_state: ButtonState,
    pub mod_state: ModState,
}

/// Input state after `event`: pointer moves set the position, button
/// presses and releases set and clear the button's bit (buttons without a
/// bit are ignored); other events change nothing.
pub open spec fn input_after(s: InputState, event: Event) -> InputState {
    match event {
        Event::MouseMoved(AxisValue::Position(p)) => InputState { last_pos: p, ..s },
        Event::MouseButton { state, button } => if button_has_mask(button) {
            InputState {
                button_state: ButtonState(
                    if state == EvState::Pressed {
                        s.button_state.0 | button_mask(button)
                    } else {
                        s.button_state.0 & !button_mask(button)
                    },
                ),
                ..s
            }
        } else {
            s
        },
        _ => s,
    }
}

impl InputState {
    /// Pointer at the origin, nothing pressed.
    pub fn new() -> (r: Self)
        ensures
            r.last_pos == (Point { x: 0i32, y: 0i32 }),
            r.button_state.0 == 0,
            r.mod_state == (ModState { shift: false, ctrl: false, alt: false, meta: false }),
    {
        InputState {
            last_pos: Point { x: 0, y: 0 },
            button_state: ButtonState(0),
            mod_state: ModState { shift: false, ctrl: false, alt: false, meta: false },
        }
    }

    /// Records a change of the modifier keys.
    pub fn set_modifiers(&mut self, mod_state: ModState)
        ensures
            *final(self) == (InputState { mod_state, ..*old(self) }),
    {
        self.mod_state = mod_state;
    }

    /// Updates the state from an event.
    pub fn observe(&mut self, event: &Event)
        ensures
            *final(self) == input_after(*old(self), *event),
    {
        match event {
            Event::MouseMoved(AxisValue::Position(p)) => {
                self.last_pos = *p;
            },
            Event::MouseButton { state, button } => {
                let has_bit = match button {
                    MouseButton::Other(n) => *n < 64,
                    _ => true,
                };
                if has_bit {
                    match state {
                        EvState::Pressed => self.button_state.set(*button),
                        EvState::Released => self.button_state.unset(*button),
                    }
                }
            },
            _ => {},
        }
    }

    /// Context for an event received at `timestamp`.
    pub fn context(&self, timestamp: u64) -> (r: EventContext)
        ensures
            r == (EventContext {
                timestamp,
                pointer_pos: self.last_pos,
                abs_pos: self.last_pos,
                button_state: self.button_state,
                mod_state: self.mod_state,
            }),
    {
        EventContext::new(timestamp, self.last_pos, self.button_state, self.mod_state)
    }
}

/// The result of processing an input event.
#[derive(Debug, Clone, Copy, PartialEq, Eq, Structural, Hash)]
pub enum EventResult {
    Pass,
    Consumed,
}

impl EventResult {
    pub fn consumed(self) -> (r: bool)
        ensures
            r == (self == EventResult::Consumed),
    {
        self == EventResult::Consumed
    }
}

} // verus!
