//! Keys, modifier sets and terminal input events, as plain values.

use vstd::prelude::*;

verus! {

/// Names for the bits of a modifier set.
///
/// A modifier set is a `u8`: each held modifier contributes its bit, and two
/// sets are the same set exactly when the two bytes are equal.
pub struct KeyModifiers;

impl KeyModifiers {
    pub const NONE: u8 = 0b0000_0000;

    pub const SHIFT: u8 = 0b0000_0001;

    pub const CONTROL: u8 = 0b0000_0010;

    pub const ALT: u8 = 0b0000_0100;

    pub const SUPER: u8 = 0b0000_1000;

    pub const HYPER: u8 = 0b0001_0000;

    pub const META: u8 = 0b0010_0000;
}

/// Control and Alt held together, as keyboards with an AltGr key report it.
pub const CONTROL_ALT: u8 = 0b0000_0110;

/// Control, Alt and Shift held together.
pub const CONTROL_ALT_SHIFT: u8 = 0b0000_0111;

/// A media key.
#[derive(Clone, Copy, Debug, PartialEq, Eq, Hash, Structural)]
pub enum MediaKeyCode {
    Play,
    Pause,
    PlayPause,
    Reverse,
    Stop,
    FastForward,
    Rewind,
    TrackNext,
    TrackPrevious,
    Record,
    LowerVolume,
    RaiseVolume,
    MuteVolume,
}

/// A modifier key reported as a key of its own.
#[derive(Clone, Copy, Debug, PartialEq, Eq, Hash, Structural)]
pub enum ModifierKeyCode {
    LeftShift,
    LeftControl,
    LeftAlt,
    LeftSuper,
    LeftHyper,
    LeftMeta,
    RightShift,
    RightControl,
    RightAlt,
    RightSuper,
    RightHyper,
    RightMeta,
    IsoLevel3Shift,
    IsoLevel5Shift,
}

/// The key of a key press.
#[derive(Clone, Copy, Debug, PartialEq, Eq, Hash, Structural)]
pub enum KeyCode {
    Backspace,
    Enter,
    Left,
    Right,
    Up,
    Down,
    Home,
    End,
    PageUp,
    PageDown,
    Tab,
    BackTab,
    Delete,
    Insert,
    /// A function key: `F(1)` is F1.
    F(u8),
    /// A printable character.
    Char(char),
    Null,
    Esc,
    CapsLock,
    ScrollLock,
    NumLock,
    PrintScreen,
    Pause,
    Menu,
    KeypadBegin,
    Media(MediaKeyCode),
    Modifier(ModifierKeyCode),
}

/// A modifier set together with a key: what a keybinding is looked up by.
#[derive(Clone, Copy, Debug, PartialEq, Eq, Hash, Structural)]
pub struct KeyCombination {
    pub modifier: u8,
    pub key_code: KeyCode,
}

/// Whether a key went down, is held, or went up.
#[derive(Clone, Copy, Debug, PartialEq, Eq, Hash, Structural)]
pub enum KeyEventKind {
    Press,
    Repeat,
    Release,
}

/// One keyboard event.
#[derive(Clone, Copy, Debug, PartialEq, Eq, Hash, Structural)]
pub struct KeyEvent {
    pub code: KeyCode,
    pub modifiers: u8,
    pub kind: KeyEventKind,
}

impl KeyEvent {
    /// The press of `code` while `modifiers` are held.
    pub fn new(code: KeyCode, modifiers: u8) -> (event: KeyEvent)
        ensures
            event == (KeyEvent { code, modifiers, kind: KeyEventKind::Press }),
    {
        KeyEvent { code, modifiers, kind: KeyEventKind::Press }
    }
}

/// What the terminal reports.
#[derive(Debug, PartialEq, Eq)]
pub enum Event {
    FocusGained,
    FocusLost,
    Key(KeyEvent),
    /// Any pointer event; where and which button is not kept.
    Mouse,
    /// Text pasted into the terminal, as it arrived.
    Paste(String),
    /// The terminal's new size: columns, then rows.
    Resize(u16, u16),
}

/// The mathematical value of an [`Event`].
pub ghost enum EventView {
    FocusGained,
    FocusLost,
    Key(KeyEvent),
    Mouse,
    Paste(Seq<char>),
    Resize(u16, u16),
}

impl View for Event {
    type V = EventView;

    open spec fn view(&self) -> EventView {
        match self {
            Event::FocusGained => EventView::FocusGained,
            Event::FocusLost => EventView::FocusLost,
            Event::Key(key) => EventView::Key(*key),
            Event::Mouse => EventView::Mouse,
            Event::Paste(body) => EventView::Paste(body@),
            Event::Resize(width, height) => EventView::Resize(*width, *height),
        }
    }
}

impl Clone for Event {
    fn clone(&self) -> (copy: Event)
        ensures
            copy@ == self@,
    {
        match self {
            Event::FocusGained => Event::FocusGained,
            Event::FocusLost => Event::FocusLost,
            Event::Key(key) => Event::Key(*key),
            Event::Mouse => Event::Mouse,
            Event::Paste(body) => Event::Paste(body.clone()),
            Event::Resize(width, height) => Event::Resize(*width, *height),
        }
    }
}

impl EventView {
    /// The release of a key: the one event that the editor is never shown.
    pub open spec fn is_key_release(self) -> bool {
        self matches EventView::Key(key) && key.kind == KeyEventKind::Release
    }
}

/// An input event that an edit mode accepts: anything but the release of a key.
#[derive(Debug, PartialEq, Eq)]
pub struct ReedlineRawEvent {
    inner: Event,
}

impl View for ReedlineRawEvent {
    type V = EventView;

    closed spec fn view(&self) -> EventView {
        self.inner@
    }
}

impl ReedlineRawEvent {
    #[verifier::type_invariant]
    spec fn not_a_release(&self) -> bool {
        !self.inner@.is_key_release()
    }

    /// Accepts `event` unless it is the release of a key.
    pub fn convert_from(event: Event) -> (raw: Option<ReedlineRawEvent>)
        ensures
            raw is None <==> event@.is_key_release(),
            raw matches Some(r) ==> r@ == event@,
    {
        let release = match &event {
            Event::Key(key) => key.kind == KeyEventKind::Release,
            _ => false,
        };
        if release {
            None
        } else {
            Some(ReedlineRawEvent { inner: event })
        }
    }

    /// The event that was accepted.
    pub fn into_event(self) -> (event: Event)
        ensures
            event@ == self@,
            !event@.is_key_release(),
    {
        proof {
            use_type_invariant(&self);
        }
        self.inner
    }
}

/// The lower-case form of an ASCII upper-case letter; any other character is
/// left as it is.
pub open spec fn ascii_lower(c: char) -> char {
    if 'A' <= c && c <= 'Z' {
        ((c as u8) + 32) as char
    } else {
        c
    }
}

/// The upper-case form of an ASCII lower-case letter; any other character is
/// left as it is.
pub open spec fn ascii_upper(c: char) -> char {
    if 'a' <= c && c <= 'z' {
        ((c as u8) - 32) as char
    } else {
        c
    }
}

/// Lower-cases an ASCII letter.
pub fn to_ascii_lowercase(c: char) -> (lower: char)
    ensures
        lower == ascii_lower(c),
{
    if 'A' <= c && c <= 'Z' {
        ((c as u8) + 32) as char
    } else {
        c
    }
}

/// Upper-cases an ASCII letter.
pub fn to_ascii_uppercase(c: char) -> (upper: char)
    ensures
        upper == ascii_upper(c),
{
    if 'a' <= c && c <= 'z' {
        ((c as u8) - 32) as char
    } else {
        c
    }
}

} // verus!
