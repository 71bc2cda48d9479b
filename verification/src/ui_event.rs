use vstd::prelude::*;

verus! {

/// The pixel size of a container (a window or a part of one).
#[derive(Debug, Clone, Copy, PartialEq, Eq, Structural)]
pub struct DisplayContainerSize {
    pub width: u32,
    pub height: u32,
}

impl DisplayContainerSize {
    pub fn new(width: u32, height: u32) -> (s: DisplayContainerSize)
        ensures
            s.width == width,
            s.height == height,
    {
        DisplayContainerSize { width, height }
    }
}

/// Which modifier keys are held.
#[derive(Debug, Clone, Copy, Default, PartialEq, Eq, Structural)]
pub struct KeyModifiers {
    pub ctrl: bool,
    pub alt: bool,
    pub shift: bool,
    pub caps_lock: bool,
    pub logo: bool,
}

/// Builds a modifier set from its five flags.
pub open spec fn modifiers(ctrl: bool, alt: bool, shift: bool, caps_lock: bool, logo: bool) -> KeyModifiers {
    KeyModifiers { ctrl, alt, shift, caps_lock, logo }
}

pub open spec fn spec_none() -> KeyModifiers {
    modifiers(false, false, false, false, false)
}

pub open spec fn spec_ctrl() -> KeyModifiers {
    modifiers(true, false, false, false, false)
}

pub open spec fn spec_alt() -> KeyModifiers {
    modifiers(false, true, false, false, false)
}

pub open spec fn spec_shift() -> KeyModifiers {
    modifiers(false, false, true, false, false)
}

pub open spec fn spec_logo() -> KeyModifiers {
    modifiers(false, false, false, false, true)
}

pub open spec fn spec_ctrl_shift() -> KeyModifiers {
    modifiers(true, false, true, false, false)
}

/// The flag-wise union of two modifier sets.
pub open spec fn spec_both(l: KeyModifiers, r: KeyModifiers) -> KeyModifiers {
    modifiers(l.ctrl || r.ctrl, l.alt || r.alt, l.shift || r.shift, l.caps_lock || r.caps_lock, l.logo || r.logo)
}

/// The flag-wise intersection of two modifier sets.
pub open spec fn spec_common(l: KeyModifiers, r: KeyModifiers) -> KeyModifiers {
    modifiers(l.ctrl && r.ctrl, l.alt && r.alt, l.shift && r.shift, l.caps_lock && r.caps_lock, l.logo && r.logo)
}

impl KeyModifiers {
    /// No modifier held.
    pub fn none() -> (m: KeyModifiers)
        ensures
            m == spec_none(),
    {
        KeyModifiers { ctrl: false, alt: false, shift: false, caps_lock: false, logo: false }
    }

    /// Only Ctrl held.
    pub fn ctrl() -> (m: KeyModifiers)
        ensures
            m == spec_ctrl(),
    {
        KeyModifiers { ctrl: true, alt: false, shift: false, caps_lock: false, logo: false }
    }

    /// Only Alt held.
    pub fn alt() -> (m: KeyModifiers)
        ensures
            m == spec_alt(),
    {
        KeyModifiers { ctrl: false, alt: true, shift: false, caps_lock: false, logo: false }
    }

    /// Only Shift held.
    pub fn shift() -> (m: KeyModifiers)
        ensures
            m == spec_shift(),
    {
        KeyModifiers { ctrl: false, alt: false, shift: true, caps_lock: false, logo: false }
    }

    /// Only the logo key held.
    pub fn logo() -> (m: KeyModifiers)
        ensures
            m == spec_logo(),
    {
        KeyModifiers { ctrl: false, alt: false, shift: false, caps_lock: false, logo: true }
    }

    /// Ctrl and Shift held, nothing else.
    pub fn ctrl_shift() -> (m: KeyModifiers)
        ensures
            m == spec_ctrl_shift(),
    {
        KeyModifiers::both(KeyModifiers::ctrl(), KeyModifiers::shift())
    }

    /// Combines two modifier sets: a flag is set when it is set in either.
    /// For example `both(CTRL, SHIFT)` is `CTRL_SHIFT`.
    pub fn both(self, rhs: KeyModifiers) -> (m: KeyModifiers)
        ensures
            m == spec_both(self, rhs),
    {
        KeyModifiers {
            ctrl: self.ctrl || rhs.ctrl,
            alt: self.alt || rhs.alt,
            shift: self.shift || rhs.shift,
            caps_lock: self.caps_lock || rhs.caps_lock,
            logo: self.logo || rhs.logo,
        }
    }

    /// The flags set in both modifier sets.
    pub fn common(self, rhs: KeyModifiers) -> (m: KeyModifiers)
        ensures
            m == spec_common(self, rhs),
    {
        KeyModifiers {
            ctrl: self.ctrl && rhs.ctrl,
            alt: self.alt && rhs.alt,
            shift: self.shift && rhs.shift,
            caps_lock: self.caps_lock && rhs.caps_lock,
            logo: self.logo && rhs.logo,
        }
    }
}

impl core::ops::BitOr for KeyModifiers {
    type Output = KeyModifiers;

    fn bitor(self, rhs: KeyModifiers) -> (m: KeyModifiers)
        ensures
            m == spec_both(self, rhs),
    {
        KeyModifiers::both(self, rhs)
    }
}

impl vstd::std_specs::ops::BitOrSpecImpl for KeyModifiers {
    open spec fn obeys_bitor_spec() -> bool {
        true
    }

    open spec fn bitor_req(self, rhs: KeyModifiers) -> bool {
        true
    }

    open spec fn bitor_spec(self, rhs: KeyModifiers) -> KeyModifiers {
        spec_both(self, rhs)
    }
}

impl vstd::std_specs::ops::BitAndSpecImpl for KeyModifiers {
    open spec fn obeys_bitand_spec() -> bool {
        true
    }

    open spec fn bitand_req(self, rhs: KeyModifiers) -> bool {
        true
    }

    open spec fn bitand_spec(self, rhs: KeyModifiers) -> KeyModifiers {
        spec_common(self, rhs)
    }
}

impl core::ops::BitAnd for KeyModifiers {
    type Output = KeyModifiers;

    fn bitand(self, rhs: KeyModifiers) -> (m: KeyModifiers)
        ensures
            m == spec_common(self, rhs),
    {
        KeyModifiers::common(self, rhs)
    }
}

/// Combining modifier sets is commutative, associative and idempotent,
/// and the empty set changes nothing.
pub proof fn lemma_both_laws(a: KeyModifiers, b: KeyModifiers, c: KeyModifiers)
    ensures
        spec_both(a, b) == spec_both(b, a),
        spec_both(spec_both(a, b), c) == spec_both(a, spec_both(b, c)),
        spec_both(a, a) == a,
        spec_both(a, spec_none()) == a,
        spec_common(a, spec_both(a, b)) == a,
        spec_common(a, b) == spec_common(b, a),
{
}

/// A key that was pressed.
#[derive(Debug, Clone, Copy, PartialEq, Eq, Structural)]
pub enum Key {
    ArrowKeyUp,
    ArrowKeyDown,
    ArrowKeyLeft,
    ArrowKeyRight,
    Enter,
    Backspace,
    Escape,
    PageUp,
    PageDown,
    Char(char),
}

/// An input event delivered to an applet.
#[derive(Debug, Clone, Copy)]
pub enum UIEvent {
    KeyPress(Key, KeyModifiers),
    WindowResized(DisplayContainerSize),
    /// `[mouse location [x, y], window size [w, h]]`
    MousePress([[u32; 2]; 2]),
}

/// The character a key stands for, if any.
pub open spec fn spec_to_char(key: Key) -> Option<char> {
    match key {
        Key::Enter => Some('\n'),
        Key::Backspace => Some('\u{8}'),
        Key::Char(c) => Some(c),
        _ => None,
    }
}

pub open spec fn is_ascii_char(c: char) -> bool {
    (c as u32) < 0x80
}

/// The value of a decimal digit character.
pub open spec fn spec_decimal_digit(c: char) -> Option<u8> {
    if '0' <= c && c <= '9' {
        Some(((c as u32) - ('0' as u32)) as u8)
    } else {
        None
    }
}

pub open spec fn spec_to_alphabet(key: Key) -> Option<char> {
    match spec_to_char(key) {
        Some(c) => if is_ascii_char(c) { Some(c) } else { None },
        None => None,
    }
}

pub open spec fn spec_to_digit(key: Key) -> Option<u8> {
    match spec_to_char(key) {
        Some(c) => spec_decimal_digit(c),
        None => None,
    }
}

/// Reading a key as a character, a letter or a digit.
pub trait KeyTrait {
    fn to_alphabet(&self) -> Option<char>;

    fn to_digit(&self) -> Option<u8>;

    fn to_char(&self) -> Option<char>;
}

impl KeyTrait for Key {
    /// The key's character when it is an ASCII character.
    fn to_alphabet(&self) -> (r: Option<char>)
        ensures
            r == spec_to_alphabet(*self),
    {
        match self.to_char() {
            Some(c) => {
                if (c as u32) < 0x80 {
                    Some(c)
                } else {
                    None
                }
            },
            None => None,
        }
    }

    /// The key's value when its character is a decimal digit.
    fn to_digit(&self) -> (r: Option<u8>)
        ensures
            r == spec_to_digit(*self),
    {
        match self.to_char() {
            Some(c) => {
                if '0' <= c && c <= '9' {
                    Some(((c as u32) - ('0' as u32)) as u8)
                } else {
                    None
                }
            },
            None => None,
        }
    }

    /// The character the key types: a line feed for Enter,
    /// U+0008 for Backspace, the character itself for a character key.
    fn to_char(&self) -> (r: Option<char>)
        ensures
            r == spec_to_char(*self),
    {
        match self {
            Key::Enter => Some('\n'),
            Key::Backspace => Some('\u{8}'),
            Key::Char(c) => Some(*c),
            _ => None,
        }
    }
}

} // verus!
