//! Keys as the terminal reports them.

use crossterm::event::KeyModifiers;
use vstd::prelude::*;

verus! {

/// The modifier bit of the Shift key.
pub const SHIFT: u8 = 1;

/// The modifier bit of the Control key.
pub const CONTROL: u8 = 2;

/// The modifier bit of the Alt key.
pub const ALT: u8 = 4;

/// The modifier bit of the Super key.
pub const SUPER: u8 = 8;

/// `KeyModifiers::contains` of `crossterm`, on the bits of the two sets: whether every bit of
/// `wanted` is set in `bits`.
#[verifier::external_body]
fn modifiers_contain(bits: u8, wanted: u8) -> (b: bool)
    ensures
        b == (bits & wanted == wanted),
{
    KeyModifiers::from_bits_retain(bits).contains(KeyModifiers::from_bits_retain(wanted))
}

/// The modifier keys that were down, by the bits that the terminal library gives them.
#[derive(Debug, Clone, Copy, PartialEq, Eq, Structural)]
pub struct Modifiers {
    pub bits: u8,
}

impl Modifiers {
    /// Whether all modifiers of `wanted` were down.
    pub open spec fn has(self, wanted: u8) -> bool {
        self.bits & wanted == wanted
    }

    /// Whether all modifiers of `wanted` were down.
    pub fn contains(self, wanted: u8) -> (b: bool)
        ensures
            b == self.has(wanted),
    {
        modifiers_contain(self.bits, wanted)
    }

    /// Whether no modifier was down.
    pub fn is_empty(self) -> (b: bool)
        ensures
            b == (self.bits == 0),
    {
        self.bits == 0
    }
}

/// The key itself. Keys that no binding asks for are `Other`.
#[derive(Debug, Clone, Copy, PartialEq, Eq, Structural)]
pub enum KeyCode {
    Backspace,
    Enter,
    Left,
    Right,
    Up,
    Down,
    Home,
    End,
    PageUp,
    PageDown,
    Tab,
    BackTab,
    Delete,
    Esc,
    F(u8),
    Char(char),
    Other,
}

/// What the platform's keymap says about a key press: which of the client's named shortcuts it
/// is.
#[derive(Debug, Clone, Copy, PartialEq, Eq, Structural)]
pub struct KeyTraits {
    /// Ctrl+H as terminals send it for the Backspace key.
    pub ctrl_h_backspace: bool,
    /// The shortcut for pasting from the clipboard.
    pub paste: bool,
    /// A key that types text.
    pub text_input: bool,
    /// The shortcut for showing and hiding the file tree.
    pub file_tree_toggle: bool,
    /// The character that Option+V types on macOS without a meta key.
    pub option_v: bool,
    /// A key that puts a line break into the composer.
    pub composer_newline: bool,
    /// Modifiers that make a cursor key move by words.
    pub word_cursor: bool,
    /// Modifiers of the transcript navigation keys.
    pub alt_nav: bool,
    /// The shortcut for copying the selection.
    pub copy: bool,
    /// Control or Alt is down, and not as the AltGr key.
    pub ctrl_or_alt: bool,
}

/// One key press.
#[derive(Debug, Clone, Copy, PartialEq, Eq, Structural)]
pub struct Key {
    pub code: KeyCode,
    pub modifiers: Modifiers,
    pub traits: KeyTraits,
}

impl Key {
    /// Whether the key types a character with AltGr, which some platforms report as Control and
    /// Alt together.
    pub open spec fn altgr_char(self) -> bool {
        &&& self.code is Char
        &&& self.modifiers.has(CONTROL)
        &&& self.modifiers.has(ALT)
        &&& !self.traits.ctrl_or_alt
    }

    /// Whether Control is down, and not as a part of AltGr.
    pub open spec fn ctrl(self) -> bool {
        self.modifiers.has(CONTROL) && !self.altgr_char()
    }

    /// Whether Alt is down, and not as a part of AltGr.
    pub open spec fn alt(self) -> bool {
        self.modifiers.has(ALT) && !self.altgr_char()
    }

    /// Whether the key types a character with AltGr.
    pub fn is_altgr_char(&self) -> (b: bool)
        ensures
            b == self.altgr_char(),
    {
        match self.code {
            KeyCode::Char(_) => self.modifiers.contains(CONTROL) && self.modifiers.contains(ALT)
                && !self.traits.ctrl_or_alt,
            _ => false,
        }
    }

    /// Whether Control is down, and not as a part of AltGr.
    pub fn has_ctrl(&self) -> (b: bool)
        ensures
            b == self.ctrl(),
    {
        self.modifiers.contains(CONTROL) && !self.is_altgr_char()
    }

    /// Whether Alt is down, and not as a part of AltGr.
    pub fn has_alt(&self) -> (b: bool)
        ensures
            b == self.alt(),
    {
        self.modifiers.contains(ALT) && !self.is_altgr_char()
    }

    /// Whether the key types a character and no shortcut modifier is down.
    pub open spec fn plain_char(self) -> bool {
        self.code is Char && !self.traits.ctrl_or_alt && !self.modifiers.has(SUPER)
    }

    /// Whether the key types a character and no shortcut modifier is down.
    pub fn is_plain_char(&self) -> (b: bool)
        ensures
            b == self.plain_char(),
    {
        match self.code {
            KeyCode::Char(_) => !self.traits.ctrl_or_alt && !self.modifiers.contains(SUPER),
            _ => false,
        }
    }

    /// Whether the key is `c`.
    pub fn is_char(&self, c: char) -> (b: bool)
        ensures
            b == (self.code == KeyCode::Char(c)),
    {
        self.code == KeyCode::Char(c)
    }
}

/// Without modifiers no modifier is down, and with one alone no other is.
pub proof fn modifiers_apart(m: Modifiers)
    ensures
        m.bits == 0 ==> !m.has(SHIFT) && !m.has(CONTROL) && !m.has(ALT) && !m.has(SUPER),
        m.bits == CONTROL ==> m.has(CONTROL) && !m.has(SHIFT) && !m.has(ALT) && !m.has(SUPER),
        m.bits == ALT ==> m.has(ALT) && !m.has(SHIFT) && !m.has(CONTROL) && !m.has(SUPER),
        m.bits == SHIFT ==> m.has(SHIFT) && !m.has(CONTROL) && !m.has(ALT) && !m.has(SUPER),
{
    assert(0u8 & 1 == 0 && 0u8 & 2 == 0 && 0u8 & 4 == 0 && 0u8 & 8 == 0) by (bit_vector);
    assert(1u8 & 1 == 1 && 1u8 & 2 == 0 && 1u8 & 4 == 0 && 1u8 & 8 == 0) by (bit_vector);
    assert(2u8 & 1 == 0 && 2u8 & 2 == 2 && 2u8 & 4 == 0 && 2u8 & 8 == 0) by (bit_vector);
    assert(4u8 & 1 == 0 && 4u8 & 2 == 0 && 4u8 & 4 == 4 && 4u8 & 8 == 0) by (bit_vector);
}

} // verus!
