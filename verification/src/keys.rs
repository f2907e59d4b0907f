use vstd::prelude::*;
use vstd::std_specs::convert::FromSpecImpl;

verus! {

/// A key of the keyboard, as far as the session tells keys apart.
#[derive(Debug, Clone, Copy, PartialEq, Eq, Structural)]
pub enum Key {
    /// A key that stands for a character.
    Char(char),
    /// The Enter key.
    Enter,
    /// The Escape key.
    Esc,
    /// The Backspace key.
    Backspace,
    /// The Delete key.
    Delete,
    /// The left arrow.
    Left,
    /// The right arrow.
    Right,
    /// The Home key.
    Home,
    /// The End key.
    End,
    /// Any other key.
    Other,
}

/// The modifier keys held down while a key is pressed.
#[derive(Debug, Clone, Copy, PartialEq, Eq, Structural)]
pub struct Modifiers {
    /// Shift is held.
    pub shift: bool,
    /// Control is held.
    pub control: bool,
    /// Alt is held.
    pub alt: bool,
    /// Super is held.
    pub super_key: bool,
    /// Hyper is held.
    pub hyper: bool,
    /// Meta is held.
    pub meta: bool,
}

impl Modifiers {
    /// No modifier is held.
    pub open spec fn is_none(self) -> bool {
        !self.shift && !self.control && !self.alt && !self.super_key && !self.hyper && !self.meta
    }

    /// Control is held and no other modifier.
    pub open spec fn is_control(self) -> bool {
        self.control && !self.shift && !self.alt && !self.super_key && !self.hyper && !self.meta
    }

    /// Alt is held and no other modifier.
    pub open spec fn is_alt(self) -> bool {
        self.alt && !self.shift && !self.control && !self.super_key && !self.hyper && !self.meta
    }

    /// No modifier.
    pub fn none() -> (modifiers: Modifiers)
        ensures
            modifiers.is_none(),
    {
        Modifiers {
            shift: false,
            control: false,
            alt: false,
            super_key: false,
            hyper: false,
            meta: false,
        }
    }

    /// Control alone.
    pub fn control() -> (modifiers: Modifiers)
        ensures
            modifiers.is_control(),
    {
        Modifiers {
            shift: false,
            control: true,
            alt: false,
            super_key: false,
            hyper: false,
            meta: false,
        }
    }

    /// Alt alone.
    pub fn alt() -> (modifiers: Modifiers)
        ensures
            modifiers.is_alt(),
    {
        Modifiers {
            shift: false,
            control: false,
            alt: true,
            super_key: false,
            hyper: false,
            meta: false,
        }
    }

    /// Whether Control is held and no other modifier.
    pub fn only_control(&self) -> (held: bool)
        ensures
            held == self.is_control(),
    {
        self.control && !self.shift && !self.alt && !self.super_key && !self.hyper && !self.meta
    }

    /// Whether Alt is held and no other modifier.
    pub fn only_alt(&self) -> (held: bool)
        ensures
            held == self.is_alt(),
    {
        self.alt && !self.shift && !self.control && !self.super_key && !self.hyper && !self.meta
    }
}

/// `crossterm::event::KeyCode`, the key of a key press as the terminal
/// reports it. Its variants are not visible here.
#[verifier::external_type_specification]
#[verifier::external_body]
pub struct ExTerminalKey(crossterm::event::KeyCode);

/// `crossterm::event::KeyModifiers`, the set of modifier keys of a key
/// press as the terminal reports it.
#[verifier::external_type_specification]
#[verifier::external_body]
pub struct ExTerminalModifiers(crossterm::event::KeyModifiers);

/// Tells the variants of `KeyCode` apart: a character key keeps its
/// character, the nine keys that `Key` names keep their names, and every
/// other variant becomes `Other`. Nothing is claimed of the result.
#[verifier::external_body]
fn terminal_key(code: crossterm::event::KeyCode) -> Key {
    match code {
        crossterm::event::KeyCode::Char(c) => Key::Char(c),
        crossterm::event::KeyCode::Enter => Key::Enter,
        crossterm::event::KeyCode::Esc => Key::Esc,
        crossterm::event::KeyCode::Backspace => Key::Backspace,
        crossterm::event::KeyCode::Delete => Key::Delete,
        crossterm::event::KeyCode::Left => Key::Left,
        crossterm::event::KeyCode::Right => Key::Right,
        crossterm::event::KeyCode::Home => Key::Home,
        crossterm::event::KeyCode::End => Key::End,
        _ => Key::Other,
    }
}

/// `KeyModifiers::contains`, asked once for each of the six modifiers.
/// Nothing is claimed of the result.
#[verifier::external_body]
fn terminal_modifiers(held: crossterm::event::KeyModifiers) -> Modifiers {
    Modifiers {
        shift: held.contains(crossterm::event::KeyModifiers::SHIFT),
        control: held.contains(crossterm::event::KeyModifiers::CONTROL),
        alt: held.contains(crossterm::event::KeyModifiers::ALT),
        super_key: held.contains(crossterm::event::KeyModifiers::SUPER),
        hyper: held.contains(crossterm::event::KeyModifiers::HYPER),
        meta: held.contains(crossterm::event::KeyModifiers::META),
    }
}

impl From<crossterm::event::KeyCode> for Key {
    /// The key that a key code of the terminal stands for.
    fn from(code: crossterm::event::KeyCode) -> (key: Key) {
        terminal_key(code)
    }
}

impl FromSpecImpl<crossterm::event::KeyCode> for Key {
    open spec fn obeys_from_spec() -> bool {
        false
    }

    open spec fn from_spec(code: crossterm::event::KeyCode) -> Key {
        arbitrary()
    }
}

impl From<crossterm::event::KeyModifiers> for Modifiers {
    /// The modifiers that a set of modifiers of the terminal holds.
    fn from(held: crossterm::event::KeyModifiers) -> (modifiers: Modifiers) {
        terminal_modifiers(held)
    }
}

impl FromSpecImpl<crossterm::event::KeyModifiers> for Modifiers {
    open spec fn obeys_from_spec() -> bool {
        false
    }

    open spec fn from_spec(held: crossterm::event::KeyModifiers) -> Modifiers {
        arbitrary()
    }
}

} // verus!
