//! Key presses and the search box.
//!
//! Key events come from the terminal library and the search box is the text
//! input of the input library; both are opaque here. What the state machine
//! reads of them is given a name, and each call states its result over those
//! names.

use crossterm::event::{Event, KeyCode, KeyEvent, KeyModifiers};
use tui_input::backend::crossterm::EventHandler;
use tui_input::Input;
use vstd::prelude::*;

verus! {

/// The text input of the input library, carried as an opaque value.
#[verifier::external_type_specification]
#[verifier::external_body]
pub struct ExInput(Input);

/// The key event of the terminal library, carried as an opaque value.
#[verifier::external_type_specification]
#[verifier::external_body]
pub struct ExKeyEvent(KeyEvent);

/// The keys that the interface tells apart.
#[derive(Debug, Copy, Clone, PartialEq, Eq, Structural)]
pub enum Key {
    Char(char),
    F(u8),
    PageDown,
    PageUp,
    Home,
    End,
    Up,
    Down,
    Enter,
    Esc,
    Tab,
    Other,
}

/// The text that a search box holds.
pub uninterp spec fn typed(input: Input) -> Seq<char>;

/// The search box after it has handled a key press.
pub uninterp spec fn edited(input: Input, key: KeyEvent) -> Input;

/// Whether the control modifier is held in a key press.
pub uninterp spec fn control_held(key: KeyEvent) -> bool;

/// The key of a key press.
pub uninterp spec fn pressed(key: KeyEvent) -> Key;

/// `Input::default()`: the derived default, whose value is the empty string.
pub assume_specification[ <Input as Default>::default ]() -> (input: Input)
    ensures
        typed(input) == Seq::<char>::empty(),
;

/// `Input::clone`: the derived copy, field by field.
pub assume_specification[ <Input as Clone>::clone ](input: &Input) -> (copy: Input)
    ensures
        copy == *input,
;

/// `Input::value` hands back the text that the search box holds.
pub assume_specification[ Input::value ](input: &Input) -> (value: &str)
    ensures
        value@ == typed(*input),
;

/// `EventHandler::handle_event` on a key event: the search box turns the event
/// into an edit request and applies it, which depends on the box and the event
/// alone.
#[verifier::external_body]
pub(crate) fn apply_key(input: &mut Input, key: &KeyEvent)
    ensures
        *final(input) == edited(*old(input), *key),
{
    input.handle_event(&Event::Key(*key));
}

/// `KeyModifiers::contains` on the modifiers of a key event, asked for the
/// control modifier.
#[verifier::external_body]
pub(crate) fn holds_control(key: &KeyEvent) -> (held: bool)
    ensures
        held == control_held(*key),
{
    key.modifiers.contains(KeyModifiers::CONTROL)
}

/// The `code` field of a key event, as one of the keys that the interface
/// tells apart.
#[verifier::external_body]
pub(crate) fn key_of(key: &KeyEvent) -> (k: Key)
    ensures
        k == pressed(*key),
{
    match key.code {
        KeyCode::Char(c) => Key::Char(c),
        KeyCode::F(n) => Key::F(n),
        KeyCode::PageDown => Key::PageDown,
        KeyCode::PageUp => Key::PageUp,
        KeyCode::Home => Key::Home,
        KeyCode::End => Key::End,
        KeyCode::Up => Key::Up,
        KeyCode::Down => Key::Down,
        KeyCode::Enter => Key::Enter,
        KeyCode::Esc => Key::Esc,
        KeyCode::Tab => Key::Tab,
        _ => Key::Other,
    }
}

} // verus!
