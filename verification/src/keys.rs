//! Which key presses ask the menu to quit.

use vstd::prelude::*;
use vstd::string::StringExecFns;

use crate::app::{AppMsg, MsgView};

verus! {

/// A key press, as far as the menu tells keys apart.
#[derive(Debug, PartialEq, Eq)]
pub enum Key {
    /// The escape key.
    Escape,
    /// Any other key that has a name rather than a character.
    OtherNamed,
    /// A key that produces the given text.
    Character(String),
    /// A key that the platform could not identify.
    Unidentified,
}

/// A [`Key`] as contracts see it.
pub enum KeyView {
    Escape,
    OtherNamed,
    Character(Seq<char>),
    Unidentified,
}

impl View for Key {
    type V = KeyView;

    open spec fn view(&self) -> KeyView {
        match self {
            Key::Escape => KeyView::Escape,
            Key::OtherNamed => KeyView::OtherNamed,
            Key::Character(text) => KeyView::Character(text@),
            Key::Unidentified => KeyView::Unidentified,
        }
    }
}

/// The keys that quit the menu: escape, and the letter `q`.
pub open spec fn quits(key: KeyView) -> bool {
    match key {
        KeyView::Escape => true,
        KeyView::Character(text) => text == "q"@,
        _ => false,
    }
}

/// The message that a key press stands for, if it stands for one.
pub fn key_message<C>(key: &Key) -> (message: Option<AppMsg<C>>)
    ensures
        match message {
            Some(quit) => quits(key@) && quit@ == MsgView::<C>::Quit,
            None => !quits(key@),
        },
{
    match key {
        Key::Escape => Some(AppMsg::Quit),
        Key::Character(text) => {
            if *text == String::from_str("q") {
                Some(AppMsg::Quit)
            } else {
                None
            }
        },
        _ => None,
    }
}

} // verus!
