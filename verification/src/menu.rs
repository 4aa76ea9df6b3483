//! The file-operations menu: which operation a (trimmed) line of input selects.

use vstd::prelude::*;
use vstd::string::StringSliceAdditionalSpecFns;

verus! {

/// What a menu entry asks for.
#[derive(Debug, Clone, Copy, PartialEq, Eq, Structural)]
pub enum MenuChoice {
    List,
    Display,
    Create,
    Remove,
    Pwd,
    Exit,
    Invalid,
}

/// The entry selected by a line whose UTF-8 bytes are `bytes`: exactly one of the
/// digits 1 to 5 or 0; anything else is invalid.
pub open spec fn menu_choice_of(bytes: Seq<u8>) -> MenuChoice {
    if bytes.len() != 1 {
        MenuChoice::Invalid
    } else if bytes[0] == 0x31 {
        MenuChoice::List
    } else if bytes[0] == 0x32 {
        MenuChoice::Display
    } else if bytes[0] == 0x33 {
        MenuChoice::Create
    } else if bytes[0] == 0x34 {
        MenuChoice::Remove
    } else if bytes[0] == 0x35 {
        MenuChoice::Pwd
    } else if bytes[0] == 0x30 {
        MenuChoice::Exit
    } else {
        MenuChoice::Invalid
    }
}

/// Reads the menu entry from an already trimmed line of input.
pub fn parse_menu_choice(choice: &str) -> (c: MenuChoice)
    ensures
        c == menu_choice_of(choice.spec_bytes()),
{
    let bytes = choice.as_bytes();
    if bytes.len() != 1 {
        return MenuChoice::Invalid;
    }
    match bytes[0] {
        0x31u8 => MenuChoice::List,
        0x32u8 => MenuChoice::Display,
        0x33u8 => MenuChoice::Create,
        0x34u8 => MenuChoice::Remove,
        0x35u8 => MenuChoice::Pwd,
        0x30u8 => MenuChoice::Exit,
        _ => MenuChoice::Invalid,
    }
}

} // verus!
