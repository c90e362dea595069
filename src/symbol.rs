use vstd::prelude::*;

verus! {

/// A logical input from the remote: a digit key, delete, or submit.
#[derive(PartialEq, Eq, Structural, Clone, Copy, Debug)]
pub enum Symbol {
    Digit(u8),
    Delete,
    Submit,
}

impl Symbol {
    /// A digit symbol carries a value in 0..=9.
    pub open spec fn wf(self) -> bool {
        match self {
            Symbol::Digit(d) => d <= 9,
            _ => true,
        }
    }
}

/// The remote's button codes, mapped to symbols; every other code has none.
pub open spec fn command_symbol(command: u8) -> Option<Symbol> {
    if command == 22 {
        Some(Symbol::Digit(0))
    } else if command == 12 {
        Some(Symbol::Digit(1))
    } else if command == 24 {
        Some(Symbol::Digit(2))
    } else if command == 94 {
        Some(Symbol::Digit(3))
    } else if command == 8 {
        Some(Symbol::Digit(4))
    } else if command == 28 {
        Some(Symbol::Digit(5))
    } else if command == 90 {
        Some(Symbol::Digit(6))
    } else if command == 66 {
        Some(Symbol::Digit(7))
    } else if command == 82 {
        Some(Symbol::Digit(8))
    } else if command == 74 {
        Some(Symbol::Digit(9))
    } else if command == 68 {
        Some(Symbol::Delete)
    } else if command == 64 {
        Some(Symbol::Submit)
    } else {
        None
    }
}

/// Translates a decoded command code into the symbol of its button, if any.
pub fn map_command(command: u8) -> (r: Option<Symbol>)
    ensures
        r == command_symbol(command),
        r matches Some(s) ==> s.wf(),
{
    match command {
        22 => Some(Symbol::Digit(0)),
        12 => Some(Symbol::Digit(1)),
        24 => Some(Symbol::Digit(2)),
        94 => Some(Symbol::Digit(3)),
        8 => Some(Symbol::Digit(4)),
        28 => Some(Symbol::Digit(5)),
        90 => Some(Symbol::Digit(6)),
        66 => Some(Symbol::Digit(7)),
        82 => Some(Symbol::Digit(8)),
        74 => Some(Symbol::Digit(9)),
        68 => Some(Symbol::Delete),
        64 => Some(Symbol::Submit),
        _ => None,
    }
}

} // verus!
