//! The keypad's logical layer: the switch matrix positions and the keys they
//! produce in the plain, shifted and alpha layouts. The electrical scan that
//! fills a matrix state lives with the board support outside this crate; the
//! mapping from switches to keys is pure and verified here.

use vstd::prelude::*;

verus! {

/// One switch of the keypad matrix, named by row and column.
#[derive(Clone, Copy, PartialEq, Eq, Structural, Debug)]
pub enum Switch {
    R0C1,
    R0C2,
    R0C3,
    R0C4,
    R0C5,
    R0C6,
    R1C1,
    R1C3,
    R2C1,
    R2C2,
    R2C3,
    R2C4,
    R2C5,
    R2C6,
    R3C1,
    R3C2,
    R3C3,
    R3C4,
    R3C5,
    R3C6,
    R4C1,
    R4C2,
    R4C3,
    R4C4,
    R4C5,
    R4C6,
    R5C1,
    R5C2,
    R5C3,
    R5C4,
    R5C5,
    R6C1,
    R6C2,
    R6C3,
    R6C4,
    R6C5,
    R7C1,
    R7C2,
    R7C3,
    R7C4,
    R7C5,
    R8C1,
    R8C2,
    R8C3,
    R8C4,
    R8C5,
    NONE,
}

/// A key of the calculator, over all layouts.
#[derive(Clone, Copy, PartialEq, Eq, Structural, Debug)]
pub enum Key {
    Left,
    Up,
    Down,
    Right,
    Okay,
    Back,
    Home,
    Power,
    Shift,
    Alpha,
    AlphaLock,
    XNT,
    Var,
    Toolbox,
    Delete,
    Euler,
    Ln,
    Log,
    Imaginary,
    Comma,
    Pow,
    Sin,
    Cos,
    Tan,
    Pi,
    Sqrt,
    Square,
    Seven,
    Eight,
    Nine,
    LBracket,
    RBracket,
    Four,
    Five,
    Six,
    Multiply,
    Divide,
    One,
    Two,
    Three,
    Add,
    Subtract,
    Zero,
    Dot,
    EE,
    Ans,
    EXE,
    Cut,
    Copy,
    Paste,
    Clear,
    RSqBracket,
    LSqBracket,
    RCurlyBrace,
    LCurlyBrace,
    Underscore,
    Sto,
    ASin,
    ACos,
    ATan,
    Equals,
    Less,
    Greater,
    Colon,
    SemiColon,
    Quote,
    Percent,
    A,
    B,
    C,
    D,
    E,
    F,
    G,
    H,
    I,
    J,
    K,
    L,
    M,
    N,
    O,
    P,
    Q,
    R,
    S,
    T,
    U,
    V,
    W,
    X,
    Y,
    Z,
    Space,
    Question,
    Exclamation,
    NONE,
}

/// The switch with matrix code `code` (row in the high nibble, column in the
/// low one), where one exists; the reserved code 0xFF stands for no switch.
pub open spec fn spec_switch_from_code(code: u8) -> Option<Switch> {
    if code == 0x01 {
        Some(Switch::R0C1)
    } else if code == 0x02 {
        Some(Switch::R0C2)
    } else if code == 0x03 {
        Some(Switch::R0C3)
    } else if code == 0x04 {
        Some(Switch::R0C4)
    } else if code == 0x05 {
        Some(Switch::R0C5)
    } else if code == 0x06 {
        Some(Switch::R0C6)
    } else if code == 0x11 {
        Some(Switch::R1C1)
    } else if code == 0x13 {
        Some(Switch::R1C3)
    } else if code == 0x21 {
        Some(Switch::R2C1)
    } else if code == 0x22 {
        Some(Switch::R2C2)
    } else if code == 0x23 {
        Some(Switch::R2C3)
    } else if code == 0x24 {
        Some(Switch::R2C4)
    } else if code == 0x25 {
        Some(Switch::R2C5)
    } else if code == 0x26 {
        Some(Switch::R2C6)
    } else if code == 0x31 {
        Some(Switch::R3C1)
    } else if code == 0x32 {
        Some(Switch::R3C2)
    } else if code == 0x33 {
        Some(Switch::R3C3)
    } else if code == 0x34 {
        Some(Switch::R3C4)
    } else if code == 0x35 {
        Some(Switch::R3C5)
    } else if code == 0x36 {
        Some(Switch::R3C6)
    } else if code == 0x41 {
        Some(Switch::R4C1)
    } else if code == 0x42 {
        Some(Switch::R4C2)
    } else if code == 0x43 {
        Some(Switch::R4C3)
    } else if code == 0x44 {
        Some(Switch::R4C4)
    } else if code == 0x45 {
        Some(Switch::R4C5)
    } else if code == 0x46 {
        Some(Switch::R4C6)
    } else if code == 0x51 {
        Some(Switch::R5C1)
    } else if code == 0x52 {
        Some(Switch::R5C2)
    } else if code == 0x53 {
        Some(Switch::R5C3)
    } else if code == 0x54 {
        Some(Switch::R5C4)
    } else if code == 0x55 {
        Some(Switch::R5C5)
    } else if code == 0x61 {
        Some(Switch::R6C1)
    } else if code == 0x62 {
        Some(Switch::R6C2)
    } else if code == 0x63 {
        Some(Switch::R6C3)
    } else if code == 0x64 {
        Some(Switch::R6C4)
    } else if code == 0x65 {
        Some(Switch::R6C5)
    } else if code == 0x71 {
        Some(Switch::R7C1)
    } else if code == 0x72 {
        Some(Switch::R7C2)
    } else if code == 0x73 {
        Some(Switch::R7C3)
    } else if code == 0x74 {
        Some(Switch::R7C4)
    } else if code == 0x75 {
        Some(Switch::R7C5)
    } else if code == 0x81 {
        Some(Switch::R8C1)
    } else if code == 0x82 {
        Some(Switch::R8C2)
    } else if code == 0x83 {
        Some(Switch::R8C3)
    } else if code == 0x84 {
        Some(Switch::R8C4)
    } else if code == 0x85 {
        Some(Switch::R8C5)
    } else if code == 0xFF {
        Some(Switch::NONE)
    } else {
        None
    }
}

/// The switch with matrix code `code`, where one exists.
pub fn switch_from_code(code: u8) -> (r: Option<Switch>)
    ensures
        r == spec_switch_from_code(code),
{
    match code {
        0x01 => Some(Switch::R0C1),
        0x02 => Some(Switch::R0C2),
        0x03 => Some(Switch::R0C3),
        0x04 => Some(Switch::R0C4),
        0x05 => Some(Switch::R0C5),
        0x06 => Some(Switch::R0C6),
        0x11 => Some(Switch::R1C1),
        0x13 => Some(Switch::R1C3),
        0x21 => Some(Switch::R2C1),
        0x22 => Some(Switch::R2C2),
        0x23 => Some(Switch::R2C3),
        0x24 => Some(Switch::R2C4),
        0x25 => Some(Switch::R2C5),
        0x26 => Some(Switch::R2C6),
        0x31 => Some(Switch::R3C1),
        0x32 => Some(Switch::R3C2),
        0x33 => Some(Switch::R3C3),
        0x34 => Some(Switch::R3C4),
        0x35 => Some(Switch::R3C5),
        0x36 => Some(Switch::R3C6),
        0x41 => Some(Switch::R4C1),
        0x42 => Some(Switch::R4C2),
        0x43 => Some(Switch::R4C3),
        0x44 => Some(Switch::R4C4),
        0x45 => Some(Switch::R4C5),
        0x46 => Some(Switch::R4C6),
        0x51 => Some(Switch::R5C1),
        0x52 => Some(Switch::R5C2),
        0x53 => Some(Switch::R5C3),
        0x54 => Some(Switch::R5C4),
        0x55 => Some(Switch::R5C5),
        0x61 => Some(Switch::R6C1),
        0x62 => Some(Switch::R6C2),
        0x63 => Some(Switch::R6C3),
        0x64 => Some(Switch::R6C4),
        0x65 => Some(Switch::R6C5),
        0x71 => Some(Switch::R7C1),
        0x72 => Some(Switch::R7C2),
        0x73 => Some(Switch::R7C3),
        0x74 => Some(Switch::R7C4),
        0x75 => Some(Switch::R7C5),
        0x81 => Some(Switch::R8C1),
        0x82 => Some(Switch::R8C2),
        0x83 => Some(Switch::R8C3),
        0x84 => Some(Switch::R8C4),
        0x85 => Some(Switch::R8C5),
        0xFF => Some(Switch::NONE),
        _ => None,
    }
}

/// The switch that a scan of one matrix row reports at column mask `col`:
/// the matrix code is the row's base code plus the column number, and a
/// switch is reported only where the row state has the column's bit set.
pub open spec fn spec_col_to_key(start: u8, row: u8, col: u8) -> Option<Switch> {
    let key: u8 = if col == 1 {
        1
    } else if col == 2 {
        2
    } else if col == 4 {
        3
    } else if col == 8 {
        4
    } else if col == 16 {
        5
    } else if col == 32 {
        6
    } else {
        0
    };
    if key == 0 {
        None
    } else if row & col == col {
        spec_switch_from_code((start + key) as u8)
    } else {
        None
    }
}

/// Decode one scanned matrix position: `start` is the row's base code, `row`
/// the row's scanned state, and `col` the single-bit column mask.
pub fn col_to_key(start: u8, row: u8, col: u8) -> (r: Option<Switch>)
    requires
        start <= 0xF0,
    ensures
        r == spec_col_to_key(start, row, col),
{
    let key: u8 = match col {
        1 => 1,
        2 => 2,
        4 => 3,
        8 => 4,
        16 => 5,
        32 => 6,
        _ => {
            return None;
        },
    };
    if row & col == col {
        switch_from_code(start + key)
    } else {
        None
    }
}

/// The key a switch produces in the plain layout.
pub open spec fn spec_to_key(s: Switch) -> Key {
    match s {
        Switch::R0C1 => Key::Left,
        Switch::R0C2 => Key::Up,
        Switch::R0C3 => Key::Down,
        Switch::R0C4 => Key::Right,
        Switch::R0C5 => Key::Okay,
        Switch::R0C6 => Key::Back,
        Switch::R1C1 => Key::Home,
        Switch::R1C3 => Key::Power,
        Switch::R2C1 => Key::Shift,
        Switch::R2C2 => Key::Alpha,
        Switch::R2C3 => Key::XNT,
        Switch::R2C4 => Key::Var,
        Switch::R2C5 => Key::Toolbox,
        Switch::R2C6 => Key::Delete,
        Switch::R3C1 => Key::Euler,
        Switch::R3C2 => Key::Ln,
        Switch::R3C3 => Key::Log,
        Switch::R3C4 => Key::Imaginary,
        Switch::R3C5 => Key::Comma,
        Switch::R3C6 => Key::Pow,
        Switch::R4C1 => Key::Sin,
        Switch::R4C2 => Key::Cos,
        Switch::R4C3 => Key::Tan,
        Switch::R4C4 => Key::Pi,
        Switch::R4C5 => Key::Sqrt,
        Switch::R4C6 => Key::Square,
        Switch::R5C1 => Key::Seven,
        Switch::R5C2 => Key::Eight,
        Switch::R5C3 => Key::Nine,
        Switch::R5C4 => Key::LBracket,
        Switch::R5C5 => Key::RBracket,
        Switch::R6C1 => Key::Four,
        Switch::R6C2 => Key::Five,
        Switch::R6C3 => Key::Six,
        Switch::R6C4 => Key::Multiply,
        Switch::R6C5 => Key::Divide,
        Switch::R7C1 => Key::One,
        Switch::R7C2 => Key::Two,
        Switch::R7C3 => Key::Three,
        Switch::R7C4 => Key::Add,
        Switch::R7C5 => Key::Subtract,
        Switch::R8C1 => Key::Zero,
        Switch::R8C2 => Key::Dot,
        Switch::R8C3 => Key::EE,
        Switch::R8C4 => Key::Ans,
        Switch::R8C5 => Key::EXE,
        Switch::NONE => Key::NONE,
    }
}

/// The key a switch produces while shift is held: the shifted assignments
/// where one exists, the plain layout everywhere else.
pub open spec fn spec_to_key_shift(s: Switch) -> Key {
    match s {
        Switch::R2C2 => Key::AlphaLock,
        Switch::R2C3 => Key::Cut,
        Switch::R2C4 => Key::Copy,
        Switch::R2C5 => Key::Paste,
        Switch::R2C6 => Key::Clear,
        Switch::R3C1 => Key::RSqBracket,
        Switch::R3C2 => Key::LSqBracket,
        Switch::R3C3 => Key::RCurlyBrace,
        Switch::R3C4 => Key::LCurlyBrace,
        Switch::R3C5 => Key::Underscore,
        Switch::R3C6 => Key::Sto,
        Switch::R4C1 => Key::ASin,
        Switch::R4C2 => Key::ACos,
        Switch::R4C3 => Key::ATan,
        Switch::R4C4 => Key::Equals,
        Switch::R4C5 => Key::Less,
        Switch::R4C6 => Key::Greater,
        _ => spec_to_key(s),
    }
}

/// The key a switch produces while alpha is active: the alpha assignments
/// where one exists, and the shifted or plain layout everywhere else,
/// depending on whether shift is also held.
pub open spec fn spec_to_key_alpha(s: Switch, shift: bool) -> Key {
    match s {
        Switch::R2C3 => Key::Colon,
        Switch::R2C4 => Key::SemiColon,
        Switch::R2C5 => Key::Quote,
        Switch::R2C6 => Key::Percent,
        Switch::R3C1 => Key::A,
        Switch::R3C2 => Key::B,
        Switch::R3C3 => Key::C,
        Switch::R3C4 => Key::D,
        Switch::R3C5 => Key::E,
        Switch::R3C6 => Key::F,
        Switch::R4C1 => Key::G,
        Switch::R4C2 => Key::H,
        Switch::R4C3 => Key::I,
        Switch::R4C4 => Key::J,
        Switch::R4C5 => Key::K,
        Switch::R4C6 => Key::L,
        Switch::R5C1 => Key::M,
        Switch::R5C2 => Key::N,
        Switch::R5C3 => Key::O,
        Switch::R5C4 => Key::P,
        Switch::R5C5 => Key::Q,
        Switch::R6C1 => Key::R,
        Switch::R6C2 => Key::S,
        Switch::R6C3 => Key::T,
        Switch::R6C4 => Key::U,
        Switch::R6C5 => Key::V,
        Switch::R7C1 => Key::W,
        Switch::R7C2 => Key::X,
        Switch::R7C3 => Key::Y,
        Switch::R7C4 => Key::Z,
        Switch::R7C5 => Key::Space,
        Switch::R8C1 => Key::Question,
        Switch::R8C2 => Key::Exclamation,
        _ => if shift {
            spec_to_key_shift(s)
        } else {
            spec_to_key(s)
        },
    }
}

impl Switch {
    /// The key this switch produces in the plain layout.
    pub fn to_key(&self) -> (r: Key)
        ensures
            r == spec_to_key(*self),
    {
        match self {
            Switch::R0C1 => Key::Left,
            Switch::R0C2 => Key::Up,
            Switch::R0C3 => Key::Down,
            Switch::R0C4 => Key::Right,
            Switch::R0C5 => Key::Okay,
            Switch::R0C6 => Key::Back,
            Switch::R1C1 => Key::Home,
            Switch::R1C3 => Key::Power,
            Switch::R2C1 => Key::Shift,
            Switch::R2C2 => Key::Alpha,
            Switch::R2C3 => Key::XNT,
            Switch::R2C4 => Key::Var,
            Switch::R2C5 => Key::Toolbox,
            Switch::R2C6 => Key::Delete,
            Switch::R3C1 => Key::Euler,
            Switch::R3C2 => Key::Ln,
            Switch::R3C3 => Key::Log,
            Switch::R3C4 => Key::Imaginary,
            Switch::R3C5 => Key::Comma,
            Switch::R3C6 => Key::Pow,
            Switch::R4C1 => Key::Sin,
            Switch::R4C2 => Key::Cos,
            Switch::R4C3 => Key::Tan,
            Switch::R4C4 => Key::Pi,
            Switch::R4C5 => Key::Sqrt,
            Switch::R4C6 => Key::Square,
            Switch::R5C1 => Key::Seven,
            Switch::R5C2 => Key::Eight,
            Switch::R5C3 => Key::Nine,
            Switch::R5C4 => Key::LBracket,
            Switch::R5C5 => Key::RBracket,
            Switch::R6C1 => Key::Four,
            Switch::R6C2 => Key::Five,
            Switch::R6C3 => Key::Six,
            Switch::R6C4 => Key::Multiply,
            Switch::R6C5 => Key::Divide,
            Switch::R7C1 => Key::One,
            Switch::R7C2 => Key::Two,
            Switch::R7C3 => Key::Three,
            Switch::R7C4 => Key::Add,
            Switch::R7C5 => Key::Subtract,
            Switch::R8C1 => Key::Zero,
            Switch::R8C2 => Key::Dot,
            Switch::R8C3 => Key::EE,
            Switch::R8C4 => Key::Ans,
            Switch::R8C5 => Key::EXE,
            Switch::NONE => Key::NONE,
        }
    }

    /// The key this switch produces while shift is held.
    pub fn to_key_shift(&self) -> (r: Key)
        ensures
            r == spec_to_key_shift(*self),
    {
        match self {
            Switch::R2C2 => Key::AlphaLock,
            Switch::R2C3 => Key::Cut,
            Switch::R2C4 => Key::Copy,
            Switch::R2C5 => Key::Paste,
            Switch::R2C6 => Key::Clear,
            Switch::R3C1 => Key::RSqBracket,
            Switch::R3C2 => Key::LSqBracket,
            Switch::R3C3 => Key::RCurlyBrace,
            Switch::R3C4 => Key::LCurlyBrace,
            Switch::R3C5 => Key::Underscore,
            Switch::R3C6 => Key::Sto,
            Switch::R4C1 => Key::ASin,
            Switch::R4C2 => Key::ACos,
            Switch::R4C3 => Key::ATan,
            Switch::R4C4 => Key::Equals,
            Switch::R4C5 => Key::Less,
            Switch::R4C6 => Key::Greater,
            _ => self.to_key(),
        }
    }

    /// The key this switch produces while alpha is active; `shift` selects
    /// the fallback layout for switches without an alpha assignment.
    pub fn to_key_alpha(&self, shift: bool) -> (r: Key)
        ensures
            r == spec_to_key_alpha(*self, shift),
    {
        match self {
            Switch::R2C3 => Key::Colon,
            Switch::R2C4 => Key::SemiColon,
            Switch::R2C5 => Key::Quote,
            Switch::R2C6 => Key::Percent,
            Switch::R3C1 => Key::A,
            Switch::R3C2 => Key::B,
            Switch::R3C3 => Key::C,
            Switch::R3C4 => Key::D,
            Switch::R3C5 => Key::E,
            Switch::R3C6 => Key::F,
            Switch::R4C1 => Key::G,
            Switch::R4C2 => Key::H,
            Switch::R4C3 => Key::I,
            Switch::R4C4 => Key::J,
            Switch::R4C5 => Key::K,
            Switch::R4C6 => Key::L,
            Switch::R5C1 => Key::M,
            Switch::R5C2 => Key::N,
            Switch::R5C3 => Key::O,
            Switch::R5C4 => Key::P,
            Switch::R5C5 => Key::Q,
            Switch::R6C1 => Key::R,
            Switch::R6C2 => Key::S,
            Switch::R6C3 => Key::T,
            Switch::R6C4 => Key::U,
            Switch::R6C5 => Key::V,
            Switch::R7C1 => Key::W,
            Switch::R7C2 => Key::X,
            Switch::R7C3 => Key::Y,
            Switch::R7C4 => Key::Z,
            Switch::R7C5 => Key::Space,
            Switch::R8C1 => Key::Question,
            Switch::R8C2 => Key::Exclamation,
            _ => {
                if shift {
                    self.to_key_shift()
                } else {
                    self.to_key()
                }
            },
        }
    }
}

} // verus!
