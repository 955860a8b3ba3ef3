//! 8×8 keyboard matrix.

use vstd::prelude::*;

verus! {

/// A C64 key position identified by (column, row).
#[derive(Copy, Clone, Debug, PartialEq, Eq, Structural)]
pub enum C64Key {
    /// The INS/DEL key (column 0, row 0).
    Delete,
    /// The RETURN key (column 1, row 0).
    Return,
    /// The cursor right key (column 2, row 0).
    CursorRight,
    /// The F7 key (column 3, row 0).
    F7,
    /// The F1 key (column 4, row 0).
    F1,
    /// The F3 key (column 5, row 0).
    F3,
    /// The F5 key (column 6, row 0).
    F5,
    /// The cursor down key (column 7, row 0).
    CursorDown,
    /// The 3 key (column 0, row 1).
    Num3,
    /// The W key (column 1, row 1).
    W,
    /// The A key (column 2, row 1).
    A,
    /// The 4 key (column 3, row 1).
    Num4,
    /// The Z key (column 4, row 1).
    Z,
    /// The S key (column 5, row 1).
    S,
    /// The E key (column 6, row 1).
    E,
    /// The left SHIFT key (column 7, row 1).
    LShift,
    /// The 5 key (column 0, row 2).
    Num5,
    /// The R key (column 1, row 2).
    R,
    /// The D key (column 2, row 2).
    D,
    /// The 6 key (column 3, row 2).
    Num6,
    /// The C key (column 4, row 2).
    C,
    /// The F key (column 5, row 2).
    F,
    /// The T key (column 6, row 2).
    T,
    /// The X key (column 7, row 2).
    X,
    /// The 7 key (column 0, row 3).
    Num7,
    /// The Y key (column 1, row 3).
    Y,
    /// The G key (column 2, row 3).
    G,
    /// The 8 key (column 3, row 3).
    Num8,
    /// The B key (column 4, row 3).
    B,
    /// The H key (column 5, row 3).
    H,
    /// The U key (column 6, row 3).
    U,
    /// The V key (column 7, row 3).
    V,
    /// The 9 key (column 0, row 4).
    Num9,
    /// The I key (column 1, row 4).
    I,
    /// The J key (column 2, row 4).
    J,
    /// The 0 key (column 3, row 4).
    Num0,
    /// The M key (column 4, row 4).
    M,
    /// The K key (column 5, row 4).
    K,
    /// The O key (column 6, row 4).
    O,
    /// The N key (column 7, row 4).
    N,
    /// The + key (column 0, row 5).
    Plus,
    /// The P key (column 1, row 5).
    P,
    /// The L key (column 2, row 5).
    L,
    /// The - key (column 3, row 5).
    Minus,
    /// The . key (column 4, row 5).
    Period,
    /// The : key (column 5, row 5).
    Colon,
    /// The @ key (column 6, row 5).
    At,
    /// The , key (column 7, row 5).
    Comma,
    /// The pound sign key (column 0, row 6).
    Pound,
    /// The * key (column 1, row 6).
    Asterisk,
    /// The ; key (column 2, row 6).
    Semicolon,
    /// The CLR/HOME key (column 3, row 6).
    Home,
    /// The right SHIFT key (column 4, row 6).
    RShift,
    /// The = key (column 5, row 6).
    Equals,
    /// The up arrow key (column 6, row 6).
    ArrowUp,
    /// The / key (column 7, row 6).
    Slash,
    /// The 1 key (column 0, row 7).
    Num1,
    /// The left arrow key (column 1, row 7).
    ArrowLeft,
    /// The CTRL key (column 2, row 7).
    Control,
    /// The 2 key (column 3, row 7).
    Num2,
    /// The SPACE key (column 4, row 7).
    Space,
    /// The Commodore (C=) key (column 5, row 7).
    Commodore,
    /// The Q key (column 6, row 7).
    Q,
    /// The RUN/STOP key (column 7, row 7).
    RunStop,
}

/// Modifier-only keys that don't live in the matrix proper.
#[derive(Copy, Clone, Debug, PartialEq, Eq, Structural)]
pub enum Modifier {
    /// Triggers an NMI (RESTORE).
    Restore,
}

/// The (column, row) of each key in the 8×8 matrix.
pub open spec fn key_position(k: C64Key) -> (u8, u8) {
    match k {
        C64Key::Delete => (0u8, 0u8),
        C64Key::Return => (1u8, 0u8),
        C64Key::CursorRight => (2u8, 0u8),
        C64Key::F7 => (3u8, 0u8),
        C64Key::F1 => (4u8, 0u8),
        C64Key::F3 => (5u8, 0u8),
        C64Key::F5 => (6u8, 0u8),
        C64Key::CursorDown => (7u8, 0u8),
        C64Key::Num3 => (0u8, 1u8),
        C64Key::W => (1u8, 1u8),
        C64Key::A => (2u8, 1u8),
        C64Key::Num4 => (3u8, 1u8),
        C64Key::Z => (4u8, 1u8),
        C64Key::S => (5u8, 1u8),
        C64Key::E => (6u8, 1u8),
        C64Key::LShift => (7u8, 1u8),
        C64Key::Num5 => (0u8, 2u8),
        C64Key::R => (1u8, 2u8),
        C64Key::D => (2u8, 2u8),
        C64Key::Num6 => (3u8, 2u8),
        C64Key::C => (4u8, 2u8),
        C64Key::F => (5u8, 2u8),
        C64Key::T => (6u8, 2u8),
        C64Key::X => (7u8, 2u8),
        C64Key::Num7 => (0u8, 3u8),
        C64Key::Y => (1u8, 3u8),
        C64Key::G => (2u8, 3u8),
        C64Key::Num8 => (3u8, 3u8),
        C64Key::B => (4u8, 3u8),
        C64Key::H => (5u8, 3u8),
        C64Key::U => (6u8, 3u8),
        C64Key::V => (7u8, 3u8),
        C64Key::Num9 => (0u8, 4u8),
        C64Key::I => (1u8, 4u8),
        C64Key::J => (2u8, 4u8),
        C64Key::Num0 => (3u8, 4u8),
        C64Key::M => (4u8, 4u8),
        C64Key::K => (5u8, 4u8),
        C64Key::O => (6u8, 4u8),
        C64Key::N => (7u8, 4u8),
        C64Key::Plus => (0u8, 5u8),
        C64Key::P => (1u8, 5u8),
        C64Key::L => (2u8, 5u8),
        C64Key::Minus => (3u8, 5u8),
        C64Key::Period => (4u8, 5u8),
        C64Key::Colon => (5u8, 5u8),
        C64Key::At => (6u8, 5u8),
        C64Key::Comma => (7u8, 5u8),
        C64Key::Pound => (0u8, 6u8),
        C64Key::Asterisk => (1u8, 6u8),
        C64Key::Semicolon => (2u8, 6u8),
        C64Key::Home => (3u8, 6u8),
        C64Key::RShift => (4u8, 6u8),
        C64Key::Equals => (5u8, 6u8),
        C64Key::ArrowUp => (6u8, 6u8),
        C64Key::Slash => (7u8, 6u8),
        C64Key::Num1 => (0u8, 7u8),
        C64Key::ArrowLeft => (1u8, 7u8),
        C64Key::Control => (2u8, 7u8),
        C64Key::Num2 => (3u8, 7u8),
        C64Key::Space => (4u8, 7u8),
        C64Key::Commodore => (5u8, 7u8),
        C64Key::Q => (6u8, 7u8),
        C64Key::RunStop => (7u8, 7u8),
    }
}

/// The key at (column, row), for a position inside the matrix.
pub open spec fn key_at(col: u8, row: u8) -> C64Key {
    match (col, row) {
        (0u8, 0u8) => C64Key::Delete,
        (1u8, 0u8) => C64Key::Return,
        (2u8, 0u8) => C64Key::CursorRight,
        (3u8, 0u8) => C64Key::F7,
        (4u8, 0u8) => C64Key::F1,
        (5u8, 0u8) => C64Key::F3,
        (6u8, 0u8) => C64Key::F5,
        (7u8, 0u8) => C64Key::CursorDown,
        (0u8, 1u8) => C64Key::Num3,
        (1u8, 1u8) => C64Key::W,
        (2u8, 1u8) => C64Key::A,
        (3u8, 1u8) => C64Key::Num4,
        (4u8, 1u8) => C64Key::Z,
        (5u8, 1u8) => C64Key::S,
        (6u8, 1u8) => C64Key::E,
        (7u8, 1u8) => C64Key::LShift,
        (0u8, 2u8) => C64Key::Num5,
        (1u8, 2u8) => C64Key::R,
        (2u8, 2u8) => C64Key::D,
        (3u8, 2u8) => C64Key::Num6,
        (4u8, 2u8) => C64Key::C,
        (5u8, 2u8) => C64Key::F,
        (6u8, 2u8) => C64Key::T,
        (7u8, 2u8) => C64Key::X,
        (0u8, 3u8) => C64Key::Num7,
        (1u8, 3u8) => C64Key::Y,
        (2u8, 3u8) => C64Key::G,
        (3u8, 3u8) => C64Key::Num8,
        (4u8, 3u8) => C64Key::B,
        (5u8, 3u8) => C64Key::H,
        (6u8, 3u8) => C64Key::U,
        (7u8, 3u8) => C64Key::V,
        (0u8, 4u8) => C64Key::Num9,
        (1u8, 4u8) => C64Key::I,
        (2u8, 4u8) => C64Key::J,
        (3u8, 4u8) => C64Key::Num0,
        (4u8, 4u8) => C64Key::M,
        (5u8, 4u8) => C64Key::K,
        (6u8, 4u8) => C64Key::O,
        (7u8, 4u8) => C64Key::N,
        (0u8, 5u8) => C64Key::Plus,
        (1u8, 5u8) => C64Key::P,
        (2u8, 5u8) => C64Key::L,
        (3u8, 5u8) => C64Key::Minus,
        (4u8, 5u8) => C64Key::Period,
        (5u8, 5u8) => C64Key::Colon,
        (6u8, 5u8) => C64Key::At,
        (7u8, 5u8) => C64Key::Comma,
        (0u8, 6u8) => C64Key::Pound,
        (1u8, 6u8) => C64Key::Asterisk,
        (2u8, 6u8) => C64Key::Semicolon,
        (3u8, 6u8) => C64Key::Home,
        (4u8, 6u8) => C64Key::RShift,
        (5u8, 6u8) => C64Key::Equals,
        (6u8, 6u8) => C64Key::ArrowUp,
        (7u8, 6u8) => C64Key::Slash,
        (0u8, 7u8) => C64Key::Num1,
        (1u8, 7u8) => C64Key::ArrowLeft,
        (2u8, 7u8) => C64Key::Control,
        (3u8, 7u8) => C64Key::Num2,
        (4u8, 7u8) => C64Key::Space,
        (5u8, 7u8) => C64Key::Commodore,
        (6u8, 7u8) => C64Key::Q,
        _ => C64Key::RunStop,
    }
}

/// (column, row) for each [`C64Key`] in the 8×8 matrix.
pub fn matrix_pos(k: C64Key) -> (r: (u8, u8))
    ensures
        r == key_position(k),
        r.0 < 8 && r.1 < 8,
{
    match k {
        C64Key::Delete => (0u8, 0u8),
        C64Key::Return => (1u8, 0u8),
        C64Key::CursorRight => (2u8, 0u8),
        C64Key::F7 => (3u8, 0u8),
        C64Key::F1 => (4u8, 0u8),
        C64Key::F3 => (5u8, 0u8),
        C64Key::F5 => (6u8, 0u8),
        C64Key::CursorDown => (7u8, 0u8),
        C64Key::Num3 => (0u8, 1u8),
        C64Key::W => (1u8, 1u8),
        C64Key::A => (2u8, 1u8),
        C64Key::Num4 => (3u8, 1u8),
        C64Key::Z => (4u8, 1u8),
        C64Key::S => (5u8, 1u8),
        C64Key::E => (6u8, 1u8),
        C64Key::LShift => (7u8, 1u8),
        C64Key::Num5 => (0u8, 2u8),
        C64Key::R => (1u8, 2u8),
        C64Key::D => (2u8, 2u8),
        C64Key::Num6 => (3u8, 2u8),
        C64Key::C => (4u8, 2u8),
        C64Key::F => (5u8, 2u8),
        C64Key::T => (6u8, 2u8),
        C64Key::X => (7u8, 2u8),
        C64Key::Num7 => (0u8, 3u8),
        C64Key::Y => (1u8, 3u8),
        C64Key::G => (2u8, 3u8),
        C64Key::Num8 => (3u8, 3u8),
        C64Key::B => (4u8, 3u8),
        C64Key::H => (5u8, 3u8),
        C64Key::U => (6u8, 3u8),
        C64Key::V => (7u8, 3u8),
        C64Key::Num9 => (0u8, 4u8),
        C64Key::I => (1u8, 4u8),
        C64Key::J => (2u8, 4u8),
        C64Key::Num0 => (3u8, 4u8),
        C64Key::M => (4u8, 4u8),
        C64Key::K => (5u8, 4u8),
        C64Key::O => (6u8, 4u8),
        C64Key::N => (7u8, 4u8),
        C64Key::Plus => (0u8, 5u8),
        C64Key::P => (1u8, 5u8),
        C64Key::L => (2u8, 5u8),
        C64Key::Minus => (3u8, 5u8),
        C64Key::Period => (4u8, 5u8),
        C64Key::Colon => (5u8, 5u8),
        C64Key::At => (6u8, 5u8),
        C64Key::Comma => (7u8, 5u8),
        C64Key::Pound => (0u8, 6u8),
        C64Key::Asterisk => (1u8, 6u8),
        C64Key::Semicolon => (2u8, 6u8),
        C64Key::Home => (3u8, 6u8),
        C64Key::RShift => (4u8, 6u8),
        C64Key::Equals => (5u8, 6u8),
        C64Key::ArrowUp => (6u8, 6u8),
        C64Key::Slash => (7u8, 6u8),
        C64Key::Num1 => (0u8, 7u8),
        C64Key::ArrowLeft => (1u8, 7u8),
        C64Key::Control => (2u8, 7u8),
        C64Key::Num2 => (3u8, 7u8),
        C64Key::Space => (4u8, 7u8),
        C64Key::Commodore => (5u8, 7u8),
        C64Key::Q => (6u8, 7u8),
        C64Key::RunStop => (7u8, 7u8),
    }
}

/// Every key has a position of its own: the position determines the key.
pub proof fn law_matrix_positions_distinct(k: C64Key)
    ensures
        key_position(k).0 < 8 && key_position(k).1 < 8,
        key_at(key_position(k).0, key_position(k).1) == k,
{
}

/// The ASCII code of the letter or digit printed on a key (`None` for the
/// other keys).
pub open spec fn key_label(k: C64Key) -> Option<u8> {
    match k {
        C64Key::A => Some(0x41u8),
        C64Key::B => Some(0x42u8),
        C64Key::C => Some(0x43u8),
        C64Key::D => Some(0x44u8),
        C64Key::E => Some(0x45u8),
        C64Key::F => Some(0x46u8),
        C64Key::G => Some(0x47u8),
        C64Key::H => Some(0x48u8),
        C64Key::I => Some(0x49u8),
        C64Key::J => Some(0x4Au8),
        C64Key::K => Some(0x4Bu8),
        C64Key::L => Some(0x4Cu8),
        C64Key::M => Some(0x4Du8),
        C64Key::N => Some(0x4Eu8),
        C64Key::O => Some(0x4Fu8),
        C64Key::P => Some(0x50u8),
        C64Key::Q => Some(0x51u8),
        C64Key::R => Some(0x52u8),
        C64Key::S => Some(0x53u8),
        C64Key::T => Some(0x54u8),
        C64Key::U => Some(0x55u8),
        C64Key::V => Some(0x56u8),
        C64Key::W => Some(0x57u8),
        C64Key::X => Some(0x58u8),
        C64Key::Y => Some(0x59u8),
        C64Key::Z => Some(0x5Au8),
        C64Key::Num0 => Some(0x30u8),
        C64Key::Num1 => Some(0x31u8),
        C64Key::Num2 => Some(0x32u8),
        C64Key::Num3 => Some(0x33u8),
        C64Key::Num4 => Some(0x34u8),
        C64Key::Num5 => Some(0x35u8),
        C64Key::Num6 => Some(0x36u8),
        C64Key::Num7 => Some(0x37u8),
        C64Key::Num8 => Some(0x38u8),
        C64Key::Num9 => Some(0x39u8),
        _ => None,
    }
}

/// The place of a key in the declaration of [`C64Key`], 0 (`Delete`) to 63
/// (`RunStop`): the keys are declared row by row, column by column.
pub open spec fn key_index(k: C64Key) -> u8 {
    match k {
        C64Key::Delete => 0u8,
        C64Key::Return => 1u8,
        C64Key::CursorRight => 2u8,
        C64Key::F7 => 3u8,
        C64Key::F1 => 4u8,
        C64Key::F3 => 5u8,
        C64Key::F5 => 6u8,
        C64Key::CursorDown => 7u8,
        C64Key::Num3 => 8u8,
        C64Key::W => 9u8,
        C64Key::A => 10u8,
        C64Key::Num4 => 11u8,
        C64Key::Z => 12u8,
        C64Key::S => 13u8,
        C64Key::E => 14u8,
        C64Key::LShift => 15u8,
        C64Key::Num5 => 16u8,
        C64Key::R => 17u8,
        C64Key::D => 18u8,
        C64Key::Num6 => 19u8,
        C64Key::C => 20u8,
        C64Key::F => 21u8,
        C64Key::T => 22u8,
        C64Key::X => 23u8,
        C64Key::Num7 => 24u8,
        C64Key::Y => 25u8,
        C64Key::G => 26u8,
        C64Key::Num8 => 27u8,
        C64Key::B => 28u8,
        C64Key::H => 29u8,
        C64Key::U => 30u8,
        C64Key::V => 31u8,
        C64Key::Num9 => 32u8,
        C64Key::I => 33u8,
        C64Key::J => 34u8,
        C64Key::Num0 => 35u8,
        C64Key::M => 36u8,
        C64Key::K => 37u8,
        C64Key::O => 38u8,
        C64Key::N => 39u8,
        C64Key::Plus => 40u8,
        C64Key::P => 41u8,
        C64Key::L => 42u8,
        C64Key::Minus => 43u8,
        C64Key::Period => 44u8,
        C64Key::Colon => 45u8,
        C64Key::At => 46u8,
        C64Key::Comma => 47u8,
        C64Key::Pound => 48u8,
        C64Key::Asterisk => 49u8,
        C64Key::Semicolon => 50u8,
        C64Key::Home => 51u8,
        C64Key::RShift => 52u8,
        C64Key::Equals => 53u8,
        C64Key::ArrowUp => 54u8,
        C64Key::Slash => 55u8,
        C64Key::Num1 => 56u8,
        C64Key::ArrowLeft => 57u8,
        C64Key::Control => 58u8,
        C64Key::Num2 => 59u8,
        C64Key::Space => 60u8,
        C64Key::Commodore => 61u8,
        C64Key::Q => 62u8,
        C64Key::RunStop => 63u8,
    }
}

/// A key's matrix position is its declaration index split into column (the
/// index mod 8) and row (the index div 8); distinct keys have distinct
/// indices, so the keys fill the 8x8 grid one to one.
pub proof fn law_position_is_declaration_index(k: C64Key, other: C64Key)
    ensures
        key_index(k) < 64,
        key_position(k) == (key_index(k) % 8, key_index(k) / 8),
        k != other ==> key_index(k) != key_index(other),
{
    law_matrix_positions_distinct(k);
    law_matrix_positions_distinct(other);
}

/// The Port B bits for matrix rows `0..n`: bit r is cleared when row r has a
/// pressed key in a selected column (`cols_active` holds the selected
/// columns as set bits); the other bits are set.
pub open spec fn port_b_rows(rows: Seq<u8>, cols_active: u8, n: nat) -> u8
    decreases n,
{
    if n == 0 {
        0xFF
    } else {
        let r = (n - 1) as nat;
        let prev = port_b_rows(rows, cols_active, r);
        if rows[r as int] & cols_active != 0 {
            prev & !((1u8 << r) as u8)
        } else {
            prev
        }
    }
}

/// 8×8 keyboard matrix (active-low: pressed key zeroes the intersection).
pub struct KeyboardMatrix {
    /// One byte per row; bit N set = column N pressed.
    pub columns_by_row: [u8; 8],
}

impl View for KeyboardMatrix {
    type V = Seq<u8>;

    /// The eight rows, each a byte of pressed columns.
    open spec fn view(&self) -> Seq<u8> {
        self.columns_by_row@
    }
}

/// Whether key `k` is held down in the rows `rows`.
pub open spec fn key_down_in(rows: Seq<u8>, k: C64Key) -> bool {
    let (c, r) = key_position(k);
    rows[r as int] & ((1u8 << c) as u8) != 0
}

impl KeyboardMatrix {
    /// New empty matrix.
    pub fn new() -> (r: Self)
        ensures
            r@ == Seq::new(8, |i: int| 0u8),
    {
        let r = KeyboardMatrix { columns_by_row: [0u8, 0u8, 0u8, 0u8, 0u8, 0u8, 0u8, 0u8] };
        assert(r@ =~= Seq::new(8, |i: int| 0u8));
        r
    }

    /// Press a key.
    pub fn press(&mut self, k: C64Key)
        ensures
            ({
                let (c, r) = key_position(k);
                final(self)@ == old(self)@.update(r as int, old(self)@[r as int] | ((1u8 << c) as u8))
            }),
    {
        let (c, r) = matrix_pos(k);
        let v = self.columns_by_row[r as usize] | (1u8 << c);
        self.columns_by_row[r as usize] = v;
    }

    /// Release a key.
    pub fn release(&mut self, k: C64Key)
        ensures
            ({
                let (c, r) = key_position(k);
                final(self)@ == old(self)@.update(r as int, old(self)@[r as int] & !((1u8 << c) as u8))
            }),
    {
        let (c, r) = matrix_pos(k);
        let v = self.columns_by_row[r as usize] & !(1u8 << c);
        self.columns_by_row[r as usize] = v;
    }

    /// Read Port B given the column-select mask on Port A (active-low).
    /// Returns 0xFF with bits cleared for rows containing a pressed key
    /// in a selected column.
    pub fn read_pb(&self, col_select: u8) -> (r: u8)
        ensures
            r == port_b_rows(self@, !col_select, 8),
    {
        let cols_active = !col_select;
        let mut out: u8 = 0xFF;
        let mut r: usize = 0;
        while r < 8
            invariant
                r <= 8,
                self@.len() == 8,
                out == port_b_rows(self@, cols_active, r as nat),
            decreases 8 - r,
        {
            let cols = self.columns_by_row[r];
            if cols & cols_active != 0 {
                out &= !(1u8 << r);
            }
            r += 1;
        }
        out
    }
}

impl Default for KeyboardMatrix {
    fn default() -> (r: Self)
        ensures
            r@ == Seq::new(8, |i: int| 0u8),
    {
        KeyboardMatrix::new()
    }
}

/// A pressed key is down until it is released; pressing touches no other
/// key, and releasing right after pressing gives back the matrix as it was
/// with that key up.
pub proof fn law_press_then_release(rows: Seq<u8>, k: C64Key, other: C64Key)
    requires
        rows.len() == 8,
        other != k,
    ensures
        ({
            let (c, r) = key_position(k);
            let pressed = rows.update(r as int, rows[r as int] | ((1u8 << c) as u8));
            let (c2, r2) = key_position(k);
            let released = pressed.update(r2 as int, pressed[r2 as int] & !((1u8 << c2) as u8));
            &&& key_down_in(pressed, k)
            &&& key_down_in(pressed, other) == key_down_in(rows, other)
            &&& !key_down_in(released, k)
            &&& released == rows.update(r as int, rows[r as int] & !((1u8 << c) as u8))
        }),
{
    let (c, r) = key_position(k);
    let (c2, r2) = key_position(other);
    law_matrix_positions_distinct(k);
    law_matrix_positions_distinct(other);
    let row = rows[r as int];
    assert((row | ((1u8 << c) as u8)) & ((1u8 << c) as u8) != 0) by (bit_vector)
        requires c < 8;
    assert(((row | ((1u8 << c) as u8)) & !((1u8 << c) as u8)) & ((1u8 << c) as u8) == 0) by (bit_vector)
        requires c < 8;
    assert(((row | ((1u8 << c) as u8)) & !((1u8 << c) as u8)) == row & !((1u8 << c) as u8)) by (bit_vector);
    if r2 == r {
        assert(c2 != c);
        assert((row | ((1u8 << c) as u8)) & ((1u8 << c2) as u8) == row & ((1u8 << c2) as u8)) by (bit_vector)
            requires c < 8, c2 < 8, c != c2;
    }
}

} // verus!
