use vstd::prelude::*;

verus! {

/// Opcode group selected by the two low bits of an opcode byte.
#[derive(Debug, Clone, Copy, PartialEq, Eq, Structural)]
pub enum Category {
    Control,
    Alu,
    Rmw,
    Unofficial,
}

/// Place of an opcode byte in the processor's opcode matrix.
#[derive(Debug, Clone, Copy, PartialEq, Eq, Structural)]
pub struct Position {
    pub column: u8,
    pub row: u8,
    pub category: Category,
}

#[derive(Debug, Clone, Copy, PartialEq, Eq, Structural)]
pub enum AddressingMode {
    Implicit,
    Accumulator,
    Immediate,
    ZeroPage,
    ZeroPageX,
    ZeroPageY,
    Relative,
    Absolute,
    AbsoluteX,
    AbsoluteY,
    Indirect,
    IndexedIndirect,
    IndirectIndexed,
}

/// The operations the engine can execute.
#[derive(Debug, Clone, Copy, PartialEq, Eq, Structural)]
pub enum OpCode {
    Lsr,
    Jsr,
}

#[derive(Debug, Clone, Copy, PartialEq, Eq, Structural)]
pub struct Instruction {
    pub op_code: OpCode,
    pub addressing_mode: AddressingMode,
}

/// Why an opcode byte could not be classified.
#[derive(Debug, Clone, Copy, PartialEq, Eq, Structural)]
pub enum DecodeError {
    /// No addressing-mode rule matches the byte.
    IllegalOpcode { code: u8 },
    /// The byte lies in the unofficial category.
    UnsupportedIllegalOpcode { code: u8 },
    /// The canonical operation id has no entry in the operation table.
    UnknownOpcode { id: u8, code: u8 },
}

/// Canonical id of the no-operation instruction.
pub const NOP_ID: u8 = 0x80;

/// Canonical id of Jump-to-Subroutine.
pub const JSR_ID: u8 = 0x20;

/// Canonical id of Logical-Shift-Right.
pub const LSR_ID: u8 = 0x46;

/// First row of the two rows (bytes 0x80..0xC0) whose last columns index by Y.
pub const FIRST_Y_ROW: u8 = 4;

pub open spec fn category_of(code: u8) -> Category {
    if code % 4 == 0 {
        Category::Control
    } else if code % 4 == 1 {
        Category::Alu
    } else if code % 4 == 2 {
        Category::Rmw
    } else {
        Category::Unofficial
    }
}

pub open spec fn position_of(code: u8) -> Position {
    Position { column: code % 0x20, row: code / 0x20, category: category_of(code) }
}

/// `lo <= column < lo + n`
pub open spec fn col_in(column: u8, lo: int, n: int) -> bool {
    lo <= column && column < lo + n
}

/// Rows 4 and 5 (bytes 0x80..0xC0) take the Y-indexed reading where rows differ.
pub open spec fn is_y_row(row: u8) -> bool {
    row == 4 || row == 5
}

/// The addressing mode of an opcode byte, by the structural rules taken in
/// order; `None` when no rule matches.
pub open spec fn addressing_mode_of(code: u8) -> Option<AddressingMode> {
    let c = code % 0x20;
    let row = code / 0x20;
    if code == 0 || code == 0x40 || code == 0x60 {
        Some(AddressingMode::Implicit)
    } else if c == 0x08 || c == 0x0A || c == 0x18 || c == 0x1A {
        Some(AddressingMode::Implicit)
    } else if code == 0x20 || col_in(c, 0x0C, 4) {
        Some(AddressingMode::Absolute)
    } else if (col_in(c, 0x00, 4) && row >= 4) || (col_in(c, 0x01, 4) && row >= 4) || c == 0x09
        || c == 0x0B {
        Some(AddressingMode::Immediate)
    } else if c == 0x01 || c == 0x03 {
        Some(AddressingMode::ZeroPageX)
    } else if col_in(c, 0x04, 4) || c == 0x10 {
        Some(AddressingMode::ZeroPage)
    } else if c == 0x11 || c == 0x13 {
        Some(AddressingMode::IndirectIndexed)
    } else if col_in(c, 0x14, 4) || col_in(c, 0x1C, 2) || (col_in(c, 0x1E, 2) && !is_y_row(row)) {
        Some(AddressingMode::AbsoluteX)
    } else if c == 0x19 || c == 0x1B || (col_in(c, 0x1E, 2) && is_y_row(row)) {
        Some(AddressingMode::AbsoluteY)
    } else {
        None
    }
}

/// The canonical operation id of an opcode byte, or the unofficial-category failure.
pub open spec fn op_id_of(code: u8) -> Result<u8, DecodeError> {
    let c = code % 0x20;
    let row = code / 0x20;
    if code == 0x9E || code == 0xCA {
        Ok(code)
    } else if code == 0x8A || code == 0xAA {
        Ok(0x8A)
    } else if code == 0x9A || code == 0xBA {
        Ok(0x9A)
    } else if (c == 0x14 || c == 0x1A || c == 0x1C) && !is_y_row(row) {
        Ok(NOP_ID)
    } else {
        match category_of(code) {
            Category::Alu => Ok((row * 0x20 + 1) as u8),
            Category::Rmw => Ok((row * 0x20 + 6) as u8),
            Category::Control => Ok(code),
            Category::Unofficial => Err(DecodeError::UnsupportedIllegalOpcode { code }),
        }
    }
}

/// The operation table.
pub open spec fn op_of_id(id: u8) -> Option<OpCode> {
    if id == LSR_ID {
        Some(OpCode::Lsr)
    } else if id == JSR_ID {
        Some(OpCode::Jsr)
    } else {
        None
    }
}

pub open spec fn op_code_of(code: u8) -> Result<OpCode, DecodeError> {
    match op_id_of(code) {
        Ok(id) => match op_of_id(id) {
            Some(op) => Ok(op),
            None => Err(DecodeError::UnknownOpcode { id, code }),
        },
        Err(e) => Err(e),
    }
}

/// Classification of an opcode byte: the operation is resolved first, then
/// the addressing mode.
pub open spec fn decode(code: u8) -> Result<Instruction, DecodeError> {
    match op_code_of(code) {
        Err(e) => Err(e),
        Ok(op) => match addressing_mode_of(code) {
            Some(mode) => Ok(Instruction { op_code: op, addressing_mode: mode }),
            None => Err(DecodeError::IllegalOpcode { code }),
        },
    }
}

impl Position {
    pub fn from_code(code: u8) -> (r: Position)
        ensures
            r == position_of(code),
    {
        let low = code & 3;
        assert(code & 3 == code % 4) by (bit_vector);
        let category = if low == 0 {
            Category::Control
        } else if low == 1 {
            Category::Alu
        } else if low == 2 {
            Category::Rmw
        } else {
            Category::Unofficial
        };
        Position { category, row: code / 0x20, column: code % 0x20 }
    }
}

impl Instruction {
    /// Classifies an opcode byte.
    pub fn decode(code: u8) -> (r: Result<Instruction, DecodeError>)
        ensures
            r == decode(code),
    {
        let position = Position::from_code(code);
        let op_code = OpCode::from_opcode(&position, code)?;
        let addressing_mode = AddressingMode::from_opcode(&position, code)?;
        Ok(Instruction { op_code, addressing_mode })
    }
}

fn in_column(column: u8, pos: &Position) -> (r: bool)
    ensures
        r == (pos.column == column),
{
    pos.column == column
}

/// Whether the position lies in the `n` columns starting at `column`.
fn in_n_columns(column: u8, n: u8, pos: &Position) -> (r: bool)
    ensures
        r == col_in(pos.column, column as int, n as int),
{
    column <= pos.column && (pos.column as u16) < (column as u16) + (n as u16)
}

/// Whether the position lies in the last `n` of the eight rows.
fn in_last_n_rows(n: u8, pos: &Position) -> (r: bool)
    requires
        n <= 8,
    ensures
        r == (pos.row >= 8 - n),
{
    pos.row >= 8 - n
}

fn in_y_rows(pos: &Position) -> (r: bool)
    ensures
        r == is_y_row(pos.row),
{
    pos.row == FIRST_Y_ROW || pos.row == FIRST_Y_ROW + 1
}

/// The failure for a byte that no addressing-mode rule accepts.
fn kill(code: u8) -> (r: DecodeError)
    ensures
        r == (DecodeError::IllegalOpcode { code }),
{
    DecodeError::IllegalOpcode { code }
}

impl AddressingMode {
    pub fn from_opcode(pos: &Position, code: u8) -> (r: Result<AddressingMode, DecodeError>)
        requires
            *pos == position_of(code),
        ensures
            r == (match addressing_mode_of(code) {
                Some(mode) => Ok(mode),
                None => Err(DecodeError::IllegalOpcode { code }),
            }),
    {
        if code == 0 || code == 0x40 || code == 0x60 {
            Ok(AddressingMode::Implicit)
        } else if in_column(0x08, pos) || in_column(0x0A, pos) || in_column(0x18, pos) || in_column(
            0x1A,
            pos,
        ) {
            Ok(AddressingMode::Implicit)
        } else if code == 0x20 || in_n_columns(0x0C, 4, pos) {
            Ok(AddressingMode::Absolute)
        } else if (in_n_columns(0x00, 4, pos) && in_last_n_rows(4, pos)) || (in_n_columns(
            0x01,
            4,
            pos,
        ) && in_last_n_rows(4, pos)) || in_column(0x09, pos) || in_column(0x0B, pos) {
            Ok(AddressingMode::Immediate)
        } else if in_column(0x01, pos) || in_column(0x03, pos) {
            Ok(AddressingMode::ZeroPageX)
        } else if in_n_columns(0x04, 4, pos) || in_column(0x10, pos) {
            Ok(AddressingMode::ZeroPage)
        } else if in_column(0x11, pos) || in_column(0x13, pos) {
            Ok(AddressingMode::IndirectIndexed)
        } else if in_n_columns(0x14, 4, pos) || in_n_columns(0x1C, 2, pos) || (in_n_columns(
            0x1E,
            2,
            pos,
        ) && !in_y_rows(pos)) {
            Ok(AddressingMode::AbsoluteX)
        } else if in_column(0x19, pos) || in_column(0x1B, pos) || (in_n_columns(0x1E, 2, pos)
            && in_y_rows(pos)) {
            Ok(AddressingMode::AbsoluteY)
        } else {
            Err(kill(code))
        }
    }
}

impl OpCode {
    /// Looks a canonical id up in the operation table.
    pub fn from_id(id: u8) -> (r: Option<OpCode>)
        ensures
            r == op_of_id(id),
    {
        if id == LSR_ID {
            Some(OpCode::Lsr)
        } else if id == JSR_ID {
            Some(OpCode::Jsr)
        } else {
            None
        }
    }

    pub fn from_opcode(pos: &Position, code: u8) -> (r: Result<OpCode, DecodeError>)
        requires
            *pos == position_of(code),
        ensures
            r == op_code_of(code),
    {
        let row = pos.row;
        let num: u8 = if code == 0x9E || code == 0xCA {
            code
        } else if code == 0x8A || code == 0xAA {
            0x8A
        } else if code == 0x9A || code == 0xBA {
            0x9A
        } else if (in_column(0x14, pos) || in_column(0x1A, pos) || in_column(0x1C, pos))
            && !in_y_rows(pos) {
            NOP_ID
        } else {
            match pos.category {
                // the first column of a row names the row's operation
                Category::Alu => row * 0x20 + 1,
                // the second column, as the first is mostly unused
                Category::Rmw => row * 0x20 + 6,
                Category::Control => code,
                Category::Unofficial => {
                    return Err(DecodeError::UnsupportedIllegalOpcode { code });
                },
            }
        };
        match OpCode::from_id(num) {
            Some(op) => Ok(op),
            None => Err(DecodeError::UnknownOpcode { id: num, code }),
        }
    }
}

/// Classification depends on the byte alone: equal bytes get the same
/// instruction or the same failure.
pub proof fn lemma_classification_is_deterministic(a: u8, b: u8)
    requires
        a == b,
    ensures
        decode(a) == decode(b),
        op_code_of(a) == op_code_of(b),
        addressing_mode_of(a) == addressing_mode_of(b),
{
}

} // verus!
