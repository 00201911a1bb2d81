//! The assembler: resolves each line of source text to an instruction variant and
//! writes its bytes into the memory image.
//!
//! A line is a mnemonic, or a mnemonic, one space and an operand. The operand is
//! `#` and a value (`$` and two hexadecimal digits, or a decimal numeral) or `$`
//! and a hexadecimal address, which is a zero-page address below `100` and an
//! absolute one from there on. A line with two spaces or more assembles to
//! nothing. A line is assembled whole or not at all: one that fails leaves the
//! image and the cursor as the lines before it left them.

use crate::error::{outcome, AsmError, AsmErrorView};
use crate::memory::{Memory, MemoryView, MAX_MEMORY};
use crate::token::{AddressingMode, Token};
use crate::util::{
    convert_hex_pair_to_u8, convert_hex_string_to_u16, convert_hex_string_to_u8,
    convert_string_to_u8, hex_pair, is_zero_page, parse_u16, parse_u8,
};
use vstd::prelude::*;

verus! {

/// An instruction as the assembler has resolved it: the variant and the bytes of
/// its operand.
pub struct Instruction {
    pub token: Token,
    pub operands: Seq<u8>,
}

impl Instruction {
    /// The bytes of the instruction in memory: the opcode, then the operand.
    pub open spec fn bytes(self) -> Seq<u8> {
        seq![self.token.spec_opcode()] + self.operands
    }
}

/// The space-separated fields of a line, as far as the assembler tells them
/// apart.
pub enum Fields {
    /// The line holds no space.
    One(Seq<char>),
    /// The line holds exactly one space: what stands before it and behind it.
    Two(Seq<char>, Seq<char>),
    /// The line holds two spaces or more.
    Other,
}

/// Splits a line at its spaces.
pub open spec fn fields(line: Seq<char>) -> Fields {
    match line.index_of_first(' ') {
        None => Fields::One(line),
        Some(at) => {
            let rest = line.subrange(at + 1, line.len() as int);
            if rest.contains(' ') {
                Fields::Other
            } else {
                Fields::Two(line.subrange(0, at), rest)
            }
        },
    }
}

/// `data` with `bytes` stored from address `at` on.
pub open spec fn write_bytes(data: Seq<u8>, at: int, bytes: Seq<u8>) -> Seq<u8> {
    Seq::new(
        data.len(),
        |i: int|
            if at <= i < at + bytes.len() {
                bytes[i - at]
            } else {
                data[i]
            },
    )
}

/// The image and the cursor after an instruction has been written at the cursor.
///
/// The instruction must end below the last address, so that the cursor stays an
/// address, and the cycle counter must have room for its cost. Then its bytes
/// stand at the cursor, the cursor stands behind them, and the counter has grown
/// by the cost of the variant.
pub open spec fn emit_spec(memory: MemoryView, cursor: u16, instruction: Instruction) -> Result<
    (MemoryView, u16),
    AsmErrorView,
> {
    let bytes = instruction.bytes();
    if cursor + bytes.len() > u16::MAX {
        Err(AsmErrorView::OutOfRange)
    } else if memory.cycles + instruction.token.spec_cycles() > u32::MAX {
        Err(AsmErrorView::CycleOverflow)
    } else {
        Ok(
            (
                MemoryView {
                    data: write_bytes(memory.data, cursor as int, bytes),
                    cycles: (memory.cycles + instruction.token.spec_cycles()) as u32,
                    ..memory
                },
                (cursor + bytes.len()) as u16,
            ),
        )
    }
}

/// Resolves and writes in one: `emit_spec` of what was resolved.
pub open spec fn emit_resolved(
    memory: MemoryView,
    cursor: u16,
    resolved: Result<Instruction, AsmErrorView>,
) -> Result<(MemoryView, u16), AsmErrorView> {
    match resolved {
        Ok(instruction) => emit_spec(memory, cursor, instruction),
        Err(e) => Err(e),
    }
}

/// Whether a call that was to bring the image and the cursor from `before` to
/// `expected` did so: on success they are as expected, on failure the error is the
/// expected one and nothing has changed.
pub open spec fn assembled(
    result: Result<(), AsmError>,
    before: (MemoryView, u16),
    after: (MemoryView, u16),
    expected: Result<(MemoryView, u16), AsmErrorView>,
) -> bool {
    match expected {
        Ok(state) => result is Ok && after == state,
        Err(e) => outcome(result) == Err::<(), AsmErrorView>(e) && after == before,
    }
}

/// A mnemonic without operand: its implied form.
pub open spec fn resolve_implied(mnemonic: Token) -> Result<Instruction, AsmErrorView> {
    match mnemonic.spec_variant(AddressingMode::Implied) {
        Some(token) => Ok(Instruction { token, operands: seq![] }),
        None => Err(AsmErrorView::UnsupportedAddressingMode),
    }
}

/// The byte that the text behind `#` writes: `$` and exactly two hexadecimal
/// digits, or a decimal numeral.
pub open spec fn immediate_byte(value: Seq<char>) -> Result<u8, AsmErrorView> {
    if value.len() == 0 {
        Err(AsmErrorView::SyntaxError(value))
    } else if value[0] == '$' {
        let digits = value.subrange(1, value.len() as int);
        match hex_pair(digits) {
            Some(byte) => Ok(byte),
            None => Err(AsmErrorView::SyntaxError(digits)),
        }
    } else {
        match parse_u8(value, 10) {
            Some(byte) => Ok(byte),
            None => Err(AsmErrorView::SyntaxError(value)),
        }
    }
}

/// An instruction in immediate form with operand text `value`.
pub open spec fn immediate_instruction(token: Token, value: Seq<char>) -> Result<
    Instruction,
    AsmErrorView,
> {
    match immediate_byte(value) {
        Ok(byte) => Ok(Instruction { token, operands: seq![byte] }),
        Err(e) => Err(e),
    }
}

/// A mnemonic with the immediate operand `value`, the text behind `#`.
pub open spec fn resolve_immediate(mnemonic: Token, value: Seq<char>) -> Result<
    Instruction,
    AsmErrorView,
> {
    match mnemonic.spec_variant(AddressingMode::Immediate) {
        Some(token) => immediate_instruction(token, value),
        None => Err(AsmErrorView::UnsupportedAddressingMode),
    }
}

/// An instruction in zero-page form with address text `value`.
pub open spec fn zero_page_instruction(token: Token, value: Seq<char>) -> Result<
    Instruction,
    AsmErrorView,
> {
    match parse_u8(value, 16) {
        Some(address) => Ok(Instruction { token, operands: seq![address] }),
        None => Err(AsmErrorView::SyntaxError(value)),
    }
}

/// An instruction in absolute form with address text `value`: the low byte of
/// the address comes first.
pub open spec fn absolute_instruction(token: Token, value: Seq<char>) -> Result<
    Instruction,
    AsmErrorView,
> {
    match parse_u16(value, 16) {
        Some(address) => Ok(
            Instruction { token, operands: seq![(address % 256) as u8, (address / 256) as u8] },
        ),
        None => Err(AsmErrorView::SyntaxError(value)),
    }
}

/// Whether a mnemonic has a form that takes an address.
pub open spec fn takes_address(mnemonic: Token) -> bool {
    mnemonic.spec_variant(AddressingMode::ZeroPage) is Some || mnemonic.spec_variant(
        AddressingMode::Absolute,
    ) is Some
}

/// A mnemonic with the address `value`, the text behind `$`: its zero-page form
/// for an address below 256, its absolute form for any other.
pub open spec fn resolve_memory(mnemonic: Token, value: Seq<char>) -> Result<
    Instruction,
    AsmErrorView,
> {
    if !takes_address(mnemonic) {
        Err(AsmErrorView::UnsupportedAddressingMode)
    } else {
        match parse_u16(value, 16) {
            None => Err(AsmErrorView::SyntaxError(value)),
            Some(address) => if address < 256 {
                match mnemonic.spec_variant(AddressingMode::ZeroPage) {
                    Some(token) => Ok(Instruction { token, operands: seq![address as u8] }),
                    None => Err(AsmErrorView::UnsupportedAddressingMode),
                }
            } else {
                match mnemonic.spec_variant(AddressingMode::Absolute) {
                    Some(token) => Ok(
                        Instruction {
                            token,
                            operands: seq![(address % 256) as u8, (address / 256) as u8],
                        },
                    ),
                    None => Err(AsmErrorView::UnsupportedAddressingMode),
                }
            },
        }
    }
}

/// A mnemonic with the operand `command`.
pub open spec fn resolve_operand(mnemonic: Token, command: Seq<char>) -> Result<
    Instruction,
    AsmErrorView,
> {
    if command.len() == 0 {
        Err(AsmErrorView::SyntaxError(command))
    } else if command[0] == '#' {
        resolve_immediate(mnemonic, command.subrange(1, command.len() as int))
    } else if command[0] == '$' {
        resolve_memory(mnemonic, command.subrange(1, command.len() as int))
    } else {
        Err(AsmErrorView::UnsupportedOperandSyntax)
    }
}

/// A line that is a mnemonic alone.
pub open spec fn resolve_one(name: Seq<char>) -> Result<Instruction, AsmErrorView> {
    match Token::spec_from_mnemonic(name) {
        Some(mnemonic) => resolve_implied(mnemonic),
        None => Err(AsmErrorView::SyntaxError(name)),
    }
}

/// A line that is a mnemonic and an operand.
pub open spec fn resolve_two(name: Seq<char>, command: Seq<char>) -> Result<
    Instruction,
    AsmErrorView,
> {
    match Token::spec_from_mnemonic(name) {
        Some(mnemonic) => resolve_operand(mnemonic, command),
        None => Err(AsmErrorView::SyntaxError(name)),
    }
}

/// What a line does to the image and the cursor.
pub open spec fn line_spec(line: Seq<char>, memory: MemoryView, cursor: u16) -> Result<
    (MemoryView, u16),
    AsmErrorView,
> {
    match fields(line) {
        Fields::One(name) => emit_resolved(memory, cursor, resolve_one(name)),
        Fields::Two(name, command) => emit_resolved(memory, cursor, resolve_two(name, command)),
        Fields::Other => Ok((memory, cursor)),
    }
}

/// What a source text does to the image and the cursor, line by line in source
/// order. Empty lines are passed over. The first line that fails ends the pass:
/// the image and the cursor then hold what the lines before it have written.
pub open spec fn assemble_spec(lines: Seq<Seq<char>>, memory: MemoryView, cursor: u16) -> (
    MemoryView,
    u16,
    Result<(), AsmErrorView>,
)
    decreases lines.len(),
{
    if lines.len() == 0 {
        (memory, cursor, Ok(()))
    } else if lines[0].len() == 0 {
        assemble_spec(lines.drop_first(), memory, cursor)
    } else {
        match line_spec(lines[0], memory, cursor) {
            Ok((next_memory, next_cursor)) => assemble_spec(
                lines.drop_first(),
                next_memory,
                next_cursor,
            ),
            Err(e) => (memory, cursor, Err(e)),
        }
    }
}

/// Makes room for an instruction of `token` with `operand_len` operand bytes:
/// checks that it ends below the last address and that the cycle counter can
/// take its cost, and adds the cost to the counter.
fn charge(token: Token, operand_len: u8, curr_mem_add: u16, mem: &mut Memory) -> (result: Result<
    (),
    AsmError,
>)
    requires
        operand_len <= 2,
    ensures
        match result {
            Ok(()) => curr_mem_add + 1 + operand_len <= u16::MAX && old(mem)@.cycles
                + token.spec_cycles() <= u32::MAX && final(mem)@ == (MemoryView {
                cycles: (old(mem)@.cycles + token.spec_cycles()) as u32,
                ..old(mem)@
            }),
            Err(e) => final(mem)@ == old(mem)@ && e@ == (if curr_mem_add + 1 + operand_len
                > u16::MAX {
                AsmErrorView::OutOfRange
            } else {
                AsmErrorView::CycleOverflow
            }) && (curr_mem_add + 1 + operand_len > u16::MAX || old(mem)@.cycles
                + token.spec_cycles() > u32::MAX),
        },
{
    if curr_mem_add as u32 + 1 + operand_len as u32 > 0xFFFF {
        return Err(AsmError::OutOfRange);
    }
    let cost = token.cycles() as u32;
    if mem.data_cycle_count > u32::MAX - cost {
        return Err(AsmError::CycleOverflow);
    }
    mem.data_cycle_count += cost;
    Ok(())
}

/// Writes an instruction without operand: the opcode of `token` at the cursor.
pub fn load_relative_value(token: Token, mem: &mut Memory, curr_mem_add: &mut u16) -> (result:
    Result<(), AsmError>)
    ensures
        assembled(
            result,
            (old(mem)@, *old(curr_mem_add)),
            (final(mem)@, *final(curr_mem_add)),
            emit_spec(old(mem)@, *old(curr_mem_add), Instruction { token, operands: seq![] }),
        ),
{
    let ghost bytes = (Instruction { token, operands: seq![] }).bytes();
    match charge(token, 0, *curr_mem_add, mem) {
        Ok(()) => {},
        Err(e) => {
            return Err(e);
        },
    }
    mem.data[*curr_mem_add as usize] = token.opcode();
    proof {
        assert(mem@.data =~= write_bytes(old(mem)@.data, *old(curr_mem_add) as int, bytes));
    }
    *curr_mem_add += 1;
    Ok(())
}

/// Writes an instruction with a one-byte operand: opcode, then `operand`.
fn store_two(token: Token, operand: u8, mem: &mut Memory, curr_mem_add: &mut u16) -> (result:
    Result<(), AsmError>)
    ensures
        assembled(
            result,
            (old(mem)@, *old(curr_mem_add)),
            (final(mem)@, *final(curr_mem_add)),
            emit_spec(
                old(mem)@,
                *old(curr_mem_add),
                Instruction { token, operands: seq![operand] },
            ),
        ),
{
    let ghost bytes = (Instruction { token, operands: seq![operand] }).bytes();
    match charge(token, 1, *curr_mem_add, mem) {
        Ok(()) => {},
        Err(e) => {
            return Err(e);
        },
    }
    mem.data[*curr_mem_add as usize] = token.opcode();
    *curr_mem_add += 1;
    mem.data[*curr_mem_add as usize] = operand;
    *curr_mem_add += 1;
    proof {
        assert(mem@.data =~= write_bytes(old(mem)@.data, *old(curr_mem_add) as int, bytes));
    }
    Ok(())
}

/// Writes an instruction in zero-page form: the opcode of `token`, then the
/// address that the hexadecimal numeral `value` writes, which must fit a byte.
pub fn load_zero_page(token: Token, value: &str, curr_mem_add: &mut u16, mem: &mut Memory) -> (result:
    Result<(), AsmError>)
    ensures
        assembled(
            result,
            (old(mem)@, *old(curr_mem_add)),
            (final(mem)@, *final(curr_mem_add)),
            emit_resolved(old(mem)@, *old(curr_mem_add), zero_page_instruction(token, value@)),
        ),
{
    match convert_hex_string_to_u8(value) {
        Ok(address) => store_two(token, address, mem, curr_mem_add),
        Err(e) => Err(e),
    }
}

/// Writes an instruction in absolute form: the opcode of `token`, then the
/// 16-bit address that the hexadecimal numeral `value` writes, low byte first.
pub fn load_mem_page(token: Token, value: &str, curr_mem_add: &mut u16, mem: &mut Memory) -> (result:
    Result<(), AsmError>)
    ensures
        assembled(
            result,
            (old(mem)@, *old(curr_mem_add)),
            (final(mem)@, *final(curr_mem_add)),
            emit_resolved(old(mem)@, *old(curr_mem_add), absolute_instruction(token, value@)),
        ),
{
    let address = match convert_hex_string_to_u16(value) {
        Ok(address) => address,
        Err(e) => {
            return Err(e);
        },
    };
    let l_byte: u8 = (address % 256) as u8;
    let h_byte: u8 = (address / 256) as u8;
    let ghost bytes = (Instruction { token, operands: seq![l_byte, h_byte] }).bytes();
    match charge(token, 2, *curr_mem_add, mem) {
        Ok(()) => {},
        Err(e) => {
            return Err(e);
        },
    }
    mem.data[*curr_mem_add as usize] = token.opcode();
    *curr_mem_add += 1;
    mem.data[*curr_mem_add as usize] = l_byte;
    *curr_mem_add += 1;
    mem.data[*curr_mem_add as usize] = h_byte;
    *curr_mem_add += 1;
    proof {
        assert(mem@.data =~= write_bytes(old(mem)@.data, *old(curr_mem_add) as int, bytes));
    }
    Ok(())
}

/// Whether an immediate value is written in hexadecimal, that is begins with
/// `$`; a syntax error for the empty text.
pub fn is_hex(value: &str) -> (hex: Result<bool, AsmError>)
    ensures
        outcome(hex) == if value@.len() == 0 {
            Err::<bool, AsmErrorView>(AsmErrorView::SyntaxError(value@))
        } else {
            Ok(value@[0] == '$')
        },
{
    if value.unicode_len() == 0 {
        Err(AsmError::syntax(value))
    } else {
        Ok(value.get_char(0) == '$')
    }
}

/// Writes an instruction in immediate form: the opcode of `token`, then the byte
/// that `value` writes, which is `$` and two hexadecimal digits or a decimal
/// numeral.
pub fn load_immediate_value(token: Token, value: &str, mem: &mut Memory, curr_mem_add: &mut u16) -> (result:
    Result<(), AsmError>)
    ensures
        assembled(
            result,
            (old(mem)@, *old(curr_mem_add)),
            (final(mem)@, *final(curr_mem_add)),
            emit_resolved(old(mem)@, *old(curr_mem_add), immediate_instruction(token, value@)),
        ),
{
    let hex = match is_hex(value) {
        Ok(hex) => hex,
        Err(e) => {
            return Err(e);
        },
    };
    let parsed = if hex {
        convert_hex_pair_to_u8(value.substring_char(1, value.unicode_len()))
    } else {
        convert_string_to_u8(value)
    };
    match parsed {
        Ok(byte) => store_two(token, byte, mem, curr_mem_add),
        Err(e) => Err(e),
    }
}

/// Assembles a mnemonic with an immediate operand, the text behind `#`.
pub fn load_immediate_command(token: Token, value: &str, mem: &mut Memory, curr_mem_add: &mut u16) -> (result:
    Result<(), AsmError>)
    ensures
        assembled(
            result,
            (old(mem)@, *old(curr_mem_add)),
            (final(mem)@, *final(curr_mem_add)),
            emit_resolved(old(mem)@, *old(curr_mem_add), resolve_immediate(token, value@)),
        ),
{
    match token.variant(AddressingMode::Immediate) {
        Some(variant) => load_immediate_value(variant, value, mem, curr_mem_add),
        None => Err(AsmError::UnsupportedAddressingMode),
    }
}

/// Assembles a mnemonic with an address, the text behind `$`: in zero-page form
/// where the address is below `100`, in absolute form where not.
pub fn load_memory_location(token: Token, value: &str, curr_mem_add: &mut u16, mem: &mut Memory) -> (result:
    Result<(), AsmError>)
    ensures
        assembled(
            result,
            (old(mem)@, *old(curr_mem_add)),
            (final(mem)@, *final(curr_mem_add)),
            emit_resolved(old(mem)@, *old(curr_mem_add), resolve_memory(token, value@)),
        ),
{
    let zero_page_form = token.variant(AddressingMode::ZeroPage);
    let absolute_form = token.variant(AddressingMode::Absolute);
    if zero_page_form.is_none() && absolute_form.is_none() {
        return Err(AsmError::UnsupportedAddressingMode);
    }
    let zero_page = match is_zero_page(value) {
        Ok(zero_page) => zero_page,
        Err(e) => {
            return Err(e);
        },
    };
    let form = if zero_page {
        zero_page_form
    } else {
        absolute_form
    };
    match form {
        Some(variant) => if zero_page {
            load_zero_page(variant, value, curr_mem_add, mem)
        } else {
            load_mem_page(variant, value, curr_mem_add, mem)
        },
        None => Err(AsmError::UnsupportedAddressingMode),
    }
}

/// Assembles a mnemonic with an address, as [`load_memory_location`] does.
pub fn load_mem_location_command(token: Token, value: &str, mem: &mut Memory, curr_mem_add: &mut u16) -> (result:
    Result<(), AsmError>)
    ensures
        assembled(
            result,
            (old(mem)@, *old(curr_mem_add)),
            (final(mem)@, *final(curr_mem_add)),
            emit_resolved(old(mem)@, *old(curr_mem_add), resolve_memory(token, value@)),
        ),
{
    load_memory_location(token, value, curr_mem_add, mem)
}

/// Assembles a line that is a mnemonic alone.
pub fn handle_one_character_line(token: &str, mem: &mut Memory, curr_mem_add: &mut u16) -> (result:
    Result<(), AsmError>)
    ensures
        assembled(
            result,
            (old(mem)@, *old(curr_mem_add)),
            (final(mem)@, *final(curr_mem_add)),
            emit_resolved(old(mem)@, *old(curr_mem_add), resolve_one(token@)),
        ),
{
    let found_token = match Token::from_mnemonic(token) {
        Some(t) => t,
        None => {
            return Err(AsmError::syntax(token));
        },
    };
    match found_token.variant(AddressingMode::Implied) {
        Some(variant) => load_relative_value(variant, mem, curr_mem_add),
        None => Err(AsmError::UnsupportedAddressingMode),
    }
}

/// Assembles a line that is the mnemonic `token` and the operand `command`.
pub fn handle_two_character_line(
    token: &str,
    command: &str,
    mem: &mut Memory,
    curr_mem_add: &mut u16,
) -> (result: Result<(), AsmError>)
    ensures
        assembled(
            result,
            (old(mem)@, *old(curr_mem_add)),
            (final(mem)@, *final(curr_mem_add)),
            emit_resolved(old(mem)@, *old(curr_mem_add), resolve_two(token@, command@)),
        ),
{
    let found_token = match Token::from_mnemonic(token) {
        Some(t) => t,
        None => {
            return Err(AsmError::syntax(token));
        },
    };
    let n = command.unicode_len();
    if n == 0 {
        return Err(AsmError::syntax(command));
    }
    let special_character = command.get_char(0);
    let value = command.substring_char(1, n);
    if special_character == '#' {
        load_immediate_command(found_token, value, mem, curr_mem_add)
    } else if special_character == '$' {
        load_mem_location_command(found_token, value, mem, curr_mem_add)
    } else {
        Err(AsmError::UnsupportedOperandSyntax)
    }
}

/// Counts the spaces of a line up to two and finds the first.
fn find_spaces(line: &str) -> (found: (usize, usize))
    ensures
        match fields(line@) {
            Fields::One(name) => found.0 == 0,
            Fields::Two(name, command) => found.0 == 1 && found.1 < line@.len() && name
                == line@.subrange(0, found.1 as int) && command == line@.subrange(
                found.1 + 1,
                line@.len() as int,
            ),
            Fields::Other => found.0 == 2,
        },
{
    let n = line.unicode_len();
    let mut count: usize = 0;
    let mut first: usize = 0;
    let mut i: usize = 0;
    while i < n
        invariant
            i <= n,
            n == line@.len(),
            count <= 2,
            count == 0 ==> forall|j: int| 0 <= j < i ==> line@[j] != ' ',
            count >= 1 ==> first < i && line@[first as int] == ' ' && forall|j: int|
                0 <= j < first ==> line@[j] != ' ',
            count == 1 ==> forall|j: int| first < j < i ==> line@[j] != ' ',
            count == 2 ==> exists|j: int| first < j < i && line@[j] == ' ',
        decreases n - i,
    {
        if line.get_char(i) == ' ' {
            if count == 0 {
                first = i;
                count = 1;
            } else {
                count = 2;
            }
        }
        i += 1;
    }
    proof {
        line@.index_of_first_ensures(' ');
        if count >= 1 {
            let rest = line@.subrange(first + 1, line@.len() as int);
            if count == 2 {
                let j = choose|j: int| first < j < i && line@[j] == ' ';
                assert(rest[j - first - 1] == ' ');
            }
        }
    }
    (count, first)
}

/// Assembles one line of source text at the cursor.
///
/// A line without space is a mnemonic, a line with one space a mnemonic and its
/// operand; any other line assembles to nothing. On success the bytes of the
/// instruction stand at the old cursor, the cursor has moved behind them and the
/// cycle counter has grown by the cost of the variant.
pub fn parse_line(line: &str, mem: &mut Memory, curr_mem_add: &mut u16) -> (result: Result<
    (),
    AsmError,
>)
    ensures
        assembled(
            result,
            (old(mem)@, *old(curr_mem_add)),
            (final(mem)@, *final(curr_mem_add)),
            line_spec(line@, old(mem)@, *old(curr_mem_add)),
        ),
{
    let (count, first) = find_spaces(line);
    if count == 0 {
        handle_one_character_line(line, mem, curr_mem_add)
    } else if count == 1 {
        let n = line.unicode_len();
        let token = line.substring_char(0, first);
        let command = line.substring_char(first + 1, n);
        handle_two_character_line(token, command, mem, curr_mem_add)
    } else {
        Ok(())
    }
}

/// The lines of a source text as sequences of characters.
pub open spec fn texts(lines: Seq<String>) -> Seq<Seq<char>> {
    Seq::new(lines.len(), |i: int| lines[i]@)
}

/// Assembles a source text, line by line, from the cursor on.
///
/// Empty lines are passed over. The first line that fails ends the pass and its
/// error is returned; what the lines before it have written stays.
pub fn assemble(lines: &Vec<String>, mem: &mut Memory, curr_mem_add: &mut u16) -> (result: Result<
    (),
    AsmError,
>)
    ensures
        (final(mem)@, *final(curr_mem_add), outcome(result)) == assemble_spec(
            texts(lines@),
            old(mem)@,
            *old(curr_mem_add),
        ),
{
    let mut i: usize = 0;
    proof {
        assert(texts(lines@).skip(0) =~= texts(lines@));
    }
    while i < lines.len()
        invariant
            i <= lines.len(),
            assemble_spec(texts(lines@).skip(i as int), mem@, *curr_mem_add) == assemble_spec(
                texts(lines@),
                old(mem)@,
                *old(curr_mem_add),
            ),
        decreases lines.len() - i,
    {
        proof {
            assert(texts(lines@).skip(i as int).drop_first() =~= texts(lines@).skip(i + 1));
            assert(texts(lines@).skip(i as int)[0] == lines@[i as int]@);
        }
        let line = lines[i].as_str();
        if line.unicode_len() != 0 {
            match parse_line(line, mem, curr_mem_add) {
                Ok(()) => {},
                Err(e) => {
                    return Err(e);
                },
            }
        }
        i += 1;
    }
    proof {
        assert(texts(lines@).skip(i as int).len() == 0);
    }
    Ok(())
}

/// Assembling one source text into two fresh images gives the same bytes, the
/// same cycle budget, the same cursor and the same outcome.
pub proof fn lemma_assemble_idempotent(lines: Seq<Seq<char>>, first: MemoryView, second: MemoryView)
    requires
        first == MemoryView::fresh(),
        second == MemoryView::fresh(),
    ensures
        assemble_spec(lines, first, 0).0.data == assemble_spec(lines, second, 0).0.data,
        assemble_spec(lines, first, 0).0.cycles == assemble_spec(lines, second, 0).0.cycles,
        assemble_spec(lines, first, 0) == assemble_spec(lines, second, 0),
{
}

/// An instruction that is written changes the bytes from the cursor to the new
/// cursor and no others, takes one to three bytes, and adds the cost of its
/// variant to the cycle counter.
pub proof fn lemma_emit_frame(memory: MemoryView, cursor: u16, instruction: Instruction)
    requires
        memory.data.len() == MAX_MEMORY,
        instruction.operands.len() <= 2,
        emit_spec(memory, cursor, instruction) is Ok,
    ensures
        ({
            let (after, next) = emit_spec(memory, cursor, instruction)->Ok_0;
            &&& next == cursor + 1 + instruction.operands.len()
            &&& after.cycles == memory.cycles + instruction.token.spec_cycles()
            &&& after.data.len() == MAX_MEMORY
            &&& after.data[cursor as int] == instruction.token.spec_opcode()
            &&& forall|i: int|
                0 <= i < instruction.operands.len() ==> after.data[cursor + 1 + i]
                    == instruction.operands[i]
            &&& forall|i: int|
                0 <= i < MAX_MEMORY && !(cursor <= i < next) ==> after.data[i] == memory.data[i]
        }),
{
}

} // verus!
