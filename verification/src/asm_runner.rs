//! The execution engine: a fetch-decode-execute loop over the memory image.
//!
//! The engine executes the load instructions `LDA`, `LDX` and `LDY` with an
//! immediate operand and `LDA` with a zero-page or an absolute address. Every
//! other byte is an illegal opcode to it, whether the assembler knows it or not.
//! An instruction runs whole or not at all: one that faults leaves the processor
//! as the instruction before it left it.

use crate::cpu::{flag, CPU};
use crate::error::ExecError;
use crate::asm_parser::{emit_spec, lemma_emit_frame, Instruction};
use crate::memory::{Memory, MemoryView, MAX_MEMORY};
use crate::token::{lemma_decode_opcode, AddressingMode, Token};
use crate::util::{check_7_bit, combine_address};
use vstd::prelude::*;

verus! {

/// Register code of the accumulator.
pub const A: u8 = 0;

/// Register code of index register X.
pub const X: u8 = 1;

/// Register code of index register Y.
pub const Y: u8 = 2;

/// The register that an instruction loads and how it finds the value; `None` for
/// a variant that the engine does not execute.
pub open spec fn load_target(token: Token) -> Option<(u8, AddressingMode)> {
    match token {
        Token::LDA => Some((A, AddressingMode::Immediate)),
        Token::LDX => Some((X, AddressingMode::Immediate)),
        Token::LDY => Some((Y, AddressingMode::Immediate)),
        Token::LdaZP => Some((A, AddressingMode::ZeroPage)),
        Token::LdaAP => Some((A, AddressingMode::Absolute)),
        _ => None,
    }
}

/// `cpu` after its program counter has moved over `bytes` bytes and `cycles`
/// cycles of its budget are spent.
pub open spec fn advance(cpu: CPU, bytes: int, cycles: int) -> CPU {
    CPU {
        pc: (cpu.pc + bytes) as u16,
        memory: Memory {
            data_cycle_count: (cpu.memory.data_cycle_count - cycles) as u32,
            ..cpu.memory
        },
        ..cpu
    }
}

/// `cpu` after `value` has been written to a register: the register holds it, the
/// negative flag is its bit 7 and the zero flag says whether it is 0.
pub open spec fn loaded(cpu: CPU, register: u8, value: u8) -> CPU {
    let cpu = if register == A {
        CPU { a: value, ..cpu }
    } else if register == X {
        CPU { x: value, ..cpu }
    } else {
        CPU { y: value, ..cpu }
    };
    CPU { n: flag(check_7_bit(value)), z: flag(value == 0), ..cpu }
}

/// The value that an instruction with its opcode at the program counter loads.
pub open spec fn operand_value(cpu: CPU, mode: AddressingMode) -> u8 {
    let data = cpu.memory.data@;
    let pc = cpu.pc as int;
    match mode {
        AddressingMode::Implied => 0,
        AddressingMode::Immediate => data[pc + 1],
        AddressingMode::ZeroPage => data[data[pc + 1] as int],
        AddressingMode::Absolute => data[combine_address(data[pc + 1], data[pc + 2]) as int],
    }
}

/// One instruction: the processor after it, or the fault that kept it from
/// running.
///
/// The byte at the program counter is decoded first. Then the budget must cover
/// the cost of the variant, and the instruction must end below the top of the
/// address space. If so the program counter moves past the instruction, the
/// budget shrinks by exactly the cost, and the register and the two flags are set.
pub open spec fn step_spec(cpu: CPU) -> Result<CPU, ExecError> {
    let byte = cpu.memory.data@[cpu.pc as int];
    match Token::spec_from_opcode(byte) {
        Some(token) => match load_target(token) {
            Some((register, mode)) => if cpu.memory.data_cycle_count < token.spec_cycles() {
                Err(ExecError::BudgetExhausted)
            } else if cpu.pc + 1 + mode.spec_operand_len() > u16::MAX {
                Err(ExecError::OutOfRange)
            } else {
                Ok(
                    loaded(
                        advance(cpu, 1 + mode.spec_operand_len(), token.spec_cycles() as int),
                        register,
                        operand_value(cpu, mode),
                    ),
                )
            },
            None => Err(ExecError::IllegalOpcode(byte)),
        },
        None => Err(ExecError::IllegalOpcode(byte)),
    }
}

/// A whole run: instructions one after another while the budget is not 0. Gives
/// the processor as the run leaves it, and the fault if one ended the run.
pub open spec fn run_spec(cpu: CPU) -> (CPU, Result<(), ExecError>)
    decreases cpu.memory.data_cycle_count,
{
    if cpu.memory.data_cycle_count == 0 {
        (cpu, Ok(()))
    } else {
        match step_spec(cpu) {
            Ok(next) => run_spec(next),
            Err(fault) => (cpu, Err(fault)),
        }
    }
}

/// An instruction that runs spends at least one cycle, and exactly the cost that
/// the assembler has recorded for the variant.
pub proof fn lemma_step_spends_cost(cpu: CPU)
    requires
        step_spec(cpu) is Ok,
    ensures
        Token::spec_from_opcode(cpu.memory.data@[cpu.pc as int]) matches Some(token)
            && step_spec(cpu)->Ok_0.memory.data_cycle_count + token.spec_cycles()
            == cpu.memory.data_cycle_count && token.spec_cycles() >= 1,
{
}

/// What the assembler writes for a load, the engine executes: with the program
/// counter at the old cursor and a budget that covers the cost, the instruction
/// runs, the program counter arrives at the new cursor, the budget shrinks by what
/// the assembler has added to the cycle counter, and the register holds the
/// operand or the byte that the operand addresses.
pub proof fn lemma_step_runs_emitted_load(
    cpu: CPU,
    memory: MemoryView,
    cursor: u16,
    instruction: Instruction,
)
    requires
        memory.data.len() == MAX_MEMORY,
        load_target(instruction.token) matches Some((register, mode))
            && instruction.operands.len() == mode.spec_operand_len(),
        emit_spec(memory, cursor, instruction) matches Ok((after, next)) && cpu.memory.data@
            == after.data,
        cpu.pc == cursor,
        cpu.memory.data_cycle_count >= instruction.token.spec_cycles(),
    ensures
        step_spec(cpu) matches Ok(then) && then.pc == emit_spec(memory, cursor, instruction)->Ok_0.1
            && then.memory.data_cycle_count + (emit_spec(memory, cursor, instruction)->Ok_0.0.cycles
            - memory.cycles) == cpu.memory.data_cycle_count && then.memory.data@
            == cpu.memory.data@ && (load_target(instruction.token) matches Some((register, mode))
            && then.register(register) == match mode {
            AddressingMode::Absolute => cpu.memory.data@[combine_address(
                instruction.operands[0],
                instruction.operands[1],
            ) as int],
            AddressingMode::ZeroPage => cpu.memory.data@[instruction.operands[0] as int],
            _ => instruction.operands[0],
        }),
{
    lemma_decode_opcode(instruction.token);
    lemma_emit_frame(memory, cursor, instruction);
}

/// Spends one cycle and moves the program counter to the next byte.
fn cycle_a_pc_inc(cpu: &mut CPU)
    requires
        old(cpu).memory.data_cycle_count >= 1,
        old(cpu).pc < u16::MAX,
    ensures
        *final(cpu) == advance(*old(cpu), 1, 1),
{
    cpu.memory.data_cycle_count -= 1;
    cpu.pc += 1;
}

/// Spends one cycle on a read that does not move the program counter.
fn cycle_inc(cpu: &mut CPU)
    requires
        old(cpu).memory.data_cycle_count >= 1,
    ensures
        *final(cpu) == advance(*old(cpu), 0, 1),
{
    cpu.memory.data_cycle_count -= 1;
}

/// Writes `value` to a register and sets the negative and the zero flag from it.
fn write_register(register: u8, value: u8, cpu: &mut CPU)
    requires
        register <= Y,
    ensures
        *final(cpu) == loaded(*old(cpu), register, value),
{
    if register == A {
        cpu.a = value;
    } else if register == X {
        cpu.x = value;
    } else {
        cpu.y = value;
    }
    cpu.check_n_flag(register);
    cpu.check_z_flag(register);
}

/// Loads the byte at the program counter into a register.
fn load_immediate_value(register: u8, cpu: &mut CPU)
    requires
        register <= Y,
        old(cpu).memory.data_cycle_count >= 1,
        old(cpu).pc < u16::MAX,
    ensures
        *final(cpu) == loaded(
            advance(*old(cpu), 1, 1),
            register,
            old(cpu).memory.data@[old(cpu).pc as int],
        ),
{
    let value = cpu.memory.data[cpu.pc as usize];
    write_register(register, value, cpu);
    cycle_a_pc_inc(cpu);
}

/// Loads a register from the zero-page address at the program counter.
fn load_zp_location(register: u8, cpu: &mut CPU)
    requires
        register <= Y,
        old(cpu).memory.data_cycle_count >= 2,
        old(cpu).pc < u16::MAX,
    ensures
        *final(cpu) == loaded(
            advance(*old(cpu), 1, 2),
            register,
            old(cpu).memory.data@[old(cpu).memory.data@[old(cpu).pc as int] as int],
        ),
{
    let mem_loc: u8 = cpu.memory.data[cpu.pc as usize];
    cycle_a_pc_inc(cpu);
    let value = cpu.memory.data[mem_loc as usize];
    cycle_inc(cpu);
    write_register(register, value, cpu);
}

/// Loads a register from the absolute address at the program counter, low byte
/// first.
fn load_ap_location(register: u8, cpu: &mut CPU)
    requires
        register <= Y,
        old(cpu).memory.data_cycle_count >= 3,
        old(cpu).pc < u16::MAX - 1,
    ensures
        *final(cpu) == loaded(
            advance(*old(cpu), 2, 3),
            register,
            old(cpu).memory.data@[combine_address(
                old(cpu).memory.data@[old(cpu).pc as int],
                old(cpu).memory.data@[old(cpu).pc + 1],
            ) as int],
        ),
{
    let l_byte: u8 = cpu.memory.data[cpu.pc as usize];
    cycle_a_pc_inc(cpu);
    let h_byte: u8 = cpu.memory.data[cpu.pc as usize];
    cycle_a_pc_inc(cpu);
    let c_bytes: u16 = combine_address(l_byte, h_byte);
    let value = cpu.memory.data[c_bytes as usize];
    cycle_inc(cpu);
    write_register(register, value, cpu);
}

/// Loads a register from the address at the program counter: a zero-page address
/// where `is_zp` holds, an absolute one where not.
fn load_memory_location(register: u8, cpu: &mut CPU, is_zp: bool)
    requires
        register <= Y,
        old(cpu).memory.data_cycle_count >= (if is_zp { 2int } else { 3int }),
        old(cpu).pc < (if is_zp { u16::MAX as int } else { u16::MAX - 1 }),
    ensures
        *final(cpu) == if is_zp {
            loaded(
                advance(*old(cpu), 1, 2),
                register,
                old(cpu).memory.data@[old(cpu).memory.data@[old(cpu).pc as int] as int],
            )
        } else {
            loaded(
                advance(*old(cpu), 2, 3),
                register,
                old(cpu).memory.data@[combine_address(
                    old(cpu).memory.data@[old(cpu).pc as int],
                    old(cpu).memory.data@[old(cpu).pc + 1],
                ) as int],
            )
        },
{
    if is_zp {
        load_zp_location(register, cpu)
    } else {
        load_ap_location(register, cpu)
    }
}

/// The program counter before the opcode that was just fetched.
spec fn before_fetch(cpu: CPU) -> CPU {
    CPU { pc: (cpu.pc - 1) as u16, ..cpu }
}

/// Executes `token`, whose opcode has been fetched: the program counter stands
/// behind the opcode and the cycle of the fetch is spent.
fn load(token: Token, cpu: &mut CPU)
    requires
        load_target(token) matches Some((register, mode)) && old(cpu).memory.data_cycle_count
            + 1 >= token.spec_cycles() && old(cpu).pc >= 1 && old(cpu).pc
            + mode.spec_operand_len() <= u16::MAX,
    ensures
        load_target(token) matches Some((register, mode)) && *final(cpu) == loaded(
            advance(*old(cpu), mode.spec_operand_len() as int, token.spec_cycles() - 1),
            register,
            operand_value(before_fetch(*old(cpu)), mode),
        ),
{
    match token {
        Token::LDA => load_immediate_value(A, cpu),
        Token::LDX => load_immediate_value(X, cpu),
        Token::LDY => load_immediate_value(Y, cpu),
        Token::LdaZP => load_memory_location(A, cpu, true),
        _ => load_memory_location(A, cpu, false),
    }
}

/// Whether the engine executes `token`.
fn is_load(token: Token) -> (executes: Option<AddressingMode>)
    ensures
        executes == match load_target(token) {
            Some((register, mode)) => Some(mode),
            None => None,
        },
{
    match token {
        Token::LDA | Token::LDX | Token::LDY => Some(AddressingMode::Immediate),
        Token::LdaZP => Some(AddressingMode::ZeroPage),
        Token::LdaAP => Some(AddressingMode::Absolute),
        _ => None,
    }
}

/// Fetches, decodes and executes the instruction at the program counter.
///
/// On a fault the processor is left as it was: [`ExecError::IllegalOpcode`] for a
/// byte that is no opcode of a load the engine executes, else
/// [`ExecError::BudgetExhausted`] where the budget is below the cost of the
/// instruction, else [`ExecError::OutOfRange`] where the instruction reaches the
/// last address.
pub fn step(cpu: &mut CPU) -> (result: Result<(), ExecError>)
    ensures
        match step_spec(*old(cpu)) {
            Ok(next) => result is Ok && *final(cpu) == next,
            Err(fault) => result == Err::<(), ExecError>(fault) && *final(cpu) == *old(cpu),
        },
{
    let current_value: u8 = cpu.memory.data[cpu.pc as usize];
    let token = match Token::from_opcode(current_value) {
        Some(token) => token,
        None => {
            return Err(ExecError::IllegalOpcode(current_value));
        },
    };
    let mode = match is_load(token) {
        Some(mode) => mode,
        None => {
            return Err(ExecError::IllegalOpcode(current_value));
        },
    };
    if cpu.memory.data_cycle_count < token.cycles() as u32 {
        return Err(ExecError::BudgetExhausted);
    }
    if cpu.pc as u32 + 1 + mode.operand_len() as u32 > 0xFFFF {
        return Err(ExecError::OutOfRange);
    }
    cycle_a_pc_inc(cpu);
    load(token, cpu);
    Ok(())
}

/// Runs the program in memory from the program counter on.
///
/// The engine executes instruction after instruction while the cycle budget is
/// not 0, and has then halted. A fault ends the run at once and is returned; the
/// processor is then as the last instruction that ran left it.
pub fn run_memory(cpu: &mut CPU) -> (result: Result<(), ExecError>)
    ensures
        (*final(cpu), result) == run_spec(*old(cpu)),
        result is Ok ==> final(cpu).memory.data_cycle_count == 0,
{
    while cpu.memory.data_cycle_count > 0
        invariant
            run_spec(*cpu) == run_spec(*old(cpu)),
        decreases cpu.memory.data_cycle_count,
    {
        proof {
            if step_spec(*cpu) is Ok {
                lemma_step_spends_cost(*cpu);
            }
        }
        match step(cpu) {
            Ok(()) => {},
            Err(fault) => {
                return Err(fault);
            },
        }
    }
    Ok(())
}

} // verus!
