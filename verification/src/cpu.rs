//! The processor: program counter, registers, flags and its memory image.

use crate::asm_runner::{run_memory, run_spec, A, X, Y};
use crate::error::ExecError;
use crate::memory::{Memory, MemoryView};
use crate::util::check_7_bit;
use vstd::prelude::*;

verus! {

/// The state of one processor. A flag is 0 or 1.
pub struct CPU {
    pub pc: u16,
    pub sp: u16,
    pub memory: Memory,
    pub x: u8,
    pub a: u8,
    pub y: u8,
    /// Carry flag.
    pub c: u8,
    /// Zero flag.
    pub z: u8,
    /// Interrupt disable.
    pub i: u8,
    /// Decimal mode flag.
    pub d: u8,
    /// Break command.
    pub b: u8,
    /// Overflow flag.
    pub v: u8,
    /// Negative flag.
    pub n: u8,
}

/// Whether the engine still has cycles to run on.
#[derive(Clone, Copy, Debug, PartialEq, Eq, Structural)]
pub enum EngineState {
    Running,
    Halted,
}

/// The negative flag for a value: whether its bit 7 is set.
pub open spec fn spec_negative(value: u8) -> bool {
    check_7_bit(value)
}

/// The negative flag for a value: whether its bit 7 is set.
#[verifier::when_used_as_spec(spec_negative)]
pub fn negative(value: u8) -> (set: bool)
    ensures
        set == spec_negative(value),
        set == (value >= 0x80),
{
    check_7_bit(value)
}

/// The zero flag for a value: whether it is 0.
pub open spec fn spec_zero(value: u8) -> bool {
    value == 0
}

/// The zero flag for a value: whether it is 0.
#[verifier::when_used_as_spec(spec_zero)]
pub fn zero(value: u8) -> (set: bool)
    ensures
        set == spec_zero(value),
{
    value == 0
}

/// A flag as the processor stores it.
pub open spec fn flag(set: bool) -> u8 {
    if set {
        1
    } else {
        0
    }
}

impl CPU {
    /// The register that a register code names: [`A`], [`X`] or [`Y`].
    pub open spec fn register(&self, register: u8) -> u8 {
        if register == A {
            self.a
        } else if register == X {
            self.x
        } else {
            self.y
        }
    }

    /// Where a run starts or has stopped: halted once the cycle budget is 0.
    pub open spec fn spec_state(&self) -> EngineState {
        if self.memory.data_cycle_count == 0 {
            EngineState::Halted
        } else {
            EngineState::Running
        }
    }

    /// A processor at address 0 with zeroed registers, flags and memory.
    pub fn new() -> (cpu: Self)
        ensures
            cpu.pc == 0,
            cpu.sp == 0,
            cpu.a == 0 && cpu.x == 0 && cpu.y == 0,
            cpu.c == 0 && cpu.z == 0 && cpu.i == 0 && cpu.d == 0 && cpu.b == 0 && cpu.v == 0
                && cpu.n == 0,
            cpu.memory@ == MemoryView::fresh(),
    {
        let mut cpu = CPU {
            pc: 0x0,
            sp: 0x0,
            memory: Memory::new(),
            c: 0,
            z: 0,
            i: 0,
            d: 0,
            b: 0,
            v: 0,
            n: 0,
            x: 0,
            a: 0,
            y: 0,
        };
        cpu.memory.init();
        cpu
    }

    /// Runs the program in memory from the program counter on, until the cycle
    /// budget is used up or an instruction faults. See [`run_memory`].
    pub fn execute_memory(&mut self) -> (result: Result<(), ExecError>)
        ensures
            (*final(self), result) == run_spec(*old(self)),
    {
        run_memory(self)
    }

    /// Sets the negative flag from the register that `register` names, and leaves
    /// the processor alone where `register` names none.
    pub fn check_n_flag(&mut self, register: u8)
        ensures
            *final(self) == if register <= Y {
                CPU { n: flag(negative(old(self).register(register))), ..*old(self) }
            } else {
                *old(self)
            },
    {
        if register <= Y {
            let value = if register == A {
                self.a
            } else if register == X {
                self.x
            } else {
                self.y
            };
            if negative(value) {
                self.n = 1;
            } else {
                self.n = 0;
            }
        }
    }

    /// Sets the zero flag from the register that `register` names, and leaves the
    /// processor alone where `register` names none.
    pub fn check_z_flag(&mut self, register: u8)
        ensures
            *final(self) == if register <= Y {
                CPU { z: flag(zero(old(self).register(register))), ..*old(self) }
            } else {
                *old(self)
            },
    {
        if register <= Y {
            let value = if register == A {
                self.a
            } else if register == X {
                self.x
            } else {
                self.y
            };
            if zero(value) {
                self.z = 1;
            } else {
                self.z = 0;
            }
        }
    }

    /// Whether the engine is running or has halted.
    #[verifier::when_used_as_spec(spec_state)]
    pub fn state(&self) -> (state: EngineState)
        ensures
            state == self.spec_state(),
    {
        if self.memory.data_cycle_count == 0 {
            EngineState::Halted
        } else {
            EngineState::Running
        }
    }
}

} // verus!
