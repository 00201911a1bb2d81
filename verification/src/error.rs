//! What can go wrong while assembling and while running.

use vstd::prelude::*;

verus! {

/// Why a line of source text could not be assembled.
#[derive(Debug, PartialEq, Eq)]
pub enum AsmError {
    /// An unknown mnemonic or a malformed operand; holds the text that was not
    /// understood.
    SyntaxError(String),
    /// The operand begins with neither `#` nor `$`.
    UnsupportedOperandSyntax,
    /// The mnemonic is known but has no form with this kind of operand.
    UnsupportedAddressingMode,
    /// The instruction would not end below the top of the 64 KB address space.
    OutOfRange,
    /// The cycle counter of the memory image cannot hold the instruction's cost.
    CycleOverflow,
}

/// The mathematical value of an [`AsmError`].
pub enum AsmErrorView {
    SyntaxError(Seq<char>),
    UnsupportedOperandSyntax,
    UnsupportedAddressingMode,
    OutOfRange,
    CycleOverflow,
}

impl View for AsmError {
    type V = AsmErrorView;

    open spec fn view(&self) -> AsmErrorView {
        match self {
            AsmError::SyntaxError(text) => AsmErrorView::SyntaxError(text@),
            AsmError::UnsupportedOperandSyntax => AsmErrorView::UnsupportedOperandSyntax,
            AsmError::UnsupportedAddressingMode => AsmErrorView::UnsupportedAddressingMode,
            AsmError::OutOfRange => AsmErrorView::OutOfRange,
            AsmError::CycleOverflow => AsmErrorView::CycleOverflow,
        }
    }
}

impl AsmError {
    /// A syntax error about `text`.
    pub fn syntax(text: &str) -> (e: AsmError)
        ensures
            e@ == AsmErrorView::SyntaxError(text@),
    {
        AsmError::SyntaxError(String::from_str(text))
    }
}

/// A result of the assembler with its error taken by its view.
pub open spec fn outcome<T>(r: Result<T, AsmError>) -> Result<T, AsmErrorView> {
    match r {
        Ok(v) => Ok(v),
        Err(e) => Err(e@),
    }
}

/// Why the engine stopped before its cycle budget was used up.
#[derive(Clone, Copy, Debug, PartialEq, Eq, Structural)]
pub enum ExecError {
    /// The byte at the program counter is not the opcode of an instruction that
    /// the engine executes; holds the byte.
    IllegalOpcode(u8),
    /// The instruction would not end below the top of the 64 KB address space.
    OutOfRange,
    /// The cycle budget left is smaller than the instruction's cost.
    BudgetExhausted,
}

} // verus!
