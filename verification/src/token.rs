//! Instruction variants and the constant tables around them: opcode bytes, cycle
//! costs, mnemonics, and the variant that a mnemonic takes in each addressing mode.

use vstd::prelude::*;

verus! {

/// How an instruction finds its operand.
#[derive(Clone, Copy, Debug, PartialEq, Eq, Hash, Structural)]
pub enum AddressingMode {
    /// No operand bytes; the instruction works on a register or on nothing.
    Implied,
    /// One operand byte, the value itself.
    Immediate,
    /// One operand byte, an address in the first 256 bytes.
    ZeroPage,
    /// Two operand bytes, a 16-bit address, low byte first.
    Absolute,
}

impl AddressingMode {
    pub open spec fn spec_operand_len(self) -> u8 {
        match self {
            AddressingMode::Implied => 0,
            AddressingMode::Immediate => 1,
            AddressingMode::ZeroPage => 1,
            AddressingMode::Absolute => 2,
        }
    }

    /// Number of bytes that follow the opcode byte.
    #[verifier::when_used_as_spec(spec_operand_len)]
    pub fn operand_len(self) -> (n: u8)
        ensures
            n == self.spec_operand_len(),
    {
        match self {
            AddressingMode::Implied => 0,
            AddressingMode::Immediate => 1,
            AddressingMode::ZeroPage => 1,
            AddressingMode::Absolute => 2,
        }
    }
}

/// An instruction variant: one mnemonic in one addressing mode.
///
/// The variants written in capitals are also what a mnemonic of the source text
/// stands for before its operand has been looked at; `LDA`, for one, is the
/// immediate load and `STA` the zero-page store. The others carry the addressing
/// mode in their name: `ZP` for zero page, `AP` for absolute, `ID` for indirect.
#[derive(Clone, Copy, Debug, PartialEq, Eq, Hash, Structural)]
pub enum Token {
    LDA,
    LdaZP,
    LdaAP,
    LDX,
    LdxZP,
    LdxAP,
    LDY,
    LdyZP,
    LdyAP,
    ADC,
    AdcZP,
    AdcAP,
    STA,
    StaAP,
    STX,
    StxAP,
    STY,
    StyAP,
    JMP,
    JmpID,
    JSR,
    AND,
    AndZP,
    AndAP,
    ASL,
    AslZP,
    AslAP,
    BCC,
    BCS,
    BEQ,
    BIT,
    BitAP,
    BMI,
    BNE,
    BPL,
    BRK,
    BVC,
    BVS,
    CLC,
    CLD,
    CLI,
    CLV,
    CMP,
    CmpZP,
    CmpAP,
    CPX,
    CpxZP,
    CpxAP,
    CPY,
    CpyZP,
    CpyAP,
    DEC,
    DecAP,
    DEX,
    DEY,
    EOR,
    EorZP,
    EorAP,
    INC,
    IncAP,
    INX,
    INY,
    LSR,
    LsrZP,
    LsrAP,
    NOP,
    ORA,
    OraZP,
    OraAP,
    PHA,
    PHP,
    PLA,
    PLP,
    ROL,
    RolZP,
    RolAP,
    ROR,
    RorZP,
    RorAP,
    RTI,
    RTS,
    SBC,
    SbcZP,
    SbcAP,
    SEC,
    SED,
    SEI,
    TAX,
    TAY,
    TSX,
    TXA,
    TXS,
    TYA,
}

impl Token {
    pub open spec fn spec_opcode(self) -> u8 {
        match self {
            Token::LDA => 0x89,
            Token::LdaZP => 0xA5,
            Token::LdaAP => 0xAD,
            Token::LDX => 0xA2,
            Token::LdxZP => 0xA6,
            Token::LdxAP => 0xAE,
            Token::LDY => 0xA0,
            Token::LdyZP => 0xA4,
            Token::LdyAP => 0xAC,
            Token::ADC => 0x69,
            Token::AdcZP => 0x65,
            Token::AdcAP => 0x6D,
            Token::STA => 0x95,
            Token::StaAP => 0x8D,
            Token::STX => 0x86,
            Token::StxAP => 0x96,
            Token::STY => 0x84,
            Token::StyAP => 0x94,
            Token::JMP => 0x4C,
            Token::JmpID => 0x6C,
            Token::JSR => 0x20,
            Token::AND => 0x29,
            Token::AndZP => 0x25,
            Token::AndAP => 0x2D,
            Token::ASL => 0x0A,
            Token::AslZP => 0x06,
            Token::AslAP => 0x0E,
            Token::BCC => 0x90,
            Token::BCS => 0xB0,
            Token::BEQ => 0xF0,
            Token::BIT => 0x24,
            Token::BitAP => 0x2C,
            Token::BMI => 0x30,
            Token::BNE => 0xD0,
            Token::BPL => 0x10,
            Token::BRK => 0x00,
            Token::BVC => 0x50,
            Token::BVS => 0x70,
            Token::CLC => 0x18,
            Token::CLD => 0xD8,
            Token::CLI => 0x58,
            Token::CLV => 0xB8,
            Token::CMP => 0xC9,
            Token::CmpZP => 0xC5,
            Token::CmpAP => 0xCD,
            Token::CPX => 0xE0,
            Token::CpxZP => 0xE4,
            Token::CpxAP => 0xEC,
            Token::CPY => 0xC0,
            Token::CpyZP => 0xC4,
            Token::CpyAP => 0xCC,
            Token::DEC => 0xC6,
            Token::DecAP => 0xCE,
            Token::DEX => 0xCA,
            Token::DEY => 0x88,
            Token::EOR => 0x49,
            Token::EorZP => 0x45,
            Token::EorAP => 0x4D,
            Token::INC => 0xE6,
            Token::IncAP => 0xEE,
            Token::INX => 0xE8,
            Token::INY => 0xC8,
            Token::LSR => 0x4A,
            Token::LsrZP => 0x46,
            Token::LsrAP => 0x4E,
            Token::NOP => 0xEA,
            Token::ORA => 0x09,
            Token::OraZP => 0x05,
            Token::OraAP => 0x0D,
            Token::PHA => 0x48,
            Token::PHP => 0x08,
            Token::PLA => 0x68,
            Token::PLP => 0x28,
            Token::ROL => 0x2A,
            Token::RolZP => 0x26,
            Token::RolAP => 0x2E,
            Token::ROR => 0x6A,
            Token::RorZP => 0x66,
            Token::RorAP => 0x6E,
            Token::RTI => 0x40,
            Token::RTS => 0x60,
            Token::SBC => 0xE9,
            Token::SbcZP => 0xE5,
            Token::SbcAP => 0xED,
            Token::SEC => 0x38,
            Token::SED => 0xF8,
            Token::SEI => 0x78,
            Token::TAX => 0xAA,
            Token::TAY => 0xA8,
            Token::TSX => 0xBA,
            Token::TXA => 0x8A,
            Token::TXS => 0x9A,
            Token::TYA => 0x98,
        }
    }

    /// The byte that stands for this variant in memory.
    #[verifier::when_used_as_spec(spec_opcode)]
    pub fn opcode(self) -> (byte: u8)
        ensures
            byte == self.spec_opcode(),
    {
        match self {
            Token::LDA => 0x89,
            Token::LdaZP => 0xA5,
            Token::LdaAP => 0xAD,
            Token::LDX => 0xA2,
            Token::LdxZP => 0xA6,
            Token::LdxAP => 0xAE,
            Token::LDY => 0xA0,
            Token::LdyZP => 0xA4,
            Token::LdyAP => 0xAC,
            Token::ADC => 0x69,
            Token::AdcZP => 0x65,
            Token::AdcAP => 0x6D,
            Token::STA => 0x95,
            Token::StaAP => 0x8D,
            Token::STX => 0x86,
            Token::StxAP => 0x96,
            Token::STY => 0x84,
            Token::StyAP => 0x94,
            Token::JMP => 0x4C,
            Token::JmpID => 0x6C,
            Token::JSR => 0x20,
            Token::AND => 0x29,
            Token::AndZP => 0x25,
            Token::AndAP => 0x2D,
            Token::ASL => 0x0A,
            Token::AslZP => 0x06,
            Token::AslAP => 0x0E,
            Token::BCC => 0x90,
            Token::BCS => 0xB0,
            Token::BEQ => 0xF0,
            Token::BIT => 0x24,
            Token::BitAP => 0x2C,
            Token::BMI => 0x30,
            Token::BNE => 0xD0,
            Token::BPL => 0x10,
            Token::BRK => 0x00,
            Token::BVC => 0x50,
            Token::BVS => 0x70,
            Token::CLC => 0x18,
            Token::CLD => 0xD8,
            Token::CLI => 0x58,
            Token::CLV => 0xB8,
            Token::CMP => 0xC9,
            Token::CmpZP => 0xC5,
            Token::CmpAP => 0xCD,
            Token::CPX => 0xE0,
            Token::CpxZP => 0xE4,
            Token::CpxAP => 0xEC,
            Token::CPY => 0xC0,
            Token::CpyZP => 0xC4,
            Token::CpyAP => 0xCC,
            Token::DEC => 0xC6,
            Token::DecAP => 0xCE,
            Token::DEX => 0xCA,
            Token::DEY => 0x88,
            Token::EOR => 0x49,
            Token::EorZP => 0x45,
            Token::EorAP => 0x4D,
            Token::INC => 0xE6,
            Token::IncAP => 0xEE,
            Token::INX => 0xE8,
            Token::INY => 0xC8,
            Token::LSR => 0x4A,
            Token::LsrZP => 0x46,
            Token::LsrAP => 0x4E,
            Token::NOP => 0xEA,
            Token::ORA => 0x09,
            Token::OraZP => 0x05,
            Token::OraAP => 0x0D,
            Token::PHA => 0x48,
            Token::PHP => 0x08,
            Token::PLA => 0x68,
            Token::PLP => 0x28,
            Token::ROL => 0x2A,
            Token::RolZP => 0x26,
            Token::RolAP => 0x2E,
            Token::ROR => 0x6A,
            Token::RorZP => 0x66,
            Token::RorAP => 0x6E,
            Token::RTI => 0x40,
            Token::RTS => 0x60,
            Token::SBC => 0xE9,
            Token::SbcZP => 0xE5,
            Token::SbcAP => 0xED,
            Token::SEC => 0x38,
            Token::SED => 0xF8,
            Token::SEI => 0x78,
            Token::TAX => 0xAA,
            Token::TAY => 0xA8,
            Token::TSX => 0xBA,
            Token::TXA => 0x8A,
            Token::TXS => 0x9A,
            Token::TYA => 0x98,
        }
    }

    pub open spec fn spec_cycles(self) -> u8 {
        match self {
            Token::LDA => 2,
            Token::LdaZP => 3,
            Token::LdaAP => 4,
            Token::LDX => 2,
            Token::LdxZP => 3,
            Token::LdxAP => 4,
            Token::LDY => 2,
            Token::LdyZP => 3,
            Token::LdyAP => 4,
            Token::ADC => 2,
            Token::AdcZP => 3,
            Token::AdcAP => 4,
            Token::STA => 3,
            Token::StaAP => 4,
            Token::STX => 3,
            Token::StxAP => 4,
            Token::STY => 3,
            Token::StyAP => 4,
            Token::JMP => 3,
            Token::JmpID => 5,
            Token::JSR => 6,
            Token::AND => 2,
            Token::AndZP => 3,
            Token::AndAP => 4,
            Token::ASL => 2,
            Token::AslZP => 5,
            Token::AslAP => 6,
            Token::BCC => 2,
            Token::BCS => 2,
            Token::BEQ => 2,
            Token::BIT => 3,
            Token::BitAP => 4,
            Token::BMI => 2,
            Token::BNE => 2,
            Token::BPL => 2,
            Token::BRK => 7,
            Token::BVC => 2,
            Token::BVS => 2,
            Token::CLC => 2,
            Token::CLD => 2,
            Token::CLI => 2,
            Token::CLV => 2,
            Token::CMP => 2,
            Token::CmpZP => 3,
            Token::CmpAP => 4,
            Token::CPX => 2,
            Token::CpxZP => 3,
            Token::CpxAP => 4,
            Token::CPY => 2,
            Token::CpyZP => 3,
            Token::CpyAP => 4,
            Token::DEC => 5,
            Token::DecAP => 6,
            Token::DEX => 2,
            Token::DEY => 2,
            Token::EOR => 2,
            Token::EorZP => 3,
            Token::EorAP => 4,
            Token::INC => 5,
            Token::IncAP => 6,
            Token::INX => 2,
            Token::INY => 2,
            Token::LSR => 2,
            Token::LsrZP => 5,
            Token::LsrAP => 6,
            Token::NOP => 2,
            Token::ORA => 2,
            Token::OraZP => 3,
            Token::OraAP => 4,
            Token::PHA => 3,
            Token::PHP => 3,
            Token::PLA => 4,
            Token::PLP => 4,
            Token::ROL => 2,
            Token::RolZP => 5,
            Token::RolAP => 6,
            Token::ROR => 2,
            Token::RorZP => 5,
            Token::RorAP => 6,
            Token::RTI => 6,
            Token::RTS => 6,
            Token::SBC => 2,
            Token::SbcZP => 3,
            Token::SbcAP => 4,
            Token::SEC => 2,
            Token::SED => 2,
            Token::SEI => 2,
            Token::TAX => 2,
            Token::TAY => 2,
            Token::TSX => 2,
            Token::TXA => 2,
            Token::TXS => 2,
            Token::TYA => 2,
        }
    }

    /// Clock cycles that this variant costs, between 1 and 7.
    #[verifier::when_used_as_spec(spec_cycles)]
    pub fn cycles(self) -> (cost: u8)
        ensures
            cost == self.spec_cycles(),
            1 <= cost <= 7,
    {
        match self {
            Token::LDA => 2,
            Token::LdaZP => 3,
            Token::LdaAP => 4,
            Token::LDX => 2,
            Token::LdxZP => 3,
            Token::LdxAP => 4,
            Token::LDY => 2,
            Token::LdyZP => 3,
            Token::LdyAP => 4,
            Token::ADC => 2,
            Token::AdcZP => 3,
            Token::AdcAP => 4,
            Token::STA => 3,
            Token::StaAP => 4,
            Token::STX => 3,
            Token::StxAP => 4,
            Token::STY => 3,
            Token::StyAP => 4,
            Token::JMP => 3,
            Token::JmpID => 5,
            Token::JSR => 6,
            Token::AND => 2,
            Token::AndZP => 3,
            Token::AndAP => 4,
            Token::ASL => 2,
            Token::AslZP => 5,
            Token::AslAP => 6,
            Token::BCC => 2,
            Token::BCS => 2,
            Token::BEQ => 2,
            Token::BIT => 3,
            Token::BitAP => 4,
            Token::BMI => 2,
            Token::BNE => 2,
            Token::BPL => 2,
            Token::BRK => 7,
            Token::BVC => 2,
            Token::BVS => 2,
            Token::CLC => 2,
            Token::CLD => 2,
            Token::CLI => 2,
            Token::CLV => 2,
            Token::CMP => 2,
            Token::CmpZP => 3,
            Token::CmpAP => 4,
            Token::CPX => 2,
            Token::CpxZP => 3,
            Token::CpxAP => 4,
            Token::CPY => 2,
            Token::CpyZP => 3,
            Token::CpyAP => 4,
            Token::DEC => 5,
            Token::DecAP => 6,
            Token::DEX => 2,
            Token::DEY => 2,
            Token::EOR => 2,
            Token::EorZP => 3,
            Token::EorAP => 4,
            Token::INC => 5,
            Token::IncAP => 6,
            Token::INX => 2,
            Token::INY => 2,
            Token::LSR => 2,
            Token::LsrZP => 5,
            Token::LsrAP => 6,
            Token::NOP => 2,
            Token::ORA => 2,
            Token::OraZP => 3,
            Token::OraAP => 4,
            Token::PHA => 3,
            Token::PHP => 3,
            Token::PLA => 4,
            Token::PLP => 4,
            Token::ROL => 2,
            Token::RolZP => 5,
            Token::RolAP => 6,
            Token::ROR => 2,
            Token::RorZP => 5,
            Token::RorAP => 6,
            Token::RTI => 6,
            Token::RTS => 6,
            Token::SBC => 2,
            Token::SbcZP => 3,
            Token::SbcAP => 4,
            Token::SEC => 2,
            Token::SED => 2,
            Token::SEI => 2,
            Token::TAX => 2,
            Token::TAY => 2,
            Token::TSX => 2,
            Token::TXA => 2,
            Token::TXS => 2,
            Token::TYA => 2,
        }
    }

    /// The variant whose opcode is `byte`, if there is one.
    pub open spec fn spec_from_opcode(byte: u8) -> Option<Token> {
        if exists|t: Token| t.spec_opcode() == byte {
            Some(choose|t: Token| t.spec_opcode() == byte)
        } else {
            None
        }
    }

    /// Decodes an opcode byte: the reverse of [`Token::opcode`].
    #[verifier::when_used_as_spec(spec_from_opcode)]
    pub fn from_opcode(byte: u8) -> (token: Option<Token>)
        ensures
            token == Token::spec_from_opcode(byte),
            token matches Some(t) ==> t.spec_opcode() == byte,
            token is None ==> forall|t: Token| t.spec_opcode() != byte,
    {
        let token = match byte {
            0x00 => Some(Token::BRK),
            0x05 => Some(Token::OraZP),
            0x06 => Some(Token::AslZP),
            0x08 => Some(Token::PHP),
            0x09 => Some(Token::ORA),
            0x0A => Some(Token::ASL),
            0x0D => Some(Token::OraAP),
            0x0E => Some(Token::AslAP),
            0x10 => Some(Token::BPL),
            0x18 => Some(Token::CLC),
            0x20 => Some(Token::JSR),
            0x24 => Some(Token::BIT),
            0x25 => Some(Token::AndZP),
            0x26 => Some(Token::RolZP),
            0x28 => Some(Token::PLP),
            0x29 => Some(Token::AND),
            0x2A => Some(Token::ROL),
            0x2C => Some(Token::BitAP),
            0x2D => Some(Token::AndAP),
            0x2E => Some(Token::RolAP),
            0x30 => Some(Token::BMI),
            0x38 => Some(Token::SEC),
            0x40 => Some(Token::RTI),
            0x45 => Some(Token::EorZP),
            0x46 => Some(Token::LsrZP),
            0x48 => Some(Token::PHA),
            0x49 => Some(Token::EOR),
            0x4A => Some(Token::LSR),
            0x4C => Some(Token::JMP),
            0x4D => Some(Token::EorAP),
            0x4E => Some(Token::LsrAP),
            0x50 => Some(Token::BVC),
            0x58 => Some(Token::CLI),
            0x60 => Some(Token::RTS),
            0x65 => Some(Token::AdcZP),
            0x66 => Some(Token::RorZP),
            0x68 => Some(Token::PLA),
            0x69 => Some(Token::ADC),
            0x6A => Some(Token::ROR),
            0x6C => Some(Token::JmpID),
            0x6D => Some(Token::AdcAP),
            0x6E => Some(Token::RorAP),
            0x70 => Some(Token::BVS),
            0x78 => Some(Token::SEI),
            0x84 => Some(Token::STY),
            0x86 => Some(Token::STX),
            0x88 => Some(Token::DEY),
            0x89 => Some(Token::LDA),
            0x8A => Some(Token::TXA),
            0x8D => Some(Token::StaAP),
            0x90 => Some(Token::BCC),
            0x94 => Some(Token::StyAP),
            0x95 => Some(Token::STA),
            0x96 => Some(Token::StxAP),
            0x98 => Some(Token::TYA),
            0x9A => Some(Token::TXS),
            0xA0 => Some(Token::LDY),
            0xA2 => Some(Token::LDX),
            0xA4 => Some(Token::LdyZP),
            0xA5 => Some(Token::LdaZP),
            0xA6 => Some(Token::LdxZP),
            0xA8 => Some(Token::TAY),
            0xAA => Some(Token::TAX),
            0xAC => Some(Token::LdyAP),
            0xAD => Some(Token::LdaAP),
            0xAE => Some(Token::LdxAP),
            0xB0 => Some(Token::BCS),
            0xB8 => Some(Token::CLV),
            0xBA => Some(Token::TSX),
            0xC0 => Some(Token::CPY),
            0xC4 => Some(Token::CpyZP),
            0xC5 => Some(Token::CmpZP),
            0xC6 => Some(Token::DEC),
            0xC8 => Some(Token::INY),
            0xC9 => Some(Token::CMP),
            0xCA => Some(Token::DEX),
            0xCC => Some(Token::CpyAP),
            0xCD => Some(Token::CmpAP),
            0xCE => Some(Token::DecAP),
            0xD0 => Some(Token::BNE),
            0xD8 => Some(Token::CLD),
            0xE0 => Some(Token::CPX),
            0xE4 => Some(Token::CpxZP),
            0xE5 => Some(Token::SbcZP),
            0xE6 => Some(Token::INC),
            0xE8 => Some(Token::INX),
            0xE9 => Some(Token::SBC),
            0xEA => Some(Token::NOP),
            0xEC => Some(Token::CpxAP),
            0xED => Some(Token::SbcAP),
            0xEE => Some(Token::IncAP),
            0xF0 => Some(Token::BEQ),
            0xF8 => Some(Token::SED),
            _ => None,
        };
        proof {
            match token {
                Some(t) => {
                    assert(t.spec_opcode() == byte);
                    lemma_opcode_injective(t, choose|u: Token| u.spec_opcode() == byte);
                },
                None => {
                    assert forall|t: Token| t.spec_opcode() != byte by {
                        lemma_opcode_listed(t);
                    }
                },
            }
        }
        token
    }

    /// The variant that the mnemonic `self` takes in `mode`; `None` where the
    /// mnemonic has no such form.
    pub open spec fn spec_variant(self, mode: AddressingMode) -> Option<Token> {
        match mode {
            AddressingMode::Implied => match self {
                Token::ASL | Token::BCC | Token::BCS | Token::BEQ | Token::BMI | Token::BNE
            | Token::BPL | Token::BRK | Token::BVC | Token::BVS | Token::CLC | Token::CLD
            | Token::CLI | Token::CLV | Token::DEX | Token::DEY | Token::INX | Token::INY
            | Token::LSR | Token::NOP | Token::PHA | Token::PHP | Token::PLA | Token::PLP
            | Token::ROL | Token::ROR | Token::RTI | Token::RTS | Token::SEC | Token::SED
            | Token::SEI | Token::TAX | Token::TAY | Token::TSX | Token::TXA | Token::TXS
            | Token::TYA => Some(self),
                _ => None,
            },
            AddressingMode::Immediate => match self {
                Token::LDA | Token::LDX | Token::LDY | Token::ADC | Token::AND | Token::CMP
            | Token::CPX | Token::CPY | Token::EOR | Token::ORA | Token::ROL | Token::ROR
            | Token::SBC => Some(self),
                _ => None,
            },
            AddressingMode::ZeroPage => match self {
                Token::LDA => Some(Token::LdaZP),
                Token::LDX => Some(Token::LdxZP),
                Token::LDY => Some(Token::LdyZP),
                Token::ADC => Some(Token::AdcZP),
                Token::STA => Some(Token::STA),
                Token::STX => Some(Token::STX),
                Token::STY => Some(Token::STY),
                Token::AND => Some(Token::AndZP),
                Token::ASL => Some(Token::AslZP),
                Token::BIT => Some(Token::BIT),
                Token::CMP => Some(Token::CmpZP),
                Token::CPX => Some(Token::CpxZP),
                Token::CPY => Some(Token::CpyZP),
                Token::DEC => Some(Token::DEC),
                Token::EOR => Some(Token::EorZP),
                Token::INC => Some(Token::INC),
                Token::LSR => Some(Token::LsrZP),
                Token::ORA => Some(Token::OraZP),
                Token::ROL => Some(Token::RolZP),
                Token::ROR => Some(Token::RorZP),
                Token::SBC => Some(Token::SbcZP),
                _ => None,
            },
            AddressingMode::Absolute => match self {
                Token::LDA => Some(Token::LdaAP),
                Token::LDX => Some(Token::LdxAP),
                Token::LDY => Some(Token::LdyAP),
                Token::ADC => Some(Token::AdcAP),
                Token::STA => Some(Token::StaAP),
                Token::STX => Some(Token::StxAP),
                Token::STY => Some(Token::StyAP),
                Token::JMP => Some(Token::JMP),
                Token::JSR => Some(Token::JSR),
                Token::AND => Some(Token::AndAP),
                Token::ASL => Some(Token::AslAP),
                Token::BIT => Some(Token::BitAP),
                Token::CMP => Some(Token::CmpAP),
                Token::CPX => Some(Token::CpxAP),
                Token::CPY => Some(Token::CpyAP),
                Token::DEC => Some(Token::DecAP),
                Token::EOR => Some(Token::EorAP),
                Token::INC => Some(Token::IncAP),
                Token::LSR => Some(Token::LsrAP),
                Token::ORA => Some(Token::OraAP),
                Token::ROL => Some(Token::RolAP),
                Token::ROR => Some(Token::RorAP),
                Token::SBC => Some(Token::SbcAP),
                _ => None,
            },
        }
    }

    /// Looks up the row of the opcode table for a mnemonic and an addressing mode.
    #[verifier::when_used_as_spec(spec_variant)]
    pub fn variant(self, mode: AddressingMode) -> (token: Option<Token>)
        ensures
            token == self.spec_variant(mode),
    {
        match mode {
            AddressingMode::Implied => match self {
                Token::ASL | Token::BCC | Token::BCS | Token::BEQ | Token::BMI | Token::BNE
            | Token::BPL | Token::BRK | Token::BVC | Token::BVS | Token::CLC | Token::CLD
            | Token::CLI | Token::CLV | Token::DEX | Token::DEY | Token::INX | Token::INY
            | Token::LSR | Token::NOP | Token::PHA | Token::PHP | Token::PLA | Token::PLP
            | Token::ROL | Token::ROR | Token::RTI | Token::RTS | Token::SEC | Token::SED
            | Token::SEI | Token::TAX | Token::TAY | Token::TSX | Token::TXA | Token::TXS
            | Token::TYA => Some(self),
                _ => None,
            },
            AddressingMode::Immediate => match self {
                Token::LDA | Token::LDX | Token::LDY | Token::ADC | Token::AND | Token::CMP
            | Token::CPX | Token::CPY | Token::EOR | Token::ORA | Token::ROL | Token::ROR
            | Token::SBC => Some(self),
                _ => None,
            },
            AddressingMode::ZeroPage => match self {
                Token::LDA => Some(Token::LdaZP),
                Token::LDX => Some(Token::LdxZP),
                Token::LDY => Some(Token::LdyZP),
                Token::ADC => Some(Token::AdcZP),
                Token::STA => Some(Token::STA),
                Token::STX => Some(Token::STX),
                Token::STY => Some(Token::STY),
                Token::AND => Some(Token::AndZP),
                Token::ASL => Some(Token::AslZP),
                Token::BIT => Some(Token::BIT),
                Token::CMP => Some(Token::CmpZP),
                Token::CPX => Some(Token::CpxZP),
                Token::CPY => Some(Token::CpyZP),
                Token::DEC => Some(Token::DEC),
                Token::EOR => Some(Token::EorZP),
                Token::INC => Some(Token::INC),
                Token::LSR => Some(Token::LsrZP),
                Token::ORA => Some(Token::OraZP),
                Token::ROL => Some(Token::RolZP),
                Token::ROR => Some(Token::RorZP),
                Token::SBC => Some(Token::SbcZP),
                _ => None,
            },
            AddressingMode::Absolute => match self {
                Token::LDA => Some(Token::LdaAP),
                Token::LDX => Some(Token::LdxAP),
                Token::LDY => Some(Token::LdyAP),
                Token::ADC => Some(Token::AdcAP),
                Token::STA => Some(Token::StaAP),
                Token::STX => Some(Token::StxAP),
                Token::STY => Some(Token::StyAP),
                Token::JMP => Some(Token::JMP),
                Token::JSR => Some(Token::JSR),
                Token::AND => Some(Token::AndAP),
                Token::ASL => Some(Token::AslAP),
                Token::BIT => Some(Token::BitAP),
                Token::CMP => Some(Token::CmpAP),
                Token::CPX => Some(Token::CpxAP),
                Token::CPY => Some(Token::CpyAP),
                Token::DEC => Some(Token::DecAP),
                Token::EOR => Some(Token::EorAP),
                Token::INC => Some(Token::IncAP),
                Token::LSR => Some(Token::LsrAP),
                Token::ORA => Some(Token::OraAP),
                Token::ROL => Some(Token::RolAP),
                Token::ROR => Some(Token::RorAP),
                Token::SBC => Some(Token::SbcAP),
                _ => None,
            },
        }
    }

    /// The instruction that a mnemonic of the source text names. The match is
    /// exact: three letters, upper case.
    pub open spec fn spec_from_mnemonic(name: Seq<char>) -> Option<Token> {
        if name.len() == 3 {
            mnemonic_letters(name[0], name[1], name[2])
        } else {
            None
        }
    }

    /// Looks a mnemonic up in the mnemonic table.
    pub fn from_mnemonic(name: &str) -> (token: Option<Token>)
        ensures
            token == Token::spec_from_mnemonic(name@),
    {
        if name.unicode_len() != 3 {
            return None;
        }
        match (name.get_char(0), name.get_char(1), name.get_char(2)) {
        ('L', 'D', 'A') => Some(Token::LDA),
        ('L', 'D', 'X') => Some(Token::LDX),
        ('L', 'D', 'Y') => Some(Token::LDY),
        ('A', 'D', 'C') => Some(Token::ADC),
        ('S', 'T', 'A') => Some(Token::STA),
        ('S', 'T', 'X') => Some(Token::STX),
        ('S', 'T', 'Y') => Some(Token::STY),
        ('J', 'M', 'P') => Some(Token::JMP),
        ('J', 'S', 'R') => Some(Token::JSR),
        ('A', 'N', 'D') => Some(Token::AND),
        ('A', 'S', 'L') => Some(Token::ASL),
        ('B', 'C', 'C') => Some(Token::BCC),
        ('B', 'C', 'S') => Some(Token::BCS),
        ('B', 'E', 'Q') => Some(Token::BEQ),
        ('B', 'I', 'T') => Some(Token::BIT),
        ('B', 'M', 'I') => Some(Token::BMI),
        ('B', 'N', 'E') => Some(Token::BNE),
        ('B', 'P', 'L') => Some(Token::BPL),
        ('B', 'R', 'K') => Some(Token::BRK),
        ('B', 'V', 'C') => Some(Token::BVC),
        ('B', 'V', 'S') => Some(Token::BVS),
        ('C', 'L', 'C') => Some(Token::CLC),
        ('C', 'L', 'D') => Some(Token::CLD),
        ('C', 'L', 'I') => Some(Token::CLI),
        ('C', 'L', 'V') => Some(Token::CLV),
        ('C', 'M', 'P') => Some(Token::CMP),
        ('C', 'P', 'X') => Some(Token::CPX),
        ('C', 'P', 'Y') => Some(Token::CPY),
        ('D', 'E', 'C') => Some(Token::DEC),
        ('D', 'E', 'X') => Some(Token::DEX),
        ('D', 'E', 'Y') => Some(Token::DEY),
        ('E', 'O', 'R') => Some(Token::EOR),
        ('I', 'N', 'C') => Some(Token::INC),
        ('I', 'N', 'X') => Some(Token::INX),
        ('I', 'N', 'Y') => Some(Token::INY),
        ('L', 'S', 'R') => Some(Token::LSR),
        ('N', 'O', 'P') => Some(Token::NOP),
        ('O', 'R', 'A') => Some(Token::ORA),
        ('P', 'H', 'A') => Some(Token::PHA),
        ('P', 'H', 'P') => Some(Token::PHP),
        ('P', 'L', 'A') => Some(Token::PLA),
        ('P', 'L', 'P') => Some(Token::PLP),
        ('R', 'O', 'L') => Some(Token::ROL),
        ('R', 'O', 'R') => Some(Token::ROR),
        ('R', 'T', 'I') => Some(Token::RTI),
        ('R', 'T', 'S') => Some(Token::RTS),
        ('S', 'B', 'C') => Some(Token::SBC),
        ('S', 'E', 'C') => Some(Token::SEC),
        ('S', 'E', 'D') => Some(Token::SED),
        ('S', 'E', 'I') => Some(Token::SEI),
        ('T', 'A', 'X') => Some(Token::TAX),
        ('T', 'A', 'Y') => Some(Token::TAY),
        ('T', 'S', 'X') => Some(Token::TSX),
        ('T', 'X', 'A') => Some(Token::TXA),
        ('T', 'X', 'S') => Some(Token::TXS),
        ('T', 'Y', 'A') => Some(Token::TYA),
            _ => None,
        }
    }
}

/// The mnemonic table, letter by letter.
pub open spec fn mnemonic_letters(a: char, b: char, c: char) -> Option<Token> {
    match (a, b, c) {
        ('L', 'D', 'A') => Some(Token::LDA),
        ('L', 'D', 'X') => Some(Token::LDX),
        ('L', 'D', 'Y') => Some(Token::LDY),
        ('A', 'D', 'C') => Some(Token::ADC),
        ('S', 'T', 'A') => Some(Token::STA),
        ('S', 'T', 'X') => Some(Token::STX),
        ('S', 'T', 'Y') => Some(Token::STY),
        ('J', 'M', 'P') => Some(Token::JMP),
        ('J', 'S', 'R') => Some(Token::JSR),
        ('A', 'N', 'D') => Some(Token::AND),
        ('A', 'S', 'L') => Some(Token::ASL),
        ('B', 'C', 'C') => Some(Token::BCC),
        ('B', 'C', 'S') => Some(Token::BCS),
        ('B', 'E', 'Q') => Some(Token::BEQ),
        ('B', 'I', 'T') => Some(Token::BIT),
        ('B', 'M', 'I') => Some(Token::BMI),
        ('B', 'N', 'E') => Some(Token::BNE),
        ('B', 'P', 'L') => Some(Token::BPL),
        ('B', 'R', 'K') => Some(Token::BRK),
        ('B', 'V', 'C') => Some(Token::BVC),
        ('B', 'V', 'S') => Some(Token::BVS),
        ('C', 'L', 'C') => Some(Token::CLC),
        ('C', 'L', 'D') => Some(Token::CLD),
        ('C', 'L', 'I') => Some(Token::CLI),
        ('C', 'L', 'V') => Some(Token::CLV),
        ('C', 'M', 'P') => Some(Token::CMP),
        ('C', 'P', 'X') => Some(Token::CPX),
        ('C', 'P', 'Y') => Some(Token::CPY),
        ('D', 'E', 'C') => Some(Token::DEC),
        ('D', 'E', 'X') => Some(Token::DEX),
        ('D', 'E', 'Y') => Some(Token::DEY),
        ('E', 'O', 'R') => Some(Token::EOR),
        ('I', 'N', 'C') => Some(Token::INC),
        ('I', 'N', 'X') => Some(Token::INX),
        ('I', 'N', 'Y') => Some(Token::INY),
        ('L', 'S', 'R') => Some(Token::LSR),
        ('N', 'O', 'P') => Some(Token::NOP),
        ('O', 'R', 'A') => Some(Token::ORA),
        ('P', 'H', 'A') => Some(Token::PHA),
        ('P', 'H', 'P') => Some(Token::PHP),
        ('P', 'L', 'A') => Some(Token::PLA),
        ('P', 'L', 'P') => Some(Token::PLP),
        ('R', 'O', 'L') => Some(Token::ROL),
        ('R', 'O', 'R') => Some(Token::ROR),
        ('R', 'T', 'I') => Some(Token::RTI),
        ('R', 'T', 'S') => Some(Token::RTS),
        ('S', 'B', 'C') => Some(Token::SBC),
        ('S', 'E', 'C') => Some(Token::SEC),
        ('S', 'E', 'D') => Some(Token::SED),
        ('S', 'E', 'I') => Some(Token::SEI),
        ('T', 'A', 'X') => Some(Token::TAX),
        ('T', 'A', 'Y') => Some(Token::TAY),
        ('T', 'S', 'X') => Some(Token::TSX),
        ('T', 'X', 'A') => Some(Token::TXA),
        ('T', 'X', 'S') => Some(Token::TXS),
        ('T', 'Y', 'A') => Some(Token::TYA),
        _ => None,
    }
}

/// Whether `byte` is one of the opcodes.
spec fn opcode_listed(byte: u8) -> bool {
    match byte {
        0x00 | 0x05 | 0x06 | 0x08 | 0x09 | 0x0A | 0x0D | 0x0E | 0x10 | 0x18
        | 0x20 | 0x24 | 0x25 | 0x26 | 0x28 | 0x29 | 0x2A | 0x2C | 0x2D | 0x2E
        | 0x30 | 0x38 | 0x40 | 0x45 | 0x46 | 0x48 | 0x49 | 0x4A | 0x4C | 0x4D
        | 0x4E | 0x50 | 0x58 | 0x60 | 0x65 | 0x66 | 0x68 | 0x69 | 0x6A | 0x6C
        | 0x6D | 0x6E | 0x70 | 0x78 | 0x84 | 0x86 | 0x88 | 0x89 | 0x8A | 0x8D
        | 0x90 | 0x94 | 0x95 | 0x96 | 0x98 | 0x9A | 0xA0 | 0xA2 | 0xA4 | 0xA5
        | 0xA6 | 0xA8 | 0xAA | 0xAC | 0xAD | 0xAE | 0xB0 | 0xB8 | 0xBA | 0xC0
        | 0xC4 | 0xC5 | 0xC6 | 0xC8 | 0xC9 | 0xCA | 0xCC | 0xCD | 0xCE | 0xD0
        | 0xD8 | 0xE0 | 0xE4 | 0xE5 | 0xE6 | 0xE8 | 0xE9 | 0xEA | 0xEC | 0xED
        | 0xEE | 0xF0 | 0xF8 => true,
        _ => false,
    }
}

/// No two variants share an opcode byte.
pub proof fn lemma_opcode_injective(a: Token, b: Token)
    requires
        a.spec_opcode() == b.spec_opcode(),
    ensures
        a == b,
{
}

proof fn lemma_opcode_listed(t: Token)
    ensures
        opcode_listed(t.spec_opcode()),
{
}

/// Encoding a variant and decoding the byte gives the variant back.
pub proof fn lemma_decode_opcode(token: Token)
    ensures
        Token::spec_from_opcode(token.spec_opcode()) == Some(token),
{
    lemma_opcode_injective(token, choose|t: Token| t.spec_opcode() == token.spec_opcode());
}

/// A decoded byte encodes to itself.
pub proof fn lemma_opcode_decode(byte: u8)
    ensures
        Token::spec_from_opcode(byte) matches Some(t) ==> t.spec_opcode() == byte,
{
}

/// Every mnemonic of the mnemonic table has a form in at least one addressing
/// mode.
pub proof fn lemma_mnemonic_has_form(name: Seq<char>)
    requires
        Token::spec_from_mnemonic(name) is Some,
    ensures
        ({
            let mnemonic = Token::spec_from_mnemonic(name)->0;
            ||| mnemonic.spec_variant(AddressingMode::Implied) is Some
            ||| mnemonic.spec_variant(AddressingMode::Immediate) is Some
            ||| mnemonic.spec_variant(AddressingMode::ZeroPage) is Some
            ||| mnemonic.spec_variant(AddressingMode::Absolute) is Some
        }),
{
}

/// For every mnemonic and addressing mode that the opcode table holds, decoding
/// the first byte of the encoding recovers the variant.
pub proof fn lemma_table_roundtrip(mnemonic: Token, mode: AddressingMode)
    requires
        mnemonic.spec_variant(mode) is Some,
    ensures
        Token::spec_from_opcode(mnemonic.spec_variant(mode)->0.spec_opcode())
            == mnemonic.spec_variant(mode),
{
    lemma_decode_opcode(mnemonic.spec_variant(mode)->0);
}

} // verus!
