use emu6502::memory::{Memory, MAX_MEMORY};
use emu6502::token::{AddressingMode, Token};
use emu6502::util::{
    check_7_bit, combine_address, convert_hex_pair_to_u8, convert_hex_string_to_u16,
    convert_hex_string_to_u8, convert_string_to_u16, convert_string_to_u8, is_zero_page,
};
use emu6502::error::AsmError;

const MODES: [AddressingMode; 4] = [
    AddressingMode::Implied,
    AddressingMode::Immediate,
    AddressingMode::ZeroPage,
    AddressingMode::Absolute,
];

fn syntax<T>(text: &str) -> Result<T, AsmError> {
    Err(AsmError::SyntaxError(text.to_string()))
}

#[test]
fn decoding_an_opcode_gives_the_variant_back() {
    let mut known = 0;
    for byte in 0..=255u8 {
        if let Some(token) = Token::from_opcode(byte) {
            known += 1;
            assert_eq!(token.opcode(), byte);
            assert!((1..=7).contains(&token.cycles()));
        }
    }
    assert_eq!(known, 93);
    assert_eq!(Token::from_opcode(Token::LDA.opcode()), Some(Token::LDA));
    assert_eq!(Token::from_opcode(Token::JmpID.opcode()), Some(Token::JmpID));
    assert_eq!(Token::from_opcode(0xFF), None);
    assert_eq!(Token::from_opcode(0x01), None);
}

#[test]
fn every_row_of_the_table_round_trips() {
    let mut rows = 0;
    for byte in 0..=255u8 {
        if let Some(mnemonic) = Token::from_opcode(byte) {
            for mode in MODES {
                if let Some(variant) = mnemonic.variant(mode) {
                    rows += 1;
                    assert_eq!(Token::from_opcode(variant.opcode()), Some(variant));
                }
            }
        }
    }
    assert_eq!(rows, 37 + 13 + 21 + 23);
}

#[test]
fn opcode_values() {
    assert_eq!(Token::LDA.opcode(), 0x89);
    assert_eq!(Token::LdaZP.opcode(), 0xA5);
    assert_eq!(Token::LdaAP.opcode(), 0xAD);
    assert_eq!(Token::LDX.opcode(), 0xA2);
    assert_eq!(Token::LDY.opcode(), 0xA0);
    assert_eq!(Token::STA.opcode(), 0x95);
    assert_eq!(Token::BRK.opcode(), 0x00);
    assert_eq!(Token::NOP.opcode(), 0xEA);
    assert_eq!(Token::TYA.opcode(), 0x98);
}

#[test]
fn cycle_costs() {
    assert_eq!(Token::LDA.cycles(), 2);
    assert_eq!(Token::LdaZP.cycles(), 3);
    assert_eq!(Token::LdaAP.cycles(), 4);
    assert_eq!(Token::AslZP.cycles(), 5);
    assert_eq!(Token::AslAP.cycles(), 6);
    assert_eq!(Token::JMP.cycles(), 3);
    assert_eq!(Token::JmpID.cycles(), 5);
    assert_eq!(Token::JSR.cycles(), 6);
    assert_eq!(Token::BRK.cycles(), 7);
    assert_eq!(Token::PHA.cycles(), 3);
    assert_eq!(Token::PLA.cycles(), 4);
    assert_eq!(Token::NOP.cycles(), 2);
}

#[test]
fn operand_lengths() {
    assert_eq!(AddressingMode::Implied.operand_len(), 0);
    assert_eq!(AddressingMode::Immediate.operand_len(), 1);
    assert_eq!(AddressingMode::ZeroPage.operand_len(), 1);
    assert_eq!(AddressingMode::Absolute.operand_len(), 2);
}

#[test]
fn mnemonic_lookup_is_exact() {
    assert_eq!(Token::from_mnemonic("LDA"), Some(Token::LDA));
    assert_eq!(Token::from_mnemonic("TYA"), Some(Token::TYA));
    assert_eq!(Token::from_mnemonic("PHP"), Some(Token::PHP));
    assert_eq!(Token::from_mnemonic("lda"), None);
    assert_eq!(Token::from_mnemonic("Lda"), None);
    assert_eq!(Token::from_mnemonic("LD"), None);
    assert_eq!(Token::from_mnemonic("LDAA"), None);
    assert_eq!(Token::from_mnemonic(""), None);
    assert_eq!(Token::from_mnemonic("FOO"), None);
    assert_eq!(Token::from_mnemonic("LDÄ"), None);
}

#[test]
fn variants_by_addressing_mode() {
    assert_eq!(Token::LDA.variant(AddressingMode::Immediate), Some(Token::LDA));
    assert_eq!(Token::LDA.variant(AddressingMode::ZeroPage), Some(Token::LdaZP));
    assert_eq!(Token::LDA.variant(AddressingMode::Absolute), Some(Token::LdaAP));
    assert_eq!(Token::LDA.variant(AddressingMode::Implied), None);
    assert_eq!(Token::STA.variant(AddressingMode::ZeroPage), Some(Token::STA));
    assert_eq!(Token::STA.variant(AddressingMode::Absolute), Some(Token::StaAP));
    assert_eq!(Token::STA.variant(AddressingMode::Immediate), None);
    assert_eq!(Token::JMP.variant(AddressingMode::Absolute), Some(Token::JMP));
    assert_eq!(Token::JMP.variant(AddressingMode::ZeroPage), None);
    assert_eq!(Token::ROR.variant(AddressingMode::Implied), Some(Token::ROR));
    assert_eq!(Token::ROR.variant(AddressingMode::Immediate), Some(Token::ROR));
    assert_eq!(Token::LdaZP.variant(AddressingMode::ZeroPage), None);
    assert_eq!(Token::PHP.variant(AddressingMode::Implied), Some(Token::PHP));
    assert_eq!(Token::PHP.variant(AddressingMode::Immediate), None);
    assert_eq!(Token::PHP.variant(AddressingMode::ZeroPage), None);
    assert_eq!(Token::PHP.variant(AddressingMode::Absolute), None);
    for mode in MODES {
        assert_eq!(Token::JmpID.variant(mode), None);
    }
}

#[test]
fn every_mnemonic_has_a_form() {
    let names = [
        "LDA", "LDX", "LDY", "ADC", "STA", "STX", "STY", "JMP", "JSR", "AND", "ASL", "BCC", "BCS",
        "BEQ", "BIT", "BMI", "BNE", "BPL", "BRK", "BVC", "BVS", "CLC", "CLD", "CLI", "CLV", "CMP",
        "CPX", "CPY", "DEC", "DEX", "DEY", "EOR", "INC", "INX", "INY", "LSR", "NOP", "ORA", "PHA",
        "PHP", "PLA", "PLP", "ROL", "ROR", "RTI", "RTS", "SBC", "SEC", "SED", "SEI", "TAX", "TAY",
        "TSX", "TXA", "TXS", "TYA",
    ];
    assert_eq!(names.len(), 56);
    for name in names {
        let mnemonic = Token::from_mnemonic(name);
        assert!(mnemonic.is_some(), "{}", name);
        assert!(MODES.iter().any(|mode| mnemonic.unwrap().variant(*mode).is_some()), "{}", name);
    }
}

#[test]
fn decimal_bytes() {
    assert_eq!(convert_string_to_u8("10"), Ok(10));
    assert_eq!(convert_string_to_u8("0"), Ok(0));
    assert_eq!(convert_string_to_u8("255"), Ok(255));
    assert_eq!(convert_string_to_u8("+7"), Ok(7));
    assert_eq!(convert_string_to_u8("0000000000255"), Ok(255));
    assert_eq!(convert_string_to_u8("256"), syntax("256"));
    assert_eq!(convert_string_to_u8("99999999999999999999"), syntax("99999999999999999999"));
    assert_eq!(convert_string_to_u8(""), syntax(""));
    assert_eq!(convert_string_to_u8("+"), syntax("+"));
    assert_eq!(convert_string_to_u8("-1"), syntax("-1"));
    assert_eq!(convert_string_to_u8("1 "), syntax("1 "));
    assert_eq!(convert_string_to_u8("a"), syntax("a"));
    assert_eq!(convert_string_to_u8("٣"), syntax("٣"));
    assert_eq!(convert_string_to_u16("10"), Ok(10));
    assert_eq!(convert_string_to_u16("300"), syntax("300"));
}

#[test]
fn hexadecimal_bytes() {
    assert_eq!(convert_hex_string_to_u8("FF"), Ok(255));
    assert_eq!(convert_hex_string_to_u8("ff"), Ok(255));
    assert_eq!(convert_hex_string_to_u8("a"), Ok(10));
    assert_eq!(convert_hex_string_to_u8("0012"), Ok(0x12));
    assert_eq!(convert_hex_string_to_u8("+1f"), Ok(0x1F));
    assert_eq!(convert_hex_string_to_u8("100"), syntax("100"));
    assert_eq!(convert_hex_string_to_u8("g"), syntax("g"));
    assert_eq!(convert_hex_string_to_u8(""), syntax(""));
    assert_eq!(convert_hex_string_to_u16("1234"), Ok(0x1234));
    assert_eq!(convert_hex_string_to_u16("ffff"), Ok(0xFFFF));
    assert_eq!(convert_hex_string_to_u16("10000"), syntax("10000"));
    assert_eq!(convert_hex_string_to_u16("0x12"), syntax("0x12"));
    assert_eq!(convert_hex_pair_to_u8("0A"), Ok(10));
    assert_eq!(convert_hex_pair_to_u8("zz"), syntax("zz"));
    assert_eq!(convert_hex_pair_to_u8("A"), syntax("A"));
    assert_eq!(convert_hex_pair_to_u8("00A"), syntax("00A"));
}

#[test]
fn zero_page_addresses() {
    assert_eq!(is_zero_page("00"), Ok(true));
    assert_eq!(is_zero_page("FF"), Ok(true));
    assert_eq!(is_zero_page("00FF"), Ok(true));
    assert_eq!(is_zero_page("100"), Ok(false));
    assert_eq!(is_zero_page("1234"), Ok(false));
    assert_eq!(is_zero_page("12345"), syntax("12345"));
    assert_eq!(is_zero_page("xy"), syntax("xy"));
}

#[test]
fn byte_helpers() {
    assert!(check_7_bit(0x80));
    assert!(check_7_bit(0xC3));
    assert!(!check_7_bit(0x7F));
    assert_eq!(combine_address(0x34, 0x12), 0x1234);
    assert_eq!(combine_address(0xFF, 0xFF), 0xFFFF);
    assert_eq!(combine_address(0x00, 0x00), 0);
    assert_eq!(combine_address(0x01, 0x00), 1);
}

#[test]
fn memory_image() {
    let mut mem = Box::new(Memory::new());
    assert_eq!(MAX_MEMORY, 65536);
    assert_eq!(mem.max_memory, MAX_MEMORY);
    assert_eq!(mem.data.len(), 65536);
    assert!(mem.data.iter().all(|b| *b == 0));
    assert_eq!(mem.data_cycle_count, 0);
    assert!(mem.write(0, 7));
    assert!(mem.write(0xFFFF, 9));
    assert!(!mem.write(0x10000, 1));
    assert_eq!(mem.read(0), Some(7));
    assert_eq!(mem.read(1), Some(0));
    assert_eq!(mem.read(0xFFFF), Some(9));
    assert_eq!(mem.read(0x10000), None);
    assert_eq!(mem.read(usize::MAX), None);
    mem.data_cycle_count = 5;
    mem.init();
    assert!(mem.data.iter().all(|b| *b == 0));
    assert_eq!(mem.data_cycle_count, 5);
}
