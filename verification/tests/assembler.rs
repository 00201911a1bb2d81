use emu6502::asm_parser::{
    assemble, handle_one_character_line, handle_two_character_line, is_hex,
    load_immediate_command, load_immediate_value, load_mem_location_command, load_mem_page,
    load_memory_location, load_relative_value, load_zero_page, parse_line,
};
use emu6502::error::AsmError;
use emu6502::memory::Memory;
use emu6502::token::Token;

fn fresh() -> (Box<Memory>, u16) {
    (Box::new(Memory::new()), 0)
}

fn source(lines: &[&str]) -> Vec<String> {
    lines.iter().map(|l| l.to_string()).collect()
}

fn syntax(text: &str) -> AsmError {
    AsmError::SyntaxError(text.to_string())
}

#[test]
fn decimal_immediate_load() {
    let (mut mem, mut cursor) = fresh();
    assert_eq!(assemble(&source(&["LDA #10"]), &mut mem, &mut cursor), Ok(()));
    assert_eq!(&mem.data[0..3], &[0x89, 0x0A, 0x00]);
    assert_eq!(cursor, 2);
    assert_eq!(mem.data_cycle_count, Token::LDA.cycles() as u32);
    assert_eq!(mem.data_cycle_count, 2);
}

#[test]
fn absolute_load_is_little_endian() {
    let (mut mem, mut cursor) = fresh();
    assert_eq!(assemble(&source(&["LDA $1234"]), &mut mem, &mut cursor), Ok(()));
    assert_eq!(&mem.data[0..4], &[0xAD, 0x34, 0x12, 0x00]);
    assert_eq!(cursor, 3);
    assert_eq!(mem.data_cycle_count, 4);
}

#[test]
fn zero_page_load_takes_two_bytes() {
    let (mut mem, mut cursor) = fresh();
    assert_eq!(assemble(&source(&["LDA $00"]), &mut mem, &mut cursor), Ok(()));
    assert_eq!(&mem.data[0..3], &[0xA5, 0x00, 0x00]);
    assert_eq!(cursor, 2);
    assert_ne!(mem.data[0], Token::LdaAP.opcode());
    assert_eq!(mem.data_cycle_count, 3);
}

#[test]
fn unknown_mnemonic_is_a_syntax_error() {
    let (mut mem, mut cursor) = fresh();
    assert_eq!(parse_line("FOO", &mut mem, &mut cursor), Err(syntax("FOO")));
    assert!(mem.data.iter().all(|b| *b == 0));
    assert_eq!(cursor, 0);
    assert_eq!(mem.data_cycle_count, 0);
}

#[test]
fn failing_line_keeps_what_earlier_lines_wrote() {
    let (mut mem, mut cursor) = fresh();
    let lines = source(&["LDA #10", "FOO", "LDX #1"]);
    assert_eq!(assemble(&lines, &mut mem, &mut cursor), Err(syntax("FOO")));
    assert_eq!(&mem.data[0..4], &[0x89, 0x0A, 0x00, 0x00]);
    assert!(mem.data[2..].iter().all(|b| *b == 0));
    assert_eq!(cursor, 2);
    assert_eq!(mem.data_cycle_count, 2);
}

#[test]
fn same_source_gives_same_image() {
    let lines = source(&["LDA #10", "", "STA $10", "LDX $1234", "NOP", "ASL", "JMP $8000"]);
    let (mut first, mut first_cursor) = fresh();
    let (mut second, mut second_cursor) = fresh();
    assert_eq!(assemble(&lines, &mut first, &mut first_cursor), Ok(()));
    assert_eq!(assemble(&lines, &mut second, &mut second_cursor), Ok(()));
    assert!(first.data == second.data);
    assert_eq!(first.data_cycle_count, second.data_cycle_count);
    assert_eq!(first_cursor, second_cursor);
    assert_eq!(
        &first.data[0..12],
        &[0x89, 0x0A, 0x95, 0x10, 0xAE, 0x34, 0x12, 0xEA, 0x0A, 0x4C, 0x00, 0x80]
    );
    assert_eq!(first_cursor, 12);
    assert_eq!(first.data_cycle_count, 2 + 3 + 4 + 2 + 2 + 3);
}

#[test]
fn cursor_runs_on_across_lines() {
    let (mut mem, mut cursor) = fresh();
    cursor = 0x8000;
    assert_eq!(parse_line("LDY #255", &mut mem, &mut cursor), Ok(()));
    assert_eq!(parse_line("INX", &mut mem, &mut cursor), Ok(()));
    assert_eq!(&mem.data[0x8000..0x8004], &[0xA0, 0xFF, 0xE8, 0x00]);
    assert_eq!(cursor, 0x8003);
    assert_eq!(mem.data_cycle_count, 4);
    assert_eq!(mem.data[0], 0);
}

#[test]
fn empty_lines_are_passed_over() {
    let (mut mem, mut cursor) = fresh();
    assert_eq!(assemble(&source(&["", "NOP", "", ""]), &mut mem, &mut cursor), Ok(()));
    assert_eq!(mem.data[0], 0xEA);
    assert_eq!(cursor, 1);
    assert_eq!(assemble(&source(&[]), &mut mem, &mut cursor), Ok(()));
    assert_eq!(cursor, 1);
}

#[test]
fn empty_line_alone_is_a_syntax_error() {
    let (mut mem, mut cursor) = fresh();
    assert_eq!(parse_line("", &mut mem, &mut cursor), Err(syntax("")));
}

#[test]
fn line_with_two_spaces_assembles_to_nothing() {
    let (mut mem, mut cursor) = fresh();
    assert_eq!(parse_line("LDA #10 junk", &mut mem, &mut cursor), Ok(()));
    assert_eq!(parse_line("LDA  #10", &mut mem, &mut cursor), Ok(()));
    assert_eq!(parse_line("FOO bar baz", &mut mem, &mut cursor), Ok(()));
    assert_eq!(parse_line("  ", &mut mem, &mut cursor), Ok(()));
    assert!(mem.data.iter().all(|b| *b == 0));
    assert_eq!(cursor, 0);
    assert_eq!(mem.data_cycle_count, 0);
}

#[test]
fn hexadecimal_immediate_takes_two_digits() {
    let (mut mem, mut cursor) = fresh();
    assert_eq!(parse_line("LDA #$0f", &mut mem, &mut cursor), Ok(()));
    assert_eq!(parse_line("LDX #$FF", &mut mem, &mut cursor), Ok(()));
    assert_eq!(&mem.data[0..4], &[0x89, 0x0F, 0xA2, 0xFF]);
    assert_eq!(parse_line("LDA #$F", &mut mem, &mut cursor), Err(syntax("F")));
    assert_eq!(parse_line("LDA #$00F", &mut mem, &mut cursor), Err(syntax("00F")));
    assert_eq!(parse_line("LDA #$+F", &mut mem, &mut cursor), Err(syntax("+F")));
    assert_eq!(parse_line("LDA #$G0", &mut mem, &mut cursor), Err(syntax("G0")));
    assert_eq!(parse_line("LDA #$", &mut mem, &mut cursor), Err(syntax("")));
    assert_eq!(cursor, 4);
}

#[test]
fn malformed_operands_are_syntax_errors() {
    let (mut mem, mut cursor) = fresh();
    assert_eq!(parse_line("LDA #", &mut mem, &mut cursor), Err(syntax("")));
    assert_eq!(parse_line("LDA ", &mut mem, &mut cursor), Err(syntax("")));
    assert_eq!(parse_line("LDA #256", &mut mem, &mut cursor), Err(syntax("256")));
    assert_eq!(parse_line("LDA #-1", &mut mem, &mut cursor), Err(syntax("-1")));
    assert_eq!(parse_line("LDA #1a", &mut mem, &mut cursor), Err(syntax("1a")));
    assert_eq!(parse_line("LDA $", &mut mem, &mut cursor), Err(syntax("")));
    assert_eq!(parse_line("LDA $xyz", &mut mem, &mut cursor), Err(syntax("xyz")));
    assert_eq!(parse_line("LDA $10000", &mut mem, &mut cursor), Err(syntax("10000")));
    assert_eq!(parse_line("lda #10", &mut mem, &mut cursor), Err(syntax("lda")));
    assert_eq!(parse_line("LD #10", &mut mem, &mut cursor), Err(syntax("LD")));
    assert_eq!(parse_line("LDAX", &mut mem, &mut cursor), Err(syntax("LDAX")));
    assert_eq!(parse_line("LdaZP $10", &mut mem, &mut cursor), Err(syntax("LdaZP")));
    assert!(mem.data.iter().all(|b| *b == 0));
    assert_eq!(cursor, 0);
}

#[test]
fn unknown_mnemonic_comes_before_the_operand() {
    let (mut mem, mut cursor) = fresh();
    assert_eq!(parse_line("FOO %12", &mut mem, &mut cursor), Err(syntax("FOO")));
    assert_eq!(parse_line("FOO #zz", &mut mem, &mut cursor), Err(syntax("FOO")));
}

#[test]
fn other_leading_character_is_unsupported_operand_syntax() {
    let (mut mem, mut cursor) = fresh();
    assert_eq!(parse_line("LDA %12", &mut mem, &mut cursor), Err(AsmError::UnsupportedOperandSyntax));
    assert_eq!(parse_line("LDA 12", &mut mem, &mut cursor), Err(AsmError::UnsupportedOperandSyntax));
    assert_eq!(parse_line("NOP (10)", &mut mem, &mut cursor), Err(AsmError::UnsupportedOperandSyntax));
    assert_eq!(cursor, 0);
    assert_eq!(mem.data_cycle_count, 0);
}

#[test]
fn stack_instructions_take_no_operand() {
    let (mut mem, mut cursor) = fresh();
    assert_eq!(parse_line("PHP", &mut mem, &mut cursor), Ok(()));
    assert_eq!(&mem.data[0..2], &[0x08, 0x00]);
    assert_eq!(cursor, 1);
    assert_eq!(mem.data_cycle_count, 3);
    assert_eq!(handle_one_character_line("PHA", &mut mem, &mut cursor), Ok(()));
    assert_eq!(handle_one_character_line("PLP", &mut mem, &mut cursor), Ok(()));
    assert_eq!(handle_one_character_line("PLA", &mut mem, &mut cursor), Ok(()));
    assert_eq!(&mem.data[0..5], &[0x08, 0x48, 0x28, 0x68, 0x00]);
    assert_eq!(cursor, 4);
    assert_eq!(mem.data_cycle_count, 3 + 3 + 4 + 4);
    let unsupported = Err(AsmError::UnsupportedAddressingMode);
    assert_eq!(parse_line("PHP #1", &mut mem, &mut cursor), unsupported);
    assert_eq!(parse_line("PHP $10", &mut mem, &mut cursor), unsupported);
    assert_eq!(parse_line("PHP $1000", &mut mem, &mut cursor), unsupported);
    assert_eq!(cursor, 4);
}

#[test]
fn missing_form_is_unsupported_addressing_mode() {
    let (mut mem, mut cursor) = fresh();
    let unsupported = Err(AsmError::UnsupportedAddressingMode);
    assert_eq!(parse_line("LDA", &mut mem, &mut cursor), unsupported);
    assert_eq!(parse_line("STA", &mut mem, &mut cursor), unsupported);
    assert_eq!(parse_line("NOP #1", &mut mem, &mut cursor), unsupported);
    assert_eq!(parse_line("STA #1", &mut mem, &mut cursor), unsupported);
    assert_eq!(parse_line("NOP $10", &mut mem, &mut cursor), unsupported);
    assert_eq!(parse_line("JMP $12", &mut mem, &mut cursor), unsupported);
    assert_eq!(parse_line("JSR $0012", &mut mem, &mut cursor), unsupported);
    assert_eq!(parse_line("NOP #zz", &mut mem, &mut cursor), unsupported);
    assert_eq!(parse_line("NOP $zz", &mut mem, &mut cursor), unsupported);
    assert!(mem.data.iter().all(|b| *b == 0));
    assert_eq!(cursor, 0);
    assert_eq!(mem.data_cycle_count, 0);
}

#[test]
fn instruction_must_end_below_the_last_address() {
    let (mut mem, mut cursor) = fresh();
    cursor = 0xFFFE;
    assert_eq!(parse_line("LDA #1", &mut mem, &mut cursor), Err(AsmError::OutOfRange));
    assert_eq!(cursor, 0xFFFE);
    assert_eq!(mem.data[0xFFFE], 0);
    assert_eq!(mem.data_cycle_count, 0);
    assert_eq!(parse_line("NOP", &mut mem, &mut cursor), Ok(()));
    assert_eq!(cursor, 0xFFFF);
    assert_eq!(mem.data[0xFFFE], 0xEA);
    assert_eq!(parse_line("NOP", &mut mem, &mut cursor), Err(AsmError::OutOfRange));
    assert_eq!(cursor, 0xFFFF);
    assert_eq!(mem.data[0xFFFF], 0);
    cursor = 0xFFFD;
    assert_eq!(parse_line("LDA $1234", &mut mem, &mut cursor), Err(AsmError::OutOfRange));
    assert_eq!(parse_line("LDA $12", &mut mem, &mut cursor), Ok(()));
    assert_eq!(cursor, 0xFFFF);
}

#[test]
fn full_cycle_counter_is_an_overflow() {
    let (mut mem, mut cursor) = fresh();
    mem.data_cycle_count = u32::MAX - 1;
    assert_eq!(parse_line("NOP", &mut mem, &mut cursor), Err(AsmError::CycleOverflow));
    assert_eq!(mem.data[0], 0);
    assert_eq!(cursor, 0);
    assert_eq!(mem.data_cycle_count, u32::MAX - 1);
    mem.data_cycle_count = u32::MAX - 2;
    assert_eq!(parse_line("NOP", &mut mem, &mut cursor), Ok(()));
    assert_eq!(mem.data_cycle_count, u32::MAX);
    cursor = 0xFFFF;
    assert_eq!(parse_line("NOP", &mut mem, &mut cursor), Err(AsmError::OutOfRange));
}

#[test]
fn address_is_classified_by_its_value() {
    let (mut mem, mut cursor) = fresh();
    assert_eq!(parse_line("LDA $0012", &mut mem, &mut cursor), Ok(()));
    assert_eq!(parse_line("LDA $5", &mut mem, &mut cursor), Ok(()));
    assert_eq!(parse_line("LDA $FF", &mut mem, &mut cursor), Ok(()));
    assert_eq!(parse_line("LDA $100", &mut mem, &mut cursor), Ok(()));
    assert_eq!(parse_line("LDA $ffff", &mut mem, &mut cursor), Ok(()));
    assert_eq!(parse_line("LDA $+12", &mut mem, &mut cursor), Ok(()));
    assert_eq!(
        &mem.data[0..14],
        &[0xA5, 0x12, 0xA5, 0x05, 0xA5, 0xFF, 0xAD, 0x00, 0x01, 0xAD, 0xFF, 0xFF, 0xA5, 0x12]
    );
    assert_eq!(cursor, 14);
    assert_eq!(mem.data_cycle_count, 3 + 3 + 3 + 4 + 4 + 3);
}

#[test]
fn decimal_immediate_may_carry_a_plus() {
    let (mut mem, mut cursor) = fresh();
    assert_eq!(parse_line("LDA #+10", &mut mem, &mut cursor), Ok(()));
    assert_eq!(parse_line("LDA #007", &mut mem, &mut cursor), Ok(()));
    assert_eq!(parse_line("LDA #255", &mut mem, &mut cursor), Ok(()));
    assert_eq!(parse_line("LDA #0", &mut mem, &mut cursor), Ok(()));
    assert_eq!(&mem.data[0..8], &[0x89, 10, 0x89, 7, 0x89, 255, 0x89, 0]);
    assert_eq!(parse_line("LDA #+", &mut mem, &mut cursor), Err(syntax("+")));
    assert_eq!(parse_line("LDA #++1", &mut mem, &mut cursor), Err(syntax("++1")));
}

#[test]
fn forms_of_each_kind() {
    let (mut mem, mut cursor) = fresh();
    let lines = source(&[
        "ROL", "ROL #1", "ROL $10", "ROL $1000", "STX $20", "STX $2000", "DEC $30", "DEC $3000",
        "BIT $40", "BIT $4000", "JSR $1234", "BRK", "RTS", "SBC #3",
    ]);
    assert_eq!(assemble(&lines, &mut mem, &mut cursor), Ok(()));
    assert_eq!(
        &mem.data[0..30],
        &[
            0x2A, 0x2A, 0x01, 0x26, 0x10, 0x2E, 0x00, 0x10, 0x86, 0x20, 0x96, 0x00, 0x20, 0xC6,
            0x30, 0xCE, 0x00, 0x30, 0x24, 0x40, 0x2C, 0x00, 0x40, 0x20, 0x34, 0x12, 0x00, 0x60,
            0xE9, 0x03,
        ]
    );
    assert_eq!(cursor, 30);
    assert_eq!(mem.data_cycle_count, 2 + 2 + 5 + 6 + 3 + 4 + 5 + 6 + 3 + 4 + 6 + 7 + 6 + 2);
}

#[test]
fn writers_take_the_variant_as_given() {
    let (mut mem, mut cursor) = fresh();
    assert_eq!(load_relative_value(Token::TAX, &mut mem, &mut cursor), Ok(()));
    assert_eq!(load_zero_page(Token::LdxZP, "7f", &mut cursor, &mut mem), Ok(()));
    assert_eq!(load_mem_page(Token::LdyAP, "BEEF", &mut cursor, &mut mem), Ok(()));
    assert_eq!(load_mem_page(Token::LdyAP, "12", &mut cursor, &mut mem), Ok(()));
    assert_eq!(load_immediate_value(Token::CMP, "$80", &mut mem, &mut cursor), Ok(()));
    assert_eq!(load_immediate_value(Token::CMP, "128", &mut mem, &mut cursor), Ok(()));
    assert_eq!(
        &mem.data[0..13],
        &[0xAA, 0xA6, 0x7F, 0xAC, 0xEF, 0xBE, 0xAC, 0x12, 0x00, 0xC9, 0x80, 0xC9, 0x80]
    );
    assert_eq!(cursor, 13);
    assert_eq!(mem.data_cycle_count, 2 + 3 + 4 + 4 + 2 + 2);
    assert_eq!(load_zero_page(Token::LdxZP, "100", &mut cursor, &mut mem), Err(syntax("100")));
    assert_eq!(load_mem_page(Token::LdyAP, "", &mut cursor, &mut mem), Err(syntax("")));
    assert_eq!(load_immediate_value(Token::CMP, "", &mut mem, &mut cursor), Err(syntax("")));
    assert_eq!(cursor, 13);
}

#[test]
fn commands_resolve_the_mnemonic() {
    let (mut mem, mut cursor) = fresh();
    assert_eq!(load_immediate_command(Token::ORA, "1", &mut mem, &mut cursor), Ok(()));
    assert_eq!(load_mem_location_command(Token::ORA, "1", &mut mem, &mut cursor), Ok(()));
    assert_eq!(load_memory_location(Token::ORA, "0200", &mut cursor, &mut mem), Ok(()));
    assert_eq!(handle_one_character_line("CLC", &mut mem, &mut cursor), Ok(()));
    assert_eq!(handle_two_character_line("EOR", "#$AA", &mut mem, &mut cursor), Ok(()));
    assert_eq!(
        &mem.data[0..10],
        &[0x09, 0x01, 0x05, 0x01, 0x0D, 0x00, 0x02, 0x18, 0x49, 0xAA]
    );
    assert_eq!(
        load_immediate_command(Token::LdaZP, "1", &mut mem, &mut cursor),
        Err(AsmError::UnsupportedAddressingMode)
    );
    assert_eq!(
        load_memory_location(Token::LdaZP, "1", &mut cursor, &mut mem),
        Err(AsmError::UnsupportedAddressingMode)
    );
    assert_eq!(handle_one_character_line("LDA #1", &mut mem, &mut cursor), Err(syntax("LDA #1")));
    assert_eq!(handle_two_character_line("EOR", "", &mut mem, &mut cursor), Err(syntax("")));
    assert_eq!(cursor, 10);
}

#[test]
fn hexadecimal_marker() {
    assert_eq!(is_hex("$FF"), Ok(true));
    assert_eq!(is_hex("FF"), Ok(false));
    assert_eq!(is_hex("$"), Ok(true));
    assert_eq!(is_hex(""), Err(syntax("")));
}
