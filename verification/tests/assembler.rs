use hack_toolchain::assembler::codegen::{compile, generate, unspaced};
use hack_toolchain::assembler::commands::{
    ACommand, AsmError, CCommand, Command, Dest, Jump, LCommand,
};
use hack_toolchain::assembler::parser::{load_symbol, parse};
use hack_toolchain::assembler::symbol::SymbolTable;

fn words(lines: &[&str]) -> Vec<Vec<u8>> {
    lines.iter().map(|l| l.as_bytes().to_vec()).collect()
}

#[test]
fn parse_number_address() {
    let code = "@123";
    let command = ACommand::parse(code.as_bytes()).unwrap();

    assert_eq!(command, ACommand::Value(123));
}

#[test]
fn parse_symbol_address() {
    let code = "@some";
    let command = ACommand::parse(code.as_bytes()).unwrap();

    assert_eq!(command, ACommand::Symbol(b"some".to_vec()));
}

#[test]
fn parse_comp() {
    let code = "JLE";
    let command = CCommand::parse(code.as_bytes()).unwrap();
    let expected = CCommand { dest: Dest::Null, comp: b"JLE".to_vec(), jump: Jump::Null };

    assert_eq!(command, expected);
}

#[test]
fn parse_jmp() {
    let code = "M;JLE";
    let command = CCommand::parse(code.as_bytes()).unwrap();
    let expected = CCommand { dest: Dest::Null, comp: b"M".to_vec(), jump: Jump::JLE };

    assert_eq!(command, expected);
}

#[test]
fn parse_c_command() {
    let code = "M=D+M;JMP";
    let command = CCommand::parse(code.as_bytes()).unwrap();
    let expected = CCommand { dest: Dest::M, comp: b"D+M".to_vec(), jump: Jump::JMP };

    assert_eq!(command, expected);
}

#[test]
fn parse_unknown_jmp() {
    let code = "M;UNK";
    let command = CCommand::parse(code.as_bytes());
    assert!(command.is_err());
}

#[test]
fn parse_label_command() {
    let code = "(Xxx)";
    let command = LCommand::parse(code.as_bytes()).unwrap();
    let expected = LCommand(b"Xxx".to_vec());

    assert_eq!(command, expected);
}

#[test]
fn test_parse_error() {
    let code = "";
    let command = Command::parse(code.as_bytes());
    assert!(command.is_err());
}

#[test]
fn test_parse_a_command() {
    let code = "@sym";
    let command = Command::parse(code.as_bytes()).unwrap();
    assert!(matches!(command, Command::A(_)));
}

#[test]
fn test_parse_value() {
    let code = "M;JMP";
    let command = Command::parse(code.as_bytes()).unwrap();

    assert!(matches!(command, Command::C(_)));
}

#[test]
fn register_symbol_assign_addr() {
    let mut t = SymbolTable::new();
    let s1 = b"s";
    assert!(t.register_symbol(s1));
    assert!(t.contains(s1));
    assert_eq!(t.address(s1).unwrap(), 0x0010);

    let s2 = b"t";
    assert!(t.register_symbol(s2));
    assert!(t.contains(s1));
    assert!(t.contains(s2));
    assert_eq!(t.address(s2).unwrap(), 0x0011);
}

#[test]
fn compile_add() {
    let program = String::from_utf8(unspaced(b"@2\nD=A\n@3\nD=D+A\n@0\nM=D\n")).unwrap();
    let (binary, errors) = compile(&program);
    assert!(errors.is_empty());
    assert_eq!(
        binary.unwrap(),
        words(&[
            "0000000000000010",
            "1110110000010000",
            "0000000000000011",
            "1110000010010000",
            "0000000000000000",
            "1110001100001000",
        ])
    );
}

#[test]
fn compile_rect() {
    let source = "\
// Draws a rectangle at the top-left corner of the screen.
   @0
   D=M
   @INFINITE_LOOP
   D;JLE
   @counter
   M=D
   @SCREEN
   D=A
   @address
   M=D
(LOOP)
   @address
   A=M
   M=-1
   @address
   D=M
   @32
   D=D+A
   @address
   M=D
   @counter
   MD=M-1
   @LOOP
   D;JGT
(INFINITE_LOOP)
   @INFINITE_LOOP
   0;JMP
";
    let program = String::from_utf8(unspaced(source.as_bytes())).unwrap();
    let (binary, errors) = compile(&program);
    assert!(errors.is_empty());
    assert_eq!(
        binary.unwrap(),
        words(&[
            "0000000000000000",
            "1111110000010000",
            "0000000000010111",
            "1110001100000110",
            "0000000000010000",
            "1110001100001000",
            "0100000000000000",
            "1110110000010000",
            "0000000000010001",
            "1110001100001000",
            "0000000000010001",
            "1111110000100000",
            "1110111010001000",
            "0000000000010001",
            "1111110000010000",
            "0000000000100000",
            "1110000010010000",
            "0000000000010001",
            "1110001100001000",
            "0000000000010000",
            "1111110010011000",
            "0000000000001010",
            "1110001100000001",
            "0000000000010111",
            "1110101010000111",
        ])
    );
}

#[test]
fn unspaced_takes_spaces_out() {
    assert_eq!(unspaced(b"D = A\n @SP \n"), b"D=A\n@SP\n".to_vec());
}

#[test]
fn address_commands() {
    assert_eq!(ACommand::parse(b"@0").unwrap(), ACommand::Value(0));
    assert_eq!(ACommand::parse(b"@32767").unwrap(), ACommand::Value(32767));
    assert_eq!(ACommand::parse(b"@+5").unwrap(), ACommand::Value(5));
    assert_eq!(ACommand::parse(b"@-0").unwrap(), ACommand::Value(0));
    // too large for a value: a symbol
    assert_eq!(ACommand::parse(b"@32768").unwrap(), ACommand::Symbol(b"32768".to_vec()));
    assert_eq!(ACommand::parse(b"@-5"), Err(AsmError::NegativeAddress));
    assert_eq!(ACommand::parse(b"x"), Err(AsmError::NotAnAddress));
    assert_eq!(ACommand::parse(b""), Err(AsmError::NotAnAddress));
}

#[test]
fn compute_commands() {
    assert_eq!(
        CCommand::parse(b"AMD=D|M").unwrap(),
        CCommand { dest: Dest::AMD, comp: b"D|M".to_vec(), jump: Jump::Null }
    );
    assert_eq!(
        CCommand::parse(b"null=0;null").unwrap(),
        CCommand { dest: Dest::Null, comp: b"0".to_vec(), jump: Jump::Null }
    );
    assert_eq!(CCommand::parse(b"X=D"), Err(AsmError::UnknownDest));
    assert_eq!(CCommand::parse(b"D;JXX"), Err(AsmError::UnknownJump));
    assert_eq!(CCommand::parse(b"D;JMP=A"), Err(AsmError::UnknownDest));
}

#[test]
fn label_commands() {
    assert_eq!(LCommand::parse(b"(A.b$c)").unwrap(), LCommand(b"A.b$c".to_vec()));
    assert_eq!(LCommand::parse(b"A)"), Err(AsmError::MissingLeftBrace));
    assert_eq!(LCommand::parse(b"(A"), Err(AsmError::MissingRightBrace));
    assert_eq!(LCommand::parse(b")A("), Err(AsmError::MissingRightBrace));
}

#[test]
fn predefined_symbols() {
    let t = SymbolTable::new();
    assert_eq!(t.address(b"SP"), Some(0));
    assert_eq!(t.address(b"LCL"), Some(1));
    assert_eq!(t.address(b"ARG"), Some(2));
    assert_eq!(t.address(b"THIS"), Some(3));
    assert_eq!(t.address(b"THAT"), Some(4));
    assert_eq!(t.address(b"R0"), Some(0));
    assert_eq!(t.address(b"R13"), Some(13));
    assert_eq!(t.address(b"R15"), Some(15));
    assert_eq!(t.address(b"SCREEN"), Some(0x4000));
    assert_eq!(t.address(b"KBD"), Some(0x6000));
    assert_eq!(t.address(b"R16"), None);
}

#[test]
fn labels_take_no_room_and_variables_start_at_16() {
    let (commands, errors) = parse("@i\n(LOOP)\n@LOOP\n0;JMP\n@j\n(END)\n@END\n");
    assert!(errors.is_empty());
    let mut table = SymbolTable::new();
    assert_eq!(load_symbol(&commands, &mut table), Ok(()));
    assert_eq!(table.address(b"LOOP"), Some(1));
    assert_eq!(table.address(b"END"), Some(4));
    assert_eq!(table.address(b"i"), Some(16));
    assert_eq!(table.address(b"j"), Some(17));
    assert_eq!(
        generate(&commands, &table).unwrap(),
        words(&[
            "0000000000010000",
            "0000000000000001",
            "1110101010000111",
            "0000000000010001",
            "0000000000000100",
        ])
    );
}

#[test]
fn commutative_computations_have_one_code() {
    for (a, b) in [("D+A", "A+D"), ("D&A", "A&D"), ("D|A", "A|D"), ("D+M", "M+D"), ("D&M", "M&D"), ("D|M", "M|D")] {
        let one = compile(&format!("D={a}\n")).0.unwrap();
        let other = compile(&format!("D={b}\n")).0.unwrap();
        assert_eq!(one, other);
    }
    assert_eq!(compile("D=D-A\n").0.unwrap(), words(&["1110010011010000"]));
    assert_eq!(compile("D=A-D\n").0.unwrap(), words(&["1110000111010000"]));
}

#[test]
fn unknown_computation_is_an_error() {
    assert_eq!(compile("D=D*A\n").0, Err(AsmError::UnknownComp));
}

#[test]
fn lines_that_are_no_commands_are_reported() {
    let (commands, errors) = parse("@1\nD;JXX\n\n// c\n  @2 // d\n");
    assert_eq!(commands, vec![Command::A(ACommand::Value(1)), Command::A(ACommand::Value(2))]);
    assert_eq!(errors, vec![(1, AsmError::UnknownJump)]);
}

#[test]
fn a_symbol_without_an_address_is_an_error() {
    let (commands, _) = parse("@x\n");
    let table = SymbolTable::new();
    assert_eq!(generate(&commands, &table), Err(AsmError::UnknownSymbol));
}

#[test]
fn a_label_beyond_fifteen_bits_is_an_error() {
    let mut program = "D=A\n".repeat(0x8000);
    program.push_str("(END)\n");
    assert_eq!(compile(&program).0, Err(AsmError::ProgramTooLong));
    // the last address that fifteen bits hold
    let mut program = "D=A\n".repeat(0x7fff);
    program.push_str("(END)\n@END\n");
    let words = compile(&program).0.unwrap();
    assert_eq!(words.len(), 0x8000);
    assert_eq!(words[0x7fff], b"0111111111111111".to_vec());
}

#[test]
fn variables_beyond_fifteen_bits_are_an_error() {
    let mut program = String::new();
    for i in 0..(0x8000 - 16) {
        program.push_str(&format!("@v{i}\n"));
    }
    let words = compile(&program).0.unwrap();
    assert_eq!(words[0], b"0000000000010000".to_vec());
    assert_eq!(words[words.len() - 1], b"0111111111111111".to_vec());
    program.push_str("@one_more\n");
    assert_eq!(compile(&program).0, Err(AsmError::TooManySymbols));
}
