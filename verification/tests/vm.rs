use hack_toolchain::vm::insn::{validate, InsnKind, Instruction, VmError};
use hack_toolchain::vm::parser::parse;
use hack_toolchain::vm::segment::Segment;
use hack_toolchain::vm::symbol::SymbolTable;
use hack_toolchain::vm::translate::{translate, HackVm};

const PUSH: &str = "@SP\nA = M\nM = D\n@SP\nM = M + 1\n";
const POP: &str = "@SP\nAM = M - 1\nD = M\n";

fn unit(name: &str, program: &str) -> (Vec<u8>, Vec<Instruction>) {
    let (insns, errors) = parse(program);
    assert_eq!(errors, vec![]);
    (name.as_bytes().to_vec(), insns)
}

fn text(units: Vec<(Vec<u8>, Vec<Instruction>)>) -> String {
    String::from_utf8(translate(&units).unwrap()).unwrap()
}

fn call_text(name: &str, n: u16, k: usize) -> String {
    let save = |r: &str| format!("@{r}\nD = M\n{PUSH}\n");
    format!(
        "@return-address{k}\nD = A\n{PUSH}\n{}{}{}{}@{}\nD = A\n@SP\nD = M - D\n@ARG\nM = D\n\n@SP\nD = M\n@LCL\nM = D\n@{name}\n1; JNE\n(return-address{k})\n",
        save("LCL"),
        save("ARG"),
        save("THIS"),
        save("THAT"),
        n + 5
    )
}

#[test]
fn test_symbol_table_new_label() {
    let mut t = SymbolTable::new();

    let l0 = t.ret_addr(b"label").unwrap();
    assert_eq!(l0, b"label0".to_vec());

    let k0 = t.ret_addr(b"other_label").unwrap();
    assert_eq!(k0, b"other_label0".to_vec());

    let l1 = t.ret_addr(b"label").unwrap();
    assert_eq!(l1, b"label1".to_vec());
}

#[test]
fn bootstrap() {
    let out = text(vec![unit("Sys", "function Sys.init 0\nreturn\n")]);
    let start = format!("@256\nD = A\n@SP\nM = D\n\n{}", call_text("Sys.init", 0, 0));
    assert!(out.starts_with(&start));
    assert!(out[start.len()..].starts_with("(Sys.init)\nD = 0\n\n"));
}

#[test]
fn no_bootstrap_without_sys_init() {
    let out = text(vec![unit("Main", "function Main.main 0\nreturn\n")]);
    assert!(out.starts_with("(Main.main)\nD = 0\n\n"));
    assert!(!out.contains("@256"));
}

#[test]
fn push_and_pop() {
    assert_eq!(
        text(vec![unit("F", "push constant 7")]),
        format!("@7\nD = A\n{PUSH}\n")
    );
    assert_eq!(
        text(vec![unit("F", "push local 2")]),
        format!("@LCL\nA = M\nA = A + 1\nA = A + 1\n\nD = M\n{PUSH}\n")
    );
    assert_eq!(
        text(vec![unit("F", "pop argument 1")]),
        format!("{POP}\n@ARG\nA = M\nA = A + 1\n\nM = D\n")
    );
    assert_eq!(text(vec![unit("F", "pop this 0")]), format!("{POP}\n@THIS\nA = M\n\nM = D\n"));
    assert_eq!(text(vec![unit("F", "push that 0")]), format!("@THAT\nA = M\n\nD = M\n{PUSH}\n"));
    assert_eq!(text(vec![unit("F", "push pointer 0")]), format!("@THIS\nD = M\n{PUSH}\n"));
    assert_eq!(text(vec![unit("F", "pop pointer 1")]), format!("{POP}\n@THAT\nM = D\n"));
    assert_eq!(text(vec![unit("F", "push temp 7")]), format!("@R12\nD = M\n{PUSH}\n"));
    assert_eq!(text(vec![unit("F", "pop temp 0")]), format!("{POP}\n@R5\nM = D\n"));
}

#[test]
fn static_variables_are_named_by_their_unit() {
    let out = text(vec![unit("Foo", "push static 3"), unit("Bar", "pop static 3")]);
    assert_eq!(out, format!("@Foo.3\nD = M\n{PUSH}\n{POP}\n@Bar.3\nM = D\n"));
}

#[test]
fn segments_have_their_limits() {
    let bad = |program: &str| translate(&vec![unit("F", program)]).unwrap_err();
    assert_eq!(bad("pop constant 1"), VmError::PopConstant);
    assert_eq!(bad("push pointer 2"), VmError::PointerIndex);
    assert_eq!(bad("pop pointer 2"), VmError::PointerIndex);
    assert_eq!(bad("push temp 8"), VmError::TempIndex);
    assert_eq!(bad("pop temp 8"), VmError::TempIndex);
    let mut vm = HackVm::new();
    assert_eq!(vm.push(Segment::Static, 0), Err(VmError::NoFileName));
    assert_eq!(vm.pop(Segment::Static, 0), Err(VmError::NoFileName));
    assert_eq!(vm.out, Vec::<u8>::new());
}

#[test]
fn labels_are_scoped_by_their_function() {
    let out = text(vec![unit(
        "F",
        "label TOP\nfunction F.f 1\nlabel LOOP\ngoto LOOP\nif-goto LOOP\n",
    )]);
    assert_eq!(
        out,
        format!(
            "(TOP)\n(F.f)\nD = 0\n{PUSH}\n(F.f$LOOP)\n@F.f$LOOP\n1; JNE\n{POP}\n@F.f$LOOP\nD; JNE\n\n"
        )
    );
}

#[test]
fn a_function_zeroes_its_locals() {
    let out = text(vec![unit("F", "function F.f 3")]);
    assert_eq!(out, format!("(F.f)\nD = 0\n{PUSH}{PUSH}{PUSH}\n"));
}

#[test]
fn calls_return_to_labels_of_their_own() {
    let out = text(vec![unit("F", "call F.g 2\ncall F.g 0\n")]);
    assert_eq!(out, format!("{}{}", call_text("F.g", 2, 0), call_text("F.g", 0, 1)));
}

#[test]
fn arithmetic() {
    assert_eq!(
        text(vec![unit("F", "add\nsub\nand\nor\n")]),
        format!(
            "{POP}\n@SP\nA = M - 1\nM = M + D\n\n{POP}\n@SP\nA = M - 1\nM = M - D\n\n{POP}\n@SP\nA = M - 1\nM = M & D\n\n{POP}\n@SP\nA = M - 1\nM = M | D\n\n"
        )
    );
    assert_eq!(
        text(vec![unit("F", "neg\nnot\n")]),
        "@SP\nA = M - 1\nM = -M\n\n@SP\nA = M - 1\nM = !M\n\n"
    );
}

#[test]
fn comparisons_have_labels_of_their_own() {
    let compare = |jump: &str, k: usize| {
        format!(
            "{POP}\n@SP\nA = M - 1\nD = M - D\nM = -1\n@{jump}-{k}\nD; {jump}\n@SP\nA = M - 1\nM = 0\n({jump}-{k})\n"
        )
    };
    assert_eq!(
        text(vec![unit("F", "eq\ngt\neq\nlt\n")]),
        format!(
            "{}{}{}{}",
            compare("JEQ", 0),
            compare("JGT", 0),
            compare("JEQ", 1),
            compare("JLT", 0)
        )
    );
}

#[test]
fn return_restores_the_caller() {
    let out = text(vec![unit("F", "return")]);
    assert!(out.starts_with("// FRAME(= @R13) = LCL\n@LCL\nD = M\n@R13\nM = D\n"));
    assert!(out.contains("// RET = *(FRAME - 5)\n@R14\nM = D\n"));
    assert!(out.contains("@ARG\nD = M + 1\n@SP\nM = D\n"));
    assert!(out.ends_with("// goto RET\n@R14\nA = M\n1;JNE\n\n"));
}

#[test]
fn instructions_are_read_from_lines() {
    let (insns, errors) = parse(
        "// a comment\n\n  push constant 1 // one\n\tneg\r\nfunction Main.f 2\ncall Main.f +3\nlabel a.b_c:d\n",
    );
    assert_eq!(errors, vec![]);
    assert_eq!(
        insns,
        vec![
            Instruction { kind: InsnKind::Push(Segment::Constant, 1), line: 2 },
            Instruction { kind: InsnKind::Neg, line: 3 },
            Instruction { kind: InsnKind::DefFn(b"Main.f".to_vec(), 2), line: 4 },
            Instruction { kind: InsnKind::CallFn(b"Main.f".to_vec(), 3), line: 5 },
            Instruction { kind: InsnKind::Label(b"a.b_c:d".to_vec()), line: 6 },
        ]
    );
}

#[test]
fn every_instruction_has_its_word() {
    let kind = |code: &str| Instruction::parse(code.as_bytes(), 0).unwrap().kind;
    assert_eq!(kind("add"), InsnKind::Add);
    assert_eq!(kind("sub"), InsnKind::Sub);
    assert_eq!(kind("neg"), InsnKind::Neg);
    assert_eq!(kind("eq"), InsnKind::Eq);
    assert_eq!(kind("gt"), InsnKind::Gt);
    assert_eq!(kind("lt"), InsnKind::Lt);
    assert_eq!(kind("and"), InsnKind::And);
    assert_eq!(kind("or"), InsnKind::Or);
    assert_eq!(kind("not"), InsnKind::Not);
    assert_eq!(kind("pop that 65535"), InsnKind::Pop(Segment::That, 65535));
    assert_eq!(kind("goto L"), InsnKind::Goto(b"L".to_vec()));
    assert_eq!(kind("if-goto L"), InsnKind::IfGoto(b"L".to_vec()));
    assert_eq!(kind("return"), InsnKind::Return);
    // what follows the operands is not read
    assert_eq!(kind("add 1 2"), InsnKind::Add);
}

#[test]
fn lines_that_are_no_instructions() {
    let bad = |code: &str| Instruction::parse(code.as_bytes(), 0).unwrap_err();
    assert_eq!(bad(""), VmError::MissingInstruction);
    assert_eq!(bad("  "), VmError::MissingInstruction);
    assert_eq!(bad("mul"), VmError::UnknownInstruction);
    assert_eq!(bad("push"), VmError::MissingSegment);
    assert_eq!(bad("push heap 1"), VmError::UnknownSegment);
    assert_eq!(bad("push local"), VmError::MissingIndex);
    assert_eq!(bad("push local x"), VmError::InvalidNumber);
    assert_eq!(bad("push local 65536"), VmError::InvalidNumber);
    assert_eq!(bad("push local -1"), VmError::InvalidNumber);
    assert_eq!(bad("label"), VmError::MissingLabel);
    assert_eq!(bad("label 1a"), VmError::InvalidLabel);
    assert_eq!(bad("goto a-b"), VmError::InvalidLabel);
    assert_eq!(bad("function"), VmError::MissingFunctionName);
    assert_eq!(bad("function 9f 0"), VmError::InvalidFunctionName);
    assert_eq!(bad("function f"), VmError::MissingLocals);
    assert_eq!(bad("call f"), VmError::MissingArguments);
    let (insns, errors) = parse("add\nmul\nsub\n");
    assert_eq!(insns.len(), 2);
    assert_eq!(errors, vec![(1, VmError::UnknownInstruction)]);
}

#[test]
fn names() {
    assert!(validate(b"Main.main"));
    assert!(validate(b"a_b:c.d9"));
    assert!(!validate(b"9a"));
    assert!(!validate(b"a$b"));
    assert!(!validate(b"a b"));
    assert!(!validate("é".as_bytes()));
}

#[test]
fn segments_by_name() {
    for (name, segment) in [
        ("local", Segment::Local),
        ("argument", Segment::Argument),
        ("static", Segment::Static),
        ("constant", Segment::Constant),
        ("this", Segment::This),
        ("that", Segment::That),
        ("pointer", Segment::Pointer),
        ("temp", Segment::Temp),
    ] {
        assert_eq!(Segment::try_from(name.as_bytes()), Some(segment));
        assert_eq!(segment.name(), name);
    }
    assert_eq!(Segment::try_from(b"heap"), None);
}

fn defined_labels(out: &str) -> Vec<&str> {
    out.lines().filter(|l| l.starts_with('(')).collect()
}

#[test]
fn no_name_of_a_program_is_a_label_of_a_comparison() {
    let out = text(vec![unit(
        "F",
        "function JEQ0 0\neq\nlabel JEQ1\neq\ncall JEQ0 0\nfunction return.address0 0\ngt\nlt\n",
    )]);
    assert_eq!(
        defined_labels(&out),
        vec![
            "(JEQ0)",
            "(JEQ-0)",
            "(JEQ0$JEQ1)",
            "(JEQ-1)",
            "(return-address0)",
            "(return.address0)",
            "(JGT-0)",
            "(JLT-0)"
        ]
    );
}

#[test]
fn every_label_is_defined_once() {
    let out = text(vec![
        unit("Sys", "function Sys.init 0\nlabel L\neq\ncall Main.main 0\ngoto L\n"),
        unit("Main", "function Main.main 1\nlabel L\nlt\neq\ncall Main.main 0\nreturn\n"),
    ]);
    let labels = defined_labels(&out);
    assert_eq!(labels.len(), 10);
    for (i, a) in labels.iter().enumerate() {
        for b in &labels[i + 1..] {
            assert_ne!(a, b);
        }
    }
}
