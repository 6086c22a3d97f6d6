use hack_toolchain::assembler::codegen::{compile, unspaced};
use hack_toolchain::jack::session::CompilerSession;
use hack_toolchain::vm::parser::parse;
use hack_toolchain::vm::translate::translate;

fn build(sources: &[(&str, &str)]) -> Vec<Vec<u8>> {
    let mut sess = CompilerSession::new();
    for (_, source) in sources {
        sess.add_source(source).unwrap();
    }
    sess.register().unwrap();
    let compiled = sess.codegen();
    let mut units = Vec::new();
    for ((name, _), unit) in sources.iter().zip(compiled) {
        assert_eq!(unit.error, None);
        let code = String::from_utf8(unit.code).unwrap();
        let (insns, errors) = parse(&code);
        assert_eq!(errors, vec![]);
        units.push((name.as_bytes().to_vec(), insns));
    }
    let text = translate(&units).unwrap();
    let program = String::from_utf8(unspaced(&text)).unwrap();
    let (words, errors) = compile(&program);
    assert_eq!(errors, vec![]);
    words.unwrap()
}

#[test]
fn from_jack_to_machine_words() {
    let words = build(&[
        (
            "Main",
            "class Main { function void main() { var Counter c; var int n; let c = Counter.new(3); \
             while (c.get() > 0) { do c.down(); let n = n + 1; } \
             if (n = 3) { do Sys.halt(); } else { do Sys.error(1); } return; } }",
        ),
        (
            "Counter",
            "class Counter { field int value; static int made; \
             constructor Counter new(int start) { let value = start; let made = made + 1; return this; } \
             method int get() { return value; } \
             method void down() { let value = value - 1; return; } }",
        ),
    ]);
    assert!(words.len() > 100);
    for w in &words {
        assert_eq!(w.len(), 16);
        assert!(w.iter().all(|b| *b == b'0' || *b == b'1'));
    }
    // `function Main.main 2` starts with `D = 0`
    assert_eq!(words[0], b"1110101010010000".to_vec());
}

#[test]
fn a_program_with_sys_init_starts_by_setting_the_stack_pointer() {
    let (insns, errors) = parse("function Sys.init 0\ncall Sys.init 0\n");
    assert_eq!(errors, vec![]);
    let text = translate(&vec![(b"Sys".to_vec(), insns)]).unwrap();
    let program = String::from_utf8(unspaced(&text)).unwrap();
    let words = compile(&program).0.unwrap();
    assert_eq!(words[0], b"0000000100000000".to_vec());
    assert_eq!(words[1], b"1110110000010000".to_vec());
    assert_eq!(words[2], b"0000000000000000".to_vec());
    assert_eq!(words[3], b"1110001100001000".to_vec());
}

#[test]
fn every_instruction_of_the_stack_machine_assembles() {
    let code = "function F.f 2\npush constant 1\npush local 1\npush argument 0\npush this 1\n\
                push that 2\npush pointer 0\npush pointer 1\npush temp 3\npush static 4\n\
                pop local 0\npop argument 1\npop this 0\npop that 1\npop pointer 0\npop pointer 1\n\
                pop temp 7\npop static 0\nadd\nsub\nneg\neq\ngt\nlt\nand\nor\nnot\n\
                label L\ngoto L\nif-goto L\ncall F.f 1\nreturn\n";
    let (insns, errors) = parse(code);
    assert_eq!(errors, vec![]);
    assert_eq!(insns.len(), 32);
    let text = translate(&vec![(b"F".to_vec(), insns)]).unwrap();
    let program = String::from_utf8(unspaced(&text)).unwrap();
    let (words, errors) = compile(&program);
    assert_eq!(errors, vec![]);
    assert!(words.is_ok());
}
