//! The generator of machine words: `0` and fifteen bits of address for an
//! address command; `111`, seven bits of computation, three of destination
//! and three of jump for a compute command. A label makes no word.
use vstd::prelude::*;

use crate::assembler::commands::{ACommand, AsmError, Command, CommandView};
use crate::assembler::commands::a::ACommandView;
use crate::assembler::parser::{
    commands_view, errors_view, load, load_symbol, parse_bytes, parse_program,
};
use crate::assembler::symbol::{address_of, predefined, SymbolsView, SymbolTable};
use crate::fx::{entry_at, index_entries, index_get, index_insert, index_new, NameIndex};
use crate::text::{bits, lemma_bits, lit, lit_vec, push_bits, strip_spaces, without_spaces};

verus! {

/// The seven bits of the computation that `comp` spells, if the machine has
/// it. A sum, a conjunction or a disjunction may be written either way
/// round.
pub open spec fn comp_code(comp: Seq<u8>) -> Option<nat> {
    if comp == lit("0") {
        Some(42)
    } else if comp == lit("1") {
        Some(63)
    } else if comp == lit("-1") {
        Some(58)
    } else if comp == lit("D") {
        Some(12)
    } else if comp == lit("A") {
        Some(48)
    } else if comp == lit("!D") {
        Some(13)
    } else if comp == lit("!A") {
        Some(49)
    } else if comp == lit("-D") {
        Some(15)
    } else if comp == lit("-A") {
        Some(51)
    } else if comp == lit("D+1") {
        Some(31)
    } else if comp == lit("A+1") {
        Some(55)
    } else if comp == lit("D-1") {
        Some(14)
    } else if comp == lit("A-1") {
        Some(50)
    } else if comp == lit("D+A") {
        Some(2)
    } else if comp == lit("A+D") {
        Some(2)
    } else if comp == lit("D-A") {
        Some(19)
    } else if comp == lit("A-D") {
        Some(7)
    } else if comp == lit("D&A") {
        Some(0)
    } else if comp == lit("A&D") {
        Some(0)
    } else if comp == lit("D|A") {
        Some(21)
    } else if comp == lit("A|D") {
        Some(21)
    } else if comp == lit("M") {
        Some(112)
    } else if comp == lit("!M") {
        Some(113)
    } else if comp == lit("-M") {
        Some(115)
    } else if comp == lit("M+1") {
        Some(119)
    } else if comp == lit("M-1") {
        Some(114)
    } else if comp == lit("D+M") {
        Some(66)
    } else if comp == lit("M+D") {
        Some(66)
    } else if comp == lit("D-M") {
        Some(83)
    } else if comp == lit("M-D") {
        Some(71)
    } else if comp == lit("D&M") {
        Some(64)
    } else if comp == lit("M&D") {
        Some(64)
    } else if comp == lit("D|M") {
        Some(85)
    } else if comp == lit("M|D") {
        Some(85)
    } else {
        None
    }
}

/// The table of the computations: for each spelling, its seven bits.
pub struct Opcodes {
    table: NameIndex,
}

impl Opcodes {
    /// The table holds the computations of the machine, and nothing else.
    pub closed spec fn wf(&self) -> bool {
        forall|comp: Seq<u8>| #[trigger]
            entry_at(index_entries(self.table), comp) == match comp_code(comp) {
                Some(c) => Some(c as usize),
                None => None,
            }
    }

    /// The table of the computations of the machine.
    pub fn new() -> (o: Opcodes)
        ensures
            o.wf(),
    {
        let mut table = index_new();
        index_insert(&mut table, lit_vec("M|D"), 85);
        index_insert(&mut table, lit_vec("D|M"), 85);
        index_insert(&mut table, lit_vec("M&D"), 64);
        index_insert(&mut table, lit_vec("D&M"), 64);
        index_insert(&mut table, lit_vec("M-D"), 71);
        index_insert(&mut table, lit_vec("D-M"), 83);
        index_insert(&mut table, lit_vec("M+D"), 66);
        index_insert(&mut table, lit_vec("D+M"), 66);
        index_insert(&mut table, lit_vec("M-1"), 114);
        index_insert(&mut table, lit_vec("M+1"), 119);
        index_insert(&mut table, lit_vec("-M"), 115);
        index_insert(&mut table, lit_vec("!M"), 113);
        index_insert(&mut table, lit_vec("M"), 112);
        index_insert(&mut table, lit_vec("A|D"), 21);
        index_insert(&mut table, lit_vec("D|A"), 21);
        index_insert(&mut table, lit_vec("A&D"), 0);
        index_insert(&mut table, lit_vec("D&A"), 0);
        index_insert(&mut table, lit_vec("A-D"), 7);
        index_insert(&mut table, lit_vec("D-A"), 19);
        index_insert(&mut table, lit_vec("A+D"), 2);
        index_insert(&mut table, lit_vec("D+A"), 2);
        index_insert(&mut table, lit_vec("A-1"), 50);
        index_insert(&mut table, lit_vec("D-1"), 14);
        index_insert(&mut table, lit_vec("A+1"), 55);
        index_insert(&mut table, lit_vec("D+1"), 31);
        index_insert(&mut table, lit_vec("-A"), 51);
        index_insert(&mut table, lit_vec("-D"), 15);
        index_insert(&mut table, lit_vec("!A"), 49);
        index_insert(&mut table, lit_vec("!D"), 13);
        index_insert(&mut table, lit_vec("A"), 48);
        index_insert(&mut table, lit_vec("D"), 12);
        index_insert(&mut table, lit_vec("-1"), 58);
        index_insert(&mut table, lit_vec("1"), 63);
        index_insert(&mut table, lit_vec("0"), 42);
        Opcodes { table }
    }

    /// The seven bits of the computation that `comp` spells.
    pub fn code(&self, comp: &[u8]) -> (r: Option<u16>)
        requires
            self.wf(),
        ensures
            match r {
                Some(c) => comp_code(comp@) == Some(c as nat),
                None => comp_code(comp@).is_none(),
            },
    {
        assert(entry_at(index_entries(self.table), comp@) == match comp_code(comp@) {
            Some(c) => Some(c as usize),
            None => None,
        });
        match index_get(&self.table, comp) {
            Some(c) => Some(c as u16),
            None => None,
        }
    }
}

/// The word for the address `address`.
pub open spec fn a_word(address: nat) -> Seq<u8> {
    lit("0") + bits(address, 15)
}

/// The word for a compute command.
pub open spec fn c_word(comp: nat, dest: nat, jump: nat) -> Seq<u8> {
    lit("111") + bits(comp, 7) + bits(dest, 3) + bits(jump, 3)
}

/// The word for one command; a label has none.
pub open spec fn word_of(c: CommandView, table: Map<Seq<u8>, nat>) -> Result<
    Option<Seq<u8>>,
    AsmError,
> {
    match c {
        CommandView::A(ACommandView::Value(v)) => if v < 0 {
            Err(AsmError::NegativeAddress)
        } else {
            Ok(Some(a_word(v as nat)))
        },
        CommandView::A(ACommandView::Symbol(s)) => match address_of(table, s) {
            Some(a) => Ok(Some(a_word(a))),
            None => Err(AsmError::UnknownSymbol),
        },
        CommandView::C(c) => match comp_code(c.comp) {
            Some(code) => Ok(Some(c_word(code, c.dest.code(), c.jump.code()))),
            None => Err(AsmError::UnknownComp),
        },
        CommandView::L(_) => Ok(None),
    }
}

/// Whether `w` is a machine word as it is written: sixteen digits, each `0`
/// or `1`.
pub open spec fn is_word(w: Seq<u8>) -> bool {
    w.len() == 16 && forall|i: int| 0 <= i < 16 ==> (#[trigger] w[i]) == 48 || w[i] == 49
}

/// Every command that makes a word makes one of sixteen digits `0` and `1`.
pub proof fn lemma_word_shape(c: CommandView, table: Map<Seq<u8>, nat>)
    requires
        word_of(c, table) matches Ok(Some(_)),
    ensures
        is_word(word_of(c, table)->Ok_0->0),
{
    reveal_strlit("0");
    reveal_strlit("111");
    vstd::string::is_ascii_spec_bytes("0");
    vstd::string::is_ascii_spec_bytes("111");
    assert(lit("0") =~= seq![48u8]);
    assert(lit("111") =~= seq![49u8, 49u8, 49u8]);
    let w = word_of(c, table)->Ok_0->0;
    match c {
        CommandView::A(ACommandView::Value(v)) => {
            lemma_bits(v as nat, 15);
        },
        CommandView::A(ACommandView::Symbol(s)) => {
            lemma_bits(address_of(table, s)->0, 15);
        },
        CommandView::C(cc) => {
            lemma_bits(comp_code(cc.comp)->0, 7);
            lemma_bits(cc.dest.code(), 3);
            lemma_bits(cc.jump.code(), 3);
        },
        CommandView::L(_) => {},
    }
}

/// The words for the commands from the `i`-th on, behind the words `acc`.
pub open spec fn words_from(
    commands: Seq<CommandView>,
    i: nat,
    table: Map<Seq<u8>, nat>,
    acc: Seq<Seq<u8>>,
) -> Result<Seq<Seq<u8>>, AsmError>
    decreases commands.len() - i,
{
    if i >= commands.len() {
        Ok(acc)
    } else {
        match word_of(commands[i as int], table) {
            Err(e) => Err(e),
            Ok(Some(w)) => words_from(commands, i + 1, table, acc.push(w)),
            Ok(None) => words_from(commands, i + 1, table, acc),
        }
    }
}

/// The elements of `v` as contracts see them.
pub open spec fn lines_view(v: Seq<Vec<u8>>) -> Seq<Seq<u8>> {
    Seq::new(v.len(), |i: int| v[i]@)
}

/// The result `r` as contracts see it.
pub open spec fn words_result(r: Result<Vec<Vec<u8>>, AsmError>) -> Result<Seq<Seq<u8>>, AsmError> {
    match r {
        Ok(v) => Ok(lines_view(v@)),
        Err(e) => Err(e),
    }
}

/// Makes the word for one command, with the table of computations `codes`.
pub fn word(c: &Command, table: &SymbolTable, codes: &Opcodes) -> (r: Result<
    Option<Vec<u8>>,
    AsmError,
>)
    requires
        table.wf(),
        codes.wf(),
    ensures
        match r {
            Ok(Some(w)) => word_of(c@, table@.table) == Ok::<Option<Seq<u8>>, AsmError>(Some(w@)),
            Ok(None) => word_of(c@, table@.table) == Ok::<Option<Seq<u8>>, AsmError>(None),
            Err(e) => word_of(c@, table@.table) == Err::<Option<Seq<u8>>, AsmError>(e),
        },
{
    match c {
        Command::A(a) => {
            let address: u16 = match a {
                ACommand::Value(v) => {
                    if *v < 0 {
                        return Err(AsmError::NegativeAddress);
                    }
                    *v as u16
                },
                ACommand::Symbol(s) => match table.address(s.as_slice()) {
                    Some(a) => a,
                    None => {
                        return Err(AsmError::UnknownSymbol);
                    },
                },
            };
            let mut w = lit_vec("0");
            push_bits(&mut w, address, 15);
            Ok(Some(w))
        },
        Command::C(c) => {
            let code = match codes.code(c.comp.as_slice()) {
                Some(code) => code,
                None => {
                    return Err(AsmError::UnknownComp);
                },
            };
            let mut w = lit_vec("111");
            push_bits(&mut w, code, 7);
            push_bits(&mut w, c.dest.bits(), 3);
            push_bits(&mut w, c.jump.bits(), 3);
            Ok(Some(w))
        },
        Command::L(_) => Ok(None),
    }
}

/// Makes the words for `commands`, one line of sixteen digits for each
/// command that is no label.
pub fn generate(commands: &Vec<Command>, table: &SymbolTable) -> (r: Result<
    Vec<Vec<u8>>,
    AsmError,
>)
    requires
        table.wf(),
    ensures
        words_result(r) == words_from(commands_view(commands@), 0, table@.table, Seq::empty()),
{
    let codes = Opcodes::new();
    let ghost cs = commands_view(commands@);
    let mut mcode: Vec<Vec<u8>> = Vec::new();
    let mut i: usize = 0;
    assert(lines_view(mcode@) =~= Seq::<Seq<u8>>::empty());
    while i < commands.len()
        invariant
            table.wf(),
            codes.wf(),
            cs == commands_view(commands@),
            i <= commands@.len(),
            words_from(cs, i as nat, table@.table, lines_view(mcode@)) == words_from(
                cs,
                0,
                table@.table,
                Seq::empty(),
            ),
        decreases commands@.len() - i,
    {
        assert(cs[i as int] == commands@[i as int]@);
        match word(&commands[i], table, &codes) {
            Ok(Some(w)) => {
                let ghost before = lines_view(mcode@);
                let ghost wv = w@;
                mcode.push(w);
                assert(lines_view(mcode@) =~= before.push(wv));
            },
            Ok(None) => {},
            Err(e) => {
                return Err(e);
            },
        }
        i = i + 1;
    }
    Ok(mcode)
}

/// A program as the assembler reads it: without its spaces.
pub fn unspaced(program: &[u8]) -> (r: Vec<u8>)
    ensures
        r@ == without_spaces(program@, program@.len()),
{
    strip_spaces(program)
}

/// What assembling the program `src` gives: its words, or the reason why it
/// has none.
pub open spec fn assemble(src: Seq<u8>) -> Result<Seq<Seq<u8>>, AsmError> {
    let commands = parse_program(src).commands;
    let l = load(commands, SymbolsView { table: predefined(), variables: 0 });
    match l.res {
        Err(e) => Err(e),
        Ok(_) => words_from(commands, 0, l.table.table, Seq::empty()),
    }
}

/// Assembles a program: its lines are read, its symbols get their addresses,
/// and its commands become words. The lines that are no commands are
/// returned too, and make no words.
pub fn compile(program: &str) -> (r: (Result<Vec<Vec<u8>>, AsmError>, Vec<(usize, AsmError)>))
    ensures
        errors_view(r.1@) == parse_program(lit(program)).errors,
        words_result(r.0) == assemble(lit(program)),
{
    let (commands, errors) = parse_bytes(program.as_bytes());
    let mut table = SymbolTable::new();
    match load_symbol(&commands, &mut table) {
        Ok(_) => {},
        Err(e) => {
            return (Err(e), errors);
        },
    }
    (generate(&commands, &table), errors)
}

} // verus!
