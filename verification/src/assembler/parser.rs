//! The parser of Hack assembly, and the pass that gives every symbol its
//! address.
use vstd::prelude::*;

use crate::assembler::commands::{command, ACommand, AsmError, Command, CommandView};
use crate::assembler::commands::a::ACommandView;
use crate::assembler::symbol::{SymbolsView, SymbolTable};
use crate::text::{lit, search_byte, search_pair, trim, trimmed, NEWLINE, SLASH};
use crate::vm::parser::{bytes_left, code_of, lemma_find_byte, line_end};

verus! {

/// What a program was read as: its commands, and the lines that are no
/// commands with the reasons. Lines count from 0.
pub struct Parsing {
    pub commands: Seq<CommandView>,
    pub errors: Seq<(nat, AsmError)>,
}

/// What the line `line` adds to `acc`: nothing if it holds no code, else its
/// command or the reason why it is none.
pub open spec fn parse_line(line: Seq<u8>, row: nat, acc: Parsing) -> Parsing {
    let code = trimmed(code_of(line));
    if code.len() == 0 {
        acc
    } else {
        match command(code) {
            Ok(c) => Parsing { commands: acc.commands.push(c), ..acc },
            Err(e) => Parsing { errors: acc.errors.push((row, e)), ..acc },
        }
    }
}

/// What the lines of `src` from `pos` on add to `acc`; `row` is the number of
/// the line at `pos`.
pub open spec fn parse_from(src: Seq<u8>, pos: nat, row: nat, acc: Parsing) -> Parsing
    decreases bytes_left(src, pos),
{
    if pos >= src.len() {
        acc
    } else {
        let e = line_end(src, pos);
        proof {
            lemma_find_byte(src, pos, NEWLINE);
        }
        parse_from(src, e + 1, row + 1, parse_line(src.subrange(pos as int, e as int), row, acc))
    }
}

/// What the program `src` is read as.
pub open spec fn parse_program(src: Seq<u8>) -> Parsing {
    parse_from(src, 0, 0, Parsing { commands: Seq::empty(), errors: Seq::empty() })
}

/// The elements of `v` as contracts see them.
pub open spec fn commands_view(v: Seq<Command>) -> Seq<CommandView> {
    Seq::new(v.len(), |i: int| v[i]@)
}

/// The elements of `v` as contracts see them.
pub open spec fn errors_view(v: Seq<(usize, AsmError)>) -> Seq<(nat, AsmError)> {
    Seq::new(v.len(), |i: int| (v[i].0 as nat, v[i].1))
}

/// Reads a program: every line that is neither empty nor a comment is a
/// command, or is reported.
pub fn parse(program: &str) -> (r: (Vec<Command>, Vec<(usize, AsmError)>))
    ensures
        commands_view(r.0@) == parse_program(lit(program)).commands,
        errors_view(r.1@) == parse_program(lit(program)).errors,
{
    parse_bytes(program.as_bytes())
}

/// Reads a program from its bytes.
pub fn parse_bytes(src: &[u8]) -> (r: (Vec<Command>, Vec<(usize, AsmError)>))
    ensures
        commands_view(r.0@) == parse_program(src@).commands,
        errors_view(r.1@) == parse_program(src@).errors,
{
    let mut commands: Vec<Command> = Vec::new();
    let mut errors: Vec<(usize, AsmError)> = Vec::new();
    let mut pos: usize = 0;
    let mut row: usize = 0;
    assert(commands_view(commands@) =~= Seq::<CommandView>::empty());
    assert(errors_view(errors@) =~= Seq::<(nat, AsmError)>::empty());
    while pos < src.len()
        invariant
            row <= pos,
            parse_from(
                src@,
                pos as nat,
                row as nat,
                Parsing { commands: commands_view(commands@), errors: errors_view(errors@) },
            ) == parse_program(src@),
        decreases src@.len() - pos,
    {
        let end = match search_byte(src, pos, NEWLINE) {
            Some(p) => p,
            None => src.len(),
        };
        let line = vstd::slice::slice_subrange(src, pos, end);
        let code = match search_pair(line, 0, SLASH, SLASH) {
            Some(p) => vstd::slice::slice_subrange(line, 0, p),
            None => line,
        };
        let text = trim(code);
        let ghost before = Parsing {
            commands: commands_view(commands@),
            errors: errors_view(errors@),
        };
        proof {
            lemma_find_byte(src@, pos as nat, NEWLINE);
            assert(line_end(src@, pos as nat) == end);
            assert(code@ == code_of(src@.subrange(pos as int, end as int)));
        }
        if text.len() > 0 {
            match Command::parse(text) {
                Ok(c) => {
                    let ghost cv = c@;
                    commands.push(c);
                    assert(commands_view(commands@) =~= before.commands.push(cv));
                },
                Err(e) => {
                    errors.push((row, e));
                    assert(errors_view(errors@) =~= before.errors.push((row as nat, e)));
                },
            }
        }
        let ghost after = Parsing {
            commands: commands_view(commands@),
            errors: errors_view(errors@),
        };
        assert(after == parse_line(src@.subrange(pos as int, end as int), row as nat, before));
        assert(parse_from(src@, pos as nat, row as nat, before) == parse_from(
            src@,
            (end + 1) as nat,
            (row + 1) as nat,
            after,
        ));
        if end >= src.len() {
            assert(parse_from(src@, (end + 1) as nat, (row + 1) as nat, after) == after);
            return (commands, errors);
        }
        pos = end + 1;
        row = row + 1;
    }
    (commands, errors)
}

/// The outcome of giving addresses: the table, or the reason why the
/// addresses do not suffice.
pub struct Loaded {
    pub table: SymbolsView,
    pub res: Result<(), AsmError>,
}

/// The first pass, from the `i`-th command on: a label gets the address of
/// the next instruction, `pc`, unless it has an address already. Labels
/// take no room.
pub open spec fn load_labels(
    commands: Seq<CommandView>,
    i: nat,
    pc: nat,
    table: SymbolsView,
) -> Loaded
    decreases commands.len() - i,
{
    if i >= commands.len() {
        Loaded { table, res: Ok(()) }
    } else {
        match commands[i as int] {
            CommandView::L(l) => if table.table.dom().contains(l) {
                load_labels(commands, i + 1, pc, table)
            } else if pc >= 0x8000 {
                Loaded { table, res: Err(AsmError::ProgramTooLong) }
            } else {
                load_labels(
                    commands,
                    i + 1,
                    pc,
                    SymbolsView { table: table.table.insert(l, pc), ..table },
                )
            },
            _ => load_labels(commands, i + 1, pc + 1, table),
        }
    }
}

/// The second pass, from the `i`-th command on: a symbol without an address
/// is a variable, and gets the next address from 16 on.
pub open spec fn load_variables(commands: Seq<CommandView>, i: nat, table: SymbolsView) -> Loaded
    decreases commands.len() - i,
{
    if i >= commands.len() {
        Loaded { table, res: Ok(()) }
    } else {
        match commands[i as int] {
            CommandView::A(ACommandView::Symbol(s)) => if table.table.dom().contains(s) {
                load_variables(commands, i + 1, table)
            } else if table.variables >= 0x8000 - 16 {
                Loaded { table, res: Err(AsmError::TooManySymbols) }
            } else {
                load_variables(
                    commands,
                    i + 1,
                    SymbolsView {
                        table: table.table.insert(s, 16 + table.variables),
                        variables: table.variables + 1,
                    },
                )
            },
            _ => load_variables(commands, i + 1, table),
        }
    }
}

/// Both passes.
pub open spec fn load(commands: Seq<CommandView>, table: SymbolsView) -> Loaded {
    let a = load_labels(commands, 0, 0, table);
    if a.res is Err {
        a
    } else {
        load_variables(commands, 0, a.table)
    }
}

/// Gives every label and every variable of `commands` its address in
/// `table`.
pub fn load_symbol(commands: &Vec<Command>, table: &mut SymbolTable) -> (r: Result<(), AsmError>)
    requires
        old(table).wf(),
    ensures
        final(table).wf(),
        final(table)@ == load(commands_view(commands@), old(table)@).table,
        r == load(commands_view(commands@), old(table)@).res,
{
    let ghost cs = commands_view(commands@);
    let mut pc: usize = 0;
    let mut i: usize = 0;
    while i < commands.len()
        invariant
            table.wf(),
            i <= commands@.len(),
            pc <= i,
            cs == commands_view(commands@),
            load_labels(cs, i as nat, pc as nat, table@) == load_labels(cs, 0, 0, old(table)@),
        decreases commands@.len() - i,
    {
        assert(cs[i as int] == commands@[i as int]@);
        match &commands[i] {
            Command::L(l) => {
                if !table.contains(l.0.as_slice()) {
                    if pc >= 0x8000 {
                        return Err(AsmError::ProgramTooLong);
                    }
                    table.register_label(l.0.as_slice(), pc as u16);
                }
            },
            _ => {
                pc = pc + 1;
            },
        }
        i = i + 1;
    }
    let ghost labelled = table@;
    let mut k: usize = 0;
    while k < commands.len()
        invariant
            table.wf(),
            k <= commands@.len(),
            cs == commands_view(commands@),
            load_variables(cs, k as nat, table@) == load_variables(cs, 0, labelled),
            load_variables(cs, 0, labelled) == load(cs, old(table)@),
        decreases commands@.len() - k,
    {
        assert(cs[k as int] == commands@[k as int]@);
        match &commands[k] {
            Command::A(ACommand::Symbol(s)) => {
                if !table.contains(s.as_slice()) {
                    if !table.register_symbol(s.as_slice()) {
                        return Err(AsmError::TooManySymbols);
                    }
                }
            },
            _ => {},
        }
        k = k + 1;
    }
    Ok(())
}

} // verus!
