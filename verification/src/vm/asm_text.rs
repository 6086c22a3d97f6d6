//! What the translator writes: for each instruction of the stack machine,
//! the Hack assembly that does its work.
//!
//! The stack grows upwards from the address in `SP`. The segments `local`,
//! `argument`, `this` and `that` start at the addresses in `LCL`, `ARG`,
//! `THIS` and `THAT`; `pointer` is `THIS` and `THAT` themselves; `temp` is the
//! registers `R5` to `R12`; a static variable is a symbol made of the unit's
//! name and the index.
use vstd::prelude::*;

use crate::text::{dec, lemma_dec_injective, lit};
use crate::vm::insn::{InsnKindView, Instruction, VmError};
use crate::vm::segment::Segment;

verus! {

/// The state of a translation.
pub struct VmView {
    /// The assembly written so far.
    pub text: Seq<u8>,
    /// The name of the unit that is being translated.
    pub file: Option<Seq<u8>>,
    /// The name of the function that is being translated.
    pub func: Option<Seq<u8>>,
    /// For each symbol, how many labels were made from it.
    pub labels: Map<Seq<u8>, nat>,
    /// The labels that the text defines, in the order of their lines.
    pub defined: Seq<Seq<u8>>,
}

/// The outcome of translating one piece: the state behind it, and the error
/// that ended the translation, if one did.
pub struct Step {
    pub st: VmView,
    pub res: Result<(), VmError>,
}

/// The outcome of a piece that was lowered.
pub open spec fn fine(st: VmView) -> Step {
    Step { st, res: Ok(()) }
}

/// The outcome of a piece that was not lowered, because of `e`.
pub open spec fn fail(st: VmView, e: VmError) -> Step {
    Step { st, res: Err(e) }
}

impl VmView {
    /// More text.
    pub open spec fn put(self, s: Seq<u8>) -> VmView {
        VmView { text: self.text + s, ..self }
    }

    /// More text: the bytes of `s`.
    pub open spec fn say(self, s: &str) -> VmView {
        self.put(lit(s))
    }

    /// The value of `D` goes on top of the stack.
    pub open spec fn push_d(self) -> VmView {
        self.say("@SP\nA = M\nM = D\n@SP\nM = M + 1\n")
    }

    /// The top of the stack goes to `D`.
    pub open spec fn pop_d(self) -> VmView {
        self.say("@SP\nAM = M - 1\nD = M\n")
    }

    /// `D` is pushed `n` times.
    pub open spec fn push_d_times(self, n: nat) -> VmView
        decreases n,
    {
        if n == 0 {
            self
        } else {
            self.push_d_times((n - 1) as nat).push_d()
        }
    }

    /// `A` is moved forward `n` times.
    pub open spec fn forward(self, n: nat) -> VmView
        decreases n,
    {
        if n == 0 {
            self
        } else {
            self.forward((n - 1) as nat).say("A = A + 1\n")
        }
    }

    /// The state at the start of the unit called `name`.
    pub open spec fn in_unit(self, name: Seq<u8>) -> VmView {
        VmView { file: Some(name), ..self }
    }

    /// A jump to `label`.
    pub open spec fn jump(self, label: Seq<u8>) -> VmView {
        self.say("@").put(label).say("\n1; JNE\n")
    }

    /// The line that defines `label`. No other line of the text defines a
    /// label.
    pub open spec fn define(self, label: Seq<u8>) -> VmView {
        VmView { defined: self.defined.push(label), ..self.say("(").put(label).say(")\n") }
    }
}

/// The symbol of the static variable `index` of the unit `file`.
pub open spec fn static_symbol(file: Seq<u8>, index: u16) -> Seq<u8> {
    file + lit(".") + dec(index as nat)
}

/// The label `label` as it is written: within a function the name of the
/// function and `$` stand before it.
pub open spec fn scoped_label(func: Option<Seq<u8>>, label: Seq<u8>) -> Seq<u8> {
    match func {
        Some(f) => f + lit("$") + label,
        None => label,
    }
}

/// The register that starts a segment, for the segments that a register
/// starts.
pub open spec fn base_of(segment: Segment) -> Option<&'static str> {
    match segment {
        Segment::Local => Some("LCL"),
        Segment::Argument => Some("ARG"),
        Segment::This => Some("THIS"),
        Segment::That => Some("THAT"),
        _ => None,
    }
}

/// `A` gets the address of `segment[index]`. There is no address among the
/// constants, `pointer` has two registers, `temp` has eight, and a static
/// variable needs a unit.
#[verifier::opaque]
pub open spec fn address(st: VmView, segment: Segment, index: u16) -> Step {
    match segment {
        Segment::Constant => fail(st, VmError::PopConstant),
        Segment::Static => match st.file {
            Some(file) => fine(st.say("@").put(static_symbol(file, index))),
            None => fail(st, VmError::NoFileName),
        },
        Segment::Pointer => if index == 0 {
            fine(st.say("@THIS"))
        } else if index == 1 {
            fine(st.say("@THAT"))
        } else {
            fail(st, VmError::PointerIndex)
        },
        Segment::Temp => if index <= 7 {
            fine(st.say("@R").put(dec((index + 5) as nat)))
        } else {
            fail(st, VmError::TempIndex)
        },
        _ => fine(st.say("@").say(base_of(segment)->0).say("\nA = M\n").forward(index as nat)),
    }
}

/// `push segment index`
#[verifier::opaque]
pub open spec fn emit_push(st: VmView, segment: Segment, index: u16) -> Step {
    match segment {
        Segment::Constant => fine(
            st.say("@").put(dec(index as nat)).say("\nD = A\n").push_d().say("\n"),
        ),
        _ => {
            let a = address(st, segment, index);
            if a.res is Err {
                a
            } else {
                fine(a.st.say("\nD = M\n").push_d().say("\n"))
            }
        },
    }
}

/// `pop segment index`
#[verifier::opaque]
pub open spec fn emit_pop(st: VmView, segment: Segment, index: u16) -> Step {
    let a = address(st.pop_d().say("\n"), segment, index);
    if a.res is Err {
        fail(st, a.res->Err_0)
    } else {
        fine(a.st.say("\nM = D\n"))
    }
}

/// `function name n`: the label of the function, and `n` local variables
/// that are 0.
#[verifier::opaque]
pub open spec fn emit_define(st: VmView, name: Seq<u8>, n: u16) -> VmView {
    (VmView { func: Some(name), ..st }).define(name).say("D = 0\n").push_d_times(n as nat).say(
        "\n",
    )
}

/// The register `name` is saved on the stack.
pub open spec fn save(st: VmView, name: &str) -> VmView {
    st.say("@").say(name).say("\nD = M\n").push_d().say("\n")
}

/// A label made from `symbol` that was not made before, and the state
/// behind it.
pub open spec fn fresh(st: VmView, symbol: Seq<u8>) -> (Seq<u8>, VmView) {
    (
        symbol + dec(st.labels[symbol]),
        VmView { labels: st.labels.insert(symbol, st.labels[symbol] + 1), ..st },
    )
}

/// Two labels made from one symbol are different texts.
pub proof fn lemma_fresh_labels_differ(symbol: Seq<u8>, a: nat, b: nat)
    requires
        a != b,
    ensures
        symbol + dec(a) != symbol + dec(b),
{
    let x = symbol + dec(a);
    let y = symbol + dec(b);
    if x == y {
        assert(x.subrange(symbol.len() as int, x.len() as int) =~= dec(a));
        assert(y.subrange(symbol.len() as int, y.len() as int) =~= dec(b));
        lemma_dec_injective(a, b);
    }
}

/// A label that `fresh` makes leaves a state in which `fresh` makes
/// another: no label is made twice from one symbol.
pub proof fn lemma_fresh_is_new(st: VmView, symbol: Seq<u8>)
    ensures
        fresh(fresh(st, symbol).1, symbol).0 != fresh(st, symbol).0,
{
    lemma_fresh_labels_differ(symbol, st.labels[symbol], st.labels[symbol] + 1);
}

/// `call name n`: the return address and the caller's four registers are
/// saved, `ARG` is set to the first of the `n` arguments, `LCL` to the top of
/// the stack, and the function is entered. The return address is a label of
/// its own behind the jump.
#[verifier::opaque]
pub open spec fn emit_call(st: VmView, name: Seq<u8>, n: u16) -> Step {
    if st.labels[lit("return-address")] >= usize::MAX {
        fail(st, VmError::TooManyLabels)
    } else {
        let f = fresh(st, lit("return-address"));
        let saved = save(
            save(
                save(save(f.1.say("@").put(f.0).say("\nD = A\n").push_d().say("\n"), "LCL"), "ARG"),
                "THIS",
            ),
            "THAT",
        );
        fine(
            saved.say("@").put(dec((n + 5) as nat)).say(
                "\nD = A\n@SP\nD = M - D\n@ARG\nM = D\n\n",
            ).say("@SP\nD = M\n@LCL\nM = D\n").jump(name).define(f.0),
        )
    }
}

/// `return`: the frame is at `LCL`; the return address is kept in `R14`; the
/// returned value replaces the first argument; the caller's registers are
/// restored from the frame; the caller goes on.
#[verifier::opaque]
pub open spec fn emit_return(st: VmView) -> VmView {
    st.say(
        "// FRAME(= @R13) = LCL\n@LCL\nD = M\n@R13\nM = D\n\n// FRAME - 5\n@5\nA = D - A\nD = M\n// RET = *(FRAME - 5)\n@R14\nM = D\n\n@SP\nA = M - 1\nD = M\n@R15\nM = D\n\n@ARG\nD = M + 1\n@SP\nM = D\n\n// SP - 1 = RET\n@R15\nD = M\n@SP\nA = M - 1\nM = D\n\n// THAT = *(FRAME - 1)\n@R13\nA = M - 1\nD = M\n@THAT\nM = D\n\n// THIS = *(FRAME - 2)\n@2\nD = A\n@R13\nA = M - D\nD = M\n@THIS\nM = D\n\n// ARG = *(FRAME - 3)\n@3\nD = A\n@R13\nA = M - D\nD = M\n@ARG\nM = D\n\n// LCL = *(FRAME - 4)\n@4\nD = A\n@R13\nA = M - D\nD = M\n@LCL\nM = D\n\n// goto RET\n@R14\nA = M\n1;JNE\n",
    ).say("\n")
}

/// The symbol from which the labels of the comparison with the jump `jump`
/// are made. Its hyphen keeps them apart from every name of a program.
pub open spec fn compare_symbol(jump: &str) -> Seq<u8> {
    lit(jump) + lit("-")
}

/// `eq`, `gt` or `lt`: the two values on top of the stack are replaced by -1
/// if the first stands in the relation `jump` to the second, else by 0. The
/// jump goes to a label of its own.
#[verifier::opaque]
pub open spec fn emit_compare(st: VmView, jump: &str) -> Step {
    if st.labels[compare_symbol(jump)] >= usize::MAX {
        fail(st, VmError::TooManyLabels)
    } else {
        let f = fresh(st, compare_symbol(jump));
        fine(
            f.1.pop_d().say("\n@SP\nA = M - 1\nD = M - D\nM = -1\n@").put(f.0).say("\nD; ").say(
                jump,
            ).say("\n@SP\nA = M - 1\nM = 0\n").define(f.0),
        )
    }
}

/// `add`, `sub`, `and` or `or`: the two values on top of the stack are
/// replaced by what `op` makes of them.
#[verifier::opaque]
pub open spec fn emit_binary(st: VmView, op: &str) -> VmView {
    st.pop_d().say("\n@SP\nA = M - 1\nM = M ").say(op).say(" D\n\n")
}

/// `neg` or `not`: the value on top of the stack is replaced by what `op`
/// makes of it.
#[verifier::opaque]
pub open spec fn emit_unary(st: VmView, op: &str) -> VmView {
    st.say("@SP\nA = M - 1\nM = ").say(op).say("M\n\n")
}

/// `if-goto label`: the top of the stack is taken off, and if it is not 0
/// the translation jumps.
#[verifier::opaque]
pub open spec fn emit_if_goto(st: VmView, label: Seq<u8>) -> VmView {
    st.pop_d().say("\n@").put(label).say("\nD; JNE\n\n")
}

/// `label l`: the label, as it is written in the current function.
#[verifier::opaque]
pub open spec fn emit_label(st: VmView, label: Seq<u8>) -> VmView {
    st.define(scoped_label(st.func, label))
}

/// One instruction.
pub open spec fn emit_insn(st: VmView, kind: InsnKindView) -> Step {
    match kind {
        InsnKindView::Add => fine(emit_binary(st, "+")),
        InsnKindView::Sub => fine(emit_binary(st, "-")),
        InsnKindView::And => fine(emit_binary(st, "&")),
        InsnKindView::Or => fine(emit_binary(st, "|")),
        InsnKindView::Neg => fine(emit_unary(st, "-")),
        InsnKindView::Not => fine(emit_unary(st, "!")),
        InsnKindView::Eq => emit_compare(st, "JEQ"),
        InsnKindView::Gt => emit_compare(st, "JGT"),
        InsnKindView::Lt => emit_compare(st, "JLT"),
        InsnKindView::Push(segment, index) => emit_push(st, segment, index),
        InsnKindView::Pop(segment, index) => emit_pop(st, segment, index),
        InsnKindView::Label(l) => fine(emit_label(st, l)),
        InsnKindView::Goto(l) => fine(st.jump(scoped_label(st.func, l))),
        InsnKindView::IfGoto(l) => fine(emit_if_goto(st, scoped_label(st.func, l))),
        InsnKindView::DefFn(name, n) => fine(emit_define(st, name, n)),
        InsnKindView::CallFn(name, n) => emit_call(st, name, n),
        InsnKindView::Return => fine(emit_return(st)),
    }
}

/// The instructions of a unit from the `i`-th on.
pub open spec fn emit_insns(st: VmView, insns: Seq<Instruction>, i: nat) -> Step
    decreases insns.len() - i,
{
    if i >= insns.len() {
        fine(st)
    } else {
        let a = emit_insn(st, insns[i as int].kind@);
        if a.res is Err {
            a
        } else {
            emit_insns(a.st, insns, i + 1)
        }
    }
}

/// A unit: its name, and its instructions.
pub type Unit = (Vec<u8>, Vec<Instruction>);

/// The units from the `i`-th on, each under its name.
pub open spec fn emit_units(st: VmView, units: Seq<Unit>, i: nat) -> Step
    decreases units.len() - i,
{
    if i >= units.len() {
        fine(st)
    } else {
        let a = emit_insns(st.in_unit(units[i as int].0@), units[i as int].1@, 0);
        if a.res is Err {
            a
        } else {
            emit_units(a.st, units, i + 1)
        }
    }
}

/// Whether one of the first `n` instructions defines `Sys.init`.
pub open spec fn defines_init(insns: Seq<Instruction>, n: nat) -> bool
    decreases n,
{
    if n == 0 || n > insns.len() {
        false
    } else {
        defines_init(insns, (n - 1) as nat) || insns[n - 1].kind@ == InsnKindView::DefFn(
            lit("Sys.init"),
            insns[n - 1].kind->DefFn_1,
        )
    }
}

/// Whether one of the first `n` units defines `Sys.init`.
pub open spec fn any_defines_init(units: Seq<Unit>, n: nat) -> bool
    decreases n,
{
    if n == 0 || n > units.len() {
        false
    } else {
        any_defines_init(units, (n - 1) as nat) || defines_init(
            units[n - 1].1@,
            units[n - 1].1@.len(),
        )
    }
}

/// The start of a program: the stack starts at 256, and `Sys.init` is
/// called.
pub open spec fn bootstrap(st: VmView) -> Step {
    emit_call(st.say("@256\nD = A\n@SP\nM = D\n\n"), lit("Sys.init"), 0)
}

/// A program: the start, if a unit defines `Sys.init`, then the units in
/// their order.
pub open spec fn emit_program(st: VmView, units: Seq<Unit>) -> Step {
    if any_defines_init(units, units.len()) {
        let b = bootstrap(st);
        if b.res is Err {
            b
        } else {
            emit_units(b.st, units, 0)
        }
    } else {
        emit_units(st, units, 0)
    }
}

} // verus!
