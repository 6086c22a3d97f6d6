//! Every label of a translated program is defined once.
//!
//! A program names its functions and its labels; the translator adds the
//! labels to which calls return and to which comparisons jump. Those hold a
//! hyphen, which no name can hold, and a number that counts up.
use vstd::prelude::*;

use crate::text::{dec, lit, MINUS};
use crate::vm::asm_text::{
    address, base_of, bootstrap, compare_symbol, emit_binary, emit_call, emit_compare, emit_define,
    emit_if_goto, emit_insn, emit_insns, emit_label, emit_pop, emit_program, emit_push, emit_return,
    emit_unary, emit_units, fresh, lemma_fresh_labels_differ, scoped_label, Unit, VmView,
};
use crate::vm::insn::{is_name, is_name_byte, InsnKindView, Instruction};

verus! {

/// Whether `x` holds no hyphen.
pub open spec fn plain(x: Seq<u8>) -> bool {
    forall|i: int| 0 <= i < x.len() ==> x[i] != MINUS
}

/// The label that an instruction defines under a name of the program: a
/// function its name, a label its name behind that of the function `func` in
/// which it stands.
pub open spec fn named_insn(func: Option<Seq<u8>>, kind: InsnKindView) -> Seq<Seq<u8>> {
    match kind {
        InsnKindView::DefFn(name, _) => seq![name],
        InsnKindView::Label(l) => seq![scoped_label(func, l)],
        _ => Seq::empty(),
    }
}

/// The function in which the translation stands behind an instruction.
pub open spec fn func_behind(func: Option<Seq<u8>>, kind: InsnKindView) -> Option<Seq<u8>> {
    match kind {
        InsnKindView::DefFn(name, _) => Some(name),
        _ => func,
    }
}

/// The labels that the instructions from the `i`-th on define under names of
/// the program, in their order.
pub open spec fn named_insns(func: Option<Seq<u8>>, insns: Seq<Instruction>, i: nat) -> Seq<
    Seq<u8>,
>
    decreases insns.len() - i,
{
    if i >= insns.len() {
        Seq::empty()
    } else {
        named_insn(func, insns[i as int].kind@) + named_insns(
            func_behind(func, insns[i as int].kind@),
            insns,
            i + 1,
        )
    }
}

/// The function in which the translation stands behind the instructions from
/// the `i`-th on.
pub open spec fn func_after(func: Option<Seq<u8>>, insns: Seq<Instruction>, i: nat) -> Option<
    Seq<u8>,
>
    decreases insns.len() - i,
{
    if i >= insns.len() {
        func
    } else {
        func_after(func_behind(func, insns[i as int].kind@), insns, i + 1)
    }
}

/// The labels that the units from the `i`-th on define under names of the
/// program, in their order.
pub open spec fn named_units(func: Option<Seq<u8>>, units: Seq<Unit>, i: nat) -> Seq<Seq<u8>>
    decreases units.len() - i,
{
    if i >= units.len() {
        Seq::empty()
    } else {
        named_insns(func, units[i as int].1@, 0) + named_units(
            func_after(func, units[i as int].1@, 0),
            units,
            i + 1,
        )
    }
}

/// Whether the name that an instruction defines, if it defines one, is a
/// name.
pub open spec fn well_named(kind: InsnKindView) -> bool {
    match kind {
        InsnKindView::DefFn(name, _) => is_name(name),
        InsnKindView::Label(l) => is_name(l),
        _ => true,
    }
}

/// Whether every instruction of `insns` is well named.
pub open spec fn insns_well_named(insns: Seq<Instruction>) -> bool {
    forall|i: int| 0 <= i < insns.len() ==> well_named(#[trigger] insns[i].kind@)
}

/// Whether every instruction of every unit is well named.
pub open spec fn units_well_named(units: Seq<Unit>) -> bool {
    forall|u: int| 0 <= u < units.len() ==> insns_well_named(#[trigger] units[u].1@)
}

/// The symbols from which the translator makes labels of its own.
spec fn is_symbol(s: Seq<u8>) -> bool {
    s == lit("return-address") || s == compare_symbol("JEQ") || s == compare_symbol("JGT") || s
        == compare_symbol("JLT")
}

/// Whether `x` is the `k`-th label made from `sym`, and was made.
spec fn made_as(labels: Map<Seq<u8>, nat>, x: Seq<u8>, sym: Seq<u8>, k: nat) -> bool {
    is_symbol(sym) && k < labels[sym] && x == sym + dec(k)
}

/// Whether `x` is a label that the translator made.
spec fn made(labels: Map<Seq<u8>, nat>, x: Seq<u8>) -> bool {
    exists|sym: Seq<u8>, k: nat| made_as(labels, x, sym, k)
}

/// What holds of the labels defined so far, where `rest` are the labels that
/// the program is still to define under its own names: none was defined
/// twice, none is one of `rest`, and each is a name of the program or was
/// made by the translator.
spec fn tidy(st: VmView, rest: Seq<Seq<u8>>) -> bool {
    &&& st.defined.no_duplicates()
    &&& rest.no_duplicates()
    &&& forall|j: int, k: int|
        0 <= j < st.defined.len() && 0 <= k < rest.len() && plain(st.defined[j])
            ==> st.defined[j] != rest[k]
    &&& forall|j: int|
        0 <= j < st.defined.len() ==> plain(#[trigger] st.defined[j]) || made(
            st.labels,
            st.defined[j],
        )
    &&& st.func is Some ==> plain(st.func->0)
}

/// Whether two states hold the same labels, counters and function.
spec fn alike(a: VmView, b: VmView) -> bool {
    a.defined == b.defined && a.labels == b.labels && a.func == b.func
}

proof fn lemma_ascii(s: &str)
    requires
        vstd::string::is_ascii(s),
    ensures
        lit(s) =~= Seq::new(s@.len(), |i: int| s@[i] as u8),
{
    vstd::string::is_ascii_spec_bytes(s);
}

/// The four symbols: each holds a hyphen, and they differ in their second
/// byte.
proof fn lemma_symbols()
    ensures
        lit("return-address").len() == 14,
        lit("return-address")[1] == 101,
        lit("return-address")[6] == MINUS,
        compare_symbol("JEQ") =~= seq![74u8, 69u8, 81u8, MINUS],
        compare_symbol("JGT") =~= seq![74u8, 71u8, 84u8, MINUS],
        compare_symbol("JLT") =~= seq![74u8, 76u8, 84u8, MINUS],
        lit("$") =~= seq![36u8],
{
    reveal_strlit("return-address");
    reveal_strlit("JEQ");
    reveal_strlit("JGT");
    reveal_strlit("JLT");
    reveal_strlit("-");
    reveal_strlit("$");
    lemma_ascii("return-address");
    lemma_ascii("JEQ");
    lemma_ascii("JGT");
    lemma_ascii("JLT");
    lemma_ascii("-");
    lemma_ascii("$");
}

/// A label made from a symbol holds a hyphen.
proof fn lemma_made_not_plain(sym: Seq<u8>, k: nat)
    requires
        is_symbol(sym),
    ensures
        !plain(sym + dec(k)),
{
    lemma_symbols();
    let x = sym + dec(k);
    if sym == lit("return-address") {
        assert(x[6] == MINUS);
    } else {
        assert(x[3] == MINUS);
    }
}

/// The next label of a symbol is none of those made before.
proof fn lemma_fresh_unmade(labels: Map<Seq<u8>, nat>, sym: Seq<u8>, x: Seq<u8>)
    requires
        is_symbol(sym),
        made(labels, x),
    ensures
        x != sym + dec(labels[sym]),
{
    let (s, k) = choose|s: Seq<u8>, k: nat| made_as(labels, x, s, k);
    if s == sym {
        lemma_fresh_labels_differ(sym, k, labels[sym]);
    } else {
        lemma_symbols();
        assert((s + dec(k))[1] == s[1]);
        assert((sym + dec(labels[sym]))[1] == sym[1]);
    }
}

/// What was made stays made when a counter goes up.
proof fn lemma_made_stays(labels: Map<Seq<u8>, nat>, sym: Seq<u8>, x: Seq<u8>)
    requires
        made(labels, x),
    ensures
        made(labels.insert(sym, labels[sym] + 1), x),
{
    let (s, k) = choose|s: Seq<u8>, k: nat| made_as(labels, x, s, k);
    assert(made_as(labels.insert(sym, labels[sym] + 1), x, s, k));
}

/// A name, and a label behind the name of a function, hold no hyphen.
proof fn lemma_names_plain(func: Option<Seq<u8>>, kind: InsnKindView)
    requires
        well_named(kind),
        func is Some ==> plain(func->0),
    ensures
        forall|k: int| 0 <= k < named_insn(func, kind).len() ==> plain(named_insn(func, kind)[k]),
        func_behind(func, kind) is Some ==> plain(func_behind(func, kind)->0),
{
    lemma_symbols();
    match kind {
        InsnKindView::DefFn(name, _) => {
            assert forall|i: int| 0 <= i < name.len() implies name[i] != MINUS by {
                assert(is_name_byte(name[i]));
            }
        },
        InsnKindView::Label(l) => {
            let x = scoped_label(func, l);
            assert forall|i: int| 0 <= i < x.len() implies x[i] != MINUS by {
                match func {
                    Some(f) => {
                        if i < f.len() {
                            assert(x[i] == f[i]);
                        } else if i == f.len() {
                            assert(x[i] == 36);
                        } else {
                            assert(x[i] == l[i - f.len() - 1]);
                            assert(is_name_byte(l[i - f.len() - 1]));
                        }
                    },
                    None => {
                        assert(is_name_byte(l[i]));
                    },
                }
            }
        },
        _ => {},
    }
}

/// A label behind the name of its function is no name: no function is
/// called like a label of a function.
pub proof fn lemma_scoped_is_no_name(f: Seq<u8>, l: Seq<u8>, g: Seq<u8>)
    requires
        is_name(g),
    ensures
        g != scoped_label(Some(f), l),
{
    lemma_symbols();
    let x = scoped_label(Some(f), l);
    assert(x[f.len() as int] == 36);
    if g == x {
        assert(is_name_byte(g[f.len() as int]));
    }
}

/// Labels of different functions, and different labels of one function, are
/// written differently.
pub proof fn lemma_scoped_labels_differ(f: Seq<u8>, l: Seq<u8>, g: Seq<u8>, m: Seq<u8>)
    requires
        is_name(f),
        is_name(g),
        f != g || l != m,
    ensures
        scoped_label(Some(f), l) != scoped_label(Some(g), m),
{
    lemma_symbols();
    let x = scoped_label(Some(f), l);
    let y = scoped_label(Some(g), m);
    assert(x[f.len() as int] == 36);
    assert(y[g.len() as int] == 36);
    if x == y {
        if f.len() < g.len() {
            assert(y[f.len() as int] == g[f.len() as int]);
            assert(is_name_byte(g[f.len() as int]));
        } else if g.len() < f.len() {
            assert(x[g.len() as int] == f[g.len() as int]);
            assert(is_name_byte(f[g.len() as int]));
        } else {
            assert(x.subrange(0, f.len() as int) =~= f);
            assert(y.subrange(0, g.len() as int) =~= g);
            assert(x.subrange((f.len() + 1) as int, x.len() as int) =~= l);
            assert(y.subrange((g.len() + 1) as int, y.len() as int) =~= m);
        }
    }
}

/// What is tidy before the labels `a` and `b` is tidy before `b`.
proof fn lemma_tidy_later(st: VmView, a: Seq<Seq<u8>>, b: Seq<Seq<u8>>)
    requires
        tidy(st, a + b),
    ensures
        tidy(st, b),
{
    let all = a + b;
    assert forall|i: int, j: int| 0 <= i < b.len() && 0 <= j < b.len() && i != j implies b[i]
        != b[j] by {
        assert(b[i] == all[a.len() + i]);
        assert(b[j] == all[a.len() + j]);
    }
    assert forall|j: int, k: int|
        0 <= j < st.defined.len() && 0 <= k < b.len() && plain(
            st.defined[j],
        ) implies st.defined[j] != b[k] by {
        assert(b[k] == all[a.len() + k]);
    }
}

/// A state that holds the same labels, counters and function as a tidy one
/// is tidy.
proof fn lemma_tidy_alike(a: VmView, b: VmView, rest: Seq<Seq<u8>>)
    requires
        tidy(a, rest),
        alike(a, b),
    ensures
        tidy(b, rest),
{
}

/// The next of the program's own names is defined.
proof fn lemma_name_tidy(st: VmView, name: Seq<u8>, rest: Seq<Seq<u8>>, b: VmView)
    requires
        tidy(st, seq![name] + rest),
        plain(name),
        b.defined == st.defined.push(name),
        b.labels == st.labels,
        b.func == st.func || b.func == Some(name),
    ensures
        tidy(b, rest),
{
    let all = seq![name] + rest;
    assert(all[0] == name);
    assert forall|i: int, j: int|
        0 <= i < b.defined.len() && 0 <= j < b.defined.len() && i != j implies b.defined[i]
        != b.defined[j] by {
        if i < st.defined.len() && j < st.defined.len() {
        } else if i < st.defined.len() {
            if st.defined[i] == name {
                assert(plain(st.defined[i]));
                assert(st.defined[i] != all[0]);
            }
        } else {
            if st.defined[j] == name {
                assert(plain(st.defined[j]));
                assert(st.defined[j] != all[0]);
            }
        }
    }
    assert forall|i: int, j: int| 0 <= i < rest.len() && 0 <= j < rest.len() && i != j implies rest[i]
        != rest[j] by {
        assert(rest[i] == all[i + 1]);
        assert(rest[j] == all[j + 1]);
    }
    assert forall|j: int, k: int|
        0 <= j < b.defined.len() && 0 <= k < rest.len() && plain(
            b.defined[j],
        ) implies b.defined[j] != rest[k] by {
        assert(rest[k] == all[k + 1]);
        if j < st.defined.len() {
            assert(b.defined[j] == st.defined[j]);
        } else {
            assert(b.defined[j] == all[0]);
        }
    }
    assert forall|j: int| 0 <= j < b.defined.len() implies plain(#[trigger] b.defined[j]) || made(
        b.labels,
        b.defined[j],
    ) by {
        if j < st.defined.len() {
            assert(b.defined[j] == st.defined[j]);
        }
    }
}

/// A label of the translator's own is defined.
proof fn lemma_fresh_tidy(st: VmView, sym: Seq<u8>, rest: Seq<Seq<u8>>, b: VmView)
    requires
        tidy(st, rest),
        is_symbol(sym),
        b.defined == st.defined.push(fresh(st, sym).0),
        b.labels == fresh(st, sym).1.labels,
        b.func == st.func,
    ensures
        tidy(b, rest),
{
    let x = fresh(st, sym).0;
    lemma_made_not_plain(sym, st.labels[sym]);
    assert forall|j: int| 0 <= j < st.defined.len() implies st.defined[j] != x by {
        if !plain(st.defined[j]) {
            lemma_fresh_unmade(st.labels, sym, st.defined[j]);
        }
    }
    assert forall|i: int, j: int|
        0 <= i < b.defined.len() && 0 <= j < b.defined.len() && i != j implies b.defined[i]
        != b.defined[j] by {
        if i < st.defined.len() {
            assert(b.defined[i] == st.defined[i]);
        }
        if j < st.defined.len() {
            assert(b.defined[j] == st.defined[j]);
        }
    }
    assert forall|j: int, k: int|
        0 <= j < b.defined.len() && 0 <= k < rest.len() && plain(
            b.defined[j],
        ) implies b.defined[j] != rest[k] by {
        if j < st.defined.len() {
            assert(b.defined[j] == st.defined[j]);
        }
    }
    assert forall|j: int| 0 <= j < b.defined.len() implies plain(#[trigger] b.defined[j]) || made(
        b.labels,
        b.defined[j],
    ) by {
        if j < st.defined.len() {
            assert(b.defined[j] == st.defined[j]);
            if !plain(st.defined[j]) {
                lemma_made_stays(st.labels, sym, st.defined[j]);
            }
        } else {
            assert(made_as(b.labels, x, sym, st.labels[sym]));
        }
    }
}

/// Pushes define no label.
proof fn lemma_pushes_alike(st: VmView, n: nat)
    ensures
        alike(st, st.push_d_times(n)),
    decreases n,
{
    if n > 0 {
        lemma_pushes_alike(st, (n - 1) as nat);
    }
}

/// Steps forward define no label.
proof fn lemma_forward_alike(st: VmView, n: nat)
    ensures
        alike(st, st.forward(n)),
    decreases n,
{
    if n > 0 {
        lemma_forward_alike(st, (n - 1) as nat);
    }
}

/// A call defines the label to which it returns.
proof fn lemma_call_tidy(st: VmView, name: Seq<u8>, n: u16, rest: Seq<Seq<u8>>)
    requires
        tidy(st, rest),
    ensures
        tidy(emit_call(st, name, n).st, rest),
{
    reveal(emit_call);
    if st.labels[lit("return-address")] < usize::MAX {
        lemma_fresh_tidy(st, lit("return-address"), rest, emit_call(st, name, n).st);
    }
}

/// A comparison defines the label to which it jumps.
proof fn lemma_compare_tidy(st: VmView, jump: &str, rest: Seq<Seq<u8>>)
    requires
        tidy(st, rest),
        is_symbol(compare_symbol(jump)),
    ensures
        tidy(emit_compare(st, jump).st, rest),
{
    reveal(emit_compare);
    if st.labels[compare_symbol(jump)] < usize::MAX {
        lemma_fresh_tidy(st, compare_symbol(jump), rest, emit_compare(st, jump).st);
    }
}

/// One instruction keeps the labels tidy.
proof fn lemma_insn_tidy(st: VmView, kind: InsnKindView, rest: Seq<Seq<u8>>)
    requires
        tidy(st, named_insn(st.func, kind) + rest),
        well_named(kind),
    ensures
        tidy(emit_insn(st, kind).st, rest),
        emit_insn(st, kind).st.func == func_behind(st.func, kind),
{
    let after = emit_insn(st, kind).st;
    lemma_names_plain(st.func, kind);
    match kind {
        InsnKindView::DefFn(name, n) => {
            reveal(emit_define);
            let begun = (VmView { func: Some(name), ..st }).define(name).say("D = 0\n");
            lemma_pushes_alike(begun, n as nat);
            assert(named_insn(st.func, kind)[0] == name);
            lemma_name_tidy(st, name, rest, after);
        },
        InsnKindView::Label(l) => {
            reveal(emit_label);
            assert(named_insn(st.func, kind)[0] == scoped_label(st.func, l));
            lemma_name_tidy(st, scoped_label(st.func, l), rest, after);
        },
        InsnKindView::CallFn(name, n) => {
            assert(named_insn(st.func, kind) + rest =~= rest);
            lemma_call_tidy(st, name, n, rest);
            reveal(emit_call);
        },
        InsnKindView::Eq => {
            assert(named_insn(st.func, kind) + rest =~= rest);
            lemma_compare_tidy(st, "JEQ", rest);
            reveal(emit_compare);
        },
        InsnKindView::Gt => {
            assert(named_insn(st.func, kind) + rest =~= rest);
            lemma_compare_tidy(st, "JGT", rest);
            reveal(emit_compare);
        },
        InsnKindView::Lt => {
            assert(named_insn(st.func, kind) + rest =~= rest);
            lemma_compare_tidy(st, "JLT", rest);
            reveal(emit_compare);
        },
        InsnKindView::Push(segment, index) => {
            assert(named_insn(st.func, kind) + rest =~= rest);
            reveal(emit_push);
            reveal(address);
            lemma_forward_alike(st.say("@").say(base_of(segment)->0).say("\nA = M\n"), index as nat);
            lemma_tidy_alike(st, after, rest);
        },
        InsnKindView::Pop(segment, index) => {
            assert(named_insn(st.func, kind) + rest =~= rest);
            reveal(emit_pop);
            reveal(address);
            lemma_forward_alike(
                st.pop_d().say("\n").say("@").say(base_of(segment)->0).say("\nA = M\n"),
                index as nat,
            );
            lemma_tidy_alike(st, after, rest);
        },
        _ => {
            assert(named_insn(st.func, kind) + rest =~= rest);
            reveal(emit_binary);
            reveal(emit_unary);
            reveal(emit_if_goto);
            reveal(emit_return);
            lemma_tidy_alike(st, after, rest);
        },
    }
}

/// The instructions of a unit keep the labels tidy.
proof fn lemma_insns_tidy(st: VmView, insns: Seq<Instruction>, i: nat, rest: Seq<Seq<u8>>)
    requires
        tidy(st, named_insns(st.func, insns, i) + rest),
        insns_well_named(insns),
    ensures
        tidy(emit_insns(st, insns, i).st, rest),
        emit_insns(st, insns, i).res is Ok ==> emit_insns(st, insns, i).st.func == func_after(
            st.func,
            insns,
            i,
        ),
    decreases insns.len() - i,
{
    if i >= insns.len() {
        assert(named_insns(st.func, insns, i) + rest =~= rest);
    } else {
        let kind = insns[i as int].kind@;
        let later = named_insns(func_behind(st.func, kind), insns, i + 1);
        assert(named_insns(st.func, insns, i) + rest =~= named_insn(st.func, kind) + (later
            + rest));
        lemma_insn_tidy(st, kind, later + rest);
        let a = emit_insn(st, kind);
        if a.res is Err {
            lemma_tidy_later(a.st, later, rest);
        } else {
            lemma_insns_tidy(a.st, insns, i + 1, rest);
        }
    }
}

/// The units of a program keep the labels tidy.
proof fn lemma_units_tidy(st: VmView, units: Seq<Unit>, i: nat)
    requires
        tidy(st, named_units(st.func, units, i)),
        units_well_named(units),
    ensures
        emit_units(st, units, i).st.defined.no_duplicates(),
    decreases units.len() - i,
{
    if i < units.len() {
        let insns = units[i as int].1@;
        let later = named_units(func_after(st.func, insns, 0), units, i + 1);
        let begun = st.in_unit(units[i as int].0@);
        lemma_tidy_alike(st, begun, named_insns(st.func, insns, 0) + later);
        lemma_insns_tidy(begun, insns, 0, later);
        let a = emit_insns(begun, insns, 0);
        if a.res is Ok {
            lemma_units_tidy(a.st, units, i + 1);
        }
    }
}

/// No label is defined twice. Take a program in which every function and
/// every label has a name, and in which the names are used once: no two
/// functions share a name, no two labels of one function share a name, and
/// no label that stands before the first function is named like a function
/// or like another such label. That is what `named_units` without
/// duplicates says, since labels of functions are written differently
/// wherever the function or the label differs, and never like a function.
/// Then the lines of its translation that define a label all define
/// different labels: the program's own, the labels to which its calls
/// return, and the labels to which its comparisons jump.
pub proof fn lemma_labels_defined_once(st: VmView, units: Seq<Unit>)
    requires
        st.defined.len() == 0,
        st.func is None,
        units_well_named(units),
        named_units(None, units, 0).no_duplicates(),
    ensures
        emit_program(st, units).st.defined.no_duplicates(),
{
    let began = st.say("@256\nD = A\n@SP\nM = D\n\n");
    let names = named_units(None, units, 0);
    lemma_tidy_alike(st, began, names);
    lemma_call_tidy(began, lit("Sys.init"), 0, names);
    reveal(emit_call);
    let b = bootstrap(st);
    if b.res is Ok {
        lemma_units_tidy(b.st, units, 0);
    }
    lemma_units_tidy(st, units, 0);
}

} // verus!
