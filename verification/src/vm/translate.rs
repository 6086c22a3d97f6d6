//! The translator: it writes the Hack assembly for the instructions of the
//! stack machine, unit by unit.
use vstd::prelude::*;

use crate::text::{dec, is_lit, lit, lit_vec, push_all, push_dec, push_lit, to_vec};
use crate::vm::asm_text::{
    address, any_defines_init, defines_init, emit_binary, emit_call, emit_compare, emit_define,
    emit_if_goto, emit_insn, emit_insns, emit_label, emit_pop, emit_program, emit_push, emit_return,
    emit_unary, emit_units, fresh, save, scoped_label, static_symbol, Unit, VmView,
};
use crate::vm::insn::{InsnKind, Instruction, VmError};
use crate::vm::segment::Segment;
use crate::vm::symbol::{no_labels, SymbolTable};

verus! {

/// The translator: what it has written, and what it needs to remember of the
/// unit and the function that it is in.
pub struct HackVm {
    /// The assembly written so far.
    pub out: Vec<u8>,
    /// The counters of the labels.
    pub symbols: SymbolTable,
    /// The name of the unit that is being translated.
    pub current_file_name: Option<Vec<u8>>,
    /// The name of the function that is being translated.
    pub current_fn_name: Option<Vec<u8>>,
    /// The labels that the text defines, in the order of their lines.
    pub defined: Ghost<Seq<Seq<u8>>>,
}

impl View for HackVm {
    type V = VmView;

    open spec fn view(&self) -> VmView {
        VmView {
            text: self.out@,
            file: match self.current_file_name {
                Some(f) => Some(f@),
                None => None,
            },
            func: match self.current_fn_name {
                Some(f) => Some(f@),
                None => None,
            },
            labels: self.symbols@,
            defined: self.defined@,
        }
    }
}

/// The state before anything was translated.
pub open spec fn start() -> VmView {
    VmView {
        text: Seq::empty(),
        file: None,
        func: None,
        labels: no_labels(),
        defined: Seq::empty(),
    }
}

/// The result of what cannot fail.
pub open spec fn all_right() -> Result<(), VmError> {
    Ok(())
}

impl HackVm {
    /// A translator that has written nothing.
    pub fn new() -> (vm: HackVm)
        ensures
            vm@ == start(),
    {
        HackVm {
            out: Vec::new(),
            symbols: SymbolTable::new(),
            current_file_name: None,
            current_fn_name: None,
            defined: Ghost(Seq::empty()),
        }
    }

    /// Writes the line that defines `label`.
    pub fn define(&mut self, label: &[u8])
        ensures
            final(self)@ == old(self)@.define(label@),
    {
        self.say("(");
        self.put(label);
        self.say(")\n");
        proof {
            self.defined@ = self.defined@.push(label@);
        }
    }

    /// Writes `s`.
    pub fn say(&mut self, s: &str)
        ensures
            final(self)@ == old(self)@.say(s),
    {
        push_lit(&mut self.out, s);
    }

    /// Writes `s`.
    pub fn put(&mut self, s: &[u8])
        ensures
            final(self)@ == old(self)@.put(s@),
    {
        push_all(&mut self.out, s);
    }

    /// Writes `n` in decimal.
    pub fn number(&mut self, n: u64)
        ensures
            final(self)@ == old(self)@.put(dec(n as nat)),
    {
        push_dec(&mut self.out, n);
    }

    /// Writes the push of `D`.
    pub fn push_d(&mut self)
        ensures
            final(self)@ == old(self)@.push_d(),
    {
        self.say("@SP\nA = M\nM = D\n@SP\nM = M + 1\n");
    }

    /// Writes the pop into `D`.
    pub fn pop_d(&mut self)
        ensures
            final(self)@ == old(self)@.pop_d(),
    {
        self.say("@SP\nAM = M - 1\nD = M\n");
    }

    /// Translates the units of a program, in their order. If one of them
    /// defines `Sys.init`, the program starts with the call of it.
    pub fn interpret(&mut self, units: &Vec<Unit>) -> (r: Result<(), VmError>)
        ensures
            final(self)@ == emit_program(old(self)@, units@).st,
            r == emit_program(old(self)@, units@).res,
    {
        if HackVm::any_sys_init(units) {
            self.say("@256\nD = A\n@SP\nM = D\n\n");
            match self.call_fn(lit_vec("Sys.init").as_slice(), 0) {
                Ok(_) => {},
                Err(e) => {
                    return Err(e);
                },
            }
        }
        let ghost begun = self@;
        let mut i: usize = 0;
        while i < units.len()
            invariant
                i <= units@.len(),
                emit_units(self@, units@, i as nat) == emit_units(begun, units@, 0),
                emit_units(begun, units@, 0) == emit_program(old(self)@, units@),
            decreases units@.len() - i,
        {
            self.enter_unit(units[i].0.as_slice());
            match self.unit(&units[i].1) {
                Ok(_) => {},
                Err(e) => {
                    return Err(e);
                },
            }
            i = i + 1;
        }
        Ok(())
    }

    /// Whether one of `units` defines `Sys.init`.
    pub fn any_sys_init(units: &Vec<Unit>) -> (r: bool)
        ensures
            r == any_defines_init(units@, units@.len()),
    {
        let mut i: usize = 0;
        let mut found = false;
        while i < units.len()
            invariant
                i <= units@.len(),
                found == any_defines_init(units@, i as nat),
            decreases units@.len() - i,
        {
            let insns = &units[i].1;
            let mut k: usize = 0;
            let mut here = false;
            while k < insns.len()
                invariant
                    k <= insns@.len(),
                    here == defines_init(insns@, k as nat),
                decreases insns@.len() - k,
            {
                match &insns[k].kind {
                    InsnKind::DefFn(name, _) => {
                        if is_lit(name.as_slice(), "Sys.init") {
                            here = true;
                        }
                    },
                    _ => {},
                }
                k = k + 1;
            }
            found = found || here;
            i = i + 1;
        }
        found
    }

    /// Translates the instructions of the current unit.
    pub fn unit(&mut self, insns: &Vec<Instruction>) -> (r: Result<(), VmError>)
        ensures
            final(self)@ == emit_insns(old(self)@, insns@, 0).st,
            r == emit_insns(old(self)@, insns@, 0).res,
    {
        let mut i: usize = 0;
        while i < insns.len()
            invariant
                i <= insns@.len(),
                emit_insns(self@, insns@, i as nat) == emit_insns(old(self)@, insns@, 0),
            decreases insns@.len() - i,
        {
            match self.instruction(&insns[i].kind) {
                Ok(_) => {},
                Err(e) => {
                    return Err(e);
                },
            }
            i = i + 1;
        }
        Ok(())
    }

    /// Translates one instruction.
    pub fn instruction(&mut self, kind: &InsnKind) -> (r: Result<(), VmError>)
        ensures
            final(self)@ == emit_insn(old(self)@, kind@).st,
            r == emit_insn(old(self)@, kind@).res,
    {
        match kind {
            InsnKind::Add => self.add(),
            InsnKind::Sub => self.sub(),
            InsnKind::And => self.and(),
            InsnKind::Or => self.or(),
            InsnKind::Neg => self.neg(),
            InsnKind::Not => self.not(),
            InsnKind::Eq => self.eq(),
            InsnKind::Gt => self.gt(),
            InsnKind::Lt => self.lt(),
            InsnKind::Push(segment, index) => self.push(*segment, *index),
            InsnKind::Pop(segment, index) => self.pop(*segment, *index),
            InsnKind::Label(label) => self.mark(label.as_slice()),
            InsnKind::Goto(label) => self.jump_to(label.as_slice()),
            InsnKind::IfGoto(label) => self.jump_if(label.as_slice()),
            InsnKind::DefFn(name, n) => self.define_fn(name.as_slice(), *n),
            InsnKind::CallFn(name, n) => self.call_fn(name.as_slice(), *n),
            InsnKind::Return => self.ret_fn(),
        }
    }

    /// Translates `label l`.
    pub fn mark(&mut self, label: &[u8]) -> (r: Result<(), VmError>)
        ensures
            final(self)@ == emit_label(old(self)@, label@),
            r == all_right(),
    {
        reveal(emit_label);
        let scoped = self.label(label);
        self.define(scoped.as_slice());
        Ok(())
    }

    /// Translates `goto l`.
    pub fn jump_to(&mut self, label: &[u8]) -> (r: Result<(), VmError>)
        ensures
            final(self)@ == old(self)@.jump(scoped_label(old(self)@.func, label@)),
            r == all_right(),
    {
        let scoped = self.label(label);
        self.goto(scoped.as_slice())
    }

    /// Translates `if-goto l`.
    pub fn jump_if(&mut self, label: &[u8]) -> (r: Result<(), VmError>)
        ensures
            final(self)@ == emit_if_goto(old(self)@, scoped_label(old(self)@.func, label@)),
            r == all_right(),
    {
        let scoped = self.label(label);
        self.if_goto(scoped.as_slice())
    }

    /// Starts the unit called `name`.
    pub fn enter_unit(&mut self, name: &[u8])
        ensures
            final(self)@ == old(self)@.in_unit(name@),
    {
        self.current_file_name = Some(to_vec(name));
    }

    /// The symbol of the static variable `index` of the current unit.
    pub fn static_variable(&self, index: u16) -> (r: Result<Vec<u8>, VmError>)
        ensures
            match r {
                Ok(s) => self@.file is Some && s@ == static_symbol(self@.file->0, index),
                Err(e) => self@.file is None && e == VmError::NoFileName,
            },
    {
        match &self.current_file_name {
            Some(file) => {
                let mut symbol = to_vec(file.as_slice());
                push_lit(&mut symbol, ".");
                push_dec(&mut symbol, index as u64);
                Ok(symbol)
            },
            None => Err(VmError::NoFileName),
        }
    }

    /// The label `label` as it is written in the current function.
    pub fn label(&self, label: &[u8]) -> (r: Vec<u8>)
        ensures
            r@ == scoped_label(self@.func, label@),
    {
        match &self.current_fn_name {
            Some(name) => {
                let mut scoped = to_vec(name.as_slice());
                push_lit(&mut scoped, "$");
                push_all(&mut scoped, label);
                scoped
            },
            None => to_vec(label),
        }
    }

    /// Writes what puts the address of `segment[index]` into `A`.
    pub fn address(&mut self, segment: Segment, index: u16) -> (r: Result<(), VmError>)
        ensures
            final(self)@ == address(old(self)@, segment, index).st,
            r == address(old(self)@, segment, index).res,
    {
        reveal(address);
        match segment {
            Segment::Constant => Err(VmError::PopConstant),
            Segment::Static => {
                let symbol = match self.static_variable(index) {
                    Ok(s) => s,
                    Err(e) => {
                        return Err(e);
                    },
                };
                self.say("@");
                self.put(symbol.as_slice());
                Ok(())
            },
            Segment::Pointer => {
                if index == 0 {
                    self.say("@THIS");
                    Ok(())
                } else if index == 1 {
                    self.say("@THAT");
                    Ok(())
                } else {
                    Err(VmError::PointerIndex)
                }
            },
            Segment::Temp => {
                if index <= 7 {
                    self.say("@R");
                    self.number((index + 5) as u64);
                    Ok(())
                } else {
                    Err(VmError::TempIndex)
                }
            },
            Segment::Local => {
                self.based("LCL", index);
                Ok(())
            },
            Segment::Argument => {
                self.based("ARG", index);
                Ok(())
            },
            Segment::This => {
                self.based("THIS", index);
                Ok(())
            },
            Segment::That => {
                self.based("THAT", index);
                Ok(())
            },
        }
    }

    /// Writes what puts the address `index` words behind the one in `base`
    /// into `A`.
    pub fn based(&mut self, base: &str, index: u16)
        ensures
            final(self)@ == old(self)@.say("@").say(base).say("\nA = M\n").forward(index as nat),
    {
        self.say("@");
        self.say(base);
        self.say("\nA = M\n");
        let ghost begun = self@;
        let mut i: u16 = 0;
        while i < index
            invariant
                i <= index,
                self@ == begun.forward(i as nat),
            decreases index - i,
        {
            self.say("A = A + 1\n");
            i = i + 1;
        }
    }

    /// Translates `push segment index`.
    pub fn push(&mut self, segment: Segment, index: u16) -> (r: Result<(), VmError>)
        ensures
            final(self)@ == emit_push(old(self)@, segment, index).st,
            r == emit_push(old(self)@, segment, index).res,
    {
        reveal(emit_push);
        reveal(address);
        match segment {
            Segment::Constant => {
                self.say("@");
                self.number(index as u64);
                self.say("\nD = A\n");
                self.push_d();
                self.say("\n");
                Ok(())
            },
            _ => {
                match self.address(segment, index) {
                    Ok(_) => {},
                    Err(e) => {
                        return Err(e);
                    },
                }
                self.say("\nD = M\n");
                self.push_d();
                self.say("\n");
                Ok(())
            },
        }
    }

    /// Translates `pop segment index`. Nothing is written if the segment has
    /// no such place.
    pub fn pop(&mut self, segment: Segment, index: u16) -> (r: Result<(), VmError>)
        ensures
            final(self)@ == emit_pop(old(self)@, segment, index).st,
            r == emit_pop(old(self)@, segment, index).res,
    {
        reveal(emit_pop);
        reveal(address);
        let ok = match segment {
            Segment::Constant => Err(VmError::PopConstant),
            Segment::Static => match &self.current_file_name {
                Some(_) => Ok(()),
                None => Err(VmError::NoFileName),
            },
            Segment::Pointer => if index <= 1 {
                Ok(())
            } else {
                Err(VmError::PointerIndex)
            },
            Segment::Temp => if index <= 7 {
                Ok(())
            } else {
                Err(VmError::TempIndex)
            },
            _ => Ok(()),
        };
        match ok {
            Ok(_) => {},
            Err(e) => {
                return Err(e);
            },
        }
        self.pop_d();
        self.say("\n");
        let _ = self.address(segment, index);
        self.say("\nM = D\n");
        Ok(())
    }

    /// Translates `function name n`.
    pub fn define_fn(&mut self, name: &[u8], n: u16) -> (r: Result<(), VmError>)
        ensures
            final(self)@ == emit_define(old(self)@, name@, n),
            r == all_right(),
    {
        reveal(emit_define);
        self.current_fn_name = Some(to_vec(name));
        self.define(name);
        self.say("D = 0\n");
        let ghost begun = self@;
        let mut i: u16 = 0;
        while i < n
            invariant
                i <= n,
                self@ == begun.push_d_times(i as nat),
            decreases n - i,
        {
            self.push_d();
            i = i + 1;
        }
        self.say("\n");
        Ok(())
    }

    /// Writes what saves the register `name` on the stack.
    pub fn save(&mut self, name: &str)
        ensures
            final(self)@ == save(old(self)@, name),
    {
        self.say("@");
        self.say(name);
        self.say("\nD = M\n");
        self.push_d();
        self.say("\n");
    }

    /// Makes a label from `symbol` that was not made before.
    pub fn fresh(&mut self, symbol: &[u8]) -> (r: Result<Vec<u8>, VmError>)
        ensures
            match r {
                Ok(l) => old(self)@.labels[symbol@] < usize::MAX && l@ == fresh(
                    old(self)@,
                    symbol@,
                ).0 && final(self)@ == fresh(old(self)@, symbol@).1,
                Err(e) => old(self)@.labels[symbol@] >= usize::MAX && final(self)@ == old(self)@
                    && e == VmError::TooManyLabels,
            },
    {
        match self.symbols.ret_addr(symbol) {
            Some(l) => Ok(l),
            None => Err(VmError::TooManyLabels),
        }
    }

    /// Translates `call name n`.
    pub fn call_fn(&mut self, name: &[u8], n_args: u16) -> (r: Result<(), VmError>)
        ensures
            final(self)@ == emit_call(old(self)@, name@, n_args).st,
            r == emit_call(old(self)@, name@, n_args).res,
    {
        reveal(emit_call);
        let ret = match self.fresh("return-address".as_bytes()) {
            Ok(l) => l,
            Err(e) => {
                return Err(e);
            },
        };
        self.say("@");
        self.put(ret.as_slice());
        self.say("\nD = A\n");
        self.push_d();
        self.say("\n");
        self.save("LCL");
        self.save("ARG");
        self.save("THIS");
        self.save("THAT");
        self.say("@");
        self.number(n_args as u64 + 5);
        self.say("\nD = A\n@SP\nD = M - D\n@ARG\nM = D\n\n");
        self.say("@SP\nD = M\n@LCL\nM = D\n");
        let _ = self.goto(name);
        self.define(ret.as_slice());
        Ok(())
    }

    /// Translates `return`.
    pub fn ret_fn(&mut self) -> (r: Result<(), VmError>)
        ensures
            final(self)@ == emit_return(old(self)@),
            r == all_right(),
    {
        reveal(emit_return);
        self.say(
            "// FRAME(= @R13) = LCL\n@LCL\nD = M\n@R13\nM = D\n\n// FRAME - 5\n@5\nA = D - A\nD = M\n// RET = *(FRAME - 5)\n@R14\nM = D\n\n@SP\nA = M - 1\nD = M\n@R15\nM = D\n\n@ARG\nD = M + 1\n@SP\nM = D\n\n// SP - 1 = RET\n@R15\nD = M\n@SP\nA = M - 1\nM = D\n\n// THAT = *(FRAME - 1)\n@R13\nA = M - 1\nD = M\n@THAT\nM = D\n\n// THIS = *(FRAME - 2)\n@2\nD = A\n@R13\nA = M - D\nD = M\n@THIS\nM = D\n\n// ARG = *(FRAME - 3)\n@3\nD = A\n@R13\nA = M - D\nD = M\n@ARG\nM = D\n\n// LCL = *(FRAME - 4)\n@4\nD = A\n@R13\nA = M - D\nD = M\n@LCL\nM = D\n\n// goto RET\n@R14\nA = M\n1;JNE\n",
        );
        self.say("\n");
        Ok(())
    }

    /// Translates `eq`.
    pub fn eq(&mut self) -> (r: Result<(), VmError>)
        ensures
            final(self)@ == emit_compare(old(self)@, "JEQ").st,
            r == emit_compare(old(self)@, "JEQ").res,
    {
        self.compare("JEQ")
    }

    /// Translates `gt`.
    pub fn gt(&mut self) -> (r: Result<(), VmError>)
        ensures
            final(self)@ == emit_compare(old(self)@, "JGT").st,
            r == emit_compare(old(self)@, "JGT").res,
    {
        self.compare("JGT")
    }

    /// Translates `lt`.
    pub fn lt(&mut self) -> (r: Result<(), VmError>)
        ensures
            final(self)@ == emit_compare(old(self)@, "JLT").st,
            r == emit_compare(old(self)@, "JLT").res,
    {
        self.compare("JLT")
    }

    /// Translates `add`.
    pub fn add(&mut self) -> (r: Result<(), VmError>)
        ensures
            final(self)@ == emit_binary(old(self)@, "+"),
            r == all_right(),
    {
        self.binary_calc("+");
        Ok(())
    }

    /// Translates `sub`.
    pub fn sub(&mut self) -> (r: Result<(), VmError>)
        ensures
            final(self)@ == emit_binary(old(self)@, "-"),
            r == all_right(),
    {
        self.binary_calc("-");
        Ok(())
    }

    /// Translates `and`.
    pub fn and(&mut self) -> (r: Result<(), VmError>)
        ensures
            final(self)@ == emit_binary(old(self)@, "&"),
            r == all_right(),
    {
        self.binary_calc("&");
        Ok(())
    }

    /// Translates `or`.
    pub fn or(&mut self) -> (r: Result<(), VmError>)
        ensures
            final(self)@ == emit_binary(old(self)@, "|"),
            r == all_right(),
    {
        self.binary_calc("|");
        Ok(())
    }

    /// Translates `neg`.
    pub fn neg(&mut self) -> (r: Result<(), VmError>)
        ensures
            final(self)@ == emit_unary(old(self)@, "-"),
            r == all_right(),
    {
        self.unary_calc("-");
        Ok(())
    }

    /// Translates `not`.
    pub fn not(&mut self) -> (r: Result<(), VmError>)
        ensures
            final(self)@ == emit_unary(old(self)@, "!"),
            r == all_right(),
    {
        self.unary_calc("!");
        Ok(())
    }

    /// Writes a jump to `label`.
    pub fn goto(&mut self, label: &[u8]) -> (r: Result<(), VmError>)
        ensures
            final(self)@ == old(self)@.jump(label@),
            r == all_right(),
    {
        self.say("@");
        self.put(label);
        self.say("\n1; JNE\n");
        Ok(())
    }

    /// Writes a jump to `label` that is taken if the top of the stack, which
    /// is taken off, is not 0.
    pub fn if_goto(&mut self, label: &[u8]) -> (r: Result<(), VmError>)
        ensures
            final(self)@ == emit_if_goto(old(self)@, label@),
            r == all_right(),
    {
        reveal(emit_if_goto);
        self.pop_d();
        self.say("\n@");
        self.put(label);
        self.say("\nD; JNE\n\n");
        Ok(())
    }

    /// Writes what replaces the two values on top of the stack by what `op`
    /// makes of them.
    pub fn binary_calc(&mut self, operand: &str)
        ensures
            final(self)@ == emit_binary(old(self)@, operand),
    {
        reveal(emit_binary);
        self.pop_d();
        self.say("\n@SP\nA = M - 1\nM = M ");
        self.say(operand);
        self.say(" D\n\n");
    }

    /// Writes what replaces the value on top of the stack by what `op` makes
    /// of it.
    pub fn unary_calc(&mut self, operand: &str)
        ensures
            final(self)@ == emit_unary(old(self)@, operand),
    {
        reveal(emit_unary);
        self.say("@SP\nA = M - 1\nM = ");
        self.say(operand);
        self.say("M\n\n");
    }

    /// Writes the comparison whose jump is `operation`.
    pub fn compare(&mut self, operation: &str) -> (r: Result<(), VmError>)
        ensures
            final(self)@ == emit_compare(old(self)@, operation).st,
            r == emit_compare(old(self)@, operation).res,
    {
        reveal(emit_compare);
        let mut symbol = lit_vec(operation);
        push_lit(&mut symbol, "-");
        let ret_label = match self.fresh(symbol.as_slice()) {
            Ok(l) => l,
            Err(e) => {
                return Err(e);
            },
        };
        self.pop_d();
        self.say("\n@SP\nA = M - 1\nD = M - D\nM = -1\n@");
        self.put(ret_label.as_slice());
        self.say("\nD; ");
        self.say(operation);
        self.say("\n@SP\nA = M - 1\nM = 0\n");
        self.define(ret_label.as_slice());
        Ok(())
    }
}

/// Translates the units of a program into one text of assembly.
pub fn translate(units: &Vec<Unit>) -> (r: Result<Vec<u8>, VmError>)
    ensures
        match r {
            Ok(text) => emit_program(start(), units@).res is Ok && text@ == emit_program(
                start(),
                units@,
            ).st.text,
            Err(e) => emit_program(start(), units@).res == Err::<(), VmError>(e),
        },
{
    let mut vm = HackVm::new();
    match vm.interpret(units) {
        Ok(_) => Ok(vm.out),
        Err(e) => Err(e),
    }
}

} // verus!
