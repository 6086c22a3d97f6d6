//! The functions of the standard library: the compiler knows their names
//! and their return types, and nothing else of them.
use vstd::prelude::*;

use crate::ast::{Span, Type, TypeView};
use crate::jack::symbol::{FnCtxt, FnCtxtView, FnKey, SymbolTable, TableView};
use crate::text::{lit, lit_vec};

verus! {

/// The registry `fns` with the library function `name` of `class`, which
/// returns `ty`. A library function has no place in a source.
pub open spec fn with_fn(fns: Map<FnKey, FnCtxtView>, class: &str, name: &str, ty: TypeView) -> Map<
    FnKey,
    FnCtxtView,
> {
    fns.insert(
        (lit(class), lit(name)),
        FnCtxtView { class: lit(class), name: lit(name), ty, span: Span { base: 0, len: 0 } },
    )
}

/// The registry `fns` with the functions of `Array`.
pub open spec fn array_fns(fns: Map<FnKey, FnCtxtView>) -> Map<FnKey, FnCtxtView> {
    let f0 = with_fn(fns, "Array", "new", TypeView::Class(lit("Array")));
    with_fn(f0, "Array", "dispose", TypeView::Void)
}

/// The registry `fns` with the functions of `Keyboard`.
pub open spec fn keyboard_fns(fns: Map<FnKey, FnCtxtView>) -> Map<FnKey, FnCtxtView> {
    let f0 = with_fn(fns, "Keyboard", "init", TypeView::Void);
    let f1 = with_fn(f0, "Keyboard", "keyPressed", TypeView::Char);
    let f2 = with_fn(f1, "Keyboard", "readChar", TypeView::Char);
    let f3 = with_fn(f2, "Keyboard", "readLine", TypeView::Class(lit("String")));
    with_fn(f3, "Keyboard", "readInt", TypeView::Int)
}

/// The registry `fns` with the functions of `Math`.
pub open spec fn math_fns(fns: Map<FnKey, FnCtxtView>) -> Map<FnKey, FnCtxtView> {
    let f0 = with_fn(fns, "Math", "init", TypeView::Void);
    let f1 = with_fn(f0, "Math", "abs", TypeView::Int);
    let f2 = with_fn(f1, "Math", "multiply", TypeView::Int);
    let f3 = with_fn(f2, "Math", "divide", TypeView::Int);
    let f4 = with_fn(f3, "Math", "min", TypeView::Int);
    let f5 = with_fn(f4, "Math", "max", TypeView::Int);
    with_fn(f5, "Math", "sqrt", TypeView::Int)
}

/// The registry `fns` with the functions of `Memory`.
pub open spec fn memory_fns(fns: Map<FnKey, FnCtxtView>) -> Map<FnKey, FnCtxtView> {
    let f0 = with_fn(fns, "Memory", "init", TypeView::Void);
    let f1 = with_fn(f0, "Memory", "peek", TypeView::Int);
    let f2 = with_fn(f1, "Memory", "poke", TypeView::Void);
    let f3 = with_fn(f2, "Memory", "alloc", TypeView::Class(lit("Array")));
    with_fn(f3, "Memory", "deAlloc", TypeView::Void)
}

/// The registry `fns` with the functions of `Output`.
pub open spec fn output_fns(fns: Map<FnKey, FnCtxtView>) -> Map<FnKey, FnCtxtView> {
    let f0 = with_fn(fns, "Output", "init", TypeView::Void);
    let f1 = with_fn(f0, "Output", "moveCursor", TypeView::Void);
    let f2 = with_fn(f1, "Output", "printChar", TypeView::Void);
    let f3 = with_fn(f2, "Output", "printString", TypeView::Void);
    let f4 = with_fn(f3, "Output", "printInt", TypeView::Void);
    let f5 = with_fn(f4, "Output", "println", TypeView::Void);
    with_fn(f5, "Output", "backSpace", TypeView::Void)
}

/// The registry `fns` with the functions of `Screen`.
pub open spec fn screen_fns(fns: Map<FnKey, FnCtxtView>) -> Map<FnKey, FnCtxtView> {
    let f0 = with_fn(fns, "Screen", "init", TypeView::Void);
    let f1 = with_fn(f0, "Screen", "clearScreen", TypeView::Void);
    let f2 = with_fn(f1, "Screen", "setColor", TypeView::Void);
    let f3 = with_fn(f2, "Screen", "drawPixel", TypeView::Void);
    let f4 = with_fn(f3, "Screen", "drawLine", TypeView::Void);
    let f5 = with_fn(f4, "Screen", "drawRectangle", TypeView::Void);
    with_fn(f5, "Screen", "drawCircle", TypeView::Void)
}

/// The registry `fns` with the functions of `String`.
pub open spec fn string_fns(fns: Map<FnKey, FnCtxtView>) -> Map<FnKey, FnCtxtView> {
    let f0 = with_fn(fns, "String", "new", TypeView::Class(lit("String")));
    let f1 = with_fn(f0, "String", "length", TypeView::Int);
    let f2 = with_fn(f1, "String", "charAt", TypeView::Char);
    let f3 = with_fn(f2, "String", "setCharAt", TypeView::Char);
    let f4 = with_fn(f3, "String", "appendChar", TypeView::Class(lit("String")));
    let f5 = with_fn(f4, "String", "eraseLastChar", TypeView::Void);
    let f6 = with_fn(f5, "String", "intValue", TypeView::Int);
    with_fn(f6, "String", "setInt", TypeView::Void)
}

/// The registry `fns` with the functions of `Sys`.
pub open spec fn sys_fns(fns: Map<FnKey, FnCtxtView>) -> Map<FnKey, FnCtxtView> {
    let f0 = with_fn(fns, "Sys", "init", TypeView::Void);
    let f1 = with_fn(f0, "Sys", "halt", TypeView::Void);
    let f2 = with_fn(f1, "Sys", "error", TypeView::Void);
    with_fn(f2, "Sys", "wait", TypeView::Void)
}

/// The registry `fns` with all functions of the standard library.
pub open spec fn stdlib_fns(fns: Map<FnKey, FnCtxtView>) -> Map<FnKey, FnCtxtView> {
    sys_fns(string_fns(screen_fns(output_fns(memory_fns(math_fns(keyboard_fns(array_fns(fns))))))))
}

impl SymbolTable {
    /// Files the library function `name` of `class`, which returns `ty`.
    pub fn put_library_fn(&mut self, class: &str, name: &str, ty: Type)
        requires
            old(self).wf(),
        ensures
            final(self).wf(),
            final(self)@ == (TableView {
                fns: with_fn(old(self)@.fns, class, name, ty@),
                ..old(self)@
            }),
            final(self).label_count() == old(self).label_count(),
    {
        self.put_fn(
            FnCtxt { class: lit_vec(class), name: lit_vec(name), ty, span: Span::new(0, 0) },
        );
    }

    /// Files the functions of `Array`.
    pub fn load_array(&mut self)
        requires
            old(self).wf(),
        ensures
            final(self).wf(),
            final(self)@ == (TableView { fns: array_fns(old(self)@.fns), ..old(self)@ }),
            final(self).label_count() == old(self).label_count(),
    {
        self.put_library_fn("Array", "new", Type::Class(lit_vec("Array")));
        self.put_library_fn("Array", "dispose", Type::Void);
    }

    /// Files the functions of `Keyboard`.
    pub fn load_keyboard(&mut self)
        requires
            old(self).wf(),
        ensures
            final(self).wf(),
            final(self)@ == (TableView { fns: keyboard_fns(old(self)@.fns), ..old(self)@ }),
            final(self).label_count() == old(self).label_count(),
    {
        self.put_library_fn("Keyboard", "init", Type::Void);
        self.put_library_fn("Keyboard", "keyPressed", Type::Char);
        self.put_library_fn("Keyboard", "readChar", Type::Char);
        self.put_library_fn("Keyboard", "readLine", Type::Class(lit_vec("String")));
        self.put_library_fn("Keyboard", "readInt", Type::Int);
    }

    /// Files the functions of `Math`.
    pub fn load_math(&mut self)
        requires
            old(self).wf(),
        ensures
            final(self).wf(),
            final(self)@ == (TableView { fns: math_fns(old(self)@.fns), ..old(self)@ }),
            final(self).label_count() == old(self).label_count(),
    {
        self.put_library_fn("Math", "init", Type::Void);
        self.put_library_fn("Math", "abs", Type::Int);
        self.put_library_fn("Math", "multiply", Type::Int);
        self.put_library_fn("Math", "divide", Type::Int);
        self.put_library_fn("Math", "min", Type::Int);
        self.put_library_fn("Math", "max", Type::Int);
        self.put_library_fn("Math", "sqrt", Type::Int);
    }

    /// Files the functions of `Memory`.
    pub fn load_memory(&mut self)
        requires
            old(self).wf(),
        ensures
            final(self).wf(),
            final(self)@ == (TableView { fns: memory_fns(old(self)@.fns), ..old(self)@ }),
            final(self).label_count() == old(self).label_count(),
    {
        self.put_library_fn("Memory", "init", Type::Void);
        self.put_library_fn("Memory", "peek", Type::Int);
        self.put_library_fn("Memory", "poke", Type::Void);
        self.put_library_fn("Memory", "alloc", Type::Class(lit_vec("Array")));
        self.put_library_fn("Memory", "deAlloc", Type::Void);
    }

    /// Files the functions of `Output`.
    pub fn load_output(&mut self)
        requires
            old(self).wf(),
        ensures
            final(self).wf(),
            final(self)@ == (TableView { fns: output_fns(old(self)@.fns), ..old(self)@ }),
            final(self).label_count() == old(self).label_count(),
    {
        self.put_library_fn("Output", "init", Type::Void);
        self.put_library_fn("Output", "moveCursor", Type::Void);
        self.put_library_fn("Output", "printChar", Type::Void);
        self.put_library_fn("Output", "printString", Type::Void);
        self.put_library_fn("Output", "printInt", Type::Void);
        self.put_library_fn("Output", "println", Type::Void);
        self.put_library_fn("Output", "backSpace", Type::Void);
    }

    /// Files the functions of `Screen`.
    pub fn load_screen(&mut self)
        requires
            old(self).wf(),
        ensures
            final(self).wf(),
            final(self)@ == (TableView { fns: screen_fns(old(self)@.fns), ..old(self)@ }),
            final(self).label_count() == old(self).label_count(),
    {
        self.put_library_fn("Screen", "init", Type::Void);
        self.put_library_fn("Screen", "clearScreen", Type::Void);
        self.put_library_fn("Screen", "setColor", Type::Void);
        self.put_library_fn("Screen", "drawPixel", Type::Void);
        self.put_library_fn("Screen", "drawLine", Type::Void);
        self.put_library_fn("Screen", "drawRectangle", Type::Void);
        self.put_library_fn("Screen", "drawCircle", Type::Void);
    }

    /// Files the functions of `String`.
    pub fn load_string(&mut self)
        requires
            old(self).wf(),
        ensures
            final(self).wf(),
            final(self)@ == (TableView { fns: string_fns(old(self)@.fns), ..old(self)@ }),
            final(self).label_count() == old(self).label_count(),
    {
        self.put_library_fn("String", "new", Type::Class(lit_vec("String")));
        self.put_library_fn("String", "length", Type::Int);
        self.put_library_fn("String", "charAt", Type::Char);
        self.put_library_fn("String", "setCharAt", Type::Char);
        self.put_library_fn("String", "appendChar", Type::Class(lit_vec("String")));
        self.put_library_fn("String", "eraseLastChar", Type::Void);
        self.put_library_fn("String", "intValue", Type::Int);
        self.put_library_fn("String", "setInt", Type::Void);
    }

    /// Files the functions of `Sys`.
    pub fn load_sys(&mut self)
        requires
            old(self).wf(),
        ensures
            final(self).wf(),
            final(self)@ == (TableView { fns: sys_fns(old(self)@.fns), ..old(self)@ }),
            final(self).label_count() == old(self).label_count(),
    {
        self.put_library_fn("Sys", "init", Type::Void);
        self.put_library_fn("Sys", "halt", Type::Void);
        self.put_library_fn("Sys", "error", Type::Void);
        self.put_library_fn("Sys", "wait", Type::Void);
    }

    /// Files all functions of the standard library.
    pub fn load_stl(&mut self)
        requires
            old(self).wf(),
        ensures
            final(self).wf(),
            final(self)@ == (TableView { fns: stdlib_fns(old(self)@.fns), ..old(self)@ }),
            final(self).label_count() == old(self).label_count(),
    {
        self.load_array();
        self.load_keyboard();
        self.load_math();
        self.load_memory();
        self.load_output();
        self.load_screen();
        self.load_string();
        self.load_sys();
    }

    /// A table that knows the standard library, and nothing else.
    pub fn new() -> (t: SymbolTable)
        ensures
            t.wf(),
            t@ == (TableView { fns: stdlib_fns(Map::empty()), ..SymbolTable::empty_view() }),
            t.label_count() == 0,
    {
        let mut t = SymbolTable::empty();
        t.load_stl();
        t
    }
}

} // verus!
