//! The symbols of a program and their addresses. The machine's registers and
//! devices have their names from the start; labels name instructions;
//! every other symbol is a variable, and the variables lie from address 16
//! on, in the order in which they come up.
use vstd::prelude::*;

use crate::fx::{index_entries, index_get, index_insert, index_new, NameIndex};
use crate::text::{lit, lit_vec, to_vec};

verus! {

/// An address of the machine: fifteen bits.
pub type Address = u16;

/// The address of the first variable.
pub const SYMBOL_BASE_ADDR: u16 = 16;

/// The table of symbols, as contracts see it.
pub struct SymbolsView {
    /// The address of each symbol that has one.
    pub table: Map<Seq<u8>, nat>,
    /// How many variables have an address.
    pub variables: nat,
}

/// The table `table` with `address` for the symbol `name`.
pub open spec fn with(table: Map<Seq<u8>, nat>, name: &str, address: nat) -> Map<Seq<u8>, nat> {
    table.insert(lit(name), address)
}

/// The pointers of the stack machine.
pub open spec fn pointers(table: Map<Seq<u8>, nat>) -> Map<Seq<u8>, nat> {
    let t0 = with(table, "SP", 0);
    let t1 = with(t0, "LCL", 1);
    let t2 = with(t1, "ARG", 2);
    let t3 = with(t2, "THIS", 3);
    with(t3, "THAT", 4)
}

/// The registers `R0` to `R15`.
pub open spec fn registers(table: Map<Seq<u8>, nat>) -> Map<Seq<u8>, nat> {
    let t0 = with(table, "R0", 0);
    let t1 = with(t0, "R1", 1);
    let t2 = with(t1, "R2", 2);
    let t3 = with(t2, "R3", 3);
    let t4 = with(t3, "R4", 4);
    let t5 = with(t4, "R5", 5);
    let t6 = with(t5, "R6", 6);
    let t7 = with(t6, "R7", 7);
    let t8 = with(t7, "R8", 8);
    let t9 = with(t8, "R9", 9);
    let t10 = with(t9, "R10", 10);
    let t11 = with(t10, "R11", 11);
    let t12 = with(t11, "R12", 12);
    let t13 = with(t12, "R13", 13);
    let t14 = with(t13, "R14", 14);
    with(t14, "R15", 15)
}

/// The screen and the keyboard.
pub open spec fn devices(table: Map<Seq<u8>, nat>) -> Map<Seq<u8>, nat> {
    let t0 = with(table, "SCREEN", 0x4000);
    with(t0, "KBD", 0x6000)
}

/// The symbols that the machine defines: the pointers of the stack machine,
/// the registers `R0` to `R15`, the screen and the keyboard.
pub open spec fn predefined() -> Map<Seq<u8>, nat> {
    devices(registers(pointers(Map::empty())))
}

/// The table of symbols of a program.
pub struct SymbolTable {
    table: NameIndex,
    symbol_offset: u16,
}

impl View for SymbolTable {
    type V = SymbolsView;

    closed spec fn view(&self) -> SymbolsView {
        SymbolsView {
            table: Map::new(
                |s: Seq<u8>| index_entries(self.table).dom().contains(s),
                |s: Seq<u8>| index_entries(self.table)[s] as nat,
            ),
            variables: self.symbol_offset as nat,
        }
    }
}

/// The address of `sym` in `table`, if it has one.
pub open spec fn address_of(table: Map<Seq<u8>, nat>, sym: Seq<u8>) -> Option<nat> {
    if table.dom().contains(sym) {
        Some(table[sym])
    } else {
        None
    }
}

impl SymbolTable {
    /// Every address fits in fifteen bits.
    pub closed spec fn wf(&self) -> bool {
        &&& self.symbol_offset <= 0x8000 - 16
        &&& forall|s: Seq<u8>| #[trigger]
            index_entries(self.table).dom().contains(s) ==> index_entries(self.table)[s] < 0x8000
    }

    /// Files the predefined symbol `name`.
    fn define(&mut self, name: &str, address: u16)
        requires
            old(self).wf(),
            address < 0x8000,
        ensures
            final(self).wf(),
            final(self)@ == (SymbolsView {
                table: with(old(self)@.table, name, address as nat),
                ..old(self)@
            }),
    {
        index_insert(&mut self.table, lit_vec(name), address as usize);
        assert(final(self)@.table =~= with(old(self)@.table, name, address as nat));
    }

    /// A table with the symbols that the machine defines.
    pub fn new() -> (t: SymbolTable)
        ensures
            t.wf(),
            t@ == (SymbolsView { table: predefined(), variables: 0 }),
    {
        let mut t = SymbolTable { table: index_new(), symbol_offset: 0 };
        assert(t@.table =~= Map::<Seq<u8>, nat>::empty());
        t.define("SP", 0);
        t.define("LCL", 1);
        t.define("ARG", 2);
        t.define("THIS", 3);
        t.define("THAT", 4);
        t.define("R0", 0);
        t.define("R1", 1);
        t.define("R2", 2);
        t.define("R3", 3);
        t.define("R4", 4);
        t.define("R5", 5);
        t.define("R6", 6);
        t.define("R7", 7);
        t.define("R8", 8);
        t.define("R9", 9);
        t.define("R10", 10);
        t.define("R11", 11);
        t.define("R12", 12);
        t.define("R13", 13);
        t.define("R14", 14);
        t.define("R15", 15);
        t.define("SCREEN", 0x4000);
        t.define("KBD", 0x6000);
        t
    }

    /// Whether `sym` has an address.
    pub fn contains(&self, sym: &[u8]) -> (r: bool)
        ensures
            r == self@.table.dom().contains(sym@),
    {
        index_get(&self.table, sym).is_some()
    }

    /// Gives the variable `sym` the next free address, from 16 on. `false`
    /// and no change when the addresses are used up.
    pub fn register_symbol(&mut self, sym: &[u8]) -> (r: bool)
        requires
            old(self).wf(),
        ensures
            final(self).wf(),
            r == (old(self)@.variables < 0x8000 - 16),
            final(self)@ == if r {
                SymbolsView {
                    table: old(self)@.table.insert(sym@, 16 + old(self)@.variables),
                    variables: old(self)@.variables + 1,
                }
            } else {
                old(self)@
            },
    {
        if self.symbol_offset >= 0x8000 - 16 {
            return false;
        }
        let address = SYMBOL_BASE_ADDR + self.symbol_offset;
        index_insert(&mut self.table, to_vec(sym), address as usize);
        self.symbol_offset = self.symbol_offset + 1;
        assert(final(self)@.table =~= old(self)@.table.insert(sym@, 16 + old(self)@.variables));
        true
    }

    /// Gives the label `sym` the address `addr`.
    pub fn register_label(&mut self, sym: &[u8], addr: Address)
        requires
            old(self).wf(),
            addr < 0x8000,
        ensures
            final(self).wf(),
            final(self)@ == (SymbolsView {
                table: old(self)@.table.insert(sym@, addr as nat),
                ..old(self)@
            }),
    {
        index_insert(&mut self.table, to_vec(sym), addr as usize);
        assert(final(self)@.table =~= old(self)@.table.insert(sym@, addr as nat));
    }

    /// The address of `sym`.
    pub fn address(&self, sym: &[u8]) -> (r: Option<Address>)
        requires
            self.wf(),
        ensures
            match r {
                Some(a) => address_of(self@.table, sym@) == Some(a as nat),
                None => address_of(self@.table, sym@).is_none(),
            },
    {
        match index_get(&self.table, sym) {
            Some(a) => Some(a as u16),
            None => None,
        }
    }
}

} // verus!
