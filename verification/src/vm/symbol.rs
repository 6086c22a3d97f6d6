//! The counters of the translator's labels: each kind of label is numbered
//! from 0, so that no label is written twice.
use vstd::prelude::*;

use crate::fx::{entry_at, index_entries, index_get, index_insert, index_new, NameIndex};
use crate::text::{dec, push_dec, to_vec};

verus! {

/// The counters of the labels.
pub struct SymbolTable {
    table: NameIndex,
}

impl View for SymbolTable {
    type V = Map<Seq<u8>, nat>;

    /// For each symbol, how many labels were made from it.
    closed spec fn view(&self) -> Map<Seq<u8>, nat> {
        Map::new(
            |s: Seq<u8>| true,
            |s: Seq<u8>|
                match entry_at(index_entries(self.table), s) {
                    Some(last) => (last + 1) as nat,
                    None => 0nat,
                },
        )
    }
}

/// The counters before any label was made.
pub open spec fn no_labels() -> Map<Seq<u8>, nat> {
    Map::new(|s: Seq<u8>| true, |s: Seq<u8>| 0nat)
}

impl SymbolTable {
    /// A table that has made no label.
    pub fn new() -> (t: SymbolTable)
        ensures
            t@ == no_labels(),
    {
        let t = SymbolTable { table: index_new() };
        assert(t@ =~= no_labels());
        t
    }

    /// Makes a label from `sym` that was not made before: `sym` and the
    /// number of labels made from it so far. `None` when that number is out
    /// of reach.
    pub fn ret_addr(&mut self, sym: &[u8]) -> (r: Option<Vec<u8>>)
        ensures
            match r {
                Some(l) => l@ == sym@ + dec(old(self)@[sym@]) && old(self)@[sym@] < usize::MAX
                    && final(self)@ == old(self)@.insert(sym@, old(self)@[sym@] + 1),
                None => old(self)@[sym@] >= usize::MAX && final(self)@ == old(self)@,
            },
    {
        let index: usize = match index_get(&self.table, sym) {
            Some(last) => {
                if last >= usize::MAX - 1 {
                    return None;
                }
                last + 1
            },
            None => 0,
        };
        index_insert(&mut self.table, to_vec(sym), index);
        assert(final(self)@ =~= old(self)@.insert(sym@, old(self)@[sym@] + 1));
        let mut label = to_vec(sym);
        push_dec(&mut label, index as u64);
        Some(label)
    }
}

} // verus!
