//! The table of initial memory: the cells of every linear memory and the
//! value of every global, as they were before execution began.

use crate::types::ValueType;
use vstd::prelude::*;

verus! {

/// Where an initial value lives.
#[derive(Clone, Copy, Debug, PartialEq, Eq, Structural, Hash)]
pub enum LocationType {
    /// A cell of a linear memory.
    Heap,
    /// A global variable.
    Global,
}

/// One initial value.
#[derive(Clone, Copy, Debug, PartialEq, Eq, Structural, Hash)]
pub struct InitMemoryTableEntry {
    pub ltype: LocationType,
    pub is_mutable: bool,
    /// The id of the memory, for a heap cell; of the module, for a global.
    pub mmid: u64,
    /// The number of the cell, for a heap cell; the declared index, for a
    /// global.
    pub offset: u64,
    pub vtype: ValueType,
    pub value: u64,
}

/// The entries in the order of their insertion.
#[derive(Debug, PartialEq, Eq)]
pub struct InitMemoryTable(pub Vec<InitMemoryTableEntry>);

impl View for InitMemoryTable {
    type V = Seq<InitMemoryTableEntry>;

    open spec fn view(&self) -> Seq<InitMemoryTableEntry> {
        self.0@
    }
}

impl InitMemoryTable {
    pub fn new() -> (table: Self)
        ensures
            table@ == Seq::<InitMemoryTableEntry>::empty(),
    {
        InitMemoryTable(Vec::new())
    }

    /// Appends a copy of `entry`.
    pub fn push(&mut self, entry: &InitMemoryTableEntry)
        ensures
            final(self)@ == old(self)@.push(*entry),
    {
        self.0.push(*entry);
    }

    pub fn entries(&self) -> (entries: &Vec<InitMemoryTableEntry>)
        ensures
            entries@ == self@,
    {
        &self.0
    }
}

} // verus!
