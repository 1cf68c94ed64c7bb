//! The instruction table: one entry for every instruction of every function
//! body, in the order in which the tracer met them.

use crate::isa::Opcode;
use vstd::prelude::*;

verus! {

/// One instruction of one function, as the table holds it.
#[derive(Clone, Copy, Debug, PartialEq, Eq, Structural, Hash)]
pub struct InstructionTableEntry {
    /// The id of the module that the function belongs to.
    pub moid: u16,
    /// The id of the memory that the function works on.
    pub mmid: u16,
    /// The stable id of the function.
    pub fid: u16,
    /// The position of the instruction in the function's body.
    pub iid: u16,
    pub opcode: Opcode,
}

/// The entries in the order of their insertion. Nothing is ever changed or
/// taken out.
#[derive(Debug, PartialEq, Eq)]
pub struct InstructionTable(pub Vec<InstructionTableEntry>);

impl View for InstructionTable {
    type V = Seq<InstructionTableEntry>;

    open spec fn view(&self) -> Seq<InstructionTableEntry> {
        self.0@
    }
}

impl InstructionTableEntry {
    /// Whether this entry belongs to the function with the stable id `fid`
    /// of the module with the id `moid`.
    pub open spec fn of(self, moid: u16, fid: u16) -> bool {
        self.moid == moid && self.fid == fid
    }

    /// Whether this entry stands for position `iid` of the function with the
    /// stable id `fid` of the module with the id `moid`.
    pub open spec fn at(self, moid: u16, fid: u16, iid: u16) -> bool {
        self.moid == moid && self.fid == fid && self.iid == iid
    }
}

/// No two entries of `entries` stand for the same position of the same
/// function of the same module.
pub open spec fn keys_unique(entries: Seq<InstructionTableEntry>) -> bool {
    forall|a: int, b: int|
        0 <= a < entries.len() && 0 <= b < entries.len() && a != b ==> !(#[trigger] entries[a]).at(
            (#[trigger] entries[b]).moid,
            entries[b].fid,
            entries[b].iid,
        )
}

/// Of two entries of one function of one module, the one that comes first
/// in `entries` has the smaller position in the body.
pub open spec fn pc_ordered(entries: Seq<InstructionTableEntry>) -> bool {
    forall|a: int, b: int|
        0 <= a < b < entries.len() && (#[trigger] entries[a]).of(
            (#[trigger] entries[b]).moid,
            entries[b].fid,
        ) ==> entries[a].iid < entries[b].iid
}

/// Every entry of `entries` belongs to one of the first `modules` modules:
/// its module id is one of 1, 2, ... up to `modules`.
pub open spec fn within_modules(entries: Seq<InstructionTableEntry>, modules: nat) -> bool {
    forall|i: int| 0 <= i < entries.len() ==> 1 <= (#[trigger] entries[i]).moid <= modules
}

/// Whether `i` is the place of the first entry of `entries` that stands at
/// position `iid` of function `fid` of module `moid`.
pub open spec fn is_first_at(
    entries: Seq<InstructionTableEntry>,
    moid: u16,
    fid: u16,
    iid: u16,
    i: int,
) -> bool {
    &&& 0 <= i < entries.len()
    &&& entries[i].at(moid, fid, iid)
    &&& forall|j: int| 0 <= j < i ==> !(#[trigger] entries[j]).at(moid, fid, iid)
}

/// Whether `i` is the place of the first entry of `entries` that belongs to
/// function `fid` of module `moid`.
pub open spec fn is_first_of(entries: Seq<InstructionTableEntry>, moid: u16, fid: u16, i: int) -> bool {
    &&& 0 <= i < entries.len()
    &&& entries[i].of(moid, fid)
    &&& forall|j: int| 0 <= j < i ==> !(#[trigger] entries[j]).of(moid, fid)
}

/// Whether `entries` holds an entry for position `iid` of function `fid` of
/// module `moid`.
pub open spec fn has_entry_at(entries: Seq<InstructionTableEntry>, moid: u16, fid: u16, iid: u16) -> bool {
    exists|i: int| 0 <= i < entries.len() && (#[trigger] entries[i]).at(moid, fid, iid)
}

/// Whether `entries` holds an entry of function `fid` of module `moid`.
pub open spec fn has_entry_of(entries: Seq<InstructionTableEntry>, moid: u16, fid: u16) -> bool {
    exists|i: int| 0 <= i < entries.len() && (#[trigger] entries[i]).of(moid, fid)
}

/// The first entry of `entries` that stands at position `iid` of function
/// `fid` of module `moid`, if there is one.
pub open spec fn first_at(entries: Seq<InstructionTableEntry>, moid: u16, fid: u16, iid: u16) -> Option<
    InstructionTableEntry,
> {
    if has_entry_at(entries, moid, fid, iid) {
        Some(entries[choose|i: int| is_first_at(entries, moid, fid, iid, i)])
    } else {
        None
    }
}

/// The first entry of `entries` that belongs to function `fid` of module
/// `moid`, if there is one.
pub open spec fn first_of(entries: Seq<InstructionTableEntry>, moid: u16, fid: u16) -> Option<
    InstructionTableEntry,
> {
    if has_entry_of(entries, moid, fid) {
        Some(entries[choose|i: int| is_first_of(entries, moid, fid, i)])
    } else {
        None
    }
}

/// There is at most one first entry for a key, and `first_at` is that entry.
pub proof fn first_at_of_match(
    entries: Seq<InstructionTableEntry>,
    moid: u16,
    fid: u16,
    iid: u16,
    i: int,
)
    requires
        is_first_at(entries, moid, fid, iid, i),
    ensures
        first_at(entries, moid, fid, iid) == Some(entries[i]),
{
    let chosen = choose|k: int| is_first_at(entries, moid, fid, iid, k);
    assert(is_first_at(entries, moid, fid, iid, chosen));
    if chosen < i {
        assert(!entries[chosen].at(moid, fid, iid));
    }
    if i < chosen {
        assert(!entries[i].at(moid, fid, iid));
    }
}

/// There is at most one first entry of a function, and `first_of` is that
/// entry.
pub proof fn first_of_of_match(entries: Seq<InstructionTableEntry>, moid: u16, fid: u16, i: int)
    requires
        is_first_of(entries, moid, fid, i),
    ensures
        first_of(entries, moid, fid) == Some(entries[i]),
{
    let chosen = choose|k: int| is_first_of(entries, moid, fid, k);
    assert(is_first_of(entries, moid, fid, chosen));
    if chosen < i {
        assert(!entries[chosen].of(moid, fid));
    }
    if i < chosen {
        assert(!entries[i].of(moid, fid));
    }
}

/// Where an entry for a key exists, a first one exists.
proof fn first_at_exists(
    entries: Seq<InstructionTableEntry>,
    moid: u16,
    fid: u16,
    iid: u16,
    bound: int,
) -> (i: int)
    requires
        0 <= bound < entries.len(),
        entries[bound].at(moid, fid, iid),
    ensures
        is_first_at(entries, moid, fid, iid, i),
        i <= bound,
    decreases bound,
{
    if exists|j: int| 0 <= j < bound && (#[trigger] entries[j]).at(moid, fid, iid) {
        let j = choose|j: int| 0 <= j < bound && (#[trigger] entries[j]).at(moid, fid, iid);
        first_at_exists(entries, moid, fid, iid, j)
    } else {
        bound
    }
}

/// Where an entry of a function exists, a first one exists.
proof fn first_of_exists(entries: Seq<InstructionTableEntry>, moid: u16, fid: u16, bound: int) -> (i:
    int)
    requires
        0 <= bound < entries.len(),
        entries[bound].of(moid, fid),
    ensures
        is_first_of(entries, moid, fid, i),
        i <= bound,
    decreases bound,
{
    if exists|j: int| 0 <= j < bound && (#[trigger] entries[j]).of(moid, fid) {
        let j = choose|j: int| 0 <= j < bound && (#[trigger] entries[j]).of(moid, fid);
        first_of_exists(entries, moid, fid, j)
    } else {
        bound
    }
}

/// Entries in position order have unique keys.
pub proof fn pc_ordered_keys_unique(entries: Seq<InstructionTableEntry>)
    requires
        pc_ordered(entries),
    ensures
        keys_unique(entries),
{
    assert forall|a: int, b: int|
        0 <= a < entries.len() && 0 <= b < entries.len() && a != b implies !(
    #[trigger] entries[a]).at((#[trigger] entries[b]).moid, entries[b].fid, entries[b].iid) by {
        if entries[a].of(entries[b].moid, entries[b].fid) {
            if a < b {
                assert(entries[a].iid < entries[b].iid);
            } else {
                assert(entries[b].of(entries[a].moid, entries[a].fid));
                assert(entries[b].iid < entries[a].iid);
            }
        }
    }
}

/// What a lookup by key finds is an entry of the table that belongs to the
/// module and the function that were asked for and stands at the position
/// that was asked for; and it finds one wherever the table has one.
pub proof fn first_at_matches_key(entries: Seq<InstructionTableEntry>, moid: u16, fid: u16, iid: u16)
    ensures
        first_at(entries, moid, fid, iid) is Some <==> has_entry_at(entries, moid, fid, iid),
        first_at(entries, moid, fid, iid) matches Some(entry) ==> entry.at(moid, fid, iid)
            && entries.contains(entry),
{
    if has_entry_at(entries, moid, fid, iid) {
        let k = choose|k: int| 0 <= k < entries.len() && (#[trigger] entries[k]).at(moid, fid, iid);
        let i = first_at_exists(entries, moid, fid, iid, k);
        first_at_of_match(entries, moid, fid, iid, i);
    }
}

/// In a table with unique keys, a lookup by key finds the one entry with
/// that key.
pub proof fn first_at_is_the_unique_match(
    entries: Seq<InstructionTableEntry>,
    moid: u16,
    fid: u16,
    iid: u16,
    k: int,
)
    requires
        keys_unique(entries),
        0 <= k < entries.len(),
        entries[k].at(moid, fid, iid),
    ensures
        first_at(entries, moid, fid, iid) == Some(entries[k]),
{
    let i = first_at_exists(entries, moid, fid, iid, k);
    first_at_of_match(entries, moid, fid, iid, i);
    if i != k {
        assert(!entries[i].at(entries[k].moid, entries[k].fid, entries[k].iid));
    }
}

/// What a lookup of a function's first instruction finds is an entry of the
/// table that belongs to the module and the function that were asked for;
/// it finds one wherever the table has one; and in a table in position
/// order no entry of that function has a smaller position.
pub proof fn first_of_has_smallest_pc(
    entries: Seq<InstructionTableEntry>,
    moid: u16,
    fid: u16,
    k: int,
)
    requires
        0 <= k < entries.len(),
        entries[k].of(moid, fid),
    ensures
        first_of(entries, moid, fid) is Some,
        first_of(entries, moid, fid)->0.of(moid, fid),
        entries.contains(first_of(entries, moid, fid)->0),
        pc_ordered(entries) ==> first_of(entries, moid, fid)->0.iid <= entries[k].iid,
{
    let i = first_of_exists(entries, moid, fid, k);
    first_of_of_match(entries, moid, fid, i);
    if pc_ordered(entries) && i < k {
        assert(entries[i].of(entries[k].moid, entries[k].fid));
        assert(entries[i].iid < entries[k].iid);
    }
}

impl InstructionTable {
    pub fn new() -> (table: Self)
        ensures
            table@ == Seq::<InstructionTableEntry>::empty(),
    {
        InstructionTable(Vec::new())
    }

    /// Appends a copy of `entry`.
    pub fn push(&mut self, entry: &InstructionTableEntry)
        ensures
            final(self)@ == old(self)@.push(*entry),
    {
        self.0.push(*entry);
    }

    pub fn entries(&self) -> (entries: &Vec<InstructionTableEntry>)
        ensures
            entries@ == self@,
    {
        &self.0
    }
}

} // verus!
