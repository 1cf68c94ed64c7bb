//! Registries of instances: tables that pair the reference of an instance
//! with what it was registered under. A table only ever grows at its end, and
//! a reference is looked up by scanning from the front, so what a reference
//! was first registered under is what it keeps.

use vstd::prelude::*;

verus! {

/// Whether `table` holds an entry for `handle`.
pub open spec fn registered<T>(table: Seq<(u64, T)>, handle: u64) -> bool {
    exists|i: int| 0 <= i < table.len() && (#[trigger] table[i]).0 == handle
}

/// Whether `i` is the place of the first entry of `table` for `handle`.
pub open spec fn is_first_match<T>(table: Seq<(u64, T)>, handle: u64, i: int) -> bool {
    &&& 0 <= i < table.len()
    &&& table[i].0 == handle
    &&& forall|j: int| 0 <= j < i ==> (#[trigger] table[j]).0 != handle
}

/// What `handle` was first registered under, if it was registered at all.
pub open spec fn lookup<T>(table: Seq<(u64, T)>, handle: u64) -> Option<T> {
    if registered(table, handle) {
        Some(table[choose|i: int| is_first_match(table, handle, i)].1)
    } else {
        None
    }
}

/// The ids in `table` are 1, 2, 3 and so on, in the order of registration,
/// and each fits in 16 bits.
pub open spec fn ids_dense(table: Seq<(u64, u16)>) -> bool {
    &&& table.len() <= u16::MAX
    &&& forall|i: int| 0 <= i < table.len() ==> (#[trigger] table[i]).1 == i + 1
}

/// A reference has at most one first entry, and the lookup finds it.
pub proof fn lookup_of_first_match<T>(table: Seq<(u64, T)>, handle: u64, i: int)
    requires
        is_first_match(table, handle, i),
    ensures
        registered(table, handle),
        lookup(table, handle) == Some(table[i].1),
{
}

/// A registered reference has a first entry.
pub proof fn first_match_exists<T>(table: Seq<(u64, T)>, handle: u64) -> (i: int)
    requires
        registered(table, handle),
    ensures
        is_first_match(table, handle, i),
    decreases table.len(),
{
    let last = table.len() - 1;
    let front = table.drop_last();
    if exists|k: int| 0 <= k < front.len() && (#[trigger] front[k]).0 == handle {
        let i = first_match_exists(front, handle);
        assert(forall|j: int| 0 <= j < i ==> (#[trigger] table[j]) == front[j]);
        i
    } else {
        assert(forall|j: int| 0 <= j < last ==> (#[trigger] table[j]) == front[j]);
        last
    }
}

/// Registering never changes what an earlier reference is found under: after
/// a new entry, a reference that was registered keeps its value, and only a
/// reference that was not registered can be found under the new one.
pub proof fn lookup_after_push<T>(table: Seq<(u64, T)>, entry: (u64, T), handle: u64)
    ensures
        lookup(table.push(entry), handle) == if registered(table, handle) {
            lookup(table, handle)
        } else if entry.0 == handle {
            Some(entry.1)
        } else {
            None
        },
{
    let grown = table.push(entry);
    if registered(table, handle) {
        let i = first_match_exists(table, handle);
        lookup_of_first_match(table, handle, i);
        lookup_of_first_match(grown, handle, i);
    } else if entry.0 == handle {
        let last = table.len() as int;
        lookup_of_first_match(grown, handle, last);
    }
}

/// Looks `handle` up in `table`.
pub fn find<T: Copy>(table: &Vec<(u64, T)>, handle: u64) -> (found: Option<T>)
    ensures
        found == lookup(table@, handle),
{
    let mut i: usize = 0;
    while i < table.len()
        invariant
            i <= table.len(),
            forall|j: int| 0 <= j < i ==> (#[trigger] table@[j]).0 != handle,
        decreases table.len() - i,
    {
        if table[i].0 == handle {
            proof {
                lookup_of_first_match(table@, handle, i as int);
            }
            return Some(table[i].1);
        }
        i = i + 1;
    }
    None
}

} // verus!
