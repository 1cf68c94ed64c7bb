//! Linear memory as the tracer sees it: bytes, read as little-endian cells
//! of eight bytes each.

use crate::instance::MemoryRef;
use vstd::arithmetic::div_mod::lemma_fundamental_div_mod_converse;
use vstd::prelude::*;

verus! {

/// The number of cells in one page of memory.
pub const CELLS_PER_PAGE: u32 = 8192;

/// The number of bytes in one page of memory.
pub const BYTES_PER_PAGE: usize = 65536;

/// The number that the eight bytes of `cell` spell, the first byte counting
/// least.
pub open spec fn le_u64(cell: Seq<u8>) -> int
    recommends
        cell.len() == 8,
{
    cell[0] + 0x100 * cell[1] + 0x1_0000 * cell[2] + 0x100_0000 * cell[3] + 0x1_0000_0000 * cell[4]
        + 0x100_0000_0000 * cell[5] + 0x1_0000_0000_0000 * cell[6] + 0x100_0000_0000_0000 * cell[7]
}

/// The eight bytes that spell `value`, the first byte counting least.
pub open spec fn le_bytes(value: int) -> Seq<u8> {
    seq![
        (value % 0x100) as u8,
        (value / 0x100 % 0x100) as u8,
        (value / 0x1_0000 % 0x100) as u8,
        (value / 0x100_0000 % 0x100) as u8,
        (value / 0x1_0000_0000 % 0x100) as u8,
        (value / 0x100_0000_0000 % 0x100) as u8,
        (value / 0x1_0000_0000_0000 % 0x100) as u8,
        (value / 0x100_0000_0000_0000 % 0x100) as u8,
    ]
}

/// The digit of weight `weight` in a number written to the base 256.
proof fn digit_of_sum(low: int, digit: int, high: int, weight: int)
    requires
        0 <= low < weight,
        0 <= digit < 0x100,
    ensures
        (low + weight * (digit + 0x100 * high)) / weight % 0x100 == digit,
{
    let upper = digit + 0x100 * high;
    assert(low + weight * upper == upper * weight + low) by (nonlinear_arith);
    lemma_fundamental_div_mod_converse(low + weight * upper, weight, upper, low);
    lemma_fundamental_div_mod_converse(upper, 0x100, high, digit);
}

/// Eight bytes spell a number that fits in 64 bits, and the bytes that spell
/// that number are the same eight bytes.
pub proof fn le_bytes_of_le_u64(cell: Seq<u8>)
    requires
        cell.len() == 8,
    ensures
        0 <= le_u64(cell) <= u64::MAX,
        le_bytes(le_u64(cell)) == cell,
{
    let value = le_u64(cell);
    let spelled = le_bytes(value);
    let c0 = cell[0] as int;
    let c1 = cell[1] as int;
    let c2 = cell[2] as int;
    let c3 = cell[3] as int;
    let c4 = cell[4] as int;
    let c5 = cell[5] as int;
    let c6 = cell[6] as int;
    let c7 = cell[7] as int;
    let h6 = c7;
    let h5 = c6 + 0x100 * h6;
    let h4 = c5 + 0x100 * h5;
    let h3 = c4 + 0x100 * h4;
    let h2 = c3 + 0x100 * h3;
    let h1 = c2 + 0x100 * h2;
    let h0 = c1 + 0x100 * h1;
    let l1 = c0;
    let l2 = l1 + 0x100 * c1;
    let l3 = l2 + 0x1_0000 * c2;
    let l4 = l3 + 0x100_0000 * c3;
    let l5 = l4 + 0x1_0000_0000 * c4;
    let l6 = l5 + 0x100_0000_0000 * c5;
    let l7 = l6 + 0x1_0000_0000_0000 * c6;
    assert(spelled[0] == cell[0]) by {
        digit_of_sum(0, c0, h0, 1);
    }
    assert(spelled[1] == cell[1]) by {
        digit_of_sum(l1, c1, h1, 0x100);
    }
    assert(spelled[2] == cell[2]) by {
        digit_of_sum(l2, c2, h2, 0x1_0000);
    }
    assert(spelled[3] == cell[3]) by {
        digit_of_sum(l3, c3, h3, 0x100_0000);
    }
    assert(spelled[4] == cell[4]) by {
        digit_of_sum(l4, c4, h4, 0x1_0000_0000);
    }
    assert(spelled[5] == cell[5]) by {
        digit_of_sum(l5, c5, h5, 0x100_0000_0000);
    }
    assert(spelled[6] == cell[6]) by {
        digit_of_sum(l6, c6, h6, 0x1_0000_0000_0000);
    }
    assert(spelled[7] == cell[7]) by {
        digit_of_sum(l7, c7, 0, 0x100_0000_0000_0000);
    }
}

/// The mathematical content of a [`MemoryInstance`].
pub struct MemoryInstanceView {
    pub reference: MemoryRef,
    pub initial_pages: u32,
    pub bytes: Seq<u8>,
}

impl MemoryInstanceView {
    /// The number of cells in the initial pages.
    pub open spec fn initial_cells(self) -> int {
        self.initial_pages * 8192
    }

    /// Every initial page is there to be read.
    pub open spec fn covers_initial_pages(self) -> bool {
        self.bytes.len() >= self.initial_pages * 65536
    }

    /// The eight bytes of the cell with number `index`.
    pub open spec fn cell(self, index: int) -> Seq<u8> {
        self.bytes.subrange(8 * index, 8 * index + 8)
    }
}

/// A memory instance: the number of pages it began with, and its bytes.
#[derive(Debug, PartialEq, Eq)]
pub struct MemoryInstance {
    pub reference: MemoryRef,
    pub initial_pages: u32,
    pub bytes: Vec<u8>,
}

impl View for MemoryInstance {
    type V = MemoryInstanceView;

    open spec fn view(&self) -> MemoryInstanceView {
        MemoryInstanceView {
            reference: self.reference,
            initial_pages: self.initial_pages,
            bytes: self.bytes@,
        }
    }
}

impl MemoryInstance {
    pub fn initial_pages(&self) -> (pages: u32)
        ensures
            pages == self@.initial_pages,
    {
        self.initial_pages
    }

    /// Reads the cell with number `index` as a little-endian number.
    pub fn read_cell(&self, index: usize) -> (value: u64)
        requires
            8 * index + 8 <= self@.bytes.len(),
        ensures
            value == le_u64(self@.cell(index as int)),
    {
        let len: usize = self.bytes.len();
        let base: usize = 8 * index;
        let b0: u64 = self.bytes[base] as u64;
        let b1: u64 = self.bytes[base + 1] as u64;
        let b2: u64 = self.bytes[base + 2] as u64;
        let b3: u64 = self.bytes[base + 3] as u64;
        let b4: u64 = self.bytes[base + 4] as u64;
        let b5: u64 = self.bytes[base + 5] as u64;
        let b6: u64 = self.bytes[base + 6] as u64;
        let b7: u64 = self.bytes[base + 7] as u64;
        b0 + 0x100 * b1 + 0x1_0000 * b2 + 0x100_0000 * b3 + 0x1_0000_0000 * b4 + 0x100_0000_0000
            * b5 + 0x1_0000_0000_0000 * b6 + 0x100_0000_0000_0000 * b7
    }
}

} // verus!
