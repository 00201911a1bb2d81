//! The memory image: 64 KB of bytes and the cycle budget of the program in it.

use vstd::prelude::*;

verus! {

/// Number of bytes in a memory image.
pub const MAX_MEMORY: usize = 65536;

/// A byte-addressable memory of [`MAX_MEMORY`] bytes with a cycle counter, which
/// the assembler fills and the engine drains.
pub struct Memory {
    pub max_memory: usize,
    pub data: [u8; MAX_MEMORY],
    pub data_cycle_count: u32,
}

/// The mathematical value of a [`Memory`].
pub struct MemoryView {
    pub max_memory: usize,
    /// The bytes by address; always [`MAX_MEMORY`] of them.
    pub data: Seq<u8>,
    pub cycles: u32,
}

impl View for Memory {
    type V = MemoryView;

    open spec fn view(&self) -> MemoryView {
        MemoryView {
            max_memory: self.max_memory,
            data: self.data@,
            cycles: self.data_cycle_count,
        }
    }
}

impl MemoryView {
    /// The image that [`Memory::new`] makes: every byte zero, no cycles.
    pub open spec fn fresh() -> MemoryView {
        MemoryView { max_memory: MAX_MEMORY, data: Seq::new(MAX_MEMORY as nat, |i: int| 0u8), cycles: 0 }
    }
}

impl Memory {
    /// A zeroed image with an empty cycle budget.
    pub fn new() -> (memory: Self)
        ensures
            memory@ == MemoryView::fresh(),
    {
        let memory = Memory { max_memory: MAX_MEMORY, data: [0;MAX_MEMORY], data_cycle_count: 0 };
        assert(memory@.data =~= MemoryView::fresh().data);
        memory
    }

    /// Sets every byte to zero. The cycle budget stays as it is.
    pub fn init(&mut self)
        ensures
            final(self)@ == (MemoryView { data: MemoryView::fresh().data, ..old(self)@ }),
    {
        let mut i: usize = 0;
        while i < MAX_MEMORY
            invariant
                i <= MAX_MEMORY,
                self.max_memory == old(self).max_memory,
                self.data_cycle_count == old(self).data_cycle_count,
                forall|j: int| 0 <= j < i ==> self.data@[j] == 0u8,
            decreases MAX_MEMORY - i,
        {
            self.data[i] = 0;
            i += 1;
        }
        assert(self@.data =~= MemoryView::fresh().data);
    }

    /// The byte at `address`, or `None` where `address` lies beyond the image.
    pub fn read(&self, address: usize) -> (byte: Option<u8>)
        ensures
            byte == if address < MAX_MEMORY {
                Some(self@.data[address as int])
            } else {
                None
            },
    {
        if address < MAX_MEMORY {
            Some(self.data[address])
        } else {
            None
        }
    }

    /// Stores `value` at `address` and returns `true`; where `address` lies beyond
    /// the image, changes nothing and returns `false`.
    pub fn write(&mut self, address: usize, value: u8) -> (stored: bool)
        ensures
            stored == (address < MAX_MEMORY),
            final(self)@ == if address < MAX_MEMORY {
                MemoryView { data: old(self)@.data.update(address as int, value), ..old(self)@ }
            } else {
                old(self)@
            },
    {
        if address < MAX_MEMORY {
            self.data[address] = value;
            true
        } else {
            false
        }
    }
}

} // verus!
