//! The memory bus: a byte-addressable store over the full 16-bit address
//! space. Every address is backed, so unmapped reads return 0 simply
//! because the store starts out all zero.

use vstd::prelude::*;

verus! {

/// Number of addressable bytes: the 16-bit address space.
pub const MEMORY_SIZE: usize = 0x10000;

/// Byte-addressable memory over addresses 0x0000..=0xFFFF.
///
/// The view of a `Memory` is the sequence of its 65536 bytes, indexed by
/// address.
pub struct Memory {
    bytes: Vec<u8>,
}

impl View for Memory {
    type V = Seq<u8>;

    closed spec fn view(&self) -> Seq<u8> {
        self.bytes@
    }
}

impl Memory {
    /// A well-formed bus backs the whole 16-bit address space.
    pub open spec fn wf(self) -> bool {
        self@.len() == MEMORY_SIZE
    }

    /// A fresh bus with every address holding zero.
    pub fn new() -> (r: Memory)
        ensures
            r.wf(),
            forall|a: int| 0 <= a < MEMORY_SIZE ==> r@[a] == 0u8,
    {
        let mut bytes: Vec<u8> = Vec::new();
        let mut i: usize = 0;
        while i < MEMORY_SIZE
            invariant
                i <= MEMORY_SIZE,
                bytes@.len() == i,
                forall|a: int| 0 <= a < i ==> bytes@[a] == 0u8,
            decreases MEMORY_SIZE - i,
        {
            bytes.push(0u8);
            i = i + 1;
        }
        Memory { bytes }
    }

    /// Read the byte at `offset`.
    pub fn get(&self, offset: u16) -> (r: u8)
        requires
            self.wf(),
        ensures
            r == self@[offset as int],
    {
        self.bytes[offset as usize]
    }

    /// Write `data` at `offset`.
    pub fn set(&mut self, offset: u16, data: u8)
        requires
            old(self).wf(),
        ensures
            final(self).wf(),
            final(self)@ == old(self)@.update(offset as int, data),
    {
        self.bytes.set(offset as usize, data);
    }

    /// Bulk-install `data` starting at `offset`; addresses past 0xFFFF wrap
    /// around to the bottom of the address space. Bytes outside the written
    /// range keep their old value.
    pub fn load(&mut self, data: Vec<u8>, offset: u16)
        requires
            old(self).wf(),
            data@.len() <= MEMORY_SIZE,
        ensures
            final(self).wf(),
            forall|a: int|
                0 <= a < MEMORY_SIZE ==> #[trigger] final(self)@[a] == ({
                    let d = (a - offset) % (MEMORY_SIZE as int);
                    if d < data@.len() {
                        data@[d]
                    } else {
                        old(self)@[a]
                    }
                }),
    {
        let ghost orig = self@;
        let mut i: usize = 0;
        while i < data.len()
            invariant
                i <= data@.len(),
                data@.len() <= MEMORY_SIZE,
                self.wf(),
                forall|a: int|
                    0 <= a < MEMORY_SIZE ==> #[trigger] self@[a] == ({
                        let d = (a - offset) % (MEMORY_SIZE as int);
                        if d < i {
                            data@[d]
                        } else {
                            orig[a]
                        }
                    }),
            decreases data@.len() - i,
        {
            let address: u16 = ((offset as u32 + i as u32) % (MEMORY_SIZE as u32)) as u16;
            proof {
                assert(address == (offset + i) % (MEMORY_SIZE as int));
                assert((address - offset) % (MEMORY_SIZE as int) == i) by {
                    vstd::arithmetic::div_mod::lemma_fundamental_div_mod(
                        offset + i,
                        MEMORY_SIZE as int,
                    );
                };
                assert forall|a: int|
                    0 <= a < MEMORY_SIZE && #[trigger] ((a - offset) % (MEMORY_SIZE as int))
                        == i implies a == address by {
                    vstd::arithmetic::div_mod::lemma_fundamental_div_mod(
                        a - offset,
                        MEMORY_SIZE as int,
                    );
                };
            }
            self.set(address, data[i]);
            i = i + 1;
        }
    }
}

} // verus!
