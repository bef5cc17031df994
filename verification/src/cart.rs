//! A cart: the program image as an owned byte sequence. Reading the image
//! from a file is the caller's business; the core only works with the
//! bytes themselves.

use vstd::prelude::*;

verus! {

/// An owned program image.
pub struct Cart {
    pub data: Vec<u8>,
}

impl Cart {
    /// Wrap an already-read byte sequence as a cart.
    pub fn new(data: Vec<u8>) -> (r: Cart)
        ensures
            r.data@ == data@,
    {
        Cart { data }
    }

    /// The byte at `index`.
    pub fn get(&self, index: usize) -> (r: u8)
        requires
            index < self.data@.len(),
        ensures
            r == self.data@[index as int],
    {
        self.data[index]
    }

    /// Overwrite the byte at `index`.
    pub fn set(&mut self, index: usize, data: u8)
        requires
            index < old(self).data@.len(),
        ensures
            final(self).data@ == old(self).data@.update(index as int, data),
    {
        self.data.set(index, data);
    }
}

} // verus!
