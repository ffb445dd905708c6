//! A fixed-size page buffer with a dirty flag.

use vstd::prelude::*;

verus! {

/// The size of a page, in bytes.
pub const PAGE_SIZE: usize = 4096;

/// A zero-initialised page that remembers whether it was written.
#[derive(Debug)]
pub struct Page {
    dirty: bool,
    data: Vec<u8>,
}

impl Page {
    /// The page's bytes.
    pub closed spec fn bytes(&self) -> Seq<u8> {
        self.data@
    }

    /// Whether the page was written since it was last cleaned.
    pub closed spec fn spec_dirty(&self) -> bool {
        self.dirty
    }

    /// A page always holds exactly [`PAGE_SIZE`] bytes.
    pub open spec fn wf(&self) -> bool {
        self.bytes().len() == PAGE_SIZE
    }

    /// Create a clean, zero-filled page.
    pub fn new() -> (r: Self)
        ensures
            r.wf(),
            !r.spec_dirty(),
            r.bytes() == Seq::new(PAGE_SIZE as nat, |i: int| 0u8),
    {
        let mut data: Vec<u8> = Vec::new();
        let mut i: usize = 0;
        while i < PAGE_SIZE
            invariant
                0 <= i <= PAGE_SIZE,
                data@ == Seq::new(i as nat, |j: int| 0u8),
            decreases PAGE_SIZE - i,
        {
            data.push(0);
            i = i + 1;
            assert(data@ =~= Seq::new(i as nat, |j: int| 0u8));
        }
        Page { dirty: false, data }
    }

    /// Whether the page was written since it was last cleaned.
    pub fn is_dirty(&self) -> (r: bool)
        ensures
            r == self.spec_dirty(),
    {
        self.dirty
    }

    /// Mark the page clean again.
    pub fn clear_dirty_sign(&mut self)
        ensures
            !final (self).spec_dirty(),
            final (self).bytes() == old(self).bytes(),
    {
        self.dirty = false;
    }

    /// Read the page's bytes.
    pub fn as_slice(&self) -> (r: &[u8])
        ensures
            r@ == self.bytes(),
    {
        self.data.as_slice()
    }

    /// Overwrite one byte, marking the page dirty.
    pub fn write_byte(&mut self, offset: usize, value: u8)
        requires
            old(self).wf(),
            offset < PAGE_SIZE,
        ensures
            final (self).wf(),
            final (self).spec_dirty(),
            final (self).bytes() == old(self).bytes().update(offset as int, value),
    {
        self.dirty = true;
        self.data.remove(offset);
        self.data.insert(offset, value);
        proof {
            assert(self.data@ =~= old(self).bytes().update(offset as int, value));
        }
    }
}

} // verus!
