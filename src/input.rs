use vstd::prelude::*;

use crate::bytes::{chunks_view, copy_bytes};

verus! {

/// Standard input for a guest program: a list of byte chunks and the
/// position of the next chunk to read.
#[derive(Debug, Clone)]
pub struct GuestInput {
    pub buffer: Vec<Vec<u8>>,
    pub ptr: usize,
}

pub struct GuestInputView {
    pub buffer: Seq<Seq<u8>>,
    pub ptr: nat,
}

impl View for GuestInput {
    type V = GuestInputView;

    open spec fn view(&self) -> GuestInputView {
        GuestInputView { buffer: chunks_view(self.buffer@), ptr: self.ptr as nat }
    }
}

impl Default for GuestInput {
    fn default() -> (r: GuestInput)
        ensures
            r@ == (GuestInputView { buffer: Seq::empty(), ptr: 0 }),
    {
        GuestInput::new()
    }
}

impl GuestInput {
    /// An empty input.
    pub fn new() -> (r: GuestInput)
        ensures
            r@ == (GuestInputView { buffer: Seq::empty(), ptr: 0 }),
    {
        let r = GuestInput { buffer: Vec::new(), ptr: 0 };
        assert(chunks_view(r.buffer@) =~= Seq::empty());
        r
    }

    /// An input holding one chunk.
    pub fn from(data: &[u8]) -> (r: GuestInput)
        ensures
            r@ == (GuestInputView { buffer: seq![data@], ptr: 0 }),
    {
        let mut buffer: Vec<Vec<u8>> = Vec::new();
        buffer.push(copy_bytes(data));
        let r = GuestInput { buffer, ptr: 0 };
        assert(chunks_view(r.buffer@) =~= seq![data@]);
        r
    }

    /// Copy the next chunk into `slice`, which must have its length, and
    /// move past it.
    pub fn read_slice(&mut self, slice: &mut [u8])
        requires
            old(self).ptr < old(self).buffer@.len(),
            old(slice)@.len() == old(self).buffer@[old(self).ptr as int]@.len(),
        ensures
            final(slice)@ == old(self)@.buffer[old(self).ptr as int],
            final(self)@ == (GuestInputView { ptr: old(self)@.ptr + 1, ..old(self)@ }),
    {
        let p = self.ptr;
        let n = slice.len();
        let mut i: usize = 0;
        while i < n
            invariant
                p == self.ptr,
                p < self.buffer@.len(),
                n == slice@.len(),
                n == self.buffer@[p as int]@.len(),
                i <= n,
                forall|j: int| 0 <= j < i ==> slice@[j] == self.buffer@[p as int]@[j],
            decreases n - i,
        {
            slice[i] = self.buffer[p][i];
            i = i + 1;
        }
        assert(slice@ =~= self.buffer@[p as int]@);
        let len = self.buffer.len();
        assert(p < len);
        self.ptr = p + 1;
    }

    /// Append a copy of `slice` as a new chunk.
    pub fn write_slice(&mut self, slice: &[u8])
        ensures
            final(self)@ == (GuestInputView { buffer: old(self)@.buffer.push(slice@), ..old(self)@ }),
    {
        let c = copy_bytes(slice);
        self.buffer.push(c);
        assert(chunks_view(self.buffer@) =~= chunks_view(old(self).buffer@).push(slice@));
    }

    /// Append `vec` as a new chunk.
    pub fn write_vec(&mut self, vec: Vec<u8>)
        ensures
            final(self)@ == (GuestInputView { buffer: old(self)@.buffer.push(vec@), ..old(self)@ }),
    {
        self.buffer.push(vec);
        assert(chunks_view(self.buffer@) =~= chunks_view(old(self).buffer@).push(vec@));
    }
}

} // verus!
