use vstd::prelude::*;

verus! {

/// A zeroed buffer of `S` bytes, kept on the heap.
pub struct HeapBuffer<const S: usize> {
    storage: Vec<u8>,
}

impl<const S: usize> View for HeapBuffer<S> {
    type V = Seq<u8>;

    closed spec fn view(&self) -> Seq<u8> {
        self.storage@
    }
}

impl<const S: usize> HeapBuffer<S> {
    pub fn new() -> (r: Self)
        ensures
            r@ == Seq::new(S as nat, |i: int| 0u8),
    {
        let mut storage: Vec<u8> = Vec::new();
        let mut i: usize = 0;
        while i < S
            invariant
                i <= S,
                storage@ == Seq::new(i as nat, |k: int| 0u8),
            decreases S - i,
        {
            storage.push(0);
            assert(storage@ =~= Seq::new((i + 1) as nat, |k: int| 0u8));
            i = i + 1;
        }
        HeapBuffer { storage }
    }

    pub fn as_slice(&self) -> (r: &[u8])
        ensures
            r@ == self@,
    {
        self.storage.as_slice()
    }
}

impl<const S: usize> Default for HeapBuffer<S> {
    fn default() -> (r: Self)
        ensures
            r@ == Seq::new(S as nat, |i: int| 0u8),
    {
        Self::new()
    }
}

impl<const S: usize> core::ops::Deref for HeapBuffer<S> {
    type Target = [u8];

    fn deref(&self) -> &[u8] {
        self.storage.as_slice()
    }
}

impl<const S: usize> core::ops::DerefMut for HeapBuffer<S> {
    fn deref_mut(&mut self) -> &mut [u8] {
        self.storage.as_mut_slice()
    }
}

} // verus!
