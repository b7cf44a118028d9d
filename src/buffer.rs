use vstd::prelude::*;

verus! {

/// A physically contiguous memory region that the hardware writes the trace
/// into.
pub trait TraceBuffer {
    /// The bytes of the region.
    spec fn bytes(&self) -> Seq<u8>;

    /// The physical address at which the region starts.
    spec fn phys(&self) -> u64;

    /// The length of the region in bytes.
    fn len(&self) -> (r: usize)
        ensures
            r == self.bytes().len(),
    ;

    /// The physical address at which the region starts.
    fn physical_address(&self) -> (r: u64)
        ensures
            r == self.phys(),
    ;

    /// Sets every byte of the region to zero.
    fn zero(&mut self)
        ensures
            final(self).phys() == old(self).phys(),
            final(self).bytes() == Seq::new(old(self).bytes().len(), |i: int| 0u8),
    ;
}

/// A trace buffer in ordinary memory, with the physical address it is given.
pub struct HeapBuffer {
    data: Vec<u8>,
    physical: u64,
}

impl HeapBuffer {
    /// A zero-filled buffer of `len` bytes that reports physical address `physical`.
    pub fn new(len: usize, physical: u64) -> (r: HeapBuffer)
        ensures
            r.bytes() == Seq::new(len as nat, |i: int| 0u8),
            r.phys() == physical,
    {
        let mut data: Vec<u8> = Vec::new();
        let mut i: usize = 0;
        while i < len
            invariant
                i <= len,
                data@ == Seq::new(i as nat, |j: int| 0u8),
            decreases len - i,
        {
            data.push(0u8);
            i = i + 1;
            assert(data@ =~= Seq::new(i as nat, |j: int| 0u8));
        }
        HeapBuffer { data, physical }
    }

    /// Stores `byte` at `index`, as the hardware would.
    pub fn put(&mut self, index: usize, byte: u8)
        requires
            index < old(self).bytes().len(),
        ensures
            final(self).bytes() == old(self).bytes().update(index as int, byte),
            final(self).phys() == old(self).phys(),
    {
        self.data.set(index, byte);
    }

    /// The bytes of the buffer.
    pub fn as_slice(&self) -> (r: &[u8])
        ensures
            r@ == self.bytes(),
    {
        self.data.as_slice()
    }
}

impl TraceBuffer for HeapBuffer {
    closed spec fn bytes(&self) -> Seq<u8> {
        self.data@
    }

    closed spec fn phys(&self) -> u64 {
        self.physical
    }

    fn len(&self) -> (r: usize) {
        self.data.len()
    }

    fn physical_address(&self) -> (r: u64) {
        self.physical
    }

    fn zero(&mut self) {
        let n = self.data.len();
        let mut i: usize = 0;
        while i < n
            invariant
                i <= n,
                n == self.data@.len(),
                self.physical == old(self).physical,
                n == old(self).data@.len(),
                forall|j: int| 0 <= j < i ==> self.data@[j] == 0u8,
            decreases n - i,
        {
            self.data.set(i, 0u8);
            i = i + 1;
        }
        assert(self.data@ =~= Seq::new(n as nat, |i: int| 0u8));
    }
}

} // verus!
