use vstd::prelude::*;

verus! {

/// A vector of `n` copies of `v`.
pub fn filled(n: usize, v: u8) -> (r: Vec<u8>)
    ensures
        r@ == Seq::new(n as nat, |_i: int| v),
{
    let mut r: Vec<u8> = Vec::with_capacity(n);
    let mut i: usize = 0;
    while i < n
        invariant
            i <= n,
            r@ == Seq::new(i as nat, |_i: int| v),
        decreases n - i,
    {
        r.push(v);
        i = i + 1;
    }
    r
}

/// A contiguous run of bytes mapped at a fixed start address.
pub struct Array {
    pub start: u16,
    pub data: Vec<u8>,
}

impl Array {
    /// The run ends within the 16-bit address space.
    pub open spec fn wf(&self) -> bool {
        self.start as int + self.data@.len() <= 0x10000
    }

    pub open spec fn spec_contains(&self, addr: u16) -> bool {
        self.start <= addr && (addr - self.start) < self.data@.len()
    }

    /// The byte at an absolute address inside the run.
    pub open spec fn at(&self, addr: u16) -> u8 {
        self.data@[addr - self.start]
    }

    /// A zero-filled run of `len` bytes starting at `start`.
    pub fn new(start: u16, len: u16) -> (r: Array)
        requires
            start as int + len as int <= 0x10000,
        ensures
            r.wf(),
            r.start == start,
            r.data@ == Seq::new(len as nat, |_i: int| 0u8),
    {
        Array { start, data: filled(len as usize, 0) }
    }

    pub fn contains_addr(&self, addr: u16) -> (r: bool)
        ensures
            r == self.spec_contains(addr),
    {
        addr >= self.start && ((addr - self.start) as usize) < self.data.len()
    }

    pub fn read(&self, addr: u16) -> (r: u8)
        requires
            self.spec_contains(addr),
        ensures
            r == self.at(addr),
    {
        self.data[(addr - self.start) as usize]
    }

    pub fn write(&mut self, addr: u16, value: u8)
        requires
            old(self).spec_contains(addr),
        ensures
            final(self).start == old(self).start,
            final(self).data@ == old(self).data@.update(addr - old(self).start, value),
    {
        let i = (addr - self.start) as usize;
        self.data.set(i, value);
    }
}

} // verus!
