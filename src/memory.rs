use vstd::prelude::*;

verus! {

/// Low byte of a 16-bit value.
pub open spec fn low_byte(v: u16) -> u8 {
    (v % 256) as u8
}

/// High byte of a 16-bit value.
pub open spec fn high_byte(v: u16) -> u8 {
    (v / 256) as u8
}

/// The 16-bit value whose bytes are `lo` and `hi`, little-endian.
pub open spec fn word(lo: u8, hi: u8) -> u16 {
    (lo as int + 256 * hi as int) as u16
}

/// A buffer of `n` zero bytes.
pub fn zeroed(n: usize) -> (r: Vec<u8>)
    ensures
        r@ == Seq::new(n as nat, |i: int| 0u8),
{
    let mut v: Vec<u8> = Vec::new();
    let mut i: usize = 0;
    while i < n
        invariant
            i <= n,
            v@ == Seq::new(i as nat, |k: int| 0u8),
        decreases n - i,
    {
        v.push(0);
        i = i + 1;
        assert(v@ =~= Seq::new(i as nat, |k: int| 0u8));
    }
    v
}

/// A block that answers byte reads and writes on the 16-bit address bus.
/// Sixteen-bit accesses are two byte accesses, low byte first.
pub trait Memory: Sized {
    /// What every reachable state of this block satisfies.
    spec fn inv(&self) -> bool;

    /// The addresses this block decodes; any other address is a fault.
    spec fn mapped(addr: u16) -> bool;

    /// The byte that a read of `addr` returns.
    spec fn peek(&self, addr: u16) -> u8;

    /// `post` is this block after `data` has been written to `addr`.
    spec fn written(&self, addr: u16, data: u8, post: Self) -> bool;

    fn read8(&self, addr: u16) -> (r: u8)
        requires
            self.inv(),
            Self::mapped(addr),
        ensures
            r == self.peek(addr),
    ;

    fn write8(&mut self, addr: u16, data: u8)
        requires
            old(self).inv(),
            Self::mapped(addr),
        ensures
            final(self).inv(),
            old(self).written(addr, data, *final(self)),
    ;

    fn read16(&self, addr: u16) -> (r: u16)
        requires
            self.inv(),
            addr < 0xFFFF,
            Self::mapped(addr),
            Self::mapped((addr + 1) as u16),
        ensures
            r == word(self.peek(addr), self.peek((addr + 1) as u16)),
    {
        let lo = self.read8(addr);
        let hi = self.read8(addr + 1);
        lo as u16 + (hi as u16) * 256
    }

    fn write16(&mut self, addr: u16, data: u16)
        requires
            old(self).inv(),
            addr < 0xFFFF,
            Self::mapped(addr),
            Self::mapped((addr + 1) as u16),
        ensures
            final(self).inv(),
            exists|mid: Self|
                old(self).written(addr, low_byte(data), mid) && mid.written(
                    (addr + 1) as u16,
                    high_byte(data),
                    *final(self),
                ),
    {
        let ghost start = *self;
        self.write8(addr, (data % 256) as u8);
        let ghost mid = *self;
        self.write8(addr + 1, (data / 256) as u8);
        assert(start.written(addr, low_byte(data), mid));
    }
}

} // verus!
