use vstd::prelude::*;

verus! {

/// First bus address of the peripheral interface adapter window.
pub const PIA_BASE: u16 = 0x400;

/// Number of registers in the adapter window.
pub const PIA_SIZE: u16 = 0x4;

/// Last bus address of the adapter window.
pub const PIA_LAST: u16 = 0x403;

/// Register file of the peripheral interface adapter.
///
/// Each register remembers the last value written to it and echoes it back
/// on read; reads have no side effect on this model of the hardware.
#[derive(Clone, Copy, Debug, PartialEq, Eq, Default)]
pub struct Pia {
    pub last_written: [u8; 4],
}

impl Pia {
    /// The register contents as a sequence of four bytes.
    pub open spec fn regs(self) -> Seq<u8> {
        self.last_written@
    }

    /// An adapter with every register cleared.
    pub fn new() -> (r: Self)
        ensures
            r.regs() == seq![0u8, 0u8, 0u8, 0u8],
    {
        let r = Pia { last_written: [0u8; 4] };
        assert(r.regs() =~= seq![0u8, 0u8, 0u8, 0u8]);
        r
    }

    /// Stores `v` in register `a`, overwriting what it held.
    pub fn write(&mut self, a: u8, v: u8)
        requires
            a < 4,
        ensures
            final(self).regs() == old(self).regs().update(a as int, v),
    {
        self.last_written[a as usize] = v;
    }

    /// Returns the last value written to register `a`.
    pub fn read(&mut self, a: u8) -> (r: u8)
        requires
            a < 4,
        ensures
            r == old(self).regs()[a as int],
            *final(self) == *old(self),
    {
        self.last_written[a as usize]
    }

    /// Returns the last value written to register `a`, without side effect.
    pub fn inspect(&self, a: u8) -> (r: u8)
        requires
            a < 4,
        ensures
            r == self.regs()[a as int],
    {
        self.last_written[a as usize]
    }
}

} // verus!
