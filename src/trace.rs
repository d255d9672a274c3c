use vstd::prelude::*;

verus! {

/// The 6800 register file as plain values.
#[derive(Clone, Copy, Debug, PartialEq, Eq, Structural, Default)]
pub struct Registers {
    pub a: u8,
    pub b: u8,
    pub x: u16,
    pub sp: u16,
    pub pc: u16,
    pub flags: u8,
}

/// One snapshot of the machine: its cycle count, its registers and a
/// digest of its memory, for comparing runs with each other.
#[derive(Clone, Debug)]
pub struct WmsState {
    cycle: usize,
    regs: Registers,
    sha1: String,
}

impl WmsState {
    pub closed spec fn spec_cycle(&self) -> usize {
        self.cycle
    }

    pub closed spec fn spec_regs(&self) -> Registers {
        self.regs
    }

    pub closed spec fn spec_sha1(&self) -> Seq<char> {
        self.sha1@
    }

    /// A snapshot of the given cycle count, registers and memory digest.
    pub fn new(cycle: usize, regs: Registers, sha1: String) -> (r: Self)
        ensures
            r.spec_cycle() == cycle,
            r.spec_regs() == regs,
            r.spec_sha1() == sha1@,
    {
        WmsState { cycle, regs, sha1 }
    }

    pub fn cycle(&self) -> (r: usize)
        ensures
            r == self.spec_cycle(),
    {
        self.cycle
    }

    pub fn regs(&self) -> (r: Registers)
        ensures
            r == self.spec_regs(),
    {
        self.regs
    }

    pub fn sha1(&self) -> (r: &str)
        ensures
            r@ == self.spec_sha1(),
    {
        self.sha1.as_str()
    }
}

/// An ordered log of snapshots; later snapshots come after earlier ones.
#[derive(Clone, Debug, Default)]
pub struct Trace {
    trace: Vec<WmsState>,
}

impl View for Trace {
    type V = Seq<WmsState>;

    closed spec fn view(&self) -> Seq<WmsState> {
        self.trace@
    }
}

impl Trace {
    /// An empty log.
    pub fn new() -> (r: Self)
        ensures
            r@ == Seq::<WmsState>::empty(),
    {
        Trace { trace: Vec::new() }
    }

    /// Appends a snapshot at the end of the log.
    pub fn add(&mut self, s: WmsState)
        ensures
            final(self)@ == old(self)@.push(s),
    {
        self.trace.push(s);
    }

    /// Number of snapshots in the log.
    pub fn len(&self) -> (r: usize)
        ensures
            r == self@.len(),
    {
        self.trace.len()
    }

    /// The snapshot at position `i`.
    pub fn get(&self, i: usize) -> (r: &WmsState)
        requires
            i < self@.len(),
        ensures
            *r == self@[i as int],
    {
        &self.trace[i]
    }
}

} // verus!
