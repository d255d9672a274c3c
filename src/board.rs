use vstd::prelude::*;

use crate::pia::{Pia, PIA_BASE, PIA_LAST, PIA_SIZE};

verus! {

/// First bus address of the work RAM.
pub const RAM_BASE: u16 = 0x0;

/// Size of the work RAM in bytes.
pub const RAM_SIZE: u16 = 0x80;

/// Last bus address of the work RAM.
pub const RAM_LAST: u16 = 0x7f;

/// First bus address of the program ROM.
pub const ROM_BASE: u16 = 0xf800;

/// Size of the program ROM in bytes.
pub const ROM_SIZE: u16 = 0x800;

/// Last bus address of the program ROM.
pub const ROM_LAST: u16 = 0xffff;

/// Adapter register that latches the DAC output byte.
pub const DAC_REG: u8 = 0;

/// Adapter register that presents the sound selector lines to the CPU.
pub const SOUND_SELECT_REG: u8 = 2;

/// Failures of a bus operation.
#[derive(Clone, Copy, Debug, PartialEq, Eq, Structural)]
pub enum BoardError {
    /// The address lies in none of the three regions (or beyond 16 bits).
    IllegalAddress(usize),
    /// A ROM image of this many bytes does not fit in the ROM region.
    RomOverflow(usize),
}

pub open spec fn is_ram(a: u16) -> bool {
    RAM_BASE <= a && a <= RAM_LAST
}

pub open spec fn is_pia(a: u16) -> bool {
    PIA_BASE <= a && a <= PIA_LAST
}

pub open spec fn is_rom(a: u16) -> bool {
    ROM_BASE <= a && a <= ROM_LAST
}

pub open spec fn is_illegal(a: u16) -> bool {
    !is_ram(a) && !is_pia(a) && !is_rom(a)
}

/// A bus address given as a wide integer: within 16 bits and in a region.
pub open spec fn is_legal_wide(a: int) -> bool {
    0 <= a <= 0xffff && !is_illegal(a as u16)
}

/// Contents of the board, as plain sequences of bytes.
pub struct BoardView {
    pub ram: Seq<u8>,
    pub rom: Seq<u8>,
    pub pia: Seq<u8>,
}

impl BoardView {
    /// Each region holds as many bytes as its size.
    pub open spec fn wf(self) -> bool {
        &&& self.ram.len() == RAM_SIZE as nat
        &&& self.rom.len() == ROM_SIZE as nat
        &&& self.pia.len() == PIA_SIZE as nat
    }

    /// The byte that the bus shows at a decoded address.
    pub open spec fn byte_at(self, a: u16) -> u8 {
        if is_ram(a) {
            self.ram[(a - RAM_BASE) as int]
        } else if is_pia(a) {
            self.pia[(a - PIA_BASE) as int]
        } else {
            self.rom[(a - ROM_BASE) as int]
        }
    }

    /// Outcome of a byte read or inspect at a 16-bit address.
    pub open spec fn read_result(self, a: u16) -> Result<u8, BoardError> {
        if is_illegal(a) {
            Err(BoardError::IllegalAddress(a as usize))
        } else {
            Ok(self.byte_at(a))
        }
    }

    /// Contents after a byte write at a 16-bit address: RAM and adapter
    /// registers take the value, ROM and illegal addresses keep everything.
    pub open spec fn after_write(self, a: u16, v: u8) -> BoardView {
        if is_ram(a) {
            BoardView { ram: self.ram.update((a - RAM_BASE) as int, v), ..self }
        } else if is_pia(a) {
            BoardView { pia: self.pia.update((a - PIA_BASE) as int, v), ..self }
        } else {
            self
        }
    }

    /// Outcome of a byte read or inspect at a wide address.
    pub open spec fn wide_read_result(self, a: usize) -> Result<u8, BoardError> {
        if a > 0xffff {
            Err(BoardError::IllegalAddress(a))
        } else {
            self.read_result(a as u16)
        }
    }

    /// Contents after a byte store at a wide address.
    pub open spec fn after_wide_write(self, a: usize, v: u8) -> BoardView {
        if a > 0xffff {
            self
        } else {
            self.after_write(a as u16, v)
        }
    }

    /// Contents after the first `n` bytes of `data` were stored from `a` on.
    pub open spec fn after_upload(self, a: int, data: Seq<u8>, n: nat) -> BoardView
        decreases n,
    {
        if n == 0 {
            self
        } else {
            self.after_upload(a, data, (n - 1) as nat).after_wide_write(
                (a + n - 1) as usize,
                data[n - 1],
            )
        }
    }
}

/// The sound board's address space: RAM, adapter and ROM behind one bus.
///
/// Decode order is RAM, adapter, ROM; the regions do not overlap and every
/// other address is illegal. Adapter reads echo the last value written.
pub struct WmsBoard {
    ram: [u8; 128],
    rom: [u8; 2048],
    pia: Pia,
}

impl View for WmsBoard {
    type V = BoardView;

    closed spec fn view(&self) -> BoardView {
        BoardView { ram: self.ram@, rom: self.rom@, pia: self.pia.regs() }
    }
}

impl WmsBoard {
    /// The view of a board always has the sizes of the three regions.
    pub proof fn lemma_view_wf(&self)
        ensures
            self@.wf(),
    {
    }

    /// A board with zeroed RAM and ROM and cleared adapter registers.
    pub fn new() -> (r: Self)
        ensures
            r@.ram == Seq::new(RAM_SIZE as nat, |i: int| 0u8),
            r@.rom == Seq::new(ROM_SIZE as nat, |i: int| 0u8),
            r@.pia == Seq::new(PIA_SIZE as nat, |i: int| 0u8),
    {
        let r = WmsBoard { ram: [0u8; 128], rom: [0u8; 2048], pia: Pia::new() };
        assert(r@.ram =~= Seq::new(RAM_SIZE as nat, |i: int| 0u8));
        assert(r@.rom =~= Seq::new(ROM_SIZE as nat, |i: int| 0u8));
        assert(r@.pia =~= Seq::new(PIA_SIZE as nat, |i: int| 0u8));
        r
    }
}

impl Default for WmsBoard {
    fn default() -> (r: Self)
        ensures
            r@.ram == Seq::new(RAM_SIZE as nat, |i: int| 0u8),
            r@.rom == Seq::new(ROM_SIZE as nat, |i: int| 0u8),
            r@.pia == Seq::new(PIA_SIZE as nat, |i: int| 0u8),
    {
        WmsBoard::new()
    }
}

impl WmsBoard {
    /// Copies `src` into the ROM from offset 0; the rest of the ROM is kept.
    /// An image larger than the ROM region is refused and nothing changes.
    pub fn upload_rom(&mut self, src: &[u8]) -> (r: Result<(), BoardError>)
        ensures
            src@.len() <= ROM_SIZE ==> r == Ok::<(), BoardError>(()) && final(self)@ == (
            BoardView { rom: src@ + old(self)@.rom.skip(src@.len() as int), ..old(self)@ }),
            src@.len() > ROM_SIZE ==> r == Err::<(), BoardError>(
                BoardError::RomOverflow(src@.len() as usize),
            ) && final(self)@ == old(self)@,
    {
        if src.len() > ROM_SIZE as usize {
            return Err(BoardError::RomOverflow(src.len()));
        }
        let mut i: usize = 0;
        while i < src.len()
            invariant
                i <= src@.len() <= ROM_SIZE,
                self@.ram == old(self)@.ram,
                self@.pia == old(self)@.pia,
                self@.rom.len() == ROM_SIZE,
                forall|j: int| 0 <= j < i ==> self@.rom[j] == src@[j],
                forall|j: int| i <= j < ROM_SIZE ==> self@.rom[j] == old(self)@.rom[j],
            decreases src@.len() - i,
        {
            self.rom[i] = src[i];
            i = i + 1;
        }
        assert(self@.rom =~= src@ + old(self)@.rom.skip(src@.len() as int));
        Ok(())
    }

    /// Reads the byte at `addr`, decoding RAM, adapter and ROM in that order.
    pub fn read_u8(&mut self, addr: u16) -> (r: Result<u8, BoardError>)
        ensures
            r == old(self)@.read_result(addr),
            final(self)@ == old(self)@,
    {
        if RAM_BASE <= addr && addr <= RAM_LAST {
            self.read_ram_u8(addr - RAM_BASE)
        } else if PIA_BASE <= addr && addr <= PIA_LAST {
            self.read_pia_u8(addr - PIA_BASE)
        } else if ROM_BASE <= addr && addr <= ROM_LAST {
            self.read_rom_u8(addr - ROM_BASE)
        } else {
            Err(BoardError::IllegalAddress(addr as usize))
        }
    }

    /// Writes `val` at `addr`. RAM and adapter registers take the value; ROM
    /// accepts the write and keeps its contents.
    pub fn write_u8(&mut self, addr: u16, val: u8) -> (r: Result<(), BoardError>)
        ensures
            r == (if is_illegal(addr) {
                Err::<(), BoardError>(BoardError::IllegalAddress(addr as usize))
            } else {
                Ok(())
            }),
            final(self)@ == old(self)@.after_write(addr, val),
    {
        if RAM_BASE <= addr && addr <= RAM_LAST {
            self.write_ram_u8(addr - RAM_BASE, val)
        } else if PIA_BASE <= addr && addr <= PIA_LAST {
            self.write_pia_u8(addr - PIA_BASE, val)
        } else if ROM_BASE <= addr && addr <= ROM_LAST {
            self.write_rom_u8(addr - ROM_BASE, val)
        } else {
            Err(BoardError::IllegalAddress(addr as usize))
        }
    }

    /// Reads the byte at `addr` without any side effect: the board is only
    /// borrowed, so no sequence of inspects can change it.
    pub fn inspect_u8(&self, addr: u16) -> (r: Result<u8, BoardError>)
        ensures
            r == self@.read_result(addr),
    {
        if RAM_BASE <= addr && addr <= RAM_LAST {
            self.inspect_ram_u8(addr - RAM_BASE)
        } else if PIA_BASE <= addr && addr <= PIA_LAST {
            self.inspect_pia_u8(addr - PIA_BASE)
        } else if ROM_BASE <= addr && addr <= ROM_LAST {
            self.inspect_rom_u8(addr - ROM_BASE)
        } else {
            Err(BoardError::IllegalAddress(addr as usize))
        }
    }

    /// Adapter register at offset `addr` of its window, without side effect.
    pub fn inspect_pia_u8(&self, addr: u16) -> (r: Result<u8, BoardError>)
        requires
            addr < PIA_SIZE,
        ensures
            r == Ok::<u8, BoardError>(self@.pia[addr as int]),
    {
        Ok(self.pia.inspect(addr as u8))
    }

    /// RAM byte at offset `addr`.
    pub fn inspect_ram_u8(&self, addr: u16) -> (r: Result<u8, BoardError>)
        requires
            addr < RAM_SIZE,
        ensures
            r == Ok::<u8, BoardError>(self@.ram[addr as int]),
    {
        Ok(self.ram[addr as usize])
    }

    /// ROM byte at offset `addr`.
    pub fn inspect_rom_u8(&self, addr: u16) -> (r: Result<u8, BoardError>)
        requires
            addr < ROM_SIZE,
        ensures
            r == Ok::<u8, BoardError>(self@.rom[addr as int]),
    {
        Ok(self.rom[addr as usize])
    }

    /// Bus read of the adapter register at offset `addr`: it echoes the last
    /// value written there.
    pub fn read_pia_u8(&mut self, addr: u16) -> (r: Result<u8, BoardError>)
        requires
            addr < PIA_SIZE,
        ensures
            r == Ok::<u8, BoardError>(old(self)@.pia[addr as int]),
            final(self)@ == old(self)@,
    {
        Ok(self.pia.read(addr as u8))
    }

    /// Bus read of the RAM byte at offset `addr`.
    pub fn read_ram_u8(&mut self, addr: u16) -> (r: Result<u8, BoardError>)
        requires
            addr < RAM_SIZE,
        ensures
            r == Ok::<u8, BoardError>(old(self)@.ram[addr as int]),
            final(self)@ == old(self)@,
    {
        Ok(self.ram[addr as usize])
    }

    /// Bus read of the ROM byte at offset `addr`.
    pub fn read_rom_u8(&mut self, addr: u16) -> (r: Result<u8, BoardError>)
        requires
            addr < ROM_SIZE,
        ensures
            r == Ok::<u8, BoardError>(old(self)@.rom[addr as int]),
            final(self)@ == old(self)@,
    {
        Ok(self.rom[addr as usize])
    }

    /// Bus write of the adapter register at offset `addr`.
    pub fn write_pia_u8(&mut self, addr: u16, val: u8) -> (r: Result<(), BoardError>)
        requires
            addr < PIA_SIZE,
        ensures
            r == Ok::<(), BoardError>(()),
            final(self)@ == (BoardView { pia: old(self)@.pia.update(addr as int, val), ..old(self)@ }),
    {
        self.pia.write(addr as u8, val);
        Ok(())
    }

    /// Bus write of the RAM byte at offset `addr`.
    pub fn write_ram_u8(&mut self, addr: u16, val: u8) -> (r: Result<(), BoardError>)
        requires
            addr < RAM_SIZE,
        ensures
            r == Ok::<(), BoardError>(()),
            final(self)@ == (BoardView { ram: old(self)@.ram.update(addr as int, val), ..old(self)@ }),
    {
        self.ram[addr as usize] = val;
        Ok(())
    }

    /// Bus write into the ROM: accepted and discarded.
    pub fn write_rom_u8(&mut self, addr: u16, val: u8) -> (r: Result<(), BoardError>)
        requires
            addr < ROM_SIZE,
        ensures
            r == Ok::<(), BoardError>(()),
            final(self)@ == old(self)@,
    {
        Ok(())
    }

    /// Narrows a wide address to the 16-bit bus.
    pub fn get_addr(addr: usize) -> (r: Result<u16, BoardError>)
        ensures
            addr <= 0xffff ==> r == Ok::<u16, BoardError>(addr as u16),
            addr > 0xffff ==> r == Err::<u16, BoardError>(BoardError::IllegalAddress(addr)),
    {
        if addr <= 0xffff {
            Ok(addr as u16)
        } else {
            Err(BoardError::IllegalAddress(addr))
        }
    }
}

/// The address that follows `a` on a wide bus, wrapping at the top.
pub open spec fn next_wide(a: usize) -> usize {
    if a == usize::MAX {
        0
    } else {
        (a + 1) as usize
    }
}

/// Outcome of a byte store at a wide address.
pub open spec fn store_result(a: usize) -> Result<(), BoardError> {
    if is_legal_wide(a as int) {
        Ok(())
    } else {
        Err(BoardError::IllegalAddress(a))
    }
}

/// Every address of `[a, a + n)` is legal.
pub open spec fn all_legal(a: int, n: int) -> bool {
    forall|j: int| 0 <= j < n ==> #[trigger] is_legal_wide(a + j)
}

impl BoardView {
    /// Outcome of a big-endian word read at a wide address: the high byte
    /// comes from `a`, the low byte from the address after it.
    pub open spec fn word_result(self, a: usize) -> Result<u16, BoardError> {
        match self.wide_read_result(a) {
            Err(e) => Err(e),
            Ok(h) => match self.wide_read_result(next_wide(a)) {
                Err(e) => Err(e),
                Ok(l) => Ok((h * 256 + l) as u16),
            },
        }
    }

    /// Outcome of a big-endian word store at a wide address.
    pub open spec fn store_word_result(self, a: usize) -> Result<(), BoardError> {
        match store_result(a) {
            Err(e) => Err(e),
            Ok(_) => store_result(next_wide(a)),
        }
    }

    /// Contents after a big-endian word store: nothing is written when the
    /// first address fails, and the high byte stays when only the second does.
    pub open spec fn after_store_word(self, a: usize, w: u16) -> BoardView {
        if is_legal_wide(a as int) {
            self.after_wide_write(a, (w / 256) as u8).after_wide_write(
                next_wide(a),
                (w % 256) as u8,
            )
        } else {
            self
        }
    }

    /// The DAC output byte latched in the adapter.
    pub open spec fn dac(self) -> u8 {
        self.pia[DAC_REG as int]
    }
}

impl WmsBoard {
    /// Reads the byte at a wide address without any side effect.
    pub fn inspect_byte(&self, addr: usize) -> (r: Result<u8, BoardError>)
        ensures
            r == self@.wide_read_result(addr),
    {
        match Self::get_addr(addr) {
            Ok(a) => self.inspect_u8(a),
            Err(e) => Err(e),
        }
    }

    /// Reads the big-endian word at a wide address without any side effect.
    pub fn inspect_word(&self, addr: usize) -> (r: Result<u16, BoardError>)
        ensures
            r == self@.word_result(addr),
    {
        let h = match self.inspect_byte(addr) {
            Ok(h) => h,
            Err(e) => return Err(e),
        };
        let l = match self.inspect_byte(addr.wrapping_add(1)) {
            Ok(l) => l,
            Err(e) => return Err(e),
        };
        Ok((h as u16) * 256 + (l as u16))
    }

    /// Bus read of the byte at a wide address.
    pub fn load_byte(&mut self, addr: usize) -> (r: Result<u8, BoardError>)
        ensures
            r == old(self)@.wide_read_result(addr),
            final(self)@ == old(self)@,
    {
        match Self::get_addr(addr) {
            Ok(a) => self.read_u8(a),
            Err(e) => Err(e),
        }
    }

    /// Bus write of the byte at a wide address.
    pub fn store_byte(&mut self, addr: usize, val: u8) -> (r: Result<(), BoardError>)
        ensures
            r == store_result(addr),
            final(self)@ == old(self)@.after_wide_write(addr, val),
    {
        match Self::get_addr(addr) {
            Ok(a) => self.write_u8(a, val),
            Err(e) => Err(e),
        }
    }

    /// Stores `val` big-endian: high byte at `addr`, low byte after it. A
    /// failure at `addr` stops before the second byte.
    pub fn store_word(&mut self, addr: usize, val: u16) -> (r: Result<(), BoardError>)
        ensures
            r == old(self)@.store_word_result(addr),
            final(self)@ == old(self)@.after_store_word(addr, val),
    {
        match self.store_byte(addr, (val / 256) as u8) {
            Ok(_) => {},
            Err(e) => return Err(e),
        }
        self.store_byte(addr + 1, (val % 256) as u8)
    }

    /// Bus read of the big-endian word at a wide address.
    pub fn load_word(&mut self, addr: usize) -> (r: Result<u16, BoardError>)
        ensures
            r == old(self)@.word_result(addr),
            final(self)@ == old(self)@,
    {
        let h = match self.load_byte(addr) {
            Ok(h) => h,
            Err(e) => return Err(e),
        };
        let l = match self.load_byte(addr + 1) {
            Ok(l) => l,
            Err(e) => return Err(e),
        };
        Ok((h as u16) * 256 + (l as u16))
    }

    /// Stores `data` byte by byte from `addr` on, stopping at the first
    /// illegal address; the bytes before it stay written.
    pub fn upload(&mut self, addr: usize, data: &[u8]) -> (r: Result<(), BoardError>)
        ensures
            r is Ok <==> all_legal(addr as int, data@.len() as int),
            r is Ok ==> final(self)@ == old(self)@.after_upload(addr as int, data@, data@.len()),
            r is Err ==> exists|k: int|
                0 <= k < data@.len() && all_legal(addr as int, k) && !is_legal_wide(addr + k)
                    && r == Err::<(), BoardError>(BoardError::IllegalAddress((addr + k) as usize))
                    && final(self)@ == old(self)@.after_upload(addr as int, data@, k as nat),
    {
        let mut i: usize = 0;
        while i < data.len()
            invariant
                i <= data@.len(),
                all_legal(addr as int, i as int),
                self@ == old(self)@.after_upload(addr as int, data@, i as nat),
            decreases data@.len() - i,
        {
            if i > 0 {
                assert(is_legal_wide(addr + (i - 1)));
            }
            match self.store_byte(addr + i, data[i]) {
                Ok(_) => {},
                Err(e) => {
                    assert(!is_legal_wide(addr + i));
                    return Err(e);
                },
            }
            assert(all_legal(addr as int, i + 1)) by {
                assert forall|j: int| 0 <= j < i + 1 implies #[trigger] is_legal_wide(addr + j) by {
                    if j < i {
                        assert(is_legal_wide(addr + j));
                    }
                }
            }
            i = i + 1;
        }
        Ok(())
    }

    /// The DAC output byte latched in the adapter, read beside the CPU's bus.
    pub fn get_dac(&self) -> (r: u8)
        ensures
            r == self@.dac(),
    {
        self.pia.inspect(DAC_REG)
    }

    /// Presents `code` on the adapter's sound selector lines, where the
    /// firmware reads it when it services the next interrupt.
    pub fn set_sfx(&mut self, code: u8)
        ensures
            final(self)@ == (BoardView {
                pia: old(self)@.pia.update(SOUND_SELECT_REG as int, code),
                ..old(self)@
            }),
    {
        self.pia.write(SOUND_SELECT_REG, code);
    }
}

/// A wide address that takes bus writes: within 16 bits, in RAM or in the adapter.
pub open spec fn is_writable_wide(a: int) -> bool {
    0 <= a <= 0xffff && (is_ram(a as u16) || is_pia(a as u16))
}

/// Every 16-bit address is in exactly one of RAM, adapter, ROM, or none of them.
pub proof fn lemma_regions_partition(a: u16)
    ensures
        (is_ram(a) && !is_pia(a) && !is_rom(a) && !is_illegal(a))
            || (!is_ram(a) && is_pia(a) && !is_rom(a) && !is_illegal(a))
            || (!is_ram(a) && !is_pia(a) && is_rom(a) && !is_illegal(a))
            || (!is_ram(a) && !is_pia(a) && !is_rom(a) && is_illegal(a)),
{
}

/// A write into the ROM changes nothing, so a later read or inspect there
/// gives the byte that was there before.
pub proof fn lemma_rom_write_ignored(b: BoardView, a: u16, v: u8)
    requires
        is_rom(a),
    ensures
        b.after_write(a, v) == b,
        b.after_write(a, v).read_result(a) == b.read_result(a),
{
}

/// A byte written into RAM is read back unchanged.
pub proof fn lemma_ram_round_trip(b: BoardView, a: u16, v: u8)
    requires
        b.wf(),
        is_ram(a),
    ensures
        b.after_write(a, v).read_result(a) == Ok::<u8, BoardError>(v),
{
}

/// A word stored where both bytes take writes lands big-endian: the high byte
/// at `a`, the low byte after it, and a word read there gives it back.
pub proof fn lemma_word_byte_order(b: BoardView, a: usize, w: u16)
    requires
        b.wf(),
        is_writable_wide(a as int),
        is_writable_wide(a + 1),
    ensures
        b.store_word_result(a) == Ok::<(), BoardError>(()),
        b.after_store_word(a, w).wide_read_result(a) == Ok::<u8, BoardError>((w / 256) as u8),
        b.after_store_word(a, w).wide_read_result((a + 1) as usize) == Ok::<u8, BoardError>(
            (w % 256) as u8,
        ),
        b.after_store_word(a, w).word_result(a) == Ok::<u16, BoardError>(w),
{
    let b1 = b.after_wide_write(a, (w / 256) as u8);
    let b2 = b1.after_wide_write(next_wide(a), (w % 256) as u8);
    assert(b2.wide_read_result(a) == b1.wide_read_result(a));
}

} // verus!
