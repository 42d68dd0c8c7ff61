use std::ops::RangeInclusive;
use vstd::prelude::*;

use crate::mapper::{Mapper, ADDRESS_SPACE};
use crate::memory::Memory;
use crate::nesfile::NesFile;

verus! {

/// Size of one program-ROM bank.
pub const KIB_16: usize = 0x4000;

/// First address of the program window.
pub const WINDOW_START: usize = 0x8000;

/// Last address of the program window.
pub const WINDOW_END: usize = 0xFFFF;

enum NRomType {
    /// One 16KiB bank, seen in both halves of the window.
    Nrom128,
    /// 32KiB filling the whole window.
    Nrom256,
}

/// The mapper without bank switching.
pub struct NRom {
    nrom_type: NRomType,
    rom: NesFile,
}

impl NRom {
    /// The program ROM.
    pub closed spec fn prg(&self) -> Seq<u8> {
        self.rom.prg_rom@
    }

    /// Whether the program ROM fills the whole window.
    pub closed spec fn wide(&self) -> bool {
        self.rom.prg_rom@.len() > KIB_16
    }

    /// The kind always matches the program ROM's length.
    #[verifier::type_invariant]
    spec fn kind_matches_size(&self) -> bool {
        (self.nrom_type is Nrom256) == (self.rom.prg_rom@.len() > KIB_16)
    }

    /// The kind is the one the program ROM's length selects.
    pub proof fn lemma_kind_matches_size(&self)
        ensures
            self.wide() == (self.prg().len() > KIB_16),
    {
    }

    pub fn new(rom: NesFile) -> (r: NRom)
        ensures
            r.prg() == rom.prg_rom@,
            r.wide() == (rom.prg_rom@.len() > KIB_16),
    {
        let nrom_type = if rom.prg_rom.len() > KIB_16 {
            NRomType::Nrom256
        } else {
            NRomType::Nrom128
        };
        NRom { nrom_type, rom }
    }
}

pub open spec fn in_window(index: int) -> bool {
    WINDOW_START <= index <= WINDOW_END
}

impl Mapper for NRom {
    open spec fn window_start(&self) -> int {
        WINDOW_START as int
    }

    open spec fn window_end(&self) -> int {
        WINDOW_END as int
    }

    /// Inside the window the narrow kind takes the offset `index % 16384`
    /// into its one bank, which starts at the window; the wide kind and all
    /// addresses outside the window are left as they are.
    open spec fn translate(&self, index: int) -> int {
        if in_window(index) && !self.wide() {
            WINDOW_START + index % (KIB_16 as int)
        } else {
            index
        }
    }

    /// The program ROM copied to the window's start, as far as it fits.
    open spec fn seeded(&self, before: Seq<u8>) -> Seq<u8> {
        Seq::new(
            before.len(),
            |i: int|
                if WINDOW_START <= i < WINDOW_START + self.prg().len() {
                    self.prg()[i - WINDOW_START]
                } else {
                    before[i]
                },
        )
    }

    proof fn lemma_geometry(&self) {
    }

    fn init_memory(&self, data: &mut Vec<u8>) {
        let prg = &self.rom.prg_rom;
        let count: usize = if prg.len() < ADDRESS_SPACE - WINDOW_START {
            prg.len()
        } else {
            ADDRESS_SPACE - WINDOW_START
        };
        let ghost before = data@;
        let mut k: usize = 0;
        while k < count
            invariant
                count <= prg@.len(),
                count <= ADDRESS_SPACE - WINDOW_START,
                prg@ == self.prg(),
                data@.len() == before.len(),
                before.len() == ADDRESS_SPACE,
                k <= count,
                forall|i: int|
                    0 <= i < data@.len() ==> #[trigger] data@[i] == if WINDOW_START <= i
                        < WINDOW_START + k {
                        self.prg()[i - WINDOW_START]
                    } else {
                        before[i]
                    },
            decreases count - k,
        {
            data.set(WINDOW_START + k, prg[k]);
            k = k + 1;
        }
        assert(data@ =~= self.seeded(before));
    }

    fn pgr_window(&self) -> (r: RangeInclusive<usize>) {
        WINDOW_START..=WINDOW_END
    }

    fn map_cpu_memory_index(&self, index: usize) -> (r: usize) {
        proof {
            use_type_invariant(self);
        }
        if self.pgr_window().contains(&index) {
            match self.nrom_type {
                NRomType::Nrom128 => WINDOW_START + index % KIB_16,
                NRomType::Nrom256 => index,
            }
        } else {
            index
        }
    }
}

/// With one 16KiB bank, the two halves of the program window read the same
/// bytes: `0x8000 + k` and `0xC000 + k` for every offset `k` in the bank.
pub proof fn lemma_nrom128_halves_agree<'a>(m: &Memory<'a, NRom>)
    requires
        m.mapper_spec().prg().len() == KIB_16,
    ensures
        forall|k: int|
            0 <= k < KIB_16 ==> #[trigger] m.cell(WINDOW_START + k) == m.cell(
                WINDOW_START + KIB_16 + k,
            ),
{
    assert forall|k: int| 0 <= k < KIB_16 implies #[trigger] m.cell_index(WINDOW_START + k)
        == m.cell_index(WINDOW_START + KIB_16 + k) by {
        assert((WINDOW_START + KIB_16 + k) % (KIB_16 as int) == (WINDOW_START + k) % (
        KIB_16 as int));
    }
}

/// With 32KiB of program ROM, bus address `0x8000 + k` reads program-ROM byte
/// `k` once the mapper has seeded the bus.
pub proof fn lemma_nrom256_pass_through<'a>(m: &Memory<'a, NRom>, before: Seq<u8>)
    requires
        m.mapper_spec().prg().len() == 2 * KIB_16,
        before.len() == ADDRESS_SPACE,
        m.cells() == m.mapper_spec().seeded(before),
    ensures
        forall|k: int|
            0 <= k < 2 * KIB_16 ==> #[trigger] m.cell(WINDOW_START + k) == m.mapper_spec().prg()[k],
{
}

} // verus!
