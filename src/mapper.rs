use std::ops::RangeInclusive;
use vstd::prelude::*;

use crate::nesfile::NesFile;
use crate::nrom::NRom;

verus! {

/// Size of the processor's address space.
pub const ADDRESS_SPACE: usize = 0x10000;

/// First address of the cartridge space.
pub const CARTRIDGE_SPACE: usize = 0x4020;

/// Relies on `RangeInclusive::start`: it returns the lower bound the range was built with.
pub assume_specification<Idx>[ RangeInclusive::<Idx>::start ](r: &RangeInclusive<Idx>) -> (s: &Idx)
    ensures
        *s == r@.start,
;

/// Cartridge-specific view of the address space: where the cartridge's
/// program window lies, how addresses inside it resolve, and what the
/// cartridge puts into memory at start.
pub trait Mapper {
    spec fn window_start(&self) -> int;

    spec fn window_end(&self) -> int;

    /// The bus array index that address `index` resolves to.
    spec fn translate(&self, index: int) -> int;

    /// The bus array after seeding it from `before`.
    spec fn seeded(&self, before: Seq<u8>) -> Seq<u8>;

    /// The window lies in cartridge space, translation stays in the address
    /// space and leaves addresses outside the window alone, and seeding keeps
    /// the array's length.
    proof fn lemma_geometry(&self)
        ensures
            CARTRIDGE_SPACE <= self.window_start() <= self.window_end() < ADDRESS_SPACE,
            forall|i: int|
                0 <= i < ADDRESS_SPACE ==> 0 <= #[trigger] self.translate(i) < ADDRESS_SPACE,
            forall|i: int|
                0 <= i < ADDRESS_SPACE && !(self.window_start() <= i <= self.window_end())
                    ==> #[trigger] self.translate(i) == i,
            forall|s: Seq<u8>| #[trigger] self.seeded(s).len() == s.len(),
    ;

    fn init_memory(&self, data: &mut Vec<u8>)
        requires
            old(data)@.len() == ADDRESS_SPACE,
        ensures
            final(data)@ == self.seeded(old(data)@),
    ;

    fn pgr_window(&self) -> (r: RangeInclusive<usize>)
        ensures
            r@.start == self.window_start(),
            r@.end == self.window_end(),
            !r@.exhausted,
    ;

    fn map_cpu_memory_index(&self, index: usize) -> (r: usize)
        requires
            index < ADDRESS_SPACE,
        ensures
            r == self.translate(index as int),
    ;
}

/// The only mapper identifier with an implementation.
pub const NROM_ID: u8 = 0;

/// A cartridge names a mapper that does not exist.
#[derive(Debug, Clone, Copy, PartialEq, Eq, Structural)]
pub struct UnknownMapper {
    pub id: u8,
}

/// Selects the mapper that the cartridge names.
pub fn choose_mapper(rom: NesFile) -> (r: Result<NRom, UnknownMapper>)
    ensures
        rom.mapper == NROM_ID <==> r is Ok,
        r matches Ok(m) ==> m.prg() == rom.prg_rom@ && m.wide() == (rom.prg_rom@.len()
            > crate::nrom::KIB_16),
        r matches Err(e) ==> e.id == rom.mapper,
{
    if rom.mapper == NROM_ID {
        Ok(NRom::new(rom))
    } else {
        Err(UnknownMapper { id: rom.mapper })
    }
}

} // verus!
