use vstd::prelude::*;

use crate::mapper::{Mapper, ADDRESS_SPACE};

verus! {

/// Which bus a memory array serves.
#[derive(Debug, Clone, Copy, PartialEq, Eq, Structural)]
pub enum MemType {
    Cpu,
}

/// End of the internal work RAM, mirrored up to `RAM_MIRROR_END`.
pub const RAM_SIZE: usize = 0x800;

pub const RAM_MIRROR_END: usize = 0x1FFF;

/// First address of the peripheral register block.
pub const REGISTERS_START: usize = 0x2000;

/// Size of the peripheral register block, mirrored up to `REGISTERS_MIRROR_END`.
pub const REGISTERS_SIZE: usize = 8;

pub const REGISTERS_MIRROR_END: usize = 0x3FFF;

/// First stage of the bus translation: the mirrored ranges fold onto the
/// storage they alias.
pub open spec fn mirror(index: int) -> int {
    if RAM_SIZE <= index <= RAM_MIRROR_END {
        index % (RAM_SIZE as int)
    } else if REGISTERS_START + REGISTERS_SIZE <= index <= REGISTERS_MIRROR_END {
        index % (REGISTERS_SIZE as int) + REGISTERS_START
    } else {
        index
    }
}

/// The byte array behind a bus, with the mapper that translates addresses on it.
pub struct Memory<'a, M: Mapper> {
    mem_type: MemType,
    data: Vec<u8>,
    mapper: &'a M,
}

impl<'a, M: Mapper> Memory<'a, M> {
    pub open spec fn wf(&self) -> bool {
        self.cells().len() == ADDRESS_SPACE
    }

    /// The whole array.
    pub closed spec fn cells(&self) -> Seq<u8> {
        self.data@
    }

    pub closed spec fn mapper_spec(&self) -> M {
        *self.mapper
    }

    /// The array index that bus address `index` reaches: mirroring, then the mapper.
    pub open spec fn cell_index(&self, index: int) -> int {
        self.mapper_spec().translate(mirror(index))
    }

    /// The byte that bus address `index` reads.
    pub open spec fn cell(&self, index: int) -> u8 {
        self.cells()[self.cell_index(index)]
    }

    /// A zeroed CPU bus.
    pub fn cpu(mapper: &'a M) -> (r: Self)
        ensures
            r.wf(),
            r.cells() == Seq::new(ADDRESS_SPACE as nat, |i: int| 0u8),
            r.mapper_spec() == *mapper,
    {
        let data = vec![0u8; ADDRESS_SPACE];
        let r = Memory { mem_type: MemType::Cpu, data, mapper };
        assert(r.cells() =~= Seq::new(ADDRESS_SPACE as nat, |i: int| 0u8));
        r
    }

    pub fn read(&self, index: usize) -> (r: &u8)
        requires
            self.wf(),
            index < ADDRESS_SPACE,
        ensures
            *r == self.cell(index as int),
    {
        let mapped_index = self.map_index(index);
        &self.data[mapped_index]
    }

    pub fn write(&mut self, index: usize, data: u8)
        requires
            old(self).wf(),
            index < ADDRESS_SPACE,
        ensures
            final(self).wf(),
            final(self).mapper_spec() == old(self).mapper_spec(),
            final(self).cells() == old(self).cells().update(old(self).cell_index(index as int), data),
            final(self).cell(index as int) == data,
    {
        let mapped_index = self.map_index(index);
        self.data.set(mapped_index, data);
    }

    /// Reads the byte at offset `pc` into the mapper's program window.
    pub fn read_opcode(&self, pc: usize) -> (r: &u8)
        requires
            self.wf(),
            self.mapper_spec().window_start() + pc < ADDRESS_SPACE,
        ensures
            *r == self.cell(self.mapper_spec().window_start() + pc),
    {
        let index = *self.mapper.pgr_window().start() + pc;
        self.read(index)
    }

    /// The whole array, for seeding.
    pub fn data_vec(&mut self) -> (r: &mut Vec<u8>)
        ensures
            (*r)@ == old(self).cells(),
            final(self).cells() == (*final(r))@,
            final(self).mapper_spec() == old(self).mapper_spec(),
            final(self).wf() == ((*final(r))@.len() == ADDRESS_SPACE),
    {
        &mut self.data
    }

    fn map_index(&self, index: usize) -> (r: usize)
        requires
            index < ADDRESS_SPACE,
        ensures
            r == self.cell_index(index as int),
            r < ADDRESS_SPACE,
    {
        match &self.mem_type {
            MemType::Cpu => self.map_cpu(index),
        }
    }

    fn map_cpu(&self, index: usize) -> (r: usize)
        requires
            index < ADDRESS_SPACE,
        ensures
            r == self.cell_index(index as int),
            r < ADDRESS_SPACE,
    {
        let index = if RAM_SIZE <= index && index <= RAM_MIRROR_END {
            // mirrors of the 2KiB internal RAM
            index % RAM_SIZE
        } else if REGISTERS_START + REGISTERS_SIZE <= index && index <= REGISTERS_MIRROR_END {
            // mirrors of the peripheral registers
            index % REGISTERS_SIZE + REGISTERS_START
        } else {
            index
        };
        proof {
            self.mapper_spec().lemma_geometry();
        }
        self.mapper.map_cpu_memory_index(index)
    }
}

/// The mirrored ranges reach the same cell as the storage they alias, on any
/// mapper: work RAM repeats every 2KiB below 0x2000, and the register block
/// every 8 bytes from 0x2000 to 0x4000.
pub proof fn lemma_mirrors_share_cells<'a, M: Mapper>(m: &Memory<'a, M>)
    ensures
        forall|i: int|
            0 <= i <= RAM_MIRROR_END ==> #[trigger] m.cell_index(i) == m.cell_index(
                i % (RAM_SIZE as int),
            ),
        forall|i: int|
            REGISTERS_START <= i <= REGISTERS_MIRROR_END ==> #[trigger] m.cell_index(i)
                == m.cell_index(i % (REGISTERS_SIZE as int) + REGISTERS_START),
        m.cell_index(0x0000) == m.cell_index(0x0800),
        m.cell_index(0x2000) == m.cell_index(0x2008),
{
}

/// A write through one address of a mirrored pair is what a read through the
/// other sees.
pub proof fn lemma_mirror_write_read<'a, M: Mapper>(
    before: &Memory<'a, M>,
    after: &Memory<'a, M>,
    written: int,
    read: int,
    value: u8,
)
    requires
        before.wf(),
        (written == 0x0000 && read == 0x0800) || (written == 0x0800 && read == 0x0000) || (written
            == 0x2000 && read == 0x2008) || (written == 0x2008 && read == 0x2000),
        after.mapper_spec() == before.mapper_spec(),
        after.cells() == before.cells().update(before.cell_index(written), value),
    ensures
        after.cell(read) == value,
{
    before.mapper_spec().lemma_geometry();
    assert(before.mapper_spec().translate(mirror(written)) < ADDRESS_SPACE);
}

} // verus!
