use vstd::prelude::*;

use crate::instructions::{decode, AddressingMode, DecodeError, Instruction, OpCode};
use crate::mapper::{Mapper, ADDRESS_SPACE};
use crate::memory::Memory;

verus! {

/// Bus address of the bottom of the stack page.
pub const STACK_OFFSET: usize = 0x100;

/// Why a step could not be executed.
#[derive(Debug, Clone, Copy, PartialEq, Eq, Structural)]
pub enum StepError {
    /// The fetched byte could not be classified.
    Decode(DecodeError),
    /// The addressing mode has no operand resolution yet.
    UnimplementedAddressingMode { mode: AddressingMode, op_code: OpCode, code: u8 },
}

/// `pc + k`, in the 16-bit address space.
pub open spec fn advance(pc: int, k: int) -> int {
    (pc + k) % (ADDRESS_SPACE as int)
}

/// The stack pointer after one push: one lower, wrapping within the page.
pub open spec fn below(sp: u8) -> u8 {
    if sp == 0 {
        0xFF
    } else {
        (sp - 1) as u8
    }
}

/// The byte Jump-to-Subroutine pushes first for return address `v`: the
/// engine computes `v & 0xFF00 >> 8`, where the shift binds before the mask,
/// so this is `v & 0xFF`, the same byte as the second push.
pub open spec fn first_pushed_byte(v: int) -> u8 {
    (v % 0x100) as u8
}

pub open spec fn low_byte(v: int) -> u8 {
    (v % 0x100) as u8
}

/// The processor: registers, flags and its memory bus.
pub struct Cpu<'a, M: Mapper> {
    memory: Memory<'a, M>,
    mapper: &'a M,
    pc: usize,
    sp: u8,
    cf: u8,
    nf: u8,
}

impl<'a, M: Mapper> Cpu<'a, M> {
    pub closed spec fn wf(&self) -> bool {
        &&& self.memory.wf()
        &&& self.pc < ADDRESS_SPACE
        &&& self.memory.mapper_spec() == *self.mapper
    }

    pub closed spec fn pc_spec(&self) -> int {
        self.pc as int
    }

    pub closed spec fn sp_spec(&self) -> u8 {
        self.sp
    }

    pub closed spec fn cf_spec(&self) -> u8 {
        self.cf
    }

    pub closed spec fn nf_spec(&self) -> u8 {
        self.nf
    }

    pub closed spec fn mem(&self) -> Memory<'a, M> {
        self.memory
    }

    /// A well-formed processor has a well-formed bus.
    pub proof fn lemma_wf_memory(&self)
        requires
            self.wf(),
        ensures
            self.mem().wf(),
            0 <= self.pc_spec() < ADDRESS_SPACE,
    {
    }

    /// The byte `k` places after the program counter.
    pub open spec fn fetched(&self, k: int) -> u8 {
        self.mem().cell(advance(self.pc_spec(), k))
    }

    /// The instruction a step executes, or why it cannot.
    pub open spec fn step_result(&self) -> Result<Instruction, StepError> {
        match decode(self.fetched(0)) {
            Err(e) => Err(StepError::Decode(e)),
            Ok(ins) => if ins.addressing_mode == AddressingMode::Absolute
                || ins.addressing_mode == AddressingMode::ZeroPage {
                Ok(ins)
            } else {
                Err(
                    StepError::UnimplementedAddressingMode {
                        mode: ins.addressing_mode,
                        op_code: ins.op_code,
                        code: self.fetched(0),
                    },
                )
            },
        }
    }

    /// The effective address of the operand: two little-endian bytes for
    /// Absolute, one for Zero-Page.
    pub open spec fn operand_address(&self, mode: AddressingMode) -> int {
        if mode == AddressingMode::Absolute {
            self.fetched(1) as int + self.fetched(2) as int * 0x100
        } else {
            self.fetched(1) as int
        }
    }

    /// Where the program counter stands once the instruction has been read.
    pub open spec fn operand_end(&self, mode: AddressingMode) -> int {
        if mode == AddressingMode::Absolute {
            advance(self.pc_spec(), 3)
        } else {
            advance(self.pc_spec(), 2)
        }
    }

    /// `after` is `self` once Jump-to-Subroutine to `target` has run with the
    /// program counter at `end`: `first_pushed_byte(end - 1)` then the low
    /// byte of `end - 1` are pushed and the program counter jumps.
    pub open spec fn jsr_done(&self, after: &Self, target: int, end: int) -> bool {
        let ret = advance(end, -1);
        let sp = self.sp_spec();
        &&& after.pc_spec() == target
        &&& after.sp_spec() == below(below(sp))
        &&& after.cf_spec() == self.cf_spec()
        &&& after.nf_spec() == self.nf_spec()
        &&& after.mem().mapper_spec() == self.mem().mapper_spec()
        &&& after.mem().cells() == self.mem().cells().update(
            STACK_OFFSET + sp,
            first_pushed_byte(ret),
        ).update(STACK_OFFSET + below(sp), low_byte(ret))
    }

    /// `after` is `self` once Logical-Shift-Right on the byte at `address` has
    /// run with the program counter at `end`.
    pub open spec fn lsr_done(&self, after: &Self, address: int, end: int) -> bool {
        let v = self.mem().cell(address);
        &&& after.pc_spec() == end
        &&& after.sp_spec() == self.sp_spec()
        &&& after.cf_spec() == v % 2
        &&& after.nf_spec() == self.nf_spec()
        &&& after.mem().mapper_spec() == self.mem().mapper_spec()
        &&& after.mem().cells() == self.mem().cells().update(
            self.mem().cell_index(address),
            v / 2,
        )
    }

    /// `after` and `r` are what one step does from `self`: a step that
    /// cannot execute only moves past the opcode byte; otherwise the
    /// instruction runs with its resolved operand.
    pub open spec fn stepped(&self, after: &Self, r: Result<(), StepError>) -> bool {
        match self.step_result() {
            Err(e) => {
                &&& r == Err::<(), StepError>(e)
                &&& after.pc_spec() == advance(self.pc_spec(), 1)
                &&& after.sp_spec() == self.sp_spec()
                &&& after.cf_spec() == self.cf_spec()
                &&& after.nf_spec() == self.nf_spec()
                &&& after.mem() == self.mem()
            },
            Ok(ins) => {
                let address = self.operand_address(ins.addressing_mode);
                let end = self.operand_end(ins.addressing_mode);
                &&& r is Ok
                &&& ins.op_code == OpCode::Jsr ==> self.jsr_done(after, address, end)
                &&& ins.op_code == OpCode::Lsr ==> self.lsr_done(after, address, end)
            },
        }
    }

    /// A processor at the start of the mapper's program window, over a bus
    /// that the mapper has seeded.
    pub fn new(mapper: &'a M) -> (r: Self)
        ensures
            r.wf(),
            r.pc_spec() == mapper.window_start(),
            r.sp_spec() == 0xFF,
            r.cf_spec() == 0,
            r.nf_spec() == 0,
            r.mem().mapper_spec() == *mapper,
            r.mem().cells() == mapper.seeded(Seq::new(ADDRESS_SPACE as nat, |i: int| 0u8)),
    {
        proof {
            mapper.lemma_geometry();
        }
        let memory = Memory::cpu(mapper);
        let mut cpu = Cpu { pc: *mapper.pgr_window().start(), memory, mapper, sp: 255, cf: 0, nf: 0 };
        mapper.init_memory(cpu.memory.data_vec());
        cpu
    }

    pub fn pc(&self) -> (r: usize)
        ensures
            r == self.pc_spec(),
    {
        self.pc
    }

    pub fn sp(&self) -> (r: u8)
        ensures
            r == self.sp_spec(),
    {
        self.sp
    }

    pub fn carry_flag(&self) -> (r: u8)
        ensures
            r == self.cf_spec(),
    {
        self.cf
    }

    pub fn negative_flag(&self) -> (r: u8)
        ensures
            r == self.nf_spec(),
    {
        self.nf
    }

    pub fn memory(&self) -> (r: &Memory<'a, M>)
        ensures
            *r == self.mem(),
    {
        &self.memory
    }

    /// Writes `data` at the top of the stack and moves the stack pointer down,
    /// wrapping within the stack page.
    pub fn push(&mut self, data: u8)
        requires
            old(self).wf(),
        ensures
            final(self).wf(),
            final(self).pc_spec() == old(self).pc_spec(),
            final(self).sp_spec() == below(old(self).sp_spec()),
            final(self).cf_spec() == old(self).cf_spec(),
            final(self).nf_spec() == old(self).nf_spec(),
            final(self).mem().mapper_spec() == old(self).mem().mapper_spec(),
            final(self).mem().cells() == old(self).mem().cells().update(
                STACK_OFFSET + old(self).sp_spec(),
                data,
            ),
    {
        let index = STACK_OFFSET + self.sp as usize;
        proof {
            self.mapper.lemma_geometry();
        }
        self.memory.write(index, data);
        self.sp = if self.sp == 0 {
            0xFF
        } else {
            self.sp - 1
        };
    }

    fn next_opcode(&mut self) -> (r: u8)
        requires
            old(self).wf(),
        ensures
            final(self).wf(),
            r == old(self).fetched(0),
            final(self).pc_spec() == advance(old(self).pc_spec(), 1),
            final(self).sp_spec() == old(self).sp_spec(),
            final(self).cf_spec() == old(self).cf_spec(),
            final(self).nf_spec() == old(self).nf_spec(),
            final(self).mem() == old(self).mem(),
    {
        let index = self.pc;
        self.pc = if self.pc + 1 == ADDRESS_SPACE {
            0
        } else {
            self.pc + 1
        };
        *self.memory.read(index)
    }

    fn s_opcode_data(&mut self) -> (r: u8)
        requires
            old(self).wf(),
        ensures
            final(self).wf(),
            r == old(self).fetched(0),
            final(self).pc_spec() == advance(old(self).pc_spec(), 1),
            final(self).sp_spec() == old(self).sp_spec(),
            final(self).cf_spec() == old(self).cf_spec(),
            final(self).nf_spec() == old(self).nf_spec(),
            final(self).mem() == old(self).mem(),
    {
        self.next_opcode()
    }

    /// Reads a little-endian 16-bit operand.
    fn d_opcode_data(&mut self) -> (r: u16)
        requires
            old(self).wf(),
        ensures
            final(self).wf(),
            r == old(self).fetched(0) as int + old(self).fetched(1) as int * 0x100,
            final(self).pc_spec() == advance(old(self).pc_spec(), 2),
            final(self).sp_spec() == old(self).sp_spec(),
            final(self).cf_spec() == old(self).cf_spec(),
            final(self).nf_spec() == old(self).nf_spec(),
            final(self).mem() == old(self).mem(),
    {
        let low = self.s_opcode_data();
        let high = self.s_opcode_data();
        let r = low as u16 | (high as u16) << 8;
        assert(low as u16 | (high as u16) << 8 == low as u16 + high as u16 * 256) by (bit_vector);
        assert(advance(advance(old(self).pc_spec(), 1), 1) == advance(old(self).pc_spec(), 2));
        assert(advance(advance(old(self).pc_spec(), 1), 0) == advance(old(self).pc_spec(), 1));
        r
    }

    /// Fetches, classifies and executes one instruction.
    pub fn step(&mut self) -> (r: Result<(), StepError>)
        requires
            old(self).wf(),
        ensures
            final(self).wf(),
            old(self).stepped(final(self), r),
    {
        let ghost start = *self;
        let raw_opcode = self.next_opcode();
        let instruction = match Instruction::decode(raw_opcode) {
            Ok(instruction) => instruction,
            Err(e) => return Err(StepError::Decode(e)),
        };
        proof {
            assert(advance(advance(start.pc_spec(), 1), 0) == advance(start.pc_spec(), 1));
            assert(advance(advance(start.pc_spec(), 1), 1) == advance(start.pc_spec(), 2));
        }
        let data: (usize, u8) = match instruction.addressing_mode {
            AddressingMode::Absolute => {
                let address = self.d_opcode_data() as usize;
                assert(advance(advance(start.pc_spec(), 1), 2) == advance(start.pc_spec(), 3));
                (address, *self.memory.read(address))
            },
            AddressingMode::ZeroPage => {
                let address = self.s_opcode_data() as usize;
                (address, *self.memory.read(address))
            },
            other => {
                return Err(
                    StepError::UnimplementedAddressingMode {
                        mode: other,
                        op_code: instruction.op_code,
                        code: raw_opcode,
                    },
                );
            },
        };
        match instruction.op_code {
            OpCode::Jsr => self.op_jsr(data.0),
            OpCode::Lsr => self.op_lsr(data.0, data.1),
        }
        Ok(())
    }

    fn op_jsr(&mut self, data: usize)
        requires
            old(self).wf(),
            data < ADDRESS_SPACE,
        ensures
            final(self).wf(),
            old(self).jsr_done(final(self), data as int, old(self).pc_spec()),
    {
        let return_pc = if self.pc == 0 {
            ADDRESS_SPACE - 1
        } else {
            self.pc - 1
        };
        assert((return_pc & 0xFF00usize >> 8usize) as u8 == first_pushed_byte(return_pc as int))
            by (bit_vector);
        assert((return_pc & 0x00FF) as u8 == low_byte(return_pc as int)) by (bit_vector);
        // the shift binds before the mask: this pushes the low byte
        self.push((return_pc & 0xFF00 >> 8) as u8);
        self.push((return_pc & 0x00FF) as u8);
        self.pc = data;
    }

    fn op_lsr(&mut self, index: usize, data: u8)
        requires
            old(self).wf(),
            index < ADDRESS_SPACE,
            data == old(self).mem().cell(index as int),
        ensures
            final(self).wf(),
            old(self).lsr_done(final(self), index as int, old(self).pc_spec()),
            final(self).mem().cell(index as int) == data >> 1,
            final(self).cf_spec() == data & 1,
    {
        self.cf = data & 1;
        assert(data & 1 == data % 2) by (bit_vector);
        self.memory.write(index, data >> 1);
        assert(data >> 1 == data / 2) by (bit_vector);
    }
}

/// Every byte that classifies as Jump-to-Subroutine or Logical-Shift-Right
/// with an Absolute or Zero-Page operand executes: a step on it succeeds.
pub proof fn lemma_supported_bytes_execute<'a, M: Mapper>(
    before: &Cpu<'a, M>,
    after: &Cpu<'a, M>,
    r: Result<(), StepError>,
)
    requires
        before.wf(),
        before.stepped(after, r),
        decode(before.fetched(0)) matches Ok(ins) && (ins.op_code == OpCode::Jsr || ins.op_code
            == OpCode::Lsr) && (ins.addressing_mode == AddressingMode::Absolute
            || ins.addressing_mode == AddressingMode::ZeroPage),
    ensures
        r is Ok,
{
}

/// Jump-to-Subroutine from program counter `P` to target `T`: the program
/// counter becomes `T`, and the stack holds the first pushed byte of `P + 2`
/// (its low byte, as the engine masks it) at `0x100 + sp`, then its low byte
/// one below.
pub proof fn lemma_jsr_pushes_return_address<'a, M: Mapper>(
    before: &Cpu<'a, M>,
    after: &Cpu<'a, M>,
    r: Result<(), StepError>,
)
    requires
        before.wf(),
        before.stepped(after, r),
        before.step_result() == Ok::<Instruction, StepError>(
            Instruction { op_code: OpCode::Jsr, addressing_mode: AddressingMode::Absolute },
        ),
    ensures
        r is Ok,
        after.pc_spec() == before.operand_address(AddressingMode::Absolute),
        after.sp_spec() == below(below(before.sp_spec())),
        after.mem().cell(STACK_OFFSET + before.sp_spec()) == first_pushed_byte(
            advance(before.pc_spec(), 2),
        ),
        after.mem().cell(STACK_OFFSET + below(before.sp_spec())) == low_byte(
            advance(before.pc_spec(), 2),
        ),
{
    let m = before.mem().mapper_spec();
    m.lemma_geometry();
    let p = before.pc_spec();
    assert(advance(advance(p, 3), -1) == advance(p, 2));
    let a = STACK_OFFSET + before.sp_spec();
    let b = STACK_OFFSET + below(before.sp_spec());
    assert(m.translate(a) == a);
    assert(m.translate(b) == b);
    assert(after.mem().cell_index(a) == a);
    assert(after.mem().cell_index(b) == b);
}

/// Logical-Shift-Right on the byte `v` at address `A`: the carry flag
/// becomes `v & 1` and the byte at `A` becomes `v >> 1`.
pub proof fn lemma_lsr_shifts_operand<'a, M: Mapper>(
    before: &Cpu<'a, M>,
    after: &Cpu<'a, M>,
    r: Result<(), StepError>,
)
    requires
        before.wf(),
        before.stepped(after, r),
        before.step_result() matches Ok(ins) && ins.op_code == OpCode::Lsr,
    ensures
        r is Ok,
        ({
            let ins = before.step_result()->Ok_0;
            let address = before.operand_address(ins.addressing_mode);
            let v = before.mem().cell(address);
            &&& after.cf_spec() == v & 1
            &&& after.mem().cell(address) == v >> 1
        }),
{
    let ins = before.step_result()->Ok_0;
    let address = before.operand_address(ins.addressing_mode);
    let v = before.mem().cell(address);
    let m = before.mem().mapper_spec();
    m.lemma_geometry();
    assert(0 <= address < ADDRESS_SPACE);
    let mi = crate::memory::mirror(address);
    assert(0 <= mi < ADDRESS_SPACE);
    assert(0 <= before.mem().cell_index(address) < ADDRESS_SPACE);
    assert(v & 1 == v % 2) by (bit_vector);
    assert(v >> 1 == v / 2) by (bit_vector);
}

/// Of all 256 opcode bytes, exactly Jump-to-Subroutine `0x20` and
/// Logical-Shift-Right `0x46` (Zero-Page) and `0x4E` (Absolute) classify
/// with an addressing mode that a step can resolve.
pub proof fn lemma_executable_bytes(code: u8)
    ensures
        (decode(code) matches Ok(ins) && (ins.addressing_mode == AddressingMode::Absolute
            || ins.addressing_mode == AddressingMode::ZeroPage)) <==> (code == 0x20 || code == 0x46
            || code == 0x4E),
{
    let row = code / 0x20;
    let c = code % 0x20;
    assert(code == row * 0x20 + c);
    assert(row < 8);
    assert(code % 4 == c % 4);
}

} // verus!
