use vstd::prelude::*;
use crate::cpu::CPU;
use crate::memory::{Mem, MemoryAddress};
use crate::word::{lemma_wrap16_add, lemma_wrap8_add, add16, add8, hi_byte, lo_byte, low, make_word, signed8, word, wrap16, wrap8};

verus! {

/// Opcodes whose absolute operand addresses the program bank: the jumps and
/// subroutine calls.
pub open spec fn is_jmp_jsr(opcode: u8) -> bool {
    opcode == 0x4C || opcode == 0x5C || opcode == 0x6C || opcode == 0x7C || opcode == 0xDC
        || opcode == 0x20 || opcode == 0xFC
}

/// PEI: the one direct-mode opcode that never takes the direct-page shortcut.
pub const PEI_OPCODE: u8 = 0xD4;

/// How an instruction locates its operand. `Absolute` and `Direct` carry the
/// opcode, which decides the bank of an absolute address and whether the
/// direct-page shortcut applies.
#[derive(Clone, Copy, Debug, PartialEq, Eq, Structural)]
pub enum AddressMode {
    Accumulator,
    Immediate,
    Implied,
    Relative8,
    Relative16,
    Absolute(u8),
    Direct(u8),
    DirectIndexedX,
    DirectIndexedY,
    DirectIndexedIndirect,
    DirectIndirect,
    DirectIndirectLong,
    DirectIndirectIndexed,
    DirectIndirectIndexedLong,
    StackRelative,
    StackRelativeIndirectIndexed,
    AbsoluteIndexedX,
    AbsoluteIndexedY,
    AbsoluteLong,
    AbsoluteLongIndexedX,
    AbsoluteIndirect,
    AbsoluteIndexedIndirect,
    AbsoluteIndirectLong,
    SourceDestination,
}

/// Adds an index to an address, carrying into the bank when the offset
/// passes 0xFFFF.
pub open spec fn indexed(at: MemoryAddress, index: u16) -> MemoryAddress {
    if at.1 + index > 0xFFFF {
        (wrap8(at.0 + 1), (at.1 + index - 0x10000) as u16)
    } else {
        (at.0, (at.1 + index) as u16)
    }
}

/// The next address, crossing into the next bank after offset 0xFFFF.
pub open spec fn next_bank_wrapped(at: MemoryAddress) -> MemoryAddress {
    indexed(at, 1)
}

/// The next address within the same bank.
pub open spec fn next_page_wrapped(at: MemoryAddress) -> MemoryAddress {
    (at.0, wrap16(at.1 + 1))
}

/// In emulation mode with a page-aligned direct register, direct addresses
/// stay inside the direct page.
pub open spec fn direct_page_shortcut(c: CPU) -> bool {
    c.emulation() && lo_byte(c.regs.d) == 0
}

/// The two pointer addresses (bank 0) of the direct indirect modes, for a
/// one-byte operand `ll` and an index.
pub open spec fn direct_pointer(c: CPU, ll: u8, index: u16) -> (u16, u16) {
    if direct_page_shortcut(c) {
        (
            word(hi_byte(c.regs.d), wrap8(ll + index)),
            word(hi_byte(c.regs.d), wrap8(ll + index + 1)),
        )
    } else {
        (wrap16(c.regs.d + ll + index), wrap16(c.regs.d + ll + index + 1))
    }
}

/// The 16-bit word in bank 0 at the two pointer addresses.
pub open spec fn pointed_word<M: Mem>(mem: M, bank: u8, lo: u16, hi: u16) -> u16 {
    word(mem.byte(bank, hi), mem.byte(bank, lo))
}

/// The 24-bit address stored in bank 0 at `p`, `p + 1`, `p + 2`.
pub open spec fn pointed_long<M: Mem>(mem: M, p: u16) -> MemoryAddress {
    (
        mem.byte(0, wrap16(p + 2)),
        word(mem.byte(0, wrap16(p + 1)), mem.byte(0, p)),
    )
}

impl AddressMode {
    /// Modes that name one memory address.
    pub open spec fn has_address(self) -> bool {
        !(self is Accumulator || self is Implied || self is SourceDestination)
    }

    /// Modes that name a pair of addresses for a 16-bit operand.
    pub open spec fn has_pair(self) -> bool {
        match self {
            AddressMode::Absolute(opcode) => !is_jmp_jsr(opcode),
            AddressMode::AbsoluteIndirect | AddressMode::AbsoluteIndirectLong
            | AddressMode::AbsoluteIndexedIndirect | AddressMode::Accumulator
            | AddressMode::Implied | AddressMode::Relative8 | AddressMode::Relative16 => false,
            _ => true,
        }
    }

    /// Modes through which data is read or written at either width.
    pub open spec fn is_data(self) -> bool {
        self.has_address() && self.has_pair()
    }

    /// Operand bytes consumed when one address is resolved.
    pub open spec fn len(self) -> int {
        match self {
            AddressMode::Relative16 | AddressMode::Absolute(_) | AddressMode::AbsoluteIndexedX
            | AddressMode::AbsoluteIndexedY | AddressMode::AbsoluteIndirect
            | AddressMode::AbsoluteIndirectLong | AddressMode::AbsoluteIndexedIndirect
            | AddressMode::SourceDestination => 2,
            AddressMode::AbsoluteLong | AddressMode::AbsoluteLongIndexedX => 3,
            AddressMode::Accumulator | AddressMode::Implied => 0,
            _ => 1,
        }
    }

    /// Operand bytes consumed when a pair of addresses is resolved.
    pub open spec fn len16(self) -> int {
        match self {
            AddressMode::Immediate => 2,
            _ => self.len(),
        }
    }

    /// The address that the mode resolves to in state `c`.
    #[verifier::opaque]
    pub open spec fn address<M: Mem>(self, c: CPU, mem: M) -> MemoryAddress {
        let r = c.regs;
        let op0 = c.operand(mem, 0);
        let op1 = c.operand(mem, 1);
        let op2 = c.operand(mem, 2);
        match self {
            AddressMode::Immediate => (r.pbr, r.pc),
            AddressMode::Relative8 => (r.pbr, wrap16(r.pc + 1 + signed8(op0))),
            AddressMode::Relative16 => (r.pbr, wrap16(r.pc + 2 + word(op1, op0))),
            AddressMode::Absolute(opcode) => (
                if is_jmp_jsr(opcode) {
                    r.pbr
                } else {
                    r.dbr
                },
                word(op1, op0),
            ),
            AddressMode::Direct(opcode) => if opcode != PEI_OPCODE && direct_page_shortcut(c) {
                (0, word(hi_byte(r.d), op0))
            } else {
                (0, wrap16(r.d + op0))
            },
            AddressMode::DirectIndexedX => (0, direct_pointer(c, op0, r.x).0),
            AddressMode::DirectIndexedY => (0, direct_pointer(c, op0, r.y).0),
            AddressMode::DirectIndexedIndirect => {
                let p = direct_pointer(c, op0, r.x);
                (r.dbr, pointed_word(mem, 0, p.0, p.1))
            },
            AddressMode::DirectIndirect => {
                let p = direct_pointer(c, op0, 0);
                (r.dbr, pointed_word(mem, 0, p.0, p.1))
            },
            AddressMode::DirectIndirectLong => pointed_long(mem, wrap16(r.dbr + op0)),
            AddressMode::DirectIndirectIndexed => {
                let p = direct_pointer(c, op0, 0);
                indexed((r.dbr, pointed_word(mem, 0, p.0, p.1)), r.y)
            },
            AddressMode::DirectIndirectIndexedLong => indexed(
                pointed_long(mem, wrap16(r.dbr + op0)),
                r.y,
            ),
            AddressMode::StackRelative => (0, wrap16(op0 + r.sp)),
            AddressMode::StackRelativeIndirectIndexed => {
                let p = wrap16(op0 + r.sp);
                indexed((r.dbr, pointed_word(mem, 0, p, wrap16(p + 1))), r.y)
            },
            AddressMode::AbsoluteIndexedX => indexed((r.dbr, word(op1, op0)), r.x),
            AddressMode::AbsoluteIndexedY => indexed((r.dbr, word(op1, op0)), r.y),
            AddressMode::AbsoluteLong => (op2, word(op1, op0)),
            AddressMode::AbsoluteLongIndexedX => indexed((op2, word(op1, op0)), r.x),
            AddressMode::AbsoluteIndirect => {
                let p = word(op1, op0);
                (r.pbr, pointed_word(mem, 0, p, wrap16(p + 1)))
            },
            AddressMode::AbsoluteIndirectLong => pointed_long(mem, word(op1, op0)),
            AddressMode::AbsoluteIndexedIndirect => {
                let p = wrap16(word(op1, op0) + r.x);
                (r.pbr, pointed_word(mem, r.pbr, p, wrap16(p + 1)))
            },
            AddressMode::Accumulator | AddressMode::Implied
            | AddressMode::SourceDestination => (0, 0),
        }
    }

    /// The two addresses of a 16-bit operand, low byte first. For block moves:
    /// the source (second operand byte as bank, `X`) and the destination
    /// (first operand byte as bank, `Y`).
    pub open spec fn pair<M: Mem>(self, c: CPU, mem: M) -> (MemoryAddress, MemoryAddress) {
        let lo = self.address(c, mem);
        match self {
            AddressMode::Immediate => (lo, (c.regs.pbr, wrap16(c.regs.pc + 1))),
            AddressMode::Direct(_) | AddressMode::DirectIndexedX | AddressMode::DirectIndexedY
            | AddressMode::StackRelative => (lo, next_page_wrapped(lo)),
            AddressMode::SourceDestination => (
                (c.operand(mem, 1), c.regs.x),
                (c.operand(mem, 0), c.regs.y),
            ),
            _ => (lo, next_bank_wrapped(lo)),
        }
    }

    fn add_index_to_address(address: MemoryAddress, index: u16) -> (r: MemoryAddress)
        ensures
            r == indexed(address, index),
    {
        let (base_bank, base_addr) = address;
        if base_addr as u32 + index as u32 > 0xFFFF {
            (add8(base_bank, 1), (base_addr as u32 + index as u32 - 0x10000) as u16)
        } else {
            (base_bank, base_addr + index)
        }
    }

    fn increment_addr_with_bank_wrapping(addr: MemoryAddress) -> (r: MemoryAddress)
        ensures
            r == next_bank_wrapped(addr),
    {
        Self::add_index_to_address(addr, 1)
    }

    fn increment_addr_with_page_wrapping(addr: MemoryAddress) -> (r: MemoryAddress)
        ensures
            r == next_page_wrapped(addr),
    {
        (addr.0, add16(addr.1, 1))
    }

    fn next_word<M: Mem>(cpu: &mut CPU, mem: &M) -> (r: u16)
        ensures
            r == word(old(cpu).operand(*mem, 1), old(cpu).operand(*mem, 0)),
            *final(cpu) == old(cpu).advanced(2),
    {
        let lo = cpu.next_b(mem);
        let hi = cpu.next_b(mem);
        make_word(hi, lo)
    }

    fn absolute<M: Mem>(cpu: &mut CPU, mem: &M, opcode: u8) -> (r: MemoryAddress)
        ensures
            r == AddressMode::Absolute(opcode).address(*old(cpu), *mem),
            *final(cpu) == old(cpu).advanced(2),
    {
        proof {
            reveal(AddressMode::address);
        }
        let address = Self::next_word(cpu, mem);
        let jump = opcode == 0x4C || opcode == 0x5C || opcode == 0x6C || opcode == 0x7C
            || opcode == 0xDC || opcode == 0x20 || opcode == 0xFC;
        let bank = if jump {
            cpu.pbr()
        } else {
            cpu.dbr()
        };
        (bank, address)
    }

    fn absolute_indexed<M: Mem>(cpu: &mut CPU, mem: &M, index: u16) -> (r: MemoryAddress)
        ensures
            r == indexed((old(cpu).regs.dbr, word(old(cpu).operand(*mem, 1), old(cpu).operand(*mem, 0))), index),
            *final(cpu) == old(cpu).advanced(2),
    {
        let address = Self::next_word(cpu, mem);
        Self::add_index_to_address((cpu.dbr(), address), index)
    }

    fn absolute_indirect<M: Mem>(cpu: &mut CPU, mem: &M) -> (r: MemoryAddress)
        ensures
            r == AddressMode::AbsoluteIndirect.address(*old(cpu), *mem),
            *final(cpu) == old(cpu).advanced(2),
    {
        proof {
            reveal(AddressMode::address);
        }
        let p = Self::next_word(cpu, mem);
        let lo = mem.load(0, p);
        let hi = mem.load(0, add16(p, 1));
        (cpu.pbr(), make_word(hi, lo))
    }

    fn long_at<M: Mem>(mem: &M, p: u16) -> (r: MemoryAddress)
        ensures
            r == pointed_long(*mem, p),
    {
        let lo = mem.load(0, p);
        let md = mem.load(0, add16(p, 1));
        let hi = mem.load(0, add16(p, 2));
        (hi, make_word(md, lo))
    }

    fn absolute_indirect_long<M: Mem>(cpu: &mut CPU, mem: &M) -> (r: MemoryAddress)
        ensures
            r == AddressMode::AbsoluteIndirectLong.address(*old(cpu), *mem),
            *final(cpu) == old(cpu).advanced(2),
    {
        proof {
            reveal(AddressMode::address);
        }
        let p = Self::next_word(cpu, mem);
        Self::long_at(mem, p)
    }

    fn absolute_indexed_indirect<M: Mem>(cpu: &mut CPU, mem: &M) -> (r: MemoryAddress)
        ensures
            r == AddressMode::AbsoluteIndexedIndirect.address(*old(cpu), *mem),
            *final(cpu) == old(cpu).advanced(2),
    {
        proof {
            reveal(AddressMode::address);
        }
        let base = Self::next_word(cpu, mem);
        let p = add16(base, cpu.x());
        let lo = mem.load(cpu.pbr(), p);
        let hi = mem.load(cpu.pbr(), add16(p, 1));
        (cpu.pbr(), make_word(hi, lo))
    }

    fn pointer(cpu: &CPU, ll: u8, index: u16) -> (r: (u16, u16))
        ensures
            r == direct_pointer(*cpu, ll, index),
    {
        if cpu.is_emulation() && cpu.dl() == 0 {
            let lo = add8(ll, low(index));
            let hi = add8(lo, 1);
            proof {
                lemma_wrap8_add(index as int, ll as int);
                lemma_wrap8_add(ll + index, 1);
            }
            (make_word(cpu.dh(), lo), make_word(cpu.dh(), hi))
        } else {
            let lo = add16(add16(cpu.d(), ll as u16), index);
            proof {
                lemma_wrap16_add(cpu.regs.d + ll, index as int);
                lemma_wrap16_add(cpu.regs.d + ll + index, 1);
            }
            (lo, add16(lo, 1))
        }
    }

    fn direct<M: Mem>(cpu: &mut CPU, mem: &M, opcode: u8) -> (r: MemoryAddress)
        ensures
            r == AddressMode::Direct(opcode).address(*old(cpu), *mem),
            *final(cpu) == old(cpu).advanced(1),
    {
        proof {
            reveal(AddressMode::address);
        }
        let lo = cpu.next_b(mem);
        if opcode != PEI_OPCODE && cpu.is_emulation() && cpu.dl() == 0 {
            (0, make_word(cpu.dh(), lo))
        } else {
            (0, add16(cpu.d(), lo as u16))
        }
    }

    fn direct_indexed<M: Mem>(cpu: &mut CPU, mem: &M, index: u16) -> (r: MemoryAddress)
        ensures
            r == (0u8, direct_pointer(*old(cpu), old(cpu).operand(*mem, 0), index).0),
            *final(cpu) == old(cpu).advanced(1),
    {
        let lo = cpu.next_b(mem);
        (0, Self::pointer(cpu, lo, index).0)
    }

    fn direct_indirect<M: Mem>(cpu: &mut CPU, mem: &M) -> (r: MemoryAddress)
        ensures
            r == AddressMode::DirectIndirect.address(*old(cpu), *mem),
            *final(cpu) == old(cpu).advanced(1),
    {
        proof {
            reveal(AddressMode::address);
        }
        let lo = cpu.next_b(mem);
        let (pointer_lo, pointer_hi) = Self::pointer(cpu, lo, 0);
        let data_lo = mem.load(0, pointer_lo);
        let data_hi = mem.load(0, pointer_hi);
        (cpu.dbr(), make_word(data_hi, data_lo))
    }

    fn direct_indirect_long<M: Mem>(cpu: &mut CPU, mem: &M) -> (r: MemoryAddress)
        ensures
            r == AddressMode::DirectIndirectLong.address(*old(cpu), *mem),
            *final(cpu) == old(cpu).advanced(1),
    {
        proof {
            reveal(AddressMode::address);
        }
        let lo = cpu.next_b(mem);
        Self::long_at(mem, add16(cpu.dbr() as u16, lo as u16))
    }

    fn direct_indexed_indirect<M: Mem>(cpu: &mut CPU, mem: &M) -> (r: MemoryAddress)
        ensures
            r == AddressMode::DirectIndexedIndirect.address(*old(cpu), *mem),
            *final(cpu) == old(cpu).advanced(1),
    {
        proof {
            reveal(AddressMode::address);
        }
        let lo = cpu.next_b(mem);
        let (pointer_lo, pointer_hi) = Self::pointer(cpu, lo, cpu.x());
        let data_lo = mem.load(0, pointer_lo);
        let data_hi = mem.load(0, pointer_hi);
        (cpu.dbr(), make_word(data_hi, data_lo))
    }

    fn direct_indirect_indexed<M: Mem>(cpu: &mut CPU, mem: &M) -> (r: MemoryAddress)
        ensures
            r == AddressMode::DirectIndirectIndexed.address(*old(cpu), *mem),
            *final(cpu) == old(cpu).advanced(1),
    {
        proof {
            reveal(AddressMode::address);
        }
        let addr = Self::direct_indirect(cpu, mem);
        Self::add_index_to_address(addr, cpu.y())
    }

    fn direct_indirect_indexed_long<M: Mem>(cpu: &mut CPU, mem: &M) -> (r: MemoryAddress)
        ensures
            r == AddressMode::DirectIndirectIndexedLong.address(*old(cpu), *mem),
            *final(cpu) == old(cpu).advanced(1),
    {
        proof {
            reveal(AddressMode::address);
        }
        let addr = Self::direct_indirect_long(cpu, mem);
        Self::add_index_to_address(addr, cpu.y())
    }

    fn immediate(cpu: &mut CPU) -> (r: MemoryAddress)
        ensures
            r == (old(cpu).regs.pbr, old(cpu).regs.pc),
            *final(cpu) == old(cpu).advanced(1),
    {
        let at = (cpu.pbr(), cpu.pc());
        cpu.increment_pc();
        at
    }

    fn absolute_long<M: Mem>(cpu: &mut CPU, mem: &M) -> (r: MemoryAddress)
        ensures
            r == AddressMode::AbsoluteLong.address(*old(cpu), *mem),
            *final(cpu) == old(cpu).advanced(3),
    {
        proof {
            reveal(AddressMode::address);
        }
        let address = Self::next_word(cpu, mem);
        let bank = cpu.next_b(mem);
        (bank, address)
    }

    fn absolute_long_indexed<M: Mem>(cpu: &mut CPU, mem: &M) -> (r: MemoryAddress)
        ensures
            r == AddressMode::AbsoluteLongIndexedX.address(*old(cpu), *mem),
            *final(cpu) == old(cpu).advanced(3),
    {
        proof {
            reveal(AddressMode::address);
        }
        let address = Self::absolute_long(cpu, mem);
        Self::add_index_to_address(address, cpu.x())
    }

    fn relative_8<M: Mem>(cpu: &mut CPU, mem: &M) -> (r: MemoryAddress)
        ensures
            r == AddressMode::Relative8.address(*old(cpu), *mem),
            *final(cpu) == old(cpu).advanced(1),
    {
        proof {
            reveal(AddressMode::address);
        }
        let ghost pc0 = cpu.regs.pc as int;
        let d = cpu.next_b(mem);
        proof {
            lemma_wrap16_add(pc0 + 1, d as int);
            lemma_wrap16_add(pc0 + 1, d - 0x100);
            lemma_wrap16_add(pc0 + 1 + d - 0x100, 0x10000);
        }
        if d <= 0x7F {
            (cpu.pbr(), add16(cpu.pc(), d as u16))
        } else {
            (cpu.pbr(), add16(cpu.pc(), d as u16 + 0xFF00))
        }
    }

    fn relative_16<M: Mem>(cpu: &mut CPU, mem: &M) -> (r: MemoryAddress)
        ensures
            r == AddressMode::Relative16.address(*old(cpu), *mem),
            *final(cpu) == old(cpu).advanced(2),
    {
        proof {
            reveal(AddressMode::address);
        }
        let ghost pc0 = cpu.regs.pc as int;
        let displacement = Self::next_word(cpu, mem);
        proof {
            lemma_wrap16_add(pc0 + 2, displacement as int);
        }
        (cpu.pbr(), add16(cpu.pc(), displacement))
    }

    fn stack_relative<M: Mem>(cpu: &mut CPU, mem: &M) -> (r: MemoryAddress)
        ensures
            r == AddressMode::StackRelative.address(*old(cpu), *mem),
            *final(cpu) == old(cpu).advanced(1),
    {
        proof {
            reveal(AddressMode::address);
        }
        let lo = cpu.next_b(mem);
        (0, add16(lo as u16, cpu.sp()))
    }

    fn stack_relative_indirect_indexed<M: Mem>(cpu: &mut CPU, mem: &M) -> (r: MemoryAddress)
        ensures
            r == AddressMode::StackRelativeIndirectIndexed.address(*old(cpu), *mem),
            *final(cpu) == old(cpu).advanced(1),
    {
        proof {
            reveal(AddressMode::address);
        }
        let lo = cpu.next_b(mem);
        let pointer_lo = add16(lo as u16, cpu.sp());
        let pointer_hi = add16(pointer_lo, 1);
        let addr_lo = mem.load(0, pointer_lo);
        let addr_hi = mem.load(0, pointer_hi);
        Self::add_index_to_address((cpu.dbr(), make_word(addr_hi, addr_lo)), cpu.y())
    }

    /// Resolves the address of an operand, moving the program counter past
    /// the operand bytes. Accumulator, implied and block-move modes name no
    /// single address.
    pub fn get_address_8<M: Mem>(&self, cpu: &mut CPU, mem: &M) -> (r: MemoryAddress)
        requires
            self.has_address(),
        ensures
            r == self.address(*old(cpu), *mem),
            *final(cpu) == old(cpu).advanced(self.len()),
    {
        match *self {
            AddressMode::Immediate => {
                proof {
                    reveal(AddressMode::address);
                }
                Self::immediate(cpu)
            },
            AddressMode::Relative8 => Self::relative_8(cpu, mem),
            AddressMode::Relative16 => Self::relative_16(cpu, mem),
            AddressMode::Absolute(opcode) => Self::absolute(cpu, mem, opcode),
            AddressMode::Direct(opcode) => Self::direct(cpu, mem, opcode),
            AddressMode::DirectIndexedX => {
                proof {
                    reveal(AddressMode::address);
                }
                let x = cpu.x();
                Self::direct_indexed(cpu, mem, x)
            },
            AddressMode::DirectIndexedY => {
                proof {
                    reveal(AddressMode::address);
                }
                let y = cpu.y();
                Self::direct_indexed(cpu, mem, y)
            },
            AddressMode::DirectIndexedIndirect => Self::direct_indexed_indirect(cpu, mem),
            AddressMode::DirectIndirect => Self::direct_indirect(cpu, mem),
            AddressMode::DirectIndirectLong => Self::direct_indirect_long(cpu, mem),
            AddressMode::DirectIndirectIndexed => Self::direct_indirect_indexed(cpu, mem),
            AddressMode::DirectIndirectIndexedLong => Self::direct_indirect_indexed_long(cpu, mem),
            AddressMode::AbsoluteIndexedX => {
                proof {
                    reveal(AddressMode::address);
                }
                let x = cpu.x();
                Self::absolute_indexed(cpu, mem, x)
            },
            AddressMode::AbsoluteIndexedY => {
                proof {
                    reveal(AddressMode::address);
                }
                let y = cpu.y();
                Self::absolute_indexed(cpu, mem, y)
            },
            AddressMode::StackRelative => Self::stack_relative(cpu, mem),
            AddressMode::StackRelativeIndirectIndexed => Self::stack_relative_indirect_indexed(
                cpu,
                mem,
            ),
            AddressMode::AbsoluteLong => Self::absolute_long(cpu, mem),
            AddressMode::AbsoluteLongIndexedX => Self::absolute_long_indexed(cpu, mem),
            AddressMode::AbsoluteIndirect => Self::absolute_indirect(cpu, mem),
            AddressMode::AbsoluteIndirectLong => Self::absolute_indirect_long(cpu, mem),
            AddressMode::AbsoluteIndexedIndirect => Self::absolute_indexed_indirect(cpu, mem),
            AddressMode::Accumulator | AddressMode::Implied | AddressMode::SourceDestination => {
                (0, 0)
            },
        }
    }

    fn page_wrapped_pair<M: Mem>(&self, cpu: &mut CPU, mem: &M) -> (r: (MemoryAddress, MemoryAddress))
        requires
            self.has_address(),
        ensures
            r == (self.address(*old(cpu), *mem), next_page_wrapped(self.address(*old(cpu), *mem))),
            *final(cpu) == old(cpu).advanced(self.len()),
    {
        let lo = self.get_address_8(cpu, mem);
        (lo, Self::increment_addr_with_page_wrapping(lo))
    }

    fn bank_wrapped_pair<M: Mem>(&self, cpu: &mut CPU, mem: &M) -> (r: (MemoryAddress, MemoryAddress))
        requires
            self.has_address(),
        ensures
            r == (self.address(*old(cpu), *mem), next_bank_wrapped(self.address(*old(cpu), *mem))),
            *final(cpu) == old(cpu).advanced(self.len()),
    {
        let lo = self.get_address_8(cpu, mem);
        (lo, Self::increment_addr_with_bank_wrapping(lo))
    }

    /// Resolves the two addresses of a 16-bit operand (or of a block move),
    /// moving the program counter past the operand bytes.
    pub fn get_address_16<M: Mem>(&self, cpu: &mut CPU, mem: &M) -> (r: (
        MemoryAddress,
        MemoryAddress,
    ))
        requires
            self.has_pair(),
        ensures
            r == self.pair(*old(cpu), *mem),
            *final(cpu) == old(cpu).advanced(self.len16()),
    {
        match *self {
            AddressMode::Immediate => {
                proof {
                    reveal(AddressMode::address);
                }
                let lo = Self::immediate(cpu);
                let hi = Self::immediate(cpu);
                (lo, hi)
            },
            AddressMode::SourceDestination => {
                let tt = cpu.next_b(mem);
                let ss = cpu.next_b(mem);
                ((ss, cpu.x()), (tt, cpu.y()))
            },
            AddressMode::Direct(_) | AddressMode::DirectIndexedX | AddressMode::DirectIndexedY
            | AddressMode::StackRelative => self.page_wrapped_pair(cpu, mem),
            _ => self.bank_wrapped_pair(cpu, mem),
        }
    }
}

} // verus!
