use vstd::prelude::*;
use crate::address_mode::AddressMode;
use crate::arith::{
    add_overflow, add_with_carry, adc_result, carry_value, modulus, overflow_of_add,
    overflow_of_sub, sbc_result, sub_overflow, subtract_with_carry,
};
use crate::cpu::{live, live_part, merge, merge_into, pulled, pushed, stack_down, Reg, RunState, CPU};
use crate::memory::{written16, written8, Mem, MemoryAddress};
use crate::registers::Registers;
use crate::status::{Flags, StatusFlags};
use crate::word::{add16, hi_byte, high, lemma_bytes_word, lo_byte, low, make_word, sub16, sub8, word, wrap16};

verus! {

/// `m1` is `m0` with `v` written at the address pair `at`: both bytes when
/// wide, else its low byte at `at.0`.
pub open spec fn stored<M: Mem>(
    m0: M,
    m1: M,
    at: (MemoryAddress, MemoryAddress),
    v: u16,
    wide: bool,
) -> bool {
    if wide {
        written16(m0, m1, at.0, at.1, v)
    } else {
        written8(m0, m1, at.0, lo_byte(v))
    }
}

/// The read-modify-write operations that shift or count.
#[derive(Clone, Copy, Debug, PartialEq, Eq, Structural)]
pub enum Modify {
    Inc,
    Dec,
    Asl,
    Lsr,
    Rol,
    Ror,
}

/// The logical operations on the accumulator.
#[derive(Clone, Copy, Debug, PartialEq, Eq, Structural)]
pub enum Logic {
    And,
    Eor,
    Ora,
}

/// The result of a counting or shifting operation on the live value `v`
/// with carry `c`, and the carry after it (kept by INC and DEC; the bit
/// shifted out for the shifts and rotations).
#[verifier::opaque]
pub open spec fn modified(k: Modify, v: u16, c: bool, wide: bool) -> (u16, bool) {
    let m = modulus(wide);
    let half = m / 2;
    match k {
        Modify::Inc => (((v + 1) % m) as u16, c),
        Modify::Dec => (((v - 1) % m) as u16, c),
        Modify::Asl => (((v * 2) % m) as u16, v >= half),
        Modify::Lsr => ((v / 2) as u16, v % 2 == 1),
        Modify::Rol => (((v * 2 + carry_value(c)) % m) as u16, v >= half),
        Modify::Ror => ((v / 2 + carry_value(c) * half) as u16, v % 2 == 1),
    }
}

pub open spec fn logic(k: Logic, a: u16, v: u16) -> u16 {
    match k {
        Logic::And => a & v,
        Logic::Eor => a ^ v,
        Logic::Ora => a | v,
    }
}

/// Binary ADC at eight bits leaves `(a + v + c) mod 2^8` in the low byte of
/// the accumulator and sets carry exactly when the sum reaches 2^8.
pub proof fn lemma_adc_binary_8(c: CPU, v: u8)
    requires
        c.regs.p.accumulator_width,
        !c.regs.p.decimal_mode,
    ensures
        ({
            let s = lo_byte(c.regs.a) + v + carry_value(c.regs.p.carry);
            &&& lo_byte(c.added(v as u16).regs.a) == s % 0x100
            &&& c.added(v as u16).regs.p.carry == (s >= 0x100)
        }),
{
    let s = lo_byte(c.regs.a) + v + carry_value(c.regs.p.carry);
    lemma_bytes_word(crate::word::hi_byte(c.regs.a), (s % 0x100) as u8);
}

pub fn modify(k: Modify, v: u16, c: bool, wide: bool) -> (r: (u16, bool))
    requires
        v < modulus(wide),
    ensures
        r == modified(k, v, c, wide),
{
    reveal(modified);
    let m: u32 = if wide {
        0x10000
    } else {
        0x100
    };
    let half: u32 = m / 2;
    let v32 = v as u32;
    let ci: u32 = if c {
        1
    } else {
        0
    };
    match k {
        Modify::Inc => (((v32 + 1) % m) as u16, c),
        Modify::Dec => {
            proof {
                vstd::arithmetic::div_mod::lemma_mod_add_multiples_vanish(v - 1, m as int);
            }
            (((v32 + m - 1) % m) as u16, c)
        },
        Modify::Asl => (((v32 * 2) % m) as u16, v32 >= half),
        Modify::Lsr => ((v32 / 2) as u16, v32 % 2 == 1),
        Modify::Rol => (((v32 * 2 + ci) % m) as u16, v32 >= half),
        Modify::Ror => ((v32 / 2 + ci * half) as u16, v32 % 2 == 1),
    }
}

impl CPU {
    pub open spec fn after_load<M: Mem>(self, r: Reg, am: AddressMode, mem: M) -> CPU {
        let w = self.wide(r);
        let v = self.read(am, mem, w);
        self.past(am, w).set_reg(r, merge(self.reg(r), v, w)).nz(v, w)
    }

    pub open spec fn after_compare<M: Mem>(self, r: Reg, am: AddressMode, mem: M) -> CPU {
        let w = self.wide(r);
        let v = self.read(am, mem, w);
        let x = live(self.reg(r), w);
        self.past(am, w).with_flags(
            Flags {
                carry: x >= v,
                zero: x == v,
                negative: (x - v) % modulus(w) >= modulus(w) / 2,
                ..self.regs.p
            },
        )
    }

    /// The state after ADC of the live operand `v` at the accumulator's width.
    pub open spec fn added(self, v: u16) -> CPU {
        let w = self.wide(Reg::A);
        let a0 = live(self.regs.a, w);
        let r = adc_result(a0, v, self.regs.p.carry, self.regs.p.decimal_mode, w);
        self.with_flags(
            Flags {
                carry: r.1,
                overflow: add_overflow(a0, v, self.regs.p.carry, w),
                ..self.regs.p
            },
        ).set_reg(Reg::A, merge(self.regs.a, r.0, w)).nz(r.0, w)
    }

    /// The state after SBC of the live operand `v` at the accumulator's width.
    pub open spec fn subtracted(self, v: u16) -> CPU {
        let w = self.wide(Reg::A);
        let a0 = live(self.regs.a, w);
        let r = sbc_result(a0, v, self.regs.p.carry, self.regs.p.decimal_mode, w);
        self.with_flags(
            Flags {
                carry: r.1,
                overflow: sub_overflow(a0, v, self.regs.p.carry, w),
                ..self.regs.p
            },
        ).set_reg(Reg::A, merge(self.regs.a, r.0, w)).nz(r.0, w)
    }

    pub open spec fn after_logic<M: Mem>(self, k: Logic, am: AddressMode, mem: M) -> CPU {
        let w = self.wide(Reg::A);
        let r = logic(k, live(self.regs.a, w), self.read(am, mem, w));
        self.past(am, w).set_reg(Reg::A, merge(self.regs.a, r, w)).nz(r, w)
    }

    pub open spec fn after_bit<M: Mem>(self, am: AddressMode, mem: M) -> CPU {
        let w = self.wide(Reg::A);
        let v = self.read(am, mem, w);
        let half = modulus(w) / 2;
        let p = Flags { zero: live(self.regs.a, w) & v == 0, ..self.regs.p };
        self.past(am, w).with_flags(
            if am is Immediate {
                p
            } else {
                Flags { negative: v >= half, overflow: (v as int) % half >= half / 2, ..p }
            },
        )
    }

    /// The value a counting or shifting operation produces.
    pub open spec fn modify_result<M: Mem>(self, k: Modify, am: AddressMode, mem: M) -> (
        u16,
        bool,
    ) {
        let w = self.wide(Reg::A);
        let v = if am is Accumulator {
            live(self.regs.a, w)
        } else {
            self.read(am, mem, w)
        };
        modified(k, v, self.regs.p.carry, w)
    }

    pub open spec fn after_modify<M: Mem>(self, k: Modify, am: AddressMode, mem: M) -> CPU {
        let w = self.wide(Reg::A);
        let r = self.modify_result(k, am, mem);
        let c = if am is Accumulator {
            self.set_reg(Reg::A, merge(self.regs.a, r.0, w))
        } else {
            self.past(am, w)
        };
        c.with_flags(Flags { carry: r.1, ..self.regs.p }).nz(r.0, w)
    }

    /// The state after INX, INY, DEX or DEY.
    pub open spec fn after_count(self, r: Reg, k: Modify) -> CPU {
        let w = self.wide(r);
        let v = modified(k, live(self.reg(r), w), self.regs.p.carry, w).0;
        self.set_reg(r, merge(self.reg(r), v, w)).nz(v, w)
    }

    /// The value that TSB (`set`) or TRB writes back.
    pub open spec fn test_bits_result<M: Mem>(self, set: bool, am: AddressMode, mem: M) -> u16 {
        let w = self.wide(Reg::A);
        let a0 = live(self.regs.a, w);
        let v = self.read(am, mem, w);
        if set {
            a0 | v
        } else {
            !a0 & v
        }
    }

    pub open spec fn after_test_bits<M: Mem>(self, am: AddressMode, mem: M) -> CPU {
        let w = self.wide(Reg::A);
        let p = Flags { zero: live(self.regs.a, w) & self.read(am, mem, w) == 0, ..self.regs.p };
        self.past(am, w).with_flags(p)
    }

    fn load_reg<M: Mem>(&mut self, r: Reg, am: AddressMode, mem: &M)
        requires
            am.is_data(),
        ensures
            *final(self) == old(self).after_load(r, am, *mem),
            old(self).wf() ==> final(self).wf(),
    {
        let w = self.is_wide(r);
        let v = self.load_w(&am, mem, w);
        let old_value = self.get_reg(r);
        self.put_reg(r, merge_into(old_value, v, w));
        self.set_nz(v, w);
    }

    pub fn lda<M: Mem>(&mut self, am: AddressMode, mem: &M)
        requires
            am.is_data(),
        ensures
            *final(self) == old(self).after_load(Reg::A, am, *mem),
            old(self).wf() ==> final(self).wf(),
    {
        self.load_reg(Reg::A, am, mem);
    }

    pub fn ldx<M: Mem>(&mut self, am: AddressMode, mem: &M)
        requires
            am.is_data(),
        ensures
            *final(self) == old(self).after_load(Reg::X, am, *mem),
            old(self).wf() ==> final(self).wf(),
    {
        self.load_reg(Reg::X, am, mem);
    }

    pub fn ldy<M: Mem>(&mut self, am: AddressMode, mem: &M)
        requires
            am.is_data(),
        ensures
            *final(self) == old(self).after_load(Reg::Y, am, *mem),
            old(self).wf() ==> final(self).wf(),
    {
        self.load_reg(Reg::Y, am, mem);
    }

    /// Writes `v` at the operand of `am` at the given width.
    fn store_value<M: Mem>(&mut self, am: AddressMode, mem: &mut M, v: u16, wide: bool)
        requires
            am.is_data(),
        ensures
            stored(*old(mem), *final(mem), old(self).target(am, *old(mem), wide), v, wide),
            *final(self) == old(self).past(am, wide),
    {
        let at = self.resolve(&am, mem, wide);
        CPU::store_at(mem, at, v, wide);
    }

    pub fn sta<M: Mem>(&mut self, am: AddressMode, mem: &mut M)
        requires
            am.is_data(),
        ensures
            stored(
                *old(mem),
                *final(mem),
                old(self).target(am, *old(mem), old(self).wide(Reg::A)),
                old(self).regs.a,
                old(self).wide(Reg::A),
            ),
            *final(self) == old(self).past(am, old(self).wide(Reg::A)),
    {
        let w = self.is_wide(Reg::A);
        let v = self.regs.a;
        self.store_value(am, mem, v, w);
    }

    pub fn stx<M: Mem>(&mut self, am: AddressMode, mem: &mut M)
        requires
            am.is_data(),
        ensures
            stored(
                *old(mem),
                *final(mem),
                old(self).target(am, *old(mem), old(self).wide(Reg::X)),
                old(self).regs.x,
                old(self).wide(Reg::X),
            ),
            *final(self) == old(self).past(am, old(self).wide(Reg::X)),
    {
        let w = self.is_wide(Reg::X);
        let v = self.regs.x;
        self.store_value(am, mem, v, w);
    }

    pub fn sty<M: Mem>(&mut self, am: AddressMode, mem: &mut M)
        requires
            am.is_data(),
        ensures
            stored(
                *old(mem),
                *final(mem),
                old(self).target(am, *old(mem), old(self).wide(Reg::Y)),
                old(self).regs.y,
                old(self).wide(Reg::Y),
            ),
            *final(self) == old(self).past(am, old(self).wide(Reg::Y)),
    {
        let w = self.is_wide(Reg::Y);
        let v = self.regs.y;
        self.store_value(am, mem, v, w);
    }

    pub fn stz<M: Mem>(&mut self, am: AddressMode, mem: &mut M)
        requires
            am.is_data(),
        ensures
            stored(
                *old(mem),
                *final(mem),
                old(self).target(am, *old(mem), old(self).wide(Reg::A)),
                0,
                old(self).wide(Reg::A),
            ),
            *final(self) == old(self).past(am, old(self).wide(Reg::A)),
    {
        let w = self.is_wide(Reg::A);
        self.store_value(am, mem, 0, w);
    }

    /// Sets carry, zero and negative as a comparison of `a` with `b` does:
    /// carry when `a >= b`, zero when they are equal, negative from the high
    /// bit of the difference.
    pub fn set_flags_for_cmp(&mut self, a: u16, b: u16, wide: bool)
        requires
            !wide ==> a < 0x100 && b < 0x100,
        ensures
            *final(self) == old(self).with_flags(
                Flags {
                    carry: a >= b,
                    zero: a == b,
                    negative: (a - b) % modulus(wide) >= modulus(wide) / 2,
                    ..old(self).regs.p
                },
            ),
    {
        self.regs.p.carry = a >= b;
        self.regs.p.zero = a == b;
        if wide {
            self.regs.p.negative = sub16(a, b) >= 0x8000;
        } else {
            self.regs.p.negative = sub8(a as u8, b as u8) >= 0x80;
        }
    }

    fn compare<M: Mem>(&mut self, r: Reg, am: AddressMode, mem: &M)
        requires
            am.is_data(),
        ensures
            *final(self) == old(self).after_compare(r, am, *mem),
            old(self).wf() ==> final(self).wf(),
    {
        let w = self.is_wide(r);
        let x = live_part(self.get_reg(r), w);
        let v = self.load_w(&am, mem, w);
        self.set_flags_for_cmp(x, v, w);
    }

    pub fn cmp<M: Mem>(&mut self, am: AddressMode, mem: &M)
        requires
            am.is_data(),
        ensures
            *final(self) == old(self).after_compare(Reg::A, am, *mem),
            old(self).wf() ==> final(self).wf(),
    {
        self.compare(Reg::A, am, mem);
    }

    pub fn cpx<M: Mem>(&mut self, am: AddressMode, mem: &M)
        requires
            am.is_data(),
        ensures
            *final(self) == old(self).after_compare(Reg::X, am, *mem),
            old(self).wf() ==> final(self).wf(),
    {
        self.compare(Reg::X, am, mem);
    }

    pub fn cpy<M: Mem>(&mut self, am: AddressMode, mem: &M)
        requires
            am.is_data(),
        ensures
            *final(self) == old(self).after_compare(Reg::Y, am, *mem),
            old(self).wf() ==> final(self).wf(),
    {
        self.compare(Reg::Y, am, mem);
    }

    /// ADC at the accumulator's 8-bit width.
    #[verifier::spinoff_prover]
    #[verifier::rlimit(30)]
    pub fn adc_8(&mut self, to_add: u8)
        requires
            old(self).regs.p.accumulator_width,
        ensures
            *final(self) == old(self).added(to_add as u16),
            !old(self).regs.p.decimal_mode ==> {
                let s = lo_byte(old(self).regs.a) + to_add + carry_value(old(self).regs.p.carry);
                &&& lo_byte(final(self).regs.a) == s % 0x100
                &&& final(self).regs.p.carry == (s >= 0x100)
            },
            old(self).wf() ==> final(self).wf(),
    {
        let a0 = live_part(self.regs.a, false);
        let c = self.regs.p.carry;
        let (r, cout) = add_with_carry(a0, to_add as u16, c, self.regs.p.decimal_mode, false);
        self.regs.p.overflow = overflow_of_add(a0, to_add as u16, c, false);
        self.regs.p.carry = cout;
        self.regs.a = merge_into(self.regs.a, r, false);
        self.set_nz(r, false);
        proof {
            if !old(self).regs.p.decimal_mode {
                lemma_adc_binary_8(*old(self), to_add);
            }
        }
    }

    /// ADC at the accumulator's 16-bit width.
    pub fn adc_16(&mut self, to_add: u16)
        requires
            !old(self).regs.p.accumulator_width,
        ensures
            *final(self) == old(self).added(to_add),
            !old(self).regs.p.decimal_mode ==> {
                let s = old(self).regs.a + to_add + carry_value(old(self).regs.p.carry);
                &&& final(self).regs.a == s % 0x10000
                &&& final(self).regs.p.carry == (s >= 0x10000)
            },
            old(self).wf() ==> final(self).wf(),
    {
        let a0 = self.regs.a;
        let c = self.regs.p.carry;
        let (r, cout) = add_with_carry(a0, to_add, c, self.regs.p.decimal_mode, true);
        self.regs.p.overflow = overflow_of_add(a0, to_add, c, true);
        self.regs.p.carry = cout;
        self.regs.a = r;
        self.set_nz(r, true);
    }

    pub open spec fn after_adc<M: Mem>(self, am: AddressMode, mem: M) -> CPU {
        let w = self.wide(Reg::A);
        self.past(am, w).added(self.read(am, mem, w))
    }

    pub open spec fn after_sbc<M: Mem>(self, am: AddressMode, mem: M) -> CPU {
        let w = self.wide(Reg::A);
        self.past(am, w).subtracted(self.read(am, mem, w))
    }

    pub fn adc<M: Mem>(&mut self, am: AddressMode, mem: &M)
        requires
            am.is_data(),
        ensures
            *final(self) == old(self).after_adc(am, *mem),
            old(self).wf() ==> final(self).wf(),
    {
        let w = self.is_wide(Reg::A);
        let v = self.load_w(&am, mem, w);
        if w {
            self.adc_16(v);
        } else {
            self.adc_8(v as u8);
        }
    }

    /// SBC at the accumulator's 8-bit width.
    pub fn sbc_8(&mut self, to_sub: u8)
        requires
            old(self).regs.p.accumulator_width,
        ensures
            *final(self) == old(self).subtracted(to_sub as u16),
            old(self).wf() ==> final(self).wf(),
    {
        let a0 = live_part(self.regs.a, false);
        let c = self.regs.p.carry;
        let (r, cout) = subtract_with_carry(a0, to_sub as u16, c, self.regs.p.decimal_mode, false);
        self.regs.p.overflow = overflow_of_sub(a0, to_sub as u16, c, false);
        self.regs.p.carry = cout;
        self.regs.a = merge_into(self.regs.a, r, false);
        self.set_nz(r, false);
    }

    /// SBC at the accumulator's 16-bit width.
    pub fn sbc_16(&mut self, to_sub: u16)
        requires
            !old(self).regs.p.accumulator_width,
        ensures
            *final(self) == old(self).subtracted(to_sub),
            !old(self).regs.p.decimal_mode ==> {
                let s = old(self).regs.a - to_sub - (1 - carry_value(old(self).regs.p.carry));
                &&& final(self).regs.a == s % 0x10000
                &&& final(self).regs.p.carry == (s >= 0)
            },
            old(self).wf() ==> final(self).wf(),
    {
        let a0 = self.regs.a;
        let c = self.regs.p.carry;
        let (r, cout) = subtract_with_carry(a0, to_sub, c, self.regs.p.decimal_mode, true);
        self.regs.p.overflow = overflow_of_sub(a0, to_sub, c, true);
        self.regs.p.carry = cout;
        self.regs.a = r;
        self.set_nz(r, true);
    }

    pub fn sbc<M: Mem>(&mut self, am: AddressMode, mem: &M)
        requires
            am.is_data(),
        ensures
            *final(self) == old(self).after_sbc(am, *mem),
            old(self).wf() ==> final(self).wf(),
    {
        let w = self.is_wide(Reg::A);
        let v = self.load_w(&am, mem, w);
        if w {
            self.sbc_16(v);
        } else {
            self.sbc_8(v as u8);
        }
    }

    fn logic_op<M: Mem>(&mut self, k: Logic, am: AddressMode, mem: &M)
        requires
            am.is_data(),
        ensures
            *final(self) == old(self).after_logic(k, am, *mem),
            old(self).wf() ==> final(self).wf(),
    {
        let w = self.is_wide(Reg::A);
        let a0 = live_part(self.regs.a, w);
        let v = self.load_w(&am, mem, w);
        let r = match k {
            Logic::And => a0 & v,
            Logic::Eor => a0 ^ v,
            Logic::Ora => a0 | v,
        };
        self.regs.a = merge_into(self.regs.a, r, w);
        self.set_nz(r, w);
    }

    pub fn and<M: Mem>(&mut self, am: AddressMode, mem: &M)
        requires
            am.is_data(),
        ensures
            *final(self) == old(self).after_logic(Logic::And, am, *mem),
            old(self).wf() ==> final(self).wf(),
    {
        self.logic_op(Logic::And, am, mem);
    }

    pub fn eor<M: Mem>(&mut self, am: AddressMode, mem: &M)
        requires
            am.is_data(),
        ensures
            *final(self) == old(self).after_logic(Logic::Eor, am, *mem),
            old(self).wf() ==> final(self).wf(),
    {
        self.logic_op(Logic::Eor, am, mem);
    }

    pub fn ora<M: Mem>(&mut self, am: AddressMode, mem: &M)
        requires
            am.is_data(),
        ensures
            *final(self) == old(self).after_logic(Logic::Ora, am, *mem),
            old(self).wf() ==> final(self).wf(),
    {
        self.logic_op(Logic::Ora, am, mem);
    }

    /// BIT: zero from the accumulator AND the operand; outside immediate
    /// mode, negative and overflow from the operand's two top bits.
    pub fn bit<M: Mem>(&mut self, am: AddressMode, mem: &M)
        requires
            am.is_data(),
        ensures
            *final(self) == old(self).after_bit(am, *mem),
            old(self).wf() ==> final(self).wf(),
    {
        let w = self.is_wide(Reg::A);
        let a0 = live_part(self.regs.a, w);
        let v = self.load_w(&am, mem, w);
        let half: u16 = if w {
            0x8000
        } else {
            0x80
        };
        let negative = v >= half;
        let overflow = v % half >= half / 2;
        proof {
            assert(half as int == modulus(w) / 2);
        }
        self.regs.p.zero = a0 & v == 0;
        if !(am == AddressMode::Immediate) {
            self.regs.p.negative = negative;
            self.regs.p.overflow = overflow;
        }
    }

    /// TSB (`set`) or TRB: writes the operand with the accumulator's bits
    /// set or cleared; zero from the accumulator AND the operand.
    fn test_bits<M: Mem>(&mut self, set: bool, am: AddressMode, mem: &mut M)
        requires
            am.is_data(),
        ensures
            *final(self) == old(self).after_test_bits(am, *old(mem)),
            stored(
                *old(mem),
                *final(mem),
                old(self).target(am, *old(mem), old(self).wide(Reg::A)),
                old(self).test_bits_result(set, am, *old(mem)),
                old(self).wide(Reg::A),
            ),
            old(self).wf() ==> final(self).wf(),
    {
        let w = self.is_wide(Reg::A);
        let a0 = live_part(self.regs.a, w);
        let at = self.resolve(&am, mem, w);
        let v = CPU::load_at(mem, at, w);
        let result = if set {
            a0 | v
        } else {
            !a0 & v
        };
        self.regs.p.zero = a0 & v == 0;
        CPU::store_at(mem, at, result, w);
    }

    pub fn tsb<M: Mem>(&mut self, am: AddressMode, mem: &mut M)
        requires
            am.is_data(),
        ensures
            *final(self) == old(self).after_test_bits(am, *old(mem)),
            stored(
                *old(mem),
                *final(mem),
                old(self).target(am, *old(mem), old(self).wide(Reg::A)),
                old(self).test_bits_result(true, am, *old(mem)),
                old(self).wide(Reg::A),
            ),
            old(self).wf() ==> final(self).wf(),
    {
        self.test_bits(true, am, mem);
    }

    pub fn trb<M: Mem>(&mut self, am: AddressMode, mem: &mut M)
        requires
            am.is_data(),
        ensures
            *final(self) == old(self).after_test_bits(am, *old(mem)),
            stored(
                *old(mem),
                *final(mem),
                old(self).target(am, *old(mem), old(self).wide(Reg::A)),
                old(self).test_bits_result(false, am, *old(mem)),
                old(self).wide(Reg::A),
            ),
            old(self).wf() ==> final(self).wf(),
    {
        self.test_bits(false, am, mem);
    }

    /// A counting or shifting operation on the accumulator or, through
    /// `am`, on memory.
    fn modify_op<M: Mem>(&mut self, k: Modify, am: AddressMode, mem: &mut M)
        requires
            am is Accumulator || am.is_data(),
        ensures
            *final(self) == old(self).after_modify(k, am, *old(mem)),
            am is Accumulator ==> *final(mem) == *old(mem),
            !(am is Accumulator) ==> stored(
                *old(mem),
                *final(mem),
                old(self).target(am, *old(mem), old(self).wide(Reg::A)),
                old(self).modify_result(k, am, *old(mem)).0,
                old(self).wide(Reg::A),
            ),
            old(self).wf() ==> final(self).wf(),
    {
        if am == AddressMode::Accumulator {
            self.modify_accumulator(k, mem);
        } else {
            self.modify_memory(k, am, mem);
        }
    }

    fn modify_accumulator<M: Mem>(&mut self, k: Modify, mem: &M)
        ensures
            *final(self) == old(self).after_modify(k, AddressMode::Accumulator, *mem),
            old(self).wf() ==> final(self).wf(),
    {
        let w = self.is_wide(Reg::A);
        let c = self.regs.p.carry;
        let a0 = live_part(self.regs.a, w);
        let (r, cout) = modify(k, a0, c, w);
        self.regs.a = merge_into(self.regs.a, r, w);
        self.regs.p.carry = cout;
        self.set_nz(r, w);
    }

    fn modify_memory<M: Mem>(&mut self, k: Modify, am: AddressMode, mem: &mut M)
        requires
            am.is_data(),
        ensures
            *final(self) == old(self).after_modify(k, am, *old(mem)),
            stored(
                *old(mem),
                *final(mem),
                old(self).target(am, *old(mem), old(self).wide(Reg::A)),
                old(self).modify_result(k, am, *old(mem)).0,
                old(self).wide(Reg::A),
            ),
            old(self).wf() ==> final(self).wf(),
    {
        let w = self.is_wide(Reg::A);
        let c = self.regs.p.carry;
        let at = self.resolve(&am, mem, w);
        let v = CPU::load_at(mem, at, w);
        let (r, cout) = modify(k, v, c, w);
        CPU::store_at(mem, at, r, w);
        self.regs.p.carry = cout;
        self.set_nz(r, w);
    }

    pub fn inc<M: Mem>(&mut self, am: AddressMode, mem: &mut M)
        requires
            am is Accumulator || am.is_data(),
        ensures
            *final(self) == old(self).after_modify(Modify::Inc, am, *old(mem)),
            am is Accumulator ==> *final(mem) == *old(mem),
            !(am is Accumulator) ==> stored(
                *old(mem),
                *final(mem),
                old(self).target(am, *old(mem), old(self).wide(Reg::A)),
                old(self).modify_result(Modify::Inc, am, *old(mem)).0,
                old(self).wide(Reg::A),
            ),
            old(self).wf() ==> final(self).wf(),
    {
        self.modify_op(Modify::Inc, am, mem);
    }

    pub fn dec<M: Mem>(&mut self, am: AddressMode, mem: &mut M)
        requires
            am is Accumulator || am.is_data(),
        ensures
            *final(self) == old(self).after_modify(Modify::Dec, am, *old(mem)),
            am is Accumulator ==> *final(mem) == *old(mem),
            !(am is Accumulator) ==> stored(
                *old(mem),
                *final(mem),
                old(self).target(am, *old(mem), old(self).wide(Reg::A)),
                old(self).modify_result(Modify::Dec, am, *old(mem)).0,
                old(self).wide(Reg::A),
            ),
            old(self).wf() ==> final(self).wf(),
    {
        self.modify_op(Modify::Dec, am, mem);
    }

    pub fn asl<M: Mem>(&mut self, am: AddressMode, mem: &mut M)
        requires
            am is Accumulator || am.is_data(),
        ensures
            *final(self) == old(self).after_modify(Modify::Asl, am, *old(mem)),
            am is Accumulator ==> *final(mem) == *old(mem),
            !(am is Accumulator) ==> stored(
                *old(mem),
                *final(mem),
                old(self).target(am, *old(mem), old(self).wide(Reg::A)),
                old(self).modify_result(Modify::Asl, am, *old(mem)).0,
                old(self).wide(Reg::A),
            ),
            old(self).wf() ==> final(self).wf(),
    {
        self.modify_op(Modify::Asl, am, mem);
    }

    pub fn lsr<M: Mem>(&mut self, am: AddressMode, mem: &mut M)
        requires
            am is Accumulator || am.is_data(),
        ensures
            *final(self) == old(self).after_modify(Modify::Lsr, am, *old(mem)),
            am is Accumulator ==> *final(mem) == *old(mem),
            !(am is Accumulator) ==> stored(
                *old(mem),
                *final(mem),
                old(self).target(am, *old(mem), old(self).wide(Reg::A)),
                old(self).modify_result(Modify::Lsr, am, *old(mem)).0,
                old(self).wide(Reg::A),
            ),
            old(self).wf() ==> final(self).wf(),
    {
        self.modify_op(Modify::Lsr, am, mem);
    }

    pub fn rol<M: Mem>(&mut self, am: AddressMode, mem: &mut M)
        requires
            am is Accumulator || am.is_data(),
        ensures
            *final(self) == old(self).after_modify(Modify::Rol, am, *old(mem)),
            am is Accumulator ==> *final(mem) == *old(mem),
            !(am is Accumulator) ==> stored(
                *old(mem),
                *final(mem),
                old(self).target(am, *old(mem), old(self).wide(Reg::A)),
                old(self).modify_result(Modify::Rol, am, *old(mem)).0,
                old(self).wide(Reg::A),
            ),
            old(self).wf() ==> final(self).wf(),
    {
        self.modify_op(Modify::Rol, am, mem);
    }

    pub fn ror<M: Mem>(&mut self, am: AddressMode, mem: &mut M)
        requires
            am is Accumulator || am.is_data(),
        ensures
            *final(self) == old(self).after_modify(Modify::Ror, am, *old(mem)),
            am is Accumulator ==> *final(mem) == *old(mem),
            !(am is Accumulator) ==> stored(
                *old(mem),
                *final(mem),
                old(self).target(am, *old(mem), old(self).wide(Reg::A)),
                old(self).modify_result(Modify::Ror, am, *old(mem)).0,
                old(self).wide(Reg::A),
            ),
            old(self).wf() ==> final(self).wf(),
    {
        self.modify_op(Modify::Ror, am, mem);
    }

    fn count(&mut self, r: Reg, k: Modify)
        requires
            k == Modify::Inc || k == Modify::Dec,
        ensures
            *final(self) == old(self).after_count(r, k),
            old(self).wf() ==> final(self).wf(),
    {
        let w = self.is_wide(r);
        let v0 = self.get_reg(r);
        let c = self.regs.p.carry;
        let (v, _) = modify(k, live_part(v0, w), c, w);
        self.put_reg(r, merge_into(v0, v, w));
        self.set_nz(v, w);
    }

    pub fn inx(&mut self)
        ensures
            *final(self) == old(self).after_count(Reg::X, Modify::Inc),
            old(self).wf() ==> final(self).wf(),
    {
        self.count(Reg::X, Modify::Inc);
    }

    pub fn iny(&mut self)
        ensures
            *final(self) == old(self).after_count(Reg::Y, Modify::Inc),
            old(self).wf() ==> final(self).wf(),
    {
        self.count(Reg::Y, Modify::Inc);
    }

    pub fn dex(&mut self)
        ensures
            *final(self) == old(self).after_count(Reg::X, Modify::Dec),
            old(self).wf() ==> final(self).wf(),
    {
        self.count(Reg::X, Modify::Dec);
    }

    pub fn dey(&mut self)
        ensures
            *final(self) == old(self).after_count(Reg::Y, Modify::Dec),
            old(self).wf() ==> final(self).wf(),
    {
        self.count(Reg::Y, Modify::Dec);
    }

    /// The state with control moved to `t`.
    pub open spec fn jumped(self, t: MemoryAddress) -> CPU {
        CPU { regs: Registers { pbr: t.0, pc: t.1, ..self.regs }, ..self }
    }

    pub open spec fn with_pc(self, pc: u16) -> CPU {
        CPU { regs: Registers { pc: pc, ..self.regs }, ..self }
    }

    /// A branch through a relative mode: the displacement is always
    /// consumed; control moves to the target only when `cond` holds.
    pub open spec fn after_branch<M: Mem>(self, am: AddressMode, cond: bool, mem: M) -> CPU {
        let c = self.advanced(am.len());
        if cond {
            c.jumped(am.address(self, mem))
        } else {
            c
        }
    }

    pub fn branch<M: Mem>(&mut self, am: AddressMode, mem: &M, cond: bool)
        requires
            am is Relative8 || am is Relative16,
        ensures
            *final(self) == old(self).after_branch(am, cond, *mem),
            old(self).wf() ==> final(self).wf(),
    {
        let (bank, address) = am.get_address_8(self, mem);
        if cond {
            self.regs.pbr = bank;
            self.regs.pc = address;
        }
    }

    pub fn bcc<M: Mem>(&mut self, mem: &M)
        ensures
            *final(self) == old(self).after_branch(AddressMode::Relative8, !old(self).regs.p.carry, *mem),
            old(self).wf() ==> final(self).wf(),
    {
        let cond = !self.regs.p.carry;
        self.branch(AddressMode::Relative8, mem, cond);
    }

    pub fn bcs<M: Mem>(&mut self, mem: &M)
        ensures
            *final(self) == old(self).after_branch(AddressMode::Relative8, old(self).regs.p.carry, *mem),
            old(self).wf() ==> final(self).wf(),
    {
        let cond = self.regs.p.carry;
        self.branch(AddressMode::Relative8, mem, cond);
    }

    pub fn beq<M: Mem>(&mut self, mem: &M)
        ensures
            *final(self) == old(self).after_branch(AddressMode::Relative8, old(self).regs.p.zero, *mem),
            old(self).wf() ==> final(self).wf(),
    {
        let cond = self.regs.p.zero;
        self.branch(AddressMode::Relative8, mem, cond);
    }

    pub fn bmi<M: Mem>(&mut self, mem: &M)
        ensures
            *final(self) == old(self).after_branch(AddressMode::Relative8, old(self).regs.p.negative, *mem),
            old(self).wf() ==> final(self).wf(),
    {
        let cond = self.regs.p.negative;
        self.branch(AddressMode::Relative8, mem, cond);
    }

    pub fn bne<M: Mem>(&mut self, mem: &M)
        ensures
            *final(self) == old(self).after_branch(AddressMode::Relative8, !old(self).regs.p.zero, *mem),
            old(self).wf() ==> final(self).wf(),
    {
        let cond = !self.regs.p.zero;
        self.branch(AddressMode::Relative8, mem, cond);
    }

    pub fn bpl<M: Mem>(&mut self, mem: &M)
        ensures
            *final(self) == old(self).after_branch(AddressMode::Relative8, !old(self).regs.p.negative, *mem),
            old(self).wf() ==> final(self).wf(),
    {
        let cond = !self.regs.p.negative;
        self.branch(AddressMode::Relative8, mem, cond);
    }

    pub fn bvc<M: Mem>(&mut self, mem: &M)
        ensures
            *final(self) == old(self).after_branch(AddressMode::Relative8, !old(self).regs.p.overflow, *mem),
            old(self).wf() ==> final(self).wf(),
    {
        let cond = !self.regs.p.overflow;
        self.branch(AddressMode::Relative8, mem, cond);
    }

    pub fn bvs<M: Mem>(&mut self, mem: &M)
        ensures
            *final(self) == old(self).after_branch(AddressMode::Relative8, old(self).regs.p.overflow, *mem),
            old(self).wf() ==> final(self).wf(),
    {
        let cond = self.regs.p.overflow;
        self.branch(AddressMode::Relative8, mem, cond);
    }

    pub fn bra<M: Mem>(&mut self, mem: &M)
        ensures
            *final(self) == old(self).after_branch(AddressMode::Relative8, true, *mem),
            old(self).wf() ==> final(self).wf(),
    {
        let cond = true;
        self.branch(AddressMode::Relative8, mem, cond);
    }

    pub fn brl<M: Mem>(&mut self, mem: &M)
        ensures
            *final(self) == old(self).after_branch(AddressMode::Relative16, true, *mem),
            old(self).wf() ==> final(self).wf(),
    {
        self.branch(AddressMode::Relative16, mem, true);
    }

    /// JMP and JML: control moves to the resolved address, bank included.
    pub fn jmp<M: Mem>(&mut self, am: AddressMode, mem: &M)
        requires
            am.has_address(),
        ensures
            *final(self) == old(self).advanced(am.len()).jumped(am.address(*old(self), *mem)),
            old(self).wf() ==> final(self).wf(),
    {
        let (bank, address) = am.get_address_8(self, mem);
        self.regs.pbr = bank;
        self.regs.pc = address;
    }

    /// The return address that JSR and JSL push: the last byte of the call.
    pub open spec fn return_address(self) -> u16 {
        wrap16(self.regs.pc - 1)
    }

    pub open spec fn after_jsl<M: Mem>(self, mem: M) -> CPU {
        let c = self.advanced(3);
        c.pushed_sp(3).jumped(AddressMode::AbsoluteLong.address(self, mem))
    }

    /// JSL: pushes the program bank and the return address, then jumps long.
    pub fn jsl<M: Mem>(&mut self, mem: &mut M)
        ensures
            *final(self) == old(self).after_jsl(*old(mem)),
            pushed(
                *old(mem),
                *final(mem),
                old(self).regs.sp,
                old(self).emulation(),
                seq![
                    old(self).regs.pbr,
                    hi_byte(old(self).advanced(3).return_address()),
                    lo_byte(old(self).advanced(3).return_address()),
                ],
            ),
            old(self).wf() ==> final(self).wf(),
    {
        let ghost c0 = *self;
        let ghost m0 = *mem;
        let (bank, address) = AddressMode::AbsoluteLong.get_address_8(self, mem);
        let ret = sub16(self.regs.pc, 1);
        let pbr = self.regs.pbr;
        let ghost c1 = *self;
        self.push_b(mem, pbr);
        let ghost m1 = *mem;
        let ghost c2 = *self;
        self.push_w(mem, ret);
        proof {
            crate::cpu::lemma_push_append(m0, m1, *mem, c1.regs.sp, c1.emulation(), seq![pbr], seq![hi_byte(ret), lo_byte(ret)]);
            assert(seq![pbr] + seq![hi_byte(ret), lo_byte(ret)] =~= seq![pbr, hi_byte(ret), lo_byte(ret)]);
            crate::cpu::lemma_stack_down_twice(c1.regs.sp, c1.emulation(), 1, 2);
        }
        self.regs.pbr = bank;
        self.regs.pc = address;
    }

    pub open spec fn after_jsr<M: Mem>(self, am: AddressMode, mem: M) -> CPU {
        let c = self.advanced(am.len());
        c.pushed_sp(2).with_pc(am.address(self, mem).1)
    }

    /// JSR: pushes the return address, then jumps within the program bank.
    pub fn jsr<M: Mem>(&mut self, am: AddressMode, mem: &mut M)
        requires
            am.has_address(),
        ensures
            *final(self) == old(self).after_jsr(am, *old(mem)),
            pushed(
                *old(mem),
                *final(mem),
                old(self).regs.sp,
                old(self).emulation(),
                seq![
                    hi_byte(old(self).advanced(am.len()).return_address()),
                    lo_byte(old(self).advanced(am.len()).return_address()),
                ],
            ),
            old(self).wf() ==> final(self).wf(),
    {
        let (_, address) = am.get_address_8(self, mem);
        let ret = sub16(self.regs.pc, 1);
        self.push_w(mem, ret);
        self.regs.pc = address;
    }

    /// The word pulled first (low byte) and second (high byte).
    pub open spec fn pulled_word<M: Mem>(self, mem: M, first: int) -> u16 {
        word(
            pulled(mem, self.regs.sp, self.emulation(), first + 1),
            pulled(mem, self.regs.sp, self.emulation(), first),
        )
    }

    pub open spec fn after_rts<M: Mem>(self, mem: M) -> CPU {
        self.pulled_sp(2).with_pc(wrap16(self.pulled_word(mem, 1) + 1))
    }

    /// RTS: pulls the return address and continues after it.
    pub fn rts<M: Mem>(&mut self, mem: &M)
        ensures
            *final(self) == old(self).after_rts(*mem),
            old(self).wf() ==> final(self).wf(),
    {
        let pc = self.pull_w(mem);
        self.regs.pc = add16(pc, 1);
    }

    pub open spec fn after_rtl<M: Mem>(self, mem: M) -> CPU {
        self.pulled_sp(3).jumped(
            (
                pulled(mem, self.regs.sp, self.emulation(), 3),
                wrap16(self.pulled_word(mem, 1) + 1),
            ),
        )
    }

    /// RTL: pulls the return address and the program bank.
    pub fn rtl<M: Mem>(&mut self, mem: &M)
        ensures
            *final(self) == old(self).after_rtl(*mem),
            old(self).wf() ==> final(self).wf(),
    {
        let ghost c0 = *self;
        let pc = self.pull_w(mem);
        let pbr = self.pull_b(mem);
        proof {
            crate::cpu::lemma_stack_up_twice(c0.regs.sp, c0.emulation(), 2, 1);
        }
        self.regs.pbr = pbr;
        self.regs.pc = add16(pc, 1);
    }

    pub open spec fn after_rti<M: Mem>(self, mem: M) -> CPU {
        let e = self.emulation();
        let status = StatusFlags { bits: pulled(mem, self.regs.sp, e, 1) };
        let pc = self.pulled_word(mem, 2);
        let c = if e {
            self.pulled_sp(3).with_pc(pc)
        } else {
            self.pulled_sp(4).jumped((pulled(mem, self.regs.sp, e, 4), pc))
        };
        c.with_flags(self.regs.p.loaded(status))
    }

    fn return_from_interrupt<M: Mem>(&mut self, mem: &M)
        ensures
            *final(self) == old(self).after_rti(*mem),
            old(self).wf() ==> final(self).wf(),
    {
        let ghost c0 = *self;
        let status = self.pull_b(mem);
        let pc = self.pull_w(mem);
        proof {
            crate::cpu::lemma_stack_up_twice(c0.regs.sp, c0.emulation(), 1, 2);
            crate::cpu::lemma_stack_up_twice(c0.regs.sp, c0.emulation(), 1, 1);
            crate::cpu::lemma_stack_up_twice(c0.regs.sp, c0.emulation(), 1, 3);
            crate::cpu::lemma_stack_up_twice(c0.regs.sp, c0.emulation(), 3, 1);
        }
        if !self.regs.p.emulation_mode {
            let pbr = self.pull_b(mem);
            self.regs.pbr = pbr;
        }
        self.regs.pc = pc;
        self.regs.p.load_status(StatusFlags { bits: status });
    }

    /// RTI: pulls the status, the program counter and, in native mode, the
    /// program bank.
    pub fn rti<M: Mem>(&mut self, mem: &M)
        ensures
            *final(self) == old(self).after_rti(*mem),
            old(self).wf() ==> final(self).wf(),
    {
        self.return_from_interrupt(mem);
    }

    /// The flags as pushed by BRK (`brk`) or COP: in emulation mode BRK sets
    /// the break bit.
    pub open spec fn interrupt_flags(self, brk: bool) -> Flags {
        if brk && self.emulation() {
            Flags { break_flag: true, ..self.regs.p }
        } else {
            self.regs.p
        }
    }

    /// The bytes that BRK or COP push.
    pub open spec fn interrupt_frame(self, brk: bool) -> Seq<u8> {
        let c = self.advanced(1);
        let status = self.interrupt_flags(brk).status_byte() as u8;
        if self.emulation() {
            seq![hi_byte(c.regs.pc), lo_byte(c.regs.pc), status]
        } else {
            seq![self.regs.pbr, hi_byte(c.regs.pc), lo_byte(c.regs.pc), status]
        }
    }

    pub open spec fn vector(self, brk: bool) -> u16 {
        if self.emulation() {
            if brk {
                0xFFFE
            } else {
                0xFFF4
            }
        } else if brk {
            0xFFE6
        } else {
            0xFFE4
        }
    }

    pub open spec fn after_interrupt(self, brk: bool) -> CPU {
        let c = self.advanced(1).pushed_sp(self.interrupt_frame(brk).len() as int);
        c.with_flags(
            Flags { interrupt_disable: true, decimal_mode: false, ..self.interrupt_flags(brk) },
        ).jumped((0, self.vector(brk)))
    }

    /// BRK (`brk`) or COP: skips the signature byte, pushes the frame, masks
    /// interrupts, leaves decimal mode and enters bank 0 at the vector.
    #[verifier::spinoff_prover]
    #[verifier::rlimit(40)]
    fn software_interrupt<M: Mem>(&mut self, mem: &mut M, brk: bool)
        ensures
            *final(self) == old(self).after_interrupt(brk),
            pushed(
                *old(mem),
                *final(mem),
                old(self).regs.sp,
                old(self).emulation(),
                old(self).interrupt_frame(brk),
            ),
            old(self).wf() ==> final(self).wf(),
    {
        let ghost c0 = *self;
        let ghost m0 = *mem;
        self.increment_pc();
        if brk && self.regs.p.emulation_mode {
            self.regs.p.break_flag = true;
        }
        let status = self.regs.p.to_status();
        let pc = self.regs.pc;
        if self.regs.p.emulation_mode {
            self.push_w(mem, pc);
            let ghost m1 = *mem;
            let ghost c1 = *self;
            self.push_b(mem, status.bits);
            proof {
                crate::cpu::lemma_push_append(m0, m1, *mem, c0.regs.sp, c0.emulation(), seq![hi_byte(pc), lo_byte(pc)], seq![status.bits]);
                assert(seq![hi_byte(pc), lo_byte(pc)] + seq![status.bits] =~= c0.interrupt_frame(brk));
                crate::cpu::lemma_stack_down_twice(c0.regs.sp, c0.emulation(), 2, 1);
            }
        } else {
            let pbr = self.regs.pbr;
            self.push_b(mem, pbr);
            let ghost m1 = *mem;
            self.push_w(mem, pc);
            let ghost m2 = *mem;
            self.push_b(mem, status.bits);
            proof {
                crate::cpu::lemma_push_append(m0, m1, m2, c0.regs.sp, c0.emulation(), seq![pbr], seq![hi_byte(pc), lo_byte(pc)]);
                assert(seq![pbr] + seq![hi_byte(pc), lo_byte(pc)] =~= seq![pbr, hi_byte(pc), lo_byte(pc)]);
                crate::cpu::lemma_stack_down_twice(c0.regs.sp, c0.emulation(), 1, 2);
                crate::cpu::lemma_push_append(m0, m2, *mem, c0.regs.sp, c0.emulation(), seq![pbr, hi_byte(pc), lo_byte(pc)], seq![status.bits]);
                assert(seq![pbr, hi_byte(pc), lo_byte(pc)] + seq![status.bits] =~= c0.interrupt_frame(brk));
                crate::cpu::lemma_stack_down_twice(c0.regs.sp, c0.emulation(), 3, 1);
            }
        }
        self.regs.p.interrupt_disable = true;
        self.regs.p.decimal_mode = false;
        self.regs.pbr = 0;
        self.regs.pc = if self.regs.p.emulation_mode {
            if brk {
                0xFFFE
            } else {
                0xFFF4
            }
        } else if brk {
            0xFFE6
        } else {
            0xFFE4
        };
    }

    pub fn brk<M: Mem>(&mut self, mem: &mut M)
        ensures
            *final(self) == old(self).after_interrupt(true),
            pushed(
                *old(mem),
                *final(mem),
                old(self).regs.sp,
                old(self).emulation(),
                old(self).interrupt_frame(true),
            ),
            old(self).wf() ==> final(self).wf(),
    {
        self.software_interrupt(mem, true);
    }

    pub fn cop<M: Mem>(&mut self, mem: &mut M)
        ensures
            *final(self) == old(self).after_interrupt(false),
            pushed(
                *old(mem),
                *final(mem),
                old(self).regs.sp,
                old(self).emulation(),
                old(self).interrupt_frame(false),
            ),
            old(self).wf() ==> final(self).wf(),
    {
        self.software_interrupt(mem, false);
    }

    pub fn clc(&mut self)
        ensures
            *final(self) == old(self).with_flags(Flags { carry: false, ..old(self).regs.p }),
            old(self).wf() ==> final(self).wf(),
    {
        self.regs.p.carry = false;
    }

    pub fn cld(&mut self)
        ensures
            *final(self) == old(self).with_flags(Flags { decimal_mode: false, ..old(self).regs.p }),
            old(self).wf() ==> final(self).wf(),
    {
        self.regs.p.decimal_mode = false;
    }

    pub fn cli(&mut self)
        ensures
            *final(self) == old(self).with_flags(Flags { interrupt_disable: false, ..old(self).regs.p }),
            old(self).wf() ==> final(self).wf(),
    {
        self.regs.p.interrupt_disable = false;
    }

    pub fn clv(&mut self)
        ensures
            *final(self) == old(self).with_flags(Flags { overflow: false, ..old(self).regs.p }),
            old(self).wf() ==> final(self).wf(),
    {
        self.regs.p.overflow = false;
    }

    pub fn sec(&mut self)
        ensures
            *final(self) == old(self).with_flags(Flags { carry: true, ..old(self).regs.p }),
            old(self).wf() ==> final(self).wf(),
    {
        self.regs.p.carry = true;
    }

    pub fn sed(&mut self)
        ensures
            *final(self) == old(self).with_flags(Flags { decimal_mode: true, ..old(self).regs.p }),
            old(self).wf() ==> final(self).wf(),
    {
        self.regs.p.decimal_mode = true;
    }

    pub fn sei(&mut self)
        ensures
            *final(self) == old(self).with_flags(Flags { interrupt_disable: true, ..old(self).regs.p }),
            old(self).wf() ==> final(self).wf(),
    {
        self.regs.p.interrupt_disable = true;
    }

    /// The status byte with the bits of `mask` cleared (REP, `set` false)
    /// or set (SEP).
    pub open spec fn masked_byte(self, mask: u8, set: bool) -> u8 {
        let b = self.regs.p.status_byte() as u8;
        if set {
            b | mask
        } else {
            b & !mask
        }
    }

    /// The flags after REP (`set` false) or SEP with mask `mask`: the
    /// selected status bits cleared or set; in emulation mode bits 4 and 5
    /// stay set, so both widths stay eight bits and the break bit reads one.
    pub open spec fn masked_flags(self, mask: u8, set: bool) -> Flags {
        let f = self.regs.p.loaded(StatusFlags { bits: self.masked_byte(mask, set) });
        if self.emulation() {
            Flags { break_flag: true, ..f }
        } else {
            f
        }
    }

    pub open spec fn after_mask<M: Mem>(self, set: bool, mem: M) -> CPU {
        self.advanced(1).with_flags(self.masked_flags(self.operand(mem, 0), set))
    }

    fn mask_status<M: Mem>(&mut self, mem: &M, set: bool)
        ensures
            *final(self) == old(self).after_mask(set, *mem),
            final(self).regs.p.status_byte() == if old(self).emulation() {
                old(self).masked_byte(old(self).operand(*mem, 0), set) | 0x30
            } else {
                old(self).masked_byte(old(self).operand(*mem, 0), set)
            },
            old(self).wf() ==> final(self).wf(),
    {
        let mask = self.next_b(mem);
        let status = self.regs.p.to_status();
        let bits = if set {
            status.bits | mask
        } else {
            status.bits & !mask
        };
        self.regs.p.load_status(StatusFlags { bits });
        if self.regs.p.emulation_mode {
            self.regs.p.break_flag = true;
        }
        proof {
            crate::status::lemma_byte_bits(bits);
        }
    }

    /// REP: clears the status bits selected by the immediate mask.
    pub fn rep<M: Mem>(&mut self, mem: &M)
        ensures
            *final(self) == old(self).after_mask(false, *mem),
            final(self).regs.p.status_byte() == if old(self).emulation() {
                old(self).masked_byte(old(self).operand(*mem, 0), false) | 0x30
            } else {
                old(self).masked_byte(old(self).operand(*mem, 0), false)
            },
            old(self).wf() ==> final(self).wf(),
    {
        self.mask_status(mem, false);
    }

    /// SEP: sets the status bits selected by the immediate mask.
    pub fn sep<M: Mem>(&mut self, mem: &M)
        ensures
            *final(self) == old(self).after_mask(true, *mem),
            final(self).regs.p.status_byte() == if old(self).emulation() {
                old(self).masked_byte(old(self).operand(*mem, 0), true) | 0x30
            } else {
                old(self).masked_byte(old(self).operand(*mem, 0), true)
            },
            old(self).wf() ==> final(self).wf(),
    {
        self.mask_status(mem, true);
    }

    /// The bytes that pushing `v` at the given width writes, in order.
    pub open spec fn push_bytes(v: u16, wide: bool) -> Seq<u8> {
        if wide {
            seq![hi_byte(v), lo_byte(v)]
        } else {
            seq![lo_byte(v)]
        }
    }

    pub open spec fn push_len(wide: bool) -> int {
        if wide {
            2
        } else {
            1
        }
    }

    /// Pushes `v` at the given width, high byte first.
    pub fn push_value<M: Mem>(&mut self, mem: &mut M, v: u16, wide: bool)
        ensures
            pushed(*old(mem), *final(mem), old(self).regs.sp, old(self).emulation(), CPU::push_bytes(v, wide)),
            *final(self) == old(self).pushed_sp(CPU::push_len(wide)),
    {
        if wide {
            self.push_w(mem, v);
        } else {
            self.push_b(mem, low(v));
        }
    }

    /// Pushes the 16-bit value of PEA, PEI or PER, high byte first.
    pub fn push_effective<M: Mem>(&mut self, mem: &mut M, v: u16)
        ensures
            pushed(*old(mem), *final(mem), old(self).regs.sp, old(self).emulation(), CPU::push_bytes(v, true)),
            *final(self) == old(self).pushed_sp(2),
    {
        self.push_w(mem, v);
    }

    /// The value pulled at the given width: low byte first.
    pub open spec fn pulled_value<M: Mem>(self, mem: M, wide: bool) -> u16 {
        if wide {
            self.pulled_word(mem, 1)
        } else {
            pulled(mem, self.regs.sp, self.emulation(), 1) as u16
        }
    }

    pub fn pull_value<M: Mem>(&mut self, mem: &M, wide: bool) -> (r: u16)
        ensures
            r == old(self).pulled_value(*mem, wide),
            *final(self) == old(self).pulled_sp(CPU::push_len(wide)),
            !wide ==> r < 0x100,
    {
        if wide {
            self.pull_w(mem)
        } else {
            self.pull_b(mem) as u16
        }
    }

    fn push_reg<M: Mem>(&mut self, mem: &mut M, r: Reg)
        ensures
            pushed(
                *old(mem),
                *final(mem),
                old(self).regs.sp,
                old(self).emulation(),
                CPU::push_bytes(old(self).reg(r), old(self).wide(r)),
            ),
            *final(self) == old(self).pushed_sp(CPU::push_len(old(self).wide(r))),
            old(self).wf() ==> final(self).wf(),
    {
        let w = self.is_wide(r);
        let v = self.get_reg(r);
        self.push_value(mem, v, w);
    }

    pub open spec fn after_pull<M: Mem>(self, r: Reg, mem: M) -> CPU {
        let w = self.wide(r);
        let v = self.pulled_value(mem, w);
        self.pulled_sp(CPU::push_len(w)).set_reg(r, merge(self.reg(r), v, w)).nz(v, w)
    }

    fn pull_reg<M: Mem>(&mut self, mem: &M, r: Reg)
        ensures
            *final(self) == old(self).after_pull(r, *mem),
            old(self).wf() ==> final(self).wf(),
    {
        let w = self.is_wide(r);
        let v = self.pull_value(mem, w);
        let old_value = self.get_reg(r);
        self.put_reg(r, merge_into(old_value, v, w));
        self.set_nz(v, w);
    }

    pub fn pha<M: Mem>(&mut self, mem: &mut M)
        ensures
            pushed(
                *old(mem),
                *final(mem),
                old(self).regs.sp,
                old(self).emulation(),
                CPU::push_bytes(old(self).reg(Reg::A), old(self).wide(Reg::A)),
            ),
            *final(self) == old(self).pushed_sp(CPU::push_len(old(self).wide(Reg::A))),
            old(self).wf() ==> final(self).wf(),
    {
        self.push_reg(mem, Reg::A);
    }

    pub fn phx<M: Mem>(&mut self, mem: &mut M)
        ensures
            pushed(
                *old(mem),
                *final(mem),
                old(self).regs.sp,
                old(self).emulation(),
                CPU::push_bytes(old(self).reg(Reg::X), old(self).wide(Reg::X)),
            ),
            *final(self) == old(self).pushed_sp(CPU::push_len(old(self).wide(Reg::X))),
            old(self).wf() ==> final(self).wf(),
    {
        self.push_reg(mem, Reg::X);
    }

    pub fn phy<M: Mem>(&mut self, mem: &mut M)
        ensures
            pushed(
                *old(mem),
                *final(mem),
                old(self).regs.sp,
                old(self).emulation(),
                CPU::push_bytes(old(self).reg(Reg::Y), old(self).wide(Reg::Y)),
            ),
            *final(self) == old(self).pushed_sp(CPU::push_len(old(self).wide(Reg::Y))),
            old(self).wf() ==> final(self).wf(),
    {
        self.push_reg(mem, Reg::Y);
    }

    pub fn pla<M: Mem>(&mut self, mem: &M)
        ensures
            *final(self) == old(self).after_pull(Reg::A, *mem),
            old(self).wf() ==> final(self).wf(),
    {
        self.pull_reg(mem, Reg::A);
    }

    pub fn plx<M: Mem>(&mut self, mem: &M)
        ensures
            *final(self) == old(self).after_pull(Reg::X, *mem),
            old(self).wf() ==> final(self).wf(),
    {
        self.pull_reg(mem, Reg::X);
    }

    pub fn ply<M: Mem>(&mut self, mem: &M)
        ensures
            *final(self) == old(self).after_pull(Reg::Y, *mem),
            old(self).wf() ==> final(self).wf(),
    {
        self.pull_reg(mem, Reg::Y);
    }

    pub fn phb<M: Mem>(&mut self, mem: &mut M)
        ensures
            pushed(
                *old(mem),
                *final(mem),
                old(self).regs.sp,
                old(self).emulation(),
                CPU::push_bytes(old(self).regs.dbr as u16, false),
            ),
            *final(self) == old(self).pushed_sp(CPU::push_len(false)),
            old(self).wf() ==> final(self).wf(),
    {
        let v = self.regs.dbr as u16;
        self.push_value(mem, v, false);
    }

    pub fn phd<M: Mem>(&mut self, mem: &mut M)
        ensures
            pushed(
                *old(mem),
                *final(mem),
                old(self).regs.sp,
                old(self).emulation(),
                CPU::push_bytes(old(self).regs.d, true),
            ),
            *final(self) == old(self).pushed_sp(CPU::push_len(true)),
            old(self).wf() ==> final(self).wf(),
    {
        let v = self.regs.d;
        self.push_value(mem, v, true);
    }

    pub fn phk<M: Mem>(&mut self, mem: &mut M)
        ensures
            pushed(
                *old(mem),
                *final(mem),
                old(self).regs.sp,
                old(self).emulation(),
                CPU::push_bytes(old(self).regs.pbr as u16, false),
            ),
            *final(self) == old(self).pushed_sp(CPU::push_len(false)),
            old(self).wf() ==> final(self).wf(),
    {
        let v = self.regs.pbr as u16;
        self.push_value(mem, v, false);
    }

    pub fn php<M: Mem>(&mut self, mem: &mut M)
        ensures
            pushed(
                *old(mem),
                *final(mem),
                old(self).regs.sp,
                old(self).emulation(),
                CPU::push_bytes(old(self).regs.p.status_byte() as u8 as u16, false),
            ),
            *final(self) == old(self).pushed_sp(CPU::push_len(false)),
            old(self).wf() ==> final(self).wf(),
    {
        let v = self.regs.p.to_status().bits as u16;
        self.push_value(mem, v, false);
    }

    /// PLB: pulls the data bank register.
    pub fn plb<M: Mem>(&mut self, mem: &M)
        ensures
            *final(self) == ({
                let v = old(self).pulled_value(*mem, false);
                let c = old(self).pulled_sp(1);
                CPU { regs: Registers { dbr: v as u8, ..c.regs }, ..c }.nz(v, false)
            }),
            old(self).wf() ==> final(self).wf(),
    {
        let v = self.pull_value(mem, false);
        self.regs.dbr = v as u8;
        self.set_nz(v, false);
    }

    /// PLD: pulls the direct register.
    pub fn pld<M: Mem>(&mut self, mem: &M)
        ensures
            *final(self) == ({
                let v = old(self).pulled_value(*mem, true);
                let c = old(self).pulled_sp(2);
                CPU { regs: Registers { d: v, ..c.regs }, ..c }.nz(v, true)
            }),
            old(self).wf() ==> final(self).wf(),
    {
        let v = self.pull_value(mem, true);
        self.regs.d = v;
        self.set_nz(v, true);
    }

    /// PLP: pulls the status byte into the flags.
    pub fn plp<M: Mem>(&mut self, mem: &M)
        ensures
            *final(self) == old(self).pulled_sp(1).with_flags(
                old(self).regs.p.loaded(
                    StatusFlags { bits: pulled(*mem, old(self).regs.sp, old(self).emulation(), 1) },
                ),
            ),
            old(self).wf() ==> final(self).wf(),
    {
        let v = self.pull_b(mem);
        self.regs.p.load_status(StatusFlags { bits: v });
    }

    /// PEA: pushes the 16-bit immediate operand.
    pub fn pea<M: Mem>(&mut self, mem: &mut M)
        ensures
            pushed(
                *old(mem),
                *final(mem),
                old(self).regs.sp,
                old(self).emulation(),
                CPU::push_bytes(old(self).read(AddressMode::Immediate, *old(mem), true), true),
            ),
            *final(self) == old(self).advanced(2).pushed_sp(2),
            old(self).wf() ==> final(self).wf(),
    {
        let v = self.load_16(&AddressMode::Immediate, mem);
        self.push_effective(mem, v);
    }

    /// PEI: pushes the 16-bit word at the direct-page operand.
    pub fn pei<M: Mem>(&mut self, mem: &mut M)
        ensures
            pushed(
                *old(mem),
                *final(mem),
                old(self).regs.sp,
                old(self).emulation(),
                CPU::push_bytes(
                    old(self).read(AddressMode::Direct(crate::address_mode::PEI_OPCODE), *old(mem), true),
                    true,
                ),
            ),
            *final(self) == old(self).advanced(1).pushed_sp(2),
            old(self).wf() ==> final(self).wf(),
    {
        let v = self.load_16(&AddressMode::Direct(crate::address_mode::PEI_OPCODE), mem);
        self.push_effective(mem, v);
    }

    /// PER: pushes the address that a 16-bit displacement reaches.
    pub fn per<M: Mem>(&mut self, mem: &mut M)
        ensures
            pushed(
                *old(mem),
                *final(mem),
                old(self).regs.sp,
                old(self).emulation(),
                CPU::push_bytes(AddressMode::Relative16.address(*old(self), *old(mem)).1, true),
            ),
            *final(self) == old(self).advanced(2).pushed_sp(2),
            old(self).wf() ==> final(self).wf(),
    {
        let (_, address) = AddressMode::Relative16.get_address_8(self, mem);
        self.push_effective(mem, address);
    }

    /// STP: halts until an interrupt re-arms the processor.
    pub fn stp(&mut self)
        ensures
            *final(self) == (CPU { state: RunState::HaltedAwaitingInterrupt, ..*old(self) }),
    {
        self.state = RunState::HaltedAwaitingInterrupt;
    }

    /// WAI: waits for an interrupt.
    pub fn wai(&mut self)
        ensures
            *final(self) == (CPU { state: RunState::HaltedAwaitingInterrupt, ..*old(self) }),
    {
        self.state = RunState::HaltedAwaitingInterrupt;
    }

    pub fn nop(&mut self)
        ensures
            *final(self) == *old(self),
    {
    }

    /// WDM: skips its one operand byte.
    pub fn wdm(&mut self)
        ensures
            *final(self) == old(self).advanced(1),
    {
        self.increment_pc();
    }

    /// `v` transferred into register `r` at that register's width.
    pub open spec fn transferred(self, v: u16, r: Reg) -> CPU {
        let w = self.wide(r);
        self.set_reg(r, merge(self.reg(r), v, w)).nz(v, w)
    }

    fn transfer(&mut self, v: u16, r: Reg)
        ensures
            *final(self) == old(self).transferred(v, r),
            old(self).wf() ==> final(self).wf(),
    {
        let w = self.is_wide(r);
        let old_value = self.get_reg(r);
        self.put_reg(r, merge_into(old_value, v, w));
        self.set_nz(v, w);
    }

    pub fn tax(&mut self)
        ensures
            *final(self) == old(self).transferred(old(self).regs.a, Reg::X),
            old(self).wf() ==> final(self).wf(),
    {
        let v = self.regs.a;
        self.transfer(v, Reg::X);
    }

    pub fn tay(&mut self)
        ensures
            *final(self) == old(self).transferred(old(self).regs.a, Reg::Y),
            old(self).wf() ==> final(self).wf(),
    {
        let v = self.regs.a;
        self.transfer(v, Reg::Y);
    }

    pub fn tsx(&mut self)
        ensures
            *final(self) == old(self).transferred(old(self).regs.sp, Reg::X),
            old(self).wf() ==> final(self).wf(),
    {
        let v = self.regs.sp;
        self.transfer(v, Reg::X);
    }

    pub fn txa(&mut self)
        ensures
            *final(self) == old(self).transferred(old(self).regs.x, Reg::A),
            old(self).wf() ==> final(self).wf(),
    {
        let v = self.regs.x;
        self.transfer(v, Reg::A);
    }

    pub fn txy(&mut self)
        ensures
            *final(self) == old(self).transferred(old(self).regs.x, Reg::Y),
            old(self).wf() ==> final(self).wf(),
    {
        let v = self.regs.x;
        self.transfer(v, Reg::Y);
    }

    pub fn tya(&mut self)
        ensures
            *final(self) == old(self).transferred(old(self).regs.y, Reg::A),
            old(self).wf() ==> final(self).wf(),
    {
        let v = self.regs.y;
        self.transfer(v, Reg::A);
    }

    pub fn tyx(&mut self)
        ensures
            *final(self) == old(self).transferred(old(self).regs.y, Reg::X),
            old(self).wf() ==> final(self).wf(),
    {
        let v = self.regs.y;
        self.transfer(v, Reg::X);
    }

    /// TCD: the whole accumulator into the direct register.
    pub fn tcd(&mut self)
        ensures
            *final(self) == (CPU { regs: Registers { d: old(self).regs.a, ..old(self).regs }, ..*old(self) }).nz(old(self).regs.a, true),
            old(self).wf() ==> final(self).wf(),
    {
        self.regs.d = self.regs.a;
        let v = self.regs.a;
        self.set_nz(v, true);
    }

    /// TDC: the direct register into the whole accumulator.
    pub fn tdc(&mut self)
        ensures
            *final(self) == old(self).set_reg(Reg::A, old(self).regs.d).nz(old(self).regs.d, true),
            old(self).wf() ==> final(self).wf(),
    {
        self.regs.a = self.regs.d;
        let v = self.regs.d;
        self.set_nz(v, true);
    }

    /// TSC: the stack pointer into the whole accumulator.
    pub fn tsc(&mut self)
        ensures
            *final(self) == old(self).set_reg(Reg::A, old(self).regs.sp).nz(old(self).regs.sp, true),
            old(self).wf() ==> final(self).wf(),
    {
        self.regs.a = self.regs.sp;
        let v = self.regs.sp;
        self.set_nz(v, true);
    }

    /// The stack pointer that TXS or TCS gives from `v`: in emulation mode
    /// its low byte in page one; else `v`, or its low byte when `narrow`.
    pub open spec fn stack_from(self, v: u16, narrow: bool) -> u16 {
        if self.emulation() {
            word(1, lo_byte(v))
        } else if narrow {
            lo_byte(v) as u16
        } else {
            v
        }
    }

    /// TXS: the index register X into the stack pointer.
    pub fn txs(&mut self)
        ensures
            *final(self) == old(self).with_sp(old(self).stack_from(old(self).regs.x, old(self).regs.p.index_width)),
            old(self).wf() ==> final(self).wf(),
    {
        if self.regs.p.emulation_mode {
            self.regs.sp = make_word(1, low(self.regs.x));
        } else if self.regs.p.index_width {
            self.regs.sp = low(self.regs.x) as u16;
        } else {
            self.regs.sp = self.regs.x;
        }
        proof {
            lemma_bytes_word(1, lo_byte(old(self).regs.x));
        }
    }

    /// TCS: the accumulator into the stack pointer.
    pub fn tcs(&mut self)
        ensures
            *final(self) == old(self).with_sp(old(self).stack_from(old(self).regs.a, false)),
            old(self).wf() ==> final(self).wf(),
    {
        if self.regs.p.emulation_mode {
            self.regs.sp = make_word(1, low(self.regs.a));
        } else {
            self.regs.sp = self.regs.a;
        }
        proof {
            lemma_bytes_word(1, lo_byte(old(self).regs.a));
        }
    }

    /// XBA: swaps the accumulator's bytes; zero and negative from the new
    /// low byte.
    pub fn xba(&mut self)
        ensures
            *final(self) == old(self).set_reg(
                Reg::A,
                word(lo_byte(old(self).regs.a), hi_byte(old(self).regs.a)),
            ).nz(hi_byte(old(self).regs.a) as u16, false),
            old(self).wf() ==> final(self).wf(),
    {
        let a = self.regs.a;
        self.regs.a = make_word(low(a), high(a));
        self.set_nz(high(a) as u16, false);
    }

    pub open spec fn after_xce(self) -> CPU {
        let e = self.regs.p.carry;
        let p = Flags { carry: self.regs.p.emulation_mode, emulation_mode: e, ..self.regs.p };
        if e {
            CPU {
                regs: Registers {
                    x: lo_byte(self.regs.x) as u16,
                    y: lo_byte(self.regs.y) as u16,
                    sp: word(1, lo_byte(self.regs.sp)),
                    p: Flags { accumulator_width: true, index_width: true, ..p },
                    ..self.regs
                },
                ..self
            }
        } else {
            self.with_flags(p)
        }
    }

    /// XCE: exchanges carry and emulation mode; entering emulation mode
    /// forces eight-bit widths, clears the index registers' high bytes and
    /// moves the stack into page one.
    pub fn xce(&mut self)
        ensures
            *final(self) == old(self).after_xce(),
            final(self).wf(),
    {
        let e = self.regs.p.carry;
        self.regs.p.carry = self.regs.p.emulation_mode;
        self.regs.p.emulation_mode = e;
        if e {
            self.regs.p.accumulator_width = true;
            self.regs.p.index_width = true;
            self.regs.x = low(self.regs.x) as u16;
            self.regs.y = low(self.regs.y) as u16;
            self.regs.sp = make_word(1, low(self.regs.sp));
            proof {
                lemma_bytes_word(1, lo_byte(old(self).regs.sp));
            }
        }
    }

    /// Register `r` counted up (`Modify::Inc`) or down at its width, with
    /// no flag changed.
    pub open spec fn counted(self, r: Reg, k: Modify) -> u16 {
        let w = self.wide(r);
        merge(self.reg(r), modified(k, live(self.reg(r), w), self.regs.p.carry, w).0, w)
    }

    pub open spec fn after_block_move<M: Mem>(self, k: Modify, mem: M) -> CPU {
        let c = self.advanced(2);
        let a = wrap16(self.regs.a - 1);
        CPU {
            regs: Registers {
                a: a,
                x: self.counted(Reg::X, k),
                y: self.counted(Reg::Y, k),
                dbr: self.operand(mem, 0),
                pc: if a == 0xFFFF {
                    c.regs.pc
                } else {
                    wrap16(c.regs.pc - 3)
                },
                ..self.regs
            },
            ..self
        }
    }

    fn count_index(&mut self, r: Reg, k: Modify)
        requires
            r != Reg::A,
            k == Modify::Inc || k == Modify::Dec,
        ensures
            *final(self) == old(self).set_reg(r, old(self).counted(r, k)),
    {
        let w = self.is_wide(r);
        let v0 = self.get_reg(r);
        let c = self.regs.p.carry;
        let (v, _) = modify(k, live_part(v0, w), c, w);
        self.put_reg(r, merge_into(v0, v, w));
    }

    /// One step of a block move: copies the byte at (source bank, `X`) to
    /// (destination bank, `Y`), counts `X` and `Y` up for MVN (`Modify::Inc`)
    /// or down for MVP, counts `A` down and sets the data bank to the
    /// destination bank. Until `A` has wrapped to 0xFFFF the program counter
    /// goes back to the instruction, so each byte is one step of its own and
    /// interrupts are seen between bytes.
    fn block_move<M: Mem>(&mut self, mem: &mut M, k: Modify)
        requires
            k == Modify::Inc || k == Modify::Dec,
        ensures
            *final(self) == old(self).after_block_move(k, *old(mem)),
            written8(
                *old(mem),
                *final(mem),
                AddressMode::SourceDestination.pair(*old(self), *old(mem)).1,
                crate::memory::byte_at(*old(mem), AddressMode::SourceDestination.pair(*old(self), *old(mem)).0),
            ),
            old(self).wf() ==> final(self).wf(),
    {
        let ((src_bank, src), (dst_bank, dst)) = AddressMode::SourceDestination.get_address_16(self, mem);
        let v = mem.load(src_bank, src);
        mem.store(dst_bank, dst, v);
        self.count_index(Reg::X, k);
        self.count_index(Reg::Y, k);
        self.regs.a = sub16(self.regs.a, 1);
        self.regs.dbr = dst_bank;
        if self.regs.a != 0xFFFF {
            self.regs.pc = sub16(self.regs.pc, 3);
        }
    }

    pub fn mvn<M: Mem>(&mut self, mem: &mut M)
        ensures
            *final(self) == old(self).after_block_move(Modify::Inc, *old(mem)),
            written8(
                *old(mem),
                *final(mem),
                AddressMode::SourceDestination.pair(*old(self), *old(mem)).1,
                crate::memory::byte_at(*old(mem), AddressMode::SourceDestination.pair(*old(self), *old(mem)).0),
            ),
            old(self).wf() ==> final(self).wf(),
    {
        self.block_move(mem, Modify::Inc);
    }

    pub fn mvp<M: Mem>(&mut self, mem: &mut M)
        ensures
            *final(self) == old(self).after_block_move(Modify::Dec, *old(mem)),
            written8(
                *old(mem),
                *final(mem),
                AddressMode::SourceDestination.pair(*old(self), *old(mem)).1,
                crate::memory::byte_at(*old(mem), AddressMode::SourceDestination.pair(*old(self), *old(mem)).0),
            ),
            old(self).wf() ==> final(self).wf(),
    {
        self.block_move(mem, Modify::Dec);
    }
}

} // verus!
