use vstd::prelude::*;
use crate::address_mode::AddressMode;
use crate::arith::{
    bcd_add, bcd_value, carry_value, digits, is_bcd, lemma_bcd_add_bound, lemma_bcd_add_decimal,
    pow10, pow16,
};
use crate::cpu::{lemma_stack_up_after_down, pushed, pushed_byte, stack_down, Reg, CPU};
use crate::memory::Mem;
use crate::registers::Registers;
use crate::word::{hi_byte, lemma_bytes_word, lemma_word_bytes, lo_byte};

verus! {

/// ADC in decimal mode on operands whose digits are all decimal adds them
/// as decimal numbers: the live accumulator afterwards holds decimal digits
/// only and spells the sum modulo `10^n` (`n` = 2 or 4 digits by width),
/// and carry is set exactly when the sum reaches `10^n`.
pub proof fn lemma_adc_decimal(c: CPU, v: u16)
    requires
        c.regs.p.decimal_mode,
        is_bcd(crate::cpu::live(c.regs.a, c.wide(Reg::A)) as nat, digits(c.wide(Reg::A))),
        is_bcd(v as nat, digits(c.wide(Reg::A))),
        !c.wide(Reg::A) ==> v < 0x100,
    ensures
        ({
            let w = c.wide(Reg::A);
            let n = digits(w);
            let a0 = crate::cpu::live(c.regs.a, w);
            let r = crate::cpu::live(c.added(v).regs.a, w);
            let sum = bcd_value(a0 as nat, n) + bcd_value(v as nat, n) + carry_value(c.regs.p.carry);
            &&& is_bcd(r as nat, n)
            &&& bcd_value(r as nat, n) == sum % (pow10(n) as int)
            &&& c.added(v).regs.p.carry == (sum >= pow10(n))
        }),
{
    let w = c.wide(Reg::A);
    let n = digits(w);
    let a0 = crate::cpu::live(c.regs.a, w);
    let ci = carry_value(c.regs.p.carry);
    lemma_bcd_add_decimal(a0 as nat, v as nat, ci, n);
    lemma_bcd_add_bound(a0 as nat, v as nat, ci, n);
    reveal_with_fuel(pow16, 5);
    let r = bcd_add(a0 as nat, v as nat, ci, n).0;
    if !w {
        lemma_bytes_word(hi_byte(c.regs.a), lo_byte(r as u16));
    }
}

/// CMP (and CPX, CPY) compares the live register value `x` with the operand
/// `v` as unsigned numbers: carry is set exactly when `x >= v` and zero
/// exactly when they are equal; no register changes.
pub proof fn lemma_compare_flags<M: Mem>(c: CPU, r: Reg, am: AddressMode, mem: M)
    ensures
        ({
            let w = c.wide(r);
            let x = crate::cpu::live(c.reg(r), w);
            let v = c.read(am, mem, w);
            let after = c.after_compare(r, am, mem);
            &&& after.regs.p.carry == (x >= v)
            &&& after.regs.p.zero == (x == v)
            &&& after.regs.a == c.regs.a
            &&& after.regs.x == c.regs.x
            &&& after.regs.y == c.regs.y
        }),
{
}

/// PHA followed by PLA, with nothing in between, gives the accumulator back,
/// sets zero and negative from the pulled value, and returns the stack
/// pointer to where it was.
pub proof fn lemma_pha_pla<M: Mem>(c0: CPU, m0: M, c1: CPU, m1: M)
    requires
        c0.wf(),
        c1 == c0.pushed_sp(CPU::push_len(c0.wide(Reg::A))),
        pushed(
            m0,
            m1,
            c0.regs.sp,
            c0.emulation(),
            CPU::push_bytes(c0.regs.a, c0.wide(Reg::A)),
        ),
    ensures
        ({
            let w = c0.wide(Reg::A);
            let c2 = c1.after_pull(Reg::A, m1);
            &&& c2.regs.a == c0.regs.a
            &&& c2.regs.sp == c0.regs.sp
            &&& c2.regs.p == c0.regs.p.nz(c0.regs.a, w)
            &&& c2.regs.x == c0.regs.x
            &&& c2.regs.y == c0.regs.y
        }),
{
    let w = c0.wide(Reg::A);
    let e = c0.emulation();
    let sp = c0.regs.sp;
    let n = CPU::push_len(w);
    let bytes = CPU::push_bytes(c0.regs.a, w);
    let sp1 = stack_down(sp, e, n);
    lemma_stack_up_after_down(sp, e, n, 1);
    lemma_stack_up_after_down(sp, e, n, 2);
    lemma_stack_up_after_down(sp, e, n, n);
    assert(m1.byte(0, stack_down(sp, e, n - 1)) == pushed_byte(m0, sp, e, bytes, 0, stack_down(sp, e, n - 1)));
    if w {
        assert(m1.byte(0, stack_down(sp, e, 0)) == pushed_byte(m0, sp, e, bytes, 0, stack_down(sp, e, 0)));
        assert(bytes.drop_last() =~= seq![crate::word::hi_byte(c0.regs.a)]);
        assert(stack_down(sp, e, 0) != stack_down(sp, e, 1));
        assert(pushed_byte(m0, sp, e, bytes.drop_last(), 0, stack_down(sp, e, 0)) == crate::word::hi_byte(c0.regs.a));
        lemma_word_bytes(c0.regs.a);
    }
    assert(stack_down(sp, e, 0) == sp);
}

/// Resolving an addressing mode changes nothing but the program counter:
/// putting the program counter back gives the state it started from, so a
/// second resolution from there finds the same address and consumes the
/// same operand bytes.
pub proof fn lemma_resolve_idempotent<M: Mem>(am: AddressMode, c: CPU, mem: M)
    ensures
        ({
            let after = c.advanced(am.len());
            let reset = CPU { regs: Registers { pc: c.regs.pc, ..after.regs }, ..after };
            &&& reset == c
            &&& am.address(reset, mem) == am.address(c, mem)
            &&& reset.advanced(am.len()) == after
        }),
{
}

} // verus!
