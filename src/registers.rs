use vstd::prelude::*;
use crate::status::Flags;

verus! {

/// The register file: accumulator, index registers, stack pointer, direct
/// register, bank registers, program counter and the processor flags.
#[derive(Clone, Copy, Debug, PartialEq, Eq, Structural)]
pub struct Registers {
    pub a: u16,
    pub x: u16,
    pub y: u16,
    pub sp: u16,
    pub d: u16,
    pub dbr: u8,
    pub pbr: u8,
    pub pc: u16,
    pub p: Flags,
}

impl Registers {
    /// In emulation mode both widths are eight bits, the stack lives in page
    /// one and the index registers have a zero high byte.
    pub open spec fn wf(self) -> bool {
        &&& self.p.wf()
        &&& self.p.emulation_mode ==> {
            &&& self.sp / 0x100 == 1
            &&& self.x < 0x100
            &&& self.y < 0x100
        }
    }

    pub open spec fn reset() -> Registers {
        Registers { a: 0, x: 0, y: 0, sp: 0, d: 0, dbr: 0, pbr: 0, pc: 0, p: Flags::cleared() }
    }

    /// All registers zero and all flags clear.
    pub fn new() -> (r: Registers)
        ensures
            r == Registers::reset(),
            r.wf(),
    {
        Registers { a: 0, x: 0, y: 0, sp: 0, d: 0, dbr: 0, pbr: 0, pc: 0, p: Flags::new() }
    }
}

} // verus!
