use vstd::prelude::*;

verus! {

/// Bit masks of the processor-status byte.
pub const CARRY_BIT: u8 = 0x01;
pub const ZERO_BIT: u8 = 0x02;
pub const IRQ_DISABLE_BIT: u8 = 0x04;
pub const DECIMAL_BIT: u8 = 0x08;
/// Index width in native mode, break flag in emulation mode.
pub const INDEX_BIT: u8 = 0x10;
/// Accumulator width in native mode; reads as one in emulation mode.
pub const ACCUMULATOR_BIT: u8 = 0x20;
pub const OVERFLOW_BIT: u8 = 0x40;
pub const NEGATIVE_BIT: u8 = 0x80;

/// The processor-status register as the packed byte that is pushed to and
/// pulled from the stack.
#[derive(Clone, Copy, Debug, PartialEq, Eq, Structural)]
pub struct StatusFlags {
    pub bits: u8,
}

impl StatusFlags {
    pub open spec fn has(self, mask: u8) -> bool {
        self.bits & mask == mask
    }

    pub open spec fn with(self, mask: u8, enabled: bool) -> StatusFlags {
        StatusFlags { bits: if enabled { self.bits | mask } else { self.bits & !mask } }
    }

    pub fn new() -> (r: StatusFlags)
        ensures
            r.bits == 0,
    {
        StatusFlags { bits: 0 }
    }

    pub fn carry(&self) -> (r: bool)
        ensures
            r == self.has(CARRY_BIT),
    {
        self.bits & CARRY_BIT == CARRY_BIT
    }

    pub fn zero(&self) -> (r: bool)
        ensures
            r == self.has(ZERO_BIT),
    {
        self.bits & ZERO_BIT == ZERO_BIT
    }

    pub fn interrupt_disable(&self) -> (r: bool)
        ensures
            r == self.has(IRQ_DISABLE_BIT),
    {
        self.bits & IRQ_DISABLE_BIT == IRQ_DISABLE_BIT
    }

    pub fn decimal(&self) -> (r: bool)
        ensures
            r == self.has(DECIMAL_BIT),
    {
        self.bits & DECIMAL_BIT == DECIMAL_BIT
    }

    /// Bit 4 as read in native mode.
    pub fn index_width(&self) -> (r: bool)
        ensures
            r == self.has(INDEX_BIT),
    {
        self.bits & INDEX_BIT == INDEX_BIT
    }

    /// Bit 4 as read in emulation mode.
    pub fn break_flag(&self) -> (r: bool)
        ensures
            r == self.has(INDEX_BIT),
    {
        self.bits & INDEX_BIT == INDEX_BIT
    }

    pub fn accumulator_width(&self) -> (r: bool)
        ensures
            r == self.has(ACCUMULATOR_BIT),
    {
        self.bits & ACCUMULATOR_BIT == ACCUMULATOR_BIT
    }

    pub fn overflow(&self) -> (r: bool)
        ensures
            r == self.has(OVERFLOW_BIT),
    {
        self.bits & OVERFLOW_BIT == OVERFLOW_BIT
    }

    pub fn negative(&self) -> (r: bool)
        ensures
            r == self.has(NEGATIVE_BIT),
    {
        self.bits & NEGATIVE_BIT == NEGATIVE_BIT
    }

    fn put(&mut self, mask: u8, enabled: bool)
        ensures
            *final(self) == old(self).with(mask, enabled),
    {
        if enabled {
            self.bits = self.bits | mask;
        } else {
            self.bits = self.bits & !mask;
        }
    }

    pub fn set_carry(&mut self, enabled: bool)
        ensures
            *final(self) == old(self).with(CARRY_BIT, enabled),
    {
        self.put(CARRY_BIT, enabled);
    }

    pub fn set_zero(&mut self, enabled: bool)
        ensures
            *final(self) == old(self).with(ZERO_BIT, enabled),
    {
        self.put(ZERO_BIT, enabled);
    }

    pub fn set_zero_from_data(&mut self, data: u16)
        ensures
            *final(self) == old(self).with(ZERO_BIT, data == 0),
    {
        self.put(ZERO_BIT, data == 0);
    }

    pub fn set_interrupt_disable(&mut self, enabled: bool)
        ensures
            *final(self) == old(self).with(IRQ_DISABLE_BIT, enabled),
    {
        self.put(IRQ_DISABLE_BIT, enabled);
    }

    pub fn set_decimal(&mut self, enabled: bool)
        ensures
            *final(self) == old(self).with(DECIMAL_BIT, enabled),
    {
        self.put(DECIMAL_BIT, enabled);
    }

    /// Bit 4 as written in native mode.
    pub fn set_index_width(&mut self, enabled: bool)
        ensures
            *final(self) == old(self).with(INDEX_BIT, enabled),
    {
        self.put(INDEX_BIT, enabled);
    }

    /// Bit 4 as written in emulation mode.
    pub fn set_break_flag(&mut self, enabled: bool)
        ensures
            *final(self) == old(self).with(INDEX_BIT, enabled),
    {
        self.put(INDEX_BIT, enabled);
    }

    pub fn set_accumulator_width(&mut self, enabled: bool)
        ensures
            *final(self) == old(self).with(ACCUMULATOR_BIT, enabled),
    {
        self.put(ACCUMULATOR_BIT, enabled);
    }

    pub fn set_overflow(&mut self, enabled: bool)
        ensures
            *final(self) == old(self).with(OVERFLOW_BIT, enabled),
    {
        self.put(OVERFLOW_BIT, enabled);
    }

    pub fn set_negative(&mut self, enabled: bool)
        ensures
            *final(self) == old(self).with(NEGATIVE_BIT, enabled),
    {
        self.put(NEGATIVE_BIT, enabled);
    }

    pub fn set_negative_from_data_8(&mut self, data: u8)
        ensures
            *final(self) == old(self).with(NEGATIVE_BIT, data >= 0x80),
    {
        self.put(NEGATIVE_BIT, data >= 0x80);
    }

    pub fn set_negative_from_data_16(&mut self, data: u16)
        ensures
            *final(self) == old(self).with(NEGATIVE_BIT, data >= 0x8000),
    {
        self.put(NEGATIVE_BIT, data >= 0x8000);
    }
}

pub open spec fn bit_value(b: bool, weight: int) -> int {
    if b {
        weight
    } else {
        0
    }
}

/// The processor flags as a record of named booleans. `emulation_mode` has no
/// bit in the status byte; `break_flag` and `index_width` share bit 4, which
/// holds the break flag in emulation mode and the index width otherwise.
#[derive(Clone, Copy, Debug, PartialEq, Eq, Structural)]
pub struct Flags {
    pub break_flag: bool,
    pub carry: bool,
    pub decimal_mode: bool,
    pub emulation_mode: bool,
    pub interrupt_disable: bool,
    pub accumulator_width: bool,
    pub negative: bool,
    pub overflow: bool,
    pub index_width: bool,
    pub zero: bool,
}

impl Flags {
    /// Emulation mode forces both register widths to eight bits.
    pub open spec fn wf(self) -> bool {
        self.emulation_mode ==> self.accumulator_width && self.index_width
    }

    /// The status byte that these flags pack into.
    pub open spec fn status_byte(self) -> int {
        bit_value(self.carry, 0x01) + bit_value(self.zero, 0x02) + bit_value(
            self.interrupt_disable,
            0x04,
        ) + bit_value(self.decimal_mode, 0x08) + bit_value(
            if self.emulation_mode {
                self.break_flag
            } else {
                self.index_width
            },
            0x10,
        ) + bit_value(self.emulation_mode || self.accumulator_width, 0x20) + bit_value(
            self.overflow,
            0x40,
        ) + bit_value(self.negative, 0x80)
    }

    /// The flags after the status byte `s` is loaded into them: the
    /// emulation flag is kept; in emulation mode bit 4 is the break flag and
    /// both widths stay eight bits; in native mode bit 4 and bit 5 are the
    /// widths and the break flag is kept.
    pub open spec fn loaded(self, s: StatusFlags) -> Flags {
        Flags {
            carry: s.has(CARRY_BIT),
            zero: s.has(ZERO_BIT),
            interrupt_disable: s.has(IRQ_DISABLE_BIT),
            decimal_mode: s.has(DECIMAL_BIT),
            break_flag: if self.emulation_mode {
                s.has(INDEX_BIT)
            } else {
                self.break_flag
            },
            index_width: self.emulation_mode || s.has(INDEX_BIT),
            accumulator_width: self.emulation_mode || s.has(ACCUMULATOR_BIT),
            overflow: s.has(OVERFLOW_BIT),
            negative: s.has(NEGATIVE_BIT),
            emulation_mode: self.emulation_mode,
        }
    }

    /// All flags clear, as after construction.
    pub open spec fn cleared() -> Flags {
        Flags {
            break_flag: false,
            carry: false,
            decimal_mode: false,
            emulation_mode: false,
            interrupt_disable: false,
            accumulator_width: false,
            negative: false,
            overflow: false,
            index_width: false,
            zero: false,
        }
    }

    pub fn new() -> (r: Flags)
        ensures
            r == Flags::cleared(),
    {
        Flags {
            break_flag: false,
            carry: false,
            decimal_mode: false,
            emulation_mode: false,
            interrupt_disable: false,
            accumulator_width: false,
            negative: false,
            overflow: false,
            index_width: false,
            zero: false,
        }
    }

    /// Packs the flags into the status byte.
    pub fn to_status(&self) -> (r: StatusFlags)
        ensures
            r.bits == self.status_byte(),
    {
        let mut b: u8 = 0;
        if self.carry {
            b = b + 0x01;
        }
        if self.zero {
            b = b + 0x02;
        }
        if self.interrupt_disable {
            b = b + 0x04;
        }
        if self.decimal_mode {
            b = b + 0x08;
        }
        if (self.emulation_mode && self.break_flag) || (!self.emulation_mode && self.index_width) {
            b = b + 0x10;
        }
        if self.emulation_mode || self.accumulator_width {
            b = b + 0x20;
        }
        if self.overflow {
            b = b + 0x40;
        }
        if self.negative {
            b = b + 0x80;
        }
        StatusFlags { bits: b }
    }

    /// Loads the flags from a status byte.
    pub fn load_status(&mut self, s: StatusFlags)
        ensures
            *final(self) == old(self).loaded(s),
    {
        let emulation = self.emulation_mode;
        self.carry = s.carry();
        self.zero = s.zero();
        self.interrupt_disable = s.interrupt_disable();
        self.decimal_mode = s.decimal();
        if emulation {
            self.break_flag = s.break_flag();
            self.index_width = true;
            self.accumulator_width = true;
        } else {
            self.index_width = s.index_width();
            self.accumulator_width = s.accumulator_width();
        }
        self.overflow = s.overflow();
        self.negative = s.negative();
    }
}

/// Each mask of the status byte tests one binary digit.
pub proof fn lemma_status_bits(b: u8)
    ensures
        (b & 0x01 == 0x01) == (b % 2 == 1),
        (b & 0x02 == 0x02) == ((b / 2) % 2 == 1),
        (b & 0x04 == 0x04) == ((b / 4) % 2 == 1),
        (b & 0x08 == 0x08) == ((b / 8) % 2 == 1),
        (b & 0x10 == 0x10) == ((b / 16) % 2 == 1),
        (b & 0x20 == 0x20) == ((b / 32) % 2 == 1),
        (b & 0x40 == 0x40) == ((b / 64) % 2 == 1),
        (b & 0x80 == 0x80) == ((b / 128) % 2 == 1),
{
    assert((b & 0x01 == 0x01) == (b % 2 == 1)) by (bit_vector);
    assert((b & 0x02 == 0x02) == ((b / 2) % 2 == 1)) by (bit_vector);
    assert((b & 0x04 == 0x04) == ((b / 4) % 2 == 1)) by (bit_vector);
    assert((b & 0x08 == 0x08) == ((b / 8) % 2 == 1)) by (bit_vector);
    assert((b & 0x10 == 0x10) == ((b / 16) % 2 == 1)) by (bit_vector);
    assert((b & 0x20 == 0x20) == ((b / 32) % 2 == 1)) by (bit_vector);
    assert((b & 0x40 == 0x40) == ((b / 64) % 2 == 1)) by (bit_vector);
    assert((b & 0x80 == 0x80) == ((b / 128) % 2 == 1)) by (bit_vector);
}

/// A byte is the sum of its bits; setting bits 4 and 5 adds the ones that
/// were clear.
pub proof fn lemma_byte_bits(x: u8)
    ensures
        x as int == bit_value(x & 0x01 == 0x01, 0x01) + bit_value(x & 0x02 == 0x02, 0x02)
            + bit_value(x & 0x04 == 0x04, 0x04) + bit_value(x & 0x08 == 0x08, 0x08) + bit_value(
            x & 0x10 == 0x10,
            0x10,
        ) + bit_value(x & 0x20 == 0x20, 0x20) + bit_value(x & 0x40 == 0x40, 0x40) + bit_value(
            x & 0x80 == 0x80,
            0x80,
        ),
        (x | 0x30) as int == bit_value(x & 0x01 == 0x01, 0x01) + bit_value(x & 0x02 == 0x02, 0x02)
            + bit_value(x & 0x04 == 0x04, 0x04) + bit_value(x & 0x08 == 0x08, 0x08) + 0x30
            + bit_value(x & 0x40 == 0x40, 0x40) + bit_value(x & 0x80 == 0x80, 0x80),
{
    assert(x == (x & 0x01) + (x & 0x02) + (x & 0x04) + (x & 0x08) + (x & 0x10) + (x & 0x20) + (x
        & 0x40) + (x & 0x80)) by (bit_vector);
    assert((x | 0x30) == (x & 0x01) + (x & 0x02) + (x & 0x04) + (x & 0x08) + 0x30 + (x & 0x40) + (
    x & 0x80)) by (bit_vector);
    assert((x & 0x01 == 0x01 || x & 0x01 == 0) && (x & 0x02 == 0x02 || x & 0x02 == 0) && (x & 0x04
        == 0x04 || x & 0x04 == 0) && (x & 0x08 == 0x08 || x & 0x08 == 0) && (x & 0x10 == 0x10 || x
        & 0x10 == 0) && (x & 0x20 == 0x20 || x & 0x20 == 0) && (x & 0x40 == 0x40 || x & 0x40 == 0)
        && (x & 0x80 == 0x80 || x & 0x80 == 0)) by (bit_vector);
}

/// Packing well-formed flags into the status byte and loading that byte back
/// gives the same flags.
pub proof fn lemma_status_round_trip(f: Flags)
    requires
        f.wf(),
    ensures
        f.loaded(StatusFlags { bits: f.status_byte() as u8 }) == f,
{
    let b = f.status_byte();
    assert(0 <= b < 256);
    lemma_status_bits(b as u8);
}

} // verus!
