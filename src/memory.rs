use vstd::prelude::*;

verus! {

/// A (bank, offset) pair: a 24-bit effective address.
pub type MemoryAddress = (u8, u16);

/// A byte store addressed by bank and 16-bit offset.
pub trait Mem {
    /// The byte held at `(bank, address)`.
    spec fn byte(&self, bank: u8, address: u16) -> u8;

    fn load(&self, bank: u8, address: u16) -> (r: u8)
        ensures
            r == self.byte(bank, address),
    ;

    fn store(&mut self, bank: u8, address: u16, to_store: u8)
        ensures
            forall|b: u8, a: u16|
                #[trigger] final(self).byte(b, a) == if b == bank && a == address {
                    to_store
                } else {
                    old(self).byte(b, a)
                },
    ;
}

pub open spec fn byte_at<M: Mem>(mem: M, at: MemoryAddress) -> u8 {
    mem.byte(at.0, at.1)
}

/// `m1` is `m0` with the byte `v` written at `at`.
pub open spec fn written8<M: Mem>(m0: M, m1: M, at: MemoryAddress, v: u8) -> bool {
    forall|b: u8, a: u16|
        #[trigger] m1.byte(b, a) == if (b, a) == at {
            v
        } else {
            m0.byte(b, a)
        }
}

/// `m1` is `m0` with the low byte of `v` written at `lo` and then its high
/// byte at `hi`.
pub open spec fn written16<M: Mem>(
    m0: M,
    m1: M,
    lo: MemoryAddress,
    hi: MemoryAddress,
    v: u16,
) -> bool {
    forall|b: u8, a: u16|
        #[trigger] m1.byte(b, a) == if (b, a) == hi {
            (v / 256) as u8
        } else if (b, a) == lo {
            (v % 256) as u8
        } else {
            m0.byte(b, a)
        }
}

/// The flat memory of all 256 banks of 64 KiB, one byte per 24-bit address.
pub struct SimpleMemory {
    mem: Vec<u8>,
}

pub const MEMORY_SIZE: usize = 0x100_0000;

impl SimpleMemory {
    /// A vector of any other length than `MEMORY_SIZE` reads as all zeros;
    /// `new` never makes one.
    closed spec fn sized(self) -> bool {
        self.mem@.len() == MEMORY_SIZE
    }

    /// Brings the vector to its full size, keeping what the model reads.
    fn ensure_sized(&mut self)
        ensures
            final(self).sized(),
            forall|b: u8, a: u16| #[trigger] final(self).byte(b, a) == old(self).byte(b, a),
    {
        if self.mem.len() != MEMORY_SIZE {
            self.mem = vec![0u8; MEMORY_SIZE];
            assert forall|b: u8, a: u16| #[trigger] self.byte(b, a) == old(self).byte(b, a) by {
                assert(self.mem@[Self::index_of(b, a)] == 0u8);
            }
        }
    }

    pub open spec fn index_of(bank: u8, address: u16) -> int {
        bank as int * 0x10000 + address as int
    }

    /// All bytes zero.
    pub fn new() -> (r: SimpleMemory)
        ensures
            forall|b: u8, a: u16| #[trigger] r.byte(b, a) == 0,
    {
        let r = SimpleMemory { mem: vec![0u8; MEMORY_SIZE] };
        assert forall|b: u8, a: u16| #[trigger] r.byte(b, a) == 0 by {
            assert(r.mem@[Self::index_of(b, a)] == 0u8);
        }
        r
    }

    fn get_index(bank: u8, address: u16) -> (r: usize)
        ensures
            r == Self::index_of(bank, address),
            r < MEMORY_SIZE,
    {
        bank as usize * 0x10000 + address as usize
    }

    fn load_from_store(&self, bank: u8, address: u16) -> (r: u8)
        ensures
            r == self.byte(bank, address),
    {
        let i = Self::get_index(bank, address);
        if self.mem.len() == MEMORY_SIZE {
            self.mem[i]
        } else {
            0
        }
    }

    fn store_value(&mut self, bank: u8, address: u16, to_store: u8)
        ensures
            forall|b: u8, a: u16|
                #[trigger] final(self).byte(b, a) == if b == bank && a == address {
                    to_store
                } else {
                    old(self).byte(b, a)
                },
    {
        self.ensure_sized();
        let ghost before = *self;
        let i = Self::get_index(bank, address);
        self.mem.set(i, to_store);
        assert forall|b: u8, a: u16|
            #[trigger] self.byte(b, a) == if b == bank && a == address {
                to_store
            } else {
                before.byte(b, a)
            } by {
            if !(b == bank && a == address) {
                assert(Self::index_of(b, a) != i as int) by (nonlinear_arith)
                    requires
                        i as int == bank as int * 0x10000 + address as int,
                        !(b == bank && a == address),
                ;
            }
        }
    }

    /// The place that address `(b, a)` takes in an image loaded from
    /// `(bank, offset)` on.
    pub open spec fn image_place(bank: u8, offset: u16, b: u8, a: u16) -> int {
        (Self::index_of(b, a) - Self::index_of(bank, offset)) % (MEMORY_SIZE as int)
    }

    /// Copies `bytes` into memory from `(bank, offset)` on, wrapping at the end
    /// of the 24-bit address space; bytes past the sixteen-megabyte mark are
    /// not copied. Every other address keeps its byte.
    pub fn load_image(&mut self, bytes: &Vec<u8>, bank: u8, offset: u16)
        ensures
            forall|b: u8, a: u16|
                Self::image_place(bank, offset, b, a) >= bytes@.len() ==> #[trigger] final(self).byte(
                    b,
                    a,
                ) == old(self).byte(b, a),
            forall|i: int|
                0 <= i < bytes@.len() && i < MEMORY_SIZE ==> {
                    let at = (Self::index_of(bank, offset) + i) % (MEMORY_SIZE as int);
                    #[trigger] bytes@[i] == final(self).byte((at / 0x10000) as u8, (at % 0x10000) as u16)
                },
    {
        self.ensure_sized();
        let ghost before = *self;
        let n: usize = if bytes.len() < MEMORY_SIZE { bytes.len() } else { MEMORY_SIZE };
        let start: usize = Self::get_index(bank, offset);
        let mut i: usize = 0;
        while i < n
            invariant
                n <= bytes@.len(),
                n <= MEMORY_SIZE,
                i <= n,
                start == Self::index_of(bank, offset),
                start < MEMORY_SIZE,
                self.mem@.len() == MEMORY_SIZE,
                forall|j: int|
                    0 <= j < i ==> #[trigger] self.mem@[(start + j) % (MEMORY_SIZE as int)]
                        == bytes@[j],
                before.mem@.len() == MEMORY_SIZE,
                forall|j: int|
                    0 <= j < MEMORY_SIZE && (j - start) % (MEMORY_SIZE as int) >= i
                        ==> #[trigger] self.mem@[j] == before.mem@[j],
            decreases n - i,
        {
            let at: usize = (start + i) % MEMORY_SIZE;
            proof {
                lemma_place_of_wrapped(start as int, i as int);
            }
            self.mem.set(at, bytes[i]);
            i = i + 1;
        }
        assert forall|b: u8, a: u16|
            Self::image_place(bank, offset, b, a) >= bytes@.len() implies #[trigger] self.byte(b, a)
                == old(self).byte(b, a) by {
            let j = Self::index_of(b, a);
            assert(0 <= j < MEMORY_SIZE) by (nonlinear_arith)
                requires
                    j == b as int * 0x10000 + a as int,
                    0 <= b < 256,
                    0 <= a < 0x10000,
            ;
            assert((j - start) % (MEMORY_SIZE as int) >= i);
            assert(self.mem@[j] == before.mem@[j]);
            assert(self.byte(b, a) == before.byte(b, a));
            assert(before.byte(b, a) == old(self).byte(b, a));
        }
        assert forall|i: int|
            0 <= i < bytes@.len() && i < MEMORY_SIZE implies {
                let at = (Self::index_of(bank, offset) + i) % (MEMORY_SIZE as int);
                #[trigger] bytes@[i] == self.byte((at / 0x10000) as u8, (at % 0x10000) as u16)
            } by {
            let at = (start + i) % (MEMORY_SIZE as int);
            assert(self.mem@[at] == bytes@[i]);
            assert(Self::index_of((at / 0x10000) as u8, (at % 0x10000) as u16) == at);
        }
    }
}

/// Position `i` of an image that starts at index `start` lands on index
/// `(start + i) mod MEMORY_SIZE`, whose place in the image is `i` again.
proof fn lemma_place_of_wrapped(start: int, i: int)
    requires
        0 <= start < MEMORY_SIZE,
        0 <= i < MEMORY_SIZE,
    ensures
        ((start + i) % (MEMORY_SIZE as int) - start) % (MEMORY_SIZE as int) == i,
{
    let n = MEMORY_SIZE as int;
    if start + i < n {
        vstd::arithmetic::div_mod::lemma_small_mod((start + i) as nat, n as nat);
        vstd::arithmetic::div_mod::lemma_small_mod(i as nat, n as nat);
    } else {
        vstd::arithmetic::div_mod::lemma_mod_add_multiples_vanish(start + i - n, n);
        vstd::arithmetic::div_mod::lemma_small_mod((start + i - n) as nat, n as nat);
        vstd::arithmetic::div_mod::lemma_mod_add_multiples_vanish(i - n, n);
        vstd::arithmetic::div_mod::lemma_small_mod(i as nat, n as nat);
    }
}

impl Mem for SimpleMemory {
    closed spec fn byte(&self, bank: u8, address: u16) -> u8 {
        if self.mem@.len() == MEMORY_SIZE {
            self.mem@[Self::index_of(bank, address)]
        } else {
            0
        }
    }

    fn load(&self, bank: u8, address: u16) -> (r: u8) {
        self.load_from_store(bank, address)
    }

    fn store(&mut self, bank: u8, address: u16, to_store: u8) {
        self.store_value(bank, address, to_store);
    }
}

} // verus!
